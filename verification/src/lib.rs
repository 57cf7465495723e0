//! The core of a glTF viewer: import of a document into a resident scene,
//! the walk of the scene graph that each frame makes, and the list of draw
//! calls that comes of it.
//!
//! The library decides and the caller acts. It takes a document as plain
//! values and gives back the scene with the contents of every buffer; it
//! takes input events and times and gives back what to show and to draw.
//! It touches neither file nor device nor clock. Real numbers are carried
//! as bit patterns of single-precision numbers; the one piece of
//! arithmetic that is done on them tells whether a scale vanishes.
//!
//! - [`source`]: the document as plain values;
//! - [`import`], [`assemble`], [`diagnostics`]: the importers, from
//!   accessor to scene, and what they pass over;
//! - [`model`], [`mesh`], [`transform`], [`identity`]: the resident scene;
//! - [`frame`], [`render`]: the visible nodes of a frame and their draws;
//! - [`input`], [`camera`], [`engine`]: input sessions and the engine;
//! - [`command`], [`node_property`], [`root_view`]: commands and the views
//!   that give them;
//! - [`todo_list`], [`todo_view`], [`undo_manager`], [`framework`]: the
//!   to-do list with undo and redo;
//! - [`single`]: the arithmetic that tells a vanishing scale.

pub mod assemble;
pub mod camera;
pub mod command;
pub mod diagnostics;
pub mod engine;
pub mod error;
pub mod frame;
pub mod framework;
pub mod identity;
pub mod import;
pub mod input;
pub mod mesh;
pub mod model;
pub mod node_property;
pub mod render;
pub mod root_view;
pub mod single;
pub mod source;
pub mod todo_list;
pub mod todo_view;
pub mod transform;
pub mod undo_manager;
