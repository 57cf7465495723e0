//! Reasons for which an import is abandoned.

use vstd::prelude::*;

verus! {

/// A fatal condition met while importing a document. No partial scene is
/// ever returned together with one of these.
#[derive(Clone, Copy, Debug, PartialEq, Eq, Structural)]
pub enum ImportError {
    /// The identity plan does not hold one identity per element.
    IdentityShortage,
    /// The plan gives one identity to two entities, of one kind or of two.
    IdentityCollision,
    /// A material carries no index of its own.
    MaterialWithoutIndex,
    /// A primitive lacks its indices, positions or normals.
    MissingAttribute,
    /// An accessor names no buffer view.
    MissingBufferView,
    /// The element stride differs from the one the vertex layout needs.
    UnsupportedLayout,
    /// An accessor reaches outside its buffer, or names a buffer that the
    /// document does not hold.
    OutOfBounds,
    /// A buffer would have to be larger than the machine can address.
    CapacityOverflow,
    /// Indices are neither two nor four bytes wide.
    UnsupportedIndexWidth,
    /// A scene, node or primitive refers to an index that no element has.
    DanglingReference,
}

} // verus!
