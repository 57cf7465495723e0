//! What a view is given to work with: a model to read, and a place to
//! leave commands and requests.

use vstd::prelude::*;
use crate::todo_list::{TodoListCommand, TodoListModel};
use crate::undo_manager::UndoManager;

verus! {

/// The context of a view over a model. The view reads the model and asks
/// for changes by commands; it never changes the model itself.
pub trait ViewContext<Model, Command> {
    fn model(&self) -> &Model;

    fn push_command(&mut self, command: Command);

    fn exit_requested(&self) -> bool;

    fn request_exit(&mut self);
}

/// The context of a view that offers undo and redo.
pub trait UndoableViewContext {
    fn can_undo(&self) -> bool;

    fn can_redo(&self) -> bool;

    fn undo_requested(&self) -> bool;

    fn redo_requested(&self) -> bool;

    fn request_undo(&mut self);

    fn request_redo(&mut self);
}

/// The context of the to-do list view for one frame: it gathers the
/// commands and requests that the view leaves.
pub struct TodoListContextImpl<'a> {
    pub model: &'a TodoListModel,
    pub undo_manager: &'a UndoManager,
    pub model_commands: Vec<TodoListCommand>,
    pub undo_requested: bool,
    pub redo_requested: bool,
    pub exit_requested: bool,
}

impl<'a> TodoListContextImpl<'a> {
    /// A context with no command and no request.
    pub fn new(model: &'a TodoListModel, undo_manager: &'a UndoManager) -> (context: Self)
        ensures
            *context.model == *model,
            *context.undo_manager == *undo_manager,
            context.model_commands@.len() == 0,
            !context.undo_requested,
            !context.redo_requested,
            !context.exit_requested,
    {
        Self {
            model,
            undo_manager,
            model_commands: Vec::new(),
            undo_requested: false,
            redo_requested: false,
            exit_requested: false,
        }
    }
}

impl<'a> ViewContext<TodoListModel, TodoListCommand> for TodoListContextImpl<'a> {
    fn model(&self) -> (model: &TodoListModel)
        ensures
            *model == *self.model,
    {
        self.model
    }

    fn push_command(&mut self, command: TodoListCommand)
        ensures
            final(self).model_commands@ == old(self).model_commands@.push(command),
            final(self).undo_requested == old(self).undo_requested,
            final(self).redo_requested == old(self).redo_requested,
            final(self).exit_requested == old(self).exit_requested,
    {
        self.model_commands.push(command);
    }

    fn exit_requested(&self) -> (requested: bool)
        ensures
            requested == self.exit_requested,
    {
        self.exit_requested
    }

    fn request_exit(&mut self)
        ensures
            final(self).exit_requested,
            final(self).model_commands == old(self).model_commands,
            final(self).undo_requested == old(self).undo_requested,
            final(self).redo_requested == old(self).redo_requested,
    {
        self.exit_requested = true;
    }
}

impl<'a> UndoableViewContext for TodoListContextImpl<'a> {
    fn can_undo(&self) -> (can: bool)
        ensures
            can == (self.undo_manager.undo_stack@.len() > 0),
    {
        self.undo_manager.can_undo()
    }

    fn can_redo(&self) -> (can: bool)
        ensures
            can == (self.undo_manager.redo_stack@.len() > 0),
    {
        self.undo_manager.can_redo()
    }

    fn undo_requested(&self) -> (requested: bool)
        ensures
            requested == self.undo_requested,
    {
        self.undo_requested
    }

    fn redo_requested(&self) -> (requested: bool)
        ensures
            requested == self.redo_requested,
    {
        self.redo_requested
    }

    fn request_undo(&mut self)
        ensures
            final(self).undo_requested,
            final(self).model_commands == old(self).model_commands,
            final(self).redo_requested == old(self).redo_requested,
            final(self).exit_requested == old(self).exit_requested,
    {
        self.undo_requested = true;
    }

    fn request_redo(&mut self)
        ensures
            final(self).redo_requested,
            final(self).model_commands == old(self).model_commands,
            final(self).undo_requested == old(self).undo_requested,
            final(self).exit_requested == old(self).exit_requested,
    {
        self.redo_requested = true;
    }
}

} // verus!
