//! The state of the root view: the workspace, the selected node and the
//! to-do list with its history.

use vstd::prelude::*;
use crate::command::EngineCommand;
use crate::identity::Identity;
use crate::input::InputEvent;
use crate::node_property::NodePropertyViewState;
use crate::todo_list::{
    applied, applies, filed, reverse, starting_items, target, TodoListCommand, TodoListModel,
};
use crate::todo_view::TodoListViewState;
use crate::undo_manager::{views, UndoManager};

verus! {

#[derive(Clone, Debug)]
pub enum WorkspaceKind {
    Layout,
    TodoList(TodoListViewState),
    HelloWorld,
}

#[derive(Clone, Debug)]
pub enum NodeSelection {
    Unselected,
    SingleSelection { id: Identity, property_view: NodePropertyViewState },
}

impl NodeSelection {
    /// Whether the selection is the node `node_id`.
    pub open spec fn selects(self, node_id: Identity) -> bool {
        match self {
            NodeSelection::Unselected => false,
            NodeSelection::SingleSelection { id, .. } => id == node_id,
        }
    }

    /// Tells whether the selection is the node `node_id`.
    pub fn is_selected(&self, node_id: Identity) -> (selected: bool)
        ensures
            selected == self.selects(node_id),
    {
        match self {
            NodeSelection::Unselected => false,
            NodeSelection::SingleSelection { id, .. } => *id == node_id,
        }
    }
}

#[derive(Clone, Debug)]
pub enum RootViewEvent {
    InputEvent(InputEvent),
    ChangeWorkspace(WorkspaceKind),
    ExitRequested,
    SingleNodeSelected(Identity),
}

/// What the owner of the view has to do after an event.
#[derive(Clone, Copy, Debug, PartialEq, Eq, Structural)]
pub enum RootViewAction {
    Nothing,
    /// Pass the command to the engine.
    Push(EngineCommand),
    /// Close the application.
    Exit,
}

#[derive(Clone, Debug)]
pub struct RootViewState {
    pub workspace: WorkspaceKind,
    pub node_selection: NodeSelection,
    pub undo_manager: UndoManager,
    pub todo_list: TodoListModel,
    pub events: Vec<RootViewEvent>,
    pub engine_commands: Vec<EngineCommand>,
}

impl RootViewState {
    /// The layout workspace, nothing selected, the to-do list as it starts,
    /// and no history.
    pub fn new() -> (state: RootViewState)
        ensures
            state.workspace is Layout,
            state.node_selection is Unselected,
            state.undo_manager.undo_stack@.len() == 0,
            state.undo_manager.redo_stack@.len() == 0,
            state.todo_list.wf(),
            exists|a: Identity, b: Identity, c: Identity|
                state.todo_list.entries() == filed(#[trigger] starting_items(a, b, c), 3),
            state.events@.len() == 0,
            state.engine_commands@.len() == 0,
    {
        Self {
            workspace: WorkspaceKind::Layout,
            node_selection: NodeSelection::Unselected,
            undo_manager: UndoManager::new(),
            todo_list: TodoListModel::default(),
            events: Vec::new(),
            engine_commands: Vec::new(),
        }
    }

    /// Handles one event of the view, and tells what is left to do for the
    /// owner: an input event is to be passed on, a request to exit to be
    /// followed; a new workspace and a selection are taken here.
    pub fn handle_event(&mut self, event: RootViewEvent) -> (action: RootViewAction)
        ensures
            action == match event {
                RootViewEvent::InputEvent(input) => RootViewAction::Push(
                    EngineCommand::InputEvent(input),
                ),
                RootViewEvent::ExitRequested => RootViewAction::Exit,
                _ => RootViewAction::Nothing,
            },
            final(self).workspace == match event {
                RootViewEvent::ChangeWorkspace(workspace) => workspace,
                _ => old(self).workspace,
            },
            match event {
                RootViewEvent::SingleNodeSelected(id) => {
                    &&& final(self).node_selection is SingleSelection
                    &&& final(self).node_selection.selects(id)
                    &&& final(self).node_selection->property_view.events@.len() == 0
                },
                _ => final(self).node_selection == old(self).node_selection,
            },
            final(self).undo_manager == old(self).undo_manager,
            final(self).todo_list == old(self).todo_list,
            final(self).events == old(self).events,
            final(self).engine_commands == old(self).engine_commands,
    {
        match event {
            RootViewEvent::InputEvent(input) => RootViewAction::Push(
                EngineCommand::InputEvent(input),
            ),
            RootViewEvent::ChangeWorkspace(workspace) => {
                self.workspace = workspace;
                RootViewAction::Nothing
            },
            RootViewEvent::ExitRequested => RootViewAction::Exit,
            RootViewEvent::SingleNodeSelected(id) => {
                self.node_selection = NodeSelection::SingleSelection {
                    id,
                    property_view: NodePropertyViewState::new(),
                };
                RootViewAction::Nothing
            },
        }
    }

    /// Applies a command to the to-do list and keeps its reverse for undo,
    /// which clears what could be redone. A command whose item is gone is
    /// dropped: neither the list nor the history changes. A new item
    /// without identity gets one drawn at random.
    pub fn apply_todo_command(&mut self, command: TodoListCommand) -> (done: bool)
        ensures
            old(self).todo_list.wf() ==> final(self).todo_list.wf(),
            final(self).todo_list.item_order == old(self).todo_list.item_order,
            exists|fresh: Identity|
                #![trigger target(command@, fresh)]
                done == applies(old(self).todo_list.entries(), command@, fresh) && if done {
                    &&& final(self).todo_list.entries() == applied(
                        old(self).todo_list.entries(),
                        command@,
                        fresh,
                    )
                    &&& views(final(self).undo_manager.undo_stack@) == views(
                        old(self).undo_manager.undo_stack@,
                    ).push(reverse(old(self).todo_list.entries(), command@, fresh))
                    &&& final(self).undo_manager.redo_stack@.len() == 0
                } else {
                    &&& final(self).todo_list.items@ == old(self).todo_list.items@
                    &&& final(self).undo_manager == old(self).undo_manager
                },
            final(self).workspace == old(self).workspace,
            final(self).node_selection == old(self).node_selection,
            final(self).events == old(self).events,
            final(self).engine_commands == old(self).engine_commands,
    {
        match self.todo_list.process_command(command) {
            Some(reverse_command) => {
                self.undo_manager.push_undo(reverse_command);
                true
            },
            None => false,
        }
    }
}

} // verus!
