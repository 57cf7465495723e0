//! The state of the to-do list view, and what its events lead to.
//!
//! The view draws and reports events; handling an event changes the state
//! of the view and leaves commands and requests in the context. The model
//! is only read.

use vstd::prelude::*;
use crate::framework::TodoListContextImpl;
use crate::identity::Identity;
use crate::todo_list::{TodoItemView, TodoListCommand, TodoListCommandView};
use crate::undo_manager::views;

verus! {

/// The item whose title is being edited, with the text as edited so far.
#[derive(Clone, Debug)]
pub struct EditingItem {
    pub request_focus: bool,
    pub id: Identity,
    pub title: String,
}

#[derive(Clone, Copy, Debug, PartialEq, Eq, Structural)]
pub enum TodoListViewEvent {
    TodoItemCreated,
    EditingStartedTodoItemTitle { id: Identity },
    EditingFinishedTodoItemTitle,
    TodoItemDeleted { id: Identity },
    TodoItemToggled { id: Identity },
    UndoRequested,
    RedoRequested,
}

#[derive(Clone, Debug)]
pub struct TodoListViewState {
    /// Text of the item that is about to be added.
    pub new_title: String,
    pub edit_state: Option<EditingItem>,
    /// Events of the frame that are not handled yet.
    pub events: Vec<TodoListViewEvent>,
}

/// The commands that the end of an edit leads to: a new title where the
/// text differs from the title of the item, nothing where it does not,
/// where the item is gone, or where nothing was being edited.
pub open spec fn finishing(edit: Option<EditingItem>, items: Map<Identity, TodoItemView>) -> Seq<
    TodoListCommandView,
> {
    match edit {
        Some(e) => if items.contains_key(e.id) && items[e.id].title != e.title@ {
            seq![TodoListCommandView::UpdateTitleOfTodoItem { id: e.id, title: e.title@ }]
        } else {
            Seq::empty()
        },
        None => Seq::empty(),
    }
}

/// The commands that an event leads to.
pub open spec fn commands_of(
    state: TodoListViewState,
    event: TodoListViewEvent,
    items: Map<Identity, TodoItemView>,
) -> Seq<TodoListCommandView> {
    match event {
        TodoListViewEvent::TodoItemCreated => seq![
            TodoListCommandView::CreateTodoItem {
                id: None,
                title: state.new_title@,
                completed: false,
            },
        ],
        TodoListViewEvent::EditingFinishedTodoItemTitle => finishing(state.edit_state, items),
        TodoListViewEvent::TodoItemDeleted { id } => finishing(state.edit_state, items).push(
            TodoListCommandView::DeleteTodoItem { id },
        ),
        TodoListViewEvent::TodoItemToggled { id } => if items.contains_key(id) {
            seq![
                TodoListCommandView::UpdateCompletedOfTodoItem {
                    id,
                    completed: !items[id].completed,
                },
            ]
        } else {
            Seq::empty()
        },
        _ => Seq::empty(),
    }
}

/// Whether `after` is the item being edited after an event: the item of
/// which an edit starts, nothing once an edit ends or an item is deleted,
/// and else what it was.
pub open spec fn editing_after(
    before: Option<EditingItem>,
    event: TodoListViewEvent,
    items: Map<Identity, TodoItemView>,
    after: Option<EditingItem>,
) -> bool {
    match event {
        TodoListViewEvent::EditingStartedTodoItemTitle { id } => if items.contains_key(id) {
            after is Some && after->0.id == id && after->0.title@ == items[id].title
                && after->0.request_focus
        } else {
            after == before
        },
        TodoListViewEvent::EditingFinishedTodoItemTitle => after is None,
        TodoListViewEvent::TodoItemDeleted { .. } => after is None,
        _ => after == before,
    }
}

impl TodoListViewState {
    /// A view with no text, no edit and no event.
    pub fn new() -> (state: Self)
        ensures
            state.new_title@ == Seq::<char>::empty(),
            state.edit_state is None,
            state.events@ == Seq::<TodoListViewEvent>::empty(),
    {
        Self { new_title: String::new(), edit_state: None, events: Vec::new() }
    }

    /// Ends the edit, if there is one, and asks for the new title where the
    /// text differs from the title of the item.
    pub fn try_finish_editing(&mut self, ctx: &mut TodoListContextImpl)
        ensures
            final(self).edit_state is None,
            final(self).new_title == old(self).new_title,
            final(self).events == old(self).events,
            views(final(ctx).model_commands@) == views(old(ctx).model_commands@) + finishing(
                old(self).edit_state,
                old(ctx).model.entries(),
            ),
            final(ctx).model == old(ctx).model,
            final(ctx).undo_manager == old(ctx).undo_manager,
            final(ctx).undo_requested == old(ctx).undo_requested,
            final(ctx).redo_requested == old(ctx).redo_requested,
            final(ctx).exit_requested == old(ctx).exit_requested,
    {
        broadcast use vstd::std_specs::hash::group_hash_axioms;

        let ghost before = views(ctx.model_commands@);
        let mut edit: Option<EditingItem> = None;
        std::mem::swap(&mut self.edit_state, &mut edit);
        match edit {
            Some(editing) => {
                let differs = match ctx.model.items.get(&editing.id) {
                    Some(item) => item.title != editing.title,
                    None => false,
                };
                if differs {
                    let command = TodoListCommand::UpdateTitleOfTodoItem {
                        id: editing.id,
                        title: editing.title,
                    };
                    ctx.model_commands.push(command);
                    assert(views(ctx.model_commands@) =~= before + seq![command@]);
                } else {
                    assert(views(ctx.model_commands@) =~= before + Seq::empty());
                }
            },
            None => {
                assert(views(ctx.model_commands@) =~= before + Seq::empty());
            },
        }
    }

    /// Handles one event of the view.
    pub fn handle_view_event(&mut self, ctx: &mut TodoListContextImpl, event: TodoListViewEvent)
        ensures
            views(final(ctx).model_commands@) == views(old(ctx).model_commands@) + commands_of(
                *old(self),
                event,
                old(ctx).model.entries(),
            ),
            editing_after(
                old(self).edit_state,
                event,
                old(ctx).model.entries(),
                final(self).edit_state,
            ),
            final(self).new_title@ == if event is TodoItemCreated {
                Seq::<char>::empty()
            } else {
                old(self).new_title@
            },
            final(self).events == old(self).events,
            final(ctx).undo_requested == (old(ctx).undo_requested || event is UndoRequested),
            final(ctx).redo_requested == (old(ctx).redo_requested || event is RedoRequested),
            final(ctx).exit_requested == old(ctx).exit_requested,
            final(ctx).model == old(ctx).model,
            final(ctx).undo_manager == old(ctx).undo_manager,
    {
        broadcast use vstd::std_specs::hash::group_hash_axioms;

        let ghost before = views(ctx.model_commands@);
        match event {
            TodoListViewEvent::TodoItemCreated => {
                let mut title = String::new();
                std::mem::swap(&mut self.new_title, &mut title);
                let command = TodoListCommand::CreateTodoItem { id: None, title, completed: false };
                ctx.model_commands.push(command);
                assert(views(ctx.model_commands@) =~= before + seq![command@]);
            },
            TodoListViewEvent::EditingStartedTodoItemTitle { id } => {
                match ctx.model.items.get(&id) {
                    Some(item) => {
                        self.edit_state = Some(
                            EditingItem { id, title: item.title.clone(), request_focus: true },
                        );
                    },
                    None => {},
                }
                assert(views(ctx.model_commands@) =~= before + Seq::empty());
            },
            TodoListViewEvent::EditingFinishedTodoItemTitle => {
                self.try_finish_editing(ctx);
            },
            TodoListViewEvent::TodoItemDeleted { id } => {
                self.try_finish_editing(ctx);
                let ghost finished = views(ctx.model_commands@);
                let command = TodoListCommand::DeleteTodoItem { id };
                ctx.model_commands.push(command);
                assert(views(ctx.model_commands@) =~= finished.push(command@));
                assert(views(ctx.model_commands@) =~= before + finishing(
                    old(self).edit_state,
                    old(ctx).model.entries(),
                ).push(command@));
            },
            TodoListViewEvent::TodoItemToggled { id } => {
                match ctx.model.items.get(&id) {
                    Some(item) => {
                        let command = TodoListCommand::UpdateCompletedOfTodoItem {
                            id,
                            completed: !item.completed,
                        };
                        ctx.model_commands.push(command);
                        assert(views(ctx.model_commands@) =~= before + seq![command@]);
                    },
                    None => {
                        assert(views(ctx.model_commands@) =~= before + Seq::empty());
                    },
                }
            },
            TodoListViewEvent::UndoRequested => {
                ctx.undo_requested = true;
                assert(views(ctx.model_commands@) =~= before + Seq::empty());
            },
            TodoListViewEvent::RedoRequested => {
                ctx.redo_requested = true;
                assert(views(ctx.model_commands@) =~= before + Seq::empty());
            },
        }
    }
}

} // verus!
