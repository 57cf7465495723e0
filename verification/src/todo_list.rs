//! A to-do list as a model that commands act on. Every command that is
//! applied gives back the command that undoes it.

use vstd::prelude::*;
use std::collections::HashMap;
use crate::identity::{fresh_identity, Identity};

verus! {

#[derive(Clone, Debug)]
pub struct TodoItem {
    pub id: Identity,
    pub title: String,
    pub completed: bool,
}

/// An item as a mathematical value.
pub struct TodoItemView {
    pub id: Identity,
    pub title: Seq<char>,
    pub completed: bool,
}

impl View for TodoItem {
    type V = TodoItemView;

    open spec fn view(&self) -> TodoItemView {
        TodoItemView { id: self.id, title: self.title@, completed: self.completed }
    }
}

#[allow(inconsistent_fields)]
#[derive(Clone, Debug)]
pub enum TodoListCommand {
    /// Adds an item, under a fresh identity where none is given.
    CreateTodoItem { id: Option<Identity>, title: String, completed: bool },
    UpdateCompletedOfTodoItem { id: Identity, completed: bool },
    UpdateTitleOfTodoItem { id: Identity, title: String },
    DeleteTodoItem { id: Identity },
}

/// A command as a mathematical value.
#[allow(inconsistent_fields)]
pub enum TodoListCommandView {
    CreateTodoItem { id: Option<Identity>, title: Seq<char>, completed: bool },
    UpdateCompletedOfTodoItem { id: Identity, completed: bool },
    UpdateTitleOfTodoItem { id: Identity, title: Seq<char> },
    DeleteTodoItem { id: Identity },
}

impl View for TodoListCommand {
    type V = TodoListCommandView;

    open spec fn view(&self) -> TodoListCommandView {
        match *self {
            TodoListCommand::CreateTodoItem { id, title, completed } => {
                TodoListCommandView::CreateTodoItem { id, title: title@, completed }
            },
            TodoListCommand::UpdateCompletedOfTodoItem { id, completed } => {
                TodoListCommandView::UpdateCompletedOfTodoItem { id, completed }
            },
            TodoListCommand::UpdateTitleOfTodoItem { id, title } => {
                TodoListCommandView::UpdateTitleOfTodoItem { id, title: title@ }
            },
            TodoListCommand::DeleteTodoItem { id } => TodoListCommandView::DeleteTodoItem { id },
        }
    }
}

/// The item that a command acts on; for a new item without identity, the
/// fresh one.
pub open spec fn target(command: TodoListCommandView, fresh: Identity) -> Identity {
    match command {
        TodoListCommandView::CreateTodoItem { id, .. } => match id {
            Some(id) => id,
            None => fresh,
        },
        TodoListCommandView::UpdateCompletedOfTodoItem { id, .. } => id,
        TodoListCommandView::UpdateTitleOfTodoItem { id, .. } => id,
        TodoListCommandView::DeleteTodoItem { id } => id,
    }
}

/// Whether a command can be applied: every command but the one that adds
/// an item needs its item to be there.
pub open spec fn applies(
    items: Map<Identity, TodoItemView>,
    command: TodoListCommandView,
    fresh: Identity,
) -> bool {
    command is CreateTodoItem || items.contains_key(target(command, fresh))
}

/// The items after a command that applies.
pub open spec fn applied(
    items: Map<Identity, TodoItemView>,
    command: TodoListCommandView,
    fresh: Identity,
) -> Map<Identity, TodoItemView> {
    let id = target(command, fresh);
    match command {
        TodoListCommandView::CreateTodoItem { title, completed, .. } => items.insert(
            id,
            TodoItemView { id, title, completed },
        ),
        TodoListCommandView::UpdateCompletedOfTodoItem { completed, .. } => items.insert(
            id,
            TodoItemView { completed, ..items[id] },
        ),
        TodoListCommandView::UpdateTitleOfTodoItem { title, .. } => items.insert(
            id,
            TodoItemView { title, ..items[id] },
        ),
        TodoListCommandView::DeleteTodoItem { .. } => items.remove(id),
    }
}

/// The command that a command that applies gives back: a deletion for a
/// new item, the old title for a new title, the item for a deletion, and
/// for a new state of completion the opposite state.
pub open spec fn reverse(
    items: Map<Identity, TodoItemView>,
    command: TodoListCommandView,
    fresh: Identity,
) -> TodoListCommandView {
    let id = target(command, fresh);
    match command {
        TodoListCommandView::CreateTodoItem { .. } => TodoListCommandView::DeleteTodoItem { id },
        TodoListCommandView::UpdateCompletedOfTodoItem { completed, .. } => {
            TodoListCommandView::UpdateCompletedOfTodoItem { id, completed: !completed }
        },
        TodoListCommandView::UpdateTitleOfTodoItem { .. } => {
            TodoListCommandView::UpdateTitleOfTodoItem { id, title: items[id].title }
        },
        TodoListCommandView::DeleteTodoItem { .. } => TodoListCommandView::CreateTodoItem {
            id: Some(items[id].id),
            title: items[id].title,
            completed: items[id].completed,
        },
    }
}

/// Whether every item is filed under its own identity.
pub open spec fn filed_by_identity(items: Map<Identity, TodoItemView>) -> bool {
    forall|id: Identity| #[trigger] items.contains_key(id) ==> items[id].id == id
}

/// Whether a command changes the list: a new item must not take the place
/// of another, and a state of completion must differ from the present one.
pub open spec fn changes(
    items: Map<Identity, TodoItemView>,
    command: TodoListCommandView,
    fresh: Identity,
) -> bool {
    match command {
        TodoListCommandView::CreateTodoItem { .. } => !items.contains_key(target(command, fresh)),
        TodoListCommandView::UpdateCompletedOfTodoItem { id, completed } => items[id].completed
            != completed,
        _ => true,
    }
}

/// Undo: the command that a command gives back applies to the list that
/// the command leaves, and leaves the list as it was before.
pub proof fn lemma_reverse_undoes(
    items: Map<Identity, TodoItemView>,
    command: TodoListCommandView,
    fresh: Identity,
    other: Identity,
)
    requires
        filed_by_identity(items),
        applies(items, command, fresh),
        changes(items, command, fresh),
    ensures
        applies(applied(items, command, fresh), reverse(items, command, fresh), other),
        applied(applied(items, command, fresh), reverse(items, command, fresh), other) == items,
{
    let after = applied(items, command, fresh);
    let back = reverse(items, command, fresh);
    assert(applied(after, back, other) =~= items);
}

/// Redo: the command that undoes the undoing does again what the command
/// did.
pub proof fn lemma_reverse_redoes(
    items: Map<Identity, TodoItemView>,
    command: TodoListCommandView,
    fresh: Identity,
    other: Identity,
)
    requires
        filed_by_identity(items),
        applies(items, command, fresh),
        changes(items, command, fresh),
    ensures
        applied(
            items,
            reverse(applied(items, command, fresh), reverse(items, command, fresh), other),
            other,
        ) == applied(items, command, fresh),
{
    let after = applied(items, command, fresh);
    let back = reverse(items, command, fresh);
    let again = reverse(after, back, other);
    assert(applied(items, again, other) =~= after);
}

/// The first `n` of a sequence of items, filed by identity; of two items
/// with one identity the later one stays.
pub open spec fn filed(items: Seq<TodoItemView>, n: nat) -> Map<Identity, TodoItemView>
    decreases n,
{
    if n == 0 {
        Map::empty()
    } else {
        filed(items, (n - 1) as nat).insert(items[n - 1].id, items[n - 1])
    }
}

#[derive(Clone, Debug)]
pub struct TodoListModel {
    pub items: HashMap<Identity, TodoItem>,
    pub item_order: Vec<Identity>,
}

impl TodoListModel {
    /// Files the items by identity.
    pub fn from_items(items: Vec<TodoItem>) -> (model: TodoListModel)
        ensures
            model.wf(),
            model.entries() == filed(items@.map_values(|item: TodoItem| item@), items@.len()),
            model.item_order@ == Seq::<Identity>::empty(),
    {
        broadcast use vstd::std_specs::hash::group_hash_axioms;

        let ghost views = items@.map_values(|item: TodoItem| item@);
        let mut model = TodoListModel { items: HashMap::new(), item_order: Vec::new() };
        assert(model.entries() =~= filed(views, 0));
        for item in it: items
            invariant
                views == items@.map_values(|item: TodoItem| item@),
                model.wf(),
                model.entries() == filed(views, it.index() as nat),
                model.item_order@ == Seq::<Identity>::empty(),
        {
            let ghost before = model.entries();
            model.items.insert(item.id, item);
            assert(model.entries() =~= before.insert(item.id, item@));
        }
        model
    }

    /// The items of the list, by identity.
    pub open spec fn entries(self) -> Map<Identity, TodoItemView> {
        Map::new(|id: Identity| self.items@.contains_key(id), |id: Identity| self.items@[id]@)
    }

    /// Whether every item is filed under its own identity.
    pub open spec fn wf(self) -> bool {
        forall|id: Identity| #[trigger] self.items@.contains_key(id) ==> self.items@[id].id == id
    }

    /// Applies a command, with `fresh` for the identity of a new item that
    /// has none, and gives back the command that undoes it. A command whose
    /// item is not there changes nothing and gives back nothing.
    pub fn process_command_with(&mut self, command: TodoListCommand, fresh: Identity) -> (r:
        Option<TodoListCommand>)
        ensures
            final(self).item_order == old(self).item_order,
            old(self).wf() ==> final(self).wf(),
            match r {
                Some(undo) => {
                    &&& applies(old(self).entries(), command@, fresh)
                    &&& final(self).entries() == applied(old(self).entries(), command@, fresh)
                    &&& undo@ == reverse(old(self).entries(), command@, fresh)
                },
                None => {
                    &&& !applies(old(self).entries(), command@, fresh)
                    &&& final(self).items@ == old(self).items@
                },
            },
    {
        broadcast use vstd::std_specs::hash::group_hash_axioms;

        match command {
            TodoListCommand::CreateTodoItem { id, title, completed } => {
                let id = match id {
                    Some(id) => id,
                    None => fresh,
                };
                self.items.insert(id, TodoItem { id, title, completed });
                assert(self.entries() =~= applied(old(self).entries(), command@, fresh));
                let undo = TodoListCommand::DeleteTodoItem { id };
                Some(undo)
            },
            TodoListCommand::UpdateCompletedOfTodoItem { id, completed } => {
                match self.items.remove(&id) {
                    Some(item) => {
                        let mut item = item;
                        item.completed = completed;
                        self.items.insert(id, item);
                        assert(self.entries() =~= applied(old(self).entries(), command@, fresh));
                        let undo = TodoListCommand::UpdateCompletedOfTodoItem {
                            id,
                            completed: !completed,
                        };
                                Some(undo)
                    },
                    None => {
                        assert(self.items@ =~= old(self).items@);
                        None
                    },
                }
            },
            TodoListCommand::UpdateTitleOfTodoItem { id, title } => {
                match self.items.remove(&id) {
                    Some(item) => {
                        let TodoItem { id: item_id, title: old_title, completed } = item;
                        self.items.insert(id, TodoItem { id: item_id, title, completed });
                        assert(self.entries() =~= applied(old(self).entries(), command@, fresh));
                        let undo = TodoListCommand::UpdateTitleOfTodoItem { id, title: old_title };
                                Some(undo)
                    },
                    None => {
                        assert(self.items@ =~= old(self).items@);
                        None
                    },
                }
            },
            TodoListCommand::DeleteTodoItem { id } => {
                match self.items.remove(&id) {
                    Some(item) => {
                        let TodoItem { id: item_id, title, completed } = item;
                        assert(self.entries() =~= applied(old(self).entries(), command@, fresh));
                        let undo = TodoListCommand::CreateTodoItem {
                            id: Some(item_id),
                            title,
                            completed,
                        };
                                Some(undo)
                    },
                    None => {
                        assert(self.items@ =~= old(self).items@);
                        None
                    },
                }
            },
        }
    }

    /// Applies a command and gives back the command that undoes it. A new
    /// item without identity gets one drawn at random, and nothing is drawn
    /// for any other command: the outcome is that of `process_command_with`
    /// for some identity.
    pub fn process_command(&mut self, command: TodoListCommand) -> (r: Option<TodoListCommand>)
        ensures
            final(self).item_order == old(self).item_order,
            old(self).wf() ==> final(self).wf(),
            exists|fresh: Identity|
                #![trigger target(command@, fresh)]
                match r {
                    Some(undo) => {
                        &&& applies(old(self).entries(), command@, fresh)
                        &&& final(self).entries() == applied(old(self).entries(), command@, fresh)
                        &&& undo@ == reverse(old(self).entries(), command@, fresh)
                    },
                    None => {
                        &&& !applies(old(self).entries(), command@, fresh)
                        &&& final(self).items@ == old(self).items@
                    },
                },
    {
        let fresh = match &command {
            TodoListCommand::CreateTodoItem { id: None, .. } => fresh_identity(),
            _ => 0,
        };
        let ghost before = self.entries();
        let ghost before_items = self.items;
        let r = self.process_command_with(command, fresh);
        proof {
            let _ = target(command@, fresh);
            assert(match r {
                Some(undo) => {
                    &&& applies(before, command@, fresh)
                    &&& self.entries() == applied(before, command@, fresh)
                    &&& undo@ == reverse(before, command@, fresh)
                },
                None => {
                    &&& !applies(before, command@, fresh)
                    &&& self.items@ == before_items@
                },
            });
        }
        r
    }
}

/// The three items that a new list starts with, under given identities.
pub open spec fn starting_items(a: Identity, b: Identity, c: Identity) -> Seq<TodoItemView> {
    seq![
        TodoItemView { id: a, title: "egui Basics"@, completed: true },
        TodoItemView { id: b, title: "egui Intermediate"@, completed: false },
        TodoItemView { id: c, title: "egui Complex Application"@, completed: false },
    ]
}

impl Default for TodoListModel {
    /// A list of three items, under identities drawn at random.
    fn default() -> (model: TodoListModel)
        ensures
            model.wf(),
            model.item_order@ == Seq::<Identity>::empty(),
            exists|a: Identity, b: Identity, c: Identity|
                model.entries() == filed(#[trigger] starting_items(a, b, c), 3),
    {
        let a = fresh_identity();
        let b = fresh_identity();
        let c = fresh_identity();
        let mut items: Vec<TodoItem> = Vec::new();
        items.push(TodoItem { id: a, title: "egui Basics".to_owned(), completed: true });
        items.push(TodoItem { id: b, title: "egui Intermediate".to_owned(), completed: false });
        items.push(
            TodoItem { id: c, title: "egui Complex Application".to_owned(), completed: false },
        );
        proof {
            assert(items@.map_values(|item: TodoItem| item@) =~= starting_items(a, b, c));
        }
        TodoListModel::from_items(items)
    }
}

} // verus!
