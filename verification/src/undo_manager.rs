//! Undo and redo: two stacks of commands.

use vstd::prelude::*;
use crate::identity::Identity;
use crate::todo_list::{
    applied, applies, reverse, target, TodoListCommand, TodoListCommandView, TodoListModel,
};

verus! {

/// The commands of a stack as mathematical values, the top last.
pub open spec fn views(stack: Seq<TodoListCommand>) -> Seq<TodoListCommandView> {
    Seq::new(stack.len(), |i: int| stack[i]@)
}

/// Whether taking the command on top of `from` and applying it to the
/// model, with `fresh` for the identity of a new item that has none, gives
/// the model and the stacks `from_after` and `onto_after`. A command that
/// applies leaves its reverse on top of the other stack; one that does not
/// apply is dropped.
pub open spec fn replayed(
    from: Seq<TodoListCommandView>,
    onto: Seq<TodoListCommandView>,
    before: TodoListModel,
    from_after: Seq<TodoListCommandView>,
    onto_after: Seq<TodoListCommandView>,
    after: TodoListModel,
    fresh: Identity,
) -> bool {
    let command = from.last();
    &&& from_after == from.drop_last()
    &&& if applies(before.entries(), command, fresh) {
        &&& after.entries() == applied(before.entries(), command, fresh)
        &&& onto_after == onto.push(reverse(before.entries(), command, fresh))
    } else {
        &&& after.items@ == before.items@
        &&& onto_after == onto
    }
}

/// Takes the command on top of `from`, applies it to the model, and puts
/// its reverse on top of `onto`. With nothing on `from`, nothing happens.
fn replay(
    from: &mut Vec<TodoListCommand>,
    onto: &mut Vec<TodoListCommand>,
    model: &mut TodoListModel,
)
    ensures
        old(model).wf() ==> final(model).wf(),
        final(model).item_order == old(model).item_order,
        old(from)@.len() == 0 ==> {
            &&& views(final(from)@) == views(old(from)@)
            &&& views(final(onto)@) == views(old(onto)@)
            &&& final(model).items@ == old(model).items@
        },
        old(from)@.len() > 0 ==> exists|fresh: Identity|
            #[trigger] replayed(
                views(old(from)@),
                views(old(onto)@),
                *old(model),
                views(final(from)@),
                views(final(onto)@),
                *final(model),
                fresh,
            ),
{
    let ghost entries = model.entries();
    match from.pop() {
        Some(command) => {
            assert(views(from@) =~= views(old(from)@).drop_last());
            assert(command@ == views(old(from)@).last());
            let reversed = model.process_command(command);
            let ghost fresh = choose|fresh: Identity|
                #![trigger target(command@, fresh)]
                match reversed {
                    Some(undo) => {
                        &&& applies(entries, command@, fresh)
                        &&& model.entries() == applied(entries, command@, fresh)
                        &&& undo@ == reverse(entries, command@, fresh)
                    },
                    None => {
                        &&& !applies(entries, command@, fresh)
                        &&& model.items@ == old(model).items@
                    },
                };
            match reversed {
                Some(reverse_command) => {
                    onto.push(reverse_command);
                    assert(views(onto@) =~= views(old(onto)@).push(reverse_command@));
                },
                None => {
                    assert(views(onto@) =~= views(old(onto)@));
                },
            }
            assert(replayed(
                views(old(from)@),
                views(old(onto)@),
                *old(model),
                views(from@),
                views(onto@),
                *model,
                fresh,
            ));
        },
        None => {},
    }
}

#[derive(Clone, Debug)]
pub struct UndoManager {
    pub undo_stack: Vec<TodoListCommand>,
    pub redo_stack: Vec<TodoListCommand>,
}

impl UndoManager {
    /// A manager with nothing to undo or redo.
    pub fn new() -> (manager: Self)
        ensures
            manager.undo_stack@.len() == 0,
            manager.redo_stack@.len() == 0,
    {
        Self { undo_stack: Vec::new(), redo_stack: Vec::new() }
    }

    pub fn can_undo(&self) -> (can: bool)
        ensures
            can == (self.undo_stack@.len() > 0),
    {
        self.undo_stack.len() > 0
    }

    pub fn can_redo(&self) -> (can: bool)
        ensures
            can == (self.redo_stack@.len() > 0),
    {
        self.redo_stack.len() > 0
    }

    /// Applies the last command that undoes something, and keeps its
    /// reverse for `redo`. With nothing to undo, nothing happens.
    pub fn undo(&mut self, model: &mut TodoListModel)
        ensures
            old(model).wf() ==> final(model).wf(),
            final(model).item_order == old(model).item_order,
            old(self).undo_stack@.len() == 0 ==> {
                &&& views(final(self).undo_stack@) == views(old(self).undo_stack@)
                &&& views(final(self).redo_stack@) == views(old(self).redo_stack@)
                &&& final(model).items@ == old(model).items@
            },
            old(self).undo_stack@.len() > 0 ==> exists|fresh: Identity|
                #[trigger] replayed(
                    views(old(self).undo_stack@),
                    views(old(self).redo_stack@),
                    *old(model),
                    views(final(self).undo_stack@),
                    views(final(self).redo_stack@),
                    *final(model),
                    fresh,
                ),
    {
        replay(&mut self.undo_stack, &mut self.redo_stack, model);
        proof {
            if old(self).undo_stack@.len() > 0 {
                let fresh = choose|fresh: Identity|
                    #[trigger] replayed(
                        views(old(self).undo_stack@),
                        views(old(self).redo_stack@),
                        *old(model),
                        views(self.undo_stack@),
                        views(self.redo_stack@),
                        *model,
                        fresh,
                    );
                assert(replayed(
                    views(old(self).undo_stack@),
                    views(old(self).redo_stack@),
                    *old(model),
                    views(self.undo_stack@),
                    views(self.redo_stack@),
                    *model,
                    fresh,
                ));
            }
        }
    }

    /// Applies the last command that was undone, and keeps its reverse for
    /// `undo`. With nothing to redo, nothing happens.
    pub fn redo(&mut self, model: &mut TodoListModel)
        ensures
            old(model).wf() ==> final(model).wf(),
            final(model).item_order == old(model).item_order,
            old(self).redo_stack@.len() == 0 ==> {
                &&& views(final(self).undo_stack@) == views(old(self).undo_stack@)
                &&& views(final(self).redo_stack@) == views(old(self).redo_stack@)
                &&& final(model).items@ == old(model).items@
            },
            old(self).redo_stack@.len() > 0 ==> exists|fresh: Identity|
                #[trigger] replayed(
                    views(old(self).redo_stack@),
                    views(old(self).undo_stack@),
                    *old(model),
                    views(final(self).redo_stack@),
                    views(final(self).undo_stack@),
                    *final(model),
                    fresh,
                ),
    {
        replay(&mut self.redo_stack, &mut self.undo_stack, model);
        proof {
            if old(self).redo_stack@.len() > 0 {
                let fresh = choose|fresh: Identity|
                    #[trigger] replayed(
                        views(old(self).redo_stack@),
                        views(old(self).undo_stack@),
                        *old(model),
                        views(self.redo_stack@),
                        views(self.undo_stack@),
                        *model,
                        fresh,
                    );
                assert(replayed(
                    views(old(self).redo_stack@),
                    views(old(self).undo_stack@),
                    *old(model),
                    views(self.redo_stack@),
                    views(self.undo_stack@),
                    *model,
                    fresh,
                ));
            }
        }
    }

    /// Keeps a command for `undo`. What was undone before can no longer be
    /// redone.
    pub fn push_undo(&mut self, command: TodoListCommand)
        ensures
            views(final(self).undo_stack@) == views(old(self).undo_stack@).push(command@),
            final(self).redo_stack@.len() == 0,
    {
        self.redo_stack.clear();
        self.undo_stack.push(command);
        assert(views(self.undo_stack@) =~= views(old(self).undo_stack@).push(command@));
    }
}

} // verus!
