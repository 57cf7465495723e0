//! The property view of one node: what it reports, and the commands that
//! its reports become.

use vstd::prelude::*;
use crate::command::{EngineCommand, UpdateFloatCommand};
use crate::identity::Identity;

verus! {

/// A component of the transform was edited; the new value is the bit
/// pattern of a single-precision number.
#[derive(Clone, Copy, Debug, PartialEq, Eq, Structural)]
pub enum Event {
    PositionXChanged(u32),
    PositionYChanged(u32),
    PositionZChanged(u32),
    ScaleXChanged(u32),
    ScaleYChanged(u32),
    ScaleZChanged(u32),
}

impl Event {
    /// The command that the event becomes for the node `node_id`.
    pub open spec fn spec_command(self, node_id: Identity) -> EngineCommand {
        match self {
            Event::PositionXChanged(value) => EngineCommand::UpdatePositionX(
                UpdateFloatCommand { node_id, value },
            ),
            Event::PositionYChanged(value) => EngineCommand::UpdatePositionY(
                UpdateFloatCommand { node_id, value },
            ),
            Event::PositionZChanged(value) => EngineCommand::UpdatePositionZ(
                UpdateFloatCommand { node_id, value },
            ),
            Event::ScaleXChanged(value) => EngineCommand::UpdateScaleX(
                UpdateFloatCommand { node_id, value },
            ),
            Event::ScaleYChanged(value) => EngineCommand::UpdateScaleY(
                UpdateFloatCommand { node_id, value },
            ),
            Event::ScaleZChanged(value) => EngineCommand::UpdateScaleZ(
                UpdateFloatCommand { node_id, value },
            ),
        }
    }

    /// Turns the event into the command that edits the node `node_id`.
    pub fn command(&self, node_id: Identity) -> (command: EngineCommand)
        ensures
            command == self.spec_command(node_id),
    {
        match self {
            Event::PositionXChanged(value) => EngineCommand::UpdatePositionX(
                UpdateFloatCommand { node_id, value: *value },
            ),
            Event::PositionYChanged(value) => EngineCommand::UpdatePositionY(
                UpdateFloatCommand { node_id, value: *value },
            ),
            Event::PositionZChanged(value) => EngineCommand::UpdatePositionZ(
                UpdateFloatCommand { node_id, value: *value },
            ),
            Event::ScaleXChanged(value) => EngineCommand::UpdateScaleX(
                UpdateFloatCommand { node_id, value: *value },
            ),
            Event::ScaleYChanged(value) => EngineCommand::UpdateScaleY(
                UpdateFloatCommand { node_id, value: *value },
            ),
            Event::ScaleZChanged(value) => EngineCommand::UpdateScaleZ(
                UpdateFloatCommand { node_id, value: *value },
            ),
        }
    }
}

/// The events of the frame that are not handled yet.
#[derive(Clone, Debug)]
pub struct NodePropertyViewState {
    pub events: Vec<Event>,
}

impl NodePropertyViewState {
    pub fn new() -> (state: Self)
        ensures
            state.events@ == Seq::<Event>::empty(),
    {
        Self { events: Vec::new() }
    }

    /// The commands that the events become for the node `node_id`, in
    /// order.
    pub open spec fn commands(events: Seq<Event>, node_id: Identity) -> Seq<EngineCommand> {
        Seq::new(events.len(), |i: int| events[i].spec_command(node_id))
    }

    /// Turns the events of the frame into commands for the node `node_id`,
    /// appends them to `commands`, and leaves no event behind.
    pub fn mutate(&mut self, node_id: Identity, commands: &mut Vec<EngineCommand>)
        ensures
            final(self).events@ == Seq::<Event>::empty(),
            final(commands)@ == old(commands)@ + Self::commands(old(self).events@, node_id),
    {
        let mut i: usize = 0;
        let count: usize = self.events.len();
        assert(commands@ =~= old(commands)@ + Self::commands(old(self).events@, node_id).take(0));
        while i < count
            invariant
                self.events == old(self).events,
                count == self.events@.len(),
                i <= count,
                commands@ == old(commands)@ + Self::commands(old(self).events@, node_id).take(
                    i as int,
                ),
            decreases count - i,
        {
            commands.push(self.events[i].command(node_id));
            assert(Self::commands(old(self).events@, node_id).take(i + 1) =~= Self::commands(
                old(self).events@,
                node_id,
            ).take(i as int).push(self.events@[i as int].spec_command(node_id)));
            i = i + 1;
        }
        assert(Self::commands(old(self).events@, node_id).take(count as int) =~= Self::commands(
            old(self).events@,
            node_id,
        ));
        self.events.clear();
    }
}

} // verus!
