//! The polling loop: cycle after cycle, each one the builder's questions,
//! then at most one publication, then a fixed sleep.
//!
//! Like the builder, the poller only decides. It hands the driver one
//! [`Command`] at a time and takes back what came of it. Nothing that the
//! driver reports can stop the loop or change its pace: a cycle that is
//! abandoned publishes nothing, a publication that fails is passed over, and
//! every cycle ends in the same sleep.

use vstd::prelude::*;
use crate::builder::{
    lemma_resume_advances, lemma_resume_well_formed, Builder, BuilderView, Outcome, OutcomeView,
    Progress, ProgressView, Query,
};
use crate::snapshot::{MediaSnapshot, SnapshotView};

verus! {

/// The pause between two cycles, in milliseconds.
pub const POLL_INTERVAL_MS: u64 = 1500;

/// What the driver is to do next.
#[derive(Clone, Debug, PartialEq, Eq)]
pub enum Command {
    /// Put this question to the platform.
    Ask(Query),
    /// Hand this snapshot to the sink. Whether the sink takes it does not
    /// matter to the loop.
    Publish(MediaSnapshot),
    /// Wait this many milliseconds.
    Sleep(u64),
}

/// A command as plain mathematical values.
pub ghost enum CommandView {
    Ask(Query),
    Publish(SnapshotView),
    Sleep(u64),
}

impl View for Command {
    type V = CommandView;

    open spec fn view(&self) -> CommandView {
        match self {
            Command::Ask(query) => CommandView::Ask(*query),
            Command::Publish(snapshot) => CommandView::Publish(snapshot@),
            Command::Sleep(millis) => CommandView::Sleep(*millis),
        }
    }
}

/// Where the loop stands: which command's outcome it waits for.
#[derive(Clone, Debug, PartialEq, Eq)]
pub enum Poller {
    /// A cycle is under way and a question is out.
    Building(Builder),
    /// A snapshot is out at the sink.
    Publishing,
    /// The cycle is over and the sleep is out.
    Sleeping,
}

/// A loop state as plain mathematical values.
pub ghost enum PollerView {
    Building(BuilderView),
    Publishing,
    Sleeping,
}

impl View for Poller {
    type V = PollerView;

    open spec fn view(&self) -> PollerView {
        match self {
            Poller::Building(builder) => PollerView::Building(builder@),
            Poller::Publishing => PollerView::Publishing,
            Poller::Sleeping => PollerView::Sleeping,
        }
    }
}

impl PollerView {
    /// How the loop goes on from a step of the builder: it passes a question
    /// on, publishes what was built, or goes to sleep on an abandoned cycle.
    pub open spec fn follow(progress: ProgressView) -> (PollerView, CommandView) {
        match progress {
            ProgressView::Ask(builder, query) => (
                PollerView::Building(builder),
                CommandView::Ask(query),
            ),
            ProgressView::Built(snapshot) => (
                PollerView::Publishing,
                CommandView::Publish(snapshot),
            ),
            ProgressView::Abandoned => (PollerView::Sleeping, CommandView::Sleep(POLL_INTERVAL_MS)),
        }
    }

    /// The start of the loop, and of every cycle.
    pub open spec fn start() -> (PollerView, CommandView) {
        Self::follow(BuilderView::begin())
    }

    /// What the loop does with the outcome of its last command.
    pub open spec fn advance(self, outcome: OutcomeView) -> (PollerView, CommandView) {
        match self {
            PollerView::Building(builder) => Self::follow(builder.resume(outcome)),
            PollerView::Publishing => (PollerView::Sleeping, CommandView::Sleep(POLL_INTERVAL_MS)),
            PollerView::Sleeping => Self::start(),
        }
    }

    /// The state after the driver has reported `outcomes`, in order.
    pub open spec fn after(self, outcomes: Seq<OutcomeView>) -> PollerView
        decreases outcomes.len(),
    {
        if outcomes.len() == 0 {
            self
        } else {
            self.advance(outcomes.first()).0.after(outcomes.drop_first())
        }
    }

    /// The commands that the loop gives in answer to `outcomes`, one for each.
    pub open spec fn commands(self, outcomes: Seq<OutcomeView>) -> Seq<CommandView>
        decreases outcomes.len(),
    {
        if outcomes.len() == 0 {
            Seq::empty()
        } else {
            let (next, command) = self.advance(outcomes.first());
            seq![command] + next.commands(outcomes.drop_first())
        }
    }

    /// What holds of every state that the loop reaches.
    pub open spec fn well_formed(self) -> bool {
        match self {
            PollerView::Building(builder) => builder.well_formed(),
            _ => true,
        }
    }

    /// The largest number of outcomes that the loop can still take before it
    /// commands the sleep that ends the cycle.
    pub open spec fn steps_to_sleep(self) -> nat {
        match self {
            PollerView::Building(builder) => builder.steps_left() + 1,
            PollerView::Publishing => 1,
            PollerView::Sleeping => 10,
        }
    }
}

impl CommandView {
    /// What holds of every command that the loop gives: a snapshot that goes
    /// to the sink is well formed, and a sleep is the fixed interval.
    pub open spec fn well_formed(self) -> bool {
        match self {
            CommandView::Ask(_) => true,
            CommandView::Publish(snapshot) => snapshot.well_formed(),
            CommandView::Sleep(millis) => millis == POLL_INTERVAL_MS,
        }
    }
}

/// Continues the loop from a step of the builder.
fn follow(progress: Progress) -> (turn: (Poller, Command))
    ensures
        (turn.0@, turn.1@) == PollerView::follow(progress@),
{
    match progress {
        Progress::Ask(builder, query) => (Poller::Building(builder), Command::Ask(query)),
        Progress::Built(snapshot) => (Poller::Publishing, Command::Publish(snapshot)),
        Progress::Abandoned => (Poller::Sleeping, Command::Sleep(POLL_INTERVAL_MS)),
    }
}

impl Poller {
    /// Starts the loop: the first cycle's first question.
    pub fn start() -> (turn: (Poller, Command))
        ensures
            (turn.0@, turn.1@) == PollerView::start(),
            turn.0@.well_formed(),
            turn.1@.well_formed(),
    {
        follow(Builder::begin())
    }

    /// Takes the outcome of the last command and gives the next one. There is
    /// no outcome on which the loop fails or ends. From a well-formed state
    /// the next state and the command are well formed.
    pub fn advance(self, outcome: Outcome) -> (turn: (Poller, Command))
        ensures
            (turn.0@, turn.1@) == self@.advance(outcome@),
            self@.well_formed() ==> turn.0@.well_formed() && turn.1@.well_formed(),
    {
        proof {
            if self@.well_formed() {
                lemma_advance_well_formed(self@, outcome@);
            }
        }
        match self {
            Poller::Building(builder) => follow(builder.resume(outcome)),
            Poller::Publishing => (Poller::Sleeping, Command::Sleep(POLL_INTERVAL_MS)),
            Poller::Sleeping => Poller::start(),
        }
    }
}

/// The loop gives one command for each outcome.
pub proof fn lemma_one_command_each(poller: PollerView, outcomes: Seq<OutcomeView>)
    ensures
        poller.commands(outcomes).len() == outcomes.len(),
    decreases outcomes.len(),
{
    if outcomes.len() > 0 {
        lemma_one_command_each(poller.advance(outcomes.first()).0, outcomes.drop_first());
    }
}

/// One step of the loop keeps the state well formed and gives a well-formed
/// command: what goes to the sink has a title and an artist that are not
/// empty and a cover that is whole or absent, and a sleep is the fixed
/// interval.
pub proof fn lemma_advance_well_formed(poller: PollerView, outcome: OutcomeView)
    requires
        poller.well_formed(),
    ensures
        poller.advance(outcome).0.well_formed(),
        poller.advance(outcome).1.well_formed(),
{
    match poller {
        PollerView::Building(builder) => {
            lemma_resume_well_formed(builder, outcome);
        },
        _ => {},
    }
}

/// Whatever the driver reports, and for however long, every command that the
/// loop gives is well formed.
pub proof fn lemma_commands_well_formed(outcomes: Seq<OutcomeView>)
    ensures
        PollerView::start().1.well_formed(),
        forall|i: int|
            0 <= i < outcomes.len() ==> (#[trigger] PollerView::start().0.commands(
                outcomes,
            )[i]).well_formed(),
{
    lemma_commands_well_formed_from(PollerView::start().0, outcomes);
}

/// The same from any well-formed state: every command is well formed, and so
/// is the state at the end.
pub proof fn lemma_commands_well_formed_from(poller: PollerView, outcomes: Seq<OutcomeView>)
    requires
        poller.well_formed(),
    ensures
        poller.after(outcomes).well_formed(),
        forall|i: int|
            0 <= i < outcomes.len() ==> (#[trigger] poller.commands(outcomes)[i]).well_formed(),
    decreases outcomes.len(),
{
    if outcomes.len() > 0 {
        let (next, command) = poller.advance(outcomes.first());
        lemma_advance_well_formed(poller, outcomes.first());
        lemma_commands_well_formed_from(next, outcomes.drop_first());
        lemma_one_command_each(next, outcomes.drop_first());
        let rest = next.commands(outcomes.drop_first());
        assert forall|i: int| 0 <= i < outcomes.len() implies (#[trigger] poller.commands(
            outcomes,
        )[i]).well_formed() by {
            if i > 0 {
                assert(poller.commands(outcomes)[i] == rest[i - 1]);
            }
        }
    }
}

/// The shape of a cycle. A snapshot is handed to the sink only at the end of
/// the builder's questions, the sleep follows it at once, and the sleep is
/// what every path ends in: each step that does not command it brings it
/// nearer.
pub proof fn lemma_cycle_shape(poller: PollerView, outcome: OutcomeView)
    ensures
        ({
            let (next, command) = poller.advance(outcome);
            &&& command is Publish <==> next == PollerView::Publishing
            &&& command is Publish ==> poller is Building
            &&& command is Sleep <==> next == PollerView::Sleeping
            &&& command is Sleep ==> command == CommandView::Sleep(POLL_INTERVAL_MS)
            &&& poller == PollerView::Publishing ==> command is Sleep
            &&& !(command is Sleep) ==> next.steps_to_sleep() < poller.steps_to_sleep()
        }),
{
    match poller {
        PollerView::Building(builder) => {
            lemma_resume_advances(builder, outcome);
        },
        _ => {},
    }
}

/// No cycle outlasts its questions: among any ten commands in a row there is
/// a sleep, whatever the driver reports.
pub proof fn lemma_sleep_always_comes(poller: PollerView, outcomes: Seq<OutcomeView>)
    requires
        outcomes.len() >= poller.steps_to_sleep(),
    ensures
        exists|i: int|
            0 <= i < outcomes.len() && (#[trigger] poller.commands(outcomes)[i]) is Sleep,
    decreases outcomes.len(),
{
    let (next, command) = poller.advance(outcomes.first());
    let rest = next.commands(outcomes.drop_first());
    lemma_cycle_shape(poller, outcomes.first());
    if command is Sleep {
        assert(poller.commands(outcomes)[0] is Sleep);
    } else {
        lemma_sleep_always_comes(next, outcomes.drop_first());
        lemma_one_command_each(next, outcomes.drop_first());
        let i = choose|i: int| 0 <= i < outcomes.len() - 1 && (#[trigger] rest[i]) is Sleep;
        assert(poller.commands(outcomes)[i + 1] == rest[i]);
    }
}

/// A cycle that fails at a step that carries it publishes nothing and leaves
/// nothing behind. Without the session manager, without a current session or
/// without the media properties, the commands of the cycle are the questions
/// up to the failure and then the sleep, no publication among them; and after
/// the sleep the loop stands exactly where it stood at the very start.
pub proof fn lemma_terminal_failure_skips_publish(failure: OutcomeView, woke: OutcomeView)
    ensures
        ({
            let first = PollerView::start().0;
            let done = OutcomeView::Done;
            let sleep = CommandView::Sleep(POLL_INTERVAL_MS);
            &&& !(failure is Done) ==> {
                &&& first.commands(seq![failure]) == seq![sleep]
                &&& first.after(seq![failure]) == PollerView::Sleeping
            }
            &&& !(failure is Done) ==> {
                &&& first.commands(seq![done, failure]) == seq![
                    CommandView::Ask(Query::CurrentSession),
                    sleep,
                ]
                &&& first.after(seq![done, failure]) == PollerView::Sleeping
            }
            &&& !(failure is Properties) ==> {
                &&& first.commands(seq![done, done, failure]) == seq![
                    CommandView::Ask(Query::CurrentSession),
                    CommandView::Ask(Query::MediaProperties),
                    sleep,
                ]
                &&& first.after(seq![done, done, failure]) == PollerView::Sleeping
            }
            &&& PollerView::Sleeping.advance(woke) == PollerView::start()
        }),
{
    reveal_with_fuel(PollerView::commands, 4);
    reveal_with_fuel(PollerView::after, 4);
}

/// What the sink does with a snapshot has no effect on the loop: whether the
/// publication is reported as done or as failed, the next command is the
/// sleep, and the one after it starts the next cycle as every cycle starts.
pub proof fn lemma_publish_outcome_is_ignored(sink: OutcomeView, woke: OutcomeView)
    ensures
        PollerView::Publishing.advance(sink) == (
            PollerView::Sleeping,
            CommandView::Sleep(POLL_INTERVAL_MS),
        ),
        PollerView::Publishing.commands(seq![sink, woke]) == seq![
            CommandView::Sleep(POLL_INTERVAL_MS),
            PollerView::start().1,
        ],
        PollerView::Publishing.after(seq![sink, woke]) == PollerView::start().0,
{
    reveal_with_fuel(PollerView::commands, 3);
    reveal_with_fuel(PollerView::after, 3);
}

} // verus!
