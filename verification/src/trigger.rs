//! The manifest trigger: bridges the events of the build pipeline into
//! builds of the services file, and hands each artifact to a bounded queue.
//!
//! The trigger does one thing at a time. While a build runs, or while the
//! queue is full and an artifact waits for room, it takes no further event:
//! the events stay with the pipeline until the trigger is idle again.

use vstd::prelude::*;
use vstd::string::StringExecFns;
use crate::log::{Level, LogRecord, LogRecordModel};

verus! {

/// Number of artifacts that the queue between the trigger and the
/// reconciler holds before the trigger has to wait.
pub const MANIFEST_QUEUE_CAPACITY: usize = 1024;

/// The kinds of event that the build pipeline sends.
#[derive(Clone, Copy, Debug, PartialEq, Eq, Structural)]
pub enum BuildEvent {
    /// A build has begun.
    Started,
    /// A build has ended with an artifact.
    Completed,
    /// A build has ended without one.
    Failure,
}

/// What the caller reports to the trigger.
#[derive(Clone, Debug, PartialEq, Eq)]
pub enum TriggerInput {
    /// The pipeline sent an event; `description` is its text for the log.
    Event { kind: BuildEvent, description: String },
    /// The pipeline will send no more events.
    EventsClosed,
    /// The build that the trigger asked for ended with the artifact at this
    /// path.
    BuildSucceeded(String),
    /// The build that the trigger asked for failed, with the reason.
    BuildFailed(String),
    /// The queue took the artifact.
    Pushed,
    /// The queue is full and did not take the artifact.
    QueueFull,
    /// The queue has room again.
    CapacityAvailable,
    /// Nobody reads the queue any more.
    QueueClosed,
}

/// Mathematical value of a [`TriggerInput`].
pub ghost enum TriggerInputModel {
    Event { kind: BuildEvent, description: Seq<char> },
    EventsClosed,
    BuildSucceeded(Seq<char>),
    BuildFailed(Seq<char>),
    Pushed,
    QueueFull,
    CapacityAvailable,
    QueueClosed,
}

impl View for TriggerInput {
    type V = TriggerInputModel;

    open spec fn view(&self) -> TriggerInputModel {
        match *self {
            TriggerInput::Event { kind, description } => TriggerInputModel::Event {
                kind,
                description: description@,
            },
            TriggerInput::EventsClosed => TriggerInputModel::EventsClosed,
            TriggerInput::BuildSucceeded(path) => TriggerInputModel::BuildSucceeded(path@),
            TriggerInput::BuildFailed(reason) => TriggerInputModel::BuildFailed(reason@),
            TriggerInput::Pushed => TriggerInputModel::Pushed,
            TriggerInput::QueueFull => TriggerInputModel::QueueFull,
            TriggerInput::CapacityAvailable => TriggerInputModel::CapacityAvailable,
            TriggerInput::QueueClosed => TriggerInputModel::QueueClosed,
        }
    }
}

/// What the trigger asks of the caller.
#[derive(Clone, Debug, PartialEq, Eq)]
pub enum TriggerEffect {
    /// Hand the record to the log sink.
    Log(LogRecord),
    /// Build the services file, and report `BuildSucceeded` or
    /// `BuildFailed`.
    Build,
    /// Offer the artifact to the queue without waiting, and report `Pushed`,
    /// `QueueFull` or `QueueClosed`.
    Push(String),
    /// Wait until the queue has room, and report `CapacityAvailable` or
    /// `QueueClosed`.
    AwaitCapacity,
    /// Stop: the rest of the system has shut down.
    Shutdown,
}

/// Mathematical value of a [`TriggerEffect`].
pub ghost enum TriggerEffectModel {
    Log(LogRecordModel),
    Build,
    Push(Seq<char>),
    AwaitCapacity,
    Shutdown,
}

impl View for TriggerEffect {
    type V = TriggerEffectModel;

    open spec fn view(&self) -> TriggerEffectModel {
        match *self {
            TriggerEffect::Log(record) => TriggerEffectModel::Log(record@),
            TriggerEffect::Build => TriggerEffectModel::Build,
            TriggerEffect::Push(path) => TriggerEffectModel::Push(path@),
            TriggerEffect::AwaitCapacity => TriggerEffectModel::AwaitCapacity,
            TriggerEffect::Shutdown => TriggerEffectModel::Shutdown,
        }
    }
}

/// The values of a sequence of trigger effects, in order.
pub open spec fn trigger_effects_of(effects: Seq<TriggerEffect>) -> Seq<TriggerEffectModel> {
    Seq::new(effects.len(), |i: int| effects[i]@)
}

/// What the trigger is waiting for.
#[derive(Clone, Debug, PartialEq, Eq)]
pub enum TriggerPhase {
    /// The next event of the pipeline.
    Idle,
    /// The end of the build it asked for.
    Building,
    /// The queue's answer to the artifact it offered.
    Pushing(String),
    /// Room in the queue for the artifact it holds.
    Blocked(String),
    /// Nothing: it has shut down.
    Closed,
}

/// Mathematical value of a [`Trigger`].
pub ghost enum TriggerModel {
    Idle,
    Building,
    Pushing(Seq<char>),
    Blocked(Seq<char>),
    Closed,
}

impl View for TriggerPhase {
    type V = TriggerModel;

    open spec fn view(&self) -> TriggerModel {
        match *self {
            TriggerPhase::Idle => TriggerModel::Idle,
            TriggerPhase::Building => TriggerModel::Building,
            TriggerPhase::Pushing(path) => TriggerModel::Pushing(path@),
            TriggerPhase::Blocked(path) => TriggerModel::Blocked(path@),
            TriggerPhase::Closed => TriggerModel::Closed,
        }
    }
}

/// An informational record without fields.
pub open spec fn info_record(message: Seq<char>) -> LogRecordModel {
    LogRecordModel { level: Level::Info, message, name: None, code: None, error: None }
}

/// Record of an event of the pipeline, whatever its kind.
pub open spec fn build_event_record(description: Seq<char>) -> LogRecordModel {
    info_record("build msg: "@ + description)
}

/// Record of a build of the services file that is about to start.
pub open spec fn build_starting_record() -> LogRecordModel {
    info_record("starting a new build for the services nix file"@)
}

/// Record of a build of the services file that failed.
pub open spec fn build_failed_record(reason: Seq<char>) -> LogRecordModel {
    LogRecordModel {
        level: Level::Error,
        message: "failed to build the services nix file"@,
        name: None,
        code: None,
        error: Some(reason),
    }
}

/// Record of a channel that the rest of the system has closed.
pub open spec fn channel_closed_record(message: Seq<char>) -> LogRecordModel {
    LogRecordModel { level: Level::Error, message, name: None, code: None, error: None }
}

/// The effects of shutting down because of a closed channel.
pub open spec fn shutdown_effects(message: Seq<char>) -> Seq<TriggerEffectModel> {
    seq![TriggerEffectModel::Log(channel_closed_record(message)), TriggerEffectModel::Shutdown]
}

impl TriggerModel {
    /// The artifact that the trigger holds and has not yet seen the queue
    /// take, if any.
    pub open spec fn pending(self) -> Option<Seq<char>> {
        match self {
            TriggerModel::Pushing(path) => Some(path),
            TriggerModel::Blocked(path) => Some(path),
            _ => None,
        }
    }

    /// The transition function: the trigger after an input, and the effects
    /// that the caller is to perform, in order. Every event is logged; only
    /// a completed build starts a build of the services file. An input that
    /// has no meaning in the current phase changes nothing and has no
    /// effect.
    pub open spec fn step(self, input: TriggerInputModel) -> (
        TriggerModel,
        Seq<TriggerEffectModel>,
    ) {
        match (self, input) {
            (TriggerModel::Idle, TriggerInputModel::Event { kind, description }) => {
                if kind == BuildEvent::Completed {
                    (
                        TriggerModel::Building,
                        seq![
                            TriggerEffectModel::Log(build_event_record(description)),
                            TriggerEffectModel::Log(build_starting_record()),
                            TriggerEffectModel::Build,
                        ],
                    )
                } else {
                    (
                        TriggerModel::Idle,
                        seq![TriggerEffectModel::Log(build_event_record(description))],
                    )
                }
            },
            (TriggerModel::Idle, TriggerInputModel::EventsClosed) => (
                TriggerModel::Closed,
                shutdown_effects("the build event stream has closed"@),
            ),
            (TriggerModel::Building, TriggerInputModel::BuildSucceeded(path)) => (
                TriggerModel::Pushing(path),
                seq![TriggerEffectModel::Push(path)],
            ),
            (TriggerModel::Building, TriggerInputModel::BuildFailed(reason)) => (
                TriggerModel::Idle,
                seq![TriggerEffectModel::Log(build_failed_record(reason))],
            ),
            (TriggerModel::Pushing(_), TriggerInputModel::Pushed) => (
                TriggerModel::Idle,
                Seq::empty(),
            ),
            (TriggerModel::Pushing(path), TriggerInputModel::QueueFull) => (
                TriggerModel::Blocked(path),
                seq![TriggerEffectModel::AwaitCapacity],
            ),
            (TriggerModel::Pushing(_), TriggerInputModel::QueueClosed) => (
                TriggerModel::Closed,
                shutdown_effects("the manifest queue has closed"@),
            ),
            (TriggerModel::Blocked(path), TriggerInputModel::CapacityAvailable) => (
                TriggerModel::Pushing(path),
                seq![TriggerEffectModel::Push(path)],
            ),
            (TriggerModel::Blocked(_), TriggerInputModel::QueueClosed) => (
                TriggerModel::Closed,
                shutdown_effects("the manifest queue has closed"@),
            ),
            _ => (self, Seq::empty()),
        }
    }

    /// The trigger after a whole sequence of inputs.
    pub open spec fn run(self, inputs: Seq<TriggerInputModel>) -> TriggerModel
        decreases inputs.len(),
    {
        if inputs.len() == 0 {
            self
        } else {
            self.run(inputs.drop_last()).step(inputs.last()).0
        }
    }

    /// The artifacts that the builds asked for by the trigger yielded over
    /// a sequence of inputs, in order.
    pub open spec fn built(self, inputs: Seq<TriggerInputModel>) -> Seq<Seq<char>>
        decreases inputs.len(),
    {
        if inputs.len() == 0 {
            Seq::empty()
        } else {
            let before = self.run(inputs.drop_last());
            let earlier = self.built(inputs.drop_last());
            if before is Building && inputs.last() is BuildSucceeded {
                earlier.push(inputs.last()->BuildSucceeded_0)
            } else {
                earlier
            }
        }
    }

    /// The artifacts that the queue took from the trigger over a sequence
    /// of inputs, in order.
    pub open spec fn taken(self, inputs: Seq<TriggerInputModel>) -> Seq<Seq<char>>
        decreases inputs.len(),
    {
        if inputs.len() == 0 {
            Seq::empty()
        } else {
            let before = self.run(inputs.drop_last());
            let earlier = self.taken(inputs.drop_last());
            if before is Pushing && inputs.last() is Pushed {
                earlier.push(before->Pushing_0)
            } else {
                earlier
            }
        }
    }
}

/// The state machine of the manifest trigger.
#[derive(Debug)]
pub struct Trigger {
    phase: TriggerPhase,
}

impl View for Trigger {
    type V = TriggerModel;

    closed spec fn view(&self) -> TriggerModel {
        self.phase@
    }
}

fn plain_record(level: Level, message: String) -> (out: LogRecord)
    ensures
        out@ == (LogRecordModel { level, message: message@, name: None, code: None, error: None }),
{
    LogRecord { level, message, name: None, code: None, error: None }
}

fn shutdown(message: &str) -> (out: Vec<TriggerEffect>)
    ensures
        trigger_effects_of(out@) == shutdown_effects(message@),
{
    let mut out: Vec<TriggerEffect> = Vec::new();
    out.push(TriggerEffect::Log(plain_record(Level::Error, String::from_str(message))));
    out.push(TriggerEffect::Shutdown);
    assert(trigger_effects_of(out@) =~= shutdown_effects(message@));
    out
}

impl Trigger {
    /// A trigger that waits for the first event.
    pub fn new() -> (out: Trigger)
        ensures
            out@ == TriggerModel::Idle,
    {
        Trigger { phase: TriggerPhase::Idle }
    }

    /// What the trigger is waiting for.
    pub fn phase(&self) -> (out: &TriggerPhase)
        ensures
            out@ == self@,
    {
        &self.phase
    }

    /// Takes one input and says what to do about it: the transition of
    /// [`TriggerModel::step`], with its effects in order.
    pub fn step(&mut self, input: TriggerInput) -> (out: Vec<TriggerEffect>)
        ensures
            final(self)@ == old(self)@.step(input@).0,
            trigger_effects_of(out@) == old(self)@.step(input@).1,
            out@.len() == old(self)@.step(input@).1.len(),
            forall|i: int|
                0 <= i < out@.len() ==> (#[trigger] out@[i])@ == old(self)@.step(input@).1[i],
    {
        let mut out: Vec<TriggerEffect> = Vec::new();
        let mut phase = TriggerPhase::Closed;
        std::mem::swap(&mut self.phase, &mut phase);
        let next = match (phase, input) {
            (TriggerPhase::Idle, TriggerInput::Event { kind, description }) => {
                let mut message = String::from_str("build msg: ");
                message.append(description.as_str());
                out.push(TriggerEffect::Log(plain_record(Level::Info, message)));
                match kind {
                    BuildEvent::Completed => {
                        out.push(
                            TriggerEffect::Log(
                                plain_record(
                                    Level::Info,
                                    String::from_str(
                                        "starting a new build for the services nix file",
                                    ),
                                ),
                            ),
                        );
                        out.push(TriggerEffect::Build);
                        TriggerPhase::Building
                    },
                    _ => TriggerPhase::Idle,
                }
            },
            (TriggerPhase::Idle, TriggerInput::EventsClosed) => {
                out = shutdown("the build event stream has closed");
                TriggerPhase::Closed
            },
            (TriggerPhase::Building, TriggerInput::BuildSucceeded(path)) => {
                out.push(TriggerEffect::Push(path.clone()));
                TriggerPhase::Pushing(path)
            },
            (TriggerPhase::Building, TriggerInput::BuildFailed(reason)) => {
                out.push(
                    TriggerEffect::Log(
                        LogRecord {
                            level: Level::Error,
                            message: String::from_str("failed to build the services nix file"),
                            name: None,
                            code: None,
                            error: Some(reason),
                        },
                    ),
                );
                TriggerPhase::Idle
            },
            (TriggerPhase::Pushing(_), TriggerInput::Pushed) => TriggerPhase::Idle,
            (TriggerPhase::Pushing(path), TriggerInput::QueueFull) => {
                out.push(TriggerEffect::AwaitCapacity);
                TriggerPhase::Blocked(path)
            },
            (TriggerPhase::Pushing(_), TriggerInput::QueueClosed) => {
                out = shutdown("the manifest queue has closed");
                TriggerPhase::Closed
            },
            (TriggerPhase::Blocked(path), TriggerInput::CapacityAvailable) => {
                out.push(TriggerEffect::Push(path.clone()));
                TriggerPhase::Pushing(path)
            },
            (TriggerPhase::Blocked(_), TriggerInput::QueueClosed) => {
                out = shutdown("the manifest queue has closed");
                TriggerPhase::Closed
            },
            (unchanged, _) => unchanged,
        };
        assert(next@ == old(self)@.step(input@).0);
        assert(trigger_effects_of(out@) =~= old(self)@.step(input@).1);
        assert forall|i: int| 0 <= i < out@.len() implies (#[trigger] out@[i])@ == old(
            self,
        )@.step(input@).1[i] by {
            assert(trigger_effects_of(out@)[i] == out@[i]@);
        }
        self.phase = next;
        out
    }
}

/// The trigger asks for a build only when it is idle and a build of the
/// pipeline has completed. While it builds, offers an artifact or waits
/// for room in the queue, no input makes it start another build.
pub proof fn lemma_build_only_when_idle(t: TriggerModel, input: TriggerInputModel)
    ensures
        t.step(input).1.contains(TriggerEffectModel::Build) <==> t is Idle && input is Event
            && input->Event_kind == BuildEvent::Completed,
{
    let effects = t.step(input).1;
    if t is Idle && input is Event && input->Event_kind == BuildEvent::Completed {
        assert(effects[2] == TriggerEffectModel::Build);
    }
}

/// An artifact that the trigger holds is not lost: while the queue is
/// full the trigger keeps it and waits, and it lets go of it only when the
/// queue has taken it or has closed.
pub proof fn lemma_artifact_kept(t: TriggerModel, input: TriggerInputModel)
    requires
        t.pending() is Some,
    ensures
        t.step(input).0.pending() == t.pending() || (t is Pushing && (input is Pushed || input
            is QueueClosed)) || (t is Blocked && input is QueueClosed),
        t is Pushing && input is QueueFull ==> t.step(input).0 == TriggerModel::Blocked(
            t.pending()->Some_0,
        ) && t.step(input).1 == seq![TriggerEffectModel::AwaitCapacity],
        t is Blocked && input is CapacityAvailable ==> t.step(input).0 == TriggerModel::Pushing(
            t.pending()->Some_0,
        ) && t.step(input).1 == seq![TriggerEffectModel::Push(t.pending()->Some_0)],
{
}

/// Every artifact that a build yields is offered to the queue, unchanged.
pub proof fn lemma_artifact_offered(path: Seq<char>)
    ensures
        TriggerModel::Building.step(TriggerInputModel::BuildSucceeded(path)).0
            == TriggerModel::Pushing(path),
        TriggerModel::Building.step(TriggerInputModel::BuildSucceeded(path)).1 == seq![
            TriggerEffectModel::Push(path),
        ],
{
}

/// Backpressure loses nothing and reorders nothing. Whatever is reported
/// to a trigger that starts idle, the queue takes the artifacts in the
/// order in which the builds yielded them. While the trigger has not shut
/// down, every artifact built has been taken, but for the one that the
/// trigger still holds; a trigger that has shut down has dropped at most
/// the one it held.
pub proof fn lemma_artifacts_in_order(inputs: Seq<TriggerInputModel>)
    ensures
        ({
            let end = TriggerModel::Idle.run(inputs);
            let built = TriggerModel::Idle.built(inputs);
            let taken = TriggerModel::Idle.taken(inputs);
            &&& end.pending() is Some ==> built == taken.push(end.pending()->Some_0)
            &&& end.pending() is None && !(end is Closed) ==> built == taken
            &&& end is Closed ==> built == taken || (built.len() > 0 && built.drop_last() == taken)
        }),
    decreases inputs.len(),
{
    if inputs.len() > 0 {
        lemma_artifacts_in_order(inputs.drop_last());
        let before = TriggerModel::Idle.run(inputs.drop_last());
        let built = TriggerModel::Idle.built(inputs.drop_last());
        let taken = TriggerModel::Idle.taken(inputs.drop_last());
        if before.pending() is Some {
            assert(built.drop_last() =~= taken);
        }
    }
}

} // verus!
