//! The supervisor of one service: a state machine over what happens to its
//! process.
//!
//! A supervisor starts in `Spawning`. The caller launches the process and
//! reports `Spawned` or `SpawnFailed`; it then waits for whichever comes
//! first of the cancellation signal and the exit of the process, reports it,
//! performs the effects that come back, and goes on reporting until the
//! supervisor is in a terminal phase.

use vstd::prelude::*;
use vstd::string::StringExecFns;
use crate::log::{Fd, Level, LogRecord, LogRecordModel};
use crate::manifest::{ServiceDescriptor, ServiceModel};
use crate::text::{decimal, render_decimal};

verus! {

/// Where a supervisor stands in the life of its process.
#[derive(Clone, Copy, Debug, PartialEq, Eq, Structural)]
pub enum Phase {
    /// The process has not been launched yet.
    Spawning,
    /// The process runs; neither cancellation nor exit has been seen.
    Running,
    /// Cancellation came first: the kill was asked for, the output is being
    /// drained.
    Stopping,
    /// The killed process is gone and its output drained.
    Terminated,
    /// The exit came first: the output is being drained.
    Finishing,
    /// The process exited by itself and its output is drained.
    Exited,
    /// The launch failed; there never was a process.
    FailedToStart,
}

/// What the caller reports to a supervisor.
#[derive(Clone, Debug, PartialEq, Eq)]
pub enum Event {
    /// The process was launched.
    Spawned,
    /// The launch failed, with the reason.
    SpawnFailed(String),
    /// The cancellation signal arrived.
    Cancelled,
    /// The process terminated, with its exit code if it has one.
    ProcessExited(Option<i32>),
    /// The kill that the supervisor asked for was carried out.
    Killed,
    /// The kill that the supervisor asked for failed, with the reason.
    KillFailed(String),
    /// One of the two output streams ended.
    StreamClosed(Fd),
}

/// Mathematical value of an [`Event`].
pub ghost enum EventModel {
    Spawned,
    SpawnFailed(Seq<char>),
    Cancelled,
    ProcessExited(Option<i32>),
    Killed,
    KillFailed(Seq<char>),
    StreamClosed(Fd),
}

impl View for Event {
    type V = EventModel;

    open spec fn view(&self) -> EventModel {
        match *self {
            Event::Spawned => EventModel::Spawned,
            Event::SpawnFailed(reason) => EventModel::SpawnFailed(reason@),
            Event::Cancelled => EventModel::Cancelled,
            Event::ProcessExited(code) => EventModel::ProcessExited(code),
            Event::Killed => EventModel::Killed,
            Event::KillFailed(reason) => EventModel::KillFailed(reason@),
            Event::StreamClosed(fd) => EventModel::StreamClosed(fd),
        }
    }
}

/// What a supervisor asks of the caller.
#[derive(Clone, Debug, PartialEq, Eq)]
pub enum Effect {
    /// Hand the record to the log sink.
    Log(LogRecord),
    /// Kill the process, and report `Killed` or `KillFailed`.
    Kill,
}

/// Mathematical value of an [`Effect`].
pub ghost enum EffectModel {
    Log(LogRecordModel),
    Kill,
}

impl View for Effect {
    type V = EffectModel;

    open spec fn view(&self) -> EffectModel {
        match *self {
            Effect::Log(record) => EffectModel::Log(record@),
            Effect::Kill => EffectModel::Kill,
        }
    }
}

/// The values of a sequence of effects, in order.
pub open spec fn effects_of(effects: Seq<Effect>) -> Seq<EffectModel> {
    Seq::new(effects.len(), |i: int| effects[i]@)
}

/// Mathematical value of a [`Supervisor`].
pub ghost struct SupervisorModel {
    pub descriptor: ServiceModel,
    pub phase: Phase,
    /// The cancellation signal has been received.
    pub cancel_requested: bool,
    /// A process was launched and has been seen neither to exit nor to be
    /// killed.
    pub process_running: bool,
    pub stdout_open: bool,
    pub stderr_open: bool,
    /// The exit code seen, where the process exited by itself with one.
    pub exit_code: Option<i32>,
}

/// The text of the `code` field for an exit code: its decimal form, or a
/// marker where the process left none.
pub open spec fn exit_code_text(code: Option<i32>) -> Seq<char> {
    match code {
        Some(c) => decimal(c as int),
        None => "<unknown>"@,
    }
}

/// Severity of an exit that nobody asked for: a warning where the process
/// reported success, an error otherwise.
pub open spec fn exit_level(code: Option<i32>) -> Level {
    if code == Some(0i32) {
        Level::Warning
    } else {
        Level::Error
    }
}

/// Record announcing that a service is about to be launched.
pub open spec fn starting_record(name: Seq<char>) -> LogRecordModel {
    LogRecordModel {
        level: Level::Info,
        message: "starting"@,
        name: Some(name),
        code: None,
        error: None,
    }
}

/// Record of a launch that failed.
pub open spec fn spawn_failed_record(name: Seq<char>, reason: Seq<char>) -> LogRecordModel {
    LogRecordModel {
        level: Level::Error,
        message: "failed to start service"@,
        name: Some(name),
        code: None,
        error: Some(reason),
    }
}

/// Record of a kill that failed.
pub open spec fn kill_failed_record(name: Seq<char>, reason: Seq<char>) -> LogRecordModel {
    LogRecordModel {
        level: Level::Error,
        message: "failed to kill service"@,
        name: Some(name),
        code: None,
        error: Some(reason),
    }
}

/// Record of a service that was stopped on request.
pub open spec fn terminating_record(name: Seq<char>) -> LogRecordModel {
    LogRecordModel {
        level: Level::Info,
        message: "terminating service"@,
        name: Some(name),
        code: None,
        error: None,
    }
}

/// Record of a service that exited by itself.
pub open spec fn exited_record(name: Seq<char>, code: Option<i32>) -> LogRecordModel {
    LogRecordModel {
        level: exit_level(code),
        message: "service exited"@,
        name: Some(name),
        code: Some(exit_code_text(code)),
        error: None,
    }
}

impl SupervisorModel {
    /// The supervisor of a service that is about to be launched.
    pub open spec fn initial(descriptor: ServiceModel) -> SupervisorModel {
        SupervisorModel {
            descriptor,
            phase: Phase::Spawning,
            cancel_requested: false,
            process_running: false,
            stdout_open: false,
            stderr_open: false,
            exit_code: None,
        }
    }

    /// Whether nothing more will happen to this supervisor.
    pub open spec fn is_terminal(self) -> bool {
        self.phase == Phase::Terminated || self.phase == Phase::Exited || self.phase
            == Phase::FailedToStart
    }

    /// Whether the process is gone and both of its streams have ended.
    pub open spec fn drained(self) -> bool {
        !self.process_running && !self.stdout_open && !self.stderr_open
    }

    /// What every supervisor satisfies, whatever was reported to it.
    pub open spec fn wf(self) -> bool {
        &&& self.phase == Phase::Spawning ==> self.drained()
        &&& self.phase == Phase::Running ==> self.process_running && !self.cancel_requested
        &&& self.phase == Phase::Stopping ==> self.cancel_requested && !self.drained()
        &&& self.phase == Phase::Finishing ==> !self.process_running && !self.drained()
        &&& self.phase == Phase::Terminated ==> self.cancel_requested && self.drained()
        &&& self.phase == Phase::Exited ==> self.drained()
        &&& self.phase == Phase::FailedToStart ==> self.drained()
    }

    /// This supervisor with one of its streams marked as ended.
    pub open spec fn close(self, fd: Fd) -> SupervisorModel {
        match fd {
            Fd::Stdout => SupervisorModel { stdout_open: false, ..self },
            Fd::Stderr => SupervisorModel { stderr_open: false, ..self },
        }
    }

    /// Ends the draining: once the process is gone and both streams have
    /// ended, a stopping supervisor becomes `Terminated` and a finishing one
    /// `Exited`, each with its report. Until then nothing changes.
    pub open spec fn settle(self) -> (SupervisorModel, Seq<EffectModel>) {
        if !self.drained() {
            (self, Seq::empty())
        } else if self.phase == Phase::Stopping {
            (
                SupervisorModel { phase: Phase::Terminated, ..self },
                seq![EffectModel::Log(terminating_record(self.descriptor.name))],
            )
        } else if self.phase == Phase::Finishing {
            (
                SupervisorModel { phase: Phase::Exited, ..self },
                seq![EffectModel::Log(exited_record(self.descriptor.name, self.exit_code))],
            )
        } else {
            (self, Seq::empty())
        }
    }

    /// The transition function: the supervisor after an event, and the
    /// effects that the caller is to perform, in order. An event that has no
    /// meaning in the current phase changes nothing and has no effect.
    pub open spec fn step(self, event: EventModel) -> (SupervisorModel, Seq<EffectModel>) {
        match (self.phase, event) {
            (Phase::Spawning, EventModel::Spawned) => {
                let launched = SupervisorModel {
                    process_running: true,
                    stdout_open: true,
                    stderr_open: true,
                    ..self
                };
                if self.cancel_requested {
                    (SupervisorModel { phase: Phase::Stopping, ..launched }, seq![EffectModel::Kill])
                } else {
                    (SupervisorModel { phase: Phase::Running, ..launched }, Seq::empty())
                }
            },
            (Phase::Spawning, EventModel::SpawnFailed(reason)) => (
                SupervisorModel { phase: Phase::FailedToStart, ..self },
                seq![EffectModel::Log(spawn_failed_record(self.descriptor.name, reason))],
            ),
            (Phase::Spawning, EventModel::Cancelled) => (
                SupervisorModel { cancel_requested: true, ..self },
                Seq::empty(),
            ),
            (Phase::Running, EventModel::Cancelled) => (
                SupervisorModel { phase: Phase::Stopping, cancel_requested: true, ..self },
                seq![EffectModel::Kill],
            ),
            (Phase::Running, EventModel::ProcessExited(code)) => SupervisorModel {
                phase: Phase::Finishing,
                process_running: false,
                exit_code: code,
                ..self
            }.settle(),
            (Phase::Running, EventModel::StreamClosed(fd)) => (self.close(fd), Seq::empty()),
            (Phase::Stopping, EventModel::Killed) => SupervisorModel {
                process_running: false,
                ..self
            }.settle(),
            (Phase::Stopping, EventModel::ProcessExited(_)) => SupervisorModel {
                process_running: false,
                ..self
            }.settle(),
            (Phase::Stopping, EventModel::KillFailed(reason)) => (
                self,
                seq![EffectModel::Log(kill_failed_record(self.descriptor.name, reason))],
            ),
            (Phase::Stopping, EventModel::StreamClosed(fd)) => self.close(fd).settle(),
            (Phase::Finishing, EventModel::StreamClosed(fd)) => self.close(fd).settle(),
            _ => (self, Seq::empty()),
        }
    }

    /// The supervisor after a whole sequence of events.
    pub open spec fn run(self, events: Seq<EventModel>) -> SupervisorModel
        decreases events.len(),
    {
        if events.len() == 0 {
            self
        } else {
            self.run(events.drop_last()).step(events.last()).0
        }
    }

    /// Everything the caller was asked to do over a whole sequence of
    /// events, in order.
    pub open spec fn run_effects(self, events: Seq<EventModel>) -> Seq<EffectModel>
        decreases events.len(),
    {
        if events.len() == 0 {
            Seq::empty()
        } else {
            self.run_effects(events.drop_last()) + self.run(events.drop_last()).step(
                events.last(),
            ).1
        }
    }
}

/// What a supervisor remembers of its process.
#[derive(Clone, Copy, Debug)]
struct Status {
    phase: Phase,
    cancel_requested: bool,
    process_running: bool,
    stdout_open: bool,
    stderr_open: bool,
    exit_code: Option<i32>,
}

/// The per-service state machine. It owns the descriptor of its service and
/// remembers what it was told of the process.
#[derive(Debug)]
pub struct Supervisor {
    descriptor: ServiceDescriptor,
    status: Status,
}

/// The value of a supervisor with the given service and status.
closed spec fn model_of(descriptor: ServiceModel, status: Status) -> SupervisorModel {
    SupervisorModel {
        descriptor,
        phase: status.phase,
        cancel_requested: status.cancel_requested,
        process_running: status.process_running,
        stdout_open: status.stdout_open,
        stderr_open: status.stderr_open,
        exit_code: status.exit_code,
    }
}

impl View for Supervisor {
    type V = SupervisorModel;

    closed spec fn view(&self) -> SupervisorModel {
        model_of(self.descriptor@, self.status)
    }
}

/// Renders the `code` field for an exit code.
pub fn render_exit_code(code: Option<i32>) -> (out: String)
    ensures
        out@ == exit_code_text(code),
{
    match code {
        Some(c) => render_decimal(c),
        None => String::from_str("<unknown>"),
    }
}

/// Creates the supervisor of a service that is about to be launched,
/// together with the record that announces it.
pub fn start_service(descriptor: ServiceDescriptor) -> (out: (Supervisor, LogRecord))
    ensures
        out.0@ == SupervisorModel::initial(descriptor@),
        out.0@.wf(),
        out.1@ == starting_record(descriptor@.name),
{
    let record = LogRecord {
        level: Level::Info,
        message: String::from_str("starting"),
        name: Some(descriptor.name.clone()),
        code: None,
        error: None,
    };
    let status = Status {
        phase: Phase::Spawning,
        cancel_requested: false,
        process_running: false,
        stdout_open: false,
        stderr_open: false,
        exit_code: None,
    };
    (Supervisor { descriptor, status }, record)
}

fn closed(status: Status, fd: Fd) -> (out: Status)
    ensures
        forall|d: ServiceModel| #[trigger] model_of(d, out) == model_of(d, status).close(fd),
{
    match fd {
        Fd::Stdout => Status { stdout_open: false, ..status },
        Fd::Stderr => Status { stderr_open: false, ..status },
    }
}

fn settled(status: Status, name: &String) -> (out: (Status, Vec<Effect>))
    ensures
        forall|d: ServiceModel|
            d.name == name@ ==> #[trigger] model_of(d, out.0) == model_of(d, status).settle().0,
        forall|d: ServiceModel|
            d.name == name@ ==> effects_of(out.1@) == (#[trigger] model_of(d, status)).settle().1,
{
    let mut effects: Vec<Effect> = Vec::new();
    let mut next = status;
    let drained = !status.process_running && !status.stdout_open && !status.stderr_open;
    if drained {
        match status.phase {
            Phase::Stopping => {
                next = Status { phase: Phase::Terminated, ..status };
                effects.push(
                    Effect::Log(
                        LogRecord {
                            level: Level::Info,
                            message: String::from_str("terminating service"),
                            name: Some(name.clone()),
                            code: None,
                            error: None,
                        },
                    ),
                );
            },
            Phase::Finishing => {
                next = Status { phase: Phase::Exited, ..status };
                let level = match status.exit_code {
                    Some(0) => Level::Warning,
                    _ => Level::Error,
                };
                effects.push(
                    Effect::Log(
                        LogRecord {
                            level,
                            message: String::from_str("service exited"),
                            name: Some(name.clone()),
                            code: Some(render_exit_code(status.exit_code)),
                            error: None,
                        },
                    ),
                );
            },
            _ => {},
        }
    }
    assert forall|d: ServiceModel| d.name == name@ implies effects_of(effects@) == (
    #[trigger] model_of(d, status)).settle().1 by {
        assert(effects_of(effects@) =~= model_of(d, status).settle().1);
    }
    (next, effects)
}

impl Supervisor {
    /// Invariant of the representation.
    #[verifier::type_invariant]
    closed spec fn inv(self) -> bool {
        self@.wf()
    }

    /// The phase the supervisor is in.
    pub fn phase(&self) -> (out: Phase)
        ensures
            out == self@.phase,
    {
        self.status.phase
    }

    /// The name of the supervised service.
    pub fn name(&self) -> (out: &str)
        ensures
            out@ == self@.descriptor.name,
    {
        self.descriptor.name.as_str()
    }

    /// The descriptor of the supervised service.
    pub fn descriptor(&self) -> (out: &ServiceDescriptor)
        ensures
            out@ == self@.descriptor,
    {
        &self.descriptor
    }

    /// Whether a process was launched and has been seen neither to exit nor
    /// to be killed.
    pub fn process_running(&self) -> (out: bool)
        ensures
            out == self@.process_running,
            self@.is_terminal() ==> !out,
    {
        proof {
            use_type_invariant(self);
        }
        self.status.process_running
    }

    /// Whether the supervisor has reached `Terminated`, `Exited` or
    /// `FailedToStart`.
    pub fn is_terminal(&self) -> (out: bool)
        ensures
            out == self@.is_terminal(),
    {
        match self.status.phase {
            Phase::Terminated => true,
            Phase::Exited => true,
            Phase::FailedToStart => true,
            _ => false,
        }
    }

    /// Takes one event and says what to do about it: the transition of
    /// [`SupervisorModel::step`], with its effects in order.
    pub fn step(&mut self, event: Event) -> (out: Vec<Effect>)
        ensures
            final(self)@ == old(self)@.step(event@).0,
            effects_of(out@) == old(self)@.step(event@).1,
            out@.len() == old(self)@.step(event@).1.len(),
            forall|i: int|
                0 <= i < out@.len() ==> (#[trigger] out@[i])@ == old(self)@.step(event@).1[i],
            final(self)@.wf(),
    {
        proof {
            use_type_invariant(&*self);
            lemma_step_keeps_wf(self@, event@);
        }
        let status = self.status;
        let mut out: Vec<Effect> = Vec::new();
        let mut next = status;
        match (status.phase, event) {
            (Phase::Spawning, Event::Spawned) => {
                let launched = Status {
                    process_running: true,
                    stdout_open: true,
                    stderr_open: true,
                    ..status
                };
                if status.cancel_requested {
                    next = Status { phase: Phase::Stopping, ..launched };
                    out.push(Effect::Kill);
                } else {
                    next = Status { phase: Phase::Running, ..launched };
                }
            },
            (Phase::Spawning, Event::SpawnFailed(reason)) => {
                next = Status { phase: Phase::FailedToStart, ..status };
                out.push(
                    Effect::Log(
                        LogRecord {
                            level: Level::Error,
                            message: String::from_str("failed to start service"),
                            name: Some(self.descriptor.name.clone()),
                            code: None,
                            error: Some(reason),
                        },
                    ),
                );
            },
            (Phase::Spawning, Event::Cancelled) => {
                next = Status { cancel_requested: true, ..status };
            },
            (Phase::Running, Event::Cancelled) => {
                next = Status { phase: Phase::Stopping, cancel_requested: true, ..status };
                out.push(Effect::Kill);
            },
            (Phase::Running, Event::ProcessExited(code)) => {
                let gone = Status {
                    phase: Phase::Finishing,
                    process_running: false,
                    exit_code: code,
                    ..status
                };
                let (after, effects) = settled(gone, &self.descriptor.name);
                next = after;
                out = effects;
            },
            (Phase::Running, Event::StreamClosed(fd)) => {
                next = closed(status, fd);
            },
            (Phase::Stopping, Event::Killed) => {
                let gone = Status { process_running: false, ..status };
                let (after, effects) = settled(gone, &self.descriptor.name);
                next = after;
                out = effects;
            },
            (Phase::Stopping, Event::ProcessExited(_)) => {
                let gone = Status { process_running: false, ..status };
                let (after, effects) = settled(gone, &self.descriptor.name);
                next = after;
                out = effects;
            },
            (Phase::Stopping, Event::KillFailed(reason)) => {
                out.push(
                    Effect::Log(
                        LogRecord {
                            level: Level::Error,
                            message: String::from_str("failed to kill service"),
                            name: Some(self.descriptor.name.clone()),
                            code: None,
                            error: Some(reason),
                        },
                    ),
                );
            },
            (Phase::Stopping, Event::StreamClosed(fd)) => {
                let (after, effects) = settled(closed(status, fd), &self.descriptor.name);
                next = after;
                out = effects;
            },
            (Phase::Finishing, Event::StreamClosed(fd)) => {
                let (after, effects) = settled(closed(status, fd), &self.descriptor.name);
                next = after;
                out = effects;
            },
            _ => {},
        }
        proof {
            let d = self.descriptor@;
            assert(model_of(d, next) == model_of(d, status).step(event@).0);
            assert(effects_of(out@) =~= model_of(d, status).step(event@).1);
            assert forall|i: int| 0 <= i < out@.len() implies (#[trigger] out@[i])@ == model_of(
                d,
                status,
            ).step(event@).1[i] by {
                assert(effects_of(out@)[i] == out@[i]@);
            }
        }
        self.status = next;
        out
    }
}

/// A step keeps a supervisor well formed, and never changes which service
/// it supervises.
pub proof fn lemma_step_keeps_wf(s: SupervisorModel, event: EventModel)
    requires
        s.wf(),
    ensures
        s.step(event).0.wf(),
        s.step(event).0.descriptor == s.descriptor,
{
}

/// Whatever is reported to a supervisor, in whatever order, it stays well
/// formed: in particular a supervisor in a terminal phase has no running
/// process and no open stream, and one that is `Terminated` was cancelled.
pub proof fn lemma_run_keeps_wf(descriptor: ServiceModel, events: Seq<EventModel>)
    ensures
        SupervisorModel::initial(descriptor).run(events).wf(),
        SupervisorModel::initial(descriptor).run(events).descriptor == descriptor,
    decreases events.len(),
{
    if events.len() > 0 {
        lemma_run_keeps_wf(descriptor, events.drop_last());
        lemma_step_keeps_wf(
            SupervisorModel::initial(descriptor).run(events.drop_last()),
            events.last(),
        );
    }
}

/// Once its launch has been reported, a supervisor is no longer `Spawning`:
/// its process runs (and is being killed, if the cancellation came before
/// the report), or the launch failed and the supervisor is at its end.
pub proof fn lemma_launch_report_starts(s: SupervisorModel, event: EventModel)
    requires
        s.wf(),
        s.phase == Phase::Spawning,
        event is Spawned || event is SpawnFailed,
    ensures
        event is Spawned && !s.cancel_requested ==> s.step(event).0.phase == Phase::Running,
        event is Spawned && s.cancel_requested ==> s.step(event).0.phase == Phase::Stopping,
        event is Spawned ==> s.step(event).0.process_running,
        event is SpawnFailed ==> s.step(event).0.phase == Phase::FailedToStart,
        event is SpawnFailed ==> s.step(event).1 == seq![
            EffectModel::Log(spawn_failed_record(s.descriptor.name, event->SpawnFailed_0)),
        ],
{
}

/// Cancelling a running service asks for its process to be killed, once,
/// and for nothing else.
pub proof fn lemma_cancel_kills(s: SupervisorModel)
    requires
        s.wf(),
        s.phase == Phase::Running,
    ensures
        s.step(EventModel::Cancelled).0.phase == Phase::Stopping,
        s.step(EventModel::Cancelled).1 == seq![EffectModel::Kill],
{
}

/// A supervisor becomes `Terminated` only from `Stopping`, only in a step
/// after which its process is no longer running and both streams have
/// ended, and that step makes the report of the termination and asks for
/// nothing else.
pub proof fn lemma_terminated_after_process_gone(s: SupervisorModel, event: EventModel)
    requires
        s.wf(),
        s.phase != Phase::Terminated,
        s.step(event).0.phase == Phase::Terminated,
    ensures
        s.phase == Phase::Stopping,
        s.cancel_requested,
        !s.step(event).0.process_running,
        !s.step(event).0.stdout_open,
        !s.step(event).0.stderr_open,
        s.step(event).1 == seq![EffectModel::Log(terminating_record(s.descriptor.name))],
{
}

/// A supervisor becomes `Exited` only from `Finishing`, only once both
/// streams have ended, and that step reports the exit with the code that
/// was seen and asks for nothing else.
pub proof fn lemma_exited_after_drain(s: SupervisorModel, event: EventModel)
    requires
        s.wf(),
        s.phase != Phase::Exited,
        s.step(event).0.phase == Phase::Exited,
    ensures
        s.phase == Phase::Finishing || s.phase == Phase::Running,
        !s.step(event).0.process_running,
        !s.step(event).0.stdout_open,
        !s.step(event).0.stderr_open,
        s.step(event).1 == seq![
            EffectModel::Log(exited_record(s.descriptor.name, s.step(event).0.exit_code)),
        ],
{
}

/// Nothing happens to a supervisor in a terminal phase: no event changes
/// it, and none has an effect. So it makes its report once, and never asks
/// for a kill afterwards.
pub proof fn lemma_terminal_is_final(s: SupervisorModel, event: EventModel)
    requires
        s.is_terminal(),
    ensures
        s.step(event).0 == s,
        s.step(event).1 == Seq::<EffectModel>::empty(),
{
}

/// The number of kills among some effects.
pub open spec fn kills(effects: Seq<EffectModel>) -> nat
    decreases effects.len(),
{
    if effects.len() == 0 {
        0
    } else {
        kills(effects.drop_last()) + if effects.last() is Kill {
            1nat
        } else {
            0nat
        }
    }
}

/// Whether a supervisor has asked for its process to be killed.
pub open spec fn kill_issued(s: SupervisorModel) -> bool {
    s.phase == Phase::Stopping || s.phase == Phase::Terminated
}

proof fn lemma_kills_of_step(s: SupervisorModel, event: EventModel)
    requires
        s.wf(),
    ensures
        kills(s.step(event).1) == if kill_issued(s.step(event).0) && !kill_issued(s) {
            1nat
        } else {
            0nat
        },
        kill_issued(s) ==> kill_issued(s.step(event).0),
{
    let effects = s.step(event).1;
    if effects.len() == 1 {
        assert(effects.drop_last().len() == 0);
        assert(kills(effects.drop_last()) == 0);
        assert(kills(effects) == if effects.last() is Kill {
            1nat
        } else {
            0nat
        });
    } else {
        assert(effects.len() == 0);
    }
}

proof fn lemma_kills_append(a: Seq<EffectModel>, b: Seq<EffectModel>)
    ensures
        kills(a + b) == kills(a) + kills(b),
    decreases b.len(),
{
    if b.len() == 0 {
        assert(a + b =~= a);
    } else {
        assert((a + b).drop_last() =~= a + b.drop_last());
        assert((a + b).last() == b.last());
        lemma_kills_append(a, b.drop_last());
    }
}

/// Whatever is reported to a supervisor, it asks for its process to be
/// killed at most once: exactly once where it has come to `Stopping` or
/// `Terminated`, and never otherwise.
pub proof fn lemma_kill_at_most_once(descriptor: ServiceModel, events: Seq<EventModel>)
    ensures
        kills(SupervisorModel::initial(descriptor).run_effects(events)) <= 1,
        kills(SupervisorModel::initial(descriptor).run_effects(events)) == 1 <==> kill_issued(
            SupervisorModel::initial(descriptor).run(events),
        ),
    decreases events.len(),
{
    let start = SupervisorModel::initial(descriptor);
    if events.len() > 0 {
        let before = start.run(events.drop_last());
        lemma_kill_at_most_once(descriptor, events.drop_last());
        lemma_run_keeps_wf(descriptor, events.drop_last());
        lemma_kills_of_step(before, events.last());
        lemma_kills_append(start.run_effects(events.drop_last()), before.step(events.last()).1);
    }
}

} // verus!
