//! The generation reconciler: turns each manifest that arrives into a new
//! generation of supervisors and retires the generation before it.
//!
//! Supervisors are told apart by identifiers that the reconciler hands out
//! and never reuses. For each supervisor it starts, the reconciler makes a
//! one-shot channel: it keeps the sending half, and hands the receiving half
//! out with the supervisor. When the next manifest arrives it sends the
//! cancellation signal on every sending half it kept.

use futures::channel::oneshot::{channel, Receiver, Sender};
use vstd::prelude::*;
use vstd::string::StringExecFns;
use crate::json::{describe, manifest_of, read_manifest, Json};
use crate::log::{Level, LogRecord, LogRecordModel};
use crate::manifest::{Manifest, ServiceModel};
use crate::supervisor::{
    start_service, starting_record, EventModel, Phase, Supervisor, SupervisorModel,
};

verus! {

/// Why no manifest could be had from an artifact.
#[derive(Clone, Debug, PartialEq, Eq)]
pub enum LoadError {
    /// The file could not be opened, with the reason.
    Open(String),
    /// The file does not hold a list of services, with the reason.
    Parse(String),
}

/// Mathematical value of the outcome of loading a manifest.
pub ghost enum LoadModel {
    Loaded(Seq<ServiceModel>),
    OpenFailed(Seq<char>),
    ParseFailed(Seq<char>),
}

/// The value of the outcome of loading a manifest.
pub open spec fn load_of(load: Result<Manifest, LoadError>) -> LoadModel {
    match load {
        Ok(manifest) => LoadModel::Loaded(manifest@),
        Err(LoadError::Open(reason)) => LoadModel::OpenFailed(reason@),
        Err(LoadError::Parse(reason)) => LoadModel::ParseFailed(reason@),
    }
}

/// What comes of an artifact whose file was read as structured data: the
/// manifest that the data holds; a parse failure, with its description,
/// where the data is no manifest; and the failure of the reading itself
/// where there was one.
pub open spec fn load_of_document(document: Result<Json, LoadError>) -> LoadModel {
    match document {
        Ok(json) => match manifest_of(json) {
            Ok(services) => LoadModel::Loaded(services),
            Err(error) => LoadModel::ParseFailed(describe(error)),
        },
        Err(LoadError::Open(reason)) => LoadModel::OpenFailed(reason@),
        Err(LoadError::Parse(reason)) => LoadModel::ParseFailed(reason@),
    }
}

/// Reads the manifest out of what the caller got from an artifact: the
/// structured data of the file, or the reason why it has none.
pub fn load_manifest(document: Result<Json, LoadError>) -> (out: Result<Manifest, LoadError>)
    ensures
        load_of(out) == load_of_document(document),
{
    match document {
        Ok(json) => match read_manifest(&json) {
            Ok(manifest) => Ok(manifest),
            Err(error) => Err(LoadError::Parse(error.describe())),
        },
        Err(error) => Err(error),
    }
}

/// A supervisor to start, under the identifier by which it will later be
/// cancelled, with the receiving half of its cancellation signal.
#[derive(Debug)]
pub struct Launch {
    pub id: u64,
    pub supervisor: Supervisor,
    pub stopped: Receiver<()>,
}

/// Mathematical value of a [`Launch`].
pub ghost struct LaunchModel {
    pub id: u64,
    pub supervisor: SupervisorModel,
}

impl View for Launch {
    type V = LaunchModel;

    open spec fn view(&self) -> LaunchModel {
        LaunchModel { id: self.id, supervisor: self.supervisor@ }
    }
}

/// A cancellation signal that was sent: to which supervisor, and whether
/// its receiving half still existed to take it.
#[derive(Clone, Copy, Debug, PartialEq, Eq)]
pub struct Cancellation {
    pub id: u64,
    pub delivered: bool,
}

/// What came of one manifest. The caller hands the records to the log and
/// starts every launch. The cancellation signals in `cancel` have been
/// sent; nobody waits for the supervisors that got them.
#[derive(Debug)]
pub struct Reconciliation {
    pub log: Vec<LogRecord>,
    pub start: Vec<Launch>,
    pub cancel: Vec<Cancellation>,
}

/// Mathematical value of a [`Reconciliation`].
pub ghost struct ReconciliationModel {
    pub log: Seq<LogRecordModel>,
    pub start: Seq<LaunchModel>,
    pub cancel: Seq<u64>,
}

impl View for Reconciliation {
    type V = ReconciliationModel;

    open spec fn view(&self) -> ReconciliationModel {
        ReconciliationModel {
            log: Seq::new(self.log@.len(), |i: int| self.log@[i]@),
            start: Seq::new(self.start@.len(), |i: int| self.start@[i]@),
            cancel: Seq::new(self.cancel@.len(), |i: int| self.cancel@[i].id),
        }
    }
}

impl Reconciliation {
    /// The same as `self@ == model`, said of each list item by item.
    pub open spec fn matches(self, model: ReconciliationModel) -> bool {
        &&& self.log@.len() == model.log.len()
        &&& self.start@.len() == model.start.len()
        &&& self.cancel@.len() == model.cancel.len()
        &&& forall|i: int| 0 <= i < self.log@.len() ==> (#[trigger] self.log@[i])@ == model.log[i]
        &&& forall|i: int|
            0 <= i < self.start@.len() ==> (#[trigger] self.start@[i])@ == model.start[i]
        &&& forall|i: int|
            0 <= i < self.cancel@.len() ==> (#[trigger] self.cancel@[i]).id == model.cancel[i]
    }
}

/// Record of an artifact that could not be opened.
pub open spec fn open_failed_record(path: Seq<char>, reason: Seq<char>) -> LogRecordModel {
    LogRecordModel {
        level: Level::Error,
        message: "failed to open services definition '"@ + path + "' for reading"@,
        name: None,
        code: None,
        error: Some(reason),
    }
}

/// Record of an artifact that does not hold a list of services.
pub open spec fn parse_failed_record(path: Seq<char>, reason: Seq<char>) -> LogRecordModel {
    LogRecordModel {
        level: Level::Error,
        message: "failed to parse '"@ + path + "' as a list of services"@,
        name: None,
        code: None,
        error: Some(reason),
    }
}

/// Mathematical value of a [`Reconciler`].
pub ghost struct ReconcilerModel {
    /// Identifiers of the supervisors of the current generation, in the
    /// order of their manifest.
    pub current: Seq<u64>,
    /// The next identifier to hand out.
    pub next_id: u64,
}

impl ReconcilerModel {
    /// The reconciler before any manifest has arrived.
    pub open spec fn initial() -> ReconcilerModel {
        ReconcilerModel { current: Seq::empty(), next_id: 0 }
    }

    /// The current generation holds the identifiers handed out last.
    pub open spec fn wf(self) -> bool {
        &&& self.current.len() <= self.next_id
        &&& forall|i: int|
            0 <= i < self.current.len() ==> #[trigger] self.current[i] == self.next_id
                - self.current.len() + i
    }

    /// Whether identifiers are left for a generation of `count` supervisors.
    pub open spec fn can_admit(self, count: nat) -> bool {
        self.next_id + count <= u64::MAX
    }

    /// Whether identifiers are left for what a load asks to be started.
    pub open spec fn accepts(self, load: LoadModel) -> bool {
        load matches LoadModel::Loaded(services) ==> self.can_admit(services.len())
    }

    /// The transition function. A manifest starts one supervisor for each
    /// of its services, in its order and under fresh identifiers, announces
    /// each, and cancels the whole generation before it. A failed load is
    /// logged and changes nothing.
    pub open spec fn reconcile(self, path: Seq<char>, load: LoadModel) -> (
        ReconcilerModel,
        ReconciliationModel,
    ) {
        match load {
            LoadModel::Loaded(services) => (
                ReconcilerModel {
                    current: Seq::new(services.len(), |i: int| (self.next_id + i) as u64),
                    next_id: (self.next_id + services.len()) as u64,
                },
                ReconciliationModel {
                    log: Seq::new(services.len(), |i: int| starting_record(services[i].name)),
                    start: Seq::new(
                        services.len(),
                        |i: int|
                            LaunchModel {
                                id: (self.next_id + i) as u64,
                                supervisor: SupervisorModel::initial(services[i]),
                            },
                    ),
                    cancel: self.current,
                },
            ),
            LoadModel::OpenFailed(reason) => (
                self,
                ReconciliationModel {
                    log: seq![open_failed_record(path, reason)],
                    start: Seq::empty(),
                    cancel: Seq::empty(),
                },
            ),
            LoadModel::ParseFailed(reason) => (
                self,
                ReconciliationModel {
                    log: seq![parse_failed_record(path, reason)],
                    start: Seq::empty(),
                    cancel: Seq::empty(),
                },
            ),
        }
    }

    /// The reconciler after a whole sequence of loads, all of artifacts at
    /// `path`.
    pub open spec fn after(self, path: Seq<char>, loads: Seq<LoadModel>) -> ReconcilerModel
        decreases loads.len(),
    {
        if loads.len() == 0 {
            self
        } else {
            self.after(path, loads.drop_last()).reconcile(path, loads.last()).0
        }
    }

    /// Every cancellation asked for over a whole sequence of loads, in
    /// order.
    pub open spec fn cancelled(self, path: Seq<char>, loads: Seq<LoadModel>) -> Seq<u64>
        decreases loads.len(),
    {
        if loads.len() == 0 {
            Seq::empty()
        } else {
            self.cancelled(path, loads.drop_last()) + self.after(
                path,
                loads.drop_last(),
            ).reconcile(path, loads.last()).1.cancel
        }
    }

    /// Whether identifiers are left for each load of a sequence at the
    /// time it arrives.
    pub open spec fn accepts_all(self, path: Seq<char>, loads: Seq<LoadModel>) -> bool
        decreases loads.len(),
    {
        loads.len() == 0 || (self.accepts_all(path, loads.drop_last()) && self.after(
            path,
            loads.drop_last(),
        ).accepts(loads.last()))
    }

    /// The least identifier of the current generation; every identifier
    /// below it belongs to a generation of the past.
    pub open spec fn base(self) -> int {
        self.next_id - self.current.len()
    }
}

/// The sending half of the cancellation signal of one supervisor.
#[derive(Debug)]
struct Armed {
    id: u64,
    stop: Sender<()>,
}

/// The identifiers of some sending halves, in order.
closed spec fn armed_ids(armed: Seq<Armed>) -> Seq<u64> {
    Seq::new(armed.len(), |i: int| armed[i].id)
}

/// Owner of the current generation: it holds the sending half of the
/// cancellation signal of each of its supervisors.
#[derive(Debug)]
pub struct Reconciler {
    current: Vec<Armed>,
    next_id: u64,
}

impl View for Reconciler {
    type V = ReconcilerModel;

    closed spec fn view(&self) -> ReconcilerModel {
        ReconcilerModel { current: armed_ids(self.current@), next_id: self.next_id }
    }
}

fn failure_record(before: &str, path: &str, after: &str, reason: String) -> (out: LogRecord)
    ensures
        out@ == (LogRecordModel {
            level: Level::Error,
            message: before@ + path@ + after@,
            name: None,
            code: None,
            error: Some(reason@),
        }),
{
    let mut message = String::from_str(before);
    message.append(path);
    message.append(after);
    LogRecord { level: Level::Error, message, name: None, code: None, error: Some(reason) }
}

impl Reconciler {
    /// Invariant of the representation.
    #[verifier::type_invariant]
    closed spec fn inv(self) -> bool {
        self@.wf()
    }

    /// A reconciler with no generation yet.
    pub fn new() -> (out: Reconciler)
        ensures
            out@ == ReconcilerModel::initial(),
            out@.wf(),
    {
        let out = Reconciler { current: Vec::new(), next_id: 0 };
        assert(out@.current =~= Seq::<u64>::empty());
        out
    }

    /// Identifiers of the supervisors of the current generation, in the
    /// order of their manifest.
    pub fn current(&self) -> (out: Vec<u64>)
        ensures
            out@ == self@.current,
            self@.wf(),
    {
        proof {
            use_type_invariant(self);
        }
        let mut out: Vec<u64> = Vec::new();
        let mut at: usize = 0;
        while at < self.current.len()
            invariant
                at <= self.current@.len(),
                out@.len() == at,
                forall|i: int| 0 <= i < at ==> #[trigger] out@[i] == self.current@[i].id,
            decreases self.current@.len() - at,
        {
            out.push(self.current[at].id);
            at = at + 1;
        }
        assert(out@ =~= self@.current);
        out
    }

    /// Whether identifiers are left for a generation of `count` supervisors.
    pub fn can_admit(&self, count: usize) -> (out: bool)
        ensures
            out == self@.can_admit(count as nat),
    {
        count as u64 <= u64::MAX - self.next_id
    }

    /// Reconciles against what came of loading the artifact at `path`: the
    /// transition of [`ReconcilerModel::reconcile`].
    pub fn reconcile(&mut self, path: &str, load: Result<Manifest, LoadError>) -> (out:
        Reconciliation)
        requires
            old(self)@.accepts(load_of(load)),
        ensures
            final(self)@ == old(self)@.reconcile(path@, load_of(load)).0,
            out@ == old(self)@.reconcile(path@, load_of(load)).1,
            out.matches(old(self)@.reconcile(path@, load_of(load)).1),
            final(self)@.wf(),
    {
        proof {
            use_type_invariant(&*self);
        }
        let mut log: Vec<LogRecord> = Vec::new();
        let mut start: Vec<Launch> = Vec::new();
        let mut cancel: Vec<Cancellation> = Vec::new();
        match load {
            Ok(manifest) => {
                let count = manifest.services.len();
                let base = self.next_id;
                let mut current: Vec<Armed> = Vec::new();
                let mut at: usize = 0;
                while at < count
                    invariant
                        count == manifest.services@.len(),
                        base + count <= u64::MAX,
                        at <= count,
                        log@.len() == at,
                        start@.len() == at,
                        current@.len() == at,
                        forall|i: int|
                            0 <= i < at ==> (#[trigger] log@[i])@ == starting_record(
                                manifest@[i].name,
                            ),
                        forall|i: int|
                            0 <= i < at ==> (#[trigger] start@[i])@ == (LaunchModel {
                                id: (base + i) as u64,
                                supervisor: SupervisorModel::initial(manifest@[i]),
                            }),
                        forall|i: int| 0 <= i < at ==> (#[trigger] current@[i]).id == base + i,
                    decreases count - at,
                {
                    let id = base + at as u64;
                    let (supervisor, record) = start_service(manifest.services[at].duplicate());
                    let (stop, stopped) = channel::<()>();
                    log.push(record);
                    start.push(Launch { id, supervisor, stopped });
                    current.push(Armed { id, stop });
                    at = at + 1;
                }
                let ghost before = self@;
                let mut previous = Reconciler { current, next_id: base + count as u64 };
                assert(previous@.current =~= before.reconcile(path@, load_of(load)).0.current);
                std::mem::swap(self, &mut previous);
                let Reconciler { current: mut retired, next_id: _ } = previous;
                let ghost all = retired@;
                assert(armed_ids(all) == before.current);
                while retired.len() > 0
                    invariant
                        cancel@.len() + retired@.len() == all.len(),
                        retired@ == all.skip(cancel@.len() as int),
                        forall|i: int|
                            0 <= i < cancel@.len() ==> (#[trigger] cancel@[i]).id == all[i].id,
                    decreases retired@.len(),
                {
                    let armed = retired.remove(0);
                    assert(armed == all[cancel@.len() as int]);
                    assert(retired@ =~= all.skip(cancel@.len() as int + 1));
                    let delivered = armed.stop.send(()).is_ok();
                    cancel.push(Cancellation { id: armed.id, delivered });
                }
                assert(Seq::new(cancel@.len(), |i: int| cancel@[i].id) =~= armed_ids(all));
            },
            Err(LoadError::Open(reason)) => {
                log.push(
                    failure_record(
                        "failed to open services definition '",
                        path,
                        "' for reading",
                        reason,
                    ),
                );
            },
            Err(LoadError::Parse(reason)) => {
                log.push(failure_record("failed to parse '", path, "' as a list of services", reason));
            },
        }
        let out = Reconciliation { log, start, cancel };
        proof {
            let want = old(self)@.reconcile(path@, load_of(load)).1;
            assert(out@.log =~= want.log);
            assert forall|i: int| 0 <= i < out.log@.len() implies (#[trigger] out.log@[i])@
                == want.log[i] by {
                assert(out@.log[i] == out.log@[i]@);
            }
            assert forall|i: int| 0 <= i < out.start@.len() implies (#[trigger] out.start@[i])@
                == want.start[i] by {
                assert(out@.start[i] == out.start@[i]@);
            }
            assert forall|i: int| 0 <= i < out.cancel@.len() implies (
            #[trigger] out.cancel@[i]).id == want.cancel[i] by {
                assert(out@.cancel[i] == out.cancel@[i].id);
            }
            assert(out@.start =~= want.start);
            assert(out@.cancel =~= want.cancel);
        }
        out
    }
}

/// The identifiers of some launches, in order.
pub open spec fn launch_ids(start: Seq<LaunchModel>) -> Seq<u64> {
    Seq::new(start.len(), |i: int| start[i].id)
}

/// Reconciling keeps the reconciler well formed, and every launch gets an
/// identifier that was never handed out before.
pub proof fn lemma_reconcile_keeps_wf(r: ReconcilerModel, path: Seq<char>, load: LoadModel)
    requires
        r.wf(),
        r.accepts(load),
    ensures
        r.reconcile(path, load).0.wf(),
        r.reconcile(path, load).0.next_id >= r.next_id,
        load is Loaded ==> r.reconcile(path, load).0.current == launch_ids(
            r.reconcile(path, load).1.start,
        ),
        forall|i: int|
            0 <= i < r.reconcile(path, load).1.start.len() ==> r.next_id <= (
            #[trigger] r.reconcile(path, load).1.start[i]).id,
{
    if load is Loaded {
        assert(r.reconcile(path, load).0.current =~= launch_ids(r.reconcile(path, load).1.start));
    }
}

/// A manifest of N services starts exactly N supervisors, one for each
/// service and in the order of the manifest; and once the outcome of its
/// launch has been reported, each of them runs or is in a terminal phase.
/// None is left that never started.
pub proof fn lemma_generation_starts(
    r: ReconcilerModel,
    path: Seq<char>,
    services: Seq<ServiceModel>,
    outcomes: Seq<EventModel>,
)
    requires
        r.wf(),
        r.can_admit(services.len()),
        outcomes.len() == services.len(),
        forall|i: int|
            0 <= i < outcomes.len() ==> (#[trigger] outcomes[i]) is Spawned || outcomes[i]
                is SpawnFailed,
    ensures
        r.reconcile(path, LoadModel::Loaded(services)).1.start.len() == services.len(),
        forall|i: int|
            #![trigger outcomes[i]]
            0 <= i < services.len() ==> {
                let launch = r.reconcile(path, LoadModel::Loaded(services)).1.start[i];
                let reported = launch.supervisor.step(outcomes[i]).0;
                &&& launch.supervisor == SupervisorModel::initial(services[i])
                &&& reported.descriptor == services[i]
                &&& reported.phase == Phase::Running || reported.is_terminal()
                &&& reported.phase == Phase::Running <==> outcomes[i] is Spawned
            },
{
}

/// Reconciling the same manifest twice in a row starts a second generation
/// with the services of the first, under new identifiers, and cancels
/// every supervisor of the first generation, each exactly once.
pub proof fn lemma_reconcile_twice(
    r: ReconcilerModel,
    first_path: Seq<char>,
    second_path: Seq<char>,
    services: Seq<ServiceModel>,
)
    requires
        r.wf(),
        r.can_admit(2 * services.len()),
    ensures
        ({
            let first = r.reconcile(first_path, LoadModel::Loaded(services));
            let second = first.0.reconcile(second_path, LoadModel::Loaded(services));
            &&& second.1.start.len() == first.1.start.len()
            &&& forall|i: int|
                0 <= i < first.1.start.len() ==> (#[trigger] second.1.start[i]).supervisor
                    == first.1.start[i].supervisor
            &&& second.1.cancel == launch_ids(first.1.start)
            &&& second.1.cancel.no_duplicates()
            &&& forall|i: int, j: int|
                0 <= i < first.1.start.len() && 0 <= j < second.1.start.len() ==> (
                #[trigger] first.1.start[i]).id != (#[trigger] second.1.start[j]).id
            &&& forall|i: int, j: int|
                0 <= i < second.0.current.len() && 0 <= j < second.1.cancel.len() ==> (
                #[trigger] second.0.current[i]) != (#[trigger] second.1.cancel[j])
        }),
{
    let first = r.reconcile(first_path, LoadModel::Loaded(services));
    let second = first.0.reconcile(second_path, LoadModel::Loaded(services));
    assert(second.1.cancel =~= launch_ids(first.1.start));
}

/// Over any sequence of loads, no supervisor is sent the cancellation
/// signal twice, and none of the current generation has been sent it.
pub proof fn lemma_cancel_at_most_once(r: ReconcilerModel, path: Seq<char>, loads: Seq<LoadModel>)
    requires
        r.wf(),
        r.accepts_all(path, loads),
    ensures
        r.after(path, loads).wf(),
        r.cancelled(path, loads).no_duplicates(),
        forall|i: int|
            0 <= i < r.cancelled(path, loads).len() ==> (#[trigger] r.cancelled(path, loads)[i])
                < r.after(path, loads).base(),
        forall|i: int, j: int|
            0 <= i < r.cancelled(path, loads).len() && 0 <= j < r.after(
                path,
                loads,
            ).current.len() ==> (#[trigger] r.cancelled(path, loads)[i]) != (#[trigger] r.after(
                path,
                loads,
            ).current[j]),
    decreases loads.len(),
{
    lemma_cancel_increasing(r, path, loads);
    let after = r.after(path, loads);
    assert forall|i: int, j: int|
        0 <= i < r.cancelled(path, loads).len() && 0 <= j < after.current.len() implies (
    #[trigger] r.cancelled(path, loads)[i]) != (#[trigger] after.current[j]) by {
        assert(after.current[j] == after.base() + j);
    }
}

proof fn lemma_cancel_increasing(r: ReconcilerModel, path: Seq<char>, loads: Seq<LoadModel>)
    requires
        r.wf(),
        r.accepts_all(path, loads),
    ensures
        r.after(path, loads).wf(),
        r.base() <= r.after(path, loads).base(),
        forall|i: int, j: int|
            0 <= i < j < r.cancelled(path, loads).len() ==> (#[trigger] r.cancelled(path, loads)[i])
                < (#[trigger] r.cancelled(path, loads)[j]),
        forall|i: int|
            0 <= i < r.cancelled(path, loads).len() ==> (#[trigger] r.cancelled(path, loads)[i])
                < r.after(path, loads).base(),
    decreases loads.len(),
{
    if loads.len() > 0 {
        let earlier = loads.drop_last();
        let before = r.after(path, earlier);
        lemma_cancel_increasing(r, path, earlier);
        lemma_reconcile_keeps_wf(before, path, loads.last());
        let old_cancelled = r.cancelled(path, earlier);
        let step = before.reconcile(path, loads.last());
        let all = r.cancelled(path, loads);
        assert(all == old_cancelled + step.1.cancel);
        assert forall|i: int| 0 <= i < all.len() implies (#[trigger] all[i]) < r.after(
            path,
            loads,
        ).base() by {
            if i >= old_cancelled.len() {
                assert(all[i] == step.1.cancel[i - old_cancelled.len()]);
                assert(before.current[i - old_cancelled.len()] == before.base() + (i
                    - old_cancelled.len()));
            }
        }
        assert forall|i: int, j: int| 0 <= i < j < all.len() implies (#[trigger] all[i]) < (
        #[trigger] all[j]) by {
            if j >= old_cancelled.len() {
                let k = j - old_cancelled.len();
                assert(all[j] == step.1.cancel[k]);
                assert(before.current[k] == before.base() + k);
                if i >= old_cancelled.len() {
                    let h = i - old_cancelled.len();
                    assert(all[i] == step.1.cancel[h]);
                    assert(before.current[h] == before.base() + h);
                }
            }
        }
    }
}

} // verus!
