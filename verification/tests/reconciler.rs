use lorri::json::{Json, Member};
use lorri::log::{Level, LogRecord};
use lorri::manifest::{Manifest, ServiceDescriptor};
use lorri::reconciler::{load_manifest, Cancellation, LoadError, Reconciler, Reconciliation};
use lorri::supervisor::{Effect, Event, Phase};

fn service(name: &str, program: &str, args: &[&str]) -> ServiceDescriptor {
    ServiceDescriptor {
        name: String::from(name),
        program: String::from(program),
        args: args.iter().map(|a| String::from(*a)).collect(),
    }
}

fn manifest(services: Vec<ServiceDescriptor>) -> Manifest {
    Manifest { services }
}

fn starting(name: &str) -> LogRecord {
    LogRecord {
        level: Level::Info,
        message: String::from("starting"),
        name: Some(String::from(name)),
        code: None,
        error: None,
    }
}

fn ids(plan: &Reconciliation) -> Vec<u64> {
    plan.start.iter().map(|launch| launch.id).collect()
}

fn delivered(id: u64) -> Cancellation {
    Cancellation { id, delivered: true }
}

#[test]
fn first_manifest_starts_the_first_generation() {
    let mut reconciler = Reconciler::new();
    assert_eq!(reconciler.current(), vec![]);
    let echo = service("a", "/bin/echo", &["hi"]);
    let plan = reconciler.reconcile("/nix/store/services.json", Ok(manifest(vec![echo.clone()])));
    assert_eq!(plan.log, vec![starting("a")]);
    assert_eq!(plan.cancel, vec![]);
    assert_eq!(plan.start.len(), 1);
    assert_eq!(plan.start[0].id, 0);
    assert_eq!(plan.start[0].supervisor.phase(), Phase::Spawning);
    assert_eq!(plan.start[0].supervisor.descriptor(), &echo);
    assert_eq!(reconciler.current(), vec![0]);
}

#[test]
fn every_service_gets_a_supervisor_in_manifest_order() {
    let mut reconciler = Reconciler::new();
    let services = vec![
        service("db", "/bin/postgres", &["-D", "data"]),
        service("web", "/bin/server", &[]),
        service("db", "/bin/postgres", &["-D", "other"]),
    ];
    let mut plan = reconciler.reconcile("/s.json", Ok(manifest(services.clone())));
    assert_eq!(plan.start.len(), 3);
    assert_eq!(ids(&plan), vec![0, 1, 2]);
    assert_eq!(plan.log, vec![starting("db"), starting("web"), starting("db")]);
    for (launch, wanted) in plan.start.iter_mut().zip(services.iter()) {
        assert_eq!(launch.supervisor.descriptor(), wanted);
        launch.supervisor.step(Event::Spawned);
        assert_eq!(launch.supervisor.phase(), Phase::Running);
    }
}

#[test]
fn a_service_that_cannot_start_does_not_stop_the_others() {
    let mut reconciler = Reconciler::new();
    let services = vec![
        service("ghost", "/no/such/program", &[]),
        service("a", "/bin/echo", &["hi"]),
    ];
    let mut plan = reconciler.reconcile("/s.json", Ok(manifest(services)));
    assert_eq!(plan.start.len(), 2);
    let effects =
        plan.start[0].supervisor.step(Event::SpawnFailed(String::from("No such file or directory")));
    assert_eq!(
        effects,
        vec![Effect::Log(LogRecord {
            level: Level::Error,
            message: String::from("failed to start service"),
            name: Some(String::from("ghost")),
            code: None,
            error: Some(String::from("No such file or directory")),
        })]
    );
    assert_eq!(plan.start[0].supervisor.phase(), Phase::FailedToStart);
    assert_eq!(plan.start[1].supervisor.step(Event::Spawned), vec![]);
    assert_eq!(plan.start[1].supervisor.phase(), Phase::Running);
}

#[test]
fn same_manifest_twice_starts_anew_and_cancels_the_first_once() {
    let mut reconciler = Reconciler::new();
    let services = vec![service("a", "/bin/echo", &["hi"]), service("b", "/bin/cat", &[])];
    let mut first = reconciler.reconcile("/one.json", Ok(manifest(services.clone())));
    let mut second = reconciler.reconcile("/two.json", Ok(manifest(services.clone())));
    assert_eq!(ids(&first), vec![0, 1]);
    assert_eq!(ids(&second), vec![2, 3]);
    assert_eq!(second.cancel, vec![delivered(0), delivered(1)]);
    for (old, new) in first.start.iter().zip(second.start.iter()) {
        assert_eq!(old.supervisor.descriptor(), new.supervisor.descriptor());
    }
    for launch in first.start.iter_mut() {
        assert_eq!(launch.stopped.try_recv(), Ok(Some(())));
    }
    for launch in second.start.iter_mut() {
        assert_eq!(launch.stopped.try_recv(), Ok(None));
    }
    let third = reconciler.reconcile("/three.json", Ok(manifest(vec![])));
    assert_eq!(third.cancel, vec![delivered(2), delivered(3)]);
    assert_eq!(third.start.len(), 0);
    assert_eq!(reconciler.current(), vec![]);
    let fourth = reconciler.reconcile("/four.json", Ok(manifest(services)));
    assert_eq!(fourth.cancel, vec![]);
    assert_eq!(ids(&fourth), vec![4, 5]);
}

#[test]
fn new_generation_starts_without_waiting_for_the_old_one() {
    let mut reconciler = Reconciler::new();
    let mut first =
        reconciler.reconcile("/one.json", Ok(manifest(vec![service("old", "/bin/sleep", &["1000"])])));
    let old = &mut first.start[0];
    old.supervisor.step(Event::Spawned);
    assert_eq!(old.stopped.try_recv(), Ok(None));

    let mut second = reconciler.reconcile(
        "/two.json",
        Ok(manifest(vec![service("new", "/bin/cat", &[]), service("newer", "/bin/cat", &[])])),
    );
    assert_eq!(second.cancel, vec![delivered(0)]);
    assert_eq!(second.log, vec![starting("new"), starting("newer")]);
    assert_eq!(ids(&second), vec![1, 2]);
    assert_eq!(reconciler.current(), vec![1, 2]);
    for launch in second.start.iter_mut() {
        assert_eq!(launch.supervisor.step(Event::Spawned), vec![]);
        assert_eq!(launch.supervisor.phase(), Phase::Running);
    }

    let old = &mut first.start[0];
    assert_eq!(old.supervisor.phase(), Phase::Running);
    assert_eq!(old.stopped.try_recv(), Ok(Some(())));
    assert_eq!(old.supervisor.step(Event::Cancelled), vec![Effect::Kill]);
    assert_eq!(old.supervisor.phase(), Phase::Stopping);
}

#[test]
fn signal_to_a_supervisor_that_is_gone_is_not_delivered() {
    let mut reconciler = Reconciler::new();
    let first = reconciler.reconcile(
        "/one.json",
        Ok(manifest(vec![service("a", "/bin/true", &[]), service("b", "/bin/cat", &[])])),
    );
    let mut launches = first.start;
    let kept = launches.pop().unwrap();
    drop(launches);
    let second = reconciler.reconcile("/two.json", Ok(manifest(vec![])));
    assert_eq!(
        second.cancel,
        vec![Cancellation { id: 0, delivered: false }, Cancellation { id: 1, delivered: true }]
    );
    drop(kept);
}

#[test]
fn unparsable_manifest_leaves_the_generation_alone() {
    let mut reconciler = Reconciler::new();
    let mut first =
        reconciler.reconcile("/one.json", Ok(manifest(vec![service("a", "/bin/cat", &[])])));
    let bad = reconciler.reconcile(
        "/nix/store/bad.json",
        Err(LoadError::Parse(String::from("expected value at line 1 column 1"))),
    );
    assert_eq!(
        bad.log,
        vec![LogRecord {
            level: Level::Error,
            message: String::from("failed to parse '/nix/store/bad.json' as a list of services"),
            name: None,
            code: None,
            error: Some(String::from("expected value at line 1 column 1")),
        }]
    );
    assert_eq!(bad.start.len(), 0);
    assert_eq!(bad.cancel, vec![]);
    assert_eq!(reconciler.current(), vec![0]);
    assert_eq!(first.start[0].stopped.try_recv(), Ok(None));
    let next = reconciler.reconcile("/two.json", Ok(manifest(vec![])));
    assert_eq!(next.cancel, vec![delivered(0)]);
}

#[test]
fn unreadable_manifest_leaves_the_generation_alone() {
    let mut reconciler = Reconciler::new();
    reconciler.reconcile("/one.json", Ok(manifest(vec![service("a", "/bin/cat", &[])])));
    let bad = reconciler
        .reconcile("/gone.json", Err(LoadError::Open(String::from("No such file or directory"))));
    assert_eq!(
        bad.log,
        vec![LogRecord {
            level: Level::Error,
            message: String::from("failed to open services definition '/gone.json' for reading"),
            name: None,
            code: None,
            error: Some(String::from("No such file or directory")),
        }]
    );
    assert_eq!(bad.start.len(), 0);
    assert_eq!(bad.cancel, vec![]);
    assert_eq!(reconciler.current(), vec![0]);
}

#[test]
fn failed_load_before_any_generation() {
    let mut reconciler = Reconciler::new();
    let bad = reconciler.reconcile("/x", Err(LoadError::Parse(String::from("eof"))));
    assert_eq!(bad.log.len(), 1);
    assert_eq!(reconciler.current(), vec![]);
    assert!(reconciler.can_admit(10));
    assert!(reconciler.can_admit(usize::MAX));
}

#[test]
fn load_manifest_reads_the_document() {
    let document = Json::Object(vec![Member {
        key: String::from("services"),
        value: Json::Array(vec![Json::Object(vec![
            Member { key: String::from("name"), value: Json::Text(String::from("a")) },
            Member { key: String::from("program"), value: Json::Text(String::from("/bin/echo")) },
            Member {
                key: String::from("args"),
                value: Json::Array(vec![Json::Text(String::from("hi"))]),
            },
        ])]),
    }]);
    assert_eq!(
        load_manifest(Ok(document)),
        Ok(manifest(vec![service("a", "/bin/echo", &["hi"])]))
    );
}

#[test]
fn load_manifest_describes_a_document_that_is_no_manifest() {
    assert_eq!(
        load_manifest(Ok(Json::Array(vec![]))),
        Err(LoadError::Parse(String::from("expected an object with a field `services`")))
    );
    assert_eq!(
        load_manifest(Ok(Json::Object(vec![]))),
        Err(LoadError::Parse(String::from("missing field `services`")))
    );
}

#[test]
fn load_manifest_passes_failures_on() {
    assert_eq!(
        load_manifest(Err(LoadError::Open(String::from("denied")))),
        Err(LoadError::Open(String::from("denied")))
    );
    assert_eq!(
        load_manifest(Err(LoadError::Parse(String::from("eof")))),
        Err(LoadError::Parse(String::from("eof")))
    );
}
