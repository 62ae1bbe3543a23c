use lorri::log::{Fd, Level, LogRecord};
use lorri::manifest::ServiceDescriptor;
use lorri::supervisor::{render_exit_code, start_service, Effect, Event, Phase, Supervisor};

fn echo() -> ServiceDescriptor {
    ServiceDescriptor {
        name: String::from("a"),
        program: String::from("/bin/echo"),
        args: vec![String::from("hi")],
    }
}

fn running() -> Supervisor {
    let (mut supervisor, _) = start_service(echo());
    assert_eq!(supervisor.step(Event::Spawned), vec![]);
    supervisor
}

fn record(level: Level, message: &str, code: Option<&str>, error: Option<&str>) -> LogRecord {
    LogRecord {
        level,
        message: String::from(message),
        name: Some(String::from("a")),
        code: code.map(String::from),
        error: error.map(String::from),
    }
}

#[test]
fn start_service_announces_and_waits_for_the_launch() {
    let (supervisor, announcement) = start_service(echo());
    assert_eq!(supervisor.phase(), Phase::Spawning);
    assert_eq!(supervisor.name(), "a");
    assert_eq!(supervisor.descriptor(), &echo());
    assert!(!supervisor.process_running());
    assert!(!supervisor.is_terminal());
    assert_eq!(announcement, record(Level::Info, "starting", None, None));
}

#[test]
fn clean_exit_is_reported_as_a_warning() {
    let mut supervisor = running();
    assert_eq!(supervisor.phase(), Phase::Running);
    assert!(supervisor.process_running());
    assert_eq!(supervisor.step(Event::StreamClosed(Fd::Stdout)), vec![]);
    assert_eq!(supervisor.step(Event::ProcessExited(Some(0))), vec![]);
    assert_eq!(supervisor.phase(), Phase::Finishing);
    assert!(!supervisor.process_running());
    let effects = supervisor.step(Event::StreamClosed(Fd::Stderr));
    assert_eq!(
        effects,
        vec![Effect::Log(record(Level::Warning, "service exited", Some("0"), None))]
    );
    assert_eq!(supervisor.phase(), Phase::Exited);
    assert!(supervisor.is_terminal());
}

#[test]
fn failing_exit_is_reported_as_an_error() {
    let mut supervisor = running();
    supervisor.step(Event::StreamClosed(Fd::Stdout));
    supervisor.step(Event::StreamClosed(Fd::Stderr));
    assert_eq!(supervisor.phase(), Phase::Running);
    let effects = supervisor.step(Event::ProcessExited(Some(3)));
    assert_eq!(
        effects,
        vec![Effect::Log(record(Level::Error, "service exited", Some("3"), None))]
    );
    assert_eq!(supervisor.phase(), Phase::Exited);
}

#[test]
fn exit_without_a_code_is_marked_unknown() {
    let mut supervisor = running();
    supervisor.step(Event::StreamClosed(Fd::Stdout));
    supervisor.step(Event::StreamClosed(Fd::Stderr));
    let effects = supervisor.step(Event::ProcessExited(None));
    assert_eq!(
        effects,
        vec![Effect::Log(record(Level::Error, "service exited", Some("<unknown>"), None))]
    );
}

#[test]
fn exit_codes_are_rendered_in_decimal() {
    assert_eq!(render_exit_code(None), "<unknown>");
    assert_eq!(render_exit_code(Some(0)), "0");
    assert_eq!(render_exit_code(Some(127)), "127");
    assert_eq!(render_exit_code(Some(-1)), "-1");
}

#[test]
fn failed_launch_is_reported_and_final() {
    let (mut supervisor, _) = start_service(echo());
    let effects = supervisor.step(Event::SpawnFailed(String::from("No such file or directory")));
    assert_eq!(
        effects,
        vec![Effect::Log(record(
            Level::Error,
            "failed to start service",
            None,
            Some("No such file or directory")
        ))]
    );
    assert_eq!(supervisor.phase(), Phase::FailedToStart);
    assert!(supervisor.is_terminal());
    assert!(!supervisor.process_running());
    assert_eq!(supervisor.step(Event::Cancelled), vec![]);
    assert_eq!(supervisor.step(Event::Spawned), vec![]);
    assert_eq!(supervisor.phase(), Phase::FailedToStart);
}

#[test]
fn cancellation_kills_then_drains_then_reports() {
    let mut supervisor = running();
    assert_eq!(supervisor.step(Event::Cancelled), vec![Effect::Kill]);
    assert_eq!(supervisor.phase(), Phase::Stopping);
    assert!(supervisor.process_running());
    assert_eq!(supervisor.step(Event::Killed), vec![]);
    assert!(!supervisor.process_running());
    assert_eq!(supervisor.step(Event::StreamClosed(Fd::Stderr)), vec![]);
    assert_eq!(supervisor.phase(), Phase::Stopping);
    let effects = supervisor.step(Event::StreamClosed(Fd::Stdout));
    assert_eq!(
        effects,
        vec![Effect::Log(record(Level::Info, "terminating service", None, None))]
    );
    assert_eq!(supervisor.phase(), Phase::Terminated);
    assert!(supervisor.is_terminal());
    assert!(!supervisor.process_running());
}

#[test]
fn terminated_is_not_reported_while_the_process_may_run() {
    let mut supervisor = running();
    supervisor.step(Event::Cancelled);
    assert_eq!(supervisor.step(Event::StreamClosed(Fd::Stdout)), vec![]);
    assert_eq!(supervisor.step(Event::StreamClosed(Fd::Stderr)), vec![]);
    assert_eq!(supervisor.phase(), Phase::Stopping);
    assert!(supervisor.process_running());
    let effects = supervisor.step(Event::Killed);
    assert_eq!(
        effects,
        vec![Effect::Log(record(Level::Info, "terminating service", None, None))]
    );
    assert_eq!(supervisor.phase(), Phase::Terminated);
    assert!(!supervisor.process_running());
}

#[test]
fn failed_kill_is_logged_and_the_exit_awaited() {
    let mut supervisor = running();
    supervisor.step(Event::Cancelled);
    supervisor.step(Event::StreamClosed(Fd::Stdout));
    supervisor.step(Event::StreamClosed(Fd::Stderr));
    let effects = supervisor.step(Event::KillFailed(String::from("No such process")));
    assert_eq!(
        effects,
        vec![Effect::Log(record(
            Level::Error,
            "failed to kill service",
            None,
            Some("No such process")
        ))]
    );
    assert_eq!(supervisor.phase(), Phase::Stopping);
    assert!(supervisor.process_running());
    let effects = supervisor.step(Event::ProcessExited(Some(0)));
    assert_eq!(
        effects,
        vec![Effect::Log(record(Level::Info, "terminating service", None, None))]
    );
    assert_eq!(supervisor.phase(), Phase::Terminated);
}

#[test]
fn kill_is_asked_for_once() {
    let mut supervisor = running();
    assert_eq!(supervisor.step(Event::Cancelled), vec![Effect::Kill]);
    assert_eq!(supervisor.step(Event::Cancelled), vec![]);
    assert_eq!(supervisor.step(Event::Spawned), vec![]);
    assert_eq!(supervisor.phase(), Phase::Stopping);
}

#[test]
fn cancellation_after_the_exit_changes_nothing() {
    let mut supervisor = running();
    supervisor.step(Event::ProcessExited(Some(0)));
    assert_eq!(supervisor.step(Event::Cancelled), vec![]);
    assert_eq!(supervisor.phase(), Phase::Finishing);
    assert_eq!(supervisor.step(Event::Killed), vec![]);
    supervisor.step(Event::StreamClosed(Fd::Stdout));
    supervisor.step(Event::StreamClosed(Fd::Stderr));
    assert_eq!(supervisor.phase(), Phase::Exited);
    assert_eq!(supervisor.step(Event::Cancelled), vec![]);
    assert_eq!(supervisor.phase(), Phase::Exited);
}

#[test]
fn cancellation_before_the_launch_is_remembered() {
    let (mut supervisor, _) = start_service(echo());
    assert_eq!(supervisor.step(Event::Cancelled), vec![]);
    assert_eq!(supervisor.phase(), Phase::Spawning);
    assert_eq!(supervisor.step(Event::Spawned), vec![Effect::Kill]);
    assert_eq!(supervisor.phase(), Phase::Stopping);
    assert!(supervisor.process_running());
}

#[test]
fn events_without_meaning_are_ignored() {
    let (mut supervisor, _) = start_service(echo());
    assert_eq!(supervisor.step(Event::Killed), vec![]);
    assert_eq!(supervisor.step(Event::ProcessExited(Some(1))), vec![]);
    assert_eq!(supervisor.step(Event::StreamClosed(Fd::Stdout)), vec![]);
    assert_eq!(supervisor.step(Event::KillFailed(String::from("x"))), vec![]);
    assert_eq!(supervisor.phase(), Phase::Spawning);
    assert!(!supervisor.process_running());
}
