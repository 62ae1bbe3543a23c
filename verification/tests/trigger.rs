use lorri::log::{Level, LogRecord};
use lorri::trigger::{
    BuildEvent, Trigger, TriggerEffect, TriggerInput, TriggerPhase, MANIFEST_QUEUE_CAPACITY,
};

fn plain(level: Level, message: &str) -> LogRecord {
    LogRecord { level, message: String::from(message), name: None, code: None, error: None }
}

fn event(kind: BuildEvent, description: &str) -> TriggerInput {
    TriggerInput::Event { kind, description: String::from(description) }
}

fn building() -> Trigger {
    let mut trigger = Trigger::new();
    trigger.step(event(BuildEvent::Completed, "Completed"));
    trigger
}

#[test]
fn queue_holds_a_thousand_and_some() {
    assert_eq!(MANIFEST_QUEUE_CAPACITY, 1024);
}

#[test]
fn completed_build_starts_a_build_of_the_services_file() {
    let mut trigger = Trigger::new();
    assert_eq!(trigger.phase(), &TriggerPhase::Idle);
    let effects = trigger.step(event(BuildEvent::Completed, "Completed(out)"));
    assert_eq!(
        effects,
        vec![
            TriggerEffect::Log(plain(Level::Info, "build msg: Completed(out)")),
            TriggerEffect::Log(plain(
                Level::Info,
                "starting a new build for the services nix file"
            )),
            TriggerEffect::Build,
        ]
    );
    assert_eq!(trigger.phase(), &TriggerPhase::Building);
}

#[test]
fn other_events_are_logged_and_dropped() {
    let mut trigger = Trigger::new();
    assert_eq!(
        trigger.step(event(BuildEvent::Started, "Started")),
        vec![TriggerEffect::Log(plain(Level::Info, "build msg: Started"))]
    );
    assert_eq!(trigger.phase(), &TriggerPhase::Idle);
    assert_eq!(
        trigger.step(event(BuildEvent::Failure, "Failure(exit 1)")),
        vec![TriggerEffect::Log(plain(Level::Info, "build msg: Failure(exit 1)"))]
    );
    assert_eq!(trigger.phase(), &TriggerPhase::Idle);
}

#[test]
fn artifact_is_offered_to_the_queue() {
    let mut trigger = building();
    let effects = trigger.step(TriggerInput::BuildSucceeded(String::from("/nix/store/s.json")));
    assert_eq!(effects, vec![TriggerEffect::Push(String::from("/nix/store/s.json"))]);
    assert_eq!(trigger.phase(), &TriggerPhase::Pushing(String::from("/nix/store/s.json")));
    assert_eq!(trigger.step(TriggerInput::Pushed), vec![]);
    assert_eq!(trigger.phase(), &TriggerPhase::Idle);
}

#[test]
fn failed_build_is_logged_and_pushes_nothing() {
    let mut trigger = building();
    let effects = trigger.step(TriggerInput::BuildFailed(String::from("exit status 1")));
    assert_eq!(
        effects,
        vec![TriggerEffect::Log(LogRecord {
            level: Level::Error,
            message: String::from("failed to build the services nix file"),
            name: None,
            code: None,
            error: Some(String::from("exit status 1")),
        })]
    );
    assert_eq!(trigger.phase(), &TriggerPhase::Idle);
}

#[test]
fn full_queue_suspends_the_trigger_until_there_is_room() {
    let mut trigger = building();
    trigger.step(TriggerInput::BuildSucceeded(String::from("/nix/store/s.json")));
    assert_eq!(trigger.step(TriggerInput::QueueFull), vec![TriggerEffect::AwaitCapacity]);
    assert_eq!(trigger.phase(), &TriggerPhase::Blocked(String::from("/nix/store/s.json")));

    assert_eq!(trigger.step(event(BuildEvent::Completed, "Completed")), vec![]);
    assert_eq!(trigger.step(TriggerInput::BuildSucceeded(String::from("/other"))), vec![]);
    assert_eq!(trigger.step(TriggerInput::Pushed), vec![]);
    assert_eq!(trigger.phase(), &TriggerPhase::Blocked(String::from("/nix/store/s.json")));

    assert_eq!(
        trigger.step(TriggerInput::CapacityAvailable),
        vec![TriggerEffect::Push(String::from("/nix/store/s.json"))]
    );
    assert_eq!(trigger.phase(), &TriggerPhase::Pushing(String::from("/nix/store/s.json")));
    assert_eq!(trigger.step(TriggerInput::Pushed), vec![]);
    assert_eq!(trigger.phase(), &TriggerPhase::Idle);

    let effects = trigger.step(event(BuildEvent::Completed, "Completed"));
    assert_eq!(effects.last(), Some(&TriggerEffect::Build));
}

#[test]
fn queue_that_fills_again_blocks_again() {
    let mut trigger = building();
    trigger.step(TriggerInput::BuildSucceeded(String::from("/a")));
    trigger.step(TriggerInput::QueueFull);
    trigger.step(TriggerInput::CapacityAvailable);
    assert_eq!(trigger.step(TriggerInput::QueueFull), vec![TriggerEffect::AwaitCapacity]);
    assert_eq!(trigger.phase(), &TriggerPhase::Blocked(String::from("/a")));
}

#[test]
fn no_build_starts_while_one_runs() {
    let mut trigger = building();
    assert_eq!(trigger.step(event(BuildEvent::Completed, "Completed")), vec![]);
    assert_eq!(trigger.step(TriggerInput::EventsClosed), vec![]);
    assert_eq!(trigger.phase(), &TriggerPhase::Building);
}

#[test]
fn closed_event_stream_shuts_the_trigger_down() {
    let mut trigger = Trigger::new();
    assert_eq!(
        trigger.step(TriggerInput::EventsClosed),
        vec![
            TriggerEffect::Log(plain(Level::Error, "the build event stream has closed")),
            TriggerEffect::Shutdown,
        ]
    );
    assert_eq!(trigger.phase(), &TriggerPhase::Closed);
    assert_eq!(trigger.step(event(BuildEvent::Completed, "Completed")), vec![]);
    assert_eq!(trigger.phase(), &TriggerPhase::Closed);
}

#[test]
fn closed_queue_shuts_the_trigger_down() {
    let closed = vec![
        TriggerEffect::Log(plain(Level::Error, "the manifest queue has closed")),
        TriggerEffect::Shutdown,
    ];
    let mut trigger = building();
    trigger.step(TriggerInput::BuildSucceeded(String::from("/a")));
    assert_eq!(trigger.step(TriggerInput::QueueClosed), closed);
    assert_eq!(trigger.phase(), &TriggerPhase::Closed);

    let mut trigger = building();
    trigger.step(TriggerInput::BuildSucceeded(String::from("/a")));
    trigger.step(TriggerInput::QueueFull);
    assert_eq!(trigger.step(TriggerInput::QueueClosed), closed);
    assert_eq!(trigger.phase(), &TriggerPhase::Closed);
}
