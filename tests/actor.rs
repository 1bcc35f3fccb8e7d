use indicators::actor::{
    ActorAction, ActorEvent, ActorState, ActorStep, PollingActor, MAX_CONNECT_ATTEMPTS,
    POLL_TICK_SECS, RETRY_DELAY_SECS,
};

fn started() -> PollingActor {
    let mut actor = PollingActor::new();
    let step = actor.on_event(ActorEvent::Start);
    assert_eq!(step.action, ActorAction::Acquire { delay_secs: 0 });
    actor
}

fn reading(id: &str) -> PollingActor {
    let mut actor = started();
    assert_eq!(actor.on_event(ActorEvent::Acquired(true)).action, ActorAction::Resolve);
    let step = actor.on_event(ActorEvent::Resolved(Some(id.to_string())));
    assert_eq!(
        step,
        ActorStep {
            publish: None,
            action: ActorAction::Read { sensor_id: id.to_string(), delay_secs: 0 },
        }
    );
    actor
}

#[test]
fn constants_match_policy() {
    assert_eq!(MAX_CONNECT_ATTEMPTS, 4);
    assert_eq!(RETRY_DELAY_SECS, 5);
    assert_eq!(POLL_TICK_SECS, 1);
}

#[test]
fn new_actor_awaits_start() {
    let actor = PollingActor::new();
    assert_eq!(*actor.state(), ActorState::Idle);
    assert!(actor.accepts(&ActorEvent::Start));
    assert!(!actor.accepts(&ActorEvent::Acquired(true)));
    assert!(!actor.is_terminated());
}

#[test]
fn four_failed_acquisitions_terminate_without_fifth_attempt() {
    let mut actor = started();
    let mut attempts = 1;
    for _ in 0..3 {
        let step = actor.on_event(ActorEvent::Acquired(false));
        assert_eq!(step.action, ActorAction::Acquire { delay_secs: 5 });
        attempts += 1;
    }
    let step = actor.on_event(ActorEvent::Acquired(false));
    assert_eq!(step.action, ActorAction::Stop);
    assert_eq!(attempts, 4);
    assert!(actor.is_terminated());
    assert!(!actor.accepts(&ActorEvent::Acquired(true)));
}

#[test]
fn three_failures_then_success_proceeds_to_polling() {
    let mut actor = started();
    for _ in 0..3 {
        assert_eq!(
            actor.on_event(ActorEvent::Acquired(false)).action,
            ActorAction::Acquire { delay_secs: 5 }
        );
    }
    assert_eq!(actor.on_event(ActorEvent::Acquired(true)).action, ActorAction::Resolve);
    let step = actor.on_event(ActorEvent::Resolved(Some("/intelcpu/0/temperature/0".to_string())));
    assert_eq!(
        step.action,
        ActorAction::Read { sensor_id: "/intelcpu/0/temperature/0".to_string(), delay_secs: 0 }
    );
    assert_eq!(
        *actor.state(),
        ActorState::Reading { sensor_id: "/intelcpu/0/temperature/0".to_string() }
    );
}

#[test]
fn failed_resolution_terminates() {
    let mut actor = started();
    actor.on_event(ActorEvent::Acquired(true));
    let step = actor.on_event(ActorEvent::Resolved(None));
    assert_eq!(step, ActorStep { publish: None, action: ActorAction::Stop });
    assert!(actor.is_terminated());
}

#[test]
fn reading_is_published_and_read_again_after_a_tick() {
    let mut actor = reading("s1");
    let value = 42.0f32.to_bits();
    let step = actor.on_event(ActorEvent::ValueRead(value));
    assert_eq!(
        step,
        ActorStep {
            publish: Some(value),
            action: ActorAction::Read { sensor_id: "s1".to_string(), delay_secs: 1 },
        }
    );
}

#[test]
fn vanished_sensor_reresolved_keeps_connection() {
    let mut actor = reading("old");
    let step = actor.on_event(ActorEvent::ValueAbsent);
    assert_eq!(step, ActorStep { publish: None, action: ActorAction::Resolve });
    let step = actor.on_event(ActorEvent::Resolved(Some("new".to_string())));
    assert_eq!(
        step,
        ActorStep {
            publish: None,
            action: ActorAction::Read { sensor_id: "new".to_string(), delay_secs: 0 },
        }
    );
    assert_eq!(*actor.state(), ActorState::Reading { sensor_id: "new".to_string() });
}

#[test]
fn vanished_sensor_unresolvable_terminates() {
    let mut actor = reading("old");
    actor.on_event(ActorEvent::ValueRead(55.0f32.to_bits()));
    actor.on_event(ActorEvent::ValueAbsent);
    let step = actor.on_event(ActorEvent::Resolved(None));
    assert_eq!(step, ActorStep { publish: None, action: ActorAction::Stop });
    assert!(actor.is_terminated());
}

#[test]
fn transport_fault_reconnects_with_fresh_budget() {
    let mut actor = started();
    actor.on_event(ActorEvent::Acquired(false));
    actor.on_event(ActorEvent::Acquired(false));
    actor.on_event(ActorEvent::Acquired(true));
    actor.on_event(ActorEvent::Resolved(Some("s".to_string())));
    let step = actor.on_event(ActorEvent::ReadFailed);
    assert_eq!(step.action, ActorAction::Acquire { delay_secs: 0 });
    assert_eq!(*actor.state(), ActorState::Connecting { failures: 0 });
    for _ in 0..3 {
        assert_eq!(
            actor.on_event(ActorEvent::Acquired(false)).action,
            ActorAction::Acquire { delay_secs: 5 }
        );
    }
    assert_eq!(actor.on_event(ActorEvent::Acquired(false)).action, ActorAction::Stop);
}

#[test]
fn cell_holds_sentinel_then_latest_reading() {
    let mut actor = PollingActor::new();
    let mut cell = 0.0f32.to_bits();
    let events = vec![
        ActorEvent::Start,
        ActorEvent::Acquired(false),
        ActorEvent::Acquired(true),
        ActorEvent::Resolved(Some("s".to_string())),
        ActorEvent::ReadFailed,
        ActorEvent::Acquired(true),
        ActorEvent::Resolved(Some("s".to_string())),
        ActorEvent::ValueRead(40.5f32.to_bits()),
        ActorEvent::ValueRead(41.0f32.to_bits()),
        ActorEvent::ReadFailed,
        ActorEvent::Acquired(true),
        ActorEvent::Resolved(Some("s".to_string())),
        ActorEvent::ValueAbsent,
        ActorEvent::Resolved(None),
    ];
    let expected = [0.0f32, 0.0, 0.0, 0.0, 0.0, 0.0, 0.0, 40.5, 41.0, 41.0, 41.0, 41.0, 41.0, 41.0];
    for (event, want) in events.into_iter().zip(expected) {
        assert!(actor.accepts(&event));
        if let Some(v) = actor.on_event(event).publish {
            cell = v;
        }
        assert_eq!(f32::from_bits(cell), want);
    }
    assert!(actor.is_terminated());
}
