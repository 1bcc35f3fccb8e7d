use indicators::actor::{ActorAction, ActorEvent, PollingActor};
use indicators::bridge::{DisplayResponse, IndicatorsPlugin, MetricSlot, ValueQuery};
use indicators::message::{DisplayMessageIn, DisplayMessageOut, NonceField};
use indicators::metric::{MetricKind, SENTINEL};

#[test]
fn sentinel_is_zero_bits() {
    assert_eq!(SENTINEL, 0.0f32.to_bits());
}

#[test]
fn sentinel_before_any_poll() {
    let mut plugin = IndicatorsPlugin::new();
    for kind in [MetricKind::CpuTemp, MetricKind::GpuTemp] {
        for _ in 0..3 {
            let q = plugin.get_value(kind);
            assert_eq!(f32::from_bits(q.value), 0.0);
        }
    }
}

#[test]
fn lazy_start_spawns_once() {
    let mut plugin = IndicatorsPlugin::new();
    assert!(!plugin.is_started(MetricKind::CpuTemp));
    assert_eq!(plugin.get_value(MetricKind::CpuTemp), ValueQuery { value: 0, spawn: true });
    assert_eq!(plugin.get_value(MetricKind::CpuTemp), ValueQuery { value: 0, spawn: false });
    assert!(plugin.is_started(MetricKind::CpuTemp));
    assert!(!plugin.is_started(MetricKind::GpuTemp));
    assert_eq!(plugin.get_value(MetricKind::GpuTemp), ValueQuery { value: 0, spawn: true });
}

#[test]
fn published_value_read_back_by_two_queries() {
    let mut plugin = IndicatorsPlugin::new();
    plugin.get_value(MetricKind::GpuTemp);
    let value = 73.5f32.to_bits();
    plugin.publish(MetricKind::GpuTemp, value);
    let a = plugin.handle_message(DisplayMessageIn::GetGpuTemp { nonce: Some(11) });
    let b = plugin.handle_message(DisplayMessageIn::GetGpuTemp { nonce: Some(12) });
    assert_eq!(a.reply, DisplayMessageOut::GpuTemp { value, nonce: Some(11) });
    assert_eq!(b.reply, DisplayMessageOut::GpuTemp { value, nonce: Some(12) });
    assert_eq!(f32::from_bits(a.reply.value()), 73.5);
    assert_eq!(f32::from_bits(b.reply.value()), 73.5);
    assert_eq!(plugin.latest(MetricKind::CpuTemp), SENTINEL);
}

#[test]
fn value_is_sticky_after_termination() {
    let mut plugin = IndicatorsPlugin::new();
    let mut actor = PollingActor::new();
    plugin.get_value(MetricKind::CpuTemp);
    actor.on_event(ActorEvent::Start);
    actor.on_event(ActorEvent::Acquired(true));
    actor.on_event(ActorEvent::Resolved(Some("cpu".to_string())));
    let step = actor.on_event(ActorEvent::ValueRead(61.25f32.to_bits()));
    plugin.publish(MetricKind::CpuTemp, step.publish.unwrap());
    assert!(actor.on_event(ActorEvent::ValueAbsent).publish.is_none());
    assert_eq!(actor.on_event(ActorEvent::Resolved(None)).action, ActorAction::Stop);
    for _ in 0..3 {
        assert_eq!(f32::from_bits(plugin.get_value(MetricKind::CpuTemp).value), 61.25);
    }
}

#[test]
fn end_to_end_cpu_query() {
    let mut plugin = IndicatorsPlugin::new();
    let first = plugin
        .on_display_message(Some("GET_CPU_TEMP".to_string()), NonceField::Number(7))
        .unwrap();
    assert_eq!(
        first,
        DisplayResponse {
            reply: DisplayMessageOut::CpuTemp { value: 0.0f32.to_bits(), nonce: Some(7) },
            spawn: true,
        }
    );
    assert_eq!(first.reply.tag(), "CPU_TEMP");

    let mut actor = PollingActor::new();
    assert_eq!(actor.on_event(ActorEvent::Start).action, ActorAction::Acquire { delay_secs: 0 });
    assert_eq!(actor.on_event(ActorEvent::Acquired(true)).action, ActorAction::Resolve);
    actor.on_event(ActorEvent::Resolved(Some("/amdcpu/0/temperature/2".to_string())));
    let step = actor.on_event(ActorEvent::ValueRead(42.0f32.to_bits()));
    plugin.publish(MetricKind::CpuTemp, step.publish.unwrap());

    let second = plugin
        .on_display_message(Some("GET_CPU_TEMP".to_string()), NonceField::Number(8))
        .unwrap();
    assert_eq!(second.reply, DisplayMessageOut::CpuTemp { value: 42.0f32.to_bits(), nonce: Some(8) });
    assert!(!second.spawn);
    assert_eq!(f32::from_bits(second.reply.value()), 42.0);
    assert_eq!(second.reply.nonce(), Some(8));
}

#[test]
fn malformed_message_is_dropped() {
    let mut plugin = IndicatorsPlugin::new();
    assert!(plugin.on_display_message(Some("GET_FAN_SPEED".to_string()), NonceField::Number(1)).is_none());
    assert!(plugin.on_display_message(None, NonceField::Absent).is_none());
    assert!(plugin.on_display_message(Some("GET_CPU_TEMP".to_string()), NonceField::Invalid).is_none());
    assert!(!plugin.is_started(MetricKind::CpuTemp));
}

#[test]
fn slot_accessor() {
    let mut plugin = IndicatorsPlugin::new();
    assert_eq!(plugin.slot_of(MetricKind::GpuTemp), MetricSlot { started: false, latest: 0 });
    plugin.publish(MetricKind::GpuTemp, 5);
    assert_eq!(plugin.slot_of(MetricKind::GpuTemp), MetricSlot { started: false, latest: 5 });
}
