use kokekokko::{
    update_and_check_status, Context, Event, EventKind, SensorStatusKind, DURATION_THRESHOLD_SECS,
};

const MIN: i64 = 60;

fn poll(ctx: &mut Context, t: i64, k: SensorStatusKind) -> Option<Event> {
    update_and_check_status(ctx, t, k)
}

#[test]
fn scenario_sustained_change_reported_once() {
    let mut ctx = Context::default();
    assert_eq!(poll(&mut ctx, 0, SensorStatusKind::Sleeping), None);
    assert_eq!(poll(&mut ctx, 5 * MIN, SensorStatusKind::Awake), None);
    assert_eq!(poll(&mut ctx, 12 * MIN, SensorStatusKind::Awake), None);
    assert_eq!(
        poll(&mut ctx, 15 * MIN, SensorStatusKind::Awake),
        Some(Event { kind: EventKind::WakeUp, datetime: 5 * MIN })
    );
    assert_eq!(poll(&mut ctx, 18 * MIN, SensorStatusKind::Awake), None);
}

#[test]
fn scenario_alternating_every_three_minutes_never_fires() {
    let mut ctx = Context::default();
    let mut t: i64 = 0;
    let mut awake = true;
    while t <= 30 * MIN {
        let k = if awake { SensorStatusKind::Awake } else { SensorStatusKind::Sleeping };
        assert_eq!(poll(&mut ctx, t, k), None);
        awake = !awake;
        t += 3 * MIN;
    }
}

#[test]
fn read_change_hands_out_event_only_once() {
    let mut ctx = Context::default();
    ctx.update_status(0, SensorStatusKind::Sleeping);
    ctx.update_status(DURATION_THRESHOLD_SECS, SensorStatusKind::Sleeping);
    assert_eq!(
        ctx.read_change(),
        Some(Event { kind: EventKind::StartSleeping, datetime: 0 })
    );
    assert_eq!(ctx.read_change(), None);
    ctx.update_status(DURATION_THRESHOLD_SECS + 90, SensorStatusKind::Sleeping);
    assert_eq!(ctx.read_change(), None);
    ctx.update_status(100 * MIN, SensorStatusKind::Sleeping);
    assert_eq!(ctx.read_change(), None);
}

#[test]
fn short_excursion_produces_nothing() {
    let mut ctx = Context::default();
    assert_eq!(poll(&mut ctx, 0, SensorStatusKind::Sleeping), None);
    assert_eq!(
        poll(&mut ctx, 11 * MIN, SensorStatusKind::Sleeping),
        Some(Event { kind: EventKind::StartSleeping, datetime: 0 })
    );
    assert_eq!(poll(&mut ctx, 12 * MIN, SensorStatusKind::Awake), None);
    assert_eq!(poll(&mut ctx, 21 * MIN, SensorStatusKind::Awake), None);
    assert_eq!(poll(&mut ctx, 22 * MIN, SensorStatusKind::Sleeping), None);
    assert_eq!(poll(&mut ctx, 31 * MIN, SensorStatusKind::Sleeping), None);
}

#[test]
fn dwell_of_exactly_threshold_qualifies() {
    let mut ctx = Context::default();
    ctx.update_status(1000, SensorStatusKind::Awake);
    ctx.update_status(1000 + DURATION_THRESHOLD_SECS, SensorStatusKind::Awake);
    assert_eq!(
        ctx.read_change(),
        Some(Event { kind: EventKind::WakeUp, datetime: 1000 })
    );
}

#[test]
fn dwell_one_second_short_does_not_qualify() {
    let mut ctx = Context::default();
    ctx.update_status(1000, SensorStatusKind::Awake);
    ctx.update_status(1000 + DURATION_THRESHOLD_SECS - 1, SensorStatusKind::Awake);
    assert_eq!(ctx.read_change(), None);
    ctx.update_status(1000 + DURATION_THRESHOLD_SECS, SensorStatusKind::Awake);
    assert_eq!(
        ctx.read_change(),
        Some(Event { kind: EventKind::WakeUp, datetime: 1000 })
    );
}

#[test]
fn event_carries_time_of_change_not_of_detection() {
    let mut ctx = Context::default();
    assert_eq!(poll(&mut ctx, 100, SensorStatusKind::Sleeping), None);
    assert_eq!(poll(&mut ctx, 190, SensorStatusKind::Sleeping), None);
    assert_eq!(poll(&mut ctx, 500, SensorStatusKind::Sleeping), None);
    let e = poll(&mut ctx, 1234, SensorStatusKind::Sleeping);
    assert_eq!(e, Some(Event { kind: EventKind::StartSleeping, datetime: 100 }));
}

#[test]
fn no_data_never_emits() {
    let mut ctx = Context::default();
    for i in 0..20 {
        assert_eq!(poll(&mut ctx, i * 10 * MIN, SensorStatusKind::NoData), None);
    }
    assert_eq!(poll(&mut ctx, 200 * MIN, SensorStatusKind::Awake), None);
    assert_eq!(poll(&mut ctx, 205 * MIN, SensorStatusKind::NoData), None);
    assert_eq!(poll(&mut ctx, 300 * MIN, SensorStatusKind::NoData), None);
}

#[test]
fn pending_event_discarded_by_new_change() {
    let mut ctx = Context::default();
    ctx.update_status(0, SensorStatusKind::Awake);
    ctx.update_status(20 * MIN, SensorStatusKind::Awake);
    ctx.update_status(21 * MIN, SensorStatusKind::Sleeping);
    assert_eq!(ctx.read_change(), None);
}

#[test]
fn change_back_fires_again_after_its_own_dwell() {
    let mut ctx = Context::default();
    assert_eq!(poll(&mut ctx, 0, SensorStatusKind::Awake), None);
    assert_eq!(
        poll(&mut ctx, 10 * MIN, SensorStatusKind::Awake),
        Some(Event { kind: EventKind::WakeUp, datetime: 0 })
    );
    assert_eq!(poll(&mut ctx, 20 * MIN, SensorStatusKind::Sleeping), None);
    assert_eq!(
        poll(&mut ctx, 30 * MIN, SensorStatusKind::Sleeping),
        Some(Event { kind: EventKind::StartSleeping, datetime: 20 * MIN })
    );
    assert_eq!(poll(&mut ctx, 40 * MIN, SensorStatusKind::Awake), None);
    assert_eq!(
        poll(&mut ctx, 50 * MIN, SensorStatusKind::Awake),
        Some(Event { kind: EventKind::WakeUp, datetime: 40 * MIN })
    );
}

#[test]
fn fresh_context_reports_nothing() {
    let mut ctx = Context::default();
    assert_eq!(ctx.last_sampled_at(), None);
    assert_eq!(ctx.read_change(), None);
}

#[test]
fn last_sampled_at_follows_every_sample() {
    let mut ctx = Context::default();
    ctx.update_status(42, SensorStatusKind::Awake);
    assert_eq!(ctx.last_sampled_at(), Some(42));
    ctx.update_status(99, SensorStatusKind::Awake);
    assert_eq!(ctx.last_sampled_at(), Some(99));
}

#[test]
fn extreme_timestamps_do_not_overflow() {
    let mut ctx = Context::default();
    ctx.update_status(i64::MIN, SensorStatusKind::Sleeping);
    ctx.update_status(i64::MAX, SensorStatusKind::Sleeping);
    assert_eq!(
        ctx.read_change(),
        Some(Event { kind: EventKind::StartSleeping, datetime: i64::MIN })
    );
}
