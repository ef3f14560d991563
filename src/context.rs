use vstd::prelude::*;

verus! {

/// A point in time, in whole seconds since the Unix epoch.
pub type Timestamp = i64;

/// How long a new classification must hold before it counts as a transition:
/// ten minutes, in seconds.
pub const DURATION_THRESHOLD_SECS: i64 = 600;

/// The discretized reading of the sensor.
#[derive(PartialEq, Eq, Structural, Clone, Copy, Debug)]
pub enum SensorStatusKind {
    NoData,
    Awake,
    Sleeping,
}

/// Where the current transition stands.
#[derive(PartialEq, Eq, Structural, Clone, Copy, Debug)]
pub enum DetectorState {
    /// No transition waits to be reported.
    Idle,
    /// The current classification has held long enough and is not consumed yet.
    Pending,
    /// The current transition has been handed out already.
    Reported,
}

#[derive(PartialEq, Eq, Structural, Clone, Copy, Debug)]
pub enum EventKind {
    WakeUp,
    StartSleeping,
}

/// A sustained transition: its kind and the time at which it began.
#[derive(PartialEq, Eq, Structural, Clone, Copy, Debug)]
pub struct Event {
    pub kind: EventKind,
    pub datetime: Timestamp,
}

/// The detector's memory.
pub struct Context {
    sensor_status_kind: SensorStatusKind,
    last_status_change_datetime: Option<Timestamp>,
    last_update_datetime: Option<Timestamp>,
    state: DetectorState,
}

/// The abstract content of a `Context`.
pub ghost struct ContextView {
    pub status: SensorStatusKind,
    pub changed_at: Option<Timestamp>,
    pub last_sampled_at: Option<Timestamp>,
    pub state: DetectorState,
}

impl View for Context {
    type V = ContextView;

    closed spec fn view(&self) -> ContextView {
        ContextView {
            status: self.sensor_status_kind,
            changed_at: self.last_status_change_datetime,
            last_sampled_at: self.last_update_datetime,
            state: self.state,
        }
    }
}

/// The event kind that a meaningful classification maps to.
pub open spec fn event_kind_of(k: SensorStatusKind) -> EventKind {
    if k == SensorStatusKind::Awake {
        EventKind::WakeUp
    } else {
        EventKind::StartSleeping
    }
}

/// The detector as it is before any sample.
pub open spec fn initial_view() -> ContextView {
    ContextView {
        status: SensorStatusKind::NoData,
        changed_at: None,
        last_sampled_at: None,
        state: DetectorState::Idle,
    }
}

/// The invariants that every reachable detector state satisfies.
pub open spec fn well_formed(c: ContextView) -> bool {
    &&& (c.changed_at is None ==> c.status == SensorStatusKind::NoData && c.state
        == DetectorState::Idle)
    &&& (c.changed_at is Some ==> c.last_sampled_at is Some && c.changed_at->0
        <= c.last_sampled_at->0)
    &&& (c.state != DetectorState::Idle ==> c.changed_at is Some && c.status
        != SensorStatusKind::NoData)
}

/// A sample at time `t` may follow the samples already seen.
pub open spec fn accepts_time(c: ContextView, t: Timestamp) -> bool {
    c.last_sampled_at matches Some(last) ==> last <= t
}

/// A streak from `start` to `end` is long enough to count as a transition.
pub open spec fn dwell_reached(start: Timestamp, end: Timestamp) -> bool {
    end - start >= DURATION_THRESHOLD_SECS
}

/// The detector after recording a sample, before the dwell decision.
pub open spec fn record_sample(c: ContextView, t: Timestamp, k: SensorStatusKind) -> ContextView {
    if k != c.status {
        ContextView {
            status: k,
            changed_at: Some(t),
            last_sampled_at: Some(t),
            state: DetectorState::Idle,
        }
    } else {
        ContextView { last_sampled_at: Some(t), ..c }
    }
}

/// The detector after `update_status(t, k)`.
pub open spec fn update_spec(c: ContextView, t: Timestamp, k: SensorStatusKind) -> ContextView {
    let r = record_sample(c, t, k);
    if r.state != DetectorState::Reported && r.changed_at is Some && dwell_reached(
        r.changed_at->0,
        t,
    ) && k != SensorStatusKind::NoData {
        ContextView { state: DetectorState::Pending, ..r }
    } else {
        r
    }
}

/// What `read_change` returns on a detector in state `c`.
pub open spec fn read_result(c: ContextView) -> Option<Event> {
    if c.state == DetectorState::Pending {
        Some(Event { kind: event_kind_of(c.status), datetime: c.changed_at->0 })
    } else {
        None
    }
}

/// The detector after `read_change`.
pub open spec fn read_spec(c: ContextView) -> ContextView {
    if c.state == DetectorState::Pending {
        ContextView { state: DetectorState::Reported, ..c }
    } else {
        c
    }
}

/// A sample: its time and the classification read at that time.
pub type Sample = (Timestamp, SensorStatusKind);

/// The detector after one polling round: `update_status`, then `read_change`.
pub open spec fn poll_state(c: ContextView, s: Sample) -> ContextView {
    read_spec(update_spec(c, s.0, s.1))
}

/// The event that one polling round hands out.
pub open spec fn poll_event(c: ContextView, s: Sample) -> Option<Event> {
    read_result(update_spec(c, s.0, s.1))
}

/// The detector after one polling round per sample of `s`, in order.
pub open spec fn poll_run(c: ContextView, s: Seq<Sample>) -> ContextView
    decreases s.len(),
{
    if s.len() == 0 {
        c
    } else {
        poll_state(poll_run(c, s.drop_last()), s.last())
    }
}

/// The event handed out in the round of sample `i`, when the samples of `s`
/// are polled in order from `c`.
pub open spec fn poll_event_at(c: ContextView, s: Seq<Sample>, i: int) -> Option<Event> {
    poll_event(poll_run(c, s.take(i)), s[i])
}

/// The timestamps of `s` never decrease.
pub open spec fn times_sorted(s: Seq<Sample>) -> bool {
    forall|i: int, j: int| 0 <= i <= j < s.len() ==> s[i].0 <= s[j].0
}

impl Context {
    pub fn default() -> (r: Self)
        ensures
            r@ == initial_view(),
            well_formed(r@),
    {
        Context {
            sensor_status_kind: SensorStatusKind::NoData,
            last_status_change_datetime: None,
            last_update_datetime: None,
            state: DetectorState::Idle,
        }
    }

    /// Timestamp of the most recent sample, if any.
    pub fn last_sampled_at(&self) -> (r: Option<Timestamp>)
        ensures
            r == self@.last_sampled_at,
    {
        self.last_update_datetime
    }

    /// Records a sample and marks the transition as pending once the current
    /// classification has held for the dwell threshold.
    pub fn update_status(&mut self, datetime: Timestamp, status_kind: SensorStatusKind)
        requires
            well_formed(old(self)@),
            accepts_time(old(self)@, datetime),
        ensures
            final(self)@ == update_spec(old(self)@, datetime, status_kind),
            well_formed(final(self)@),
    {
        if status_kind != self.sensor_status_kind {
            self.sensor_status_kind = status_kind;
            self.last_status_change_datetime = Some(datetime);
            self.last_update_datetime = Some(datetime);
            self.state = DetectorState::Idle;
        } else {
            self.last_update_datetime = Some(datetime);
        }

        if self.state != DetectorState::Reported {
            if let Some(d) = self.get_duration() {
                if d >= DURATION_THRESHOLD_SECS as i128 && status_kind != SensorStatusKind::NoData {
                    self.commit_new_event();
                }
            }
        }
    }

    /// Hands out the pending event, once.
    pub fn read_change(&mut self) -> (r: Option<Event>)
        requires
            well_formed(old(self)@),
        ensures
            r == read_result(old(self)@),
            final(self)@ == read_spec(old(self)@),
            well_formed(final(self)@),
    {
        if self.state == DetectorState::Pending {
            self.state = DetectorState::Reported;
            let kind = if self.sensor_status_kind == SensorStatusKind::Awake {
                EventKind::WakeUp
            } else {
                EventKind::StartSleeping
            };
            Some(Event { kind, datetime: self.last_status_change_datetime.unwrap() })
        } else {
            None
        }
    }

    /// The streak: time from the last classification change to the last sample.
    fn get_duration(&self) -> (r: Option<i128>)
        ensures
            r == (match (self@.changed_at, self@.last_sampled_at) {
                (Some(start), Some(end)) => Some((end - start) as i128),
                _ => None,
            }),
    {
        let start = match self.last_status_change_datetime {
            Some(s) => s,
            None => return None,
        };
        let end = match self.last_update_datetime {
            Some(e) => e,
            None => return None,
        };
        Some(end as i128 - start as i128)
    }

    /// Marks the current transition as ready to be read.
    fn commit_new_event(&mut self)
        ensures
            final(self)@ == (ContextView { state: DetectorState::Pending, ..old(self)@ }),
    {
        self.state = DetectorState::Pending;
    }
}

/// Feeds one sample to the detector and reads the event it may have made
/// pending.
pub fn update_and_check_status(
    ctx: &mut Context,
    datetime: Timestamp,
    status_kind: SensorStatusKind,
) -> (r: Option<Event>)
    requires
        well_formed(old(ctx)@),
        accepts_time(old(ctx)@, datetime),
    ensures
        r == read_result(update_spec(old(ctx)@, datetime, status_kind)),
        final(ctx)@ == read_spec(update_spec(old(ctx)@, datetime, status_kind)),
        well_formed(final(ctx)@),
{
    ctx.update_status(datetime, status_kind);
    ctx.read_change()
}

} // verus!
