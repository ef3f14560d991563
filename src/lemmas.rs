use vstd::prelude::*;

use crate::context::{
    accepts_time, event_kind_of, poll_event_at, poll_run, poll_state, read_result, read_spec,
    times_sorted, update_spec, well_formed, ContextView, DetectorState, Sample, SensorStatusKind,
    Timestamp, DURATION_THRESHOLD_SECS,
};

verus! {

/// Polling the first `i + 1` samples is polling the first `i`, then sample `i`.
pub proof fn lemma_poll_run_take(c: ContextView, s: Seq<Sample>, i: int)
    requires
        0 <= i < s.len(),
    ensures
        poll_run(c, s.take(i + 1)) == poll_state(poll_run(c, s.take(i)), s[i]),
{
    assert(s.take(i + 1).drop_last() =~= s.take(i));
    assert(s.take(i + 1).last() == s[i]);
}

/// After a reported transition, rounds whose samples keep the classification
/// leave the detector reported with that classification.
proof fn lemma_reported_stays(c: ContextView, s: Seq<Sample>, n: int)
    requires
        c.state == DetectorState::Reported,
        forall|i: int| 0 <= i < s.len() ==> #[trigger] s[i].1 == c.status,
        0 <= n <= s.len(),
    ensures
        poll_run(c, s.take(n)).state == DetectorState::Reported,
        poll_run(c, s.take(n)).status == c.status,
    decreases n,
{
    if n > 0 {
        lemma_reported_stays(c, s, n - 1);
        lemma_poll_run_take(c, s, n - 1);
        assert(s[n - 1].1 == c.status);
    } else {
        assert(s.take(0) =~= Seq::<Sample>::empty());
    }
}

/// A pending transition is handed out by exactly one read: the read after it
/// gives nothing, and so does every later polling round until the
/// classification changes.
pub proof fn lemma_event_consumed_once(c: ContextView, s: Seq<Sample>)
    requires
        well_formed(c),
        c.state == DetectorState::Pending,
        forall|i: int| 0 <= i < s.len() ==> #[trigger] s[i].1 == c.status,
    ensures
        read_result(c) is Some,
        read_result(read_spec(c)) is None,
        forall|i: int| 0 <= i < s.len() ==> (#[trigger] poll_event_at(read_spec(c), s, i)) is None,
{
    let r = read_spec(c);
    assert forall|i: int| 0 <= i < s.len() implies (#[trigger] poll_event_at(r, s, i)) is None by {
        lemma_reported_stays(r, s, i);
        assert(s[i].1 == r.status);
    }
}

/// Within an excursion to a new classification that is left again before
/// the dwell threshold has elapsed, the detector stays idle on that
/// classification, timed from the excursion's first sample.
proof fn lemma_excursion_idle(c: ContextView, s: Seq<Sample>, n: int, m: int)
    requires
        times_sorted(s),
        0 < n < s.len(),
        s[0].1 != c.status,
        forall|i: int| 0 <= i < n ==> #[trigger] s[i].1 == s[0].1,
        s[n - 1].0 - s[0].0 < DURATION_THRESHOLD_SECS,
        1 <= m <= n,
    ensures
        poll_run(c, s.take(m)).state == DetectorState::Idle,
        poll_run(c, s.take(m)).status == s[0].1,
        poll_run(c, s.take(m)).changed_at == Some(s[0].0),
    decreases m,
{
    lemma_poll_run_take(c, s, m - 1);
    assert(s[m - 1].1 == s[0].1);
    assert(s[m - 1].0 <= s[n - 1].0);
    if m > 1 {
        lemma_excursion_idle(c, s, n, m - 1);
    } else {
        assert(s.take(0) =~= Seq::<Sample>::empty());
    }
}

/// A classification that flips and flips back before the dwell threshold has
/// elapsed produces no event, neither while it lasts nor at the flip back.
pub proof fn lemma_short_excursion_silent(c: ContextView, s: Seq<Sample>, n: int)
    requires
        times_sorted(s),
        0 < n < s.len(),
        s[0].1 != c.status,
        forall|i: int| 0 <= i < n ==> #[trigger] s[i].1 == s[0].1,
        s[n].1 != s[0].1,
        s[n - 1].0 - s[0].0 < DURATION_THRESHOLD_SECS,
    ensures
        forall|i: int| 0 <= i <= n ==> (#[trigger] poll_event_at(c, s, i)) is None,
{
    assert forall|i: int| 0 <= i <= n implies (#[trigger] poll_event_at(c, s, i)) is None by {
        if i == 0 {
            assert(s.take(0) =~= Seq::<Sample>::empty());
        } else {
            lemma_excursion_idle(c, s, n, i);
            if i < n {
                assert(s[i].1 == s[0].1);
                assert(s[i].0 <= s[n - 1].0);
            }
        }
    }
}

/// A sample of a classification that has held since time `since` takes an
/// idle detector to a pending transition exactly when the dwell threshold
/// has elapsed: a streak of the threshold qualifies, one a second shorter
/// does not.
pub proof fn lemma_dwell_boundary(c: ContextView, t: Timestamp, k: SensorStatusKind)
    requires
        well_formed(c),
        accepts_time(c, t),
        c.state == DetectorState::Idle,
        c.status == k,
        k != SensorStatusKind::NoData,
    ensures
        c.changed_at is Some,
        update_spec(c, t, k).state == DetectorState::Pending <==> t - c.changed_at->0
            >= DURATION_THRESHOLD_SECS,
        t - c.changed_at->0 == DURATION_THRESHOLD_SECS ==> update_spec(c, t, k).state
            == DetectorState::Pending,
        t - c.changed_at->0 == DURATION_THRESHOLD_SECS - 1 ==> update_spec(c, t, k).state
            == DetectorState::Idle,
{
}

/// Throughout a run of one classification, the detector holds that
/// classification, timed from the run's first sample.
proof fn lemma_run_keeps_change_time(c: ContextView, s: Seq<Sample>, n: int, m: int)
    requires
        0 <= n < s.len(),
        s[0].1 != c.status,
        forall|i: int| 0 <= i <= n ==> #[trigger] s[i].1 == s[0].1,
        1 <= m <= n,
    ensures
        poll_run(c, s.take(m)).status == s[0].1,
        poll_run(c, s.take(m)).changed_at == Some(s[0].0),
    decreases m,
{
    lemma_poll_run_take(c, s, m - 1);
    assert(s[m - 1].1 == s[0].1);
    if m > 1 {
        lemma_run_keeps_change_time(c, s, n, m - 1);
    } else {
        assert(s.take(0) =~= Seq::<Sample>::empty());
    }
}

/// An event handed out during a run of one classification carries the time
/// of the sample that started the run, not that of the sample that crossed
/// the dwell threshold, and the kind of that classification.
pub proof fn lemma_event_time_is_change_time(c: ContextView, s: Seq<Sample>, n: int)
    requires
        0 <= n < s.len(),
        s[0].1 != c.status,
        forall|i: int| 0 <= i <= n ==> #[trigger] s[i].1 == s[0].1,
        poll_event_at(c, s, n) is Some,
    ensures
        poll_event_at(c, s, n)->0.datetime == s[0].0,
        poll_event_at(c, s, n)->0.kind == event_kind_of(s[0].1),
{
    assert(s[n].1 == s[0].1);
    if n > 0 {
        lemma_run_keeps_change_time(c, s, n, n);
    } else {
        assert(s.take(0) =~= Seq::<Sample>::empty());
    }
}

/// The detector never holds a transition while its classification is
/// unknown.
pub open spec fn no_data_is_idle(c: ContextView) -> bool {
    c.status == SensorStatusKind::NoData ==> c.state == DetectorState::Idle
}

proof fn lemma_no_data_is_idle_run(c: ContextView, s: Seq<Sample>, n: int)
    requires
        no_data_is_idle(c),
        0 <= n <= s.len(),
    ensures
        no_data_is_idle(poll_run(c, s.take(n))),
    decreases n,
{
    if n > 0 {
        lemma_no_data_is_idle_run(c, s, n - 1);
        lemma_poll_run_take(c, s, n - 1);
    } else {
        assert(s.take(0) =~= Seq::<Sample>::empty());
    }
}

/// No polling round whose sample has an unknown classification hands out an
/// event.
pub proof fn lemma_no_data_never_emits(c: ContextView, s: Seq<Sample>, i: int)
    requires
        well_formed(c),
        0 <= i < s.len(),
        s[i].1 == SensorStatusKind::NoData,
    ensures
        poll_event_at(c, s, i) is None,
{
    lemma_no_data_is_idle_run(c, s, i);
}

} // verus!
