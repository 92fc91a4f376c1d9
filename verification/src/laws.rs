//! Properties of the lifecycle that hold across events.

use vstd::prelude::*;

use crate::durations::phase_named;
use crate::lifecycle::{
    initial_state, LifecycleConfig, RoomEvent, RoomState, TopicWeight, ONE_ACCURACY, ZERO_ACCURACY,
};
use crate::phase::PhaseKind;

verus! {

/// Every phase is found again by its name, and names no other phase.
pub proof fn lemma_name_round_trip(k: PhaseKind)
    ensures
        phase_named(k.spec_name()) == Some(k),
{
    reveal_strlit("Gestating");
    reveal_strlit("Forming");
    reveal_strlit("Maturing");
    reveal_strlit("Stable");
    reveal_strlit("Dissolving");
    reveal_strlit("Dissolved");
    assert("Gestating"@.len() == 9 && "Forming"@.len() == 7 && "Maturing"@.len() == 8);
    assert("Stable"@.len() == 6 && "Dissolving"@.len() == 10 && "Dissolved"@.len() == 9);
    assert("Gestating"@[0] != "Dissolved"@[0]);
}

/// A fresh room is well formed.
pub proof fn lemma_initial_wf(config: LifecycleConfig)
    ensures
        initial_state(config).wf(),
{
}

/// Every event keeps a room well formed.
pub proof fn lemma_next_preserves_wf(s: RoomState, event: RoomEvent)
    requires
        s.wf(),
    ensures
        s.next(event).wf(),
{
    match event {
        RoomEvent::ReadingAdded(signal) => {
            if s.phase == PhaseKind::Maturing && !s.topics.contains(signal) {
                assert(s.topics.push(signal).no_duplicates()) by {
                    assert forall|i: int, j: int|
                        0 <= i < j < s.topics.len() + 1 implies s.topics.push(signal)[i]
                        != s.topics.push(signal)[j] by {
                        if j == s.topics.len() {
                            assert(s.topics.contains(s.topics[i]));
                        }
                    }
                }
            }
        },
        _ => {},
    }
}

/// A room never returns to an earlier phase: the rank of its phase never
/// decreases.
pub proof fn lemma_phase_never_regresses(s: RoomState, event: RoomEvent)
    ensures
        s.next(event).phase.rank() >= s.phase.rank(),
{
}

/// `Dissolved` is terminal: every event leaves a dissolved room dissolved,
/// and changes nothing but its tick count.
pub proof fn lemma_dissolved_is_terminal(s: RoomState, event: RoomEvent)
    requires
        s.phase == PhaseKind::Dissolved,
    ensures
        s.next(event).phase == PhaseKind::Dissolved,
        s.next(event) == (RoomState { ticks: s.ticks + 1, ..s }),
{
}

/// A forced dissolution moves every live room to `Dissolving`, and a
/// dissolving room to `Dissolved`.
pub proof fn lemma_force_dissolve(s: RoomState)
    ensures
        s.phase.rank() < PhaseKind::Dissolving.rank() ==> s.next(RoomEvent::ForceDissolve).phase
            == PhaseKind::Dissolving,
        s.phase.rank() >= PhaseKind::Dissolving.rank() ==> s.next(RoomEvent::ForceDissolve).phase
            == PhaseKind::Dissolved,
{
}

/// A timeout dissolves a room that never got a reading, ends the grace
/// period of a dissolving room, and moves a forming room that has readings,
/// as every well-formed forming room has, on to `Maturing`.
pub proof fn lemma_timeout(s: RoomState)
    ensures
        s.phase == PhaseKind::Gestating ==> s.next(RoomEvent::PhaseTimeout).phase
            == PhaseKind::Dissolved,
        s.phase == PhaseKind::Dissolving ==> s.next(RoomEvent::PhaseTimeout).phase
            == PhaseKind::Dissolved,
        s.phase == PhaseKind::Forming && s.readings_seen > 0 ==> s.next(
            RoomEvent::PhaseTimeout,
        ).phase == PhaseKind::Maturing,
        s.wf() && s.phase == PhaseKind::Forming ==> s.next(RoomEvent::PhaseTimeout).phase
            == PhaseKind::Maturing,
{
}

/// Every reading is counted, except by a dissolved room; no other event
/// changes the count.
pub proof fn lemma_readings_counted(s: RoomState, event: RoomEvent)
    ensures
        s.next(event).readings_seen == if event is ReadingAdded && s.phase
            != PhaseKind::Dissolved {
            s.readings_seen + 1
        } else {
            s.readings_seen
        },
{
}

/// The peak accuracy never decreases, and a prediction that a maturing or
/// stable room counts is never above the peak afterwards.
pub proof fn lemma_peak_accuracy(s: RoomState, event: RoomEvent)
    ensures
        s.next(event).peak_accuracy >= s.peak_accuracy,
        event matches RoomEvent::PredictionMade(p) ==> (s.phase == PhaseKind::Maturing || s.phase
            == PhaseKind::Stable) ==> s.next(event).peak_accuracy >= p.accuracy,
{
}

/// Once a phase has a recorded duration it keeps one; when the room changes
/// phase, the phase it left records the ticks spent in it (one per event
/// taken there, the event that left it included), and the count of ticks
/// starts again at 0.
pub proof fn lemma_durations_recorded(s: RoomState, event: RoomEvent)
    ensures
        forall|k: PhaseKind| s.durations.contains_key(k) ==> s.next(event).durations.contains_key(
            k,
        ),
        s.next(event).phase != s.phase ==> {
            &&& s.next(event).ticks == 0
            &&& s.next(event).durations.contains_key(s.phase)
            &&& s.next(event).durations[s.phase] == s.ticks + 1
        },
{
}

/// Topics are only discovered from readings taken while `Maturing`, each at
/// most once.
pub proof fn lemma_topics_discovered(s: RoomState, event: RoomEvent)
    ensures
        !(s.phase == PhaseKind::Maturing && event is ReadingAdded) ==> s.next(event).topics
            == s.topics,
        event matches RoomEvent::ReadingAdded(signal) ==> s.phase == PhaseKind::Maturing ==> s.next(
            event,
        ).topics.contains(signal),
{
    if let RoomEvent::ReadingAdded(signal) = event {
        let pushed = s.topics.push(signal);
        assert(pushed[s.topics.len() as int] == signal);
    }
}

/// A stable room leaves for `Dissolving` on a prediction exactly when that
/// prediction makes it one that should dissolve.
pub proof fn lemma_stable_dissolves(s: RoomState, event: RoomEvent)
    requires
        s.phase == PhaseKind::Stable,
        event is PredictionMade,
    ensures
        s.next(event).phase == PhaseKind::Dissolving <==> s.score(
            event->PredictionMade_0.accuracy,
        ).should_dissolve(),
{
}

/// Predictions are counted only while `Maturing` or `Stable`; each counted
/// prediction adds one to the predictions made, and one to the accurate
/// predictions exactly when it is accurate.
pub proof fn lemma_predictions_counted(s: RoomState, event: RoomEvent)
    ensures
        event is PredictionMade && (s.phase == PhaseKind::Maturing || s.phase
            == PhaseKind::Stable) ==> {
            &&& s.next(event).predictions_made == s.predictions_made + 1
            &&& s.next(event).accurate_predictions == if s.is_accurate(
                event->PredictionMade_0.accuracy,
            ) {
                s.accurate_predictions + 1
            } else {
                s.accurate_predictions
            }
        },
        !(event is PredictionMade && (s.phase == PhaseKind::Maturing || s.phase
            == PhaseKind::Stable)) ==> {
            &&& s.next(event).predictions_made == s.predictions_made
            &&& s.next(event).accurate_predictions == s.accurate_predictions
        },
{
}

/// A room that enters `Stable` starts its run of accurate predictions from
/// zero, so it should not dissolve on arrival unless no tick is required.
pub proof fn lemma_entering_stable_resets(s: RoomState, event: RoomEvent)
    requires
        s.phase != PhaseKind::Stable,
        s.next(event).phase == PhaseKind::Stable,
    ensures
        s.next(event).consecutive_accurate == 0,
        s.config.dissolve_after_stable_ticks >= 1 ==> !s.next(event).should_dissolve(),
{
}

/// A stable room that is told its accuracy dropped, or that makes an
/// inaccurate prediction, stays `Stable` with its run of accurate
/// predictions reset, and should not dissolve.
pub proof fn lemma_stable_reset(s: RoomState, event: RoomEvent)
    requires
        s.phase == PhaseKind::Stable,
        s.config.dissolve_after_stable_ticks >= 1,
        event is AccuracyBelowThreshold || (event matches RoomEvent::PredictionMade(p)
            && !s.is_accurate(p.accuracy)),
    ensures
        s.next(event).phase == PhaseKind::Stable,
        s.next(event).consecutive_accurate == 0,
        !s.next(event).should_dissolve(),
{
}

/// Whether every event of `events` is a prediction accurate under `config`.
pub open spec fn all_accurate_predictions(config: LifecycleConfig, events: Seq<RoomEvent>) -> bool {
    forall|i: int|
        0 <= i < events.len() ==> (#[trigger] events[i] matches RoomEvent::PredictionMade(p)
            && p.accuracy > config.accuracy_threshold)
}

/// The room after taking `events` in order.
pub open spec fn run(s: RoomState, events: Seq<RoomEvent>) -> RoomState
    decreases events.len(),
{
    if events.len() == 0 {
        s
    } else {
        run(s, events.drop_last()).next(events.last())
    }
}

/// Any run of events from a well-formed room keeps it well formed and never
/// moves it to an earlier phase; a dissolved room stays dissolved.
pub proof fn lemma_run(s: RoomState, events: Seq<RoomEvent>)
    requires
        s.wf(),
    ensures
        run(s, events).wf(),
        run(s, events).phase.rank() >= s.phase.rank(),
        s.phase == PhaseKind::Dissolved ==> run(s, events).phase == PhaseKind::Dissolved,
    decreases events.len(),
{
    if events.len() > 0 {
        lemma_run(s, events.drop_last());
        lemma_next_preserves_wf(run(s, events.drop_last()), events.last());
    }
}

/// Over any run of events the settings stay, the peak accuracy never drops,
/// each event adds at most one reading, the topics found so far stay first
/// in order, and recorded phases keep their entries.
pub proof fn lemma_run_counters(s: RoomState, events: Seq<RoomEvent>)
    ensures
        run(s, events).config == s.config,
        run(s, events).peak_accuracy >= s.peak_accuracy,
        s.readings_seen <= run(s, events).readings_seen <= s.readings_seen + events.len(),
        s.topics.is_prefix_of(run(s, events).topics),
        s.durations.dom().subset_of(run(s, events).durations.dom()),
    decreases events.len(),
{
    if events.len() > 0 {
        let before = run(s, events.drop_last());
        lemma_run_counters(s, events.drop_last());
        lemma_durations_recorded(before, events.last());
        assert(s.topics.is_prefix_of(before.topics));
        assert(before.topics.is_prefix_of(run(s, events).topics));
    }
}

/// A stable room whose run of accurate predictions stands at `c` and that
/// makes `n` more accurate predictions, with `c + n` at most the required
/// ticks `N`, stays `Stable` until the run reaches `N`, and moves to
/// `Dissolving` on the prediction that makes it `N`.
pub proof fn lemma_stable_accurate_run(s: RoomState, events: Seq<RoomEvent>)
    requires
        s.phase == PhaseKind::Stable,
        all_accurate_predictions(s.config, events),
        s.consecutive_accurate + events.len() <= s.config.dissolve_after_stable_ticks,
    ensures
        run(s, events).consecutive_accurate == s.consecutive_accurate + events.len(),
        run(s, events).phase == if events.len() > 0 && s.consecutive_accurate + events.len()
            >= s.config.dissolve_after_stable_ticks {
            PhaseKind::Dissolving
        } else {
            PhaseKind::Stable
        },
    decreases events.len(),
{
    if events.len() > 0 {
        let prefix = events.drop_last();
        assert(all_accurate_predictions(s.config, prefix)) by {
            assert forall|i: int| 0 <= i < prefix.len() implies (#[trigger] prefix[i] matches RoomEvent::PredictionMade(p)
                && p.accuracy > s.config.accuracy_threshold) by {
                assert(prefix[i] == events[i]);
            }
        }
        lemma_stable_accurate_run(s, prefix);
        lemma_run_counters(s, prefix);
        assert(events[events.len() - 1] == events.last());
    }
}

/// Three accurate predictions in a row take a maturing room at least to
/// `Stable`.
pub proof fn lemma_three_accurate_predictions(s: RoomState, p1: RoomEvent, p2: RoomEvent, p3: RoomEvent)
    requires
        s.phase == PhaseKind::Maturing,
        all_accurate_predictions(s.config, seq![p1, p2, p3]),
    ensures
        run(s, seq![p1, p2, p3]).phase.rank() >= PhaseKind::Stable.rank(),
{
    let events = seq![p1, p2, p3];
    let e1 = seq![p1];
    let e2 = seq![p1, p2];
    assert(events[0] == p1 && events[1] == p2 && events[2] == p3);
    let s1 = s.next(p1);
    let s2 = s1.next(p2);
    let s3 = s2.next(p3);
    assert(e1.drop_last() =~= Seq::<RoomEvent>::empty());
    assert(e1.last() == p1);
    assert(run(s, Seq::<RoomEvent>::empty()) == s);
    assert(run(s, e1) == s1);
    assert(e2.drop_last() =~= e1);
    assert(e2.last() == p2);
    assert(run(s, e2) == s2);
    assert(events.drop_last() =~= e2);
    assert(events.last() == p3);
    assert(run(s, events) == s3);
    lemma_phase_never_regresses(s1, p2);
    lemma_phase_never_regresses(s2, p3);
    if s1.phase == PhaseKind::Maturing {
        assert(s1.consecutive_accurate >= 1);
        if s2.phase == PhaseKind::Maturing {
            assert(s2.consecutive_accurate >= 2);
        }
    }
}

/// The distilled knowledge of a well-formed room has at least one topic
/// weight, and no weight is zero.
pub proof fn lemma_knowledge_weights(s: RoomState)
    requires
        s.wf(),
    ensures
        s.topic_weights().len() > 0,
        forall|i: int| 0 <= i < s.topic_weights().len() ==> s.topic_weights()[i] != TopicWeight::Zero,
{
}

/// Whether `key` stands for an accuracy between 0 and 1.
pub open spec fn is_unit_accuracy(key: u64) -> bool {
    ZERO_ACCURACY <= key <= ONE_ACCURACY
}

/// Whether every prediction among `events` has an accuracy between 0 and 1.
pub open spec fn predictions_within_unit(events: Seq<RoomEvent>) -> bool {
    forall|i: int|
        0 <= i < events.len() ==> (#[trigger] events[i] matches RoomEvent::PredictionMade(p)
            ==> is_unit_accuracy(p.accuracy))
}

/// Folding in one prediction keeps the run of accurate predictions within
/// the accurate predictions, never lowers the peak, and keeps a peak between
/// 0 and 1 there when the prediction's accuracy is between 0 and 1.
pub proof fn lemma_record_accuracy_bounds(s: RoomState, accuracy: u64)
    requires
        s.consecutive_accurate <= s.accurate_predictions,
    ensures
        s.record_accuracy(accuracy).consecutive_accurate <= s.record_accuracy(
            accuracy,
        ).accurate_predictions,
        s.record_accuracy(accuracy).peak_accuracy >= s.peak_accuracy,
        is_unit_accuracy(s.peak_accuracy) && is_unit_accuracy(accuracy) ==> is_unit_accuracy(
            s.record_accuracy(accuracy).peak_accuracy,
        ),
{
}

/// The peak accuracy of a room stays between 0 and 1 over any run of events
/// whose predictions all have accuracies between 0 and 1; a fresh room's
/// peak is 0.
pub proof fn lemma_peak_within_unit(s: RoomState, events: Seq<RoomEvent>)
    requires
        is_unit_accuracy(s.peak_accuracy),
        predictions_within_unit(events),
    ensures
        is_unit_accuracy(run(s, events).peak_accuracy),
        is_unit_accuracy(initial_state(s.config).peak_accuracy),
    decreases events.len(),
{
    if events.len() > 0 {
        let prefix = events.drop_last();
        assert(predictions_within_unit(prefix)) by {
            assert forall|i: int| 0 <= i < prefix.len() implies (#[trigger] prefix[i] matches RoomEvent::PredictionMade(p)
                ==> is_unit_accuracy(p.accuracy)) by {
                assert(prefix[i] == events[i]);
            }
        }
        lemma_peak_within_unit(s, prefix);
        assert(events[events.len() - 1] == events.last());
    }
}

/// The run of accurate predictions after `events`, from `start`: an
/// accurate prediction lengthens it by one, an inaccurate one ends it, and
/// other events leave it. It is at least 3 exactly when the last three
/// predictions were accurate (or the run carried in from `start` makes up
/// the difference).
pub open spec fn accurate_run(config: LifecycleConfig, start: nat, events: Seq<RoomEvent>) -> nat
    decreases events.len(),
{
    if events.len() == 0 {
        start
    } else {
        let before = accurate_run(config, start, events.drop_last());
        match events.last() {
            RoomEvent::PredictionMade(p) => if p.accuracy > config.accuracy_threshold {
                before + 1
            } else {
                0
            },
            _ => before,
        }
    }
}

/// Whether the room is `Maturing` before and after each of `events`.
pub open spec fn stays_maturing(s: RoomState, events: Seq<RoomEvent>) -> bool
    decreases events.len(),
{
    if events.len() == 0 {
        s.phase == PhaseKind::Maturing
    } else {
        stays_maturing(s, events.drop_last()) && run(s, events).phase == PhaseKind::Maturing
    }
}

/// While a room stays `Maturing`, its counter of accurate predictions in a
/// row is the run of accurate predictions among the events it took.
pub proof fn lemma_maturing_run(s: RoomState, events: Seq<RoomEvent>)
    requires
        stays_maturing(s, events),
    ensures
        run(s, events).consecutive_accurate == accurate_run(
            s.config,
            s.consecutive_accurate,
            events,
        ),
    decreases events.len(),
{
    if events.len() > 0 {
        lemma_maturing_run(s, events.drop_last());
        lemma_run_counters(s, events.drop_last());
    }
}

/// A well-formed room enters `Maturing` with no run of accurate
/// predictions, so from then on its run is `accurate_run` from 0.
pub proof fn lemma_entering_maturing(s: RoomState, event: RoomEvent)
    requires
        s.wf(),
        s.phase != PhaseKind::Maturing,
        s.next(event).phase == PhaseKind::Maturing,
    ensures
        s.next(event).consecutive_accurate == 0,
{
}

/// A maturing room that has stayed `Maturing` through `events` becomes
/// `Stable` on a prediction exactly when that prediction is accurate and
/// either ends a run of at least three accurate predictions or brings the
/// running accuracy above the threshold.
pub proof fn lemma_maturing_promotion(s: RoomState, events: Seq<RoomEvent>, p: RoomEvent)
    requires
        stays_maturing(s, events),
        p is PredictionMade,
    ensures
        run(s, events.push(p)).phase == PhaseKind::Stable <==> {
            &&& s.is_accurate(p->PredictionMade_0.accuracy)
            &&& (accurate_run(s.config, s.consecutive_accurate, events.push(p)) >= 3
                || s.is_accurate(p->PredictionMade_0.running_accuracy))
        },
{
    lemma_maturing_run(s, events);
    lemma_run_counters(s, events);
    let all = events.push(p);
    assert(all.drop_last() =~= events);
    assert(all.last() == p);
}

/// The number of `events` the room took while in phase `k`.
pub open spec fn time_in(s: RoomState, events: Seq<RoomEvent>, k: PhaseKind) -> nat
    decreases events.len(),
{
    if events.len() == 0 {
        0
    } else {
        time_in(s, events.drop_last(), k) + if run(s, events.drop_last()).phase == k {
            1nat
        } else {
            0nat
        }
    }
}

/// Whether the room was in phase `k` before or after some of `events`.
pub open spec fn visited(s: RoomState, events: Seq<RoomEvent>, k: PhaseKind) -> bool
    decreases events.len(),
{
    run(s, events).phase == k || (events.len() > 0 && visited(s, events.drop_last(), k))
}

/// A phase with the same rank is the same phase.
proof fn lemma_rank_injective(a: PhaseKind, b: PhaseKind)
    ensures
        a.rank() == b.rank() ==> a == b,
{
}

/// A room that takes no transition keeps its recorded durations and counts
/// one more tick.
proof fn lemma_step_without_transition(s: RoomState, event: RoomEvent)
    requires
        s.next(event).phase == s.phase,
    ensures
        s.next(event).durations == s.durations,
        s.next(event).ticks == s.ticks + 1,
{
}

/// Over any run from a fresh room, the recorded phases are exactly the
/// phases the room has been in; each phase it has left records the number of
/// events it took there, the event that left it included; and the current
/// phase counts the events taken in it so far, with a recorded 0.
pub proof fn lemma_run_durations(config: LifecycleConfig, events: Seq<RoomEvent>)
    ensures
        forall|k: PhaseKind|
            #![trigger run(initial_state(config), events).durations.contains_key(k)]
            run(initial_state(config), events).durations.contains_key(k) <==> visited(
                initial_state(config),
                events,
                k,
            ),
        forall|k: PhaseKind|
            visited(initial_state(config), events, k) && k != run(initial_state(config), events).phase
                ==> #[trigger] run(initial_state(config), events).durations[k] == time_in(
                initial_state(config),
                events,
                k,
            ),
        run(initial_state(config), events).ticks == time_in(
            initial_state(config),
            events,
            run(initial_state(config), events).phase,
        ),
        run(initial_state(config), events).durations[run(initial_state(config), events).phase]
            == 0,
        forall|k: PhaseKind|
            #[trigger] visited(initial_state(config), events, k) ==> k.rank() <= run(
                initial_state(config),
                events,
            ).phase.rank(),
        forall|k: PhaseKind|
            !#[trigger] visited(initial_state(config), events, k) ==> time_in(
                initial_state(config),
                events,
                k,
            ) == 0,
    decreases events.len(),
{
    let s0 = initial_state(config);
    if events.len() == 0 {
        assert(run(s0, events) == s0);
        assert forall|k: PhaseKind| #[trigger] s0.durations.contains_key(k) <==> visited(s0, events, k) by {}
    } else {
        let prefix = events.drop_last();
        let e = events.last();
        lemma_run_durations(config, prefix);
        let before = run(s0, prefix);
        let after = run(s0, events);
        assert(after == before.next(e));
        lemma_phase_never_regresses(before, e);
        if after.phase == before.phase {
            lemma_step_without_transition(before, e);
            assert forall|k: PhaseKind| #[trigger] visited(s0, events, k) <==> visited(s0, prefix, k) by {}
            assert forall|k: PhaseKind| k != after.phase implies #[trigger] time_in(s0, events, k) == time_in(s0, prefix, k) by {}
        } else {
            let a = before.phase;
            let b = after.phase;
            assert(b.rank() > a.rank()) by {
                lemma_rank_injective(a, b);
            }
            assert(!visited(s0, prefix, b));
            assert(!before.durations.contains_key(b));
            lemma_durations_recorded(before, e);
            assert(after.durations == before.durations.insert(a, before.ticks + 1).insert(b, 0));
            assert forall|k: PhaseKind| #[trigger] visited(s0, events, k) <==> (k == b || visited(s0, prefix, k)) by {}
            assert forall|k: PhaseKind| k != a implies #[trigger] time_in(s0, events, k) == time_in(s0, prefix, k) by {}
            assert(time_in(s0, events, a) == time_in(s0, prefix, a) + 1);
        }
    }
}

} // verus!
