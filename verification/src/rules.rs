//! What each operation does, stated over the fields of the room: which phase
//! every event leads to, what it leaves alone, and what the derived values
//! (knowledge, dissolution, text) are.

use vstd::prelude::*;

use crate::lifecycle::{
    initial_state, LifecycleConfig, RoomEvent, RoomState, TopicWeight, ZERO_ACCURACY,
};
use crate::phase::{joined, PhaseKind, RoomPhase};

verus! {

/// A fresh room keeps the configuration it was given, is `Gestating` with
/// no readings, predictions or topics, a peak of 0, no ticks, and a recorded
/// duration of 0 for `Gestating` only.
pub proof fn rule_fresh_room(config: LifecycleConfig)
    ensures
        initial_state(config).config == config,
        initial_state(config).phase == PhaseKind::Gestating,
        initial_state(config).readings_seen == 0,
        initial_state(config).predictions_made == 0,
        initial_state(config).accurate_predictions == 0,
        initial_state(config).consecutive_accurate == 0,
        initial_state(config).peak_accuracy == ZERO_ACCURACY,
        initial_state(config).topics.len() == 0,
        initial_state(config).ticks == 0,
        initial_state(config).durations.dom() =~= set![PhaseKind::Gestating],
        initial_state(config).durations[PhaseKind::Gestating] == 0,
{
}

/// No event changes the configuration.
pub proof fn rule_config_kept(s: RoomState, event: RoomEvent)
    ensures
        s.next(event).config == s.config,
{
}

/// The phase each event leads to, phase by phase.
pub proof fn rule_phase_after(s: RoomState, event: RoomEvent)
    ensures
        s.phase == PhaseKind::Gestating ==> s.next(event).phase == match event {
            RoomEvent::ReadingAdded(_) => if s.readings_seen + 1
                >= s.config.min_readings_for_maturing {
                PhaseKind::Maturing
            } else {
                PhaseKind::Forming
            },
            RoomEvent::PhaseTimeout => PhaseKind::Dissolved,
            RoomEvent::ForceDissolve => PhaseKind::Dissolving,
            _ => PhaseKind::Gestating,
        },
        s.phase == PhaseKind::Forming ==> s.next(event).phase == match event {
            RoomEvent::ReadingAdded(_) => if s.readings_seen + 1
                >= s.config.min_readings_for_maturing {
                PhaseKind::Maturing
            } else {
                PhaseKind::Forming
            },
            RoomEvent::PhaseTimeout => if s.readings_seen > 0 {
                PhaseKind::Maturing
            } else {
                PhaseKind::Forming
            },
            RoomEvent::ForceDissolve => PhaseKind::Dissolving,
            _ => PhaseKind::Forming,
        },
        s.phase == PhaseKind::Maturing ==> s.next(event).phase == match event {
            RoomEvent::PredictionMade(p) => if p.accuracy > s.config.accuracy_threshold && (
            s.consecutive_accurate + 1 >= 3 || p.running_accuracy > s.config.accuracy_threshold) {
                PhaseKind::Stable
            } else {
                PhaseKind::Maturing
            },
            RoomEvent::AccuracyAboveThreshold => PhaseKind::Stable,
            RoomEvent::ForceDissolve => PhaseKind::Dissolving,
            _ => PhaseKind::Maturing,
        },
        s.phase == PhaseKind::Stable ==> s.next(event).phase == match event {
            RoomEvent::PredictionMade(p) => if (if p.accuracy > s.config.accuracy_threshold {
                s.consecutive_accurate + 1
            } else {
                0
            }) >= s.config.dissolve_after_stable_ticks {
                PhaseKind::Dissolving
            } else {
                PhaseKind::Stable
            },
            RoomEvent::ForceDissolve => PhaseKind::Dissolving,
            _ => PhaseKind::Stable,
        },
        s.phase == PhaseKind::Dissolving ==> s.next(event).phase == match event {
            RoomEvent::PhaseTimeout => PhaseKind::Dissolved,
            RoomEvent::ForceDissolve => PhaseKind::Dissolved,
            RoomEvent::ReadingAdded(_) => if s.ticks + 1 >= s.config.dissolving_grace_ticks {
                PhaseKind::Dissolved
            } else {
                PhaseKind::Dissolving
            },
            _ => PhaseKind::Dissolving,
        },
        s.phase == PhaseKind::Dissolved ==> s.next(event).phase == PhaseKind::Dissolved,
{
}

/// A reading to a stable room adds the reading and a tick and changes
/// nothing else; so does a reading to a `Forming` room that stays
/// `Forming`, and to a dissolving room that stays `Dissolving`.
pub proof fn rule_plain_reading(s: RoomState, event: RoomEvent)
    requires
        event is ReadingAdded,
        s.phase == PhaseKind::Stable || ((s.phase == PhaseKind::Forming || s.phase
            == PhaseKind::Dissolving) && s.next(event).phase == s.phase),
    ensures
        s.next(event) == (RoomState { readings_seen: s.readings_seen + 1, ticks: s.ticks + 1, ..s }),
{
}

/// Events without a rule for the current phase add a tick and change
/// nothing else: timeouts and accuracy notices to a stable room (apart from
/// the reset on a drop in accuracy), predictions and accuracy notices before
/// `Maturing`, and timeouts and accuracy drops to a maturing room.
pub proof fn rule_idle_events(s: RoomState, event: RoomEvent)
    ensures
        (s.phase == PhaseKind::Stable && (event is PhaseTimeout || event is AccuracyAboveThreshold))
            ==> s.next(event) == (RoomState { ticks: s.ticks + 1, ..s }),
        (s.phase == PhaseKind::Stable && event is AccuracyBelowThreshold) ==> s.next(event) == (
        RoomState { ticks: s.ticks + 1, consecutive_accurate: 0, ..s }),
        ((s.phase == PhaseKind::Gestating || s.phase == PhaseKind::Forming) && (
        event is PredictionMade || event is AccuracyAboveThreshold
            || event is AccuracyBelowThreshold)) ==> s.next(event) == (RoomState {
            ticks: s.ticks + 1,
            ..s
        }),
        (s.phase == PhaseKind::Maturing && (event is PhaseTimeout
            || event is AccuracyBelowThreshold)) ==> s.next(event) == (RoomState {
            ticks: s.ticks + 1,
            ..s
        }),
        (s.phase == PhaseKind::Dissolving && (event is PredictionMade
            || event is AccuracyAboveThreshold || event is AccuracyBelowThreshold)) ==> s.next(
            event,
        ) == (RoomState { ticks: s.ticks + 1, ..s }),
{
}

/// A room should dissolve only when it is `Stable`, and then exactly when
/// its run of accurate predictions has reached the required ticks; a room in
/// any other phase, `Maturing` included, never should.
pub proof fn rule_should_dissolve(s: RoomState)
    ensures
        s.should_dissolve() ==> s.phase == PhaseKind::Stable,
        s.phase != PhaseKind::Stable ==> !s.should_dissolve(),
        s.phase == PhaseKind::Stable ==> (s.should_dissolve() <==> s.consecutive_accurate
            >= s.config.dissolve_after_stable_ticks),
{
}

/// Distilled weights: with topics and readings, exactly one weight per
/// topic, the `i`-th being `1 / (1 + i)`; with no topics, one unit weight
/// per reading and at least one.
pub proof fn rule_topic_weights(s: RoomState)
    ensures
        s.topics.len() > 0 && s.readings_seen > 0 ==> {
            &&& s.topic_weights().len() == s.topics.len()
            &&& forall|i: int|
                0 <= i < s.topics.len() ==> s.topic_weights()[i] == TopicWeight::Harmonic(
                    i as usize,
                )
        },
        s.topics.len() == 0 ==> {
            &&& s.topic_weights().len() == if s.readings_seen == 0 {
                1
            } else {
                s.readings_seen
            }
            &&& forall|i: int|
                0 <= i < s.topic_weights().len() ==> s.topic_weights()[i] == TopicWeight::Unit
        },
{
}

/// Joining two non-empty lists of topics puts one `", "` between them.
pub proof fn rule_joined_append(first: Seq<Seq<char>>, rest: Seq<Seq<char>>)
    requires
        first.len() > 0,
        rest.len() > 0,
    ensures
        joined(first + rest) == joined(first) + ", "@ + joined(rest),
    decreases rest.len(),
{
    if rest.len() == 1 {
        assert((first + rest).drop_last() =~= first);
        assert((first + rest).last() == rest[0]);
    } else {
        rule_joined_append(first, rest.drop_last());
        assert((first + rest).drop_last() =~= first + rest.drop_last());
        assert((first + rest).last() == rest.last());
        assert(joined(first) + ", "@ + joined(rest.drop_last()) + ", "@ + rest.last() =~= joined(
            first,
        ) + ", "@ + (joined(rest.drop_last()) + ", "@ + rest.last()));
    }
}

/// One topic is written as it is; a list of topics is the first topic,
/// then `", "` and the rest.
pub proof fn rule_joined_shape(topics: Seq<Seq<char>>)
    ensures
        topics.len() == 1 ==> joined(topics) == topics[0],
        topics.len() >= 2 ==> joined(topics) == topics[0] + ", "@ + joined(topics.drop_first()),
{
    if topics.len() >= 2 {
        let first = seq![topics[0]];
        assert(first + topics.drop_first() =~= topics);
        rule_joined_append(first, topics.drop_first());
    }
}

/// A forming phase is written `Forming(` + its topics joined by `", "` +
/// `)`, and every other phase by its name.
pub proof fn rule_display(p: RoomPhase)
    ensures
        p is Forming ==> p.spec_display() == "Forming("@ + joined(p.topics()) + ")"@,
        !(p is Forming) ==> p.spec_display() == p.spec_kind().spec_name(),
{
}

} // verus!
