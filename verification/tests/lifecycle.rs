use room_lifecycle::{
    LifecycleConfig, PhaseKind, Prediction, RoomEvent, RoomLifecycle, RoomPhase, TopicWeight,
    DEFAULT_ACCURACY_THRESHOLD, ONE_ACCURACY, ZERO_ACCURACY,
};

// ── measurements as the library takes them ──────────────────────────────

/// The order key of an accuracy.
fn key(x: f64) -> u64 {
    if x.is_nan() {
        return u64::MAX;
    }
    let x = if x == 0.0 { 0.0 } else { x };
    let bits = x.to_bits();
    if bits >> 63 == 1 {
        !bits
    } else {
        bits | (1u64 << 63)
    }
}

/// The accuracy a key stands for.
fn value(k: u64) -> f64 {
    if k >> 63 == 1 {
        f64::from_bits(k & !(1u64 << 63))
    } else {
        f64::from_bits(!k)
    }
}

fn accuracy(predicted: f64, actual: f64) -> f64 {
    let error = (predicted - actual).abs();
    let max_val = predicted.abs().max(actual.abs()).max(1.0);
    1.0 - (error / max_val).min(1.0)
}

fn reading(val: f64) -> RoomEvent {
    RoomEvent::ReadingAdded((val.abs() * 10.0) as u32)
}

fn prediction(lc: &RoomLifecycle, predicted: f64, actual: f64) -> RoomEvent {
    let acc = key(accuracy(predicted, actual));
    let (accurate, made) = lc.running_accuracy_after(acc);
    RoomEvent::PredictionMade(Prediction {
        accuracy: acc,
        running_accuracy: key(accurate as f64 / made as f64),
    })
}

fn default_config() -> LifecycleConfig {
    LifecycleConfig::default()
}

fn config_with(dissolve_ticks: usize, min_readings: usize) -> LifecycleConfig {
    LifecycleConfig {
        dissolve_after_stable_ticks: dissolve_ticks,
        min_readings_for_maturing: min_readings,
        ..LifecycleConfig::default()
    }
}

fn predict(lc: &mut RoomLifecycle, predicted: f64, actual: f64) -> RoomPhase {
    let event = prediction(lc, predicted, actual);
    lc.process_event(event)
}

// ── Phase basics ─────────────────────────────────────────────────────────

#[test]
fn starts_in_gestating() {
    let lc = RoomLifecycle::new(default_config());
    assert_eq!(lc.phase(), &RoomPhase::Gestating);
}

// ── Gestating → Forming ─────────────────────────────────────────────────

#[test]
fn first_reading_transitions_to_forming() {
    let mut lc = RoomLifecycle::new(default_config());
    let phase = lc.process_event(reading(1.0));
    assert!(matches!(phase, RoomPhase::Forming(_)));
    assert_eq!(lc.phase(), &RoomPhase::Forming(vec![]));
}

#[test]
fn gestating_timeout_dissolves() {
    let mut lc = RoomLifecycle::new(default_config());
    let phase = lc.process_event(RoomEvent::PhaseTimeout);
    assert_eq!(phase, RoomPhase::Dissolved);
}

// ── Forming → Maturing ──────────────────────────────────────────────────

#[test]
fn forming_reaches_maturing_after_min_readings() {
    let mut lc = RoomLifecycle::new(config_with(10, 3));
    lc.process_event(reading(1.0)); // Gestating → Forming
    assert!(matches!(lc.phase(), RoomPhase::Forming(_)));
    lc.process_event(reading(2.0)); // Forming
    assert!(matches!(lc.phase(), RoomPhase::Forming(_)));
    lc.process_event(reading(3.0)); // Forming → Maturing
    assert_eq!(lc.phase(), &RoomPhase::Maturing);
}

#[test]
fn forming_timeout_promotes_if_readings_exist() {
    let mut lc = RoomLifecycle::new(config_with(10, 100));
    lc.process_event(reading(1.0)); // → Forming
    let phase = lc.process_event(RoomEvent::PhaseTimeout);
    assert_eq!(phase, RoomPhase::Maturing);
}

#[test]
fn forming_timeout_stays_if_no_readings() {
    let mut lc = RoomLifecycle::new(config_with(10, 100));
    lc.process_event(reading(1.0)); // → Forming
    // Still Forming, readings_seen = 1 > 0, so timeout → Maturing
    let phase = lc.process_event(RoomEvent::PhaseTimeout);
    assert_eq!(phase, RoomPhase::Maturing);
}

// ── Maturing → Stable ───────────────────────────────────────────────────

#[test]
fn maturing_transitions_to_stable_on_high_accuracy() {
    let mut lc = RoomLifecycle::new(config_with(10, 3));
    lc.process_event(reading(1.0)); // Gestating → Forming
    lc.process_event(reading(2.0)); // Forming
    lc.process_event(reading(3.0)); // Forming → Maturing

    // Accurate prediction: consecutive < 3, but overall accuracy > threshold
    predict(&mut lc, 10.0, 10.01); // → Stable
    assert_eq!(lc.phase(), &RoomPhase::Stable);
}

#[test]
fn maturing_transitions_via_accuracy_above_threshold_event() {
    let mut lc = RoomLifecycle::new(config_with(10, 1));
    lc.process_event(reading(1.0)); // → Maturing
    let phase = lc.process_event(RoomEvent::AccuracyAboveThreshold);
    assert_eq!(phase, RoomPhase::Stable);
}

// ── Stable → Dissolving ─────────────────────────────────────────────────

#[test]
fn stable_dissolves_after_consecutive_accurate_predictions() {
    let mut lc = RoomLifecycle::new(config_with(3, 1));
    lc.process_event(reading(1.0)); // → Maturing
    lc.process_event(RoomEvent::AccuracyAboveThreshold); // → Stable

    predict(&mut lc, 10.0, 10.01);
    assert_eq!(lc.phase(), &RoomPhase::Stable);
    predict(&mut lc, 10.0, 10.01);
    assert_eq!(lc.phase(), &RoomPhase::Stable);
    let phase = predict(&mut lc, 10.0, 10.01);
    assert_eq!(phase, RoomPhase::Dissolving);
}

#[test]
fn stable_resets_on_accuracy_below_threshold() {
    let mut lc = RoomLifecycle::new(config_with(3, 1));
    lc.process_event(reading(1.0)); // → Maturing
    lc.process_event(RoomEvent::AccuracyAboveThreshold); // → Stable

    predict(&mut lc, 10.0, 10.01);
    lc.process_event(RoomEvent::AccuracyBelowThreshold); // resets consecutive
    assert_eq!(lc.phase(), &RoomPhase::Stable);

    predict(&mut lc, 10.0, 10.01);
    predict(&mut lc, 10.0, 10.01);
    assert_eq!(lc.phase(), &RoomPhase::Stable); // only 2 consecutive
}

// ── Dissolving → Dissolved ──────────────────────────────────────────────

#[test]
fn dissolving_timeout_to_dissolved() {
    let mut lc = RoomLifecycle::new(config_with(1, 1));
    lc.process_event(reading(1.0)); // → Maturing
    lc.process_event(RoomEvent::AccuracyAboveThreshold); // → Stable
    predict(&mut lc, 10.0, 10.01); // → Dissolving
    let phase = lc.process_event(RoomEvent::PhaseTimeout);
    assert_eq!(phase, RoomPhase::Dissolved);
}

#[test]
fn dissolving_force_dissolve() {
    let mut lc = RoomLifecycle::new(config_with(1, 1));
    lc.process_event(reading(1.0)); // → Maturing
    lc.process_event(RoomEvent::AccuracyAboveThreshold); // → Stable
    predict(&mut lc, 10.0, 10.01); // → Dissolving
    let phase = lc.process_event(RoomEvent::ForceDissolve);
    assert_eq!(phase, RoomPhase::Dissolved);
}

// ── ForceDissolve from any phase ────────────────────────────────────────

#[test]
fn force_dissolve_from_gestating() {
    let mut lc = RoomLifecycle::new(default_config());
    let phase = lc.process_event(RoomEvent::ForceDissolve);
    assert_eq!(phase, RoomPhase::Dissolving);
}

#[test]
fn force_dissolve_from_forming() {
    let mut lc = RoomLifecycle::new(config_with(10, 100));
    lc.process_event(reading(1.0)); // → Forming
    let phase = lc.process_event(RoomEvent::ForceDissolve);
    assert_eq!(phase, RoomPhase::Dissolving);
}

#[test]
fn force_dissolve_from_maturing() {
    let mut lc = RoomLifecycle::new(config_with(10, 1));
    lc.process_event(reading(1.0)); // → Maturing
    let phase = lc.process_event(RoomEvent::ForceDissolve);
    assert_eq!(phase, RoomPhase::Dissolving);
}

#[test]
fn force_dissolve_from_stable() {
    let mut lc = RoomLifecycle::new(config_with(10, 1));
    lc.process_event(reading(1.0)); // → Maturing
    lc.process_event(RoomEvent::AccuracyAboveThreshold); // → Stable
    let phase = lc.process_event(RoomEvent::ForceDissolve);
    assert_eq!(phase, RoomPhase::Dissolving);
}

// ── Dissolved is terminal ───────────────────────────────────────────────

#[test]
fn dissolved_is_terminal() {
    let mut lc = RoomLifecycle::new(config_with(1, 1));
    lc.process_event(reading(1.0)); // → Maturing
    lc.process_event(RoomEvent::AccuracyAboveThreshold); // → Stable
    predict(&mut lc, 10.0, 10.01); // → Dissolving
    lc.process_event(RoomEvent::PhaseTimeout); // → Dissolved

    lc.process_event(reading(42.0));
    assert_eq!(lc.phase(), &RoomPhase::Dissolved);
    lc.process_event(RoomEvent::ForceDissolve);
    assert_eq!(lc.phase(), &RoomPhase::Dissolved);
}

// ── should_dissolve ─────────────────────────────────────────────────────

#[test]
fn should_dissolve_true_when_stable_and_consecutive() {
    let config = LifecycleConfig {
        dissolve_after_stable_ticks: 3,
        min_readings_for_maturing: 3,
        ..LifecycleConfig::default()
    };
    let mut lc = RoomLifecycle::new(config);
    lc.process_event(reading(1.0)); // → Forming
    lc.process_event(reading(2.0));
    lc.process_event(reading(3.0)); // → Maturing
    lc.process_event(RoomEvent::AccuracyAboveThreshold); // → Stable
    predict(&mut lc, 10.0, 10.01); // accurate, consecutive=1
    assert!(!lc.should_dissolve());
    predict(&mut lc, 10.0, 10.01); // consecutive=2
    assert!(!lc.should_dissolve());
}

#[test]
fn should_dissolve_false_when_not_stable() {
    let lc = RoomLifecycle::new(default_config());
    assert!(!lc.should_dissolve());
}

// ── distill_knowledge ───────────────────────────────────────────────────

#[test]
fn distill_knowledge_tracks_readings() {
    let mut lc = RoomLifecycle::new(config_with(10, 3));
    lc.process_event(reading(1.0));
    lc.process_event(reading(2.0));
    lc.process_event(reading(3.0)); // → Maturing
    predict(&mut lc, 5.0, 5.1); // accuracy ~0.98

    let knowledge = lc.distill_knowledge();
    assert_eq!(knowledge.readings_seen, 3);
    assert!(value(knowledge.peak_accuracy) > 0.9);
    assert!(knowledge.phase_durations.contains_key("Gestating"));
}

#[test]
fn distill_knowledge_empty_room() {
    let lc = RoomLifecycle::new(default_config());
    let knowledge = lc.distill_knowledge();
    assert_eq!(knowledge.readings_seen, 0);
    assert_eq!(value(knowledge.peak_accuracy), 0.0);
}

#[test]
fn distill_knowledge_has_phase_durations() {
    let mut lc = RoomLifecycle::new(LifecycleConfig {
        min_readings_for_maturing: 2,
        accuracy_threshold: key(0.9),
        dissolve_after_stable_ticks: 1,
        dissolving_grace_ticks: 1,
    });
    lc.process_event(reading(1.0)); // Gestating → Forming
    lc.process_event(reading(2.0)); // Forming → Maturing
    lc.process_event(RoomEvent::AccuracyAboveThreshold); // Maturing → Stable
    predict(&mut lc, 10.0, 10.01); // Stable → Dissolving
    lc.process_event(RoomEvent::PhaseTimeout); // Dissolving → Dissolved

    let k = lc.distill_knowledge();
    assert!(k.phase_durations.contains_key("Gestating"));
    assert!(k.phase_durations.contains_key("Forming"));
    assert!(k.phase_durations.contains_key("Maturing"));
    assert!(k.phase_durations.contains_key("Stable"));
    assert!(k.phase_durations.contains_key("Dissolving"));
}

// ── Full lifecycle walk ─────────────────────────────────────────────────

#[test]
fn full_lifecycle_gestating_to_dissolved() {
    let config = LifecycleConfig {
        min_readings_for_maturing: 3,
        accuracy_threshold: key(0.8),
        dissolve_after_stable_ticks: 2,
        dissolving_grace_ticks: 1,
    };
    let mut lc = RoomLifecycle::new(config);

    lc.process_event(reading(1.0));
    assert!(matches!(lc.phase(), RoomPhase::Forming(_)));

    lc.process_event(reading(2.0));
    lc.process_event(reading(3.0));
    assert_eq!(lc.phase(), &RoomPhase::Maturing);

    lc.process_event(RoomEvent::AccuracyAboveThreshold); // → Stable
    assert_eq!(lc.phase(), &RoomPhase::Stable);

    predict(&mut lc, 10.0, 10.05); // accurate, consecutive=1
    assert_eq!(lc.phase(), &RoomPhase::Stable);
    predict(&mut lc, 8.0, 8.01); // accurate, consecutive=2 → Dissolving
    assert_eq!(lc.phase(), &RoomPhase::Dissolving);

    lc.process_event(RoomEvent::PhaseTimeout);
    assert_eq!(lc.phase(), &RoomPhase::Dissolved);

    let knowledge = lc.distill_knowledge();
    assert_eq!(knowledge.readings_seen, 3);
    assert!(value(knowledge.peak_accuracy) > 0.8);
}

// ── Inaccurate prediction handling ──────────────────────────────────────

#[test]
fn inaccurate_prediction_resets_consecutive_in_stable() {
    let mut lc = RoomLifecycle::new(config_with(5, 1));
    lc.process_event(reading(1.0)); // → Maturing
    lc.process_event(RoomEvent::AccuracyAboveThreshold); // → Stable

    predict(&mut lc, 10.0, 10.01); // accurate
    predict(&mut lc, 10.0, 10.01); // accurate
    predict(&mut lc, 10.0, 0.0); // inaccurate, resets
    assert_eq!(lc.phase(), &RoomPhase::Stable);

    for _ in 0..4 {
        predict(&mut lc, 10.0, 10.01);
    }
    assert_eq!(lc.phase(), &RoomPhase::Stable); // only 4 consecutive
    predict(&mut lc, 10.0, 10.01); // 5th → Dissolving
    assert_eq!(lc.phase(), &RoomPhase::Dissolving);
}

// ── Custom config ───────────────────────────────────────────────────────

#[test]
fn default_config_values() {
    let c = LifecycleConfig::default();
    assert_eq!(c.min_readings_for_maturing, 5);
    assert_eq!(value(c.accuracy_threshold), 0.9);
    assert_eq!(c.dissolve_after_stable_ticks, 10);
    assert_eq!(c.dissolving_grace_ticks, 3);
}

// ── Further cases ───────────────────────────────────────────────────────

#[test]
fn accuracy_keys_are_the_keys_of_their_values() {
    assert_eq!(DEFAULT_ACCURACY_THRESHOLD, key(0.9));
    assert_eq!(ZERO_ACCURACY, key(0.0));
    assert_eq!(ONE_ACCURACY, key(1.0));
    assert!(key(0.0) < key(0.5) && key(0.5) < key(1.0));
}

#[test]
fn phase_rank_never_decreases_over_a_walk() {
    let mut lc = RoomLifecycle::new(config_with(2, 2));
    let events = [
        RoomEvent::AccuracyBelowThreshold,
        reading(1.0),
        RoomEvent::AccuracyAboveThreshold,
        reading(1.5),
        RoomEvent::PhaseTimeout,
        RoomEvent::AccuracyAboveThreshold,
        RoomEvent::AccuracyBelowThreshold,
        reading(3.0),
        RoomEvent::ForceDissolve,
        reading(4.0),
        RoomEvent::PhaseTimeout,
    ];
    let mut rank = 0;
    for e in events.iter() {
        let phase = lc.process_event(*e);
        let r = match phase.kind() {
            PhaseKind::Gestating => 0,
            PhaseKind::Forming => 1,
            PhaseKind::Maturing => 2,
            PhaseKind::Stable => 3,
            PhaseKind::Dissolving => 4,
            PhaseKind::Dissolved => 5,
        };
        assert!(r >= rank);
        rank = r;
    }
    assert_eq!(lc.phase(), &RoomPhase::Dissolved);
}

#[test]
fn gestating_reading_skips_forming_when_one_reading_suffices() {
    let mut lc = RoomLifecycle::new(config_with(10, 1));
    assert_eq!(lc.process_event(reading(1.0)), RoomPhase::Maturing);
    let k = lc.distill_knowledge();
    assert!(!k.phase_durations.contains_key("Forming"));
    assert_eq!(k.phase_durations.get_by_name("Gestating"), Some(1));
    assert_eq!(k.phase_durations.get_by_name("Maturing"), Some(0));
}

#[test]
fn durations_record_ticks_spent() {
    let mut lc = RoomLifecycle::new(config_with(10, 3));
    lc.process_event(RoomEvent::AccuracyAboveThreshold); // ignored, one tick
    lc.process_event(reading(1.0)); // → Forming after 2 ticks
    lc.process_event(reading(2.0));
    lc.process_event(reading(3.0)); // → Maturing after 2 ticks in Forming
    let k = lc.distill_knowledge();
    assert_eq!(k.phase_durations.get_by_name("Gestating"), Some(2));
    assert_eq!(k.phase_durations.get_by_name("Forming"), Some(2));
    assert_eq!(k.phase_durations.get_by_name("Maturing"), Some(0));
    assert_eq!(k.phase_durations.get_by_name("Stable"), None);
    assert_eq!(k.phase_durations.get_by_name("Unknown"), None);
    assert!(!k.phase_durations.contains_key("gestating"));
}

#[test]
fn dissolving_readings_end_the_grace_period() {
    let config = LifecycleConfig {
        min_readings_for_maturing: 5,
        accuracy_threshold: key(0.9),
        dissolve_after_stable_ticks: 10,
        dissolving_grace_ticks: 4,
    };
    let mut lc = RoomLifecycle::new(config);
    lc.process_event(RoomEvent::ForceDissolve); // → Dissolving
    // Each reading is one tick in Dissolving.
    assert_eq!(lc.process_event(reading(1.0)), RoomPhase::Dissolving);
    assert_eq!(lc.process_event(reading(1.0)), RoomPhase::Dissolving);
    assert_eq!(lc.process_event(reading(1.0)), RoomPhase::Dissolving);
    assert_eq!(lc.process_event(reading(1.0)), RoomPhase::Dissolved);
    let k = lc.distill_knowledge();
    assert_eq!(k.readings_seen, 4);
    assert_eq!(k.phase_durations.get_by_name("Dissolving"), Some(4));
    // Dissolved counts no readings.
    lc.process_event(reading(1.0));
    assert_eq!(lc.distill_knowledge().readings_seen, 4);
}

#[test]
fn grace_of_three_holds_after_two_readings() {
    let config = LifecycleConfig {
        min_readings_for_maturing: 1,
        accuracy_threshold: key(0.9),
        dissolve_after_stable_ticks: 1,
        dissolving_grace_ticks: 3,
    };
    let mut lc = RoomLifecycle::new(config);
    lc.process_event(reading(1.0)); // → Maturing
    lc.process_event(RoomEvent::AccuracyAboveThreshold); // → Stable
    assert_eq!(predict(&mut lc, 10.0, 10.01), RoomPhase::Dissolving);
    assert_eq!(lc.process_event(reading(1.0)), RoomPhase::Dissolving);
    assert_eq!(lc.process_event(reading(1.0)), RoomPhase::Dissolving);
    assert_eq!(lc.process_event(reading(1.0)), RoomPhase::Dissolved);
}

#[test]
fn entering_stable_restarts_the_accurate_run() {
    let mut lc = RoomLifecycle::new(config_with(3, 1));
    lc.process_event(reading(1.0)); // → Maturing
    predict(&mut lc, 10.0, 0.0); // inaccurate
    predict(&mut lc, 10.0, 10.01);
    predict(&mut lc, 10.0, 10.01);
    assert_eq!(predict(&mut lc, 10.0, 10.01), RoomPhase::Stable);
    assert!(!lc.should_dissolve());
    assert_eq!(predict(&mut lc, 10.0, 10.01), RoomPhase::Stable);
    assert_eq!(predict(&mut lc, 10.0, 10.01), RoomPhase::Stable);
    assert_eq!(predict(&mut lc, 10.0, 10.01), RoomPhase::Dissolving);
}

#[test]
fn durations_list_entries_in_lifecycle_order() {
    let mut lc = RoomLifecycle::new(config_with(10, 3));
    lc.process_event(reading(1.0));
    lc.process_event(RoomEvent::ForceDissolve);
    let entries = lc.distill_knowledge().phase_durations.entries();
    assert_eq!(
        entries,
        vec![
            (PhaseKind::Gestating, 1),
            (PhaseKind::Forming, 1),
            (PhaseKind::Dissolving, 0)
        ]
    );
}

#[test]
fn topics_discovered_while_maturing_weight_the_knowledge() {
    let mut lc = RoomLifecycle::new(config_with(10, 1));
    lc.process_event(reading(0.25)); // → Maturing, no topic
    lc.process_event(reading(1.0)); // signal 10
    lc.process_event(reading(1.05)); // signal 10 again
    lc.process_event(reading(-2.0)); // signal 20
    let k = lc.distill_knowledge();
    assert_eq!(k.readings_seen, 4);
    assert_eq!(
        k.topic_weights,
        vec![TopicWeight::Harmonic(0), TopicWeight::Harmonic(1)]
    );
}

#[test]
fn knowledge_without_topics_has_one_unit_weight_per_reading() {
    let lc = RoomLifecycle::new(default_config());
    assert_eq!(lc.distill_knowledge().topic_weights, vec![TopicWeight::Unit]);

    let mut lc = RoomLifecycle::new(config_with(10, 100));
    lc.process_event(reading(1.0));
    lc.process_event(reading(2.0));
    lc.process_event(reading(3.0));
    assert_eq!(lc.distill_knowledge().topic_weights, vec![TopicWeight::Unit; 3]);
}

#[test]
fn peak_accuracy_never_decreases() {
    let mut lc = RoomLifecycle::new(config_with(10, 1));
    lc.process_event(reading(1.0)); // → Maturing
    predict(&mut lc, 10.0, 5.0); // accuracy 0.5
    let first = lc.distill_knowledge().peak_accuracy;
    assert_eq!(value(first), 0.5);
    predict(&mut lc, 10.0, 0.0); // accuracy 0
    assert_eq!(lc.distill_knowledge().peak_accuracy, first);
    assert_eq!(lc.phase(), &RoomPhase::Maturing);
}

#[test]
fn maturing_needs_three_in_a_row_or_a_good_running_accuracy() {
    let mut lc = RoomLifecycle::new(config_with(10, 1));
    lc.process_event(reading(1.0)); // → Maturing
    predict(&mut lc, 10.0, 0.0); // inaccurate: running 0/1
    predict(&mut lc, 10.0, 0.0); // inaccurate: running 0/2
    predict(&mut lc, 10.0, 10.0); // accurate, running 1/3
    assert_eq!(lc.phase(), &RoomPhase::Maturing);
    predict(&mut lc, 10.0, 10.0); // accurate, running 2/4
    assert_eq!(lc.phase(), &RoomPhase::Maturing);
    predict(&mut lc, 10.0, 10.0); // accurate, three in a row
    assert_eq!(lc.phase(), &RoomPhase::Stable);
}

#[test]
fn running_accuracy_counts_include_the_new_prediction() {
    let mut lc = RoomLifecycle::new(config_with(10, 1));
    lc.process_event(reading(1.0)); // → Maturing
    assert_eq!(lc.running_accuracy_after(key(0.95)), (1, 1));
    assert_eq!(lc.running_accuracy_after(key(0.5)), (0, 1));
    predict(&mut lc, 10.0, 0.0);
    assert_eq!(lc.running_accuracy_after(key(1.0)), (1, 2));
    assert_eq!(lc.running_accuracy_after(key(0.9)), (0, 2));
}

#[test]
fn should_dissolve_when_stable_with_no_ticks_needed() {
    let mut lc = RoomLifecycle::new(config_with(0, 1));
    lc.process_event(reading(1.0)); // → Maturing
    lc.process_event(RoomEvent::AccuracyAboveThreshold); // → Stable
    assert!(lc.should_dissolve());
    assert_eq!(predict(&mut lc, 10.0, 0.0), RoomPhase::Dissolving);
    assert!(!lc.should_dissolve());
}

#[test]
fn events_without_a_rule_only_tick() {
    let mut lc = RoomLifecycle::new(config_with(10, 100));
    assert_eq!(lc.process_event(RoomEvent::AccuracyBelowThreshold), RoomPhase::Gestating);
    assert_eq!(predict(&mut lc, 1.0, 1.0), RoomPhase::Gestating);
    let k = lc.distill_knowledge();
    assert_eq!(k.peak_accuracy, ZERO_ACCURACY);
    assert!(lc.can_take_event());
}
