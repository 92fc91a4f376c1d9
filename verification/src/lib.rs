//! Rooms that are born, collect readings, learn to predict, settle, and
//! dissolve once they are perfectly adapted.

mod durations;
mod laws;
mod lifecycle;
mod phase;
mod rules;

pub use durations::{phase_named, PhaseDurations};
pub use lifecycle::{
    initial_state, LifecycleConfig, Prediction, RoomEvent, RoomKnowledge, RoomLifecycle,
    RoomState, TopicWeight, DEFAULT_ACCURACY_THRESHOLD, ONE_ACCURACY, ZERO_ACCURACY,
};
pub use laws::{
    accurate_run, all_accurate_predictions, is_unit_accuracy, lemma_dissolved_is_terminal,
    lemma_durations_recorded, lemma_entering_maturing, lemma_entering_stable_resets,
    lemma_force_dissolve, lemma_initial_wf, lemma_knowledge_weights, lemma_maturing_promotion,
    lemma_maturing_run, lemma_name_round_trip, lemma_next_preserves_wf, lemma_peak_accuracy,
    lemma_peak_within_unit, lemma_phase_never_regresses, lemma_predictions_counted,
    lemma_readings_counted, lemma_record_accuracy_bounds, lemma_run, lemma_run_counters,
    lemma_run_durations, lemma_stable_accurate_run, lemma_stable_dissolves, lemma_stable_reset,
    lemma_three_accurate_predictions, lemma_timeout, lemma_topics_discovered,
    predictions_within_unit, run, stays_maturing, time_in, visited,
};
pub use phase::{joined, PhaseKind, RoomPhase};
pub use rules::{
    rule_config_kept, rule_display, rule_fresh_room, rule_idle_events, rule_joined_append,
    rule_joined_shape, rule_phase_after, rule_plain_reading, rule_should_dissolve,
    rule_topic_weights,
};
