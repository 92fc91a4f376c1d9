//! The lifecycle of one room: the events it takes and the phases it goes
//! through.
//!
//! Accuracies are held as order keys: a `u64` stands for an accuracy, and the
//! unsigned order of the keys is the order of the accuracies they stand for.
//! The library only compares keys; the caller maps its measurements to keys.

use vstd::prelude::*;

use crate::durations::PhaseDurations;
use crate::laws::lemma_next_preserves_wf;
use crate::phase::{PhaseKind, RoomPhase};

verus! {

/// The key of the accuracy 0, the peak accuracy of a room that has made no
/// prediction.
pub const ZERO_ACCURACY: u64 = 0x8000_0000_0000_0000;

/// The key of the accuracy 1, the highest accuracy a prediction can have.
pub const ONE_ACCURACY: u64 = 0xBFF0_0000_0000_0000;

/// The key of the accuracy 0.9, the default accuracy threshold.
pub const DEFAULT_ACCURACY_THRESHOLD: u64 = 0xBFEC_CCCC_CCCC_CCCD;

/// Tunable thresholds that govern phase transitions.
#[derive(Clone, Copy, Debug, PartialEq, Eq, Structural)]
pub struct LifecycleConfig {
    /// Minimum readings before the room can leave the `Forming` phase.
    pub min_readings_for_maturing: usize,
    /// Key of the accuracy above which a prediction counts as accurate.
    pub accuracy_threshold: u64,
    /// Number of consecutive accurate ticks required before dissolving.
    pub dissolve_after_stable_ticks: usize,
    /// Number of ticks in `Dissolving` before automatic `Dissolved`.
    pub dissolving_grace_ticks: usize,
}

impl Default for LifecycleConfig {
    fn default() -> (c: LifecycleConfig)
        ensures
            c == (LifecycleConfig {
                min_readings_for_maturing: 5,
                accuracy_threshold: DEFAULT_ACCURACY_THRESHOLD,
                dissolve_after_stable_ticks: 10,
                dissolving_grace_ticks: 3,
            }),
    {
        LifecycleConfig {
            min_readings_for_maturing: 5,
            accuracy_threshold: DEFAULT_ACCURACY_THRESHOLD,
            dissolve_after_stable_ticks: 10,
            dissolving_grace_ticks: 3,
        }
    }
}

/// A scored prediction.
#[derive(Clone, Copy, Debug, PartialEq, Eq, Structural)]
pub struct Prediction {
    /// Key of the accuracy of this prediction.
    pub accuracy: u64,
    /// Key of the share of accurate predictions among all predictions, this
    /// one included: the ratio of the two counts that
    /// `RoomLifecycle::running_accuracy_after` gives for this accuracy.
    pub running_accuracy: u64,
}

/// Events that can trigger phase transitions.
#[derive(Clone, Copy, Debug, PartialEq, Eq, Structural)]
pub enum RoomEvent {
    /// A new sensor reading was added; it carries the signal bucket of the
    /// reading, which names the topic the reading belongs to.
    ReadingAdded(u32),
    /// A prediction was made and scored.
    PredictionMade(Prediction),
    /// Accuracy has dropped below the configured threshold.
    AccuracyBelowThreshold,
    /// Accuracy has risen above the configured threshold.
    AccuracyAboveThreshold,
    /// The current phase has timed out.
    PhaseTimeout,
    /// External request to dissolve immediately.
    ForceDissolve,
}

/// The weight of one topic dimension in distilled knowledge.
#[derive(Clone, Copy, Debug, PartialEq, Eq, Structural)]
pub enum TopicWeight {
    /// Weight 0.
    Zero,
    /// Weight 1.
    Unit,
    /// Weight `1 / (1 + rank)` for the topic found `rank`-th.
    Harmonic(usize),
}

/// Distilled knowledge extracted from a dissolving room.
#[derive(Clone, Debug, PartialEq)]
pub struct RoomKnowledge {
    /// Learned weights per topic dimension.
    pub topic_weights: Vec<TopicWeight>,
    /// Key of the best accuracy the room ever achieved.
    pub peak_accuracy: u64,
    /// Total number of readings the room processed.
    pub readings_seen: usize,
    /// How many ticks were spent in each phase.
    pub phase_durations: PhaseDurations,
}

/// What a room is, as the contracts speak of it.
pub struct RoomState {
    pub config: LifecycleConfig,
    pub phase: PhaseKind,
    pub readings_seen: nat,
    pub predictions_made: nat,
    pub accurate_predictions: nat,
    pub consecutive_accurate: nat,
    pub peak_accuracy: u64,
    /// Signal buckets discovered while `Maturing`, in the order found.
    pub topics: Seq<u32>,
    /// Ticks (events) taken in the current phase.
    pub ticks: nat,
    pub durations: Map<PhaseKind, nat>,
}

/// A room fresh from `RoomLifecycle::new`.
pub open spec fn initial_state(config: LifecycleConfig) -> RoomState {
    RoomState {
        config,
        phase: PhaseKind::Gestating,
        readings_seen: 0,
        predictions_made: 0,
        accurate_predictions: 0,
        consecutive_accurate: 0,
        peak_accuracy: ZERO_ACCURACY,
        topics: Seq::empty(),
        ticks: 0,
        durations: Map::empty().insert(PhaseKind::Gestating, 0),
    }
}

impl RoomState {
    /// The durations after leaving `self.phase` for `k`: the phase left gets
    /// the ticks spent in it, and `k` gets an entry of 0 unless it has one.
    pub open spec fn durations_after_leaving_for(self, k: PhaseKind) -> Map<PhaseKind, nat> {
        let recorded = self.durations.insert(self.phase, self.ticks);
        if recorded.contains_key(k) {
            recorded
        } else {
            recorded.insert(k, 0)
        }
    }

    /// Move to phase `k`. A room entering `Stable` starts counting its run
    /// of accurate predictions afresh.
    pub open spec fn enter(self, k: PhaseKind) -> RoomState {
        RoomState {
            phase: k,
            ticks: 0,
            durations: self.durations_after_leaving_for(k),
            consecutive_accurate: if k == PhaseKind::Stable {
                0
            } else {
                self.consecutive_accurate
            },
            ..self
        }
    }

    pub open spec fn is_accurate(self, accuracy: u64) -> bool {
        accuracy > self.config.accuracy_threshold
    }

    /// Fold one prediction of the given accuracy into the counters.
    pub open spec fn record_accuracy(self, accuracy: u64) -> RoomState {
        RoomState {
            peak_accuracy: if accuracy > self.peak_accuracy {
                accuracy
            } else {
                self.peak_accuracy
            },
            accurate_predictions: if self.is_accurate(accuracy) {
                self.accurate_predictions + 1
            } else {
                self.accurate_predictions
            },
            consecutive_accurate: if self.is_accurate(accuracy) {
                self.consecutive_accurate + 1
            } else {
                0
            },
            ..self
        }
    }

    /// Count a prediction of the given accuracy.
    pub open spec fn score(self, accuracy: u64) -> RoomState {
        RoomState { predictions_made: self.predictions_made + 1, ..self }.record_accuracy(accuracy)
    }

    pub open spec fn add_reading(self) -> RoomState {
        RoomState { readings_seen: self.readings_seen + 1, ..self }
    }

    /// Note the topic of a reading, unless it is known already.
    pub open spec fn discover(self, signal: u32) -> RoomState {
        RoomState {
            topics: if self.topics.contains(signal) {
                self.topics
            } else {
                self.topics.push(signal)
            },
            ..self
        }
    }

    /// The room after taking `event`.
    pub open spec fn next(self, event: RoomEvent) -> RoomState {
        let s = RoomState { ticks: self.ticks + 1, ..self };
        let c = s.config;
        match s.phase {
            PhaseKind::Gestating => match event {
                RoomEvent::ReadingAdded(_) => {
                    let r = s.add_reading();
                    if r.readings_seen >= c.min_readings_for_maturing {
                        r.enter(PhaseKind::Maturing)
                    } else {
                        r.enter(PhaseKind::Forming)
                    }
                },
                RoomEvent::ForceDissolve => s.enter(PhaseKind::Dissolving),
                RoomEvent::PhaseTimeout => s.enter(PhaseKind::Dissolved),
                _ => s,
            },
            PhaseKind::Forming => match event {
                RoomEvent::ReadingAdded(_) => {
                    let r = s.add_reading();
                    if r.readings_seen >= c.min_readings_for_maturing {
                        r.enter(PhaseKind::Maturing)
                    } else {
                        r
                    }
                },
                RoomEvent::PhaseTimeout => if s.readings_seen > 0 {
                    s.enter(PhaseKind::Maturing)
                } else {
                    s
                },
                RoomEvent::ForceDissolve => s.enter(PhaseKind::Dissolving),
                _ => s,
            },
            PhaseKind::Maturing => match event {
                RoomEvent::ReadingAdded(signal) => s.add_reading().discover(signal),
                RoomEvent::PredictionMade(p) => {
                    let r = s.score(p.accuracy);
                    if s.is_accurate(p.accuracy) && (r.consecutive_accurate >= 3 || s.is_accurate(
                        p.running_accuracy,
                    )) {
                        r.enter(PhaseKind::Stable)
                    } else {
                        r
                    }
                },
                RoomEvent::AccuracyAboveThreshold => s.enter(PhaseKind::Stable),
                RoomEvent::ForceDissolve => s.enter(PhaseKind::Dissolving),
                _ => s,
            },
            PhaseKind::Stable => match event {
                RoomEvent::PredictionMade(p) => {
                    let r = s.score(p.accuracy);
                    if r.consecutive_accurate >= c.dissolve_after_stable_ticks {
                        r.enter(PhaseKind::Dissolving)
                    } else {
                        r
                    }
                },
                RoomEvent::ReadingAdded(_) => s.add_reading(),
                RoomEvent::AccuracyBelowThreshold => RoomState { consecutive_accurate: 0, ..s },
                RoomEvent::ForceDissolve => s.enter(PhaseKind::Dissolving),
                _ => s,
            },
            PhaseKind::Dissolving => match event {
                RoomEvent::PhaseTimeout => s.enter(PhaseKind::Dissolved),
                RoomEvent::ForceDissolve => s.enter(PhaseKind::Dissolved),
                RoomEvent::ReadingAdded(_) => {
                    let r = s.add_reading();
                    if r.ticks >= c.dissolving_grace_ticks {
                        r.enter(PhaseKind::Dissolved)
                    } else {
                        r
                    }
                },
                _ => s,
            },
            PhaseKind::Dissolved => s,
        }
    }

    /// What holds of every room reachable from `initial_state`.
    pub open spec fn wf(self) -> bool {
        &&& self.accurate_predictions <= self.predictions_made
        &&& self.consecutive_accurate <= self.accurate_predictions
        &&& self.topics.no_duplicates()
        &&& self.topics.len() <= self.readings_seen
        &&& self.durations.contains_key(self.phase)
        &&& self.durations.contains_key(PhaseKind::Gestating)
        &&& self.phase == PhaseKind::Gestating ==> self.readings_seen == 0
        &&& self.phase.rank() < PhaseKind::Maturing.rank() ==> self.predictions_made == 0
        &&& self.phase == PhaseKind::Forming ==> 0 < self.readings_seen
            < self.config.min_readings_for_maturing
    }

    /// The counters can take one more event without overflowing a `usize`.
    pub open spec fn has_headroom(self) -> bool {
        &&& self.ticks + 1 <= usize::MAX
        &&& self.readings_seen + 1 <= usize::MAX
        &&& self.predictions_made + 1 <= usize::MAX
    }

    /// The two counts behind the running accuracy once a prediction of the
    /// given accuracy is counted: accurate predictions, then all predictions.
    pub open spec fn running_counts(self, accuracy: u64) -> (nat, nat) {
        let r = self.score(accuracy);
        (r.accurate_predictions, r.predictions_made)
    }

    /// The topic weights of distilled knowledge.
    pub open spec fn topic_weights(self) -> Seq<TopicWeight> {
        if self.topics.len() == 0 {
            Seq::new(
                if self.readings_seen > 1 {
                    self.readings_seen
                } else {
                    1
                },
                |i: int| TopicWeight::Unit,
            )
        } else {
            Seq::new(
                self.topics.len(),
                |i: int|
                    if self.readings_seen == 0 {
                        TopicWeight::Zero
                    } else {
                        TopicWeight::Harmonic(i as usize)
                    },
            )
        }
    }

    /// Whether the room should dissolve: it has been stable and accurate for
    /// `dissolve_after_stable_ticks` consecutive ticks.
    pub open spec fn should_dissolve(self) -> bool {
        self.phase == PhaseKind::Stable && self.consecutive_accurate
            >= self.config.dissolve_after_stable_ticks
    }
}

/// Manages a single room's lifecycle through its phases.
pub struct RoomLifecycle {
    phase: RoomPhase,
    config: LifecycleConfig,
    readings_seen: usize,
    predictions_made: usize,
    accurate_predictions: usize,
    consecutive_accurate: usize,
    peak_accuracy: u64,
    discovered_topics: Vec<u32>,
    ticks_in_current_phase: usize,
    phase_durations: PhaseDurations,
}

impl View for RoomLifecycle {
    type V = RoomState;

    closed spec fn view(&self) -> RoomState {
        RoomState {
            config: self.config,
            phase: self.phase.spec_kind(),
            readings_seen: self.readings_seen as nat,
            predictions_made: self.predictions_made as nat,
            accurate_predictions: self.accurate_predictions as nat,
            consecutive_accurate: self.consecutive_accurate as nat,
            peak_accuracy: self.peak_accuracy,
            topics: self.discovered_topics@,
            ticks: self.ticks_in_current_phase as nat,
            durations: self.phase_durations@,
        }
    }
}

impl RoomLifecycle {
    /// The room is well formed: its state is one that events can reach.
    pub closed spec fn wf(&self) -> bool {
        &&& self@.wf()
        &&& self.phase.topics() == Seq::<Seq<char>>::empty()
    }

    /// Create a new room lifecycle starting in the `Gestating` phase.
    pub fn new(config: LifecycleConfig) -> (lc: RoomLifecycle)
        ensures
            lc.wf(),
            lc@.wf(),
            lc@ == initial_state(config),
    {
        let mut phase_durations = PhaseDurations::empty();
        phase_durations.set(PhaseKind::Gestating, 0);
        let lc = RoomLifecycle {
            phase: RoomPhase::Gestating,
            config,
            readings_seen: 0,
            predictions_made: 0,
            accurate_predictions: 0,
            consecutive_accurate: 0,
            peak_accuracy: ZERO_ACCURACY,
            discovered_topics: Vec::new(),
            ticks_in_current_phase: 0,
            phase_durations,
        };
        assert(lc@.durations =~= initial_state(config).durations);
        assert(lc@.topics =~= Seq::<u32>::empty());
        lc
    }

    /// Return the current phase.
    pub fn phase(&self) -> (p: &RoomPhase)
        requires
            self.wf(),
        ensures
            p.spec_kind() == self@.phase,
            p.topics() == Seq::<Seq<char>>::empty(),
            self@.wf(),
    {
        &self.phase
    }

    /// Whether the counters can take one more event without overflowing.
    pub fn can_take_event(&self) -> (r: bool)
        ensures
            r == self@.has_headroom(),
    {
        self.ticks_in_current_phase < usize::MAX && self.readings_seen < usize::MAX
            && self.predictions_made < usize::MAX
    }

    /// The counts (accurate predictions, all predictions) from which the
    /// running accuracy is computed once a prediction of `accuracy` is counted.
    pub fn running_accuracy_after(&self, accuracy: u64) -> (r: (usize, usize))
        requires
            self.wf(),
            self@.has_headroom(),
        ensures
            (r.0 as nat, r.1 as nat) == self@.running_counts(accuracy),
    {
        if accuracy > self.config.accuracy_threshold {
            (self.accurate_predictions + 1, self.predictions_made + 1)
        } else {
            (self.accurate_predictions, self.predictions_made + 1)
        }
    }

    /// Process an event, potentially transitioning phases.
    /// Returns a copy of the new (or unchanged) phase.
    pub fn process_event(&mut self, event: RoomEvent) -> (phase: RoomPhase)
        requires
            old(self).wf(),
            old(self)@.has_headroom(),
        ensures
            final(self).wf(),
            final(self)@.wf(),
            final(self)@ == old(self)@.next(event),
            phase.spec_kind() == final(self)@.phase,
            phase.topics() == Seq::<Seq<char>>::empty(),
    {
        // Each event is one tick in the current phase.
        self.ticks_in_current_phase = self.ticks_in_current_phase + 1;

        match self.phase.kind() {
            PhaseKind::Gestating => match event {
                RoomEvent::ReadingAdded(_) => {
                    self.readings_seen = self.readings_seen + 1;
                    if self.readings_seen >= self.config.min_readings_for_maturing {
                        self.transition_to(RoomPhase::Maturing);
                    } else {
                        self.transition_to(RoomPhase::Forming(Vec::new()));
                        assert(self.phase.topics() =~= Seq::<Seq<char>>::empty());
                    }
                },
                RoomEvent::ForceDissolve => {
                    self.transition_to(RoomPhase::Dissolving);
                },
                RoomEvent::PhaseTimeout => {
                    // Room never received a reading; dissolve it.
                    self.transition_to(RoomPhase::Dissolved);
                },
                _ => {},
            },
            PhaseKind::Forming => match event {
                RoomEvent::ReadingAdded(_) => {
                    self.readings_seen = self.readings_seen + 1;
                    if self.readings_seen >= self.config.min_readings_for_maturing {
                        self.transition_to(RoomPhase::Maturing);
                    }
                },
                RoomEvent::PhaseTimeout => {
                    if self.readings_seen > 0 {
                        self.transition_to(RoomPhase::Maturing);
                    }
                },
                RoomEvent::ForceDissolve => {
                    self.transition_to(RoomPhase::Dissolving);
                },
                _ => {},
            },
            PhaseKind::Maturing => match event {
                RoomEvent::ReadingAdded(signal) => {
                    self.readings_seen = self.readings_seen + 1;
                    if !self.knows_topic(signal) {
                        self.discovered_topics.push(signal);
                    }
                },
                RoomEvent::PredictionMade(p) => {
                    self.predictions_made = self.predictions_made + 1;
                    self.update_accuracy(p.accuracy);
                    if p.accuracy > self.config.accuracy_threshold && (self.consecutive_accurate
                        >= 3 || p.running_accuracy > self.config.accuracy_threshold) {
                        self.transition_to(RoomPhase::Stable);
                    }
                },
                RoomEvent::AccuracyAboveThreshold => {
                    self.transition_to(RoomPhase::Stable);
                },
                RoomEvent::ForceDissolve => {
                    self.transition_to(RoomPhase::Dissolving);
                },
                _ => {},
            },
            PhaseKind::Stable => match event {
                RoomEvent::PredictionMade(p) => {
                    self.predictions_made = self.predictions_made + 1;
                    self.update_accuracy(p.accuracy);
                    if self.consecutive_accurate >= self.config.dissolve_after_stable_ticks {
                        self.transition_to(RoomPhase::Dissolving);
                    }
                },
                RoomEvent::ReadingAdded(_) => {
                    self.readings_seen = self.readings_seen + 1;
                },
                RoomEvent::AccuracyBelowThreshold => {
                    self.consecutive_accurate = 0;
                },
                RoomEvent::ForceDissolve => {
                    self.transition_to(RoomPhase::Dissolving);
                },
                _ => {},
            },
            PhaseKind::Dissolving => match event {
                RoomEvent::PhaseTimeout => {
                    self.transition_to(RoomPhase::Dissolved);
                },
                RoomEvent::ForceDissolve => {
                    self.transition_to(RoomPhase::Dissolved);
                },
                RoomEvent::ReadingAdded(_) => {
                    self.readings_seen = self.readings_seen + 1;
                    if self.ticks_in_current_phase >= self.config.dissolving_grace_ticks {
                        self.transition_to(RoomPhase::Dissolved);
                    }
                },
                _ => {},
            },
            PhaseKind::Dissolved => {
                // No further transitions possible.
            },
        }
        assert(self@ =~~= old(self)@.next(event));
        proof {
            lemma_next_preserves_wf(old(self)@, event);
        }
        self.phase.copy()
    }

    /// Whether `signal` is among the discovered topics.
    fn knows_topic(&self, signal: u32) -> (r: bool)
        ensures
            r == self@.topics.contains(signal),
    {
        let mut i: usize = 0;
        while i < self.discovered_topics.len()
            invariant
                0 <= i <= self.discovered_topics@.len(),
                forall|j: int| 0 <= j < i ==> self.discovered_topics@[j] != signal,
            decreases self.discovered_topics@.len() - i,
        {
            if self.discovered_topics[i] == signal {
                return true;
            }
            i = i + 1;
        }
        false
    }

    /// Leave the current phase for `new_phase`, recording how long the room
    /// stayed.
    fn transition_to(&mut self, new_phase: RoomPhase)
        ensures
            final(self)@ == old(self)@.enter(new_phase.spec_kind()),
            final(self).phase == new_phase,
    {
        // Record duration of the phase we're leaving.
        let old_kind = self.phase.kind();
        self.phase_durations.set(old_kind, self.ticks_in_current_phase);

        self.ticks_in_current_phase = 0;
        self.phase = new_phase;
        if self.phase.kind() == PhaseKind::Stable {
            // A stable run of accurate predictions starts afresh.
            self.consecutive_accurate = 0;
        }

        // Seed the new phase's counter at 0.
        let new_kind = self.phase.kind();
        self.phase_durations.seed(new_kind);
        assert(self@ =~~= old(self)@.enter(new_phase.spec_kind()));
    }

    /// Fold the accuracy of one prediction into the counters.
    fn update_accuracy(&mut self, accuracy: u64)
        requires
            old(self).accurate_predictions < usize::MAX,
            old(self).consecutive_accurate < usize::MAX,
        ensures
            final(self)@ == old(self)@.record_accuracy(accuracy),
            final(self).phase == old(self).phase,
    {
        if accuracy > self.peak_accuracy {
            self.peak_accuracy = accuracy;
        }
        if accuracy > self.config.accuracy_threshold {
            self.accurate_predictions = self.accurate_predictions + 1;
            self.consecutive_accurate = self.consecutive_accurate + 1;
        } else {
            self.consecutive_accurate = 0;
        }
        assert(self@ =~~= old(self)@.record_accuracy(accuracy));
    }

    /// Whether the room should dissolve: it has been stable and accurate for
    /// `dissolve_after_stable_ticks` consecutive ticks.
    pub fn should_dissolve(&self) -> (r: bool)
        ensures
            r == self@.should_dissolve(),
    {
        self.phase.kind() == PhaseKind::Stable && self.consecutive_accurate
            >= self.config.dissolve_after_stable_ticks
    }

    /// Extract the distilled knowledge from this room.
    pub fn distill_knowledge(&self) -> (k: RoomKnowledge)
        ensures
            k.topic_weights@ == self@.topic_weights(),
            k.peak_accuracy == self@.peak_accuracy,
            k.readings_seen == self@.readings_seen,
            k.phase_durations@ == self@.durations,
    {
        let mut topic_weights: Vec<TopicWeight> = Vec::new();
        let ghost expected = self@.topic_weights();
        if self.discovered_topics.len() == 0 {
            let n: usize = if self.readings_seen > 1 {
                self.readings_seen
            } else {
                1
            };
            let mut i: usize = 0;
            while i < n
                invariant
                    i <= n,
                    expected.len() == n,
                    expected == self@.topic_weights(),
                    self.discovered_topics@.len() == 0,
                    topic_weights@ =~= expected.take(i as int),
                decreases n - i,
            {
                topic_weights.push(TopicWeight::Unit);
                i = i + 1;
            }
        } else {
            let n = self.discovered_topics.len();
            let mut i: usize = 0;
            while i < n
                invariant
                    i <= n,
                    n == self.discovered_topics@.len(),
                    expected.len() == n,
                    expected == self@.topic_weights(),
                    topic_weights@ =~= expected.take(i as int),
                decreases n - i,
            {
                if self.readings_seen == 0 {
                    topic_weights.push(TopicWeight::Zero);
                } else {
                    topic_weights.push(TopicWeight::Harmonic(i));
                }
                i = i + 1;
            }
        }
        RoomKnowledge {
            topic_weights,
            peak_accuracy: self.peak_accuracy,
            readings_seen: self.readings_seen,
            phase_durations: self.phase_durations,
        }
    }
}

} // verus!
