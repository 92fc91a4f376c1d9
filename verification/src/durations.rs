//! How many ticks a room spent in each phase it has been in.

use vstd::prelude::*;

use crate::phase::PhaseKind;

verus! {

/// The phase whose name is `name`, if there is one.
pub open spec fn phase_named(name: Seq<char>) -> Option<PhaseKind> {
    if name == PhaseKind::Gestating.spec_name() {
        Some(PhaseKind::Gestating)
    } else if name == PhaseKind::Forming.spec_name() {
        Some(PhaseKind::Forming)
    } else if name == PhaseKind::Maturing.spec_name() {
        Some(PhaseKind::Maturing)
    } else if name == PhaseKind::Stable.spec_name() {
        Some(PhaseKind::Stable)
    } else if name == PhaseKind::Dissolving.spec_name() {
        Some(PhaseKind::Dissolving)
    } else if name == PhaseKind::Dissolved.spec_name() {
        Some(PhaseKind::Dissolved)
    } else {
        None
    }
}

impl PhaseKind {
    /// The phase named `name`, if any.
    pub fn from_name(name: &str) -> (k: Option<PhaseKind>)
        ensures
            k == phase_named(name@),
    {
        let name = name.to_owned();
        if name == PhaseKind::Gestating.name().to_owned() {
            Some(PhaseKind::Gestating)
        } else if name == PhaseKind::Forming.name().to_owned() {
            Some(PhaseKind::Forming)
        } else if name == PhaseKind::Maturing.name().to_owned() {
            Some(PhaseKind::Maturing)
        } else if name == PhaseKind::Stable.name().to_owned() {
            Some(PhaseKind::Stable)
        } else if name == PhaseKind::Dissolving.name().to_owned() {
            Some(PhaseKind::Dissolving)
        } else if name == PhaseKind::Dissolved.name().to_owned() {
            Some(PhaseKind::Dissolved)
        } else {
            None
        }
    }
}

/// Ticks recorded per phase. A phase has an entry once the room has entered
/// it; the entry is the number of ticks spent there, written when the room
/// left it (0 while the room is still in it).
#[derive(Clone, Copy, Debug, PartialEq, Eq, Structural)]
pub struct PhaseDurations {
    gestating: Option<usize>,
    forming: Option<usize>,
    maturing: Option<usize>,
    stable: Option<usize>,
    dissolving: Option<usize>,
    dissolved: Option<usize>,
}

impl PhaseDurations {
    closed spec fn slot(self, k: PhaseKind) -> Option<usize> {
        match k {
            PhaseKind::Gestating => self.gestating,
            PhaseKind::Forming => self.forming,
            PhaseKind::Maturing => self.maturing,
            PhaseKind::Stable => self.stable,
            PhaseKind::Dissolving => self.dissolving,
            PhaseKind::Dissolved => self.dissolved,
        }
    }

    /// No phase recorded.
    pub fn empty() -> (d: PhaseDurations)
        ensures
            d@ == Map::<PhaseKind, nat>::empty(),
    {
        let d = PhaseDurations {
            gestating: None,
            forming: None,
            maturing: None,
            stable: None,
            dissolving: None,
            dissolved: None,
        };
        assert(d@ =~= Map::<PhaseKind, nat>::empty());
        d
    }

    /// The ticks recorded for `k`, if it has an entry.
    pub fn get(&self, k: PhaseKind) -> (r: Option<usize>)
        ensures
            r matches Some(v) ==> self@.contains_key(k) && self@[k] == v,
            r is None ==> !self@.contains_key(k),
    {
        match k {
            PhaseKind::Gestating => self.gestating,
            PhaseKind::Forming => self.forming,
            PhaseKind::Maturing => self.maturing,
            PhaseKind::Stable => self.stable,
            PhaseKind::Dissolving => self.dissolving,
            PhaseKind::Dissolved => self.dissolved,
        }
    }

    /// Record `ticks` for `k`, replacing what was there.
    pub fn set(&mut self, k: PhaseKind, ticks: usize)
        ensures
            final(self)@ == old(self)@.insert(k, ticks as nat),
    {
        match k {
            PhaseKind::Gestating => self.gestating = Some(ticks),
            PhaseKind::Forming => self.forming = Some(ticks),
            PhaseKind::Maturing => self.maturing = Some(ticks),
            PhaseKind::Stable => self.stable = Some(ticks),
            PhaseKind::Dissolving => self.dissolving = Some(ticks),
            PhaseKind::Dissolved => self.dissolved = Some(ticks),
        }
        assert(final(self)@ =~= old(self)@.insert(k, ticks as nat));
    }

    /// Give `k` an entry of 0 ticks unless it has one.
    pub fn seed(&mut self, k: PhaseKind)
        ensures
            final(self)@ == (if old(self)@.contains_key(k) {
                old(self)@
            } else {
                old(self)@.insert(k, 0)
            }),
    {
        if self.get(k).is_none() {
            self.set(k, 0);
        }
    }

    /// The phases with an entry and their ticks, in lifecycle order.
    pub fn entries(&self) -> (r: Vec<(PhaseKind, usize)>)
        ensures
            forall|i: int|
                0 <= i < r@.len() ==> self@.contains_key(#[trigger] r@[i].0) && self@[r@[i].0]
                    == r@[i].1,
            forall|k: PhaseKind|
                self@.contains_key(k) ==> exists|i: int| 0 <= i < r@.len() && #[trigger] r@[i].0 == k,
            forall|i: int, j: int|
                0 <= i < j < r@.len() ==> (#[trigger] r@[i]).0.rank() < (#[trigger] r@[j]).0.rank(),
    {
        let mut r: Vec<(PhaseKind, usize)> = Vec::new();
        let kinds = [
            PhaseKind::Gestating,
            PhaseKind::Forming,
            PhaseKind::Maturing,
            PhaseKind::Stable,
            PhaseKind::Dissolving,
            PhaseKind::Dissolved,
        ];
        let mut n: usize = 0;
        while n < 6
            invariant
                n <= 6,
                forall|m: int| 0 <= m < 6 ==> (#[trigger] kinds@[m]).rank() == m,
                forall|i: int|
                    0 <= i < r@.len() ==> self@.contains_key(#[trigger] r@[i].0) && self@[r@[i].0]
                        == r@[i].1 && r@[i].0.rank() < n,
                forall|k: PhaseKind|
                    self@.contains_key(k) && k.rank() < n ==> exists|i: int|
                        0 <= i < r@.len() && #[trigger] r@[i].0 == k,
                forall|i: int, j: int|
                    0 <= i < j < r@.len() ==> (#[trigger] r@[i]).0.rank() < (#[trigger] r@[j]).0.rank(),
            decreases 6 - n,
        {
            let k = kinds[n];
            let ghost before = r@;
            if let Some(ticks) = self.get(k) {
                r.push((k, ticks));
                assert(r@[r@.len() - 1].0 == k);
            }
            assert forall|k2: PhaseKind| self@.contains_key(k2) && k2.rank() < n + 1 implies exists|i: int|
                0 <= i < r@.len() && #[trigger] r@[i].0 == k2 by {
                if k2.rank() == n {
                    assert(kinds@[n as int].rank() == n);
                    assert(k2 == k);
                    assert(r@[r@.len() - 1].0 == k2);
                } else {
                    let i = choose|i: int| 0 <= i < before.len() && #[trigger] before[i].0 == k2;
                    assert(r@[i] == before[i]);
                }
            }
            n = n + 1;
        }
        r
    }

    /// Whether the phase named `name` has an entry.
    pub fn contains_key(&self, name: &str) -> (r: bool)
        ensures
            r == (phase_named(name@) matches Some(k) && self@.contains_key(k)),
    {
        match PhaseKind::from_name(name) {
            Some(k) => self.get(k).is_some(),
            None => false,
        }
    }

    /// The ticks recorded for the phase named `name`, if it has an entry.
    pub fn get_by_name(&self, name: &str) -> (r: Option<usize>)
        ensures
            r matches Some(v) ==> (phase_named(name@) matches Some(k) && self@.contains_key(k)
                && self@[k] == v),
            r is None ==> !(phase_named(name@) matches Some(k) && self@.contains_key(k)),
    {
        match PhaseKind::from_name(name) {
            Some(k) => self.get(k),
            None => None,
        }
    }
}

impl View for PhaseDurations {
    type V = Map<PhaseKind, nat>;

    /// The recorded ticks, by phase.
    closed spec fn view(&self) -> Map<PhaseKind, nat> {
        Map::new(|k: PhaseKind| self.slot(k) is Some, |k: PhaseKind| self.slot(k)->0 as nat)
    }
}

} // verus!
