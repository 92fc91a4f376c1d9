//! The phases of a room and their names.

use vstd::prelude::*;

verus! {

/// The six phases of a room, without the data some of them carry.
#[derive(Clone, Copy, Debug, PartialEq, Eq, Structural)]
pub enum PhaseKind {
    Gestating,
    Forming,
    Maturing,
    Stable,
    Dissolving,
    Dissolved,
}

impl PhaseKind {
    /// The name under which a phase is reported.
    pub open spec fn spec_name(self) -> Seq<char> {
        match self {
            PhaseKind::Gestating => "Gestating"@,
            PhaseKind::Forming => "Forming"@,
            PhaseKind::Maturing => "Maturing"@,
            PhaseKind::Stable => "Stable"@,
            PhaseKind::Dissolving => "Dissolving"@,
            PhaseKind::Dissolved => "Dissolved"@,
        }
    }

    /// The position of a phase in the lifecycle: a room only ever moves to a
    /// phase of the same or a higher rank.
    pub open spec fn rank(self) -> nat {
        match self {
            PhaseKind::Gestating => 0,
            PhaseKind::Forming => 1,
            PhaseKind::Maturing => 2,
            PhaseKind::Stable => 3,
            PhaseKind::Dissolving => 4,
            PhaseKind::Dissolved => 5,
        }
    }

    pub fn name(&self) -> (s: &'static str)
        ensures
            s@ == self.spec_name(),
    {
        match self {
            PhaseKind::Gestating => "Gestating",
            PhaseKind::Forming => "Forming",
            PhaseKind::Maturing => "Maturing",
            PhaseKind::Stable => "Stable",
            PhaseKind::Dissolving => "Dissolving",
            PhaseKind::Dissolved => "Dissolved",
        }
    }
}

/// Lifecycle phases a room transitions through.
#[derive(Clone, Debug, PartialEq)]
pub enum RoomPhase {
    /// Room exists but has no readings yet.
    Gestating,
    /// Room is collecting its first readings, parameterized by discovered topics.
    Forming(Vec<String>),
    /// Room has enough history to make predictions.
    Maturing,
    /// Room's predictions are consistently accurate.
    Stable,
    /// Room has been perfectly adapted: it should dissolve and re-emerge differently.
    Dissolving,
    /// Room no longer exists; its knowledge is distilled into the parent.
    Dissolved,
}

/// The topics joined by `", "`.
pub open spec fn joined(topics: Seq<Seq<char>>) -> Seq<char>
    decreases topics.len(),
{
    if topics.len() == 0 {
        Seq::empty()
    } else if topics.len() == 1 {
        topics[0]
    } else {
        joined(topics.drop_last()) + ", "@ + topics.last()
    }
}

impl RoomPhase {
    pub open spec fn spec_kind(&self) -> PhaseKind {
        match self {
            RoomPhase::Gestating => PhaseKind::Gestating,
            RoomPhase::Forming(_) => PhaseKind::Forming,
            RoomPhase::Maturing => PhaseKind::Maturing,
            RoomPhase::Stable => PhaseKind::Stable,
            RoomPhase::Dissolving => PhaseKind::Dissolving,
            RoomPhase::Dissolved => PhaseKind::Dissolved,
        }
    }

    /// The topics a `Forming` phase carries; none for the other phases.
    pub open spec fn topics(&self) -> Seq<Seq<char>> {
        match self {
            RoomPhase::Forming(topics) => topics.deep_view(),
            _ => Seq::empty(),
        }
    }

    /// How a phase is written: its name, and for `Forming` its topics in
    /// brackets.
    pub open spec fn spec_display(&self) -> Seq<char> {
        match self {
            RoomPhase::Forming(_) => "Forming("@ + joined(self.topics()) + ")"@,
            _ => self.spec_kind().spec_name(),
        }
    }

    #[verifier::when_used_as_spec(spec_kind)]
    pub fn kind(&self) -> (k: PhaseKind)
        ensures
            k == self.spec_kind(),
    {
        match self {
            RoomPhase::Gestating => PhaseKind::Gestating,
            RoomPhase::Forming(_) => PhaseKind::Forming,
            RoomPhase::Maturing => PhaseKind::Maturing,
            RoomPhase::Stable => PhaseKind::Stable,
            RoomPhase::Dissolving => PhaseKind::Dissolving,
            RoomPhase::Dissolved => PhaseKind::Dissolved,
        }
    }

    /// A copy of the phase, its topics included.
    pub fn copy(&self) -> (p: RoomPhase)
        ensures
            p.spec_kind() == self.spec_kind(),
            p.topics() == self.topics(),
    {
        match self {
            RoomPhase::Gestating => RoomPhase::Gestating,
            RoomPhase::Forming(topics) => {
                let mut copied: Vec<String> = Vec::new();
                let mut i: usize = 0;
                while i < topics.len()
                    invariant
                        0 <= i <= topics.len(),
                        copied.deep_view() =~= topics.deep_view().take(i as int),
                    decreases topics.len() - i,
                {
                    let topic = topics[i].clone();
                    let ghost before = copied.deep_view();
                    copied.push(topic);
                    assert(copied.deep_view() =~= before.push(topics@[i as int]@));
                    assert(topics.deep_view().take((i + 1) as int) =~= topics.deep_view().take(
                        i as int,
                    ).push(topics@[i as int]@));
                    i = i + 1;
                }
                assert(topics.deep_view().take(topics.len() as int) =~= topics.deep_view());
                RoomPhase::Forming(copied)
            },
            RoomPhase::Maturing => RoomPhase::Maturing,
            RoomPhase::Stable => RoomPhase::Stable,
            RoomPhase::Dissolving => RoomPhase::Dissolving,
            RoomPhase::Dissolved => RoomPhase::Dissolved,
        }
    }

    /// The phase as text, as `Display` writes it.
    pub fn to_string(&self) -> (s: String)
        ensures
            s@ == self.spec_display(),
    {
        match self {
            RoomPhase::Forming(topics) => {
                let mut s = "Forming(".to_owned();
                let ghost views = topics.deep_view();
                let mut i: usize = 0;
                while i < topics.len()
                    invariant
                        0 <= i <= topics.len(),
                        views == topics.deep_view(),
                        views.len() == topics.len(),
                        s@ == "Forming("@ + joined(views.take(i as int)),
                    decreases topics.len() - i,
                {
                    if i > 0 {
                        s.append(", ");
                    }
                    s.append(topics[i].as_str());
                    assert(views.take((i + 1) as int).drop_last() =~= views.take(i as int));
                    i = i + 1;
                }
                assert(views.take(topics.len() as int) =~= views);
                s.append(")");
                s
            },
            _ => self.kind().name().to_owned(),
        }
    }
}

} // verus!
