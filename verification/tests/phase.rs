use room_lifecycle::{PhaseKind, RoomPhase};

#[test]
fn gestating_display() {
    assert_eq!(RoomPhase::Gestating.to_string(), "Gestating");
    assert_eq!(RoomPhase::Forming(vec![]).to_string(), "Forming()");
    assert_eq!(
        RoomPhase::Forming(vec!["a".into(), "b".into()]).to_string(),
        "Forming(a, b)"
    );
    assert_eq!(RoomPhase::Maturing.to_string(), "Maturing");
    assert_eq!(RoomPhase::Dissolved.to_string(), "Dissolved");
}

#[test]
fn display_of_every_phase() {
    assert_eq!(RoomPhase::Stable.to_string(), "Stable");
    assert_eq!(RoomPhase::Dissolving.to_string(), "Dissolving");
    assert_eq!(RoomPhase::Forming(vec!["solo".into()]).to_string(), "Forming(solo)");
}

#[test]
fn names_round_trip() {
    let all = [
        PhaseKind::Gestating,
        PhaseKind::Forming,
        PhaseKind::Maturing,
        PhaseKind::Stable,
        PhaseKind::Dissolving,
        PhaseKind::Dissolved,
    ];
    for k in all.iter() {
        assert_eq!(PhaseKind::from_name(k.name()), Some(*k));
    }
    assert_eq!(PhaseKind::from_name("Forming()"), None);
    assert_eq!(PhaseKind::from_name(""), None);
}

#[test]
fn copy_keeps_kind_and_topics() {
    let p = RoomPhase::Forming(vec!["x".into(), "y".into()]);
    assert_eq!(p.copy(), p);
    assert_eq!(p.kind(), PhaseKind::Forming);
    assert_eq!(RoomPhase::Stable.copy(), RoomPhase::Stable);
}
