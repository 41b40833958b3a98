use vrc_gamelog::join_leave_event::JoinLeaveEvent;
use vrc_gamelog::trust_level::TrustLevel;
use vrc_gamelog::world_regions::Regions;

#[test]
fn test_region_synonyms_map_to_one_variant() {
    assert_eq!(Regions::normalize("uswest").unwrap(), Regions::USWest);
    assert_eq!(Regions::normalize("usw").unwrap(), Regions::USWest);
    assert_eq!(Regions::normalize("us w").unwrap(), Regions::USWest);
    assert_eq!(Regions::normalize("us_w").unwrap(), Regions::USWest);
    assert_eq!(Regions::normalize("uw").unwrap(), Regions::USWest);
    assert_eq!(Regions::normalize("us").unwrap(), Regions::US);
    assert_eq!(Regions::normalize("useast").unwrap(), Regions::USEast);
    assert_eq!(Regions::normalize("use").unwrap(), Regions::USEast);
    assert_eq!(Regions::normalize("us e").unwrap(), Regions::USEast);
    assert_eq!(Regions::normalize("us_e").unwrap(), Regions::USEast);
    assert_eq!(Regions::normalize("ue").unwrap(), Regions::USEast);
    assert_eq!(Regions::normalize("europe").unwrap(), Regions::Europe);
    assert_eq!(Regions::normalize("eu").unwrap(), Regions::Europe);
    assert_eq!(Regions::normalize("japan").unwrap(), Regions::Japan);
    assert_eq!(Regions::normalize("jp").unwrap(), Regions::Japan);
}

#[test]
fn test_region_normalize_is_case_insensitive() {
    assert_eq!(Regions::normalize("USWEST").unwrap(), Regions::USWest);
    assert_eq!(Regions::normalize("UsWeSt").unwrap(), Regions::USWest);
    assert_eq!(Regions::normalize("EU").unwrap(), Regions::Europe);
    assert_eq!(Regions::normalize("Japan").unwrap(), Regions::Japan);
}

#[test]
fn test_region_unrecognized_token_reported() {
    let err = Regions::normalize("mars").unwrap_err();
    assert_eq!(err.token, "mars".to_string());
    assert_eq!(Regions::normalize_or_other("mars"), Regions::Other);
    assert_eq!(Regions::default(), Regions::Other);
}

#[test]
fn test_region_normalize_is_idempotent() {
    let variants = vec![
        Regions::Other,
        Regions::USWest,
        Regions::US,
        Regions::USEast,
        Regions::Europe,
        Regions::Japan,
    ];
    for v in variants {
        let canonical = v.as_token();
        assert_eq!(Regions::normalize_or_other(canonical.as_str()), v);
    }
}

#[test]
fn test_trust_level_normalize() {
    assert_eq!(TrustLevel::normalize("user").unwrap(), TrustLevel::User);
    assert_eq!(TrustLevel::normalize("User").unwrap(), TrustLevel::User);
    assert_eq!(TrustLevel::normalize("USER").unwrap(), TrustLevel::User);
    assert_eq!(
        TrustLevel::normalize("known user").unwrap(),
        TrustLevel::KnownUser
    );
    assert_eq!(
        TrustLevel::normalize("known_user").unwrap(),
        TrustLevel::KnownUser
    );
    assert_eq!(
        TrustLevel::normalize("Trusted User").unwrap(),
        TrustLevel::TrustedUser
    );
    assert_eq!(
        TrustLevel::normalize("VRChat Team").unwrap(),
        TrustLevel::VRChatTeam
    );
    assert_eq!(
        TrustLevel::normalize("nuisance").unwrap(),
        TrustLevel::Nuisance
    );
    assert_eq!(
        TrustLevel::normalize("visitor").unwrap(),
        TrustLevel::Visitor
    );
    assert_eq!(
        TrustLevel::normalize("New User").unwrap(),
        TrustLevel::NewUser
    );
}

#[test]
fn test_trust_level_unrecognized_token_reported() {
    let err = TrustLevel::normalize("overlord").unwrap_err();
    assert_eq!(err.token, "overlord".to_string());
    assert_eq!(TrustLevel::default(), TrustLevel::Unknown);
}

#[test]
fn test_trust_level_normalize_is_idempotent() {
    let variants = vec![
        TrustLevel::Visitor,
        TrustLevel::NewUser,
        TrustLevel::User,
        TrustLevel::KnownUser,
        TrustLevel::TrustedUser,
        TrustLevel::VRChatTeam,
        TrustLevel::Nuisance,
    ];
    for v in variants {
        let canonical = v.as_token();
        assert_eq!(TrustLevel::normalize(canonical.as_str()).unwrap(), v);
    }
}

#[test]
fn test_event_normalize() {
    assert_eq!(
        JoinLeaveEvent::normalize("OnPlayerJoined").unwrap(),
        JoinLeaveEvent::Join
    );
    assert_eq!(
        JoinLeaveEvent::normalize("OnPlayerLeft").unwrap(),
        JoinLeaveEvent::Leave
    );
    assert_eq!(
        JoinLeaveEvent::normalize("join").unwrap(),
        JoinLeaveEvent::Join
    );
    assert_eq!(
        JoinLeaveEvent::normalize("joins").unwrap(),
        JoinLeaveEvent::Join
    );
    assert_eq!(
        JoinLeaveEvent::normalize("joined").unwrap(),
        JoinLeaveEvent::Join
    );
    assert_eq!(
        JoinLeaveEvent::normalize("leave").unwrap(),
        JoinLeaveEvent::Leave
    );
    assert_eq!(
        JoinLeaveEvent::normalize("leaves").unwrap(),
        JoinLeaveEvent::Leave
    );
    assert_eq!(
        JoinLeaveEvent::normalize("LEFT").unwrap(),
        JoinLeaveEvent::Leave
    );
}

#[test]
fn test_event_unrecognized_token_reported() {
    let err = JoinLeaveEvent::normalize("teleported").unwrap_err();
    assert_eq!(err.token, "teleported".to_string());
    assert_eq!(JoinLeaveEvent::default(), JoinLeaveEvent::Other);
}

#[test]
fn test_event_normalize_is_idempotent() {
    let variants = vec![JoinLeaveEvent::Join, JoinLeaveEvent::Leave];
    for v in variants {
        let canonical = v.as_token();
        assert_eq!(JoinLeaveEvent::normalize(canonical.as_str()).unwrap(), v);
    }
}
