use vrc_gamelog::world_instance::{WorldInstance, WorldInstanceParseError};
use vrc_gamelog::world_regions::Regions;

#[test]
fn test_parse_world_instance() {
    let world_instance_str = "world_id:instance_id~region(EU)";
    let expected_world_instance = WorldInstance {
        world_id: "world_id".to_string(),
        instance_id: "instance_id".to_string(),
        nonce: None,
        hidden: None,
        private: None,
        region: Some(Regions::Europe),
        friends: None,
        group: None,
    };
    let actual_world_instance = WorldInstance::from_str(world_instance_str).unwrap();
    assert_eq!(actual_world_instance, expected_world_instance);
}

#[test]
fn test_parse_world_instance_invalid_format() {
    let world_instance_str = "invalid_format";
    let actual_result = WorldInstance::from_str(world_instance_str);
    assert!(actual_result.is_err());
    assert_eq!(
        actual_result.unwrap_err(),
        WorldInstanceParseError::InvalidFormat
    );
}

#[test]
fn test_parse_world_instance_invalid_world_id() {
    let world_instance_str = ":instance_id~region(EU)";
    let actual_result = WorldInstance::from_str(world_instance_str);
    assert!(actual_result.is_err());
    assert_eq!(
        actual_result.unwrap_err(),
        WorldInstanceParseError::InvalidWorldId
    );
}

#[test]
fn test_parse_world_instance_invalid_instance_id() {
    let world_instance_str = "world_id:~region(EU)";
    let actual_result = WorldInstance::from_str(world_instance_str);
    assert!(actual_result.is_err());
    assert_eq!(
        actual_result.unwrap_err(),
        WorldInstanceParseError::InvalidInstanceId
    );
}

#[test]
#[should_panic]
fn test_parse_world_instance_unknown_key() {
    let world_instance_str = "world_id:instance_id~unknown_key(value)";
    let actual_result = WorldInstance::from_str(world_instance_str);
    assert!(actual_result.is_err());
    assert_eq!(actual_result.unwrap_err(), WorldInstanceParseError::Other);
}

#[test]
fn test_from_str_for_world_instance_empty_input() {
    let world_instance_str = "";
    let actual_result = WorldInstance::from_str(world_instance_str);
    assert!(actual_result.is_err());
    assert_eq!(actual_result.unwrap_err(), WorldInstanceParseError::Empty);
}

#[test]
fn test_from_str_for_world_instance_from_string() {
    let world_instance_str = "world_id:instance_id~region(US)";
    let expected_world_instance = WorldInstance {
        world_id: "world_id".to_string(),
        instance_id: "instance_id".to_string(),
        nonce: None,
        hidden: None,
        private: None,
        region: Some(Regions::US),
        friends: None,
        group: None,
    };
    let actual_world_instance = WorldInstance::from(world_instance_str.to_string().as_str());
    assert_eq!(actual_world_instance, expected_world_instance);
}

#[test]
fn test_from_str_for_world_instance_from_str() {
    let world_instance_str = "world_id:instance_id~region(US)";
    let expected_world_instance = WorldInstance {
        world_id: "world_id".to_string(),
        instance_id: "instance_id".to_string(),
        nonce: None,
        hidden: None,
        private: None,
        region: Some(Regions::US),
        friends: None,
        group: None,
    };
    let actual_world_instance = WorldInstance::from(world_instance_str);
    assert_eq!(actual_world_instance, expected_world_instance);
}

#[test]
fn test_parse_plain_identifier_has_no_modifiers() {
    let parsed = WorldInstance::from_str("wrld_1234:1234").unwrap();
    assert_eq!(parsed.world_id, "wrld_1234".to_string());
    assert_eq!(parsed.instance_id, "1234".to_string());
    assert_eq!(parsed.nonce, None);
    assert_eq!(parsed.hidden, None);
    assert_eq!(parsed.private, None);
    assert_eq!(parsed.region, None);
    assert_eq!(parsed.friends, None);
    assert_eq!(parsed.group, None);
}

#[test]
fn test_parse_error_taxonomy() {
    assert_eq!(
        WorldInstance::from_str("").unwrap_err(),
        WorldInstanceParseError::Empty
    );
    assert_eq!(
        WorldInstance::from_str("noseparator").unwrap_err(),
        WorldInstanceParseError::InvalidFormat
    );
    assert_eq!(
        WorldInstance::from_str(":inst").unwrap_err(),
        WorldInstanceParseError::InvalidWorldId
    );
    assert_eq!(
        WorldInstance::from_str("world:").unwrap_err(),
        WorldInstanceParseError::InvalidInstanceId
    );
}

#[test]
fn test_parse_unknown_modifier_key_is_fatal() {
    let actual_result = WorldInstance::from_str("world_id:instance_id~unknown_key(value)");
    assert_eq!(
        actual_result.unwrap_err(),
        WorldInstanceParseError::InvalidOptionalField
    );
}

#[test]
fn test_parse_private_modifier_round_trip() {
    let parsed = WorldInstance::from_str("wrld_1234:1234~private(usr_1234)").unwrap();
    assert_eq!(parsed.world_id, "wrld_1234".to_string());
    assert_eq!(parsed.instance_id, "1234".to_string());
    assert_eq!(parsed.private, Some("usr_1234".to_string()));
    assert_eq!(parsed.region, None);
    assert_eq!(parsed.nonce, None);
    assert_eq!(parsed.hidden, None);
    assert_eq!(parsed.friends, None);
    assert_eq!(parsed.group, None);
}

#[test]
fn test_parse_region_modifier_uses_normalizer() {
    let parsed = WorldInstance::from_str("w:i~region(us_e)").unwrap();
    assert_eq!(parsed.region, Some(Regions::USEast));
    let parsed = WorldInstance::from_str("w:i~region(JAPAN)").unwrap();
    assert_eq!(parsed.region, Some(Regions::Japan));
    let parsed = WorldInstance::from_str("w:i~region(mars)").unwrap();
    assert_eq!(parsed.region, Some(Regions::Other));
}

#[test]
fn test_parse_several_modifiers_in_any_order() {
    let parsed =
        WorldInstance::from_str("w:i~group(grp_1)~region(eu)~nonce(abc)~friends(f)~hidden(h)")
            .unwrap();
    assert_eq!(parsed.group, Some("grp_1".to_string()));
    assert_eq!(parsed.region, Some(Regions::Europe));
    assert_eq!(parsed.nonce, Some("abc".to_string()));
    assert_eq!(parsed.friends, Some("f".to_string()));
    assert_eq!(parsed.hidden, Some("h".to_string()));
    assert_eq!(parsed.private, None);
}

#[test]
fn test_parse_bare_modifier_without_payload_is_ignored() {
    let parsed = WorldInstance::from_str("w:i~hidden").unwrap();
    assert_eq!(parsed.hidden, None);
    assert_eq!(parsed.world_id, "w".to_string());
    assert_eq!(parsed.instance_id, "i".to_string());
}

#[test]
fn test_parse_payload_stops_at_first_parenthesis() {
    // the payload runs to the next parenthesis of either kind
    let parsed = WorldInstance::from_str("w:i~nonce(a(b)").unwrap();
    assert_eq!(parsed.nonce, Some("a".to_string()));
    let parsed = WorldInstance::from_str("w:i~nonce(a)b)").unwrap();
    assert_eq!(parsed.nonce, Some("a".to_string()));
    let parsed = WorldInstance::from_str("w:i~nonce()").unwrap();
    assert_eq!(parsed.nonce, Some("".to_string()));
}

#[test]
fn test_parse_later_modifier_wins() {
    let parsed = WorldInstance::from_str("w:i~nonce(a)~nonce(b)").unwrap();
    assert_eq!(parsed.nonce, Some("b".to_string()));
}

#[test]
fn test_parse_two_separators_is_invalid_format() {
    assert_eq!(
        WorldInstance::from_str("a:b:c").unwrap_err(),
        WorldInstanceParseError::InvalidFormat
    );
}

#[test]
fn test_new_world_instance_is_default() {
    let world_instance = WorldInstance::new();
    assert_eq!(world_instance, WorldInstance::default());
    assert_eq!(world_instance.world_id, "".to_string());
    assert_eq!(world_instance.instance_id, "".to_string());
}
