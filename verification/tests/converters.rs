use vrc_gamelog::convert::{ConversionError, MalformedLocationPolicy};
use vrc_gamelog::gamelog_join_leave::{convert_join_leave_rows, GamelogJoinLeave};
use vrc_gamelog::gamelog_location::{convert_location_rows, GamelogLocation};
use vrc_gamelog::join_leave_event::JoinLeaveEvent;
use vrc_gamelog::rows::{GamelogJoinLeaveRow, GamelogLocationRow, UsrFriendLogCurrentRow};
use vrc_gamelog::timestamp::Timestamp;
use vrc_gamelog::trust_level::TrustLevel;
use vrc_gamelog::usr_friend_log_current::{convert_friend_rows, UsrFriendLogCurrent};
use vrc_gamelog::world_instance::WorldInstanceParseError;

fn sample_time() -> Timestamp {
    Timestamp {
        unix_seconds: 1_700_000_000,
        subsec_nanos: 250,
    }
}

fn join_leave_row(event: &str, location: &str, time: i64) -> GamelogJoinLeaveRow {
    GamelogJoinLeaveRow {
        id: 1,
        created_at: sample_time(),
        event: event.to_string(),
        display_name: "test".to_string(),
        location: location.to_string(),
        user_id: "usr_1234".to_string(),
        time,
    }
}

fn location_row(location: &str, world_name: &str, time: i64) -> GamelogLocationRow {
    GamelogLocationRow {
        id: 7,
        created_at: sample_time(),
        location: location.to_string(),
        world_id: "wrld_1234".to_string(),
        world_name: world_name.to_string(),
        time,
        group_name: "test".to_string(),
    }
}

#[test]
fn test_join_leave_row_converts() {
    let rec = GamelogJoinLeave::from_row(join_leave_row("join", "wrld_1234:1234", 1234)).unwrap();
    assert_eq!(rec.id, 1);
    assert_eq!(rec.created_at, sample_time());
    assert_eq!(rec.event, JoinLeaveEvent::Join);
    assert_eq!(rec.display_name, "test".to_string());
    let loc = rec.location.unwrap();
    assert_eq!(loc.world_id, "wrld_1234".to_string());
    assert_eq!(loc.instance_id, "1234".to_string());
    assert_eq!(rec.user_id, Some("usr_1234".to_string()));
    assert_eq!(rec.time, Some(1234));
}

#[test]
fn test_join_leave_time_sentinel() {
    let rec = GamelogJoinLeave::from_row(join_leave_row("join", "w:i", 0)).unwrap();
    assert_eq!(rec.time, None);
    let rec = GamelogJoinLeave::from_row(join_leave_row("join", "w:i", -12)).unwrap();
    assert_eq!(rec.time, None);
    let rec = GamelogJoinLeave::from_row(join_leave_row("join", "w:i", 1234)).unwrap();
    assert_eq!(rec.time, Some(1234));
}

#[test]
fn test_join_leave_empty_sentinels() {
    let mut row = join_leave_row("leave", "", 5);
    row.user_id = "".to_string();
    let rec = GamelogJoinLeave::from_row(row).unwrap();
    assert_eq!(rec.location, None);
    assert_eq!(rec.user_id, None);
}

#[test]
fn test_join_leave_malformed_location_is_fatal() {
    let err = GamelogJoinLeave::from_row(join_leave_row("join", "garbage", 1)).unwrap_err();
    assert_eq!(
        err,
        ConversionError::MalformedLocation {
            row_id: 1,
            cause: WorldInstanceParseError::InvalidFormat
        }
    );
}

#[test]
fn test_join_leave_unrecognized_event_is_fatal() {
    let err = GamelogJoinLeave::from_row(join_leave_row("teleported", "w:i", 1)).unwrap_err();
    assert_eq!(
        err,
        ConversionError::UnrecognizedEvent {
            row_id: 1,
            token: "teleported".to_string()
        }
    );
}

#[test]
fn test_join_leave_policy_flag_overrides_default() {
    let rec = GamelogJoinLeave::from_row_with(
        join_leave_row("join", "garbage", 1),
        MalformedLocationPolicy::Absent,
    )
    .unwrap();
    assert_eq!(rec.location, None);
}

#[test]
fn test_location_row_converts() {
    let rec = GamelogLocation::from_row(location_row("wrld_1234:1234", "test", 1234)).unwrap();
    assert_eq!(rec.id, 7);
    assert_eq!(rec.created_at, sample_time());
    let inst = rec.world_instance.unwrap();
    assert_eq!(inst.world_id, "wrld_1234".to_string());
    assert_eq!(inst.instance_id, "1234".to_string());
    assert_eq!(rec.world_name, "test".to_string());
    assert_eq!(rec.time, Some(1234));
    assert_eq!(rec.group_name, Some("test".to_string()));
}

#[test]
fn test_location_malformed_location_is_tolerated() {
    let rec = GamelogLocation::from_row(location_row("garbage", "test", 1)).unwrap();
    assert_eq!(rec.world_instance, None);
    assert_eq!(rec.world_name, "test".to_string());
}

#[test]
fn test_location_policy_flag_overrides_default() {
    let err = GamelogLocation::from_row_with(
        location_row("garbage", "test", 1),
        MalformedLocationPolicy::Fatal,
    )
    .unwrap_err();
    assert_eq!(
        err,
        ConversionError::MalformedLocation {
            row_id: 7,
            cause: WorldInstanceParseError::InvalidFormat
        }
    );
}

#[test]
fn test_location_world_name_is_trimmed() {
    let rec = GamelogLocation::from_row(location_row("w:i", "  spaced name \t", 1)).unwrap();
    assert_eq!(rec.world_name, "spaced name".to_string());
}

#[test]
fn test_location_sentinels() {
    let mut row = location_row("", "test", 0);
    row.group_name = "".to_string();
    let rec = GamelogLocation::from_row(row).unwrap();
    assert_eq!(rec.world_instance, None);
    assert_eq!(rec.time, None);
    assert_eq!(rec.group_name, None);
}

#[test]
fn test_friend_row_converts() {
    let row = UsrFriendLogCurrentRow {
        user_id: "usr_12345678-1234-1234-1234-123456789abc".to_string(),
        display_name: "Some User".to_string(),
        trust_level: "User".to_string(),
    };
    let rec = UsrFriendLogCurrent::from_row(row).unwrap();
    assert_eq!(
        rec.user_id,
        "usr_12345678-1234-1234-1234-123456789abc".to_string()
    );
    assert_eq!(rec.display_name, "Some User".to_string());
    assert_eq!(rec.trust_level, TrustLevel::User);
}

#[test]
fn test_friend_unrecognized_trust_is_fatal() {
    let row = UsrFriendLogCurrentRow {
        user_id: "usr_1".to_string(),
        display_name: "Some User".to_string(),
        trust_level: "overlord".to_string(),
    };
    let err = UsrFriendLogCurrent::from_row(row).unwrap_err();
    assert_eq!(
        err,
        ConversionError::UnrecognizedTrust {
            user_id: "usr_1".to_string(),
            token: "overlord".to_string()
        }
    );
}

#[test]
fn test_batch_reports_per_row_failures_and_continues() {
    let rows = vec![
        join_leave_row("join", "w:1", 1),
        join_leave_row("explode", "w:2", 2),
        join_leave_row("leave", "w:3", 3),
    ];
    let (recs, errs) = convert_join_leave_rows(rows, MalformedLocationPolicy::Fatal);
    assert_eq!(recs.len(), 2);
    assert_eq!(recs[0].event, JoinLeaveEvent::Join);
    assert_eq!(recs[0].location.as_ref().unwrap().instance_id, "1".to_string());
    assert_eq!(recs[1].event, JoinLeaveEvent::Leave);
    assert_eq!(recs[1].location.as_ref().unwrap().instance_id, "3".to_string());
    assert_eq!(errs.len(), 1);
    assert_eq!(
        errs[0],
        ConversionError::UnrecognizedEvent {
            row_id: 1,
            token: "explode".to_string()
        }
    );
}

#[test]
fn test_batch_location_rows() {
    let rows = vec![
        location_row("w:1", "a", 1),
        location_row("garbage", "b", 2),
    ];
    let (recs, errs) = convert_location_rows(rows, MalformedLocationPolicy::Absent);
    assert_eq!(recs.len(), 2);
    assert_eq!(errs.len(), 0);
    assert!(recs[0].world_instance.is_some());
    assert!(recs[1].world_instance.is_none());
}

#[test]
fn test_batch_friend_rows() {
    let good = UsrFriendLogCurrentRow {
        user_id: "usr_1".to_string(),
        display_name: "a".to_string(),
        trust_level: "visitor".to_string(),
    };
    let bad = UsrFriendLogCurrentRow {
        user_id: "usr_2".to_string(),
        display_name: "b".to_string(),
        trust_level: "boss".to_string(),
    };
    let (recs, errs) = convert_friend_rows(vec![good, bad]);
    assert_eq!(recs.len(), 1);
    assert_eq!(recs[0].trust_level, TrustLevel::Visitor);
    assert_eq!(errs.len(), 1);
    assert_eq!(
        errs[0],
        ConversionError::UnrecognizedTrust {
            user_id: "usr_2".to_string(),
            token: "boss".to_string()
        }
    );
}

#[test]
fn test_location_row_round_trip_with_private_modifier() {
    let rec =
        GamelogLocation::from_row(location_row("wrld_1234:1234~private(usr_1234)", "w", 1))
            .unwrap();
    let descriptor = rec.world_instance.unwrap();
    assert_eq!(descriptor.world_id, "wrld_1234".to_string());
    assert_eq!(descriptor.instance_id, "1234".to_string());
    assert_eq!(descriptor.private, Some("usr_1234".to_string()));
    assert_eq!(descriptor.region, None);
}

#[test]
fn test_new_records_are_default() {
    assert_eq!(GamelogJoinLeave::new(), GamelogJoinLeave::default());
    assert_eq!(GamelogLocation::new(), GamelogLocation::default());
    assert_eq!(UsrFriendLogCurrent::new(), UsrFriendLogCurrent::default());
    assert_eq!(Timestamp::epoch(), Timestamp::default());
    let rec = UsrFriendLogCurrent::new();
    assert_eq!(rec.trust_level, TrustLevel::Unknown);
}
