//! Normalization layer for semi-structured game-log records of a VR
//! social-platform client: a compact-string parser for world-instance
//! identifiers, lenient categorical-value normalizers, and row-to-model
//! converters that turn raw persisted rows into validated domain records.
pub mod app_config;
pub mod convert;
pub mod gamelog_join_leave;
pub mod gamelog_location;
pub mod join_leave_event;
pub mod normalize;
pub mod rows;
pub mod text;
pub mod timestamp;
pub mod trust_level;
pub mod usr_friend_log_current;
pub mod world_instance;
pub mod world_regions;
