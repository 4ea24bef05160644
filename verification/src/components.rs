//! The widgets of the console, each one a state machine of its own.
pub mod add_group_member;
pub mod add_user_to_group;
pub mod group_table;
pub mod select;
pub mod user_table;
