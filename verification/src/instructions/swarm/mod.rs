pub mod add_member;
pub mod create;
pub mod remove_member;
