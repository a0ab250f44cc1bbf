pub mod register;
pub mod update;
