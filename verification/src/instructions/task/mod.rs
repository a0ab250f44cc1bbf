pub mod accept;
pub mod approve;
pub mod complete;
pub mod create;
pub mod fail;
pub mod verify;
