pub mod deposit;
pub mod settle;
