pub mod account;
pub mod simple_user;
