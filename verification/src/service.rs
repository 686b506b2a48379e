pub mod account;
pub mod casbin;
pub mod jwt;
pub mod token;
