pub mod policy;
pub mod session;
