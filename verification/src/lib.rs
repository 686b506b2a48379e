//! Credential issuance and role-based permission resolution: signed access
//! and refresh tokens carrying a role claim, bearer-header extraction with a
//! fixed guest identity for absent credentials, permission lookup against a
//! role-policy rule set, and a closed failure taxonomy with one boundary
//! outcome per kind.

pub mod error;
pub mod handler;
pub mod model;
pub mod service;
pub mod strutil;
pub mod types;
