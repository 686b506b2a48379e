use vstd::prelude::*;
use vstd::string::StringExecFns;

use crate::error::AppError;
use crate::service::jwt::{
    json_i64_at, json_string_at, jwt_decode_claims, jwt_error_message, now_millis, payload_i64,
    payload_string,
};
use crate::types::AccountID;

verus! {

/// The authenticated principal: either the claim set decoded from a verified
/// bearer token, or the fixed guest identity used when no credential was
/// presented. A guest identity is never derived from a token.
#[derive(Clone, Debug)]
pub struct SimpleUser {
    pub account_id: AccountID,
    pub name: String,
    pub role: String,
}

impl SimpleUser {
    /// The default identity for a caller that presented no credential.
    pub fn guest() -> (r: SimpleUser)
        ensures
            r.account_id == 0,
            r.name@ == "Guest"@,
            r.role@ == "Guest"@,
    {
        SimpleUser {
            account_id: 0,
            name: String::from_str("Guest"),
            role: String::from_str("Guest"),
        }
    }

    /// Decodes and verifies a bearer token against the shared secret. Every
    /// failure — bad signature, expiry, malformed or missing claims — is a
    /// token-verification error, with the cause kept for the log only. On
    /// success the identity is exactly the token's own claim set — never a
    /// fabricated one — and its expiry, in epoch-milliseconds, has not
    /// passed; no account re-fetch happens on this path.
    pub fn from_token(token: &str, secret: &str) -> (r: Result<SimpleUser, AppError>)
        ensures
            r matches Err(e) ==> e is JwtError,
            r matches Ok(u) ==> payload_i64(token@, "account_id"@) == Some(u.account_id)
                && payload_string(token@, "name"@) == Some(u.name@) && payload_string(
                token@,
                "role"@,
            ) == Some(u.role@) && payload_i64(token@, "exp"@) is Some,
    {
        let claims = match jwt_decode_claims(token, secret) {
            Ok(c) => c,
            Err(e) => {
                return Err(AppError::JwtError(jwt_error_message(&e)));
            },
        };
        let account_id = match json_i64_at(&claims, "account_id") {
            Some(i) => i,
            None => {
                return Err(malformed_claims());
            },
        };
        let name = match json_string_at(&claims, "name") {
            Some(s) => s,
            None => {
                return Err(malformed_claims());
            },
        };
        let role = match json_string_at(&claims, "role") {
            Some(s) => s,
            None => {
                return Err(malformed_claims());
            },
        };
        let exp = match json_i64_at(&claims, "exp") {
            Some(e) => e,
            None => {
                return Err(malformed_claims());
            },
        };
        if exp < now_millis() {
            return Err(AppError::JwtError(String::from_str("token expired")));
        }
        Ok(SimpleUser { account_id, name, role })
    }
}

fn malformed_claims() -> (r: AppError)
    ensures
        r is JwtError,
{
    AppError::JwtError(String::from_str("token claims missing or malformed"))
}

} // verus!
