use vstd::prelude::*;
use vstd::string::StringExecFns;

use crate::error::{AppError, FatalError};
use crate::model::account::Account;
use crate::service::jwt::{
    access_jwt, jwt_encode_access, jwt_encode_refresh, jwt_error_message, now_millis, payload_i64,
    payload_string, refresh_jwt,
};
use crate::strutil::count_char;
use crate::types::{spec_role_str, Role};

verus! {

/// Issues signed access and refresh tokens. The shared signing secret and the
/// two lifetimes are fixed at construction and never rotated at runtime.
#[derive(Clone, Debug)]
pub struct TokenService {
    pub secret: String,
    pub access_token_lifetime_ms: i64,
    pub refresh_token_lifetime_ms: i64,
}

impl TokenService {
    /// Builds and signs the access claim set for this account and role, as of
    /// the given instant: the claims are exactly the account's id and email,
    /// the role, and an expiry one access-token lifetime past the instant.
    /// Signing the access claim set cannot fail.
    pub fn generate_access_token_at(&self, account: &Account, role: Role, now_ms: i64) -> (r:
        Result<String, AppError>)
        requires
            i64::MIN <= now_ms + self.access_token_lifetime_ms <= i64::MAX,
        ensures
            r is Ok,
            r matches Ok(t) ==> t@ == access_jwt(
                self.secret@,
                account.id as int,
                account.email@,
                spec_role_str(role),
                now_ms + self.access_token_lifetime_ms,
            ) && payload_i64(t@, "account_id"@) == Some(account.id) && payload_string(t@, "name"@)
                == Some(account.email@) && payload_string(t@, "role"@) == Some(spec_role_str(role))
                && payload_i64(t@, "exp"@) == Some(
                (now_ms + self.access_token_lifetime_ms) as i64,
            ) && count_char(t@, '.') == 2,
    {
        let exp = now_ms + self.access_token_lifetime_ms;
        match jwt_encode_access(
            self.secret.as_str(),
            account.id,
            account.email.as_str(),
            role.as_str(),
            exp,
        ) {
            Ok(t) => Ok(t),
            Err(e) => Err(AppError::JwtError(jwt_error_message(&e))),
        }
    }

    /// Builds and signs the refresh claim set for this account, as of the
    /// given instant: only the account id and an expiry one refresh-token
    /// lifetime past the instant — no name and no role claim. Signing the
    /// refresh claim set cannot fail.
    pub fn generate_refresh_token_at(&self, account: &Account, now_ms: i64) -> (r: Result<
        String,
        AppError,
    >)
        requires
            i64::MIN <= now_ms + self.refresh_token_lifetime_ms <= i64::MAX,
        ensures
            r is Ok,
            r matches Ok(t) ==> t@ == refresh_jwt(
                self.secret@,
                account.id as int,
                now_ms + self.refresh_token_lifetime_ms,
            ) && payload_i64(t@, "account_id"@) == Some(account.id) && payload_i64(t@, "exp"@)
                == Some((now_ms + self.refresh_token_lifetime_ms) as i64) && payload_string(
                t@,
                "name"@,
            ) is None && payload_string(t@, "role"@) is None && count_char(t@, '.') == 2,
    {
        let exp = now_ms + self.refresh_token_lifetime_ms;
        match jwt_encode_refresh(self.secret.as_str(), account.id, exp) {
            Ok(t) => Ok(t),
            Err(e) => Err(AppError::JwtError(jwt_error_message(&e))),
        }
    }

    /// Issues an access token expiring one access-token lifetime from now.
    /// The only failure is an expiry the clock cannot represent, reported as
    /// an internal fault, never a crash.
    pub fn generate_access_token(&self, account: &Account, role: Role) -> (r: Result<
        String,
        AppError,
    >)
        ensures
            r matches Ok(t) ==> (exists|exp_ms: int|
                t@ == access_jwt(
                    self.secret@,
                    account.id as int,
                    account.email@,
                    spec_role_str(role),
                    exp_ms,
                )) && payload_i64(t@, "account_id"@) == Some(account.id) && payload_string(
                t@,
                "name"@,
            ) == Some(account.email@) && payload_string(t@, "role"@) == Some(spec_role_str(role))
                && payload_i64(t@, "exp"@) is Some && count_char(t@, '.') == 2,
            r matches Err(e) ==> e is SomeFatalError,
    {
        let now = now_millis();
        match now.checked_add(self.access_token_lifetime_ms) {
            Some(_) => self.generate_access_token_at(account, role, now),
            None => Err(
                AppError::SomeFatalError(
                    FatalError { message: String::from_str("token expiry is out of range") },
                ),
            ),
        }
    }

    /// Issues a refresh token expiring one refresh-token lifetime from now,
    /// with the same failure reporting as the access path.
    pub fn generate_refresh_token(&self, account: &Account) -> (r: Result<String, AppError>)
        ensures
            r matches Ok(t) ==> (exists|exp_ms: int|
                t@ == refresh_jwt(self.secret@, account.id as int, exp_ms)) && payload_i64(
                t@,
                "account_id"@,
            ) == Some(account.id) && payload_i64(t@, "exp"@) is Some && payload_string(t@, "name"@)
                is None && payload_string(t@, "role"@) is None && count_char(t@, '.') == 2,
            r matches Err(e) ==> e is SomeFatalError,
    {
        let now = now_millis();
        match now.checked_add(self.refresh_token_lifetime_ms) {
            Some(_) => self.generate_refresh_token_at(account, now),
            None => Err(
                AppError::SomeFatalError(
                    FatalError { message: String::from_str("token expiry is out of range") },
                ),
            ),
        }
    }
}

} // verus!
