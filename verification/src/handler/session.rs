use vstd::prelude::*;

use crate::error::{AppError, StorageError};
use crate::model::account::Account;
use crate::service::account::AccountService;
use crate::service::jwt::{access_jwt, payload_i64, payload_string, refresh_jwt};
use crate::service::token::TokenService;
use crate::types::{spec_role_str, Role};

verus! {

/// The body of a session-creation request: the login to resolve.
pub struct CreateSessionPayload {
    pub login: String,
}

/// A created session: the two signed tokens, held entirely by the client.
pub struct CreateSessionResponse {
    pub access_token: String,
    pub refresh_token: String,
}

/// The query part of a session-creation request: the role asked for.
#[derive(Debug)]
pub struct CreateQuery {
    pub role: Role,
}

/// Creates a session from the outcome of the account lookup for the
/// requested login: a missing account is reported as not-found, a storage
/// fault as such; for a resolved account both tokens are issued, the access
/// token carrying the account's id and email and the requested role.
pub fn create(
    lookup: Result<Option<Account>, String>,
    query: &CreateQuery,
    account_service: &AccountService,
    token_service: &TokenService,
) -> (r: Result<CreateSessionResponse, AppError>)
    ensures
        lookup matches Ok(None) ==> r == Result::<CreateSessionResponse, AppError>::Err(
            AppError::SqlxError(StorageError::RowNotFound),
        ),
        lookup matches Err(message) ==> r == Result::<CreateSessionResponse, AppError>::Err(
            AppError::SqlxError(StorageError::Other(message)),
        ),
        lookup matches Ok(Some(account)) ==> (r is Ok || (r matches Err(e)
            && e is SomeFatalError)),
        lookup matches Ok(Some(account)) ==> (r matches Ok(resp) ==> ((exists|exp_ms: int|
            resp.access_token@ == access_jwt(
                token_service.secret@,
                account.id as int,
                account.email@,
                spec_role_str(query.role),
                exp_ms,
            )) && payload_i64(resp.access_token@, "account_id"@) == Some(account.id)
            && payload_string(resp.access_token@, "name"@) == Some(account.email@)
            && payload_string(resp.access_token@, "role"@) == Some(spec_role_str(query.role)) && (
        exists|exp_ms: int|
            resp.refresh_token@ == refresh_jwt(token_service.secret@, account.id as int, exp_ms))
            && payload_i64(resp.refresh_token@, "account_id"@) == Some(account.id)
            && payload_string(resp.refresh_token@, "name"@) is None && payload_string(
            resp.refresh_token@,
            "role"@,
        ) is None)),
        r matches Err(e) ==> (e is SqlxError || e is SomeFatalError),
{
    let account = match account_service.find_account_by_login(lookup) {
        Ok(account) => account,
        Err(e) => {
            return Err(e);
        },
    };
    let access_token = match token_service.generate_access_token(&account, query.role) {
        Ok(t) => t,
        Err(e) => {
            return Err(e);
        },
    };
    let refresh_token = match token_service.generate_refresh_token(&account) {
        Ok(t) => t,
        Err(e) => {
            return Err(e);
        },
    };
    Ok(CreateSessionResponse { access_token, refresh_token })
}

} // verus!
