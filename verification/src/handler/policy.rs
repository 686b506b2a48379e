use vstd::prelude::*;

use crate::error::AppError;
use crate::model::simple_user::SimpleUser;
use crate::service::account::{spec_bearer_prefix, spec_raw_token, AccountService};
use crate::service::casbin::{is_permissions_for, CasbinService, PermissionEntry};
use crate::service::jwt::payload_string;

verus! {

/// Resolves the caller's permissions from an optional `Authorization` value.
/// An absent header resolves to the guest role's permissions and never
/// errors; a present header with the wrong scheme is a bad request; a present
/// bearer token that fails verification is unauthorized; a verified token
/// resolves to the permission map of exactly the role its claims carry.
pub fn permissions(
    header: Option<&str>,
    account_service: &AccountService,
    casbin_service: &CasbinService,
) -> (r: Result<Vec<PermissionEntry>, AppError>)
    ensures
        header is None ==> (r matches Ok(entries) && is_permissions_for(
            entries@,
            casbin_service.rules.deep_view(),
            "Guest"@,
        )),
        header matches Some(h) ==> (!spec_bearer_prefix(h@) ==> (r matches Err(
            AppError::HTTPBadRequest(m),
        ) && m@ == "Invalid header"@)),
        r matches Err(e) ==> (e is HTTPBadRequest || e is JwtError),
        header matches Some(h) ==> (r matches Ok(entries) ==> (payload_string(
            spec_raw_token(h@),
            "role"@,
        ) matches Some(role) && is_permissions_for(
            entries@,
            casbin_service.rules.deep_view(),
            role,
        ))),
{
    let current_user = match header {
        None => SimpleUser::guest(),
        Some(h) => match account_service.get_current_user(h) {
            Ok(user) => user,
            Err(e) => {
                return Err(e);
            },
        },
    };
    let entries = casbin_service.get_permissions_for_role(current_user.role.as_str());
    proof {
        assert(is_permissions_for(entries@, casbin_service.rules.deep_view(), current_user.role@));
    }
    Ok(entries)
}

} // verus!
