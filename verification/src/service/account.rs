use vstd::prelude::*;
use vstd::string::StrSliceExecFns;
use vstd::string::StringExecFns;

use crate::error::{AppError, StorageError};
use crate::model::account::Account;
use crate::model::simple_user::SimpleUser;
use crate::service::jwt::{payload_i64, payload_string};
use crate::strutil::{spec_trim, trim_spaces};

verus! {

/// The raw `Authorization` value begins with the bearer scheme, matched
/// case-insensitively character by character.
pub open spec fn spec_bearer_prefix(h: Seq<char>) -> bool {
    &&& h.len() >= 6
    &&& (h[0] == 'b' || h[0] == 'B')
    &&& (h[1] == 'e' || h[1] == 'E')
    &&& (h[2] == 'a' || h[2] == 'A')
    &&& (h[3] == 'r' || h[3] == 'R')
    &&& (h[4] == 'e' || h[4] == 'E')
    &&& (h[5] == 'r' || h[5] == 'R')
}

pub fn has_bearer_prefix(h: &str) -> (r: bool)
    ensures
        r == spec_bearer_prefix(h@),
{
    if h.unicode_len() < 6 {
        return false;
    }
    let c0 = h.get_char(0);
    let c1 = h.get_char(1);
    let c2 = h.get_char(2);
    let c3 = h.get_char(3);
    let c4 = h.get_char(4);
    let c5 = h.get_char(5);
    (c0 == 'b' || c0 == 'B') && (c1 == 'e' || c1 == 'E') && (c2 == 'a' || c2 == 'A') && (c3 == 'r'
        || c3 == 'R') && (c4 == 'e' || c4 == 'E') && (c5 == 'r' || c5 == 'R')
}

/// The raw token a bearer header carries: the text after the six scheme
/// characters, with surrounding whitespace stripped.
pub open spec fn spec_raw_token(h: Seq<char>) -> Seq<char> {
    spec_trim(h.subrange(6, h.len() as int))
}

/// Account lookup and bearer extraction. Holds the shared token secret; the
/// storage read itself happens at the caller's edge, and its outcome is
/// handed in as a plain value.
#[derive(Clone, Debug)]
pub struct AccountService {
    pub secret: String,
}

impl AccountService {
    /// Classifies the outcome of the by-email storage read. Exactly one row
    /// is expected: zero rows is a distinct, reportable not-found condition,
    /// and a failed read is an internal storage fault — the two are never
    /// conflated.
    pub fn find_account_by_login(&self, lookup: Result<Option<Account>, String>) -> (r: Result<
        Account,
        AppError,
    >)
        ensures
            lookup matches Ok(Some(account)) ==> r == Result::<Account, AppError>::Ok(account),
            lookup matches Ok(None) ==> r == Result::<Account, AppError>::Err(
                AppError::SqlxError(StorageError::RowNotFound),
            ),
            lookup matches Err(message) ==> r == Result::<Account, AppError>::Err(
                AppError::SqlxError(StorageError::Other(message)),
            ),
    {
        match lookup {
            Ok(Some(account)) => Ok(account),
            Ok(None) => Err(AppError::SqlxError(StorageError::RowNotFound)),
            Err(message) => Err(AppError::SqlxError(StorageError::Other(message))),
        }
    }

    /// Parses a present `Authorization` header: the scheme must be `Bearer`
    /// (case-insensitive) — anything else is a malformed request, never
    /// "unauthorized" — and the rest, trimmed, is verified as a token. On
    /// success the identity is exactly that token's claim set.
    pub fn get_current_user(&self, header: &str) -> (r: Result<SimpleUser, AppError>)
        ensures
            !spec_bearer_prefix(header@) ==> (r matches Err(AppError::HTTPBadRequest(m)) && m@
                == "Invalid header"@),
            r matches Err(e) ==> (spec_bearer_prefix(header@) ==> e is JwtError),
            r matches Ok(u) ==> spec_bearer_prefix(header@) && payload_i64(
                spec_raw_token(header@),
                "account_id"@,
            ) == Some(u.account_id) && payload_string(spec_raw_token(header@), "name"@) == Some(
                u.name@,
            ) && payload_string(spec_raw_token(header@), "role"@) == Some(u.role@),
    {
        if !has_bearer_prefix(header) {
            return Err(AppError::HTTPBadRequest(String::from_str("Invalid header")));
        }
        let n = header.unicode_len();
        let raw = header.substring_char(6, n);
        let raw = trim_spaces(raw);
        SimpleUser::from_token(raw, self.secret.as_str())
    }
}

} // verus!
