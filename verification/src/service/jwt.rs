use vstd::prelude::*;

use crate::strutil::count_char;

verus! {

#[verifier::external_type_specification]
#[verifier::external_body]
pub struct ExJsonValue(serde_json::Value);

#[verifier::external_type_specification]
#[verifier::external_body]
pub struct ExJwtError(jsonwebtoken::errors::Error);

/// The compact signed token that encoding the access claim set yields; it
/// depends on the arguments alone.
pub uninterp spec fn access_jwt(
    secret: Seq<char>,
    account_id: int,
    name: Seq<char>,
    role: Seq<char>,
    exp_ms: int,
) -> Seq<char>;

/// The compact signed token that encoding the refresh claim set yields; it
/// depends on the arguments alone.
pub uninterp spec fn refresh_jwt(secret: Seq<char>, account_id: int, exp_ms: int) -> Seq<char>;

/// The integer claim at this key of the token's payload, if the payload
/// carries one; a function of the token text alone.
pub uninterp spec fn payload_i64(token: Seq<char>, key: Seq<char>) -> Option<i64>;

/// The string claim at this key of the token's payload, if the payload
/// carries one; a function of the token text alone.
pub uninterp spec fn payload_string(token: Seq<char>, key: Seq<char>) -> Option<Seq<char>>;

/// The integer member at this key of a decoded claims object.
pub uninterp spec fn value_i64_at(v: serde_json::Value, key: Seq<char>) -> Option<i64>;

/// The string member at this key of a decoded claims object.
pub uninterp spec fn value_string_at(v: serde_json::Value, key: Seq<char>) -> Option<Seq<char>>;

/// Relies on jsonwebtoken::encode with the default header: serializes the
/// claim set `{account_id, name, role, exp}` and signs it with the secret
/// (HS256). The result is a function of the arguments alone, its payload
/// carries exactly these claims, and encoding cannot fail: the HMAC accepts a
/// key of any length and a JSON-object claim set always serializes. The
/// result is in compact three-part form — two dot separators joining base64url
/// parts, which contain no dot.
#[verifier::external_body]
pub(crate) fn jwt_encode_access(
    secret: &str,
    account_id: i64,
    name: &str,
    role: &str,
    exp_ms: i64,
) -> (r: Result<String, jsonwebtoken::errors::Error>)
    ensures
        r is Ok,
        r matches Ok(t) ==> t@ == access_jwt(secret@, account_id as int, name@, role@, exp_ms as int)
            && payload_i64(t@, "account_id"@) == Some(account_id)
            && payload_string(t@, "name"@) == Some(name@)
            && payload_string(t@, "role"@) == Some(role@)
            && payload_i64(t@, "exp"@) == Some(exp_ms)
            && count_char(t@, '.') == 2,
{
    let mut claims = serde_json::Map::new();
    claims.insert("account_id".to_string(), serde_json::Value::from(account_id));
    claims.insert("name".to_string(), serde_json::Value::from(name));
    claims.insert("role".to_string(), serde_json::Value::from(role));
    claims.insert("exp".to_string(), serde_json::Value::from(exp_ms));
    jsonwebtoken::encode(
        &jsonwebtoken::Header::default(),
        &serde_json::Value::Object(claims),
        &jsonwebtoken::EncodingKey::from_secret(secret.as_bytes()),
    )
}

/// Relies on jsonwebtoken::encode with the default header: serializes the
/// claim set `{account_id, exp}` — no name and no role claim — and signs it
/// with the secret (HS256). The result is a function of the arguments alone,
/// and encoding cannot fail, as on the access path; the same compact
/// three-part form.
#[verifier::external_body]
pub(crate) fn jwt_encode_refresh(secret: &str, account_id: i64, exp_ms: i64) -> (r: Result<
    String,
    jsonwebtoken::errors::Error,
>)
    ensures
        r is Ok,
        r matches Ok(t) ==> t@ == refresh_jwt(secret@, account_id as int, exp_ms as int)
            && payload_i64(t@, "account_id"@) == Some(account_id)
            && payload_i64(t@, "exp"@) == Some(exp_ms)
            && payload_string(t@, "name"@) is None
            && payload_string(t@, "role"@) is None
            && payload_i64(t@, "name"@) is None
            && payload_i64(t@, "role"@) is None
            && count_char(t@, '.') == 2,
{
    let mut claims = serde_json::Map::new();
    claims.insert("account_id".to_string(), serde_json::Value::from(account_id));
    claims.insert("exp".to_string(), serde_json::Value::from(exp_ms));
    jsonwebtoken::encode(
        &jsonwebtoken::Header::default(),
        &serde_json::Value::Object(claims),
        &jsonwebtoken::EncodingKey::from_secret(secret.as_bytes()),
    )
}

/// Relies on jsonwebtoken::decode with the default validation: checks the
/// HS256 signature with the secret and the `exp` claim against the clock,
/// and on success hands back the token's payload claims — exactly the claim
/// set the token's payload carries.
#[verifier::external_body]
pub(crate) fn jwt_decode_claims(token: &str, secret: &str) -> (r: Result<
    serde_json::Value,
    jsonwebtoken::errors::Error,
>)
    ensures
        r matches Ok(v) ==> (forall|key: Seq<char>|
            #[trigger] value_i64_at(v, key) == payload_i64(token@, key)),
        r matches Ok(v) ==> (forall|key: Seq<char>|
            #[trigger] value_string_at(v, key) == payload_string(token@, key)),
{
    jsonwebtoken::decode::<serde_json::Value>(
        token,
        &jsonwebtoken::DecodingKey::from_secret(secret.as_bytes()),
        &jsonwebtoken::Validation::default(),
    ).map(|data| data.claims)
}

/// Relies on serde_json::Value::get and Value::as_i64: the integer member at
/// this key, if the value is an object that carries one.
#[verifier::external_body]
pub(crate) fn json_i64_at(v: &serde_json::Value, key: &str) -> (r: Option<i64>)
    ensures
        r == value_i64_at(*v, key@),
{
    v.get(key).and_then(serde_json::Value::as_i64)
}

/// Relies on serde_json::Value::get and Value::as_str: the string member at
/// this key, owned, if the value is an object that carries one.
#[verifier::external_body]
pub(crate) fn json_string_at(v: &serde_json::Value, key: &str) -> (r: Option<String>)
    ensures
        (r is Some) == (value_string_at(*v, key@) is Some),
        r matches Some(s) ==> value_string_at(*v, key@) == Some(s@),
{
    v.get(key).and_then(serde_json::Value::as_str).map(str::to_string)
}

/// Relies on the Debug rendering of jsonwebtoken's error. The rendering is
/// kept for the server-side log only; callers never hand it to the client.
#[verifier::external_body]
pub(crate) fn jwt_error_message(e: &jsonwebtoken::errors::Error) -> (r: String) {
    format!("{e:?}")
}

/// Relies on chrono::Utc::now for the current instant, in milliseconds since
/// the epoch by the system clock.
#[verifier::external_body]
pub(crate) fn now_millis() -> (r: i64) {
    chrono::Utc::now().timestamp_millis()
}

} // verus!
