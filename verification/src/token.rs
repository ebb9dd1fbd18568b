use vstd::prelude::*;

use crate::config::Config;
use crate::response::{ApiError, ErrView};

verus! {

/// How long a freshly minted session token stays valid, in seconds: one week.
pub const DEFAULT_SESSION_LENGTH_SECS: i64 = 604800;

/// The serialized signed token that the codec produces from a base64-encoded
/// secret, an identity and an expiry instant: a pure function of the three.
pub uninterp spec fn jwt_of(secret: Seq<char>, user_id: Seq<char>, exp: i64) -> Seq<char>;

/// The claim set that signature verification under `secret` accepts in a
/// presented token, `None` when the token is rejected: with the codec's
/// expiry checking factored out, a pure function of secret and token.
pub uninterp spec fn jwt_claims_of(secret: Seq<char>, token: Seq<char>) -> Option<
    (Seq<char>, i64),
>;

/// Whether the configured secret is accepted as base64-encoded key material.
pub uninterp spec fn b64_key_ok(secret: Seq<char>) -> bool;

/// Completeness of decoding: whenever the presented token is letter for
/// letter one the codec built under the same (accepted) secret, the decode
/// result `r` carries back exactly the identity and expiry it was built from.
pub open spec fn decodes_own_tokens(
    secret: Seq<char>,
    token: Seq<char>,
    r: Option<(String, i64)>,
) -> bool {
    forall|id: Seq<char>, exp: i64|
        b64_key_ok(secret) && token == #[trigger] jwt_of(secret, id, exp) ==> (r matches Some(p)
            && p.0@ == id && p.1 == exp)
}

/// Relies on `jsonwebtoken::encode` under `Header::default()` (HS256) with
/// `EncodingKey::from_base64_secret`: for a fixed secret, identity and expiry
/// the produced token is a pure function of those three values.  Success
/// holds exactly when the secret is accepted as base64 key material — once
/// the key decodes, serializing the claim object and HMAC-signing cannot
/// fail — and the decoding-side `DecodingKey::from_base64_secret` runs the
/// same base64 decoding, so it accepts the same secrets.
#[verifier::external_body]
fn jwt_encode(secret: &str, user_id: &str, exp: i64) -> (r: Option<String>)
    ensures
        r matches Some(t) ==> t@ == jwt_of(secret@, user_id@, exp) && b64_key_ok(secret@),
        r is None ==> !b64_key_ok(secret@),
{
    let key = jsonwebtoken::EncodingKey::from_base64_secret(secret).ok()?;
    let mut claims = serde_json::Map::new();
    claims.insert("user_id".to_owned(), serde_json::Value::String(user_id.to_owned()));
    claims.insert("exp".to_owned(), serde_json::Value::from(exp));
    let value = serde_json::Value::Object(claims);
    jsonwebtoken::encode(&jsonwebtoken::Header::default(), &value, &key).ok()
}

/// Relies on `jsonwebtoken::decode` with `DecodingKey::from_base64_secret`,
/// its wall-clock expiry checking disabled: the outcome is then a pure
/// function of the secret and the token.  A token that `jsonwebtoken::encode`
/// built under the same secret passes signature verification and carries
/// exactly the claims it was built from, so decoding yields them back.
#[verifier::external_body]
fn jwt_decode(secret: &str, token: &str) -> (r: Option<(String, i64)>)
    ensures
        r matches Some(p) ==> jwt_claims_of(secret@, token@) == Some((p.0@, p.1)),
        r is None ==> jwt_claims_of(secret@, token@) is None,
        decodes_own_tokens(secret@, token@, r),
{
    let key = jsonwebtoken::DecodingKey::from_base64_secret(secret).ok()?;
    let mut validation = jsonwebtoken::Validation::new(jsonwebtoken::Algorithm::HS256);
    validation.validate_exp = false;
    validation.required_spec_claims = std::collections::HashSet::new();
    let data = jsonwebtoken::decode::<serde_json::Value>(token, &key, &validation).ok()?;
    let id = data.claims.get("user_id")?.as_str()?.to_owned();
    let exp = data.claims.get("exp")?.as_i64()?;
    Some((id, exp))
}

/// The validation outcome over the abstract claim set: the carried identity,
/// exactly when the token's signature verifies under the secret and the
/// token has not expired strictly before `now` (an exactly-expired token is
/// still accepted).
pub open spec fn validate_spec(secret: Seq<char>, token: Seq<char>, now: i64) -> Option<
    Seq<char>,
> {
    match jwt_claims_of(secret, token) {
        Some(p) => if p.1 >= now {
            Some(p.0)
        } else {
            None
        },
        None => None,
    }
}

/// Decodes and checks a presented token.  Every failure collapses to `None`:
/// a caller cannot tell a forged token from an expired one.
pub fn validate(config: &Config, token: &str, now: i64) -> (r: Option<String>)
    ensures
        match r {
            Some(s) => validate_spec(config.hmac_key@, token@, now) == Some(s@),
            None => validate_spec(config.hmac_key@, token@, now) is None,
        },
        forall|id: Seq<char>, exp: i64|
            b64_key_ok(config.hmac_key@) && token@ == #[trigger] jwt_of(config.hmac_key@, id, exp)
                && exp >= now ==> (r matches Some(s) && s@ == id),
        forall|id: Seq<char>, exp: i64|
            b64_key_ok(config.hmac_key@) && token@ == #[trigger] jwt_of(config.hmac_key@, id, exp)
                && exp < now ==> r is None,
{
    match jwt_decode(config.hmac_key.as_str(), token) {
        Some((id, exp)) => {
            if exp >= now {
                Some(id)
            } else {
                None
            }
        },
        None => None,
    }
}

/// The authenticated caller: an opaque unique user identifier.
pub struct AuthUser(pub String);

impl AuthUser {
    /// Mints a signed session token for this identity: claims
    /// `{identity, exp = now + DEFAULT_SESSION_LENGTH_SECS}` under the
    /// configured secret.  Minting succeeds exactly when the secret is
    /// accepted as base64 key material; a rejected secret surfaces as an
    /// internal error.
    pub fn to_jwt(&self, config: &Config, now: i64) -> (r: Result<String, ApiError>)
        requires
            now + DEFAULT_SESSION_LENGTH_SECS <= i64::MAX,
        ensures
            r matches Ok(t) ==> t@ == jwt_of(
                config.hmac_key@,
                self.0@,
                (now + DEFAULT_SESSION_LENGTH_SECS) as i64,
            ) && b64_key_ok(config.hmac_key@),
            b64_key_ok(config.hmac_key@) ==> r is Ok,
            r matches Err(e) ==> e@ == (ErrView::Internal {
                title: "error signing jwt"@,
                cause: None,
            }) && !b64_key_ok(config.hmac_key@),
    {
        let exp = now + DEFAULT_SESSION_LENGTH_SECS;
        match jwt_encode(config.hmac_key.as_str(), self.0.as_str(), exp) {
            Some(t) => Ok(t),
            None => Err(
                ApiError::Internal { title: "error signing jwt".to_owned(), cause: None },
            ),
        }
    }
}

/// A claim set that expires at `exp` is accepted at every instant up to and
/// including `exp` — the exact boundary still succeeds — and rejected at
/// every later instant.
pub proof fn lemma_expiry_boundary(secret: Seq<char>, token: Seq<char>, id: Seq<char>, exp: i64, now: i64)
    ensures
        jwt_claims_of(secret, token) == Some((id, exp)) && now <= exp ==> validate_spec(
            secret,
            token,
            now,
        ) == Some(id),
        jwt_claims_of(secret, token) == Some((id, exp)) && now > exp ==> validate_spec(
            secret,
            token,
            now,
        ) is None,
{
}

/// A token whose signature does not verify under a secret — in particular a
/// token minted under a different secret that the verifying secret's own
/// claim reading rejects — fails validation at every instant, whatever its
/// claims say.
pub proof fn lemma_foreign_secret_rejected(secret: Seq<char>, token: Seq<char>, now: i64)
    ensures
        jwt_claims_of(secret, token) is None ==> validate_spec(secret, token, now) is None,
{
}

} // verus!
