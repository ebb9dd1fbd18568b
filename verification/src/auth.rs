use vstd::prelude::*;

use crate::config::Config;
use crate::response::{ApiError, ErrView};
use crate::token::{b64_key_ok, jwt_of, validate, validate_spec};

verus! {

/// Whether a header value carries the fixed scheme prefix `"Bearer "` —
/// exact, case-sensitive, single trailing space.
pub open spec fn has_bearer_prefix(h: Seq<char>) -> bool {
    h.len() >= 7 && h.subrange(0, 7) == "Bearer "@
}

/// The raw token behind the scheme prefix.
pub open spec fn bearer_rest(h: Seq<char>) -> Seq<char> {
    h.subrange(7, h.len() as int)
}

/// Locates the bearer token in the Authorization header's value (`None`
/// when the header is absent).  A missing header or a wrong scheme fails
/// uniformly as `Unauthorized`.
pub fn extract_raw(auth_header: Option<&str>) -> (r: Result<String, ApiError>)
    ensures
        match r {
            Ok(t) => auth_header matches Some(h) && has_bearer_prefix(h@) && t@ == bearer_rest(
                h@,
            ),
            Err(e) => e@ is Unauthorized && (match auth_header {
                Some(h) => !has_bearer_prefix(h@),
                None => true,
            }),
        },
{
    match auth_header {
        None => Err(ApiError::Unauthorized),
        Some(h) => {
            let n = h.unicode_len();
            if n < 7 {
                Err(ApiError::Unauthorized)
            } else {
                let prefix = h.substring_char(0, 7);
                if prefix.to_owned() == "Bearer ".to_owned() {
                    let token = h.substring_char(7, n);
                    Ok(token.to_owned())
                } else {
                    Err(ApiError::Unauthorized)
                }
            }
        },
    }
}

/// An authenticated caller together with the raw token string it presented,
/// for operations that echo the same token back to the client.
pub struct AuthUserToken(pub String, pub String);

impl AuthUserToken {
    /// Reads the Authorization header's value, demands the bearer scheme,
    /// and validates the carried token at instant `now`.  Missing header,
    /// wrong scheme and codec rejection all fail uniformly as
    /// `Unauthorized`; on success the verified identity stands beside the
    /// original raw token.
    pub fn from_authorization(config: &Config, header: Option<&str>, now: i64) -> (r: Result<
        AuthUserToken,
        ApiError,
    >)
        ensures
            match r {
                Ok(a) => header matches Some(h) && has_bearer_prefix(h@) && a.1@ == bearer_rest(
                    h@,
                ) && validate_spec(config.hmac_key@, a.1@, now) == Some(a.0@),
                Err(e) => e@ is Unauthorized && (match header {
                    Some(h) => !has_bearer_prefix(h@) || validate_spec(
                        config.hmac_key@,
                        bearer_rest(h@),
                        now,
                    ) is None,
                    None => true,
                }),
            },
            forall|id: Seq<char>, exp: i64|
                (header matches Some(h) && has_bearer_prefix(h@) && b64_key_ok(config.hmac_key@)
                    && bearer_rest(h@) == #[trigger] jwt_of(config.hmac_key@, id, exp) && exp
                    >= now) ==> (r matches Ok(a) && a.0@ == id),
    {
        let token = match extract_raw(header) {
            Ok(t) => t,
            Err(e) => {
                return Err(e);
            },
        };
        match validate(config, token.as_str(), now) {
            Some(user_id) => Ok(AuthUserToken(user_id, token)),
            None => Err(ApiError::Unauthorized),
        }
    }
}

} // verus!
