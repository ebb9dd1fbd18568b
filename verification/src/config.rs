use vstd::prelude::*;

verus! {

/// Process-wide immutable configuration, constructed once at startup and
/// passed explicitly to every call that needs it: where the user store lives
/// and the base64-encoded symmetric key that session tokens are signed with.
#[derive(Clone, Debug)]
pub struct Config {
    pub database_url: String,
    pub hmac_key: String,
}

} // verus!
