use vstd::prelude::*;

use crate::config::Config;
use crate::password::{hash_password, phc_outcome, verify_password};
use crate::response::{
    is_constraint, on_constraint, ApiError, ApiResponse, ErrView, group_spec,
};
use crate::token::{b64_key_ok, jwt_of, AuthUser, DEFAULT_SESSION_LENGTH_SECS};

verus! {

/// The user resource as every handler answers it: the profile beside the
/// session token that proves it.
pub struct User {
    pub email: String,
    pub username: String,
    pub token: String,
}

/// A registration request.
pub struct NewUser {
    pub email: String,
    pub username: String,
    pub password: String,
}

/// A login request.
pub struct LoginUser {
    pub username: String,
    pub password: String,
}

/// A profile update request; absent fields stay unchanged.
#[derive(Default)]
pub struct UpdateUser {
    pub username: Option<String>,
    pub email: Option<String>,
    pub password: Option<String>,
}

/// What storage holds of one user, as the login flow reads it.
#[derive(Clone)]
pub struct UserRecord {
    pub user_id: String,
    pub username: String,
    pub email: String,
    pub password_hash: String,
}

/// The stored profile fields that a fetch or update hands back.
#[derive(Clone)]
pub struct ProfileRecord {
    pub username: String,
    pub email: String,
}

/// An update request with its plaintext password, if any, already replaced
/// by a credential hash: what the storage write takes.
pub struct UserPatch {
    pub username: Option<String>,
    pub email: Option<String>,
    pub password_hash: Option<String>,
}

/// A single-field validation failure, as the constraint table produces it.
pub open spec fn field_error_view(name: Seq<char>, msg: Seq<char>) -> ErrView {
    ErrView::UnprocessableEntity { errors: seq![(name, seq![msg])] }
}

/// How a storage failure reaches the client: the five named uniqueness and
/// check-constraint violations become field-level validation errors, tried
/// in order with the first match winning; everything else passes unchanged.
pub open spec fn map_constraint_spec(e: ErrView) -> ErrView {
    if is_constraint(e, "users_username_key"@) {
        field_error_view("username"@, "帳號已存在。"@)
    } else if is_constraint(e, "users_email_key"@) {
        field_error_view("email"@, "信箱已存在。"@)
    } else if is_constraint(e, "users_username_check"@) {
        field_error_view("username"@, "帳號不可為空。"@)
    } else if is_constraint(e, "users_email_check"@) {
        field_error_view("email"@, "信箱不可為空。"@)
    } else if is_constraint(e, "users_password_hash_check"@) {
        field_error_view("password"@, "密碼不可為空。"@)
    } else {
        e
    }
}

/// Builds the one-field validation failure that a matched constraint maps to.
fn field_error(name: &str, msg: &str) -> (r: ApiError)
    ensures
        r@ == field_error_view(name@, msg@),
{
    let mut pairs: Vec<(String, String)> = Vec::new();
    pairs.push((name.to_owned(), msg.to_owned()));
    let r = ApiError::unprocessable_entity(pairs);
    proof {
        let s = pairs.deep_view();
        assert(s =~= seq![(name@, msg@)]);
        assert(s.drop_last() =~= Seq::<(Seq<char>, Seq<char>)>::empty());
        assert(group_spec(s.drop_last()) =~= Seq::<(Seq<char>, Seq<Seq<char>>)>::empty());
        assert(group_spec(s) =~= seq![(name@, seq![msg@])]);
    }
    r
}

/// Rewrites the storage layer's named constraint violations into user-facing
/// validation errors, as `map_constraint_spec` says; other failures and
/// successes pass through unchanged.
pub fn map_user_constraints<T>(r: Result<T, ApiError>) -> (out: Result<T, ApiError>)
    ensures
        r matches Ok(_) ==> out == r,
        r matches Err(e) ==> out matches Err(e2) && e2@ == map_constraint_spec(e@),
{
    let r = on_constraint(r, "users_username_key", field_error("username", "帳號已存在。"));
    let r = on_constraint(r, "users_email_key", field_error("email", "信箱已存在。"));
    let r = on_constraint(r, "users_username_check", field_error("username", "帳號不可為空。"));
    let r = on_constraint(r, "users_email_check", field_error("email", "信箱不可為空。"));
    let r = on_constraint(
        r,
        "users_password_hash_check",
        field_error("password", "密碼不可為空。"),
    );
    r
}

/// The uniform answer to a failed login: the caller learns neither whether
/// the account exists nor which part of the credentials was wrong.
pub open spec fn login_failure_view() -> ErrView {
    ErrView::Custom { status: 401, title: "登入失敗"@, message: "帳號或密碼不正確。"@ }
}

fn login_failure() -> (r: ApiError)
    ensures
        r@ == login_failure_view(),
{
    ApiError::custom(401, "登入失敗".to_owned(), "帳號或密碼不正確。".to_owned())
}

/// The storable registration: the request's profile fields beside the
/// credential hash derived from its plaintext password.
pub struct RegistrationRecord {
    pub username: String,
    pub email: String,
    pub password_hash: String,
}

/// Turns a registration request into what the storage insert takes,
/// replacing the plaintext password by a fresh credential hash.
pub fn prepare_registration(req: NewUser) -> (r: Result<RegistrationRecord, ApiError>)
    ensures
        match r {
            Ok(rec) => rec.username == req.username && rec.email == req.email && phc_outcome(
                req.password@,
                rec.password_hash@,
            ) == Some(true),
            Err(e) => e@ == (ErrView::Internal {
                title: "failed to generate password hash"@,
                cause: None,
            }),
        },
{
    match hash_password(&req.password) {
        Ok(password_hash) => Ok(
            RegistrationRecord { username: req.username, email: req.email, password_hash },
        ),
        Err(e) => Err(e),
    }
}

/// Decides a registration request once storage has answered the insert:
/// a fresh session token for the new identity on success, the storage
/// failure rewritten through the constraint table otherwise.
pub fn create_user_outcome(
    username: String,
    email: String,
    insert_result: Result<String, ApiError>,
    config: &Config,
    now: i64,
) -> (r: Result<ApiResponse<User>, ApiError>)
    requires
        now + DEFAULT_SESSION_LENGTH_SECS <= i64::MAX,
    ensures
        match insert_result {
            Ok(user_id) => match r {
                Ok(resp) => resp.message@ == "註冊成功"@ && resp.data.username == username
                    && resp.data.email == email && resp.data.token@ == jwt_of(
                    config.hmac_key@,
                    user_id@,
                    (now + DEFAULT_SESSION_LENGTH_SECS) as i64,
                ) && b64_key_ok(config.hmac_key@),
                Err(e) => e@ matches ErrView::Internal { .. },
            },
            Err(e) => r matches Err(e2) && e2@ == map_constraint_spec(e@),
        },
        insert_result matches Ok(_) && b64_key_ok(config.hmac_key@) ==> r is Ok,
{
    match map_user_constraints(insert_result) {
        Ok(user_id) => {
            let token = match (AuthUser(user_id)).to_jwt(config, now) {
                Ok(t) => t,
                Err(e) => {
                    return Err(e);
                },
            };
            Ok(
                ApiResponse::new_with_message(
                    "註冊成功".to_owned(),
                    User { email, username, token },
                ),
            )
        },
        Err(e) => Err(e),
    }
}

/// Decides a login request once storage has answered the lookup: an unknown
/// username, a wrong password and an unreadable stored hash all collapse to
/// the same failure; a verified credential earns a fresh session token.
pub fn login_user_outcome(
    req: LoginUser,
    record: Option<UserRecord>,
    config: &Config,
    now: i64,
) -> (r: Result<ApiResponse<User>, ApiError>)
    requires
        now + DEFAULT_SESSION_LENGTH_SECS <= i64::MAX,
    ensures
        match record {
            None => r matches Err(e) && e@ == login_failure_view(),
            Some(u) => {
                if phc_outcome(req.password@, u.password_hash@) == Some(true) {
                    match r {
                        Ok(resp) => resp.message@ == "登入成功"@ && resp.data.username
                            == u.username && resp.data.email == u.email && resp.data.token@
                            == jwt_of(
                            config.hmac_key@,
                            u.user_id@,
                            (now + DEFAULT_SESSION_LENGTH_SECS) as i64,
                        ) && b64_key_ok(config.hmac_key@),
                        Err(e) => e@ matches ErrView::Internal { .. },
                    }
                } else {
                    r matches Err(e) && e@ == login_failure_view()
                }
            },
        },
        (record matches Some(u) && phc_outcome(req.password@, u.password_hash@) == Some(true)
            && b64_key_ok(config.hmac_key@)) ==> r is Ok,
{
    let user = match record {
        Some(u) => u,
        None => {
            return Err(login_failure());
        },
    };
    let verified = match verify_password(&req.password, &user.password_hash) {
        Ok(b) => b,
        Err(_) => {
            return Err(login_failure());
        },
    };
    if !verified {
        return Err(login_failure());
    }
    let token = match (AuthUser(user.user_id)).to_jwt(config, now) {
        Ok(t) => t,
        Err(e) => {
            return Err(e);
        },
    };
    Ok(
        ApiResponse::new_with_message(
            "登入成功".to_owned(),
            User { email: user.email, username: user.username, token },
        ),
    )
}

/// Decides a profile read for an authenticated caller: the stored profile
/// with the very token the caller presented echoed back, or `Unauthorized`
/// when the identity has no record.
pub fn get_current_user_outcome(record: Option<ProfileRecord>, token: String) -> (r: Result<
    ApiResponse<User>,
    ApiError,
>)
    ensures
        match record {
            None => r matches Err(e) && e@ is Unauthorized,
            Some(p) => r matches Ok(resp) && resp.message@ == "OK"@ && resp.data.username
                == p.username && resp.data.email == p.email && resp.data.token == token,
        },
{
    match record {
        None => Err(ApiError::Unauthorized),
        Some(p) => Ok(
            ApiResponse::new(User { email: p.email, username: p.username, token }),
        ),
    }
}

/// Whether an update request changes nothing; such a request is answered
/// like a profile read.
pub fn update_is_noop(req: &UpdateUser) -> (b: bool)
    ensures
        b == (req.username is None && req.email is None && req.password is None),
{
    req.username.is_none() && req.email.is_none() && req.password.is_none()
}

/// Turns an update request into the patch that storage takes, deriving a
/// fresh credential hash when the request carries a new password.
pub fn prepare_update(req: UpdateUser) -> (r: Result<UserPatch, ApiError>)
    ensures
        match r {
            Ok(p) => p.username == req.username && p.email == req.email && (match (
                req.password,
                p.password_hash,
            ) {
                (Some(pw), Some(h)) => phc_outcome(pw@, h@) == Some(true),
                (None, None) => true,
                _ => false,
            }),
            Err(e) => e@ == (ErrView::Internal {
                title: "failed to generate password hash"@,
                cause: None,
            }) && req.password is Some,
        },
{
    let password_hash = match req.password {
        Some(pw) => match hash_password(&pw) {
            Ok(h) => Some(h),
            Err(e) => {
                return Err(e);
            },
        },
        None => None,
    };
    Ok(UserPatch { username: req.username, email: req.email, password_hash })
}

/// Decides an update request once storage has answered the write: the new
/// profile with the caller's token echoed back, or the storage failure
/// rewritten through the constraint table.
pub fn update_user_outcome(
    update_result: Result<ProfileRecord, ApiError>,
    token: String,
) -> (r: Result<ApiResponse<User>, ApiError>)
    ensures
        match update_result {
            Ok(p) => r matches Ok(resp) && resp.message@ == "更新成功"@ && resp.data.username
                == p.username && resp.data.email == p.email && resp.data.token == token,
            Err(e) => r matches Err(e2) && e2@ == map_constraint_spec(e@),
        },
{
    match map_user_constraints(update_result) {
        Ok(p) => Ok(
            ApiResponse::new_with_message(
                "更新成功".to_owned(),
                User { email: p.email, username: p.username, token },
            ),
        ),
        Err(e) => Err(e),
    }
}

} // verus!
