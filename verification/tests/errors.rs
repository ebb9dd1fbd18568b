use not_so_realworld_server::config::Config;
use not_so_realworld_server::password::verify_password;
use not_so_realworld_server::response::{on_constraint, ApiError};
use not_so_realworld_server::user::{
    create_user_outcome, prepare_update, update_is_noop, update_user_outcome, ProfileRecord,
    UpdateUser,
};

fn storage_violation(name: &str) -> ApiError {
    ApiError::Storage {
        message: "duplicate key value violates unique constraint".to_string(),
        constraint: Some(name.to_string()),
    }
}

#[test]
fn test_fields_error() {
    let e = ApiError::unprocessable_entity(vec![
        ("f1".to_string(), "v1".to_string()),
        ("f1".to_string(), "v2".to_string()),
        ("f2".to_string(), "v1".to_string()),
    ]);
    match e {
        ApiError::UnprocessableEntity { errors } => {
            assert_eq!(
                errors,
                vec![
                    ("f1".to_string(), vec!["v1".to_string(), "v2".to_string()]),
                    ("f2".to_string(), vec!["v1".to_string()]),
                ]
            )
        }
        _ => panic!(),
    }
}

#[test]
fn empty_field_errors_omit_details() {
    let e = ApiError::unprocessable_entity(vec![]);
    let (status, body) = e.into_response_parts();
    assert_eq!(status, 422);
    assert_eq!(body.title, "資料有誤");
    assert_eq!(body.message, "");
    assert!(body.details.is_none());
}

#[test]
fn field_errors_render_as_details() {
    let e = ApiError::unprocessable_entity(vec![("username".to_string(), "taken".to_string())]);
    let (status, body) = e.into_response_parts();
    assert_eq!(status, 422);
    assert_eq!(
        body.details,
        Some(vec![("username".to_string(), vec!["taken".to_string()])])
    );
}

#[test]
fn status_codes_are_canonical() {
    assert_eq!(ApiError::Unauthorized.status_code(), 401);
    assert_eq!(storage_violation("x").status_code(), 500);
    assert_eq!(
        ApiError::Internal { title: "t".to_string(), cause: None }.status_code(),
        500
    );
    assert_eq!(
        ApiError::ValidationRejection { status: 400, body: "bad json".to_string() }.status_code(),
        400
    );
    assert_eq!(
        ApiError::custom(418, "t".to_string(), "m".to_string()).status_code(),
        418
    );
}

#[test]
fn internal_error_shows_cause_only_when_present() {
    let (status, body) = ApiError::Internal {
        title: "boom".to_string(),
        cause: Some("root cause".to_string()),
    }
    .into_response_parts();
    assert_eq!(status, 500);
    assert_eq!(body.title, "boom");
    assert_eq!(body.message, "root cause");

    let (_, body) = ApiError::Internal { title: "boom".to_string(), cause: None }
        .into_response_parts();
    assert_eq!(body.message, "");
}

#[test]
fn storage_error_keeps_its_message() {
    let (status, body) = storage_violation("whatever").into_response_parts();
    assert_eq!(status, 500);
    assert_eq!(body.title, "資料庫錯誤");
    assert_eq!(body.message, "duplicate key value violates unique constraint");
}

#[test]
fn rejection_echoes_status_and_text() {
    let e = ApiError::ValidationRejection { status: 400, body: "expected value".to_string() };
    let (status, body) = e.into_response_parts();
    assert_eq!(status, 400);
    assert_eq!(body.title, "JSON 格式錯誤");
    assert_eq!(body.message, "expected value");
}

#[test]
fn on_constraint_rewrites_only_the_named_violation() {
    let hit: Result<(), ApiError> = Err(storage_violation("users_email_key"));
    let out = on_constraint(hit, "users_email_key", ApiError::Unauthorized);
    assert_eq!(out, Err(ApiError::Unauthorized));

    let miss: Result<(), ApiError> = Err(storage_violation("users_username_key"));
    let out = on_constraint(miss, "users_email_key", ApiError::Unauthorized);
    assert_eq!(out, Err(storage_violation("users_username_key")));

    let ok: Result<u32, ApiError> = Ok(7);
    let out = on_constraint(ok, "users_email_key", ApiError::Unauthorized);
    assert_eq!(out, Ok(7));
}

#[test]
fn duplicate_username_becomes_validation_error() {
    let cfg = Config { database_url: String::new(), hmac_key: "c2VjcmV0LWtleQ==".to_string() };
    let r = create_user_outcome(
        "alice".to_string(),
        "alice@example.com".to_string(),
        Err(storage_violation("users_username_key")),
        &cfg,
        0,
    );
    let e = r.err().unwrap();
    assert_eq!(e.status_code(), 422);
    match e {
        ApiError::UnprocessableEntity { errors } => assert_eq!(
            errors,
            vec![("username".to_string(), vec!["帳號已存在。".to_string()])]
        ),
        _ => panic!(),
    }
}

#[test]
fn constraint_table_covers_all_five() {
    let cases = [
        ("users_username_key", "username", "帳號已存在。"),
        ("users_email_key", "email", "信箱已存在。"),
        ("users_username_check", "username", "帳號不可為空。"),
        ("users_email_check", "email", "信箱不可為空。"),
        ("users_password_hash_check", "password", "密碼不可為空。"),
    ];
    for (constraint, field, message) in cases {
        let r = update_user_outcome(Err(storage_violation(constraint)), "tok".to_string());
        match r.err().unwrap() {
            ApiError::UnprocessableEntity { errors } => assert_eq!(
                errors,
                vec![(field.to_string(), vec![message.to_string()])]
            ),
            _ => panic!(),
        }
    }
}

#[test]
fn unmapped_storage_error_passes_through() {
    let r = update_user_outcome(Err(storage_violation("users_pkey")), "tok".to_string());
    assert_eq!(r.err().unwrap(), storage_violation("users_pkey"));
}

#[test]
fn update_noop_detection() {
    assert!(update_is_noop(&UpdateUser::default()));
    let req = UpdateUser { username: Some("x".to_string()), email: None, password: None };
    assert!(!update_is_noop(&req));
}

#[test]
fn prepare_update_hashes_only_when_asked() {
    let req = UpdateUser {
        username: Some("carol".to_string()),
        email: None,
        password: Some("new-pw".to_string()),
    };
    let patch = prepare_update(req).unwrap();
    assert_eq!(patch.username, Some("carol".to_string()));
    assert_eq!(patch.email, None);
    let hash = patch.password_hash.unwrap();
    assert_eq!(verify_password(&"new-pw".to_string(), &hash).unwrap(), true);

    let none = prepare_update(UpdateUser::default()).unwrap();
    assert!(none.password_hash.is_none());
}

#[test]
fn update_success_echoes_token() {
    let record = ProfileRecord { username: "carol".to_string(), email: "c@example.com".to_string() };
    let resp = update_user_outcome(Ok(record), "the-token".to_string()).unwrap();
    assert_eq!(resp.message, "更新成功");
    assert_eq!(resp.data.username, "carol");
    assert_eq!(resp.data.email, "c@example.com");
    assert_eq!(resp.data.token, "the-token");
}
