//! Tests of token generation, password hashing and the route decisions.

use wms_api::db::DbLookup;
use wms_api::model::Timestamp;
use wms_api::model::User;
use wms_api::routes::catchers::not_found;
use wms_api::routes::catchers::too_many_requests;
use wms_api::routes::catchers::unauthorized;
use wms_api::routes::connection;
use wms_api::routes::devices;
use wms_api::routes::get_connection;
use wms_api::routes::get_user;
use wms_api::routes::login;
use wms_api::routes::user::create_user;
use wms_api::routes::user::create_user::CreateUserStep;
use wms_api::routes::user::login as user_login;
use wms_api::routes::user::login::LoginStep;
use wms_api::routes::user::register_email;
use wms_api::routes::user::register_email::RegisterEmailStep;
use wms_api::routes::user::registration;
use wms_api::routes::user::registration::RegistrationStep;
use wms_api::routes::user::this as user_this;
use wms_api::routes::user::verify_email;
use wms_api::routes::user::verify_email::VerifyEmailStep;
use wms_api::routes::LoginRequest;
use wms_api::util::generate_token;
use wms_api::util::hash_password;
use wms_api::util::is_duplicate_code;

fn sample_time() -> Timestamp {
    Timestamp { year: 2024, month: 3, day: 9, hour: 8, minute: 5, second: 30 }
}

fn registered_user(password_digest: Option<String>) -> User {
    User {
        id: "u1".to_string(),
        username: Some("someone".to_string()),
        password: password_digest,
        email: "someone@example.com".to_string(),
        verification_token: None,
        access_token: None,
        created_at: sample_time(),
        access_token_expire: None,
    }
}

fn blank_user() -> User {
    User {
        id: "u2".to_string(),
        username: None,
        password: None,
        email: "new@example.com".to_string(),
        verification_token: Some("ABCDE".to_string()),
        access_token: None,
        created_at: sample_time(),
        access_token_expire: None,
    }
}

#[test]
fn generated_tokens_are_letters_of_the_asked_length() {
    for len in [0u8, 1, 5, 20] {
        let t = generate_token(len);
        assert_eq!(t.len(), len as usize);
        assert!(t.chars().all(|c| c.is_ascii_alphabetic()));
    }
}

#[test]
fn password_hashing_is_a_sixty_four_digit_hex_rendering() {
    let h = hash_password("password123");
    assert_eq!(h.len(), 64);
    assert!(h.chars().all(|c| c.is_ascii_hexdigit() && !c.is_ascii_uppercase()));
    assert_ne!(h, "password123");
    assert_eq!(h, hash_password("password123"));
    assert_ne!(h, hash_password("password124"));
    // Exact digests, checked against an independent SHA3-256 implementation.
    assert_eq!(
        hash_password(""),
        "a7ffc6f8bf1ed76651c14756a061d662f580ff4de43b49fa82d80a4b80f8434a"
    );
    assert_eq!(h, "ab3fe4003f14e3ef573417f95e47d4985c482eadd139c08b3758eeae7cc60b9d");
}

#[test]
fn duplicate_key_code_recognition() {
    assert!(is_duplicate_code(&"23505".to_string()));
    assert!(!is_duplicate_code(&"23503".to_string()));
    assert!(!is_duplicate_code(&"".to_string()));
    assert!(!wms_api::util::is_duplicated_error(&sqlx::Error::RowNotFound));
    assert_eq!(
        wms_api::routes::update_failure_status(&sqlx::Error::RowNotFound),
        500
    );
}

#[test]
fn catchers_answer_their_fixed_messages() {
    assert_eq!(not_found().message, "Not found");
    assert_eq!(unauthorized().message, "You're not authorized!");
    assert_eq!(too_many_requests().message, "You're limited!");
}

#[test]
fn placeholder_routes_answer_locked_or_empty() {
    assert_eq!(get_user().unwrap_err(), 423);
    assert_eq!(get_connection().unwrap_err(), 423);
    assert_eq!(connection::get().unwrap_err(), 423);
    let body = login(&LoginRequest { username: "a".to_string(), password: "b".to_string() });
    assert_eq!(body.unwrap().topic, "");
}

#[test]
fn create_user_decision() {
    let data = create_user::CreateUserRequestType {
        username: "name".to_string(),
        password: "secret".to_string(),
    };
    let token = "tok".to_string();
    assert!(matches!(
        create_user::post(None, DbLookup::Found(blank_user()), &data),
        CreateUserStep::Reject { status: 401 }
    ));
    assert!(matches!(
        create_user::post(Some(&token), DbLookup::Fault, &data),
        CreateUserStep::Reject { status: 500 }
    ));
    assert!(matches!(
        create_user::post(Some(&token), DbLookup::Missing, &data),
        CreateUserStep::Reject { status: 401 }
    ));
    assert!(matches!(
        create_user::post(Some(&token), DbLookup::Found(registered_user(Some("d".to_string()))), &data),
        CreateUserStep::Reject { status: 401 }
    ));
    match create_user::post(Some(&token), DbLookup::Found(blank_user()), &data) {
        CreateUserStep::UpdateCredentials { username, hashed_password } => {
            assert_eq!(username, "name");
            assert_eq!(hashed_password, hash_password("secret"));
        },
        _ => panic!("a blank account must get its credentials"),
    }
}

#[test]
fn login_decision() {
    let creds = user_login::LoginRequest {
        username: "someone".to_string(),
        password: "secret".to_string(),
    };
    assert!(matches!(
        user_login::post(&creds, DbLookup::Fault),
        LoginStep::Reject { status: 500 }
    ));
    assert!(matches!(
        user_login::post(&creds, DbLookup::Missing),
        LoginStep::Reject { status: 404 }
    ));
    assert!(matches!(
        user_login::post(&creds, DbLookup::Found(registered_user(None))),
        LoginStep::Reject { status: 404 }
    ));
    assert!(matches!(
        user_login::post(&creds, DbLookup::Found(registered_user(Some(hash_password("wrong"))))),
        LoginStep::Reject { status: 401 }
    ));
    match user_login::post(&creds, DbLookup::Found(registered_user(Some(hash_password("secret"))))) {
        LoginStep::IssueToken { user_id, access_token } => {
            assert_eq!(user_id, "u1");
            assert_eq!(access_token.len(), 20);
            assert!(access_token.chars().all(|c| c.is_ascii_alphabetic()));
        },
        _ => panic!("matching credentials must log in"),
    }
}

#[test]
fn register_email_decision() {
    let token = register_email::make_verification_token();
    assert_eq!(token.len(), 5);
    assert_eq!(
        register_email::email_verification_body(&"ABCDE".to_string()),
        "Here's the token for verification: ABCDE"
    );
    assert!(matches!(
        register_email::post("t".to_string(), "i".to_string(), DbLookup::Fault),
        RegisterEmailStep::Reject { status: 500 }
    ));
    assert!(matches!(
        register_email::post("t".to_string(), "i".to_string(), DbLookup::Found(registered_user(None))),
        RegisterEmailStep::Reject { status: 409 }
    ));
    match register_email::post("t".to_string(), "i".to_string(), DbLookup::Found(blank_user())) {
        RegisterEmailStep::UpdateVerification { verification_token } => {
            assert_eq!(verification_token, "t");
        },
        _ => panic!("an unverified account gets a fresh token"),
    }
    match register_email::post("t".to_string(), "i".to_string(), DbLookup::Missing) {
        RegisterEmailStep::CreateUser { id, verification_token } => {
            assert_eq!(id, "i");
            assert_eq!(verification_token, "t");
        },
        _ => panic!("a new address gets a fresh record"),
    }
}

#[test]
fn registration_decision() {
    let data = registration::RegistrationRequestType {
        verification_token: "ABCDE".to_string(),
        username: "name".to_string(),
        password: "secret".to_string(),
    };
    assert!(matches!(
        registration::post(&data, DbLookup::Fault),
        RegistrationStep::Reject { status: 500 }
    ));
    assert!(matches!(
        registration::post(&data, DbLookup::Missing),
        RegistrationStep::Reject { status: 401 }
    ));
    match registration::post(&data, DbLookup::Found(blank_user())) {
        RegistrationStep::CompleteRegistration {
            username,
            hashed_password,
            access_token,
            access_token_expire,
        } => {
            assert_eq!(username, "name");
            assert_eq!(hashed_password, hash_password("secret"));
            assert_eq!(access_token.len(), 20);
            assert_eq!(
                (access_token_expire.hour, access_token_expire.minute, access_token_expire.second),
                (0, 0, 0)
            );
        },
        _ => panic!("a known verification token completes registration"),
    }
}

#[test]
fn verify_email_decision() {
    assert!(matches!(
        verify_email::post(DbLookup::Fault),
        VerifyEmailStep::Reject { status: 500 }
    ));
    assert!(matches!(
        verify_email::post(DbLookup::Missing),
        VerifyEmailStep::Reject { status: 401 }
    ));
    match verify_email::post(DbLookup::Found(blank_user())) {
        VerifyEmailStep::IssueToken { access_token, access_token_expire } => {
            assert_eq!(access_token.len(), 20);
            assert_eq!((access_token_expire.minute, access_token_expire.second), (0, 0));
        },
        _ => panic!("a known verification token issues an access token"),
    }
}

#[test]
fn account_view_decision() {
    let token = "tok".to_string();
    let exposed = user_this::ExposedUser {
        id: "u1".to_string(),
        username: Some("someone".to_string()),
        email: "someone@example.com".to_string(),
        created_at: sample_time(),
    };
    assert_eq!(user_this::get(None, DbLookup::Found(exposed.clone())).unwrap_err(), 401);
    assert_eq!(user_this::get(Some(&token), DbLookup::Fault).unwrap_err(), 500);
    assert_eq!(user_this::get(Some(&token), DbLookup::Missing).unwrap_err(), 401);
    let body = user_this::get(Some(&token), DbLookup::Found(exposed)).unwrap();
    assert_eq!(body.user_data.id, "u1");
    assert_eq!(body.user_data.email, "someone@example.com");
}

#[test]
fn device_listing_decision() {
    let token = "tok".to_string();
    assert_eq!(devices::this::get(None, DbLookup::Found(registered_user(None))).unwrap_err(), 401);
    assert_eq!(devices::this::get(Some(&token), DbLookup::Fault).unwrap_err(), 500);
    assert_eq!(devices::this::get(Some(&token), DbLookup::Missing).unwrap_err(), 401);
    let u = devices::this::get(Some(&token), DbLookup::Found(registered_user(None))).unwrap();
    assert_eq!(u.id, "u1");

    let mut listing = Vec::new();
    let device = wms_api::model::Device {
        id: "dev-1".to_string(),
        created_at: sample_time(),
        access_token: "D1".to_string(),
    };
    assert_eq!(devices::this::collect_device(&mut listing, DbLookup::Found(device)), None);
    assert_eq!(listing.len(), 1);
    assert_eq!(devices::this::collect_device(&mut listing, DbLookup::Fault), Some(500));
    assert_eq!(devices::this::collect_device(&mut listing, DbLookup::Missing), Some(503));
    assert_eq!(listing.len(), 1);
}
