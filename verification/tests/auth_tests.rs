use privara::auth::{
    auth_user_from_claims, bearer_token, check_login, check_password, hash_password, prepare_registration,
    token_claims, verify_password, Claims, LoginRequest, RegisterRequest, StoredCredentials,
};
use privara::error::AppError;
use privara::ids::Timestamp;

const USER: u128 = 0x67e5_5044_10b1_426f_9247_bb68_0e5f_e0c8;
const ORG: u128 = 0x0000_0000_0000_4000_8000_0000_0000_0001;

fn short_password_error() -> AppError {
    AppError::Validation("Password must be at least 12 characters".to_string())
}

#[test]
fn passwords_need_twelve_bytes() {
    assert_eq!(check_password("short"), Err(short_password_error()));
    assert_eq!(check_password("elevenchars"), Err(short_password_error()));
    assert_eq!(check_password("twelve-chars"), Ok(()));
    // seven characters, fourteen bytes of UTF-8
    assert_eq!(check_password("ééééééé"), Ok(()));
}

#[test]
fn hashed_password_verifies() {
    let h = hash_password("correct horse battery").unwrap();
    assert!(h.starts_with("$2b$12$"));
    assert_eq!(h.len(), 60);
    assert_ne!(h, "correct horse battery");
    assert_eq!(verify_password("correct horse battery", &h), Ok(true));
    assert_eq!(verify_password("wrong horse battery", &h), Ok(false));
    assert!(bcrypt::verify("correct horse battery", &h).unwrap());
    assert!(matches!(verify_password("x", "not a hash"), Err(AppError::Internal(_))));
}

#[test]
fn registration_checks_password_then_hashes() {
    let bad = RegisterRequest {
        org_name: "Acme".to_string(),
        email: "a@acme.io".to_string(),
        password: "tiny".to_string(),
    };
    assert_eq!(prepare_registration(bad), Err(short_password_error()));
    let good = RegisterRequest {
        org_name: "Acme".to_string(),
        email: "a@acme.io".to_string(),
        password: "a long enough password".to_string(),
    };
    let reg = prepare_registration(good).unwrap();
    assert_eq!(reg.org_name, "Acme");
    assert_eq!(reg.email, "a@acme.io");
    assert_eq!(reg.role, "admin");
    assert!(bcrypt::verify("a long enough password", &reg.password_hash).unwrap());
    assert_ne!(reg.org_id, reg.user_id);
    assert!(reg.password_hash.starts_with("$2b$12$"));
    assert_eq!(reg.password_hash.len(), 60);
    for id in [reg.org_id, reg.user_id] {
        let u = uuid::Uuid::from_u128(id);
        assert_eq!(u.get_version_num(), 4);
        assert_eq!(u.get_variant(), uuid::Variant::RFC4122);
    }
}

#[test]
fn login_decisions() {
    let req = LoginRequest { email: "a@acme.io".to_string(), password: "a long enough password".to_string() };
    assert_eq!(check_login(&req, None), Err(AppError::Unauthorized));
    let hash = bcrypt::hash("a long enough password", 4).unwrap();
    let stored = StoredCredentials {
        id: uuid::Uuid::from_u128(USER).to_string(),
        org_id: uuid::Uuid::from_u128(ORG).to_string(),
        password_hash: hash.clone(),
        role: "member".to_string(),
    };
    let id = check_login(&req, Some(stored.clone())).unwrap();
    assert_eq!(id.user_id, USER);
    assert_eq!(id.org_id, ORG);
    assert_eq!(id.role, "member");
    let wrong = LoginRequest { email: req.email.clone(), password: "another password!".to_string() };
    assert_eq!(check_login(&wrong, Some(stored.clone())), Err(AppError::Unauthorized));
    let mut broken = stored.clone();
    broken.password_hash = "garbage".to_string();
    assert!(matches!(check_login(&req, Some(broken)), Err(AppError::Internal(_))));
    let mut bad_id = stored;
    bad_id.id = "not-a-uuid".to_string();
    assert!(matches!(check_login(&req, Some(bad_id)), Err(AppError::Internal(_))));
}

#[test]
fn token_claims_expire_twelve_hours_later() {
    let now = Timestamp::new(1_700_000_000, 123).unwrap();
    let c = token_claims(USER, ORG, "admin", now);
    assert_eq!(c.exp, 1_700_000_000 + 12 * 3600);
    assert_eq!(c.sub, uuid::Uuid::from_u128(USER).to_string());
    assert_eq!(c.sub, "67e55044-10b1-426f-9247-bb680e5fe0c8");
    assert_eq!(c.org, "00000000-0000-4000-8000-000000000001");
    assert_eq!(c.role, "admin");
}

#[test]
fn issued_claims_authenticate_their_user() {
    let now = Timestamp::new(1_700_000_000, 0).unwrap();
    let c = token_claims(USER, ORG, "auditor", now);
    let user = auth_user_from_claims(c).unwrap();
    assert_eq!(user.user_id, USER);
    assert_eq!(user.org_id, ORG);
    assert_eq!(user.role, "auditor");
}

#[test]
fn claims_with_bad_ids_are_unauthorized() {
    let c = Claims { sub: "nope".to_string(), org: uuid::Uuid::from_u128(ORG).to_string(), role: "admin".to_string(), exp: 0 };
    assert_eq!(auth_user_from_claims(c), Err(AppError::Unauthorized));
    let c = Claims { sub: uuid::Uuid::from_u128(USER).to_string(), org: "".to_string(), role: "admin".to_string(), exp: 0 };
    assert_eq!(auth_user_from_claims(c), Err(AppError::Unauthorized));
}

#[test]
fn bearer_prefix_is_stripped() {
    assert_eq!(bearer_token(None), Err(AppError::Unauthorized));
    assert_eq!(bearer_token(Some("Bearer abc.def")), Ok("abc.def".to_string()));
    let token = "eyJhbGciOiJIUzI1NiJ9.e30.sig";
    assert_eq!(bearer_token(Some(&format!("Bearer {}", token))), Ok(token.to_string()));
    assert_eq!(bearer_token(Some("Bearer ")), Ok("".to_string()));
    assert_eq!(bearer_token(Some("Bearerxyz")), Err(AppError::Unauthorized));
    assert_eq!(bearer_token(Some("Bearer")), Err(AppError::Unauthorized));
    assert_eq!(bearer_token(Some("bearer abc")), Err(AppError::Unauthorized));
    assert_eq!(bearer_token(Some("Token abc")), Err(AppError::Unauthorized));
}

#[test]
fn registered_admin_can_log_in() {
    let reg = prepare_registration(RegisterRequest {
        org_name: "Beta".to_string(),
        email: "b@beta.io".to_string(),
        password: "registered password".to_string(),
    })
    .unwrap();
    assert_eq!(reg.user_id_text, uuid::Uuid::from_u128(reg.user_id).to_string());
    assert_eq!(reg.org_id_text, uuid::Uuid::from_u128(reg.org_id).to_string());
    let stored = StoredCredentials {
        id: reg.user_id_text.clone(),
        org_id: reg.org_id_text.clone(),
        password_hash: reg.password_hash.clone(),
        role: reg.role.clone(),
    };
    let req = LoginRequest { email: reg.email.clone(), password: "registered password".to_string() };
    let id = check_login(&req, Some(stored)).unwrap();
    assert_eq!(id.user_id, reg.user_id);
    assert_eq!(id.org_id, reg.org_id);
    assert_eq!(id.role, "admin");
}
