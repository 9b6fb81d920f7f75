use privara::api::{
    audit_entry_id, check_intent_request, check_tx_hash, explorer_tx_url, parse_proposal_id, prepare_intent, require_admin,
    require_admin_or_auditor, tx_record_status, verify_tx_response, CreateIntentRequest,
};
use chrono::{DateTime, Utc};
use privara::auth::AuthUser;
use privara::error::{validation, AppError};
use privara::ids::{add_hours, Timestamp};

fn user(role: &str) -> AuthUser {
    AuthUser { user_id: 1, org_id: 77, role: role.to_string() }
}

#[test]
fn roles() {
    assert_eq!(require_admin(&user("admin")), Ok(()));
    assert_eq!(require_admin(&user("auditor")), Err(AppError::Unauthorized));
    assert_eq!(require_admin_or_auditor(&user("auditor")), Ok(()));
    assert_eq!(require_admin_or_auditor(&user("admin")), Ok(()));
    assert_eq!(require_admin_or_auditor(&user("member")), Err(AppError::Unauthorized));
    assert_eq!(require_admin_or_auditor(&user("Admin")), Err(AppError::Unauthorized));
}

#[test]
fn tx_hashes() {
    let err = Err(AppError::Validation("Invalid tx hash format".to_string()));
    assert_eq!(check_tx_hash(""), err);
    assert_eq!(check_tx_hash("abc"), err);
    assert_eq!(check_tx_hash("0X12"), err);
    assert_eq!(check_tx_hash("0x"), Ok(()));
    assert_eq!(check_tx_hash("0x12ab"), Ok(()));
    assert_eq!(explorer_tx_url("0x12"), "https://explorer.nitrogen.fhenix.zone/tx/0x12");
    assert_eq!(tx_record_status(true), "success");
    assert_eq!(tx_record_status(false), "pending");
    let resp = verify_tx_response("0x9".to_string(), true);
    assert_eq!(resp.explorer_url, "https://explorer.nitrogen.fhenix.zone/tx/0x9");
    assert!(resp.success);
}

fn intent(addr: &str, secs: u64) -> CreateIntentRequest {
    CreateIntentRequest { payee_address: addr.to_string(), currency: "USDC".to_string(), deadline_seconds: secs }
}

const ADDR: &str = "0x52908400098527886E0F7030069857D2E4169EE7";

#[test]
fn intents() {
    let now = Timestamp::new(1_700_000_000, 9).unwrap();
    assert_eq!(prepare_intent(&user("auditor"), &intent(ADDR, 60), now), Err(AppError::Unauthorized));
    let bad_addr = Err(AppError::Validation("Invalid payee address".to_string()));
    assert_eq!(prepare_intent(&user("admin"), &intent("0x1234", 60), now), bad_addr);
    assert_eq!(prepare_intent(&user("admin"), &intent(&ADDR.replace("0x", "1x"), 60), now), bad_addr);
    let bad_deadline = Err(AppError::Validation("Deadline must be 1s\u{2013}7days".to_string()));
    assert_eq!(prepare_intent(&user("admin"), &intent(ADDR, 0), now), bad_deadline);
    assert_eq!(prepare_intent(&user("admin"), &intent(ADDR, 604_801), now), bad_deadline);
    let rec = prepare_intent(&user("admin"), &intent(ADDR, 604_800), now).unwrap();
    assert_eq!(rec.org_id, 77);
    assert_eq!(rec.payee_address, ADDR);
    assert_eq!(rec.process_deadline, Timestamp::new(1_700_604_800, 9).unwrap());
    assert_eq!(uuid::Uuid::from_u128(rec.id).get_version_num(), 4);
    assert_eq!(uuid::Uuid::from_u128(rec.id).get_variant(), uuid::Variant::RFC4122);
}

#[test]
fn request_ids() {
    assert_eq!(parse_proposal_id("00000000-0000-0000-0000-000000000010"), Ok(16));
    assert_eq!(parse_proposal_id("xyz"), Err(validation("Invalid proposal ID")));
    assert_eq!(audit_entry_id(&user("member"), "xyz"), Err(AppError::Unauthorized));
    assert_eq!(audit_entry_id(&user("auditor"), "xyz"), Err(AppError::Unauthorized));
    assert_eq!(
        audit_entry_id(&user("auditor"), "00000000-0000-0000-0000-000000000001"),
        Err(AppError::Unauthorized)
    );
    assert_eq!(audit_entry_id(&user("admin"), "xyz"), Err(AppError::Validation("Invalid ID".to_string())));
    assert_eq!(audit_entry_id(&user("admin"), "{00000000-0000-0000-0000-000000000001}"), Ok(1));
}

#[test]
fn error_answers() {
    assert_eq!(AppError::Unauthorized.status_code(), 401);
    assert_eq!(AppError::Unauthorized.public_message(), "Authentication failed");
    assert_eq!(AppError::NotFound.status_code(), 404);
    assert_eq!(AppError::NotFound.public_message(), "Resource not found");
    assert_eq!(validation("bad").status_code(), 400);
    assert_eq!(validation("bad").public_message(), "bad");
    assert_eq!(AppError::Encryption("x".to_string()).status_code(), 500);
    assert_eq!(AppError::Encryption("x".to_string()).public_message(), "x");
    assert_eq!(AppError::Database("pool timed out".to_string()).public_message(), "Database error");
    assert_eq!(AppError::Internal("boom".to_string()).public_message(), "Internal server error");
    assert_eq!(AppError::Internal("boom".to_string()).status_code(), 500);
}

#[test]
fn instants() {
    assert!(Timestamp::new(0, 1_000_000_000).is_none());
    assert!(Timestamp::new(8_210_266_876_799, 999_999_999).is_some());
    assert!(Timestamp::new(8_210_266_876_800, 0).is_none());
    assert!(Timestamp::new(-8_334_601_228_800, 0).is_some());
    assert!(Timestamp::new(-8_334_601_228_801, 999_999_999).is_none());
    let a = Timestamp::new(5, 1).unwrap();
    let b = Timestamp::new(5, 2).unwrap();
    assert!(a.is_before(&b));
    assert!(!b.is_before(&a));
    assert!(!a.is_before(&a));
}

#[test]
fn instant_range_is_chronos() {
    assert!(DateTime::<Utc>::from_timestamp(8_210_266_876_799, 999_999_999).is_some());
    assert!(DateTime::<Utc>::from_timestamp(8_210_266_876_800, 0).is_none());
    assert!(DateTime::<Utc>::from_timestamp(-8_334_601_228_800, 0).is_some());
    assert!(DateTime::<Utc>::from_timestamp(-8_334_601_228_801, 999_999_999).is_none());
}

#[test]
fn adding_hours() {
    let now = Timestamp::new(1_000, 5).unwrap();
    assert_eq!(add_hours(now, 2), Timestamp::new(8_200, 5));
    assert_eq!(add_hours(now, -1), Timestamp::new(-2_600, 5));
    let top = Timestamp::new(8_210_266_876_799 - 3600, 7).unwrap();
    assert_eq!(add_hours(top, 1), Timestamp::new(8_210_266_876_799, 7));
    assert_eq!(add_hours(top, 2), None);
    assert_eq!(add_hours(now, i64::MAX), None);
    assert_eq!(add_hours(now, i64::MIN / 3600), None);
    let bottom = Timestamp::new(-8_334_601_228_800 + 3600, 0).unwrap();
    assert_eq!(add_hours(bottom, -1), Timestamp::new(-8_334_601_228_800, 0));
    assert_eq!(add_hours(bottom, -2), None);
}

#[test]
fn intent_request_checks() {
    assert_eq!(check_intent_request(&user("admin"), &intent(ADDR, 1)), Ok(()));
    assert_eq!(check_intent_request(&user("member"), &intent("bad", 0)), Err(AppError::Unauthorized));
    assert_eq!(check_intent_request(&user("admin"), &intent("bad", 0)),
        Err(AppError::Validation("Invalid payee address".to_string())));
}
