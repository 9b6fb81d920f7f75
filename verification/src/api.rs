//! Request checks of the HTTP endpoints: who may call them and which
//! bodies they accept.
use vstd::prelude::*;
use vstd::string::*;
use vstd::utf8::encode_utf8;
use crate::auth::AuthUser;
use crate::error::{is_validation, validation, AppError};
use crate::ids::{chrono_add_seconds, is_v4, max_instant_secs, uuid_from_str, uuid_new_v4, uuid_parse, Timestamp};
use crate::text::{has_prefix, text_eq, text_starts_with};

verus! {

/// Longest processing deadline of a payroll intent: seven days, in seconds.
pub const MAX_INTENT_DEADLINE_SECS: u64 = 604_800;

/// Length in bytes of a `0x`-prefixed EVM address.
pub const ADDRESS_TEXT_LEN: usize = 42;

/// Body of a transaction verification request.
#[derive(Debug, Clone, PartialEq, Eq)]
pub struct VerifyTxRequest {
    pub tx_hash: String,
}

/// Answer to a transaction verification request.
#[derive(Debug, Clone, PartialEq, Eq)]
pub struct VerifyTxResponse {
    pub tx_hash: String,
    pub success: bool,
    pub explorer_url: String,
}

/// Query of a wallet balance request.
#[derive(Debug, Clone, PartialEq, Eq)]
pub struct BalanceRequest {
    pub address: String,
}

/// Body of a payroll intent creation request.
#[derive(Debug, Clone, PartialEq, Eq)]
pub struct CreateIntentRequest {
    pub payee_address: String,
    pub currency: String,
    pub deadline_seconds: u64,
}

/// Body of a request linking an intent to its on-chain id.
#[derive(Debug, Clone, PartialEq, Eq)]
pub struct ConfirmOnchainRequest {
    pub intent_id: String,
    pub on_chain_id: u64,
    pub tx_hash: String,
}

/// A payroll intent ready to be stored.
#[derive(Debug, Clone, PartialEq, Eq)]
pub struct IntentRecord {
    pub id: u128,
    pub org_id: u128,
    pub payee_address: String,
    pub currency: String,
    pub process_deadline: Timestamp,
}

/// Only administrators may proceed.
pub fn require_admin(user: &AuthUser) -> (r: Result<(), AppError>)
    ensures
        r is Ok <==> user.role@ == "admin"@,
        r matches Err(e) ==> e == AppError::Unauthorized,
{
    if text_eq(user.role.as_str(), "admin") {
        Ok(())
    } else {
        Err(AppError::Unauthorized)
    }
}

/// Only administrators and auditors may proceed.
pub fn require_admin_or_auditor(user: &AuthUser) -> (r: Result<(), AppError>)
    ensures
        r is Ok <==> (user.role@ == "admin"@ || user.role@ == "auditor"@),
        r matches Err(e) ==> e == AppError::Unauthorized,
{
    if text_eq(user.role.as_str(), "admin") || text_eq(user.role.as_str(), "auditor") {
        Ok(())
    } else {
        Err(AppError::Unauthorized)
    }
}

/// A transaction hash must be non-empty and start with `0x`.
pub fn check_tx_hash(tx_hash: &str) -> (r: Result<(), AppError>)
    ensures
        r is Ok <==> (tx_hash@.len() > 0 && has_prefix(tx_hash@, "0x"@)),
        r matches Err(e) ==> is_validation(e, "Invalid tx hash format"@),
{
    if tx_hash.is_empty() || !text_starts_with(tx_hash, "0x") {
        Err(validation("Invalid tx hash format"))
    } else {
        Ok(())
    }
}

/// The block explorer page of a transaction.
pub fn explorer_tx_url(tx_hash: &str) -> (url: String)
    ensures
        url@ == "https://explorer.nitrogen.fhenix.zone/tx/"@ + tx_hash@,
{
    String::from_str("https://explorer.nitrogen.fhenix.zone/tx/").concat(tx_hash)
}

/// The status recorded for a checked transaction.
pub fn tx_record_status(success: bool) -> (s: String)
    ensures
        s@ == (if success { "success"@ } else { "pending"@ }),
{
    if success {
        String::from_str("success")
    } else {
        String::from_str("pending")
    }
}

/// The answer to a verification request, with the explorer link.
pub fn verify_tx_response(tx_hash: String, success: bool) -> (resp: VerifyTxResponse)
    ensures
        resp.tx_hash == tx_hash,
        resp.success == success,
        resp.explorer_url@ == "https://explorer.nitrogen.fhenix.zone/tx/"@ + tx_hash@,
{
    let explorer_url = explorer_tx_url(tx_hash.as_str());
    VerifyTxResponse { tx_hash, success, explorer_url }
}

/// The payee address looks like an EVM address: 42 bytes, `0x` first.
pub open spec fn payee_address_ok(a: Seq<char>) -> bool {
    encode_utf8(a).len() == 42 && has_prefix(a, "0x"@)
}

/// The deadline lies between one second and seven days.
pub open spec fn intent_deadline_ok(secs: u64) -> bool {
    1 <= secs <= 604_800
}

/// The caller may create this intent: an administrator, a 42-byte `0x`
/// payee address and a deadline between one second and seven days.
pub open spec fn intent_request_ok(user: AuthUser, req: CreateIntentRequest) -> bool {
    user.role@ == "admin"@ && payee_address_ok(req.payee_address@) && intent_deadline_ok(req.deadline_seconds)
}

/// Checks an intent request: only an administrator may create one, the
/// payee must be a 42-byte `0x` address, and the deadline between one second
/// and seven days.
pub fn check_intent_request(user: &AuthUser, req: &CreateIntentRequest) -> (r: Result<(), AppError>)
    ensures
        user.role@ != "admin"@ ==> r == Err::<(), AppError>(AppError::Unauthorized),
        user.role@ == "admin"@ && !payee_address_ok(req.payee_address@) ==> (r matches Err(e)
            && is_validation(e, "Invalid payee address"@)),
        user.role@ == "admin"@ && payee_address_ok(req.payee_address@) && !intent_deadline_ok(req.deadline_seconds)
            ==> (r matches Err(e) && is_validation(e, "Deadline must be 1s\u{2013}7days"@)),
        r is Ok <==> intent_request_ok(*user, *req),
{
    require_admin(user)?;
    if req.payee_address.as_str().as_bytes().len() != ADDRESS_TEXT_LEN || !text_starts_with(req.payee_address.as_str(), "0x") {
        return Err(validation("Invalid payee address"));
    }
    if req.deadline_seconds == 0 || req.deadline_seconds > MAX_INTENT_DEADLINE_SECS {
        return Err(validation("Deadline must be 1s\u{2013}7days"));
    }
    Ok(())
}

/// Builds a payroll intent at `now` for the caller's organization, once the
/// request passes `check_intent_request`; its deadline lies the requested
/// number of seconds after `now`.
pub fn prepare_intent(user: &AuthUser, req: &CreateIntentRequest, now: Timestamp) -> (r: Result<IntentRecord, AppError>)
    requires
        now.wf(),
        intent_request_ok(*user, *req) ==> now.secs + req.deadline_seconds <= max_instant_secs(),
    ensures
        user.role@ != "admin"@ ==> r == Err::<IntentRecord, AppError>(AppError::Unauthorized),
        user.role@ == "admin"@ && !payee_address_ok(req.payee_address@) ==> (r matches Err(e)
            && is_validation(e, "Invalid payee address"@)),
        user.role@ == "admin"@ && payee_address_ok(req.payee_address@) && !intent_deadline_ok(req.deadline_seconds)
            ==> (r matches Err(e) && is_validation(e, "Deadline must be 1s\u{2013}7days"@)),
        r matches Ok(rec) ==> {
            &&& user.role@ == "admin"@
            &&& payee_address_ok(req.payee_address@)
            &&& intent_deadline_ok(req.deadline_seconds)
            &&& is_v4(rec.id)
            &&& rec.org_id == user.org_id
            &&& rec.payee_address == req.payee_address
            &&& rec.currency == req.currency
            &&& rec.process_deadline.wf()
            &&& rec.process_deadline.secs == now.secs + req.deadline_seconds
            &&& rec.process_deadline.nanos == now.nanos
        },
        user.role@ == "admin"@ && payee_address_ok(req.payee_address@) && intent_deadline_ok(req.deadline_seconds)
            ==> r is Ok,
{
    check_intent_request(user, req)?;
    let id = uuid_new_v4();
    let process_deadline = match chrono_add_seconds(now, req.deadline_seconds as i64) {
        Some(t) => t,
        None => vstd::pervasive::unreached(),
    };
    Ok(IntentRecord {
        id,
        org_id: user.org_id,
        payee_address: req.payee_address.clone(),
        currency: req.currency.clone(),
        process_deadline,
    })
}

/// Reads an id from a request, refusing it with `message` when it is not a
/// UUID.
pub fn parse_request_id(text: &str, message: &str) -> (r: Result<u128, AppError>)
    ensures
        match uuid_parse(text@) {
            Some(u) => r == Ok::<u128, AppError>(u),
            None => r matches Err(e) && is_validation(e, message@),
        },
{
    match uuid_from_str(text) {
        Ok(u) => Ok(u),
        Err(_) => Err(validation(message)),
    }
}

/// The proposal id of a vote request.
pub fn parse_proposal_id(text: &str) -> (r: Result<u128, AppError>)
    ensures
        match uuid_parse(text@) {
            Some(u) => r == Ok::<u128, AppError>(u),
            None => r matches Err(e) && is_validation(e, "Invalid proposal ID"@),
        },
{
    parse_request_id(text, "Invalid proposal ID")
}

/// The payroll entry named by an audit request: only administrators may
/// ask, and the id must be a UUID.
pub fn audit_entry_id(user: &AuthUser, id: &str) -> (r: Result<u128, AppError>)
    ensures
        user.role@ != "admin"@ ==> r == Err::<u128, AppError>(AppError::Unauthorized),
        user.role@ == "admin"@ ==> match uuid_parse(id@) {
            Some(u) => r == Ok::<u128, AppError>(u),
            None => r matches Err(e) && is_validation(e, "Invalid ID"@),
        },
{
    require_admin(user)?;
    parse_request_id(id, "Invalid ID")
}

} // verus!
