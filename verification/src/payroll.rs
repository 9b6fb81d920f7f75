//! Confidential payroll: contractor name, amount and wallet are stored
//! sealed, and the amount is also committed to under a fresh salt.
use vstd::prelude::*;
use vstd::string::*;
use vstd::utf8::encode_utf8;
use crate::cipher::{decrypt, decrypt_spec, encrypt, gcm_max_plaintext, master_text, outcome_is_err, require_master};
use crate::digest::{zk_commit, zk_commit_spec};
use crate::encoding::is_lower_hex_char;
use crate::error::{is_encryption, is_validation, validation, AppError};
use crate::ids::{is_v4, uuid_from_str, uuid_new_v4, uuid_parse, uuid_text, uuid_to_string};

verus! {

/// A payment amount: the decimal text it is stored and committed as, and
/// whether it is zero or negative.
#[derive(Debug, Clone, PartialEq, Eq)]
pub struct PayrollAmount {
    pub text: String,
    pub non_positive: bool,
}

/// What a new payroll entry is made from.
#[derive(Debug, Clone, PartialEq, Eq)]
pub struct CreatePayrollParams {
    pub org_id: u128,
    pub created_by: u128,
    pub contractor_name: String,
    pub amount: PayrollAmount,
    pub currency: String,
    pub wallet_address: String,
}

/// A payroll entry ready to be stored.
#[derive(Debug, Clone, PartialEq, Eq)]
pub struct PayrollRecord {
    pub id: u128,
    pub org_id: u128,
    pub created_by: u128,
    pub contractor_name_enc: String,
    pub amount_enc: String,
    pub currency: String,
    pub wallet_address_enc: String,
    pub zk_commitment: String,
    pub status: String,
}

/// A stored payroll entry as listed.
#[derive(Debug, Clone, PartialEq, Eq)]
pub struct PayrollRow {
    pub id: String,
    pub contractor_name_enc: String,
    pub amount_enc: String,
    pub currency: String,
    pub wallet_address_enc: String,
    pub status: String,
    pub zk_commitment: String,
    pub audit_token: Option<String>,
}

/// A payroll entry as shown to its organization; the amount is the decimal
/// text it was stored as.
#[derive(Debug, Clone, PartialEq, Eq)]
pub struct PayrollView {
    pub id: u128,
    pub contractor_name: String,
    pub amount_text: String,
    pub currency: String,
    pub wallet_address: String,
    pub status: String,
    pub zk_commitment: String,
    pub has_audit_token: bool,
}

/// Answer to a payroll creation request.
#[derive(Debug, Clone, PartialEq, Eq)]
pub struct CreatePayrollResponse {
    pub id: String,
    pub zk_commitment: String,
}

/// All three sealed fields fit under the AES-GCM length limit.
pub open spec fn payroll_fields_fit(p: CreatePayrollParams) -> bool {
    &&& encode_utf8(p.contractor_name@).len() <= gcm_max_plaintext()
    &&& encode_utf8(p.amount.text@).len() <= gcm_max_plaintext()
    &&& encode_utf8(p.wallet_address@).len() <= gcm_max_plaintext()
}

/// Builds a new payroll entry: a non-positive amount, then an empty wallet
/// address, are refused. The entry is `pending`, its amount is committed to
/// under a fresh salt, and the name, amount and wallet are sealed so that
/// reading them back gives them again.
pub fn create_payroll_entry(master: Option<&str>, params: CreatePayrollParams) -> (r: Result<PayrollRecord, AppError>)
    ensures
        params.amount.non_positive ==> (r matches Err(e) && is_validation(e, "Amount must be positive"@)),
        !params.amount.non_positive && params.wallet_address@.len() == 0 ==> (r matches Err(e)
            && is_validation(e, "Wallet address is required"@)),
        !params.amount.non_positive && params.wallet_address@.len() > 0 && master is None ==> (r matches Err(e)
            && is_encryption(e, "Master key not configured"@)),
        !params.amount.non_positive && params.wallet_address@.len() > 0 && master is Some ==> (r is Ok <==> payroll_fields_fit(params)),
        !params.amount.non_positive && params.wallet_address@.len() > 0 ==> (r matches Err(e) ==> e is Encryption),
        r matches Ok(rec) ==> master matches Some(master) && {
            &&& is_v4(rec.id)
            &&& rec.org_id == params.org_id
            &&& rec.created_by == params.created_by
            &&& rec.currency == params.currency
            &&& rec.status@ == "pending"@
            &&& decrypt_spec(master@, rec.contractor_name_enc@, "payroll:name"@) == Ok::<Seq<char>, Seq<char>>(params.contractor_name@)
            &&& decrypt_spec(master@, rec.amount_enc@, "payroll:amount"@) == Ok::<Seq<char>, Seq<char>>(params.amount.text@)
            &&& decrypt_spec(master@, rec.wallet_address_enc@, "payroll:wallet"@) == Ok::<Seq<char>, Seq<char>>(params.wallet_address@)
            &&& exists|salt: u128| rec.zk_commitment@ == #[trigger] zk_commit_spec(params.amount.text@, uuid_text(salt))
            &&& rec.zk_commitment@.len() == 64
            &&& forall|i: int| 0 <= i < 64 ==> #[trigger] is_lower_hex_char(rec.zk_commitment@[i])
        },
{
    if params.amount.non_positive {
        return Err(validation("Amount must be positive"));
    }
    if params.wallet_address.as_str().is_empty() {
        return Err(validation("Wallet address is required"));
    }
    let id = uuid_new_v4();
    let salt_id = uuid_new_v4();
    let salt = uuid_to_string(salt_id);
    let zk_commitment = zk_commit(params.amount.text.as_str(), salt.as_str());
    let master = require_master(master)?;
    let contractor_name_enc = encrypt(master, params.contractor_name.as_str(), "payroll:name")?;
    let amount_enc = encrypt(master, params.amount.text.as_str(), "payroll:amount")?;
    let wallet_address_enc = encrypt(master, params.wallet_address.as_str(), "payroll:wallet")?;
    Ok(PayrollRecord {
        id,
        org_id: params.org_id,
        created_by: params.created_by,
        contractor_name_enc,
        amount_enc,
        currency: params.currency,
        wallet_address_enc,
        zk_commitment,
        status: String::from_str("pending"),
    })
}

/// The contractor name, amount text and wallet that a stored entry reads
/// back as, when all three open.
pub open spec fn payroll_fields_read(master: Seq<char>, row: PayrollRow) -> Option<(Seq<char>, Seq<char>, Seq<char>)> {
    match (
        decrypt_spec(master, row.contractor_name_enc@, "payroll:name"@),
        decrypt_spec(master, row.amount_enc@, "payroll:amount"@),
        decrypt_spec(master, row.wallet_address_enc@, "payroll:wallet"@),
    ) {
        (Ok(name), Ok(amount), Ok(wallet)) => Some((name, amount, wallet)),
        _ => None,
    }
}

/// A created payroll entry, once stored under its id, lists with the
/// contractor name, amount and wallet it was created with: reading its row
/// back under the same master key succeeds, and gives those fields with the
/// entry's id, currency, status and commitment.
pub proof fn law_payroll_entry_reads_back(master: Seq<char>, params: CreatePayrollParams, rec: PayrollRecord, row: PayrollRow)
    requires
        decrypt_spec(master, rec.contractor_name_enc@, "payroll:name"@) == Ok::<Seq<char>, Seq<char>>(params.contractor_name@),
        decrypt_spec(master, rec.amount_enc@, "payroll:amount"@) == Ok::<Seq<char>, Seq<char>>(params.amount.text@),
        decrypt_spec(master, rec.wallet_address_enc@, "payroll:wallet"@) == Ok::<Seq<char>, Seq<char>>(params.wallet_address@),
        row.contractor_name_enc == rec.contractor_name_enc,
        row.amount_enc == rec.amount_enc,
        row.wallet_address_enc == rec.wallet_address_enc,
        uuid_parse(row.id@) == Some(rec.id),
        row.currency == rec.currency,
        row.status == rec.status,
        row.zk_commitment == rec.zk_commitment,
    ensures
        payroll_fields_read(master, row) == Some((params.contractor_name@, params.amount.text@, params.wallet_address@)),
        payroll_row_lists(Some(master), row),
        forall|v: PayrollView| #[trigger] payroll_view_result(Some(master), row, Ok::<PayrollView, AppError>(v)) ==> {
            &&& v.id == rec.id
            &&& v.contractor_name@ == params.contractor_name@
            &&& v.amount_text@ == params.amount.text@
            &&& v.wallet_address@ == params.wallet_address@
            &&& v.currency == rec.currency
            &&& v.status == rec.status
            &&& v.zk_commitment == rec.zk_commitment
        },
{
}

/// What reading a listed payroll entry back gives: without a master key, the
/// error that says so; else the first of name, amount and wallet that does
/// not open fails with its decryption error, then an id that is not a UUID
/// is an internal error; otherwise the view holds the opened fields, the id,
/// and the row's currency, status and commitment, and whether it has an
/// audit token.
pub open spec fn payroll_view_result(master: Option<Seq<char>>, row: PayrollRow, r: Result<PayrollView, AppError>) -> bool {
    match master {
        None => r matches Err(e) && is_encryption(e, "Master key not configured"@),
        Some(master) => match decrypt_spec(master, row.contractor_name_enc@, "payroll:name"@) {
            Err(m) => outcome_is_err(r, m),
            Ok(name) => match decrypt_spec(master, row.amount_enc@, "payroll:amount"@) {
                Err(m) => outcome_is_err(r, m),
                Ok(amount) => match decrypt_spec(master, row.wallet_address_enc@, "payroll:wallet"@) {
                    Err(m) => outcome_is_err(r, m),
                    Ok(wallet) => match uuid_parse(row.id@) {
                        None => r matches Err(e) && e is Internal,
                        Some(id) => r matches Ok(v) && v.id == id && v.contractor_name@ == name
                            && v.amount_text@ == amount && v.wallet_address@ == wallet
                            && v.currency == row.currency && v.status == row.status
                            && v.zk_commitment == row.zk_commitment
                            && v.has_audit_token == (row.audit_token is Some),
                    },
                },
            },
        },
    }
}

/// A stored payroll entry can be listed: there is a master key, all three
/// sealed fields open under it and the id is a UUID.
pub open spec fn payroll_row_lists(master: Option<Seq<char>>, row: PayrollRow) -> bool {
    &&& master matches Some(m) && payroll_fields_read(m, row) is Some
    &&& uuid_parse(row.id@) is Some
}

/// Reads a listed payroll entry back: name, amount and wallet in that order,
/// then the id.
pub fn payroll_view(master: Option<&str>, row: PayrollRow) -> (r: Result<PayrollView, AppError>)
    ensures
        payroll_view_result(master_text(master), row, r),
        r is Ok <==> payroll_row_lists(master_text(master), row),
        r matches Ok(v) ==> master matches Some(master) && payroll_fields_read(master@, row) == Some((v.contractor_name@, v.amount_text@, v.wallet_address@)),
{
    let master = require_master(master)?;
    let contractor_name = decrypt(master, row.contractor_name_enc.as_str(), "payroll:name")?;
    let amount_text = decrypt(master, row.amount_enc.as_str(), "payroll:amount")?;
    let wallet_address = decrypt(master, row.wallet_address_enc.as_str(), "payroll:wallet")?;
    let id = match uuid_from_str(row.id.as_str()) {
        Ok(v) => v,
        Err(e) => {
            return Err(AppError::Internal(e.to_string()));
        },
    };
    let has_audit_token = row.audit_token.is_some();
    Ok(PayrollView {
        id,
        contractor_name,
        amount_text,
        currency: row.currency,
        wallet_address,
        status: row.status,
        zk_commitment: row.zk_commitment,
        has_audit_token,
    })
}

/// Reads back all the listed entries of an organization, in the order
/// given: one view per row, each as `payroll_view` reads it. The list is
/// given only when every row can be listed; otherwise the first row that
/// cannot fails the whole call with its error.
pub fn payroll_views(master: Option<&str>, rows: Vec<PayrollRow>) -> (r: Result<Vec<PayrollView>, AppError>)
    ensures
        r is Ok <==> forall|i: int| 0 <= i < rows@.len() ==> #[trigger] payroll_row_lists(master_text(master), rows@[i]),
        r matches Ok(views) ==> views@.len() == rows@.len() && forall|i: int| 0 <= i < rows@.len()
            ==> #[trigger] payroll_view_result(master_text(master), rows@[i], Ok::<PayrollView, AppError>(views@[i])),
        r matches Err(e) ==> exists|k: int| {
            &&& 0 <= k < rows@.len()
            &&& forall|i: int| 0 <= i < k ==> #[trigger] payroll_row_lists(master_text(master), rows@[i])
            &&& !payroll_row_lists(master_text(master), rows@[k])
            &&& #[trigger] payroll_view_result(master_text(master), rows@[k], Err::<PayrollView, AppError>(e))
        },
{
    let ghost all = rows@;
    let mut remaining = rows;
    let mut views: Vec<PayrollView> = Vec::new();
    while remaining.len() > 0
        invariant
            all == rows@,
            views@.len() <= all.len(),
            remaining@ == all.skip(views@.len() as int),
            forall|i: int| 0 <= i < views@.len() ==> #[trigger] payroll_row_lists(master_text(master), all[i]),
            forall|i: int| 0 <= i < views@.len()
                ==> #[trigger] payroll_view_result(master_text(master), all[i], Ok::<PayrollView, AppError>(views@[i])),
        decreases remaining@.len(),
    {
        let ghost k = views@.len() as int;
        assert(0 <= k < all.len());
        let row = remaining.remove(0);
        assert(row == all[k]);
        match payroll_view(master, row) {
            Ok(v) => {
                views.push(v);
                assert(remaining@ =~= all.skip(views@.len() as int));
            },
            Err(e) => {
                assert(payroll_view_result(master_text(master), all[k], Err::<PayrollView, AppError>(e)));
                assert(!payroll_row_lists(master_text(master), all[k]));
                assert(forall|i: int| 0 <= i < k ==> #[trigger] payroll_row_lists(master_text(master), all[i]));
                return Err(e);
            },
        }
    }
    assert(views@.len() == all.len());
    Ok(views)
}

/// A fresh audit token: the text of a random (version-4) UUID.
pub fn new_audit_token() -> (token: String)
    ensures
        exists|u: u128| token@ == #[trigger] uuid_text(u) && is_v4(u),
{
    uuid_to_string(uuid_new_v4())
}

/// The outcome of marking an entry audited: when no entry of the
/// organization had that id, it is not found; otherwise the token is handed
/// out.
pub fn audit_token_outcome(rows_affected: u64, token: String) -> (r: Result<String, AppError>)
    ensures
        rows_affected == 0 ==> r == Err::<String, AppError>(AppError::NotFound),
        rows_affected != 0 ==> r == Ok::<String, AppError>(token),
{
    if rows_affected == 0 {
        Err(AppError::NotFound)
    } else {
        Ok(token)
    }
}

} // verus!
