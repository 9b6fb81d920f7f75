//! Authentication decisions: password policy and hashing, login checks,
//! the claims carried by a session token, and reading them back from a
//! request.
use vstd::prelude::*;
use vstd::string::*;
use vstd::utf8::encode_utf8;
use crate::error::{is_validation, validation, AppError};
use crate::ids::{add_hours, is_v4, max_instant_secs, uuid_from_str, uuid_new_v4, uuid_parse, uuid_text, uuid_to_string, Timestamp};
use crate::text::{has_prefix, text_starts_with};

verus! {

#[verifier::external_type_specification]
#[verifier::external_body]
pub struct ExBcryptError(bcrypt::BcryptError);

/// Lifetime of a session token, in hours.
pub const TOKEN_LIFETIME_HOURS: i64 = 12;

/// bcrypt work factor used for new password hashes.
pub const PASSWORD_HASH_COST: u32 = 12;

/// Shortest accepted password, in bytes of UTF-8.
pub const MIN_PASSWORD_BYTES: usize = 12;

/// Claims of a session token.
#[derive(Debug, Clone, PartialEq, Eq)]
pub struct Claims {
    /// User id.
    pub sub: String,
    /// Organization id.
    pub org: String,
    pub role: String,
    /// Expiry, in seconds since the Unix epoch.
    pub exp: i64,
}

/// The authenticated caller of a request.
#[derive(Debug, Clone, PartialEq, Eq)]
pub struct AuthUser {
    pub user_id: u128,
    pub org_id: u128,
    pub role: String,
}

/// Answer to a successful registration or login.
#[derive(Debug, Clone, PartialEq, Eq)]
pub struct AuthResponse {
    pub token: String,
    pub user_id: String,
    pub org_id: String,
}

/// Body of a registration request.
#[derive(Debug, Clone, PartialEq, Eq)]
pub struct RegisterRequest {
    pub org_name: String,
    pub email: String,
    pub password: String,
}

/// Body of a login request.
#[derive(Debug, Clone, PartialEq, Eq)]
pub struct LoginRequest {
    pub email: String,
    pub password: String,
}

/// The stored user found for a login e-mail.
#[derive(Debug, Clone, PartialEq, Eq)]
pub struct StoredCredentials {
    pub id: String,
    pub org_id: String,
    pub password_hash: String,
    pub role: String,
}

/// A new organization with its first (admin) user, ready to be stored.
#[derive(Debug, Clone, PartialEq, Eq)]
pub struct Registration {
    pub org_id: u128,
    pub user_id: u128,
    /// `org_id` in hyphenated form, as it is stored and answered.
    pub org_id_text: String,
    /// `user_id` in hyphenated form, as it is stored and answered.
    pub user_id_text: String,
    pub org_name: String,
    pub email: String,
    pub password_hash: String,
    pub role: String,
}

/// A user whose password matched.
#[derive(Debug, Clone, PartialEq, Eq)]
pub struct LoginIdentity {
    pub user_id: u128,
    pub org_id: u128,
    pub role: String,
}

/// What `bcrypt::verify` answers for a password (as bytes) and a stored
/// hash text: whether they match, or `None` when the hash text is malformed.
pub uninterp spec fn bcrypt_verdict(password: Seq<u8>, hash: Seq<char>) -> Option<bool>;

/// The start of a bcrypt hash text of version `2b` made at `cost`:
/// `$2b$`, the cost in two decimal digits, then `$`.
pub open spec fn bcrypt_prefix(cost: u32) -> Seq<char> {
    "$2b$"@ + seq![(cost / 10 + 48) as char, (cost % 10 + 48) as char] + "$"@
}

/// `bcrypt::hash` with a random salt. It succeeds only for a cost from 4 to
/// 31; the hash text is then 60 characters, `$2b$` and the two-digit cost
/// first (then the salt and digest in bcrypt's Base64), and whatever salt was
/// drawn, it verifies the password it was made from.
#[verifier::external_body]
pub(crate) fn bcrypt_hash(password: &str, cost: u32) -> (r: Result<String, bcrypt::BcryptError>)
    ensures
        r matches Ok(h) ==> {
            &&& 4 <= cost <= 31
            &&& h@.len() == 60
            &&& has_prefix(h@, bcrypt_prefix(cost))
            &&& bcrypt_verdict(password.spec_bytes(), h@) == Some(true)
        },
{
    bcrypt::hash(password, cost)
}

/// `bcrypt::verify`.
#[verifier::external_body]
pub(crate) fn bcrypt_verify(password: &str, hash: &str) -> (r: Result<bool, bcrypt::BcryptError>)
    ensures
        match r {
            Ok(b) => bcrypt_verdict(password.spec_bytes(), hash@) == Some(b),
            Err(_) => bcrypt_verdict(password.spec_bytes(), hash@) is None,
        },
{
    bcrypt::verify(password, hash)
}

/// The password is long enough: at least 12 bytes of UTF-8.
pub open spec fn password_acceptable(password: Seq<char>) -> bool {
    encode_utf8(password).len() >= 12
}

/// The password policy is a minimum length and nothing else: a password is
/// acceptable exactly when its UTF-8 form has at least 12 bytes, however long
/// it is and whatever characters it holds.
pub proof fn law_password_policy_is_a_minimum_length(password: Seq<char>)
    ensures
        password_acceptable(password) <==> encode_utf8(password).len() >= 12,
{
}

/// A password at least as long, in UTF-8 bytes, as an acceptable one is
/// acceptable too: no length is too long.
pub proof fn law_longer_passwords_stay_acceptable(p: Seq<char>, q: Seq<char>)
    requires
        password_acceptable(p),
        encode_utf8(q).len() >= encode_utf8(p).len(),
    ensures
        password_acceptable(q),
{
}

/// Rejects passwords shorter than 12 bytes.
pub fn check_password(password: &str) -> (r: Result<(), AppError>)
    ensures
        r is Ok <==> password_acceptable(password@),
        r is Ok <==> encode_utf8(password@).len() >= 12,
        r matches Err(e) ==> is_validation(e, "Password must be at least 12 characters"@),
{
    if password.as_bytes().len() < MIN_PASSWORD_BYTES {
        Err(validation("Password must be at least 12 characters"))
    } else {
        Ok(())
    }
}

/// `hash` is a cost-12 bcrypt hash (version `2b`, 60 characters) that
/// verifies `password`.
pub open spec fn password_hash_ok(password: Seq<char>, hash: Seq<char>) -> bool {
    &&& hash.len() == 60
    &&& has_prefix(hash, "$2b$12$"@)
    &&& bcrypt_verdict(encode_utf8(password), hash) == Some(true)
}

/// Hashes a password for storage; a failure of the hasher is internal.
pub fn hash_password(password: &str) -> (r: Result<String, AppError>)
    ensures
        r matches Ok(h) ==> password_hash_ok(password@, h@),
        r matches Err(e) ==> e is Internal,
{
    match bcrypt_hash(password, PASSWORD_HASH_COST) {
        Ok(h) => {
            proof {
                reveal_strlit("$2b$");
                reveal_strlit("$");
                reveal_strlit("$2b$12$");
                assert(bcrypt_prefix(12) =~= "$2b$12$"@);
            }
            Ok(h)
        },
        Err(e) => Err(AppError::Internal(e.to_string())),
    }
}

/// Checks a password against a stored hash; a malformed hash is an internal
/// fault.
pub fn verify_password(password: &str, hash: &str) -> (r: Result<bool, AppError>)
    ensures
        match bcrypt_verdict(encode_utf8(password@), hash@) {
            Some(b) => r == Ok::<bool, AppError>(b),
            None => r matches Err(e) && e is Internal,
        },
{
    match bcrypt_verify(password, hash) {
        Ok(b) => Ok(b),
        Err(e) => Err(AppError::Internal(e.to_string())),
    }
}

/// Prepares a new organization and its admin user: the password policy is
/// checked first, then fresh ids are drawn and the password is hashed.
pub fn prepare_registration(req: RegisterRequest) -> (r: Result<Registration, AppError>)
    ensures
        !password_acceptable(req.password@) ==> (r matches Err(e) && is_validation(
            e,
            "Password must be at least 12 characters"@,
        )),
        r matches Err(e) ==> password_acceptable(req.password@) ==> e is Internal,
        r matches Ok(reg) ==> {
            &&& password_acceptable(req.password@)
            &&& reg.org_name == req.org_name
            &&& reg.email == req.email
            &&& reg.role@ == "admin"@
            &&& reg.org_id_text@ == uuid_text(reg.org_id)
            &&& reg.user_id_text@ == uuid_text(reg.user_id)
            &&& uuid_parse(reg.org_id_text@) == Some(reg.org_id)
            &&& uuid_parse(reg.user_id_text@) == Some(reg.user_id)
            &&& is_v4(reg.org_id)
            &&& is_v4(reg.user_id)
            &&& password_hash_ok(req.password@, reg.password_hash@)
        },
{
    check_password(req.password.as_str())?;
    let org_id = uuid_new_v4();
    let user_id = uuid_new_v4();
    let password_hash = hash_password(req.password.as_str())?;
    let org_id_text = uuid_to_string(org_id);
    let user_id_text = uuid_to_string(user_id);
    Ok(Registration {
        org_id,
        user_id,
        org_id_text,
        user_id_text,
        org_name: req.org_name,
        email: req.email,
        password_hash,
        role: String::from_str("admin"),
    })
}

/// How a login attempt ends.
#[derive(Debug, Clone, Copy, PartialEq, Eq)]
pub enum LoginVerdict {
    /// Unknown e-mail or wrong password.
    Refused,
    /// The stored hash or ids are malformed.
    Fault,
    /// The password matched the user with these (user, organization) ids.
    Accepted(u128, u128),
}

/// The verdict on a login with `password` against the user stored for the
/// e-mail (if any).
pub open spec fn login_verdict(password: Seq<char>, user: Option<StoredCredentials>) -> LoginVerdict {
    match user {
        None => LoginVerdict::Refused,
        Some(u) => match bcrypt_verdict(encode_utf8(password), u.password_hash@) {
            None => LoginVerdict::Fault,
            Some(false) => LoginVerdict::Refused,
            Some(true) => match (uuid_parse(u.id@), uuid_parse(u.org_id@)) {
                (Some(uid), Some(oid)) => LoginVerdict::Accepted(uid, oid),
                _ => LoginVerdict::Fault,
            },
        },
    }
}

/// Decides a login from the request and the user stored for its e-mail.
pub fn check_login(req: &LoginRequest, user: Option<StoredCredentials>) -> (r: Result<LoginIdentity, AppError>)
    ensures
        match login_verdict(req.password@, user) {
            LoginVerdict::Refused => r == Err::<LoginIdentity, AppError>(AppError::Unauthorized),
            LoginVerdict::Fault => r matches Err(e) && e is Internal,
            LoginVerdict::Accepted(uid, oid) => r matches Ok(id) && id.user_id == uid && id.org_id == oid
                && id.role == user->0.role,
        },
{
    let u = match user {
        None => {
            return Err(AppError::Unauthorized);
        },
        Some(u) => u,
    };
    let valid = verify_password(req.password.as_str(), u.password_hash.as_str())?;
    if !valid {
        return Err(AppError::Unauthorized);
    }
    let user_id = match uuid_from_str(u.id.as_str()) {
        Ok(v) => v,
        Err(e) => {
            return Err(AppError::Internal(e.to_string()));
        },
    };
    let org_id = match uuid_from_str(u.org_id.as_str()) {
        Ok(v) => v,
        Err(e) => {
            return Err(AppError::Internal(e.to_string()));
        },
    };
    Ok(LoginIdentity { user_id, org_id, role: u.role })
}

/// The user and organization that claims name, when both ids are UUIDs.
pub open spec fn claims_identity(c: Claims) -> Option<(u128, u128)> {
    match (uuid_parse(c.sub@), uuid_parse(c.org@)) {
        (Some(uid), Some(oid)) => Some((uid, oid)),
        _ => None,
    }
}

/// A registered admin can log in with the password they registered with:
/// once the organization and user are stored as registered, the login
/// verdict for that password is acceptance, with their ids.
pub proof fn law_registered_password_logs_in(password: Seq<char>, reg: Registration, stored: StoredCredentials)
    requires
        password_hash_ok(password, reg.password_hash@),
        uuid_parse(reg.user_id_text@) == Some(reg.user_id),
        uuid_parse(reg.org_id_text@) == Some(reg.org_id),
        stored.id == reg.user_id_text,
        stored.org_id == reg.org_id_text,
        stored.password_hash == reg.password_hash,
    ensures
        login_verdict(password, Some(stored)) == LoginVerdict::Accepted(reg.user_id, reg.org_id),
{
}

/// The claims of a token issued at `now` for a user: ids in hyphenated
/// form and an expiry 12 hours later.
pub fn token_claims(user_id: u128, org_id: u128, role: &str, now: Timestamp) -> (c: Claims)
    requires
        now.wf(),
        now.secs + TOKEN_LIFETIME_HOURS * 3600 <= max_instant_secs(),
    ensures
        c.sub@ == uuid_text(user_id),
        c.org@ == uuid_text(org_id),
        c.role@ == role@,
        c.exp == now.secs + TOKEN_LIFETIME_HOURS * 3600,
        claims_identity(c) == Some((user_id, org_id)),
{
    let exp = match add_hours(now, TOKEN_LIFETIME_HOURS) {
        Some(t) => t.secs,
        None => vstd::pervasive::unreached(),
    };
    Claims { sub: uuid_to_string(user_id), org: uuid_to_string(org_id), role: role.to_owned(), exp }
}

/// The token that an `Authorization` header value presents: the text after
/// the `Bearer ` scheme prefix, if it has that prefix.
pub open spec fn bearer_of(header: Seq<char>) -> Option<Seq<char>> {
    if has_prefix(header, "Bearer "@) {
        Some(header.skip(7))
    } else {
        None
    }
}

/// A header written as `Bearer <token>` presents exactly that token.
pub proof fn law_bearer_header_presents_its_token(token: Seq<char>)
    ensures
        bearer_of("Bearer "@ + token) == Some(token),
{
    reveal_strlit("Bearer ");
    assert(("Bearer "@ + token).subrange(0, 7) =~= "Bearer "@);
    assert(("Bearer "@ + token).skip(7) =~= token);
}

/// The token in an `Authorization` header value: the text after the
/// `Bearer ` scheme prefix. A missing or unreadable header, or one without
/// that prefix, is unauthorized.
pub fn bearer_token(header: Option<&str>) -> (r: Result<String, AppError>)
    ensures
        match header {
            None => r == Err::<String, AppError>(AppError::Unauthorized),
            Some(h) => match bearer_of(h@) {
                Some(t) => r matches Ok(s) && s@ == t,
                None => r == Err::<String, AppError>(AppError::Unauthorized),
            },
        },
{
    match header {
        None => Err(AppError::Unauthorized),
        Some(h) => {
            if text_starts_with(h, "Bearer ") {
                proof {
                    reveal_strlit("Bearer ");
                }
                let n = h.unicode_len();
                Ok(h.substring_char(7, n).to_owned())
            } else {
                Err(AppError::Unauthorized)
            }
        },
    }
}

/// The caller described by verified token claims; ids that do not parse
/// are unauthorized.
pub fn auth_user_from_claims(claims: Claims) -> (r: Result<AuthUser, AppError>)
    ensures
        match claims_identity(claims) {
            Some((uid, oid)) => r matches Ok(u) && u.user_id == uid && u.org_id == oid
                && u.role == claims.role,
            None => r == Err::<AuthUser, AppError>(AppError::Unauthorized),
        },
{
    let user_id = match uuid_from_str(claims.sub.as_str()) {
        Ok(v) => v,
        Err(_) => {
            return Err(AppError::Unauthorized);
        },
    };
    let org_id = match uuid_from_str(claims.org.as_str()) {
        Ok(v) => v,
        Err(_) => {
            return Err(AppError::Unauthorized);
        },
    };
    Ok(AuthUser { user_id, org_id, role: claims.role })
}

} // verus!
