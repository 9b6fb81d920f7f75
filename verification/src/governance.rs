//! Private governance: proposals whose title and description are stored
//! encrypted, and votes stored as an encrypted choice beside a salted
//! commitment to the voter.
use vstd::prelude::*;
use vstd::string::*;
use vstd::utf8::encode_utf8;
use crate::cipher::{decrypt, decrypt_spec, encrypt, gcm_max_plaintext, master_text, outcome_is_err, require_master};
use crate::digest::{zk_commit, zk_commit_spec};
use crate::error::{is_encryption, is_validation, validation, AppError};
use crate::ids::{add_hours, is_v4, max_instant_secs, min_instant_secs, uuid_from_str, uuid_new_v4, uuid_parse, uuid_text, uuid_to_string, Timestamp};
use crate::text::{is_blank, lemma_utf8_len_bound, text_eq, text_is_blank};

verus! {

/// What a new proposal is made from.
#[derive(Debug, Clone, PartialEq, Eq)]
pub struct CreateProposalParams {
    pub org_id: u128,
    pub creator_id: u128,
    pub title: String,
    pub description: String,
    pub quorum: i32,
    pub duration_hours: i64,
}

/// A proposal ready to be stored: title and description sealed.
#[derive(Debug, Clone, PartialEq, Eq)]
pub struct ProposalRecord {
    pub id: u128,
    /// `id` in hyphenated form, as it is stored.
    pub id_text: String,
    pub org_id: u128,
    pub creator_id: u128,
    pub title_enc: String,
    pub description_enc: String,
    pub quorum: i32,
    pub status: String,
    pub ends_at: Timestamp,
}

/// A stored proposal as listed, with its vote count.
#[derive(Debug, Clone, PartialEq, Eq)]
pub struct ProposalRow {
    pub id: String,
    pub title_enc: String,
    pub description_enc: String,
    pub quorum: i32,
    pub status: String,
    pub ends_at: Timestamp,
    pub vote_count: Option<i64>,
}

/// A proposal as shown to members of its organization.
#[derive(Debug, Clone, PartialEq, Eq)]
pub struct ProposalView {
    pub id: u128,
    pub title: String,
    pub description: String,
    pub quorum: i32,
    pub status: String,
    pub ends_at: Timestamp,
    pub vote_count: i64,
}

/// The state of a proposal that decides whether it takes votes.
#[derive(Debug, Clone, PartialEq, Eq)]
pub struct ProposalStatus {
    pub status: String,
    pub ends_at: Timestamp,
}

/// A vote ready to be stored.
#[derive(Debug, Clone, PartialEq, Eq)]
pub struct VoteRecord {
    pub id: u128,
    pub proposal_id: u128,
    pub voter_commitment: String,
    pub vote_enc: String,
}

/// Body of a proposal creation request.
#[derive(Debug, Clone, PartialEq, Eq)]
pub struct CreateProposalRequest {
    pub title: String,
    pub description: String,
    pub quorum: i32,
    pub duration_hours: i64,
}

/// A proposal in the answer to a listing request.
#[derive(Debug, Clone, PartialEq, Eq)]
pub struct ProposalResponse {
    pub id: String,
    pub title: String,
    pub description: String,
    pub quorum: i32,
    pub status: String,
    pub ends_at: String,
    pub vote_count: i64,
}

/// Body of a vote request.
#[derive(Debug, Clone, PartialEq, Eq)]
pub struct CastVoteRequest {
    pub proposal_id: String,
    pub vote: String,
}

/// The three accepted vote choices.
pub open spec fn is_vote_choice(v: Seq<char>) -> bool {
    v == "yes"@ || v == "no"@ || v == "abstain"@
}

/// The proposal passes its checks: a title that is not blank and a quorum of
/// at least one.
pub open spec fn proposal_params_valid(p: CreateProposalParams) -> bool {
    !is_blank(p.title@) && p.quorum >= 1
}

/// The voting deadline lies within the instants that can be held.
pub open spec fn deadline_in_range(now: Timestamp, hours: i64) -> bool {
    min_instant_secs() <= now.secs + hours * 3600 <= max_instant_secs()
}

/// Checks the parameters of a new proposal: a title that is not blank, then
/// a quorum of at least one.
pub fn check_proposal_params(params: &CreateProposalParams) -> (r: Result<(), AppError>)
    ensures
        r is Ok <==> (!is_blank(params.title@) && params.quorum >= 1),
        is_blank(params.title@) ==> (r matches Err(e) && is_validation(e, "Proposal title is required"@)),
        !is_blank(params.title@) && params.quorum < 1 ==> (r matches Err(e) && is_validation(e, "Quorum musat be 1"@)),
        r is Ok <==> proposal_params_valid(*params),
{
    if text_is_blank(params.title.as_str()) {
        return Err(validation("Proposal title is required"));
    }
    if params.quorum < 1 {
        return Err(validation("Quorum musat be 1"));
    }
    Ok(())
}

/// A proposal passes its checks exactly when its title is not blank and its
/// quorum is at least one: its description and its voting period, however
/// long, play no part.
pub proof fn law_proposal_checks_are_title_and_quorum(p: CreateProposalParams)
    ensures
        proposal_params_valid(p) <==> (!is_blank(p.title@) && p.quorum >= 1),
{
}

/// Two proposals with the same title and quorum pass or fail the checks
/// together, whatever their descriptions, organizations and durations.
pub proof fn law_proposal_checks_ignore_the_rest(p: CreateProposalParams, q: CreateProposalParams)
    requires
        p.title@ == q.title@,
        p.quorum == q.quorum,
    ensures
        proposal_params_valid(p) == proposal_params_valid(q),
{
}

/// Builds a new proposal at `now`: a blank title or a quorum below one is
/// refused, the deadline is `duration_hours` after `now`, and the title and
/// description are sealed so that reading them back gives them again.
pub fn create_proposal(master: Option<&str>, params: CreateProposalParams, now: Timestamp) -> (r: Result<ProposalRecord, AppError>)
    requires
        now.wf(),
        proposal_params_valid(params) ==> deadline_in_range(now, params.duration_hours),
    ensures
        is_blank(params.title@) ==> (r matches Err(e) && is_validation(e, "Proposal title is required"@)),
        !is_blank(params.title@) && params.quorum < 1 ==> (r matches Err(e) && is_validation(e, "Quorum musat be 1"@)),
        proposal_params_valid(params) && master is None ==> (r matches Err(e) && is_encryption(e, "Master key not configured"@)),
        proposal_params_valid(params) && master is Some ==> (r is Ok <==> (encode_utf8(params.title@).len() <= gcm_max_plaintext()
            && encode_utf8(params.description@).len() <= gcm_max_plaintext())),
        proposal_params_valid(params) ==> (r matches Err(e) ==> e is Encryption),
        !is_blank(params.title@) && params.quorum >= 1 && master is Some && encode_utf8(params.title@).len() <= gcm_max_plaintext()
            && encode_utf8(params.description@).len() <= gcm_max_plaintext() ==> r is Ok,
        r matches Ok(rec) ==> master matches Some(master) && {
            &&& proposal_params_valid(params)
            &&& is_v4(rec.id)
            &&& rec.id_text@ == uuid_text(rec.id)
            &&& uuid_parse(rec.id_text@) == Some(rec.id)
            &&& rec.org_id == params.org_id
            &&& rec.creator_id == params.creator_id
            &&& rec.quorum == params.quorum
            &&& rec.status@ == "active"@
            &&& rec.ends_at.wf()
            &&& rec.ends_at.secs == now.secs + params.duration_hours * 3600
            &&& rec.ends_at.nanos == now.nanos
            &&& decrypt_spec(master@, rec.title_enc@, "governance:title"@) == Ok::<Seq<char>, Seq<char>>(params.title@)
            &&& decrypt_spec(master@, rec.description_enc@, "governance:description"@) == Ok::<Seq<char>, Seq<char>>(params.description@)
        },
{
    check_proposal_params(&params)?;
    let id = uuid_new_v4();
    let ends_at = match add_hours(now, params.duration_hours) {
        Some(t) => t,
        None => vstd::pervasive::unreached(),
    };
    let master = require_master(master)?;
    let title_enc = encrypt(master, params.title.as_str(), "governance:title")?;
    let description_enc = encrypt(master, params.description.as_str(), "governance:description")?;
    let id_text = uuid_to_string(id);
    Ok(ProposalRecord {
        id,
        id_text,
        org_id: params.org_id,
        creator_id: params.creator_id,
        title_enc,
        description_enc,
        quorum: params.quorum,
        status: String::from_str("active"),
        ends_at,
    })
}

/// What listing a stored proposal row shows, when its title and
/// description open and its id is a UUID: the id, title, description,
/// quorum, status and vote count (0 when there is none).
pub open spec fn proposal_listing(master: Seq<char>, row: ProposalRow) -> Option<
    (u128, Seq<char>, Seq<char>, i32, Seq<char>, i64),
> {
    match (
        decrypt_spec(master, row.title_enc@, "governance:title"@),
        decrypt_spec(master, row.description_enc@, "governance:description"@),
        uuid_parse(row.id@),
    ) {
        (Ok(title), Ok(description), Some(id)) => Some(
            (
                id,
                title,
                description,
                row.quorum,
                row.status@,
                match row.vote_count {
                    Some(c) => c,
                    None => 0,
                },
            ),
        ),
        _ => None,
    }
}

/// A created proposal, once stored with no votes yet, lists with the id,
/// title, description and quorum it was created with, as `active`, with a
/// vote count of 0: reading its row back under the same master key
/// succeeds, and gives exactly those fields.
pub proof fn law_proposal_reads_back(
    master: Seq<char>,
    params: CreateProposalParams,
    rec: ProposalRecord,
    row: ProposalRow,
)
    requires
        decrypt_spec(master, rec.title_enc@, "governance:title"@) == Ok::<Seq<char>, Seq<char>>(params.title@),
        decrypt_spec(master, rec.description_enc@, "governance:description"@) == Ok::<Seq<char>, Seq<char>>(params.description@),
        uuid_parse(rec.id_text@) == Some(rec.id),
        rec.quorum == params.quorum,
        rec.status@ == "active"@,
        row.id == rec.id_text,
        row.title_enc == rec.title_enc,
        row.description_enc == rec.description_enc,
        row.quorum == rec.quorum,
        row.status == rec.status,
        row.vote_count is None || row.vote_count == Some(0i64),
    ensures
        proposal_listing(master, row) == Some(
            (rec.id, params.title@, params.description@, params.quorum, "active"@, 0i64),
        ),
        proposal_row_lists(Some(master), row),
        forall|v: ProposalView| #[trigger] proposal_view_result(Some(master), row, Ok::<ProposalView, AppError>(v)) ==> {
            &&& v.id == rec.id
            &&& v.title@ == params.title@
            &&& v.description@ == params.description@
            &&& v.quorum == params.quorum
            &&& v.status@ == "active"@
            &&& v.vote_count == 0
        },
{
}

/// What reading a listed proposal back gives: without a master key, the
/// error that says so; else a title, then a description, that does not open
/// fails with its decryption error, then an id that is not a UUID is an
/// internal error; otherwise the view holds the id, the opened title and
/// description, the row's quorum, status and deadline, and its vote count
/// (0 when there is none).
pub open spec fn proposal_view_result(master: Option<Seq<char>>, row: ProposalRow, r: Result<ProposalView, AppError>) -> bool {
    match master {
        None => r matches Err(e) && is_encryption(e, "Master key not configured"@),
        Some(master) => match decrypt_spec(master, row.title_enc@, "governance:title"@) {
            Err(m) => outcome_is_err(r, m),
            Ok(title) => match decrypt_spec(master, row.description_enc@, "governance:description"@) {
                Err(m) => outcome_is_err(r, m),
                Ok(description) => match uuid_parse(row.id@) {
                    None => r matches Err(e) && e is Internal,
                    Some(id) => r matches Ok(v) && v.id == id && v.title@ == title
                        && v.description@ == description && v.quorum == row.quorum
                        && v.status == row.status && v.ends_at == row.ends_at
                        && v.vote_count == match row.vote_count {
                            Some(c) => c,
                            None => 0i64,
                        },
                },
            },
        },
    }
}

/// A stored proposal can be listed: there is a master key, its title and
/// description open under it and its id is a UUID.
pub open spec fn proposal_row_lists(master: Option<Seq<char>>, row: ProposalRow) -> bool {
    master matches Some(m) && proposal_listing(m, row) is Some
}

/// A listed proposal carries the stored row's vote count (the number of its
/// votes) as it is, or 0 when the row has none, whatever the count and the
/// quorum; its quorum, status and deadline are the row's too.
pub proof fn law_listed_vote_count_is_the_stored_count(master: Option<Seq<char>>, row: ProposalRow, v: ProposalView)
    requires
        proposal_view_result(master, row, Ok::<ProposalView, AppError>(v)),
    ensures
        row.vote_count matches Some(c) ==> v.vote_count == c,
        row.vote_count is None ==> v.vote_count == 0,
        v.quorum == row.quorum,
        v.status == row.status,
        v.ends_at == row.ends_at,
{
}

/// The listing of a stored proposal shows its vote count as stored, or 0
/// when there is none, and its quorum as stored.
pub proof fn law_listing_shows_the_stored_count(master: Seq<char>, row: ProposalRow)
    ensures
        proposal_listing(master, row) matches Some((_, _, _, quorum, _, count)) ==> {
            &&& row.vote_count matches Some(c) ==> count == c
            &&& row.vote_count is None ==> count == 0
            &&& quorum == row.quorum
        },
{
}

/// Reads a listed proposal back: title, then description, then the id.
pub fn proposal_view(master: Option<&str>, row: ProposalRow) -> (r: Result<ProposalView, AppError>)
    ensures
        proposal_view_result(master_text(master), row, r),
        r is Ok <==> proposal_row_lists(master_text(master), row),
        r matches Ok(v) ==> v.vote_count == match row.vote_count {
            Some(c) => c,
            None => 0i64,
        },
        r matches Ok(v) ==> master matches Some(master) && proposal_listing(master@, row) == Some(
            (v.id, v.title@, v.description@, v.quorum, v.status@, v.vote_count),
        ) && v.status == row.status && v.ends_at == row.ends_at,
{
    let master = require_master(master)?;
    let title = decrypt(master, row.title_enc.as_str(), "governance:title")?;
    let description = decrypt(master, row.description_enc.as_str(), "governance:description")?;
    let id = match uuid_from_str(row.id.as_str()) {
        Ok(v) => v,
        Err(e) => {
            return Err(AppError::Internal(e.to_string()));
        },
    };
    let vote_count = match row.vote_count {
        Some(c) => c,
        None => 0,
    };
    Ok(ProposalView {
        id,
        title,
        description,
        quorum: row.quorum,
        status: row.status,
        ends_at: row.ends_at,
        vote_count,
    })
}

/// Reads back all the listed proposals of an organization, in the order
/// given: one view per row, each as `proposal_view` reads it. The list is
/// given only when every row can be listed; otherwise the first row that
/// cannot fails the whole call with its error.
pub fn proposal_views(master: Option<&str>, rows: Vec<ProposalRow>) -> (r: Result<Vec<ProposalView>, AppError>)
    ensures
        r is Ok <==> forall|i: int| 0 <= i < rows@.len() ==> #[trigger] proposal_row_lists(master_text(master), rows@[i]),
        r matches Ok(views) ==> views@.len() == rows@.len() && forall|i: int| 0 <= i < rows@.len()
            ==> #[trigger] proposal_view_result(master_text(master), rows@[i], Ok::<ProposalView, AppError>(views@[i])),
        r matches Err(e) ==> exists|k: int| {
            &&& 0 <= k < rows@.len()
            &&& forall|i: int| 0 <= i < k ==> #[trigger] proposal_row_lists(master_text(master), rows@[i])
            &&& !proposal_row_lists(master_text(master), rows@[k])
            &&& #[trigger] proposal_view_result(master_text(master), rows@[k], Err::<ProposalView, AppError>(e))
        },
{
    let ghost all = rows@;
    let mut remaining = rows;
    let mut views: Vec<ProposalView> = Vec::new();
    while remaining.len() > 0
        invariant
            all == rows@,
            views@.len() <= all.len(),
            remaining@ == all.skip(views@.len() as int),
            forall|i: int| 0 <= i < views@.len() ==> #[trigger] proposal_row_lists(master_text(master), all[i]),
            forall|i: int| 0 <= i < views@.len()
                ==> #[trigger] proposal_view_result(master_text(master), all[i], Ok::<ProposalView, AppError>(views@[i])),
        decreases remaining@.len(),
    {
        let ghost k = views@.len() as int;
        assert(0 <= k < all.len());
        let row = remaining.remove(0);
        assert(row == all[k]);
        match proposal_view(master, row) {
            Ok(v) => {
                views.push(v);
                assert(remaining@ =~= all.skip(views@.len() as int));
            },
            Err(e) => {
                assert(proposal_view_result(master_text(master), all[k], Err::<ProposalView, AppError>(e)));
                assert(!proposal_row_lists(master_text(master), all[k]));
                assert(forall|i: int| 0 <= i < k ==> #[trigger] proposal_row_lists(master_text(master), all[i]));
                return Err(e);
            },
        }
    }
    assert(views@.len() == all.len());
    Ok(views)
}

/// Refuses a vote that is not `yes`, `no` or `abstain`.
pub fn check_vote_value(vote: &str) -> (r: Result<(), AppError>)
    ensures
        r is Ok <==> is_vote_choice(vote@),
        r matches Err(e) ==> is_validation(e, "Vote must be: ye, no, or abstain"@),
{
    if text_eq(vote, "yes") || text_eq(vote, "no") || text_eq(vote, "abstain") {
        Ok(())
    } else {
        Err(validation("Vote must be: ye, no, or abstain"))
    }
}

/// Records a vote at `now` on a proposal whose state is `proposal` (`None`
/// when it does not exist). The choice is checked first, then that the
/// proposal exists, is active and has not ended. The voter is stored only as
/// a commitment under a fresh salt, and the choice sealed under
/// `governance:vote`.
pub fn cast_vote(
    master: Option<&str>,
    proposal_id: u128,
    voter_id: u128,
    vote_value: &str,
    proposal: Option<ProposalStatus>,
    now: Timestamp,
) -> (r: Result<VoteRecord, AppError>)
    ensures
        !is_vote_choice(vote_value@) ==> (r matches Err(e) && is_validation(e, "Vote must be: ye, no, or abstain"@)),
        is_vote_choice(vote_value@) ==> match proposal {
            None => r == Err::<VoteRecord, AppError>(AppError::NotFound),
            Some(p) => if p.status@ != "active"@ {
                r matches Err(e) && is_validation(e, "Proposal is no longer active"@)
            } else if p.ends_at.before(now) {
                r matches Err(e) && is_validation(e, "Proposal voting period has ended"@)
            } else {
                match master {
                    None => r matches Err(e) && is_encryption(e, "Master key not configured"@),
                    Some(master) => r matches Ok(v) && is_v4(v.id) && v.proposal_id == proposal_id
                        && decrypt_spec(master@, v.vote_enc@, "governance:vote"@) == Ok::<Seq<char>, Seq<char>>(vote_value@)
                        && exists|salt: u128| v.voter_commitment@ == #[trigger] zk_commit_spec(uuid_text(voter_id), uuid_text(salt)),
                }
            },
        },
{
    check_vote_value(vote_value)?;
    let p = match proposal {
        None => {
            return Err(AppError::NotFound);
        },
        Some(p) => p,
    };
    if !text_eq(p.status.as_str(), "active") {
        return Err(validation("Proposal is no longer active"));
    }
    if p.ends_at.is_before(&now) {
        return Err(validation("Proposal voting period has ended"));
    }
    let salt_id = uuid_new_v4();
    let salt = uuid_to_string(salt_id);
    let voter = uuid_to_string(voter_id);
    let voter_commitment = zk_commit(voter.as_str(), salt.as_str());
    proof {
        reveal_strlit("yes");
        reveal_strlit("no");
        reveal_strlit("abstain");
        lemma_utf8_len_bound(vote_value@);
    }
    let master = require_master(master)?;
    let vote_enc = encrypt(master, vote_value, "governance:vote")?;
    let id = uuid_new_v4();
    Ok(VoteRecord { id, proposal_id, voter_commitment, vote_enc })
}

} // verus!
