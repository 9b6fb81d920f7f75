use privara::cipher::{decrypt, encrypt};
use privara::error::AppError;
use privara::governance::{
    cast_vote, check_proposal_params, check_vote_value, create_proposal, proposal_view, proposal_views, CreateProposalParams, ProposalRow, ProposalStatus,
};
use privara::ids::Timestamp;

const MASTER: &str = "governance-master";

fn params(title: &str, quorum: i32) -> CreateProposalParams {
    CreateProposalParams {
        org_id: 1,
        creator_id: 2,
        title: title.to_string(),
        description: "Raise the budget".to_string(),
        quorum,
        duration_hours: 48,
    }
}

fn now() -> Timestamp {
    Timestamp::new(1_700_000_000, 500).unwrap()
}

#[test]
fn blank_titles_are_refused() {
    let err = Err(AppError::Validation("Proposal title is required".to_string()));
    assert_eq!(create_proposal(Some(MASTER), params("", 3), now()), err);
    assert_eq!(create_proposal(Some(MASTER), params(" \t\n\u{3000}\u{a0}", 3), now()), err);
    // the title is checked before the quorum
    assert_eq!(create_proposal(Some(MASTER), params("  ", 0), now()), err);
}

#[test]
fn quorum_must_be_positive() {
    let err = Err(AppError::Validation("Quorum musat be 1".to_string()));
    assert_eq!(create_proposal(Some(MASTER), params("Budget", 0), now()), err);
    assert_eq!(create_proposal(Some(MASTER), params("Budget", -5), now()), err);
}

#[test]
fn created_proposal_is_sealed_and_ends_later() {
    let rec = create_proposal(Some(MASTER), params(" Budget 2025 ", 3), now()).unwrap();
    assert_eq!(rec.status, "active");
    assert_eq!(rec.quorum, 3);
    assert_eq!(rec.org_id, 1);
    assert_eq!(rec.creator_id, 2);
    assert_eq!(rec.ends_at, Timestamp::new(1_700_000_000 + 48 * 3600, 500).unwrap());
    assert_eq!(decrypt(MASTER, &rec.title_enc, "governance:title").unwrap(), " Budget 2025 ");
    assert_eq!(decrypt(MASTER, &rec.description_enc, "governance:description").unwrap(), "Raise the budget");
    assert_eq!(uuid::Uuid::from_u128(rec.id).get_version_num(), 4);
    assert_eq!(uuid::Uuid::from_u128(rec.id).get_variant(), uuid::Variant::RFC4122);
}

fn row(title_enc: String, description_enc: String, id: &str) -> ProposalRow {
    ProposalRow {
        id: id.to_string(),
        title_enc,
        description_enc,
        quorum: 4,
        status: "active".to_string(),
        ends_at: now(),
        vote_count: None,
    }
}

#[test]
fn listed_proposals_read_their_fields() {
    let t = encrypt(MASTER, "Title", "governance:title").unwrap();
    let d = encrypt(MASTER, "Body", "governance:description").unwrap();
    let v = proposal_view(Some(MASTER), row(t, d, "00000000-0000-0000-0000-00000000002a")).unwrap();
    assert_eq!(v.id, 42);
    assert_eq!(v.title, "Title");
    assert_eq!(v.description, "Body");
    assert_eq!(v.vote_count, 0);
    assert_eq!(v.quorum, 4);
}

#[test]
fn created_proposal_lists_with_its_fields() {
    let rec = create_proposal(Some(MASTER), params("Budget", 5), now()).unwrap();
    assert_eq!(uuid::Uuid::from_u128(rec.id).to_string(), rec.id_text);
    let stored = ProposalRow {
        id: rec.id_text.clone(),
        title_enc: rec.title_enc.clone(),
        description_enc: rec.description_enc.clone(),
        quorum: rec.quorum,
        status: rec.status.clone(),
        ends_at: rec.ends_at,
        vote_count: None,
    };
    let v = proposal_view(Some(MASTER), stored).unwrap();
    assert_eq!(v.id, rec.id);
    assert_eq!(v.title, "Budget");
    assert_eq!(v.description, "Raise the budget");
    assert_eq!(v.quorum, 5);
    assert_eq!(v.status, "active");
    assert_eq!(v.vote_count, 0);
    assert_eq!(v.ends_at, rec.ends_at);
}

#[test]
fn listing_with_a_bad_id_is_internal() {
    let t = encrypt(MASTER, "Title", "governance:title").unwrap();
    let d = encrypt(MASTER, "Body", "governance:description").unwrap();
    let mut r = row(t, d, "bad");
    r.vote_count = Some(7);
    assert!(matches!(proposal_view(Some(MASTER), r), Err(AppError::Internal(_))));
}

#[test]
fn vote_values() {
    assert_eq!(check_vote_value("yes"), Ok(()));
    assert_eq!(check_vote_value("no"), Ok(()));
    assert_eq!(check_vote_value("abstain"), Ok(()));
    let err = Err(AppError::Validation("Vote must be: ye, no, or abstain".to_string()));
    assert_eq!(check_vote_value("Yes"), err);
    assert_eq!(check_vote_value(""), err);
    assert_eq!(check_vote_value("yes "), err);
}

fn status(s: &str, ends_at: Timestamp) -> Option<ProposalStatus> {
    Some(ProposalStatus { status: s.to_string(), ends_at })
}

#[test]
fn votes_need_an_open_proposal() {
    let later = Timestamp::new(1_700_003_600, 0).unwrap();
    let earlier = Timestamp::new(1_699_990_000, 0).unwrap();
    assert_eq!(cast_vote(Some(MASTER), 9, 5, "maybe", None, now()).unwrap_err(),
        AppError::Validation("Vote must be: ye, no, or abstain".to_string()));
    assert_eq!(cast_vote(Some(MASTER), 9, 5, "yes", None, now()), Err(AppError::NotFound));
    assert_eq!(cast_vote(Some(MASTER), 9, 5, "yes", status("passed", later), now()),
        Err(AppError::Validation("Proposal is no longer active".to_string())));
    assert_eq!(cast_vote(Some(MASTER), 9, 5, "no", status("active", earlier), now()),
        Err(AppError::Validation("Proposal voting period has ended".to_string())));
    // a proposal ending exactly now still takes votes
    assert!(cast_vote(Some(MASTER), 9, 5, "no", status("active", now()), now()).is_ok());
}

#[test]
fn recorded_vote_is_sealed_and_committed() {
    let later = Timestamp::new(1_700_003_600, 0).unwrap();
    let v = cast_vote(Some(MASTER), 9, 5, "abstain", status("active", later), now()).unwrap();
    assert_eq!(v.proposal_id, 9);
    assert_eq!(decrypt(MASTER, &v.vote_enc, "governance:vote").unwrap(), "abstain");
    assert_eq!(v.voter_commitment.len(), 64);
    assert!(v.voter_commitment.chars().all(|c| c.is_ascii_hexdigit() && !c.is_ascii_uppercase()));
    let w = cast_vote(Some(MASTER), 9, 5, "abstain", status("active", later), now()).unwrap();
    assert_ne!(v.voter_commitment, w.voter_commitment);
    assert_ne!(v.id, w.id);
    for id in [v.id, w.id] {
        assert_eq!(uuid::Uuid::from_u128(id).get_version_num(), 4);
        assert_eq!(uuid::Uuid::from_u128(id).get_variant(), uuid::Variant::RFC4122);
    }
}

fn sealed_row(title: &str, id: &str, votes: Option<i64>) -> ProposalRow {
    let mut r = row(
        encrypt(MASTER, title, "governance:title").unwrap(),
        encrypt(MASTER, "Body", "governance:description").unwrap(),
        id,
    );
    r.vote_count = votes;
    r
}

#[test]
fn all_proposals_list_in_order() {
    let rows = vec![
        sealed_row("B", "00000000-0000-0000-0000-000000000002", Some(3)),
        sealed_row("A", "00000000-0000-0000-0000-000000000001", None),
    ];
    let views = proposal_views(Some(MASTER), rows).unwrap();
    assert_eq!(views.len(), 2);
    assert_eq!((views[0].id, views[0].title.as_str(), views[0].vote_count), (2, "B", 3));
    assert_eq!((views[1].id, views[1].title.as_str(), views[1].vote_count), (1, "A", 0));
    assert_eq!(proposal_views(Some(MASTER), vec![]), Ok(vec![]));
    assert_eq!(proposal_views(None, vec![]), Ok(vec![]));
}

#[test]
fn one_unreadable_proposal_fails_the_list() {
    let mut bad = sealed_row("B", "00000000-0000-0000-0000-000000000002", None);
    bad.description_enc = encrypt(MASTER, "Body", "governance:title").unwrap();
    let good = sealed_row("A", "00000000-0000-0000-0000-000000000001", None);
    assert_eq!(
        proposal_views(Some(MASTER), vec![good.clone(), bad, sealed_row("C", "bad", None)]),
        Err(AppError::Encryption("Decryption failed - invalid key or tampered data ".to_string()))
    );
    assert!(matches!(proposal_views(Some(MASTER), vec![good.clone(), sealed_row("C", "bad", None)]), Err(AppError::Internal(_))));
    assert_eq!(
        proposal_views(None, vec![good]),
        Err(AppError::Encryption("Master key not configured".to_string()))
    );
}

#[test]
fn governance_without_master_key() {
    let missing = Err(AppError::Encryption("Master key not configured".to_string()));
    assert_eq!(create_proposal(None, params("Budget", 1), now()), missing);
    assert_eq!(
        create_proposal(None, params("", 1), now()),
        Err(AppError::Validation("Proposal title is required".to_string()))
    );
    let later = Timestamp::new(1_700_003_600, 0).unwrap();
    assert_eq!(cast_vote(None, 1, 2, "yes", status("active", later), now()).unwrap_err(),
        AppError::Encryption("Master key not configured".to_string()));
    assert_eq!(cast_vote(None, 1, 2, "yes", None, now()), Err(AppError::NotFound));
    let t = encrypt(MASTER, "T", "governance:title").unwrap();
    assert_eq!(proposal_view(None, row(t.clone(), t, "x")).unwrap_err(),
        AppError::Encryption("Master key not configured".to_string()));
}

#[test]
fn proposal_parameter_checks() {
    assert_eq!(check_proposal_params(&params("A", 1)), Ok(()));
    assert_eq!(check_proposal_params(&params("\u{2003}", 1)),
        Err(AppError::Validation("Proposal title is required".to_string())));
    assert_eq!(check_proposal_params(&params("A", 0)), Err(AppError::Validation("Quorum musat be 1".to_string())));
}
