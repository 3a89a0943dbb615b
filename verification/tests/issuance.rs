use hermes::errors::CoreError;
use hermes::invoice_db::InvoiceDb;
use hermes::invoice_state::InvoiceState;
use hermes::issuer::{issue, BackendReply, IssueSession, IssueStep};
use hermes::lnurl::{validate_amount, LnurlCallbackParams, MIN_AMOUNT};
use hermes::user_db::UserDb;
use hermes::users::UserForCreate;

fn fed_a() -> String {
    "aa".repeat(32)
}

fn op_1() -> String {
    "11".repeat(32)
}

fn op_2() -> String {
    "22".repeat(32)
}

fn params(amount: u64) -> LnurlCallbackParams {
    LnurlCallbackParams { amount, nonce: None, comment: None, proofofpayer: None, nostr: None }
}

fn alice_with_tweak(last_tweak: i64) -> UserForCreate {
    UserForCreate {
        name: "alice".to_string(),
        replit_id: "r1".to_string(),
        replit_profile_pic: "pic".to_string(),
        pubkey: "02ab".to_string(),
        relays: vec!["wss://relay.example".to_string()],
        federation_ids: vec![fed_a()],
        connection_code_uuid: "c0de".to_string(),
        last_tweak,
    }
}

#[test]
fn validate_amount_boundary() {
    assert!(validate_amount(MIN_AMOUNT).is_ok());
    assert!(validate_amount(MIN_AMOUNT - 1).is_err());
    assert_eq!(validate_amount(999).unwrap_err(), CoreError::InvalidAmount);
    assert!(validate_amount(1000).is_ok());
}

#[test]
fn scenario_accepts_next_tweak() {
    // alice has consumed tweaks up to 3; the backend accepts tweak 4.
    let mut users = UserDb::new();
    let mut invoices = InvoiceDb::new();
    users.create(alice_with_tweak(3)).unwrap();
    let replies = vec![BackendReply::Accepted { op_id: op_1(), bolt11: "lnbc2000".to_string() }];
    let inv = issue(
        &mut users,
        &mut invoices,
        &"alice".to_string(),
        &params(2000),
        &fed_a(),
        &replies,
    )
    .unwrap();
    assert_eq!(inv.tweak, 4);
    assert_eq!(inv.amount, 2000);
    assert_eq!(inv.state, InvoiceState::Pending);
    assert_eq!(inv.federation_id, fed_a());
    let alice = users.get_by_name(&"alice".to_string()).unwrap();
    assert_eq!(alice.last_tweak, 4);
}

#[test]
fn scenario_retries_past_duplicate_tweak() {
    // the backend rejects tweak 4 as duplicate and accepts tweak 5;
    // no invoice is recorded for tweak 4.
    let mut users = UserDb::new();
    let mut invoices = InvoiceDb::new();
    users.create(alice_with_tweak(3)).unwrap();
    let replies = vec![
        BackendReply::DuplicateTweak,
        BackendReply::Accepted { op_id: op_1(), bolt11: "lnbc2000".to_string() },
    ];
    let inv = issue(
        &mut users,
        &mut invoices,
        &"alice".to_string(),
        &params(2000),
        &fed_a(),
        &replies,
    )
    .unwrap();
    assert_eq!(inv.tweak, 5);
    let stored = invoices.get_by_state(InvoiceState::Pending);
    assert_eq!(stored.len(), 1);
    assert_eq!(stored[0].tweak, 5);
    assert!(!stored.iter().any(|i| i.tweak == 4));
    let alice = users.get_by_name(&"alice".to_string()).unwrap();
    assert_eq!(alice.last_tweak, 5);
}

#[test]
fn issue_round_trip_by_operation_id() {
    // what the issuer wrote is read back identically by operation id.
    let mut users = UserDb::new();
    let mut invoices = InvoiceDb::new();
    users.create(alice_with_tweak(0)).unwrap();
    let replies = vec![BackendReply::Accepted { op_id: op_1(), bolt11: "lnbc42".to_string() }];
    let written = issue(
        &mut users,
        &mut invoices,
        &"alice".to_string(),
        &params(4200),
        &fed_a(),
        &replies,
    )
    .unwrap();
    let read = invoices.get_by_op_id(&op_1()).unwrap();
    assert_eq!(read.federation_id, written.federation_id);
    assert_eq!(read.amount, written.amount);
    assert_eq!(read.tweak, written.tweak);
    assert_eq!(read.state, InvoiceState::Pending);
    assert_eq!(read.bolt11, written.bolt11);
    assert_eq!(read.app_user_id, written.app_user_id);
}

#[test]
fn issue_never_reuses_a_tweak() {
    // repeated issuance for the same user always yields fresh tweaks.
    let mut users = UserDb::new();
    let mut invoices = InvoiceDb::new();
    users.create(alice_with_tweak(0)).unwrap();
    let r1 = vec![BackendReply::Accepted { op_id: op_1(), bolt11: "lnbc1".to_string() }];
    let r2 = vec![
        BackendReply::DuplicateTweak,
        BackendReply::Accepted { op_id: op_2(), bolt11: "lnbc2".to_string() },
    ];
    let a = issue(&mut users, &mut invoices, &"alice".to_string(), &params(1500), &fed_a(), &r1)
        .unwrap();
    let b = issue(&mut users, &mut invoices, &"alice".to_string(), &params(1500), &fed_a(), &r2)
        .unwrap();
    assert_ne!(a.tweak, b.tweak);
    assert_eq!(a.tweak, 1);
    assert_eq!(b.tweak, 3);
    let all = invoices.get_by_state(InvoiceState::Pending);
    assert_eq!(all.len(), 2);
    assert_ne!(all[0].tweak, all[1].tweak);
}

#[test]
fn issue_unknown_user() {
    let mut users = UserDb::new();
    let mut invoices = InvoiceDb::new();
    let replies: Vec<BackendReply> = vec![];
    let r = issue(&mut users, &mut invoices, &"bob".to_string(), &params(2000), &fed_a(), &replies);
    assert_eq!(r.unwrap_err(), CoreError::UnknownUser);
}

#[test]
fn issue_backend_failure_leaves_stores_untouched() {
    let mut users = UserDb::new();
    let mut invoices = InvoiceDb::new();
    users.create(alice_with_tweak(3)).unwrap();
    let replies = vec![BackendReply::DuplicateTweak, BackendReply::Failure];
    let r = issue(
        &mut users,
        &mut invoices,
        &"alice".to_string(),
        &params(2000),
        &fed_a(),
        &replies,
    );
    assert_eq!(r.unwrap_err(), CoreError::BackendUnavailable);
    assert!(invoices.get_by_state(InvoiceState::Pending).is_empty());
    assert_eq!(users.get_by_name(&"alice".to_string()).unwrap().last_tweak, 3);
}

#[test]
fn issue_exhausted_stream_is_backend_unavailable() {
    let mut users = UserDb::new();
    let mut invoices = InvoiceDb::new();
    users.create(alice_with_tweak(3)).unwrap();
    let replies = vec![BackendReply::DuplicateTweak, BackendReply::DuplicateTweak];
    let r = issue(
        &mut users,
        &mut invoices,
        &"alice".to_string(),
        &params(2000),
        &fed_a(),
        &replies,
    );
    assert_eq!(r.unwrap_err(), CoreError::BackendUnavailable);
}

#[test]
fn issue_tweak_exhausted_at_watermark_max() {
    let mut users = UserDb::new();
    let mut invoices = InvoiceDb::new();
    users.create(alice_with_tweak(i64::MAX)).unwrap();
    let replies = vec![BackendReply::Accepted { op_id: op_1(), bolt11: "x".to_string() }];
    let r = issue(
        &mut users,
        &mut invoices,
        &"alice".to_string(),
        &params(2000),
        &fed_a(),
        &replies,
    );
    assert_eq!(r.unwrap_err(), CoreError::TweakExhausted);
}

#[test]
fn issue_tweak_exhausted_by_duplicates() {
    let mut users = UserDb::new();
    let mut invoices = InvoiceDb::new();
    users.create(alice_with_tweak(i64::MAX - 1)).unwrap();
    let replies = vec![BackendReply::DuplicateTweak];
    let r = issue(
        &mut users,
        &mut invoices,
        &"alice".to_string(),
        &params(2000),
        &fed_a(),
        &replies,
    );
    assert_eq!(r.unwrap_err(), CoreError::TweakExhausted);
}

#[test]
fn issue_duplicate_operation_id_burns_tweak() {
    let mut users = UserDb::new();
    let mut invoices = InvoiceDb::new();
    users.create(alice_with_tweak(0)).unwrap();
    let r1 = vec![BackendReply::Accepted { op_id: op_1(), bolt11: "a".to_string() }];
    issue(&mut users, &mut invoices, &"alice".to_string(), &params(1500), &fed_a(), &r1).unwrap();
    // the backend hands the same operation id out again: the store
    // refuses, and the tweak stays consumed.
    let r2 = vec![BackendReply::Accepted { op_id: op_1(), bolt11: "b".to_string() }];
    let r = issue(&mut users, &mut invoices, &"alice".to_string(), &params(1500), &fed_a(), &r2);
    assert_eq!(r.unwrap_err(), CoreError::DuplicateOperationId);
    assert_eq!(users.get_by_name(&"alice".to_string()).unwrap().last_tweak, 2);
    assert_eq!(invoices.get_by_state(InvoiceState::Pending).len(), 1);
}

#[test]
fn session_carries_comment_and_default_memo() {
    let mut users = UserDb::new();
    users.create(alice_with_tweak(3)).unwrap();
    let alice = users.get_by_name(&"alice".to_string()).unwrap();
    let with_comment = LnurlCallbackParams {
        amount: 2000,
        nonce: None,
        comment: Some("thanks".to_string()),
        proofofpayer: None,
        nostr: None,
    };
    let s = IssueSession::start(&alice, &with_comment, fed_a()).unwrap();
    assert_eq!(s.description, "thanks");
    assert_eq!(s.candidate_tweak, 4);
    let req = s.request();
    assert_eq!(req.tweak, 4);
    assert_eq!(req.amount_msats, 2000);
    assert_eq!(req.pubkey, "02ab");
    let s2 = IssueSession::start(&alice, &params(2000), fed_a()).unwrap();
    assert_eq!(s2.description, "hermes address payment");
}

#[test]
fn session_step_by_step() {
    let mut users = UserDb::new();
    users.create(alice_with_tweak(7)).unwrap();
    let alice = users.get_by_name(&"alice".to_string()).unwrap();
    let s = IssueSession::start(&alice, &params(2000), fed_a()).unwrap();
    match s.on_reply(BackendReply::DuplicateTweak) {
        IssueStep::Retry(s2) => {
            assert_eq!(s2.candidate_tweak, 9);
            match s2.on_reply(BackendReply::Accepted {
                op_id: op_1(),
                bolt11: "lnbc".to_string(),
            }) {
                IssueStep::Accept(a) => {
                    assert_eq!(a.tweak, 9);
                    assert_eq!(a.op_id, op_1());
                }
                _ => panic!("expected acceptance"),
            }
        }
        _ => panic!("expected retry"),
    }
}
