use hermes::directory::FederationDirectory;
use hermes::errors::CoreError;
use hermes::hexid::{federation_id_valid, operation_id_valid};
use hermes::invoice_state::{state_from_bytes, state_from_i32, state_to_bytes, state_to_i32};
use hermes::invoices::{InvoiceForCreate, InvoiceForUpdate};
use hermes::lnurl::{
    home_page, invoices_for_user, verify_response, well_known_response, HomePage, InvoiceQuery,
    LnurlStatus, LnurlType,
};
use hermes::invoice_db::InvoiceDb;
use hermes::invoice_state::InvoiceState;
use hermes::urls::{create_verify_url, u64_to_string, verify_url_string};
use hermes::user_db::{get_user, UserDb};
use hermes::users::{AppUser, AppUserForUpdate, UserForCreate, UserForUpdate};

fn fed_a() -> String {
    "aa".repeat(32)
}

fn profile(name: &str) -> UserForCreate {
    UserForCreate::new(
        name.to_string(),
        "rid".to_string(),
        "pic".to_string(),
        "02ab".to_string(),
        vec!["wss://relay.example".to_string()],
        vec![fed_a()],
    )
}

#[test]
fn state_integer_codec_round_trips() {
    for st in [InvoiceState::Pending, InvoiceState::Settled, InvoiceState::Cancelled] {
        assert_eq!(state_from_i32(state_to_i32(st)), Some(st));
    }
    assert_eq!(state_to_i32(InvoiceState::Pending), 0);
    assert_eq!(state_to_i32(InvoiceState::Settled), 1);
    assert_eq!(state_to_i32(InvoiceState::Cancelled), 2);
    assert_eq!(state_from_i32(3), None);
    assert_eq!(state_from_i32(-1), None);
}

#[test]
fn state_text_codec_round_trips() {
    for st in [InvoiceState::Pending, InvoiceState::Settled, InvoiceState::Cancelled] {
        assert_eq!(state_from_bytes(&state_to_bytes(st)), Some(st));
    }
    assert_eq!(state_to_bytes(InvoiceState::Pending), b"pending".to_vec());
    assert_eq!(state_to_bytes(InvoiceState::Settled), b"settled".to_vec());
    assert_eq!(state_to_bytes(InvoiceState::Cancelled), b"cancelled".to_vec());
    assert_eq!(state_from_bytes(&b"paid".to_vec()), None);
    assert_eq!(state_from_bytes(&Vec::new()), None);
}

#[test]
fn hex_id_validation() {
    assert!(federation_id_valid(&"aA09".repeat(16)));
    assert!(operation_id_valid(&"ff".repeat(32)));
    assert!(!federation_id_valid(&"aa".repeat(31)));
    assert!(!federation_id_valid(&"zz".repeat(32)));
    assert!(!operation_id_valid(&"".to_string()));
    assert!(!operation_id_valid(&format!("{}\u{20ac}", "aa".repeat(31))));
}

#[test]
fn decimal_rendering_exact() {
    assert_eq!(u64_to_string(0), "0");
    assert_eq!(u64_to_string(7), "7");
    assert_eq!(u64_to_string(3000), "3000");
    assert_eq!(u64_to_string(65535), "65535");
}

#[test]
fn verify_url_text_exact() {
    let s = verify_url_string(
        &"pay.example".to_string(),
        3000,
        &"alice".to_string(),
        &"11".repeat(32),
    );
    assert_eq!(
        s,
        format!("http://pay.example:3000/lnurlp/alice/verify/{}", "11".repeat(32))
    );
}

#[test]
fn verify_url_parses_when_well_formed() {
    let url = create_verify_url(
        &"pay.example".to_string(),
        3000,
        &"alice".to_string(),
        &"11".repeat(32),
    )
    .unwrap();
    assert_eq!(url.as_str(), format!("http://pay.example:3000/lnurlp/alice/verify/{}", "11".repeat(32)));
    let bad = create_verify_url(
        &"bad domain".to_string(),
        3000,
        &"alice".to_string(),
        &"11".repeat(32),
    );
    assert_eq!(bad.unwrap_err(), CoreError::InvalidUrl);
}

#[test]
fn verify_response_reports_settlement() {
    let mut db = InvoiceDb::new();
    let inv = db
        .create(InvoiceForCreate {
            op_id: "11".repeat(32),
            federation_id: fed_a(),
            app_user_id: 1,
            amount: 1500,
            bolt11: "lnbc15".to_string(),
            tweak: 1,
            state: InvoiceState::Pending,
        })
        .unwrap();
    let r = verify_response(&inv);
    assert_eq!(r.status, LnurlStatus::Okay);
    assert!(!r.settled);
    assert_eq!(r.pr, "lnbc15");
    assert_eq!(r.preimage, "");
    db.update_state(inv.id, InvoiceState::Settled).unwrap();
    let settled = db.get_by_op_id(&"11".repeat(32)).unwrap();
    assert!(verify_response(&settled).settled);
}

#[test]
fn well_known_response_shape() {
    let r = well_known_response(
        &"pay.example".to_string(),
        &"alice".to_string(),
        &"02ab".to_string(),
    );
    assert_eq!(r.callback, "https://pay.example/lnurlp/alice/callback");
    assert_eq!(r.max_sendable, 100000);
    assert_eq!(r.min_sendable, 1000);
    assert_eq!(r.metadata, "");
    assert_eq!(r.comment_allowed, None);
    assert_eq!(r.tag, LnurlType::PayRequest);
    assert_eq!(r.status, LnurlStatus::Okay);
    assert_eq!(r.nostr_pubkey, Some("02ab".to_string()));
    assert!(r.allows_nostr);
}

#[test]
fn invoices_filtered_by_user() {
    let mut db = InvoiceDb::new();
    for (op, user) in [("11", 1), ("22", 2), ("33", 1)] {
        db.create(InvoiceForCreate {
            op_id: op.repeat(32),
            federation_id: fed_a(),
            app_user_id: user,
            amount: 1500,
            bolt11: "lnbc".to_string(),
            tweak: 1,
            state: InvoiceState::Pending,
        })
        .unwrap();
    }
    let mine = invoices_for_user(
        db.get_by_state(InvoiceState::Pending),
        &InvoiceQuery { user_id: 1 },
    );
    assert_eq!(mine.len(), 2);
    assert!(mine.iter().all(|i| i.app_user_id == 1));
}

#[test]
fn user_create_and_lookup() {
    let mut users = UserDb::new();
    let created = users.create(profile("alice")).unwrap();
    assert_eq!(created.last_tweak, 0);
    assert_eq!(created.connection_code_uuid.len(), 36);
    let read = get_user(&users, &"alice".to_string()).unwrap();
    assert_eq!(read.id, created.id);
    assert_eq!(read.pubkey, "02ab");
    assert_eq!(
        get_user(&users, &"bob".to_string()).unwrap_err(),
        CoreError::UnknownUser
    );
    assert!(users.get(created.id).is_some());
    assert!(users.get(created.id + 1).is_none());
}

#[test]
fn duplicate_user_name_is_refused() {
    let mut users = UserDb::new();
    users.create(profile("alice")).unwrap();
    let again = users.create(profile("alice"));
    assert_eq!(again.unwrap_err(), CoreError::DuplicateUserName);
}

#[test]
fn update_applies_only_set_fields() {
    let mut users = UserDb::new();
    let created = users.create(profile("alice")).unwrap();
    let up = UserForUpdate::builder()
        .pubkey("03cd".to_string())
        .relays(vec!["wss://other.example".to_string()])
        .build();
    let updated = users.update(created.id, up).unwrap();
    assert_eq!(updated.pubkey, "03cd");
    assert_eq!(updated.relays, vec!["wss://other.example".to_string()]);
    assert_eq!(updated.name, "alice");
    assert_eq!(updated.last_tweak, 0);
    assert_eq!(updated.connection_code_uuid, created.connection_code_uuid);
}

#[test]
fn update_tweak_is_strictly_monotonic() {
    let mut users = UserDb::new();
    let alice = users.create(profile("alice")).unwrap();
    users.update_tweak(&alice, 5).unwrap();
    let stale = users.update_tweak(&alice, 5);
    assert_eq!(stale.unwrap_err(), CoreError::DuplicateTweak);
    let lower = users.update_tweak(&alice, 3);
    assert_eq!(lower.unwrap_err(), CoreError::DuplicateTweak);
    users.update_tweak(&alice, 6).unwrap();
    assert_eq!(get_user(&users, &"alice".to_string()).unwrap().last_tweak, 6);
}

#[test]
fn upsert_keeps_watermark_for_existing_user() {
    let mut users = UserDb::new();
    let alice = users.create(profile("alice")).unwrap();
    users.update_tweak(&alice, 9).unwrap();
    users
        .update_or_create_user(
            &"alice".to_string(),
            &"rid2".to_string(),
            &"pic2".to_string(),
            &"03cd".to_string(),
            vec!["wss://new.example".to_string()],
            vec![fed_a()],
        )
        .unwrap();
    let read = get_user(&users, &"alice".to_string()).unwrap();
    assert_eq!(read.last_tweak, 9);
    assert_eq!(read.pubkey, "03cd");
    assert_eq!(read.replit_id, "rid2");
}

#[test]
fn upsert_creates_missing_user_with_zero_watermark() {
    let mut users = UserDb::new();
    users
        .update_or_create_user(
            &"bob".to_string(),
            &"rid".to_string(),
            &"pic".to_string(),
            &"02ef".to_string(),
            vec![],
            vec![fed_a()],
        )
        .unwrap();
    let read = get_user(&users, &"bob".to_string()).unwrap();
    assert_eq!(read.last_tweak, 0);
    assert_eq!(read.pubkey, "02ef");
}

#[test]
fn create_new_user_starts_fresh() {
    let mut users = UserDb::new();
    let u = users
        .create_new_user(
            &"rid".to_string(),
            &"carol".to_string(),
            &"pic".to_string(),
            &"02aa".to_string(),
            vec![],
            vec![fed_a()],
        )
        .unwrap();
    assert_eq!(u.name, "carol");
    assert_eq!(u.replit_id, "rid");
    assert_eq!(u.last_tweak, 0);
    assert_eq!(u.connection_code_uuid.len(), 36);
}

#[test]
fn resolve_routes_to_primary_federation() {
    let mut users = UserDb::new();
    users.create(profile("alice")).unwrap();
    let alice = get_user(&users, &"alice".to_string()).unwrap();
    let mut dir: FederationDirectory<u32> = FederationDirectory::new();
    dir.register(fed_a(), 10);
    let (fed, handle) = dir.get_federation_and_client(&alice).unwrap();
    assert_eq!(fed, fed_a());
    assert_eq!(handle, 10);
}

#[test]
fn resolve_fails_for_unknown_or_invalid_federation() {
    let mut users = UserDb::new();
    users.create(profile("alice")).unwrap();
    users
        .create(UserForCreate::new(
            "dave".to_string(),
            "rid".to_string(),
            "pic".to_string(),
            "02dd".to_string(),
            vec![],
            vec!["not-hex".to_string()],
        ))
        .unwrap();
    users
        .create(UserForCreate::new(
            "erin".to_string(),
            "rid".to_string(),
            "pic".to_string(),
            "02ee".to_string(),
            vec![],
            vec![],
        ))
        .unwrap();
    let dir: FederationDirectory<u32> = FederationDirectory::new();
    let alice = get_user(&users, &"alice".to_string()).unwrap();
    assert_eq!(
        dir.get_federation_and_client(&alice).unwrap_err(),
        CoreError::UnknownFederation
    );
    let dave = get_user(&users, &"dave".to_string()).unwrap();
    assert_eq!(
        dir.get_federation_and_client(&dave).unwrap_err(),
        CoreError::UnknownFederation
    );
    let erin = get_user(&users, &"erin".to_string()).unwrap();
    assert_eq!(
        dir.get_federation_and_client(&erin).unwrap_err(),
        CoreError::UnknownFederation
    );
}

#[test]
fn home_page_decision() {
    let mut users = UserDb::new();
    users.create(profile("alice")).unwrap();
    let login = home_page(&users, &None, &Some("alice".to_string()), &Some("pic".to_string()));
    assert!(matches!(login, HomePage::Login));
    let register = home_page(
        &users,
        &Some("id".to_string()),
        &Some("bob".to_string()),
        &Some("pic".to_string()),
    );
    assert!(matches!(register, HomePage::Register));
    let home = home_page(
        &users,
        &Some("id".to_string()),
        &Some("alice".to_string()),
        &Some("pic".to_string()),
    );
    match home {
        HomePage::Home { pubkey } => assert_eq!(pubkey, "02ab"),
        _ => panic!("expected the user's home page"),
    }
}

#[test]
fn invoice_builder_requires_every_field() {
    let built = InvoiceForCreate::builder()
        .op_id("11".repeat(32))
        .federation_id(fed_a())
        .app_user_id(1)
        .amount(1500)
        .bolt11("lnbc".to_string())
        .tweak(2)
        .state(InvoiceState::Pending)
        .build()
        .unwrap();
    assert_eq!(built.tweak, 2);
    assert_eq!(built.state, InvoiceState::Pending);
    let missing = InvoiceForCreate::builder().op_id("11".repeat(32)).build();
    assert_eq!(missing.unwrap_err(), "federation_id is required");
    let empty = InvoiceForCreate::builder().build();
    assert_eq!(empty.unwrap_err(), "op_id is required");
}

#[test]
fn invoice_update_builder() {
    let up = InvoiceForUpdate::builder().state(InvoiceState::Settled).build().unwrap();
    assert_eq!(up.state, InvoiceState::Settled);
    assert_eq!(InvoiceForUpdate::builder().build().unwrap_err(), "state is required");
}

#[test]
fn app_user_builder_requires_every_field() {
    let u = AppUser::builder()
        .id(1)
        .name("alice".to_string())
        .pubkey("02ab".to_string())
        .last_tweak(3)
        .relays(vec![])
        .federation_ids(vec![fed_a()])
        .build()
        .unwrap();
    assert_eq!(u.last_tweak, 3);
    let missing = AppUser::builder().id(1).build();
    assert_eq!(missing.unwrap_err(), "name is required");
}

#[test]
fn app_user_update_builder_is_partial() {
    let up = AppUserForUpdate::builder().pubkey("03cd".to_string()).build();
    assert_eq!(up.pubkey, Some("03cd".to_string()));
    assert_eq!(up.name, None);
    assert_eq!(up.relays, None);
    assert_eq!(up.federation_ids, None);
    assert_eq!(up.last_tweak, None);
}

#[test]
fn user_update_builder_carries_all_fields() {
    let up = UserForUpdate::builder()
        .name("n".to_string())
        .replit_id("r".to_string())
        .replit_profile_pic("p".to_string())
        .pubkey("k".to_string())
        .relays(vec![])
        .federation_ids(vec![])
        .last_tweak(4)
        .connection_code_uuid("c".to_string())
        .build();
    assert_eq!(up.name, Some("n".to_string()));
    assert_eq!(up.replit_id, Some("r".to_string()));
    assert_eq!(up.replit_profile_pic, Some("p".to_string()));
    assert_eq!(up.pubkey, Some("k".to_string()));
    assert_eq!(up.last_tweak, Some(4));
    assert_eq!(up.connection_code_uuid, Some("c".to_string()));
}

#[test]
fn error_messages_are_stable() {
    assert_eq!(CoreError::UnknownUser.message(), "user not found");
    assert_eq!(
        CoreError::UnknownFederation.message(),
        "federation id is invalid or not registered"
    );
    assert_eq!(CoreError::DuplicateTweak.message(), "tweaked key already in use");
}
