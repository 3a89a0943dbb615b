use hermes::directory::FederationDirectory;
use hermes::errors::CoreError;
use hermes::invoice_db::InvoiceDb;
use hermes::invoice_state::InvoiceState;
use hermes::invoices::InvoiceForCreate;
use hermes::recovery::{group_invoices_by_federation, handle_pending_invoices};
use hermes::tracker::{
    run_tracker, subscribe_to_invoice, tracker_step, PaymentEvent, Tracker, TrackerOutcome,
};

fn fed_a() -> String {
    "aa".repeat(32)
}

fn fed_b() -> String {
    "bb".repeat(32)
}

fn pending_invoice(op_id: &str, fed: &str, user: i32, tweak: i64) -> InvoiceForCreate {
    InvoiceForCreate {
        op_id: op_id.to_string(),
        federation_id: fed.to_string(),
        app_user_id: user,
        amount: 1500,
        bolt11: format!("lnbc-{}", op_id),
        tweak,
        state: InvoiceState::Pending,
    }
}

#[test]
fn claimed_settles_and_notifies_exactly_once() {
    // the tracker sees Claimed: the store shows Settled and exactly
    // one notification is asked for.
    let mut db = InvoiceDb::new();
    let inv = db.create(pending_invoice(&"11".repeat(32), &fed_a(), 1, 1)).unwrap();
    let events = vec![
        PaymentEvent::Created,
        PaymentEvent::WaitingForPayment,
        PaymentEvent::Claimed,
    ];
    let run = run_tracker(&mut db, &inv, &events);
    assert!(run.stopped);
    assert_eq!(run.notifications, 1);
    let read = db.get_by_op_id(&"11".repeat(32)).unwrap();
    assert_eq!(read.state, InvoiceState::Settled);
}

#[test]
fn canceled_cancels_without_notification() {
    let mut db = InvoiceDb::new();
    let inv = db.create(pending_invoice(&"11".repeat(32), &fed_a(), 1, 1)).unwrap();
    let events = vec![PaymentEvent::Canceled { reason: "expired".to_string() }];
    let run = run_tracker(&mut db, &inv, &events);
    assert!(run.stopped);
    assert_eq!(run.notifications, 0);
    let read = db.get_by_op_id(&"11".repeat(32)).unwrap();
    assert_eq!(read.state, InvoiceState::Cancelled);
}

#[test]
fn intermediate_events_change_nothing() {
    let mut db = InvoiceDb::new();
    let inv = db.create(pending_invoice(&"11".repeat(32), &fed_a(), 1, 1)).unwrap();
    let events = vec![
        PaymentEvent::Created,
        PaymentEvent::Funded,
        PaymentEvent::AwaitingFunds,
        PaymentEvent::WaitingForPayment,
    ];
    let run = run_tracker(&mut db, &inv, &events);
    assert!(!run.stopped);
    assert_eq!(run.notifications, 0);
    let read = db.get_by_op_id(&"11".repeat(32)).unwrap();
    assert_eq!(read.state, InvoiceState::Pending);
}

#[test]
fn transitions_happen_at_most_once() {
    // after settling, neither a second settlement nor a cancellation
    // is accepted, and a missing row is reported as such.
    let mut db = InvoiceDb::new();
    let inv = db.create(pending_invoice(&"11".repeat(32), &fed_a(), 1, 1)).unwrap();
    db.update_state(inv.id, InvoiceState::Settled).unwrap();
    let again = db.update_state(inv.id, InvoiceState::Settled);
    assert_eq!(again.unwrap_err(), CoreError::IllegalTransition);
    let cancel = db.update_state(inv.id, InvoiceState::Cancelled);
    assert_eq!(cancel.unwrap_err(), CoreError::IllegalTransition);
    let missing = db.update_state(inv.id + 1, InvoiceState::Settled);
    assert_eq!(missing.unwrap_err(), CoreError::InvoiceNotFound);
    assert_eq!(db.get_by_op_id(&"11".repeat(32)).unwrap().state, InvoiceState::Settled);
}

#[test]
fn pending_to_pending_is_refused() {
    let mut db = InvoiceDb::new();
    let inv = db.create(pending_invoice(&"11".repeat(32), &fed_a(), 1, 1)).unwrap();
    let r = db.update_state(inv.id, InvoiceState::Pending);
    assert_eq!(r.unwrap_err(), CoreError::IllegalTransition);
}

#[test]
fn tracker_step_decisions() {
    let d = tracker_step(&PaymentEvent::Claimed);
    assert_eq!(d.set_state, Some(InvoiceState::Settled));
    assert!(d.notify);
    assert!(d.stop);
    let d = tracker_step(&PaymentEvent::Canceled { reason: "x".to_string() });
    assert_eq!(d.set_state, Some(InvoiceState::Cancelled));
    assert!(!d.notify);
    assert!(d.stop);
    let d = tracker_step(&PaymentEvent::Created);
    assert_eq!(d.set_state, None);
    assert!(!d.notify);
    assert!(!d.stop);
}

#[test]
fn tracker_on_event_drives_store() {
    let mut db = InvoiceDb::new();
    let inv = db.create(pending_invoice(&"11".repeat(32), &fed_a(), 1, 1)).unwrap();
    let mut t = Tracker::new(&inv);
    match t.on_event(&mut db, &PaymentEvent::Created) {
        TrackerOutcome::Continue => {}
        _ => panic!("intermediate event must continue"),
    }
    match t.on_event(&mut db, &PaymentEvent::Claimed) {
        TrackerOutcome::Stopped { notify, persisted } => {
            assert!(notify);
            assert!(persisted.is_ok());
        }
        _ => panic!("terminal event must stop"),
    }
    assert_eq!(db.get_by_op_id(&"11".repeat(32)).unwrap().state, InvoiceState::Settled);
}

#[test]
fn subscribe_checks_operation_id() {
    let mut db = InvoiceDb::new();
    let good = db.create(pending_invoice(&"11".repeat(32), &fed_a(), 1, 1)).unwrap();
    assert_eq!(subscribe_to_invoice(&good).unwrap(), "11".repeat(32));
    let bad = db.create(pending_invoice("not-hex", &fed_a(), 1, 2)).unwrap();
    assert_eq!(subscribe_to_invoice(&bad).unwrap_err(), CoreError::MalformedOperationId);
}

#[test]
fn grouping_partitions_by_federation() {
    let mut db = InvoiceDb::new();
    db.create(pending_invoice(&"11".repeat(32), &fed_a(), 1, 1)).unwrap();
    db.create(pending_invoice(&"22".repeat(32), &fed_b(), 2, 1)).unwrap();
    db.create(pending_invoice(&"33".repeat(32), &fed_a(), 1, 2)).unwrap();
    let groups = group_invoices_by_federation(db.get_by_state(InvoiceState::Pending));
    assert_eq!(groups.len(), 2);
    for (key, list) in &groups {
        assert!(!list.is_empty());
        for inv in list {
            assert_eq!(&inv.federation_id, key);
        }
    }
    let a = groups.iter().find(|g| g.0 == fed_a()).unwrap();
    assert_eq!(a.1.len(), 2);
    assert_eq!(a.1[0].op_id, "11".repeat(32));
    assert_eq!(a.1[1].op_id, "33".repeat(32));
}

#[test]
fn grouping_empty_input() {
    let groups = group_invoices_by_federation(Vec::new());
    assert!(groups.is_empty());
}

#[test]
fn recovery_resubscribes_both_federations() {
    // a restart with two pending invoices across two federations plans
    // both; a later Claimed transitions only its own invoice.
    let mut db = InvoiceDb::new();
    let i1 = db.create(pending_invoice(&"11".repeat(32), &fed_a(), 1, 1)).unwrap();
    let i2 = db.create(pending_invoice(&"22".repeat(32), &fed_b(), 2, 1)).unwrap();
    let mut dir: FederationDirectory<u32> = FederationDirectory::new();
    assert!(dir.register(fed_a(), 10));
    assert!(dir.register(fed_b(), 20));
    let plan = handle_pending_invoices(&db, &dir);
    assert_eq!(plan.partitions.len(), 2);
    assert!(plan.skipped_federations.is_empty());
    assert_eq!(plan.count(), 2);
    let run = run_tracker(&mut db, &i1, &vec![PaymentEvent::Claimed]);
    assert_eq!(run.notifications, 1);
    assert_eq!(db.get_by_op_id(&i1.op_id).unwrap().state, InvoiceState::Settled);
    assert_eq!(db.get_by_op_id(&i2.op_id).unwrap().state, InvoiceState::Pending);
}

#[test]
fn recovery_skips_unknown_federation() {
    // a pending invoice of an unregistered federation stays pending
    // and is reported; the other partition still recovers.
    let mut db = InvoiceDb::new();
    db.create(pending_invoice(&"11".repeat(32), &fed_a(), 1, 1)).unwrap();
    db.create(pending_invoice(&"22".repeat(32), &fed_b(), 2, 1)).unwrap();
    let mut dir: FederationDirectory<u32> = FederationDirectory::new();
    assert!(dir.register(fed_a(), 10));
    let plan = handle_pending_invoices(&db, &dir);
    assert_eq!(plan.partitions.len(), 1);
    assert_eq!(plan.partitions[0].0, fed_a());
    assert_eq!(plan.skipped_federations, vec![fed_b()]);
    assert_eq!(db.get_by_op_id(&"22".repeat(32)).unwrap().state, InvoiceState::Pending);
}

#[test]
fn recovery_skips_malformed_federation_id() {
    let mut db = InvoiceDb::new();
    db.create(pending_invoice(&"11".repeat(32), "garbage", 1, 1)).unwrap();
    let mut dir: FederationDirectory<u32> = FederationDirectory::new();
    assert!(dir.register(fed_a(), 10));
    let plan = handle_pending_invoices(&db, &dir);
    assert!(plan.partitions.is_empty());
    assert_eq!(plan.skipped_federations, vec!["garbage".to_string()]);
}

#[test]
fn recovery_twice_plans_the_same_subscriptions() {
    // with no backend activity in between, a second pass plans exactly
    // the same partitions, the same count, and the same skipped set.
    let mut db = InvoiceDb::new();
    db.create(pending_invoice(&"11".repeat(32), &fed_a(), 1, 1)).unwrap();
    db.create(pending_invoice(&"22".repeat(32), &fed_b(), 2, 1)).unwrap();
    db.create(pending_invoice(&"33".repeat(32), &fed_a(), 1, 2)).unwrap();
    let mut dir: FederationDirectory<u32> = FederationDirectory::new();
    assert!(dir.register(fed_a(), 10));
    let first = handle_pending_invoices(&db, &dir);
    let second = handle_pending_invoices(&db, &dir);
    assert_eq!(first.count(), second.count());
    assert_eq!(first.partitions.len(), second.partitions.len());
    for (key, list) in &first.partitions {
        let other = second.partitions.iter().find(|g| &g.0 == key).unwrap();
        assert_eq!(other.1.len(), list.len());
        for (x, y) in list.iter().zip(other.1.iter()) {
            assert_eq!(x.op_id, y.op_id);
        }
    }
    assert_eq!(first.skipped_federations, second.skipped_federations);
}

#[test]
fn recovery_ignores_settled_invoices() {
    let mut db = InvoiceDb::new();
    let inv = db.create(pending_invoice(&"11".repeat(32), &fed_a(), 1, 1)).unwrap();
    db.update_state(inv.id, InvoiceState::Settled).unwrap();
    let mut dir: FederationDirectory<u32> = FederationDirectory::new();
    assert!(dir.register(fed_a(), 10));
    let plan = handle_pending_invoices(&db, &dir);
    assert!(plan.partitions.is_empty());
    assert!(plan.skipped_federations.is_empty());
    assert_eq!(plan.count(), 0);
}

#[test]
fn directory_register_is_idempotent() {
    let mut dir: FederationDirectory<u32> = FederationDirectory::new();
    assert!(dir.register(fed_a(), 10));
    assert!(!dir.register(fed_a(), 11));
    // the first handle stays.
    assert_eq!(dir.lookup(&fed_a()), Some(10));
    assert_eq!(dir.lookup(&fed_b()), None);
}
