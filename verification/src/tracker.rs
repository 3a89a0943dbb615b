//! The invoice lifecycle tracker.
//!
//! Each invoice's tracker consumes the backend's pushed payment states
//! in order. Intermediate states change nothing; the first terminal
//! state is persisted — `Claimed` as `Settled`, with one notification
//! to the invoice's owner, `Canceled` as `Cancelled`, silently — and
//! stops the tracker. The awaiting of the stream happens outside; the
//! decision for one event is `tracker_step`, and `run_tracker` drives
//! the store through a whole event sequence.

use vstd::prelude::*;

use crate::errors::CoreError;
use crate::invoice_db::InvoiceDb;
use crate::invoice_state::InvoiceState;
use crate::invoices::Invoice;

verus! {

/// One payment state pushed by the backend's subscription stream.
#[derive(Debug)]
pub enum PaymentEvent {
    Created,
    WaitingForPayment,
    Funded,
    AwaitingFunds,
    Claimed,
    Canceled { reason: String },
}

/// Whether the event ends an invoice's lifecycle.
pub open spec fn is_terminal_event(e: PaymentEvent) -> bool {
    e is Claimed || e is Canceled
}

/// What the tracker does with one event: which state to persist, if
/// any, whether to notify the invoice's owner, and whether to stop.
#[derive(Debug)]
pub struct TrackerDecision {
    pub set_state: Option<InvoiceState>,
    pub notify: bool,
    pub stop: bool,
}

/// The decision for one pushed payment state: `Claimed` persists
/// `Settled` and notifies, `Canceled` persists `Cancelled` silently,
/// both stop the tracker; every other state is waited past.
pub fn tracker_step(event: &PaymentEvent) -> (r: TrackerDecision)
    ensures
        event is Claimed ==> (r.set_state == Some(InvoiceState::Settled) && r.notify && r.stop),
        event is Canceled ==> (r.set_state == Some(InvoiceState::Cancelled) && !r.notify && r.stop),
        !is_terminal_event(*event) ==> (r.set_state is None && !r.notify && !r.stop),
{
    match event {
        PaymentEvent::Claimed => TrackerDecision {
            set_state: Some(InvoiceState::Settled),
            notify: true,
            stop: true,
        },
        PaymentEvent::Canceled { .. } => TrackerDecision {
            set_state: Some(InvoiceState::Cancelled),
            notify: false,
            stop: true,
        },
        _ => TrackerDecision { set_state: None, notify: false, stop: false },
    }
}

/// The store after the tracker persisted `st` for the invoice with row
/// id `id`: that one row moved to `st`, every other row is untouched.
pub open spec fn state_updated(
    before: Seq<Invoice>,
    after: Seq<Invoice>,
    id: i32,
    st: InvoiceState,
) -> bool {
    &&& after.len() == before.len()
    &&& forall|j: int|
        0 <= j < before.len() && (#[trigger] before[j]).id != id ==> after[j] == before[j]
    &&& forall|j: int|
        0 <= j < before.len() && (#[trigger] before[j]).id == id ==> after[j] == (Invoice {
            state: st,
            ..before[j]
        })
}

/// Whether the store can still move the invoice with row id `id` to a
/// terminal state: it exists and is `Pending`.
pub open spec fn can_settle(s: Seq<Invoice>, id: i32, st: InvoiceState) -> bool {
    exists|i: int|
        0 <= i < s.len() && (#[trigger] s[i]).id == id && s[i].state.spec_can_transition_to(&st)
}

/// A lifecycle transition happens at most once: once the tracker has
/// moved an invoice to a terminal state, the store refuses every
/// further change of that invoice, whatever state is asked for.
pub proof fn lemma_transition_at_most_once(
    before: Seq<Invoice>,
    after: Seq<Invoice>,
    id: i32,
    st: InvoiceState,
    later: InvoiceState,
)
    requires
        state_updated(before, after, id, st),
        can_settle(before, id, st),
    ensures
        !can_settle(after, id, later),
{
    let w = choose|i: int|
        0 <= i < before.len() && (#[trigger] before[i]).id == id
            && before[i].state.spec_can_transition_to(&st);
    assert(st.spec_is_terminal());
    assert forall|i: int|
        0 <= i < after.len() && (#[trigger] after[i]).id == id
            implies !after[i].state.spec_can_transition_to(&later) by {
        assert(before[i].id == id);
        assert(after[i] == (Invoice { state: st, ..before[i] }));
    }
}

/// One invoice's tracker: the row it watches and whether a terminal
/// state has been handled.
#[derive(Debug)]
pub struct Tracker {
    pub invoice_id: i32,
    pub done: bool,
}

/// What the caller does after handing the tracker one event.
#[derive(Debug)]
pub enum TrackerOutcome {
    /// Keep awaiting the stream.
    Continue,
    /// Stop; when `notify` is set, tell the invoice's owner. A failed
    /// persistence write is reported but not retried.
    Stopped { notify: bool, persisted: Result<(), CoreError> },
}

impl Tracker {
    /// Attach a tracker to a stored invoice.
    pub fn new(invoice: &Invoice) -> (r: Tracker)
        ensures
            r.invoice_id == invoice.id,
            !r.done,
    {
        Tracker { invoice_id: invoice.id, done: false }
    }

    /// Drive the tracker by one pushed payment state.
    ///
    /// An intermediate state changes nothing. The first terminal state
    /// persists the matching lifecycle state — `Settled` for
    /// `Claimed`, `Cancelled` for `Canceled` — marks the tracker done,
    /// and asks for a notification exactly on `Claimed`. The write
    /// fails, leaving the store untouched, exactly when the invoice is
    /// missing or already terminal.
    pub fn on_event(&mut self, db: &mut InvoiceDb, event: &PaymentEvent) -> (r: TrackerOutcome)
        requires
            old(db).wf(),
            !old(self).done,
        ensures
            final(db).wf(),
            final(self).invoice_id == old(self).invoice_id,
            !is_terminal_event(*event) ==> (r is Continue && final(db)@ == old(db)@
                && !final(self).done),
            is_terminal_event(*event) ==> final(self).done,
            event is Claimed ==> (r matches TrackerOutcome::Stopped { notify, persisted } && notify
                && (persisted is Ok <==> can_settle(old(db)@, old(self).invoice_id,
            InvoiceState::Settled)) && (persisted is Ok ==> state_updated(
                old(db)@,
                final(db)@,
                old(self).invoice_id,
                InvoiceState::Settled,
            )) && (persisted is Err ==> final(db)@ == old(db)@)),
            event is Canceled ==> (r matches TrackerOutcome::Stopped { notify, persisted }
                && !notify && (persisted is Ok <==> can_settle(old(db)@, old(self).invoice_id,
            InvoiceState::Cancelled)) && (persisted is Ok ==> state_updated(
                old(db)@,
                final(db)@,
                old(self).invoice_id,
                InvoiceState::Cancelled,
            )) && (persisted is Err ==> final(db)@ == old(db)@)),
    {
        let decision = tracker_step(event);
        match decision.set_state {
            Some(st) => {
                let persisted = db.update_state(self.invoice_id, st);
                self.done = true;
                TrackerOutcome::Stopped { notify: decision.notify, persisted }
            },
            None => TrackerOutcome::Continue,
        }
    }
}

/// The operation id under which an invoice's payment stream is
/// subscribed. An invoice whose operation id is not in the backend's
/// format is refused and stays `Pending`; during recovery such an
/// entry is skipped alone.
pub fn subscribe_to_invoice(invoice: &Invoice) -> (r: Result<String, CoreError>)
    ensures
        r is Ok <==> crate::hexid::spec_operation_id_valid(invoice.op_id@),
        r matches Ok(op) ==> op@ == invoice.op_id@,
        r matches Err(e) ==> e == CoreError::MalformedOperationId,
{
    if crate::hexid::operation_id_valid(&invoice.op_id) {
        Ok(invoice.op_id.clone())
    } else {
        Err(CoreError::MalformedOperationId)
    }
}

/// Where a finite event stream first turns terminal.
pub open spec fn terminal_at(events: Seq<PaymentEvent>, k: int) -> bool {
    &&& 0 <= k < events.len()
    &&& forall|j: int| 0 <= j < k ==> !is_terminal_event(#[trigger] events[j])
    &&& is_terminal_event(events[k])
}

/// What a whole tracker run did: how many notifications it asked for
/// and whether it reached a terminal state.
#[derive(Debug)]
pub struct TrackerRun {
    pub notifications: usize,
    pub stopped: bool,
}

/// Drive one invoice's tracker through a whole finite event stream.
///
/// Only the first terminal event acts: on `Claimed` the invoice is
/// settled and exactly one notification is asked for; on `Canceled`
/// it is cancelled and none is; a stream without a terminal event
/// changes nothing. Events after the first terminal one are not
/// consumed.
pub fn run_tracker(db: &mut InvoiceDb, invoice: &Invoice, events: &Vec<PaymentEvent>) -> (r:
    TrackerRun)
    requires
        old(db).wf(),
    ensures
        final(db).wf(),
        !(exists|k: int| terminal_at(events@, k)) ==> (final(db)@ == old(db)@ && r.notifications
            == 0 && !r.stopped),
        (exists|k: int| terminal_at(events@, k)) ==> {
            let k = choose|k: int| terminal_at(events@, k);
            &&& r.stopped
            &&& (events@[k] is Claimed ==> r.notifications == 1 && (can_settle(
                old(db)@,
                invoice.id,
                InvoiceState::Settled,
            ) ==> state_updated(old(db)@, final(db)@, invoice.id, InvoiceState::Settled))
                && (!can_settle(old(db)@, invoice.id, InvoiceState::Settled) ==> final(db)@ == old(
                db,
            )@))
            &&& (events@[k] is Canceled ==> r.notifications == 0 && (can_settle(
                old(db)@,
                invoice.id,
                InvoiceState::Cancelled,
            ) ==> state_updated(old(db)@, final(db)@, invoice.id, InvoiceState::Cancelled)) && (
            !can_settle(old(db)@, invoice.id, InvoiceState::Cancelled) ==> final(db)@ == old(
                db,
            )@))
        },
{
    let mut tracker = Tracker::new(invoice);
    let n = events.len();
    let mut i: usize = 0;
    while i < n
        invariant
            db@ == old(db)@,
            db.wf(),
            n == events@.len(),
            i <= n,
            !tracker.done,
            tracker.invoice_id == invoice.id,
            forall|j: int| 0 <= j < i ==> !is_terminal_event(#[trigger] events@[j]),
        decreases n - i,
    {
        let outcome = tracker.on_event(db, &events[i]);
        match outcome {
            TrackerOutcome::Continue => {
                i += 1;
            },
            TrackerOutcome::Stopped { notify, persisted: _ } => {
                proof {
                    assert(terminal_at(events@, i as int));
                    let kk = choose|k: int| terminal_at(events@, k);
                    lemma_terminal_unique(events@, kk, i as int);
                }
                let notifications: usize = if notify {
                    1
                } else {
                    0
                };
                return TrackerRun { notifications, stopped: true };
            },
        }
    }
    proof {
        assert forall|k: int| !terminal_at(events@, k) by {
            if 0 <= k < events@.len() {
                assert(!is_terminal_event(events@[k]));
            }
        }
    }
    TrackerRun { notifications: 0, stopped: false }
}

/// At most one index holds the stream's first terminal event.
pub proof fn lemma_terminal_unique(events: Seq<PaymentEvent>, k1: int, k2: int)
    requires
        terminal_at(events, k1),
        terminal_at(events, k2),
    ensures
        k1 == k2,
{
    if k1 < k2 {
        assert(!is_terminal_event(events[k1]));
    }
    if k2 < k1 {
        assert(!is_terminal_event(events[k2]));
    }
}

} // verus!
