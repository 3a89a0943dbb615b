//! The invoice store: the durable record of every invoice ever
//! issued, keyed by operation id.
//!
//! The store is the single source of truth for invoice lifecycles.
//! Its well-formedness invariant pins the two uniqueness guarantees
//! the rest of the core builds on (row ids and operation ids never
//! repeat), and `update_state` refuses every state change that is not
//! a legal lifecycle transition, so a terminal invoice can never move
//! again.

use vstd::prelude::*;

use crate::errors::CoreError;
use crate::invoice_state::InvoiceState;
use crate::invoices::{Invoice, InvoiceForCreate};

verus! {

/// Appending one element and then filtering is filtering and then
/// appending the element when it matches.
pub proof fn lemma_filter_push<A>(s: Seq<A>, x: A, pred: spec_fn(A) -> bool)
    ensures
        s.push(x).filter(pred) == if pred(x) {
            s.filter(pred).push(x)
        } else {
            s.filter(pred)
        },
{
    reveal(Seq::filter);
    assert(s.push(x).drop_last() =~= s);
    assert(s.push(x).last() == x);
}

/// The durable invoice table.
pub struct InvoiceDb {
    invoices: Vec<Invoice>,
}

impl View for InvoiceDb {
    type V = Seq<Invoice>;

    closed spec fn view(&self) -> Seq<Invoice> {
        self.invoices@
    }
}

/// Whether the sequence holds an invoice with the given row id.
pub open spec fn has_id(s: Seq<Invoice>, id: i32) -> bool {
    exists|i: int| 0 <= i < s.len() && s[i].id == id
}

/// Whether the sequence holds an invoice with the given operation id.
pub open spec fn has_op_id(s: Seq<Invoice>, op_id: Seq<char>) -> bool {
    exists|i: int| 0 <= i < s.len() && s[i].op_id@ == op_id
}

/// Whether some row already carries the largest representable row id,
/// so that no fresh id is left above it.
pub open spec fn ids_exhausted(s: Seq<Invoice>) -> bool {
    exists|i: int| 0 <= i < s.len() && s[i].id == i32::MAX
}

/// Row ids and operation ids are unique in the sequence.
pub open spec fn invoices_wf(s: Seq<Invoice>) -> bool {
    &&& forall|i: int, j: int|
        #![trigger s[i].id, s[j].id]
        0 <= i < j < s.len() ==> s[i].id != s[j].id
    &&& forall|i: int, j: int|
        #![trigger s[i].op_id, s[j].op_id]
        0 <= i < j < s.len() ==> s[i].op_id@ != s[j].op_id@
}

impl InvoiceDb {
    /// Row ids and operation ids are unique.
    pub open spec fn wf(&self) -> bool {
        invoices_wf(self@)
    }

    /// An empty store.
    pub fn new() -> (r: Self)
        ensures
            r.wf(),
            r@ == Seq::<Invoice>::empty(),
    {
        InvoiceDb { invoices: Vec::new() }
    }

    /// Append a new invoice row with a fresh row id.
    ///
    /// Succeeds exactly when no row with the same operation id exists
    /// yet and a fresh row id is left; the stored (and returned) row
    /// carries the payload's fields unchanged.
    pub fn create(&mut self, invoice: InvoiceForCreate) -> (r: Result<Invoice, CoreError>)
        requires
            old(self).wf(),
        ensures
            final(self).wf(),
            r is Ok <==> (!has_op_id(old(self)@, invoice.op_id@) && !ids_exhausted(old(self)@)),
            r matches Ok(inv) ==> {
                &&& inv.op_id@ == invoice.op_id@
                &&& inv.federation_id@ == invoice.federation_id@
                &&& inv.app_user_id == invoice.app_user_id
                &&& inv.amount == invoice.amount
                &&& inv.bolt11@ == invoice.bolt11@
                &&& inv.tweak == invoice.tweak
                &&& inv.state == invoice.state
                &&& final(self)@ == old(self)@.push(inv)
            },
            r is Err ==> final(self)@ == old(self)@,
            r matches Err(e) ==> (e == CoreError::DuplicateOperationId || e
                == CoreError::PersistenceFailure),
            r matches Err(e) ==> (e == CoreError::DuplicateOperationId <==> has_op_id(
                old(self)@,
                invoice.op_id@,
            )),
    {
        let dup = self.get_by_op_id(&invoice.op_id);
        if dup.is_some() {
            return Err(CoreError::DuplicateOperationId);
        }
        let n = self.invoices.len();
        let mut fresh: i32 = 0;
        let mut i: usize = 0;
        while i < n
            invariant
                *self == *old(self),
                self.wf(),
                !has_op_id(self@, invoice.op_id@),
                n == self@.len(),
                i <= n,
                fresh >= 0,
                forall|j: int| 0 <= j < i ==> (#[trigger] self@[j].id) < fresh,
                forall|j: int| 0 <= j < i ==> self@[j].id < i32::MAX,
            decreases n - i,
        {
            if self.invoices[i].id >= fresh {
                if self.invoices[i].id == i32::MAX {
                    return Err(CoreError::PersistenceFailure);
                }
                fresh = self.invoices[i].id + 1;
            }
            i += 1;
        }
        let inv = Invoice {
            id: fresh,
            federation_id: invoice.federation_id,
            op_id: invoice.op_id,
            app_user_id: invoice.app_user_id,
            bolt11: invoice.bolt11,
            amount: invoice.amount,
            state: invoice.state,
            tweak: invoice.tweak,
        };
        let stored = inv.clone();
        self.invoices.push(inv);
        proof {
            let s = self@;
            let prev = old(self)@;
            assert forall|a: int, b: int| 0 <= a < b < s.len() implies s[a].id != s[b].id by {
                if b == s.len() - 1 {
                    assert(s[a] == prev[a]);
                } else {
                    assert(s[a] == prev[a] && s[b] == prev[b]);
                }
            }
            assert forall|a: int, b: int|
                0 <= a < b < s.len() implies s[a].op_id@ != s[b].op_id@ by {
                if b == s.len() - 1 {
                    assert(s[a] == prev[a]);
                    assert(prev[a].op_id@ != invoice.op_id@);
                } else {
                    assert(s[a] == prev[a] && s[b] == prev[b]);
                }
            }
        }
        Ok(stored)
    }

    /// Look an invoice up by its operation id.
    ///
    /// Returns a row exactly when one with that operation id is
    /// stored; by well-formedness it is the only such row.
    pub fn get_by_op_id(&self, op_id: &String) -> (r: Option<Invoice>)
        requires
            self.wf(),
        ensures
            r is Some <==> has_op_id(self@, op_id@),
            r matches Some(inv) ==> self@.contains(inv) && inv.op_id@ == op_id@,
    {
        let n = self.invoices.len();
        let mut i: usize = 0;
        while i < n
            invariant
                n == self@.len(),
                i <= n,
                forall|j: int| 0 <= j < i ==> self@[j].op_id@ != op_id@,
            decreases n - i,
        {
            if string_eq(&self.invoices[i].op_id, op_id) {
                let found = self.invoices[i].clone();
                assert(self@.contains(found));
                return Some(found);
            }
            i += 1;
        }
        None
    }

    /// All invoices currently in the given state, in storage order.
    pub fn get_by_state(&self, state: InvoiceState) -> (r: Vec<Invoice>)
        requires
            self.wf(),
        ensures
            r@ == self@.filter(|inv: Invoice| inv.state == state),
    {
        let pred = Ghost(|inv: Invoice| inv.state == state);
        let mut r: Vec<Invoice> = Vec::new();
        let n = self.invoices.len();
        let mut i: usize = 0;
        proof {
            assert(self@.subrange(0, 0) =~= Seq::<Invoice>::empty());
            reveal(Seq::filter);
        }
        while i < n
            invariant
                n == self@.len(),
                i <= n,
                pred@ == (|inv: Invoice| inv.state == state),
                r@ == self@.subrange(0, i as int).filter(pred@),
            decreases n - i,
        {
            proof {
                lemma_filter_push(self@.subrange(0, i as int), self@[i as int], pred@);
                assert(self@.subrange(0, i as int).push(self@[i as int]) =~= self@.subrange(
                    0,
                    i as int + 1,
                ));
            }
            if self.invoices[i].state == state {
                r.push(self.invoices[i].clone());
            }
            i += 1;
        }
        proof {
            assert(self@.subrange(0, n as int) =~= self@);
        }
        r
    }

    /// Change one invoice's lifecycle state.
    ///
    /// Succeeds exactly when a row with the given row id exists and
    /// the change is a legal transition (`Pending` to a terminal
    /// state); then only that row's state field changes. A missing row
    /// gives `InvoiceNotFound`, an illegal change `IllegalTransition`,
    /// and either way the store is untouched.
    pub fn update_state(&mut self, id: i32, state: InvoiceState) -> (r: Result<(), CoreError>)
        requires
            old(self).wf(),
        ensures
            final(self).wf(),
            r is Ok <==> exists|i: int|
                0 <= i < old(self)@.len() && (#[trigger] old(self)@[i]).id == id
                    && old(self)@[i].state.spec_can_transition_to(&state),
            r is Ok ==> {
                &&& final(self)@.len() == old(self)@.len()
                &&& forall|j: int|
                    0 <= j < old(self)@.len() && (#[trigger] old(self)@[j]).id != id
                        ==> final(self)@[j] == old(self)@[j]
                &&& forall|j: int|
                    0 <= j < old(self)@.len() && (#[trigger] old(self)@[j]).id == id
                        ==> final(self)@[j] == (Invoice { state, ..old(self)@[j] })
            },
            r is Err ==> final(self)@ == old(self)@,
            r == Err::<(), CoreError>(CoreError::InvoiceNotFound) <==> !has_id(old(self)@, id),
    {
        let n = self.invoices.len();
        let mut i: usize = 0;
        while i < n
            invariant
                *self == *old(self),
                self.wf(),
                n == self@.len(),
                i <= n,
                forall|j: int| 0 <= j < i ==> (#[trigger] self@[j]).id != id,
            decreases n - i,
        {
            if self.invoices[i].id == id {
                if !self.invoices[i].state.can_transition_to(&state) {
                    return Err(CoreError::IllegalTransition);
                }
                let ghost before = self@;
                let updated = Invoice { state, ..self.invoices[i].clone() };
                self.invoices.set(i, updated);
                proof {
                    let s = self@;
                    assert(forall|j: int| 0 <= j < before.len() && j != i ==> s[j] == before[j]);
                    assert(s[i as int].id == before[i as int].id);
                    assert(s[i as int].op_id@ == before[i as int].op_id@);
                    assert forall|a: int, b: int|
                        0 <= a < b < s.len() implies s[a].id != s[b].id by {
                        assert(before[a].id != before[b].id);
                    }
                    assert forall|a: int, b: int|
                        0 <= a < b < s.len() implies s[a].op_id@ != s[b].op_id@ by {
                        assert(before[a].op_id@ != before[b].op_id@);
                    }
                    assert(forall|j: int|
                        0 <= j < before.len() && (#[trigger] before[j]).id == id ==> j == i as int);
                }
                return Ok(());
            }
            i += 1;
        }
        Err(CoreError::InvoiceNotFound)
    }
}

/// String equality by view.
pub fn string_eq(a: &String, b: &String) -> (r: bool)
    ensures
        r == (a@ == b@),
{
    a.eq(b)
}

} // verus!
