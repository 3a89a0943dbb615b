//! The lifecycle state of an invoice, the legal transitions between
//! states, and the two wire encodings the persistence layer uses
//! (a small integer column and a textual column).

use vstd::prelude::*;

verus! {

/// Lifecycle state of an invoice.
///
/// An invoice is created `Pending` and moves at most once, to either
/// `Settled` (funds received and claimed) or `Cancelled` (expired or
/// cancelled by the backend). Both of those states are terminal.
#[derive(Clone, Copy, Debug, PartialEq, Eq, Structural)]
pub enum InvoiceState {
    Pending,
    Settled,
    Cancelled,
}

impl InvoiceState {
    /// A terminal state is never left again.
    pub open spec fn spec_is_terminal(&self) -> bool {
        self is Settled || self is Cancelled
    }

    #[verifier::when_used_as_spec(spec_is_terminal)]
    pub fn is_terminal(&self) -> (r: bool)
        ensures
            r == self.spec_is_terminal(),
    {
        match self {
            InvoiceState::Pending => false,
            InvoiceState::Settled => true,
            InvoiceState::Cancelled => true,
        }
    }

    /// The only legal state changes: `Pending` to a terminal state.
    pub open spec fn spec_can_transition_to(&self, next: &InvoiceState) -> bool {
        self is Pending && next.spec_is_terminal()
    }

    #[verifier::when_used_as_spec(spec_can_transition_to)]
    pub fn can_transition_to(&self, next: &InvoiceState) -> (r: bool)
        ensures
            r == self.spec_can_transition_to(next),
    {
        match self {
            InvoiceState::Pending => next.is_terminal(),
            InvoiceState::Settled => false,
            InvoiceState::Cancelled => false,
        }
    }
}

/// Integer encoding of a state, as the store's integer column holds it.
pub open spec fn spec_state_to_i32(s: InvoiceState) -> i32 {
    match s {
        InvoiceState::Pending => 0,
        InvoiceState::Settled => 1,
        InvoiceState::Cancelled => 2,
    }
}

/// Encode a state as the integer the store's state column holds.
pub fn state_to_i32(s: InvoiceState) -> (r: i32)
    ensures
        r == spec_state_to_i32(s),
{
    match s {
        InvoiceState::Pending => 0,
        InvoiceState::Settled => 1,
        InvoiceState::Cancelled => 2,
    }
}

/// Decode the store's integer column; integers outside the encoding
/// are rejected.
pub fn state_from_i32(v: i32) -> (r: Option<InvoiceState>)
    ensures
        r is Some <==> 0 <= v <= 2,
        r matches Some(s) ==> spec_state_to_i32(s) == v,
{
    match v {
        0 => Some(InvoiceState::Pending),
        1 => Some(InvoiceState::Settled),
        2 => Some(InvoiceState::Cancelled),
        _ => None,
    }
}

/// Textual encoding of a state, as the store's textual column holds it.
pub open spec fn spec_state_to_bytes(s: InvoiceState) -> Seq<u8> {
    match s {
        InvoiceState::Pending => seq![112u8, 101u8, 110u8, 100u8, 105u8, 110u8, 103u8],
        InvoiceState::Settled => seq![115u8, 101u8, 116u8, 116u8, 108u8, 101u8, 100u8],
        InvoiceState::Cancelled => seq![
            99u8,
            97u8,
            110u8,
            99u8,
            101u8,
            108u8,
            108u8,
            101u8,
            100u8,
        ],
    }
}

/// Encode a state as the byte string the store's textual column holds
/// (`pending`, `settled` or `cancelled`).
pub fn state_to_bytes(s: InvoiceState) -> (r: Vec<u8>)
    ensures
        r@ == spec_state_to_bytes(s),
{
    let mut r: Vec<u8> = Vec::new();
    match s {
        InvoiceState::Pending => {
            r.push(112);
            r.push(101);
            r.push(110);
            r.push(100);
            r.push(105);
            r.push(110);
            r.push(103);
        },
        InvoiceState::Settled => {
            r.push(115);
            r.push(101);
            r.push(116);
            r.push(116);
            r.push(108);
            r.push(101);
            r.push(100);
        },
        InvoiceState::Cancelled => {
            r.push(99);
            r.push(97);
            r.push(110);
            r.push(99);
            r.push(101);
            r.push(108);
            r.push(108);
            r.push(101);
            r.push(100);
        },
    }
    proof {
        assert(r@ =~= spec_state_to_bytes(s));
    }
    r
}

/// Decode the store's textual column; any byte string that is not one
/// of the three encodings is rejected.
pub fn state_from_bytes(raw: &Vec<u8>) -> (r: Option<InvoiceState>)
    ensures
        r matches Some(s) ==> raw@ == spec_state_to_bytes(s),
        r is None ==> forall|s: InvoiceState| raw@ != spec_state_to_bytes(s),
{
    let mut r: Option<InvoiceState> = None;
    if bytes_eq(raw, &state_to_bytes(InvoiceState::Pending)) {
        r = Some(InvoiceState::Pending);
    } else if bytes_eq(raw, &state_to_bytes(InvoiceState::Settled)) {
        r = Some(InvoiceState::Settled);
    } else if bytes_eq(raw, &state_to_bytes(InvoiceState::Cancelled)) {
        r = Some(InvoiceState::Cancelled);
    }
    r
}

/// Byte-string equality.
fn bytes_eq(a: &Vec<u8>, b: &Vec<u8>) -> (r: bool)
    ensures
        r == (a@ == b@),
{
    if a.len() != b.len() {
        assert(a@ != b@);
        return false;
    }
    let mut i: usize = 0;
    while i < a.len()
        invariant
            i <= a.len(),
            a.len() == b.len(),
            forall|j: int| 0 <= j < i ==> a@[j] == b@[j],
        decreases a.len() - i,
    {
        if a[i] != b[i] {
            assert(a@ != b@);
            return false;
        }
        i += 1;
    }
    proof {
        assert(a@ =~= b@);
    }
    true
}

/// The integer encoding loses nothing: decoding what was encoded gives
/// the state back, for every state.
pub proof fn lemma_state_i32_round_trip(s: InvoiceState)
    ensures
        forall|t: InvoiceState| spec_state_to_i32(t) == spec_state_to_i32(s) ==> t == s,
{
}

/// The textual encoding loses nothing: the three encodings are
/// pairwise distinct, so decoding what was encoded gives the state
/// back, for every state.
pub proof fn lemma_state_bytes_round_trip(s: InvoiceState, t: InvoiceState)
    requires
        spec_state_to_bytes(s) == spec_state_to_bytes(t),
    ensures
        s == t,
{
    if s != t {
        assert(spec_state_to_bytes(s)[0] != spec_state_to_bytes(t)[0]
            || spec_state_to_bytes(s).len() != spec_state_to_bytes(t).len());
    }
}

} // verus!
