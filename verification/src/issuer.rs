//! The invoice issuer and tweak allocator.
//!
//! Issuance is a round-trip loop with the payment backend: starting
//! one past the user's tweak watermark, each candidate tweak is
//! offered to the backend; a `DuplicateTweak` answer advances the
//! candidate, any other failure aborts, and an accepted invoice is
//! persisted — watermark first, then the `Pending` invoice row. The
//! backend round-trip itself happens outside; the decisions here are
//! a state machine over the backend's replies, so `issue` runs the
//! whole loop over a given reply sequence.

use vstd::prelude::*;

use crate::errors::CoreError;
use crate::invoice_db::{has_op_id, ids_exhausted, InvoiceDb};
use crate::invoice_state::InvoiceState;
use crate::invoices::{Invoice, InvoiceForCreate};
use crate::lnurl::{LnurlCallbackParams, MIN_AMOUNT};
use crate::user_db::{get_user, has_user_name, user_index_by_name, UserDb};
use crate::users::{user_eq, User};

verus! {

/// The description an invoice carries when the payer sent no comment.
pub open spec fn spec_default_memo() -> Seq<char> {
    "hermes address payment"@
}

/// What one backend invoice-creation round trip can answer.
#[derive(Debug)]
pub enum BackendReply {
    /// The backend created the invoice under this operation id.
    Accepted { op_id: String, bolt11: String },
    /// The tweaked key is already in use; try the next tweak.
    DuplicateTweak,
    /// Any other backend failure; fatal to the issuance call.
    Failure,
}

/// Deep equality of two backend replies.
pub open spec fn reply_eq(a: BackendReply, b: BackendReply) -> bool {
    match (a, b) {
        (
            BackendReply::Accepted { op_id: ao, bolt11: ab },
            BackendReply::Accepted { op_id: bo, bolt11: bb },
        ) => ao@ == bo@ && ab@ == bb@,
        (BackendReply::DuplicateTweak, BackendReply::DuplicateTweak) => true,
        (BackendReply::Failure, BackendReply::Failure) => true,
        _ => false,
    }
}

impl Clone for BackendReply {
    fn clone(&self) -> (r: Self)
        ensures
            reply_eq(r, *self),
    {
        match self {
            BackendReply::Accepted { op_id, bolt11 } => BackendReply::Accepted {
                op_id: op_id.clone(),
                bolt11: bolt11.clone(),
            },
            BackendReply::DuplicateTweak => BackendReply::DuplicateTweak,
            BackendReply::Failure => BackendReply::Failure,
        }
    }
}

/// What the backend is asked to create: a tweaked invoice for the
/// user's key.
#[derive(Debug)]
pub struct InvoiceRequest {
    pub pubkey: String,
    pub amount_msats: u64,
    pub description: String,
    pub tweak: u64,
}

/// One issuance call in progress: the user's identity, the request
/// parameters, and the candidate tweak to offer next.
#[derive(Debug)]
pub struct IssueSession {
    pub user_id: i32,
    pub pubkey: String,
    pub amount: u64,
    pub description: String,
    pub federation_id: String,
    pub initial_tweak: i64,
    pub candidate_tweak: i64,
}

/// An invoice the backend accepted, ready to be persisted.
#[derive(Debug)]
pub struct AcceptedIssue {
    pub user_id: i32,
    pub federation_id: String,
    pub op_id: String,
    pub bolt11: String,
    pub amount: u64,
    pub tweak: i64,
}

/// What one backend reply makes of a session.
#[derive(Debug)]
pub enum IssueStep {
    /// The tweak was taken; offer the next candidate.
    Retry(IssueSession),
    /// The backend accepted; persist this.
    Accept(AcceptedIssue),
    /// Give up with this error.
    Fail(CoreError),
}

impl IssueSession {
    /// The candidate only ever moves up from the watermark the session
    /// started at, and the amount fits the store's integer column.
    pub open spec fn wf(&self) -> bool {
        &&& 0 <= self.initial_tweak < self.candidate_tweak
        &&& MIN_AMOUNT <= self.amount <= i64::MAX as u64
    }

    /// Open an issuance session for a user.
    ///
    /// Fails with `InvalidAmount` when the requested amount is below
    /// the gateway's minimum or above what the store can record, and
    /// with `TweakExhausted` when no tweak above the user's watermark
    /// is left. Otherwise the session offers `last_tweak + 1` first
    /// and carries the payer's comment, or the default memo, as the
    /// invoice description.
    pub fn start(user: &User, params: &LnurlCallbackParams, federation_id: String) -> (r: Result<
        IssueSession,
        CoreError,
    >)
        requires
            user.last_tweak >= 0,
        ensures
            r is Ok <==> (MIN_AMOUNT <= params.amount <= i64::MAX as u64 && user.last_tweak
                < i64::MAX),
            r matches Ok(s) ==> {
                &&& s.wf()
                &&& s.user_id == user.id
                &&& s.pubkey@ == user.pubkey@
                &&& s.amount == params.amount
                &&& s.federation_id@ == federation_id@
                &&& s.initial_tweak == user.last_tweak
                &&& s.candidate_tweak == user.last_tweak + 1
                &&& s.description@ == (if params.comment is Some {
                    params.comment.unwrap()@
                } else {
                    spec_default_memo()
                })
            },
            r matches Err(e) ==> (e == CoreError::InvalidAmount || e == CoreError::TweakExhausted),
            r matches Err(e) ==> (e == CoreError::InvalidAmount <==> !(MIN_AMOUNT <= params.amount
                <= i64::MAX as u64)),
    {
        if params.amount < MIN_AMOUNT || params.amount > i64::MAX as u64 {
            return Err(CoreError::InvalidAmount);
        }
        if user.last_tweak == i64::MAX {
            return Err(CoreError::TweakExhausted);
        }
        proof {
            reveal_strlit("hermes address payment");
        }
        let description = match &params.comment {
            Some(c) => c.clone(),
            None => "hermes address payment".to_owned(),
        };
        Ok(
            IssueSession {
                user_id: user.id,
                pubkey: user.pubkey.clone(),
                amount: params.amount,
                description,
                federation_id,
                initial_tweak: user.last_tweak,
                candidate_tweak: user.last_tweak + 1,
            },
        )
    }

    /// What to hand the backend for the current candidate tweak.
    pub fn request(&self) -> (r: InvoiceRequest)
        requires
            self.wf(),
        ensures
            r.pubkey@ == self.pubkey@,
            r.amount_msats == self.amount,
            r.description@ == self.description@,
            r.tweak == self.candidate_tweak as u64,
    {
        InvoiceRequest {
            pubkey: self.pubkey.clone(),
            amount_msats: self.amount,
            description: self.description.clone(),
            tweak: self.candidate_tweak as u64,
        }
    }

    /// Drive the session by one backend reply.
    ///
    /// An accepted invoice is handed on with the winning tweak; a
    /// duplicate-tweak answer advances the candidate, or gives up with
    /// `TweakExhausted` when no higher tweak exists; any other failure
    /// gives up with `BackendUnavailable`.
    pub fn on_reply(self, reply: BackendReply) -> (r: IssueStep)
        requires
            self.wf(),
        ensures
            reply matches BackendReply::Accepted { op_id, bolt11 } ==> (r matches IssueStep::Accept(
                a,
            ) && a.user_id == self.user_id && a.federation_id@ == self.federation_id@ && a.op_id@
                == op_id@ && a.bolt11@ == bolt11@ && a.amount == self.amount && a.tweak
                == self.candidate_tweak),
            reply is DuplicateTweak && self.candidate_tweak == i64::MAX ==> r == IssueStep::Fail(
                CoreError::TweakExhausted,
            ),
            reply is DuplicateTweak && self.candidate_tweak < i64::MAX ==> (r matches
            IssueStep::Retry(s) && s == (IssueSession {
                candidate_tweak: (self.candidate_tweak + 1) as i64,
                ..self
            }) && s.wf()),
            reply is Failure ==> r == IssueStep::Fail(CoreError::BackendUnavailable),
    {
        match reply {
            BackendReply::Accepted { op_id, bolt11 } => IssueStep::Accept(
                AcceptedIssue {
                    user_id: self.user_id,
                    federation_id: self.federation_id,
                    op_id,
                    bolt11,
                    amount: self.amount,
                    tweak: self.candidate_tweak,
                },
            ),
            BackendReply::DuplicateTweak => {
                if self.candidate_tweak == i64::MAX {
                    IssueStep::Fail(CoreError::TweakExhausted)
                } else {
                    IssueStep::Retry(
                        IssueSession { candidate_tweak: self.candidate_tweak + 1, ..self },
                    )
                }
            },
            BackendReply::Failure => IssueStep::Fail(CoreError::BackendUnavailable),
        }
    }
}

/// Persist an accepted invoice: the user's tweak watermark first, then
/// the invoice row with state `Pending`.
///
/// Succeeds exactly when the user row exists with a watermark below
/// the winning tweak, no invoice with the operation id is stored yet,
/// and a fresh invoice row id is left. When the watermark write fails
/// both stores are untouched; when only the invoice write fails the
/// watermark stays advanced — the tweak is burnt, never reused.
pub fn complete_issue(
    users: &mut UserDb,
    invoices: &mut InvoiceDb,
    user: &User,
    accepted: AcceptedIssue,
) -> (r: Result<Invoice, CoreError>)
    requires
        old(users).wf(),
        old(invoices).wf(),
        tweaks_wf(old(users)@, old(invoices)@),
        accepted.tweak >= 0,
        accepted.amount <= i64::MAX as u64,
        user.id == accepted.user_id,
    ensures
        tweaks_wf(final(users)@, final(invoices)@),
        final(users).wf(),
        final(invoices).wf(),
        r is Ok <==> ((exists|i: int|
            0 <= i < old(users)@.len() && (#[trigger] old(users)@[i]).id == accepted.user_id && old(
                users,
            )@[i].last_tweak < accepted.tweak) && !has_op_id(old(invoices)@, accepted.op_id@)
            && !ids_exhausted(old(invoices)@)),
        r matches Ok(inv) ==> {
            &&& inv.op_id@ == accepted.op_id@
            &&& inv.federation_id@ == accepted.federation_id@
            &&& inv.app_user_id == accepted.user_id
            &&& inv.bolt11@ == accepted.bolt11@
            &&& inv.amount == accepted.amount as i64
            &&& inv.tweak == accepted.tweak
            &&& inv.state is Pending
            &&& final(invoices)@ == old(invoices)@.push(inv)
        },
        r is Ok ==> tweak_advanced(old(users)@, final(users)@, accepted.user_id, accepted.tweak),
        (exists|i: int|
            0 <= i < old(users)@.len() && (#[trigger] old(users)@[i]).id == accepted.user_id && old(
                users,
            )@[i].last_tweak < accepted.tweak) ==> tweak_advanced(
            old(users)@,
            final(users)@,
            accepted.user_id,
            accepted.tweak,
        ),
        r matches Err(e) ==> (e == CoreError::DuplicateOperationId <==> ((exists|i: int|
            0 <= i < old(users)@.len() && (#[trigger] old(users)@[i]).id == accepted.user_id && old(
                users,
            )@[i].last_tweak < accepted.tweak) && has_op_id(old(invoices)@, accepted.op_id@))),
        r is Err ==> final(invoices)@ == old(invoices)@,
        r matches Err(e) ==> ((e == CoreError::UnknownUser || e == CoreError::DuplicateTweak)
            ==> final(users)@ == old(users)@),
        r matches Err(e) ==> ((e == CoreError::DuplicateOperationId || e
            == CoreError::PersistenceFailure) ==> tweak_advanced(
            old(users)@,
            final(users)@,
            accepted.user_id,
            accepted.tweak,
        )),
{
    match users.update_tweak(user, accepted.tweak) {
        Ok(_) => {},
        Err(e) => {
            return Err(e);
        },
    }
    proof {
        lemma_advance_keeps_tweaks_wf(
            old(users)@,
            users@,
            old(invoices)@,
            accepted.user_id,
            accepted.tweak,
        );
    }
    let payload = InvoiceForCreate {
        op_id: accepted.op_id,
        federation_id: accepted.federation_id,
        app_user_id: accepted.user_id,
        amount: accepted.amount as i64,
        bolt11: accepted.bolt11,
        tweak: accepted.tweak,
        state: InvoiceState::Pending,
    };
    let ghost us_mid = users@;
    let r = invoices.create(payload);
    proof {
        if r is Ok {
            let inv = r->Ok_0;
            let s = invoices@;
            let prev = old(invoices)@;
            assert forall|i: int, j: int|
                0 <= i < s.len() && 0 <= j < us_mid.len() && (#[trigger] s[i].app_user_id)
                    == (#[trigger] us_mid[j].id) implies s[i].tweak <= us_mid[j].last_tweak by {
                if i < prev.len() {
                    assert(s[i] == prev[i]);
                } else {
                    assert(s[i] == inv);
                    if old(users)@[j].id == accepted.user_id {
                        assert(us_mid[j].last_tweak == accepted.tweak);
                    } else {
                        assert(us_mid[j] == old(users)@[j]);
                    }
                }
            }
            assert forall|i1: int, i2: int|
                0 <= i1 < i2 < s.len() && (#[trigger] s[i1].tweak) == (#[trigger] s[i2].tweak)
                    implies s[i1].app_user_id != s[i2].app_user_id by {
                if i2 < prev.len() {
                    assert(s[i1] == prev[i1] && s[i2] == prev[i2]);
                } else {
                    assert(s[i1] == prev[i1] && s[i2] == inv);
                    if prev[i1].app_user_id == inv.app_user_id {
                        let j = choose|j: int|
                            0 <= j < old(users)@.len() && (#[trigger] old(users)@[j]).id
                                == accepted.user_id && old(users)@[j].last_tweak < accepted.tweak;
                        assert(prev[i1].tweak <= old(users)@[j].last_tweak);
                    }
                }
            }
            assert forall|i1: int, i2: int|
                0 <= i1 < i2 < s.len()
                    && (#[trigger] s[i1].app_user_id) == (#[trigger] s[i2].app_user_id)
                    implies s[i1].tweak != s[i2].tweak by {
                if i2 < prev.len() {
                    assert(s[i1] == prev[i1] && s[i2] == prev[i2]);
                } else {
                    assert(s[i1] == prev[i1] && s[i2] == inv);
                    let j = choose|j: int|
                        0 <= j < old(users)@.len() && (#[trigger] old(users)@[j]).id
                            == accepted.user_id && old(users)@[j].last_tweak < accepted.tweak;
                    assert(prev[i1].tweak <= old(users)@[j].last_tweak);
                }
            }
        }
    }
    r
}

/// Raising one user's watermark keeps every tweak bound intact: the
/// raised watermark still lies above all of that user's persisted
/// tweaks, and no other row moved.
proof fn lemma_advance_keeps_tweaks_wf(
    before: Seq<User>,
    after: Seq<User>,
    invoices: Seq<Invoice>,
    user_id: i32,
    tweak: i64,
)
    requires
        crate::user_db::users_wf(before),
        tweaks_wf(before, invoices),
        tweak_advanced(before, after, user_id, tweak),
        exists|j: int|
            0 <= j < before.len() && (#[trigger] before[j]).id == user_id && before[j].last_tweak
                < tweak,
    ensures
        tweaks_wf(after, invoices),
{
    assert forall|i: int, j: int|
        0 <= i < invoices.len() && 0 <= j < after.len() && (#[trigger] invoices[i].app_user_id)
            == (#[trigger] after[j].id) implies invoices[i].tweak <= after[j].last_tweak by {
        if before[j].id == user_id {
            assert(user_eq(after[j], (User { last_tweak: tweak, ..before[j] })));
            assert(after[j].id == before[j].id && after[j].last_tweak == tweak);
            assert(invoices[i].tweak <= before[j].last_tweak);
            assert(before[j].last_tweak <= tweak) by {
                let w = choose|w: int|
                    0 <= w < before.len() && (#[trigger] before[w]).id == user_id
                        && before[w].last_tweak < tweak;
                if w != j {
                    assert(before[w].id == before[j].id);
                }
            };
        } else {
            assert(after[j] == before[j]);
        }
    }
}

/// Every reply before index `k` reports a duplicate tweak.
pub open spec fn all_duplicates(replies: Seq<BackendReply>, k: int) -> bool {
    forall|j: int| 0 <= j < k ==> (#[trigger] replies[j]) is DuplicateTweak
}

/// Index `k` holds the first reply that settles the issuance loop:
/// everything before it is a duplicate-tweak answer, and it is not.
pub open spec fn decisive_at(replies: Seq<BackendReply>, k: int) -> bool {
    0 <= k < replies.len() && all_duplicates(replies, k) && !(replies[k] is DuplicateTweak)
}

/// At most one index is decisive.
pub proof fn lemma_decisive_unique(replies: Seq<BackendReply>, k1: int, k2: int)
    requires
        decisive_at(replies, k1),
        decisive_at(replies, k2),
    ensures
        k1 == k2,
{
    if k1 < k2 {
        assert(replies[k1] is DuplicateTweak);
    }
    if k2 < k1 {
        assert(replies[k2] is DuplicateTweak);
    }
}

/// Issue a new invoice for a user, driving the whole allocation loop
/// over the backend's replies to the successive candidate tweaks.
///
/// `replies` holds the backend's answer to each round trip in turn:
/// the reply at index `j` answers the offer of tweak
/// `last_tweak + 1 + j`. The call fails with `UnknownUser` for an
/// unknown name and `InvalidAmount` for an amount out of range; it
/// retries past every `DuplicateTweak` answer, fails with
/// `TweakExhausted` when the candidates run out, with
/// `BackendUnavailable` on any other backend failure or when the
/// replies end before an acceptance, and otherwise persists the
/// accepted invoice: the user's watermark becomes the winning tweak
/// and the invoice is stored `Pending`.
pub fn issue(
    users: &mut UserDb,
    invoices: &mut InvoiceDb,
    username: &String,
    params: &LnurlCallbackParams,
    federation_id: &String,
    replies: &Vec<BackendReply>,
) -> (r: Result<Invoice, CoreError>)
    requires
        old(users).wf(),
        old(invoices).wf(),
        tweaks_wf(old(users)@, old(invoices)@),
    ensures
        final(users).wf(),
        final(invoices).wf(),
        tweaks_wf(final(users)@, final(invoices)@),
        !has_user_name(old(users)@, username@) ==> (r == Err::<Invoice, CoreError>(
            CoreError::UnknownUser,
        ) && final(users)@ == old(users)@ && final(invoices)@ == old(invoices)@),
        has_user_name(old(users)@, username@) ==> {
            let u = old(users)@[user_index_by_name(old(users)@, username@)];
            if !(MIN_AMOUNT <= params.amount <= i64::MAX as u64) {
                r == Err::<Invoice, CoreError>(CoreError::InvalidAmount) && final(users)@ == old(
                    users,
                )@ && final(invoices)@ == old(invoices)@
            } else if exists|k: int| decisive_at(replies@, k) {
                let k = choose|k: int| decisive_at(replies@, k);
                if u.last_tweak + k >= i64::MAX {
                    r == Err::<Invoice, CoreError>(CoreError::TweakExhausted) && final(users)@
                        == old(users)@ && final(invoices)@ == old(invoices)@
                } else if replies@[k] is Failure {
                    r == Err::<Invoice, CoreError>(CoreError::BackendUnavailable) && final(users)@
                        == old(users)@ && final(invoices)@ == old(invoices)@
                } else {
                    replies@[k] matches BackendReply::Accepted { op_id, bolt11 } && {
                        let t = u.last_tweak + 1 + k;
                        &&& (r is Ok <==> (!has_op_id(old(invoices)@, op_id@) && !ids_exhausted(
                            old(invoices)@,
                        )))
                        &&& tweak_advanced(old(users)@, final(users)@, u.id, t as i64)
                        &&& (r matches Ok(inv) ==> {
                            &&& inv.op_id@ == op_id@
                            &&& inv.federation_id@ == federation_id@
                            &&& inv.app_user_id == u.id
                            &&& inv.bolt11@ == bolt11@
                            &&& inv.amount == params.amount as i64
                            &&& inv.tweak == t as i64
                            &&& inv.state is Pending
                            &&& final(invoices)@ == old(invoices)@.push(inv)
                        })
                        &&& (r is Err ==> final(invoices)@ == old(invoices)@)
                        &&& (r matches Err(e) ==> (e == CoreError::DuplicateOperationId
                            <==> has_op_id(old(invoices)@, op_id@)))
                    }
                }
            } else {
                if u.last_tweak + replies@.len() >= i64::MAX {
                    r == Err::<Invoice, CoreError>(CoreError::TweakExhausted) && final(users)@
                        == old(users)@ && final(invoices)@ == old(invoices)@
                } else {
                    r == Err::<Invoice, CoreError>(CoreError::BackendUnavailable) && final(users)@
                        == old(users)@ && final(invoices)@ == old(invoices)@
                }
            }
        },
{
    let u = match get_user(users, username) {
        Ok(u) => u,
        Err(e) => {
            return Err(e);
        },
    };
    proof {
        let k0 = user_index_by_name(old(users)@, username@);
        let w = choose|i: int| 0 <= i < old(users)@.len() && user_eq(u, #[trigger] old(users)@[i]);
        assert(old(users)@[w].name@ == username@);
        assert(w == k0);
        assert(u.last_tweak >= 0);
    }
    let ghost stored_u = old(users)@[user_index_by_name(old(users)@, username@)];
    let mut session = match IssueSession::start(&u, params, federation_id.clone()) {
        Ok(s) => s,
        Err(e) => {
            proof {
                if e == CoreError::TweakExhausted {
                    assert(stored_u.last_tweak == i64::MAX);
                    assert forall|k: int| decisive_at(replies@, k) implies stored_u.last_tweak + k
                        >= i64::MAX by {}
                    assert(stored_u.last_tweak + replies@.len() >= i64::MAX);
                }
            }
            return Err(e);
        },
    };
    let n = replies.len();
    let mut k: usize = 0;
    while k < n
        invariant
            *users == *old(users),
            *invoices == *old(invoices),
            users.wf(),
            invoices.wf(),
            tweaks_wf(users@, invoices@),
            n == replies@.len(),
            k <= n,
            all_duplicates(replies@, k as int),
            session.wf(),
            has_user_name(old(users)@, username@),
            stored_u == old(users)@[user_index_by_name(old(users)@, username@)],
            user_eq(u, stored_u),
            u.id == stored_u.id,
            MIN_AMOUNT <= params.amount <= i64::MAX as u64,
            session.user_id == stored_u.id,
            session.amount == params.amount,
            session.federation_id@ == federation_id@,
            session.initial_tweak == stored_u.last_tweak,
            session.candidate_tweak == stored_u.last_tweak + 1 + k,
        decreases n - k,
    {
        let reply = replies[k].clone();
        let ghost this_reply = replies@[k as int];
        match session.on_reply(reply) {
            IssueStep::Retry(s2) => {
                proof {
                    assert(this_reply is DuplicateTweak);
                    assert(all_duplicates(replies@, k as int + 1));
                }
                session = s2;
                k = k + 1;
            },
            IssueStep::Accept(acc) => {
                proof {
                    assert(reply matches BackendReply::Accepted { op_id, bolt11 } && acc.op_id@
                        == op_id@ && acc.bolt11@ == bolt11@);
                    assert(this_reply matches BackendReply::Accepted { op_id, bolt11 } && acc.op_id@
                        == op_id@ && acc.bolt11@ == bolt11@);
                    assert(decisive_at(replies@, k as int));
                    let kk = choose|j: int| decisive_at(replies@, j);
                    lemma_decisive_unique(replies@, kk, k as int);
                    assert(acc.tweak == stored_u.last_tweak + 1 + k);
                    assert(acc.user_id == stored_u.id);
                    assert(stored_u.last_tweak < acc.tweak);
                    assert(exists|i: int|
                        0 <= i < users@.len() && (#[trigger] users@[i]).id == acc.user_id
                            && users@[i].last_tweak < acc.tweak) by {
                        let k0 = user_index_by_name(old(users)@, username@);
                        assert(users@[k0].id == acc.user_id && users@[k0].last_tweak < acc.tweak);
                    };
                }
                let r = complete_issue(users, invoices, &u, acc);
                proof {
                    assert(r is Ok <==> (!has_op_id(old(invoices)@, acc.op_id@) && !ids_exhausted(
                        old(invoices)@,
                    )));
                }
                return r;
            },
            IssueStep::Fail(e) => {
                proof {
                    if this_reply is DuplicateTweak {
                        assert(e == CoreError::TweakExhausted);
                        assert(session.candidate_tweak == i64::MAX);
                        assert forall|j: int| decisive_at(replies@, j) implies stored_u.last_tweak
                            + j >= i64::MAX by {
                            assert(j > k as int) by {
                                if j <= k as int {
                                    assert(replies@[j] is DuplicateTweak);
                                }
                            };
                        }
                        assert(stored_u.last_tweak + replies@.len() >= i64::MAX);
                    } else {
                        assert(decisive_at(replies@, k as int));
                        let kk = choose|j: int| decisive_at(replies@, j);
                        lemma_decisive_unique(replies@, kk, k as int);
                        assert(e == CoreError::BackendUnavailable);
                        assert(stored_u.last_tweak + k < i64::MAX);
                    }
                }
                return Err(e);
            },
        }
    }
    proof {
        assert forall|j: int| !decisive_at(replies@, j) by {
            if 0 <= j < replies@.len() {
                assert(replies@[j] is DuplicateTweak);
            }
        }
        assert(session.candidate_tweak == stored_u.last_tweak + 1 + n);
        assert(stored_u.last_tweak + n < i64::MAX);
    }
    Err(CoreError::BackendUnavailable)
}

/// Round trip: the invoice the issuer just persisted is the one and
/// only invoice the store holds under its operation id, so reading it
/// back by operation id returns the identical federation id, amount,
/// tweak and the initial `Pending` state.
pub proof fn lemma_issue_round_trip(before: Seq<Invoice>, after: Seq<Invoice>, inv: Invoice)
    requires
        after == before.push(inv),
        !has_op_id(before, inv.op_id@),
    ensures
        has_op_id(after, inv.op_id@),
        forall|f: Invoice|
            #![trigger after.contains(f)]
            after.contains(f) && f.op_id@ == inv.op_id@ ==> f == inv,
{
    assert(after[after.len() - 1] == inv);
    assert forall|f: Invoice| after.contains(f) && f.op_id@ == inv.op_id@ implies f == inv by {
        let i = choose|i: int| 0 <= i < after.len() && after[i] == f;
        if i < before.len() {
            assert(before[i] == f);
        }
    }
}

/// No tweak is ever reused for a user: every persisted invoice's tweak
/// lies at or below its owner's watermark, and two invoices of the
/// same user never carry the same tweak. `complete_issue` and `issue`
/// preserve this, so the multiset of tweaks ever persisted for a user
/// has no duplicates.
pub open spec fn tweaks_wf(users: Seq<User>, invoices: Seq<Invoice>) -> bool {
    &&& forall|i: int, j: int|
        #![trigger invoices[i].app_user_id, users[j].id]
        0 <= i < invoices.len() && 0 <= j < users.len() && invoices[i].app_user_id == users[j].id
            ==> invoices[i].tweak <= users[j].last_tweak
    &&& forall|i1: int, i2: int|
        #![trigger invoices[i1].tweak, invoices[i2].tweak]
        0 <= i1 < i2 < invoices.len() && invoices[i1].app_user_id == invoices[i2].app_user_id
            ==> invoices[i1].tweak != invoices[i2].tweak
}

/// The user store after a successful watermark write: the one row with
/// the user's id carries the new watermark, every other row is
/// untouched.
pub open spec fn tweak_advanced(
    before: Seq<User>,
    after: Seq<User>,
    user_id: i32,
    tweak: i64,
) -> bool {
    &&& after.len() == before.len()
    &&& forall|j: int|
        0 <= j < before.len() && (#[trigger] before[j]).id != user_id ==> after[j] == before[j]
    &&& forall|j: int|
        0 <= j < before.len() && (#[trigger] before[j]).id == user_id ==> user_eq(
            after[j],
            (User { last_tweak: tweak, ..before[j] }),
        )
}

} // verus!
