//! The recovery coordinator.
//!
//! At process start every invoice left `Pending` by a previous run
//! must get its lifecycle tracker back. Recovery reads the pending
//! invoices, partitions them by federation, and plans one
//! re-subscription per invoice for every federation the directory
//! knows; a partition whose federation id is malformed or unknown is
//! skipped whole and reported, and never stops the other partitions.
//! The plan is a pure function of the store and the directory, so a
//! second run with no backend activity in between plans exactly the
//! same subscriptions.

use vstd::prelude::*;

use crate::directory::{has_federation, FederationDirectory};
use crate::hexid::spec_federation_id_valid;
use crate::invoice_db::{lemma_filter_push, InvoiceDb};
use crate::invoice_state::InvoiceState;
use crate::invoices::Invoice;

verus! {

/// Filtering keeps nothing when no element matches.
pub proof fn lemma_filter_all_false<A>(s: Seq<A>, pred: spec_fn(A) -> bool)
    requires
        forall|i: int| 0 <= i < s.len() ==> !pred(#[trigger] s[i]),
    ensures
        s.filter(pred) == Seq::<A>::empty(),
    decreases s.len(),
{
    reveal(Seq::filter);
    if s.len() > 0 {
        assert(forall|i: int| 0 <= i < s.drop_last().len() ==> s.drop_last()[i] == s[i]);
        lemma_filter_all_false(s.drop_last(), pred);
    }
    assert(s.filter(pred) =~= Seq::<A>::empty());
}

/// The pending invoices, grouped: each group holds, in storage order,
/// exactly the invoices of one federation.
pub open spec fn groups_ok(groups: Seq<(String, Vec<Invoice>)>, from: Seq<Invoice>) -> bool {
    &&& forall|g: int|
        0 <= g < groups.len() ==> (#[trigger] groups[g]).1@ == from.filter(
            |x: Invoice| x.federation_id@ == groups[g].0@,
        )
    &&& forall|g1: int, g2: int|
        #![trigger groups[g1].0, groups[g2].0]
        0 <= g1 < g2 < groups.len() ==> groups[g1].0@ != groups[g2].0@
    &&& forall|i: int|
        0 <= i < from.len() ==> exists|g: int|
            0 <= g < groups.len() && (#[trigger] groups[g]).0@ == (
            #[trigger] from[i]).federation_id@
    &&& forall|g: int| 0 <= g < groups.len() ==> (#[trigger] groups[g]).1@.len() > 0
}

/// Partition invoices by federation id. Group order follows first
/// appearance; within a group, input order is kept.
pub fn group_invoices_by_federation(invoices: Vec<Invoice>) -> (r: Vec<(String, Vec<Invoice>)>)
    ensures
        groups_ok(r@, invoices@),
{
    let mut r: Vec<(String, Vec<Invoice>)> = Vec::new();
    let n = invoices.len();
    let mut i: usize = 0;
    proof {
        assert(invoices@.subrange(0, 0) =~= Seq::<Invoice>::empty());
        reveal(Seq::filter);
    }
    while i < n
        invariant
            n == invoices@.len(),
            i <= n,
            groups_ok(r@, invoices@.subrange(0, i as int)),
        decreases n - i,
    {
        let ghost prefix = invoices@.subrange(0, i as int);
        let ghost x = invoices@[i as int];
        proof {
            assert(prefix.push(x) =~= invoices@.subrange(0, i as int + 1));
        }
        let inv = invoices[i].clone();
        let ghost r_snap = r@;
        let m = r.len();
        let mut g: usize = 0;
        let mut found = false;
        while g < m
            invariant_except_break
                r@ == r_snap,
                m == r@.len(),
                g <= m,
                !found,
                inv == x,
                forall|h: int| 0 <= h < g ==> (#[trigger] r@[h]).0@ != x.federation_id@,
            ensures
                r@ == r_snap,
                m == r@.len(),
                inv == x,
                found ==> g < m && r@[g as int].0@ == x.federation_id@,
                !found ==> forall|h: int| 0 <= h < m ==> (#[trigger] r@[h]).0@ != x.federation_id@,
            decreases m - g,
        {
            if crate::invoice_db::string_eq(&r[g].0, &inv.federation_id) {
                found = true;
                break ;
            }
            g += 1;
        }
        if found {
            let ghost before = r@;
            r[g].1.push(inv);
            proof {
                assert(r@[g as int].0@ == before[g as int].0@);
                assert(r@[g as int].1@ == before[g as int].1@.push(x));
                assert(forall|h: int| 0 <= h < before.len() && h != g ==> r@[h] == before[h]);
                assert forall|h: int| 0 <= h < r@.len() implies (#[trigger] r@[h]).1@ == prefix.push(
                    x,
                ).filter(|y: Invoice| y.federation_id@ == r@[h].0@) by {
                    lemma_filter_push(prefix, x, |y: Invoice| y.federation_id@ == r@[h].0@);
                    if h != g as int {
                        assert(before[h].0@ != before[g as int].0@);
                        assert(x.federation_id@ != r@[h].0@);
                        assert(r@[h] == before[h]);
                    }
                }
            }
        } else {
            let key = inv.federation_id.clone();
            let mut list: Vec<Invoice> = Vec::new();
            list.push(inv);
            let ghost before = r@;
            r.push((key, list));
            proof {
                let last = r@.len() - 1;
                assert(forall|h: int| 0 <= h < before.len() ==> r@[h] == before[h]);
                assert(r@[last].0@ == x.federation_id@);
                assert(r@[last].1@ =~= Seq::<Invoice>::empty().push(x));
                assert(!(exists|h: int|
                    0 <= h < before.len() && (#[trigger] before[h]).0@ == x.federation_id@));
                assert forall|t: int|
                    0 <= t < prefix.len() implies (#[trigger] prefix[t]).federation_id@
                    != x.federation_id@ by {
                    let w = choose|w: int|
                        0 <= w < before.len() && (#[trigger] before[w]).0@
                            == prefix[t].federation_id@;
                }
                assert forall|h: int| 0 <= h < r@.len() implies (#[trigger] r@[h]).1@ == prefix.push(
                    x,
                ).filter(|y: Invoice| y.federation_id@ == r@[h].0@) by {
                    lemma_filter_push(prefix, x, |y: Invoice| y.federation_id@ == r@[h].0@);
                    if h == last {
                        lemma_filter_all_false(prefix, |y: Invoice| y.federation_id@ == r@[h].0@);
                    } else {
                        assert(r@[h] == before[h]);
                        assert(before[h].0@ != x.federation_id@);
                    }
                }
            }
        }
        i += 1;
    }
    proof {
        assert(invoices@.subrange(0, n as int) =~= invoices@);
    }
    r
}

/// Every element of a filtered sequence is an element of the original.
pub proof fn lemma_filter_element_of<A>(s: Seq<A>, pred: spec_fn(A) -> bool, i: int)
    requires
        0 <= i < s.filter(pred).len(),
    ensures
        exists|j: int| 0 <= j < s.len() && s[j] == s.filter(pred)[i],
    decreases s.len(),
{
    reveal(Seq::filter);
    if s.len() > 0 {
        let sub = s.drop_last();
        if pred(s.last()) && i == s.filter(pred).len() - 1 {
            assert(s[s.len() - 1] == s.filter(pred)[i]);
        } else {
            lemma_filter_element_of(sub, pred, i);
            let j = choose|j: int| 0 <= j < sub.len() && sub[j] == sub.filter(pred)[i];
            assert(s[j] == s.filter(pred)[i]);
        }
    }
}

/// The invoices still pending in a store.
pub open spec fn spec_pending(s: Seq<Invoice>) -> Seq<Invoice> {
    s.filter(|inv: Invoice| inv.state is Pending)
}

/// Whether recovery can re-attach a federation's invoices: the id is
/// well formed and a client handle is registered for it.
#[verifier::opaque]
pub open spec fn recoverable(dir_ids: Seq<String>, fed: Seq<char>) -> bool {
    spec_federation_id_valid(fed) && has_federation(dir_ids, fed)
}

/// What one recovery pass will do: re-subscribe the invoices of each
/// partition, one partition per recoverable federation, and skip the
/// federations it cannot reach.
#[derive(Debug)]
pub struct RecoveryPlan {
    pub partitions: Vec<(String, Vec<Invoice>)>,
    pub skipped_federations: Vec<String>,
}

/// The canonical recovery plan for a store and a directory: the
/// partitions hold, grouped by federation, exactly the pending
/// invoices of every recoverable federation that has any, each invoice
/// once; the skipped list holds exactly the other federation ids that
/// still have pending invoices.
pub open spec fn plan_ok(
    db: Seq<Invoice>,
    dir_ids: Seq<String>,
    partitions: Seq<(String, Vec<Invoice>)>,
    skipped: Seq<String>,
) -> bool {
    let pending = spec_pending(db);
    &&& forall|g: int|
        0 <= g < partitions.len() ==> recoverable(dir_ids, (#[trigger] partitions[g]).0@)
    &&& forall|g: int|
        0 <= g < partitions.len() ==> (#[trigger] partitions[g]).1@ == pending.filter(
            |x: Invoice| x.federation_id@ == partitions[g].0@,
        )
    &&& forall|g: int| 0 <= g < partitions.len() ==> (#[trigger] partitions[g]).1@.len() > 0
    &&& forall|g1: int, g2: int|
        #![trigger partitions[g1].0, partitions[g2].0]
        0 <= g1 < g2 < partitions.len() ==> partitions[g1].0@ != partitions[g2].0@
    &&& forall|t: int|
        0 <= t < skipped.len() ==> !recoverable(dir_ids, (#[trigger] skipped[t])@)
    &&& forall|t: int|
        0 <= t < skipped.len() ==> pending.filter(
            |x: Invoice| x.federation_id@ == (#[trigger] skipped[t])@,
        ).len() > 0
    &&& forall|t1: int, t2: int|
        #![trigger skipped[t1], skipped[t2]]
        0 <= t1 < t2 < skipped.len() ==> skipped[t1]@ != skipped[t2]@
    &&& forall|i: int|
        0 <= i < pending.len() ==> ((exists|g: int|
            0 <= g < partitions.len() && (#[trigger] partitions[g]).0@ == (
            #[trigger] pending[i]).federation_id@) || (exists|t: int|
            0 <= t < skipped.len() && (#[trigger] skipped[t])@ == pending[i].federation_id@))
}

/// Plan one recovery pass: walk the store's pending invoices once,
/// gathering them by federation into the partitions the directory can
/// serve; a federation it cannot serve is skipped whole, never failing
/// the pass.
#[verifier::rlimit(100)]
pub fn handle_pending_invoices<C: Clone>(db: &InvoiceDb, dir: &FederationDirectory<C>) -> (r:
    RecoveryPlan)
    requires
        db.wf(),
        dir.wf(),
    ensures
        plan_ok(db@, dir.spec_ids(), r.partitions@, r.skipped_federations@),
{
    let pending = db.get_by_state(InvoiceState::Pending);
    proof {
        assert((|inv: Invoice| inv.state == InvoiceState::Pending) =~= (|inv: Invoice|
            inv.state is Pending));
        assert(pending@ == spec_pending(db@));
    }
    let ghost ids = dir.spec_ids();
    let mut partitions: Vec<(String, Vec<Invoice>)> = Vec::new();
    let mut skipped: Vec<String> = Vec::new();
    let n = pending.len();
    let mut i: usize = 0;
    proof {
        assert(pending@.subrange(0, 0) =~= Seq::<Invoice>::empty());
        reveal(Seq::filter);
    }
    while i < n
        invariant
            ids == dir.spec_ids(),
            dir.wf(),
            n == pending@.len(),
            i <= n,
            forall|g: int|
                0 <= g < partitions@.len() ==> recoverable(ids, (#[trigger] partitions@[g]).0@),
            forall|g: int|
                0 <= g < partitions@.len() ==> (#[trigger] partitions@[g]).1@ == pending@.subrange(
                    0,
                    i as int,
                ).filter(|x: Invoice| x.federation_id@ == partitions@[g].0@),
            forall|g: int| 0 <= g < partitions@.len() ==> (#[trigger] partitions@[g]).1@.len() > 0,
            forall|g1: int, g2: int|
                #![trigger partitions@[g1].0, partitions@[g2].0]
                0 <= g1 < g2 < partitions@.len() ==> partitions@[g1].0@ != partitions@[g2].0@,
            forall|t: int|
                0 <= t < skipped@.len() ==> !recoverable(ids, (#[trigger] skipped@[t])@),
            forall|t: int|
                0 <= t < skipped@.len() ==> pending@.subrange(0, i as int).filter(
                    |x: Invoice| x.federation_id@ == (#[trigger] skipped@[t])@,
                ).len() > 0,
            forall|t1: int, t2: int|
                #![trigger skipped@[t1], skipped@[t2]]
                0 <= t1 < t2 < skipped@.len() ==> skipped@[t1]@ != skipped@[t2]@,
            forall|p: int|
                0 <= p < i ==> ((exists|g: int|
                    0 <= g < partitions@.len() && (#[trigger] partitions@[g]).0@ == (
                    #[trigger] pending@[p]).federation_id@) || (exists|t: int|
                    0 <= t < skipped@.len() && (#[trigger] skipped@[t])@
                        == pending@[p].federation_id@)),
        decreases n - i,
    {
        let ghost prefix = pending@.subrange(0, i as int);
        let ghost x = pending@[i as int];
        proof {
            assert(prefix.push(x) =~= pending@.subrange(0, i as int + 1));
        }
        let inv = pending[i].clone();
        let ghost parts_snap = partitions@;
        let m = partitions.len();
        let mut g: usize = 0;
        let mut found = false;
        while g < m
            invariant_except_break
                partitions@ == parts_snap,
                m == partitions@.len(),
                g <= m,
                !found,
                inv == x,
                forall|h: int| 0 <= h < g ==> (#[trigger] partitions@[h]).0@ != x.federation_id@,
            ensures
                partitions@ == parts_snap,
                m == partitions@.len(),
                inv == x,
                found ==> g < m && partitions@[g as int].0@ == x.federation_id@,
                !found ==> forall|h: int|
                    0 <= h < m ==> (#[trigger] partitions@[h]).0@ != x.federation_id@,
            decreases m - g,
        {
            if crate::invoice_db::string_eq(&partitions[g].0, &inv.federation_id) {
                found = true;
                break ;
            }
            g += 1;
        }
        if found {
            let ghost before = partitions@;
            partitions[g].1.push(inv);
            proof {
                assert(partitions@[g as int].0@ == before[g as int].0@);
                assert(partitions@[g as int].1@ == before[g as int].1@.push(x));
                assert(forall|h: int|
                    0 <= h < before.len() && h != g ==> partitions@[h] == before[h]);
                assert forall|h: int|
                    0 <= h < partitions@.len() implies (#[trigger] partitions@[h]).1@
                    == prefix.push(x).filter(
                    |y: Invoice| y.federation_id@ == partitions@[h].0@,
                ) by {
                    lemma_filter_push(prefix, x, |y: Invoice| y.federation_id@
                        == partitions@[h].0@);
                    if h != g as int {
                        assert(before[h].0@ != before[g as int].0@);
                        assert(partitions@[h] == before[h]);
                    }
                }
                assert forall|t: int|
                    0 <= t < skipped@.len() implies prefix.push(x).filter(
                    |y: Invoice| y.federation_id@ == (#[trigger] skipped@[t])@,
                ).len() > 0 by {
                    lemma_filter_push(prefix, x, |y: Invoice| y.federation_id@ == skipped@[t]@);
                }
            }
        } else {
            let mut in_skipped = false;
            let ghost skip_snap = skipped@;
            let sm = skipped.len();
            let mut t: usize = 0;
            while t < sm
                invariant_except_break
                    skipped@ == skip_snap,
                    sm == skipped@.len(),
                    t <= sm,
                    !in_skipped,
                    inv == x,
                    forall|h: int| 0 <= h < t ==> (#[trigger] skipped@[h])@ != x.federation_id@,
                ensures
                    skipped@ == skip_snap,
                    sm == skipped@.len(),
                    inv == x,
                    in_skipped ==> t < sm && skipped@[t as int]@ == x.federation_id@,
                    !in_skipped ==> forall|h: int|
                        0 <= h < sm ==> (#[trigger] skipped@[h])@ != x.federation_id@,
                decreases sm - t,
            {
                if crate::invoice_db::string_eq(&skipped[t], &inv.federation_id) {
                    in_skipped = true;
                    break ;
                }
                t += 1;
            }
            if in_skipped {
                proof {
                    assert forall|h: int|
                        0 <= h < partitions@.len() implies (#[trigger] partitions@[h]).1@
                        == prefix.push(x).filter(
                        |y: Invoice| y.federation_id@ == partitions@[h].0@,
                    ) by {
                        lemma_filter_push(prefix, x, |y: Invoice| y.federation_id@
                            == partitions@[h].0@);
                    }
                    assert forall|h: int|
                        0 <= h < skipped@.len() implies prefix.push(x).filter(
                        |y: Invoice| y.federation_id@ == (#[trigger] skipped@[h])@,
                    ).len() > 0 by {
                        lemma_filter_push(prefix, x, |y: Invoice| y.federation_id@ == skipped@[h]@);
                    }
                }
            } else {
                let valid = crate::hexid::federation_id_valid(&inv.federation_id);
                let registered = dir.lookup(&inv.federation_id).is_some();
                proof {
                    reveal(recoverable);
                    assert((valid && registered) == recoverable(ids, x.federation_id@));
                }
                if valid && registered {
                    let key = inv.federation_id.clone();
                    let mut list: Vec<Invoice> = Vec::new();
                    list.push(inv);
                    let ghost before = partitions@;
                    partitions.push((key, list));
                    proof {
                        let last = partitions@.len() - 1;
                        assert(forall|h: int|
                            0 <= h < before.len() ==> partitions@[h] == before[h]);
                        assert(partitions@[last].0@ == x.federation_id@);
                        assert(partitions@[last].1@ =~= Seq::<Invoice>::empty().push(x));
                        assert forall|p: int|
                            0 <= p < prefix.len() implies (#[trigger] prefix[p]).federation_id@
                            != x.federation_id@ by {}
                        assert forall|h: int|
                            0 <= h < partitions@.len() implies (#[trigger] partitions@[h]).1@
                            == prefix.push(x).filter(
                            |y: Invoice| y.federation_id@ == partitions@[h].0@,
                        ) by {
                            lemma_filter_push(prefix, x, |y: Invoice| y.federation_id@
                                == partitions@[h].0@);
                            if h == last {
                                lemma_filter_all_false(prefix, |y: Invoice| y.federation_id@
                                    == partitions@[h].0@);
                            } else {
                                assert(partitions@[h] == before[h]);
                                assert(before[h].0@ != x.federation_id@);
                            }
                        }
                        assert forall|h: int|
                            0 <= h < skipped@.len() implies prefix.push(x).filter(
                            |y: Invoice| y.federation_id@ == (#[trigger] skipped@[h])@,
                        ).len() > 0 by {
                            lemma_filter_push(prefix, x, |y: Invoice| y.federation_id@
                                == skipped@[h]@);
                        }
                    }
                } else {
                    let key = inv.federation_id;
                    let ghost before = skipped@;
                    skipped.push(key);
                    proof {
                        let last = skipped@.len() - 1;
                        assert(forall|h: int| 0 <= h < before.len() ==> skipped@[h] == before[h]);
                        assert(skipped@[last]@ == x.federation_id@);
                        assert forall|h: int|
                            0 <= h < partitions@.len() implies (#[trigger] partitions@[h]).1@
                            == prefix.push(x).filter(
                            |y: Invoice| y.federation_id@ == partitions@[h].0@,
                        ) by {
                            lemma_filter_push(prefix, x, |y: Invoice| y.federation_id@
                                == partitions@[h].0@);
                        }
                        assert forall|h: int|
                            0 <= h < skipped@.len() implies prefix.push(x).filter(
                            |y: Invoice| y.federation_id@ == (#[trigger] skipped@[h])@,
                        ).len() > 0 by {
                            lemma_filter_push(prefix, x, |y: Invoice| y.federation_id@
                                == skipped@[h]@);
                            if h == last {
                                assert(prefix.push(x).filter(
                                    |y: Invoice| y.federation_id@ == skipped@[h]@,
                                ).len() > 0);
                            }
                        }
                    }
                }
            }
        }
        i += 1;
    }
    proof {
        assert(pending@.subrange(0, n as int) =~= pending@);
    }
    RecoveryPlan { partitions, skipped_federations: skipped }
}

/// Whether a federation partition appears, with the same invoices, in
/// a sequence of partitions.
pub open spec fn partition_present(
    p2: Seq<(String, Vec<Invoice>)>,
    pair: (String, Vec<Invoice>),
) -> bool {
    exists|h: int| 0 <= h < p2.len() && (#[trigger] p2[h]).0@ == pair.0@ && p2[h].1@ == pair.1@
}

/// Whether every partition of `p1` appears, with the same invoices,
/// in `p2`.
pub open spec fn partitions_contained(
    p1: Seq<(String, Vec<Invoice>)>,
    p2: Seq<(String, Vec<Invoice>)>,
) -> bool {
    forall|g: int| 0 <= g < p1.len() ==> partition_present(p2, #[trigger] p1[g])
}

/// Whether a federation id appears in a skipped list.
pub open spec fn skip_present(s2: Seq<String>, key: String) -> bool {
    exists|u: int| 0 <= u < s2.len() && (#[trigger] s2[u])@ == key@
}

/// Whether every skipped federation of `s1` is also in `s2`.
pub open spec fn skips_contained(s1: Seq<String>, s2: Seq<String>) -> bool {
    forall|t: int| 0 <= t < s1.len() ==> skip_present(s2, #[trigger] s1[t])
}

/// Every partition of one canonical plan appears in any other plan
/// drawn from the same store and directory, with the same invoices.
proof fn lemma_plan_partitions_contained(
    db: Seq<Invoice>,
    dir_ids: Seq<String>,
    p1: Seq<(String, Vec<Invoice>)>,
    s1: Seq<String>,
    p2: Seq<(String, Vec<Invoice>)>,
    s2: Seq<String>,
)
    requires
        plan_ok(db, dir_ids, p1, s1),
        plan_ok(db, dir_ids, p2, s2),
    ensures
        partitions_contained(p1, p2),
{
    let pending = spec_pending(db);
    assert forall|g: int| 0 <= g < p1.len() implies partition_present(p2, #[trigger] p1[g]) by {
        let key = p1[g].0;
        let pred = |x: Invoice| x.federation_id@ == key@;
        assert(p1[g].1@ == pending.filter(pred));
        assert(pending.filter(pred).len() > 0);
        pending.lemma_filter_pred(pred, 0);
        lemma_filter_element_of(pending, pred, 0);
        let j = choose|j: int| 0 <= j < pending.len() && pending[j] == pending.filter(pred)[0];
        assert(pending[j].federation_id@ == key@);
        if exists|t: int| 0 <= t < s2.len() && (#[trigger] s2[t])@ == pending[j].federation_id@ {
            let t = choose|t: int|
                0 <= t < s2.len() && (#[trigger] s2[t])@ == pending[j].federation_id@;
            assert(!recoverable(dir_ids, s2[t]@));
            assert(recoverable(dir_ids, p1[g].0@));
            assert(false);
        }
        let h = choose|h: int|
            0 <= h < p2.len() && (#[trigger] p2[h]).0@ == pending[j].federation_id@;
        assert(p2[h].1@ == pending.filter(|x: Invoice| x.federation_id@ == p2[h].0@));
        assert((|x: Invoice| x.federation_id@ == p2[h].0@) =~= pred);
        assert(0 <= h < p2.len() && p2[h].0@ == p1[g].0@ && p2[h].1@ == p1[g].1@);
    }
}

/// Every skipped federation of one canonical plan is skipped by any
/// other plan drawn from the same store and directory.
proof fn lemma_plan_skipped_contained(
    db: Seq<Invoice>,
    dir_ids: Seq<String>,
    p1: Seq<(String, Vec<Invoice>)>,
    s1: Seq<String>,
    p2: Seq<(String, Vec<Invoice>)>,
    s2: Seq<String>,
)
    requires
        plan_ok(db, dir_ids, p1, s1),
        plan_ok(db, dir_ids, p2, s2),
    ensures
        skips_contained(s1, s2),
{
    let pending = spec_pending(db);
    assert forall|t: int| 0 <= t < s1.len() implies skip_present(s2, #[trigger] s1[t]) by {
        let key = s1[t];
        let pred = |x: Invoice| x.federation_id@ == key@;
        assert(pending.filter(pred).len() > 0);
        pending.lemma_filter_pred(pred, 0);
        lemma_filter_element_of(pending, pred, 0);
        let j = choose|j: int| 0 <= j < pending.len() && pending[j] == pending.filter(pred)[0];
        assert(pending[j].federation_id@ == key@);
        if exists|h: int| 0 <= h < p2.len() && (#[trigger] p2[h]).0@ == pending[j].federation_id@ {
            let h = choose|h: int|
                0 <= h < p2.len() && (#[trigger] p2[h]).0@ == pending[j].federation_id@;
            assert(recoverable(dir_ids, p2[h].0@));
            assert(!recoverable(dir_ids, s1[t]@));
            assert(false);
        }
        let u = choose|u: int|
            0 <= u < s2.len() && (#[trigger] s2[u])@ == pending[j].federation_id@;
        assert(0 <= u < s2.len() && s2[u]@ == s1[t]@);
    }
}

/// Recovery is idempotent. A recovery pass reads the store and never
/// writes it, so with no backend activity between two passes both see
/// the same pending invoices; and any two plans drawn from the same
/// store and directory agree: each federation's partition carries the
/// same invoice sequence in both, and the same federations are
/// skipped. In particular the second pass plans exactly the
/// subscriptions of the first — the same count, and no invoice twice.
pub proof fn lemma_recover_all_idempotent(
    db: Seq<Invoice>,
    dir_ids: Seq<String>,
    p1: Seq<(String, Vec<Invoice>)>,
    s1: Seq<String>,
    p2: Seq<(String, Vec<Invoice>)>,
    s2: Seq<String>,
)
    requires
        plan_ok(db, dir_ids, p1, s1),
        plan_ok(db, dir_ids, p2, s2),
    ensures
        partitions_contained(p1, p2),
        partitions_contained(p2, p1),
        skips_contained(s1, s2),
        skips_contained(s2, s1),
{
    lemma_plan_partitions_contained(db, dir_ids, p1, s1, p2, s2);
    lemma_plan_partitions_contained(db, dir_ids, p2, s2, p1, s1);
    lemma_plan_skipped_contained(db, dir_ids, p1, s1, p2, s2);
    lemma_plan_skipped_contained(db, dir_ids, p2, s2, p1, s1);
}

/// How many subscriptions the partitions plan, summed over partitions.
pub open spec fn spec_plan_count(partitions: Seq<(String, Vec<Invoice>)>) -> int
    decreases partitions.len(),
{
    if partitions.len() == 0 {
        0
    } else {
        spec_plan_count(partitions.drop_last()) + partitions.last().1@.len()
    }
}

/// The count is never negative.
pub proof fn lemma_plan_count_nonneg(partitions: Seq<(String, Vec<Invoice>)>)
    ensures
        spec_plan_count(partitions) >= 0,
    decreases partitions.len(),
{
    if partitions.len() > 0 {
        lemma_plan_count_nonneg(partitions.drop_last());
    }
}

impl RecoveryPlan {
    /// How many subscriptions this pass will attach: one per invoice
    /// over all partitions.
    pub fn count(&self) -> (r: usize)
        requires
            spec_plan_count(self.partitions@) <= usize::MAX,
        ensures
            r == spec_plan_count(self.partitions@),
    {
        let n = self.partitions.len();
        let mut total: usize = 0;
        let mut g: usize = 0;
        while g < n
            invariant
                n == self.partitions@.len(),
                g <= n,
                total == spec_plan_count(self.partitions@.subrange(0, g as int)),
                spec_plan_count(self.partitions@) <= usize::MAX,
            decreases n - g,
        {
            proof {
                lemma_plan_count_prefix(self.partitions@, g as int + 1);
                assert(self.partitions@.subrange(0, g as int + 1).drop_last()
                    =~= self.partitions@.subrange(0, g as int));
                assert(self.partitions@.subrange(0, g as int + 1).last()
                    == self.partitions@[g as int]);
                lemma_plan_count_nonneg(self.partitions@.subrange(0, g as int));
            }
            total = total + self.partitions[g].1.len();
            g += 1;
        }
        proof {
            assert(self.partitions@.subrange(0, n as int) =~= self.partitions@);
        }
        total
    }
}

/// A prefix never plans more subscriptions than the whole.
pub proof fn lemma_plan_count_prefix(partitions: Seq<(String, Vec<Invoice>)>, k: int)
    requires
        0 <= k <= partitions.len(),
    ensures
        spec_plan_count(partitions.subrange(0, k)) <= spec_plan_count(partitions),
    decreases partitions.len() - k,
{
    if k == partitions.len() {
        assert(partitions.subrange(0, k) =~= partitions);
    } else {
        lemma_plan_count_prefix(partitions, k + 1);
        assert(partitions.subrange(0, k + 1).drop_last() =~= partitions.subrange(0, k));
        assert(spec_plan_count(partitions.subrange(0, k + 1)) == spec_plan_count(
            partitions.subrange(0, k),
        ) + partitions[k].1@.len());
    }
}

} // verus!
