//! The federation directory: one live client handle per known
//! federation id.
//!
//! The directory is generic over the handle type, which the core never
//! constructs or opens: it only registers handles at startup and looks
//! them up when routing a user. A resolve hands back a clone of the
//! stored handle, so a long-lived subscription keeps working however
//! the directory changes afterwards.

use vstd::prelude::*;

use crate::errors::CoreError;
use crate::hexid::{federation_id_valid, spec_federation_id_valid};
use crate::invoice_db::string_eq;
use crate::users::User;

verus! {

/// Whether the id sequence holds the given federation id.
pub open spec fn has_federation(ids: Seq<String>, fed: Seq<char>) -> bool {
    exists|i: int| 0 <= i < ids.len() && ids[i]@ == fed
}

/// The directory of known federations.
pub struct FederationDirectory<C> {
    ids: Vec<String>,
    handles: Vec<C>,
}

impl<C: Clone> FederationDirectory<C> {
    /// The registered federation ids, in registration order.
    pub closed spec fn spec_ids(&self) -> Seq<String> {
        self.ids@
    }

    /// The registered handles, positionally matching `spec_ids`.
    pub closed spec fn spec_handles(&self) -> Seq<C> {
        self.handles@
    }

    /// One handle per id, and no federation registered twice.
    pub open spec fn wf(&self) -> bool {
        &&& self.spec_ids().len() == self.spec_handles().len()
        &&& forall|i: int, j: int|
            #![trigger self.spec_ids()[i], self.spec_ids()[j]]
            0 <= i < j < self.spec_ids().len() ==> self.spec_ids()[i]@ != self.spec_ids()[j]@
    }

    /// An empty directory.
    pub fn new() -> (r: Self)
        ensures
            r.wf(),
            r.spec_ids() == Seq::<String>::empty(),
    {
        FederationDirectory { ids: Vec::new(), handles: Vec::new() }
    }

    /// Register a federation's client handle.
    ///
    /// Idempotent: a federation that is already present is left
    /// exactly as it was and `false` comes back; otherwise the pair is
    /// appended and `true` comes back.
    pub fn register(&mut self, federation_id: String, handle: C) -> (r: bool)
        requires
            old(self).wf(),
        ensures
            final(self).wf(),
            r == !has_federation(old(self).spec_ids(), federation_id@),
            !r ==> final(self).spec_ids() == old(self).spec_ids() && final(self).spec_handles()
                == old(self).spec_handles(),
            r ==> {
                &&& final(self).spec_ids().len() == old(self).spec_ids().len() + 1
                &&& final(self).spec_ids().drop_last() == old(self).spec_ids()
                &&& final(self).spec_ids().last()@ == federation_id@
                &&& final(self).spec_handles() == old(self).spec_handles().push(handle)
            },
    {
        let n = self.ids.len();
        let mut i: usize = 0;
        while i < n
            invariant
                *self == *old(self),
                self.wf(),
                n == self.spec_ids().len(),
                i <= n,
                forall|j: int| 0 <= j < i ==> (#[trigger] self.spec_ids()[j])@ != federation_id@,
            decreases n - i,
        {
            if string_eq(&self.ids[i], &federation_id) {
                return false;
            }
            i += 1;
        }
        self.ids.push(federation_id);
        self.handles.push(handle);
        proof {
            let s = self.spec_ids();
            let prev = old(self).spec_ids();
            assert(s.drop_last() =~= prev);
            assert forall|a: int, b: int| 0 <= a < b < s.len() implies s[a]@ != s[b]@ by {
                if b == s.len() - 1 {
                    assert(s[a] == prev[a]);
                } else {
                    assert(s[a] == prev[a] && s[b] == prev[b]);
                }
            }
        }
        true
    }

    /// Look up the handle registered for a federation id.
    ///
    /// Returns a clone of the stored handle exactly when the id is
    /// registered.
    pub fn lookup(&self, federation_id: &String) -> (r: Option<C>)
        requires
            self.wf(),
        ensures
            r is Some <==> has_federation(self.spec_ids(), federation_id@),
            r matches Some(c) ==> exists|i: int|
                0 <= i < self.spec_ids().len() && (#[trigger] self.spec_ids()[i])@
                    == federation_id@ && cloned(self.spec_handles()[i], c),
    {
        let n = self.ids.len();
        let mut i: usize = 0;
        while i < n
            invariant
                self.wf(),
                n == self.spec_ids().len(),
                i <= n,
                forall|j: int| 0 <= j < i ==> (#[trigger] self.spec_ids()[j])@ != federation_id@,
            decreases n - i,
        {
            if string_eq(&self.ids[i], federation_id) {
                let c = self.handles[i].clone();
                proof {
                    assert(self.spec_ids()[i as int]@ == federation_id@ && cloned(
                        self.spec_handles()[i as int],
                        c,
                    ));
                }
                return Some(c);
            }
            i += 1;
        }
        None
    }

    /// Resolve a user to their primary federation and a cloned client
    /// handle for it.
    ///
    /// Fails with `UnknownFederation` exactly when the user has no
    /// federation, the primary federation id is not a well-formed id,
    /// or no handle is registered for it.
    pub fn get_federation_and_client(&self, user: &User) -> (r: Result<(String, C), CoreError>)
        requires
            self.wf(),
        ensures
            r is Ok <==> (user.federation_ids@.len() > 0 && spec_federation_id_valid(
                user.federation_ids@[0]@,
            ) && has_federation(self.spec_ids(), user.federation_ids@[0]@)),
            r matches Ok(p) ==> {
                &&& p.0@ == user.federation_ids@[0]@
                &&& exists|i: int|
                    0 <= i < self.spec_ids().len() && (#[trigger] self.spec_ids()[i])@
                        == user.federation_ids@[0]@ && cloned(self.spec_handles()[i], p.1)
            },
            r matches Err(e) ==> e == CoreError::UnknownFederation,
    {
        if user.federation_ids.len() == 0 {
            return Err(CoreError::UnknownFederation);
        }
        let primary = &user.federation_ids[0];
        if !federation_id_valid(primary) {
            return Err(CoreError::UnknownFederation);
        }
        match self.lookup(primary) {
            Some(c) => Ok((primary.clone(), c)),
            None => Err(CoreError::UnknownFederation),
        }
    }
}

} // verus!
