//! The user store: the durable table of registered users.
//!
//! `update_tweak` is the narrow write contract the tweak allocator
//! goes through: it only ever moves a user's `last_tweak` strictly
//! upward, so a tweak index, once recorded, can never be handed out
//! again.

use vstd::prelude::*;

use crate::errors::CoreError;
use crate::invoice_db::string_eq;
use crate::users::{user_eq, User, UserForCreate, UserForUpdate};

verus! {

/// Whether the sequence holds a user with the given row id.
pub open spec fn has_user_id(s: Seq<User>, id: i32) -> bool {
    exists|i: int| 0 <= i < s.len() && s[i].id == id
}

/// Whether the sequence holds a user with the given name.
pub open spec fn has_user_name(s: Seq<User>, name: Seq<char>) -> bool {
    exists|i: int| 0 <= i < s.len() && s[i].name@ == name
}

/// Whether some row already carries the largest representable row id,
/// so that no fresh id is left above it.
pub open spec fn user_ids_exhausted(s: Seq<User>) -> bool {
    exists|i: int| 0 <= i < s.len() && s[i].id == i32::MAX
}

/// Row ids and names are unique, and no tweak watermark is negative.
pub open spec fn users_wf(s: Seq<User>) -> bool {
    &&& forall|i: int, j: int|
        #![trigger s[i].id, s[j].id]
        0 <= i < j < s.len() ==> s[i].id != s[j].id
    &&& forall|i: int, j: int|
        #![trigger s[i].name, s[j].name]
        0 <= i < j < s.len() ==> s[i].name@ != s[j].name@
    &&& forall|i: int| 0 <= i < s.len() ==> (#[trigger] s[i]).last_tweak >= 0
}

/// The index of the user with the given name; meaningful only when
/// `has_user_name` holds, and then unique by well-formedness.
pub open spec fn user_index_by_name(s: Seq<User>, name: Seq<char>) -> int {
    choose|i: int| 0 <= i < s.len() && s[i].name@ == name
}

/// The stored user a partial update leaves behind: a `Some` field of
/// the update overwrites, a `None` field keeps the stored value. The
/// row id never changes.
pub open spec fn spec_apply_update(u: User, up: UserForUpdate) -> User {
    User {
        id: u.id,
        name: if up.name is Some {
            up.name.unwrap()
        } else {
            u.name
        },
        replit_id: if up.replit_id is Some {
            up.replit_id.unwrap()
        } else {
            u.replit_id
        },
        replit_profile_pic: if up.replit_profile_pic is Some {
            up.replit_profile_pic.unwrap()
        } else {
            u.replit_profile_pic
        },
        pubkey: if up.pubkey is Some {
            up.pubkey.unwrap()
        } else {
            u.pubkey
        },
        last_tweak: if up.last_tweak is Some {
            up.last_tweak.unwrap()
        } else {
            u.last_tweak
        },
        relays: if up.relays is Some {
            up.relays.unwrap()
        } else {
            u.relays
        },
        federation_ids: if up.federation_ids is Some {
            up.federation_ids.unwrap()
        } else {
            u.federation_ids
        },
        connection_code_uuid: if up.connection_code_uuid is Some {
            up.connection_code_uuid.unwrap()
        } else {
            u.connection_code_uuid
        },
    }
}

/// The durable user table.
pub struct UserDb {
    users: Vec<User>,
}

impl View for UserDb {
    type V = Seq<User>;

    closed spec fn view(&self) -> Seq<User> {
        self.users@
    }
}

impl UserDb {
    /// Row ids are unique and tweak watermarks never negative.
    pub open spec fn wf(&self) -> bool {
        users_wf(self@)
    }

    /// An empty store.
    pub fn new() -> (r: Self)
        ensures
            r.wf(),
            r@ == Seq::<User>::empty(),
    {
        UserDb { users: Vec::new() }
    }

    /// Append a new user row with a fresh row id.
    ///
    /// Succeeds exactly when the name is not yet taken and a fresh row
    /// id is left; the stored (and returned) row carries the payload's
    /// fields unchanged.
    pub fn create(&mut self, user: UserForCreate) -> (r: Result<User, CoreError>)
        requires
            old(self).wf(),
            user.last_tweak >= 0,
        ensures
            final(self).wf(),
            r is Ok <==> (!has_user_name(old(self)@, user.name@) && !user_ids_exhausted(
                old(self)@,
            )),
            r matches Err(e) ==> (e == CoreError::DuplicateUserName || e
                == CoreError::PersistenceFailure),
            r matches Err(e) ==> (e == CoreError::DuplicateUserName <==> has_user_name(
                old(self)@,
                user.name@,
            )),
            r matches Ok(u) ==> {
                &&& u.name@ == user.name@
                &&& u.replit_id@ == user.replit_id@
                &&& u.replit_profile_pic@ == user.replit_profile_pic@
                &&& u.pubkey@ == user.pubkey@
                &&& u.relays@ == user.relays@
                &&& u.federation_ids@ == user.federation_ids@
                &&& u.connection_code_uuid@ == user.connection_code_uuid@
                &&& u.last_tweak == user.last_tweak
                &&& final(self)@.len() == old(self)@.len() + 1
                &&& final(self)@.drop_last() == old(self)@
                &&& user_eq(final(self)@.last(), u)
                &&& !has_user_id(old(self)@, u.id)
            },
            r is Err ==> final(self)@ == old(self)@,
    {
        if self.get_by_name(&user.name).is_some() {
            return Err(CoreError::DuplicateUserName);
        }
        let n = self.users.len();
        let mut fresh: i32 = 0;
        let mut i: usize = 0;
        while i < n
            invariant
                *self == *old(self),
                self.wf(),
                !has_user_name(self@, user.name@),
                n == self@.len(),
                i <= n,
                fresh >= 0,
                forall|j: int| 0 <= j < i ==> (#[trigger] self@[j].id) < fresh,
                forall|j: int| 0 <= j < i ==> self@[j].id < i32::MAX,
            decreases n - i,
        {
            if self.users[i].id >= fresh {
                if self.users[i].id == i32::MAX {
                    return Err(CoreError::PersistenceFailure);
                }
                fresh = self.users[i].id + 1;
            }
            i += 1;
        }
        let stored = User {
            id: fresh,
            name: user.name,
            replit_id: user.replit_id,
            replit_profile_pic: user.replit_profile_pic,
            pubkey: user.pubkey,
            last_tweak: user.last_tweak,
            relays: user.relays,
            federation_ids: user.federation_ids,
            connection_code_uuid: user.connection_code_uuid,
        };
        let returned = stored.clone();
        self.users.push(stored);
        proof {
            let s = self@;
            let prev = old(self)@;
            assert(s.drop_last() =~= prev);
            assert forall|a: int, b: int| 0 <= a < b < s.len() implies s[a].id != s[b].id by {
                if b == s.len() - 1 {
                    assert(s[a] == prev[a]);
                } else {
                    assert(s[a] == prev[a] && s[b] == prev[b]);
                }
            }
            assert forall|a: int, b: int| 0 <= a < b < s.len() implies s[a].name@ != s[b].name@ by {
                if b == s.len() - 1 {
                    assert(s[a] == prev[a]);
                } else {
                    assert(s[a] == prev[a] && s[b] == prev[b]);
                }
            }
        }
        Ok(returned)
    }

    /// Look a user up by row id; by well-formedness there is at most
    /// one such row.
    pub fn get(&self, id: i32) -> (r: Option<User>)
        requires
            self.wf(),
        ensures
            r is Some <==> has_user_id(self@, id),
            r matches Some(u) ==> exists|i: int|
                0 <= i < self@.len() && (#[trigger] self@[i]).id == id && user_eq(u, self@[i]),
    {
        let n = self.users.len();
        let mut i: usize = 0;
        while i < n
            invariant
                n == self@.len(),
                i <= n,
                forall|j: int| 0 <= j < i ==> (#[trigger] self@[j]).id != id,
            decreases n - i,
        {
            if self.users[i].id == id {
                return Some(self.users[i].clone());
            }
            i += 1;
        }
        None
    }

    /// Look a user up by name. Returns the first match in storage
    /// order.
    pub fn get_by_name(&self, username: &String) -> (r: Option<User>)
        requires
            self.wf(),
        ensures
            r is Some <==> has_user_name(self@, username@),
            r matches Some(u) ==> u.name@ == username@ && exists|i: int|
                0 <= i < self@.len() && user_eq(u, #[trigger] self@[i]),
            r matches Some(u) ==> user_eq(u, self@[user_index_by_name(self@, username@)]),
    {
        let n = self.users.len();
        let mut i: usize = 0;
        while i < n
            invariant
                self.wf(),
                n == self@.len(),
                i <= n,
                forall|j: int| 0 <= j < i ==> (#[trigger] self@[j]).name@ != username@,
            decreases n - i,
        {
            if string_eq(&self.users[i].name, username) {
                let found = self.users[i].clone();
                proof {
                    let k = user_index_by_name(self@, username@);
                    assert(0 <= k < self@.len() && self@[k].name@ == username@);
                    assert(k == i as int);
                }
                return Some(found);
            }
            i += 1;
        }
        None
    }

    /// Apply a partial update to the user with the given row id.
    ///
    /// Succeeds exactly when the row exists and a renaming, if any,
    /// does not collide with another user's name; then only that row
    /// changes, to `spec_apply_update` of its old value, and a copy of
    /// the new row is returned.
    pub fn update(&mut self, id: i32, user: UserForUpdate) -> (r: Result<User, CoreError>)
        requires
            old(self).wf(),
            user.last_tweak matches Some(t) ==> t >= 0,
        ensures
            final(self).wf(),
            r is Ok <==> (has_user_id(old(self)@, id) && (user.name matches Some(nm)
                ==> forall|j: int|
                0 <= j < old(self)@.len() && (#[trigger] old(self)@[j]).name@ == nm@
                    ==> old(self)@[j].id == id)),
            r matches Ok(u) ==> {
                &&& final(self)@.len() == old(self)@.len()
                &&& forall|j: int|
                    0 <= j < old(self)@.len() && (#[trigger] old(self)@[j]).id != id
                        ==> final(self)@[j] == old(self)@[j]
                &&& forall|j: int|
                    0 <= j < old(self)@.len() && (#[trigger] old(self)@[j]).id == id
                        ==> user_eq(final(self)@[j], spec_apply_update(old(self)@[j], user))
                &&& exists|j: int|
                    0 <= j < old(self)@.len() && (#[trigger] old(self)@[j]).id == id && user_eq(
                        u,
                        final(self)@[j],
                    )
            },
            r is Err ==> final(self)@ == old(self)@,
    {
        match &user.name {
            Some(nm) => {
                let n = self.users.len();
                let mut i: usize = 0;
                while i < n
                    invariant
                        *self == *old(self),
                        self.wf(),
                        user.name matches Some(v) && v@ == nm@,
                        n == self@.len(),
                        i <= n,
                        forall|j: int|
                            0 <= j < i && (#[trigger] self@[j]).name@ == nm@ ==> self@[j].id == id,
                    decreases n - i,
                {
                    if string_eq(&self.users[i].name, nm) && self.users[i].id != id {
                        return Err(CoreError::DuplicateUserName);
                    }
                    i += 1;
                }
            },
            None => {},
        }
        let n = self.users.len();
        let mut i: usize = 0;
        while i < n
            invariant
                *self == *old(self),
                self.wf(),
                user.last_tweak matches Some(t) ==> t >= 0,
                user.name matches Some(nm) ==> forall|j: int|
                    0 <= j < self@.len() && (#[trigger] self@[j]).name@ == nm@ ==> self@[j].id
                        == id,
                n == self@.len(),
                i <= n,
                forall|j: int| 0 <= j < i ==> (#[trigger] self@[j]).id != id,
            decreases n - i,
        {
            if self.users[i].id == id {
                let ghost before = self@;
                let stored = &self.users[i];
                let updated = User {
                    id: stored.id,
                    name: match user.name {
                        Some(v) => v,
                        None => stored.name.clone(),
                    },
                    replit_id: match user.replit_id {
                        Some(v) => v,
                        None => stored.replit_id.clone(),
                    },
                    replit_profile_pic: match user.replit_profile_pic {
                        Some(v) => v,
                        None => stored.replit_profile_pic.clone(),
                    },
                    pubkey: match user.pubkey {
                        Some(v) => v,
                        None => stored.pubkey.clone(),
                    },
                    last_tweak: match user.last_tweak {
                        Some(v) => v,
                        None => stored.last_tweak,
                    },
                    relays: match user.relays {
                        Some(v) => v,
                        None => crate::users::clone_string_vec(&stored.relays),
                    },
                    federation_ids: match user.federation_ids {
                        Some(v) => v,
                        None => crate::users::clone_string_vec(&stored.federation_ids),
                    },
                    connection_code_uuid: match user.connection_code_uuid {
                        Some(v) => v,
                        None => stored.connection_code_uuid.clone(),
                    },
                };
                proof {
                    assert(updated.last_tweak >= 0);
                }
                let returned = updated.clone();
                self.users.set(i, updated);
                proof {
                    let s = self@;
                    assert(forall|j: int| 0 <= j < before.len() && j != i ==> s[j] == before[j]);
                    assert(s[i as int].id == before[i as int].id);
                    assert forall|a: int, b: int|
                        0 <= a < b < s.len() implies s[a].id != s[b].id by {
                        assert(before[a].id != before[b].id);
                    }
                    assert(forall|j: int|
                        0 <= j < before.len() && (#[trigger] before[j]).id == id ==> j == i as int);
                    assert(user_eq(s[i as int], spec_apply_update(before[i as int], user)));
                    assert forall|a: int, b: int|
                        0 <= a < b < s.len() implies s[a].name@ != s[b].name@ by {
                        if a == i as int {
                            assert(s[b] == before[b]);
                            assert(before[b].id != id);
                            if user.name is Some {
                                assert(before[b].name@ != user.name.unwrap()@);
                            } else {
                                assert(before[a].name@ != before[b].name@);
                            }
                        } else if b == i as int {
                            assert(s[a] == before[a]);
                            assert(before[a].id != id);
                            if user.name is Some {
                                assert(before[a].name@ != user.name.unwrap()@);
                            } else {
                                assert(before[a].name@ != before[b].name@);
                            }
                        } else {
                            assert(s[a] == before[a] && s[b] == before[b]);
                            assert(before[a].name@ != before[b].name@);
                        }
                    }
                    assert forall|j: int| 0 <= j < s.len() implies s[j].last_tweak >= 0 by {
                        if j != i as int {
                            assert(s[j] == before[j]);
                            assert(before[j].last_tweak >= 0);
                        } else {
                            assert(s[j] == updated);
                        }
                    }
                }
                return Ok(returned);
            }
            i += 1;
        }
        Err(CoreError::UnknownUser)
    }

    /// Advance a user's tweak watermark.
    ///
    /// Succeeds exactly when the user exists and the new value is
    /// strictly above the stored one: the watermark only ever grows,
    /// so no tweak at or below it can ever be allocated again. A stale
    /// value gives `DuplicateTweak`, a missing user `UnknownUser`, and
    /// either way the store is untouched.
    pub fn update_tweak(&mut self, user: &User, tweak: i64) -> (r: Result<(), CoreError>)
        requires
            old(self).wf(),
            tweak >= 0,
        ensures
            final(self).wf(),
            r is Ok <==> exists|i: int|
                0 <= i < old(self)@.len() && (#[trigger] old(self)@[i]).id == user.id && old(
                    self,
                )@[i].last_tweak < tweak,
            r is Ok ==> {
                &&& final(self)@.len() == old(self)@.len()
                &&& forall|j: int|
                    0 <= j < old(self)@.len() && (#[trigger] old(self)@[j]).id != user.id
                        ==> final(self)@[j] == old(self)@[j]
                &&& forall|j: int|
                    0 <= j < old(self)@.len() && (#[trigger] old(self)@[j]).id == user.id
                        ==> user_eq(final(self)@[j], (User { last_tweak: tweak, ..old(self)@[j] }))
            },
            r is Err ==> final(self)@ == old(self)@,
            r matches Err(e) ==> (e == CoreError::UnknownUser || e == CoreError::DuplicateTweak),
            r == Err::<(), CoreError>(CoreError::UnknownUser) <==> !has_user_id(
                old(self)@,
                user.id,
            ),
    {
        let n = self.users.len();
        let mut i: usize = 0;
        while i < n
            invariant
                *self == *old(self),
                self.wf(),
                n == self@.len(),
                i <= n,
                forall|j: int| 0 <= j < i ==> (#[trigger] self@[j]).id != user.id,
            decreases n - i,
        {
            if self.users[i].id == user.id {
                if tweak <= self.users[i].last_tweak {
                    return Err(CoreError::DuplicateTweak);
                }
                let ghost before = self@;
                let updated = User { last_tweak: tweak, ..self.users[i].clone() };
                proof {
                    assert(user_eq(updated, (User { last_tweak: tweak, ..before[i as int] })));
                }
                self.users.set(i, updated);
                proof {
                    let s = self@;
                    assert(forall|j: int| 0 <= j < before.len() && j != i ==> s[j] == before[j]);
                    assert(s[i as int].id == before[i as int].id);
                    assert(s[i as int].name@ == before[i as int].name@);
                    assert forall|a: int, b: int|
                        0 <= a < b < s.len() implies s[a].id != s[b].id by {
                        assert(before[a].id != before[b].id);
                    }
                    assert forall|a: int, b: int|
                        0 <= a < b < s.len() implies s[a].name@ != s[b].name@ by {
                        assert(before[a].name@ != before[b].name@);
                        assert(s[a].name@ == before[a].name@ && s[b].name@ == before[b].name@);
                    }
                    assert(forall|j: int|
                        0 <= j < before.len() && (#[trigger] before[j]).id == user.id ==> j
                            == i as int);
                }
                return Ok(());
            }
            i += 1;
        }
        Err(CoreError::UnknownUser)
    }
}

impl UserDb {
    /// Refresh a user's profile from the onboarding source, or create
    /// the user when absent.
    ///
    /// An existing user keeps their row id, tweak watermark and
    /// connection code; name, public key, relays and federations are
    /// overwritten. A new user starts with `last_tweak` zero.
    pub fn update_or_create_user(
        &mut self,
        name: &String,
        replit_id: &String,
        replit_profile_pic: &String,
        pubkey: &String,
        relays: Vec<String>,
        federation_ids: Vec<String>,
    ) -> (r: Result<(), CoreError>)
        requires
            old(self).wf(),
        ensures
            final(self).wf(),
            has_user_name(old(self)@, name@) ==> {
                let k = user_index_by_name(old(self)@, name@);
                &&& r is Ok
                &&& final(self)@.len() == old(self)@.len()
                &&& forall|j: int|
                    0 <= j < old(self)@.len() && j != k ==> final(self)@[j] == old(self)@[j]
                &&& final(self)@[k].id == old(self)@[k].id
                &&& final(self)@[k].name@ == name@
                &&& final(self)@[k].replit_id@ == replit_id@
                &&& final(self)@[k].replit_profile_pic@ == replit_profile_pic@
                &&& final(self)@[k].pubkey@ == pubkey@
                &&& final(self)@[k].relays@ == relays@
                &&& final(self)@[k].federation_ids@ == federation_ids@
                &&& final(self)@[k].last_tweak == old(self)@[k].last_tweak
                &&& final(self)@[k].connection_code_uuid@ == old(self)@[k].connection_code_uuid@
            },
            !has_user_name(old(self)@, name@) ==> {
                &&& (r is Ok <==> !user_ids_exhausted(old(self)@))
                &&& r is Ok ==> {
                    &&& final(self)@.len() == old(self)@.len() + 1
                    &&& final(self)@.drop_last() == old(self)@
                    &&& final(self)@.last().name@ == name@
                    &&& final(self)@.last().replit_id@ == replit_id@
                    &&& final(self)@.last().replit_profile_pic@ == replit_profile_pic@
                    &&& final(self)@.last().pubkey@ == pubkey@
                    &&& final(self)@.last().relays@ == relays@
                    &&& final(self)@.last().federation_ids@ == federation_ids@
                    &&& final(self)@.last().last_tweak == 0
                }
                &&& r is Err ==> final(self)@ == old(self)@
            },
    {
        match self.get_by_name(name) {
            Some(u) => {
                proof {
                    let k = user_index_by_name(old(self)@, name@);
                    assert(0 <= k < self@.len() && self@[k].name@ == name@);
                    assert(exists|i: int|
                        0 <= i < self@.len() && user_eq(u, #[trigger] self@[i]));
                    let w = choose|i: int| 0 <= i < self@.len() && user_eq(u, #[trigger] self@[i]);
                    assert(self@[w].name@ == name@);
                    assert(w == k);
                    assert(u.id == self@[k].id);
                }
                let up = UserForUpdate::builder().name(name.clone()).replit_id(
                    replit_id.clone(),
                ).replit_profile_pic(replit_profile_pic.clone()).pubkey(pubkey.clone()).relays(
                    relays,
                ).federation_ids(federation_ids).build();
                match self.update(u.id, up) {
                    Ok(_) => Ok(()),
                    Err(e) => Err(e),
                }
            },
            None => {
                let user = UserForCreate::new(
                    name.clone(),
                    replit_id.clone(),
                    replit_profile_pic.clone(),
                    pubkey.clone(),
                    relays,
                    federation_ids,
                );
                match self.create(user) {
                    Ok(_) => Ok(()),
                    Err(e) => Err(e),
                }
            },
        }
    }

    /// Create a brand-new user from an onboarding profile; the user
    /// starts with `last_tweak` zero and a fresh connection code.
    pub fn create_new_user(
        &mut self,
        replit_user_id: &String,
        replit_user_name: &String,
        replit_profile_pic: &String,
        pubkey: &String,
        relays: Vec<String>,
        federation_ids: Vec<String>,
    ) -> (r: Result<User, CoreError>)
        requires
            old(self).wf(),
        ensures
            final(self).wf(),
            r is Ok <==> (!has_user_name(old(self)@, replit_user_name@) && !user_ids_exhausted(
                old(self)@,
            )),
            r matches Ok(u) ==> {
                &&& u.name@ == replit_user_name@
                &&& u.replit_id@ == replit_user_id@
                &&& u.replit_profile_pic@ == replit_profile_pic@
                &&& u.pubkey@ == pubkey@
                &&& u.relays@ == relays@
                &&& u.federation_ids@ == federation_ids@
                &&& u.last_tweak == 0
                &&& u.connection_code_uuid@.len() == 36
                &&& final(self)@.len() == old(self)@.len() + 1
                &&& final(self)@.drop_last() == old(self)@
                &&& user_eq(final(self)@.last(), u)
            },
            r is Err ==> final(self)@ == old(self)@,
    {
        let user = UserForCreate::new(
            replit_user_name.clone(),
            replit_user_id.clone(),
            replit_profile_pic.clone(),
            pubkey.clone(),
            relays,
            federation_ids,
        );
        self.create(user)
    }
}

/// Look a user up by name, failing with `UnknownUser` when absent.
pub fn get_user(db: &UserDb, username: &String) -> (r: Result<User, CoreError>)
    requires
        db.wf(),
    ensures
        r is Ok <==> has_user_name(db@, username@),
        r matches Ok(u) ==> u.name@ == username@ && exists|i: int|
            0 <= i < db@.len() && user_eq(u, #[trigger] db@[i]),
        r matches Err(e) ==> e == CoreError::UnknownUser,
{
    match db.get_by_name(username) {
        Some(u) => Ok(u),
        None => Err(CoreError::UnknownUser),
    }
}

} // verus!
