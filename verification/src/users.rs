//! User records: the registered user a payment request is routed for,
//! the payload a new user is created from, and the partial payloads
//! profile updates are made from.

use vstd::prelude::*;

verus! {

/// A registered user.
///
/// `federation_ids` lists the custodial federations the user belongs
/// to, primary first; `last_tweak` is the highest tweak index ever
/// allocated for the user and only ever grows.
#[derive(Debug)]
pub struct User {
    pub id: i32,
    pub name: String,
    pub replit_id: String,
    pub replit_profile_pic: String,
    pub pubkey: String,
    pub last_tweak: i64,
    pub relays: Vec<String>,
    pub federation_ids: Vec<String>,
    pub connection_code_uuid: String,
}

/// Deep equality of two users, field by field.
pub open spec fn user_eq(a: User, b: User) -> bool {
    a.id == b.id && a.name@ == b.name@ && a.replit_id@ == b.replit_id@ && a.replit_profile_pic@
        == b.replit_profile_pic@ && a.pubkey@ == b.pubkey@ && a.last_tweak == b.last_tweak
        && a.relays@ == b.relays@ && a.federation_ids@ == b.federation_ids@
        && a.connection_code_uuid@ == b.connection_code_uuid@
}

/// Copy a vector of strings, element by element.
pub(crate) fn clone_string_vec(v: &Vec<String>) -> (r: Vec<String>)
    ensures
        r@ == v@,
{
    let mut r: Vec<String> = Vec::new();
    let mut i: usize = 0;
    while i < v.len()
        invariant
            i <= v.len(),
            r@ =~= v@.subrange(0, i as int),
        decreases v.len() - i,
    {
        r.push(v[i].clone());
        i += 1;
    }
    proof {
        assert(r@ =~= v@);
    }
    r
}

impl Clone for User {
    fn clone(&self) -> (r: Self)
        ensures
            user_eq(r, *self),
    {
        User {
            id: self.id,
            name: self.name.clone(),
            replit_id: self.replit_id.clone(),
            replit_profile_pic: self.replit_profile_pic.clone(),
            pubkey: self.pubkey.clone(),
            last_tweak: self.last_tweak,
            relays: clone_string_vec(&self.relays),
            federation_ids: clone_string_vec(&self.federation_ids),
            connection_code_uuid: self.connection_code_uuid.clone(),
        }
    }
}

/// Generates a fresh connection code.
///
/// Relies on `uuid::Uuid::new_v4` and the `Display` impl of `Uuid`:
/// the hyphenated textual form of a UUID is always 36 characters.
/// The value is random; nothing else is promised of it.
#[verifier::external_body]
fn new_uuid_string() -> (r: String)
    ensures
        r@.len() == 36,
{
    uuid::Uuid::new_v4().to_string()
}

/// What the onboarding flow hands the store to create a user from.
#[derive(Debug)]
pub struct UserForCreate {
    pub name: String,
    pub replit_id: String,
    pub replit_profile_pic: String,
    pub pubkey: String,
    pub relays: Vec<String>,
    pub federation_ids: Vec<String>,
    pub connection_code_uuid: String,
    pub last_tweak: i64,
}

impl Clone for UserForCreate {
    fn clone(&self) -> (r: Self)
        ensures
            r.name@ == self.name@ && r.replit_id@ == self.replit_id@ && r.replit_profile_pic@
                == self.replit_profile_pic@ && r.pubkey@ == self.pubkey@ && r.relays@
                == self.relays@ && r.federation_ids@ == self.federation_ids@
                && r.connection_code_uuid@ == self.connection_code_uuid@ && r.last_tweak
                == self.last_tweak,
    {
        UserForCreate {
            name: self.name.clone(),
            replit_id: self.replit_id.clone(),
            replit_profile_pic: self.replit_profile_pic.clone(),
            pubkey: self.pubkey.clone(),
            relays: clone_string_vec(&self.relays),
            federation_ids: clone_string_vec(&self.federation_ids),
            connection_code_uuid: self.connection_code_uuid.clone(),
            last_tweak: self.last_tweak,
        }
    }
}

impl UserForCreate {
    /// A new user starts with no tweak consumed and a fresh connection
    /// code.
    pub fn new(
        name: String,
        replit_id: String,
        replit_profile_pic: String,
        pubkey: String,
        relays: Vec<String>,
        federation_ids: Vec<String>,
    ) -> (r: Self)
        ensures
            r.name == name,
            r.replit_id == replit_id,
            r.replit_profile_pic == replit_profile_pic,
            r.pubkey == pubkey,
            r.relays == relays,
            r.federation_ids == federation_ids,
            r.connection_code_uuid@.len() == 36,
            r.last_tweak == 0,
    {
        UserForCreate {
            name,
            replit_id,
            replit_profile_pic,
            pubkey,
            relays,
            federation_ids,
            connection_code_uuid: new_uuid_string(),
            last_tweak: 0,
        }
    }
}

/// A partial update of a user's profile: a `Some` field overwrites,
/// a `None` field keeps the stored value.
#[derive(Debug)]
pub struct UserForUpdate {
    pub name: Option<String>,
    pub replit_id: Option<String>,
    pub replit_profile_pic: Option<String>,
    pub pubkey: Option<String>,
    pub relays: Option<Vec<String>>,
    pub federation_ids: Option<Vec<String>>,
    pub last_tweak: Option<i64>,
    pub connection_code_uuid: Option<String>,
}

impl UserForUpdate {
    pub fn builder() -> (r: UserForUpdateBuilder)
        ensures
            r.update.name is None && r.update.replit_id is None && r.update.replit_profile_pic
                is None && r.update.pubkey is None && r.update.relays is None
                && r.update.federation_ids is None && r.update.last_tweak is None
                && r.update.connection_code_uuid is None,
    {
        UserForUpdateBuilder {
            update: UserForUpdate {
                name: None,
                replit_id: None,
                replit_profile_pic: None,
                pubkey: None,
                relays: None,
                federation_ids: None,
                last_tweak: None,
                connection_code_uuid: None,
            },
        }
    }
}

/// Step-by-step construction of a `UserForUpdate`.
pub struct UserForUpdateBuilder {
    pub update: UserForUpdate,
}

impl UserForUpdateBuilder {
    pub fn name(self, name: String) -> (r: Self)
        ensures
            r.update == (UserForUpdate { name: Some(name), ..self.update }),
    {
        UserForUpdateBuilder { update: UserForUpdate { name: Some(name), ..self.update } }
    }

    pub fn replit_id(self, replit_id: String) -> (r: Self)
        ensures
            r.update == (UserForUpdate { replit_id: Some(replit_id), ..self.update }),
    {
        UserForUpdateBuilder {
            update: UserForUpdate { replit_id: Some(replit_id), ..self.update },
        }
    }

    pub fn replit_profile_pic(self, replit_profile_pic: String) -> (r: Self)
        ensures
            r.update == (UserForUpdate {
                replit_profile_pic: Some(replit_profile_pic),
                ..self.update
            }),
    {
        UserForUpdateBuilder {
            update: UserForUpdate { replit_profile_pic: Some(replit_profile_pic), ..self.update },
        }
    }

    pub fn pubkey(self, pubkey: String) -> (r: Self)
        ensures
            r.update == (UserForUpdate { pubkey: Some(pubkey), ..self.update }),
    {
        UserForUpdateBuilder { update: UserForUpdate { pubkey: Some(pubkey), ..self.update } }
    }

    pub fn relays(self, relays: Vec<String>) -> (r: Self)
        ensures
            r.update == (UserForUpdate { relays: Some(relays), ..self.update }),
    {
        UserForUpdateBuilder { update: UserForUpdate { relays: Some(relays), ..self.update } }
    }

    pub fn federation_ids(self, federation_ids: Vec<String>) -> (r: Self)
        ensures
            r.update == (UserForUpdate { federation_ids: Some(federation_ids), ..self.update }),
    {
        UserForUpdateBuilder {
            update: UserForUpdate { federation_ids: Some(federation_ids), ..self.update },
        }
    }

    pub fn last_tweak(self, last_tweak: i64) -> (r: Self)
        ensures
            r.update == (UserForUpdate { last_tweak: Some(last_tweak), ..self.update }),
    {
        UserForUpdateBuilder {
            update: UserForUpdate { last_tweak: Some(last_tweak), ..self.update },
        }
    }

    pub fn connection_code_uuid(self, connection_code_uuid: String) -> (r: Self)
        ensures
            r.update == (UserForUpdate {
                connection_code_uuid: Some(connection_code_uuid),
                ..self.update
            }),
    {
        UserForUpdateBuilder {
            update: UserForUpdate {
                connection_code_uuid: Some(connection_code_uuid),
                ..self.update
            },
        }
    }

    pub fn build(self) -> (r: UserForUpdate)
        ensures
            r == self.update,
    {
        self.update
    }
}

/// The slimmer user record the LNURL address book keeps.
#[derive(Debug)]
pub struct AppUser {
    pub id: i32,
    pub name: String,
    pub pubkey: String,
    pub last_tweak: i64,
    pub relays: Vec<String>,
    pub federation_ids: Vec<String>,
}

/// Deep equality of two address-book users, field by field.
pub open spec fn app_user_eq(a: AppUser, b: AppUser) -> bool {
    a.id == b.id && a.name@ == b.name@ && a.pubkey@ == b.pubkey@ && a.last_tweak == b.last_tweak
        && a.relays@ == b.relays@ && a.federation_ids@ == b.federation_ids@
}

impl Clone for AppUser {
    fn clone(&self) -> (r: Self)
        ensures
            app_user_eq(r, *self),
    {
        AppUser {
            id: self.id,
            name: self.name.clone(),
            pubkey: self.pubkey.clone(),
            last_tweak: self.last_tweak,
            relays: clone_string_vec(&self.relays),
            federation_ids: clone_string_vec(&self.federation_ids),
        }
    }
}

impl AppUser {
    pub fn builder() -> (r: AppUserBuilder)
        ensures
            r.id is None && r.name is None && r.pubkey is None && r.last_tweak is None && r.relays
                is None && r.federation_ids is None,
    {
        AppUserBuilder {
            id: None,
            name: None,
            pubkey: None,
            last_tweak: None,
            relays: None,
            federation_ids: None,
        }
    }
}

/// Step-by-step construction of an `AppUser`; `build` fails naming the
/// first field still missing.
pub struct AppUserBuilder {
    pub id: Option<i32>,
    pub name: Option<String>,
    pub pubkey: Option<String>,
    pub last_tweak: Option<i64>,
    pub relays: Option<Vec<String>>,
    pub federation_ids: Option<Vec<String>>,
}

impl AppUserBuilder {
    pub fn id(self, id: i32) -> (r: Self)
        ensures
            r == (AppUserBuilder { id: Some(id), ..self }),
    {
        AppUserBuilder { id: Some(id), ..self }
    }

    pub fn name(self, name: String) -> (r: Self)
        ensures
            r == (AppUserBuilder { name: Some(name), ..self }),
    {
        AppUserBuilder { name: Some(name), ..self }
    }

    pub fn pubkey(self, pubkey: String) -> (r: Self)
        ensures
            r == (AppUserBuilder { pubkey: Some(pubkey), ..self }),
    {
        AppUserBuilder { pubkey: Some(pubkey), ..self }
    }

    pub fn last_tweak(self, last_tweak: i64) -> (r: Self)
        ensures
            r == (AppUserBuilder { last_tweak: Some(last_tweak), ..self }),
    {
        AppUserBuilder { last_tweak: Some(last_tweak), ..self }
    }

    pub fn relays(self, relays: Vec<String>) -> (r: Self)
        ensures
            r == (AppUserBuilder { relays: Some(relays), ..self }),
    {
        AppUserBuilder { relays: Some(relays), ..self }
    }

    pub fn federation_ids(self, federation_ids: Vec<String>) -> (r: Self)
        ensures
            r == (AppUserBuilder { federation_ids: Some(federation_ids), ..self }),
    {
        AppUserBuilder { federation_ids: Some(federation_ids), ..self }
    }

    /// Succeeds exactly when every field was set, and then carries
    /// every field over unchanged.
    pub fn build(self) -> (r: Result<AppUser, &'static str>)
        ensures
            r is Ok <==> (self.id is Some && self.name is Some && self.pubkey is Some
                && self.last_tweak is Some && self.relays is Some && self.federation_ids is Some),
            r matches Ok(u) ==> u.id == self.id.unwrap() && u.name == self.name.unwrap()
                && u.pubkey == self.pubkey.unwrap() && u.last_tweak == self.last_tweak.unwrap()
                && u.relays == self.relays.unwrap() && u.federation_ids
                == self.federation_ids.unwrap(),
    {
        let id = match self.id {
            Some(v) => v,
            None => {
                return Err("id is required");
            },
        };
        let name = match self.name {
            Some(v) => v,
            None => {
                return Err("name is required");
            },
        };
        let pubkey = match self.pubkey {
            Some(v) => v,
            None => {
                return Err("pubkey is required");
            },
        };
        let last_tweak = match self.last_tweak {
            Some(v) => v,
            None => {
                return Err("last_tweak is required");
            },
        };
        let relays = match self.relays {
            Some(v) => v,
            None => {
                return Err("relays is required");
            },
        };
        let federation_ids = match self.federation_ids {
            Some(v) => v,
            None => {
                return Err("federation_ids is required");
            },
        };
        Ok(AppUser { id, name, pubkey, last_tweak, relays, federation_ids })
    }
}

/// A partial update of an address-book user.
#[derive(Debug)]
pub struct AppUserForUpdate {
    pub pubkey: Option<String>,
    pub name: Option<String>,
    pub relays: Option<Vec<String>>,
    pub federation_ids: Option<Vec<String>>,
    pub last_tweak: Option<i64>,
}

impl AppUserForUpdate {
    pub fn builder() -> (r: AppUserForUpdateBuilder)
        ensures
            r.pubkey is None && r.name is None && r.relays is None && r.federation_ids is None
                && r.last_tweak is None,
    {
        AppUserForUpdateBuilder {
            pubkey: None,
            name: None,
            relays: None,
            federation_ids: None,
            last_tweak: None,
        }
    }
}

/// Step-by-step construction of an `AppUserForUpdate`.
pub struct AppUserForUpdateBuilder {
    pub pubkey: Option<String>,
    pub name: Option<String>,
    pub relays: Option<Vec<String>>,
    pub federation_ids: Option<Vec<String>>,
    pub last_tweak: Option<i64>,
}

impl AppUserForUpdateBuilder {
    pub fn pubkey(self, pubkey: String) -> (r: Self)
        ensures
            r == (AppUserForUpdateBuilder { pubkey: Some(pubkey), ..self }),
    {
        AppUserForUpdateBuilder { pubkey: Some(pubkey), ..self }
    }

    pub fn name(self, name: String) -> (r: Self)
        ensures
            r == (AppUserForUpdateBuilder { name: Some(name), ..self }),
    {
        AppUserForUpdateBuilder { name: Some(name), ..self }
    }

    pub fn relays(self, relays: Vec<String>) -> (r: Self)
        ensures
            r == (AppUserForUpdateBuilder { relays: Some(relays), ..self }),
    {
        AppUserForUpdateBuilder { relays: Some(relays), ..self }
    }

    pub fn federation_ids(self, federation_ids: Vec<String>) -> (r: Self)
        ensures
            r == (AppUserForUpdateBuilder { federation_ids: Some(federation_ids), ..self }),
    {
        AppUserForUpdateBuilder { federation_ids: Some(federation_ids), ..self }
    }

    pub fn last_tweak(self, last_tweak: i64) -> (r: Self)
        ensures
            r == (AppUserForUpdateBuilder { last_tweak: Some(last_tweak), ..self }),
    {
        AppUserForUpdateBuilder { last_tweak: Some(last_tweak), ..self }
    }

    /// Every field carries over; none is required.
    pub fn build(self) -> (r: AppUserForUpdate)
        ensures
            r.pubkey == self.pubkey,
            r.name == self.name,
            r.relays == self.relays,
            r.federation_ids == self.federation_ids,
            r.last_tweak == self.last_tweak,
    {
        AppUserForUpdate {
            pubkey: self.pubkey,
            name: self.name,
            relays: self.relays,
            federation_ids: self.federation_ids,
            last_tweak: self.last_tweak,
        }
    }
}

} // verus!
