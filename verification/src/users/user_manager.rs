//! The users that are stored.
//!
//! A user is known by its name and its host together. Every stored user
//! carries a sequence number, which changes with each change of the user:
//! a caller that hands in the number it has seen is refused where the user
//! has changed since.

use vstd::prelude::*;
use crate::errors::ErrorCode;
use crate::errors::ErrorKind;
use crate::users::user_info::AuthType;
use crate::users::user_info::UserInfo;
use crate::users::user_info::UserInfoSpec;
use crate::users::user_info::UserPrivilege;

verus! {

/// A stored value with its sequence number.
#[derive(Debug, PartialEq, Eq)]
pub struct SeqV<T> {
    pub seq: u64,
    pub data: T,
}

/// The mathematical content of a stored user.
pub struct StoredUser {
    pub seq: u64,
    pub user: UserInfoSpec,
}

/// The users of a node, in the order in which they were added.
#[derive(Debug)]
pub struct UserMgr {
    pub users: Vec<SeqV<UserInfo>>,
    /// The greatest sequence number handed out so far.
    pub last_seq: u64,
}

/// The views of the stored users, in their order.
pub open spec fn stored_view(users: Seq<SeqV<UserInfo>>) -> Seq<StoredUser> {
    Seq::new(users.len(), |i: int| StoredUser { seq: users[i].seq, user: users[i].data@ })
}

/// The name of the stored user at place `i`.
pub open spec fn name_at(users: Seq<StoredUser>, i: int) -> Seq<char> {
    users[i].user.name
}

/// The host of the stored user at place `i`.
pub open spec fn host_at(users: Seq<StoredUser>, i: int) -> Seq<char> {
    users[i].user.hostname
}

/// Whether a user of that name and host is stored.
pub open spec fn is_stored(users: Seq<StoredUser>, name: Seq<char>, hostname: Seq<char>) -> bool {
    exists|i: int|
        0 <= i < users.len() && #[trigger] name_at(users, i) == name && host_at(users, i)
            == hostname
}

/// The place of the user of that name and host.
pub open spec fn place_of(users: Seq<StoredUser>, name: Seq<char>, hostname: Seq<char>) -> int {
    choose|i: int|
        0 <= i < users.len() && #[trigger] name_at(users, i) == name && host_at(users, i)
            == hostname
}

/// No two stored users have the same name and host.
pub open spec fn keys_distinct(users: Seq<StoredUser>) -> bool {
    forall|i: int, j: int|
        0 <= i < j < users.len() ==> !(#[trigger] name_at(users, i) == #[trigger] name_at(users, j)
            && host_at(users, i) == host_at(users, j))
}

/// Whether the sequence number that a caller has seen allows the access to
/// a user that stands at `stored`: none given, or the same.
pub open spec fn seq_matches(seen: Option<u64>, stored: u64) -> bool {
    seen is None || seen->0 == stored
}

/// Among users with distinct keys a user is found at its own place.
pub proof fn lemma_place(users: Seq<StoredUser>, i: int)
    requires
        keys_distinct(users),
        0 <= i < users.len(),
    ensures
        is_stored(users, name_at(users, i), host_at(users, i)),
        place_of(users, name_at(users, i), host_at(users, i)) == i,
{
    let j = place_of(users, name_at(users, i), host_at(users, i));
    assert(0 <= j < users.len() && name_at(users, j) == name_at(users, i) && host_at(users, j)
        == host_at(users, i));
    if j < i {
        assert(!(name_at(users, j) == name_at(users, i) && host_at(users, j) == host_at(users, i)));
    } else if i < j {
        assert(!(name_at(users, i) == name_at(users, j) && host_at(users, i) == host_at(users, j)));
    }
}

/// The failure to find a user.
fn unknown_user() -> (e: ErrorCode)
    ensures
        e.kind == ErrorKind::NotFound,
{
    ErrorCode::create(ErrorKind::NotFound, String::from_str("unknown user"))
}

impl UserMgr {
    /// No two users have the same name and host, and no user carries a
    /// sequence number that is yet to be handed out.
    pub open spec fn wf(&self) -> bool {
        &&& keys_distinct(self@)
        &&& forall|i: int| 0 <= i < self.users@.len() ==> (#[trigger] self.users@[i]).seq <= self.last_seq
    }

    /// The stored users, in their order.
    pub open spec fn view(&self) -> Seq<StoredUser> {
        stored_view(self.users@)
    }

    /// A store without users.
    pub fn new() -> (m: UserMgr)
        ensures
            m.wf(),
            m@.len() == 0,
            m.last_seq == 0,
    {
        UserMgr { users: Vec::new(), last_seq: 0 }
    }

    /// The place of the user of that name and host.
    fn find(&self, username: &String, hostname: &String) -> (r: Option<usize>)
        ensures
            r is Some ==> r->0 < self@.len() && name_at(self@, r->0 as int) == username@ && host_at(
                self@,
                r->0 as int,
            ) == hostname@,
            r is None ==> !is_stored(self@, username@, hostname@),
    {
        let mut i: usize = 0;
        while i < self.users.len()
            invariant
                i <= self.users.len(),
                forall|j: int|
                    0 <= j < i ==> !(#[trigger] name_at(self@, j) == username@ && host_at(self@, j)
                        == hostname@),
            decreases self.users.len() - i,
        {
            if self.users[i].data.name == *username && self.users[i].data.hostname == *hostname {
                return Some(i);
            }
            i = i + 1;
        }
        None
    }

    /// The place of the user of that name and host, where it is stored and
    /// the caller has seen it as it stands.
    fn locate(&self, username: &String, hostname: &String, seq: Option<u64>) -> (r: Option<usize>)
        requires
            self.wf(),
        ensures
            self.allows(username@, hostname@, seq) ==> r is Some && r->0 as int == place_of(
                self@,
                username@,
                hostname@,
            ) && r->0 < self@.len(),
            !self.allows(username@, hostname@, seq) ==> r is None,
    {
        match self.find(username, hostname) {
            None => None,
            Some(i) => {
                proof {
                    lemma_place(self@, i as int);
                }
                match seq {
                    None => Some(i),
                    Some(seen) => if seen == self.users[i].seq {
                        Some(i)
                    } else {
                        None
                    },
                }
            },
        }
    }

    /// Whether a user of that name and host is stored, and stands as the
    /// caller has seen it.
    pub open spec fn allows(&self, name: Seq<char>, hostname: Seq<char>, seq: Option<u64>) -> bool {
        is_stored(self@, name, hostname) && seq_matches(
            seq,
            self@[place_of(self@, name, hostname)].seq,
        )
    }

    /// Stores a new user, and hands back its sequence number. Refused with
    /// `AlreadyExists` where a user of that name and host is stored, and
    /// otherwise with `Internal` where no sequence number is left.
    pub fn add_user(&mut self, user_info: UserInfo) -> (r: Result<u64, ErrorCode>)
        requires
            old(self).wf(),
        ensures
            final(self).wf(),
            ({
                let before = old(self)@;
                if is_stored(before, user_info@.name, user_info@.hostname) {
                    r is Err && r->Err_0.kind == ErrorKind::AlreadyExists && *final(self) == *old(
                        self,
                    )
                } else if old(self).last_seq == u64::MAX {
                    r is Err && r->Err_0.kind == ErrorKind::Internal && *final(self) == *old(self)
                } else {
                    r is Ok && r->Ok_0 == old(self).last_seq + 1 && final(self).last_seq
                        == r->Ok_0 && final(self)@ == before.push(
                        StoredUser { seq: r->Ok_0, user: user_info@ },
                    )
                }
            }),
    {
        if self.find(&user_info.name, &user_info.hostname).is_some() {
            return Err(
                ErrorCode::create(
                    ErrorKind::AlreadyExists,
                    String::from_str("the user already exists"),
                ),
            );
        }
        if self.last_seq == u64::MAX {
            return Err(
                ErrorCode::create(
                    ErrorKind::Internal,
                    String::from_str("no sequence number is left"),
                ),
            );
        }
        let seq = self.last_seq + 1;
        self.last_seq = seq;
        let ghost added = StoredUser { seq, user: user_info@ };
        self.users.push(SeqV { seq, data: user_info });
        proof {
            let before = old(self)@;
            let after = self@;
            assert(after =~= before.push(added));
            assert forall|i: int, j: int| 0 <= i < j < after.len() implies !(#[trigger] name_at(
                after,
                i,
            ) == #[trigger] name_at(after, j) && host_at(after, i) == host_at(after, j)) by {
                assert(name_at(after, i) == name_at(before, i));
                assert(host_at(after, i) == host_at(before, i));
                if j < before.len() {
                    assert(name_at(after, j) == name_at(before, j));
                    assert(host_at(after, j) == host_at(before, j));
                }
            }
            assert forall|i: int| 0 <= i < self.users@.len() implies (#[trigger] self.users@[i]).seq
                <= self.last_seq by {
                if i < before.len() {
                    assert(self.users@[i] == old(self).users@[i]);
                }
            }
        }
        Ok(seq)
    }

    /// The user of that name and host. Refused with `NotFound` where no
    /// such user is stored, or where it has changed since the caller saw
    /// it.
    pub fn get_user(&self, username: String, hostname: String, seq: Option<u64>) -> (r: Result<
        SeqV<UserInfo>,
        ErrorCode,
    >)
        requires
            self.wf(),
        ensures
            self.allows(username@, hostname@, seq) ==> r is Ok && (StoredUser {
                seq: r->Ok_0.seq,
                user: r->Ok_0.data@,
            }) == self@[place_of(self@, username@, hostname@)],
            !self.allows(username@, hostname@, seq) ==> r is Err && r->Err_0.kind
                == ErrorKind::NotFound,
    {
        match self.locate(&username, &hostname, seq) {
            Some(i) => Ok(SeqV { seq: self.users[i].seq, data: self.users[i].data.clone() }),
            None => Err(unknown_user()),
        }
    }

    /// All users, in the order in which they were added.
    pub fn get_users(&self) -> (r: Result<Vec<SeqV<UserInfo>>, ErrorCode>)
        ensures
            r is Ok,
            stored_view(r->Ok_0@) == self@,
    {
        let mut users: Vec<SeqV<UserInfo>> = Vec::new();
        let mut i: usize = 0;
        while i < self.users.len()
            invariant
                i <= self.users.len(),
                users.len() == i,
                forall|j: int|
                    0 <= j < i ==> (#[trigger] users@[j]).seq == self.users@[j].seq
                        && users@[j].data@ == self.users@[j].data@,
            decreases self.users.len() - i,
        {
            users.push(SeqV { seq: self.users[i].seq, data: self.users[i].data.clone() });
            i = i + 1;
        }
        assert(stored_view(users@) =~= self@);
        Ok(users)
    }

    /// Puts `user` in the place `i`, under a new sequence number.
    fn replace(&mut self, i: usize, user: UserInfo) -> (r: Result<Option<u64>, ErrorCode>)
        requires
            old(self).wf(),
            i < old(self)@.len(),
            user@.name == name_at(old(self)@, i as int),
            user@.hostname == host_at(old(self)@, i as int),
        ensures
            final(self).wf(),
            old(self).last_seq == u64::MAX ==> r is Err && r->Err_0.kind == ErrorKind::Internal
                && *final(self) == *old(self),
            old(self).last_seq < u64::MAX ==> r is Ok && r->Ok_0 == Some(
                (old(self).last_seq + 1) as u64,
            ) && final(self).last_seq == old(self).last_seq + 1 && final(self)@ == old(
                self,
            )@.update(
                i as int,
                StoredUser { seq: (old(self).last_seq + 1) as u64, user: user@ },
            ),
    {
        if self.last_seq == u64::MAX {
            return Err(
                ErrorCode::create(
                    ErrorKind::Internal,
                    String::from_str("no sequence number is left"),
                ),
            );
        }
        let seq = self.last_seq + 1;
        self.last_seq = seq;
        let ghost put = StoredUser { seq, user: user@ };
        self.users[i] = SeqV { seq, data: user };
        proof {
            let before = old(self)@;
            let after = self@;
            assert(after =~= before.update(i as int, put));
            assert forall|a: int, b: int| 0 <= a < b < after.len() implies !(#[trigger] name_at(
                after,
                a,
            ) == #[trigger] name_at(after, b) && host_at(after, a) == host_at(after, b)) by {
                assert(name_at(after, a) == name_at(before, a));
                assert(host_at(after, a) == host_at(before, a));
                assert(name_at(after, b) == name_at(before, b));
                assert(host_at(after, b) == host_at(before, b));
            }
            assert forall|a: int| 0 <= a < self.users@.len() implies (#[trigger] self.users@[a]).seq
                <= self.last_seq by {
                if a != i {
                    assert(self.users@[a] == old(self).users@[a]);
                }
            }
        }
        Ok(Some(seq))
    }

    /// Gives the user a new password, a new kind of password, or both, and
    /// hands back its new sequence number. Where neither is given nothing
    /// changes, and the number that the caller handed in comes back.
    ///
    /// Refused with `NotFound` where no such user is stored, or where it has
    /// changed since the caller saw it, and otherwise with `Internal` where
    /// no sequence number is left.
    pub fn update_user(
        &mut self,
        username: String,
        hostname: String,
        new_password: Option<Vec<u8>>,
        new_auth: Option<AuthType>,
        seq: Option<u64>,
    ) -> (r: Result<Option<u64>, ErrorCode>)
        requires
            old(self).wf(),
        ensures
            final(self).wf(),
            ({
                let before = old(self)@;
                let i = place_of(before, username@, hostname@);
                if new_password is None && new_auth is None {
                    r == Ok::<Option<u64>, ErrorCode>(seq) && *final(self) == *old(self)
                } else if !old(self).allows(username@, hostname@, seq) {
                    r is Err && r->Err_0.kind == ErrorKind::NotFound && *final(self) == *old(self)
                } else if old(self).last_seq == u64::MAX {
                    r is Err && r->Err_0.kind == ErrorKind::Internal && *final(self) == *old(self)
                } else {
                    r is Ok && r->Ok_0 == Some((old(self).last_seq + 1) as u64) && final(self)@
                        == before.update(
                        i,
                        StoredUser {
                            seq: (old(self).last_seq + 1) as u64,
                            user: UserInfoSpec {
                                password: match new_password {
                                    Some(p) => p@,
                                    None => before[i].user.password,
                                },
                                auth_type: match new_auth {
                                    Some(a) => a,
                                    None => before[i].user.auth_type,
                                },
                                ..before[i].user
                            },
                        },
                    )
                }
            }),
    {
        if new_password.is_none() && new_auth.is_none() {
            return Ok(seq);
        }
        let i = match self.locate(&username, &hostname, seq) {
            Some(i) => i,
            None => {
                return Err(unknown_user());
            },
        };
        let mut user = self.users[i].data.clone();
        match new_password {
            Some(password) => {
                user.password = password;
            },
            None => {},
        }
        match new_auth {
            Some(auth) => {
                user.auth_type = auth;
            },
            None => {},
        }
        self.replace(i, user)
    }

    /// Grants the user the given privileges on top of those it holds, and
    /// hands back its new sequence number. A grant of what the user holds
    /// leaves its privileges as they are.
    ///
    /// Refused with `NotFound` where no such user is stored, or where it has
    /// changed since the caller saw it, and otherwise with `Internal` where
    /// no sequence number is left.
    pub fn set_user_privileges(
        &mut self,
        username: String,
        hostname: String,
        privileges: UserPrivilege,
        seq: Option<u64>,
    ) -> (r: Result<Option<u64>, ErrorCode>)
        requires
            old(self).wf(),
        ensures
            final(self).wf(),
            ({
                let before = old(self)@;
                let i = place_of(before, username@, hostname@);
                if !old(self).allows(username@, hostname@, seq) {
                    r is Err && r->Err_0.kind == ErrorKind::NotFound && *final(self) == *old(self)
                } else if old(self).last_seq == u64::MAX {
                    r is Err && r->Err_0.kind == ErrorKind::Internal && *final(self) == *old(self)
                } else {
                    r is Ok && r->Ok_0 == Some((old(self).last_seq + 1) as u64) && final(self)@
                        == before.update(
                        i,
                        StoredUser {
                            seq: (old(self).last_seq + 1) as u64,
                            user: UserInfoSpec {
                                privileges: before[i].user.privileges.union(privileges@),
                                ..before[i].user
                            },
                        },
                    )
                }
            }),
    {
        let i = match self.locate(&username, &hostname, seq) {
            Some(i) => i,
            None => {
                return Err(unknown_user());
            },
        };
        let mut user = self.users[i].data.clone();
        user.privileges = user.privileges.union(&privileges);
        self.replace(i, user)
    }

    /// Removes the user. Refused with `NotFound` where no such user is
    /// stored, or where it has changed since the caller saw it.
    pub fn drop_user(&mut self, username: String, hostname: String, seq: Option<u64>) -> (r: Result<
        (),
        ErrorCode,
    >)
        requires
            old(self).wf(),
        ensures
            final(self).wf(),
            final(self).last_seq == old(self).last_seq,
            old(self).allows(username@, hostname@, seq) ==> r is Ok && final(self)@ == old(
                self,
            )@.remove(place_of(old(self)@, username@, hostname@)) && !is_stored(
                final(self)@,
                username@,
                hostname@,
            ),
            !old(self).allows(username@, hostname@, seq) ==> r is Err && r->Err_0.kind
                == ErrorKind::NotFound && *final(self) == *old(self),
    {
        let i = match self.locate(&username, &hostname, seq) {
            Some(i) => i,
            None => {
                return Err(unknown_user());
            },
        };
        let _ = self.users.remove(i);
        proof {
            let before = old(self)@;
            let after = self@;
            assert(after =~= before.remove(i as int));
            assert forall|a: int, b: int| 0 <= a < b < after.len() implies !(#[trigger] name_at(
                after,
                a,
            ) == #[trigger] name_at(after, b) && host_at(after, a) == host_at(after, b)) by {
                let x = if a < i {
                    a
                } else {
                    a + 1
                };
                let y = if b < i {
                    b
                } else {
                    b + 1
                };
                assert(name_at(after, a) == name_at(before, x));
                assert(host_at(after, a) == host_at(before, x));
                assert(name_at(after, b) == name_at(before, y));
                assert(host_at(after, b) == host_at(before, y));
            }
            assert forall|a: int| 0 <= a < self.users@.len() implies (#[trigger] self.users@[a]).seq
                <= self.last_seq by {
                let x = if a < i {
                    a
                } else {
                    a + 1
                };
                assert(self.users@[a] == old(self).users@[x]);
            }
            if is_stored(after, username@, hostname@) {
                let a = place_of(after, username@, hostname@);
                let x = if a < i {
                    a
                } else {
                    a + 1
                };
                assert(name_at(after, a) == name_at(before, x));
                assert(host_at(after, a) == host_at(before, x));
                if x < i {
                    assert(!(name_at(before, x) == name_at(before, i as int) && host_at(before, x)
                        == host_at(before, i as int)));
                } else {
                    assert(!(name_at(before, i as int) == name_at(before, x) && host_at(
                        before,
                        i as int,
                    ) == host_at(before, x)));
                }
            }
        }
        Ok(())
    }
}

/// A second grant of the same privileges leaves the privileges of the user
/// as the first grant left them.
pub proof fn lemma_grant_twice<A>(held: Set<A>, granted: Set<A>)
    ensures
        held.union(granted).union(granted) == held.union(granted),
{
    assert(held.union(granted).union(granted) =~= held.union(granted));
}

} // verus!
