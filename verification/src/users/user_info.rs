//! What the user manager stores of a user.

use vstd::prelude::*;
use crate::text::eq_ignore_case;
use crate::text::upper;

verus! {

/// How the password of a user is kept.
#[derive(Clone, Copy, Debug, PartialEq, Eq, Structural, PartialOrd, Ord)]
pub enum AuthType {
    NoPassword,
    PlainText,
    Sha256,
    DoubleSha1,
}

impl AuthType {
    /// The number under which the kind is shown in the table of users: its
    /// place in the list of kinds.
    pub open spec fn code_spec(self) -> u8 {
        match self {
            AuthType::NoPassword => 0,
            AuthType::PlainText => 1,
            AuthType::Sha256 => 2,
            AuthType::DoubleSha1 => 3,
        }
    }

    pub fn code(&self) -> (c: u8)
        ensures
            c == self.code_spec(),
    {
        match self {
            AuthType::NoPassword => 0,
            AuthType::PlainText => 1,
            AuthType::Sha256 => 2,
            AuthType::DoubleSha1 => 3,
        }
    }

    /// The name of the kind in the grammar of `CREATE USER`.
    pub open spec fn name_spec(self) -> Seq<char> {
        match self {
            AuthType::NoPassword => "no_password"@,
            AuthType::PlainText => "plaintext_password"@,
            AuthType::Sha256 => "sha256_password"@,
            AuthType::DoubleSha1 => "double_sha1_password"@,
        }
    }

    pub fn name(&self) -> (s: &'static str)
        ensures
            s@ == self.name_spec(),
    {
        match self {
            AuthType::NoPassword => "no_password",
            AuthType::PlainText => "plaintext_password",
            AuthType::Sha256 => "sha256_password",
            AuthType::DoubleSha1 => "double_sha1_password",
        }
    }
}

/// The kind that a name of the grammar of `CREATE USER` stands for,
/// whatever the case of its letters.
pub open spec fn auth_type_of(name: Seq<char>) -> Option<AuthType> {
    if upper(name) == upper("no_password"@) {
        Some(AuthType::NoPassword)
    } else if upper(name) == upper("plaintext_password"@) {
        Some(AuthType::PlainText)
    } else if upper(name) == upper("sha256_password"@) {
        Some(AuthType::Sha256)
    } else if upper(name) == upper("double_sha1_password"@) {
        Some(AuthType::DoubleSha1)
    } else {
        None
    }
}

impl AuthType {
    /// The kind that a name of the grammar of `CREATE USER` stands for.
    pub fn from_name(name: &str) -> (r: Option<AuthType>)
        ensures
            r == auth_type_of(name@),
    {
        if eq_ignore_case(name, "no_password") {
            Some(AuthType::NoPassword)
        } else if eq_ignore_case(name, "plaintext_password") {
            Some(AuthType::PlainText)
        } else if eq_ignore_case(name, "sha256_password") {
            Some(AuthType::Sha256)
        } else if eq_ignore_case(name, "double_sha1_password") {
            Some(AuthType::DoubleSha1)
        } else {
            None
        }
    }

    /// The kind of the password of a user that is identified by a password:
    /// the kind that the statement names, and `sha256_password` where it
    /// names none. A name that stands for no kind gives nothing.
    pub fn identified_with(name: Option<&str>) -> (r: Option<AuthType>)
        ensures
            name is None ==> r == Some(AuthType::Sha256),
            name is Some ==> r == auth_type_of(name->0@),
    {
        match name {
            None => Some(AuthType::Sha256),
            Some(name) => AuthType::from_name(name),
        }
    }
}

/// The host that stands for every host.
pub const HOST_WILDCARD: &'static str = "%";

/// The host of a user as a statement gives it: the wildcard where it gives
/// none.
pub fn host_or_wildcard(hostname: Option<&str>) -> (r: String)
    ensures
        hostname is Some ==> r@ == hostname->0@,
        hostname is None ==> r@ == "%"@,
{
    match hostname {
        Some(hostname) => String::from_str(hostname),
        None => String::from_str(HOST_WILDCARD),
    }
}

/// One privilege that a user can hold.
#[derive(Clone, Copy, Debug, PartialEq, Eq, Structural)]
pub enum UserPrivilegeType {
    Select,
    Insert,
    Create,
    Drop,
    Alter,
    Super,
    Usage,
    All,
}

/// The set of privileges that a user holds.
#[derive(Clone, Copy, Debug, PartialEq, Eq, Structural)]
pub struct UserPrivilege {
    pub select: bool,
    pub insert: bool,
    pub create: bool,
    pub drop: bool,
    pub alter: bool,
    pub superuser: bool,
    pub usage: bool,
    pub all: bool,
}

impl View for UserPrivilege {
    type V = Set<UserPrivilegeType>;

    open spec fn view(&self) -> Set<UserPrivilegeType> {
        Set::new(|p: UserPrivilegeType| self.holds(p))
    }
}

impl UserPrivilege {
    /// Whether the set holds the privilege.
    pub open spec fn holds(&self, privilege: UserPrivilegeType) -> bool {
        match privilege {
            UserPrivilegeType::Select => self.select,
            UserPrivilegeType::Insert => self.insert,
            UserPrivilegeType::Create => self.create,
            UserPrivilegeType::Drop => self.drop,
            UserPrivilegeType::Alter => self.alter,
            UserPrivilegeType::Super => self.superuser,
            UserPrivilegeType::Usage => self.usage,
            UserPrivilegeType::All => self.all,
        }
    }

    /// No privilege at all.
    pub fn empty() -> (p: UserPrivilege)
        ensures
            p@ == Set::<UserPrivilegeType>::empty(),
    {
        let p = UserPrivilege {
            select: false,
            insert: false,
            create: false,
            drop: false,
            alter: false,
            superuser: false,
            usage: false,
            all: false,
        };
        assert(p@ =~= Set::<UserPrivilegeType>::empty());
        p
    }

    /// Adds one privilege. Adding one that is held changes nothing.
    pub fn set_privilege(&mut self, privilege: UserPrivilegeType)
        ensures
            final(self)@ == old(self)@.insert(privilege),
    {
        match privilege {
            UserPrivilegeType::Select => {
                self.select = true;
            },
            UserPrivilegeType::Insert => {
                self.insert = true;
            },
            UserPrivilegeType::Create => {
                self.create = true;
            },
            UserPrivilegeType::Drop => {
                self.drop = true;
            },
            UserPrivilegeType::Alter => {
                self.alter = true;
            },
            UserPrivilegeType::Super => {
                self.superuser = true;
            },
            UserPrivilegeType::Usage => {
                self.usage = true;
            },
            UserPrivilegeType::All => {
                self.all = true;
            },
        }
        assert(self@ =~= old(self)@.insert(privilege));
    }

    /// Adds every privilege.
    pub fn set_all_privileges(&mut self)
        ensures
            final(self)@ == Set::<UserPrivilegeType>::full(),
    {
        self.select = true;
        self.insert = true;
        self.create = true;
        self.drop = true;
        self.alter = true;
        self.superuser = true;
        self.usage = true;
        self.all = true;
        assert(self@ =~= Set::<UserPrivilegeType>::full());
    }

    /// Whether the privilege is held.
    pub fn has_privilege(&self, privilege: UserPrivilegeType) -> (b: bool)
        ensures
            b == self@.contains(privilege),
    {
        match privilege {
            UserPrivilegeType::Select => self.select,
            UserPrivilegeType::Insert => self.insert,
            UserPrivilegeType::Create => self.create,
            UserPrivilegeType::Drop => self.drop,
            UserPrivilegeType::Alter => self.alter,
            UserPrivilegeType::Super => self.superuser,
            UserPrivilegeType::Usage => self.usage,
            UserPrivilegeType::All => self.all,
        }
    }

    /// The privileges of `self` together with those of `other`.
    pub fn union(&self, other: &UserPrivilege) -> (p: UserPrivilege)
        ensures
            p@ == self@.union(other@),
    {
        let p = UserPrivilege {
            select: self.select || other.select,
            insert: self.insert || other.insert,
            create: self.create || other.create,
            drop: self.drop || other.drop,
            alter: self.alter || other.alter,
            superuser: self.superuser || other.superuser,
            usage: self.usage || other.usage,
            all: self.all || other.all,
        };
        assert(p@ =~= self@.union(other@)) by {
            assert forall|t: UserPrivilegeType| p@.contains(t) == self@.union(other@).contains(
                t,
            ) by {
                assert(p.holds(t) == (self.holds(t) || other.holds(t)));
            }
        }
        p
    }
}

/// The limits set for a user; 0 stands for no limit.
#[derive(Clone, Copy, Debug, PartialEq, Eq, Structural)]
pub struct UserQuota {
    pub max_cpu: u64,
    pub max_memory_in_bytes: u64,
    pub max_storage_in_bytes: u64,
}

impl UserQuota {
    /// No limit of any kind.
    pub fn no_limit() -> (q: UserQuota)
        ensures
            q == (UserQuota { max_cpu: 0, max_memory_in_bytes: 0, max_storage_in_bytes: 0 }),
    {
        UserQuota { max_cpu: 0, max_memory_in_bytes: 0, max_storage_in_bytes: 0 }
    }
}

/// What is stored of a user. The name and the host together identify the
/// user; the host `%` stands for any host.
#[derive(Debug, PartialEq, Eq)]
pub struct UserInfo {
    pub name: String,
    pub hostname: String,
    pub password: Vec<u8>,
    pub auth_type: AuthType,
    pub privileges: UserPrivilege,
    pub quota: UserQuota,
}

/// The mathematical content of a `UserInfo`.
pub struct UserInfoSpec {
    pub name: Seq<char>,
    pub hostname: Seq<char>,
    pub password: Seq<u8>,
    pub auth_type: AuthType,
    pub privileges: Set<UserPrivilegeType>,
    pub quota: UserQuota,
}

impl View for UserInfo {
    type V = UserInfoSpec;

    open spec fn view(&self) -> UserInfoSpec {
        UserInfoSpec {
            name: self.name@,
            hostname: self.hostname@,
            password: self.password@,
            auth_type: self.auth_type,
            privileges: self.privileges@,
            quota: self.quota,
        }
    }
}

impl Clone for UserInfo {
    fn clone(&self) -> (r: Self)
        ensures
            r@ == self@,
    {
        UserInfo {
            name: self.name.clone(),
            hostname: self.hostname.clone(),
            password: self.password.clone(),
            auth_type: self.auth_type,
            privileges: self.privileges,
            quota: self.quota,
        }
    }
}

impl UserInfo {
    /// A user without privileges and without limits.
    pub fn new(name: String, hostname: String, password: Vec<u8>, auth_type: AuthType) -> (u:
        UserInfo)
        ensures
            u@ == (UserInfoSpec {
                name: name@,
                hostname: hostname@,
                password: password@,
                auth_type,
                privileges: Set::<UserPrivilegeType>::empty(),
                quota: UserQuota { max_cpu: 0, max_memory_in_bytes: 0, max_storage_in_bytes: 0 },
            }),
    {
        UserInfo {
            name,
            hostname,
            password,
            auth_type,
            privileges: UserPrivilege::empty(),
            quota: UserQuota::no_limit(),
        }
    }
}

} // verus!
