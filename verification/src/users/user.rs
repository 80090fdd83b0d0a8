//! A user as a statement names it, and the credentials of a login.

use vstd::prelude::*;
use vstd::slice::slice_to_vec;
use vstd::utf8::encode_utf8;
use crate::users::user_info::AuthType;
use crate::users::user_info::UserInfo;
use crate::users::user_info::UserInfoSpec;
use crate::users::user_info::UserPrivilegeType;
use crate::users::user_info::UserQuota;

verus! {

/// A user as a statement names it: name, host, password and the kind of
/// the password.
#[derive(Debug, PartialEq, Eq, PartialOrd, Ord)]
pub struct User {
    pub name: String,
    pub hostname: String,
    pub password: String,
    pub auth_type: AuthType,
}

/// The mathematical content of a `User`.
pub struct UserSpec {
    pub name: Seq<char>,
    pub hostname: Seq<char>,
    pub password: Seq<char>,
    pub auth_type: AuthType,
}

impl View for User {
    type V = UserSpec;

    open spec fn view(&self) -> UserSpec {
        UserSpec {
            name: self.name@,
            hostname: self.hostname@,
            password: self.password@,
            auth_type: self.auth_type,
        }
    }
}

/// What is stored of a new user: the password as the UTF-8 bytes of its text, no
/// privileges and no limits.
pub open spec fn stored_as(user: &User) -> UserInfoSpec {
    UserInfoSpec {
        name: user.name@,
        hostname: user.hostname@,
        password: encode_utf8(user.password@),
        auth_type: user.auth_type,
        privileges: Set::<UserPrivilegeType>::empty(),
        quota: UserQuota { max_cpu: 0, max_memory_in_bytes: 0, max_storage_in_bytes: 0 },
    }
}

impl Clone for User {
    fn clone(&self) -> (r: Self)
        ensures
            r@ == self@,
    {
        User {
            name: self.name.clone(),
            hostname: self.hostname.clone(),
            password: self.password.clone(),
            auth_type: self.auth_type,
        }
    }
}

impl User {
    pub fn new(name: &str, hostname: &str, password: &str, auth_type: AuthType) -> (u: User)
        ensures
            u@ == (UserSpec { name: name@, hostname: hostname@, password: password@, auth_type }),
    {
        User {
            name: String::from_str(name),
            hostname: String::from_str(hostname),
            password: String::from_str(password),
            auth_type,
        }
    }

    /// What is stored of the user when it is created.
    pub fn to_user_info(&self) -> (info: UserInfo)
        ensures
            info@ == stored_as(self),
    {
        UserInfo::new(
            self.name.clone(),
            self.hostname.clone(),
            self.password.as_str().as_bytes_vec(),
            self.auth_type,
        )
    }
}

/// What a client presents when it logs in.
#[derive(Debug, PartialEq, Eq)]
pub struct CertifiedInfo {
    pub user_name: String,
    pub user_password: Vec<u8>,
    pub user_client_address: String,
}

impl CertifiedInfo {
    pub fn create(user: &str, password: &[u8], address: &str) -> (c: CertifiedInfo)
        ensures
            c.user_name@ == user@,
            c.user_password@ == password@,
            c.user_client_address@ == address@,
    {
        CertifiedInfo {
            user_name: String::from_str(user),
            user_password: slice_to_vec(password),
            user_client_address: String::from_str(address),
        }
    }
}

} // verus!
