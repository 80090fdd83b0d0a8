use fuse_query::datavalues::data_type::DataType;
use fuse_query::datavalues::data_value::DataValue;
use fuse_query::errors::ErrorKind;
use fuse_query::system::users_table::UsersTable;
use fuse_query::catalogs::table_info::TableIdent;
use fuse_query::users::user::CertifiedInfo;
use fuse_query::users::user::User;
use fuse_query::users::user_info::host_or_wildcard;
use fuse_query::users::user_info::AuthType;
use fuse_query::users::user_info::UserInfo;
use fuse_query::users::user_info::UserPrivilege;
use fuse_query::users::user_info::UserPrivilegeType;
use fuse_query::users::user_info::UserQuota;
use fuse_query::users::user_manager::UserMgr;

const ALL_TYPES: [UserPrivilegeType; 8] = [
    UserPrivilegeType::Select,
    UserPrivilegeType::Insert,
    UserPrivilegeType::Create,
    UserPrivilegeType::Drop,
    UserPrivilegeType::Alter,
    UserPrivilegeType::Super,
    UserPrivilegeType::Usage,
    UserPrivilegeType::All,
];

/// SHA-256 of the one-letter password "p".
fn sha256_of_p() -> Vec<u8> {
    vec![
        0x14, 0x8d, 0xe9, 0xc5, 0xa7, 0xa4, 0x4d, 0x19, 0xe5, 0x6c, 0xd9, 0xae, 0x1a, 0x55, 0x4b, 0xf6,
        0x78, 0x47, 0xaf, 0xb0, 0xc5, 0x8f, 0x6e, 0x12, 0xfa, 0x29, 0xac, 0x7d, 0xdf, 0xca, 0x99, 0x40,
    ]
}

fn privileges(types: &[UserPrivilegeType]) -> UserPrivilege {
    let mut p = UserPrivilege::empty();
    for t in types {
        p.set_privilege(*t);
    }
    p
}

#[test]
fn test_user_to_user_info() {
    let user = User::new("test", "localhost", "password", AuthType::Sha256);
    assert_eq!(user.name, "test");
    let info = user.to_user_info();
    assert_eq!(info, UserInfo {
        name: "test".to_string(),
        hostname: "localhost".to_string(),
        password: b"password".to_vec(),
        auth_type: AuthType::Sha256,
        privileges: UserPrivilege::empty(),
        quota: UserQuota::no_limit(),
    });
    let user = User::new("ü", "%", "pä", AuthType::PlainText);
    assert_eq!(user.to_user_info().password, "pä".as_bytes().to_vec());
    assert_eq!(user.clone(), user);
    assert_eq!(UserQuota::no_limit(), UserQuota { max_cpu: 0, max_memory_in_bytes: 0, max_storage_in_bytes: 0 });
}

#[test]
fn test_certified_info() {
    let info = CertifiedInfo::create("root", &[1u8, 2, 3], "127.0.0.1");
    assert_eq!(info.user_name, "root");
    assert_eq!(info.user_password, vec![1, 2, 3]);
    assert_eq!(info.user_client_address, "127.0.0.1");
    let info = CertifiedInfo::create("", "pass".as_bytes(), "");
    assert_eq!(info.user_password, b"pass".to_vec());
    assert_eq!(info.user_name, "");
}

#[test]
fn test_auth_types() {
    assert_eq!(AuthType::NoPassword.name(), "no_password");
    assert_eq!(AuthType::PlainText.name(), "plaintext_password");
    assert_eq!(AuthType::Sha256.name(), "sha256_password");
    assert_eq!(AuthType::DoubleSha1.name(), "double_sha1_password");
    let codes: Vec<u8> = [AuthType::NoPassword, AuthType::PlainText, AuthType::Sha256, AuthType::DoubleSha1]
        .iter()
        .map(|a| a.code())
        .collect();
    assert_eq!(codes, vec![0, 1, 2, 3]);
}

#[test]
fn test_privileges() {
    let mut p = UserPrivilege::empty();
    for t in ALL_TYPES {
        assert!(!p.has_privilege(t));
    }
    p.set_privilege(UserPrivilegeType::Select);
    p.set_privilege(UserPrivilegeType::Create);
    for t in ALL_TYPES {
        assert_eq!(p.has_privilege(t), matches!(t, UserPrivilegeType::Select | UserPrivilegeType::Create));
    }
    // the order of grants does not matter, and a second grant changes nothing
    let mut q = UserPrivilege::empty();
    q.set_privilege(UserPrivilegeType::Create);
    q.set_privilege(UserPrivilegeType::Select);
    q.set_privilege(UserPrivilegeType::Create);
    assert_eq!(p, q);
    let mut all = UserPrivilege::empty();
    all.set_all_privileges();
    for t in ALL_TYPES {
        assert!(all.has_privilege(t));
    }
    assert_eq!(p.union(&all), all);
    assert_eq!(p.union(&UserPrivilege::empty()), p);
    assert_eq!(
        privileges(&[UserPrivilegeType::Insert]).union(&privileges(&[UserPrivilegeType::Drop])),
        privileges(&[UserPrivilegeType::Drop, UserPrivilegeType::Insert])
    );
}

#[test]
fn test_create_user_is_stored_and_listed() {
    // CREATE USER 'u'@'%' IDENTIFIED BY 'p': the password is hashed with SHA-256 before it is stored
    let mut users = UserMgr::new();
    let info = UserInfo::new("u".to_string(), "%".to_string(), sha256_of_p(), AuthType::Sha256);
    let seq = users.add_user(info.clone()).unwrap();
    assert_eq!(seq, 1);
    let stored = users.get_user("u".to_string(), "%".to_string(), None).unwrap();
    assert_eq!(stored.seq, 1);
    assert_eq!(stored.data.name, "u");
    assert_eq!(stored.data.hostname, "%");
    assert_eq!(stored.data.password, sha256_of_p());
    assert_eq!(stored.data.auth_type, AuthType::Sha256);
    assert_eq!(stored.data.privileges, UserPrivilege::empty());

    // SHOW TABLES FROM system includes users
    let table = UsersTable::create(3);
    assert_eq!(table.get_table_info().name, "users");
    assert_eq!(table.get_table_info().desc, "'system'.'users'");

    // SELECT name, hostname FROM system.users
    let all: Vec<UserInfo> = users.get_users().unwrap().into_iter().map(|u| u.data).collect();
    let mut stream = table.read(&all).unwrap();
    let block = stream.poll_next().unwrap();
    assert!(stream.poll_next().is_none());
    assert!(block.is_well_formed());
    assert_eq!(block.num_rows(), 1);
    assert_eq!(block.column(0).get(0), DataValue::String(Some(b"u".to_vec())));
    assert_eq!(block.column(1).get(0), DataValue::String(Some(b"%".to_vec())));
    assert_eq!(block.column(2).get(0), DataValue::String(Some(sha256_of_p())));
    assert_eq!(block.column(3).get(0), DataValue::UInt8(Some(2)));
}

#[test]
fn test_users_table() {
    let table = UsersTable::create(42);
    let info = table.get_table_info();
    assert_eq!(info.ident, TableIdent::new(42, 0));
    assert_eq!(info.engine(), "SystemUsers");
    assert!(info.meta.options.is_empty());
    let fields: Vec<(String, DataType, bool)> = info
        .schema()
        .fields()
        .iter()
        .map(|f| (f.name().clone(), f.data_type(), f.is_nullable()))
        .collect();
    assert_eq!(fields, vec![
        ("name".to_string(), DataType::String, false),
        ("hostname".to_string(), DataType::String, false),
        ("password".to_string(), DataType::String, true),
        ("auth_type".to_string(), DataType::UInt8, false),
    ]);

    let users = vec![
        UserInfo::new("a".to_string(), "localhost".to_string(), vec![], AuthType::NoPassword),
        UserInfo::new("b".to_string(), "%".to_string(), vec![0xff, 0x00], AuthType::DoubleSha1),
        UserInfo::new("c".to_string(), "10.0.0.1".to_string(), b"pw".to_vec(), AuthType::PlainText),
    ];
    let block = UsersTable::users_block(&users);
    assert!(block.schema().same_as(info.schema()));
    assert_eq!(block.num_rows(), 3);
    let text = |s: &str| DataValue::String(Some(s.as_bytes().to_vec()));
    assert_eq!(block.column(0).to_array().values, vec![text("a"), text("b"), text("c")]);
    assert_eq!(block.column(1).to_array().values, vec![text("localhost"), text("%"), text("10.0.0.1")]);
    assert_eq!(block.column(2).to_array().values, vec![
        DataValue::String(Some(vec![])),
        DataValue::String(Some(vec![0xff, 0x00])),
        text("pw"),
    ]);
    assert_eq!(block.column(3).to_array().values, vec![
        DataValue::UInt8(Some(0)),
        DataValue::UInt8(Some(3)),
        DataValue::UInt8(Some(1)),
    ]);
    let empty = UsersTable::users_block(&vec![]);
    assert_eq!(empty.num_rows(), 0);
    assert_eq!(empty.num_columns(), 4);
}

#[test]
fn test_user_key_is_name_and_host() {
    let mut users = UserMgr::new();
    let user = |name: &str, host: &str| UserInfo::new(name.to_string(), host.to_string(), vec![], AuthType::NoPassword);
    assert_eq!(users.add_user(user("u", "%")).unwrap(), 1);
    assert_eq!(users.add_user(user("u", "localhost")).unwrap(), 2);
    assert_eq!(users.add_user(user("v", "%")).unwrap(), 3);
    let err = users.add_user(user("u", "%")).unwrap_err();
    assert_eq!(err.kind, ErrorKind::AlreadyExists);
    assert_eq!(users.get_users().unwrap().len(), 3);
    assert_eq!(users.get_user("u".to_string(), "localhost".to_string(), None).unwrap().seq, 2);
    let err = users.get_user("u".to_string(), "elsewhere".to_string(), None).unwrap_err();
    assert_eq!(err.kind, ErrorKind::NotFound);
    // names are not folded
    assert_eq!(users.get_user("U".to_string(), "%".to_string(), None).unwrap_err().kind, ErrorKind::NotFound);
}

#[test]
fn test_grant_is_idempotent() {
    // GRANT SELECT, CREATE ON db1.* TO 'u'@'%'
    let mut users = UserMgr::new();
    users.add_user(UserInfo::new("u".to_string(), "%".to_string(), sha256_of_p(), AuthType::Sha256)).unwrap();
    let granted = privileges(&[UserPrivilegeType::Select, UserPrivilegeType::Create]);
    let seq = users.set_user_privileges("u".to_string(), "%".to_string(), granted, None).unwrap();
    assert_eq!(seq, Some(2));
    // SHOW GRANTS FOR 'u'@'%'
    let shown = users.get_user("u".to_string(), "%".to_string(), None).unwrap().data.privileges;
    for t in ALL_TYPES {
        assert_eq!(shown.has_privilege(t), matches!(t, UserPrivilegeType::Select | UserPrivilegeType::Create));
    }
    // granting again
    users.set_user_privileges("u".to_string(), "%".to_string(), granted, None).unwrap();
    let again = users.get_user("u".to_string(), "%".to_string(), None).unwrap().data;
    assert_eq!(again.privileges, shown);
    assert_eq!(again.password, sha256_of_p());
    // a further grant adds to what is held
    users.set_user_privileges("u".to_string(), "%".to_string(), privileges(&[UserPrivilegeType::Insert]), None).unwrap();
    let more = users.get_user("u".to_string(), "%".to_string(), None).unwrap().data.privileges;
    assert_eq!(more, privileges(&[UserPrivilegeType::Select, UserPrivilegeType::Create, UserPrivilegeType::Insert]));
    let err = users.set_user_privileges("x".to_string(), "%".to_string(), granted, None).unwrap_err();
    assert_eq!(err.kind, ErrorKind::NotFound);
}

#[test]
fn test_update_and_drop_user() {
    let mut users = UserMgr::new();
    users.add_user(UserInfo::new("u".to_string(), "%".to_string(), b"old".to_vec(), AuthType::PlainText)).unwrap();
    users.add_user(UserInfo::new("v".to_string(), "%".to_string(), vec![], AuthType::NoPassword)).unwrap();
    // nothing to change: the number handed in comes back
    assert_eq!(users.update_user("u".to_string(), "%".to_string(), None, None, Some(77)).unwrap(), Some(77));
    assert_eq!(users.update_user("nobody".to_string(), "%".to_string(), None, None, None).unwrap(), None);
    let seq = users
        .update_user("u".to_string(), "%".to_string(), Some(b"new".to_vec()), None, Some(1))
        .unwrap();
    assert_eq!(seq, Some(3));
    let stored = users.get_user("u".to_string(), "%".to_string(), Some(3)).unwrap();
    assert_eq!(stored.data.password, b"new".to_vec());
    assert_eq!(stored.data.auth_type, AuthType::PlainText);
    // the user has changed since it was seen under the number 1
    let err = users
        .update_user("u".to_string(), "%".to_string(), None, Some(AuthType::Sha256), Some(1))
        .unwrap_err();
    assert_eq!(err.kind, ErrorKind::NotFound);
    assert_eq!(users.get_user("u".to_string(), "%".to_string(), Some(1)).unwrap_err().kind, ErrorKind::NotFound);
    users.update_user("u".to_string(), "%".to_string(), None, Some(AuthType::Sha256), Some(3)).unwrap();
    let stored = users.get_user("u".to_string(), "%".to_string(), None).unwrap();
    assert_eq!((stored.seq, stored.data.auth_type), (4, AuthType::Sha256));
    assert_eq!(stored.data.password, b"new".to_vec());
    // the order of the users stays
    let names: Vec<String> = users.get_users().unwrap().into_iter().map(|u| u.data.name).collect();
    assert_eq!(names, vec!["u".to_string(), "v".to_string()]);

    assert_eq!(users.drop_user("u".to_string(), "%".to_string(), Some(1)).unwrap_err().kind, ErrorKind::NotFound);
    users.drop_user("u".to_string(), "%".to_string(), Some(4)).unwrap();
    assert_eq!(users.get_user("u".to_string(), "%".to_string(), None).unwrap_err().kind, ErrorKind::NotFound);
    assert_eq!(users.drop_user("u".to_string(), "%".to_string(), None).unwrap_err().kind, ErrorKind::NotFound);
    assert_eq!(users.get_users().unwrap().len(), 1);
    // a dropped user can be added again, under a new number
    assert_eq!(users.add_user(UserInfo::new("u".to_string(), "%".to_string(), vec![], AuthType::NoPassword)).unwrap(), 5);
}

#[test]
fn test_auth_type_names() {
    for kind in [AuthType::NoPassword, AuthType::PlainText, AuthType::Sha256, AuthType::DoubleSha1] {
        assert_eq!(AuthType::from_name(kind.name()), Some(kind));
        assert_eq!(AuthType::from_name(&kind.name().to_uppercase()), Some(kind));
        assert_eq!(AuthType::identified_with(Some(kind.name())), Some(kind));
    }
    assert_eq!(AuthType::from_name("sha256"), None);
    assert_eq!(AuthType::from_name(""), None);
    assert_eq!(AuthType::from_name("sha256_password "), None);
    // IDENTIFIED BY '...' without a kind
    assert_eq!(AuthType::identified_with(None), Some(AuthType::Sha256));
    assert_eq!(AuthType::identified_with(Some("md5_password")), None);
}

#[test]
fn test_host_defaults_to_wildcard() {
    assert_eq!(host_or_wildcard(None), "%");
    assert_eq!(host_or_wildcard(Some("localhost")), "localhost");
    assert_eq!(host_or_wildcard(Some("127.0.0.1")), "127.0.0.1");
    assert_eq!(host_or_wildcard(Some("")), "");
}
