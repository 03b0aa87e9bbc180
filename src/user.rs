use std::collections::HashSet;
use vstd::prelude::*;

verus! {

/// Lifecycle state of an account.
#[derive(Clone, Copy, Debug, PartialEq, Eq, Hash, Structural)]
pub enum UserStatus {
    Active,
    Banned,
}

/// A point in time, as nanoseconds since the Unix epoch (UTC).
#[derive(Clone, Copy, Debug, PartialEq, Eq, Hash, Structural)]
pub struct Timestamp {
    pub unix_nanos: i128,
}

/// The version field of a 128-bit identifier laid out big-endian.
pub open spec fn id_version(id: u128) -> u128 {
    (id >> 76u128) & 0xfu128
}

/// The two variant bits of a 128-bit identifier laid out big-endian.
pub open spec fn id_variant(id: u128) -> u128 {
    (id >> 62u128) & 0x3u128
}

/// A random (version 4, RFC 4122 variant) identifier.
pub open spec fn is_random_id(id: u128) -> bool {
    id_version(id) == 4 && id_variant(id) == 2
}

/// Relies on uuid::Uuid::new_v4 and Uuid::as_u128: fresh random bits with the
/// version nibble set to 4 and the variant bits set to `10`. The crate panics
/// only when the operating system gives no random bytes.
#[verifier::external_body]
fn random_id() -> (r: u128)
    ensures
        is_random_id(r),
{
    uuid::Uuid::new_v4().as_u128()
}

/// Relies on time::OffsetDateTime::now_utc and unix_timestamp_nanos: the
/// current time of the system clock. Nothing is known of its value.
#[verifier::external_body]
fn now() -> (r: Timestamp) {
    Timestamp { unix_nanos: time::OffsetDateTime::now_utc().unix_timestamp_nanos() }
}

/// One account.
#[derive(Debug)]
pub struct User {
    pub unid: u128,
    pub created: Timestamp,
    pub first_name: Option<String>,
    pub hash: String,
    pub last_failed_login: Option<Timestamp>,
    pub last_login: Option<Timestamp>,
    pub last_password_change: Timestamp,
    pub last_name: Option<String>,
    pub login: String,
    pub roles: HashSet<String>,
    pub site_schema: Option<String>,
    pub status: UserStatus,
    pub theme: String,
}

/// An optional string field holds exactly the given text.
pub open spec fn holds_text(field: Option<String>, text: Seq<char>) -> bool {
    match field {
        Some(s) => s@ == text,
        None => false,
    }
}

/// The record that the accessor synthesizes, apart from its identifier and
/// its two clock readings.
pub open spec fn is_default_record(u: User) -> bool {
    &&& is_random_id(u.unid)
    &&& holds_text(u.first_name, "Bob"@)
    &&& u.hash@ == "asdf"@
    &&& u.last_failed_login is None
    &&& u.last_login is None
    &&& u.last_name is None
    &&& u.login@ == "bob@bob.bob"@
    &&& u.roles@ == Set::<String>::empty()
    &&& u.site_schema is None
    &&& u.status == UserStatus::Active
    &&& u.theme@ == "dark"@
}

impl User {
    /// Synthesizes the fixed account record: a fresh random identifier, the
    /// current time as creation and password-change time, and no roles.
    pub fn get_user() -> (u: User)
        ensures
            is_default_record(u),
    {
        let unid = random_id();
        let created = now();
        let last_password_change = now();
        User {
            unid,
            created,
            first_name: Some("Bob".to_string()),
            hash: "asdf".to_string(),
            last_failed_login: None,
            last_login: None,
            last_password_change,
            last_name: None,
            login: "bob@bob.bob".to_string(),
            roles: HashSet::new(),
            site_schema: None,
            status: UserStatus::Active,
            theme: "dark".to_string(),
        }
    }
}

/// The accessor behind the form's fetch. In this library it never fails and
/// always finds the synthesized record.
pub fn fetch_user() -> (r: Result<Option<User>, String>)
    ensures
        match r {
            Ok(Some(u)) => is_default_record(u),
            _ => false,
        },
{
    Ok(Some(User::get_user()))
}

} // verus!
