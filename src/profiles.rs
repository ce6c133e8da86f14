//! Connection profiles and the names under which they are kept: the profile
//! file in the configuration directory and the keychain account of each
//! saved password.

use vstd::prelude::*;
use crate::render::{hyphenated, uuid_text};
use crate::text::push_char;

verus! {

/// The identity of a profile: the sixteen bytes of a UUID.
#[derive(Clone, Copy, Debug, PartialEq, Eq, Hash)]
pub struct ProfileId {
    pub bytes: [u8; 16],
}

/// Relies on uuid's `Uuid::new_v4` and `Uuid::into_bytes`: random bytes,
/// except that the version nibble is 4 and the variant bits are `10`.
#[verifier::external_body]
fn random_v4_bytes() -> (r: [u8; 16])
    ensures
        r@[6] / 16 == 4,
        r@[8] / 64 == 2,
{
    uuid::Uuid::new_v4().into_bytes()
}

impl ProfileId {
    /// A fresh random (version 4) identity.
    pub fn new_v4() -> (r: ProfileId)
        ensures
            r.bytes@[6] / 16 == 4,
            r.bytes@[8] / 64 == 2,
    {
        ProfileId { bytes: random_v4_bytes() }
    }

    /// The hyphenated lowercase form of the identity.
    pub fn to_text(&self) -> (r: String)
        ensures
            r@ == hyphenated(self.bytes@),
    {
        uuid_text(self.bytes)
    }
}

/// Where and as whom to connect.
#[derive(Clone, Debug)]
pub struct ConnectionProfile {
    pub id: ProfileId,
    pub name: String,
    pub host: String,
    pub port: u16,
    pub database: String,
    pub username: String,
    /// Whether the password is kept in the keychain.
    pub remember_password: bool,
}

impl ConnectionProfile {
    /// A profile with a fresh random identity.
    pub fn new(
        name: String,
        host: String,
        port: u16,
        database: String,
        username: String,
        remember_password: bool,
    ) -> (r: ConnectionProfile)
        ensures
            r.id.bytes@[6] / 16 == 4,
            r.id.bytes@[8] / 64 == 2,
            r.name == name,
            r.host == host,
            r.port == port,
            r.database == database,
            r.username == username,
            r.remember_password == remember_password,
    {
        ConnectionProfile {
            id: ProfileId::new_v4(),
            name,
            host,
            port,
            database,
            username,
            remember_password,
        }
    }
}

/// The file name of the profile list.
pub const PROFILES_FILE: &'static str = "profiles.json";

/// The path of the profile list inside a configuration directory: the file
/// name joined to the directory with one `/` between them.
pub open spec fn profiles_path(config_dir: Seq<char>) -> Seq<char> {
    if config_dir.len() == 0 {
        PROFILES_FILE@
    } else if config_dir.last() == '/' {
        config_dir + PROFILES_FILE@
    } else {
        config_dir.push('/') + PROFILES_FILE@
    }
}

/// The location of the saved profile list.
pub struct ProfileStore {
    path: String,
}

impl View for ProfileStore {
    type V = Seq<char>;

    /// The path of the profile list.
    closed spec fn view(&self) -> Seq<char> {
        self.path@
    }
}

impl ProfileStore {
    /// The profile list of a configuration directory.
    pub fn new(config_dir: &str) -> (r: ProfileStore)
        ensures
            r@ == profiles_path(config_dir@),
    {
        let n = config_dir.unicode_len();
        let mut path = String::from_str(config_dir);
        if n > 0 && config_dir.get_char(n - 1) != '/' {
            push_char(&mut path, '/');
        }
        path.append(PROFILES_FILE);
        ProfileStore { path }
    }

    /// Where the profile list is kept.
    pub fn path(&self) -> (r: &str)
        ensures
            r@ == self@,
    {
        self.path.as_str()
    }
}

/// The keychain service under which passwords are saved.
pub const SERVICE_NAME: &'static str = "DbMiru";

/// The keychain account of a profile's password: its identity, a colon, and
/// the user name.
pub open spec fn account_of(id: ProfileId, username: Seq<char>) -> Seq<char> {
    hyphenated(id.bytes@) + seq![':'] + username
}

/// The keychain service that holds saved passwords.
pub struct SecretStore {
    service_name: String,
}

impl View for SecretStore {
    type V = Seq<char>;

    /// The keychain service name.
    closed spec fn view(&self) -> Seq<char> {
        self.service_name@
    }
}

impl SecretStore {
    pub fn new() -> (r: SecretStore)
        ensures
            r@ == SERVICE_NAME@,
    {
        SecretStore { service_name: String::from_str(SERVICE_NAME) }
    }

    /// The keychain service name.
    pub fn service_name(&self) -> (r: &str)
        ensures
            r@ == self@,
    {
        self.service_name.as_str()
    }

    /// The keychain account that holds the password of a profile and user.
    pub fn account(&self, profile_id: &ProfileId, username: &str) -> (r: String)
        ensures
            r@ == account_of(*profile_id, username@),
    {
        let mut out = profile_id.to_text();
        push_char(&mut out, ':');
        out.append(username);
        out
    }
}

impl Default for SecretStore {
    fn default() -> (r: SecretStore)
        ensures
            r@ == SERVICE_NAME@,
    {
        SecretStore::new()
    }
}

} // verus!
