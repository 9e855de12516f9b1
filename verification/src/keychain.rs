//! The secret store: per-user, per-namespace secret get/set/delete, backed
//! by the platform keyring. The service name is
//! `bott_cli_service:<namespace>:<key>` and the entry is scoped to the
//! current OS user.

use vstd::prelude::*;

use crate::errors::{BottError, BottResult};

verus! {

#[verifier::external_type_specification]
#[verifier::external_body]
pub struct ExEntry(keyring::Entry);

/// Relies on users::get_current_uid and users::get_user_by_uid: the name of
/// the user running this process. The result depends on the machine, so
/// nothing is promised of it.
#[verifier::external_body]
fn current_username() -> (r: Option<String>) {
    match users::get_user_by_uid(users::get_current_uid()) {
        Some(u) => Some(u.name().to_string_lossy().to_string()),
        None => None,
    }
}

/// Relies on keyring::Entry::new: builds the credential handle for the pair
/// (service, user); it does not touch the stored secret itself.
#[verifier::external_body]
fn entry_new(service: &str, user: &str) -> (r: Result<keyring::Entry, BottError>)
    ensures
        r matches Err(e) ==> e == BottError::KeychainLoad,
{
    match keyring::Entry::new(service, user) {
        Ok(e) => Ok(e),
        Err(_) => Err(BottError::KeychainLoad),
    }
}

/// Relies on keyring::Entry::get_password: reads the stored secret; what
/// comes back depends on the platform store, so only the error is pinned.
#[verifier::external_body]
fn entry_get_password(entry: &keyring::Entry) -> (r: Result<String, BottError>)
    ensures
        r matches Err(e) ==> e == BottError::KeychainGet,
{
    match entry.get_password() {
        Ok(p) => Ok(p),
        Err(_) => Err(BottError::KeychainGet),
    }
}

/// Relies on keyring::Entry::set_password: stores the secret in the
/// platform store.
#[verifier::external_body]
fn entry_set_password(entry: &keyring::Entry, value: &str) -> (r: Result<(), BottError>)
    ensures
        r matches Err(e) ==> e == BottError::KeychainSet,
{
    match entry.set_password(value) {
        Ok(_) => Ok(()),
        Err(_) => Err(BottError::KeychainSet),
    }
}

/// Relies on keyring::Entry::delete_password: removes the secret from the
/// platform store.
#[verifier::external_body]
fn entry_delete_password(entry: &keyring::Entry) -> (r: Result<(), BottError>)
    ensures
        r matches Err(e) ==> e == BottError::KeychainDelete,
{
    match entry.delete_password() {
        Ok(_) => Ok(()),
        Err(_) => Err(BottError::KeychainDelete),
    }
}

/// A handle on the secret store for one namespace (the backend name) and
/// the current OS user.
pub struct Keychain {
    pub user: String,
    pub namespace: String,
}

impl Keychain {
    /// Opens the secret store for `namespace` as the current OS user.
    pub fn load(namespace: &str) -> (r: BottResult<Keychain>)
        ensures
            r matches Ok(k) ==> k.namespace@ == namespace@,
            r matches Err(e) ==> e == BottError::KeychainLoad,
    {
        match current_username() {
            Some(user) => Ok(Keychain { user, namespace: String::from_str(namespace) }),
            None => Err(BottError::KeychainLoad),
        }
    }

    /// The service identifier under which `key` is stored for this
    /// namespace.
    pub open spec fn service_spec(&self, key: Seq<char>) -> Seq<char> {
        "bott_cli_service:"@ + self.namespace@ + ":"@ + key
    }

    fn service_string(&self, key: &str) -> (r: String)
        ensures
            r@ == self.service_spec(key@),
    {
        let mut r = String::from_str("bott_cli_service:");
        r.append(self.namespace.as_str());
        r.append(":");
        r.append(key);
        r
    }

    /// Reads the secret stored under `key`. On success the secret is always
    /// present; a missing secret surfaces as a get failure, as the platform
    /// store reports it.
    pub fn get(&self, key: &str) -> (r: BottResult<Option<String>>)
        ensures
            r matches Ok(p) ==> p is Some,
            r matches Err(e) ==> e == BottError::KeychainLoad || e == BottError::KeychainGet,
    {
        let service = self.service_string(key);
        match entry_new(service.as_str(), self.user.as_str()) {
            Ok(entry) => match entry_get_password(&entry) {
                Ok(p) => Ok(Some(p)),
                Err(e) => Err(e),
            },
            Err(e) => Err(e),
        }
    }

    /// Stores `value` as the secret under `key`.
    pub fn set(&self, key: &str, value: &str) -> (r: BottResult<()>)
        ensures
            r matches Err(e) ==> e == BottError::KeychainLoad || e == BottError::KeychainSet,
    {
        let service = self.service_string(key);
        match entry_new(service.as_str(), self.user.as_str()) {
            Ok(entry) => entry_set_password(&entry, value),
            Err(e) => Err(e),
        }
    }

    /// Removes the secret stored under `key`.
    pub fn delete(&self, key: &str) -> (r: BottResult<()>)
        ensures
            r matches Err(e) ==> e == BottError::KeychainLoad || e == BottError::KeychainDelete,
    {
        let service = self.service_string(key);
        match entry_new(service.as_str(), self.user.as_str()) {
            Ok(entry) => entry_delete_password(&entry),
            Err(e) => Err(e),
        }
    }
}

} // verus!
