//! The credential store: one secret slot (the game-service access token).
//! `KeyringStore` keeps it in the platform's secret service under a fixed
//! (service, account) pair; `MemoryStore` keeps it in memory.

use vstd::prelude::*;

verus! {

/// Why the secret could not be read or written.
#[derive(Debug, Clone, Copy, PartialEq, Eq, Structural)]
pub enum StoreError {
    /// Nothing was ever stored: the user has never signed in.
    NotFound,
    /// The platform's secret service cannot be reached, so the state of the
    /// credential is unknown.
    BackendUnavailable,
}

/// What `get` answers for a slot.
pub open spec fn get_outcome(slot: Option<Seq<char>>) -> Result<Seq<char>, StoreError> {
    match slot {
        Some(s) => Ok(s),
        None => Err(StoreError::NotFound),
    }
}

pub open spec fn result_view(r: Result<String, StoreError>) -> Result<Seq<char>, StoreError> {
    match r {
        Ok(s) => Ok(s@),
        Err(e) => Err(e),
    }
}

/// Service name of the platform entry.
pub const CREDENTIAL_SERVICE: &'static str = "minecraft_auth";

/// Account name of the platform entry.
pub const CREDENTIAL_ACCOUNT: &'static str = "minecraft_user";

/// A credential slot held in memory.
pub struct MemoryStore {
    secret: Option<String>,
}

impl View for MemoryStore {
    type V = Option<Seq<char>>;

    closed spec fn view(&self) -> Option<Seq<char>> {
        match self.secret {
            Some(s) => Some(s@),
            None => None,
        }
    }
}

impl MemoryStore {
    /// An empty slot.
    pub fn new() -> (r: MemoryStore)
        ensures
            r@ is None,
    {
        MemoryStore { secret: None }
    }

    /// Stores `secret`, replacing what was there.
    pub fn put(&mut self, secret: &str) -> (r: Result<(), StoreError>)
        ensures
            r is Ok,
            final(self)@ == Some(secret@),
    {
        self.secret = Some(secret.to_owned());
        Ok(())
    }

    /// The stored secret, or `NotFound`.
    pub fn get(&self) -> (r: Result<String, StoreError>)
        ensures
            result_view(r) == get_outcome(self@),
    {
        match &self.secret {
            Some(s) => Ok(s.clone()),
            None => Err(StoreError::NotFound),
        }
    }
}

/// An empty store answers `NotFound`, and after `put(s)` it answers `s`
/// exactly.
pub proof fn lemma_store_round_trip(secret: Seq<char>)
    ensures
        get_outcome(None) == Err::<Seq<char>, StoreError>(StoreError::NotFound),
        get_outcome(Some(secret)) == Ok::<Seq<char>, StoreError>(secret),
{
}

#[verifier::external_type_specification]
#[verifier::external_body]
pub struct ExEntry(keyring::Entry);

/// Relies on `keyring::Entry::new`: a handle on the platform entry for
/// (service, user); any failure means the store cannot be used.
#[verifier::external_body]
fn open_entry(service: &str, user: &str) -> (r: Result<keyring::Entry, StoreError>)
    ensures
        r is Err ==> r->Err_0 == StoreError::BackendUnavailable,
{
    keyring::Entry::new(service, user).map_err(|_| StoreError::BackendUnavailable)
}

/// Relies on `keyring::Entry::set_password`: writes the secret; any failure
/// is the platform's.
#[verifier::external_body]
fn entry_set(entry: &keyring::Entry, secret: &str) -> (r: Result<(), StoreError>)
    ensures
        r is Err ==> r->Err_0 == StoreError::BackendUnavailable,
{
    entry.set_password(secret).map_err(|_| StoreError::BackendUnavailable)
}

/// Relies on `keyring::Entry::get_password`: the stored secret, `NoEntry`
/// where none was stored, any other error where the platform failed.
#[verifier::external_body]
fn entry_get(entry: &keyring::Entry) -> (r: Result<String, StoreError>) {
    match entry.get_password() {
        Ok(s) => Ok(s),
        Err(keyring::Error::NoEntry) => Err(StoreError::NotFound),
        Err(_) => Err(StoreError::BackendUnavailable),
    }
}

/// The credential slot in the platform's secret service.
pub struct KeyringStore {
    entry: keyring::Entry,
}

impl KeyringStore {
    /// Opens the entry at the fixed (service, account) pair.
    pub fn open() -> (r: Result<KeyringStore, StoreError>)
        ensures
            r is Err ==> r->Err_0 == StoreError::BackendUnavailable,
    {
        match open_entry(CREDENTIAL_SERVICE, CREDENTIAL_ACCOUNT) {
            Ok(entry) => Ok(KeyringStore { entry }),
            Err(e) => Err(e),
        }
    }

    /// Stores `secret`, replacing what was there.
    pub fn put(&self, secret: &str) -> (r: Result<(), StoreError>)
        ensures
            r is Err ==> r->Err_0 == StoreError::BackendUnavailable,
    {
        entry_set(&self.entry, secret)
    }

    /// The stored secret; `NotFound` where none was ever stored.
    pub fn get(&self) -> (r: Result<String, StoreError>) {
        entry_get(&self.entry)
    }
}

} // verus!
