//! Credential storage for provider API keys. Keys live in a credential store (the OS keyring in
//! the shipped client), never in the settings file. Selection code depends only on the
//! [`CredentialStore`] trait, so it runs against any store, including the in-memory one here.

use vstd::prelude::*;

use crate::strmap::StrMap;
use crate::text::{chars_of, string_of};

verus! {

/// A store failure (for example, the OS keyring is unavailable), as opposed to "not found".
#[derive(Debug, Clone, PartialEq, Eq)]
pub struct StoreError {
    pub message: String,
}

/// A store that maps a provider id (e.g. `"openai"`) to its API key.
///
/// Each store says, through three spec functions, which answers it may give: what a read of a
/// provider's key may return, and how a write or a removal may leave the store and what it may
/// return. Code that works against any store is held to those relations, so it is held to the
/// provider and key it hands over. A store that says nothing may give any answer.
pub trait CredentialStore: Sized {
    /// Whether asking for `provider`'s key may answer `r` and leave the store as `after`.
    closed spec fn read_gives(
        &self,
        after: Self,
        provider: Seq<char>,
        r: Result<Option<String>, StoreError>,
    ) -> bool {
        true
    }

    /// Whether writing `key` for `provider` may answer `r` and leave the store as `after`.
    closed spec fn write_gives(
        &self,
        after: Self,
        provider: Seq<char>,
        key: Seq<char>,
        r: Result<(), StoreError>,
    ) -> bool {
        true
    }

    /// Whether removing `provider`'s key may answer `r` and leave the store as `after`.
    closed spec fn delete_gives(&self, after: Self, provider: Seq<char>, r: Result<(), StoreError>) -> bool {
        true
    }

    /// The stored key for `provider`, or `None` when absent; `Err` signals a store failure.
    /// A store may record that it was asked, so a read takes the store mutably.
    fn get(&mut self, provider: &str) -> (r: Result<Option<String>, StoreError>)
        ensures
            old(self).read_gives(*final(self), provider@, r),
    ;

    /// Store (or replace) the key for `provider`.
    fn set(&mut self, provider: &str, key: &str) -> (r: Result<(), StoreError>)
        ensures
            old(self).write_gives(*final(self), provider@, key@, r),
    ;

    /// Remove the key for `provider`; a missing key is a no-op.
    fn delete(&mut self, provider: &str) -> (r: Result<(), StoreError>)
        ensures
            old(self).delete_gives(*final(self), provider@, r),
    ;
}

/// An in-memory store for tests and headless callers that want an ephemeral store.
pub struct MemStore {
    keys: StrMap,
}

impl View for MemStore {
    type V = Map<Seq<char>, Seq<char>>;

    closed spec fn view(&self) -> Map<Seq<char>, Seq<char>> {
        self.keys@
    }
}

/// The value of a lookup in a map: present exactly when the key is.
pub open spec fn lookup_result(m: Map<Seq<char>, Seq<char>>, k: Seq<char>, r: Option<String>) -> bool {
    match r {
        Some(v) => m.contains_key(k) && m[k] == v@,
        None => !m.contains_key(k),
    }
}

impl MemStore {
    /// An empty store.
    pub fn new() -> (r: MemStore)
        ensures
            r@ == Map::<Seq<char>, Seq<char>>::empty(),
    {
        MemStore { keys: StrMap::new() }
    }
}

impl CredentialStore for MemStore {
    /// A read never fails, changes nothing, and finds exactly what the map holds.
    open spec fn read_gives(
        &self,
        after: Self,
        provider: Seq<char>,
        r: Result<Option<String>, StoreError>,
    ) -> bool {
        &&& after == *self
        &&& r matches Ok(found) && lookup_result(self@, provider, found)
    }

    /// A write never fails and maps `provider` to `key`.
    open spec fn write_gives(
        &self,
        after: Self,
        provider: Seq<char>,
        key: Seq<char>,
        r: Result<(), StoreError>,
    ) -> bool {
        r is Ok && after@ == self@.insert(provider, key)
    }

    /// A removal never fails and leaves `provider` unmapped.
    open spec fn delete_gives(&self, after: Self, provider: Seq<char>, r: Result<(), StoreError>) -> bool {
        r is Ok && after@ == self@.remove(provider)
    }

    fn get(&mut self, provider: &str) -> (r: Result<Option<String>, StoreError>) {
        match self.keys.get(provider) {
            Some(key) => Ok(Some(key.clone())),
            None => Ok(None),
        }
    }

    fn set(&mut self, provider: &str, key: &str) -> (r: Result<(), StoreError>) {
        self.keys.insert(string_of(&chars_of(provider)), string_of(&chars_of(key)));
        Ok(())
    }

    fn delete(&mut self, provider: &str) -> (r: Result<(), StoreError>) {
        self.keys.remove(provider);
        Ok(())
    }
}

/// A read gives back the last key written for a provider, writes for other providers leave it
/// alone, and a delete makes it absent.
pub proof fn lemma_store_round_trip(
    m: Map<Seq<char>, Seq<char>>,
    provider: Seq<char>,
    other: Seq<char>,
    key: Seq<char>,
)
    requires
        provider != other,
    ensures
        m.insert(provider, key).contains_key(provider),
        m.insert(provider, key)[provider] == key,
        m.insert(provider, key).insert(provider, other)[provider] == other,
        m.insert(provider, key).remove(other).contains_key(provider),
        m.insert(provider, key).remove(other)[provider] == key,
        !m.insert(provider, key).remove(provider).contains_key(provider),
        !m.remove(provider).remove(provider).contains_key(provider),
{
}

/// The credential service every provider key is stored under.
pub const SERVICE: &'static str = "light-factory";

/// A failure reported by the OS keyring: whether it means "no such entry", and its text.
#[derive(Debug, Clone, PartialEq, Eq)]
pub struct KeyringFailure {
    pub no_entry: bool,
    pub message: String,
}

/// The keyring crate's entry handle.
#[verifier::external_type_specification]
#[verifier::external_body]
pub struct ExKeyringEntry(keyring::Entry);

/// One operation handed to the OS keyring through an entry handle: the service and account of
/// the handle, what was handed over, and what the keyring answered.
pub enum KeyringCall {
    Read { service: Seq<char>, user: Seq<char>, answer: Result<String, KeyringFailure> },
    Write {
        service: Seq<char>,
        user: Seq<char>,
        secret: Seq<char>,
        answer: Result<(), KeyringFailure>,
    },
    Delete { service: Seq<char>, user: Seq<char>, answer: Result<(), KeyringFailure> },
}

/// A keyring entry handle together with the service and account it was made for and the
/// operations handed to the keyring through it.
pub struct KeyringEntry {
    entry: keyring::Entry,
    service: Ghost<Seq<char>>,
    user: Ghost<Seq<char>>,
    calls: Ghost<Seq<KeyringCall>>,
}

impl KeyringEntry {
    /// The service the handle was made for.
    pub closed spec fn service(&self) -> Seq<char> {
        self.service@
    }

    /// The account the handle was made for.
    pub closed spec fn user(&self) -> Seq<char> {
        self.user@
    }

    /// The operations handed to the keyring through the handle, in order.
    pub closed spec fn calls(&self) -> Seq<KeyringCall> {
        self.calls@
    }
}

/// `keyring::Entry::new(service, user)`: a handle for the credential of `user` under
/// `service`. Whether it can be made depends on the platform store, so nothing is stated of
/// the outcome beyond which credential a handle is for; a new handle has handed nothing over.
#[verifier::external_body]
fn entry_new(service: &str, user: &str) -> (r: Result<KeyringEntry, KeyringFailure>)
    ensures
        r matches Ok(e) ==> e.service() == service@ && e.user() == user@ && e.calls().len() == 0,
{
    match keyring::Entry::new(service, user) {
        Ok(entry) => Ok(KeyringEntry {
            entry,
            service: Ghost(service@),
            user: Ghost(user@),
            calls: Ghost(Seq::empty()),
        }),
        Err(e) => Err(KeyringFailure { no_entry: matches!(e, keyring::Error::NoEntry), message: e.to_string() }),
    }
}

/// `keyring::Entry::get_password`: the stored secret, as the platform store answers. The read
/// and its answer are recorded on the handle.
#[verifier::external_body]
fn entry_get_password(entry: &mut KeyringEntry) -> (r: Result<String, KeyringFailure>)
    ensures
        final(entry).service() == old(entry).service(),
        final(entry).user() == old(entry).user(),
        final(entry).calls() == old(entry).calls().push(
            KeyringCall::Read { service: old(entry).service(), user: old(entry).user(), answer: r },
        ),
{
    let r = match entry.entry.get_password() {
        Ok(secret) => Ok(secret),
        Err(e) => Err(KeyringFailure { no_entry: matches!(e, keyring::Error::NoEntry), message: e.to_string() }),
    };
    entry.calls = Ghost(entry.calls@.push(KeyringCall::Read { service: entry.service@, user: entry.user@, answer: r }));
    r
}

/// `keyring::Entry::set_password`: store `secret`, as the platform store answers. The secret
/// handed over and the answer are recorded on the handle.
#[verifier::external_body]
fn entry_set_password(entry: &mut KeyringEntry, secret: &str) -> (r: Result<(), KeyringFailure>)
    ensures
        final(entry).service() == old(entry).service(),
        final(entry).user() == old(entry).user(),
        final(entry).calls() == old(entry).calls().push(
            KeyringCall::Write {
                service: old(entry).service(),
                user: old(entry).user(),
                secret: secret@,
                answer: r,
            },
        ),
{
    let r = match entry.entry.set_password(secret) {
        Ok(()) => Ok(()),
        Err(e) => Err(KeyringFailure { no_entry: matches!(e, keyring::Error::NoEntry), message: e.to_string() }),
    };
    entry.calls = Ghost(entry.calls@.push(KeyringCall::Write { service: entry.service@, user: entry.user@, secret: secret@, answer: r }));
    r
}

/// `keyring::Entry::delete_credential`: remove the secret, as the platform store answers. The
/// removal and its answer are recorded on the handle.
#[verifier::external_body]
fn entry_delete_credential(entry: &mut KeyringEntry) -> (r: Result<(), KeyringFailure>)
    ensures
        final(entry).service() == old(entry).service(),
        final(entry).user() == old(entry).user(),
        final(entry).calls() == old(entry).calls().push(
            KeyringCall::Delete { service: old(entry).service(), user: old(entry).user(), answer: r },
        ),
{
    let r = match entry.entry.delete_credential() {
        Ok(()) => Ok(()),
        Err(e) => Err(KeyringFailure { no_entry: matches!(e, keyring::Error::NoEntry), message: e.to_string() }),
    };
    entry.calls = Ghost(entry.calls@.push(KeyringCall::Delete { service: entry.service@, user: entry.user@, answer: r }));
    r
}

/// The OS keyring: one entry per provider, under the service [`SERVICE`] with the provider id
/// as the account. It keeps, as ghost state, the operations it has handed to the keyring.
pub struct KeyringStore {
    calls: Ghost<Seq<KeyringCall>>,
}

/// A keyring failure as a store error.
pub open spec fn failed(f: KeyringFailure) -> StoreError {
    StoreError { message: f.message }
}

/// A keyring failure as a store error.
pub fn store_error(f: KeyringFailure) -> (r: StoreError)
    ensures
        r == failed(f),
{
    StoreError { message: f.message }
}

/// What a keyring read means: the secret, or no key when the keyring has no entry; any other
/// failure is a store error.
pub open spec fn read_result(found: Result<String, KeyringFailure>) -> Result<Option<String>, StoreError> {
    match found {
        Ok(secret) => Ok(Some(secret)),
        Err(f) => if f.no_entry {
            Ok(None)
        } else {
            Err(failed(f))
        },
    }
}

/// What a keyring write means: success, or the failure as a store error.
pub open spec fn write_result(done: Result<(), KeyringFailure>) -> Result<(), StoreError> {
    match done {
        Ok(()) => Ok(()),
        Err(f) => Err(failed(f)),
    }
}

/// What a keyring removal means: removing a missing entry is not a failure.
pub open spec fn delete_result(done: Result<(), KeyringFailure>) -> Result<(), StoreError> {
    match done {
        Ok(()) => Ok(()),
        Err(f) => if f.no_entry {
            Ok(())
        } else {
            Err(failed(f))
        },
    }
}

/// Whether `r` is the failure to make an entry handle, as a store error.
pub open spec fn no_handle<A>(r: Result<A, StoreError>) -> bool {
    exists|f: KeyringFailure| r == Err::<A, StoreError>(#[trigger] failed(f))
}

impl KeyringStore {
    /// The operations handed to the keyring so far, in order.
    pub closed spec fn calls(&self) -> Seq<KeyringCall> {
        self.calls@
    }

    /// A store that has handed nothing to the keyring yet.
    pub fn new() -> (r: KeyringStore)
        ensures
            r.calls().len() == 0,
    {
        KeyringStore { calls: Ghost(Seq::empty()) }
    }

    /// What a keyring read means (see [`read_result`]).
    pub fn read_outcome(found: Result<String, KeyringFailure>) -> (r: Result<Option<String>, StoreError>)
        ensures
            r == read_result(found),
    {
        match found {
            Ok(secret) => Ok(Some(secret)),
            Err(f) => if f.no_entry {
                Ok(None)
            } else {
                Err(store_error(f))
            },
        }
    }

    /// What a keyring removal means (see [`delete_result`]).
    pub fn delete_outcome(done: Result<(), KeyringFailure>) -> (r: Result<(), StoreError>)
        ensures
            r == delete_result(done),
    {
        match done {
            Ok(()) => Ok(()),
            Err(f) => if f.no_entry {
                Ok(())
            } else {
                Err(store_error(f))
            },
        }
    }

    /// What a keyring write means (see [`write_result`]).
    pub fn write_outcome(done: Result<(), KeyringFailure>) -> (r: Result<(), StoreError>)
        ensures
            r == write_result(done),
    {
        match done {
            Ok(()) => Ok(()),
            Err(f) => Err(store_error(f)),
        }
    }
}

impl CredentialStore for KeyringStore {
    /// A read makes a handle for `provider` under [`SERVICE`] and asks it for the secret; the
    /// keyring's answer, recorded with the read, is mapped by [`read_result`]. When no handle
    /// can be made, nothing is handed over and the failure is the answer. What the keyring
    /// answers rests on the process-wide credential store it is configured with.
    open spec fn read_gives(
        &self,
        after: Self,
        provider: Seq<char>,
        r: Result<Option<String>, StoreError>,
    ) -> bool {
        ||| after.calls() == self.calls() && no_handle(r)
        ||| exists|answer: Result<String, KeyringFailure>|
            after.calls() == self.calls().push(
                KeyringCall::Read { service: SERVICE@, user: provider, answer },
            ) && r == #[trigger] read_result(answer)
    }

    /// A write makes a handle for `provider` under [`SERVICE`] and hands it `key`; the
    /// keyring's answer, recorded with the write, is mapped by [`write_result`].
    open spec fn write_gives(
        &self,
        after: Self,
        provider: Seq<char>,
        key: Seq<char>,
        r: Result<(), StoreError>,
    ) -> bool {
        ||| after.calls() == self.calls() && no_handle(r)
        ||| exists|answer: Result<(), KeyringFailure>|
            after.calls() == self.calls().push(
                KeyringCall::Write { service: SERVICE@, user: provider, secret: key, answer },
            ) && r == #[trigger] write_result(answer)
    }

    /// A removal makes a handle for `provider` under [`SERVICE`] and asks it to delete the
    /// secret; the keyring's answer, recorded with the removal, is mapped by
    /// [`delete_result`].
    open spec fn delete_gives(&self, after: Self, provider: Seq<char>, r: Result<(), StoreError>) -> bool {
        ||| after.calls() == self.calls() && no_handle(r)
        ||| exists|answer: Result<(), KeyringFailure>|
            after.calls() == self.calls().push(
                KeyringCall::Delete { service: SERVICE@, user: provider, answer },
            ) && r == #[trigger] delete_result(answer)
    }

    fn get(&mut self, provider: &str) -> (r: Result<Option<String>, StoreError>) {
        match entry_new(SERVICE, provider) {
            Ok(mut entry) => {
                let ghost before = self.calls@;
                let found = entry_get_password(&mut entry);
                self.calls = Ghost(self.calls@ + entry.calls@);
                let r = KeyringStore::read_outcome(found);
                assert(self.calls() =~= before.push(
                    KeyringCall::Read { service: SERVICE@, user: provider@, answer: found },
                ));
                r
            },
            Err(f) => store_error_result(f),
        }
    }

    fn set(&mut self, provider: &str, key: &str) -> (r: Result<(), StoreError>) {
        match entry_new(SERVICE, provider) {
            Ok(mut entry) => {
                let ghost before = self.calls@;
                let done = entry_set_password(&mut entry, key);
                self.calls = Ghost(self.calls@ + entry.calls@);
                let r = KeyringStore::write_outcome(done);
                assert(self.calls() =~= before.push(
                    KeyringCall::Write { service: SERVICE@, user: provider@, secret: key@, answer: done },
                ));
                r
            },
            Err(f) => store_error_result(f),
        }
    }

    fn delete(&mut self, provider: &str) -> (r: Result<(), StoreError>) {
        match entry_new(SERVICE, provider) {
            Ok(mut entry) => {
                let ghost before = self.calls@;
                let done = entry_delete_credential(&mut entry);
                self.calls = Ghost(self.calls@ + entry.calls@);
                let r = KeyringStore::delete_outcome(done);
                assert(self.calls() =~= before.push(
                    KeyringCall::Delete { service: SERVICE@, user: provider@, answer: done },
                ));
                r
            },
            Err(f) => store_error_result(f),
        }
    }
}

/// A keyring failure as a failed answer of any operation.
fn store_error_result<A>(f: KeyringFailure) -> (r: Result<A, StoreError>)
    ensures
        r == Err::<A, StoreError>(failed(f)),
{
    Err(store_error(f))
}

} // verus!
