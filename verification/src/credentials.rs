//! The credential store adapter.
//!
//! The client keeps one secret, the auth key, under a fixed service and
//! account name. Three operations exist on it: save, get and delete. On a
//! desktop they go to the operating system's secret store through the
//! `keyring` crate; on a mobile target nothing is wired up yet and a stand-in
//! answers without keeping anything.
//!
//! What the secret store answers is not in this library's hands. What the
//! library decides is how each answer becomes the reply that the user
//! interface receives: [`save_reply`], [`get_reply`] and [`delete_reply`] say
//! so for every answer there can be.

use vstd::prelude::*;

verus! {

/// Service name under which the secret is kept.
pub const SERVICE: &'static str = "dex";

/// Account name under which the secret is kept.
pub const ACCOUNT: &'static str = "auth-key";

/// The backends that can hold the secret.
#[derive(Clone, Copy, Debug, PartialEq, Eq, Structural)]
pub enum SecretStore {
    /// The secret store of the operating system.
    NativeKeychain,
    /// A stand-in that accepts every request and keeps nothing.
    Noop,
}

/// What the adapter reads from a failure that the secret store reports.
#[derive(Debug)]
pub struct StoreFailure {
    /// Whether the store says that no entry exists for the service and
    /// account.
    pub no_entry: bool,
    /// The store's own words for the failure.
    pub message: String,
}

/// How one exchange with the secret store ended.
#[derive(Debug)]
pub enum Exchange<T> {
    /// No entry could be made for the service and account, so the operation
    /// was never tried.
    NotOpened(StoreFailure),
    /// The entry was made and the operation on it failed.
    Failed(StoreFailure),
    /// The operation succeeded with this result.
    Done(T),
}

/// `keyring::Entry`, the handle to one credential of the store. It is carried
/// from the call that makes it to the call that uses it and never looked
/// into.
#[verifier::external_type_specification]
#[verifier::external_body]
pub struct ExEntry(keyring::Entry);

/// `keyring::Error`, what a call into `keyring` fails with. It is handed to
/// [`failure_of`] and never looked into otherwise.
#[verifier::external_type_specification]
#[verifier::external_body]
pub struct ExKeyringError(keyring::Error);

/// `keyring::Entry::new` makes the handle for the credential of a service and
/// a user in the default store. Nothing is claimed of its result: the store
/// decides whether the names are acceptable. It takes every pair of names
/// and panics only on a poisoned lock around the default store, which no
/// argument brings about.
pub assume_specification[ keyring::Entry::new ](service: &str, user: &str) -> (entry: Result<
    keyring::Entry,
    keyring::Error,
>)
;

/// `keyring::Entry::set_password` asks the store to keep `password` for the
/// entry. Nothing is claimed of its result: whether the store keeps it, and
/// what it fails with, is the store's affair.
pub assume_specification[ keyring::Entry::set_password ](
    entry: &keyring::Entry,
    password: &str,
) -> (outcome: Result<(), keyring::Error>)
;

/// `keyring::Entry::get_password` asks the store for the entry's password.
/// Nothing is claimed of its result: it depends on what the store holds.
pub assume_specification[ keyring::Entry::get_password ](entry: &keyring::Entry) -> (outcome:
    Result<String, keyring::Error>)
;

/// `keyring::Entry::delete_credential` asks the store to forget the entry's
/// credential. Nothing is claimed of its result: it depends on what the store
/// holds.
pub assume_specification[ keyring::Entry::delete_credential ](entry: &keyring::Entry) -> (outcome:
    Result<(), keyring::Error>)
;

/// Reads from a `keyring::Error` the two things the adapter goes by: whether
/// it is the `NoEntry` variant, and the text that `to_string` gives for it
/// through the `Display` impl of `keyring::Error`. Nothing is claimed of
/// either.
#[verifier::external_body]
fn failure_of(error: keyring::Error) -> (failure: StoreFailure) {
    StoreFailure { no_entry: matches!(error, keyring::Error::NoEntry), message: error.to_string() }
}

/// The reply to a save, by the way the exchange ended: success when the
/// store kept the key, and otherwise the store's words for the failure.
pub open spec fn save_reply_spec(exchange: Exchange<()>) -> Result<(), String> {
    match exchange {
        Exchange::Done(_) => Ok(()),
        Exchange::NotOpened(failure) => Err(failure.message),
        Exchange::Failed(failure) => Err(failure.message),
    }
}

/// The reply to a get, by the way the exchange ended: the key when the store
/// holds one, nothing when the store says that there is no entry, and
/// otherwise the store's words for the failure.
pub open spec fn get_reply_spec(exchange: Exchange<String>) -> Result<Option<String>, String> {
    match exchange {
        Exchange::Done(key) => Ok(Some(key)),
        Exchange::NotOpened(failure) => Err(failure.message),
        Exchange::Failed(failure) => if failure.no_entry {
            Ok(None)
        } else {
            Err(failure.message)
        },
    }
}

/// The reply to a delete, by the way the exchange ended: success when the
/// store removed the entry or says that there was none, and otherwise the
/// store's words for the failure.
pub open spec fn delete_reply_spec(exchange: Exchange<()>) -> Result<(), String> {
    match exchange {
        Exchange::Done(_) => Ok(()),
        Exchange::NotOpened(failure) => Err(failure.message),
        Exchange::Failed(failure) => if failure.no_entry {
            Ok(())
        } else {
            Err(failure.message)
        },
    }
}

/// Turns the end of a save exchange into the reply for the caller. Every
/// failure is an error here, a missing entry too.
pub fn save_reply(exchange: Exchange<()>) -> (reply: Result<(), String>)
    ensures
        reply == save_reply_spec(exchange),
{
    match exchange {
        Exchange::Done(_) => Ok(()),
        Exchange::NotOpened(failure) => Err(failure.message),
        Exchange::Failed(failure) => Err(failure.message),
    }
}

/// Turns the end of a get exchange into the reply for the caller. That the
/// store has no entry is an answer, not an error: the reply is empty.
pub fn get_reply(exchange: Exchange<String>) -> (reply: Result<Option<String>, String>)
    ensures
        reply == get_reply_spec(exchange),
{
    match exchange {
        Exchange::Done(key) => Ok(Some(key)),
        Exchange::NotOpened(failure) => Err(failure.message),
        Exchange::Failed(failure) => {
            if failure.no_entry {
                Ok(None)
            } else {
                Err(failure.message)
            }
        },
    }
}

/// Turns the end of a delete exchange into the reply for the caller. Deleting
/// what is not there succeeds.
pub fn delete_reply(exchange: Exchange<()>) -> (reply: Result<(), String>)
    ensures
        reply == delete_reply_spec(exchange),
{
    match exchange {
        Exchange::Done(_) => Ok(()),
        Exchange::NotOpened(failure) => Err(failure.message),
        Exchange::Failed(failure) => {
            if failure.no_entry {
                Ok(())
            } else {
                Err(failure.message)
            }
        },
    }
}

/// The adapter hands on the key that the store gave it, unchanged: what a get
/// replies is what the store holds.
pub proof fn found_key_is_the_reply(key: String)
    ensures
        get_reply_spec(Exchange::Done(key)) == Ok::<Option<String>, String>(Some(key)),
{
}

/// A store that has no entry is no failure: a get then replies empty and a
/// delete replies success, whatever words the store used.
pub proof fn missing_entry_is_no_error(failure: StoreFailure)
    requires
        failure.no_entry,
    ensures
        get_reply_spec(Exchange::Failed(failure)) == Ok::<Option<String>, String>(None),
        delete_reply_spec(Exchange::Failed(failure)) == Ok::<(), String>(()),
{
}

/// Every other failure reaches the caller as an error that carries the
/// store's words, and so does every failure of a save and every failure to
/// open the entry.
pub proof fn failure_is_reported_in_the_stores_words(failure: StoreFailure)
    ensures
        save_reply_spec(Exchange::NotOpened(failure)) == Err::<(), String>(failure.message),
        save_reply_spec(Exchange::Failed(failure)) == Err::<(), String>(failure.message),
        get_reply_spec(Exchange::NotOpened(failure)) == Err::<Option<String>, String>(
            failure.message,
        ),
        delete_reply_spec(Exchange::NotOpened(failure)) == Err::<(), String>(failure.message),
        !failure.no_entry ==> get_reply_spec(Exchange::Failed(failure)) == Err::<
            Option<String>,
            String,
        >(failure.message),
        !failure.no_entry ==> delete_reply_spec(Exchange::Failed(failure)) == Err::<(), String>(
            failure.message,
        ),
{
}

/// Asks the operating system's secret store to keep `key` under
/// [`SERVICE`] and [`ACCOUNT`].
fn keychain_save(key: &str) -> Exchange<()> {
    match keyring::Entry::new(SERVICE, ACCOUNT) {
        Err(error) => Exchange::NotOpened(failure_of(error)),
        Ok(entry) => match entry.set_password(key) {
            Ok(()) => Exchange::Done(()),
            Err(error) => Exchange::Failed(failure_of(error)),
        },
    }
}

/// Asks the operating system's secret store for the key kept under
/// [`SERVICE`] and [`ACCOUNT`].
fn keychain_get() -> Exchange<String> {
    match keyring::Entry::new(SERVICE, ACCOUNT) {
        Err(error) => Exchange::NotOpened(failure_of(error)),
        Ok(entry) => match entry.get_password() {
            Ok(key) => Exchange::Done(key),
            Err(error) => Exchange::Failed(failure_of(error)),
        },
    }
}

/// Asks the operating system's secret store to forget what it keeps under
/// [`SERVICE`] and [`ACCOUNT`].
fn keychain_delete() -> Exchange<()> {
    match keyring::Entry::new(SERVICE, ACCOUNT) {
        Err(error) => Exchange::NotOpened(failure_of(error)),
        Ok(entry) => match entry.delete_credential() {
            Ok(()) => Exchange::Done(()),
            Err(error) => Exchange::Failed(failure_of(error)),
        },
    }
}

/// Saves the auth key, replacing the one that was there.
///
/// The stand-in reports success and keeps nothing. With the native store the
/// reply is [`save_reply`] of whatever the store answered.
pub fn save_auth_key(store: SecretStore, key: String) -> (reply: Result<(), String>)
    ensures
        store is Noop ==> reply == Ok::<(), String>(()),
{
    match store {
        SecretStore::Noop => Ok(()),
        SecretStore::NativeKeychain => save_reply(keychain_save(key.as_str())),
    }
}

/// Reads the auth key.
///
/// The stand-in holds none, so its reply is always empty. With the native
/// store the reply is [`get_reply`] of whatever the store answered.
pub fn get_auth_key(store: SecretStore) -> (reply: Result<Option<String>, String>)
    ensures
        store is Noop ==> reply == Ok::<Option<String>, String>(None),
{
    match store {
        SecretStore::Noop => Ok(None),
        SecretStore::NativeKeychain => get_reply(keychain_get()),
    }
}

/// Removes the auth key.
///
/// The stand-in reports success. With the native store the reply is
/// [`delete_reply`] of whatever the store answered.
pub fn delete_auth_key(store: SecretStore) -> (reply: Result<(), String>)
    ensures
        store is Noop ==> reply == Ok::<(), String>(()),
{
    match store {
        SecretStore::Noop => Ok(()),
        SecretStore::NativeKeychain => delete_reply(keychain_delete()),
    }
}

} // verus!
