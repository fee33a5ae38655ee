//! The credential store: three kinds of secret per username.
//!
//! `CredentialMap` is the store's model — a map from (kind, username) to the
//! secret — and carries the contracts the session logic is proved against.
//! The `store_*`/`get_*` functions below it file the same secrets with the
//! platform's secret-storage backend through the `keyring` crate; nothing can
//! be promised about that backend's state, so their results carry no more
//! than the backend reported.

use vstd::prelude::*;
use crate::text::str_eq;

verus! {

/// The three kinds of secret the client keeps per username.
#[derive(Clone, Copy, PartialEq, Eq, Structural, Debug)]
pub enum CredKind {
    AuthToken,
    DeviceId,
    DeviceUuid,
}

/// Why a credential-store operation failed.
#[derive(Debug)]
pub enum CredStoreError {
    /// No secret is stored for the requested pair.
    NotFound,
    /// The backend refused to store the secret.
    WriteFailed(String),
    /// The backend failed in some other way.
    Backend(String),
}

pub open spec fn spec_service_name(kind: CredKind) -> Seq<char> {
    match kind {
        CredKind::AuthToken => "e_to_e_msgr_token"@,
        CredKind::DeviceId => "e_to_e_msgr_device_id"@,
        CredKind::DeviceUuid => "e_to_e_msgr_uuid"@,
    }
}

/// The service name under which one kind of secret is filed with the backend.
pub fn service_name(kind: CredKind) -> (r: &'static str)
    ensures
        r@ == spec_service_name(kind),
{
    match kind {
        CredKind::AuthToken => "e_to_e_msgr_token",
        CredKind::DeviceId => "e_to_e_msgr_device_id",
        CredKind::DeviceUuid => "e_to_e_msgr_uuid",
    }
}

struct CredEntry {
    kind: CredKind,
    username: String,
    secret: String,
}

spec fn entry_key(e: CredEntry) -> (CredKind, Seq<char>) {
    (e.kind, e.username@)
}

spec fn entries_map(s: Seq<CredEntry>) -> Map<(CredKind, Seq<char>), Seq<char>>
    decreases s.len(),
{
    if s.len() == 0 {
        Map::empty()
    } else {
        entries_map(s.drop_last()).insert(entry_key(s.last()), s.last().secret@)
    }
}

spec fn unique_keys(s: Seq<CredEntry>) -> bool {
    forall|i: int, j: int| 0 <= i < j < s.len() ==> entry_key(s[i]) != entry_key(s[j])
}

proof fn lemma_entries_map_contains(s: Seq<CredEntry>, key: (CredKind, Seq<char>))
    ensures
        entries_map(s).contains_key(key) <==> exists|i: int|
            0 <= i < s.len() && entry_key(s[i]) == key,
    decreases s.len(),
{
    if s.len() > 0 {
        lemma_entries_map_contains(s.drop_last(), key);
        if entry_key(s.last()) == key {
            assert(entry_key(s[s.len() - 1]) == key);
        } else if entries_map(s).contains_key(key) {
            let i = choose|i: int| 0 <= i < s.drop_last().len() && entry_key(
                s.drop_last()[i],
            ) == key;
            assert(entry_key(s[i]) == key);
        } else {
            assert forall|i: int| 0 <= i < s.len() implies entry_key(s[i]) != key by {
                if i < s.len() - 1 {
                    assert(s.drop_last()[i] == s[i]);
                }
            }
        }
    }
}

proof fn lemma_unique_value(s: Seq<CredEntry>, i: int)
    requires
        unique_keys(s),
        0 <= i < s.len(),
    ensures
        entries_map(s).contains_key(entry_key(s[i])),
        entries_map(s)[entry_key(s[i])] == s[i].secret@,
    decreases s.len(),
{
    if i == s.len() - 1 {
        assert(s.last() == s[i]);
    } else {
        assert forall|p: int, q: int| 0 <= p < q < s.drop_last().len() implies entry_key(
            s.drop_last()[p],
        ) != entry_key(s.drop_last()[q]) by {
            assert(s.drop_last()[p] == s[p]);
            assert(s.drop_last()[q] == s[q]);
        }
        assert(s.drop_last()[i] == s[i]);
        lemma_unique_value(s.drop_last(), i);
        assert(entry_key(s.last()) != entry_key(s[i]));
    }
}

proof fn lemma_remove_at(s: Seq<CredEntry>, i: int)
    requires
        unique_keys(s),
        0 <= i < s.len(),
    ensures
        unique_keys(s.remove(i)),
        entries_map(s.remove(i)) == entries_map(s).remove(entry_key(s[i])),
    decreases s.len(),
{
    let key = entry_key(s[i]);
    assert forall|p: int, q: int| 0 <= p < q < s.remove(i).len() implies entry_key(
        s.remove(i)[p],
    ) != entry_key(s.remove(i)[q]) by {
        let p0 = if p < i {
            p
        } else {
            p + 1
        };
        let q0 = if q < i {
            q
        } else {
            q + 1
        };
        assert(s.remove(i)[p] == s[p0]);
        assert(s.remove(i)[q] == s[q0]);
    }
    if i == s.len() - 1 {
        assert(s.remove(i) =~= s.drop_last());
        lemma_entries_map_contains(s.drop_last(), key);
        assert forall|j: int| 0 <= j < s.drop_last().len() implies entry_key(s.drop_last()[j])
            != key by {
            assert(s.drop_last()[j] == s[j]);
        }
        assert(!entries_map(s.drop_last()).contains_key(key));
        assert(entries_map(s).remove(key) =~= entries_map(s.drop_last()));
    } else {
        assert(s.remove(i).drop_last() =~= s.drop_last().remove(i));
        assert(s.remove(i).last() == s.last());
        assert forall|p: int, q: int| 0 <= p < q < s.drop_last().len() implies entry_key(
            s.drop_last()[p],
        ) != entry_key(s.drop_last()[q]) by {
            assert(s.drop_last()[p] == s[p]);
            assert(s.drop_last()[q] == s[q]);
        }
        assert(s.drop_last()[i] == s[i]);
        lemma_remove_at(s.drop_last(), i);
        assert(entry_key(s.last()) != key);
        assert(entries_map(s.remove(i)) =~= entries_map(s).remove(key));
    }
}

/// The store model of the credential store: every secret the client has
/// filed, keyed by (kind, username). Writes overwrite atomically; no reader
/// ever sees a partial secret because a secret is one map value.
pub struct CredentialMap {
    entries: Vec<CredEntry>,
}

impl View for CredentialMap {
    type V = Map<(CredKind, Seq<char>), Seq<char>>;

    closed spec fn view(&self) -> Map<(CredKind, Seq<char>), Seq<char>> {
        entries_map(self.entries@)
    }
}

impl CredentialMap {
    pub closed spec fn wf(&self) -> bool {
        unique_keys(self.entries@)
    }

    /// An empty store: no secret for any pair.
    pub fn new() -> (r: CredentialMap)
        ensures
            r.wf(),
            r@ == Map::<(CredKind, Seq<char>), Seq<char>>::empty(),
    {
        CredentialMap { entries: Vec::new() }
    }

    fn find_index(&self, kind: CredKind, username: &str) -> (r: Option<usize>)
        ensures
            match r {
                Option::Some(i) => i < self.entries@.len() && entry_key(self.entries@[i as int])
                    == (kind, username@),
                Option::None => forall|j: int|
                    0 <= j < self.entries@.len() ==> entry_key(self.entries@[j]) != (
                    kind,
                    username@,
                    ),
            },
    {
        let n = self.entries.len();
        let mut j: usize = 0;
        while j < n
            invariant
                n == self.entries@.len(),
                j <= n,
                forall|k: int| 0 <= k < j ==> entry_key(self.entries@[k]) != (kind, username@),
            decreases n - j,
        {
            let e = &self.entries[j];
            if e.kind == kind && str_eq(e.username.as_str(), username) {
                return Option::Some(j);
            }
            j += 1;
        }
        Option::None
    }

    /// The secret stored for (kind, username), if one is.
    pub fn get(&self, kind: CredKind, username: &str) -> (r: Option<String>)
        requires
            self.wf(),
        ensures
            match r {
                Option::Some(s) => self@.contains_key((kind, username@)) && s@ == self@[(
                    kind,
                    username@,
                )],
                Option::None => !self@.contains_key((kind, username@)),
            },
    {
        proof {
            lemma_entries_map_contains(self.entries@, (kind, username@));
        }
        match self.find_index(kind, username) {
            Option::Some(i) => {
                proof {
                    lemma_unique_value(self.entries@, i as int);
                }
                let e = &self.entries[i];
                Option::Some(e.secret.clone())
            },
            Option::None => Option::None,
        }
    }

    /// Stores `secret` for (kind, username), overwriting any earlier secret.
    pub fn put(&mut self, kind: CredKind, username: &str, secret: String)
        requires
            old(self).wf(),
        ensures
            final(self).wf(),
            final(self)@ == old(self)@.insert((kind, username@), secret@),
    {
        let ghost key = (kind, username@);
        match self.find_index(kind, username) {
            Option::Some(i) => {
                proof {
                    lemma_remove_at(self.entries@, i as int);
                }
                self.entries.remove(i);
                proof {
                    lemma_entries_map_contains(self.entries@, key);
                }
            },
            Option::None => {
                proof {
                    lemma_entries_map_contains(self.entries@, key);
                }
            },
        }
        let ghost before = self.entries@;
        self.entries.push(CredEntry { kind, username: username.to_owned(), secret });
        proof {
            assert(self.entries@.drop_last() =~= before);
            assert(self.entries@.last() == self.entries@[before.len() as int]);
            assert forall|p: int, q: int| 0 <= p < q < self.entries@.len() implies entry_key(
                self.entries@[p],
            ) != entry_key(self.entries@[q]) by {
                if q < before.len() {
                    assert(self.entries@[p] == before[p]);
                    assert(self.entries@[q] == before[q]);
                } else {
                    assert(self.entries@[p] == before[p]);
                    lemma_entries_map_contains(before, entry_key(self.entries@[q]));
                }
            }
            assert(self@ =~= old(self)@.insert(key, secret@));
        }
    }

    /// Removes the secret for (kind, username); reports when none was stored.
    pub fn delete(&mut self, kind: CredKind, username: &str) -> (r: Result<(), CredStoreError>)
        requires
            old(self).wf(),
        ensures
            final(self).wf(),
            match r {
                Result::Ok(()) => old(self)@.contains_key((kind, username@)) && final(self)@
                    == old(self)@.remove((kind, username@)),
                Result::Err(e) => e == CredStoreError::NotFound && !old(self)@.contains_key(
                    (kind, username@),
                ) && final(self)@ == old(self)@,
            },
    {
        proof {
            lemma_entries_map_contains(self.entries@, (kind, username@));
        }
        match self.find_index(kind, username) {
            Option::Some(i) => {
                proof {
                    lemma_remove_at(self.entries@, i as int);
                }
                self.entries.remove(i);
                Result::Ok(())
            },
            Option::None => Result::Err(CredStoreError::NotFound),
        }
    }
}

/// Law: a secret just stored for a (kind, username) pair is exactly what a
/// lookup of the same pair then returns — the store round-trips.
pub proof fn lemma_store_roundtrip(
    m: Map<(CredKind, Seq<char>), Seq<char>>,
    kind: CredKind,
    username: Seq<char>,
    secret: Seq<char>,
)
    ensures
        m.insert((kind, username), secret).contains_key((kind, username)),
        m.insert((kind, username), secret)[(kind, username)] == secret,
{
}

/// Relies on keyring::Entry::new and Entry::set_password: files `secret`
/// under (service, user) with the platform secret store. The platform
/// store's state is outside this library, so nothing relates the outcome to
/// earlier calls.
#[verifier::external_body]
fn keyring_set(service: &str, user: &str, secret: &str) -> (r: Result<(), CredStoreError>) {
    let entry = match keyring::Entry::new(service, user) {
        Ok(e) => e,
        Err(e) => return Err(CredStoreError::WriteFailed(format!("{}", e))),
    };
    match entry.set_password(secret) {
        Ok(()) => Ok(()),
        Err(e) => Err(CredStoreError::WriteFailed(format!("{}", e))),
    }
}

/// Relies on keyring::Entry::new and Entry::get_password: the secret filed
/// under (service, user), `NotFound` when the backend has no entry for it.
#[verifier::external_body]
fn keyring_get(service: &str, user: &str) -> (r: Result<String, CredStoreError>) {
    let entry = match keyring::Entry::new(service, user) {
        Ok(e) => e,
        Err(e) => return Err(CredStoreError::Backend(format!("{}", e))),
    };
    match entry.get_password() {
        Ok(secret) => Ok(secret),
        Err(keyring::Error::NoEntry) => Err(CredStoreError::NotFound),
        Err(e) => Err(CredStoreError::Backend(format!("{}", e))),
    }
}

/// Relies on keyring::Entry::new and Entry::delete_credential: removes the
/// secret filed under (service, user), `NotFound` when there was none.
#[verifier::external_body]
fn keyring_delete(service: &str, user: &str) -> (r: Result<(), CredStoreError>) {
    let entry = match keyring::Entry::new(service, user) {
        Ok(e) => e,
        Err(e) => return Err(CredStoreError::Backend(format!("{}", e))),
    };
    match entry.delete_credential() {
        Ok(()) => Ok(()),
        Err(keyring::Error::NoEntry) => Err(CredStoreError::NotFound),
        Err(e) => Err(CredStoreError::Backend(format!("{}", e))),
    }
}

/// Relies on uuid::Uuid::new_v4 and its hyphenated rendering: a freshly
/// generated version-4 UUID, always 36 characters. The value is random, so
/// nothing more is stated about it; the call aborts only if the operating
/// system's random source fails.
#[verifier::external_body]
pub fn generate_uuid(_username: &str) -> (r: Result<String, CredStoreError>)
    ensures
        r is Ok,
        r matches Result::Ok(u) ==> u@.len() == 36,
{
    Ok(uuid::Uuid::new_v4().to_string())
}

/// Files the auth token for `username` with the platform store.
pub fn store_token(token: &str, username: &str) -> (r: Result<(), CredStoreError>) {
    keyring_set(service_name(CredKind::AuthToken), username, token)
}

/// Reads the auth token for `username` back from the platform store.
pub fn get_token(username: &str) -> (r: Result<String, CredStoreError>) {
    keyring_get(service_name(CredKind::AuthToken), username)
}

/// Files the server-issued device identifier for `username`.
pub fn store_device_id(username: &str, device_id: &str) -> (r: Result<(), CredStoreError>) {
    keyring_set(service_name(CredKind::DeviceId), username, device_id)
}

/// Reads the device identifier for `username`.
pub fn get_device_id(username: &str) -> (r: Result<String, CredStoreError>) {
    keyring_get(service_name(CredKind::DeviceId), username)
}

/// Files the device instance UUID for `username`.
pub fn store_uuid(username: &str, device_key: &str) -> (r: Result<(), CredStoreError>) {
    keyring_set(service_name(CredKind::DeviceUuid), username, device_key)
}

/// Reads the device instance UUID for `username`.
pub fn get_uuid(username: &str) -> (r: Result<String, CredStoreError>) {
    keyring_get(service_name(CredKind::DeviceUuid), username)
}

/// Removes one stored secret; `cred_type` is the backend service name.
pub fn delete_credential(username: &str, cred_type: &str) -> (r: Result<(), CredStoreError>) {
    keyring_delete(cred_type, username)
}

} // verus!
