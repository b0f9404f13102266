//! The vault: an ordered list of credential entries, a version counter that
//! every change advances, and the history of snapshot records.

use vstd::prelude::*;

use crate::crypto::{argon2_accepts, argon2_error_text, argon2id_digest, argon2id_hash, hex_digit, random_bytes};
use vstd::arithmetic::power::pow;
use crate::text::concat_str;
use vstd::string::StringSliceAdditionalSpecFns;

verus! {

/// One stored credential. `uuid` is the entry's identifier (the 128-bit value
/// of a UUID) and `updated_at` the time of the last change, in milliseconds
/// since the Unix epoch.
pub struct Entry {
    pub uuid: u128,
    pub service: String,
    pub username: String,
    pub secret: String,
    pub updated_at: i64,
}

impl Clone for Entry {
    fn clone(&self) -> (res: Self)
        ensures
            res == *self,
    {
        Entry {
            uuid: self.uuid,
            service: self.service.clone(),
            username: self.username.clone(),
            secret: self.secret.clone(),
            updated_at: self.updated_at,
        }
    }
}

/// Record of one encrypted backup of the entries. `file_ref` names the backup
/// file while it is kept on disk; it is `None` once the file was pruned.
pub struct VaultSnapshot {
    pub uuid: u128,
    pub version: u32,
    pub created_at: i64,
    pub checksum: String,
    pub file_ref: Option<String>,
    pub reason: String,
}

impl Clone for VaultSnapshot {
    fn clone(&self) -> (res: Self)
        ensures
            res == *self,
    {
        VaultSnapshot {
            uuid: self.uuid,
            version: self.version,
            created_at: self.created_at,
            checksum: self.checksum.clone(),
            file_ref: clone_opt_string(&self.file_ref),
            reason: self.reason.clone(),
        }
    }
}

/// A copy of an optional string.
pub fn clone_opt_string(s: &Option<String>) -> (res: Option<String>)
    ensures
        res == *s,
{
    match s {
        Some(x) => Some(x.clone()),
        None => None,
    }
}

impl Default for VaultSnapshot {
    fn default() -> (res: Self)
        ensures
            res.uuid == 0 && res.version == 0 && res.created_at == 0,
            res.checksum@ == Seq::<char>::empty(),
            res.file_ref is None,
            res.reason@ == Seq::<char>::empty(),
    {
        VaultSnapshot {
            uuid: 0,
            version: 0,
            created_at: 0,
            checksum: String::new(),
            file_ref: None,
            reason: String::new(),
        }
    }
}

/// The decrypted vault.
pub struct Vault {
    pub version: u32,
    pub entries: Vec<Entry>,
    pub history: Vec<VaultSnapshot>,
}

impl Default for Vault {
    fn default() -> (res: Self)
        ensures
            res.version == 0,
            res.entries@ == Seq::<Entry>::empty(),
            res.history@ == Seq::<VaultSnapshot>::empty(),
    {
        Vault { version: 0, entries: Vec::new(), history: Vec::new() }
    }
}

impl Clone for Vault {
    fn clone(&self) -> (res: Self)
        ensures
            res.version == self.version,
            res.entries@ == self.entries@,
            res.history@ == self.history@,
    {
        Vault {
            version: self.version,
            entries: clone_entries(&self.entries),
            history: clone_snapshots(&self.history),
        }
    }
}

/// Index of the first element of `s` that satisfies `p`, or -1 when none does.
pub open spec fn first_index<T>(s: Seq<T>, p: spec_fn(T) -> bool) -> int {
    if exists|i: int| is_first_match(s, p, i) {
        choose|i: int| is_first_match(s, p, i)
    } else {
        -1
    }
}

/// `i` is the position of the first element of `s` that satisfies `p`.
pub open spec fn is_first_match<T>(s: Seq<T>, p: spec_fn(T) -> bool, i: int) -> bool {
    &&& 0 <= i < s.len()
    &&& p(s[i])
    &&& forall|j: int| 0 <= j < i ==> !p(#[trigger] s[j])
}

/// The first match is unique, and no match means `first_index` is -1.
pub proof fn lemma_first_index<T>(s: Seq<T>, p: spec_fn(T) -> bool, i: int)
    ensures
        is_first_match(s, p, i) ==> first_index(s, p) == i,
        (forall|j: int| 0 <= j < s.len() ==> !p(#[trigger] s[j])) ==> first_index(s, p) == -1,
        first_index(s, p) == -1 || is_first_match(s, p, first_index(s, p)),
{
    if is_first_match(s, p, i) {
        let k = choose|k: int| is_first_match(s, p, k);
        assert(is_first_match(s, p, k));
        if k < i {
            assert(!p(s[k]));
        }
        if i < k {
            assert(!p(s[i]));
        }
    }
    if exists|k: int| is_first_match(s, p, k) {
        let k = choose|k: int| is_first_match(s, p, k);
        assert(is_first_match(s, p, k));
    }
}

/// When some element satisfies `p`, `first_index` finds one at or before it.
pub proof fn lemma_match_has_first<T>(s: Seq<T>, p: spec_fn(T) -> bool, j: int)
    requires
        0 <= j < s.len(),
        p(s[j]),
    ensures
        0 <= first_index(s, p) <= j,
    decreases j,
{
    if exists|k: int| 0 <= k < j && p(#[trigger] s[k]) {
        let k = choose|k: int| 0 <= k < j && p(#[trigger] s[k]);
        lemma_match_has_first(s, p, k);
    } else {
        assert(is_first_match(s, p, j));
        lemma_first_index(s, p, j);
    }
}

/// Entries with the given identifier.
pub open spec fn has_id(id: u128) -> spec_fn(Entry) -> bool {
    |e: Entry| e.uuid == id
}

/// Snapshots with the given version.
pub open spec fn has_version(version: u32) -> spec_fn(VaultSnapshot) -> bool {
    |s: VaultSnapshot| s.version == version
}

/// Position of the first entry with identifier `id`, or -1.
pub open spec fn id_index(entries: Seq<Entry>, id: u128) -> int {
    first_index(entries, has_id(id))
}

/// The first entry with identifier `id`, if any.
pub open spec fn entry_by_id(entries: Seq<Entry>, id: u128) -> Option<Entry> {
    let i = id_index(entries, id);
    if i >= 0 {
        Some(entries[i])
    } else {
        None
    }
}

/// The entries whose service is `service`, in their order in the vault.
pub open spec fn entries_for_service(entries: Seq<Entry>, service: Seq<char>) -> Seq<Entry>
    decreases entries.len(),
{
    if entries.len() == 0 {
        Seq::empty()
    } else {
        let rest = entries_for_service(entries.drop_last(), service);
        if entries.last().service@ == service {
            rest.push(entries.last())
        } else {
            rest
        }
    }
}

/// `e` with the given fields replaced, where a new value is given, and the
/// change time set to `now`.
pub open spec fn patched(
    e: Entry,
    service: Option<String>,
    username: Option<String>,
    secret: Option<String>,
    now: i64,
) -> Entry {
    Entry {
        uuid: e.uuid,
        service: match service {
            Some(s) => s,
            None => e.service,
        },
        username: match username {
            Some(u) => u,
            None => e.username,
        },
        secret: match secret {
            Some(p) => p,
            None => e.secret,
        },
        updated_at: now,
    }
}

/// A copy of every entry.
pub fn clone_entries(v: &Vec<Entry>) -> (res: Vec<Entry>)
    ensures
        res@ == v@,
{
    let mut res: Vec<Entry> = Vec::new();
    let mut i: usize = 0;
    while i < v.len()
        invariant
            i <= v.len(),
            res@ == v@.subrange(0, i as int),
        decreases v.len() - i,
    {
        res.push(v[i].clone());
        i = i + 1;
        assert(res@ =~= v@.subrange(0, i as int));
    }
    assert(res@ =~= v@);
    res
}

/// A copy of every snapshot record.
pub fn clone_snapshots(v: &Vec<VaultSnapshot>) -> (res: Vec<VaultSnapshot>)
    ensures
        res@ == v@,
{
    let mut res: Vec<VaultSnapshot> = Vec::new();
    let mut i: usize = 0;
    while i < v.len()
        invariant
            i <= v.len(),
            res@ == v@.subrange(0, i as int),
        decreases v.len() - i,
    {
        res.push(v[i].clone());
        i = i + 1;
        assert(res@ =~= v@.subrange(0, i as int));
    }
    assert(res@ =~= v@);
    res
}

/// A fresh entry identifier: the value of a time-ordered (version 7) UUID.
/// `uuid::Uuid::now_v7` reads the clock and a random source, so nothing is
/// stated of the value.
#[verifier::external_body]
pub(crate) fn fresh_uuid() -> u128 {
    uuid::Uuid::now_v7().as_u128()
}

/// The current local time, in milliseconds since the Unix epoch
/// (`chrono::Local::now().timestamp_millis()`). It reads the clock, so nothing
/// is stated of the value.
#[verifier::external_body]
pub(crate) fn now_millis() -> i64 {
    chrono::Local::now().timestamp_millis()
}

/// A vault that gains an entry with a fresh identifier hands that entry back
/// when asked for the identifier.
pub proof fn law_get_after_add(entries: Seq<Entry>, e: Entry)
    requires
        id_index(entries, e.uuid) == -1,
    ensures
        entry_by_id(entries.push(e), e.uuid) == Some(e),
{
    let s = entries.push(e);
    lemma_first_index(entries, has_id(e.uuid), 0);
    assert forall|j: int| 0 <= j < entries.len() implies !has_id(e.uuid)(#[trigger] s[j]) by {
        assert(s[j] == entries[j]);
        if has_id(e.uuid)(entries[j]) {
            lemma_match_has_first(entries, has_id(e.uuid), j);
        }
    }
    assert(is_first_match(s, has_id(e.uuid), entries.len() as int));
    lemma_first_index(s, has_id(e.uuid), entries.len() as int);
}

/// Removing the entry that was just added, under its fresh identifier, gives
/// back the entries as they were before the addition.
pub proof fn law_remove_undoes_add(entries: Seq<Entry>, e: Entry)
    requires
        id_index(entries, e.uuid) == -1,
    ensures
        id_index(entries.push(e), e.uuid) == entries.len(),
        entries.push(e).remove(entries.len() as int) == entries,
{
    law_get_after_add(entries, e);
    let s = entries.push(e);
    lemma_first_index(s, has_id(e.uuid), 0);
    let k = id_index(s, e.uuid);
    assert(is_first_match(s, has_id(e.uuid), k));
    if k < entries.len() {
        assert(s[k] == entries[k]);
        assert(has_id(e.uuid)(entries[k]));
        lemma_first_index(entries, has_id(e.uuid), 0);
        assert forall|j: int| 0 <= j < k implies !has_id(e.uuid)(#[trigger] entries[j]) by {
            assert(s[j] == entries[j]);
        }
        assert(is_first_match(entries, has_id(e.uuid), k));
        lemma_first_index(entries, has_id(e.uuid), k);
    }
    assert(s.remove(entries.len() as int) =~= entries);
}

/// After an update of the entry `id`, the entry under `id` carries the new
/// fields and keeps its identifier, and the number of entries is unchanged.
pub proof fn law_get_after_update(
    entries: Seq<Entry>,
    id: u128,
    service: Option<String>,
    username: Option<String>,
    secret: Option<String>,
    now: i64,
)
    requires
        id_index(entries, id) >= 0,
    ensures
        ({
            let i = id_index(entries, id);
            let after = entries.update(i, patched(entries[i], service, username, secret, now));
            &&& entry_by_id(after, id) == Some(patched(entries[i], service, username, secret, now))
            &&& after.len() == entries.len()
        }),
{
    let i = id_index(entries, id);
    lemma_first_index(entries, has_id(id), 0);
    assert(is_first_match(entries, has_id(id), i));
    let after = entries.update(i, patched(entries[i], service, username, secret, now));
    assert forall|j: int| 0 <= j < i implies !has_id(id)(#[trigger] after[j]) by {
        assert(after[j] == entries[j]);
    }
    assert(is_first_match(after, has_id(id), i));
    lemma_first_index(after, has_id(id), i);
}

/// A service lookup returns exactly the entries of that service: each result
/// has the service asked for, and every such entry is among the results.
pub proof fn law_lookup_by_service(entries: Seq<Entry>, service: Seq<char>)
    ensures
        forall|k: int|
            0 <= k < entries_for_service(entries, service).len() ==> (#[trigger] entries_for_service(
                entries,
                service,
            )[k]).service@ == service,
        forall|j: int|
            0 <= j < entries.len() && (#[trigger] entries[j]).service@ == service
                ==> entries_for_service(entries, service).contains(entries[j]),
    decreases entries.len(),
{
    if entries.len() > 0 {
        let rest = entries.drop_last();
        law_lookup_by_service(rest, service);
        let r = entries_for_service(rest, service);
        assert forall|j: int|
            0 <= j < entries.len() && (#[trigger] entries[j]).service@ == service
            implies entries_for_service(entries, service).contains(entries[j]) by {
            if j < entries.len() - 1 {
                assert(rest[j] == entries[j]);
                assert(r.contains(rest[j]));
                let w = choose|w: int| 0 <= w < r.len() && r[w] == rest[j];
                if entries.last().service@ == service {
                    assert(r.push(entries.last())[w] == entries[j]);
                }
            } else {
                assert(entries.last() == entries[j]);
                assert(r.push(entries.last())[r.len() as int] == entries[j]);
            }
        }
    }
}

/// The `k`-th hexadecimal digit (0 is the most significant) of the 32-digit
/// form of `id`.
pub open spec fn uuid_nibble(id: u128, k: int) -> nat {
    (((id as int) / pow(16, (31 - k) as nat)) % 16) as nat
}

/// The canonical text of a UUID: 32 lowercase hexadecimal digits in groups of
/// 8, 4, 4, 4 and 12 separated by hyphens.
pub open spec fn uuid_text(id: u128) -> Seq<char> {
    let h = Seq::new(32, |k: int| hex_digit(uuid_nibble(id, k)));
    h.subrange(0, 8) + seq!['-'] + h.subrange(8, 12) + seq!['-'] + h.subrange(12, 16) + seq!['-']
        + h.subrange(16, 20) + seq!['-'] + h.subrange(20, 32)
}

/// The hyphenated text of the UUID `id` (`uuid::Uuid::from_u128(id)` and its
/// `Display`).
#[verifier::external_body]
pub(crate) fn uuid_string(id: u128) -> (res: String)
    ensures
        res@ == uuid_text(id),
{
    uuid::Uuid::from_u128(id).to_string()
}

impl Vault {
    /// Position of the entry with identifier `id`, or `None`.
    fn find_index(&self, id: u128) -> (res: Option<usize>)
        ensures
            match res {
                Some(i) => i as int == id_index(self.entries@, id),
                None => id_index(self.entries@, id) == -1,
            },
    {
        let mut i: usize = 0;
        while i < self.entries.len()
            invariant
                i <= self.entries.len(),
                forall|j: int| 0 <= j < i ==> !has_id(id)(#[trigger] self.entries@[j]),
            decreases self.entries.len() - i,
        {
            if self.entries[i].uuid == id {
                proof {
                    lemma_first_index(self.entries@, has_id(id), i as int);
                }
                return Some(i);
            }
            i = i + 1;
        }
        proof {
            lemma_first_index(self.entries@, has_id(id), 0);
        }
        None
    }

    /// Appends a new entry with a fresh identifier and the current time, and
    /// advances the version. The identifier is one that no entry held, so a
    /// lookup by it reaches the new entry.
    pub fn add_entry(&mut self, service: String, user: String, pass: String)
        requires
            old(self).version < u32::MAX,
        ensures
            final(self).version == old(self).version + 1,
            final(self).history@ == old(self).history@,
            final(self).entries@.len() == old(self).entries@.len() + 1,
            final(self).entries@.drop_last() == old(self).entries@,
            final(self).entries@.last().service == service,
            final(self).entries@.last().username == user,
            final(self).entries@.last().secret == pass,
            id_index(old(self).entries@, final(self).entries@.last().uuid) == -1,
            entry_by_id(final(self).entries@, final(self).entries@.last().uuid) == Some(
                final(self).entries@.last(),
            ),
    {
        let drawn = fresh_uuid();
        let ids = entry_ids_of(&self.entries);
        let id = pick_fresh_id(&ids, drawn);
        let now = now_millis();
        proof {
            lemma_unused_entry_id(self.entries@, id);
        }
        self.add_entry_with(id, now, service, user, pass);
        proof {
            law_get_after_add(old(self).entries@, self.entries@.last());
            assert(self.entries@ =~= old(self).entries@.push(self.entries@.last()));
        }
    }

    /// Appends the entry `id` made of the given fields, changed at `now`, and
    /// advances the version.
    pub fn add_entry_with(&mut self, id: u128, now: i64, service: String, user: String, pass: String)
        requires
            old(self).version < u32::MAX,
        ensures
            final(self).version == old(self).version + 1,
            final(self).history@ == old(self).history@,
            final(self).entries@ == old(self).entries@.push(
                Entry { uuid: id, service, username: user, secret: pass, updated_at: now },
            ),
    {
        let new_entry = Entry { uuid: id, service, username: user, secret: pass, updated_at: now };
        self.entries.push(new_entry);
        self.version = self.version + 1;
    }

    /// All entries, in order.
    pub fn list_entries(&self) -> (res: Vec<Entry>)
        ensures
            res@ == self.entries@,
    {
        clone_entries(&self.entries)
    }

    /// Every entry whose service is `service`, in order.
    pub fn get_entry(&self, service: &str) -> (res: Vec<Entry>)
        ensures
            res@ == entries_for_service(self.entries@, service@),
    {
        let mut res: Vec<Entry> = Vec::new();
        let target = String::from_str(service);
        let mut i: usize = 0;
        while i < self.entries.len()
            invariant
                i <= self.entries.len(),
                target@ == service@,
                res@ == entries_for_service(self.entries@.subrange(0, i as int), service@),
            decreases self.entries.len() - i,
        {
            let ghost prefix = self.entries@.subrange(0, i as int + 1);
            assert(prefix.drop_last() =~= self.entries@.subrange(0, i as int));
            if self.entries[i].service == target {
                res.push(self.entries[i].clone());
            }
            i = i + 1;
        }
        assert(self.entries@.subrange(0, i as int) =~= self.entries@);
        res
    }

    /// The entry with identifier `id`, if there is one.
    pub fn get_entry_by_id(&self, id: u128) -> (res: Option<Entry>)
        ensures
            res == entry_by_id(self.entries@, id),
    {
        match self.find_index(id) {
            Some(i) => Some(self.entries[i].clone()),
            None => None,
        }
    }

    /// Removes the entry with identifier `id`; advances the version when it
    /// existed (which needs room for one more version), and says whether it
    /// did.
    pub fn remove_entry(&mut self, id: u128) -> (res: bool)
        requires
            id_index(old(self).entries@, id) >= 0 ==> old(self).version < u32::MAX,
        ensures
            res == (id_index(old(self).entries@, id) >= 0),
            final(self).history@ == old(self).history@,
            res ==> final(self).entries@ == old(self).entries@.remove(id_index(old(self).entries@, id))
                && final(self).version == old(self).version + 1,
            !res ==> final(self).entries@ == old(self).entries@ && final(self).version
                == old(self).version,
    {
        match self.find_index(id) {
            Some(pos) => {
                self.entries.remove(pos);
                self.version = self.version + 1;
                true
            },
            None => false,
        }
    }

    /// Replaces the given fields of the entry `id` and stamps it with the
    /// current time; advances the version when the entry exists, and says
    /// whether it did.
    pub fn update_entry(
        &mut self,
        id: u128,
        service: Option<String>,
        user: Option<String>,
        pass: Option<String>,
    ) -> (res: bool)
        requires
            id_index(old(self).entries@, id) >= 0 ==> old(self).version < u32::MAX,
        ensures
            res == (id_index(old(self).entries@, id) >= 0),
            final(self).history@ == old(self).history@,
            final(self).entries@.len() == old(self).entries@.len(),
            res ==> final(self).version == old(self).version + 1 && exists|now: i64|
                final(self).entries@ == old(self).entries@.update(
                    id_index(old(self).entries@, id),
                    #[trigger] patched(
                        old(self).entries@[id_index(old(self).entries@, id)],
                        service,
                        user,
                        pass,
                        now,
                    ),
                ),
            !res ==> final(self).entries@ == old(self).entries@ && final(self).version
                == old(self).version,
    {
        let now = now_millis();
        self.update_entry_at(id, service, user, pass, now)
    }

    /// As `update_entry`, with the change time `now`.
    pub fn update_entry_at(
        &mut self,
        id: u128,
        service: Option<String>,
        user: Option<String>,
        pass: Option<String>,
        now: i64,
    ) -> (res: bool)
        requires
            id_index(old(self).entries@, id) >= 0 ==> old(self).version < u32::MAX,
        ensures
            res == (id_index(old(self).entries@, id) >= 0),
            final(self).history@ == old(self).history@,
            res ==> final(self).version == old(self).version + 1 && final(self).entries@
                == old(self).entries@.update(
                id_index(old(self).entries@, id),
                patched(old(self).entries@[id_index(old(self).entries@, id)], service, user, pass, now),
            ),
            !res ==> final(self).entries@ == old(self).entries@ && final(self).version
                == old(self).version,
    {
        match self.find_index(id) {
            Some(pos) => {
                let old_entry = self.entries[pos].clone();
                let new_entry = Entry {
                    uuid: old_entry.uuid,
                    service: match service {
                        Some(s) => s,
                        None => old_entry.service,
                    },
                    username: match user {
                        Some(u) => u,
                        None => old_entry.username,
                    },
                    secret: match pass {
                        Some(p) => p,
                        None => old_entry.secret,
                    },
                    updated_at: now,
                };
                self.entries.set(pos, new_entry);
                self.version = self.version + 1;
                true
            },
            None => false,
        }
    }

    /// The secret of the entry `id`, if there is one.
    pub fn get_secret(&self, id: u128) -> (res: Option<String>)
        ensures
            res == match entry_by_id(self.entries@, id) {
                Some(e) => Some(e.secret),
                None => None,
            },
    {
        match self.find_index(id) {
            Some(i) => Some(self.entries[i].secret.clone()),
            None => None,
        }
    }

    /// All snapshot records, oldest first.
    pub fn get_snapshots(&self) -> (res: Vec<VaultSnapshot>)
        ensures
            res@ == self.history@,
    {
        clone_snapshots(&self.history)
    }

    /// The first snapshot record of the given version, if there is one.
    pub fn get_snapshot_by_version(&self, version: u32) -> (res: Option<VaultSnapshot>)
        ensures
            first_index(self.history@, has_version(version)) >= 0 ==> res == Some(
                self.history@[first_index(self.history@, has_version(version))],
            ),
            first_index(self.history@, has_version(version)) < 0 ==> res is None,
    {
        let mut i: usize = 0;
        while i < self.history.len()
            invariant
                i <= self.history.len(),
                forall|j: int| 0 <= j < i ==> !has_version(version)(#[trigger] self.history@[j]),
            decreases self.history.len() - i,
        {
            if self.history[i].version == version {
                proof {
                    lemma_first_index(self.history@, has_version(version), i as int);
                }
                return Some(self.history[i].clone());
            }
            i = i + 1;
        }
        proof {
            lemma_first_index(self.history@, has_version(version), 0);
        }
        None
    }

    /// Replaces all entries by `entries` and advances the version.
    pub fn restore_entries(&mut self, entries: Vec<Entry>) -> (res: bool)
        requires
            old(self).version < u32::MAX,
        ensures
            res,
            final(self).version == old(self).version + 1,
            final(self).entries@ == entries@,
            final(self).history@ == old(self).history@,
    {
        self.version = self.version + 1;
        self.entries = entries;
        true
    }
}

/// Length of the salt that `derive_key_argon2id` uses.
pub open spec fn salt_len_used(salt_opt: Option<&[u8]>, salt_len: usize) -> nat {
    match salt_opt {
        Some(s) => s@.len(),
        None => salt_len as nat,
    }
}

/// Derives a `key_len`-byte key from `password` with Argon2id. The salt is
/// `salt_opt` when given, else `salt_len` fresh random bytes. Returns the key
/// and the salt used, or the message `argon2 error: ...` when Argon2 refuses
/// the lengths.
pub fn derive_key_argon2id(
    password: &str,
    salt_opt: Option<&[u8]>,
    salt_len: usize,
    key_len: usize,
) -> (res: Result<(Vec<u8>, Vec<u8>), String>)
    ensures
        res is Ok <==> argon2_accepts(
            password.spec_bytes().len(),
            salt_len_used(salt_opt, salt_len),
            key_len as nat,
        ),
        res matches Ok((key, salt)) ==> {
            &&& key@ == argon2id_digest(password.spec_bytes(), salt@, key_len as nat)
            &&& key@.len() == key_len
            &&& salt@.len() == salt_len_used(salt_opt, salt_len)
            &&& salt_opt matches Some(s) ==> salt@ == s@
        },
        res matches Err(msg) ==> "argon2 error: "@.is_prefix_of(msg@),
{
    let salt: Vec<u8> = match salt_opt {
        Some(s) => vstd::slice::slice_to_vec(s),
        None => random_bytes(salt_len),
    };
    match argon2id_hash(password.as_bytes(), salt.as_slice(), key_len) {
        Ok(out) => Ok((out, salt)),
        Err(e) => {
            let text = argon2_error_text(&e);
            let msg = concat_str("argon2 error: ", text.as_str());
            proof {
                assert(msg@.subrange(0, "argon2 error: "@.len() as int) =~= "argon2 error: "@);
            }
            Err(msg)
        },
    }
}

} // verus!

verus! {

/// The least identifier that `ids` does not hold.
pub open spec fn least_unused(ids: Seq<u128>) -> u128 {
    choose|v: u128| !ids.contains(v) && forall|w: u128| w < v ==> ids.contains(w)
}

/// The identifier a new record gets when `candidate` was drawn for it: the
/// candidate itself when no record holds it yet, otherwise the least free
/// identifier, so that records never share an identifier.
pub open spec fn fresh_id(ids: Seq<u128>, candidate: u128) -> u128 {
    if ids.contains(candidate) {
        least_unused(ids)
    } else {
        candidate
    }
}

/// The identifiers of `entries`, in order.
pub open spec fn entry_ids(entries: Seq<Entry>) -> Seq<u128> {
    entries.map_values(|e: Entry| e.uuid)
}

/// The identifiers of the snapshot records `h`, in order.
pub open spec fn snapshot_ids(h: Seq<VaultSnapshot>) -> Seq<u128> {
    h.map_values(|s: VaultSnapshot| s.uuid)
}

/// If every number below `v` occurs in `ids`, then `ids` has at least `v`
/// elements.
pub proof fn lemma_pigeonhole(ids: Seq<int>, v: int)
    requires
        0 <= v,
        forall|j: int| 0 <= j < v ==> ids.contains(j),
    ensures
        v <= ids.len(),
    decreases ids.len(),
{
    if v > 0 {
        assert(ids.contains(0));
        let last = ids.last();
        let rest = ids.drop_last();
        let r2 = rest.map_values(|x: int| if x > last { x - 1 } else { x });
        assert forall|j: int| 0 <= j < v - 1 implies r2.contains(j) by {
            let t = if j < last { j } else { j + 1 };
            assert(ids.contains(t));
            let k = choose|k: int| 0 <= k < ids.len() && ids[k] == t;
            assert(k < ids.len() - 1);
            assert(rest[k] == t);
            assert(r2[k] == j);
        }
        lemma_pigeonhole(r2, v - 1);
    }
}

/// Whether `ids` holds `x`.
fn holds_id(ids: &Vec<u128>, x: u128) -> (res: bool)
    ensures
        res == ids@.contains(x),
{
    let mut i: usize = 0;
    while i < ids.len()
        invariant
            i <= ids.len(),
            forall|j: int| 0 <= j < i ==> ids@[j] != x,
        decreases ids.len() - i,
    {
        if ids[i] == x {
            return true;
        }
        i = i + 1;
    }
    false
}

/// The identifier for a new record drawn as `candidate`, among the
/// identifiers `ids` already in use: see `fresh_id`.
pub fn pick_fresh_id(ids: &Vec<u128>, candidate: u128) -> (res: u128)
    ensures
        res == fresh_id(ids@, candidate),
        !ids@.contains(res),
{
    if !holds_id(ids, candidate) {
        return candidate;
    }
    let mut v: u128 = 0;
    while holds_id(ids, v)
        invariant
            v <= ids.len(),
            forall|w: u128| w < v ==> ids@.contains(w),
        decreases ids.len() - v,
    {
        proof {
            let ints = ids@.map_values(|x: u128| x as int);
            assert forall|j: int| 0 <= j < v + 1 implies ints.contains(j) by {
                let w = j as u128;
                assert(ids@.contains(w));
                let k = choose|k: int| 0 <= k < ids@.len() && ids@[k] == w;
                assert(ints[k] == j);
            }
            lemma_pigeonhole(ints, v + 1);
        }
        v = v + 1;
    }
    proof {
        let c = least_unused(ids@);
        assert(!ids@.contains(v) && forall|w: u128| w < v ==> ids@.contains(w));
        assert(!ids@.contains(c) && forall|w: u128| w < c ==> ids@.contains(w));
        if c < v {
            assert(ids@.contains(c));
        }
        if v < c {
            assert(ids@.contains(v));
        }
    }
    v
}

/// The identifiers of `entries`.
pub fn entry_ids_of(entries: &Vec<Entry>) -> (res: Vec<u128>)
    ensures
        res@ == entry_ids(entries@),
{
    let mut res: Vec<u128> = Vec::new();
    let mut i: usize = 0;
    while i < entries.len()
        invariant
            i <= entries.len(),
            res@ == entry_ids(entries@.take(i as int)),
        decreases entries.len() - i,
    {
        res.push(entries[i].uuid);
        i = i + 1;
        assert(entry_ids(entries@.take(i as int)) =~= res@);
    }
    assert(entries@.take(i as int) =~= entries@);
    res
}

/// The identifiers of the snapshot records `h`.
pub fn snapshot_ids_of(h: &Vec<VaultSnapshot>) -> (res: Vec<u128>)
    ensures
        res@ == snapshot_ids(h@),
{
    let mut res: Vec<u128> = Vec::new();
    let mut i: usize = 0;
    while i < h.len()
        invariant
            i <= h.len(),
            res@ == snapshot_ids(h@.take(i as int)),
        decreases h.len() - i,
    {
        res.push(h[i].uuid);
        i = i + 1;
        assert(snapshot_ids(h@.take(i as int)) =~= res@);
    }
    assert(h@.take(i as int) =~= h@);
    res
}

/// The identifier `fresh_id` gives is free, and it is the drawn one
/// whenever that one was free.
pub proof fn lemma_fresh_id_unused(ids: Seq<u128>, candidate: u128)
    requires
        ids.len() <= usize::MAX,
    ensures
        !ids.contains(fresh_id(ids, candidate)),
        !ids.contains(candidate) ==> fresh_id(ids, candidate) == candidate,
{
    if ids.contains(candidate) {
        // the least value missing from ids exists: not all of 0..=len occur
        let ints = ids.map_values(|x: u128| x as int);
        let n = ids.len() as int + 1;
        if forall|w: u128| w < n ==> ids.contains(w) {
            assert forall|j: int| 0 <= j < n implies ints.contains(j) by {
                let w = j as u128;
                assert(ids.contains(w));
                let k = choose|k: int| 0 <= k < ids.len() && ids[k] == w;
                assert(ints[k] == j);
            }
            lemma_pigeonhole(ints, n);
        }
        let m = choose|w: u128| w < n && !ids.contains(w);
        lemma_least_missing(ids, m);
    }
}

/// Below a value missing from `ids` lies a least missing value.
proof fn lemma_least_missing(ids: Seq<u128>, m: u128)
    requires
        !ids.contains(m),
    ensures
        !ids.contains(least_unused(ids)),
        forall|w: u128| w < least_unused(ids) ==> ids.contains(w),
    decreases m,
{
    if exists|w: u128| w < m && !ids.contains(w) {
        let w = choose|w: u128| w < m && !ids.contains(w);
        lemma_least_missing(ids, w);
    } else {
        assert(!ids.contains(m) && forall|w: u128| w < m ==> ids.contains(w));
    }
}

/// An identifier that no entry holds has no position among the entries.
pub proof fn lemma_unused_entry_id(entries: Seq<Entry>, id: u128)
    requires
        !entry_ids(entries).contains(id),
    ensures
        id_index(entries, id) == -1,
{
    assert forall|j: int| 0 <= j < entries.len() implies !has_id(id)(#[trigger] entries[j]) by {
        if entries[j].uuid == id {
            assert(entry_ids(entries)[j] == id);
        }
    }
    lemma_first_index(entries, has_id(id), 0);
}

} // verus!
