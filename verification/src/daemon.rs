//! The daemon's decisions: which requests need an unlocked vault, the
//! snapshot taken before each change, pruning of old snapshot files, locking
//! (on request and after inactivity) and the answer to every request. The
//! daemon's I/O (socket, files, serialization) is done by its caller, which
//! hands the outcomes back to these functions.

use vstd::prelude::*;

use crate::config::DaemonConfig;
use crate::generator::{generate, GeneratorConfig, GeneratorMode};
use crate::ipc::{EntryInput, EntryUpdateInput, Request, Response, VaultListPayload, VaultSnapshotPayload};
use crate::text::{concat_str, decimal, decimal_string};
use crate::vault::{
    clone_entries, entry_by_id, entries_for_service, fresh_id, id_index, lemma_fresh_id_unused, pick_fresh_id, snapshot_ids,
    snapshot_ids_of,
    uuid_string, uuid_text,
    Entry, Vault, VaultSnapshot,
};

verus! {

/// The number of snapshot records that still name a file.
pub open spec fn file_count(h: Seq<VaultSnapshot>) -> nat
    decreases h.len(),
{
    if h.len() == 0 {
        0
    } else {
        file_count(h.drop_last()) + if h.last().file_ref is Some {
            1nat
        } else {
            0nat
        }
    }
}

/// Whether pruning `over` files clears the file of record `i`: it names a
/// file and fewer than `over` records before it do.
pub open spec fn is_cleared(h: Seq<VaultSnapshot>, over: nat, i: int) -> bool {
    h[i].file_ref is Some && file_count(h.take(i)) < over
}

/// The history after dropping the files of its `over` oldest records that
/// name one.
pub open spec fn pruned(h: Seq<VaultSnapshot>, over: nat) -> Seq<VaultSnapshot> {
    Seq::new(
        h.len(),
        |i: int|
            if is_cleared(h, over, i) {
                VaultSnapshot { file_ref: None, ..h[i] }
            } else {
                h[i]
            },
    )
}

/// The files that pruning `over` removes from the first `n` records, oldest
/// first.
pub open spec fn cleared_paths(h: Seq<VaultSnapshot>, over: nat, n: int) -> Seq<Seq<char>>
    decreases n,
{
    if n <= 0 {
        Seq::empty()
    } else if is_cleared(h, over, n - 1) {
        cleared_paths(h, over, n - 1).push(h[n - 1].file_ref->0@)
    } else {
        cleared_paths(h, over, n - 1)
    }
}

/// How many files pruning removes to keep at most `max` (0 keeps all).
pub open spec fn excess(h: Seq<VaultSnapshot>, max: nat) -> nat {
    if max == 0 || file_count(h) <= max {
        0
    } else {
        (file_count(h) - max) as nat
    }
}

proof fn lemma_file_count_step(h: Seq<VaultSnapshot>, i: int)
    requires
        0 <= i < h.len(),
    ensures
        file_count(h.take(i + 1)) == file_count(h.take(i)) + if h[i].file_ref is Some {
            1nat
        } else {
            0nat
        },
{
    assert(h.take(i + 1).drop_last() =~= h.take(i));
}

/// Keeps at most `max_snapshots` snapshot files (0 keeps all): the oldest
/// records that name a file lose it. Returns the files to delete, oldest
/// first.
pub fn prune_excess_snapshots(vault: &mut Vault, max_snapshots: usize) -> (removed: Vec<String>)
    ensures
        final(vault).version == old(vault).version,
        final(vault).entries@ == old(vault).entries@,
        final(vault).history@ == pruned(old(vault).history@, excess(old(vault).history@, max_snapshots as nat)),
        removed@.map_values(|p: String| p@) == cleared_paths(
            old(vault).history@,
            excess(old(vault).history@, max_snapshots as nat),
            old(vault).history@.len() as int,
        ),
{
    let ghost h = vault.history@;
    let mut removed: Vec<String> = Vec::new();
    // count the records that name a file
    let mut count: usize = 0;
    let mut i: usize = 0;
    while i < vault.history.len()
        invariant
            i <= vault.history.len(),
            vault.history@ == h,
            count == file_count(h.take(i as int)),
            count <= i,
        decreases vault.history.len() - i,
    {
        proof {
            lemma_file_count_step(h, i as int);
        }
        if vault.history[i].file_ref.is_some() {
            count = count + 1;
        }
        i = i + 1;
    }
    proof {
        assert(h.take(h.len() as int) =~= h);
    }
    let over: usize = if max_snapshots == 0 || count <= max_snapshots {
        0
    } else {
        count - max_snapshots
    };
    assert(over == excess(h, max_snapshots as nat));
    let ghost target = pruned(h, over as nat);
    let mut seen: usize = 0;
    let mut j: usize = 0;
    proof {
        assert(removed@.map_values(|p: String| p@) =~= cleared_paths(h, over as nat, 0));
    }
    while j < vault.history.len()
        invariant
            j <= vault.history.len(),
            vault.history@.len() == h.len(),
            vault.version == old(vault).version,
            vault.entries@ == old(vault).entries@,
            h == old(vault).history@,
            target == pruned(h, over as nat),
            seen == file_count(h.take(j as int)),
            seen <= j,
            forall|k: int| 0 <= k < j ==> vault.history@[k] == target[k],
            forall|k: int| j <= k < h.len() ==> vault.history@[k] == h[k],
            removed@.map_values(|p: String| p@) == cleared_paths(h, over as nat, j as int),
        decreases vault.history.len() - j,
    {
        proof {
            lemma_file_count_step(h, j as int);
        }
        let ghost before = removed@.map_values(|p: String| p@);
        if vault.history[j].file_ref.is_some() {
            if seen < over {
                let snap = vault.history[j].clone();
                let path = match snap.file_ref {
                    Some(p) => p,
                    None => String::new(),
                };
                removed.push(path);
                let cleared = VaultSnapshot { file_ref: None, ..snap };
                vault.history.set(j, cleared);
                proof {
                    assert(removed@.map_values(|p: String| p@) =~= before.push(h[j as int].file_ref->0@));
                }
            }
            seen = seen + 1;
        }
        j = j + 1;
    }
    proof {
        assert(vault.history@ =~= target);
    }
    removed
}

/// Pruning leaves exactly `max` files when there were more (and `max` is not
/// 0), keeps every record, and changes nothing but the file of a record.
pub proof fn law_prune_keeps_at_most_max(h: Seq<VaultSnapshot>, max: nat)
    ensures
        pruned(h, excess(h, max)).len() == h.len(),
        max > 0 && file_count(h) > max ==> file_count(pruned(h, excess(h, max))) == max,
        max == 0 || file_count(h) <= max ==> pruned(h, excess(h, max)) == h,
        forall|i: int|
            0 <= i < h.len() ==> ({
                let p = #[trigger] pruned(h, excess(h, max))[i];
                p.uuid == h[i].uuid && p.version == h[i].version && p.checksum == h[i].checksum
                    && p.reason == h[i].reason && p.created_at == h[i].created_at
            }),
{
    let over = excess(h, max);
    lemma_pruned_count(h, over, h.len() as int);
    assert(h.take(h.len() as int) =~= h);
    assert(pruned(h, over).take(h.len() as int) =~= pruned(h, over));
    if over == 0 {
        assert(pruned(h, over) =~= h);
    }
}

/// Counting files in a prefix of the pruned history.
proof fn lemma_pruned_count(h: Seq<VaultSnapshot>, over: nat, n: int)
    requires
        0 <= n <= h.len(),
    ensures
        file_count(pruned(h, over).take(n)) == file_count(h.take(n)) - min_nat(over, file_count(h.take(n))),
    decreases n,
{
    if n > 0 {
        lemma_pruned_count(h, over, n - 1);
        lemma_file_count_step(h, n - 1);
        lemma_file_count_step(pruned(h, over), n - 1);
    } else {
        assert(h.take(0) =~= Seq::<VaultSnapshot>::empty());
        assert(pruned(h, over).take(0) =~= Seq::<VaultSnapshot>::empty());
    }
}

/// The smaller of two naturals.
pub open spec fn min_nat(a: nat, b: nat) -> nat {
    if a <= b {
        a
    } else {
        b
    }
}

/// The response is an error with message `m`.
pub open spec fn is_error(r: Response, m: Seq<char>) -> bool {
    r matches Response::Error(x) && x@ == m
}

/// The response is a success carrying `m`.
pub open spec fn is_success(r: Response, m: Seq<char>) -> bool {
    r matches Response::Success(x) && x@ == m
}

/// Requests that are answered while the vault is locked: ping, unlock, lock
/// and password generation. All others need an unlocked vault.
pub open spec fn needs_auth_spec(req: Request) -> bool {
    !(req is Ping || req is Unlock || req is Lock || req is PasswordGen)
}

/// Requests that change the vault, before which a snapshot is taken.
pub open spec fn is_mutation_spec(req: Request) -> bool {
    req is AddEntry || req is UpdateEntry || req is DeleteEntry || req is UpdateMasterPassword
}

/// The daemon refuses `req` because the vault is locked.
pub open spec fn refused_as_locked(s: DaemonState, req: Request) -> bool {
    needs_auth_spec(req) && !s.authenticated
}

/// Every request that changes the vault needs an unlocked vault, so no change
/// (and no snapshot) happens while the vault is locked.
pub proof fn law_mutations_need_unlock(req: Request)
    ensures
        is_mutation_spec(req) ==> needs_auth_spec(req),
{
}

/// Once the vault is locked (by a lock request or after inactivity), every
/// request except ping, unlock, lock and password generation is refused, and
/// those four are never refused as locked.
pub proof fn law_locked_vault_refuses(s: DaemonState, req: Request)
    requires
        !s.authenticated,
    ensures
        refused_as_locked(s, req) <==> !(req is Ping || req is Unlock || req is Lock || req is PasswordGen),
{
}

/// Whether `req` needs an unlocked vault.
pub fn needs_auth(req: &Request) -> (res: bool)
    ensures
        res == needs_auth_spec(*req),
{
    !matches!(req, Request::Ping | Request::Unlock { .. } | Request::Lock | Request::PasswordGen { .. })
}

/// Whether `req` changes the vault.
pub fn is_mutation(req: &Request) -> (res: bool)
    ensures
        res == is_mutation_spec(*req),
{
    matches!(
        req,
        Request::AddEntry { .. } | Request::UpdateEntry { .. } | Request::DeleteEntry { .. }
            | Request::UpdateMasterPassword { .. }
    )
}

/// The reason recorded with the snapshot taken before `req`.
pub open spec fn reason_text(req: Request, vault: Option<Vault>) -> Seq<char> {
    match req {
        Request::AddEntry { entry_ctx } => "Add entry: "@ + entry_ctx.service@,
        Request::DeleteEntry { uuid } => "Delete entry: "@ + match vault {
            Some(v) => match entry_by_id(v.entries@, uuid) {
                Some(e) => e.service@,
                None => "Unknown"@,
            },
            None => "Unknown"@,
        },
        Request::UpdateEntry { entry_ctx } => "Update entry: "@ + match entry_ctx.service {
            Some(s) => s@,
            None => "Unknown"@,
        },
        Request::UpdateMasterPassword { .. } => "Master password rotation"@,
        Request::RestoreSnapshot { version, uuid } => "Restore snapshot "@ + uuid_text(uuid)
            + " (version "@ + decimal(version as nat) + ")"@,
        _ => "Unknown reason"@,
    }
}

/// The reason recorded with the snapshot taken before `req`.
pub fn snapshot_reason(req: &Request, vault: &Option<Vault>) -> (res: String)
    ensures
        res@ == reason_text(*req, *vault),
{
    match req {
        Request::AddEntry { entry_ctx } => concat_str("Add entry: ", entry_ctx.service.as_str()),
        Request::DeleteEntry { uuid } => {
            let name = match vault {
                Some(v) => match v.get_entry_by_id(*uuid) {
                    Some(e) => e.service,
                    None => String::from_str("Unknown"),
                },
                None => String::from_str("Unknown"),
            };
            concat_str("Delete entry: ", name.as_str())
        },
        Request::UpdateEntry { entry_ctx } => match &entry_ctx.service {
            Some(s) => concat_str("Update entry: ", s.as_str()),
            None => concat_str("Update entry: ", "Unknown"),
        },
        Request::UpdateMasterPassword { .. } => String::from_str("Master password rotation"),
        Request::RestoreSnapshot { version, uuid } => {
            let id = uuid_string(*uuid);
            let v = decimal_string(*version as u64);
            let a = concat_str("Restore snapshot ", id.as_str());
            let b = concat_str(a.as_str(), " (version ");
            let c = concat_str(b.as_str(), v.as_str());
            concat_str(c.as_str(), ")")
        },
        _ => String::from_str("Unknown reason"),
    }
}

/// An error response with message `prefix` followed by `detail`.
pub fn error_with(prefix: &str, detail: &str) -> (res: Response)
    ensures
        is_error(res, prefix@ + detail@),
{
    Response::Error(concat_str(prefix, detail))
}

/// An error response with message `m`.
pub fn error_of(m: &str) -> (res: Response)
    ensures
        is_error(res, m@),
{
    Response::Error(String::from_str(m))
}

/// A success response carrying `m`.
pub fn success_of(m: &str) -> (res: Response)
    ensures
        is_success(res, m@),
{
    Response::Success(String::from_str(m))
}

/// What the caller does first with a request.
pub enum Gate {
    /// Answer at once.
    Respond(Response),
    /// Write a snapshot of the current entries (at the current version),
    /// encrypted with `password` and recorded with `reason`, then hand the
    /// outcome to `record_backup`.
    Backup { password: String, reason: String },
    /// Go on with the request.
    Proceed,
}

/// What the caller does after a handler changed the vault.
pub enum Step {
    /// Answer at once.
    Respond(Response),
    /// Save the vault, then hand the outcome to `finish_save`.
    SaveVault(SaveStep),
}

/// The answers to give once the vault is saved.
pub struct SaveStep {
    pub success: String,
    pub failure_prefix: String,
}

/// The answer once the vault save of `step` ended with `outcome`.
pub fn finish_save(step: SaveStep, outcome: Result<(), String>) -> (res: Response)
    ensures
        outcome is Ok ==> is_success(res, step.success@),
        outcome matches Err(e) ==> is_error(res, step.failure_prefix@ + e@),
{
    match outcome {
        Ok(()) => Response::Success(step.success),
        Err(e) => Response::Error(concat_str(step.failure_prefix.as_str(), e.as_str())),
    }
}

/// A save step with the given messages.
fn save_step(success: &str, failure_prefix: &str) -> (res: Step)
    ensures
        res matches Step::SaveVault(s) && s.success@ == success@ && s.failure_prefix@ == failure_prefix@,
{
    Step::SaveVault(SaveStep { success: String::from_str(success), failure_prefix: String::from_str(failure_prefix) })
}

/// The daemon's memory: the unlocked vault and master password, if any,
/// whether the daemon runs, and the time (milliseconds of a monotonic clock)
/// of the last request with the inactivity limit.
pub struct DaemonState {
    pub vault: Option<Vault>,
    pub authenticated: bool,
    pub running: bool,
    pub master_password: Option<String>,
    pub last_activity: u128,
    pub auto_lock_timeout: u128,
}

/// The daemon's answers to requests that do not touch the vault.
pub fn ping() -> (res: Response)
    ensures
        is_success(res, "Pong!"@),
{
    success_of("Pong!")
}

/// Whether `s` is `"passphrase"` or `"password"`, the generation kinds the
/// daemon knows.
fn is_generation_kind(s: &str) -> (res: bool)
    ensures
        res == (s@ == "passphrase"@ || s@ == "password"@),
{
    let t = String::from_str(s);
    t == String::from_str("passphrase") || t == String::from_str("password")
}

/// The answer to a password-generation request of kind `pass_type`, with the
/// generator settings of `config` and the passphrase words `wordlist`.
pub fn password_gen(pass_type: &str, config: &DaemonConfig, wordlist: &Vec<String>) -> (res: Response)
    requires
        crate::generator::can_generate(config.password_generation, wordlist@),
    ensures
        !(pass_type@ == "passphrase"@ || pass_type@ == "password"@) ==> is_error(
            res,
            "Invalid password generation type: "@ + pass_type@,
        ),
        (pass_type@ == "passphrase"@ || pass_type@ == "password"@) ==> if generate_spec_ok(
            config.password_generation,
        ) {
            res matches Response::Success(p) && crate::generator::is_generated(
                config.password_generation,
                wordlist@,
                p@,
            )
        } else {
            is_error(
                res,
                "Failed to generate password: "@ + crate::generator::generation_error(config.password_generation),
            )
        },
{
    if !is_generation_kind(pass_type) {
        return error_with("Invalid password generation type: ", pass_type);
    }
    match generate(config.password_generation, wordlist) {
        Ok(p) => Response::Success(p),
        Err(e) => error_with("Failed to generate password: ", e),
    }
}

/// Whether the generator produces a secret with the settings `c`.
pub open spec fn generate_spec_ok(c: GeneratorConfig) -> bool {
    match c.mode {
        GeneratorMode::RandomChars => c.lowercase || c.uppercase || c.numbers || c.symbols,
        GeneratorMode::Passphrase => c.word_count > 0,
    }
}

impl DaemonState {
    /// The vault, the authentication flag and the password are present
    /// together: the vault is unlocked exactly when the daemon holds both.
    pub open spec fn wf(&self) -> bool {
        &&& self.authenticated == self.vault is Some
        &&& self.authenticated == self.master_password is Some
    }

    /// The loaded vault, if any, can still advance its version.
    pub open spec fn can_mutate(&self) -> bool {
        self.vault matches Some(v) ==> v.version < u32::MAX
    }

    /// A change of the entry `id` can advance the version: the entry is
    /// absent (nothing changes) or the version has room for one more.
    pub open spec fn can_change(&self, id: u128) -> bool {
        match self.vault {
            Some(v) => id_index(v.entries@, id) >= 0 ==> v.version < u32::MAX,
            None => true,
        }
    }

    /// The state of a daemon just started at time `now`: locked, running, and
    /// locking again after `config.auto_lock_timeout` seconds of inactivity.
    pub fn new(config: &DaemonConfig, now: u128) -> (res: Self)
        ensures
            res.wf(),
            !res.authenticated,
            res.running,
            res.vault is None,
            res.master_password is None,
            res.last_activity == now,
            res.auto_lock_timeout == config.auto_lock_timeout as u128 * 1000,
    {
        DaemonState {
            vault: None,
            authenticated: false,
            running: true,
            master_password: None,
            last_activity: now,
            auto_lock_timeout: config.auto_lock_timeout as u128 * 1000,
        }
    }

    /// Records a request at time `now`.
    pub fn update_activity(&mut self, now: u128)
        ensures
            final(self).last_activity == now,
            final(self).vault == old(self).vault,
            final(self).authenticated == old(self).authenticated,
            final(self).running == old(self).running,
            final(self).master_password == old(self).master_password,
            final(self).auto_lock_timeout == old(self).auto_lock_timeout,
    {
        self.last_activity = now;
    }

    /// Forgets the vault and the password.
    fn clear(&mut self)
        ensures
            !final(self).authenticated,
            final(self).vault is None,
            final(self).master_password is None,
            final(self).running == old(self).running,
            final(self).last_activity == old(self).last_activity,
            final(self).auto_lock_timeout == old(self).auto_lock_timeout,
    {
        self.vault = None;
        self.authenticated = false;
        self.master_password = None;
    }

    /// Whether the vault locks itself at time `now`: it is unlocked, the
    /// limit is not 0 (0 turns the automatic lock off), and it has been idle
    /// for longer than the limit.
    pub open spec fn idle_expired(&self, now: u128) -> bool {
        self.authenticated && self.auto_lock_timeout > 0 && now - self.last_activity > self.auto_lock_timeout
    }

    /// The housekeeping tick at time `now`: an unlocked vault that has been
    /// idle for longer than the limit is locked and forgotten.
    pub fn process_events(&mut self, now: u128)
        requires
            old(self).wf(),
        ensures
            final(self).wf(),
            final(self).running == old(self).running,
            final(self).last_activity == old(self).last_activity,
            final(self).auto_lock_timeout == old(self).auto_lock_timeout,
            old(self).idle_expired(now) ==> (
            !final(self).authenticated && final(self).vault is None && final(self).master_password is None),
            !old(self).idle_expired(now) ==> (
            final(self).vault == old(self).vault && final(self).authenticated == old(self).authenticated
                && final(self).master_password == old(self).master_password),
    {
        if self.authenticated && self.auto_lock_timeout > 0 && now >= self.last_activity && now - self.last_activity
            > self.auto_lock_timeout {
            self.clear();
        }
    }

    /// The first step of every request: records the activity at `now`, refuses
    /// requests that need an unlocked vault while it is locked, and asks for a
    /// snapshot before a change to the vault.
    pub fn begin_request(&mut self, req: &Request, now: u128) -> (res: Gate)
        requires
            old(self).wf(),
        ensures
            request_begun(*old(self), *final(self), *req, now, res),
    {
        self.update_activity(now);
        if needs_auth(req) && !self.authenticated {
            return Gate::Respond(error_of("Vault is locked"));
        }
        if is_mutation(req) {
            if !self.authenticated {
                return Gate::Respond(error_of("Vault is locked"));
            }
            let reason = snapshot_reason(req, &self.vault);
            let password = match &self.master_password {
                Some(p) => p.clone(),
                None => return Gate::Respond(error_of("No password in memory")),
            };
            if self.vault.is_some() {
                return Gate::Backup { password, reason };
            }
        }
        Gate::Proceed
    }

    /// Records the snapshot written before a change (`outcome`) and prunes
    /// the snapshot files beyond `max_snapshots`. Returns the files to delete,
    /// or the answer when the snapshot failed.
    pub fn record_backup(&mut self, outcome: Result<VaultSnapshot, String>, max_snapshots: usize) -> (res:
        Result<Vec<String>, Response>)
        requires
            old(self).wf(),
            old(self).vault is Some,
        ensures
            backup_recorded(*old(self), *final(self), outcome, max_snapshots, res),
    {
        match outcome {
            Ok(meta) => {
                let mut vault = match self.vault.take() {
                    Some(v) => v,
                    None => Vault::default(),
                };
                let meta = fresh_record(&vault.history, meta);
                vault.history.push(meta);
                let removed = prune_excess_snapshots(&mut vault, max_snapshots);
                self.vault = Some(vault);
                Ok(removed)
            },
            Err(e) => Err(error_with("Snapshot failed: ", e.as_str())),
        }
    }

    /// Locks the vault and forgets it with the password.
    pub fn handle_lock(&mut self) -> (res: Response)
        ensures
            locked(*old(self), *final(self), res),
    {
        self.clear();
        success_of("Vault locked and memory cleared")
    }

    /// Unlocking when no vault file existed: a new empty vault was encrypted
    /// with `password` and saved with `saved` as outcome.
    pub fn complete_unlock_new(&mut self, password: String, saved: Result<(), String>) -> (res: Response)
        requires
            old(self).wf(),
        ensures
            unlocked_new(*old(self), *final(self), password, saved, res),
    {
        match saved {
            Ok(()) => {
                self.vault = Some(Vault::default());
                self.authenticated = true;
                self.master_password = Some(password);
                success_of("Vault initialized and unlocked")
            },
            Err(e) => error_with("Failed to initialize vault: ", e.as_str()),
        }
    }

    /// Unlocking an existing vault file: `loaded` is the outcome of opening it
    /// with `password`.
    pub fn complete_unlock_existing(&mut self, password: String, loaded: Result<Vault, String>) -> (res:
        Response)
        requires
            old(self).wf(),
        ensures
            unlocked_existing(*old(self), *final(self), password, loaded, res),
    {
        match loaded {
            Ok(v) => {
                self.vault = Some(v);
                self.authenticated = true;
                self.master_password = Some(password);
                success_of("Vault unlocked successfully")
            },
            Err(e) => error_with("Failed to load vault: ", e.as_str()),
        }
    }
}

/// The path, password and reason of a snapshot restoration.
pub struct RestorePlan {
    pub path: String,
    pub password: String,
    pub reason: String,
}

/// The position of the first snapshot record with identifier `id`, or -1.
pub open spec fn snapshot_index(h: Seq<VaultSnapshot>, id: u128) -> int {
    crate::vault::first_index(h, |s: VaultSnapshot| s.uuid == id)
}

/// The record `meta` as it joins the history `h`: its identifier made
/// fresh (see `fresh_id`).
pub open spec fn with_fresh_uuid(h: Seq<VaultSnapshot>, meta: VaultSnapshot) -> VaultSnapshot {
    VaultSnapshot { uuid: fresh_id(snapshot_ids(h), meta.uuid), ..meta }
}

/// `meta` with an identifier that no record of `h` holds.
pub fn fresh_record(h: &Vec<VaultSnapshot>, meta: VaultSnapshot) -> (res: VaultSnapshot)
    ensures
        res == with_fresh_uuid(h@, meta),
        !snapshot_ids(h@).contains(res.uuid),
{
    let ids = snapshot_ids_of(h);
    let id = pick_fresh_id(&ids, meta.uuid);
    VaultSnapshot { uuid: id, ..meta }
}

/// A record whose identifier no earlier record holds is the one a lookup by
/// that identifier finds once it joins the history.
pub proof fn lemma_fresh_record_found(h: Seq<VaultSnapshot>, r: VaultSnapshot)
    requires
        !snapshot_ids(h).contains(r.uuid),
    ensures
        snapshot_index(h, r.uuid) == -1,
        snapshot_index(h.push(r), r.uuid) == h.len(),
{
    let p = |s: VaultSnapshot| s.uuid == r.uuid;
    let s = h.push(r);
    assert forall|j: int| 0 <= j < h.len() implies !p(#[trigger] h[j]) by {
        if h[j].uuid == r.uuid {
            assert(snapshot_ids(h)[j] == r.uuid);
        }
    }
    crate::vault::lemma_first_index(h, p, 0);
    assert forall|j: int| 0 <= j < h.len() implies !p(#[trigger] s[j]) by {
        assert(s[j] == h[j]);
    }
    assert(crate::vault::is_first_match(s, p, h.len() as int));
    crate::vault::lemma_first_index(s, p, h.len() as int);
}

/// The answer when the snapshot file to restore could not be read.
pub fn fail_restore_load(e: &str) -> (res: Response)
    ensures
        is_error(res, "Fail to load snapshot from disk: "@ + e@),
{
    error_with("Fail to load snapshot from disk: ", e)
}

/// The answer to a master-password change whose re-encryption ended with
/// `outcome`.
pub fn finish_password_update(outcome: Result<(), String>) -> (res: Response)
    ensures
        outcome is Ok ==> is_success(res, "Master password updated successfully"@),
        outcome matches Err(e) ==> is_error(res, "Failed to update master password: "@ + e@),
{
    match outcome {
        Ok(()) => success_of("Master password updated successfully"),
        Err(e) => error_with("Failed to update master password: ", e.as_str()),
    }
}

impl DaemonState {
    /// Adds an entry with the fields of `entry_ctx` to the unlocked vault.
    pub fn handle_add_entry(&mut self, entry_ctx: EntryInput) -> (res: Step)
        requires
            old(self).wf(),
            old(self).can_mutate(),
        ensures
            added(*old(self), *final(self), entry_ctx, res),
    {
        match self.vault.take() {
            Some(mut vault) => {
                vault.add_entry(entry_ctx.service, entry_ctx.username, entry_ctx.password);
                self.vault = Some(vault);
                save_step("Entry added", "Save failed: ")
            },
            None => Step::Respond(error_of("Vault not loaded")),
        }
    }

    /// The entries and version of the unlocked vault, for a listing.
    pub fn handle_list_entries(&self) -> (res: Result<VaultListPayload, Response>)
        ensures
            self.vault is None ==> (res matches Err(r) && is_error(r, "Vault is locked"@)),
            self.vault matches Some(v) ==> (res matches Ok(p) && p.entries@ == v.entries@ && p.version
                == v.version),
    {
        match &self.vault {
            Some(vault) => Ok(VaultListPayload { entries: clone_entries(&vault.entries), version: vault.version }),
            None => Err(error_of("Vault is locked")),
        }
    }

    /// The entries of `service`, or the answer when there are none.
    pub fn handle_get_entry(&self, service: &str) -> (res: Result<Vec<Entry>, Response>)
        ensures
            self.vault is None ==> (res matches Err(r) && is_error(r, "Vault is not loaded."@)),
            self.vault matches Some(v) ==> if entries_for_service(v.entries@, service@).len() > 0 {
                res matches Ok(es) && es@ == entries_for_service(v.entries@, service@)
            } else {
                res matches Err(r) && is_error(r, "No entry found for service: "@ + service@)
            },
    {
        match &self.vault {
            Some(vault) => {
                let entries = vault.get_entry(service);
                if entries.len() > 0 {
                    Ok(entries)
                } else {
                    Err(error_with("No entry found for service: ", service))
                }
            },
            None => Err(error_of("Vault is not loaded.")),
        }
    }

    /// The entry `uuid`, or the answer when there is none.
    pub fn handle_get_entry_by_id(&self, uuid: u128) -> (res: Result<Entry, Response>)
        ensures
            self.vault is None ==> (res matches Err(r) && is_error(r, "Vault is not loaded."@)),
            self.vault matches Some(v) ==> match entry_by_id(v.entries@, uuid) {
                Some(e) => res == Ok::<Entry, Response>(e),
                None => res matches Err(r) && is_error(r, "No entry found with id: "@ + uuid_text(uuid)),
            },
    {
        match &self.vault {
            Some(vault) => match vault.get_entry_by_id(uuid) {
                Some(entry) => Ok(entry),
                None => {
                    let id = uuid_string(uuid);
                    Err(error_with("No entry found with id: ", id.as_str()))
                },
            },
            None => Err(error_of("Vault is not loaded.")),
        }
    }

    /// Deletes the entry `uuid` from the unlocked vault.
    pub fn handle_delete_entry(&mut self, uuid: u128) -> (res: Step)
        requires
            old(self).wf(),
            old(self).can_change(uuid),
        ensures
            deleted_entry(*old(self), *final(self), uuid, res),
    {
        match self.vault.take() {
            Some(mut vault) => {
                let removed = vault.remove_entry(uuid);
                self.vault = Some(vault);
                if removed {
                    if self.master_password.is_some() {
                        save_step("Entry deleted successfully", "Failed to save vault: ")
                    } else {
                        Step::Respond(success_of("Entry deleted successfully"))
                    }
                } else {
                    let id = uuid_string(uuid);
                    Step::Respond(error_with("No entry found with id: ", id.as_str()))
                }
            },
            None => Step::Respond(error_of("Vault is not loaded.")),
        }
    }

    /// Applies the change `entry_ctx` to the unlocked vault (an unknown
    /// identifier changes nothing) and saves it.
    pub fn handle_update_entry(&mut self, entry_ctx: EntryUpdateInput) -> (res: Step)
        requires
            old(self).wf(),
            old(self).can_change(entry_ctx.uuid),
        ensures
            updated_entry(*old(self), *final(self), entry_ctx, res),
    {
        match self.vault.take() {
            Some(mut vault) => {
                let _ = vault.update_entry(entry_ctx.uuid, entry_ctx.service, entry_ctx.username, entry_ctx.password);
                self.vault = Some(vault);
                if self.master_password.is_some() {
                    save_step("Entry updated successfully", "Failed to save vault: ")
                } else {
                    Step::Respond(success_of("Entry updated successfully"))
                }
            },
            None => Step::Respond(error_of("Vault is not loaded.")),
        }
    }

    /// The current password for a master-password change, or the answer when
    /// the vault is locked.
    pub fn begin_password_update(&self) -> (res: Result<String, Response>)
        ensures
            self.master_password is None ==> (res matches Err(r) && is_error(
                r,
                "Vault is locked or password not in memory"@,
            )),
            self.master_password is Some && self.vault is None ==> (res matches Err(r) && is_error(
                r,
                "Vault is not loaded."@,
            )),
            self.master_password is Some && self.vault is Some ==> res == Ok::<String, Response>(
                self.master_password->0,
            ),
    {
        let password = match &self.master_password {
            Some(p) => p.clone(),
            None => return Err(error_of("Vault is locked or password not in memory")),
        };
        if self.vault.is_none() {
            return Err(error_of("Vault is not loaded."));
        }
        Ok(password)
    }

    /// The snapshot records of the unlocked vault, for a listing.
    pub fn handle_list_snapshots(&self) -> (res: Result<VaultSnapshotPayload, Response>)
        ensures
            self.vault is None ==> (res matches Err(r) && is_error(r, "Vault is locked"@)),
            self.vault matches Some(v) ==> (res matches Ok(p) && p.snapshots@ == v.history@),
    {
        match &self.vault {
            Some(vault) => Ok(VaultSnapshotPayload { snapshots: vault.get_snapshots() }),
            None => Err(error_of("Vault is locked")),
        }
    }

    /// What restoring the snapshot `uuid` (as version `target_version`)
    /// reads: the file of the first record with that identifier, the
    /// password, and the reason of the safety snapshot taken first.
    #[verifier::loop_isolation(false)]
    pub fn begin_restore(&self, uuid: u128, target_version: u32) -> (res: Result<RestorePlan, Response>)
        requires
            self.wf(),
        ensures
            self.vault is None ==> (res matches Err(r) && is_error(r, "Vault is not loaded."@)),
            self.vault matches Some(v) ==> ({
                let i = snapshot_index(v.history@, uuid);
                if i >= 0 && v.history@[i].file_ref is Some {
                    res matches Ok(plan) && plan.path == v.history@[i].file_ref->0 && Some(plan.password)
                        == self.master_password && plan.reason@ == "Rollback to v"@ + decimal(
                        target_version as nat,
                    )
                } else {
                    res matches Err(r) && is_error(
                        r,
                        "The file for this snapshot has expired or does not exist."@,
                    )
                }
            }),
    {
        let vault = match &self.vault {
            Some(v) => v,
            None => return Err(error_of("Vault is not loaded.")),
        };
        let password = match &self.master_password {
            Some(p) => p.clone(),
            None => String::new(),
        };
        let ghost h = vault.history@;
        let ghost p = |s: VaultSnapshot| s.uuid == uuid;
        let mut i: usize = 0;
        while i < vault.history.len()
            invariant
                i <= vault.history.len(),
                h == vault.history@,
                forall|j: int| 0 <= j < i ==> !p(#[trigger] h[j]),
            decreases vault.history.len() - i,
        {
            if vault.history[i].uuid == uuid {
                proof {
                    crate::vault::lemma_first_index(h, p, i as int);
                }
                return match &vault.history[i].file_ref {
                    Some(path) => {
                        let digits = decimal_string(target_version as u64);
                        let reason = concat_str("Rollback to v", digits.as_str());
                        Ok(RestorePlan { path: path.clone(), password, reason })
                    },
                    None => Err(error_of("The file for this snapshot has expired or does not exist.")),
                };
            }
            i = i + 1;
        }
        proof {
            crate::vault::lemma_first_index(h, p, 0);
        }
        Err(error_of("The file for this snapshot has expired or does not exist."))
    }

    /// Replaces the entries by the restored `entries`, after recording the
    /// safety snapshot `backup`. Returns the answer when the snapshot failed;
    /// otherwise the vault is to be saved and `finish_restore` called.
    pub fn apply_restore(&mut self, backup: Result<VaultSnapshot, String>, entries: Vec<Entry>) -> (res:
        Option<Response>)
        requires
            old(self).wf(),
            backup is Ok ==> old(self).can_mutate(),
            old(self).vault is Some,
        ensures
            restore_applied(*old(self), *final(self), backup, entries, res),
    {
        match backup {
            Ok(meta) => {
                let mut vault = match self.vault.take() {
                    Some(v) => v,
                    None => Vault::default(),
                };
                let meta = fresh_record(&vault.history, meta);
                vault.history.push(meta);
                vault.restore_entries(entries);
                self.vault = Some(vault);
                None
            },
            Err(e) => Some(error_with("Safety snapshot failed: ", e.as_str())),
        }
    }

    /// The end of a restoration: on a successful save the snapshot files
    /// beyond `max_snapshots` are pruned (their paths returned).
    pub fn finish_restore(&mut self, saved: Result<(), String>, target_version: u32, max_snapshots: usize) -> (res: (
        Response,
        Vec<String>,
    ))
        requires
            old(self).wf(),
            old(self).vault is Some,
        ensures
            restore_finished(*old(self), *final(self), saved, target_version, max_snapshots, res),
    {
        match saved {
            Err(e) => (error_with("Fail to save vault after rollback: ", e.as_str()), Vec::new()),
            Ok(()) => {
                let mut vault = match self.vault.take() {
                    Some(v) => v,
                    None => Vault::default(),
                };
                let removed = prune_excess_snapshots(&mut vault, max_snapshots);
                self.vault = Some(vault);
                let digits = decimal_string(target_version as u64);
                let a = concat_str("Snapshot restored successfully to 'v", digits.as_str());
                (Response::Success(concat_str(a.as_str(), "'")), removed)
            },
        }
    }
}

/// `b` and `res` are the state and gate after `a` began the request `req` at `now`.
pub open spec fn request_begun(a: DaemonState, b: DaemonState, req: Request, now: u128, res: Gate) -> bool {
    &&& b.wf()
    &&& b.last_activity == now
    &&& b.vault == a.vault
    &&& b.authenticated == a.authenticated
    &&& b.master_password == a.master_password
    &&& b.running == a.running
    &&& b.auto_lock_timeout == a.auto_lock_timeout
    &&& refused_as_locked(a, req) ==> (res matches Gate::Respond(r) && is_error(
        r,
        "Vault is locked"@,
    ))
    &&& !refused_as_locked(a, req) && is_mutation_spec(req) ==> (res matches Gate::Backup {
        password,
        reason,
    } && Some(password) == a.master_password && reason@ == reason_text(req, a.vault))
    &&& !refused_as_locked(a, req) && !is_mutation_spec(req) ==> res is Proceed
}

/// `b` and `res` follow from `a` recording the snapshot outcome `outcome`.
pub open spec fn backup_recorded(a: DaemonState, b: DaemonState, outcome: Result<VaultSnapshot, String>, max_snapshots: usize, res: Result<Vec<String>, Response>) -> bool {
    &&& b.wf()
    &&& b.authenticated == a.authenticated
    &&& b.master_password == a.master_password
    &&& b.last_activity == a.last_activity
    &&& b.running == a.running
    &&& b.auto_lock_timeout == a.auto_lock_timeout
    &&& b.vault is Some
    &&& b.vault->0.entries@ == a.vault->0.entries@
    &&& b.vault->0.version == a.vault->0.version
    &&& outcome matches Err(e) ==> (res matches Err(r) && is_error(r, "Snapshot failed: "@ + e@)
        && b.vault->0.history@ == a.vault->0.history@)
    &&& outcome matches Ok(meta) ==> ({
        let h = a.vault->0.history@.push(with_fresh_uuid(a.vault->0.history@, meta));
        let over = excess(h, max_snapshots as nat);
        &&& res matches Ok(removed)
        &&& b.vault->0.history@ == pruned(h, over)
        &&& removed@.map_values(|p: String| p@) == cleared_paths(h, over, h.len() as int)
    })
}

/// `b` is `a` locked, answered with `res`.
pub open spec fn locked(a: DaemonState, b: DaemonState, res: Response) -> bool {
    &&& b.wf()
    &&& !b.authenticated
    &&& b.vault is None
    &&& b.master_password is None
    &&& b.running == a.running
    &&& b.last_activity == a.last_activity
    &&& b.auto_lock_timeout == a.auto_lock_timeout
    &&& is_success(res, "Vault locked and memory cleared"@)
}

/// `b` and `res` follow from `a` creating a vault under `password` with outcome `saved`.
pub open spec fn unlocked_new(a: DaemonState, b: DaemonState, password: String, saved: Result<(), String>, res: Response) -> bool {
    &&& b.wf()
    &&& b.running == a.running
    &&& b.last_activity == a.last_activity
    &&& b.auto_lock_timeout == a.auto_lock_timeout
    &&& saved is Ok ==> is_success(res, "Vault initialized and unlocked"@) && b.authenticated
        && b.master_password == Some(password) && (b.vault matches Some(v)
        && v.version == 0 && v.entries@.len() == 0 && v.history@.len() == 0)
    &&& saved matches Err(e) ==> is_error(res, "Failed to initialize vault: "@ + e@) && b.vault
        == a.vault && b.authenticated == a.authenticated
        && b.master_password == a.master_password
}

/// `b` and `res` follow from `a` opening the vault file with `password` with outcome `loaded`.
pub open spec fn unlocked_existing(a: DaemonState, b: DaemonState, password: String, loaded: Result<Vault, String>, res: Response) -> bool {
    &&& b.wf()
    &&& b.running == a.running
    &&& b.last_activity == a.last_activity
    &&& b.auto_lock_timeout == a.auto_lock_timeout
    &&& loaded matches Ok(v) ==> is_success(res, "Vault unlocked successfully"@) && b.authenticated
        && b.master_password == Some(password) && b.vault == Some(v)
    &&& loaded matches Err(e) ==> is_error(res, "Failed to load vault: "@ + e@) && b.vault
        == a.vault && b.authenticated == a.authenticated
        && b.master_password == a.master_password
}

/// `b` and `res` follow from `a` adding the entry `entry_ctx`.
pub open spec fn added(a: DaemonState, b: DaemonState, entry_ctx: EntryInput, res: Step) -> bool {
    &&& b.wf()
    &&& b.authenticated == a.authenticated
    &&& b.master_password == a.master_password
    &&& b.last_activity == a.last_activity
    &&& b.running == a.running
    &&& b.auto_lock_timeout == a.auto_lock_timeout
    &&& a.vault is None ==> (res matches Step::Respond(r) && is_error(r, "Vault not loaded"@))
        && b.vault is None
    &&& a.vault matches Some(v) ==> (res matches Step::SaveVault(st) && st.success@
        == "Entry added"@ && st.failure_prefix@ == "Save failed: "@) && (b.vault matches Some(
        w) && w.version == v.version + 1 && w.history@ == v.history@ && w.entries@.drop_last()
        == v.entries@ && w.entries@.len() == v.entries@.len() + 1 && w.entries@.last().service
        == entry_ctx.service && w.entries@.last().username == entry_ctx.username
        && w.entries@.last().secret == entry_ctx.password && id_index(v.entries@, w.entries@.last().uuid)
        == -1)
}

/// `b` and `res` follow from `a` deleting the entry `uuid`.
pub open spec fn deleted_entry(a: DaemonState, b: DaemonState, uuid: u128, res: Step) -> bool {
    &&& b.wf()
    &&& b.authenticated == a.authenticated
    &&& b.master_password == a.master_password
    &&& b.last_activity == a.last_activity
    &&& b.running == a.running
    &&& b.auto_lock_timeout == a.auto_lock_timeout
    &&& a.vault is None ==> (res matches Step::Respond(r) && is_error(r, "Vault is not loaded."@))
        && b.vault is None
    &&& a.vault matches Some(v) ==> if id_index(v.entries@, uuid) >= 0 {
        (res matches Step::SaveVault(st) && st.success@ == "Entry deleted successfully"@
            && st.failure_prefix@ == "Failed to save vault: "@) && (b.vault matches Some(w)
            && w.entries@ == v.entries@.remove(id_index(v.entries@, uuid)) && w.version == v.version
            + 1 && w.history@ == v.history@)
    } else {
        (res matches Step::Respond(r) && is_error(r, "No entry found with id: "@ + uuid_text(uuid)))
            && (b.vault matches Some(w) && w.entries@ == v.entries@ && w.version == v.version
            && w.history@ == v.history@)
    }
}

/// `b` and `res` follow from `a` applying the change `entry_ctx`.
pub open spec fn updated_entry(a: DaemonState, b: DaemonState, entry_ctx: EntryUpdateInput, res: Step) -> bool {
    &&& b.wf()
    &&& b.authenticated == a.authenticated
    &&& b.master_password == a.master_password
    &&& b.last_activity == a.last_activity
    &&& b.running == a.running
    &&& b.auto_lock_timeout == a.auto_lock_timeout
    &&& a.vault is None ==> (res matches Step::Respond(r) && is_error(r, "Vault is not loaded."@))
        && b.vault is None
    &&& a.vault matches Some(v) ==> (res matches Step::SaveVault(st) && st.success@
        == "Entry updated successfully"@ && st.failure_prefix@ == "Failed to save vault: "@) && (b.vault matches Some(w) && w.history@ == v.history@ && w.entries@.len() == v.entries@.len()
        && (id_index(v.entries@, entry_ctx.uuid) >= 0 ==> w.version == v.version + 1 && exists|now: i64|
        w.entries@ == v.entries@.update(
            id_index(v.entries@, entry_ctx.uuid),
            #[trigger] crate::vault::patched(
                v.entries@[id_index(v.entries@, entry_ctx.uuid)],
                entry_ctx.service,
                entry_ctx.username,
                entry_ctx.password,
                now,
            ),
        )) && (id_index(v.entries@, entry_ctx.uuid) < 0 ==> w.entries@ == v.entries@ && w.version
        == v.version))
}

/// `b` and `res` follow from `a` taking the restored `entries` after the safety snapshot `backup`.
pub open spec fn restore_applied(a: DaemonState, b: DaemonState, backup: Result<VaultSnapshot, String>, entries: Vec<Entry>, res: Option<Response>) -> bool {
    &&& b.wf()
    &&& b.authenticated == a.authenticated
    &&& b.master_password == a.master_password
    &&& b.last_activity == a.last_activity
    &&& b.running == a.running
    &&& b.auto_lock_timeout == a.auto_lock_timeout
    &&& backup matches Err(e) ==> (res matches Some(r) && is_error(r, "Safety snapshot failed: "@ + e@))
        && b.vault == a.vault
    &&& backup matches Ok(meta) ==> res is None && (b.vault matches Some(w) && w.entries@
        == entries@ && w.version == a.vault->0.version + 1 && w.history@
        == a.vault->0.history@.push(with_fresh_uuid(a.vault->0.history@, meta)))
}

/// `b` and `res` follow from `a` ending a restoration whose save ended with `saved`.
pub open spec fn restore_finished(a: DaemonState, b: DaemonState, saved: Result<(), String>, target_version: u32, max_snapshots: usize, res: (Response, Vec<String>)) -> bool {
    &&& b.wf()
    &&& b.authenticated == a.authenticated
    &&& b.master_password == a.master_password
    &&& b.last_activity == a.last_activity
    &&& b.running == a.running
    &&& b.auto_lock_timeout == a.auto_lock_timeout
    &&& saved matches Err(e) ==> is_error(res.0, "Fail to save vault after rollback: "@ + e@)
        && res.1@.len() == 0 && b.vault == a.vault
    &&& saved is Ok ==> is_success(
        res.0,
        "Snapshot restored successfully to 'v"@ + decimal(target_version as nat) + "'"@,
    ) && (b.vault matches Some(w) && w.entries@ == a.vault->0.entries@ && w.version
        == a.vault->0.version && w.history@ == pruned(
        a.vault->0.history@,
        excess(a.vault->0.history@, max_snapshots as nat),
    ))
}


/// Whether the daemon serves a connection from the user `peer_uid`: only
/// its owner `owner_uid` is served.
pub fn accepts_peer(peer_uid: u32, owner_uid: u32) -> (res: bool)
    ensures
        res == (peer_uid == owner_uid),
{
    peer_uid == owner_uid
}

} // verus!

verus! {

/// Pruning a history keeps each record's identifier, so lookups by
/// identifier find the same position.
pub proof fn lemma_pruned_keeps_ids(h: Seq<VaultSnapshot>, over: nat, id: u128)
    ensures
        snapshot_ids(pruned(h, over)) == snapshot_ids(h),
        snapshot_index(pruned(h, over), id) == snapshot_index(h, id),
{
    let g = pruned(h, over);
    let p = |s: VaultSnapshot| s.uuid == id;
    assert(snapshot_ids(g) =~= snapshot_ids(h));
    crate::vault::lemma_first_index(h, p, 0);
    crate::vault::lemma_first_index(g, p, 0);
    let i = snapshot_index(h, id);
    if i >= 0 {
        assert forall|j: int| 0 <= j < i implies !p(#[trigger] g[j]) by {
            assert(!p(h[j]));
        }
        assert(crate::vault::is_first_match(g, p, i));
        crate::vault::lemma_first_index(g, p, i);
    } else {
        assert forall|j: int| 0 <= j < g.len() implies !p(#[trigger] g[j]) by {
            assert(g[j].uuid == h[j].uuid);
            if p(g[j]) {
                crate::vault::lemma_match_has_first(h, p, j);
            }
        }
        crate::vault::lemma_first_index(g, p, 0);
    }
}

/// Every snapshot taken before a change becomes a record of its own: its
/// identifier differs from that of every earlier record, so a restoration
/// that asks for that identifier finds this record and no other.
pub proof fn law_recorded_snapshot_is_found(
    a: DaemonState,
    b: DaemonState,
    meta: VaultSnapshot,
    max_snapshots: usize,
    res: Result<Vec<String>, Response>,
)
    requires
        a.vault is Some,
        backup_recorded(a, b, Ok(meta), max_snapshots, res),
    ensures
        ({
            let old_h = a.vault->0.history@;
            let h = b.vault->0.history@;
            &&& h.len() == old_h.len() + 1
            &&& forall|j: int| 0 <= j < old_h.len() ==> #[trigger] old_h[j].uuid != h.last().uuid
            &&& snapshot_index(h, h.last().uuid) == old_h.len()
            &&& snapshot_index(old_h, meta.uuid) == -1 ==> h.last().uuid == meta.uuid
        }),
{
    let old_h = a.vault->0.history@;
    let r = with_fresh_uuid(old_h, meta);
    let hp = old_h.push(r);
    let over = excess(hp, max_snapshots as nat);
    assert(snapshot_ids(old_h).len() == a.vault->0.history.len());
    lemma_fresh_id_unused(snapshot_ids(old_h), meta.uuid);
    lemma_fresh_record_found(old_h, r);
    lemma_pruned_keeps_ids(hp, over, r.uuid);
    let h = b.vault->0.history@;
    assert(snapshot_ids(h)[old_h.len() as int] == snapshot_ids(hp)[old_h.len() as int]);
    assert forall|j: int| 0 <= j < old_h.len() implies #[trigger] old_h[j].uuid != h.last().uuid by {
        assert(snapshot_ids(old_h)[j] == old_h[j].uuid);
    }
    if snapshot_index(old_h, meta.uuid) == -1 {
        lemma_unused_snapshot_id(old_h, meta.uuid);
    }
}

/// The safety snapshot recorded before a restoration is likewise a record of
/// its own, found by its identifier.
pub proof fn law_restore_snapshot_is_found(
    a: DaemonState,
    b: DaemonState,
    meta: VaultSnapshot,
    entries: Vec<Entry>,
    res: Option<Response>,
)
    requires
        a.vault is Some,
        restore_applied(a, b, Ok(meta), entries, res),
    ensures
        ({
            let old_h = a.vault->0.history@;
            let h = b.vault->0.history@;
            &&& h.len() == old_h.len() + 1
            &&& forall|j: int| 0 <= j < old_h.len() ==> #[trigger] old_h[j].uuid != h.last().uuid
            &&& snapshot_index(h, h.last().uuid) == old_h.len()
            &&& snapshot_index(old_h, meta.uuid) == -1 ==> h.last().uuid == meta.uuid
        }),
{
    let old_h = a.vault->0.history@;
    let r = with_fresh_uuid(old_h, meta);
    assert(snapshot_ids(old_h).len() == a.vault->0.history.len());
    lemma_fresh_id_unused(snapshot_ids(old_h), meta.uuid);
    lemma_fresh_record_found(old_h, r);
    assert forall|j: int| 0 <= j < old_h.len() implies #[trigger] old_h[j].uuid != r.uuid by {
        assert(snapshot_ids(old_h)[j] == old_h[j].uuid);
    }
    if snapshot_index(old_h, meta.uuid) == -1 {
        lemma_unused_snapshot_id(old_h, meta.uuid);
    }
}

/// An identifier with no position among the records is not among their
/// identifiers.
proof fn lemma_unused_snapshot_id(h: Seq<VaultSnapshot>, id: u128)
    requires
        snapshot_index(h, id) == -1,
    ensures
        !snapshot_ids(h).contains(id),
{
    let p = |s: VaultSnapshot| s.uuid == id;
    if snapshot_ids(h).contains(id) {
        let k = choose|k: int| 0 <= k < snapshot_ids(h).len() && snapshot_ids(h)[k] == id;
        crate::vault::lemma_match_has_first(h, p, k);
    }
}

} // verus!
