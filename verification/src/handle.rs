//! The daemon's handling of one request, as a sequence of steps: the library
//! decides each step and the caller carries out the file work it asks for
//! (snapshots, saves, loads, re-encryption), handing each outcome back.

use vstd::prelude::*;

use crate::daemon::{
    added, backup_recorded, deleted_entry, error_of, fail_restore_load, is_error, is_mutation_spec, is_success, locked,
    ping, reason_text, refused_as_locked, restore_applied, restore_finished, snapshot_index, updated_entry,
    DaemonState, Gate, RestorePlan, SaveStep, Step,
};
use crate::ipc::{Request, Response, VaultListPayload, VaultSnapshotPayload};
use crate::text::decimal;
use crate::vault::{entries_for_service, entry_by_id, uuid_text, Entry, VaultSnapshot};

verus! {

/// The work the daemon asks for next while handling a request.
pub enum Work {
    /// Send this answer.
    Respond(Response),
    /// Send the listing as the answer's payload.
    Listing(VaultListPayload),
    /// Send the entries found as the answer's payload.
    Found(Vec<Entry>),
    /// Send the entry as the answer's payload.
    One(Entry),
    /// Send the snapshot records as the answer's payload.
    Snapshots(VaultSnapshotPayload),
    /// Send the generator settings of the settings file as the answer's
    /// payload.
    GeneratorSettings,
    /// Generate a secret of the kind `pass_type` with the generator settings
    /// and words of the daemon (see `password_gen`), and send it.
    Generate(String),
    /// Write a snapshot of the current entries at the current version,
    /// encrypted with `password` and recorded with `reason`; then
    /// `on_backup` with the request.
    Backup { password: String, reason: String, request: Request },
    /// Tell whether the vault file exists; then `on_vault_checked`.
    CheckVault(String),
    /// Save a new empty vault under the password; then `on_vault_created`.
    CreateVault(String),
    /// Open the vault file with the password; then `on_vault_loaded`.
    LoadVault(String),
    /// Save the vault in memory under the master password; then `on_saved`.
    SaveVault(SaveStep),
    /// Re-encrypt the vault file from `current` to `new_password`; then
    /// `on_rotated`.
    Rotate { current: String, new_password: String },
    /// Read the entries of the snapshot of `plan`; then `on_snapshot_read`.
    ReadSnapshot { plan: RestorePlan, version: u32 },
    /// Write a safety snapshot of the current entries with the password and
    /// reason of `plan`; then `on_restore_backup`.
    RestoreBackup { plan: RestorePlan, version: u32, entries: Vec<Entry> },
    /// Save the vault in memory under the master password; then
    /// `on_restore_saved`.
    SaveRestored(u32),
}

/// The work that a handler's step asks for.
pub open spec fn step_work(s: Step, w: Work) -> bool {
    match s {
        Step::Respond(r) => w == Work::Respond(r),
        Step::SaveVault(st) => w == Work::SaveVault(st),
    }
}

impl DaemonState {
    /// The state did not change.
    pub open spec fn same(&self, b: DaemonState) -> bool {
        &&& b.vault == self.vault
        &&& b.authenticated == self.authenticated
        &&& b.running == self.running
        &&& b.master_password == self.master_password
        &&& b.last_activity == self.last_activity
        &&& b.auto_lock_timeout == self.auto_lock_timeout
    }

    /// The work that the request `req` asks for once the request is let
    /// through, and the state `b` it leaves.
    pub open spec fn dispatched(&self, req: Request, b: DaemonState, w: Work) -> bool {
        match req {
            Request::Ping => self.same(b) && (w matches Work::Respond(r) && is_success(r, "Pong!"@)),
            Request::Lock => w matches Work::Respond(r) && locked(*self, b, r),
            Request::Unlock { master_password } => self.same(b) && (w matches Work::CheckVault(p) && p
                == master_password),
            Request::AddEntry { entry_ctx } => exists|s: Step| added(*self, b, entry_ctx, s) && #[trigger] step_work(s, w),
            Request::ListEntries => self.same(b) && match self.vault {
                None => w matches Work::Respond(r) && is_error(r, "Vault is locked"@),
                Some(v) => w matches Work::Listing(p) && p.entries@ == v.entries@ && p.version == v.version,
            },
            Request::GetEntry { service } => self.same(b) && match self.vault {
                None => w matches Work::Respond(r) && is_error(r, "Vault is not loaded."@),
                Some(v) => if entries_for_service(v.entries@, service@).len() > 0 {
                    w matches Work::Found(es) && es@ == entries_for_service(v.entries@, service@)
                } else {
                    w matches Work::Respond(r) && is_error(r, "No entry found for service: "@ + service@)
                },
            },
            Request::GetEntryById { uuid } => self.same(b) && match self.vault {
                None => w matches Work::Respond(r) && is_error(r, "Vault is not loaded."@),
                Some(v) => match entry_by_id(v.entries@, uuid) {
                    Some(e) => w == Work::One(e),
                    None => w matches Work::Respond(r) && is_error(r, "No entry found with id: "@ + uuid_text(uuid)),
                },
            },
            Request::DeleteEntry { uuid } => exists|s: Step| deleted_entry(*self, b, uuid, s) && #[trigger] step_work(
                s,
                w,
            ),
            Request::UpdateEntry { entry_ctx } => exists|s: Step| updated_entry(*self, b, entry_ctx, s)
                && #[trigger] step_work(s, w),
            Request::UpdateMasterPassword { new_password } => self.same(b) && if self.master_password is None {
                w matches Work::Respond(r) && is_error(r, "Vault is locked or password not in memory"@)
            } else if self.vault is None {
                w matches Work::Respond(r) && is_error(r, "Vault is not loaded."@)
            } else {
                w == Work::Rotate { current: self.master_password->0, new_password }
            },
            Request::ListSnapshots => self.same(b) && match self.vault {
                None => w matches Work::Respond(r) && is_error(r, "Vault is locked"@),
                Some(v) => w matches Work::Snapshots(p) && p.snapshots@ == v.history@,
            },
            Request::RestoreSnapshot { version, uuid } => self.same(b) && match self.vault {
                None => w matches Work::Respond(r) && is_error(r, "Vault is not loaded."@),
                Some(v) => {
                    let i = snapshot_index(v.history@, uuid);
                    if i >= 0 && v.history@[i].file_ref is Some {
                        w matches Work::ReadSnapshot { plan, version: t } && t == version && plan.path
                            == v.history@[i].file_ref->0 && Some(plan.password) == self.master_password
                            && plan.reason@ == "Rollback to v"@ + decimal(version as nat)
                    } else {
                        w matches Work::Respond(r) && is_error(
                            r,
                            "The file for this snapshot has expired or does not exist."@,
                        )
                    }
                },
            },
            Request::PasswordGen { pass_type } => self.same(b) && w == Work::Generate(pass_type),
            Request::LoadGeneratorConfig => self.same(b) && w is GeneratorSettings,
        }
    }

    /// A request that advances the vault's version (an addition, or the
    /// deletion or update of an entry that exists) comes while the version
    /// can still advance: counting past its last value would overflow. A
    /// restoration advances it only later, in `on_restore_backup`.
    pub open spec fn can_take(&self, req: Request) -> bool {
        match req {
            Request::AddEntry { .. } => self.can_mutate(),
            Request::DeleteEntry { uuid } => self.can_change(uuid),
            Request::UpdateEntry { entry_ctx } => self.can_change(entry_ctx.uuid),
            _ => true,
        }
    }

    /// Lets a request through once its snapshot (if any) is recorded.
    pub fn dispatch(&mut self, req: Request) -> (w: Work)
        requires
            old(self).wf(),
            old(self).can_take(req),
        ensures
            final(self).wf(),
            old(self).dispatched(req, *final(self), w),
    {
        match req {
            Request::Ping => Work::Respond(ping()),
            Request::Lock => Work::Respond(self.handle_lock()),
            Request::Unlock { master_password } => Work::CheckVault(master_password),
            Request::AddEntry { entry_ctx } => {
                let s = self.handle_add_entry(entry_ctx);
                let w = match s {
                    Step::Respond(r) => Work::Respond(r),
                    Step::SaveVault(st) => Work::SaveVault(st),
                };
                assert(step_work(s, w));
                w
            },
            Request::ListEntries => match self.handle_list_entries() {
                Ok(p) => Work::Listing(p),
                Err(r) => Work::Respond(r),
            },
            Request::GetEntry { service } => match self.handle_get_entry(service.as_str()) {
                Ok(es) => Work::Found(es),
                Err(r) => Work::Respond(r),
            },
            Request::GetEntryById { uuid } => match self.handle_get_entry_by_id(uuid) {
                Ok(e) => Work::One(e),
                Err(r) => Work::Respond(r),
            },
            Request::DeleteEntry { uuid } => {
                let s = self.handle_delete_entry(uuid);
                let w = match s {
                    Step::Respond(r) => Work::Respond(r),
                    Step::SaveVault(st) => Work::SaveVault(st),
                };
                assert(step_work(s, w));
                w
            },
            Request::UpdateEntry { entry_ctx } => {
                let s = self.handle_update_entry(entry_ctx);
                let w = match s {
                    Step::Respond(r) => Work::Respond(r),
                    Step::SaveVault(st) => Work::SaveVault(st),
                };
                assert(step_work(s, w));
                w
            },
            Request::UpdateMasterPassword { new_password } => match self.begin_password_update() {
                Ok(current) => Work::Rotate { current, new_password },
                Err(r) => Work::Respond(r),
            },
            Request::ListSnapshots => match self.handle_list_snapshots() {
                Ok(p) => Work::Snapshots(p),
                Err(r) => Work::Respond(r),
            },
            Request::RestoreSnapshot { version, uuid } => match self.begin_restore(uuid, version) {
                Ok(plan) => Work::ReadSnapshot { plan, version },
                Err(r) => Work::Respond(r),
            },
            Request::PasswordGen { pass_type } => Work::Generate(pass_type),
            Request::LoadGeneratorConfig => Work::GeneratorSettings,
        }
    }
}


/// The step after learning whether the vault file exists: open it, or
/// create a new vault.
pub fn vault_check_work(password: String, exists: bool) -> (w: Work)
    ensures
        exists ==> w == Work::LoadVault(password),
        !exists ==> w == Work::CreateVault(password),
{
    if exists {
        Work::LoadVault(password)
    } else {
        Work::CreateVault(password)
    }
}

/// The step after reading the entries of the snapshot to restore (`read`):
/// the failure's answer, or the safety snapshot of the current entries.
pub fn on_snapshot_read(plan: RestorePlan, version: u32, read: Result<Vec<Entry>, String>) -> (w: Work)
    ensures
        read matches Err(e) ==> (w matches Work::Respond(r) && is_error(r, "Fail to load snapshot from disk: "@ + e@)),
        read matches Ok(entries) ==> w == (Work::RestoreBackup { plan, version, entries }),
{
    match read {
        Err(e) => Work::Respond(fail_restore_load(e.as_str())),
        Ok(entries) => Work::RestoreBackup { plan, version, entries },
    }
}

impl DaemonState {
    /// The first step of the request `req` at `now` from `self`, leaving `b`
    /// and asking for `w`: refused while locked, a snapshot first for a
    /// change, or the request let through.
    pub open spec fn processed(&self, req: Request, now: u128, b: DaemonState, w: Work) -> bool {
        let m = DaemonState { last_activity: now, ..*self };
        if refused_as_locked(*self, req) {
            b == m && (w matches Work::Respond(r) && is_error(r, "Vault is locked"@))
        } else if is_mutation_spec(req) {
            b == m && (w matches Work::Backup { password, reason, request } && request == req && Some(password)
                == self.master_password && reason@ == reason_text(req, self.vault))
        } else {
            m.dispatched(req, b, w)
        }
    }
}

/// No change reaches the vault before its snapshot: the first step of a
/// request that changes the vault leaves the vault as it was, and either
/// refuses the request (while locked) or asks for the snapshot.
pub proof fn law_snapshot_before_change(a: DaemonState, req: Request, now: u128, b: DaemonState, w: Work)
    requires
        is_mutation_spec(req),
        a.processed(req, now, b, w),
    ensures
        b.vault == a.vault,
        w is Backup || w is Respond,
{
}

impl DaemonState {
    /// The first step of a request at time `now`: refused while locked, a
    /// snapshot first for a change, or the request let through.
    pub fn process_request(&mut self, req: Request, now: u128) -> (w: Work)
        requires
            old(self).wf(),
            old(self).can_take(req),
        ensures
            final(self).wf(),
            old(self).processed(req, now, *final(self), w),
    {
        let gate = self.begin_request(&req, now);
        assert(*self == DaemonState { last_activity: now, ..*old(self) });
        match gate {
            Gate::Respond(r) => Work::Respond(r),
            Gate::Backup { password, reason } => Work::Backup { password, reason, request: req },
            Gate::Proceed => self.dispatch(req),
        }
    }

    /// Records the snapshot taken before the change `request` (`outcome`),
    /// prunes the snapshot files beyond `max_snapshots` (whose paths are
    /// returned for deletion) and lets the request through; a failed
    /// snapshot refuses it.
    pub fn on_backup(&mut self, request: Request, outcome: Result<VaultSnapshot, String>, max_snapshots: usize) -> (res: (
        Work,
        Vec<String>,
    ))
        requires
            old(self).wf(),
            old(self).can_take(request),
        ensures
            final(self).wf(),
            old(self).vault is None ==> (res.0 matches Work::Respond(r) && is_error(r, "Vault is locked"@))
                && res.1@.len() == 0 && old(self).same(*final(self)),
            old(self).vault is Some ==> exists|m: DaemonState, rec: Result<Vec<String>, Response>|
                #[trigger] backup_recorded(*old(self), m, outcome, max_snapshots, rec) && match rec {
                    Err(r) => res.0 == Work::Respond(r) && res.1@.len() == 0 && m.same(*final(self)),
                    Ok(files) => res.1 == files && m.dispatched(request, *final(self), res.0),
                },
    {
        if self.vault.is_none() {
            return (Work::Respond(error_of("Vault is locked")), Vec::new());
        }
        let rec = self.record_backup(outcome, max_snapshots);
        match rec {
            Err(r) => (Work::Respond(r), Vec::new()),
            Ok(files) => {
                let w = self.dispatch(request);
                (w, files)
            },
        }
    }

    /// Takes the restored `entries` after the safety snapshot (`backup`):
    /// the failure's answer, or the save of the restored vault.
    pub fn on_restore_backup(&mut self, version: u32, entries: Vec<Entry>, backup: Result<VaultSnapshot, String>) -> (w:
        Work)
        requires
            old(self).wf(),
            backup is Ok ==> old(self).can_mutate(),
        ensures
            final(self).wf(),
            old(self).vault is None ==> (w matches Work::Respond(r) && is_error(r, "Vault is not loaded."@))
                && old(self).same(*final(self)),
            old(self).vault is Some ==> exists|o: Option<Response>|
                #[trigger] restore_applied(*old(self), *final(self), backup, entries, o) && match o {
                    Some(r) => w == Work::Respond(r),
                    None => w == Work::SaveRestored(version),
                },
    {
        if self.vault.is_none() {
            return Work::Respond(error_of("Vault is not loaded."));
        }
        let o = self.apply_restore(backup, entries);
        match o {
            Some(r) => Work::Respond(r),
            None => Work::SaveRestored(version),
        }
    }

    /// The end of a restoration whose save ended with `saved`: the answer,
    /// and the snapshot files beyond `max_snapshots` to delete.
    pub fn on_restore_saved(&mut self, version: u32, saved: Result<(), String>, max_snapshots: usize) -> (res: (
        Response,
        Vec<String>,
    ))
        requires
            old(self).wf(),
        ensures
            final(self).wf(),
            old(self).vault is None ==> is_error(res.0, "Vault is not loaded."@) && res.1@.len() == 0
                && old(self).same(*final(self)),
            old(self).vault is Some ==> restore_finished(*old(self), *final(self), saved, version, max_snapshots, res),
    {
        if self.vault.is_none() {
            return (error_of("Vault is not loaded."), Vec::new());
        }
        self.finish_restore(saved, version, max_snapshots)
    }
}
} // verus!
