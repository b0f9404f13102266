use blackout::config::DaemonConfig;
use blackout::daemon::{
    accepts_peer, finish_save, is_mutation, needs_auth, password_gen, prune_excess_snapshots, snapshot_reason, DaemonState,
    Gate, Step,
};
use blackout::ipc::{EntryInput, EntryUpdateInput, Request, Response};
use blackout::vault::{Vault, VaultSnapshot};

fn unlocked(now: u128) -> DaemonState {
    let mut st = DaemonState::new(&DaemonConfig::default(), now);
    let r = st.complete_unlock_new("pw".to_string(), Ok(()));
    assert!(matches!(r, Response::Success(ref m) if m == "Vault initialized and unlocked"));
    st
}

fn error_text(r: &Response) -> &str {
    match r {
        Response::Error(m) => m.as_str(),
        Response::Success(m) => panic!("expected an error, got success {}", m),
    }
}

fn success_text(r: &Response) -> &str {
    match r {
        Response::Success(m) => m.as_str(),
        Response::Error(m) => panic!("expected a success, got error {}", m),
    }
}

#[test]
fn locked_daemon_refuses_protected_requests() {
    let mut st = DaemonState::new(&DaemonConfig::default(), 0);
    match st.begin_request(&Request::ListEntries, 5) {
        Gate::Respond(r) => assert_eq!(error_text(&r), "Vault is locked"),
        _ => panic!("listing must be refused while locked"),
    }
    assert_eq!(st.last_activity, 5);
    assert!(matches!(st.begin_request(&Request::Ping, 6), Gate::Proceed));
    assert!(matches!(
        st.begin_request(&Request::Unlock { master_password: "x".to_string() }, 7),
        Gate::Proceed
    ));
    assert!(matches!(st.begin_request(&Request::PasswordGen { pass_type: "password".to_string() }, 8), Gate::Proceed));
}

#[test]
fn auth_and_mutation_classes() {
    assert!(!needs_auth(&Request::Ping));
    assert!(!needs_auth(&Request::Lock));
    assert!(needs_auth(&Request::ListSnapshots));
    assert!(needs_auth(&Request::RestoreSnapshot { version: 1, uuid: 1 }));
    assert!(is_mutation(&Request::DeleteEntry { uuid: 1 }));
    assert!(is_mutation(&Request::UpdateMasterPassword { new_password: "n".to_string() }));
    assert!(!is_mutation(&Request::RestoreSnapshot { version: 1, uuid: 1 }));
    assert!(!is_mutation(&Request::ListEntries));
}

#[test]
fn mutation_asks_for_a_snapshot_first() {
    let mut st = unlocked(0);
    let req = Request::AddEntry {
        entry_ctx: EntryInput { service: "mail".to_string(), username: "u".to_string(), password: "p".to_string() },
    };
    match st.begin_request(&req, 1) {
        Gate::Backup { password, reason } => {
            assert_eq!(password, "pw");
            assert_eq!(reason, "Add entry: mail");
        },
        _ => panic!("expected a snapshot request"),
    }
}

#[test]
fn add_list_delete_flow() {
    let mut st = unlocked(0);
    let step = st.handle_add_entry(EntryInput {
        service: "mail".to_string(),
        username: "u".to_string(),
        password: "p".to_string(),
    });
    match step {
        Step::SaveVault(s) => {
            assert_eq!(success_text(&finish_save(s, Ok(()))), "Entry added");
        },
        _ => panic!("expected a save"),
    }
    let listing = st.handle_list_entries().ok().unwrap();
    assert_eq!(listing.entries.len(), 1);
    assert_eq!(listing.version, 1);
    let id = listing.entries[0].uuid;
    assert_eq!(st.handle_get_entry_by_id(id).ok().unwrap().service, "mail");
    assert_eq!(st.handle_get_entry("mail").ok().unwrap().len(), 1);
    assert_eq!(error_text(&st.handle_get_entry("none").err().unwrap()), "No entry found for service: none");
    match st.handle_delete_entry(id) {
        Step::SaveVault(s) => {
            assert_eq!(
                error_text(&finish_save(s, Err("disk full".to_string()))),
                "Failed to save vault: disk full"
            );
        },
        _ => panic!("expected a save"),
    }
    match st.handle_delete_entry(id) {
        Step::Respond(r) => assert!(error_text(&r).starts_with("No entry found with id: ")),
        _ => panic!("expected an answer"),
    }
}

#[test]
fn unknown_entry_message_uses_the_hyphenated_uuid() {
    let st = unlocked(0);
    let r = st.handle_get_entry_by_id(0x0123_4567_89ab_cdef_0123_4567_89ab_cdef).err().unwrap();
    assert_eq!(error_text(&r), "No entry found with id: 01234567-89ab-cdef-0123-456789abcdef");
}

#[test]
fn update_entry_saves_even_when_unknown() {
    let mut st = unlocked(0);
    match st.handle_update_entry(EntryUpdateInput { uuid: 5, service: None, username: None, password: None }) {
        Step::SaveVault(s) => assert_eq!(s.success, "Entry updated successfully"),
        _ => panic!("expected a save"),
    }
}

#[test]
fn lock_forgets_everything() {
    let mut st = unlocked(0);
    assert_eq!(success_text(&st.handle_lock()), "Vault locked and memory cleared");
    assert!(!st.authenticated);
    assert!(st.vault.is_none());
    assert!(st.master_password.is_none());
    match st.begin_request(&Request::ListEntries, 3) {
        Gate::Respond(r) => assert_eq!(error_text(&r), "Vault is locked"),
        _ => panic!("must be refused"),
    }
}

#[test]
fn auto_lock_after_inactivity() {
    let mut st = unlocked(0);
    st.update_activity(1_000);
    st.process_events(31_000);
    assert!(st.authenticated);
    st.process_events(31_001);
    assert!(!st.authenticated);
    assert!(st.vault.is_none());
    assert!(st.master_password.is_none());
}

#[test]
fn unlock_failures_keep_the_vault_locked() {
    let mut st = DaemonState::new(&DaemonConfig::default(), 0);
    let r = st.complete_unlock_existing("pw".to_string(), Err("Decryption failed".to_string()));
    assert_eq!(error_text(&r), "Failed to load vault: Decryption failed");
    assert!(!st.authenticated);
    let r = st.complete_unlock_new("pw".to_string(), Err("denied".to_string()));
    assert_eq!(error_text(&r), "Failed to initialize vault: denied");
    let r = st.complete_unlock_existing("pw".to_string(), Ok(Vault::default()));
    assert_eq!(success_text(&r), "Vault unlocked successfully");
    assert!(st.authenticated);
}

fn snap(version: u32, file: Option<&str>) -> VaultSnapshot {
    VaultSnapshot { version, file_ref: file.map(|f| f.to_string()), ..Default::default() }
}

#[test]
fn pruning_drops_the_oldest_files() {
    let mut v = Vault::default();
    v.history = vec![snap(1, Some("a")), snap(2, None), snap(3, Some("b")), snap(4, Some("c")), snap(5, Some("d"))];
    let removed = prune_excess_snapshots(&mut v, 2);
    assert_eq!(removed, vec!["a".to_string(), "b".to_string()]);
    let files: Vec<Option<String>> = v.history.iter().map(|s| s.file_ref.clone()).collect();
    assert_eq!(files, vec![None, None, None, Some("c".to_string()), Some("d".to_string())]);
    assert!(prune_excess_snapshots(&mut v, 0).is_empty());
    assert!(prune_excess_snapshots(&mut v, 5).is_empty());
}

#[test]
fn record_backup_pushes_and_prunes() {
    let mut st = unlocked(0);
    st.vault.as_mut().unwrap().history = vec![snap(1, Some("a"))];
    let removed = st.record_backup(Ok(snap(2, Some("b"))), 1).ok().unwrap();
    assert_eq!(removed, vec!["a".to_string()]);
    assert_eq!(st.vault.as_ref().unwrap().history.len(), 2);
    let r = st.record_backup(Err("io".to_string()), 1).err().unwrap();
    assert_eq!(error_text(&r), "Snapshot failed: io");
}

#[test]
fn restore_flow() {
    let mut st = unlocked(0);
    st.vault.as_mut().unwrap().history =
        vec![VaultSnapshot { uuid: 9, version: 4, file_ref: Some("/s/v4".to_string()), ..Default::default() }];
    assert_eq!(
        error_text(&st.begin_restore(8, 4).err().unwrap()),
        "The file for this snapshot has expired or does not exist."
    );
    let plan = st.begin_restore(9, 4).ok().unwrap();
    assert_eq!(plan.path, "/s/v4");
    assert_eq!(plan.password, "pw");
    assert_eq!(plan.reason, "Rollback to v4");
    assert!(st.apply_restore(Ok(snap(0, Some("/s/v0"))), Vec::new()).is_none());
    assert_eq!(st.vault.as_ref().unwrap().version, 1);
    let (r, removed) = st.finish_restore(Ok(()), 4, 0);
    assert_eq!(success_text(&r), "Snapshot restored successfully to 'v4'");
    assert!(removed.is_empty());
}

#[test]
fn snapshot_reasons() {
    let v: Option<Vault> = None;
    assert_eq!(snapshot_reason(&Request::DeleteEntry { uuid: 1 }, &v), "Delete entry: Unknown");
    assert_eq!(
        snapshot_reason(
            &Request::UpdateEntry {
                entry_ctx: EntryUpdateInput { uuid: 1, service: None, username: None, password: None }
            },
            &v
        ),
        "Update entry: Unknown"
    );
    assert_eq!(
        snapshot_reason(&Request::UpdateMasterPassword { new_password: "n".to_string() }, &v),
        "Master password rotation"
    );
    assert_eq!(
        snapshot_reason(&Request::RestoreSnapshot { version: 12, uuid: 0 }, &v),
        "Restore snapshot 00000000-0000-0000-0000-000000000000 (version 12)"
    );
    assert_eq!(snapshot_reason(&Request::Ping, &v), "Unknown reason");
}

#[test]
fn password_generation_requests() {
    let words = vec!["alpha".to_string(), "beta".to_string()];
    let cfg = DaemonConfig::default();
    assert_eq!(
        error_text(&password_gen("pin", &cfg, &words)),
        "Invalid password generation type: pin"
    );
    let p = password_gen("passphrase", &cfg, &words);
    assert_eq!(success_text(&p).split('_').count(), 5);
}

#[test]
fn zero_timeout_turns_auto_lock_off() {
    let config = DaemonConfig { auto_lock_timeout: 0, ..DaemonConfig::default() };
    let mut st = DaemonState::new(&config, 0);
    let _ = st.complete_unlock_new("pw".to_string(), Ok(()));
    st.process_events(1_000_000_000);
    assert!(st.authenticated);
}

#[test]
fn only_the_owner_may_connect() {
    assert!(accepts_peer(1000, 1000));
    assert!(!accepts_peer(0, 1000));
    assert!(!accepts_peer(1001, 1000));
}

#[test]
fn changes_of_missing_entries_need_no_room_for_a_version() {
    let mut st = unlocked(1);
    if let Some(v) = st.vault.as_mut() {
        v.version = u32::MAX;
    }
    let r = st.handle_delete_entry(7);
    assert!(matches!(r, blackout::daemon::Step::Respond(Response::Error(_))));
    assert_eq!(st.vault.as_ref().map(|v| v.version), Some(u32::MAX));
    let upd = EntryUpdateInput { uuid: 7, service: None, username: None, password: None };
    st.handle_update_entry(upd);
    assert_eq!(st.vault.as_ref().map(|v| v.version), Some(u32::MAX));
}
