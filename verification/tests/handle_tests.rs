use blackout::config::DaemonConfig;
use blackout::daemon::{finish_save, DaemonState};
use blackout::handle::{on_snapshot_read, vault_check_work, Work};
use blackout::ipc::{EntryInput, Request, Response};
use blackout::vault::{Entry, VaultSnapshot};

fn unlocked() -> DaemonState {
    let mut st = DaemonState::new(&DaemonConfig::default(), 0);
    st.complete_unlock_new("pw".to_string(), Ok(()));
    st
}

fn snapshot(uuid: u128, version: u32, file: Option<&str>) -> VaultSnapshot {
    VaultSnapshot {
        uuid,
        version,
        created_at: 0,
        checksum: "c".to_string(),
        file_ref: file.map(|f| f.to_string()),
        reason: "r".to_string(),
    }
}

fn respond_text(w: &Work) -> (bool, String) {
    match w {
        Work::Respond(Response::Success(m)) => (true, m.clone()),
        Work::Respond(Response::Error(m)) => (false, m.clone()),
        _ => panic!("expected an answer"),
    }
}

#[test]
fn locked_daemon_answers_listing_with_an_error() {
    let mut st = DaemonState::new(&DaemonConfig::default(), 0);
    let w = st.process_request(Request::ListEntries, 3);
    assert_eq!(respond_text(&w), (false, "Vault is locked".to_string()));
    assert_eq!(st.last_activity, 3);
    let w = st.process_request(Request::Ping, 4);
    assert_eq!(respond_text(&w), (true, "Pong!".to_string()));
}

#[test]
fn unlock_checks_for_the_vault_file() {
    let mut st = DaemonState::new(&DaemonConfig::default(), 0);
    let w = st.process_request(Request::Unlock { master_password: "pw".to_string() }, 1);
    let password = match w {
        Work::CheckVault(p) => p,
        _ => panic!("expected a file check"),
    };
    assert_eq!(password, "pw");
    assert!(matches!(vault_check_work(password.clone(), false), Work::CreateVault(ref p) if p == "pw"));
    assert!(matches!(vault_check_work(password, true), Work::LoadVault(ref p) if p == "pw"));
}

#[test]
fn addition_takes_a_snapshot_then_saves() {
    let mut st = unlocked();
    let req = Request::AddEntry {
        entry_ctx: EntryInput { service: "mail".to_string(), username: "me".to_string(), password: "s".to_string() },
    };
    let (password, reason, request) = match st.process_request(req, 2) {
        Work::Backup { password, reason, request } => (password, reason, request),
        _ => panic!("expected a snapshot first"),
    };
    assert_eq!(password, "pw");
    assert_eq!(reason, "Add entry: mail");
    let (next, removed) = st.on_backup(request, Ok(snapshot(9, 0, Some("/s/v0"))), 0);
    assert!(removed.is_empty());
    let step = match next {
        Work::SaveVault(step) => step,
        _ => panic!("expected a save"),
    };
    let vault = st.vault.as_ref().unwrap();
    assert_eq!(vault.entries.len(), 1);
    assert_eq!(vault.version, 1);
    assert_eq!(vault.history.len(), 1);
    assert!(matches!(finish_save(step, Ok(())), Response::Success(ref m) if m == "Entry added"));
}

#[test]
fn failed_snapshot_refuses_the_change() {
    let mut st = unlocked();
    let req = Request::DeleteEntry { uuid: 5 };
    let request = match st.process_request(req, 2) {
        Work::Backup { request, .. } => request,
        _ => panic!("expected a snapshot first"),
    };
    let (next, removed) = st.on_backup(request, Err("disk full".to_string()), 0);
    assert!(removed.is_empty());
    assert_eq!(respond_text(&next), (false, "Snapshot failed: disk full".to_string()));
    assert_eq!(st.vault.as_ref().unwrap().version, 0);
}

#[test]
fn snapshots_beyond_the_limit_are_pruned() {
    let mut st = unlocked();
    st.vault.as_mut().unwrap().history.push(snapshot(1, 0, Some("/s/old")));
    let request = match st.process_request(Request::DeleteEntry { uuid: 5 }, 2) {
        Work::Backup { request, .. } => request,
        _ => panic!("expected a snapshot first"),
    };
    let (next, removed) = st.on_backup(request, Ok(snapshot(2, 0, Some("/s/new"))), 1);
    assert_eq!(removed, vec!["/s/old".to_string()]);
    assert!(matches!(next, Work::Respond(Response::Error(_))));
    let history = &st.vault.as_ref().unwrap().history;
    assert_eq!(history[0].file_ref, None);
    assert_eq!(history[1].file_ref.as_deref(), Some("/s/new"));
}

#[test]
fn listing_and_lookup_payloads() {
    let mut st = unlocked();
    let e = Entry { uuid: 3, service: "git".to_string(), username: "u".to_string(), secret: "s".to_string(), updated_at: 0 };
    st.vault.as_mut().unwrap().entries.push(e);
    match st.process_request(Request::ListEntries, 1) {
        Work::Listing(p) => {
            assert_eq!(p.entries.len(), 1);
            assert_eq!(p.version, 0);
        }
        _ => panic!("expected a listing"),
    }
    match st.process_request(Request::GetEntry { service: "git".to_string() }, 1) {
        Work::Found(es) => assert_eq!(es[0].uuid, 3),
        _ => panic!("expected entries"),
    }
    match st.process_request(Request::GetEntryById { uuid: 3 }, 1) {
        Work::One(found) => assert_eq!(found.service, "git"),
        _ => panic!("expected the entry"),
    }
    let w = st.process_request(Request::GetEntry { service: "none".to_string() }, 1);
    assert_eq!(respond_text(&w), (false, "No entry found for service: none".to_string()));
    assert!(matches!(st.process_request(Request::LoadGeneratorConfig, 1), Work::GeneratorSettings));
    assert!(matches!(
        st.process_request(Request::PasswordGen { pass_type: "password".to_string() }, 1),
        Work::Generate(ref k) if k == "password"
    ));
}

#[test]
fn master_password_change_rotates_with_the_current_password() {
    let mut st = unlocked();
    let request = match st.process_request(Request::UpdateMasterPassword { new_password: "new".to_string() }, 1) {
        Work::Backup { request, .. } => request,
        _ => panic!("expected a snapshot first"),
    };
    let (next, _) = st.on_backup(request, Ok(snapshot(1, 0, None)), 0);
    match next {
        Work::Rotate { current, new_password } => {
            assert_eq!(current, "pw");
            assert_eq!(new_password, "new");
        }
        _ => panic!("expected a rotation"),
    }
}

#[test]
fn restoration_runs_its_steps() {
    let mut st = unlocked();
    st.vault.as_mut().unwrap().history.push(snapshot(8, 0, Some("/s/v0")));
    let (plan, version) = match st.process_request(Request::RestoreSnapshot { version: 0, uuid: 8 }, 1) {
        Work::ReadSnapshot { plan, version } => (plan, version),
        _ => panic!("expected a snapshot read"),
    };
    assert_eq!(plan.path, "/s/v0");
    assert_eq!(plan.reason, "Rollback to v0");
    let restored = vec![Entry {
        uuid: 4,
        service: "old".to_string(),
        username: "u".to_string(),
        secret: "s".to_string(),
        updated_at: 0,
    }];
    let w = on_snapshot_read(plan, version, Ok(restored));
    let (version, entries) = match w {
        Work::RestoreBackup { version, entries, .. } => (version, entries),
        _ => panic!("expected a safety snapshot"),
    };
    let w = st.on_restore_backup(version, entries, Ok(snapshot(9, 0, Some("/s/v0b"))));
    assert!(matches!(w, Work::SaveRestored(0)));
    assert_eq!(st.vault.as_ref().unwrap().entries[0].service, "old");
    let (response, removed) = st.on_restore_saved(0, Ok(()), 0);
    assert!(removed.is_empty());
    assert!(matches!(response, Response::Success(ref m) if m == "Snapshot restored successfully to 'v0'"));
    let missing = st.process_request(Request::RestoreSnapshot { version: 3, uuid: 77 }, 2);
    assert_eq!(
        respond_text(&missing),
        (false, "The file for this snapshot has expired or does not exist.".to_string())
    );
    let failed = on_snapshot_read(
        blackout::daemon::RestorePlan { path: "p".to_string(), password: "pw".to_string(), reason: "r".to_string() },
        1,
        Err("gone".to_string()),
    );
    assert_eq!(respond_text(&failed), (false, "Fail to load snapshot from disk: gone".to_string()));
}
