use blackout::app::{
    get_helper_text, get_status_text, get_title_text, App, CLIPBOARD_CLEAR_MS, AppState, Command, Key, KeyCode, Payload, Reply, Then,
};
use blackout::events::{handle_event, quits};
use blackout::generator::{GeneratorConfig, GeneratorMode};
use blackout::ipc::{Request, VaultListPayload, VaultSnapshotPayload};
use blackout::state::{FieldType, FieldValue, PendingAction};
use blackout::text::contains_text;
use blackout::vault::{Entry, VaultSnapshot};

fn key(code: KeyCode) -> Key {
    Key { code, control: false }
}

fn ch(c: char) -> Key {
    key(KeyCode::Char(c))
}

fn entry(uuid: u128, service: &str) -> Entry {
    Entry {
        uuid,
        service: service.to_string(),
        username: "me".to_string(),
        secret: "pw".to_string(),
        updated_at: 0,
    }
}

fn listing(entries: Vec<Entry>, version: u32) -> Reply {
    Reply::Accepted(Payload::Entries(Some(VaultListPayload { entries, version })))
}

fn text_of(app: &App, i: usize) -> String {
    match &app.form_state.fields[i].value {
        FieldValue::Text(t) => t.clone(),
        _ => panic!("not a text field"),
    }
}

fn status(app: &App) -> Option<String> {
    app.status_message.clone()
}

/// An unlocked client showing two entries.
fn unlocked_app() -> App {
    let mut app = App::new(false, vec![], 0);
    let cmd = app.on_reply(Then::CheckStatus, listing(vec![entry(1, "mail"), entry(2, "bank")], 4), 1);
    assert!(matches!(cmd, Command::Done));
    app
}

#[test]
fn start_checks_the_vault() {
    let app = App::new(true, vec![], 5);
    assert!(matches!(app.state, AppState::InitialCheck));
    assert_eq!(app.selected, Some(0));
    assert!(matches!(app.check_vault_status(), Command::Send(Request::ListEntries, Then::CheckStatus)));
    assert_eq!(get_title_text(&app, "1.2.0"), "Blackout - v1.2.0 - DEV MODE");
    assert_eq!(get_status_text(&app), "vault v0");
}

#[test]
fn locked_daemon_shows_the_locked_screen() {
    let mut app = App::new(false, vec![], 0);
    app.on_reply(Then::CheckStatus, Reply::Refused("Vault is locked".to_string()), 1);
    assert!(matches!(app.state, AppState::VaultLocked));
    assert!(!app.vault_unlocked);
    let mut other = App::new(false, vec![], 0);
    other.on_reply(Then::CheckStatus, Reply::Refused("Something else".to_string()), 1);
    assert!(matches!(other.state, AppState::InitialCheck));
    let mut down = App::new(false, vec![], 0);
    down.on_reply(Then::CheckStatus, Reply::Unreachable("no socket".to_string()), 1);
    assert!(matches!(down.state, AppState::VaultLocked));
}

#[test]
fn unlocking_from_the_prompt() {
    let mut app = App::new(false, vec![], 0);
    app.on_reply(Then::CheckStatus, Reply::Refused("Vault is locked".to_string()), 1);
    handle_event(&mut app, ch('z'), 2);
    assert!(matches!(app.state, AppState::UnlockPrompt));
    assert_eq!(app.form_state.fields.len(), 1);
    assert_eq!(app.form_state.fields[0].label, "Master Password");
    for c in "hunter2".chars() {
        handle_event(&mut app, ch(c), 3);
    }
    handle_event(&mut app, key(KeyCode::Backspace), 4);
    assert_eq!(text_of(&app, 0), "hunter");
    handle_event(&mut app, key(KeyCode::Left), 5);
    handle_event(&mut app, key(KeyCode::Delete), 5);
    assert_eq!(text_of(&app, 0), "hunte");
    let cmd = handle_event(&mut app, key(KeyCode::Enter), 6);
    match cmd {
        Command::Send(Request::Unlock { master_password }, Then::Unlock) => assert_eq!(master_password, "hunte"),
        _ => panic!("expected an unlock request"),
    }
    assert_eq!(app.last_interaction, 6);
    let next = app.on_reply(Then::Unlock, Reply::Accepted(Payload::Plain), 7);
    assert!(matches!(app.state, AppState::EntriesList));
    assert!(app.vault_unlocked);
    assert!(matches!(next, Command::Send(Request::ListEntries, Then::LoadEntries)));
}

#[test]
fn refused_unlock_shows_the_daemon_message() {
    let mut app = App::new(false, vec![], 0);
    app.on_reply(Then::Unlock, Reply::Refused("Failed to load vault: Decryption failed".to_string()), 9);
    assert_eq!(status(&app).as_deref(), Some("Failed to load vault: Decryption failed"));
    assert_eq!(app.status_time, Some(9));
    app.on_reply(Then::Unlock, Reply::Unreachable("gone".to_string()), 10);
    assert_eq!(status(&app).as_deref(), Some("Communication error"));
}

#[test]
fn entry_list_keys_wrap() {
    let mut app = unlocked_app();
    assert_eq!(app.entries.len(), 2);
    assert_eq!(app.vault_version, 4);
    assert_eq!(app.selected, Some(0));
    handle_event(&mut app, key(KeyCode::Down), 2);
    assert_eq!(app.selected, Some(1));
    handle_event(&mut app, key(KeyCode::Down), 2);
    assert_eq!(app.selected, Some(0));
    handle_event(&mut app, key(KeyCode::Up), 2);
    assert_eq!(app.selected, Some(1));
}

#[test]
fn new_entry_requires_every_field() {
    let mut app = unlocked_app();
    handle_event(&mut app, ch('n'), 2);
    assert!(matches!(app.state, AppState::NewEntryForm));
    assert_eq!(app.form_state.fields.len(), 3);
    for c in "web".chars() {
        handle_event(&mut app, ch(c), 3);
    }
    assert!(matches!(handle_event(&mut app, key(KeyCode::Enter), 4), Command::Done));
    assert_eq!(status(&app).as_deref(), Some("All fields are required!"));
    handle_event(&mut app, key(KeyCode::Tab), 5);
    handle_event(&mut app, ch('u'), 5);
    handle_event(&mut app, key(KeyCode::Tab), 5);
    handle_event(&mut app, ch('p'), 5);
    match handle_event(&mut app, key(KeyCode::Enter), 6) {
        Command::Send(Request::AddEntry { entry_ctx }, Then::Add) => {
            assert_eq!(entry_ctx.service, "web");
            assert_eq!(entry_ctx.username, "u");
            assert_eq!(entry_ctx.password, "p");
        }
        _ => panic!("expected an addition"),
    }
    let next = app.on_reply(Then::Add, Reply::Accepted(Payload::Plain), 7);
    assert!(matches!(app.state, AppState::EntriesList));
    assert_eq!(status(&app).as_deref(), Some("Entry successfully added!"));
    assert!(matches!(next, Command::Send(Request::ListEntries, Then::LoadEntries)));
}

#[test]
fn failed_addition_writes_the_debug_file() {
    let mut app = unlocked_app();
    handle_event(&mut app, ch('n'), 2);
    let cmd = app.on_reply(Then::Add, Reply::Refused("Save failed: disk".to_string()), 3);
    assert_eq!(status(&app).as_deref(), Some("Add Entry failed. Check debug log."));
    match cmd {
        Command::WriteDebug(text) => {
            assert_eq!(text, "Add Entry Error: Save failed: disk\nData: Service,Username,Password")
        }
        _ => panic!("expected a debug write"),
    }
}

#[test]
fn deleting_asks_for_confirmation() {
    let mut app = unlocked_app();
    handle_event(&mut app, key(KeyCode::Down), 2);
    handle_event(&mut app, key(KeyCode::Backspace), 3);
    match &app.state {
        AppState::ConfirmAction { action, .. } => assert_eq!(*action, PendingAction::DeleteEntry(2)),
        _ => panic!("expected a confirmation"),
    }
    match handle_event(&mut app, ch('y'), 4) {
        Command::Send(Request::DeleteEntry { uuid }, Then::Delete) => assert_eq!(uuid, 2),
        _ => panic!("expected a deletion"),
    }
    assert!(matches!(app.state, AppState::EntriesList));
    app.on_reply(Then::Delete, Reply::Accepted(Payload::Plain), 5);
    assert_eq!(status(&app).as_deref(), Some("Entry successfully deleted!"));
}

#[test]
fn editing_fetches_the_entry_and_fills_the_form() {
    let mut app = unlocked_app();
    match handle_event(&mut app, ch('e'), 2) {
        Command::Send(Request::GetEntryById { uuid }, Then::Populate) => assert_eq!(uuid, 1),
        _ => panic!("expected a fetch"),
    }
    assert!(matches!(app.state, AppState::UpdateEntry));
    app.on_reply(Then::Populate, Reply::Accepted(Payload::Entry(Some(entry(1, "mail")))), 3);
    assert_eq!(text_of(&app, 0), "mail");
    assert_eq!(text_of(&app, 1), "me");
    assert_eq!(text_of(&app, 2), "pw");
    assert_eq!(app.form_state.fields[2].field_type, FieldType::Password);
    match handle_event(&mut app, key(KeyCode::Enter), 4) {
        Command::Send(Request::UpdateEntry { entry_ctx }, Then::Update) => {
            assert_eq!(entry_ctx.uuid, 1);
            assert_eq!(entry_ctx.service.as_deref(), Some("mail"));
            assert_eq!(entry_ctx.password.as_deref(), Some("pw"));
        }
        _ => panic!("expected an update"),
    }
}

#[test]
fn viewing_copies_the_selected_field() {
    let mut app = unlocked_app();
    handle_event(&mut app, key(KeyCode::Enter), 2);
    assert!(matches!(app.state, AppState::ViewEntry(1)));
    app.on_reply(Then::Populate, Reply::Accepted(Payload::Entry(Some(entry(1, "mail")))), 3);
    handle_event(&mut app, key(KeyCode::BackTab), 4);
    match handle_event(&mut app, key(KeyCode::Enter), 5) {
        Command::Copy(text) => assert_eq!(text, "pw"),
        _ => panic!("expected a copy"),
    }
    app.on_copied(false, 6);
    assert_eq!(status(&app).as_deref(), Some("Failed to copy (missing wl-copy)"));
    handle_event(&mut app, key(KeyCode::Esc), 7);
    assert!(matches!(app.state, AppState::EntriesList));
}

#[test]
fn settings_menu_moves_and_clamps() {
    let mut app = unlocked_app();
    handle_event(&mut app, ch('?'), 2);
    handle_event(&mut app, key(KeyCode::Up), 3);
    match &app.state {
        AppState::Settings(s) => assert_eq!(s.selected, Some(2)),
        _ => panic!("expected the settings"),
    }
    handle_event(&mut app, key(KeyCode::Down), 3);
    match &app.state {
        AppState::Settings(s) => assert_eq!(s.selected, Some(2)),
        _ => panic!("expected the settings"),
    }
    handle_event(&mut app, key(KeyCode::Up), 3);
    handle_event(&mut app, key(KeyCode::Up), 3);
    handle_event(&mut app, key(KeyCode::Up), 3);
    match &app.state {
        AppState::Settings(s) => assert_eq!(s.selected, Some(0)),
        _ => panic!("expected the settings"),
    }
    handle_event(&mut app, key(KeyCode::Enter), 4);
    assert!(matches!(app.state, AppState::ChangeMasterPassword));
    assert_eq!(app.form_state.fields[2].label, "Conform Password");
}

#[test]
fn master_password_form_checks_before_sending() {
    let mut app = unlocked_app();
    handle_event(&mut app, ch('?'), 2);
    handle_event(&mut app, key(KeyCode::Down), 2);
    handle_event(&mut app, key(KeyCode::Enter), 2);
    assert!(matches!(app.state, AppState::ChangeMasterPassword));
    handle_event(&mut app, key(KeyCode::Enter), 3);
    assert_eq!(status(&app).as_deref(), Some("Fields cannot be empty!"));
    assert_eq!(app.form_state.fields.len(), 3);
    handle_event(&mut app, ch('a'), 4);
    handle_event(&mut app, key(KeyCode::Tab), 4);
    handle_event(&mut app, ch('b'), 4);
    assert_eq!(text_of(&app, 0), "a");
    assert_eq!(text_of(&app, 1), "b");
    assert!(matches!(handle_event(&mut app, key(KeyCode::Enter), 5), Command::Done));
    assert_eq!(status(&app).as_deref(), Some("New passwords do not match!"));
    handle_event(&mut app, key(KeyCode::Tab), 6);
    handle_event(&mut app, ch('b'), 6);
    match handle_event(&mut app, key(KeyCode::Enter), 7) {
        Command::Send(Request::Unlock { master_password }, Then::UnlockForChange(new_password)) => {
            assert_eq!(master_password, "a");
            assert_eq!(new_password, "b");
        }
        _ => panic!("expected the current password to be checked first"),
    }
}

#[test]
fn master_password_must_change() {
    let mut app = unlocked_app();
    handle_event(&mut app, ch('?'), 2);
    handle_event(&mut app, key(KeyCode::Down), 2);
    handle_event(&mut app, key(KeyCode::Enter), 2);
    for _ in 0..3 {
        handle_event(&mut app, ch('s'), 3);
        handle_event(&mut app, key(KeyCode::Tab), 3);
    }
    assert!(matches!(handle_event(&mut app, key(KeyCode::Enter), 4), Command::Done));
    assert_eq!(status(&app).as_deref(), Some("New password cannot be the same!"));
}

#[test]
fn copied_text_is_cleared_later() {
    let mut app = unlocked_app();
    app.on_copied(true, 100);
    assert_eq!(status(&app).as_deref(), Some("Copied to clipboard!"));
    assert_eq!(app.clipboard_clear_at, Some(100 + CLIPBOARD_CLEAR_MS));
    assert!(matches!(app.tick(100 + CLIPBOARD_CLEAR_MS - 1), Command::Done));
    assert_eq!(app.clipboard_clear_at, Some(30100));
    assert!(matches!(app.tick(30100), Command::ClearClipboard));
    assert_eq!(app.clipboard_clear_at, None);
    assert!(matches!(app.tick(40000), Command::Done));
    app.on_copied(false, 50000);
    assert_eq!(app.clipboard_clear_at, None);
    app.on_copied(true, u128::MAX);
    assert!(matches!(app.tick(u128::MAX), Command::ClearClipboard));
}

#[test]
fn typing_keeps_the_cursor_inside_the_text() {
    let mut app = unlocked_app();
    handle_event(&mut app, ch('n'), 2);
    handle_event(&mut app, ch('x'), 3);
    handle_event(&mut app, ch('y'), 3);
    handle_event(&mut app, key(KeyCode::Right), 3);
    handle_event(&mut app, key(KeyCode::Right), 3);
    assert_eq!(app.form_state.cursor_index, 2);
    handle_event(&mut app, key(KeyCode::Left), 3);
    handle_event(&mut app, key(KeyCode::Backspace), 3);
    assert_eq!(text_of(&app, 0), "y");
    assert_eq!(app.form_state.cursor_index, 0);
    handle_event(&mut app, key(KeyCode::Left), 3);
    assert_eq!(app.form_state.cursor_index, 0);
}

#[test]
fn generator_screen_loads_settings_once() {
    let mut app = unlocked_app();
    handle_event(&mut app, ch('?'), 2);
    handle_event(&mut app, key(KeyCode::Up), 2);
    let cmd = handle_event(&mut app, key(KeyCode::Enter), 3);
    assert!(matches!(cmd, Command::Send(Request::LoadGeneratorConfig, Then::OpenGenerator)));
    let config = GeneratorConfig { mode: GeneratorMode::RandomChars, length: 12, ..GeneratorConfig::default() };
    app.on_reply(Then::OpenGenerator, Reply::Accepted(Payload::Generator(Some(config))), 4);
    assert!(matches!(app.state, AppState::PasswordGenerator(_)));
    assert_eq!(app.form_state.fields.len(), 9);
    assert!(matches!(app.form_state.fields[0].value, FieldValue::Number(12)));
    handle_event(&mut app, ch('5'), 5);
    assert!(matches!(app.form_state.fields[0].value, FieldValue::Number(125)));
    handle_event(&mut app, ch('9'), 5);
    assert_eq!(status(&app).as_deref(), Some("Limite máximo atingido!"));
    handle_event(&mut app, key(KeyCode::Backspace), 6);
    assert!(matches!(app.form_state.fields[0].value, FieldValue::Number(0)));
    handle_event(&mut app, key(KeyCode::Right), 6);
    assert!(matches!(app.form_state.fields[0].value, FieldValue::Number(1)));
    handle_event(&mut app, ch('r'), 7);
    match &app.state {
        AppState::PasswordGenerator(g) => {
            assert_eq!(g.session_config.length, 1);
            assert_eq!(g.generated_password.as_ref().map(|p| p.chars().count()), Some(1));
        }
        _ => panic!("expected the generator"),
    }
    assert_eq!(app.generator_session_config.map(|c| c.length), Some(1));
    handle_event(&mut app, key(KeyCode::Esc), 8);
    assert!(matches!(app.state, AppState::VaultLocked));
}

#[test]
fn auto_fill_puts_a_secret_in_the_password_field() {
    let mut app = unlocked_app();
    let session = GeneratorConfig { mode: GeneratorMode::RandomChars, length: 5, ..GeneratorConfig::default() };
    app.generator_session_config = Some(session);
    handle_event(&mut app, ch('n'), 2);
    let cmd = handle_event(&mut app, Key { code: KeyCode::Char('a'), control: true }, 3);
    assert!(matches!(cmd, Command::Send(Request::LoadGeneratorConfig, Then::AutoFill)));
    let config = GeneratorConfig { mode: GeneratorMode::RandomChars, length: 20, ..GeneratorConfig::default() };
    app.on_reply(Then::AutoFill, Reply::Accepted(Payload::Generator(Some(config))), 4);
    assert_eq!(text_of(&app, 2).chars().count(), 20);
    assert_eq!(status(&app).as_deref(), Some("Password auto-filled!"));
    assert_eq!(app.generator_session_config.map(|c| c.length), Some(5));
    app.on_reply(Then::AutoFill, Reply::Refused("no".to_string()), 5);
    assert_eq!(status(&app).as_deref(), Some("Unexpected response from daemon"));
}

#[test]
fn snapshot_list_is_newest_first() {
    let mut app = unlocked_app();
    handle_event(&mut app, ch('?'), 2);
    handle_event(&mut app, key(KeyCode::Down), 2);
    handle_event(&mut app, key(KeyCode::Down), 2);
    let cmd = handle_event(&mut app, key(KeyCode::Enter), 3);
    assert!(matches!(cmd, Command::Send(Request::ListSnapshots, Then::Snapshots)));
    assert!(matches!(app.state, AppState::SnapshotList));
    let snap = |uuid: u128, version: u32| VaultSnapshot {
        uuid,
        version,
        created_at: 0,
        checksum: String::new(),
        file_ref: None,
        reason: String::new(),
    };
    app.on_reply(
        Then::Snapshots,
        Reply::Accepted(Payload::Snapshots(Some(VaultSnapshotPayload { snapshots: vec![snap(10, 1), snap(11, 2)] }))),
        4,
    );
    app.selected = Some(0);
    handle_event(&mut app, key(KeyCode::Enter), 5);
    match &app.state {
        AppState::ConfirmAction { action, .. } => assert_eq!(*action, PendingAction::RestoreSnapshot(11, 2)),
        _ => panic!("expected a confirmation"),
    }
    match handle_event(&mut app, key(KeyCode::Enter), 6) {
        Command::Send(Request::RestoreSnapshot { version, uuid }, Then::Restore(v)) => {
            assert_eq!((version, uuid, v), (2, 11, 2))
        }
        _ => panic!("expected a restoration"),
    }
    app.on_reply(Then::Restore(2), Reply::Accepted(Payload::Plain), 7);
    assert_eq!(status(&app).as_deref(), Some("Snapshot v2 restored!"));
    assert!(matches!(app.state, AppState::Settings(_)));
}

#[test]
fn lock_and_quit_keys() {
    let mut app = unlocked_app();
    assert!(quits(&app, key(KeyCode::Esc)));
    assert!(!quits(&app, ch('q')));
    let cmd = handle_event(&mut app, ch('x'), 2);
    assert!(matches!(cmd, Command::Send(Request::Lock, Then::Ignore)));
    assert!(matches!(app.state, AppState::UnlockPrompt));
    assert!(!app.vault_unlocked);
    assert_eq!(app.form_state.fields[0].label, "Password");
    assert_eq!(get_helper_text(&app.state), "(↵) Submit | (Esc) Quit");
}

#[test]
fn drawing_clamps_the_highlight() {
    let mut app = unlocked_app();
    app.selected = Some(7);
    app.table_rendered();
    assert_eq!(app.selected, Some(1));
    app.on_reply(Then::LoadEntries, listing(vec![], 5), 3);
    app.table_rendered();
    assert_eq!(app.selected, None);
    assert_eq!(get_status_text(&app), "vault v5");
}

#[test]
fn substring_search() {
    assert!(contains_text("Error: Vault is locked now", "Vault is locked"));
    assert!(!contains_text("Vault is unlocked", "Vault is locked"));
    assert!(contains_text("abc", ""));
    assert!(!contains_text("", "a"));
}

#[test]
fn selection_kinds_are_checked() {
    let mut app = unlocked_app();
    assert_eq!(app.get_selected_entry_id(3), Some(1));
    assert_eq!(app.get_selected_snapshot_uuid(4), None);
    assert_eq!(status(&app).as_deref(), Some("Type mismatch: Selected item is not a snapshot"));
    assert_eq!(app.status_time, Some(4));
    assert_eq!(app.get_selected_snapshot_version(5), None);
}

#[test]
fn requests_built_by_the_client() {
    let mut app = unlocked_app();
    match app.unlock_vault("secret") {
        Command::Send(Request::Unlock { master_password }, Then::Unlock) => assert_eq!(master_password, "secret"),
        _ => panic!("expected an unlock"),
    }
    assert!(matches!(app.delete_entry(7), Command::Send(Request::DeleteEntry { uuid: 7 }, Then::Delete)));
    assert!(matches!(app.copy_to_clipboard("x".to_string()), Command::Copy(ref t) if t == "x"));
    app.snapshots = vec![
        VaultSnapshot { uuid: 5, version: 3, created_at: 0, checksum: String::new(), file_ref: None, reason: String::new() },
        VaultSnapshot { uuid: 5, version: 9, created_at: 0, checksum: String::new(), file_ref: None, reason: String::new() },
    ];
    match app.restore_snapshot(5, None) {
        Command::Send(Request::RestoreSnapshot { version, uuid }, Then::Restore(shown)) => {
            assert_eq!((version, uuid, shown), (9, 5, 0))
        }
        _ => panic!("expected a restoration"),
    }
    let c = app.load_generator_config(Reply::Unreachable("no socket".to_string()), 8);
    assert_eq!(c, GeneratorConfig::default());
    assert_eq!(status(&app).as_deref(), Some("Failed to load generator config: no socket"));
}

#[test]
fn editing_non_ascii_text_counts_characters() {
    let mut app = unlocked_app();
    handle_event(&mut app, ch('n'), 2);
    handle_event(&mut app, ch('é'), 3);
    handle_event(&mut app, ch('ü'), 3);
    assert_eq!(text_of(&app, 0), "éü");
    assert_eq!(app.form_state.cursor_index, 2);
    handle_event(&mut app, key(KeyCode::Backspace), 3);
    assert_eq!(text_of(&app, 0), "é");
    assert_eq!(app.form_state.cursor_index, 1);
    handle_event(&mut app, key(KeyCode::Delete), 3);
    assert_eq!(text_of(&app, 0), "é");
    handle_event(&mut app, key(KeyCode::Left), 3);
    assert_eq!(app.form_state.cursor_index, 0);
    handle_event(&mut app, ch('a'), 3);
    assert_eq!(text_of(&app, 0), "aé");
    assert_eq!(app.form_state.cursor_index, 1);
    handle_event(&mut app, key(KeyCode::Delete), 3);
    assert_eq!(text_of(&app, 0), "a");
    assert_eq!(app.form_state.cursor_index, 1);
}
