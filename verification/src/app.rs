//! The terminal client's state: the screen shown, the entries and snapshots
//! last read from the daemon, the form being edited and the status line.
//! The client talks to the daemon and the clipboard through `Command`s that
//! the caller carries out, handing each outcome back (see `on_reply`).

use vstd::prelude::*;

use crate::client::{next_index, opt_text, prev_index, snapshot_index_of_row};
use crate::daemon::generate_spec_ok;
use crate::generator::{can_generate, default_generator_config, generate, is_generated, GeneratorConfig, GeneratorMode};
use crate::ipc::{Request, VaultListPayload, VaultSnapshotPayload};
use crate::state::{
    cleared, empty_text, is_generator_form, FieldConfig, FieldType, FieldValue, FormState, PasswordGeneratorState,
    PendingAction, SettingsOption,
};
use crate::text::{concat_str, contains_text, decimal, decimal_string, has_infix};
use crate::vault::{Entry, VaultSnapshot};

verus! {

/// A key as the client reads it.
#[derive(Clone, Copy, Debug, PartialEq, Eq, Structural)]
pub enum KeyCode {
    Esc,
    Backspace,
    Delete,
    Left,
    Right,
    Up,
    Down,
    Tab,
    BackTab,
    Enter,
    F(u8),
    Char(char),
    Other,
}

/// A key press: the key, and whether Control (and no other modifier) was
/// held.
#[derive(Clone, Copy, Debug, PartialEq, Eq, Structural)]
pub struct Key {
    pub code: KeyCode,
    pub control: bool,
}

/// The options of the settings screen, in order.
pub open spec fn settings_options() -> Seq<SettingsOption> {
    seq![SettingsOption::ChangeMasterPassword, SettingsOption::SnapshotList, SettingsOption::PasswordGenerator]
}

/// The settings screen: its options and the one highlighted, if any.
#[derive(Debug)]
pub struct SettingsState {
    pub selected: Option<usize>,
    pub options: Vec<SettingsOption>,
}

impl SettingsState {
    /// The options are the settings options and the highlight is on one.
    pub open spec fn wf(&self) -> bool {
        &&& self.options@ == settings_options()
        &&& self.selected matches Some(i) ==> i < self.options@.len()
    }

    /// Whether this is the screen as first shown: nothing highlighted.
    pub open spec fn is_fresh(&self) -> bool {
        self.wf() && self.selected is None
    }
}

impl Default for SettingsState {
    fn default() -> (res: Self)
        ensures
            res.is_fresh(),
    {
        let mut options: Vec<SettingsOption> = Vec::new();
        options.push(SettingsOption::ChangeMasterPassword);
        options.push(SettingsOption::SnapshotList);
        options.push(SettingsOption::PasswordGenerator);
        assert(options@ =~= settings_options());
        SettingsState { selected: None, options }
    }
}

/// The screen the client shows.
pub enum AppState {
    InitialCheck,
    UnlockPrompt,
    VaultLocked,
    EntriesList,
    NewEntryForm,
    ViewEntry(u128),
    UpdateEntry,
    Settings(SettingsState),
    ChangeMasterPassword,
    SnapshotList,
    ConfirmAction { action: PendingAction, previous_state: Box<AppState> },
    PasswordGenerator(PasswordGeneratorState),
}

/// The screens that edit or show a form.
pub open spec fn shows_form(s: AppState) -> bool {
    ||| s is UnlockPrompt
    ||| s is ViewEntry
    ||| s is NewEntryForm
    ||| s is UpdateEntry
    ||| s is ChangeMasterPassword
    ||| s is PasswordGenerator
}

/// `s` is the settings screen as first shown.
pub open spec fn is_fresh_settings(s: AppState) -> bool {
    s matches AppState::Settings(st) && st.is_fresh()
}

/// What to do with the daemon's answer to a request.
pub enum Then {
    /// Nothing (the lock request).
    Ignore,
    /// The status check made at start.
    CheckStatus,
    /// The unlock request of the unlock screen.
    Unlock,
    /// The unlock that checks the current password before a change to the
    /// given new one.
    UnlockForChange(String),
    /// Take the entry listing.
    LoadEntries,
    /// Take the entry listing, then ask to change the master password to the
    /// given one.
    LoadEntriesThenChange(String),
    /// The master-password change.
    ChangePassword,
    /// The entry addition.
    Add,
    /// The entry update.
    Update,
    /// The entry deletion.
    Delete,
    /// The restoration of a snapshot of the given version.
    Restore(u32),
    /// Fill the edit form with the entry.
    Populate,
    /// Take the snapshot listing.
    Snapshots,
    /// Open the generator screen with the settings read.
    OpenGenerator,
    /// Fill the password field with a secret generated with the settings read.
    AutoFill,
}

/// The payload of an accepted request, read by the caller according to the
/// request; `None` when it could not be read.
pub enum Payload {
    Plain,
    Entries(Option<VaultListPayload>),
    Snapshots(Option<VaultSnapshotPayload>),
    Entry(Option<Entry>),
    Generator(Option<GeneratorConfig>),
}

/// How a request ended.
pub enum Reply {
    /// The daemon could not be reached; the error's text.
    Unreachable(String),
    /// The daemon answered with an error message.
    Refused(String),
    /// The daemon answered with a payload.
    Accepted(Payload),
}

/// The outside work the client asks for.
pub enum Command {
    /// Nothing more.
    Done,
    /// Send the request and hand the reply to `on_reply` with the
    /// continuation.
    Send(Request, Then),
    /// Put the text on the clipboard and hand the outcome to `on_copied`.
    Copy(String),
    /// Write the text to the debug file.
    WriteDebug(String),
    /// Empty the clipboard.
    ClearClipboard,
}

/// The client: the screen, whether the vault is open, the entries and
/// snapshots read, the highlighted row, the status line and when it was
/// set, the time of the last key, the vault version, the form, whether
/// it runs in development mode, the generator settings of this session,
/// the words for passphrases, and when the clipboard is to be cleared of a
/// copied secret.
pub struct App {
    pub state: AppState,
    pub vault_unlocked: bool,
    pub entries: Vec<Entry>,
    pub selected: Option<usize>,
    pub status_message: Option<String>,
    pub status_time: Option<u128>,
    pub last_interaction: u128,
    pub vault_version: u32,
    pub form_state: FormState,
    pub snapshots: Vec<VaultSnapshot>,
    pub dev_mode: bool,
    pub generator_session_config: Option<GeneratorConfig>,
    pub wordlist: Vec<String>,
    pub clipboard_clear_at: Option<u128>,
}

/// The highlighted item.
pub enum SelectedItem<'a> {
    Entry(&'a Entry),
    Snapshot(&'a VaultSnapshot),
}

/// `f` is an empty field with this label, kind and masking.
pub open spec fn empty_field(f: FieldConfig, label: &'static str, kind: FieldType, is_password: bool) -> bool {
    &&& f.label == label
    &&& f.field_type == kind
    &&& f.is_password == is_password
    &&& !f.show_password
    &&& empty_text(f.value)
}

/// Two forms hold the same fields, selection, cursor and masking.
pub open spec fn same_form(a: FormState, b: FormState) -> bool {
    &&& b.fields@ == a.fields@
    &&& b.current_field == a.current_field
    &&& b.cursor_index == a.cursor_index
    &&& b.obscure_inputs == a.obscure_inputs
}

/// `b` is the form with the single empty password field `label`, the
/// masking of `a` kept.
pub open spec fn password_prompt(a: FormState, b: FormState, label: &'static str) -> bool {
    &&& b.fields@.len() == 1
    &&& empty_field(b.fields@[0], label, FieldType::Password, true)
    &&& b.current_field == 0
    &&& b.cursor_index == 0
    &&& b.obscure_inputs == a.obscure_inputs
}

/// `b` is an empty three-field form (service, username, password kinds)
/// with these labels, the masking of `a` kept.
pub open spec fn entry_form(
    a: FormState,
    b: FormState,
    l0: &'static str,
    l1: &'static str,
    l2: &'static str,
) -> bool {
    &&& b.fields@.len() == 3
    &&& empty_field(b.fields@[0], l0, FieldType::Service, false)
    &&& empty_field(b.fields@[1], l1, FieldType::Username, false)
    &&& empty_field(b.fields@[2], l2, FieldType::Password, true)
    &&& b.current_field == 0
    &&& b.cursor_index == 0
    &&& b.obscure_inputs == a.obscure_inputs
}

impl App {
    /// The screens that show a form have a field selected, and the settings
    /// screen is well formed.
    pub open spec fn wf(&self) -> bool {
        &&& shows_form(self.state) ==> self.form_state.current_field < self.form_state.fields@.len()
        &&& self.state matches AppState::Settings(s) ==> s.wf()
    }

    /// `b` keeps the data read from the daemon and the session settings of
    /// `self`.
    pub open spec fn same_data(&self, b: App) -> bool {
        &&& b.vault_unlocked == self.vault_unlocked
        &&& b.entries@ == self.entries@
        &&& b.selected == self.selected
        &&& b.vault_version == self.vault_version
        &&& b.snapshots@ == self.snapshots@
        &&& b.dev_mode == self.dev_mode
        &&& b.generator_session_config == self.generator_session_config
        &&& b.wordlist@ == self.wordlist@
        &&& b.clipboard_clear_at == self.clipboard_clear_at
        &&& b.last_interaction == self.last_interaction
    }

    /// `b` keeps the status line of `self`.
    pub open spec fn same_status(&self, b: App) -> bool {
        b.status_message == self.status_message && b.status_time == self.status_time
    }

    /// The status line shows `msg`, set at `now`.
    pub open spec fn has_status(&self, msg: Seq<char>, now: u128) -> bool {
        opt_text(self.status_message) == Some(msg) && self.status_time == Some(now)
    }

    /// Nothing of `self` changed in `b`.
    pub open spec fn unchanged(&self, b: App) -> bool {
        &&& b.state == self.state
        &&& self.same_data(b)
        &&& self.same_status(b)
        &&& same_form(self.form_state, b.form_state)
    }

    /// The number of rows of the list shown: the entries or the snapshots.
    pub open spec fn max_index(&self) -> nat {
        match self.state {
            AppState::EntriesList => self.entries@.len(),
            AppState::SnapshotList => self.snapshots@.len(),
            _ => 0,
        }
    }

    /// The position of the entry highlighted, on the screens that highlight
    /// entries.
    pub open spec fn selected_entry(&self) -> Option<int> {
        if (self.state is EntriesList || self.state is UpdateEntry) && (self.selected matches Some(i) && i
            < self.entries@.len()) {
            Some(self.selected->0 as int)
        } else {
            None
        }
    }

    /// The position of the snapshot highlighted on the snapshot screen,
    /// which lists them newest first.
    pub open spec fn selected_snapshot(&self) -> Option<int> {
        if self.state is SnapshotList && (self.selected matches Some(v) && v < self.snapshots@.len()) {
            Some(self.snapshots@.len() - 1 - self.selected->0)
        } else {
            None
        }
    }

    /// The client as started at `now`: checking the vault, first row
    /// highlighted, nothing read yet.
    pub fn new(dev_mode: bool, wordlist: Vec<String>, now: u128) -> (res: Self)
        ensures
            res.wf(),
            res.state is InitialCheck,
            !res.vault_unlocked,
            res.entries@.len() == 0,
            res.selected == Some(0usize),
            res.status_message is None,
            res.status_time == Some(now),
            res.last_interaction == now,
            res.vault_version == 0,
            res.form_state.fields@.len() == 0,
            res.form_state.current_field == 0,
            res.form_state.cursor_index == 0,
            res.form_state.obscure_inputs,
            res.snapshots@.len() == 0,
            res.clipboard_clear_at is None,
            res.dev_mode == dev_mode,
            res.generator_session_config is None,
            res.wordlist@ == wordlist@,
    {
        App {
            state: AppState::InitialCheck,
            vault_unlocked: false,
            entries: Vec::new(),
            selected: Some(0),
            status_message: None,
            status_time: Some(now),
            last_interaction: now,
            vault_version: 0,
            form_state: FormState::new(),
            snapshots: Vec::new(),
            dev_mode,
            generator_session_config: None,
            wordlist,
            clipboard_clear_at: None,
        }
    }

    /// Shows `msg` on the status line, set at `now`.
    pub fn set_status(&mut self, msg: String, now: u128)
        ensures
            final(self).has_status(msg@, now),
            final(self).state == old(self).state,
            old(self).same_data(*final(self)),
            same_form(old(self).form_state, final(self).form_state),
    {
        self.status_message = Some(msg);
        self.status_time = Some(now);
    }

    /// The number of rows of the list shown.
    pub fn cal_max_index(&self) -> (res: usize)
        ensures
            res == self.max_index(),
    {
        match self.state {
            AppState::EntriesList => self.entries.len(),
            AppState::SnapshotList => self.snapshots.len(),
            _ => 0,
        }
    }

    /// Highlights the next row of the list shown, wrapping around.
    pub fn next_index(&mut self)
        ensures
            final(self).state == old(self).state,
            final(self).selected == if old(self).max_index() > 0 {
                Some(
                    match old(self).selected {
                        Some(i) => ((i + 1) % (old(self).max_index() as int)) as usize,
                        None => 0,
                    },
                )
            } else {
                old(self).selected
            },
            final(self).entries@ == old(self).entries@,
            final(self).snapshots@ == old(self).snapshots@,
            final(self).vault_unlocked == old(self).vault_unlocked,
            final(self).vault_version == old(self).vault_version,
            final(self).dev_mode == old(self).dev_mode,
            final(self).generator_session_config == old(self).generator_session_config,
            final(self).wordlist@ == old(self).wordlist@,
            final(self).last_interaction == old(self).last_interaction,
            final(self).clipboard_clear_at == old(self).clipboard_clear_at,
            old(self).same_status(*final(self)),
            same_form(old(self).form_state, final(self).form_state),
    {
        let max = self.cal_max_index();
        self.selected = next_index(self.selected, max);
    }

    /// Highlights the previous row of the list shown, wrapping around.
    pub fn prev_index(&mut self)
        ensures
            final(self).state == old(self).state,
            final(self).selected == if old(self).max_index() > 0 {
                Some(
                    match old(self).selected {
                        Some(i) => if i == 0 {
                            (old(self).max_index() - 1) as usize
                        } else {
                            (i - 1) as usize
                        },
                        None => (old(self).max_index() - 1) as usize,
                    },
                )
            } else {
                old(self).selected
            },
            final(self).entries@ == old(self).entries@,
            final(self).snapshots@ == old(self).snapshots@,
            final(self).vault_unlocked == old(self).vault_unlocked,
            final(self).vault_version == old(self).vault_version,
            final(self).dev_mode == old(self).dev_mode,
            final(self).generator_session_config == old(self).generator_session_config,
            final(self).wordlist@ == old(self).wordlist@,
            final(self).last_interaction == old(self).last_interaction,
            final(self).clipboard_clear_at == old(self).clipboard_clear_at,
            old(self).same_status(*final(self)),
            same_form(old(self).form_state, final(self).form_state),
    {
        let max = self.cal_max_index();
        self.selected = prev_index(self.selected, max);
    }

    /// The highlighted entry or snapshot, on the screens that highlight one.
    pub fn get_selected_item(&self) -> (res: Option<SelectedItem<'_>>)
        ensures
            self.selected_entry() matches Some(i) ==> (res matches Some(SelectedItem::Entry(e)) && *e
                == self.entries@[i]),
            self.selected_snapshot() matches Some(i) ==> (res matches Some(SelectedItem::Snapshot(s)) && *s
                == self.snapshots@[i]),
            self.selected_entry() is None && self.selected_snapshot() is None ==> res is None,
    {
        match self.state {
            AppState::EntriesList | AppState::UpdateEntry => match self.selected {
                Some(i) => {
                    if i < self.entries.len() {
                        Some(SelectedItem::Entry(&self.entries[i]))
                    } else {
                        None
                    }
                },
                None => None,
            },
            AppState::SnapshotList => match self.selected {
                Some(v) => match snapshot_index_of_row(v, self.snapshots.len()) {
                    Some(k) => Some(SelectedItem::Snapshot(&self.snapshots[k])),
                    None => None,
                },
                None => None,
            },
            _ => None,
        }
    }

    /// The identifier of the highlighted entry, if any; a highlighted
    /// snapshot is reported on the status line at `now`.
    pub fn get_selected_entry_id(&mut self, now: u128) -> (res: Option<u128>)
        ensures
            final(self).state == old(self).state,
            old(self).same_data(*final(self)),
            same_form(old(self).form_state, final(self).form_state),
            old(self).selected_entry() matches Some(i) ==> res == Some(old(self).entries@[i].uuid),
            old(self).selected_entry() is None ==> res is None,
            old(self).selected_snapshot() is Some ==> final(self).has_status(
                "Type mismatch: Selected item is not an entry"@,
                now,
            ),
            old(self).selected_snapshot() is None ==> old(self).same_status(*final(self)),
    {
        let found = match self.get_selected_item() {
            Some(SelectedItem::Entry(e)) => Ok(e.uuid),
            Some(SelectedItem::Snapshot(_)) => Err(true),
            None => Err(false),
        };
        match found {
            Ok(id) => Some(id),
            Err(mismatch) => {
                if mismatch {
                    self.set_status(String::from_str("Type mismatch: Selected item is not an entry"), now);
                }
                None
            },
        }
    }

    /// The highlighted snapshot's identifier and version, if any.
    fn selected_snapshot_pair(&self) -> (res: Option<(u128, u32)>)
        ensures
            self.selected_snapshot() matches Some(i) ==> res == Some(
                (self.snapshots@[i].uuid, self.snapshots@[i].version),
            ),
            self.selected_snapshot() is None ==> res is None,
    {
        match self.get_selected_item() {
            Some(SelectedItem::Snapshot(s)) => Some((s.uuid, s.version)),
            _ => None,
        }
    }

    /// The identifier of the highlighted snapshot, if any; a highlighted
    /// entry is reported on the status line at `now`.
    pub fn get_selected_snapshot_uuid(&mut self, now: u128) -> (res: Option<u128>)
        ensures
            final(self).state == old(self).state,
            old(self).same_data(*final(self)),
            same_form(old(self).form_state, final(self).form_state),
            old(self).selected_snapshot() matches Some(i) ==> res == Some(old(self).snapshots@[i].uuid),
            old(self).selected_snapshot() is None ==> res is None,
            old(self).selected_entry() is Some ==> final(self).has_status(
                "Type mismatch: Selected item is not a snapshot"@,
                now,
            ),
            old(self).selected_entry() is None ==> old(self).same_status(*final(self)),
    {
        if self.get_selected_entry_id_quiet().is_some() {
            self.set_status(String::from_str("Type mismatch: Selected item is not a snapshot"), now);
        }
        match self.selected_snapshot_pair() {
            Some((id, _)) => Some(id),
            None => None,
        }
    }

    /// The version of the highlighted snapshot, if any; a highlighted entry
    /// is reported on the status line at `now`.
    pub fn get_selected_snapshot_version(&mut self, now: u128) -> (res: Option<u32>)
        ensures
            final(self).state == old(self).state,
            old(self).same_data(*final(self)),
            same_form(old(self).form_state, final(self).form_state),
            old(self).selected_snapshot() matches Some(i) ==> res == Some(old(self).snapshots@[i].version),
            old(self).selected_snapshot() is None ==> res is None,
            old(self).selected_entry() is Some ==> final(self).has_status(
                "Type mismatch: Selected item is not a snapshot"@,
                now,
            ),
            old(self).selected_entry() is None ==> old(self).same_status(*final(self)),
    {
        if self.get_selected_entry_id_quiet().is_some() {
            self.set_status(String::from_str("Type mismatch: Selected item is not a snapshot"), now);
        }
        match self.selected_snapshot_pair() {
            Some((_, v)) => Some(v),
            None => None,
        }
    }

    /// The highlighted entry's identifier, without touching the status line.
    fn get_selected_entry_id_quiet(&self) -> (res: Option<u128>)
        ensures
            self.selected_entry() matches Some(i) ==> res == Some(self.entries@[i].uuid),
            self.selected_entry() is None ==> res is None,
    {
        match self.get_selected_item() {
            Some(SelectedItem::Entry(e)) => Some(e.uuid),
            _ => None,
        }
    }

    /// The text of field `index` of the form, or the empty text.
    pub fn get_input_for_field(&self, index: usize) -> (res: &str)
        ensures
            index < self.form_state.fields@.len() && self.form_state.fields@[index as int].value is Text
                ==> res@ == self.form_state.fields@[index as int].value->Text_0@,
            !(index < self.form_state.fields@.len() && self.form_state.fields@[index as int].value is Text)
                ==> res@ == ""@,
    {
        self.form_state.get_input_for_field(index)
    }
}


/// The listing carried by a payload, when it is a listing that could be read.
pub open spec fn listing_of(p: Payload) -> Option<VaultListPayload> {
    match p {
        Payload::Entries(Some(l)) => Some(l),
        _ => None,
    }
}

/// The labels of `fields` joined by commas.
pub open spec fn labels_joined(fields: Seq<FieldConfig>) -> Seq<char>
    decreases fields.len(),
{
    if fields.len() == 0 {
        Seq::empty()
    } else if fields.len() == 1 {
        fields[0].label@
    } else {
        labels_joined(fields.drop_last()) + ","@ + fields.last().label@
    }
}

/// `f` is a field with this label, kind and masking holding the text `t`.
pub open spec fn filled_field(f: FieldConfig, label: &'static str, kind: FieldType, is_password: bool, t: Seq<char>) -> bool {
    &&& f.label == label
    &&& f.field_type == kind
    &&& f.is_password == is_password
    &&& !f.show_password
    &&& f.value matches FieldValue::Text(s) && s@ == t
}

/// The generator settings that a reply to the settings request gives: those
/// read, or the factory settings.
pub open spec fn loaded_config(reply: Reply) -> GeneratorConfig {
    match reply {
        Reply::Accepted(Payload::Generator(Some(c))) => c,
        _ => default_generator_config(),
    }
}

/// The status message that a reply to the settings request leaves, if any.
pub open spec fn config_status(reply: Reply) -> Option<Seq<char>> {
    match reply {
        Reply::Refused(_) => Some("Unexpected response from daemon"@),
        Reply::Unreachable(e) => Some("Failed to load generator config: "@ + e@),
        _ => None,
    }
}

/// The position of the first password field.
pub open spec fn password_field_index(fields: Seq<FieldConfig>) -> int {
    crate::vault::first_index(fields, |f: FieldConfig| f.field_type is Password)
}

impl App {
    /// `b` keeps the development mode, the words and the time of the last key.
    pub open spec fn keeps_session(&self, b: App) -> bool {
        &&& b.dev_mode == self.dev_mode
        &&& b.wordlist@ == self.wordlist@
        &&& b.last_interaction == self.last_interaction
        &&& b.clipboard_clear_at == self.clipboard_clear_at
    }

    /// `b` keeps the entries, the highlighted row and the vault version.
    pub open spec fn keeps_list(&self, b: App) -> bool {
        b.entries@ == self.entries@ && b.selected == self.selected && b.vault_version == self.vault_version
    }

    /// `b` keeps the snapshots and the generator settings of the session.
    pub open spec fn keeps_extra(&self, b: App) -> bool {
        b.snapshots@ == self.snapshots@ && b.generator_session_config == self.generator_session_config
    }

    /// `b` is `self` with only the status line changed, to `msg` at `now`.
    pub open spec fn only_status(&self, b: App, msg: Seq<char>, now: u128) -> bool {
        b.state == self.state && self.same_data(b) && b.has_status(msg, now) && same_form(
            self.form_state,
            b.form_state,
        )
    }

    /// `b` is `self` after taking the listing `l` (when it could be read):
    /// the entries and version, and the first row highlighted when nothing
    /// was.
    pub open spec fn took_listing(&self, b: App, l: Option<VaultListPayload>) -> bool {
        &&& match l {
            Some(p) => b.entries@ == p.entries@ && b.vault_version == p.version && b.selected == if self.selected
                is None && p.entries@.len() > 0 {
                Some(0usize)
            } else {
                self.selected
            },
            None => self.keeps_list(b),
        }
        &&& self.keeps_extra(b)
        &&& self.keeps_session(b)
        &&& self.same_status(b)
        &&& same_form(self.form_state, b.form_state)
    }

    /// `b` is `self` locked by the client: the entries forgotten, the status
    /// line emptied, the locked screen shown.
    pub open spec fn locked_by_client(&self, b: App) -> bool {
        &&& !b.vault_unlocked
        &&& b.entries@.len() == 0
        &&& b.selected == self.selected
        &&& b.vault_version == self.vault_version
        &&& b.status_message is None
        &&& b.status_time == self.status_time
        &&& b.state is VaultLocked
        &&& self.keeps_extra(b)
        &&& self.keeps_session(b)
        &&& same_form(self.form_state, b.form_state)
    }

    /// `b` is `self` after the failure of `action` with the daemon's message
    /// `err`: the status line points to the debug file, which `cmd` writes.
    pub open spec fn logged_error(&self, b: App, cmd: Command, action: Seq<char>, err: Seq<char>, now: u128) -> bool {
        &&& self.only_status(b, action + " failed. Check debug log."@, now)
        &&& cmd matches Command::WriteDebug(t) && t@ == action + " Error: "@ + err + "\nData: "@ + labels_joined(
            self.form_state.fields@,
        )
    }

    /// `b` is `self` with the edit form filled with the entry `e`.
    pub open spec fn populated(&self, b: App, e: Entry) -> bool {
        &&& b.state == self.state
        &&& self.same_data(b)
        &&& self.same_status(b)
        &&& b.form_state.fields@.len() == 3
        &&& filled_field(b.form_state.fields@[0], "Service", FieldType::Service, false, e.service@)
        &&& filled_field(b.form_state.fields@[1], "Username", FieldType::Username, false, e.username@)
        &&& filled_field(b.form_state.fields@[2], "Password", FieldType::Password, true, e.secret@)
        &&& b.form_state.current_field == 0
        &&& b.form_state.cursor_index == 0
        &&& b.form_state.obscure_inputs == self.form_state.obscure_inputs
    }

    /// `b` shows the generator screen with the settings `c`, kept for the
    /// session.
    pub open spec fn opened_generator(&self, b: App, c: GeneratorConfig) -> bool {
        &&& b.state matches AppState::PasswordGenerator(g) && g.session_config == c && g.generated_password is None
        &&& b.generator_session_config == Some(c)
        &&& is_generator_form(b.form_state.fields@, c)
        &&& b.form_state.current_field == 0
        &&& b.form_state.cursor_index == 0
        &&& b.form_state.obscure_inputs == self.form_state.obscure_inputs
        &&& b.vault_unlocked == self.vault_unlocked
        &&& self.keeps_list(b)
        &&& b.snapshots@ == self.snapshots@
        &&& self.keeps_session(b)
    }

    /// The status line after reading generator settings from `reply`.
    pub open spec fn config_status_after(&self, b: App, reply: Reply, now: u128) -> bool {
        match config_status(reply) {
            Some(m) => b.has_status(m, now),
            None => self.same_status(b),
        }
    }

    /// Forgets the vault's content and shows the locked screen.
    pub fn lock_application(&mut self)
        ensures
            old(self).locked_by_client(*final(self)),
    {
        self.vault_unlocked = false;
        self.entries = Vec::new();
        self.status_message = None;
        self.state = AppState::VaultLocked;
    }

    /// Takes a listing read from the daemon (`None` when it could not be
    /// read).
    pub fn parse_entries(&mut self, listing: Option<VaultListPayload>)
        ensures
            old(self).took_listing(*final(self), listing),
            final(self).state == old(self).state,
            final(self).vault_unlocked == old(self).vault_unlocked,
    {
        if let Some(p) = listing {
            self.entries = p.entries;
            self.vault_version = p.version;
            if self.selected.is_none() && self.entries.len() > 0 {
                self.selected = Some(0);
            }
        }
    }

    /// Reports the failure of `action` with the daemon's message `err`.
    fn log_error(&mut self, action: &str, err: &str, now: u128) -> (cmd: Command)
        ensures
            old(self).logged_error(*final(self), cmd, action@, err@, now),
    {
        let mut labels = String::new();
        let mut i: usize = 0;
        while i < self.form_state.fields.len()
            invariant
                i <= self.form_state.fields@.len(),
                labels@ == labels_joined(self.form_state.fields@.subrange(0, i as int)),
            decreases self.form_state.fields.len() - i,
        {
            let ghost prefix = self.form_state.fields@.subrange(0, i as int + 1);
            proof {
                assert(prefix.drop_last() =~= self.form_state.fields@.subrange(0, i as int));
            }
            if i > 0 {
                labels = concat_str(labels.as_str(), ",");
            }
            labels = concat_str(labels.as_str(), self.form_state.fields[i].label);
            proof {
                if i == 0 {
                    assert(labels@ =~= prefix[0].label@);
                }
            }
            i = i + 1;
        }
        assert(self.form_state.fields@.subrange(0, i as int) =~= self.form_state.fields@);
        let a = concat_str(action, " Error: ");
        let b = concat_str(a.as_str(), err);
        let c = concat_str(b.as_str(), "\nData: ");
        let text = concat_str(c.as_str(), labels.as_str());
        let msg = concat_str(action, " failed. Check debug log.");
        self.set_status(msg, now);
        Command::WriteDebug(text)
    }

    /// The generator settings read from `reply`, with the status line the
    /// outcome leaves.
    pub fn load_generator_config(&mut self, reply: Reply, now: u128) -> (c: GeneratorConfig)
        ensures
            c == loaded_config(reply),
            old(self).config_status_after(*final(self), reply, now),
            final(self).state == old(self).state,
            old(self).same_data(*final(self)),
            same_form(old(self).form_state, final(self).form_state),
    {
        match reply {
            Reply::Accepted(Payload::Generator(Some(c))) => c,
            Reply::Accepted(_) => GeneratorConfig::default(),
            Reply::Refused(_) => {
                self.set_status(String::from_str("Unexpected response from daemon"), now);
                GeneratorConfig::default()
            },
            Reply::Unreachable(e) => {
                self.set_status(concat_str("Failed to load generator config: ", e.as_str()), now);
                GeneratorConfig::default()
            },
        }
    }

    /// Shows the generator screen with the settings `c`, kept for the
    /// session.
    pub(crate) fn open_generator(&mut self, c: GeneratorConfig)
        ensures
            old(self).opened_generator(*final(self), c),
            old(self).same_status(*final(self)),
    {
        self.generator_session_config = Some(c);
        let pg = PasswordGeneratorState { session_config: c, generated_password: None };
        self.form_state.clear();
        self.form_state.fields = pg.build_form_fields();
        self.state = AppState::PasswordGenerator(pg);
    }
}

impl App {
    /// Asks the daemon to unlock the vault with `password`.
    pub fn unlock_vault(&self, password: &str) -> (cmd: Command)
        ensures
            cmd matches Command::Send(Request::Unlock { master_password: p }, Then::Unlock) && p@ == password@,
    {
        Command::Send(Request::Unlock { master_password: String::from_str(password) }, Then::Unlock)
    }

    /// Asks the daemon for the entries.
    pub fn load_entries(&self) -> (cmd: Command)
        ensures
            cmd matches Command::Send(Request::ListEntries, Then::LoadEntries),
    {
        Command::Send(Request::ListEntries, Then::LoadEntries)
    }

    /// Asks the daemon for the snapshot records.
    pub fn load_snapshots(&self) -> (cmd: Command)
        ensures
            cmd matches Command::Send(Request::ListSnapshots, Then::Snapshots),
    {
        Command::Send(Request::ListSnapshots, Then::Snapshots)
    }

    /// Asks the daemon to delete the entry `uuid`.
    pub fn delete_entry(&self, uuid: u128) -> (cmd: Command)
        ensures
            cmd matches Command::Send(Request::DeleteEntry { uuid: x }, Then::Delete) && x == uuid,
    {
        Command::Send(Request::DeleteEntry { uuid }, Then::Delete)
    }

    /// Asks the daemon to restore the snapshot `uuid` as `version` (by
    /// default the latest version recorded under that identifier); the
    /// status line will name `version`, or 0.
    pub fn restore_snapshot(&self, uuid: u128, version: Option<u32>) -> (cmd: Command)
        ensures
            cmd matches Command::Send(Request::RestoreSnapshot { version: v, uuid: u }, Then::Restore(w)) && u
                == uuid && v == match version {
                Some(x) => x,
                None => crate::client::latest_version(self.snapshots@, uuid),
            } && w == match version {
                Some(x) => x,
                None => 0,
            },
    {
        let v = crate::client::restore_version(&self.snapshots, uuid, version);
        let shown = match version {
            Some(x) => x,
            None => 0,
        };
        Command::Send(Request::RestoreSnapshot { version: v, uuid }, Then::Restore(shown))
    }

    /// Puts `text` on the clipboard.
    pub fn copy_to_clipboard(&self, text: String) -> (cmd: Command)
        ensures
            cmd == Command::Copy(text),
    {
        Command::Copy(text)
    }
}

impl App {
    /// `b` shows the entries, unlocked, keeping the rest of `self`.
    pub open spec fn unlocked_list(&self, b: App) -> bool {
        &&& b.state is EntriesList
        &&& b.vault_unlocked
        &&& self.keeps_list(b)
        &&& self.keeps_extra(b)
        &&& self.keeps_session(b)
        &&& self.same_status(b)
        &&& same_form(self.form_state, b.form_state)
    }

    /// `b` is `self` with the vault marked locked and the status line `msg`.
    pub open spec fn refused_unlock(&self, b: App, msg: Seq<char>, now: u128) -> bool {
        &&& !b.vault_unlocked
        &&& b.has_status(msg, now)
        &&& b.state == self.state
        &&& self.keeps_list(b)
        &&& self.keeps_extra(b)
        &&& self.keeps_session(b)
        &&& same_form(self.form_state, b.form_state)
    }

    /// `b` shows the entries with the status line `msg`, keeping the data.
    pub open spec fn back_to_list(&self, b: App, msg: Seq<char>, now: u128) -> bool {
        b.state is EntriesList && self.same_data(b) && b.has_status(msg, now)
    }

    /// What handing the reply `reply`, with the continuation `then`, does to
    /// the client `self` (giving `b`) and which outside work follows (`cmd`).
    pub open spec fn after_reply(&self, then: Then, reply: Reply, b: App, cmd: Command, now: u128) -> bool {
        match then {
            Then::Ignore => self.unchanged(b) && cmd is Done,
            Then::CheckStatus => cmd is Done && match reply {
                Reply::Accepted(p) => if self.state is InitialCheck || self.state is VaultLocked {
                    self.took_listing(b, listing_of(p)) && b.state is EntriesList && b.vault_unlocked
                } else {
                    self.unchanged(b)
                },
                Reply::Refused(e) => if has_infix(e@, "Vault is locked"@) && !(self.state is VaultLocked) {
                    self.locked_by_client(b)
                } else {
                    self.unchanged(b)
                },
                Reply::Unreachable(_) => if !(self.state is VaultLocked) {
                    self.locked_by_client(b)
                } else {
                    self.unchanged(b)
                },
            },
            Then::Unlock => match reply {
                Reply::Accepted(_) => self.unlocked_list(b) && cmd matches Command::Send(
                    Request::ListEntries,
                    Then::LoadEntries,
                ),
                Reply::Refused(e) => self.refused_unlock(b, e@, now) && cmd is Done,
                Reply::Unreachable(_) => self.only_status(b, "Communication error"@, now) && cmd is Done,
            },
            Then::UnlockForChange(new_password) => match reply {
                Reply::Accepted(_) => self.unlocked_list(b) && (cmd matches Command::Send(
                    Request::ListEntries,
                    Then::LoadEntriesThenChange(n),
                ) && n@ == new_password@),
                Reply::Refused(_) => self.refused_unlock(b, "Master Password invalid!"@, now) && cmd is Done,
                Reply::Unreachable(_) => self.only_status(b, "Master Password invalid!"@, now) && cmd is Done,
            },
            Then::LoadEntries => cmd is Done && match reply {
                Reply::Accepted(p) => self.took_listing(b, listing_of(p)) && b.state == self.state
                    && b.vault_unlocked == self.vault_unlocked,
                _ => self.unchanged(b),
            },
            Then::LoadEntriesThenChange(new_password) => (cmd matches Command::Send(
                Request::UpdateMasterPassword { new_password: n },
                Then::ChangePassword,
            ) && n@ == new_password@) && match reply {
                Reply::Accepted(p) => self.took_listing(b, listing_of(p)) && b.state == self.state
                    && b.vault_unlocked == self.vault_unlocked,
                _ => self.unchanged(b),
            },
            Then::ChangePassword => match reply {
                Reply::Accepted(_) => self.back_to_list(b, "Master password updated!"@, now) && cleared(
                    self.form_state,
                    b.form_state,
                ) && cmd is Done,
                Reply::Refused(e) => self.logged_error(b, cmd, "Update Master Pass"@, e@, now),
                Reply::Unreachable(_) => self.only_status(b, "Communication error"@, now) && cmd is Done,
            },
            Then::Add | Then::Update => match reply {
                Reply::Accepted(_) => self.back_to_list(b, "Entry successfully added!"@, now) && cleared(
                    self.form_state,
                    b.form_state,
                ) && cmd matches Command::Send(Request::ListEntries, Then::LoadEntries),
                Reply::Refused(e) => self.logged_error(b, cmd, "Add Entry"@, e@, now),
                Reply::Unreachable(_) => self.only_status(b, "Communication error"@, now) && cmd is Done,
            },
            Then::Delete => match reply {
                Reply::Accepted(_) => self.back_to_list(b, "Entry successfully deleted!"@, now) && same_form(
                    self.form_state,
                    b.form_state,
                ) && cmd matches Command::Send(Request::ListEntries, Then::LoadEntries),
                Reply::Refused(e) => self.logged_error(b, cmd, "Delete"@, e@, now),
                Reply::Unreachable(_) => self.unchanged(b) && cmd is Done,
            },
            Then::Restore(version) => match reply {
                Reply::Accepted(_) => self.only_status(
                    b,
                    "Snapshot v"@ + decimal(version as nat) + " restored!"@,
                    now,
                ) && cmd matches Command::Send(Request::ListEntries, Then::LoadEntries),
                Reply::Refused(e) => self.logged_error(b, cmd, "Restore Snapshot"@, e@, now),
                Reply::Unreachable(_) => self.unchanged(b) && cmd is Done,
            },
            Then::Populate => cmd is Done && match reply {
                Reply::Accepted(Payload::Entry(Some(e))) => self.populated(b, e),
                Reply::Accepted(_) => self.only_status(b, "Failed to parse entry details. Check debug log."@, now),
                _ => self.only_status(b, "Failed to load details. Check debug log."@, now),
            },
            Then::Snapshots => cmd is Done && match reply {
                Reply::Accepted(Payload::Snapshots(Some(p))) => {
                    &&& b.snapshots@ == p.snapshots@
                    &&& b.state == self.state
                    &&& b.vault_unlocked == self.vault_unlocked
                    &&& self.keeps_list(b)
                    &&& b.generator_session_config == self.generator_session_config
                    &&& self.keeps_session(b)
                    &&& self.same_status(b)
                    &&& same_form(self.form_state, b.form_state)
                },
                _ => self.unchanged(b),
            },
            Then::OpenGenerator => cmd is Done && self.opened_generator(b, loaded_config(reply))
                && self.config_status_after(b, reply, now),
            Then::AutoFill => cmd is Done && self.auto_filled(b, loaded_config(reply), reply, now),
        }
    }

    /// `b` is `self` after filling the password field with a secret generated
    /// with `c` (read from `reply`).
    pub open spec fn auto_filled(&self, b: App, c: GeneratorConfig, reply: Reply, now: u128) -> bool {
        let k = password_field_index(self.form_state.fields@);
        &&& b.state == self.state
        &&& self.same_data(b)
        &&& if (self.state is NewEntryForm || self.state is UpdateEntry) && k < 0 {
            b.has_status("No password field found in this form"@, now) && same_form(self.form_state, b.form_state)
        } else if (self.state is NewEntryForm || self.state is UpdateEntry) && can_generate(c, self.wordlist@)
            && generate_spec_ok(c) {
            &&& b.has_status("Password auto-filled!"@, now)
            &&& b.form_state.fields@.len() == self.form_state.fields@.len()
            &&& b.form_state.current_field == self.form_state.current_field
            &&& b.form_state.cursor_index == self.form_state.cursor_index
            &&& b.form_state.obscure_inputs == self.form_state.obscure_inputs
            &&& forall|i: int|
                0 <= i < self.form_state.fields@.len() && i != k ==> b.form_state.fields@[i]
                    == self.form_state.fields@[i]
            &&& b.form_state.fields@[k] == FieldConfig {
                value: b.form_state.fields@[k].value,
                ..self.form_state.fields@[k]
            }
            &&& b.form_state.fields@[k].value matches FieldValue::Text(p) && is_generated(c, self.wordlist@, p@)
        } else {
            self.config_status_after(b, reply, now) && same_form(self.form_state, b.form_state)
        }
    }

    /// Hands the reply `reply` to the continuation `then`; returns the
    /// outside work that follows.
    pub fn on_reply(&mut self, then: Then, reply: Reply, now: u128) -> (cmd: Command)
        requires
            old(self).wf(),
        ensures
            final(self).wf(),
            old(self).after_reply(then, reply, *final(self), cmd, now),
    {
        match then {
            Then::Ignore => Command::Done,
            Then::CheckStatus => {
                match reply {
                    Reply::Accepted(p) => {
                        if matches!(self.state, AppState::InitialCheck | AppState::VaultLocked) {
                            let listing = match p {
                                Payload::Entries(Some(l)) => Some(l),
                                _ => None,
                            };
                            self.parse_entries(listing);
                            self.state = AppState::EntriesList;
                            self.vault_unlocked = true;
                        }
                    },
                    Reply::Refused(e) => {
                        if contains_text(e.as_str(), "Vault is locked") && !matches!(self.state, AppState::VaultLocked) {
                            self.lock_application();
                        }
                    },
                    Reply::Unreachable(_) => {
                        if !matches!(self.state, AppState::VaultLocked) {
                            self.lock_application();
                        }
                    },
                }
                Command::Done
            },
            Then::Unlock => match reply {
                Reply::Accepted(_) => {
                    self.vault_unlocked = true;
                    self.state = AppState::EntriesList;
                    self.load_entries()
                },
                Reply::Refused(e) => {
                    self.vault_unlocked = false;
                    self.set_status(e, now);
                    Command::Done
                },
                Reply::Unreachable(_) => {
                    self.set_status(String::from_str("Communication error"), now);
                    Command::Done
                },
            },
            Then::UnlockForChange(new_password) => match reply {
                Reply::Accepted(_) => {
                    self.vault_unlocked = true;
                    self.state = AppState::EntriesList;
                    Command::Send(Request::ListEntries, Then::LoadEntriesThenChange(new_password))
                },
                Reply::Refused(e) => {
                    self.vault_unlocked = false;
                    self.set_status(e, now);
                    self.set_status(String::from_str("Master Password invalid!"), now);
                    Command::Done
                },
                Reply::Unreachable(_) => {
                    self.set_status(String::from_str("Communication error"), now);
                    self.set_status(String::from_str("Master Password invalid!"), now);
                    Command::Done
                },
            },
            Then::LoadEntries => {
                if let Reply::Accepted(p) = reply {
                    let listing = match p {
                        Payload::Entries(Some(l)) => Some(l),
                        _ => None,
                    };
                    self.parse_entries(listing);
                }
                Command::Done
            },
            Then::LoadEntriesThenChange(new_password) => {
                if let Reply::Accepted(p) = reply {
                    let listing = match p {
                        Payload::Entries(Some(l)) => Some(l),
                        _ => None,
                    };
                    self.parse_entries(listing);
                }
                Command::Send(Request::UpdateMasterPassword { new_password }, Then::ChangePassword)
            },
            Then::ChangePassword => match reply {
                Reply::Accepted(_) => {
                    self.state = AppState::EntriesList;
                    self.set_status(String::from_str("Master password updated!"), now);
                    self.form_state.clear();
                    Command::Done
                },
                Reply::Refused(e) => self.log_error("Update Master Pass", e.as_str(), now),
                Reply::Unreachable(_) => {
                    self.set_status(String::from_str("Communication error"), now);
                    Command::Done
                },
            },
            Then::Add | Then::Update => match reply {
                Reply::Accepted(_) => {
                    self.state = AppState::EntriesList;
                    self.set_status(String::from_str("Entry successfully added!"), now);
                    self.form_state.clear();
                    self.load_entries()
                },
                Reply::Refused(e) => self.log_error("Add Entry", e.as_str(), now),
                Reply::Unreachable(_) => {
                    self.set_status(String::from_str("Communication error"), now);
                    Command::Done
                },
            },
            Then::Delete => match reply {
                Reply::Accepted(_) => {
                    self.state = AppState::EntriesList;
                    self.set_status(String::from_str("Entry successfully deleted!"), now);
                    self.load_entries()
                },
                Reply::Refused(e) => self.log_error("Delete", e.as_str(), now),
                Reply::Unreachable(_) => Command::Done,
            },
            Then::Restore(version) => match reply {
                Reply::Accepted(_) => {
                    let digits = decimal_string(version as u64);
                    let a = concat_str("Snapshot v", digits.as_str());
                    self.set_status(concat_str(a.as_str(), " restored!"), now);
                    self.load_entries()
                },
                Reply::Refused(e) => self.log_error("Restore Snapshot", e.as_str(), now),
                Reply::Unreachable(_) => Command::Done,
            },
            Then::Populate => {
                match reply {
                    Reply::Accepted(Payload::Entry(Some(e))) => self.populate_form(e),
                    Reply::Accepted(_) => self.set_status(
                        String::from_str("Failed to parse entry details. Check debug log."),
                        now,
                    ),
                    _ => self.set_status(String::from_str("Failed to load details. Check debug log."), now),
                }
                Command::Done
            },
            Then::Snapshots => {
                if let Reply::Accepted(Payload::Snapshots(Some(p))) = reply {
                    self.snapshots = p.snapshots;
                }
                Command::Done
            },
            Then::OpenGenerator => {
                let c = self.load_generator_config(reply, now);
                self.open_generator(c);
                Command::Done
            },
            Then::AutoFill => {
                let c = self.load_generator_config(reply, now);
                self.auto_fill_password(c, now);
                Command::Done
            },
        }
    }

    /// Fills the edit form with the entry `e`.
    pub fn populate_form(&mut self, e: Entry)
        ensures
            old(self).populated(*final(self), e),
    {
        let mut fields: Vec<FieldConfig> = Vec::new();
        fields.push(FieldConfig { value: FieldValue::Text(e.service), ..FieldConfig::service("Service") });
        fields.push(FieldConfig { value: FieldValue::Text(e.username), ..FieldConfig::username("Username") });
        fields.push(FieldConfig { value: FieldValue::Text(e.secret), ..FieldConfig::password("Password") });
        self.form_state.fields = fields;
        self.form_state.current_field = 0;
        self.form_state.cursor_index = 0;
    }

    /// Fills the first password field of an entry form with a secret
    /// generated with `c`.
    pub fn auto_fill_password(&mut self, c: GeneratorConfig, now: u128)
        requires
            old(self).wf(),
        ensures
            final(self).wf(),
            final(self).state == old(self).state,
            old(self).same_data(*final(self)),
            ({
                let k = password_field_index(old(self).form_state.fields@);
                if (old(self).state is NewEntryForm || old(self).state is UpdateEntry) && k < 0 {
                    final(self).has_status("No password field found in this form"@, now) && same_form(
                        old(self).form_state,
                        final(self).form_state,
                    )
                } else if (old(self).state is NewEntryForm || old(self).state is UpdateEntry) && can_generate(
                    c,
                    old(self).wordlist@,
                ) && generate_spec_ok(c) {
                    &&& final(self).has_status("Password auto-filled!"@, now)
                    &&& final(self).form_state.fields@.len() == old(self).form_state.fields@.len()
                    &&& final(self).form_state.current_field == old(self).form_state.current_field
                    &&& final(self).form_state.cursor_index == old(self).form_state.cursor_index
                    &&& final(self).form_state.obscure_inputs == old(self).form_state.obscure_inputs
                    &&& forall|i: int|
                        0 <= i < old(self).form_state.fields@.len() && i != k ==> final(self).form_state.fields@[i]
                            == old(self).form_state.fields@[i]
                    &&& final(self).form_state.fields@[k] == FieldConfig {
                        value: final(self).form_state.fields@[k].value,
                        ..old(self).form_state.fields@[k]
                    }
                    &&& final(self).form_state.fields@[k].value matches FieldValue::Text(p) && is_generated(
                        c,
                        old(self).wordlist@,
                        p@,
                    )
                } else {
                    old(self).same_status(*final(self)) && same_form(old(self).form_state, final(self).form_state)
                }
            }),
    {
        if !matches!(self.state, AppState::NewEntryForm | AppState::UpdateEntry) {
            return;
        }
        let ghost fields = self.form_state.fields@;
        let ghost is_pw = |f: FieldConfig| f.field_type is Password;
        let mut k: usize = 0;
        let mut found = false;
        while k < self.form_state.fields.len() && !found
            invariant
                k <= fields.len(),
                fields == self.form_state.fields@,
                found ==> k < fields.len() && fields[k as int].field_type is Password,
                forall|j: int| 0 <= j < k ==> !((#[trigger] fields[j]).field_type is Password),
            decreases self.form_state.fields@.len() - k + if found { 0int } else { 1int },
        {
            match self.form_state.fields[k].field_type {
                FieldType::Password => {
                    found = true;
                },
                _ => {
                    k = k + 1;
                },
            }
        }
        assert forall|j: int| 0 <= j < k implies !is_pw(#[trigger] fields[j]) by {}
        if !found {
            proof {
                crate::vault::lemma_first_index(fields, is_pw, 0);
            }
            self.set_status(String::from_str("No password field found in this form"), now);
            return;
        }
        proof {
            assert(is_pw(fields[k as int]));
            assert(crate::vault::is_first_match(fields, is_pw, k as int));
            crate::vault::lemma_first_index(fields, is_pw, k as int);
        }
        if c.mode == GeneratorMode::Passphrase && c.word_count > 0 && self.wordlist.len() == 0 {
            return;
        }
        match generate(c, &self.wordlist) {
            Ok(p) => {
                let f = self.form_state.fields[k].clone();
                self.form_state.fields.set(k, FieldConfig { value: FieldValue::Text(p), ..f });
                self.set_status(String::from_str("Password auto-filled!"), now);
            },
            Err(_) => {},
        }
    }
}

/// The key hints shown at the bottom of each screen.
pub open spec fn helper_text(s: AppState) -> Seq<char> {
    match s {
        AppState::InitialCheck => "(Esc) Quit"@,
        AppState::SnapshotList => "(Esc) Back | (↑ and ↓) Navigate | (↵) Select"@,
        AppState::UnlockPrompt => "(↵) Submit | (Esc) Quit"@,
        AppState::VaultLocked => "(Esc) Quit | (F3) Gen Pass | (any) Unlock vault"@,
        AppState::EntriesList => "(Esc) Quit | (e) Edit | (↵) Select | (⌫) Delete | (n) New | (x) Lock | (?) Options "@,
        AppState::NewEntryForm | AppState::UpdateEntry | AppState::ChangeMasterPassword =>
            "(Esc) Back | (Tab) Next field | (BackTab) Prev field | (↵) Submit | (F2) Toggle password visibility"@,
        AppState::ViewEntry(_) => "(Esc) Back | (e) Edit | (⌫) Delete | (↵) Copy password | (F2) Toggle password visibility"@,
        AppState::ConfirmAction { .. } => "(Esc) Cancel | (↵) Confirm"@,
        AppState::Settings(_) => "(Esc) Back | (↑ and ↓) Navigate | (↵) Select"@,
        AppState::PasswordGenerator(_) => "(Esc) Back | (↵) Copy | (r) Regen"@,
    }
}

/// The key hints of the screen `state`.
pub fn get_helper_text(state: &AppState) -> (res: &'static str)
    ensures
        res@ == helper_text(*state),
{
    match state {
        AppState::InitialCheck => "(Esc) Quit",
        AppState::SnapshotList => "(Esc) Back | (↑ and ↓) Navigate | (↵) Select",
        AppState::UnlockPrompt => "(↵) Submit | (Esc) Quit",
        AppState::VaultLocked => "(Esc) Quit | (F3) Gen Pass | (any) Unlock vault",
        AppState::EntriesList => "(Esc) Quit | (e) Edit | (↵) Select | (⌫) Delete | (n) New | (x) Lock | (?) Options ",
        AppState::NewEntryForm | AppState::UpdateEntry | AppState::ChangeMasterPassword =>
            "(Esc) Back | (Tab) Next field | (BackTab) Prev field | (↵) Submit | (F2) Toggle password visibility",
        AppState::ViewEntry(_) => "(Esc) Back | (e) Edit | (⌫) Delete | (↵) Copy password | (F2) Toggle password visibility",
        AppState::ConfirmAction { .. } => "(Esc) Cancel | (↵) Confirm",
        AppState::Settings(_) => "(Esc) Back | (↑ and ↓) Navigate | (↵) Select",
        AppState::PasswordGenerator(_) => "(Esc) Back | (↵) Copy | (r) Regen",
    }
}

/// The status line: the last message, or the vault version.
pub fn get_status_text(app: &App) -> (res: String)
    ensures
        app.status_message matches Some(m) ==> res@ == m@,
        app.status_message is None ==> res@ == "vault v"@ + decimal(app.vault_version as nat),
{
    match &app.status_message {
        Some(m) => m.clone(),
        None => {
            let digits = decimal_string(app.vault_version as u64);
            concat_str("vault v", digits.as_str())
        },
    }
}

/// The title line for the program version `version`, marked in development
/// mode.
pub fn get_title_text(app: &App, version: &str) -> (res: String)
    ensures
        app.dev_mode ==> res@ == "Blackout - v"@ + version@ + " - DEV MODE"@,
        !app.dev_mode ==> res@ == "Blackout - v"@ + version@,
{
    let title = concat_str("Blackout - v", version);
    if app.dev_mode {
        concat_str(title.as_str(), " - DEV MODE")
    } else {
        title
    }
}

/// The highlight after drawing a list of `rows` rows: past the end it moves
/// to the last row, and an empty list highlights nothing.
pub open spec fn drawn_selection(selected: Option<usize>, rows: nat) -> Option<usize> {
    if rows == 0 {
        None
    } else if selected matches Some(i) && i >= rows {
        Some((rows - 1) as usize)
    } else {
        selected
    }
}

impl App {
    /// Shows whether the text was put on the clipboard; a copied text is to
    /// be cleared `CLIPBOARD_CLEAR_MS` later.
    pub fn on_copied(&mut self, ok: bool, now: u128)
        requires
            old(self).wf(),
        ensures
            final(self).wf(),
            final(self).state == old(self).state,
            same_form(old(self).form_state, final(self).form_state),
            final(self).vault_unlocked == old(self).vault_unlocked,
            old(self).keeps_list(*final(self)),
            old(self).keeps_extra(*final(self)),
            final(self).dev_mode == old(self).dev_mode,
            final(self).wordlist@ == old(self).wordlist@,
            final(self).last_interaction == old(self).last_interaction,
            final(self).has_status(
                if ok {
                    "Copied to clipboard!"@
                } else {
                    "Failed to copy (missing wl-copy)"@
                },
                now,
            ),
            final(self).clipboard_clear_at == if ok {
                Some(clear_time(now))
            } else {
                old(self).clipboard_clear_at
            },
    {
        if ok {
            self.set_status(String::from_str("Copied to clipboard!"), now);
            self.clipboard_clear_at = Some(if now <= u128::MAX - CLIPBOARD_CLEAR_MS {
                now + CLIPBOARD_CLEAR_MS
            } else {
                u128::MAX
            });
        } else {
            self.set_status(String::from_str("Failed to copy (missing wl-copy)"), now);
        }
    }

    /// The timer step at `now`: once the clearing time of a copied text has
    /// come, the clipboard is emptied.
    pub fn tick(&mut self, now: u128) -> (cmd: Command)
        requires
            old(self).wf(),
        ensures
            final(self).wf(),
            old(self).ticked(now, *final(self), cmd),
    {
        match self.clipboard_clear_at {
            Some(t) => {
                if now >= t {
                    self.clipboard_clear_at = None;
                    Command::ClearClipboard
                } else {
                    Command::Done
                }
            },
            None => Command::Done,
        }
    }

    /// The check made at start: asks the daemon for the entries, unless a
    /// form or the unlock screen is shown.
    pub fn check_vault_status(&self) -> (cmd: Command)
        ensures
            (self.state is UnlockPrompt || self.state is UpdateEntry || self.state is NewEntryForm) ==> cmd is Done,
            !(self.state is UnlockPrompt || self.state is UpdateEntry || self.state is NewEntryForm) ==> cmd matches Command::Send(
                Request::ListEntries,
                Then::CheckStatus,
            ),
    {
        match self.state {
            AppState::UnlockPrompt | AppState::UpdateEntry | AppState::NewEntryForm => Command::Done,
            _ => Command::Send(Request::ListEntries, Then::CheckStatus),
        }
    }

    /// What drawing the screen does to the highlight of the list shown.
    pub fn table_rendered(&mut self)
        requires
            old(self).wf(),
        ensures
            final(self).wf(),
            final(self).state == old(self).state,
            final(self).selected == if old(self).state is EntriesList || old(self).state is SnapshotList {
                drawn_selection(old(self).selected, old(self).max_index())
            } else {
                old(self).selected
            },
            final(self).entries@ == old(self).entries@,
            final(self).snapshots@ == old(self).snapshots@,
            final(self).vault_unlocked == old(self).vault_unlocked,
            final(self).vault_version == old(self).vault_version,
            final(self).generator_session_config == old(self).generator_session_config,
            old(self).keeps_session(*final(self)),
            old(self).same_status(*final(self)),
            same_form(old(self).form_state, final(self).form_state),
    {
        if matches!(self.state, AppState::EntriesList | AppState::SnapshotList) {
            let rows = self.cal_max_index();
            if rows == 0 {
                self.selected = None;
            } else if let Some(i) = self.selected {
                if i >= rows {
                    self.selected = Some(rows - 1);
                }
            }
        }
    }
}

/// How long a copied secret stays on the clipboard, in milliseconds.
pub const CLIPBOARD_CLEAR_MS: u128 = 30000;

/// When a text copied at `now` is cleared from the clipboard.
pub open spec fn clear_time(now: u128) -> u128 {
    if now <= u128::MAX - CLIPBOARD_CLEAR_MS {
        (now + CLIPBOARD_CLEAR_MS) as u128
    } else {
        u128::MAX
    }
}

impl App {
    /// `b` and `cmd` follow from `self` at the timer step `now`: the
    /// clipboard is emptied once its clearing time has come, and nothing
    /// else changes.
    pub open spec fn ticked(&self, now: u128, b: App, cmd: Command) -> bool {
        &&& b.state == self.state
        &&& b.vault_unlocked == self.vault_unlocked
        &&& self.keeps_list(b)
        &&& self.keeps_extra(b)
        &&& self.same_status(b)
        &&& same_form(self.form_state, b.form_state)
        &&& b.dev_mode == self.dev_mode && b.wordlist@ == self.wordlist@ && b.last_interaction == self.last_interaction
        &&& match self.clipboard_clear_at {
            Some(t) => if now >= t {
                b.clipboard_clear_at is None && cmd is ClearClipboard
            } else {
                b.clipboard_clear_at == self.clipboard_clear_at && cmd is Done
            },
            None => b.clipboard_clear_at is None && cmd is Done,
        }
    }
}

/// A copied secret does not stay on the clipboard: after a successful copy
/// at `t`, the timer step at any time from `t + CLIPBOARD_CLEAR_MS` on (or
/// the last instant, if that is later than time can count) empties it.
pub proof fn law_copied_text_is_cleared(a: App, b: App, cmd: Command, t: u128, now: u128)
    requires
        a.clipboard_clear_at == Some(clear_time(t)),
        now >= clear_time(t),
        a.ticked(now, b, cmd),
    ensures
        cmd is ClearClipboard,
        b.clipboard_clear_at is None,
{
}
} // verus!
