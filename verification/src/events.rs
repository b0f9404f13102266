//! The client's answer to a key press on each screen.

use vstd::prelude::*;

use crate::app::{
    drawn_selection, empty_field, entry_form, is_fresh_settings, loaded_config, password_prompt, same_form, App,
    AppState, Command, Key, KeyCode, Reply, SettingsState, Then,
};
use crate::client::{
    entry_input_from_form, last_text_of, or_empty, opt_text, password_change_error, update_input_from_form,
    validate_master_password_change,
};
use crate::daemon::generate_spec_ok;
use crate::generator::{can_generate, is_generated, GeneratorMode};
use crate::ipc::Request;
use crate::state::{
    backspaced, cleared, decreased, deleted, empty_text, increased, inserted, moved_left, moved_right, removed_digit,
    synced, toggled_shown, typed_digit, went_next, went_prev, DigitRejected, FieldConfig, FieldType, FieldValue,
    FormState, PendingAction, SettingsOption, MAX_PASSWORD_LENGTH,
};
use crate::text::{decimal, is_numeric, numeric_char};

verus! {

/// The text of field `i`, or the empty text when there is none or it holds
/// no text.
pub open spec fn text_at(fields: Seq<FieldConfig>, i: int) -> Seq<char> {
    if 0 <= i < fields.len() && fields[i].value is Text {
        fields[i].value->Text_0@
    } else {
        Seq::empty()
    }
}

/// The value of the field being edited, if any.
pub open spec fn current_value(f: FormState) -> Option<FieldValue> {
    if f.current_field < f.fields@.len() {
        Some(f.fields@[f.current_field as int].value)
    } else {
        None
    }
}

/// The generator screen can take `key`: a menu position can still move, and
/// a backspace in a number field deletes a digit that exists.
pub open spec fn generator_key_ok(f: FormState, key: Key) -> bool {
    &&& (key.code == KeyCode::Right || key.code == KeyCode::Char(' ')) ==> (current_value(f) matches Some(
        FieldValue::Choice(i),
    ) ==> i < usize::MAX)
    &&& key.code == KeyCode::Left ==> (current_value(f) matches Some(FieldValue::Choice(i)) ==> i < usize::MAX
        - 1)
    &&& key.code == KeyCode::Backspace ==> (current_value(f) matches Some(FieldValue::Number(n)) ==> ({
        let s = decimal(n as nat);
        s.len() > 1 && f.cursor_index > 0 ==> f.cursor_index - 1 < s.len()
    }))
}

/// The outcome of typing `c` on the generator screen (see `typed_digit`).
pub open spec fn digit_result(f: FormState, c: char) -> Result<(), DigitRejected> {
    match current_value(f) {
        Some(FieldValue::Number(n)) => if '0' <= c <= '9' {
            let v = n * 10 + ((c as u32) - ('0' as u32));
            if v <= MAX_PASSWORD_LENGTH {
                Ok(())
            } else if v <= 0xFFFF {
                Err(DigitRejected::LimitReached)
            } else {
                Err(DigitRejected::TooLarge)
            }
        } else {
            Ok(())
        },
        _ => Ok(()),
    }
}

/// The status message of a rejected digit.
pub open spec fn rejection_text(e: DigitRejected) -> Seq<char> {
    match e {
        DigitRejected::LimitReached => "Limite máximo atingido!"@,
        DigitRejected::TooLarge => "Número muito grande!"@,
    }
}

/// The settings highlight after moving up: `ListState::select_previous`.
pub open spec fn list_previous(sel: Option<usize>) -> usize {
    match sel {
        None => usize::MAX,
        Some(i) => if i == 0 {
            0
        } else {
            (i - 1) as usize
        },
    }
}

/// The settings highlight after moving down: `ListState::select_next`.
pub open spec fn list_next(sel: Option<usize>) -> usize {
    match sel {
        None => 0,
        Some(i) => if i == usize::MAX {
            usize::MAX
        } else {
            (i + 1) as usize
        },
    }
}

/// The highlight of a list of `n` rows after moving down, wrapping.
pub open spec fn row_after_next(sel: Option<usize>, n: nat) -> Option<usize> {
    if n > 0 {
        Some(
            match sel {
                Some(i) => ((i + 1) % (n as int)) as usize,
                None => 0,
            },
        )
    } else {
        sel
    }
}

/// The highlight of a list of `n` rows after moving up, wrapping.
pub open spec fn row_after_prev(sel: Option<usize>, n: nat) -> Option<usize> {
    if n > 0 {
        Some(
            match sel {
                Some(i) => if i == 0 {
                    (n - 1) as usize
                } else {
                    (i - 1) as usize
                },
                None => (n - 1) as usize,
            },
        )
    } else {
        sel
    }
}

impl App {
    /// The key can be handled without the failures that the screens would
    /// meet: the cursor can move past a typed character, and the generator
    /// screen can take it.
    pub open spec fn can_handle(&self, key: Key) -> bool {
        &&& (key.code is Char && edits_text(self.state) && self.form_state.current_text() is Some)
            ==> self.form_state.cursor_index < usize::MAX
        &&& self.state is PasswordGenerator ==> generator_key_ok(self.form_state, key)
    }

    /// `b` differs from `self` only in its form.
    pub open spec fn form_only(&self, b: App) -> bool {
        b.state == self.state && self.same_data(b) && self.same_status(b)
    }

    /// `b` shows the screen `s` and keeps everything else of `self`.
    pub open spec fn screen_only(&self, b: App, s: AppState) -> bool {
        b.state == s && self.same_data(b) && self.same_status(b) && same_form(self.form_state, b.form_state)
    }

    /// `b` is `self` with only the highlighted row changed, to `sel`.
    pub open spec fn selection_only(&self, b: App, sel: Option<usize>) -> bool {
        &&& b.state == self.state
        &&& b.selected == sel
        &&& b.vault_unlocked == self.vault_unlocked
        &&& b.entries@ == self.entries@
        &&& b.vault_version == self.vault_version
        &&& self.keeps_extra(b)
        &&& self.keeps_session(b)
        &&& self.same_status(b)
        &&& same_form(self.form_state, b.form_state)
    }

    /// The unlock screen.
    pub open spec fn unlock_prompt_step(&self, k: Key, b: App, cmd: Command) -> bool {
        let f = self.form_state;
        let g = b.form_state;
        match k.code {
            KeyCode::Esc => self.screen_only(b, AppState::VaultLocked) && cmd is Done,
            KeyCode::Backspace => self.form_only(b) && backspaced(f, g) && cmd is Done,
            KeyCode::Char(c) => self.form_only(b) && cmd is Done && if (current_value(f) is Some
                && f.fields@[f.current_field as int].field_type is Number && !numeric_char(c)) {
                same_form(f, g)
            } else {
                inserted(f, g, c)
            },
            KeyCode::Delete => self.form_only(b) && deleted(f, g) && cmd is Done,
            KeyCode::Left => self.form_only(b) && moved_left(f, g) && cmd is Done,
            KeyCode::Right => self.form_only(b) && moved_right(f, g) && cmd is Done,
            KeyCode::F(n) => cmd is Done && if n == 2 {
                self.form_only(b) && g.fields@ == f.fields@ && g.current_field == f.current_field
                    && g.cursor_index == f.cursor_index && g.obscure_inputs == !f.obscure_inputs
            } else {
                self.unchanged(b)
            },
            KeyCode::Enter => self.unchanged(b) && match f.current_text() {
                Some(t) => cmd matches Command::Send(Request::Unlock { master_password: p }, Then::Unlock)
                    && p@ == t,
                None => cmd is Done,
            },
            _ => self.unchanged(b) && cmd is Done,
        }
    }

    /// The locked screen.
    pub open spec fn locked_step(&self, k: Key, b: App, cmd: Command) -> bool {
        cmd is Done && if k.code == KeyCode::Esc {
            self.unchanged(b)
        } else {
            b.state is UnlockPrompt && self.same_data(b) && self.same_status(b) && password_prompt(
                self.form_state,
                b.form_state,
                "Master Password",
            )
        }
    }

    /// The empty view form opened from the entry list.
    pub open spec fn view_form(&self, b: App) -> bool {
        let g = b.form_state;
        &&& g.fields@.len() == 3
        &&& empty_field(g.fields@[0], "Service", FieldType::Text, false)
        &&& empty_field(g.fields@[1], "Username", FieldType::Text, false)
        &&& empty_field(g.fields@[2], "Password", FieldType::Password, true)
        &&& g.current_field == 0
        &&& g.cursor_index == 0
        &&& g.obscure_inputs == self.form_state.obscure_inputs
    }

    /// `cmd` asks for the entry highlighted, to fill the form with it, when
    /// there is one.
    pub open spec fn fetches_selected(&self, cmd: Command) -> bool {
        match self.selected_entry() {
            Some(i) => cmd matches Command::Send(Request::GetEntryById { uuid }, Then::Populate) && uuid
                == self.entries@[i].uuid,
            None => cmd is Done,
        }
    }

    /// The entry list.
    pub open spec fn entries_step(&self, k: Key, b: App, cmd: Command) -> bool {
        match k.code {
            KeyCode::Char(c) => if c == 'x' {
                &&& b.state is UnlockPrompt
                &&& !b.vault_unlocked
                &&& self.keeps_list(b) && self.keeps_extra(b) && self.keeps_session(b)
                &&& self.same_status(b)
                &&& password_prompt(self.form_state, b.form_state, "Password")
                &&& cmd matches Command::Send(Request::Lock, Then::Ignore)
            } else if c == 'n' {
                b.state is NewEntryForm && self.same_data(b) && self.same_status(b) && entry_form(
                    self.form_state,
                    b.form_state,
                    "Service",
                    "Username",
                    "Password",
                ) && cmd is Done
            } else if c == 'e' {
                b.state is UpdateEntry && self.same_data(b) && self.same_status(b) && entry_form(
                    self.form_state,
                    b.form_state,
                    "Edit Service",
                    "Edit Username",
                    "Edit Password",
                ) && self.fetches_selected(cmd)
            } else if c == '?' {
                is_fresh_settings(b.state) && self.same_data(b) && self.same_status(b) && same_form(
                    self.form_state,
                    b.form_state,
                ) && cmd is Done
            } else {
                self.unchanged(b) && cmd is Done
            },
            KeyCode::Up => self.selection_only(b, row_after_prev(self.selected, self.entries@.len())) && cmd is Done,
            KeyCode::Down => self.selection_only(b, row_after_next(self.selected, self.entries@.len()))
                && cmd is Done,
            KeyCode::Backspace => cmd is Done && match self.selected_entry() {
                Some(i) => self.screen_only(
                    b,
                    AppState::ConfirmAction {
                        action: PendingAction::DeleteEntry(self.entries@[i].uuid),
                        previous_state: Box::new(AppState::EntriesList),
                    },
                ),
                None => self.unchanged(b),
            },
            KeyCode::Enter => {
                &&& b.state == AppState::ViewEntry(
                    match self.selected_entry() {
                        Some(i) => self.entries@[i].uuid,
                        None => 0,
                    },
                )
                &&& self.same_data(b)
                &&& self.same_status(b)
                &&& self.view_form(b)
                &&& self.fetches_selected(cmd)
            },
            _ => self.unchanged(b) && cmd is Done,
        }
    }

    /// The entry view of the entry `id`.
    pub open spec fn view_step(&self, id: u128, k: Key, b: App, cmd: Command) -> bool {
        let f = self.form_state;
        let g = b.form_state;
        match k.code {
            KeyCode::Backspace => self.screen_only(
                b,
                AppState::ConfirmAction {
                    action: PendingAction::DeleteEntry(id),
                    previous_state: Box::new(AppState::EntriesList),
                },
            ) && cmd is Done,
            KeyCode::Enter => self.unchanged(b) && match f.current_text() {
                Some(t) => cmd matches Command::Copy(x) && x@ == t,
                None => cmd is Done,
            },
            KeyCode::Char(c) => cmd is Done && if c == 'e' {
                b.state is UpdateEntry && self.same_data(b) && self.same_status(b) && entry_form(
                    f,
                    g,
                    "Edit Service",
                    "Edit Username",
                    "Edit Password",
                )
            } else {
                self.unchanged(b)
            },
            KeyCode::Tab => self.form_only(b) && went_next(f, g, false) && cmd is Done,
            KeyCode::BackTab => self.form_only(b) && went_prev(f, g, false) && cmd is Done,
            KeyCode::F(n) => cmd is Done && if n == 2 {
                self.form_only(b) && toggled_shown(f, g)
            } else {
                self.unchanged(b)
            },
            KeyCode::Esc => b.state is EntriesList && self.same_data(b) && self.same_status(b) && cleared(f, g)
                && cmd is Done,
            _ => self.unchanged(b) && cmd is Done,
        }
    }

    /// The confirmation of `action`.
    pub open spec fn confirm_step(&self, action: PendingAction, k: Key, b: App, cmd: Command) -> bool {
        if k.code == KeyCode::Char('y') || k.code == KeyCode::Enter {
            match action {
                PendingAction::DeleteEntry(id) => self.screen_only(b, AppState::EntriesList) && (cmd matches Command::Send(
                    Request::DeleteEntry { uuid },
                    Then::Delete,
                ) && uuid == id),
                PendingAction::RestoreSnapshot(id, v) => {
                    &&& is_fresh_settings(b.state)
                    &&& self.same_data(b) && self.same_status(b) && same_form(self.form_state, b.form_state)
                    &&& cmd matches Command::Send(Request::RestoreSnapshot { version, uuid }, Then::Restore(w))
                        && version == v && uuid == id && w == v
                },
            }
        } else if k.code == KeyCode::Char('n') || k.code == KeyCode::Esc {
            self.screen_only(b, AppState::EntriesList) && cmd is Done
        } else {
            self.unchanged(b) && cmd is Done
        }
    }

    /// Enter on a form screen.
    pub open spec fn submitted(&self, b: App, cmd: Command, now: u128) -> bool {
        let fields = self.form_state.fields@;
        match self.state {
            AppState::NewEntryForm => {
                let s = or_empty(last_text_of(fields, FieldType::Service));
                let u = or_empty(last_text_of(fields, FieldType::Username));
                let p = or_empty(last_text_of(fields, FieldType::Password));
                if s.len() == 0 || u.len() == 0 || p.len() == 0 {
                    self.only_status(b, "All fields are required!"@, now) && cmd is Done
                } else {
                    self.unchanged(b) && (cmd matches Command::Send(Request::AddEntry { entry_ctx }, Then::Add)
                        && entry_ctx.service@ == s && entry_ctx.username@ == u && entry_ctx.password@ == p)
                }
            },
            AppState::UpdateEntry => match self.selected_entry() {
                None => self.only_status(b, "No entry selected for update"@, now) && cmd is Done,
                Some(i) => self.unchanged(b) && (cmd matches Command::Send(
                    Request::UpdateEntry { entry_ctx },
                    Then::Update,
                ) && entry_ctx.uuid == self.entries@[i].uuid && opt_text(entry_ctx.service) == last_text_of(
                    fields,
                    FieldType::Service,
                ) && opt_text(entry_ctx.username) == last_text_of(fields, FieldType::Username) && opt_text(
                    entry_ctx.password,
                ) == last_text_of(fields, FieldType::Password)),
            },
            AppState::ChangeMasterPassword => {
                let old_pw = text_at(fields, 0);
                let new_pw = text_at(fields, 1);
                let confirm = text_at(fields, 2);
                match password_change_error(old_pw, new_pw, confirm) {
                    Some(m) => self.only_status(b, m, now) && cmd is Done,
                    None => self.unchanged(b) && (cmd matches Command::Send(
                        Request::Unlock { master_password: p },
                        Then::UnlockForChange(n),
                    ) && p@ == old_pw && n@ == new_pw),
                }
            },
            _ => self.unchanged(b) && cmd is Done,
        }
    }

    /// The entry forms and the master-password form.
    pub open spec fn form_step(&self, k: Key, b: App, cmd: Command, now: u128) -> bool {
        let f = self.form_state;
        let g = b.form_state;
        if k.control && k.code == KeyCode::Char('a') {
            self.unchanged(b) && cmd matches Command::Send(Request::LoadGeneratorConfig, Then::AutoFill)
        } else {
            match k.code {
                KeyCode::Tab | KeyCode::Down => self.form_only(b) && went_next(f, g, true) && cmd is Done,
                KeyCode::BackTab | KeyCode::Up => self.form_only(b) && went_prev(f, g, true) && cmd is Done,
                KeyCode::Left => self.form_only(b) && moved_left(f, g) && cmd is Done,
                KeyCode::Right => self.form_only(b) && moved_right(f, g) && cmd is Done,
                KeyCode::Char(c) => self.form_only(b) && inserted(f, g, c) && cmd is Done,
                KeyCode::Backspace => self.form_only(b) && backspaced(f, g) && cmd is Done,
                KeyCode::Delete => self.form_only(b) && deleted(f, g) && cmd is Done,
                KeyCode::F(n) => cmd is Done && if n == 2 {
                    self.form_only(b) && toggled_shown(f, g)
                } else {
                    self.unchanged(b)
                },
                KeyCode::Enter => self.submitted(b, cmd, now),
                KeyCode::Esc => b.state is EntriesList && self.same_data(b) && self.same_status(b) && cleared(f, g)
                    && cmd is Done,
                _ => self.unchanged(b) && cmd is Done,
            }
        }
    }

    /// The form of a master-password change: three empty password fields.
    pub open spec fn password_change_form(&self, b: App) -> bool {
        let g = b.form_state;
        &&& g.fields@.len() == 3
        &&& empty_field(g.fields@[0], "Current Password", FieldType::Password, true)
        &&& empty_field(g.fields@[1], "New Password", FieldType::Password, true)
        &&& empty_field(g.fields@[2], "Conform Password", FieldType::Password, true)
        &&& g.current_field == 0
        &&& g.cursor_index == 0
        &&& g.obscure_inputs == self.form_state.obscure_inputs
    }

    /// The settings screen `st`.
    pub open spec fn settings_step(&self, st: SettingsState, k: Key, b: App, cmd: Command) -> bool {
        match k.code {
            KeyCode::Esc => self.screen_only(b, AppState::EntriesList) && cmd is Done,
            KeyCode::Up => cmd is Done && self.same_data(b) && self.same_status(b) && same_form(
                self.form_state,
                b.form_state,
            ) && (b.state matches AppState::Settings(t) && t.wf() && t.selected == drawn_selection(
                Some(list_previous(st.selected)),
                3,
            )),
            KeyCode::Down => cmd is Done && self.same_data(b) && self.same_status(b) && same_form(
                self.form_state,
                b.form_state,
            ) && (b.state matches AppState::Settings(t) && t.wf() && t.selected == drawn_selection(
                Some(list_next(st.selected)),
                3,
            )),
            KeyCode::Enter => match st.selected {
                None => self.unchanged(b) && cmd is Done,
                Some(i) => match st.options@[i as int] {
                    SettingsOption::ChangeMasterPassword => b.state is ChangeMasterPassword && self.same_data(b)
                        && self.same_status(b) && self.password_change_form(b) && cmd is Done,
                    SettingsOption::SnapshotList => self.screen_only(b, AppState::SnapshotList)
                        && cmd matches Command::Send(Request::ListSnapshots, Then::Snapshots),
                    SettingsOption::PasswordGenerator => match self.generator_session_config {
                        Some(c) => self.opened_generator(b, c) && self.same_status(b) && cmd is Done,
                        None => self.unchanged(b) && cmd matches Command::Send(
                            Request::LoadGeneratorConfig,
                            Then::OpenGenerator,
                        ),
                    },
                },
            },
            _ => self.unchanged(b) && cmd is Done,
        }
    }

    /// The snapshot list.
    pub open spec fn snapshots_step(&self, k: Key, b: App, cmd: Command) -> bool {
        cmd is Done && match k.code {
            KeyCode::Esc => {
                &&& is_fresh_settings(b.state)
                &&& self.same_data(b) && self.same_status(b) && same_form(self.form_state, b.form_state)
            },
            KeyCode::Up => self.selection_only(b, row_after_prev(self.selected, self.snapshots@.len())),
            KeyCode::Down => self.selection_only(b, row_after_next(self.selected, self.snapshots@.len())),
            KeyCode::Enter => match self.selected_snapshot() {
                Some(i) => self.screen_only(
                    b,
                    AppState::ConfirmAction {
                        action: PendingAction::RestoreSnapshot(
                            self.snapshots@[i].uuid,
                            self.snapshots@[i].version,
                        ),
                        previous_state: Box::new(AppState::EntriesList),
                    },
                ),
                None => self.unchanged(b),
            },
            _ => self.unchanged(b),
        }
    }

    /// `b` is `self` after regenerating on the generator screen with the
    /// session settings `c` (read from the form) and the last secret `last`.
    pub open spec fn regenerated(&self, b: App, c: crate::generator::GeneratorConfig, last: Option<String>) -> bool {
        &&& b.state matches AppState::PasswordGenerator(h) && h.session_config == c && if can_generate(
            c,
            self.wordlist@,
        ) && generate_spec_ok(c) {
            h.generated_password matches Some(p) && is_generated(c, self.wordlist@, p@)
        } else {
            h.generated_password == last
        }
        &&& b.generator_session_config == Some(c)
        &&& b.vault_unlocked == self.vault_unlocked
        &&& self.keeps_list(b)
        &&& b.snapshots@ == self.snapshots@
        &&& self.keeps_session(b)
        &&& self.same_status(b)
        &&& same_form(self.form_state, b.form_state)
    }

    /// The generator screen.
    pub open spec fn generator_step(&self, k: Key, b: App, cmd: Command, now: u128) -> bool {
        let f = self.form_state;
        let g = b.form_state;
        match self.state {
            AppState::PasswordGenerator(pg) => match k.code {
                KeyCode::Esc => self.screen_only(b, AppState::VaultLocked) && cmd is Done,
                KeyCode::Enter => self.unchanged(b) && match pg.generated_password {
                    Some(p) => cmd matches Command::Copy(x) && x@ == p@,
                    None => cmd is Done,
                },
                KeyCode::Tab | KeyCode::Down => self.form_only(b) && went_next(f, g, true) && cmd is Done,
                KeyCode::BackTab | KeyCode::Up => self.form_only(b) && went_prev(f, g, true) && cmd is Done,
                KeyCode::Right => self.form_only(b) && increased(f, g) && cmd is Done,
                KeyCode::Left => self.form_only(b) && decreased(f, g) && cmd is Done,
                KeyCode::Char(c) => cmd is Done && if c == 'r' {
                    self.regenerated(b, synced(pg.session_config, f.fields@), pg.generated_password)
                } else if c == ' ' {
                    self.form_only(b) && increased(f, g)
                } else if current_value(f) matches Some(FieldValue::Text(_)) {
                    self.form_only(b) && inserted(f, g, c)
                } else {
                    &&& b.state == self.state
                    &&& self.same_data(b)
                    &&& typed_digit(f, g, c, digit_result(f, c))
                    &&& match digit_result(f, c) {
                        Err(e) => b.has_status(rejection_text(e), now),
                        Ok(_) => self.same_status(b),
                    }
                },
                KeyCode::Backspace => self.form_only(b) && cmd is Done && if current_value(f) matches Some(
                    FieldValue::Number(_),
                ) {
                    removed_digit(f, g)
                } else {
                    backspaced(f, g)
                },
                KeyCode::Delete => self.form_only(b) && deleted(f, g) && cmd is Done,
                _ => self.unchanged(b) && cmd is Done,
            },
            _ => true,
        }
    }

    /// What the key `k` does on each screen: `b` is the client after it and
    /// `cmd` the outside work that follows.
    pub open spec fn key_step(&self, k: Key, b: App, cmd: Command, now: u128) -> bool {
        match self.state {
            AppState::InitialCheck => self.unchanged(b) && cmd is Done,
            AppState::UnlockPrompt => self.unlock_prompt_step(k, b, cmd),
            AppState::VaultLocked => self.locked_step(k, b, cmd),
            AppState::EntriesList => self.entries_step(k, b, cmd),
            AppState::ViewEntry(id) => self.view_step(id, k, b, cmd),
            AppState::ConfirmAction { action, .. } => self.confirm_step(action, k, b, cmd),
            AppState::NewEntryForm | AppState::UpdateEntry | AppState::ChangeMasterPassword => self.form_step(
                k,
                b,
                cmd,
                now,
            ),
            AppState::Settings(st) => self.settings_step(st, k, b, cmd),
            AppState::SnapshotList => self.snapshots_step(k, b, cmd),
            AppState::PasswordGenerator(_) => self.generator_step(k, b, cmd, now),
        }
    }
}


/// Three empty fields of the service, username and password kinds.
fn entry_fields(l0: &'static str, l1: &'static str, l2: &'static str) -> (res: Vec<FieldConfig>)
    ensures
        res@.len() == 3,
        empty_field(res@[0], l0, FieldType::Service, false),
        empty_field(res@[1], l1, FieldType::Username, false),
        empty_field(res@[2], l2, FieldType::Password, true),
{
    let mut v: Vec<FieldConfig> = Vec::new();
    v.push(FieldConfig::service(l0));
    v.push(FieldConfig::username(l1));
    v.push(FieldConfig::password(l2));
    v
}

impl App {
    /// Replaces the form's fields by `fields`, first field selected, cursor
    /// at the start.
    fn reset_form(&mut self, fields: Vec<FieldConfig>)
        ensures
            final(self).form_state.fields@ == fields@,
            final(self).form_state.current_field == 0,
            final(self).form_state.cursor_index == 0,
            final(self).form_state.obscure_inputs == old(self).form_state.obscure_inputs,
            final(self).state == old(self).state,
            old(self).same_data(*final(self)),
            old(self).same_status(*final(self)),
    {
        self.form_state.clear();
        self.form_state.fields = fields;
    }

    /// Locks the vault from the client: asks the daemon to lock it and shows
    /// the unlock screen.
    pub fn lock_vault(&mut self) -> (cmd: Command)
        ensures
            final(self).state is UnlockPrompt,
            !final(self).vault_unlocked,
            old(self).keeps_list(*final(self)),
            old(self).keeps_extra(*final(self)),
            old(self).keeps_session(*final(self)),
            old(self).same_status(*final(self)),
            password_prompt(old(self).form_state, final(self).form_state, "Password"),
            cmd matches Command::Send(Request::Lock, Then::Ignore),
    {
        self.vault_unlocked = false;
        let mut fields: Vec<FieldConfig> = Vec::new();
        fields.push(FieldConfig::password("Password"));
        self.reset_form(fields);
        self.state = AppState::UnlockPrompt;
        Command::Send(Request::Lock, Then::Ignore)
    }

    /// Shows the form screen `new_state`, filled with the entry `uuid` once
    /// the daemon sends it, or emptied.
    pub fn open_form(&mut self, new_state: AppState, uuid: Option<u128>) -> (cmd: Command)
        ensures
            final(self).state == new_state,
            old(self).same_data(*final(self)),
            old(self).same_status(*final(self)),
            uuid matches Some(id) ==> same_form(old(self).form_state, final(self).form_state) && (
            cmd matches Command::Send(Request::GetEntryById { uuid: x }, Then::Populate) && x == id),
            uuid is None ==> cleared(old(self).form_state, final(self).form_state) && cmd is Done,
    {
        let cmd = match uuid {
            Some(id) => Command::Send(Request::GetEntryById { uuid: id }, Then::Populate),
            None => {
                self.form_state.clear();
                Command::Done
            },
        };
        self.state = new_state;
        cmd
    }

    /// A key on the unlock screen.
    fn key_unlock_prompt(&mut self, key: Key) -> (cmd: Command)
        requires
            old(self).wf(),
            old(self).state is UnlockPrompt,
            old(self).can_handle(key),
        ensures
            final(self).wf(),
            old(self).unlock_prompt_step(key, *final(self), cmd),
    {
        match key.code {
            KeyCode::Esc => {
                self.state = AppState::VaultLocked;
                Command::Done
            },
            KeyCode::Backspace => {
                self.form_state.backspace();
                Command::Done
            },
            KeyCode::Char(c) => {
                let cur = self.form_state.current_field;
                let is_number = match self.form_state.fields[cur].field_type {
                    FieldType::Number => true,
                    _ => false,
                };
                if is_number && !is_numeric(c) {
                    return Command::Done;
                }
                self.form_state.insert_char(c);
                Command::Done
            },
            KeyCode::Delete => {
                self.form_state.delete_char();
                Command::Done
            },
            KeyCode::Left => {
                self.form_state.cursor_left();
                Command::Done
            },
            KeyCode::Right => {
                self.form_state.cursor_right();
                Command::Done
            },
            KeyCode::F(n) => {
                if n == 2 {
                    self.form_state.obscure_inputs = !self.form_state.obscure_inputs;
                }
                Command::Done
            },
            KeyCode::Enter => {
                let cur = self.form_state.current_field;
                match &self.form_state.fields[cur].value {
                    FieldValue::Text(t) => self.unlock_vault(t.as_str()),
                    _ => Command::Done,
                }
            },
            _ => Command::Done,
        }
    }

    /// A key on the locked screen.
    fn key_locked(&mut self, key: Key) -> (cmd: Command)
        requires
            old(self).wf(),
            old(self).state is VaultLocked,
        ensures
            final(self).wf(),
            old(self).locked_step(key, *final(self), cmd),
    {
        if key.code == KeyCode::Esc {
            return Command::Done;
        }
        let mut fields: Vec<FieldConfig> = Vec::new();
        fields.push(FieldConfig::password("Master Password"));
        self.reset_form(fields);
        self.state = AppState::UnlockPrompt;
        Command::Done
    }
}

impl App {
    /// A key on the entry list.
    fn key_entries(&mut self, key: Key, now: u128) -> (cmd: Command)
        requires
            old(self).wf(),
            old(self).state is EntriesList,
        ensures
            final(self).wf(),
            old(self).entries_step(key, *final(self), cmd),
    {
        match key.code {
            KeyCode::Char(c) => {
                if c == 'x' {
                    self.lock_vault()
                } else if c == 'n' {
                    self.reset_form(entry_fields("Service", "Username", "Password"));
                    let cmd = self.open_form(AppState::NewEntryForm, None);
                    assert(empty_field(self.form_state.fields@[0], "Service", FieldType::Service, false));
                    assert(empty_field(self.form_state.fields@[1], "Username", FieldType::Username, false));
                    assert(empty_field(self.form_state.fields@[2], "Password", FieldType::Password, true));
                    cmd
                } else if c == 'e' {
                    self.reset_form(entry_fields("Edit Service", "Edit Username", "Edit Password"));
                    let uuid = self.get_selected_entry_id(now);
                    let cmd = self.open_form(AppState::UpdateEntry, uuid);
                    assert(empty_field(self.form_state.fields@[0], "Edit Service", FieldType::Service, false));
                    assert(empty_field(self.form_state.fields@[1], "Edit Username", FieldType::Username, false));
                    assert(empty_field(self.form_state.fields@[2], "Edit Password", FieldType::Password, true));
                    cmd
                } else if c == '?' {
                    self.state = AppState::Settings(SettingsState::default());
                    Command::Done
                } else {
                    Command::Done
                }
            },
            KeyCode::Up => {
                self.prev_index();
                Command::Done
            },
            KeyCode::Down => {
                self.next_index();
                Command::Done
            },
            KeyCode::Backspace => {
                if let Some(id) = self.get_selected_entry_id(now) {
                    self.state = AppState::ConfirmAction {
                        action: PendingAction::DeleteEntry(id),
                        previous_state: Box::new(AppState::EntriesList),
                    };
                }
                Command::Done
            },
            KeyCode::Enter => {
                proof {
                    reveal_strlit("");
                    assert(""@ =~= Seq::<char>::empty());
                }
                let mut fields: Vec<FieldConfig> = Vec::new();
                fields.push(FieldConfig::text("Service", ""));
                fields.push(FieldConfig::text("Username", ""));
                fields.push(FieldConfig::password("Password"));
                self.reset_form(fields);
                let uuid = self.get_selected_entry_id(now);
                let id = match uuid {
                    Some(id) => id,
                    None => 0,
                };
                let cmd = self.open_form(AppState::ViewEntry(id), uuid);
                assert(empty_text(self.form_state.fields@[0].value));
                assert(empty_text(self.form_state.fields@[1].value));
                assert(empty_text(self.form_state.fields@[2].value));
                cmd
            },
            _ => Command::Done,
        }
    }

    /// A key on the view of the entry `id`.
    fn key_view(&mut self, id: u128, key: Key, now: u128) -> (cmd: Command)
        requires
            old(self).wf(),
            old(self).state == AppState::ViewEntry(id),
        ensures
            final(self).wf(),
            old(self).view_step(id, key, *final(self), cmd),
    {
        match key.code {
            KeyCode::Backspace => {
                self.state = AppState::ConfirmAction {
                    action: PendingAction::DeleteEntry(id),
                    previous_state: Box::new(AppState::EntriesList),
                };
                Command::Done
            },
            KeyCode::Enter => {
                let cur = self.form_state.current_field;
                match &self.form_state.fields[cur].value {
                    FieldValue::Text(t) => self.copy_to_clipboard(t.clone()),
                    _ => Command::Done,
                }
            },
            KeyCode::Char(c) => {
                if c == 'e' {
                    self.reset_form(entry_fields("Edit Service", "Edit Username", "Edit Password"));
                    let uuid = self.get_selected_entry_id(now);
                    let _ = self.open_form(AppState::UpdateEntry, uuid);
                }
                Command::Done
            },
            KeyCode::Tab => {
                let field_count = self.form_state.fields.len();
                assert(self.form_state.current_field < field_count);
                self.form_state.next_field(false);
                Command::Done
            },
            KeyCode::BackTab => {
                self.form_state.prev_field(false);
                Command::Done
            },
            KeyCode::F(n) => {
                if n == 2 {
                    self.form_state.toggle_show_password();
                }
                Command::Done
            },
            KeyCode::Esc => {
                self.form_state.clear();
                self.state = AppState::EntriesList;
                Command::Done
            },
            _ => Command::Done,
        }
    }

    /// A key on the confirmation of `action`.
    fn key_confirm(&mut self, action: PendingAction, key: Key) -> (cmd: Command)
        requires
            old(self).wf(),
            old(self).state matches AppState::ConfirmAction { action: a, .. } && a == action,
        ensures
            final(self).wf(),
            old(self).confirm_step(action, key, *final(self), cmd),
    {
        if key.code == KeyCode::Char('y') || key.code == KeyCode::Enter {
            match action {
                PendingAction::DeleteEntry(id) => {
                    let cmd = self.delete_entry(id);
                    self.state = AppState::EntriesList;
                    cmd
                },
                PendingAction::RestoreSnapshot(id, v) => {
                    let cmd = self.restore_snapshot(id, Some(v));
                    self.state = AppState::Settings(SettingsState::default());
                    cmd
                },
            }
        } else if key.code == KeyCode::Char('n') || key.code == KeyCode::Esc {
            self.state = AppState::EntriesList;
            Command::Done
        } else {
            Command::Done
        }
    }
}

/// The text of field `i` of the form, or the empty text.
fn text_of_field(f: &FormState, i: usize) -> (res: String)
    ensures
        res@ == text_at(f.fields@, i as int),
{
    if i < f.fields.len() {
        match &f.fields[i].value {
            FieldValue::Text(t) => t.clone(),
            _ => String::new(),
        }
    } else {
        String::new()
    }
}

impl App {
    /// Submits the new-entry form.
    pub fn submit_form_add(&mut self, now: u128) -> (cmd: Command)
        requires
            old(self).state is NewEntryForm,
        ensures
            old(self).submitted(*final(self), cmd, now),
    {
        match entry_input_from_form(&self.form_state) {
            Ok(entry_ctx) => Command::Send(Request::AddEntry { entry_ctx }, Then::Add),
            Err(m) => {
                self.set_status(String::from_str(m), now);
                Command::Done
            },
        }
    }

    /// Submits the edit form for the highlighted entry.
    pub fn submit_form_update(&mut self, now: u128) -> (cmd: Command)
        requires
            old(self).state is UpdateEntry,
        ensures
            old(self).submitted(*final(self), cmd, now),
    {
        match self.get_selected_entry_id(now) {
            Some(uuid) => {
                let entry_ctx = update_input_from_form(&self.form_state, uuid);
                Command::Send(Request::UpdateEntry { entry_ctx }, Then::Update)
            },
            None => {
                self.set_status(String::from_str("No entry selected for update"), now);
                Command::Done
            },
        }
    }

    /// Submits the master-password form (current, new and confirmed
    /// password, in that order): the current password is checked by
    /// unlocking with it before the change is asked for.
    pub fn submit_form_update_master_password(&mut self, now: u128) -> (cmd: Command)
        requires
            old(self).state is ChangeMasterPassword,
        ensures
            old(self).submitted(*final(self), cmd, now),
    {
        let old_password = text_of_field(&self.form_state, 0);
        let new_password = text_of_field(&self.form_state, 1);
        if new_password.as_str().unicode_len() == 0 || old_password.as_str().unicode_len() == 0 {
            self.set_status(String::from_str("Fields cannot be empty!"), now);
            return Command::Done;
        }
        let confirm_password = text_of_field(&self.form_state, 2);
        match validate_master_password_change(old_password.as_str(), new_password.as_str(), confirm_password.as_str()) {
            Err(m) => {
                self.set_status(String::from_str(m), now);
                Command::Done
            },
            Ok(()) => Command::Send(
                Request::Unlock { master_password: old_password },
                Then::UnlockForChange(new_password),
            ),
        }
    }

    /// Submits the form shown.
    pub fn submit_form(&mut self, now: u128) -> (cmd: Command)
        ensures
            old(self).submitted(*final(self), cmd, now),
    {
        match self.state {
            AppState::NewEntryForm => self.submit_form_add(now),
            AppState::UpdateEntry => self.submit_form_update(now),
            AppState::ChangeMasterPassword => self.submit_form_update_master_password(now),
            _ => Command::Done,
        }
    }

    /// A key on the entry forms and the master-password form.
    fn key_form(&mut self, key: Key, now: u128) -> (cmd: Command)
        requires
            old(self).wf(),
            old(self).state is NewEntryForm || old(self).state is UpdateEntry || old(self).state is ChangeMasterPassword,
            old(self).can_handle(key),
        ensures
            final(self).wf(),
            old(self).form_step(key, *final(self), cmd, now),
    {
        if key.control && key.code == KeyCode::Char('a') {
            return Command::Send(Request::LoadGeneratorConfig, Then::AutoFill);
        }
        let field_count = self.form_state.fields.len();
        assert(self.form_state.current_field < field_count);
        match key.code {
            KeyCode::Tab | KeyCode::Down => {
                self.form_state.next_field(true);
                Command::Done
            },
            KeyCode::BackTab | KeyCode::Up => {
                self.form_state.prev_field(true);
                Command::Done
            },
            KeyCode::Left => {
                self.form_state.cursor_left();
                Command::Done
            },
            KeyCode::Right => {
                self.form_state.cursor_right();
                Command::Done
            },
            KeyCode::Char(c) => {
                self.form_state.insert_char(c);
                Command::Done
            },
            KeyCode::Backspace => {
                self.form_state.backspace();
                Command::Done
            },
            KeyCode::Delete => {
                self.form_state.delete_char();
                Command::Done
            },
            KeyCode::F(k) => {
                if k == 2 {
                    self.form_state.toggle_show_password();
                }
                Command::Done
            },
            KeyCode::Enter => self.submit_form(now),
            KeyCode::Esc => {
                self.form_state.clear();
                self.state = AppState::EntriesList;
                Command::Done
            },
            _ => Command::Done,
        }
    }
}

impl App {
    /// A key on the settings screen.
    fn key_settings(&mut self, key: Key) -> (cmd: Command)
        requires
            old(self).wf(),
            old(self).state is Settings,
        ensures
            final(self).wf(),
            match old(self).state {
                AppState::Settings(st) => old(self).settings_step(st, key, *final(self), cmd),
                _ => true,
            },
    {
        let (selected, len) = match &self.state {
            AppState::Settings(st) => (st.selected, st.options.len()),
            _ => (None, 3),
        };
        match key.code {
            KeyCode::Esc => {
                self.state = AppState::EntriesList;
                Command::Done
            },
            KeyCode::Up | KeyCode::Down => {
                let raw: usize = if key.code == KeyCode::Up {
                    match selected {
                        None => usize::MAX,
                        Some(i) => if i == 0 {
                            0
                        } else {
                            i - 1
                        },
                    }
                } else {
                    match selected {
                        None => 0,
                        Some(i) => if i == usize::MAX {
                            usize::MAX
                        } else {
                            i + 1
                        },
                    }
                };
                let mut st = SettingsState::default();
                st.selected = if raw >= len {
                    Some(len - 1)
                } else {
                    Some(raw)
                };
                self.state = AppState::Settings(st);
                Command::Done
            },
            KeyCode::Enter => {
                let option = match &self.state {
                    AppState::Settings(st) => match st.selected {
                        Some(i) => Some(st.options[i]),
                        None => None,
                    },
                    _ => None,
                };
                match option {
                    None => Command::Done,
                    Some(SettingsOption::ChangeMasterPassword) => {
                        let mut fields: Vec<FieldConfig> = Vec::new();
                        fields.push(FieldConfig::password("Current Password"));
                        fields.push(FieldConfig::password("New Password"));
                        fields.push(FieldConfig::password("Conform Password"));
                        self.form_state.fields = fields;
                        let cmd = self.open_form(AppState::ChangeMasterPassword, None);
                        assert(empty_field(self.form_state.fields@[0], "Current Password", FieldType::Password, true));
                        assert(empty_field(self.form_state.fields@[1], "New Password", FieldType::Password, true));
                        assert(empty_field(self.form_state.fields@[2], "Conform Password", FieldType::Password, true));
                        cmd
                    },
                    Some(SettingsOption::SnapshotList) => {
                        let cmd = self.load_snapshots();
                        self.state = AppState::SnapshotList;
                        cmd
                    },
                    Some(SettingsOption::PasswordGenerator) => match self.generator_session_config {
                        Some(c) => {
                            self.open_generator(c);
                            Command::Done
                        },
                        None => Command::Send(Request::LoadGeneratorConfig, Then::OpenGenerator),
                    },
                }
            },
            _ => Command::Done,
        }
    }

    /// A key on the snapshot list.
    fn key_snapshots(&mut self, key: Key, now: u128) -> (cmd: Command)
        requires
            old(self).wf(),
            old(self).state is SnapshotList,
        ensures
            final(self).wf(),
            old(self).snapshots_step(key, *final(self), cmd),
    {
        match key.code {
            KeyCode::Esc => {
                self.state = AppState::Settings(SettingsState::default());
            },
            KeyCode::Up => {
                self.prev_index();
            },
            KeyCode::Down => {
                self.next_index();
            },
            KeyCode::Enter => {
                let uuid = self.get_selected_snapshot_uuid(now);
                let version = self.get_selected_snapshot_version(now);
                if let (Some(id), Some(version)) = (uuid, version) {
                    self.state = AppState::ConfirmAction {
                        action: PendingAction::RestoreSnapshot(id, version),
                        previous_state: Box::new(AppState::EntriesList),
                    };
                }
            },
            _ => {},
        }
        Command::Done
    }

    /// Reads the generator form into the session settings and generates a
    /// secret with them.
    fn regenerate(&mut self)
        requires
            old(self).wf(),
            old(self).state is PasswordGenerator,
        ensures
            final(self).wf(),
            match old(self).state {
                AppState::PasswordGenerator(pg) => old(self).regenerated(
                    *final(self),
                    synced(pg.session_config, old(self).form_state.fields@),
                    pg.generated_password,
                ),
                _ => true,
            },
    {
        let mut st = AppState::InitialCheck;
        std::mem::swap(&mut st, &mut self.state);
        match st {
            AppState::PasswordGenerator(mut pg) => {
                pg.sync_config(self.form_state.fields.as_slice());
                let c = pg.session_config;
                self.generator_session_config = Some(c);
                if !(c.mode == GeneratorMode::Passphrase && c.word_count > 0 && self.wordlist.len() == 0) {
                    let _ = pg.generate_password(&self.wordlist);
                }
                self.state = AppState::PasswordGenerator(pg);
            },
            other => {
                self.state = other;
            },
        }
    }

    /// A key on the generator screen.
    fn key_generator(&mut self, key: Key, now: u128) -> (cmd: Command)
        requires
            old(self).wf(),
            old(self).state is PasswordGenerator,
            old(self).can_handle(key),
        ensures
            final(self).wf(),
            old(self).generator_step(key, *final(self), cmd, now),
    {
        let field_count = self.form_state.fields.len();
        let cur = self.form_state.current_field;
        assert(cur < field_count);
        match key.code {
            KeyCode::Esc => {
                self.state = AppState::VaultLocked;
                Command::Done
            },
            KeyCode::Enter => match &self.state {
                AppState::PasswordGenerator(pg) => match &pg.generated_password {
                    Some(p) => self.copy_to_clipboard(p.clone()),
                    None => Command::Done,
                },
                _ => Command::Done,
            },
            KeyCode::Tab | KeyCode::Down => {
                self.form_state.next_field(true);
                Command::Done
            },
            KeyCode::BackTab | KeyCode::Up => {
                self.form_state.prev_field(true);
                Command::Done
            },
            KeyCode::Right => {
                self.form_state.increase_value();
                Command::Done
            },
            KeyCode::Left => {
                self.form_state.decrease_value();
                Command::Done
            },
            KeyCode::Char(c) => {
                if c == 'r' {
                    self.regenerate();
                } else if c == ' ' {
                    self.form_state.increase_value();
                } else {
                    let is_text = match &self.form_state.fields[cur].value {
                        FieldValue::Text(_) => true,
                        _ => false,
                    };
                    if is_text {
                        self.form_state.insert_char(c);
                    } else {
                        match self.form_state.type_digit(c) {
                            Ok(()) => {},
                            Err(e) => self.set_status(String::from_str(e.message()), now),
                        }
                    }
                }
                Command::Done
            },
            KeyCode::Backspace => {
                let is_number = match &self.form_state.fields[cur].value {
                    FieldValue::Number(_) => true,
                    _ => false,
                };
                if is_number {
                    self.form_state.remove_digit();
                } else {
                    self.form_state.backspace();
                }
                Command::Done
            },
            KeyCode::Delete => {
                self.form_state.delete_char();
                Command::Done
            },
            _ => Command::Done,
        }
    }
}

/// Answers the key `key` pressed at `now`: updates the client and returns
/// the outside work that follows.
pub fn handle_event(app: &mut App, key: Key, now: u128) -> (cmd: Command)
    requires
        old(app).wf(),
        old(app).can_handle(key),
    ensures
        final(app).wf(),
        final(app).last_interaction == now,
        (App { last_interaction: now, ..*old(app) }).key_step(key, *final(app), cmd, now),
{
    app.last_interaction = now;
    match &app.state {
        AppState::InitialCheck => Command::Done,
        AppState::UnlockPrompt => app.key_unlock_prompt(key),
        AppState::VaultLocked => app.key_locked(key),
        AppState::EntriesList => app.key_entries(key, now),
        AppState::ViewEntry(id) => {
            let id = *id;
            app.key_view(id, key, now)
        },
        AppState::ConfirmAction { action, .. } => {
            let action = *action;
            app.key_confirm(action, key)
        },
        AppState::NewEntryForm | AppState::UpdateEntry | AppState::ChangeMasterPassword => app.key_form(key, now),
        AppState::Settings(_) => app.key_settings(key),
        AppState::SnapshotList => app.key_snapshots(key, now),
        AppState::PasswordGenerator(_) => app.key_generator(key, now),
    }
}

/// Whether `key` quits the client: Esc on the start, unlock and entry
/// screens.
pub fn quits(app: &App, key: Key) -> (res: bool)
    ensures
        res == (key.code == KeyCode::Esc && (app.state is InitialCheck || app.state is UnlockPrompt
            || app.state is EntriesList)),
{
    key.code == KeyCode::Esc && matches!(app.state, AppState::InitialCheck | AppState::UnlockPrompt | AppState::EntriesList)
}

/// Moving down then up in a list returns to the row highlighted before, and
/// so does moving up then down.
pub proof fn law_down_then_up_returns(i: usize, n: nat)
    requires
        i < n,
        n <= usize::MAX,
    ensures
        row_after_prev(row_after_next(Some(i), n), n) == Some(i),
        row_after_next(row_after_prev(Some(i), n), n) == Some(i),
{
    if i + 1 == n {
        assert((i + 1) % (n as int) == 0) by {
            vstd::arithmetic::div_mod::lemma_mod_self_0(n as int);
        }
    } else {
        assert((i + 1) % (n as int) == i + 1) by {
            vstd::arithmetic::div_mod::lemma_small_mod((i + 1) as nat, n);
        }
    }
    if i == 0 {
        assert(((n - 1) + 1) % (n as int) == 0) by {
            vstd::arithmetic::div_mod::lemma_mod_self_0(n as int);
        }
    } else {
        assert(((i - 1) + 1) % (n as int) == i) by {
            vstd::arithmetic::div_mod::lemma_small_mod(i as nat, n);
        }
    }
}

/// Autofill follows the settings file and not the session: Control-A on an
/// entry form asks the daemon for the generator settings (read from its
/// settings file), the secret filled in is generated with the settings of
/// the reply whatever the session changed, and the session settings stay as
/// they were.
pub proof fn law_autofill_uses_file_settings(
    a: App,
    k: Key,
    b: App,
    cmd: Command,
    reply: Reply,
    c: App,
    cmd2: Command,
    now: u128,
)
    requires
        a.state is NewEntryForm || a.state is UpdateEntry,
        k.control,
        k.code == KeyCode::Char('a'),
        a.key_step(k, b, cmd, now),
        b.after_reply(Then::AutoFill, reply, c, cmd2, now),
    ensures
        cmd matches Command::Send(Request::LoadGeneratorConfig, Then::AutoFill),
        c.generator_session_config == a.generator_session_config,
        a.auto_filled(c, loaded_config(reply), reply, now),
{
}
} // verus!

verus! {

/// No number field of the form exceeds the largest value the generator
/// screen accepts.
pub open spec fn numbers_bounded(f: FormState) -> bool {
    forall|i: int|
        0 <= i < f.fields@.len() && (#[trigger] f.fields@[i]).value is Number ==> f.fields@[i].value->Number_0
            <= MAX_PASSWORD_LENGTH
}

/// On the generator screen numbers stay within the accepted range: every key
/// keeps each number field at or below `MAX_PASSWORD_LENGTH`, and a
/// backspace in a number field never makes it larger.
pub proof fn law_generator_numbers_bounded(a: App, k: Key, b: App, cmd: Command, now: u128)
    requires
        a.wf(),
        a.can_handle(k),
        a.state is PasswordGenerator,
        a.generator_step(k, b, cmd, now),
        numbers_bounded(a.form_state),
    ensures
        numbers_bounded(b.form_state),
        k.code == KeyCode::Backspace ==> (current_value(a.form_state) matches Some(FieldValue::Number(n)) ==> (
        current_value(b.form_state) matches Some(FieldValue::Number(m)) && m <= n)),
{
    let f = a.form_state;
    let g = b.form_state;
    let c = f.current_field as int;
    let v = f.fields@[c].value;
    if k.code == KeyCode::Backspace && v is Number {
        crate::state::lemma_digit_removed_not_larger(v->Number_0, f.cursor_index);
    }
    assert forall|i: int| 0 <= i < g.fields@.len() && (#[trigger] g.fields@[i]).value is Number implies g.fields@[
        i
    ].value->Number_0 <= MAX_PASSWORD_LENGTH by {
        if i != c {
            if i < f.fields@.len() {
                assert(f.fields@[i].value is Number ==> f.fields@[i].value->Number_0 <= MAX_PASSWORD_LENGTH);
            }
        } else {
            assert(f.fields@[c].value is Number ==> f.fields@[c].value->Number_0 <= MAX_PASSWORD_LENGTH);
        }
    }
}

} // verus!

verus! {

/// The cursor lies within the text of the field being edited, when it holds
/// text.
pub open spec fn cursor_in_text(f: FormState) -> bool {
    f.current_text() matches Some(t) ==> f.cursor_index <= t.len()
}

/// The screens that edit text fields.
pub open spec fn edits_text(s: AppState) -> bool {
    ||| s is UnlockPrompt
    ||| s is NewEntryForm
    ||| s is UpdateEntry
    ||| s is ChangeMasterPassword
    ||| s is PasswordGenerator
}

/// The keys that type, delete or move within a form.
pub open spec fn editing_key(k: Key) -> bool {
    &&& (k.code is Char || k.code == KeyCode::Backspace || k.code == KeyCode::Delete || k.code == KeyCode::Left
        || k.code == KeyCode::Right || k.code == KeyCode::Tab || k.code == KeyCode::BackTab || k.code
        == KeyCode::Up || k.code == KeyCode::Down)
    &&& !(k.control && k.code == KeyCode::Char('a'))
}

/// The keys that move the cursor right: Right, and on the generator screen
/// also the space bar.
pub open spec fn moves_right(s: AppState, k: Key) -> bool {
    k.code == KeyCode::Right || (s is PasswordGenerator && k.code == KeyCode::Char(' '))
}

/// Editing keeps the cursor within the text being edited, characters being
/// counted one by one, on any text. Moving right is the one exception: it
/// goes by the text's length in bytes (as `str::len` counts it), so there the
/// law holds for ASCII text, and on other text the cursor can pass the last
/// character.
pub proof fn law_cursor_stays_in_text(a: App, k: Key, b: App, cmd: Command, now: u128)
    requires
        a.wf(),
        a.can_handle(k),
        edits_text(a.state),
        editing_key(k),
        a.key_step(k, b, cmd, now),
        cursor_in_text(a.form_state),
        moves_right(a.state, k) ==> (a.form_state.current_text() matches Some(t) ==> crate::text::is_ascii_text(t)
            && t.len() <= usize::MAX),
    ensures
        cursor_in_text(b.form_state),
{
    if moves_right(a.state, k) {
        match a.form_state.current_text() {
            Some(t) => crate::text::lemma_ascii_byte_len(t),
            None => {},
        }
    }
}

} // verus!
