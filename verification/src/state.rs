//! State of the terminal client's forms: the field kinds and values, the
//! editing of a form, the settings menu entries, pending confirmations and the
//! password-generator screen.

use vstd::prelude::*;

use crate::generator::{generate, GeneratorConfig, GeneratorMode};
use crate::text::{chars_of, decimal, string_from_chars};
use vstd::string::StringSliceAdditionalSpecFns;

verus! {

/// Menu entries of the settings screen.
#[derive(Clone, Copy, Debug, PartialEq, Eq, Structural)]
pub enum SettingsOption {
    ChangeMasterPassword,
    SnapshotList,
    PasswordGenerator,
}

impl SettingsOption {
    /// The label shown in the menu.
    pub fn as_str(&self) -> (res: &'static str)
        ensures
            res@ == match *self {
                SettingsOption::ChangeMasterPassword => "Change Master Password"@,
                SettingsOption::SnapshotList => "Snapshots"@,
                SettingsOption::PasswordGenerator => "Password Generator"@,
            },
    {
        match self {
            SettingsOption::ChangeMasterPassword => "Change Master Password",
            SettingsOption::SnapshotList => "Snapshots",
            SettingsOption::PasswordGenerator => "Password Generator",
        }
    }
}

/// The menus a choice field can offer.
#[derive(Clone, Copy, Debug, PartialEq, Eq, Structural)]
pub enum EnumChoice {
    GeneratorMode,
}

impl Default for EnumChoice {
    fn default() -> (res: Self)
        ensures
            res == EnumChoice::GeneratorMode,
    {
        EnumChoice::GeneratorMode
    }
}

/// The options of the generator-mode menu, in menu order.
pub open spec fn generator_mode_options() -> Seq<Seq<char>> {
    seq!["Random Chars"@, "Passphrase"@]
}

impl EnumChoice {
    /// The option labels of the menu.
    pub fn options(&self) -> (res: &'static [&'static str])
        ensures
            res@.map_values(|o: &str| o@) == generator_mode_options(),
            res@.len() == 2,
    {
        let opts: &'static [&'static str] = &["Random Chars", "Passphrase"];
        assert(opts@.map_values(|o: &str| o@) =~= generator_mode_options());
        opts
    }
}

/// The kind of a form field.
#[derive(Clone, Copy, Debug, PartialEq, Eq, Structural)]
pub enum FieldType {
    Text,
    Password,
    Username,
    Service,
    Number,
    Checkbox,
    Choice(EnumChoice),
}

impl Default for FieldType {
    fn default() -> (res: Self)
        ensures
            res == FieldType::Text,
    {
        FieldType::Text
    }
}

/// The value held by a form field.
#[derive(Debug)]
pub enum FieldValue {
    Text(String),
    Choice(usize),
    Boolean(bool),
    Number(u16),
}

impl Clone for FieldValue {
    fn clone(&self) -> (res: Self)
        ensures
            res == *self,
    {
        match self {
            FieldValue::Text(s) => FieldValue::Text(s.clone()),
            FieldValue::Choice(i) => FieldValue::Choice(*i),
            FieldValue::Boolean(b) => FieldValue::Boolean(*b),
            FieldValue::Number(n) => FieldValue::Number(*n),
        }
    }
}

impl Default for FieldValue {
    /// The first option of a menu.
    fn default() -> (res: Self)
        ensures
            res == FieldValue::Choice(0),
    {
        FieldValue::Choice(0)
    }
}

/// A form field: its label, whether it holds a password and whether that is
/// shown, its kind and its value.
#[derive(Debug)]
pub struct FieldConfig {
    pub label: &'static str,
    pub is_password: bool,
    pub show_password: bool,
    pub field_type: FieldType,
    pub value: FieldValue,
}

impl Clone for FieldConfig {
    fn clone(&self) -> (res: Self)
        ensures
            res == *self,
    {
        FieldConfig {
            label: self.label,
            is_password: self.is_password,
            show_password: self.show_password,
            field_type: self.field_type,
            value: self.value.clone(),
        }
    }
}

/// The field with the given label, kind and value; not a password, not
/// shown.
pub open spec fn plain_field(label: &'static str, field_type: FieldType, value: FieldValue) -> FieldConfig {
    FieldConfig { label, is_password: false, show_password: false, field_type, value }
}

/// An empty text value.
pub open spec fn empty_text(v: FieldValue) -> bool {
    v matches FieldValue::Text(s) && s@ == Seq::<char>::empty()
}

impl Default for FieldConfig {
    fn default() -> (res: Self)
        ensures
            res.label@ == ""@,
            !res.is_password && !res.show_password,
            res.field_type == FieldType::Text,
            empty_text(res.value),
    {
        FieldConfig {
            label: "",
            is_password: false,
            show_password: false,
            field_type: FieldType::Text,
            value: FieldValue::Text(String::new()),
        }
    }
}

impl FieldConfig {
    /// A text field holding `default_value`.
    pub fn text(label: &'static str, default_value: &str) -> (res: Self)
        ensures
            res.label == label,
            !res.is_password && !res.show_password,
            res.field_type == FieldType::Text,
            res.value matches FieldValue::Text(s) && s@ == default_value@,
    {
        FieldConfig {
            label,
            is_password: false,
            show_password: false,
            field_type: FieldType::Text,
            value: FieldValue::Text(String::from_str(default_value)),
        }
    }

    /// An empty service field.
    pub fn service(label: &'static str) -> (res: Self)
        ensures
            res.label == label,
            !res.is_password && !res.show_password,
            res.field_type == FieldType::Service,
            empty_text(res.value),
    {
        FieldConfig {
            label,
            is_password: false,
            show_password: false,
            field_type: FieldType::Service,
            value: FieldValue::Text(String::new()),
        }
    }

    /// An empty username field.
    pub fn username(label: &'static str) -> (res: Self)
        ensures
            res.label == label,
            !res.is_password && !res.show_password,
            res.field_type == FieldType::Username,
            empty_text(res.value),
    {
        FieldConfig {
            label,
            is_password: false,
            show_password: false,
            field_type: FieldType::Username,
            value: FieldValue::Text(String::new()),
        }
    }

    /// An empty password field, hidden.
    pub fn password(label: &'static str) -> (res: Self)
        ensures
            res.label == label,
            res.is_password && !res.show_password,
            res.field_type == FieldType::Password,
            empty_text(res.value),
    {
        FieldConfig {
            label,
            is_password: true,
            show_password: false,
            field_type: FieldType::Password,
            value: FieldValue::Text(String::new()),
        }
    }

    /// A number field holding `default_val`.
    pub fn number(label: &'static str, default_val: u16) -> (res: Self)
        ensures
            res == plain_field(label, FieldType::Number, FieldValue::Number(default_val)),
    {
        FieldConfig {
            label,
            is_password: false,
            show_password: false,
            field_type: FieldType::Number,
            value: FieldValue::Number(default_val),
        }
    }

    /// A choice field on the menu `menu_type`, at its first option.
    pub fn choice(label: &'static str, menu_type: EnumChoice) -> (res: Self)
        ensures
            res == plain_field(label, FieldType::Choice(menu_type), FieldValue::Choice(0)),
    {
        FieldConfig {
            label,
            is_password: false,
            show_password: false,
            field_type: FieldType::Choice(menu_type),
            value: FieldValue::Choice(0),
        }
    }

    /// A checkbox holding `value`; without a value it holds the default
    /// value (the first menu option).
    pub fn checkbox(label: &'static str, value: Option<bool>) -> (res: Self)
        ensures
            res == plain_field(
                label,
                FieldType::Checkbox,
                match value {
                    Some(b) => FieldValue::Boolean(b),
                    None => FieldValue::Choice(0),
                },
            ),
    {
        FieldConfig {
            label,
            is_password: false,
            show_password: false,
            field_type: FieldType::Checkbox,
            value: match value {
                Some(b) => FieldValue::Boolean(b),
                None => FieldValue::default(),
            },
        }
    }
}

/// A form: its fields, the field being edited, the cursor in it, and whether
/// password fields are masked.
#[derive(Debug)]
pub struct FormState {
    pub fields: Vec<FieldConfig>,
    pub current_field: usize,
    pub cursor_index: usize,
    pub obscure_inputs: bool,
}

impl FormState {
    /// An empty form with masked inputs.
    pub fn new() -> (res: Self)
        ensures
            res.fields@.len() == 0,
            res.current_field == 0,
            res.cursor_index == 0,
            res.obscure_inputs,
    {
        FormState { fields: Vec::new(), current_field: 0, cursor_index: 0, obscure_inputs: true }
    }

    /// Empties every field (each becomes an empty text) and moves to the
    /// start of the first field.
    pub fn clear(&mut self)
        ensures
            cleared(*old(self), *final(self)),
    {
        let ghost old_fields = self.fields@;
        let mut i: usize = 0;
        while i < self.fields.len()
            invariant
                i <= self.fields.len(),
                self.fields@.len() == old_fields.len(),
                self.obscure_inputs == old(self).obscure_inputs,
                forall|k: int|
                    0 <= k < i ==> ({
                        let f = #[trigger] self.fields@[k];
                        let g = old_fields[k];
                        &&& empty_text(f.value)
                        &&& f.label == g.label && f.is_password == g.is_password
                        &&& f.show_password == g.show_password && f.field_type == g.field_type
                    }),
                forall|k: int| i <= k < self.fields@.len() ==> #[trigger] self.fields@[k] == old_fields[k],
            decreases self.fields.len() - i,
        {
            let old_field = self.fields[i].clone();
            let field = FieldConfig { value: FieldValue::Text(String::new()), ..old_field };
            self.fields.set(i, field);
            i = i + 1;
        }
        self.current_field = 0;
        self.cursor_index = 0;
    }
}

/// A confirmation the client waits for.
#[derive(Clone, Copy, Debug, PartialEq, Eq, Structural)]
pub enum PendingAction {
    DeleteEntry(u128),
    RestoreSnapshot(u128, u32),
}

impl PendingAction {
    /// The question asked before the action.
    pub fn get_prompt_text(&self) -> (res: String)
        ensures
            res@ == match *self {
                PendingAction::DeleteEntry(_) => "Are you sure you want to delete this entry?"@,
                PendingAction::RestoreSnapshot(_, v) => "Warning: Restore snapshot v"@ + decimal(v as nat)
                    + ". This action will overwrite the current state. Continue?"@,
            },
    {
        match self {
            PendingAction::DeleteEntry(_) => String::from_str("Are you sure you want to delete this entry?"),
            PendingAction::RestoreSnapshot(_, version) => {
                let digits = crate::text::decimal_string(*version as u64);
                let a = crate::text::concat_str("Warning: Restore snapshot v", digits.as_str());
                crate::text::concat_str(a.as_str(), ". This action will overwrite the current state. Continue?")
            },
        }
    }
}

/// The mode chosen at menu position `i`.
pub open spec fn mode_at(i: usize) -> GeneratorMode {
    if i == 0 {
        GeneratorMode::RandomChars
    } else {
        GeneratorMode::Passphrase
    }
}

/// The generator settings after reading one field of the generator form:
/// each field changes the setting of its label when its value has the
/// matching kind; the separator takes the first character of its text.
pub open spec fn apply_field(c: GeneratorConfig, f: FieldConfig) -> GeneratorConfig {
    let l = f.label@;
    match f.value {
        FieldValue::Number(n) => if l == "Length"@ {
            GeneratorConfig { length: n as usize, ..c }
        } else if l == "Word Count"@ {
            GeneratorConfig { word_count: n as usize, ..c }
        } else {
            c
        },
        FieldValue::Boolean(b) => if l == "Capitalize"@ {
            GeneratorConfig { capitalize: b, ..c }
        } else if l == "Uppercase"@ {
            GeneratorConfig { uppercase: b, ..c }
        } else if l == "Lowercase"@ {
            GeneratorConfig { lowercase: b, ..c }
        } else if l == "Numbers"@ {
            GeneratorConfig { numbers: b, ..c }
        } else if l == "Symbols"@ {
            GeneratorConfig { symbols: b, ..c }
        } else {
            c
        },
        FieldValue::Choice(i) => if l == "Mode"@ {
            GeneratorConfig { mode: mode_at(i), ..c }
        } else {
            c
        },
        FieldValue::Text(s) => if l == "Separator"@ && s@.len() > 0 {
            GeneratorConfig { separator: s@[0], ..c }
        } else {
            c
        },
    }
}

/// The generator settings after reading the fields in order.
pub open spec fn synced(c: GeneratorConfig, fields: Seq<FieldConfig>) -> GeneratorConfig
    decreases fields.len(),
{
    if fields.len() == 0 {
        c
    } else {
        apply_field(synced(c, fields.drop_last()), fields.last())
    }
}

/// `f` is the separator field showing `sep`.
pub open spec fn is_separator_field(f: FieldConfig, sep: char) -> bool {
    &&& f.label@ == "Separator"@
    &&& f.field_type == FieldType::Text
    &&& !f.is_password && !f.show_password
    &&& f.value matches FieldValue::Text(s) && s@ == seq![sep]
}

/// The fields of the generator screen for the settings `c`: length, mode
/// (the option of `c.mode`), the four class flags, word count and
/// separator. Numbers are shown truncated to 16 bits.
pub open spec fn is_generator_form(fields: Seq<FieldConfig>, c: GeneratorConfig) -> bool {
    &&& fields.len() == 9
    &&& fields[0] == plain_field("Length", FieldType::Number, FieldValue::Number(c.length as u16))
    &&& fields[1] == plain_field(
        "Mode",
        FieldType::Choice(EnumChoice::GeneratorMode),
        FieldValue::Choice(
            match c.mode {
                GeneratorMode::RandomChars => 0,
                GeneratorMode::Passphrase => 1,
            },
        ),
    )
    &&& fields[2] == plain_field("Capitalize", FieldType::Checkbox, FieldValue::Boolean(c.capitalize))
    &&& fields[3] == plain_field("Uppercase", FieldType::Checkbox, FieldValue::Boolean(c.uppercase))
    &&& fields[4] == plain_field("Lowercase", FieldType::Checkbox, FieldValue::Boolean(c.lowercase))
    &&& fields[5] == plain_field("Numbers", FieldType::Checkbox, FieldValue::Boolean(c.numbers))
    &&& fields[6] == plain_field("Symbols", FieldType::Checkbox, FieldValue::Boolean(c.symbols))
    &&& fields[7] == plain_field("Word Count", FieldType::Number, FieldValue::Number(c.word_count as u16))
    &&& is_separator_field(fields[8], c.separator)
}

/// The fields that show the settings `c`: length, mode (its menu
/// position), capitalize, word count, separator and the four class flags.
pub open spec fn is_config_form(fields: Seq<FieldConfig>, c: GeneratorConfig) -> bool {
    &&& fields.len() == 9
    &&& fields[0] == plain_field("Length", FieldType::Number, FieldValue::Number(c.length as u16))
    &&& fields[1] == plain_field(
        "Mode",
        FieldType::Choice(EnumChoice::GeneratorMode),
        FieldValue::Choice(
            match c.mode {
                GeneratorMode::RandomChars => 0,
                GeneratorMode::Passphrase => 1,
            },
        ),
    )
    &&& fields[2] == plain_field("Capitalize", FieldType::Checkbox, FieldValue::Boolean(c.capitalize))
    &&& fields[3] == plain_field("Word Count", FieldType::Number, FieldValue::Number(c.word_count as u16))
    &&& is_separator_field(fields[4], c.separator)
    &&& fields[5] == plain_field("Uppercase", FieldType::Checkbox, FieldValue::Boolean(c.uppercase))
    &&& fields[6] == plain_field("Lowercase", FieldType::Checkbox, FieldValue::Boolean(c.lowercase))
    &&& fields[7] == plain_field("Numbers", FieldType::Checkbox, FieldValue::Boolean(c.numbers))
    &&& fields[8] == plain_field("Symbols", FieldType::Checkbox, FieldValue::Boolean(c.symbols))
}

/// The state of the password-generator screen: the settings of this session
/// and the last password generated.
#[derive(Debug)]
pub struct PasswordGeneratorState {
    pub session_config: GeneratorConfig,
    pub generated_password: Option<String>,
}

impl Default for PasswordGeneratorState {
    fn default() -> (res: Self)
        ensures
            res.session_config == crate::generator::default_generator_config(),
            res.generated_password is None,
    {
        PasswordGeneratorState { session_config: GeneratorConfig::default(), generated_password: None }
    }
}

/// The settings after one field (see `apply_field`).
fn apply_field_exec(c: GeneratorConfig, f: &FieldConfig) -> (res: GeneratorConfig)
    ensures
        res == apply_field(c, *f),
{
    let l = f.label;
    match &f.value {
        FieldValue::Number(n) => {
            if crate::text::same_text(l, "Length") {
                GeneratorConfig { length: *n as usize, ..c }
            } else if crate::text::same_text(l, "Word Count") {
                GeneratorConfig { word_count: *n as usize, ..c }
            } else {
                c
            }
        },
        FieldValue::Boolean(b) => {
            if crate::text::same_text(l, "Capitalize") {
                GeneratorConfig { capitalize: *b, ..c }
            } else if crate::text::same_text(l, "Uppercase") {
                GeneratorConfig { uppercase: *b, ..c }
            } else if crate::text::same_text(l, "Lowercase") {
                GeneratorConfig { lowercase: *b, ..c }
            } else if crate::text::same_text(l, "Numbers") {
                GeneratorConfig { numbers: *b, ..c }
            } else if crate::text::same_text(l, "Symbols") {
                GeneratorConfig { symbols: *b, ..c }
            } else {
                c
            }
        },
        FieldValue::Choice(i) => {
            if crate::text::same_text(l, "Mode") {
                GeneratorConfig { mode: GeneratorMode::from_index(*i), ..c }
            } else {
                c
            }
        },
        FieldValue::Text(s) => {
            if crate::text::same_text(l, "Separator") {
                let chars = chars_of(s.as_str());
                if chars.len() > 0 {
                    GeneratorConfig { separator: chars[0], ..c }
                } else {
                    c
                }
            } else {
                c
            }
        },
    }
}

impl PasswordGeneratorState {
    /// Reads the generator form back into the session settings.
    pub fn sync_config(&mut self, fields: &[FieldConfig])
        ensures
            final(self).session_config == synced(old(self).session_config, fields@),
            final(self).generated_password == old(self).generated_password,
    {
        let ghost start = self.session_config;
        let mut i: usize = 0;
        while i < fields.len()
            invariant
                i <= fields.len(),
                self.session_config == synced(start, fields@.subrange(0, i as int)),
                self.generated_password == old(self).generated_password,
                start == old(self).session_config,
            decreases fields.len() - i,
        {
            proof {
                assert(fields@.subrange(0, i as int + 1).drop_last() =~= fields@.subrange(0, i as int));
            }
            self.session_config = apply_field_exec(self.session_config, &fields[i]);
            i = i + 1;
        }
        assert(fields@.subrange(0, i as int) =~= fields@);
    }

    /// The fields of the generator form for the session settings.
    pub fn build_form_fields(&self) -> (res: Vec<FieldConfig>)
        ensures
            is_generator_form(res@, self.session_config),
    {
        let c = self.session_config;
        let sep = crate::text::char_string(c.separator);
        let mut v: Vec<FieldConfig> = Vec::new();
        v.push(FieldConfig::number("Length", c.length as u16));
        let mode_index: usize = match c.mode {
            GeneratorMode::RandomChars => 0,
            GeneratorMode::Passphrase => 1,
        };
        v.push(FieldConfig { value: FieldValue::Choice(mode_index), ..FieldConfig::choice("Mode", EnumChoice::GeneratorMode) });
        v.push(FieldConfig::checkbox("Capitalize", Some(c.capitalize)));
        v.push(FieldConfig::checkbox("Uppercase", Some(c.uppercase)));
        v.push(FieldConfig::checkbox("Lowercase", Some(c.lowercase)));
        v.push(FieldConfig::checkbox("Numbers", Some(c.numbers)));
        v.push(FieldConfig::checkbox("Symbols", Some(c.symbols)));
        v.push(FieldConfig::number("Word Count", c.word_count as u16));
        v.push(FieldConfig::text("Separator", sep.as_str()));
        v
    }

    /// Generates a secret with the session settings and keeps it as the last
    /// generated password; on failure the message of the generator.
    pub fn generate_password(&mut self, wordlist: &Vec<String>) -> (res: Result<String, String>)
        requires
            old(self).session_config.mode == GeneratorMode::Passphrase && old(self).session_config.word_count
                > 0 ==> wordlist.len() > 0,
        ensures
            final(self).session_config == old(self).session_config,
            res matches Ok(p) ==> final(self).generated_password == Some(p) && crate::generator::is_generated(
                old(self).session_config,
                wordlist@,
                p@,
            ),
            res is Err ==> final(self).generated_password == old(self).generated_password,
            res is Err <==> !crate::daemon::generate_spec_ok(old(self).session_config),
            res matches Err(m) ==> m@ == crate::generator::generation_error(old(self).session_config),
    {
        match generate(self.session_config, wordlist) {
            Ok(pwd) => {
                self.generated_password = Some(pwd.clone());
                Ok(pwd)
            },
            Err(e) => Err(String::from_str(e)),
        }
    }
}

impl FieldConfig {
    /// The fields that show generator settings, in the order length, mode,
    /// capitalize, word count, separator, uppercase, lowercase, numbers,
    /// symbols.
    pub fn from_config(config: &GeneratorConfig) -> (res: Vec<FieldConfig>)
        ensures
            is_config_form(res@, *config),
    {
        let mode_index: usize = match config.mode {
            GeneratorMode::RandomChars => 0,
            GeneratorMode::Passphrase => 1,
        };
        let mut v: Vec<FieldConfig> = Vec::new();
        v.push(FieldConfig::number("Length", config.length as u16));
        v.push(FieldConfig {
            label: "Mode",
            is_password: false,
            show_password: false,
            field_type: FieldType::Choice(EnumChoice::GeneratorMode),
            value: FieldValue::Choice(mode_index),
        });
        v.push(FieldConfig::checkbox("Capitalize", Some(config.capitalize)));
        v.push(FieldConfig::number("Word Count", config.word_count as u16));
        v.push(FieldConfig::text("Separator", crate::text::char_string(config.separator).as_str()));
        v.push(FieldConfig::checkbox("Uppercase", Some(config.uppercase)));
        v.push(FieldConfig::checkbox("Lowercase", Some(config.lowercase)));
        v.push(FieldConfig::checkbox("Numbers", Some(config.numbers)));
        v.push(FieldConfig::checkbox("Symbols", Some(config.symbols)));
        v
    }
}

/// The labels of the generator form are distinct texts.
proof fn lemma_labels()
    ensures
        "Length"@ != "Word Count"@ && "Length"@ != "Mode"@ && "Length"@ != "Capitalize"@,
        "Capitalize"@ != "Uppercase"@ && "Capitalize"@ != "Lowercase"@ && "Capitalize"@ != "Numbers"@
            && "Capitalize"@ != "Symbols"@,
        "Uppercase"@ != "Lowercase"@ && "Uppercase"@ != "Numbers"@ && "Uppercase"@ != "Symbols"@,
        "Lowercase"@ != "Numbers"@ && "Lowercase"@ != "Symbols"@ && "Numbers"@ != "Symbols"@,
        "Word Count"@ != "Mode"@ && "Separator"@ != "Mode"@,
        "Length"@ != "Uppercase"@ && "Length"@ != "Lowercase"@ && "Length"@ != "Numbers"@
            && "Length"@ != "Symbols"@ && "Length"@ != "Separator"@,
        "Word Count"@ != "Uppercase"@ && "Word Count"@ != "Lowercase"@ && "Word Count"@ != "Numbers"@
            && "Word Count"@ != "Symbols"@ && "Word Count"@ != "Capitalize"@ && "Word Count"@ != "Separator"@,
        "Mode"@ != "Capitalize"@ && "Mode"@ != "Uppercase"@ && "Mode"@ != "Lowercase"@ && "Mode"@ != "Numbers"@
            && "Mode"@ != "Symbols"@,
        "Separator"@ != "Capitalize"@ && "Separator"@ != "Uppercase"@ && "Separator"@ != "Lowercase"@
            && "Separator"@ != "Numbers"@ && "Separator"@ != "Symbols"@,
{
    reveal_strlit("Length");
    reveal_strlit("Word Count");
    reveal_strlit("Mode");
    reveal_strlit("Capitalize");
    reveal_strlit("Uppercase");
    reveal_strlit("Lowercase");
    reveal_strlit("Numbers");
    reveal_strlit("Symbols");
    reveal_strlit("Separator");
    assert("Length"@[0] != "Word Count"@[0]);
    assert("Length"@[0] != "Mode"@[0]);
    assert("Length"@[0] != "Capitalize"@[0]);
    assert("Capitalize"@[0] != "Uppercase"@[0]);
    assert("Capitalize"@[0] != "Lowercase"@[0]);
    assert("Capitalize"@[0] != "Numbers"@[0]);
    assert("Capitalize"@[0] != "Symbols"@[0]);
    assert("Uppercase"@[0] != "Lowercase"@[0]);
    assert("Uppercase"@[0] != "Numbers"@[0]);
    assert("Uppercase"@[0] != "Symbols"@[0]);
    assert("Lowercase"@[0] != "Numbers"@[0]);
    assert("Lowercase"@[0] != "Symbols"@[0]);
    assert("Numbers"@[0] != "Symbols"@[0]);
    assert("Word Count"@[0] != "Mode"@[0]);
    assert("Separator"@[0] != "Mode"@[0]);
    assert("Length"@[0] != "Uppercase"@[0]);
    assert("Length"@[0] != "Lowercase"@[0] || "Length"@[1] != "Lowercase"@[1]);
    assert("Length"@[0] != "Numbers"@[0]);
    assert("Length"@[0] != "Symbols"@[0]);
    assert("Length"@[0] != "Separator"@[0]);
    assert("Word Count"@[0] != "Uppercase"@[0]);
    assert("Word Count"@[0] != "Lowercase"@[0]);
    assert("Word Count"@[0] != "Numbers"@[0]);
    assert("Word Count"@[0] != "Symbols"@[0]);
    assert("Word Count"@[0] != "Capitalize"@[0]);
    assert("Word Count"@[0] != "Separator"@[0]);
    assert("Mode"@[0] != "Capitalize"@[0]);
    assert("Mode"@[0] != "Uppercase"@[0]);
    assert("Mode"@[0] != "Lowercase"@[0]);
    assert("Mode"@[0] != "Numbers"@[0]);
    assert("Mode"@[0] != "Symbols"@[0]);
    assert("Separator"@[0] != "Capitalize"@[0]);
    assert("Separator"@[0] != "Uppercase"@[0]);
    assert("Separator"@[0] != "Lowercase"@[0]);
    assert("Separator"@[0] != "Numbers"@[0]);
    assert("Separator"@[1] != "Symbols"@[1]);
}

/// Reading back the fields that show the settings `c` gives `c` again,
/// whatever the settings were before, when the length and word count fit the
/// 16-bit number fields.
pub proof fn law_config_form_roundtrip(start: GeneratorConfig, fields: Seq<FieldConfig>, c: GeneratorConfig)
    requires
        is_config_form(fields, c),
        c.length < 0x1_0000,
        c.word_count < 0x1_0000,
    ensures
        synced(start, fields) == c,
{
    lemma_labels();
    reveal_with_fuel(synced, 10);
    assert(fields.drop_last().drop_last().drop_last().drop_last().drop_last().drop_last().drop_last().drop_last().drop_last() =~= Seq::<FieldConfig>::empty());
    assert(c.length as u16 as usize == c.length);
    assert(c.word_count as u16 as usize == c.word_count);
}

/// Reading back the generator screen's fields gives the settings `c` again
/// when its numbers fit 16 bits (the form shows them as 16-bit numbers).
pub proof fn law_generator_form_roundtrip(start: GeneratorConfig, fields: Seq<FieldConfig>, c: GeneratorConfig)
    requires
        is_generator_form(fields, c),
        c.length < 0x1_0000,
        c.word_count < 0x1_0000,
    ensures
        synced(start, fields) == c,
{
    lemma_labels();
    reveal_with_fuel(synced, 10);
    assert(fields.drop_last().drop_last().drop_last().drop_last().drop_last().drop_last().drop_last().drop_last().drop_last() =~= Seq::<FieldConfig>::empty());
    assert(c.length as u16 as usize == c.length);
    assert(c.word_count as u16 as usize == c.word_count);
}

/// Largest length or word count the generator screen accepts.
pub const MAX_PASSWORD_LENGTH: u16 = 999;

/// `f` holding the value `v`.
pub open spec fn with_value(f: FieldConfig, v: FieldValue) -> FieldConfig {
    FieldConfig { value: v, ..f }
}

/// Why a typed digit was not taken into a number field.
#[derive(Clone, Copy, Debug, PartialEq, Eq, Structural)]
pub enum DigitRejected {
    /// The number would exceed the largest accepted value.
    LimitReached,
    /// The number would not fit 16 bits.
    TooLarge,
}

impl DigitRejected {
    /// The status message shown for the rejection.
    pub fn message(&self) -> (res: &'static str)
        ensures
            res@ == match *self {
                DigitRejected::LimitReached => "Limite máximo atingido!"@,
                DigitRejected::TooLarge => "Número muito grande!"@,
            },
    {
        match self {
            DigitRejected::LimitReached => "Limite máximo atingido!",
            DigitRejected::TooLarge => "Número muito grande!",
        }
    }
}

/// Appends the decimal digit `digit` to `num`, when the result stays within
/// 16 bits and at most `MAX_PASSWORD_LENGTH`.
pub fn push_digit(num: u16, digit: u16) -> (res: Result<u16, DigitRejected>)
    requires
        digit < 10,
    ensures
        num * 10 + digit > 0xFFFF ==> res == Err::<u16, DigitRejected>(DigitRejected::TooLarge),
        num * 10 + digit <= 0xFFFF && num * 10 + digit > MAX_PASSWORD_LENGTH ==> res == Err::<u16, DigitRejected>(
            DigitRejected::LimitReached,
        ),
        num * 10 + digit <= MAX_PASSWORD_LENGTH ==> res == Ok::<u16, DigitRejected>((num * 10 + digit) as u16),
{
    match num.checked_mul(10) {
        Some(m) => match m.checked_add(digit) {
            Some(v) => {
                if v <= MAX_PASSWORD_LENGTH {
                    Ok(v)
                } else {
                    Err(DigitRejected::LimitReached)
                }
            },
            None => Err(DigitRejected::TooLarge),
        },
        None => Err(DigitRejected::TooLarge),
    }
}

impl FormState {
    /// The text of the field being edited, if it is a text field.
    pub open spec fn current_text(&self) -> Option<Seq<char>> {
        if self.current_field < self.fields@.len() {
            match self.fields@[self.current_field as int].value {
                FieldValue::Text(t) => Some(t@),
                _ => None,
            }
        } else {
            None
        }
    }

    /// Replaces the value of the field being edited.
    fn set_current_value(&mut self, v: FieldValue)
        requires
            old(self).current_field < old(self).fields@.len(),
        ensures
            final(self).fields@ == old(self).fields@.update(
                old(self).current_field as int,
                with_value(old(self).fields@[old(self).current_field as int], v),
            ),
            final(self).current_field == old(self).current_field,
            final(self).cursor_index == old(self).cursor_index,
            final(self).obscure_inputs == old(self).obscure_inputs,
    {
        let f = self.fields[self.current_field].clone();
        self.fields.set(self.current_field, FieldConfig { value: v, ..f });
    }

    /// The text of field `index`, or the empty text for a missing or
    /// non-text field.
    pub fn get_input_for_field(&self, index: usize) -> (res: &str)
        ensures
            index < self.fields@.len() && self.fields@[index as int].value is Text ==> res@
                == self.fields@[index as int].value->Text_0@,
            !(index < self.fields@.len() && self.fields@[index as int].value is Text) ==> res@ == ""@,
    {
        if index < self.fields.len() {
            match &self.fields[index].value {
                FieldValue::Text(text) => text.as_str(),
                _ => "",
            }
        } else {
            ""
        }
    }

    /// Inserts `c` at the cursor (at the end when the cursor is past it) in
    /// the text field being edited and moves the cursor past it.
    pub fn insert_char(&mut self, c: char)
        requires
            old(self).current_text() is Some ==> old(self).cursor_index < usize::MAX,
        ensures
            inserted(*old(self), *final(self), c),
    {
        if self.current_field < self.fields.len() {
            let text = match &self.fields[self.current_field].value {
                FieldValue::Text(t) => t.clone(),
                _ => return,
            };
            let mut chars = chars_of(text.as_str());
            let pos = if self.cursor_index <= chars.len() {
                self.cursor_index
            } else {
                chars.len()
            };
            chars.insert(pos, c);
            let new_text = string_from_chars(&chars);
            self.set_current_value(FieldValue::Text(new_text));
            self.cursor_index = self.cursor_index + 1;
        }
    }

    /// Deletes the character before the cursor in the text field being
    /// edited and moves the cursor back, when the cursor is inside the text.
    pub fn backspace(&mut self)
        ensures
            backspaced(*old(self), *final(self)),
    {
        if self.current_field < self.fields.len() {
            let text = match &self.fields[self.current_field].value {
                FieldValue::Text(t) => t.clone(),
                _ => return,
            };
            let mut chars = chars_of(text.as_str());
            let cursor = self.cursor_index;
            if cursor > 0 && cursor <= chars.len() {
                chars.remove(cursor - 1);
                let new_text = string_from_chars(&chars);
                self.set_current_value(FieldValue::Text(new_text));
                self.cursor_index = cursor - 1;
            }
        }
    }

    /// Deletes the character under the cursor in the text field being
    /// edited, when there is one.
    pub fn delete_char(&mut self)
        ensures
            deleted(*old(self), *final(self)),
    {
        if self.current_field < self.fields.len() {
            let text = match &self.fields[self.current_field].value {
                FieldValue::Text(t) => t.clone(),
                _ => return,
            };
            let mut chars = chars_of(text.as_str());
            if self.cursor_index < chars.len() {
                chars.remove(self.cursor_index);
                let new_text = string_from_chars(&chars);
                self.set_current_value(FieldValue::Text(new_text));
            }
        }
    }

    /// Moves the cursor one position left, unless it is at the start.
    pub fn cursor_left(&mut self)
        ensures
            moved_left(*old(self), *final(self)),
    {
        if self.cursor_index > 0 {
            self.cursor_index = self.cursor_index - 1;
        }
    }

    /// Moves the cursor one position right while it is before the end (in
    /// bytes) of the text field being edited.
    pub fn cursor_right(&mut self)
        ensures
            moved_right(*old(self), *final(self)),
    {
        if self.current_field < self.fields.len() {
            match &self.fields[self.current_field].value {
                FieldValue::Text(t) => {
                    let n = t.as_str().len();
                    assert(n == crate::text::byte_len(t@));
                    if self.cursor_index < n {
                        self.cursor_index = self.cursor_index + 1;
                    }
                },
                _ => {},
            }
        }
    }

    /// Moves to the next field, wrapping around, and puts the cursor at the
    /// start when `reset_cursor` holds.
    pub fn next_field(&mut self, reset_cursor: bool)
        requires
            old(self).fields@.len() > 0,
            old(self).current_field < usize::MAX,
        ensures
            went_next(*old(self), *final(self), reset_cursor),
    {
        self.current_field = (self.current_field + 1) % self.fields.len();
        if reset_cursor {
            self.cursor_index = 0;
        }
    }

    /// Moves to the previous field, wrapping from the first to the last, and
    /// puts the cursor at the start when `reset_cursor` holds.
    pub fn prev_field(&mut self, reset_cursor: bool)
        requires
            old(self).fields@.len() > 0,
        ensures
            went_prev(*old(self), *final(self), reset_cursor),
    {
        if self.current_field == 0 {
            self.current_field = self.fields.len() - 1;
        } else {
            self.current_field = self.current_field - 1;
        }
        if reset_cursor {
            self.cursor_index = 0;
        }
    }

    /// Flips whether each field shows its password.
    pub fn toggle_show_password(&mut self)
        ensures
            toggled_shown(*old(self), *final(self)),
    {
        let ghost start = self.fields@;
        let mut i: usize = 0;
        while i < self.fields.len()
            invariant
                i <= self.fields.len(),
                self.fields@.len() == start.len(),
                start == old(self).fields@,
                self.current_field == old(self).current_field,
                self.cursor_index == old(self).cursor_index,
                self.obscure_inputs == old(self).obscure_inputs,
                forall|k: int|
                    0 <= k < i ==> #[trigger] self.fields@[k] == (FieldConfig {
                        show_password: !start[k].show_password,
                        ..start[k]
                    }),
                forall|k: int| i <= k < start.len() ==> #[trigger] self.fields@[k] == start[k],
            decreases self.fields.len() - i,
        {
            let f = self.fields[i].clone();
            let flipped = FieldConfig { show_password: !f.show_password, ..f };
            self.fields.set(i, flipped);
            i = i + 1;
        }
    }

    /// The generator screen's "increase": flips a checkbox, moves a menu to
    /// its next option (wrapping), moves the cursor right in a text, and
    /// raises a number by one up to `MAX_PASSWORD_LENGTH`.
    pub fn increase_value(&mut self)
        requires
            old(self).current_field < old(self).fields@.len() ==> (old(self).fields@[old(
                self,
            ).current_field as int].value matches FieldValue::Choice(i) ==> i < usize::MAX),
        ensures
            increased(*old(self), *final(self)),
    {
        if self.current_field >= self.fields.len() {
            return;
        }
        let f = self.fields[self.current_field].clone();
        match f.value {
            FieldValue::Boolean(b) => self.set_current_value(FieldValue::Boolean(!b)),
            FieldValue::Choice(idx) => {
                if let FieldType::Choice(menu) = f.field_type {
                    let max_options = menu.options().len();
                    self.set_current_value(FieldValue::Choice((idx + 1) % max_options));
                }
            },
            FieldValue::Text(t) => {
                if self.cursor_index < t.as_str().len() {
                    self.cursor_index = self.cursor_index + 1;
                }
            },
            FieldValue::Number(n) => {
                if n < MAX_PASSWORD_LENGTH {
                    self.set_current_value(FieldValue::Number(n + 1));
                }
            },
        }
    }

    /// The generator screen's "decrease": flips a checkbox, moves a menu to
    /// its previous option (wrapping), moves the cursor left in a non-empty
    /// text, and lowers a number by one down to 0.
    pub fn decrease_value(&mut self)
        requires
            old(self).current_field < old(self).fields@.len() ==> (old(self).fields@[old(
                self,
            ).current_field as int].value matches FieldValue::Choice(i) ==> i < usize::MAX - 1),
        ensures
            decreased(*old(self), *final(self)),
    {
        if self.current_field >= self.fields.len() {
            return;
        }
        let f = self.fields[self.current_field].clone();
        match f.value {
            FieldValue::Boolean(b) => self.set_current_value(FieldValue::Boolean(!b)),
            FieldValue::Choice(idx) => {
                if let FieldType::Choice(menu) = f.field_type {
                    let max_options = menu.options().len();
                    self.set_current_value(FieldValue::Choice((idx + max_options - 1) % max_options));
                }
            },
            FieldValue::Text(t) => {
                if t.as_str().unicode_len() > 0 && self.cursor_index > 0 {
                    self.cursor_index = self.cursor_index - 1;
                }
            },
            FieldValue::Number(n) => {
                if n > 0 {
                    self.set_current_value(FieldValue::Number(n - 1));
                }
            },
        }
    }

    /// The generator screen's typing into a number field: a decimal digit is
    /// appended when the number stays within `MAX_PASSWORD_LENGTH`; returns
    /// why it was not. Other characters and other fields change nothing.
    pub fn type_digit(&mut self, c: char) -> (res: Result<(), DigitRejected>)
        ensures
            typed_digit(*old(self), *final(self), c, res),
    {
        if self.current_field >= self.fields.len() {
            return Ok(());
        }
        let n = match &self.fields[self.current_field].value {
            FieldValue::Number(n) => *n,
            _ => return Ok(()),
        };
        if !('0' <= c && c <= '9') {
            return Ok(());
        }
        let digit: u16 = (c as u32 - '0' as u32) as u16;
        match push_digit(n, digit) {
            Ok(v) => {
                self.set_current_value(FieldValue::Number(v));
                Ok(())
            },
            Err(e) => Err(e),
        }
    }
}

/// The number left after deleting, from its decimal text, the digit before
/// the cursor; 0 when the number has a single digit or the cursor is at the
/// start.
pub open spec fn digit_removed(num: u16, cursor: usize) -> nat {
    let s = decimal(num as nat);
    if s.len() > 1 && cursor > 0 {
        crate::text::digits_value(s.remove(cursor - 1))
    } else {
        0
    }
}

/// The value of a string of at most four decimal digits.
fn value_of_digits(chars: &Vec<char>) -> (res: u16)
    requires
        crate::text::all_digits(chars@),
        chars@.len() <= 4,
    ensures
        res == crate::text::digits_value(chars@),
{
    let mut v: u32 = 0;
    let mut i: usize = 0;
    while i < chars.len()
        invariant
            i <= chars.len(),
            chars@.len() <= 4,
            crate::text::all_digits(chars@),
            v == crate::text::digits_value(chars@.subrange(0, i as int)),
            v < 10000,
        decreases chars.len() - i,
    {
        let ghost prefix = chars@.subrange(0, i as int + 1);
        proof {
            assert(prefix.drop_last() =~= chars@.subrange(0, i as int));
            assert(crate::text::all_digits(prefix));
            crate::text::lemma_digits_value_bound(prefix);
        }
        let c = chars[i];
        v = v * 10 + (c as u32 - '0' as u32);
        i = i + 1;
    }
    assert(chars@.subrange(0, i as int) =~= chars@);
    v as u16
}

impl FormState {
    /// The generator screen's backspace in a number field: deletes the digit
    /// before the cursor from the number's decimal text (see
    /// `digit_removed`).
    pub fn remove_digit(&mut self)
        requires
            old(self).current_field < old(self).fields@.len() && old(self).fields@[old(
                self,
            ).current_field as int].value is Number ==> ({
                let s = decimal(old(self).fields@[old(self).current_field as int].value->Number_0 as nat);
                s.len() > 1 && old(self).cursor_index > 0 ==> old(self).cursor_index - 1 < s.len()
            }),
        ensures
            removed_digit(*old(self), *final(self)),
    {
        if self.current_field >= self.fields.len() {
            return;
        }
        let n = match &self.fields[self.current_field].value {
            FieldValue::Number(n) => *n,
            _ => return,
        };
        let text = crate::text::decimal_string(n as u64);
        let mut chars = chars_of(text.as_str());
        proof {
            crate::text::lemma_decimal_digits(n as nat);
        }
        let cursor = self.cursor_index;
        if chars.len() > 1 && cursor > 0 {
            let ghost before = chars@;
            chars.remove(cursor - 1);
            proof {
                assert forall|i: int| 0 <= i < chars@.len() implies '0' <= #[trigger] chars@[i] <= '9' by {
                    if i < cursor - 1 {
                        assert(chars@[i] == before[i]);
                    } else {
                        assert(chars@[i] == before[i + 1]);
                    }
                }
            }
            let v = value_of_digits(&chars);
            self.set_current_value(FieldValue::Number(v));
        } else {
            self.set_current_value(FieldValue::Number(0));
        }
    }
}

/// Every field of `a` emptied (each becomes an empty text, keeping its label,
/// kind and flags), with the first field selected and the cursor at the
/// start.
pub open spec fn cleared(a: FormState, b: FormState) -> bool {
    &&& b.fields@.len() == a.fields@.len()
    &&& forall|i: int|
        0 <= i < b.fields@.len() ==> ({
            let f = #[trigger] b.fields@[i];
            let g = a.fields@[i];
            &&& empty_text(f.value)
            &&& f.label == g.label && f.is_password == g.is_password
            &&& f.show_password == g.show_password && f.field_type == g.field_type
        })
    &&& b.current_field == 0
    &&& b.cursor_index == 0
    &&& b.obscure_inputs == a.obscure_inputs
}

/// `b` is `a` after typing `c` into the text field being edited.
pub open spec fn inserted(a: FormState, b: FormState, c: char) -> bool {
    &&& b.current_field == a.current_field
    &&& b.obscure_inputs == a.obscure_inputs
    &&& a.current_text() matches Some(t) ==> ({
        let pos = if a.cursor_index <= t.len() {
            a.cursor_index as int
        } else {
            t.len() as int
        };
        &&& b.current_text() == Some(t.insert(pos, c))
        &&& b.fields@.len() == a.fields@.len()
        &&& forall|i: int|
            0 <= i < a.fields@.len() && i != a.current_field ==> b.fields@[i]
                == a.fields@[i]
        &&& b.fields@[a.current_field as int].label == a.fields@[a.current_field as int].label
        &&& b.cursor_index == a.cursor_index + 1
    })
    &&& a.current_text() is None ==> b.fields@ == a.fields@
        && b.cursor_index == a.cursor_index
}

/// `b` is `a` after deleting the character before the cursor.
pub open spec fn backspaced(a: FormState, b: FormState) -> bool {
    &&& b.current_field == a.current_field
    &&& b.obscure_inputs == a.obscure_inputs
    &&& b.fields@.len() == a.fields@.len()
    &&& match a.current_text() {
        Some(t) => if 0 < a.cursor_index <= t.len() {
            &&& b.current_text() == Some(t.remove(a.cursor_index - 1))
            &&& forall|i: int|
                0 <= i < a.fields@.len() && i != a.current_field ==> b.fields@[i]
                    == a.fields@[i]
            &&& b.cursor_index == a.cursor_index - 1
        } else {
            b.fields@ == a.fields@ && b.cursor_index == a.cursor_index
        },
        None => b.fields@ == a.fields@ && b.cursor_index
            == a.cursor_index,
    }
}

/// `b` is `a` after deleting the character under the cursor.
pub open spec fn deleted(a: FormState, b: FormState) -> bool {
    &&& b.current_field == a.current_field
    &&& b.cursor_index == a.cursor_index
    &&& b.obscure_inputs == a.obscure_inputs
    &&& b.fields@.len() == a.fields@.len()
    &&& match a.current_text() {
        Some(t) => if a.cursor_index < t.len() {
            &&& b.current_text() == Some(t.remove(a.cursor_index as int))
            &&& forall|i: int|
                0 <= i < a.fields@.len() && i != a.current_field ==> b.fields@[i]
                    == a.fields@[i]
        } else {
            b.fields@ == a.fields@
        },
        None => b.fields@ == a.fields@,
    }
}

/// `b` is `a` with the cursor moved one position left.
pub open spec fn moved_left(a: FormState, b: FormState) -> bool {
    &&& b.fields@ == a.fields@
    &&& b.current_field == a.current_field
    &&& b.obscure_inputs == a.obscure_inputs
    &&& b.cursor_index == if a.cursor_index > 0 {
        (a.cursor_index - 1) as usize
    } else {
        0
    }
}

/// `b` is `a` with the cursor moved one position right.
pub open spec fn moved_right(a: FormState, b: FormState) -> bool {
    &&& b.fields@ == a.fields@
    &&& b.current_field == a.current_field
    &&& b.obscure_inputs == a.obscure_inputs
    &&& b.cursor_index == if a.current_field < a.fields@.len() && (a.fields@[a.current_field as int].value matches FieldValue::Text(t)
        && a.cursor_index < crate::text::byte_len(t@)) {
        (a.cursor_index + 1) as usize
    } else {
        a.cursor_index
    }
}

/// `b` is `a` with the next field selected.
pub open spec fn went_next(a: FormState, b: FormState, reset_cursor: bool) -> bool {
    &&& b.fields@ == a.fields@
    &&& b.obscure_inputs == a.obscure_inputs
    &&& b.current_field == (a.current_field + 1) % (a.fields@.len() as int)
    &&& b.cursor_index == if reset_cursor {
        0
    } else {
        a.cursor_index
    }
}

/// `b` is `a` with the previous field selected.
pub open spec fn went_prev(a: FormState, b: FormState, reset_cursor: bool) -> bool {
    &&& b.fields@ == a.fields@
    &&& b.obscure_inputs == a.obscure_inputs
    &&& b.current_field == if a.current_field == 0 {
        (a.fields@.len() - 1) as usize
    } else {
        (a.current_field - 1) as usize
    }
    &&& b.cursor_index == if reset_cursor {
        0
    } else {
        a.cursor_index
    }
}

/// `b` is `a` with the password visibility of every field flipped.
pub open spec fn toggled_shown(a: FormState, b: FormState) -> bool {
    &&& b.fields@.len() == a.fields@.len()
    &&& forall|i: int|
        0 <= i < b.fields@.len() ==> #[trigger] b.fields@[i] == (FieldConfig {
            show_password: !a.fields@[i].show_password,
            ..a.fields@[i]
        })
    &&& b.current_field == a.current_field
    &&& b.cursor_index == a.cursor_index
    &&& b.obscure_inputs == a.obscure_inputs
}

/// `b` is `a` after the generator screen's "increase".
pub open spec fn increased(a: FormState, b: FormState) -> bool {
    &&& b.fields@.len() == a.fields@.len()
    &&& b.current_field == a.current_field
    &&& b.obscure_inputs == a.obscure_inputs
    &&& a.current_field >= a.fields@.len() ==> b.fields@ == a.fields@
        && b.cursor_index == a.cursor_index
    &&& a.current_field < a.fields@.len() ==> ({
        let k = a.current_field as int;
        let f = a.fields@[k];
        match f.value {
            FieldValue::Boolean(flag) => b.fields@ == a.fields@.update(
                k,
                with_value(f, FieldValue::Boolean(!flag)),
            ) && b.cursor_index == a.cursor_index,
            FieldValue::Choice(i) => b.cursor_index == a.cursor_index && if f.field_type
                is Choice {
                b.fields@ == a.fields@.update(
                    k,
                    with_value(f, FieldValue::Choice(((i + 1) % 2) as usize)),
                )
            } else {
                b.fields@ == a.fields@
            },
            FieldValue::Text(t) => b.fields@ == a.fields@ && b.cursor_index
                == if a.cursor_index < crate::text::byte_len(t@) {
                (a.cursor_index + 1) as usize
            } else {
                a.cursor_index
            },
            FieldValue::Number(n) => b.cursor_index == a.cursor_index && if n
                < MAX_PASSWORD_LENGTH {
                b.fields@ == a.fields@.update(
                    k,
                    with_value(f, FieldValue::Number((n + 1) as u16)),
                )
            } else {
                b.fields@ == a.fields@
            },
        }
    })
}

/// `b` is `a` after the generator screen's "decrease".
pub open spec fn decreased(a: FormState, b: FormState) -> bool {
    &&& b.fields@.len() == a.fields@.len()
    &&& b.current_field == a.current_field
    &&& b.obscure_inputs == a.obscure_inputs
    &&& a.current_field >= a.fields@.len() ==> b.fields@ == a.fields@
        && b.cursor_index == a.cursor_index
    &&& a.current_field < a.fields@.len() ==> ({
        let k = a.current_field as int;
        let f = a.fields@[k];
        match f.value {
            FieldValue::Boolean(flag) => b.fields@ == a.fields@.update(
                k,
                with_value(f, FieldValue::Boolean(!flag)),
            ) && b.cursor_index == a.cursor_index,
            FieldValue::Choice(i) => b.cursor_index == a.cursor_index && if f.field_type
                is Choice {
                b.fields@ == a.fields@.update(
                    k,
                    with_value(f, FieldValue::Choice(((i + 2 - 1) % 2) as usize)),
                )
            } else {
                b.fields@ == a.fields@
            },
            FieldValue::Text(t) => b.fields@ == a.fields@ && b.cursor_index
                == if t@.len() > 0 && a.cursor_index > 0 {
                (a.cursor_index - 1) as usize
            } else {
                a.cursor_index
            },
            FieldValue::Number(n) => b.cursor_index == a.cursor_index && if n > 0 {
                b.fields@ == a.fields@.update(
                    k,
                    with_value(f, FieldValue::Number((n - 1) as u16)),
                )
            } else {
                b.fields@ == a.fields@
            },
        }
    })
}

/// `b` is `a` after typing `c` on the generator screen, with outcome `res`.
pub open spec fn typed_digit(a: FormState, b: FormState, c: char, res: Result<(), DigitRejected>) -> bool {
    &&& b.fields@.len() == a.fields@.len()
    &&& b.current_field == a.current_field
    &&& b.cursor_index == a.cursor_index
    &&& b.obscure_inputs == a.obscure_inputs
    &&& ({
        let k = a.current_field as int;
        if a.current_field < a.fields@.len() && (a.fields@[k].value is Number)
            && '0' <= c <= '9' {
            let n = a.fields@[k].value->Number_0;
            let v = n * 10 + ((c as u32) - ('0' as u32));
            if v <= MAX_PASSWORD_LENGTH {
                res is Ok && b.fields@ == a.fields@.update(
                    k,
                    with_value(a.fields@[k], FieldValue::Number(v as u16)),
                )
            } else if v <= 0xFFFF {
                res == Err::<(), DigitRejected>(DigitRejected::LimitReached) && b.fields@
                    == a.fields@
            } else {
                res == Err::<(), DigitRejected>(DigitRejected::TooLarge) && b.fields@
                    == a.fields@
            }
        } else {
            res is Ok && b.fields@ == a.fields@
        }
    })
}

/// `b` is `a` after the generator screen's backspace.
pub open spec fn removed_digit(a: FormState, b: FormState) -> bool {
    &&& b.current_field == a.current_field
    &&& b.cursor_index == a.cursor_index
    &&& b.obscure_inputs == a.obscure_inputs
    &&& a.current_field < a.fields@.len() && a.fields@[a.current_field as int].value is Number ==> ({
        let k = a.current_field as int;
        let n = a.fields@[k].value->Number_0;
        b.fields@ == a.fields@.update(
            k,
            with_value(a.fields@[k], FieldValue::Number(digit_removed(n, a.cursor_index) as u16)),
        )
    })
    &&& !(a.current_field < a.fields@.len() && a.fields@[a.current_field as int].value is Number) ==> b.fields@ == a.fields@
}

} // verus!

verus! {

/// On the generator screen a menu field moves forward with "increase" and
/// back with "decrease": the index stays among the menu's two options, and
/// "increase" then "decrease" gives back the form as it was.
pub proof fn law_menu_forward_then_back(f: FormState, g: FormState, h: FormState)
    requires
        f.current_field < f.fields@.len(),
        f.fields@[f.current_field as int].field_type is Choice,
        f.fields@[f.current_field as int].value matches FieldValue::Choice(i) && i < 2,
        increased(f, g),
        decreased(g, h),
    ensures
        g.fields@[f.current_field as int].value matches FieldValue::Choice(j) && j < 2,
        h.fields@ == f.fields@,
        h.current_field == f.current_field,
{
    let k = f.current_field as int;
    let i = f.fields@[k].value->Choice_0;
    assert(g.fields@[k] == with_value(f.fields@[k], FieldValue::Choice(((i + 1) % 2) as usize)));
    let j = ((i + 1) % 2) as usize;
    assert(((j + 2 - 1) % 2) as usize == i);
    assert(h.fields@ =~= f.fields@);
}

} // verus!

verus! {

/// Deleting a digit from a number's decimal text never makes the number
/// larger.
pub proof fn lemma_digit_removed_not_larger(n: u16, cursor: usize)
    requires
        ({
            let s = decimal(n as nat);
            s.len() > 1 && cursor > 0 ==> cursor - 1 < s.len()
        }),
    ensures
        digit_removed(n, cursor) <= n,
{
    let s = decimal(n as nat);
    crate::text::lemma_decimal_digits(n as nat);
    if s.len() > 1 && cursor > 0 {
        let t = s.remove(cursor - 1);
        assert(crate::text::all_digits(t)) by {
            assert forall|i: int| 0 <= i < t.len() implies '0' <= #[trigger] t[i] <= '9' by {
                if i < cursor - 1 {
                    assert(t[i] == s[i]);
                } else {
                    assert(t[i] == s[i + 1]);
                }
            }
        }
        crate::text::lemma_digits_value_bound(t);
        if n < 10 {
            assert(s.len() == 1);
        }
    }
}

} // verus!
