use blackout::generator::{GeneratorConfig, GeneratorMode};
use blackout::state::{
    push_digit, DigitRejected, EnumChoice, FieldConfig, FieldType, FieldValue, FormState, PasswordGeneratorState,
    PendingAction, SettingsOption,
};

fn text_of(f: &FieldConfig) -> String {
    match &f.value {
        FieldValue::Text(t) => t.clone(),
        _ => panic!("not a text field"),
    }
}

#[test]
fn field_constructors() {
    let p = FieldConfig::password("Password");
    assert!(p.is_password);
    assert_eq!(p.field_type, FieldType::Password);
    assert_eq!(text_of(&p), "");
    let t = FieldConfig::text("Service", "mail");
    assert_eq!(text_of(&t), "mail");
    assert!(matches!(FieldConfig::number("Length", 12).value, FieldValue::Number(12)));
    assert!(matches!(FieldConfig::choice("Mode", EnumChoice::GeneratorMode).value, FieldValue::Choice(0)));
    assert!(matches!(FieldConfig::checkbox("Numbers", Some(true)).value, FieldValue::Boolean(true)));
    assert!(matches!(FieldConfig::checkbox("Numbers", None).value, FieldValue::Choice(0)));
    assert_eq!(FieldConfig::service("S").field_type, FieldType::Service);
    assert_eq!(FieldConfig::username("U").field_type, FieldType::Username);
}

#[test]
fn menus_and_prompts() {
    assert_eq!(SettingsOption::ChangeMasterPassword.as_str(), "Change Master Password");
    assert_eq!(SettingsOption::SnapshotList.as_str(), "Snapshots");
    assert_eq!(SettingsOption::PasswordGenerator.as_str(), "Password Generator");
    assert_eq!(EnumChoice::GeneratorMode.options(), &["Random Chars", "Passphrase"]);
    assert_eq!(PendingAction::DeleteEntry(1).get_prompt_text(), "Are you sure you want to delete this entry?");
    assert_eq!(
        PendingAction::RestoreSnapshot(1, 7).get_prompt_text(),
        "Warning: Restore snapshot v7. This action will overwrite the current state. Continue?"
    );
}

#[test]
fn form_editing() {
    let mut form = FormState::new();
    assert!(form.obscure_inputs);
    form.fields = vec![FieldConfig::service("Service"), FieldConfig::password("Password")];
    form.insert_char('a');
    form.insert_char('c');
    form.cursor_left();
    form.insert_char('b');
    assert_eq!(text_of(&form.fields[0]), "abc");
    assert_eq!(form.cursor_index, 2);
    form.backspace();
    assert_eq!(text_of(&form.fields[0]), "ac");
    form.delete_char();
    assert_eq!(text_of(&form.fields[0]), "a");
    form.cursor_right();
    assert_eq!(form.cursor_index, 1);
    form.next_field(true);
    assert_eq!(form.current_field, 1);
    assert_eq!(form.cursor_index, 0);
    form.next_field(true);
    assert_eq!(form.current_field, 0);
    form.prev_field(false);
    assert_eq!(form.current_field, 1);
    form.toggle_show_password();
    assert!(form.fields[1].show_password);
    assert_eq!(form.get_input_for_field(0), "a");
    assert_eq!(form.get_input_for_field(5), "");
    form.clear();
    assert_eq!(text_of(&form.fields[0]), "");
    assert_eq!(form.current_field, 0);
}

#[test]
fn number_fields_take_digits_up_to_the_limit() {
    assert_eq!(push_digit(12, 3), Ok(123));
    assert_eq!(push_digit(100, 0), Err(DigitRejected::LimitReached));
    assert_eq!(push_digit(7000, 0), Err(DigitRejected::TooLarge));
    assert_eq!(DigitRejected::LimitReached.message(), "Limite máximo atingido!");
    let mut form = FormState::new();
    form.fields = vec![FieldConfig::number("Length", 9)];
    assert_eq!(form.type_digit('9'), Ok(()));
    assert!(matches!(form.fields[0].value, FieldValue::Number(99)));
    assert_eq!(form.type_digit('9'), Ok(()));
    assert_eq!(form.type_digit('1'), Err(DigitRejected::LimitReached));
    form.increase_value();
    assert!(matches!(form.fields[0].value, FieldValue::Number(999)));
    form.decrease_value();
    assert!(matches!(form.fields[0].value, FieldValue::Number(998)));
    form.cursor_index = 2;
    form.remove_digit();
    assert!(matches!(form.fields[0].value, FieldValue::Number(98)));
    form.cursor_index = 0;
    form.remove_digit();
    assert!(matches!(form.fields[0].value, FieldValue::Number(0)));
}

#[test]
fn generator_screen_roundtrip() {
    let config = GeneratorConfig {
        mode: GeneratorMode::RandomChars,
        length: 24,
        word_count: 4,
        separator: '-',
        capitalize: false,
        uppercase: true,
        lowercase: false,
        numbers: true,
        symbols: true,
    };
    let state = PasswordGeneratorState { session_config: config, generated_password: None };
    let fields = state.build_form_fields();
    let mut other = PasswordGeneratorState::default();
    other.sync_config(&fields);
    assert_eq!(other.session_config, config);
    let mut form = FormState::new();
    form.fields = FieldConfig::from_config(&GeneratorConfig::default());
    let mut back = PasswordGeneratorState { session_config: config, generated_password: None };
    back.sync_config(&form.fields);
    assert_eq!(back.session_config, GeneratorConfig::default());
    form.current_field = 1;
    form.increase_value();
    assert!(matches!(form.fields[1].value, FieldValue::Choice(0)));
}

#[test]
fn generator_screen_generates() {
    let mut state = PasswordGeneratorState::default();
    let words = vec!["one".to_string()];
    let p = state.generate_password(&words).unwrap();
    assert_eq!(p, "One_One_One_One_One");
    assert_eq!(state.generated_password, Some(p));
    state.session_config.word_count = 0;
    assert!(state.generate_password(&words).is_err());
}

#[test]
fn generator_screen_shows_the_session_mode() {
    let config = GeneratorConfig { mode: GeneratorMode::Passphrase, word_count: 7, separator: '.', ..GeneratorConfig::default() };
    let state = PasswordGeneratorState { session_config: config, generated_password: None };
    let fields = state.build_form_fields();
    assert_eq!(fields[1].label, "Mode");
    assert!(matches!(fields[1].value, FieldValue::Choice(1)));
    let mut other = PasswordGeneratorState {
        session_config: GeneratorConfig { mode: GeneratorMode::RandomChars, ..GeneratorConfig::default() },
        generated_password: None,
    };
    other.sync_config(&fields);
    assert_eq!(other.session_config.mode, GeneratorMode::Passphrase);
    assert_eq!(other.session_config, config);
    let random = PasswordGeneratorState {
        session_config: GeneratorConfig { mode: GeneratorMode::RandomChars, ..GeneratorConfig::default() },
        generated_password: None,
    };
    assert!(matches!(random.build_form_fields()[1].value, FieldValue::Choice(0)));
}

#[test]
fn menu_choice_forward_then_back() {
    let mut form = FormState::new();
    form.fields = FieldConfig::from_config(&GeneratorConfig::default());
    form.current_field = 1;
    assert!(matches!(form.fields[1].value, FieldValue::Choice(1)));
    form.increase_value();
    assert!(matches!(form.fields[1].value, FieldValue::Choice(0)));
    form.decrease_value();
    assert!(matches!(form.fields[1].value, FieldValue::Choice(1)));
    form.decrease_value();
    assert!(matches!(form.fields[1].value, FieldValue::Choice(0)));
    form.increase_value();
    assert!(matches!(form.fields[1].value, FieldValue::Choice(1)));
}

#[test]
fn number_fields_stay_at_the_limit() {
    let mut form = FormState::new();
    form.fields = vec![FieldConfig::number("Length", 999)];
    form.increase_value();
    assert!(matches!(form.fields[0].value, FieldValue::Number(999)));
    form.cursor_index = 3;
    form.remove_digit();
    assert!(matches!(form.fields[0].value, FieldValue::Number(99)));
    form.fields = vec![FieldConfig::number("Length", 0)];
    form.decrease_value();
    assert!(matches!(form.fields[0].value, FieldValue::Number(0)));
}
