use blackout::client::{
    entry_input_from_form, field_display_text, masked, next_index, prev_index, restore_version,
    snapshot_index_of_row, update_input_from_form, validate_master_password_change,
};
use blackout::state::{EnumChoice, FieldConfig, FormState};
use blackout::vault::VaultSnapshot;

#[test]
fn list_navigation_wraps() {
    assert_eq!(next_index(Some(2), 3), Some(0));
    assert_eq!(next_index(None, 3), Some(0));
    assert_eq!(next_index(Some(1), 0), Some(1));
    assert_eq!(prev_index(Some(0), 3), Some(2));
    assert_eq!(prev_index(None, 3), Some(2));
    assert_eq!(prev_index(Some(2), 3), Some(1));
    assert_eq!(snapshot_index_of_row(0, 3), Some(2));
    assert_eq!(snapshot_index_of_row(3, 3), None);
}

#[test]
fn master_password_change_checks() {
    assert_eq!(validate_master_password_change("", "a", "a"), Err("Fields cannot be empty!"));
    assert_eq!(validate_master_password_change("o", "a", "b"), Err("New passwords do not match!"));
    assert_eq!(validate_master_password_change("a", "a", "a"), Err("New password cannot be the same!"));
    assert_eq!(validate_master_password_change("o", "n", "n"), Ok(()));
}

#[test]
fn forms_become_requests() {
    let mut form = FormState::new();
    form.fields = vec![
        FieldConfig::text("Service", "mail"),
        FieldConfig::service("Service"),
        FieldConfig::username("Username"),
        FieldConfig::password("Password"),
    ];
    assert_eq!(entry_input_from_form(&form).err(), Some("All fields are required!"));
    form.fields[1] = FieldConfig { value: blackout::state::FieldValue::Text("mail".to_string()), ..FieldConfig::service("Service") };
    form.fields[2] = FieldConfig { value: blackout::state::FieldValue::Text("ana".to_string()), ..FieldConfig::username("Username") };
    form.fields[3] = FieldConfig { value: blackout::state::FieldValue::Text("pw".to_string()), ..FieldConfig::password("Password") };
    let input = entry_input_from_form(&form).ok().unwrap();
    assert_eq!(input.service, "mail");
    assert_eq!(input.username, "ana");
    assert_eq!(input.password, "pw");
    let update = update_input_from_form(&form, 77);
    assert_eq!(update.uuid, 77);
    assert_eq!(update.username, Some("ana".to_string()));
}

#[test]
fn restore_version_defaults_to_the_latest() {
    let snaps = vec![
        VaultSnapshot { uuid: 1, version: 3, ..Default::default() },
        VaultSnapshot { uuid: 2, version: 9, ..Default::default() },
        VaultSnapshot { uuid: 1, version: 5, ..Default::default() },
    ];
    assert_eq!(restore_version(&snaps, 1, None), 5);
    assert_eq!(restore_version(&snaps, 3, None), 0);
    assert_eq!(restore_version(&snaps, 1, Some(2)), 2);
}

#[test]
fn field_texts() {
    assert_eq!(field_display_text(&FieldConfig::number("Length", 42)), "42");
    assert_eq!(field_display_text(&FieldConfig::checkbox("Numbers", Some(true))), "[X]");
    assert_eq!(field_display_text(&FieldConfig::checkbox("Numbers", Some(false))), "[ ]");
    assert_eq!(field_display_text(&FieldConfig::choice("Mode", EnumChoice::GeneratorMode)), "< Random Chars >");
    assert_eq!(field_display_text(&FieldConfig::text("Separator", "-")), "-");
    assert_eq!(masked("abc"), "***");
    assert_eq!(masked("é"), "**");
}
