use blackout::vault::{derive_key_argon2id, Vault, VaultSnapshot};

fn vault_with_two() -> Vault {
    let mut v = Vault::default();
    v.add_entry_with(1, 100, "mail".to_string(), "ana".to_string(), "pw1".to_string());
    v.add_entry_with(2, 200, "bank".to_string(), "ana".to_string(), "pw2".to_string());
    v
}

#[test]
fn add_entry_appends_and_bumps_version() {
    let mut v = Vault::default();
    v.add_entry("mail".to_string(), "ana".to_string(), "secret".to_string());
    assert_eq!(v.version, 1);
    assert_eq!(v.entries.len(), 1);
    assert_eq!(v.entries[0].service, "mail");
    assert_eq!(v.entries[0].username, "ana");
    assert_eq!(v.entries[0].secret, "secret");
    let id = v.entries[0].uuid;
    assert_eq!(v.get_entry_by_id(id).unwrap().secret, "secret");
}

#[test]
fn lookups_by_service_and_id() {
    let mut v = vault_with_two();
    v.add_entry_with(3, 300, "mail".to_string(), "bob".to_string(), "pw3".to_string());
    let mails = v.get_entry("mail");
    assert_eq!(mails.len(), 2);
    assert_eq!(mails[0].uuid, 1);
    assert_eq!(mails[1].uuid, 3);
    assert!(v.get_entry("none").is_empty());
    assert_eq!(v.get_entry_by_id(2).unwrap().service, "bank");
    assert!(v.get_entry_by_id(9).is_none());
    assert_eq!(v.get_secret(3), Some("pw3".to_string()));
    assert_eq!(v.get_secret(9), None);
    assert_eq!(v.list_entries().len(), 3);
}

#[test]
fn remove_undoes_add() {
    let mut v = vault_with_two();
    let before: Vec<u128> = v.entries.iter().map(|e| e.uuid).collect();
    v.add_entry_with(7, 700, "x".to_string(), "y".to_string(), "z".to_string());
    assert!(v.remove_entry(7));
    let after: Vec<u128> = v.entries.iter().map(|e| e.uuid).collect();
    assert_eq!(before, after);
    assert_eq!(v.version, 4);
    assert!(!v.remove_entry(7));
    assert_eq!(v.version, 4);
}

#[test]
fn update_replaces_given_fields_only() {
    let mut v = vault_with_two();
    assert!(v.update_entry_at(2, None, Some("carla".to_string()), None, 999));
    let e = v.get_entry_by_id(2).unwrap();
    assert_eq!(e.service, "bank");
    assert_eq!(e.username, "carla");
    assert_eq!(e.secret, "pw2");
    assert_eq!(e.updated_at, 999);
    assert_eq!(v.version, 3);
    assert!(!v.update_entry(42, Some("a".to_string()), None, None));
    assert_eq!(v.version, 3);
}

#[test]
fn snapshots_and_restore() {
    let mut v = vault_with_two();
    v.history.push(VaultSnapshot { version: 1, reason: "first".to_string(), ..Default::default() });
    v.history.push(VaultSnapshot { version: 2, reason: "second".to_string(), ..Default::default() });
    assert_eq!(v.get_snapshots().len(), 2);
    assert_eq!(v.get_snapshot_by_version(2).unwrap().reason, "second");
    assert!(v.get_snapshot_by_version(5).is_none());
    let old_entries = v.entries[..1].to_vec();
    assert!(v.restore_entries(old_entries));
    assert_eq!(v.entries.len(), 1);
    assert_eq!(v.version, 3);
}

#[test]
fn key_derivation_is_deterministic_for_a_salt() {
    let salt = [7u8; 16];
    let (k1, s1) = derive_key_argon2id("master", Some(&salt), 16, 32).unwrap();
    let (k2, _) = derive_key_argon2id("master", Some(&salt), 16, 32).unwrap();
    assert_eq!(k1, k2);
    assert_eq!(k1.len(), 32);
    assert_eq!(s1, salt.to_vec());
    let (k3, _) = derive_key_argon2id("other", Some(&salt), 16, 32).unwrap();
    assert_ne!(k1, k3);
    let (_, random_salt) = derive_key_argon2id("master", None, 16, 32).unwrap();
    assert_eq!(random_salt.len(), 16);
}

#[test]
fn key_derivation_rejects_a_short_salt() {
    let err = derive_key_argon2id("master", Some(&[1u8; 4]), 16, 32).unwrap_err();
    assert!(err.starts_with("argon2 error: "));
    assert!(derive_key_argon2id("master", None, 4, 32).is_err());
}
