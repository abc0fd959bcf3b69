use base64::{engine::general_purpose, Engine};
use rand::rngs::OsRng;
use rand::TryRngCore;
use vault_core::{new_record_id, open_field, seal_with_nonce, CipherError, EntryError, PasswordEntry};

fn generate_key() -> [u8; 32] {
    let mut key = [0u8; 32];
    OsRng.try_fill_bytes(&mut key).unwrap();
    key
}

#[test]
fn test_encrypt_and_decrypt_password_success() {
    let key = generate_key();
    let plain_password = "super_secret_password";

    let (cipthertext, nonce) = PasswordEntry::encrypt_password(plain_password, &key).unwrap();

    let nonce = nonce.unwrap();
    let decoded_nonce = general_purpose::STANDARD.decode(&nonce).unwrap();

    let decrypted_password = PasswordEntry::decrypt_password(&cipthertext, &nonce, &key).unwrap();

    assert!(cipthertext.len() > 0);
    assert!(decoded_nonce.len() == PasswordEntry::LEN_NONCE);
    assert_eq!(plain_password, decrypted_password);
}

#[test]
fn test_decrypt_with_wrong_key_should_fail() {
    let key1 = generate_key();
    let key2 = generate_key();
    let plain_password = "password123";

    let (cipthertext, nonce) = PasswordEntry::encrypt_password(plain_password, &key1).unwrap();

    let result = PasswordEntry::decrypt_password(&cipthertext, &nonce.unwrap(), &key2);

    assert!(result.is_err());
}

#[test]
fn test_decrypt_with_modified_ciphertext_should_fail() {
    let key = generate_key();
    let plain_password = "correct-horse-battery-staple";

    let (mut cipthertext, nonce) = PasswordEntry::encrypt_password(plain_password, &key).unwrap();

    let mut bytes = general_purpose::STANDARD.decode(&cipthertext).unwrap();
    bytes[0] ^= 0xFF;
    cipthertext = general_purpose::STANDARD.encode(&bytes);

    let result = PasswordEntry::decrypt_password(&cipthertext, &nonce.unwrap(), &key);

    assert!(result.is_err());
}

#[test]
fn test_encrypt_returns_unique_nonce_each_time() {
    let key = generate_key();
    let password = "unique-nonce-test";

    let (_, nonce1) = PasswordEntry::encrypt_password(password, &key).unwrap();
    let (_, nonce2) = PasswordEntry::encrypt_password(password, &key).unwrap();

    assert_ne!(nonce1, nonce2);
}

#[test]
fn nonces_stay_unique_over_a_thousand_encryptions() {
    let key = generate_key();
    let mut seen = std::collections::HashSet::new();
    for _ in 0..1000 {
        let (_, nonce) = PasswordEntry::encrypt_password("same text", &key).unwrap();
        assert!(seen.insert(nonce.unwrap()));
    }
}

#[test]
fn flipping_any_bit_of_the_ciphertext_fails_decryption() {
    let key = generate_key();
    let (ciphertext, nonce) = PasswordEntry::encrypt_password("abc", &key).unwrap();
    let nonce = nonce.unwrap();
    let bytes = general_purpose::STANDARD.decode(&ciphertext).unwrap();
    assert_eq!(bytes.len(), 3 + 16);
    for i in 0..bytes.len() {
        for bit in 0..8 {
            let mut tampered = bytes.clone();
            tampered[i] ^= 1u8 << bit;
            let text = general_purpose::STANDARD.encode(&tampered);
            assert_eq!(
                PasswordEntry::decrypt_password(&text, &nonce, &key),
                Err(CipherError::Decryption)
            );
        }
    }
}

#[test]
fn round_trip_keeps_empty_and_unicode_text() {
    let key = generate_key();
    for text in ["", "a", "pässwörd ✓ 🔐", "line\nbreak"] {
        let (c, n) = PasswordEntry::encrypt_password(text, &key).unwrap();
        assert_eq!(PasswordEntry::decrypt_password(&c, &n.unwrap(), &key).unwrap(), text);
    }
}

#[test]
fn seal_with_fixed_nonce_is_exact_and_opens_back() {
    let key = [0x11u8; 32];
    let nonce = [0x22u8; 12];
    let (c1, n1) = seal_with_nonce("hello", &key, &nonce).unwrap();
    let (c2, n2) = seal_with_nonce("hello", &key, &nonce).unwrap();
    assert_eq!(c1, c2);
    assert_eq!(n1, general_purpose::STANDARD.encode(nonce));
    assert_eq!(n1, n2);
    let raw = general_purpose::STANDARD.decode(&c1).unwrap();
    assert_eq!(raw.len(), 5 + 16);
    assert_ne!(&raw[..5], b"hello");
    assert_eq!(open_field(&c1, &n1, &key).unwrap(), "hello");
}

#[test]
fn encryption_refuses_a_key_of_wrong_length() {
    assert_eq!(
        PasswordEntry::encrypt_password("x", &[0u8; 16]),
        Err(CipherError::Encryption)
    );
    assert_eq!(seal_with_nonce("x", &[0u8; 31], &[0u8; 12]), Err(CipherError::Encryption));
}

#[test]
fn decryption_refuses_malformed_input() {
    let key = generate_key();
    let (c, n) = PasswordEntry::encrypt_password("secret", &key).unwrap();
    let n = n.unwrap();
    assert_eq!(PasswordEntry::decrypt_password(&c, &n, &key[..16]), Err(CipherError::Decryption));
    assert_eq!(PasswordEntry::decrypt_password("not base64!", &n, &key), Err(CipherError::Decryption));
    assert_eq!(PasswordEntry::decrypt_password(&c, "@@@@", &key), Err(CipherError::Decryption));
    let short_nonce = general_purpose::STANDARD.encode([0u8; 8]);
    assert_eq!(PasswordEntry::decrypt_password(&c, &short_nonce, &key), Err(CipherError::Decryption));
}

#[test]
fn decryption_refuses_bytes_that_are_not_text() {
    let key = [0x33u8; 32];
    let nonce = [0x44u8; 12];
    let (c, n) = seal_with_nonce("ok", &key, &nonce).unwrap();
    assert_eq!(open_field(&c, &n, &key).unwrap(), "ok");
    let mut other_key = key;
    other_key[31] ^= 1;
    assert_eq!(open_field(&c, &n, &other_key), Err(CipherError::Decryption));
}

#[test]
fn new_entry_input_is_validated() {
    let none: Option<String> = None;
    assert_eq!(
        PasswordEntry::validate_new("", &Some("u".to_string()), "p", &none),
        Err(EntryError::MissingField)
    );
    assert_eq!(PasswordEntry::validate_new("t", &None, "p", &none), Err(EntryError::MissingField));
    assert_eq!(
        PasswordEntry::validate_new("t", &Some("u".to_string()), "", &none),
        Err(EntryError::MissingField)
    );
    assert_eq!(
        PasswordEntry::validate_new("t", &Some("u".to_string()), "p", &Some("n".repeat(501))),
        Err(EntryError::NotesTooLong)
    );
    assert_eq!(
        PasswordEntry::validate_new("t", &Some("u".to_string()), "p", &Some("n".repeat(500))),
        Ok(())
    );
}

#[test]
fn update_input_is_validated() {
    assert_eq!(PasswordEntry::validate_update("t", "", "p", &None), Err(EntryError::MissingField));
    assert_eq!(
        PasswordEntry::validate_update("t", "u", "p", &Some("é".repeat(251))),
        Err(EntryError::NotesTooLong)
    );
    assert_eq!(PasswordEntry::validate_update("t", "u", "p", &Some("é".repeat(250))), Ok(()));
}

#[test]
fn created_entry_is_encrypted_and_reveals_its_password() {
    let key = generate_key();
    let entry = PasswordEntry::create(
        "mail".to_string(),
        Some("me".to_string()),
        "hunter2",
        Some("https://example.org".to_string()),
        None,
        &key,
        1_700_000_000,
    )
    .unwrap();
    assert_eq!(entry.id.len(), 36);
    assert_eq!(entry.created_at, 1_700_000_000);
    assert_eq!(entry.nonce.as_ref().map(|n| general_purpose::STANDARD.decode(n).unwrap().len()), Some(12));
    assert_eq!(entry.title, "mail");
    assert!(!entry.deleted);
    assert!(entry.updated_at.is_none());
    assert_ne!(entry.password, "hunter2");
    let shown = entry.revealed(&key).unwrap();
    assert_eq!(shown.password, "hunter2");
    assert_eq!(shown.title, "mail");
}

#[test]
fn create_reports_validation_and_key_errors() {
    let key = generate_key();
    assert!(matches!(
        PasswordEntry::create("t".to_string(), None, "p", None, None, &key, 5),
        Err(EntryError::MissingField)
    ));
    assert!(matches!(
        PasswordEntry::create("t".to_string(), Some("u".to_string()), "p", None, None, &key[..8], 5),
        Err(EntryError::Encryption)
    ));
}

fn plain_entry(title: &str, password: &str) -> PasswordEntry {
    PasswordEntry {
        id: title.to_string(),
        title: title.to_string(),
        username: None,
        password: password.to_string(),
        url: None,
        notes: None,
        created_at: 1,
        updated_at: None,
        deleted: false,
        nonce: None,
    }
}

#[test]
fn reveal_all_decrypts_in_order_and_keeps_plain_records() {
    let key = generate_key();
    let (c, n) = PasswordEntry::encrypt_password("first-secret", &key).unwrap();
    let mut sealed = plain_entry("a", &c);
    sealed.nonce = n;
    let entries = vec![sealed, plain_entry("b", "already-plain")];
    let shown = PasswordEntry::reveal_all(entries, &key).unwrap();
    assert_eq!(shown.len(), 2);
    assert_eq!(shown[0].title, "a");
    assert_eq!(shown[0].password, "first-secret");
    assert_eq!(shown[1].password, "already-plain");
}

#[test]
fn reveal_all_fails_on_a_record_that_does_not_decrypt() {
    let key = generate_key();
    let mut broken = plain_entry("x", "AAAA");
    broken.nonce = Some(general_purpose::STANDARD.encode([0u8; 12]));
    let entries = vec![plain_entry("ok", "p"), broken];
    assert_eq!(
        PasswordEntry::reveal_all(entries, &key).map(|v| v.len()),
        Err(CipherError::Decryption)
    );
    assert_eq!(PasswordEntry::reveal_all(Vec::new(), &key).map(|v| v.len()), Ok(0));
}

#[test]
fn sealed_update_validates_and_encrypts() {
    let key = generate_key();
    assert!(matches!(
        PasswordEntry::sealed_update("", "u", "p", &None, &key, 9),
        Err(EntryError::MissingField)
    ));
    assert!(matches!(
        PasswordEntry::sealed_update("t", "u", "p", &None, &[0u8; 3], 9),
        Err(EntryError::Encryption)
    ));
    let (c, n, t) = PasswordEntry::sealed_update("t", "u", "new-secret", &None, &key, 9).unwrap();
    assert_eq!(t, 9);
    assert_eq!(PasswordEntry::decrypt_password(&c, &n.unwrap(), &key).unwrap(), "new-secret");
}

#[test]
fn record_ids_are_hyphenated_version_four_and_distinct() {
    let a = new_record_id().unwrap();
    let b = new_record_id().unwrap();
    assert_eq!(a.len(), 36);
    assert_eq!(a.as_bytes()[14], b'4');
    assert_eq!(a.matches('-').count(), 4);
    assert_ne!(a, b);
}

#[test]
fn ciphertext_text_decodes_to_plaintext_length_plus_tag() {
    let key = generate_key();
    let (c, n) = PasswordEntry::encrypt_password("", &key).unwrap();
    assert_eq!(c.len(), 24);
    assert_eq!(general_purpose::STANDARD.decode(&c).unwrap().len(), 16);
    assert_eq!(general_purpose::STANDARD.decode(n.unwrap()).unwrap().len(), 12);
}
