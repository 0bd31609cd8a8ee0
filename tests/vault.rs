use base64::Engine;
use pandabox::cryptography::CryptEngine;
use pandabox::error::VaultError;
use pandabox::models::{entry_is_complete, MasterRecord, NewMasterRecord, Record};
use pandabox::session::Session;
use pandabox::vault::{bootstrap, unlock};

fn stored(m: &NewMasterRecord) -> MasterRecord {
    MasterRecord {
        id: 1,
        encrypted_master_key: m.encrypted_master_key.clone(),
        nonce: m.nonce.clone(),
        salt: m.salt.clone(),
    }
}

fn decode(text: &str) -> Vec<u8> {
    base64::engine::general_purpose::STANDARD.decode(text).unwrap()
}

#[test]
fn derivation_is_deterministic() {
    let salt = [7u8; 32];
    let a = CryptEngine::new("hunter2", &salt).unwrap();
    let b = CryptEngine::new("hunter2", &salt).unwrap();
    let blob = a.encrypt_record(b"payload").unwrap();
    assert_eq!(b.decrypt_record(&blob).unwrap(), b"payload".to_vec());
}

#[test]
fn different_passphrases_give_different_keys() {
    let salt = [7u8; 32];
    let a = CryptEngine::new("hunter2", &salt).unwrap();
    let b = CryptEngine::new("hunter3", &salt).unwrap();
    let blob = a.encrypt_record(b"payload").unwrap();
    assert_eq!(b.decrypt_record(&blob), Err(VaultError::DecryptionFailed));
}

#[test]
fn different_salts_give_different_keys() {
    let a = CryptEngine::new("hunter2", &[1u8; 32]).unwrap();
    let b = CryptEngine::new("hunter2", &[2u8; 32]).unwrap();
    let (nonce, ct) = a.encrypt_master_key(&[9u8; 32]).unwrap();
    assert_eq!(
        b.decrypt_master_key(&nonce, &ct),
        Err(VaultError::AuthenticationFailed)
    );
}

#[test]
fn short_salt_is_a_configuration_error() {
    assert!(matches!(
        CryptEngine::new("pw", &[0u8; 7]),
        Err(VaultError::Configuration)
    ));
    assert!(CryptEngine::new("pw", &[0u8; 8]).is_ok());
}

#[test]
fn master_key_round_trip() {
    let engine = CryptEngine::new("pw", &CryptEngine::generate_salt()).unwrap();
    let master = CryptEngine::generate_master_key();
    let (nonce, ct) = engine.encrypt_master_key(&master).unwrap();
    assert_eq!(nonce.len(), 12);
    assert_eq!(ct.len(), 32 + 16);
    assert_ne!(&ct[..32], &master[..]);
    assert_eq!(engine.decrypt_master_key(&nonce, &ct).unwrap(), master);
}

#[test]
fn record_round_trip_and_layout() {
    let engine = CryptEngine::new("pw", &[3u8; 32]).unwrap();
    let blob = engine.encrypt_record(b"secret").unwrap();
    assert_eq!(blob.len(), 12 + 6 + 16);
    assert_ne!(&blob[12..18], b"secret");
    assert_eq!(engine.decrypt_record(&blob).unwrap(), b"secret".to_vec());
    let empty = engine.encrypt_record(b"").unwrap();
    assert_eq!(empty.len(), 12 + 16);
    assert_eq!(engine.decrypt_record(&empty).unwrap(), Vec::<u8>::new());
}

#[test]
fn any_flipped_bit_is_detected() {
    let engine = CryptEngine::new("pw", &[3u8; 32]).unwrap();
    let blob = engine.encrypt_record(b"attack at dawn").unwrap();
    for byte in 0..blob.len() {
        for bit in 0..8 {
            let mut tampered = blob.clone();
            tampered[byte] ^= 1 << bit;
            assert_eq!(
                engine.decrypt_record(&tampered),
                Err(VaultError::DecryptionFailed)
            );
        }
    }
}

#[test]
fn truncated_blobs_are_rejected() {
    let engine = CryptEngine::new("pw", &[3u8; 32]).unwrap();
    let blob = engine.encrypt_record(b"x").unwrap();
    assert_eq!(
        engine.decrypt_record(&blob[..11]),
        Err(VaultError::DecryptionFailed)
    );
    assert_eq!(
        engine.decrypt_record(&blob[..blob.len() - 1]),
        Err(VaultError::DecryptionFailed)
    );
    assert_eq!(engine.decrypt_record(&[]), Err(VaultError::DecryptionFailed));
}

#[test]
fn wrong_nonce_length_fails_authentication() {
    let engine = CryptEngine::new("pw", &[3u8; 32]).unwrap();
    let (nonce, ct) = engine.encrypt_master_key(&[1u8; 32]).unwrap();
    assert_eq!(
        engine.decrypt_master_key(&nonce[..11], &ct),
        Err(VaultError::AuthenticationFailed)
    );
}

#[test]
fn fresh_salts_and_keys() {
    let s1 = CryptEngine::generate_salt();
    let s2 = CryptEngine::generate_salt();
    assert_eq!(s1.len(), 32);
    assert_ne!(s1, s2);
    let k1 = CryptEngine::generate_master_key();
    let k2 = CryptEngine::generate_master_key();
    assert_eq!(k1.len(), 32);
    assert_ne!(k1, k2);
}

#[test]
fn bootstrap_then_unlock() {
    let wrapped = bootstrap("pass phrase").unwrap();
    assert_eq!(wrapped.salt.len(), 32);
    assert_eq!(wrapped.nonce.len(), 12);
    assert_eq!(wrapped.encrypted_master_key.len(), 48);
    let session = unlock("pass phrase", stored(&wrapped)).unwrap();
    let text = session.encrypt_field("field").unwrap();
    assert_eq!(session.decrypt_password(&text).unwrap(), "field");
}

#[test]
fn sessions_from_one_vault_share_the_master_key() {
    let wrapped = bootstrap("pass phrase").unwrap();
    let first = unlock("pass phrase", stored(&wrapped)).unwrap();
    let text = first.encrypt_field("shared").unwrap();
    drop(first);
    let second = unlock("pass phrase", stored(&wrapped)).unwrap();
    assert_eq!(second.decrypt_password(&text).unwrap(), "shared");
}

#[test]
fn unlock_with_wrong_passphrase_fails() {
    let wrapped = bootstrap("right").unwrap();
    assert!(matches!(
        unlock("wrong", stored(&wrapped)),
        Err(VaultError::AuthenticationFailed)
    ));
}

#[test]
fn unlock_with_damaged_record_fails() {
    let wrapped = bootstrap("right").unwrap();
    let mut bad_nonce = stored(&wrapped);
    bad_nonce.nonce.pop();
    assert!(matches!(
        unlock("right", bad_nonce),
        Err(VaultError::AuthenticationFailed)
    ));
    let mut bad_salt = stored(&wrapped);
    bad_salt.salt.truncate(4);
    assert!(matches!(
        unlock("right", bad_salt),
        Err(VaultError::AuthenticationFailed)
    ));
    let mut flipped = stored(&wrapped);
    flipped.encrypted_master_key[0] ^= 1;
    assert!(matches!(
        unlock("right", flipped),
        Err(VaultError::AuthenticationFailed)
    ));
}

#[test]
fn session_from_key_round_trip() {
    let session = Session::new(vec![5u8; 32]);
    let text = session.encrypt_field("pässwörd ✓").unwrap();
    assert_ne!(text, "pässwörd ✓");
    assert_eq!(decode(&text).len(), 12 + "pässwörd ✓".len() + 16);
    assert_eq!(session.decrypt_password(&text).unwrap(), "pässwörd ✓");
}

#[test]
fn fields_from_another_key_do_not_decrypt() {
    let a = Session::new(vec![5u8; 32]);
    let b = Session::new(vec![6u8; 32]);
    let text = a.encrypt_field("mine").unwrap();
    assert_eq!(b.decrypt_password(&text), Err(VaultError::DecryptionFailed));
}

#[test]
fn malformed_fields_are_decryption_failures() {
    let session = Session::new(vec![5u8; 32]);
    assert_eq!(
        session.decrypt_password("not base64!"),
        Err(VaultError::DecryptionFailed)
    );
    assert_eq!(session.decrypt_password(""), Err(VaultError::DecryptionFailed));
    assert_eq!(
        session.decrypt_password("AAAA"),
        Err(VaultError::DecryptionFailed)
    );
}

#[test]
fn non_utf8_plaintext_is_a_decryption_failure() {
    let key = vec![5u8; 32];
    let engine = CryptEngine::from_key(key.clone());
    let blob = engine.encrypt_record(&[0xff, 0xfe]).unwrap();
    let text = base64::engine::general_purpose::STANDARD.encode(&blob);
    let session = Session::new(key);
    assert_eq!(
        session.decrypt_password(&text),
        Err(VaultError::DecryptionFailed)
    );
}

#[test]
fn same_plaintext_encrypts_differently_each_time() {
    let session = Session::new(vec![5u8; 32]);
    let a = session.encrypt_field("same").unwrap();
    let b = session.encrypt_field("same").unwrap();
    assert_ne!(a, b);
    assert_ne!(&decode(&a)[..12], &decode(&b)[..12]);
    assert_ne!(&decode(&a)[12..], &decode(&b)[12..]);
}

#[test]
fn insert_entry_encrypts_only_the_password() {
    let session = Session::new(vec![8u8; 32]);
    let row = session
        .insert_entry("mail", "a@b.c", "alice", "S3cr3t!", "note")
        .unwrap();
    assert_eq!(row.service, "mail");
    assert_eq!(row.email, "a@b.c");
    assert_eq!(row.username, "alice");
    assert_eq!(row.notes, "note");
    assert_ne!(row.password, "S3cr3t!");
    assert_eq!(session.decrypt_password(&row.password).unwrap(), "S3cr3t!");
}

#[test]
fn update_entry_keeps_the_identifier() {
    let session = Session::new(vec![8u8; 32]);
    let row = session
        .update_entry(42, "mail", "a@b.c", "alice", "n3w", "")
        .unwrap();
    assert_eq!(row.id, 42);
    assert_eq!(row.notes, "");
    assert_eq!(session.decrypt_password(&row.password).unwrap(), "n3w");
}

#[test]
fn complete_entries() {
    assert!(entry_is_complete("s", "e", "u", "p"));
    assert!(!entry_is_complete("", "e", "u", "p"));
    assert!(!entry_is_complete("s", "", "u", "p"));
    assert!(!entry_is_complete("s", "e", "", "p"));
    assert!(!entry_is_complete("s", "e", "u", ""));
}

#[test]
fn generated_passwords_follow_the_alphabet() {
    const SYMBOLS: &str = "!@#$%^&*()_+-=[]{}|;:,.<>?";
    for _ in 0..50 {
        let p = CryptEngine::generate_random_password();
        assert_eq!(p.len(), 32);
        assert_eq!(p.chars().count(), 32);
        assert!(p.chars().any(|c| c.is_ascii_uppercase()));
        assert!(p.chars().any(|c| c.is_ascii_lowercase()));
        assert!(p.chars().any(|c| c.is_ascii_digit()));
        assert!(p.chars().any(|c| SYMBOLS.contains(c)));
        assert!(p.chars().all(|c| c.is_ascii_alphanumeric() || SYMBOLS.contains(c)));
    }
    assert_ne!(
        CryptEngine::generate_random_password(),
        CryptEngine::generate_random_password()
    );
}

#[test]
fn scenario_reopen_and_read() {
    let master = stored(&bootstrap("correct-horse").unwrap());
    let mut rows: Vec<Record> = Vec::new();
    {
        let session = unlock("correct-horse", master.clone()).unwrap();
        let new_row = session
            .insert_entry("bank", "me@example.com", "me", "S3cr3t!", "")
            .unwrap();
        rows.push(Record {
            id: 1,
            service: new_row.service,
            email: new_row.email,
            username: new_row.username,
            password: new_row.password,
            notes: new_row.notes,
        });
    }
    let session = unlock("correct-horse", master.clone()).unwrap();
    let row = rows.iter().find(|r| r.id == 1).unwrap();
    assert_eq!(session.decrypt_password(&row.password).unwrap(), "S3cr3t!");
}

#[test]
fn scenario_wrong_password_cannot_read() {
    let wrapped = bootstrap("correct-horse").unwrap();
    let master = stored(&wrapped);
    let password_field = {
        let session = unlock("correct-horse", master.clone()).unwrap();
        session
            .insert_entry("bank", "me@example.com", "me", "S3cr3t!", "")
            .unwrap()
            .password
    };
    let attempt = unlock("wrong-password", master.clone());
    assert!(matches!(attempt, Err(VaultError::AuthenticationFailed)));
    assert!(!password_field.contains("S3cr3t!"));
}

#[test]
fn scenario_repeated_updates_store_fresh_ciphertexts() {
    let session = Session::new(CryptEngine::generate_master_key());
    let first = session
        .update_entry(1, "bank", "me@example.com", "me", "same", "")
        .unwrap();
    let second = session
        .update_entry(1, "bank", "me@example.com", "me", "same", "")
        .unwrap();
    assert_ne!(first.password, second.password);
    assert_eq!(session.decrypt_password(&first.password).unwrap(), "same");
    assert_eq!(session.decrypt_password(&second.password).unwrap(), "same");
}

#[test]
fn flipped_tag_bits_are_detected() {
    let engine = CryptEngine::new("pw", &[4u8; 32]).unwrap();
    let master = [0x5au8; 32];
    let (nonce, ct) = engine.encrypt_master_key(&master).unwrap();
    for i in 32..48 {
        let mut tampered = ct.clone();
        tampered[i] ^= 0x80;
        assert_eq!(
            engine.decrypt_master_key(&nonce, &tampered),
            Err(VaultError::AuthenticationFailed)
        );
    }
    assert_eq!(
        engine.decrypt_master_key(&nonce, &ct[..15]),
        Err(VaultError::AuthenticationFailed)
    );
}
