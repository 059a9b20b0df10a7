use sealed_config::ciphers::{decrypt, encrypt, generate, open_text, seal_text, Action};
use sealed_config::{Cipher, ErrorKind, Keystore, Role};
use sealed_config::traits::IsEmpty;

const MASTER: &str = "AAECAwQFBgcICQoLDA0ODxAREhMUFRYXGBkaGxwdHh8";
const WEB: &str = "ICEiIyQlJicoKSorLC0uLzAxMjM0NTY3ODk6Ozw9Pj8";

fn keys() -> Keystore {
    Keystore::new(Some(MASTER.to_string()), Some(WEB.to_string()))
}

#[test]
fn new_field_is_plain() {
    let field = Cipher::new("secret");
    assert_eq!(field.content, Some("secret".to_string()));
    assert_eq!(field.hash, None);
    assert_eq!(field.is_encrypted, None);
    assert!(field.is_ready(Action::Encrypt));
    assert!(!field.is_ready(Action::Decrypt));
    assert!(!field.is_empty());
    assert!(Cipher::default().is_empty());
}

#[test]
fn round_trip_under_master() {
    let sealed = Cipher::new("connection string").encrypt_master(&keys()).unwrap();
    assert_eq!(sealed.is_encrypted, Some(true));
    assert_ne!(sealed.content, Some("connection string".to_string()));
    assert!(sealed.hash.is_some());
    let opened = sealed.decrypt_master(&keys()).unwrap();
    assert_eq!(opened.content, Some("connection string".to_string()));
    assert_eq!(opened.is_encrypted, Some(false));
    assert_eq!(opened.hash, None);
}

#[test]
fn round_trip_under_web() {
    let sealed = Cipher::new("pässwörd ✓").encrypt_web(&keys()).unwrap();
    let opened = sealed.decrypt_web(&keys()).unwrap();
    assert_eq!(opened.to_string(), "pässwörd ✓");
}

#[test]
fn wrong_role_is_a_cipher_failure() {
    let sealed = Cipher::new("secret").encrypt_master(&keys()).unwrap();
    assert_eq!(sealed.decrypt_web(&keys()).unwrap_err(), ErrorKind::CipherFailure);
    assert_eq!(sealed.decrypt_master(&keys()).unwrap().to_string(), "secret");
}

#[test]
fn sealing_twice_is_not_ready() {
    let sealed = Cipher::new("secret").encrypt_master(&keys()).unwrap();
    assert_eq!(sealed.encrypt_master(&keys()).unwrap_err(), ErrorKind::NotReady);
    assert_eq!(sealed.encrypt_web(&keys()).unwrap_err(), ErrorKind::NotReady);
}

#[test]
fn opening_a_plain_field_is_not_ready() {
    let plain = Cipher::new("secret");
    assert_eq!(plain.decrypt_master(&keys()).unwrap_err(), ErrorKind::NotReady);
    let opened = plain.encrypt_master(&keys()).unwrap().decrypt_master(&keys()).unwrap();
    assert_eq!(opened.decrypt_master(&keys()).unwrap_err(), ErrorKind::NotReady);
}

#[test]
fn empty_field_is_not_ready() {
    assert_eq!(Cipher::default().encrypt_master(&keys()).unwrap_err(), ErrorKind::NotReady);
    assert_eq!(Cipher::new("").encrypt_master(&keys()).unwrap_err(), ErrorKind::NotReady);
}

#[test]
fn successive_sealings_differ() {
    let plain = Cipher::new("secret");
    let first = plain.encrypt_master(&keys()).unwrap();
    let second = plain.encrypt_master(&keys()).unwrap();
    assert_ne!(first.content, second.content);
    assert_ne!(first.hash, second.hash);
}

#[test]
fn missing_key_is_unavailable() {
    let keys = Keystore::new(None, Some(WEB.to_string()));
    assert_eq!(Cipher::new("secret").encrypt_master(&keys).unwrap_err(), ErrorKind::KeyUnavailable);
    assert!(Cipher::new("secret").encrypt_web(&keys).is_ok());
    assert_eq!(keys.resolve(Role::Master).unwrap_err(), ErrorKind::KeyUnavailable);
}

#[test]
fn malformed_key_is_unavailable() {
    let short = Keystore::new(Some("AAAAAAAAAAAAAAAAAAAAAA".to_string()), None);
    assert_eq!(short.resolve(Role::Master).unwrap_err(), ErrorKind::KeyUnavailable);
    let garbled = Keystore::new(Some("not base64 !".to_string()), None);
    assert_eq!(garbled.resolve(Role::Master).unwrap_err(), ErrorKind::KeyUnavailable);
    let empty = Keystore::new(Some(String::new()), None);
    assert_eq!(empty.resolve(Role::Master).unwrap_err(), ErrorKind::KeyUnavailable);
}

#[test]
fn resolve_decodes_the_key() {
    let expected: Vec<u8> = (0u8..32).collect();
    assert_eq!(keys().resolve(Role::Master).unwrap(), expected);
    let expected: Vec<u8> = (32u8..64).collect();
    assert_eq!(keys().resolve(Role::Web).unwrap(), expected);
}

#[test]
fn role_names_its_variable() {
    assert_eq!(Role::Master.variable(), "MASTER_KEY");
    assert_eq!(Role::Web.variable(), "WEB_KEY");
}

#[test]
fn corrupted_envelope_is_a_cipher_failure() {
    let sealed = Cipher::new("secret").encrypt_master(&keys()).unwrap();
    let mut broken = sealed.clone();
    broken.content = Some("AAAA".to_string());
    assert_eq!(broken.decrypt_master(&keys()).unwrap_err(), ErrorKind::CipherFailure);
    let mut broken = sealed.clone();
    broken.hash = Some("@@@".to_string());
    assert_eq!(broken.decrypt_master(&keys()).unwrap_err(), ErrorKind::CipherFailure);
    let mut broken = sealed.clone();
    broken.hash = sealed.content.clone();
    assert_eq!(broken.decrypt_master(&keys()).unwrap_err(), ErrorKind::CipherFailure);
}

#[test]
fn get_string_falls_back_to_content() {
    let plain = Cipher::new("visible");
    assert_eq!(plain.get_string_from_master(&keys()), "visible");
    let sealed = plain.encrypt_master(&keys()).unwrap();
    assert_eq!(sealed.get_string_from_master(&keys()), "visible");
    assert_eq!(sealed.get_string_from_web(&keys()), sealed.to_string());
    assert_eq!(Cipher::default().get_string_from_web(&keys()), "");
}

#[test]
fn seal_with_given_material() {
    let data_key = [7u8; 32];
    let sealed = Cipher::new("secret")
        .seal(Role::Master, &keys(), &data_key, &[1u8; 24], &[2u8; 24])
        .unwrap();
    let again = Cipher::new("secret")
        .seal(Role::Master, &keys(), &data_key, &[1u8; 24], &[2u8; 24])
        .unwrap();
    assert_eq!(sealed.content, again.content);
    assert_eq!(sealed.hash, again.hash);
    let other = Cipher::new("secret")
        .seal(Role::Master, &keys(), &data_key, &[3u8; 24], &[2u8; 24])
        .unwrap();
    assert_ne!(sealed.content, other.content);
    assert_eq!(sealed.hash, other.hash);
    assert_eq!(sealed.decrypt_master(&keys()).unwrap().to_string(), "secret");
    let master: Vec<u8> = (0u8..32).collect();
    assert_eq!(open_text(&master, sealed.hash.as_ref().unwrap()).unwrap(), data_key.to_vec());
}

#[test]
fn seal_rejects_bad_material() {
    let plain = Cipher::new("secret");
    assert_eq!(
        plain.seal(Role::Master, &keys(), &[7u8; 31], &[1u8; 24], &[2u8; 24]).unwrap_err(),
        ErrorKind::CipherFailure
    );
    assert_eq!(
        plain.seal(Role::Master, &keys(), &[7u8; 32], &[1u8; 23], &[2u8; 24]).unwrap_err(),
        ErrorKind::CipherFailure
    );
    assert_eq!(
        plain.seal(Role::Master, &keys(), &[7u8; 32], &[1u8; 24], &[2u8; 25]).unwrap_err(),
        ErrorKind::CipherFailure
    );
}

#[test]
fn sealed_text_has_nonce_then_box() {
    let key = [9u8; 32];
    let nonce = [5u8; 24];
    let text = seal_text(&key, &nonce, b"hello").unwrap();
    // 24 bytes of nonce, 16 of tag, 5 of message: 45 bytes, 60 characters.
    assert_eq!(text.len(), 60);
    assert_eq!(text, "BQUFBQUFBQUFBQUFBQUFBQUFBQUFBQUFjMYx8RkpZsp61_D346HVcWjWoN8G");
    assert_eq!(open_text(&key, &text).unwrap(), b"hello".to_vec());
    assert_eq!(open_text(&[8u8; 32], &text).unwrap_err(), ErrorKind::CipherFailure);
    assert_eq!(open_text(&key[..31], &text).unwrap_err(), ErrorKind::KeyUnavailable);
    assert_eq!(seal_text(&key[..31], &nonce, b"hello").unwrap_err(), ErrorKind::KeyUnavailable);
    assert_eq!(seal_text(&key, &nonce[..23], b"hello").unwrap_err(), ErrorKind::CipherFailure);
}

#[test]
fn open_text_rejects_short_and_garbled_text() {
    let key = [9u8; 32];
    assert_eq!(open_text(&key, "").unwrap_err(), ErrorKind::CipherFailure);
    assert_eq!(open_text(&key, "BQUFBQUFBQUFBQUFBQUFBQUFBQUFBQUF").unwrap_err(), ErrorKind::CipherFailure);
    assert_eq!(open_text(&key, "a b").unwrap_err(), ErrorKind::CipherFailure);
}

#[test]
fn single_layer_round_trip() {
    let text = encrypt("{\"id\":1}", Role::Web, &keys()).unwrap();
    assert_ne!(text, "{\"id\":1}");
    assert_eq!(decrypt(&text, Role::Web, &keys()).unwrap(), "{\"id\":1}");
    assert_eq!(decrypt(&text, Role::Master, &keys()).unwrap_err(), ErrorKind::CipherFailure);
    let none = Keystore::new(None, None);
    assert_eq!(encrypt("x", Role::Web, &none).unwrap_err(), ErrorKind::KeyUnavailable);
    assert_eq!(decrypt(&text, Role::Web, &none).unwrap_err(), ErrorKind::KeyUnavailable);
}

#[test]
fn generated_key_is_usable() {
    let first = generate();
    let second = generate();
    assert_eq!(first.len(), 43);
    assert_ne!(first, second);
    let keys = Keystore::new(Some(first), None);
    assert_eq!(keys.resolve(Role::Master).unwrap().len(), 32);
}

#[test]
fn shape_mismatch_is_shown_as_invalid() {
    assert_eq!(ErrorKind::ClaimsShapeMismatch.at_boundary(), ErrorKind::TokenInvalid);
    assert_eq!(ErrorKind::TokenExpired.at_boundary(), ErrorKind::TokenExpired);
    assert_eq!(ErrorKind::CipherFailure.at_boundary(), ErrorKind::CipherFailure);
}

#[test]
fn malformed_utf8_is_replaced() {
    let master: Vec<u8> = (0u8..32).collect();
    let text = seal_text(&master, &[4u8; 24], &[b'a', 0xff, b'b']).unwrap();
    assert_eq!(decrypt(&text, Role::Master, &keys()).unwrap(), "a\u{fffd}b");
}

#[test]
fn emptiness_is_equality_with_the_default() {
    assert!(Cipher { content: None, hash: None, is_encrypted: None }.is_empty());
    assert!(!Cipher { content: None, hash: None, is_encrypted: Some(false) }.is_empty());
    assert!(!Cipher { content: Some(String::new()), hash: None, is_encrypted: None }.is_empty());
    assert_eq!(Cipher::default().to_string(), "");
}

#[test]
fn envelope_has_the_sizes_of_nonce_tag_and_message() {
    let sealed = Cipher::new("secret").encrypt_master(&keys()).unwrap();
    let content = sealed.content.clone().unwrap();
    let hash = sealed.hash.clone().unwrap();
    // 24 + 6 + 16 = 46 bytes are 62 characters; 24 + 32 + 16 = 72 bytes are 96.
    assert_eq!(content.len(), 62);
    assert_eq!(hash.len(), 96);
    assert!(!content.contains('=') && !hash.contains('='));
    assert_ne!(content, "secret");
    assert_eq!(Keystore::new(Some(content), Some(hash)).resolve(Role::Master).unwrap_err(), ErrorKind::KeyUnavailable);
    let text = encrypt("secret", Role::Web, &keys()).unwrap();
    assert_eq!(text.len(), 62);
    assert!(!text.contains('='));
}

#[test]
fn opened_field_is_a_plain_field_again() {
    let sealed = Cipher::new("secret").encrypt_web(&keys()).unwrap();
    let opened = sealed.decrypt_web(&keys()).unwrap();
    assert_eq!(
        opened,
        Cipher { content: Some("secret".to_string()), hash: None, is_encrypted: Some(false) }
    );
    let again = opened.encrypt_web(&keys()).unwrap();
    assert_eq!(again.decrypt_web(&keys()).unwrap(), opened);
}
