use lenso_auth_passkey::command::CommandKey;
use lenso_auth_passkey::failure::PasskeyPluginError;
use lenso_auth_passkey::receipt::{intent_hash, receipt_aad, ReceiptCipher};
use serde_json::{from_slice, to_vec, Value};

fn revocation() -> Value {
    let mut fields = serde_json::Map::new();
    fields.insert("passkey_id".to_owned(), Value::from("pk_one"));
    fields.insert("revoked".to_owned(), Value::from(true));
    fields.insert("revision".to_owned(), Value::from("2"));
    fields.insert("passkey_revision".to_owned(), Value::from("2"));
    Value::Object(fields)
}

#[test]
fn receipt_encryption_is_bound_to_command_identity() {
    let cipher = ReceiptCipher::derive(b"at least thirty-two bytes of secret material");
    let response = revocation();
    let (nonce, ciphertext) = cipher
        .encrypt(&to_vec(&response).expect("response bytes"), b"caller\0revoke\0one")
        .expect("encrypt receipt");
    let decoded: Value = from_slice(
        &cipher
            .decrypt(&nonce, &ciphertext, b"caller\0revoke\0one")
            .expect("decrypt receipt"),
    )
    .expect("response");
    assert_eq!(decoded, response);
    assert!(cipher
        .decrypt(&nonce, &ciphertext, b"caller\0revoke\0different")
        .is_err());
}

#[test]
fn a_receipt_opens_only_with_its_key_and_nonce() {
    let cipher = ReceiptCipher::derive(b"one secret");
    let other = ReceiptCipher::derive(b"another secret");
    let nonce = [7_u8; 12];
    let ciphertext = cipher.encrypt_with(&nonce, b"bytes", b"aad").expect("sealed");
    assert_eq!(ciphertext.len(), 5 + 16);
    assert_ne!(&ciphertext[..5], b"bytes");
    assert_eq!(cipher.decrypt(&nonce, &ciphertext, b"aad"), Ok(b"bytes".to_vec()));
    let refused = Err(PasskeyPluginError::ReceiptDecryption);
    assert_eq!(other.decrypt(&nonce, &ciphertext, b"aad"), refused);
    assert_eq!(cipher.decrypt(&[8_u8; 12], &ciphertext, b"aad"), refused);
    assert_eq!(cipher.decrypt(&nonce[..11], &ciphertext, b"aad"), refused);
    assert_eq!(cipher.decrypt(&nonce, &ciphertext[..20], b"aad"), refused);
}

#[test]
fn sealing_is_a_function_of_its_arguments_and_nonces_are_fresh() {
    let cipher = ReceiptCipher::derive(b"one secret");
    let nonce = [1_u8; 12];
    assert_eq!(
        cipher.encrypt_with(&nonce, b"bytes", b"aad"),
        cipher.encrypt_with(&nonce, b"bytes", b"aad")
    );
    let (first, _) = cipher.encrypt(b"bytes", b"aad").expect("sealed");
    let (second, _) = cipher.encrypt(b"bytes", b"aad").expect("sealed");
    assert_ne!(first, second);
}

#[test]
fn the_intent_is_the_sha256_digest() {
    let digest = intent_hash(b"abc");
    assert_eq!(digest[..4], [0xba, 0x78, 0x16, 0xbf]);
    assert_eq!(digest[28..], [0xf2, 0x00, 0x15, 0xad]);
    assert_ne!(intent_hash(b"abd"), digest);
}

#[test]
fn associated_data_joins_the_command_identity() {
    assert_eq!(receipt_aad("caller", "revoke", "one"), b"caller\0revoke\0one");
    assert_ne!(receipt_aad("a", "bc", "d"), receipt_aad("ab", "c", "d"));
    let key = CommandKey {
        caller: "caller".to_owned(),
        operation: "revoke",
        idempotency_key: "one".to_owned(),
    };
    assert_eq!(key.aad(), b"caller\0revoke\0one");
    assert_eq!(key.copy(), key);
}
