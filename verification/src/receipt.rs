//! Idempotency receipts: the fingerprint of a request and the sealed response.

use aes_gcm::aead::{Aead, KeyInit, Payload};
use aes_gcm::{Aes256Gcm, Nonce};
use sha2::{Digest as _, Sha256};
use vstd::prelude::*;
use vstd::string::*;
use vstd::utf8::encode_utf8;
use zeroize::Zeroize;

use crate::failure::PasskeyPluginError;
use crate::identifier::random_bytes;
use crate::text::{is_token, token_char};

verus! {

/// The number of bytes in a nonce.
pub const NONCE_BYTES: usize = 12;

/// The longest message, and the longest associated data, that can be sealed.
pub const SEAL_LIMIT: u64 = 0x10_0000_0000;

/// The SHA-256 digest of a byte string.
pub uninterp spec fn sha256(bytes: Seq<u8>) -> Seq<u8>;

/// The AES-256-GCM ciphertext, tag included, of a message.
pub uninterp spec fn aes256_gcm_sealed(
    key: Seq<u8>,
    nonce: Seq<u8>,
    aad: Seq<u8>,
    message: Seq<u8>,
) -> Seq<u8>;

/// The message of an AES-256-GCM ciphertext, if its tag is right.
pub uninterp spec fn aes256_gcm_opened(
    key: Seq<u8>,
    nonce: Seq<u8>,
    aad: Seq<u8>,
    ciphertext: Seq<u8>,
) -> Option<Seq<u8>>;

/// Whether a message and its associated data are short enough to seal.
pub open spec fn sealable(aad: Seq<u8>, message: Seq<u8>) -> bool {
    aad.len() <= SEAL_LIMIT && message.len() <= SEAL_LIMIT
}

/// Hashes bytes with `sha2`'s `Sha256::digest`: a function of the bytes alone.
#[verifier::external_body]
fn digest(bytes: &[u8]) -> (r: [u8; 32])
    ensures
        r@ == sha256(bytes@),
{
    Sha256::digest(bytes).into()
}

/// Seals a message with `aes_gcm`'s `Aes256Gcm::encrypt`.
///
/// The ciphertext is a function of key, nonce, associated data and message, and opens under the
/// same key, nonce and associated data to the message. It is refused exactly where the message
/// or the associated data is too long.
#[verifier::external_body]
fn seal(key: &[u8; 32], nonce: &[u8; 12], aad: &[u8], message: &[u8]) -> (r: Option<Vec<u8>>)
    ensures
        r is Some <==> sealable(aad@, message@),
        r matches Some(ciphertext) ==> {
            &&& ciphertext@ == aes256_gcm_sealed(key@, nonce@, aad@, message@)
            &&& aes256_gcm_opened(key@, nonce@, aad@, ciphertext@) == Some(message@)
        },
{
    Aes256Gcm::new(key.into()).encrypt(Nonce::from_slice(nonce), Payload { msg: message, aad }).ok()
}

/// Opens a ciphertext with `aes_gcm`'s `Aes256Gcm::decrypt`.
///
/// Whether it opens, and to which message, is a function of key, nonce, associated data and
/// ciphertext.
#[verifier::external_body]
fn open(key: &[u8; 32], nonce: &[u8; 12], aad: &[u8], ciphertext: &[u8]) -> (r: Option<Vec<u8>>)
    ensures
        match r {
            Some(message) => aes256_gcm_opened(key@, nonce@, aad@, ciphertext@) == Some(message@),
            None => aes256_gcm_opened(key@, nonce@, aad@, ciphertext@) is None,
        },
{
    Aes256Gcm::new(key.into()).decrypt(
        Nonce::from_slice(nonce),
        Payload { msg: ciphertext, aad },
    ).ok()
}

/// Overwrites a key with zeros, with `zeroize`'s `Zeroize::zeroize`.
#[verifier::external_body]
fn wipe(key: &mut [u8; 32])
    ensures
        forall|i: int| 0 <= i < 32 ==> #[trigger] final(key)@[i] == 0,
    opens_invariants none
    no_unwind
{
    key.zeroize();
}

/// What sealing the bytes of a response under a fresh nonce gives.
pub open spec fn encrypts(
    key: Seq<u8>,
    bytes: Seq<u8>,
    aad: Seq<u8>,
    r: Result<([u8; 12], Vec<u8>), PasskeyPluginError>,
) -> bool {
    match r {
        Ok((nonce, ciphertext)) => {
            &&& sealable(aad, bytes)
            &&& ciphertext@ == aes256_gcm_sealed(key, nonce@, aad, bytes)
            &&& aes256_gcm_opened(key, nonce@, aad, ciphertext@) == Some(bytes)
        },
        Err(PasskeyPluginError::ReceiptEncryption) => !sealable(aad, bytes),
        Err(error) => error is Random,
    }
}

/// What opening a stored response gives.
pub open spec fn decrypts(
    key: Seq<u8>,
    nonce: Seq<u8>,
    ciphertext: Seq<u8>,
    aad: Seq<u8>,
    r: Result<Vec<u8>, PasskeyPluginError>,
) -> bool {
    match r {
        Ok(bytes) => {
            &&& nonce.len() == NONCE_BYTES
            &&& aes256_gcm_opened(key, nonce, aad, ciphertext) == Some(bytes@)
        },
        Err(PasskeyPluginError::ReceiptDecryption) => {
            ||| nonce.len() != NONCE_BYTES
            ||| aes256_gcm_opened(key, nonce, aad, ciphertext) is None
        },
        Err(_) => false,
    }
}

/// The key under which receipts are sealed; it is wiped when it is dropped.
pub struct ReceiptCipher {
    key: [u8; 32],
}

impl Drop for ReceiptCipher {
    fn drop(&mut self)
        opens_invariants none
        no_unwind
    {
        wipe(&mut self.key);
    }
}

impl ReceiptCipher {
    /// The bytes of the key.
    pub closed spec fn key(&self) -> Seq<u8> {
        self.key@
    }

    /// The cipher whose key is the digest of a secret.
    pub fn derive(secret: &[u8]) -> (r: ReceiptCipher)
        ensures
            r.key() == sha256(secret@),
    {
        ReceiptCipher { key: digest(secret) }
    }

    /// Seals the bytes of a response under a nonce, bound to `aad`.
    pub fn encrypt_with(&self, nonce: &[u8; 12], bytes: &[u8], aad: &[u8]) -> (r: Result<
        Vec<u8>,
        PasskeyPluginError,
    >)
        ensures
            match r {
                Ok(ciphertext) => {
                    &&& sealable(aad@, bytes@)
                    &&& ciphertext@ == aes256_gcm_sealed(self.key(), nonce@, aad@, bytes@)
                    &&& aes256_gcm_opened(self.key(), nonce@, aad@, ciphertext@) == Some(bytes@)
                },
                Err(PasskeyPluginError::ReceiptEncryption) => !sealable(aad@, bytes@),
                Err(_) => false,
            },
    {
        match seal(&self.key, nonce, aad, bytes) {
            Some(ciphertext) => Ok(ciphertext),
            None => Err(PasskeyPluginError::ReceiptEncryption),
        }
    }

    /// Seals the bytes of a response under a fresh nonce, bound to `aad`.
    pub fn encrypt(&self, bytes: &[u8], aad: &[u8]) -> (r: Result<
        ([u8; 12], Vec<u8>),
        PasskeyPluginError,
    >)
        ensures
            encrypts(self.key(), bytes@, aad@, r),
    {
        let drawn = match random_bytes(NONCE_BYTES) {
            Ok(drawn) => drawn,
            Err(error) => return Err(PasskeyPluginError::Random(error)),
        };
        let nonce = nonce_of(&drawn);
        match self.encrypt_with(&nonce, bytes, aad) {
            Ok(ciphertext) => Ok((nonce, ciphertext)),
            Err(error) => Err(error),
        }
    }

    /// Opens a stored response that is bound to `aad`.
    pub fn decrypt(&self, nonce: &[u8], ciphertext: &[u8], aad: &[u8]) -> (r: Result<
        Vec<u8>,
        PasskeyPluginError,
    >)
        ensures
            decrypts(self.key(), nonce@, ciphertext@, aad@, r),
    {
        if nonce.len() != NONCE_BYTES {
            return Err(PasskeyPluginError::ReceiptDecryption);
        }
        let exact = nonce_of(nonce);
        match open(&self.key, &exact, aad, ciphertext) {
            Some(bytes) => Ok(bytes),
            None => Err(PasskeyPluginError::ReceiptDecryption),
        }
    }
}

/// Twelve bytes as an array.
fn nonce_of(bytes: &[u8]) -> (r: [u8; 12])
    requires
        bytes.len() == NONCE_BYTES,
    ensures
        r@ == bytes@,
{
    let r = [
        bytes[0],
        bytes[1],
        bytes[2],
        bytes[3],
        bytes[4],
        bytes[5],
        bytes[6],
        bytes[7],
        bytes[8],
        bytes[9],
        bytes[10],
        bytes[11],
    ];
    assert(r@ =~= bytes@);
    r
}

/// The fingerprint of a request, from the bytes of its JSON form.
pub fn intent_hash(bytes: &[u8]) -> (r: [u8; 32])
    ensures
        r@ == sha256(bytes@),
{
    digest(bytes)
}

/// What binds a receipt to its command: caller, operation and idempotency key, NUL between them.
pub open spec fn command_identity(
    caller: Seq<char>,
    operation: Seq<char>,
    idempotency_key: Seq<char>,
) -> Seq<char> {
    caller + seq!['\0'] + operation + seq!['\0'] + idempotency_key
}

/// The associated data of a command's receipt.
pub fn receipt_aad(caller: &str, operation: &str, idempotency_key: &str) -> (r: Vec<u8>)
    ensures
        r@ == encode_utf8(command_identity(caller@, operation@, idempotency_key@)),
{
    proof {
        reveal_strlit("\0");
    }
    let identity = caller.to_owned().concat("\0").concat(operation).concat("\0").concat(
        idempotency_key,
    );
    assert(identity@ =~= command_identity(caller@, operation@, idempotency_key@));
    identity.as_str().as_bytes_vec()
}

/// What one cipher seals, every cipher of the same secret opens under the same associated data.
pub proof fn receipts_read_back(
    secret: Seq<u8>,
    writer: ReceiptCipher,
    reader: ReceiptCipher,
    bytes: Seq<u8>,
    aad: Seq<u8>,
    nonce: [u8; 12],
    ciphertext: Vec<u8>,
    r: Result<Vec<u8>, PasskeyPluginError>,
)
    requires
        writer.key() == sha256(secret),
        reader.key() == sha256(secret),
        encrypts(writer.key(), bytes, aad, Ok((nonce, ciphertext))),
        decrypts(reader.key(), nonce@, ciphertext@, aad, r),
    ensures
        r matches Ok(opened) && opened@ == bytes,
{
}

/// Nothing opens under a nonce of another length.
pub proof fn other_nonces_open_nothing(
    cipher: ReceiptCipher,
    nonce: Seq<u8>,
    ciphertext: Seq<u8>,
    aad: Seq<u8>,
    r: Result<Vec<u8>, PasskeyPluginError>,
)
    requires
        nonce.len() != NONCE_BYTES,
        decrypts(cipher.key(), nonce, ciphertext, aad, r),
    ensures
        r matches Err(error) && error is ReceiptDecryption,
{
}

/// A text that holds no NUL.
pub open spec fn no_nul(s: Seq<char>) -> bool {
    forall|i: int| 0 <= i < s.len() ==> #[trigger] s[i] != '\0'
}

/// Two commands have the same associated data only if caller, operation and key all agree.
pub proof fn receipts_are_bound_to_their_command(
    caller: Seq<char>,
    operation: Seq<char>,
    key: Seq<char>,
    other_caller: Seq<char>,
    other_operation: Seq<char>,
    other_key: Seq<char>,
)
    requires
        no_nul(caller),
        no_nul(operation),
        no_nul(other_caller),
        no_nul(other_operation),
        encode_utf8(command_identity(caller, operation, key)) == encode_utf8(
            command_identity(other_caller, other_operation, other_key),
        ),
    ensures
        caller == other_caller,
        operation == other_operation,
        key == other_key,
{
    let a = command_identity(caller, operation, key);
    let b = command_identity(other_caller, other_operation, other_key);
    vstd::utf8::encode_utf8_decode_utf8(a);
    vstd::utf8::encode_utf8_decode_utf8(b);
    assert(a == b);
    assert(a =~= caller + seq!['\0'] + (operation + seq!['\0'] + key));
    assert(b =~= other_caller + seq!['\0'] + (other_operation + seq!['\0'] + other_key));
    first_part_agrees(
        caller,
        operation + seq!['\0'] + key,
        other_caller,
        other_operation + seq!['\0'] + other_key,
    );
    first_part_agrees(operation, key, other_operation, other_key);
}

proof fn first_part_agrees(
    front: Seq<char>,
    back: Seq<char>,
    other_front: Seq<char>,
    other_back: Seq<char>,
)
    requires
        no_nul(front),
        no_nul(other_front),
        front + seq!['\0'] + back == other_front + seq!['\0'] + other_back,
    ensures
        front == other_front,
        back == other_back,
{
    let a = front + seq!['\0'] + back;
    let b = other_front + seq!['\0'] + other_back;
    assert(a[front.len() as int] == '\0');
    assert(b[other_front.len() as int] == '\0');
    if front.len() < other_front.len() {
        assert(b[front.len() as int] == other_front[front.len() as int]);
    }
    if other_front.len() < front.len() {
        assert(a[other_front.len() as int] == front[other_front.len() as int]);
    }
    assert(front =~= a.subrange(0, front.len() as int));
    assert(other_front =~= b.subrange(0, front.len() as int));
    assert(back =~= a.subrange((front.len() + 1) as int, a.len() as int));
    assert(other_back =~= b.subrange((front.len() + 1) as int, b.len() as int));
}

/// A token holds no NUL.
pub proof fn tokens_hold_no_nul(s: Seq<char>, max: nat)
    requires
        is_token(s, max),
    ensures
        no_nul(s),
{
    assert forall|i: int| 0 <= i < s.len() implies #[trigger] s[i] != '\0' by {
        assert(token_char(s[i]));
    }
}

} // verus!
