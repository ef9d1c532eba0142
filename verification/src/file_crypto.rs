//! AES-256-GCM envelopes for application files. Only the envelope reaches
//! object storage; the key of each application is derived from the master
//! secret with HKDF-SHA256, and the application id is bound in as associated
//! data.
//!
//! Envelope layout: `TOURENT1` (8 bytes) ‖ nonce (12 bytes) ‖ ciphertext+tag.
use aes_gcm::aead::{Aead as _, KeyInit as _, Payload};
use aes_gcm::Aes256Gcm;
use hkdf::Hkdf;
use sha2::Sha256;
use vstd::prelude::*;
use vstd::slice::{slice_subrange, slice_to_vec};

use crate::bytes::{uuid_bytes, uuid_octets};

verus! {

pub const NONCE_LEN: usize = 12;

pub const MIN_MASTER_BYTES: usize = 16;

/// Largest plaintext that AES-GCM accepts (`aes_gcm::P_MAX`).
pub const P_MAX: u64 = 68719476704;

/// The magic prefix of an envelope: ASCII `TOURENT1`.
pub open spec fn magic() -> Seq<u8> {
    seq![84u8, 79u8, 85u8, 82u8, 69u8, 78u8, 84u8, 49u8]
}

/// The HKDF salt that separates application-file keys from any other use.
pub open spec fn key_salt() -> Seq<u8> {
    "TOU.Rent application files v1"@.map_values(|c: char| c as u8)
}

/// The 32-byte output of HKDF-SHA256 (RFC 5869) for the given salt, input key
/// material and info.
pub uninterp spec fn hkdf_sha256_32(salt: Seq<u8>, ikm: Seq<u8>, info: Seq<u8>) -> Seq<u8>;

/// AES-256-GCM encryption (ciphertext followed by the 16-byte tag).
pub uninterp spec fn aes256_gcm_sealed(
    key: Seq<u8>,
    nonce: Seq<u8>,
    aad: Seq<u8>,
    plaintext: Seq<u8>,
) -> Seq<u8>;

/// AES-256-GCM decryption: the plaintext, or `None` when the tag does not
/// authenticate.
pub uninterp spec fn aes256_gcm_opened(
    key: Seq<u8>,
    nonce: Seq<u8>,
    aad: Seq<u8>,
    ciphertext: Seq<u8>,
) -> Option<Seq<u8>>;

#[derive(Debug, Clone, Copy, PartialEq, Eq, Structural)]
pub enum FileCryptoError {
    MissingMasterKey,
    WeakMasterKey,
    KeyDerivation,
    Encryption,
    InvalidEnvelope,
    Decryption,
}

impl FileCryptoError {
    /// The message of the error (its `Display` text).
    pub fn message(&self) -> (text: String)
        ensures
            text@ == file_crypto_message(*self),
    {
        let text = match self {
            FileCryptoError::MissingMasterKey => "переменная PRICE_ENCRYPTION_KEY не задана",
            FileCryptoError::WeakMasterKey => "PRICE_ENCRYPTION_KEY должен содержать не менее 16 байт",
            FileCryptoError::KeyDerivation => "не удалось вывести ключ файла",
            FileCryptoError::Encryption => "не удалось зашифровать файл",
            FileCryptoError::InvalidEnvelope => "файл не является шифрованным конвертом TOU.Rent",
            FileCryptoError::Decryption => "не удалось расшифровать файл: данные или ключ не совпадают",
        };
        text.to_owned()
    }
}

pub open spec fn file_crypto_message(e: FileCryptoError) -> Seq<char> {
    match e {
        FileCryptoError::MissingMasterKey => "переменная PRICE_ENCRYPTION_KEY не задана"@,
        FileCryptoError::WeakMasterKey => "PRICE_ENCRYPTION_KEY должен содержать не менее 16 байт"@,
        FileCryptoError::KeyDerivation => "не удалось вывести ключ файла"@,
        FileCryptoError::Encryption => "не удалось зашифровать файл"@,
        FileCryptoError::InvalidEnvelope => "файл не является шифрованным конвертом TOU.Rent"@,
        FileCryptoError::Decryption => "не удалось расшифровать файл: данные или ключ не совпадают"@,
    }
}

/// Derives the 32-byte key with HKDF-SHA256 (`Hkdf::new` then `expand`).
#[verifier::external_body]
fn hkdf_sha256_expand_32(salt: &[u8], ikm: &[u8], info: &[u8]) -> (okm: Result<Vec<u8>, ()>)
    ensures
        okm is Ok,
        okm matches Ok(k) ==> k@ == hkdf_sha256_32(salt@, ikm@, info@) && k@.len() == 32,
{
    let hkdf = Hkdf::<Sha256>::new(Some(salt), ikm);
    let mut okm = [0_u8; 32];
    match hkdf.expand(info, &mut okm) {
        Ok(()) => Ok(okm.to_vec()),
        Err(_) => Err(()),
    }
}

/// `Aes256Gcm::encrypt` with associated data: refuses only a plaintext longer
/// than `P_MAX`; what it gives back is as long as the plaintext plus the
/// 16-byte tag, and opens again under the same key, nonce and associated
/// data.
#[verifier::external_body]
fn aes256_gcm_seal(key: &[u8], nonce: &[u8], aad: &[u8], plaintext: &[u8]) -> (sealed: Result<
    Vec<u8>,
    (),
>)
    requires
        key@.len() == 32,
        nonce@.len() == 12,
        aad@.len() == 16,
    ensures
        sealed is Err <==> plaintext@.len() > P_MAX,
        sealed matches Ok(c) ==> c@ == aes256_gcm_sealed(key@, nonce@, aad@, plaintext@)
            && c@.len() == plaintext@.len() + 16
            && aes256_gcm_opened(key@, nonce@, aad@, c@) == Some(plaintext@),
{
    let cipher = match Aes256Gcm::new_from_slice(key) {
        Ok(cipher) => cipher,
        Err(_) => return Err(()),
    };
    let nonce_array: [u8; 12] = match nonce.try_into() {
        Ok(array) => array,
        Err(_) => return Err(()),
    };
    cipher.encrypt(&nonce_array.into(), Payload { msg: plaintext, aad }).map_err(|_| ())
}

/// `Aes256Gcm::decrypt` with associated data.
#[verifier::external_body]
fn aes256_gcm_open(key: &[u8], nonce: &[u8], aad: &[u8], ciphertext: &[u8]) -> (opened: Option<
    Vec<u8>,
>)
    requires
        key@.len() == 32,
        nonce@.len() == 12,
    ensures
        match opened {
            Some(p) => aes256_gcm_opened(key@, nonce@, aad@, ciphertext@) == Some(p@),
            None => aes256_gcm_opened(key@, nonce@, aad@, ciphertext@) is None,
        },
{
    let cipher = match Aes256Gcm::new_from_slice(key) {
        Ok(cipher) => cipher,
        Err(_) => return None,
    };
    let nonce_array: [u8; 12] = match nonce.try_into() {
        Ok(array) => array,
        Err(_) => return None,
    };
    cipher.decrypt(&nonce_array.into(), Payload { msg: ciphertext, aad }).ok()
}

/// The key of one application: HKDF-SHA256 of the master secret, with the
/// fixed salt and the application id as info.
pub open spec fn application_key_of(master: Seq<u8>, application_id: u128) -> Seq<u8> {
    hkdf_sha256_32(key_salt(), master, uuid_octets(application_id))
}

/// The envelope of a ciphertext sealed under `nonce`.
pub open spec fn envelope_of(nonce: Seq<u8>, ciphertext: Seq<u8>) -> Seq<u8> {
    magic() + nonce + ciphertext
}

/// What `decrypt` gives for an envelope.
pub open spec fn decrypted(master: Seq<u8>, application_id: u128, envelope: Seq<u8>) -> Result<
    Seq<u8>,
    FileCryptoError,
> {
    if envelope.len() < 8 || envelope.take(8) != magic() || envelope.len() < 8 + 12 {
        Err(FileCryptoError::InvalidEnvelope)
    } else {
        let nonce = envelope.subrange(8, 20);
        let ciphertext = envelope.skip(20);
        match aes256_gcm_opened(
            application_key_of(master, application_id),
            nonce,
            uuid_octets(application_id),
            ciphertext,
        ) {
            Some(p) => Ok(p),
            None => Err(FileCryptoError::Decryption),
        }
    }
}

pub open spec fn result_view(r: Result<Vec<u8>, FileCryptoError>) -> Result<
    Seq<u8>,
    FileCryptoError,
> {
    match r {
        Ok(v) => Ok(v@),
        Err(e) => Err(e),
    }
}

/// Encrypts and decrypts application files with keys derived from one
/// master secret.
pub struct FileCipher {
    master: Vec<u8>,
}

impl FileCipher {
    /// The master secret.
    pub closed spec fn master(&self) -> Seq<u8> {
        self.master@
    }

    #[verifier::type_invariant]
    closed spec fn strong_enough(&self) -> bool {
        self.master@.len() >= MIN_MASTER_BYTES
    }

    /// A cipher over `master`; a secret shorter than 16 bytes is refused.
    pub fn new(master: &[u8]) -> (cipher: Result<FileCipher, FileCryptoError>)
        ensures
            master@.len() < MIN_MASTER_BYTES <==> cipher == Err::<FileCipher, _>(
                FileCryptoError::WeakMasterKey,
            ),
            master@.len() >= MIN_MASTER_BYTES <==> cipher is Ok,
            cipher matches Ok(c) ==> c.master() == master@,
    {
        if master.len() < MIN_MASTER_BYTES {
            return Err(FileCryptoError::WeakMasterKey);
        }
        Ok(FileCipher { master: slice_to_vec(master) })
    }

    /// A cipher over the secret of `PRICE_ENCRYPTION_KEY`, as read from the
    /// environment: without one the cipher is refused as missing.
    pub fn from_env(master: Option<&[u8]>) -> (cipher: Result<FileCipher, FileCryptoError>)
        ensures
            master is None ==> cipher == Err::<FileCipher, _>(FileCryptoError::MissingMasterKey),
            master matches Some(m) ==> (m@.len() < MIN_MASTER_BYTES <==> cipher == Err::<
                FileCipher,
                _,
            >(FileCryptoError::WeakMasterKey)),
            cipher matches Ok(c) ==> master is Some && c.master() == master->0@,
    {
        match master {
            Some(m) => FileCipher::new(m),
            None => Err(FileCryptoError::MissingMasterKey),
        }
    }

    /// The salt bytes of the key derivation.
    fn salt() -> (salt: Vec<u8>)
        ensures
            salt@ == key_salt(),
    {
        let text = "TOU.Rent application files v1";
        proof {
            reveal_strlit("TOU.Rent application files v1");
        }
        let salt = slice_to_vec(text.as_bytes());
        proof {
            vstd::string::is_ascii_spec_bytes(text);
            assert(salt@ =~= key_salt());
        }
        salt
    }

    /// The key of one application.
    fn application_key(&self, application_id: u128) -> (key: Result<Vec<u8>, FileCryptoError>)
        ensures
            key matches Ok(k) ==> k@ == application_key_of(self.master(), application_id)
                && k@.len() == 32,
            key is Ok,
    {
        let salt = Self::salt();
        let info = uuid_bytes(application_id);
        match hkdf_sha256_expand_32(salt.as_slice(), self.master.as_slice(), info.as_slice()) {
            Ok(key) => Ok(key),
            Err(()) => Err(FileCryptoError::KeyDerivation),
        }
    }

    /// Seals `plaintext` for one application. The envelope opens again with
    /// the same cipher and application id and gives back `plaintext`.
    pub fn encrypt(&self, application_id: u128, plaintext: &[u8]) -> (envelope: Result<
        Vec<u8>,
        FileCryptoError,
    >)
        ensures
            envelope is Err <==> plaintext@.len() > P_MAX,
            envelope is Err ==> envelope == Err::<Vec<u8>, _>(FileCryptoError::Encryption),
            envelope matches Ok(e) ==> e@.len() == 8 + NONCE_LEN + plaintext@.len() + 16,
            envelope matches Ok(e) ==> exists|nonce: Seq<u8>|
                #![auto]
                nonce.len() == NONCE_LEN && e@ == envelope_of(
                    nonce,
                    aes256_gcm_sealed(
                        application_key_of(self.master(), application_id),
                        nonce,
                        uuid_octets(application_id),
                        plaintext@,
                    ),
                ),
            envelope matches Ok(e) ==> decrypted(self.master(), application_id, e@) == Ok::<
                _,
                FileCryptoError,
            >(plaintext@),
    {
        let key = match self.application_key(application_id) {
            Ok(key) => key,
            Err(e) => return Err(e),
        };
        let nonce = crate::bytes::random_bytes(12);
        let aad = uuid_bytes(application_id);
        proof {
            assert(uuid_octets(application_id).len() == 16) by {
                crate::bytes::lemma_be_octets_len(application_id as nat, 16);
            }
        }
        let ciphertext = match aes256_gcm_seal(
            key.as_slice(),
            nonce.as_slice(),
            aad.as_slice(),
            plaintext,
        ) {
            Ok(c) => c,
            Err(()) => return Err(FileCryptoError::Encryption),
        };
        let mut envelope: Vec<u8> = vec![84u8, 79u8, 85u8, 82u8, 69u8, 78u8, 84u8, 49u8];
        let mut nonce_part = nonce.clone();
        let mut cipher_part = ciphertext.clone();
        envelope.append(&mut nonce_part);
        envelope.append(&mut cipher_part);
        proof {
            let e = envelope@;
            assert(e == envelope_of(nonce@, ciphertext@));
            assert(e.take(8) =~= magic());
            assert(e.subrange(8, 20) =~= nonce@);
            assert(e.skip(20) =~= ciphertext@);
        }
        Ok(envelope)
    }

    /// Opens an envelope of one application.
    pub fn decrypt(&self, application_id: u128, envelope: &[u8]) -> (plaintext: Result<
        Vec<u8>,
        FileCryptoError,
    >)
        ensures
            result_view(plaintext) == decrypted(self.master(), application_id, envelope@),
    {
        if envelope.len() < 8 {
            return Err(FileCryptoError::InvalidEnvelope);
        }
        let magic_ok = envelope[0] == 84u8 && envelope[1] == 79u8 && envelope[2] == 85u8
            && envelope[3] == 82u8 && envelope[4] == 69u8 && envelope[5] == 78u8 && envelope[6]
            == 84u8 && envelope[7] == 49u8;
        if !magic_ok {
            proof {
                assert(envelope@.take(8) != magic()) by {
                    if envelope@.take(8) == magic() {
                        assert(envelope@.take(8)[0] == magic()[0]);
                        assert(envelope@.take(8)[1] == magic()[1]);
                        assert(envelope@.take(8)[2] == magic()[2]);
                        assert(envelope@.take(8)[3] == magic()[3]);
                        assert(envelope@.take(8)[4] == magic()[4]);
                        assert(envelope@.take(8)[5] == magic()[5]);
                        assert(envelope@.take(8)[6] == magic()[6]);
                        assert(envelope@.take(8)[7] == magic()[7]);
                    }
                }
            }
            return Err(FileCryptoError::InvalidEnvelope);
        }
        assert(envelope@.take(8) =~= magic());
        if envelope.len() < 8 + NONCE_LEN {
            return Err(FileCryptoError::InvalidEnvelope);
        }
        let nonce = slice_subrange(envelope, 8, 20);
        let ciphertext = slice_subrange(envelope, 20, envelope.len());
        let key = match self.application_key(application_id) {
            Ok(key) => key,
            Err(e) => return Err(e),
        };
        let aad = uuid_bytes(application_id);
        match aes256_gcm_open(key.as_slice(), nonce, aad.as_slice(), ciphertext) {
            Some(p) => Ok(p),
            None => Err(FileCryptoError::Decryption),
        }
    }
}

} // verus!
