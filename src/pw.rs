//! Password transport and storage hashing.
//!
//! A client encrypts the password with the server's RSA public key
//! (PKCS#1 v1.5 padding) and sends it base64 encoded, together with a salt
//! of its choice in unpadded base64. The server decrypts the password and
//! hashes it with Argon2 under an effective salt: the decoded salt followed
//! by a server-wide secret pepper. The pepper is never stored with the
//! hash, yet the salt embedded in the resulting PHC string is the
//! pepper-extended one.
use argon2::{Argon2, Params};
use base64::engine::general_purpose::{STANDARD, STANDARD_NO_PAD};
use base64::Engine;
use rsa::pkcs1::EncodeRsaPublicKey;
use rsa::pkcs8::LineEnding;
use rsa::{Pkcs1v15Encrypt, RsaPrivateKey, RsaPublicKey};
use vstd::prelude::*;
use vstd::string::StringSliceAdditionalSpecFns;
use vstd::utf8::encode_utf8;

verus! {

#[verifier::external_type_specification]
#[verifier::external_body]
pub struct ExRsaPrivateKey(rsa::RsaPrivateKey);

#[verifier::external_type_specification]
#[verifier::external_body]
pub struct ExRsaError(rsa::Error);

#[verifier::external_type_specification]
#[verifier::external_body]
pub struct ExPkcs1Error(rsa::pkcs1::Error);

#[verifier::external_type_specification]
#[verifier::external_body]
pub struct ExDecodeError(base64::DecodeError);

#[verifier::external_type_specification]
#[verifier::external_body]
pub struct ExArgon2Error(argon2::Error);

/// The longest pepper that a server may be configured with, in bytes.
pub const MAX_PEPPER_LEN: usize = 32;

/// The shortest effective salt that is accepted, in bytes; Argon2 takes
/// no shorter one.
pub const MIN_SALT_LEN: usize = 8;

/// The longest effective salt that is accepted, in bytes.
pub const MAX_SALT_LEN: usize = 64;

/// The longest password that Argon2 takes, in bytes.
pub const MAX_PASSWORD_LEN: usize = 0xFFFF_FFFF;

/// The start of every hash string: the PHC identifier, version and
/// parameters of Argon2's defaults (Argon2id, version 19, 19 MiB of
/// memory, two passes, one lane), ending in the separator before the salt.
pub const PHC_PREFIX: &'static str = "$argon2id$v=19$m=19456,t=2,p=1$";

/// The bytes that standard, padded base64 text decodes to, if it is valid.
pub uninterp spec fn padded_b64_decoded(s: Seq<char>) -> Option<Seq<u8>>;

/// The bytes that standard base64 text without padding decodes to, if it is valid.
pub uninterp spec fn unpadded_b64_decoded(s: Seq<char>) -> Option<Seq<u8>>;

/// The standard base64 text of bytes, without padding: the B64 form that
/// PHC strings write salts and digests in.
pub uninterp spec fn unpadded_b64_text(b: Seq<u8>) -> Seq<char>;

/// The text that bytes stand for when read as UTF-8, with each invalid
/// sequence replaced by U+FFFD.
pub uninterp spec fn lossy_utf8(b: Seq<u8>) -> Seq<char>;

/// The 32-byte Argon2 digest, with default parameters, of a password under a salt.
pub uninterp spec fn argon2id_digest(password: Seq<u8>, salt: Seq<u8>) -> Seq<u8>;

/// The message that PKCS#1 v1.5 decryption with `key` recovers from a
/// ciphertext, if the ciphertext is well formed for that key.
pub uninterp spec fn pkcs1v15_plaintext(key: RsaPrivateKey, ciphertext: Seq<u8>) -> Option<Seq<u8>>;

/// The PKCS#1 PEM text, with CRLF line endings, of the public half of a key.
pub uninterp spec fn public_key_pem_text(key: RsaPrivateKey) -> Seq<char>;

/// Whether every line feed of `s` ends a CRLF pair.
pub open spec fn crlf_lines(s: Seq<char>) -> bool {
    forall|i: int| 0 <= i < s.len() && #[trigger] s[i] == '\n' ==> i > 0 && s[i - 1] == '\r'
}

/// Whether `s` has the form of a PKCS#1 RSA public key in PEM with CRLF
/// line endings.
pub open spec fn pkcs1_public_pem_form(s: Seq<char>) -> bool {
    let begin = "-----BEGIN RSA PUBLIC KEY-----\r\n"@;
    let end = "\r\n-----END RSA PUBLIC KEY-----\r\n"@;
    &&& s.len() >= begin.len() + end.len()
    &&& s.subrange(0, begin.len() as int) == begin
    &&& s.subrange(s.len() - end.len(), s.len() as int) == end
    &&& crlf_lines(s)
}

/// Relies on `base64`'s `Engine::decode` with the standard padded engine.
#[verifier::external_body]
fn decode_padded(s: &str) -> (r: Result<Vec<u8>, base64::DecodeError>)
    ensures
        match padded_b64_decoded(s@) {
            Some(b) => r matches Ok(v) && v@ == b,
            None => r is Err,
        },
{
    STANDARD.decode(s)
}

/// Relies on `base64`'s `Engine::decode` with the standard engine that
/// neither writes nor accepts padding.
#[verifier::external_body]
fn decode_unpadded(s: &str) -> (r: Result<Vec<u8>, base64::DecodeError>)
    ensures
        match unpadded_b64_decoded(s@) {
            Some(b) => r matches Ok(v) && v@ == b,
            None => r is Err,
        },
{
    STANDARD_NO_PAD.decode(s)
}

/// Relies on `base64`'s `Engine::encode` with the standard engine that
/// writes no padding.
#[verifier::external_body]
fn encode_unpadded(b: &[u8]) -> (r: String)
    ensures
        r@ == unpadded_b64_text(b@),
{
    STANDARD_NO_PAD.encode(b)
}

/// Relies on `String::from_utf8_lossy`: the text depends on the bytes alone.
#[verifier::external_body]
fn utf8_lossy(b: &[u8]) -> (r: String)
    ensures
        r@ == lossy_utf8(b@),
{
    String::from_utf8_lossy(b).into_owned()
}

/// Relies on `rsa`'s `RsaPrivateKey::decrypt` with PKCS#1 v1.5 padding.
/// Without a random source it decrypts without blinding, so the result
/// depends on the key and the ciphertext alone; every failure is one
/// opaque error.
#[verifier::external_body]
fn rsa_decrypt(key: &RsaPrivateKey, ciphertext: &[u8]) -> (r: Result<Vec<u8>, rsa::Error>)
    ensures
        match pkcs1v15_plaintext(*key, ciphertext@) {
            Some(p) => r matches Ok(v) && v@ == p,
            None => r is Err,
        },
{
    key.decrypt(Pkcs1v15Encrypt, ciphertext)
}

/// Relies on `rsa`'s `EncodeRsaPublicKey::to_pkcs1_pem`, applied to the
/// public half of the key, with CRLF line endings. It fails only past DER
/// length limits that no RSA key reaches; the PEM encoder writes a CRLF
/// after the opening boundary, between lines and around the closing one.
#[verifier::external_body]
fn public_key_pem(key: &RsaPrivateKey) -> (r: Result<String, rsa::pkcs1::Error>)
    ensures
        r is Ok,
        r matches Ok(s) ==> s@ == public_key_pem_text(*key),
        r matches Ok(s) ==> pkcs1_public_pem_form(s@),
{
    RsaPublicKey::from(key).to_pkcs1_pem(LineEnding::CRLF)
}

/// Relies on `argon2`'s `Argon2::hash_password_into` on `Argon2::default()`,
/// with the default 32-byte output. It fails only where its input check
/// does: a password longer than `0xFFFF_FFFF` bytes, or a salt shorter than
/// 8 or longer than `0xFFFF_FFFF` bytes.
#[verifier::external_body]
fn argon2_digest(password: &[u8], salt: &[u8]) -> (r: Result<Vec<u8>, argon2::Error>)
    ensures
        r is Ok <==> (8 <= salt@.len() <= 0xFFFF_FFFF && password@.len() <= 0xFFFF_FFFF),
        r matches Ok(d) ==> d@ == argon2id_digest(password@, salt@),
{
    let mut out = vec![0u8; Params::DEFAULT_OUTPUT_LEN];
    Argon2::default().hash_password_into(password, salt, &mut out).map(|()| out)
}

/// Why a password could not be turned into a hash.
#[derive(Clone, Copy, Debug, PartialEq, Eq, Structural)]
pub enum PwError {
    /// The encrypted password or the salt is not valid base64.
    BadEncoding,
    /// The encrypted password could not be decrypted with the server's key.
    Decryption,
    /// The effective salt is too short or too long for the hash.
    InvalidSalt,
    /// The hash function failed.
    Hash,
}

impl PwError {
    /// The HTTP status that reports this error: a client error for malformed
    /// input, a server error for a failure inside decryption or hashing.
    pub fn status_code(&self) -> (r: u16)
        ensures
            r == match self {
                PwError::BadEncoding | PwError::InvalidSalt => 400u16,
                PwError::Decryption | PwError::Hash => 500u16,
            },
    {
        match self {
            PwError::BadEncoding | PwError::InvalidSalt => 400,
            PwError::Decryption | PwError::Hash => 500,
        }
    }
}

/// Why the password state could not be set up.
#[derive(Clone, Copy, Debug, PartialEq, Eq, Structural)]
pub enum InitError {
    /// The pepper is longer than [`MAX_PEPPER_LEN`] bytes.
    PepperTooLong,
}

/// The salt that the hash is computed under: the caller's salt followed by the pepper.
pub open spec fn effective_salt(salt: Seq<u8>, pepper: Seq<u8>) -> Seq<u8> {
    salt + pepper
}

/// Whether an effective salt of `n` bytes is accepted.
pub open spec fn salt_len_ok(n: int) -> bool {
    MIN_SALT_LEN <= n <= MAX_SALT_LEN
}

/// The PHC string of an Argon2 hash with default parameters: the prefix,
/// the salt and the digest, the last two in unpadded B64.
pub open spec fn phc_string(salt: Seq<u8>, digest: Seq<u8>) -> Seq<char> {
    PHC_PREFIX@ + unpadded_b64_text(salt) + "$"@ + unpadded_b64_text(digest)
}

/// What hashing `password` under the unpadded base64 salt `salt` and
/// `pepper` gives: `BadEncoding` for a salt that does not decode,
/// `InvalidSalt` for an effective salt of the wrong length, `Hash` for a
/// password too long for Argon2, and otherwise the PHC string of the Argon2
/// hash under the effective salt.
pub open spec fn hash_result(pepper: Seq<u8>, salt: Seq<char>, password: Seq<u8>) -> Result<
    Seq<char>,
    PwError,
> {
    match unpadded_b64_decoded(salt) {
        None => Err(PwError::BadEncoding),
        Some(d) => {
            let eff = effective_salt(d, pepper);
            if !salt_len_ok(eff.len() as int) {
                Err(PwError::InvalidSalt)
            } else if password.len() > MAX_PASSWORD_LEN {
                Err(PwError::Hash)
            } else {
                Ok(phc_string(eff, argon2id_digest(password, eff)))
            }
        },
    }
}

/// The text of a hash result.
pub open spec fn result_text(r: Result<String, PwError>) -> Result<Seq<char>, PwError> {
    match r {
        Ok(h) => Ok(h@),
        Err(e) => Err(e),
    }
}

/// Hashing is a function of its inputs: two runs on the same pepper, salt
/// and password give the same outcome, the same hash string or the same
/// error.
pub proof fn lemma_hash_deterministic(
    pepper: Seq<u8>,
    salt: Seq<char>,
    password: Seq<u8>,
    r1: Result<String, PwError>,
    r2: Result<String, PwError>,
)
    requires
        result_text(r1) == hash_result(pepper, salt, password),
        result_text(r2) == hash_result(pepper, salt, password),
    ensures
        r1 is Ok <==> r2 is Ok,
        r1 is Ok ==> r1->Ok_0@ == r2->Ok_0@,
        r1 is Err ==> r1 == r2,
{
}

/// The hash depends on the salt and the pepper only through the effective
/// salt: two salt and pepper pairs with the same effective salt hash a
/// password alike.
pub proof fn lemma_hash_depends_on_effective_salt(
    pepper1: Seq<u8>,
    salt1: Seq<char>,
    pepper2: Seq<u8>,
    salt2: Seq<char>,
    password: Seq<u8>,
)
    requires
        unpadded_b64_decoded(salt1) is Some,
        unpadded_b64_decoded(salt2) is Some,
        effective_salt(unpadded_b64_decoded(salt1)->0, pepper1) == effective_salt(
            unpadded_b64_decoded(salt2)->0,
            pepper2,
        ),
    ensures
        hash_result(pepper1, salt1, password) == hash_result(pepper2, salt2, password),
{
}

/// Changing only the pepper changes the effective salt that the hash is
/// computed under, and so the salt that the hash string embeds is written from.
pub proof fn lemma_pepper_changes_salt(salt: Seq<u8>, pepper1: Seq<u8>, pepper2: Seq<u8>)
    requires
        pepper1 != pepper2,
    ensures
        effective_salt(salt, pepper1) != effective_salt(salt, pepper2),
{
    let e1 = effective_salt(salt, pepper1);
    let e2 = effective_salt(salt, pepper2);
    if e1 == e2 {
        assert(pepper1 =~= e1.subrange(salt.len() as int, e1.len() as int));
        assert(pepper2 =~= e2.subrange(salt.len() as int, e2.len() as int));
    }
}

/// Hashes `passphrase` with Argon2 under the salt given as unpadded base64
/// in `salt`, extended by `pepper`, and returns the PHC string.
///
/// An effective salt outside [`MIN_SALT_LEN`]..=[`MAX_SALT_LEN`] bytes is
/// refused, never cut or padded.
pub fn hash_secret(pepper: &[u8], salt: &str, passphrase: &[u8]) -> (r: Result<String, PwError>)
    ensures
        result_text(r) == hash_result(pepper@, salt@, passphrase@),
{
    let mut eff = match decode_unpadded(salt) {
        Ok(d) => d,
        Err(_) => {
            return Err(PwError::BadEncoding);
        },
    };
    let ghost decoded = eff@;
    eff.extend_from_slice(pepper);
    assert(eff@ =~= effective_salt(decoded, pepper@));
    if eff.len() < MIN_SALT_LEN || eff.len() > MAX_SALT_LEN {
        return Err(PwError::InvalidSalt);
    }
    let digest = match argon2_digest(passphrase, eff.as_slice()) {
        Ok(d) => d,
        Err(_) => {
            return Err(PwError::Hash);
        },
    };
    let salt_text = encode_unpadded(eff.as_slice());
    let digest_text = encode_unpadded(digest.as_slice());
    let h = String::from_str(PHC_PREFIX).concat(salt_text.as_str()).concat("$").concat(
        digest_text.as_str(),
    );
    Ok(h)
}

/// The server's credential state: its RSA key, the PEM text of the public
/// key that clients encrypt passwords with, and the pepper.
pub struct PasswordState {
    key: RsaPrivateKey,
    pub pub_key: String,
    pub pepper: Vec<u8>,
}

impl PasswordState {
    /// The private key.
    pub closed spec fn private_key(&self) -> RsaPrivateKey {
        self.key
    }

    /// The pepper's bytes.
    pub closed spec fn pepper_bytes(&self) -> Seq<u8> {
        self.pepper@
    }

    /// The published public key's text.
    pub closed spec fn pub_key_text(&self) -> Seq<char> {
        self.pub_key@
    }

    /// Whether the state meets the configuration invariant: the pepper is
    /// at most [`MAX_PEPPER_LEN`] bytes long.
    pub open spec fn wf(&self) -> bool {
        self.pepper_bytes().len() <= MAX_PEPPER_LEN
    }

    /// Sets up the state from the pepper and the private key, publishing
    /// the public half of the key as PKCS#1 PEM with CRLF line endings. A
    /// pepper longer than [`MAX_PEPPER_LEN`] bytes is refused.
    pub fn init(pepper: Vec<u8>, key: RsaPrivateKey) -> (r: Result<PasswordState, InitError>)
        ensures
            pepper@.len() > MAX_PEPPER_LEN ==> r == Err::<PasswordState, InitError>(
                InitError::PepperTooLong,
            ),
            pepper@.len() <= MAX_PEPPER_LEN ==> r is Ok,
            r matches Ok(s) ==> s.wf() && s.pepper_bytes() == pepper@ && s.private_key() == key
                && s.pub_key_text() == public_key_pem_text(key) && pkcs1_public_pem_form(
                s.pub_key_text(),
            ),
    {
        if pepper.len() > MAX_PEPPER_LEN {
            return Err(InitError::PepperTooLong);
        }
        let pub_key = public_key_pem(&key).unwrap();
        Ok(PasswordState { key, pub_key, pepper })
    }

    /// Decrypts a message that was encrypted with the public key; a
    /// malformed or foreign ciphertext gives `Decryption`, with no detail.
    pub fn decrypt(&self, message: &[u8]) -> (r: Result<Vec<u8>, PwError>)
        ensures
            match pkcs1v15_plaintext(self.private_key(), message@) {
                Some(p) => r matches Ok(v) && v@ == p,
                None => r == Err::<Vec<u8>, PwError>(PwError::Decryption),
            },
    {
        match rsa_decrypt(&self.key, message) {
            Ok(m) => Ok(m),
            Err(_) => Err(PwError::Decryption),
        }
    }

    /// Hashes a password given in plain text, under the base64 salt `salt`
    /// and this state's pepper.
    pub fn pw_hash_raw(&self, salt: &str, password: &str) -> (r: Result<String, PwError>)
        ensures
            result_text(r) == hash_result(self.pepper_bytes(), salt@, encode_utf8(password@)),
    {
        hash_secret(self.pepper.as_slice(), salt, password.as_bytes())
    }

    /// Hashes a decrypted password: its bytes are read as UTF-8, invalid
    /// sequences replaced, and the text is hashed as [`Self::pw_hash_raw`] does.
    pub fn hash_decrypted(&self, salt: &str, plaintext: &[u8]) -> (r: Result<String, PwError>)
        ensures
            result_text(r) == hash_result(
                self.pepper_bytes(),
                salt@,
                encode_utf8(lossy_utf8(plaintext@)),
            ),
    {
        let password = utf8_lossy(plaintext);
        self.pw_hash_raw(salt, password.as_str())
    }

    /// Hashes a password that arrives encrypted with the public key and
    /// base64 encoded, under the base64 salt `salt` and this state's
    /// pepper: the decrypted text is hashed as [`Self::pw_hash_raw`] does.
    pub fn pw_hash(&self, salt: &str, password: &str) -> (r: Result<String, PwError>)
        ensures
            match padded_b64_decoded(password@) {
                None => r == Err::<String, PwError>(PwError::BadEncoding),
                Some(c) => match pkcs1v15_plaintext(self.private_key(), c) {
                    None => r == Err::<String, PwError>(PwError::Decryption),
                    Some(p) => result_text(r) == hash_result(
                        self.pepper_bytes(),
                        salt@,
                        encode_utf8(lossy_utf8(p)),
                    ),
                },
            },
    {
        let bytes = match decode_padded(password) {
            Ok(b) => b,
            Err(_) => {
                return Err(PwError::BadEncoding);
            },
        };
        let plaintext = match self.decrypt(bytes.as_slice()) {
            Ok(p) => p,
            Err(e) => {
                return Err(e);
            },
        };
        self.hash_decrypted(salt, plaintext.as_slice())
    }
}

} // verus!
