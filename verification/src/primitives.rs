//! The outside functions that the agent computes with: digests, ciphers, key
//! agreement, encodings and random numbers. Each is trusted to do what its
//! contract says.

use vstd::prelude::*;
use vstd::string::*;

use crate::text;

verus! {

// ---------------------------------------------------------------------------
// Digests and key derivation

/// The SHA-256 digest of `data`.
pub uninterp spec fn sha256_of(data: Seq<u8>) -> Seq<u8>;

/// `Sha256::digest`. Claimed: the 32 bytes depend on the data alone.
#[verifier::external_body]
pub(crate) fn sha256(data: &[u8]) -> (r: [u8; 32])
    ensures
        r@ == sha256_of(data@),
{
    <sha2::Sha256 as sha2::Digest>::digest(data).into()
}

/// What HKDF-SHA256 extracts from `salt` and `ikm` and expands with `info` to
/// `len` bytes.
pub uninterp spec fn hkdf_sha256_of(
    salt: Seq<u8>,
    ikm: Seq<u8>,
    info: Seq<u8>,
    len: nat,
) -> Seq<u8>;

/// `Hkdf::<Sha256>::new` with a salt, then `expand` to 32 bytes, a length that
/// `expand` always accepts. Claimed: the bytes depend on the salt, the key
/// material and the info alone.
#[verifier::external_body]
pub(crate) fn hkdf_sha256(salt: &[u8], ikm: &[u8], info: &[u8]) -> (r: [u8; 32])
    ensures
        r@ == hkdf_sha256_of(salt@, ikm@, info@, 32),
{
    let mut okm = [0u8; 32];
    hkdf::Hkdf::<sha2::Sha256>::new(Some(salt), ikm)
        .expand(info, &mut okm)
        .expect("32 bytes is a valid length for HKDF-SHA256");
    okm
}

// ---------------------------------------------------------------------------
// AES-256-GCM

#[verifier::external_type_specification]
#[verifier::external_body]
pub struct ExAeadError(aes_gcm::Error);

/// The longest plaintext that AES-GCM seals, in bytes.
pub const GCM_MAX_PLAINTEXT: u64 = 68719476736;

/// What AES-256-GCM seals `plaintext` to, tag at the end, with no associated
/// data.
pub uninterp spec fn gcm_sealed(key: Seq<u8>, nonce: Seq<u8>, plaintext: Seq<u8>) -> Seq<u8>;

/// What AES-256-GCM opens `ciphertext` to; `None` where the tag does not match.
pub uninterp spec fn gcm_opened(key: Seq<u8>, nonce: Seq<u8>, ciphertext: Seq<u8>) -> Option<
    Seq<u8>,
>;

/// `Aes256Gcm::encrypt` without associated data. Claimed: it fails just where
/// the plaintext is longer than 2^36 bytes; otherwise the result depends on the
/// key, the nonce and the plaintext alone, is 16 bytes longer than the
/// plaintext, opens to it under the same key and nonce, and with any other tag in
/// the place of its last 16 bytes does not open. A nonce of another length is not
/// accepted.
#[verifier::external_body]
pub(crate) fn gcm_seal(key: &[u8; 32], nonce: &[u8], plaintext: &[u8]) -> (r: Result<
    Vec<u8>,
    aes_gcm::Error,
>)
    requires
        nonce@.len() == 12,
    ensures
        r is Ok == (plaintext@.len() <= GCM_MAX_PLAINTEXT),
        r is Ok ==> r->Ok_0@ == gcm_sealed(key@, nonce@, plaintext@),
        r is Ok ==> r->Ok_0@.len() == plaintext@.len() + 16,
        r is Ok ==> gcm_opened(key@, nonce@, r->Ok_0@) == Some(plaintext@),
        r is Ok ==> forall|other: Seq<u8>|
            #![trigger gcm_opened(key@, nonce@, other)]
            other.len() == r->Ok_0@.len() && other != r->Ok_0@ && other.take(
                plaintext@.len() as int,
            ) == r->Ok_0@.take(plaintext@.len() as int) ==> gcm_opened(key@, nonce@, other) is None,
{
    let key = aes_gcm::Key::<aes_gcm::Aes256Gcm>::from_slice(key);
    let cipher = <aes_gcm::Aes256Gcm as aes_gcm::KeyInit>::new(key);
    aes_gcm::aead::Aead::encrypt(&cipher, aes_gcm::Nonce::from_slice(nonce), plaintext)
}

/// `Aes256Gcm::decrypt` without associated data. Claimed: whether it succeeds,
/// and with what, depends on the key, the nonce and the ciphertext alone; what
/// it opens is 16 bytes shorter than the ciphertext and, unless it is too long to
/// be sealed, is sealed to just this ciphertext under the same key and nonce. A
/// nonce of another length is not accepted.
#[verifier::external_body]
pub(crate) fn gcm_open(key: &[u8; 32], nonce: &[u8], ciphertext: &[u8]) -> (r: Result<
    Vec<u8>,
    aes_gcm::Error,
>)
    requires
        nonce@.len() == 12,
    ensures
        r is Ok == gcm_opened(key@, nonce@, ciphertext@) is Some,
        r is Ok ==> r->Ok_0@ == gcm_opened(key@, nonce@, ciphertext@)->0,
        r is Ok ==> r->Ok_0@.len() + 16 == ciphertext@.len(),
        r is Ok && r->Ok_0@.len() <= GCM_MAX_PLAINTEXT ==> ciphertext@ == gcm_sealed(
            key@,
            nonce@,
            r->Ok_0@,
        ),
{
    let key = aes_gcm::Key::<aes_gcm::Aes256Gcm>::from_slice(key);
    let cipher = <aes_gcm::Aes256Gcm as aes_gcm::KeyInit>::new(key);
    aes_gcm::aead::Aead::decrypt(&cipher, aes_gcm::Nonce::from_slice(nonce), ciphertext)
}

// ---------------------------------------------------------------------------
// X25519

#[verifier::external_type_specification]
#[verifier::external_body]
pub struct ExEphemeralSecret(x25519_dalek::EphemeralSecret);

/// The X25519 public key of a secret.
pub uninterp spec fn x25519_public(secret: x25519_dalek::EphemeralSecret) -> Seq<u8>;

/// The X25519 shared secret of a secret and a peer's public key.
pub uninterp spec fn x25519_shared(
    secret: x25519_dalek::EphemeralSecret,
    peer: Seq<u8>,
) -> Seq<u8>;

/// `EphemeralSecret::random_from_rng` with the operating system's generator.
/// Nothing is claimed of the secret: it is random. It panics where the operating
/// system has no randomness to give.
#[verifier::external_body]
pub(crate) fn x25519_random_secret() -> (r: x25519_dalek::EphemeralSecret) {
    x25519_dalek::EphemeralSecret::random_from_rng(rand::rngs::OsRng)
}

/// `PublicKey::from` a secret. Claimed: the 32 bytes depend on the secret alone.
#[verifier::external_body]
pub(crate) fn x25519_public_key(secret: &x25519_dalek::EphemeralSecret) -> (r: [u8; 32])
    ensures
        r@ == x25519_public(*secret),
{
    x25519_dalek::PublicKey::from(secret).to_bytes()
}

/// `EphemeralSecret::diffie_hellman`. Claimed: the 32 bytes depend on the secret
/// and the peer's public key alone, and they are what the peer computes from its
/// own secret and the public key of this one.
#[verifier::external_body]
pub(crate) fn x25519_agree(secret: x25519_dalek::EphemeralSecret, peer: &[u8; 32]) -> (r: [u8;
    32])
    ensures
        r@ == x25519_shared(secret, peer@),
        forall|other: x25519_dalek::EphemeralSecret|
            #![trigger x25519_public(other)]
            x25519_public(other) == peer@ ==> r@ == x25519_shared(other, x25519_public(secret)),
{
    secret.diffie_hellman(&x25519_dalek::PublicKey::from(*peer)).to_bytes()
}

// ---------------------------------------------------------------------------
// Encodings

/// The lower-case hexadecimal digit of `d`.
pub open spec fn hex_digit(d: int) -> char {
    if d < 10 {
        text::digit_char(d)
    } else if d == 10 {
        'a'
    } else if d == 11 {
        'b'
    } else if d == 12 {
        'c'
    } else if d == 13 {
        'd'
    } else if d == 14 {
        'e'
    } else {
        'f'
    }
}

/// `bytes` in lower-case hexadecimal, two digits to a byte, high digit first.
pub open spec fn hex_of(bytes: Seq<u8>) -> Seq<char> {
    Seq::new(
        bytes.len() * 2,
        |i: int|
            if i % 2 == 0 {
                hex_digit(bytes[i / 2] as int / 16)
            } else {
                hex_digit(bytes[i / 2] as int % 16)
            },
    )
}

/// `hex::encode`: the bytes in lower-case hexadecimal.
#[verifier::external_body]
pub(crate) fn hex_text(bytes: &[u8]) -> (r: String)
    requires
        bytes@.len() * 2 <= isize::MAX,
    ensures
        r@ == hex_of(bytes@),
{
    hex::encode(bytes)
}

/// The character of the standard base64 alphabet for `n`, which is less than 64.
pub open spec fn base64_char(n: int) -> char {
    if n < 26 {
        ('A' as int + n) as char
    } else if n < 52 {
        ('a' as int + (n - 26)) as char
    } else if n < 62 {
        ('0' as int + (n - 52)) as char
    } else if n == 62 {
        '+'
    } else {
        '/'
    }
}

/// The byte at place `i`, or 0 past the end.
pub open spec fn byte_or_zero(bytes: Seq<u8>, i: int) -> int {
    if i < bytes.len() {
        bytes[i] as int
    } else {
        0
    }
}

/// The standard padded base64 text of `bytes`: four characters for every three
/// bytes, six bits to a character with the high bits first, and `=` for each
/// character that no byte reaches.
pub open spec fn base64_of(bytes: Seq<u8>) -> Seq<char> {
    Seq::new(
        (bytes.len() + 2) / 3 * 4,
        |i: int|
            {
                let at = i / 4 * 3;
                let first = byte_or_zero(bytes, at);
                let second = byte_or_zero(bytes, at + 1);
                let third = byte_or_zero(bytes, at + 2);
                if i % 4 == 0 {
                    base64_char(first / 4)
                } else if i % 4 == 1 {
                    base64_char(first % 4 * 16 + second / 16)
                } else if i % 4 == 2 && at + 1 < bytes.len() {
                    base64_char(second % 16 * 4 + third / 64)
                } else if i % 4 == 3 && at + 2 < bytes.len() {
                    base64_char(third % 64)
                } else {
                    '='
                }
            },
    )
}

/// The base64 text of this many bytes is no longer than a text can be.
pub open spec fn encodable(len: nat) -> bool {
    len <= isize::MAX / 4 * 3
}

/// Whether the base64 text of this many bytes is no longer than a text can be.
pub fn can_encode(len: usize) -> (r: bool)
    ensures
        r == encodable(len as nat),
{
    len <= isize::MAX as usize / 4 * 3
}

/// Why a text is not base64.
#[derive(Debug, Clone, Copy, PartialEq, Eq, Structural)]
pub enum Base64Error {
    /// A byte that is no base64 symbol.
    InvalidByte { index: usize, byte: u8 },
    /// A number of symbols that no bytes give.
    InvalidLength { len: usize },
    /// A last symbol with bits that no byte takes.
    InvalidLastSymbol { index: usize, byte: u8 },
    /// Padding that is missing or out of place.
    InvalidPadding,
}

impl Base64Error {
    /// The text of the error.
    pub open spec fn text(self) -> Seq<char> {
        match self {
            Base64Error::InvalidByte { index, byte } => "Invalid symbol "@ + text::decimal(
                byte as nat,
            ) + ", offset "@ + text::decimal(index as nat) + "."@,
            Base64Error::InvalidLength { len } => "Invalid input length: "@ + text::decimal(
                len as nat,
            ),
            Base64Error::InvalidLastSymbol { index, byte } => "Invalid last symbol "@
                + text::decimal(byte as nat) + ", offset "@ + text::decimal(index as nat) + "."@,
            Base64Error::InvalidPadding => "Invalid padding"@,
        }
    }

    /// The text of the error.
    pub fn message(&self) -> (r: String)
        ensures
            r@ == self.text(),
    {
        match self {
            Base64Error::InvalidByte { index, byte } => text::cat5(
                "Invalid symbol ",
                text::decimal_text(*byte as u64).as_str(),
                ", offset ",
                text::decimal_text(*index as u64).as_str(),
                ".",
            ),
            Base64Error::InvalidLength { len } => text::cat2(
                "Invalid input length: ",
                text::decimal_text(*len as u64).as_str(),
            ),
            Base64Error::InvalidLastSymbol { index, byte } => text::cat5(
                "Invalid last symbol ",
                text::decimal_text(*byte as u64).as_str(),
                ", offset ",
                text::decimal_text(*index as u64).as_str(),
                ".",
            ),
            Base64Error::InvalidPadding => "Invalid padding".to_owned(),
        }
    }
}

/// What the standard base64 engine decodes `text` to, or its error.
pub uninterp spec fn base64_decoded(text: Seq<char>) -> Result<Seq<u8>, Base64Error>;

/// `general_purpose::STANDARD.encode`: the standard padded base64 text of the
/// bytes. Claimed too: the text decodes to them. It panics where the text would be
/// longer than a text can be.
#[verifier::external_body]
pub(crate) fn base64_encode(bytes: &[u8]) -> (r: String)
    requires
        encodable(bytes@.len()),
    ensures
        r@ == base64_of(bytes@),
        base64_decoded(r@) is Ok,
        base64_decoded(r@)->Ok_0 == bytes@,
{
    base64::Engine::encode(&base64::engine::general_purpose::STANDARD, bytes)
}

/// `general_purpose::STANDARD.decode`, each `DecodeError` as the error of the same
/// name. Claimed: the result, bytes or error, depends on the text alone.
#[verifier::external_body]
pub(crate) fn base64_decode(text: &str) -> (r: Result<Vec<u8>, Base64Error>)
    ensures
        r is Ok == base64_decoded(text@) is Ok,
        r is Ok ==> base64_decoded(text@)->Ok_0 == r->Ok_0@,
        r is Err ==> base64_decoded(text@)->Err_0 == r->Err_0,
{
    match base64::Engine::decode(&base64::engine::general_purpose::STANDARD, text) {
        Ok(bytes) => Ok(bytes),
        Err(base64::DecodeError::InvalidByte(index, byte)) => Err(
            Base64Error::InvalidByte { index, byte },
        ),
        Err(base64::DecodeError::InvalidLength(len)) => Err(Base64Error::InvalidLength { len }),
        Err(base64::DecodeError::InvalidLastSymbol(index, byte)) => Err(
            Base64Error::InvalidLastSymbol { index, byte },
        ),
        Err(base64::DecodeError::InvalidPadding) => Err(Base64Error::InvalidPadding),
    }
}

// ---------------------------------------------------------------------------
// Random values

/// `OsRng::fill_bytes` on a buffer of `n` bytes. Claimed of the random bytes:
/// their number. It panics where the operating system has no randomness to give.
#[verifier::external_body]
pub(crate) fn random_bytes(n: usize) -> (r: Vec<u8>)
    ensures
        r@.len() == n,
{
    let mut bytes = vec![0u8; n];
    rand::RngCore::fill_bytes(&mut rand::rngs::OsRng, &mut bytes);
    bytes
}

/// Whether `s` is a random UUID in its usual form: 36 characters, hyphens that
/// part groups of 8, 4, 4, 4 and 12 lower-case hexadecimal digits, the digit 4
/// for its version and one of 8, 9, a and b for its variant.
pub open spec fn is_uuid_v4(s: Seq<char>) -> bool {
    &&& s.len() == 36
    &&& forall|i: int|
        0 <= i < 36 ==> if i == 8 || i == 13 || i == 18 || i == 23 {
            #[trigger] s[i] == '-'
        } else {
            '0' <= s[i] <= '9' || 'a' <= s[i] <= 'f'
        }
    &&& s[14] == '4'
    &&& (s[19] == '8' || s[19] == '9' || s[19] == 'a' || s[19] == 'b')
}

/// `Uuid::new_v4` as it displays itself. Claimed of the random text: its form. It
/// panics where the operating system has no randomness to give.
#[verifier::external_body]
pub(crate) fn random_uuid() -> (r: String)
    ensures
        is_uuid_v4(r@),
{
    uuid::Uuid::new_v4().to_string()
}

} // verus!
