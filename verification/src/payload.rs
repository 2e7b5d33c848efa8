//! Job payloads: the padding they arrive in, and the AES-256-GCM frames that
//! carry them and the results.

use vstd::prelude::*;
use vstd::slice::*;
use vstd::string::*;

use crate::primitives;
use crate::text;

verus! {

/// The length of the nonce in front of a sealed payload.
pub const NONCE_SIZE: usize = 12;

/// The length of an AES-256 key.
pub const AEAD_KEY_SIZE: usize = 32;

/// The length of the authentication tag at the end of a sealed payload.
pub const TAG_SIZE: usize = 16;

/// The length of the size trailer at the end of a padded payload.
pub const PADDING_TRAILER_SIZE: usize = 8;

/// Why a payload could not be taken apart or put together.
#[derive(Debug, Clone, Copy, PartialEq, Eq, Structural)]
pub enum PayloadError {
    /// A padded payload has no room for its trailer.
    PaddedTooShort { len: usize },
    /// A trailer states more bytes than stand before it.
    InvalidOriginalSize { size: usize, len: usize },
    /// A sealed payload has no room for its nonce and tag.
    CiphertextTooShort { len: usize },
    /// A sealed payload does not open under the key.
    DecryptionFailed,
    /// A payload is too long to be sealed.
    EncryptionFailed,
}

impl PayloadError {
    /// The text of the error.
    pub open spec fn text(self) -> Seq<char> {
        match self {
            PayloadError::PaddedTooShort { len } => "padded payload is too short: "@ + text::decimal(
                len as nat,
            ) + " bytes"@,
            PayloadError::InvalidOriginalSize { size, len } => "invalid original size "@ + text::decimal(
                size as nat,
            ) + " for padded payload of "@ + text::decimal(len as nat) + " bytes"@,
            PayloadError::CiphertextTooShort { len } => "ciphertext too short: "@ + text::decimal(
                len as nat,
            ) + " bytes"@,
            PayloadError::DecryptionFailed => "AES-256-GCM decryption failed: Error"@,
            PayloadError::EncryptionFailed => "AES-256-GCM encryption failed: Error"@,
        }
    }

    /// The text of the error.
    pub fn message(&self) -> (r: String)
        ensures
            r@ == self.text(),
    {
        match self {
            PayloadError::PaddedTooShort { len } => text::cat3(
                "padded payload is too short: ",
                text::decimal_text(*len as u64).as_str(),
                " bytes",
            ),
            PayloadError::InvalidOriginalSize { size, len } => text::cat5(
                "invalid original size ",
                text::decimal_text(*size as u64).as_str(),
                " for padded payload of ",
                text::decimal_text(*len as u64).as_str(),
                " bytes",
            ),
            PayloadError::CiphertextTooShort { len } => text::cat3(
                "ciphertext too short: ",
                text::decimal_text(*len as u64).as_str(),
                " bytes",
            ),
            PayloadError::DecryptionFailed => "AES-256-GCM decryption failed: Error".to_owned(),
            PayloadError::EncryptionFailed => "AES-256-GCM encryption failed: Error".to_owned(),
        }
    }
}

// ---------------------------------------------------------------------------
// Padding

/// The number that `bytes` stand for, most significant byte first.
pub open spec fn be_value(bytes: Seq<u8>) -> nat
    decreases bytes.len(),
{
    if bytes.len() == 0 {
        0
    } else {
        be_value(bytes.drop_last()) * 256 + bytes.last() as nat
    }
}

/// The `len` low bytes of `n`, most significant byte first.
pub open spec fn be_bytes(n: nat, len: nat) -> Seq<u8>
    decreases len,
{
    if len == 0 {
        seq![]
    } else {
        be_bytes(n / 256, (len - 1) as nat).push((n % 256) as u8)
    }
}

/// The size that the trailer of a padded payload states, as the machine's size
/// type holds it.
pub open spec fn stated_size(padded: Seq<u8>) -> usize {
    (be_value(padded.skip(padded.len() - PADDING_TRAILER_SIZE)) as u64) as usize
}

/// What a padded payload unpads to: as many of its first bytes as its trailer
/// states.
pub open spec fn unpadded(padded: Seq<u8>) -> Result<Seq<u8>, PayloadError> {
    if padded.len() < PADDING_TRAILER_SIZE {
        Err(PayloadError::PaddedTooShort { len: padded.len() as usize })
    } else if stated_size(padded) > padded.len() - PADDING_TRAILER_SIZE {
        Err(
            PayloadError::InvalidOriginalSize {
                size: stated_size(padded),
                len: padded.len() as usize,
            },
        )
    } else {
        Ok(padded.take(stated_size(padded) as int))
    }
}

/// Takes the padding off a payload.
pub fn unpad_payload(padded: &[u8]) -> (r: Result<Vec<u8>, PayloadError>)
    ensures
        r is Ok == unpadded(padded@) is Ok,
        r is Ok ==> r->Ok_0@ == unpadded(padded@)->Ok_0,
        r is Err ==> r->Err_0 == unpadded(padded@)->Err_0,
{
    let n: usize = padded.len();
    if n < PADDING_TRAILER_SIZE {
        return Err(PayloadError::PaddedTooShort { len: n });
    }
    let start: usize = n - PADDING_TRAILER_SIZE;
    let mut value: u64 = 0;
    let mut i: usize = 0;
    let ghost trailer = padded@.skip(start as int);
    while i < PADDING_TRAILER_SIZE
        invariant
            n == padded@.len(),
            start == n - PADDING_TRAILER_SIZE,
            trailer == padded@.skip(start as int),
            i <= PADDING_TRAILER_SIZE,
            value == be_value(trailer.take(i as int)),
            i == 0 ==> value == 0,
            i == 1 ==> value <= 0xff,
            i == 2 ==> value <= 0xffff,
            i == 3 ==> value <= 0xff_ffff,
            i == 4 ==> value <= 0xffff_ffff,
            i == 5 ==> value <= 0xff_ffff_ffff,
            i == 6 ==> value <= 0xffff_ffff_ffff,
            i == 7 ==> value <= 0xff_ffff_ffff_ffff,
        decreases PADDING_TRAILER_SIZE - i,
    {
        assert(trailer.take(i + 1).drop_last() =~= trailer.take(i as int));
        value = value * 256 + padded[start + i] as u64;
        i = i + 1;
    }
    assert(trailer.take(i as int) =~= trailer);
    let size: usize = value as usize;
    if size > start {
        return Err(PayloadError::InvalidOriginalSize { size, len: n });
    }
    Ok(slice_to_vec(slice_subrange(padded, 0, size)))
}

proof fn lemma_be_round_trip(n: nat, len: nat)
    requires
        n < vstd::arithmetic::power::pow(256, len),
    ensures
        be_bytes(n, len).len() == len,
        be_value(be_bytes(n, len)) == n,
    decreases len,
{
    reveal(vstd::arithmetic::power::pow);
    if len > 0 {
        let k = (len - 1) as nat;
        assert(n / 256 < vstd::arithmetic::power::pow(256, k)) by (nonlinear_arith)
            requires
                n < 256 * vstd::arithmetic::power::pow(256, k),
        ;
        lemma_be_round_trip(n / 256, k);
        assert(be_bytes(n, len).drop_last() =~= be_bytes(n / 256, k));
    }
}

/// A payload that was padded, whatever filler it was padded with, unpads to what
/// it was: the filler follows the payload, and the payload's size, in eight bytes
/// with the most significant first, ends it.
pub proof fn law_unpad_undoes_padding(original: Seq<u8>, filler: Seq<u8>)
    requires
        original.len() + filler.len() + PADDING_TRAILER_SIZE <= usize::MAX,
    ensures
        unpadded(original + filler + be_bytes(original.len(), PADDING_TRAILER_SIZE as nat)) == Ok::<
            Seq<u8>,
            PayloadError,
        >(original),
{
    let trailer = be_bytes(original.len(), 8);
    let padded = original + filler + trailer;
    assert(vstd::arithmetic::power::pow(256, 8) == 0x1_0000_0000_0000_0000) by {
        reveal(vstd::arithmetic::power::pow);
        reveal_with_fuel(vstd::arithmetic::power::pow, 9);
    }
    lemma_be_round_trip(original.len(), 8);
    assert(padded.skip(padded.len() - 8) =~= trailer);
    assert(padded.take(original.len() as int) =~= original);
}

/// Whatever unpads is the front of the padded payload, and leaves the trailer
/// behind.
pub proof fn law_unpad_gives_a_front(padded: Seq<u8>)
    ensures
        unpadded(padded) is Ok ==> {
            let plain = unpadded(padded)->Ok_0;
            plain.len() + PADDING_TRAILER_SIZE <= padded.len() && plain == padded.take(
                plain.len() as int,
            )
        },
{
}

// ---------------------------------------------------------------------------
// AES-256-GCM frames

/// What a sealed payload opens to under a key: its first bytes are the nonce,
/// the rest is the ciphertext with its tag.
pub open spec fn decrypted(encrypted: Seq<u8>, aes_key: Seq<u8>) -> Result<Seq<u8>, PayloadError> {
    if encrypted.len() < NONCE_SIZE + TAG_SIZE {
        Err(PayloadError::CiphertextTooShort { len: encrypted.len() as usize })
    } else {
        match primitives::gcm_opened(
            aes_key,
            encrypted.take(NONCE_SIZE as int),
            encrypted.skip(NONCE_SIZE as int),
        ) {
            Some(plain) => Ok(plain),
            None => Err(PayloadError::DecryptionFailed),
        }
    }
}

/// The sealed payload of `plaintext` under a key and a nonce: the nonce, then the
/// ciphertext with its tag.
pub open spec fn sealed(plaintext: Seq<u8>, aes_key: Seq<u8>, nonce: Seq<u8>) -> Seq<u8> {
    nonce + primitives::gcm_sealed(aes_key, nonce, plaintext)
}

/// The two frames differ, and only in the tag at their end.
pub open spec fn differ_in_tag(a: Seq<u8>, b: Seq<u8>) -> bool {
    &&& a != b
    &&& a.len() == b.len() >= NONCE_SIZE + TAG_SIZE
    &&& a.take(a.len() - TAG_SIZE) == b.take(b.len() - TAG_SIZE)
}

/// No frame that differs from this one in its tag opens under the key.
pub open spec fn tag_is_checked(frame: Seq<u8>, aes_key: Seq<u8>) -> bool {
    forall|other: Seq<u8>|
        #![trigger decrypted(other, aes_key)]
        differ_in_tag(frame, other) ==> decrypted(other, aes_key) == Err::<Seq<u8>, PayloadError>(
            PayloadError::DecryptionFailed,
        )
}

/// Opens a sealed payload. What opens is what it was sealed from: sealed again
/// under the same nonce, it gives the same bytes.
pub fn decrypt_payload(encrypted: &[u8], aes_key: &[u8; AEAD_KEY_SIZE]) -> (r: Result<
    Vec<u8>,
    PayloadError,
>)
    ensures
        r is Ok == decrypted(encrypted@, aes_key@) is Ok,
        r is Ok ==> r->Ok_0@ == decrypted(encrypted@, aes_key@)->Ok_0,
        r is Ok ==> r->Ok_0@.len() + NONCE_SIZE + TAG_SIZE == encrypted@.len(),
        r is Ok && r->Ok_0@.len() <= primitives::GCM_MAX_PLAINTEXT ==> encrypted@ == sealed(
            r->Ok_0@,
            aes_key@,
            encrypted@.take(NONCE_SIZE as int),
        ),
        r is Err ==> r->Err_0 == decrypted(encrypted@, aes_key@)->Err_0,
        r is Ok == (encrypted@.len() >= 28 && primitives::gcm_opened(
            aes_key@,
            encrypted@.subrange(0, 12),
            encrypted@.subrange(12, encrypted@.len() as int),
        ) is Some),
        r is Ok ==> Some(r->Ok_0@) == primitives::gcm_opened(
            aes_key@,
            encrypted@.subrange(0, 12),
            encrypted@.subrange(12, encrypted@.len() as int),
        ),
{
    let n: usize = encrypted.len();
    if n < NONCE_SIZE + TAG_SIZE {
        return Err(PayloadError::CiphertextTooShort { len: n });
    }
    let nonce: &[u8] = slice_subrange(encrypted, 0, NONCE_SIZE);
    let ciphertext: &[u8] = slice_subrange(encrypted, NONCE_SIZE, n);
    assert(nonce@ =~= encrypted@.take(NONCE_SIZE as int));
    assert(ciphertext@ =~= encrypted@.skip(NONCE_SIZE as int));
    assert(encrypted@ =~= nonce@ + ciphertext@);
    assert(encrypted@.subrange(0, 12) =~= nonce@);
    assert(encrypted@.subrange(12, encrypted@.len() as int) =~= ciphertext@);
    match primitives::gcm_open(aes_key, nonce, ciphertext) {
        Ok(plain) => Ok(plain),
        Err(_) => Err(PayloadError::DecryptionFailed),
    }
}

/// Seals a payload under a nonce that the caller chose.
pub fn encrypt_with_nonce(
    plaintext: &[u8],
    aes_key: &[u8; AEAD_KEY_SIZE],
    nonce: &[u8],
) -> (r: Result<Vec<u8>, PayloadError>)
    requires
        nonce@.len() == NONCE_SIZE,
    ensures
        r is Ok == (plaintext@.len() <= primitives::GCM_MAX_PLAINTEXT),
        r is Ok ==> r->Ok_0@ == sealed(plaintext@, aes_key@, nonce@),
        r is Ok ==> r->Ok_0@ == nonce@ + primitives::gcm_sealed(aes_key@, nonce@, plaintext@),
        r is Ok ==> r->Ok_0@.len() == plaintext@.len() + NONCE_SIZE + TAG_SIZE,
        r is Ok ==> decrypted(r->Ok_0@, aes_key@) == Ok::<Seq<u8>, PayloadError>(plaintext@),
        r is Ok ==> tag_is_checked(r->Ok_0@, aes_key@),
        r is Err ==> r->Err_0 == PayloadError::EncryptionFailed,
{
    match primitives::gcm_seal(aes_key, nonce, plaintext) {
        Ok(ciphertext) => {
            let mut out: Vec<u8> = slice_to_vec(nonce);
            out.extend_from_slice(ciphertext.as_slice());
            assert(out@ =~= nonce@ + ciphertext@);
            assert(out@.take(NONCE_SIZE as int) =~= nonce@);
            assert(out@.skip(NONCE_SIZE as int) =~= ciphertext@);
            assert forall|other: Seq<u8>|
                #![trigger decrypted(other, aes_key@)]
                differ_in_tag(out@, other) implies decrypted(other, aes_key@) == Err::<
                Seq<u8>,
                PayloadError,
            >(PayloadError::DecryptionFailed) by {
                let n = plaintext@.len() as int;
                let body = other.skip(NONCE_SIZE as int);
                assert(other.take(NONCE_SIZE as int) =~= other.take(NONCE_SIZE + n).take(
                    NONCE_SIZE as int,
                ));
                assert(out@.take(NONCE_SIZE + n).take(NONCE_SIZE as int) =~= nonce@);
                assert(body.take(n) =~= other.take(NONCE_SIZE + n).skip(NONCE_SIZE as int));
                assert(ciphertext@.take(n) =~= out@.take(NONCE_SIZE + n).skip(NONCE_SIZE as int));
                if body == ciphertext@ {
                    assert(other =~= out@);
                }
            }
            Ok(out)
        },
        Err(_) => Err(PayloadError::EncryptionFailed),
    }
}

/// Seals a payload under a fresh random nonce. It always succeeds but for a
/// payload longer than AES-GCM can seal. What it gives opens, under the same key,
/// to what it was given; with another tag it does not open.
pub fn encrypt_payload(plaintext: &[u8], aes_key: &[u8; AEAD_KEY_SIZE]) -> (r: Result<
    Vec<u8>,
    PayloadError,
>)
    ensures
        r is Ok == (plaintext@.len() <= primitives::GCM_MAX_PLAINTEXT),
        r is Ok ==> r->Ok_0@.len() == plaintext@.len() + NONCE_SIZE + TAG_SIZE,
        r is Ok ==> r->Ok_0@ == sealed(
            plaintext@,
            aes_key@,
            r->Ok_0@.take(NONCE_SIZE as int),
        ),
        r is Ok ==> decrypted(r->Ok_0@, aes_key@) == Ok::<Seq<u8>, PayloadError>(plaintext@),
        r is Ok ==> tag_is_checked(r->Ok_0@, aes_key@),
        r is Err ==> r->Err_0 == PayloadError::EncryptionFailed,
{
    let nonce: Vec<u8> = primitives::random_bytes(NONCE_SIZE);
    let r: Result<Vec<u8>, PayloadError> = encrypt_with_nonce(plaintext, aes_key, nonce.as_slice());
    assert(r is Ok ==> r->Ok_0@.take(NONCE_SIZE as int) =~= nonce@);
    r
}

// ---------------------------------------------------------------------------
// Integrity

/// The SHA-256 digest of `data` in hexadecimal.
pub open spec fn integrity_hash(data: Seq<u8>) -> Seq<char> {
    primitives::hex_of(primitives::sha256_of(data))
}

/// The SHA-256 digest of `data` in hexadecimal.
pub fn hash_sha256(data: &[u8]) -> (r: String)
    ensures
        r@ == integrity_hash(data@),
        r@ == primitives::hex_of(primitives::sha256_of(data@)),
        r@.len() == 64,
{
    let digest: [u8; 32] = primitives::sha256(data);
    primitives::hex_text(digest.as_slice())
}

} // verus!
