//! What padding, sealing and hashing are for.

use vstd::prelude::*;

use crate::payload;
use crate::payload::PayloadError;
use crate::primitives;
use crate::text;

verus! {

/// A padded payload is cut to the number of bytes that its last eight bytes give,
/// most significant first. A number that reaches into them is refused, with that
/// number and the length; so is a payload too short to hold them.
pub proof fn law_unpadding_goes_by_the_last_eight_bytes(padded: Seq<u8>)
    requires
        padded.len() <= usize::MAX,
    ensures
        padded.len() < 8 ==> payload::unpadded(padded) == Err::<Seq<u8>, PayloadError>(
            PayloadError::PaddedTooShort { len: padded.len() as usize },
        ),
        padded.len() >= 8 ==> {
            let b = padded;
            let n = padded.len();
            let size = b[n - 8] * 0x100_0000_0000_0000 + b[n - 7] * 0x1_0000_0000_0000 + b[n - 6]
                * 0x100_0000_0000 + b[n - 5] * 0x1_0000_0000 + b[n - 4] * 0x100_0000 + b[n - 3]
                * 0x1_0000 + b[n - 2] * 0x100 + b[n - 1];
            &&& size <= n - 8 ==> payload::unpadded(padded) == Ok::<Seq<u8>, PayloadError>(
                padded.subrange(0, size),
            )
            &&& n - 8 < size <= usize::MAX ==> payload::unpadded(padded) == Err::<
                Seq<u8>,
                PayloadError,
            >(PayloadError::InvalidOriginalSize { size: size as usize, len: n as usize })
        },
{
    if padded.len() >= 8 {
        let n = padded.len();
        let b = padded;
        let size = b[n - 8] * 0x100_0000_0000_0000 + b[n - 7] * 0x1_0000_0000_0000 + b[n - 6]
            * 0x100_0000_0000 + b[n - 5] * 0x1_0000_0000 + b[n - 4] * 0x100_0000 + b[n - 3]
            * 0x1_0000 + b[n - 2] * 0x100 + b[n - 1];
        let t = padded.skip(n - 8);
        reveal_with_fuel(payload::be_value, 9);
        assert(t.drop_last() =~= padded.subrange(n - 8, n - 1));
        assert(t.drop_last().drop_last() =~= padded.subrange(n - 8, n - 2));
        assert(t.drop_last().drop_last().drop_last() =~= padded.subrange(n - 8, n - 3));
        let u = padded.subrange(n - 8, n - 3);
        assert(u.drop_last() =~= padded.subrange(n - 8, n - 4));
        assert(u.drop_last().drop_last() =~= padded.subrange(n - 8, n - 5));
        assert(u.drop_last().drop_last().drop_last() =~= padded.subrange(n - 8, n - 6));
        let v = padded.subrange(n - 8, n - 6);
        assert(v.drop_last() =~= padded.subrange(n - 8, n - 7));
        assert(v.drop_last().drop_last() =~= Seq::<u8>::empty());
        assert(payload::be_value(v) == v[0] * 256 + v[1]);
        assert(payload::be_value(u) == ((payload::be_value(v) * 256 + u[2]) * 256 + u[3]) * 256 + u[4]);
        assert(payload::be_value(t) == ((payload::be_value(u) * 256 + t[5]) * 256 + t[6]) * 256 + t[7]);
        assert(payload::be_value(t) == size);
        if size <= n - 8 {
            assert(padded.take(size) =~= padded.subrange(0, size));
        }
    }
}

/// A frame of twelve bytes of nonce and the rest opens just where AES-256-GCM opens
/// the rest under the key and that nonce, to the same bytes. A frame too short for a
/// nonce and a tag is refused with its length.
pub proof fn law_frames_open_as_the_cipher_does(
    nonce: Seq<u8>,
    ciphertext: Seq<u8>,
    short: Seq<u8>,
    key: Seq<u8>,
)
    requires
        nonce.len() == 12,
        ciphertext.len() >= 16,
        short.len() < 28,
    ensures
        payload::decrypted(nonce + ciphertext, key) == (match primitives::gcm_opened(
            key,
            nonce,
            ciphertext,
        ) {
            Some(plain) => Ok::<Seq<u8>, PayloadError>(plain),
            None => Err(PayloadError::DecryptionFailed),
        }),
        payload::decrypted(short, key) == Err::<Seq<u8>, PayloadError>(
            PayloadError::CiphertextTooShort { len: short.len() as usize },
        ),
{
    let frame = nonce + ciphertext;
    assert(frame.take(12) =~= nonce);
    assert(frame.skip(12) =~= ciphertext);
}

/// A sealed frame is the nonce, then what AES-256-GCM makes of the plaintext under
/// the key and that nonce.
pub proof fn law_frames_carry_their_nonce(plaintext: Seq<u8>, key: Seq<u8>, nonce: Seq<u8>)
    ensures
        payload::sealed(plaintext, key, nonce) == nonce + primitives::gcm_sealed(
            key,
            nonce,
            plaintext,
        ),
{
}

/// Frames that differ in their last sixteen bytes alone are told apart by the tag.
pub proof fn law_tags_are_the_last_sixteen_bytes(body: Seq<u8>, a: Seq<u8>, b: Seq<u8>)
    requires
        body.len() >= 12,
        a.len() == 16,
        b.len() == 16,
        a != b,
    ensures
        payload::differ_in_tag(body + a, body + b),
        forall|key: Seq<u8>| #[trigger]
            payload::tag_is_checked(body + a, key) ==> payload::decrypted(body + b, key) == Err::<
                Seq<u8>,
                PayloadError,
            >(PayloadError::DecryptionFailed),
{
    let x = body + a;
    let y = body + b;
    assert(x.skip(body.len() as int) =~= a);
    assert(y.skip(body.len() as int) =~= b);
    assert(x.take(x.len() - 16) =~= body);
    assert(y.take(y.len() - 16) =~= body);
}

/// Hexadecimal text has two digits for every byte: its upper half, then its lower.
/// The digits from ten on are the small letters from `a`.
pub proof fn law_hex_has_two_digits_to_a_byte(bytes: Seq<u8>)
    ensures
        primitives::hex_of(bytes).len() == 2 * bytes.len(),
        forall|i: int|
            0 <= i < bytes.len() ==> (#[trigger] primitives::hex_of(bytes)[2 * i]) as int == (
            if bytes[i] < 160 {
                48 + bytes[i] as int / 16
            } else {
                87 + bytes[i] as int / 16
            }),
        forall|i: int|
            0 <= i < bytes.len() ==> (#[trigger] primitives::hex_of(bytes)[2 * i + 1]) as int == (
            if bytes[i] % 16 < 10 {
                48 + bytes[i] as int % 16
            } else {
                87 + bytes[i] as int % 16
            }),
{
}

/// The integrity hash is the hexadecimal text of the SHA-256 digest of all of the
/// data, of whatever length it is.
pub proof fn law_hashes_are_of_the_whole_data(front: Seq<u8>, rest: Seq<u8>)
    ensures
        payload::integrity_hash(front + rest) == primitives::hex_of(
            primitives::sha256_of(front + rest),
        ),
{
}

/// Two pieces of data, of whatever length, have the same hash just where they have
/// the same digest.
pub proof fn law_hashes_tell_digests_apart(a: Seq<u8>, b: Seq<u8>)
    requires
        primitives::sha256_of(a).len() == 32,
        primitives::sha256_of(b).len() == 32,
    ensures
        payload::integrity_hash(a).len() == 64,
        payload::integrity_hash(a) == payload::integrity_hash(b) <==> primitives::sha256_of(a)
            == primitives::sha256_of(b),
{
    let x = primitives::sha256_of(a);
    let y = primitives::sha256_of(b);
    let p = primitives::hex_of(x);
    let q = primitives::hex_of(y);
    if p == q {
        law_hex_has_two_digits_to_a_byte(x);
        law_hex_has_two_digits_to_a_byte(y);
        assert forall|i: int| 0 <= i < 32 implies x[i] == y[i] by {
            assert(p[2 * i] == q[2 * i]);
            assert(p[2 * i + 1] == q[2 * i + 1]);
            assert(x[i] as int / 16 == y[i] as int / 16);
            assert(x[i] as int % 16 == y[i] as int % 16);
        }
        assert(x =~= y);
    }
}

/// Each error says what was wrong, with the numbers it is about.
pub proof fn law_payload_errors_name_their_numbers(len: usize, size: usize)
    ensures
        (PayloadError::PaddedTooShort { len }).text() == "padded payload is too short: "@
            + text::decimal(len as nat) + " bytes"@,
        (PayloadError::InvalidOriginalSize { size, len }).text() == "invalid original size "@
            + text::decimal(size as nat) + " for padded payload of "@ + text::decimal(len as nat)
            + " bytes"@,
        (PayloadError::CiphertextTooShort { len }).text() == "ciphertext too short: "@
            + text::decimal(len as nat) + " bytes"@,
        PayloadError::DecryptionFailed.text() == "AES-256-GCM decryption failed: Error"@,
        PayloadError::EncryptionFailed.text() == "AES-256-GCM encryption failed: Error"@,
{
}

} // verus!
