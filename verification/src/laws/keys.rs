//! Which key opens and seals a job.

use vstd::prelude::*;
use vstd::utf8::*;

use crate::keys;
use crate::keys::KeyError;
use crate::primitives;
use crate::primitives::Base64Error;
use crate::session::JobMsg;
use crate::text;

verus! {

/// The derived key is what HKDF-SHA256 expands, with the very bytes of the salt and
/// of the shared secret in their order. The job's key has in each place the derived
/// key's byte, changed by the shared secret's byte in that place: changed by it once
/// more it is the derived key's.
pub proof fn law_keys_come_from_secret_and_salt(shared_secret: Seq<u8>, salt: Seq<u8>)
    ensures
        ({
            let expanded = primitives::hkdf_sha256_of(
                salt,
                shared_secret,
                encode_utf8("tenxo-aes-key-v1"@),
                32,
            );
            let key = keys::salted_key(shared_secret, salt);
            &&& keys::derived_key(shared_secret, salt) == expanded
            &&& key.len() == expanded.len()
            &&& forall|i: int|
                0 <= i < expanded.len() ==> #[trigger] key[i] == expanded[i] ^ shared_secret[i]
            &&& forall|i: int|
                0 <= i < expanded.len() ==> #[trigger] key[i] ^ shared_secret[i] == expanded[i]
        }),
{
    let expanded = primitives::hkdf_sha256_of(
        salt,
        shared_secret,
        encode_utf8("tenxo-aes-key-v1"@),
        32,
    );
    let key = keys::salted_key(shared_secret, salt);
    assert forall|i: int| 0 <= i < expanded.len() implies #[trigger] key[i] ^ shared_secret[i]
        == expanded[i] by {
        let a: u8 = expanded[i];
        let b: u8 = shared_secret[i];
        assert((a ^ b) ^ b == a) by (bit_vector);
    }
}

/// A job's key comes from its salt, wherever it brings one, and from its own key
/// only where it brings no salt. Either must be base64 of 32 bytes. What is wrong is
/// told: a text that is not base64, a wrong length, or that there is neither.
pub proof fn law_salt_goes_before_key(
    shared_secret: Seq<u8>,
    salt_b64: Seq<char>,
    key_b64: Option<Seq<char>>,
    own: Seq<char>,
)
    ensures
        ({
            let made = keys::job_key_of(shared_secret, Some(salt_b64), key_b64);
            match primitives::base64_decoded(salt_b64) {
                Ok(salt) => if salt.len() == 32 {
                    let expanded = primitives::hkdf_sha256_of(
                        salt,
                        shared_secret,
                        encode_utf8("tenxo-aes-key-v1"@),
                        32,
                    );
                    made is Ok && made->Ok_0.len() == expanded.len() && forall|i: int|
                        0 <= i < expanded.len() ==> #[trigger] made->Ok_0[i] == expanded[i]
                            ^ shared_secret[i]
                } else {
                    made == Err::<Seq<u8>, Seq<char>>(
                        "invalid salt length: "@ + text::decimal(salt.len()) + " (expected "@
                            + text::decimal(32) + ")"@,
                    )
                },
                Err(e) => made == Err::<Seq<u8>, Seq<char>>("failed to decode salt: "@ + e.text()),
            }
        }),
        ({
            let made = keys::job_key_of(shared_secret, None, Some(own));
            own.len() > 0 ==> match primitives::base64_decoded(own) {
                Ok(key) => made == (if key.len() == 32 {
                    Ok::<Seq<u8>, Seq<char>>(key)
                } else {
                    Err("invalid key length: "@ + text::decimal(key.len()))
                }),
                Err(e) => made == Err::<Seq<u8>, Seq<char>>(
                    "failed to decode enc_key_b64: "@ + e.text(),
                ),
            }
        }),
        keys::job_key_of(shared_secret, None, None) == Err::<Seq<u8>, Seq<char>>(
            "no enc_key_b64 or salt_b64 in job message"@,
        ),
        keys::job_key_of(shared_secret, None, Some(Seq::<char>::empty())) == Err::<
            Seq<u8>,
            Seq<char>,
        >("no enc_key_b64 or salt_b64 in job message"@),
{
}

/// A job message gives the key of its own salt and its own key, in their roles.
pub proof fn law_message_gives_its_key(job: JobMsg, shared_secret: Seq<u8>)
    ensures
        job.key(shared_secret) == keys::job_key_of(
            shared_secret,
            match job.salt_b64 {
                Some(s) => Some(s@),
                None => None,
            },
            match job.enc_key_b64 {
                Some(s) => Some(s@),
                None => None,
            },
        ),
{
}

/// Two keys are combined place by place.
pub proof fn law_xor_is_place_by_place(a: Seq<u8>, b: Seq<u8>)
    requires
        a.len() == b.len(),
    ensures
        keys::xored(a, b).len() == a.len(),
        forall|i: int| 0 <= i < a.len() ==> #[trigger] keys::xored(a, b)[i] == a[i] ^ b[i],
{
}

/// Each error says what was wrong with which part of the message.
pub proof fn law_key_errors_name_their_part(reason: String, len: usize, index: usize, byte: u8)
    ensures
        (KeyError::SaltNotBase64 { reason }).text() == "failed to decode salt: "@ + reason@,
        (KeyError::SaltLength { len }).text() == "invalid salt length: "@ + text::decimal(
            len as nat,
        ) + " (expected "@ + text::decimal(32) + ")"@,
        KeyError::NoKey.text() == "no enc_key_b64 or salt_b64 in job message"@,
        (KeyError::KeyNotBase64 { reason }).text() == "failed to decode enc_key_b64: "@ + reason@,
        (KeyError::KeyLength { len }).text() == "invalid key length: "@ + text::decimal(len as nat),
        (Base64Error::InvalidByte { index, byte }).text() == "Invalid symbol "@ + text::decimal(
            byte as nat,
        ) + ", offset "@ + text::decimal(index as nat) + "."@,
        (Base64Error::InvalidLength { len }).text() == "Invalid input length: "@ + text::decimal(
            len as nat,
        ),
        (Base64Error::InvalidLastSymbol { index, byte }).text() == "Invalid last symbol "@
            + text::decimal(byte as nat) + ", offset "@ + text::decimal(index as nat) + "."@,
        Base64Error::InvalidPadding.text() == "Invalid padding"@,
{
}

} // verus!
