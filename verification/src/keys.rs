//! Key material: the ephemeral X25519 pair of a session, and the AES-256 key of
//! each job.

use vstd::prelude::*;
use vstd::string::*;
use vstd::utf8::*;

use crate::payload::AEAD_KEY_SIZE;
use crate::primitives;
use crate::text;

verus! {

/// The length of the salt that a job message brings.
pub const SALT_SIZE: usize = 32;

/// The bytes of `bytes`, of which there are 32, as an array.
pub fn array32(bytes: &[u8]) -> (r: [u8; 32])
    requires
        bytes@.len() == 32,
    ensures
        r@ == bytes@,
{
    let mut out: [u8; 32] = [0u8;32];
    let mut i: usize = 0;
    while i < 32
        invariant
            i <= 32,
            bytes@.len() == 32,
            forall|j: int| 0 <= j < i ==> out@[j] == bytes@[j],
        decreases 32 - i,
    {
        out[i] = bytes[i];
        i = i + 1;
    }
    assert(out@ =~= bytes@);
    out
}

// ---------------------------------------------------------------------------
// The session's pair

/// An ephemeral X25519 key pair. Its secret makes one shared secret and is gone.
pub struct AgentKeys {
    secret: x25519_dalek::EphemeralSecret,
    public: [u8; 32],
}

impl AgentKeys {
    /// The secret of the pair.
    pub closed spec fn secret(self) -> x25519_dalek::EphemeralSecret {
        self.secret
    }

    /// The public key of the pair.
    pub closed spec fn public(self) -> Seq<u8> {
        self.public@
    }

    /// The two keys belong together.
    #[verifier::type_invariant]
    spec fn paired(self) -> bool {
        self.public@ == primitives::x25519_public(self.secret)
    }

    /// A fresh random pair: a secret and its public key.
    pub fn generate() -> (r: Self)
        ensures
            r.public() == primitives::x25519_public(r.secret()),
    {
        let secret: x25519_dalek::EphemeralSecret = primitives::x25519_random_secret();
        let public: [u8; 32] = primitives::x25519_public_key(&secret);
        AgentKeys { secret, public }
    }

    /// The public key of the pair.
    pub fn public_key(&self) -> (r: [u8; 32])
        ensures
            r@ == self.public(),
            r@ == primitives::x25519_public(self.secret()),
    {
        proof {
            use_type_invariant(self);
        }
        self.public
    }

    /// The secret that this pair shares with the holder of a public key. It is
    /// what that holder computes from its own secret and the public key of this
    /// pair.
    pub fn consume_shared_secret(self, client_pub_bytes: &[u8]) -> (r: [u8; 32])
        requires
            client_pub_bytes@.len() == 32,
        ensures
            r@ == primitives::x25519_shared(self.secret(), client_pub_bytes@),
            forall|client: x25519_dalek::EphemeralSecret|
                #![trigger primitives::x25519_public(client)]
                primitives::x25519_public(client) == client_pub_bytes@ ==> r@
                    == primitives::x25519_shared(
                    client,
                    primitives::x25519_public(self.secret()),
                ),
    {
        let peer: [u8; 32] = array32(client_pub_bytes);
        primitives::x25519_agree(self.secret, &peer)
    }
}

// ---------------------------------------------------------------------------
// Job keys

/// The key that HKDF derives from the session's shared secret and a salt.
pub open spec fn derived_key(shared_secret: Seq<u8>, salt: Seq<u8>) -> Seq<u8> {
    primitives::hkdf_sha256_of(salt, shared_secret, encode_utf8("tenxo-aes-key-v1"@), 32)
}

/// Derives a key from the session's shared secret and a salt with HKDF-SHA256.
pub fn derive_aes_key(shared_secret: &[u8], salt: &[u8]) -> (r: [u8; AEAD_KEY_SIZE])
    ensures
        r@ == derived_key(shared_secret@, salt@),
        r@ == primitives::hkdf_sha256_of(
            salt@,
            shared_secret@,
            encode_utf8("tenxo-aes-key-v1"@),
            32,
        ),
{
    primitives::hkdf_sha256(salt, shared_secret, "tenxo-aes-key-v1".as_bytes())
}

/// `a` and `b` combined byte by byte with exclusive or.
pub open spec fn xored(a: Seq<u8>, b: Seq<u8>) -> Seq<u8> {
    Seq::new(a.len(), |i: int| a[i] ^ b[i])
}

/// Combines two keys byte by byte with exclusive or.
pub fn xor_keys(a: &[u8; 32], b: &[u8; 32]) -> (r: [u8; 32])
    ensures
        r@ == xored(a@, b@),
        forall|i: int| 0 <= i < 32 ==> #[trigger] r@[i] == a@[i] ^ b@[i],
{
    let mut out: [u8; 32] = [0u8;32];
    let mut i: usize = 0;
    while i < 32
        invariant
            i <= 32,
            forall|j: int| 0 <= j < i ==> out@[j] == a@[j] ^ b@[j],
        decreases 32 - i,
    {
        out[i] = a[i] ^ b[i];
        i = i + 1;
    }
    assert(out@ =~= xored(a@, b@));
    out
}

/// The key that seals and opens a job whose message brings a salt: the derived
/// key, blinded with the shared secret.
pub open spec fn salted_key(shared_secret: Seq<u8>, salt: Seq<u8>) -> Seq<u8> {
    xored(derived_key(shared_secret, salt), shared_secret)
}

/// Blinding is undone by blinding again: whoever holds the shared secret gets
/// the derived key back from a job's key.
pub proof fn law_blinding_is_its_own_inverse(key: Seq<u8>, shared_secret: Seq<u8>)
    requires
        key.len() == shared_secret.len(),
    ensures
        xored(xored(key, shared_secret), shared_secret) == key,
{
    assert forall|i: int| 0 <= i < key.len() implies #[trigger] xored(
        xored(key, shared_secret),
        shared_secret,
    )[i] == key[i] by {
        let a: u8 = key[i];
        let b: u8 = shared_secret[i];
        assert((a ^ b) ^ b == a) by (bit_vector);
    }
    assert(xored(xored(key, shared_secret), shared_secret) =~= key);
}

/// Why a job message gives no key.
#[derive(Debug)]
pub enum KeyError {
    /// The salt is not base64.
    SaltNotBase64 { reason: String },
    /// The salt has the wrong length.
    SaltLength { len: usize },
    /// There is neither a salt nor a key.
    NoKey,
    /// The key is not base64.
    KeyNotBase64 { reason: String },
    /// The key has the wrong length.
    KeyLength { len: usize },
}

/// The text for a salt of the wrong length.
pub open spec fn salt_length_text(len: nat) -> Seq<char> {
    "invalid salt length: "@ + text::decimal(len) + " (expected "@ + text::decimal(
        SALT_SIZE as nat,
    ) + ")"@
}

/// The text for a key of the wrong length.
pub open spec fn key_length_text(len: nat) -> Seq<char> {
    "invalid key length: "@ + text::decimal(len)
}

impl KeyError {
    /// The text of the error.
    pub open spec fn text(self) -> Seq<char> {
        match self {
            KeyError::SaltNotBase64 { reason } => "failed to decode salt: "@ + reason@,
            KeyError::SaltLength { len } => salt_length_text(len as nat),
            KeyError::NoKey => "no enc_key_b64 or salt_b64 in job message"@,
            KeyError::KeyNotBase64 { reason } => "failed to decode enc_key_b64: "@ + reason@,
            KeyError::KeyLength { len } => key_length_text(len as nat),
        }
    }

    /// The text of the error.
    pub fn message(&self) -> (r: String)
        ensures
            r@ == self.text(),
    {
        match self {
            KeyError::SaltNotBase64 { reason } => text::cat2(
                "failed to decode salt: ",
                reason.as_str(),
            ),
            KeyError::SaltLength { len } => text::cat5(
                "invalid salt length: ",
                text::decimal_text(*len as u64).as_str(),
                " (expected ",
                text::decimal_text(SALT_SIZE as u64).as_str(),
                ")",
            ),
            KeyError::NoKey => "no enc_key_b64 or salt_b64 in job message".to_owned(),
            KeyError::KeyNotBase64 { reason } => text::cat2(
                "failed to decode enc_key_b64: ",
                reason.as_str(),
            ),
            KeyError::KeyLength { len } => text::cat2(
                "invalid key length: ",
                text::decimal_text(*len as u64).as_str(),
            ),
        }
    }
}

/// The job key of a decoded salt, if it has the right length.
pub fn key_from_salt(shared_secret: &[u8; 32], salt: &[u8]) -> (r: Result<
    [u8; AEAD_KEY_SIZE],
    KeyError,
>)
    ensures
        r is Ok == (salt@.len() == SALT_SIZE),
        r is Ok ==> r->Ok_0@ == salted_key(shared_secret@, salt@),
        r is Ok ==> forall|i: int|
            0 <= i < 32 ==> #[trigger] r->Ok_0@[i] == primitives::hkdf_sha256_of(
                salt@,
                shared_secret@,
                encode_utf8("tenxo-aes-key-v1"@),
                32,
            )[i] ^ shared_secret@[i],
        r is Err ==> r->Err_0 is SaltLength && r->Err_0->SaltLength_len == salt@.len(),
{
    if salt.len() != SALT_SIZE {
        return Err(KeyError::SaltLength { len: salt.len() });
    }
    let derived: [u8; 32] = derive_aes_key(shared_secret.as_slice(), salt);
    Ok(xor_keys(&derived, shared_secret))
}

/// A decoded key as the job key, if it has the right length.
pub fn key_from_bytes(key: &[u8]) -> (r: Result<[u8; AEAD_KEY_SIZE], KeyError>)
    ensures
        r is Ok == (key@.len() == AEAD_KEY_SIZE),
        r is Ok ==> r->Ok_0@ == key@,
        r is Err ==> r->Err_0 is KeyLength && r->Err_0->KeyLength_len == key@.len(),
{
    if key.len() != AEAD_KEY_SIZE {
        return Err(KeyError::KeyLength { len: key.len() });
    }
    Ok(array32(key))
}

/// The key of a job, or the text of the error: a salt comes before a key, and an
/// empty key is none.
pub open spec fn job_key_of(
    shared_secret: Seq<u8>,
    salt_b64: Option<Seq<char>>,
    enc_key_b64: Option<Seq<char>>,
) -> Result<Seq<u8>, Seq<char>> {
    match salt_b64 {
        Some(s) => match primitives::base64_decoded(s) {
            Ok(salt) => if salt.len() == SALT_SIZE {
                Ok(salted_key(shared_secret, salt))
            } else {
                Err(salt_length_text(salt.len()))
            },
            Err(e) => Err("failed to decode salt: "@ + e.text()),
        },
        None => if enc_key_b64 is None || enc_key_b64->0.len() == 0 {
            Err("no enc_key_b64 or salt_b64 in job message"@)
        } else {
            match primitives::base64_decoded(enc_key_b64->0) {
                Ok(key) => if key.len() == AEAD_KEY_SIZE {
                    Ok(key)
                } else {
                    Err(key_length_text(key.len()))
                },
                Err(e) => Err(
                    "failed to decode enc_key_b64: "@ + e.text(),
                ),
            }
        },
    }
}

/// Settles the key of a job from what its message brings.
pub fn job_key(
    shared_secret: &[u8; 32],
    salt_b64: &Option<String>,
    enc_key_b64: &Option<String>,
) -> (r: Result<[u8; AEAD_KEY_SIZE], KeyError>)
    ensures
        ({
            let wanted = job_key_of(
                shared_secret@,
                text::opt_text(*salt_b64),
                text::opt_text(*enc_key_b64),
            );
            &&& r is Ok == wanted is Ok
            &&& r is Ok ==> r->Ok_0@ == wanted->Ok_0
            &&& r is Err ==> r->Err_0.text() == wanted->Err_0
        }),
{
    match salt_b64 {
        Some(s) => match primitives::base64_decode(s.as_str()) {
            Ok(salt) => key_from_salt(shared_secret, salt.as_slice()),
            Err(e) => Err(KeyError::SaltNotBase64 { reason: e.message() }),
        },
        None => {
            let key_b64: String = text::text_or(enc_key_b64, "");
            proof {
                reveal_strlit("");
            }
            if key_b64.as_str().is_empty() {
                return Err(KeyError::NoKey);
            }
            match primitives::base64_decode(key_b64.as_str()) {
                Ok(key) => key_from_bytes(key.as_slice()),
                Err(e) => Err(
                    KeyError::KeyNotBase64 { reason: e.message() },
                ),
            }
        },
    }
}

} // verus!
