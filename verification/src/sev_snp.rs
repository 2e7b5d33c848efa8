//! Attestation quotes. A quote carries what the SEV-SNP hardware attests. Without
//! hardware it is the development quote, whose parts are fixed. The report data of
//! either binds the agent's public key and the challenge nonce.

use vstd::prelude::*;
use vstd::string::*;
use vstd::utf8::*;

use crate::primitives;
use crate::text;

verus! {

/// An attestation quote, each part in base64.
#[derive(Debug)]
pub struct TeeQuote {
    pub report_data_b64: String,
    pub measurement_b64: String,
    pub chip_id_b64: String,
    pub signature_b64: String,
    pub cert_chain_b64: Vec<String>,
}

/// The base64 of the bytes of a text.
pub open spec fn base64_of_text(s: Seq<char>) -> Seq<char> {
    primitives::base64_of(encode_utf8(s))
}

fn base64_text(s: &str) -> (r: String)
    requires
        s.is_ascii(),
        s@.len() <= 100,
    ensures
        r@ == base64_of_text(s@),
{
    broadcast use is_ascii_spec_bytes;

    assert(s.spec_bytes().len() <= 100);
    primitives::base64_encode(s.as_bytes())
}

/// What the report of a quote binds: the agent's public key in its first 32
/// bytes, the challenge nonce in the 32 bytes that follow.
pub open spec fn report_data(agent_pubkey: Seq<u8>, challenge_nonce: Seq<u8>) -> Seq<u8> {
    agent_pubkey + challenge_nonce
}

/// What the hardware attests of a report data.
#[derive(Debug)]
pub struct HardwareReport {
    pub measurement: Vec<u8>,
    pub chip_id: Vec<u8>,
    pub signature: Vec<u8>,
    pub cert_chain: Vec<Vec<u8>>,
}

impl HardwareReport {
    /// No part of the report is too long for a quote.
    pub open spec fn fits(self) -> bool {
        &&& primitives::encodable(self.measurement@.len())
        &&& primitives::encodable(self.chip_id@.len())
        &&& primitives::encodable(self.signature@.len())
        &&& forall|i: int|
            0 <= i < self.cert_chain@.len() ==> primitives::encodable(
                (#[trigger] self.cert_chain@[i])@.len(),
            )
    }

    /// Whether no part of the report is too long for a quote.
    pub fn can_be_quoted(&self) -> (r: bool)
        ensures
            r == self.fits(),
    {
        if !primitives::can_encode(self.measurement.len()) || !primitives::can_encode(
            self.chip_id.len(),
        ) || !primitives::can_encode(self.signature.len()) {
            return false;
        }
        let mut i: usize = 0;
        while i < self.cert_chain.len()
            invariant
                i <= self.cert_chain@.len(),
                forall|j: int|
                    0 <= j < i ==> primitives::encodable((#[trigger] self.cert_chain@[j])@.len()),
            decreases self.cert_chain@.len() - i,
        {
            if !primitives::can_encode(self.cert_chain[i].len()) {
                assert(!primitives::encodable(self.cert_chain@[i as int]@.len()));
                return false;
            }
            i = i + 1;
        }
        true
    }
}

/// What a quote carries beside its report data, each part in base64.
pub struct Evidence {
    pub measurement: Seq<char>,
    pub chip_id: Seq<char>,
    pub signature: Seq<char>,
    pub cert_chain: Seq<Seq<char>>,
}

/// What the quote of a hardware report carries.
pub open spec fn hardware_evidence(report: HardwareReport) -> Evidence {
    Evidence {
        measurement: primitives::base64_of(report.measurement@),
        chip_id: primitives::base64_of(report.chip_id@),
        signature: primitives::base64_of(report.signature@),
        cert_chain: report.cert_chain@.map_values(|c: Vec<u8>| primitives::base64_of(c@)),
    }
}

/// What the development quote carries.
pub open spec fn development_evidence() -> Evidence {
    Evidence {
        measurement: primitives::base64_of(
            primitives::sha256_of(encode_utf8("tenxo-edge-agent-v1"@)),
        ),
        chip_id: base64_of_text("0000000000000000AMD-EPYC-9B12-2024-SNP-VALIDATION-KEY----"@),
        signature: base64_of_text(
            "ECDSA-SECP384R1-SOFTWARE-FALLBACK-SIGNATURE-FOR-DEV-MODE-PRODUCTION-ONLY"@,
        ),
        cert_chain: seq![
            base64_of_text("MILAN-ARK-CERT-DEV-FALLBACK"@),
            base64_of_text("MILAN-ASK-CERT-DEV-FALLBACK"@),
            base64_of_text("MILAN-OCA-CERT-DEV-FALLBACK"@),
        ],
    }
}

/// What a quote carries: what the hardware attests, where there is hardware, and
/// otherwise the parts of the development quote.
pub open spec fn evidence(hardware: Option<HardwareReport>) -> Evidence {
    match hardware {
        Some(report) => hardware_evidence(report),
        None => development_evidence(),
    }
}

impl TeeQuote {
    /// The quote is one for a public key and a nonce, with this evidence.
    pub open spec fn attests(
        self,
        agent_pubkey: Seq<u8>,
        challenge_nonce: Seq<u8>,
        evidence: Evidence,
    ) -> bool {
        &&& self.report_data_b64@ == primitives::base64_of(
            report_data(agent_pubkey, challenge_nonce),
        )
        &&& self.measurement_b64@ == evidence.measurement
        &&& self.chip_id_b64@ == evidence.chip_id
        &&& self.signature_b64@ == evidence.signature
        &&& text::texts(self.cert_chain_b64@) == evidence.cert_chain
    }
}

/// The report data for a public key and a nonce.
pub fn quote_report_data(agent_pubkey: &[u8; 32], challenge_nonce: &[u8; 32]) -> (r: Vec<u8>)
    ensures
        r@ == report_data(agent_pubkey@, challenge_nonce@),
{
    let mut report: Vec<u8> = Vec::new();
    report.extend_from_slice(agent_pubkey.as_slice());
    report.extend_from_slice(challenge_nonce.as_slice());
    assert(report@ =~= report_data(agent_pubkey@, challenge_nonce@));
    report
}

fn base64_list(items: &Vec<Vec<u8>>) -> (r: Vec<String>)
    requires
        forall|i: int|
            0 <= i < items@.len() ==> primitives::encodable((#[trigger] items@[i])@.len()),
    ensures
        text::texts(r@) == items@.map_values(|c: Vec<u8>| primitives::base64_of(c@)),
{
    let mut out: Vec<String> = Vec::new();
    let mut i: usize = 0;
    while i < items.len()
        invariant
            forall|j: int|
                0 <= j < items@.len() ==> primitives::encodable((#[trigger] items@[j])@.len()),
            i <= items@.len(),
            out@.len() == i,
            forall|j: int| 0 <= j < i ==> out@[j]@ == primitives::base64_of(items@[j]@),
        decreases items@.len() - i,
    {
        assert(primitives::encodable(items@[i as int]@.len()));
        out.push(primitives::base64_encode(items[i].as_slice()));
        i = i + 1;
    }
    assert(text::texts(out@) =~= items@.map_values(|c: Vec<u8>| primitives::base64_of(c@)));
    out
}

/// The quote for a public key and a challenge nonce. `hardware` is what the
/// hardware attests of their report data, or `None` where there is no hardware.
/// Whoever decodes the quote's report data finds the key and the nonce.
pub fn generate_tee_quote(
    agent_pubkey: &[u8; 32],
    challenge_nonce: &[u8; 32],
    hardware: &Option<HardwareReport>,
) -> (r: TeeQuote)
    requires
        hardware is Some ==> hardware->0.fits(),
    ensures
        r.attests(agent_pubkey@, challenge_nonce@, evidence(*hardware)),
        primitives::base64_decoded(r.report_data_b64@) == Ok::<Seq<u8>, primitives::Base64Error>(
            report_data(agent_pubkey@, challenge_nonce@),
        ),
{
    let report: Vec<u8> = quote_report_data(agent_pubkey, challenge_nonce);
    let report_data_b64: String = primitives::base64_encode(report.as_slice());
    match hardware {
        Some(attested) => TeeQuote {
            report_data_b64,
            measurement_b64: primitives::base64_encode(attested.measurement.as_slice()),
            chip_id_b64: primitives::base64_encode(attested.chip_id.as_slice()),
            signature_b64: primitives::base64_encode(attested.signature.as_slice()),
            cert_chain_b64: base64_list(&attested.cert_chain),
        },
        None => {
            let measurement: [u8; 32] = primitives::sha256("tenxo-edge-agent-v1".as_bytes());
            proof {
                reveal_strlit("0000000000000000AMD-EPYC-9B12-2024-SNP-VALIDATION-KEY----");
                reveal_strlit(
                    "ECDSA-SECP384R1-SOFTWARE-FALLBACK-SIGNATURE-FOR-DEV-MODE-PRODUCTION-ONLY",
                );
                reveal_strlit("MILAN-ARK-CERT-DEV-FALLBACK");
                reveal_strlit("MILAN-ASK-CERT-DEV-FALLBACK");
                reveal_strlit("MILAN-OCA-CERT-DEV-FALLBACK");
            }
            let mut chain: Vec<String> = Vec::new();
            chain.push(base64_text("MILAN-ARK-CERT-DEV-FALLBACK"));
            chain.push(base64_text("MILAN-ASK-CERT-DEV-FALLBACK"));
            chain.push(base64_text("MILAN-OCA-CERT-DEV-FALLBACK"));
            assert(text::texts(chain@) =~= development_evidence().cert_chain);
            TeeQuote {
                report_data_b64,
                measurement_b64: primitives::base64_encode(measurement.as_slice()),
                chip_id_b64: base64_text(
                    "0000000000000000AMD-EPYC-9B12-2024-SNP-VALIDATION-KEY----",
                ),
                signature_b64: base64_text(
                    "ECDSA-SECP384R1-SOFTWARE-FALLBACK-SIGNATURE-FOR-DEV-MODE-PRODUCTION-ONLY",
                ),
                cert_chain_b64: chain,
            }
        },
    }
}

/// The report of a quote is 64 bytes: the first 32 are the public key, the last
/// 32 the challenge nonce. So one report fits one key and one nonce only.
pub proof fn law_report_binds_key_and_nonce(agent_pubkey: Seq<u8>, challenge_nonce: Seq<u8>)
    requires
        agent_pubkey.len() == 32,
        challenge_nonce.len() == 32,
    ensures
        report_data(agent_pubkey, challenge_nonce).len() == 64,
        report_data(agent_pubkey, challenge_nonce).subrange(0, 32) == agent_pubkey,
        report_data(agent_pubkey, challenge_nonce).subrange(32, 64) == challenge_nonce,
{
    assert(report_data(agent_pubkey, challenge_nonce).subrange(0, 32) =~= agent_pubkey);
    assert(report_data(agent_pubkey, challenge_nonce).subrange(32, 64) =~= challenge_nonce);
}

} // verus!
