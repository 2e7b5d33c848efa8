//! What a quote attests.

use vstd::prelude::*;
use vstd::utf8::*;

use crate::primitives;
use crate::sev_snp;
use crate::sev_snp::HardwareReport;
use crate::sev_snp::TeeQuote;
use crate::text;

verus! {

/// The report data is the agent's public key, then the challenge nonce.
pub proof fn law_report_data_is_key_then_nonce(agent_pubkey: Seq<u8>, challenge_nonce: Seq<u8>)
    ensures
        sev_snp::report_data(agent_pubkey, challenge_nonce) == agent_pubkey + challenge_nonce,
{
}

/// With hardware a quote carries, in base64, the measurement, the chip, the signature
/// and the certificates that the hardware gave, each in its own place.
pub proof fn law_quotes_carry_what_the_hardware_gave(
    quote: TeeQuote,
    agent_pubkey: Seq<u8>,
    challenge_nonce: Seq<u8>,
    report: HardwareReport,
)
    requires
        quote.attests(agent_pubkey, challenge_nonce, sev_snp::evidence(Some(report))),
    ensures
        quote.report_data_b64@ == primitives::base64_of(agent_pubkey + challenge_nonce),
        quote.measurement_b64@ == primitives::base64_of(report.measurement@),
        quote.chip_id_b64@ == primitives::base64_of(report.chip_id@),
        quote.signature_b64@ == primitives::base64_of(report.signature@),
        quote.cert_chain_b64@.len() == report.cert_chain@.len(),
        forall|i: int|
            0 <= i < report.cert_chain@.len() ==> (#[trigger] quote.cert_chain_b64@[i])@
                == primitives::base64_of(report.cert_chain@[i]@),
{
    let chain = sev_snp::evidence(Some(report)).cert_chain;
    assert(text::texts(quote.cert_chain_b64@).len() == quote.cert_chain_b64@.len());
    assert forall|i: int| 0 <= i < report.cert_chain@.len() implies (
    #[trigger] quote.cert_chain_b64@[i])@ == primitives::base64_of(report.cert_chain@[i]@) by {
        assert(chain[i] == primitives::base64_of(report.cert_chain@[i]@));
        assert(text::texts(quote.cert_chain_b64@)[i] == quote.cert_chain_b64@[i]@);
    }
}

/// Without hardware a quote carries the development parts: the digest of the agent's
/// name as the measurement, and fixed texts for the rest.
pub proof fn law_development_quotes_carry_fixed_parts(
    quote: TeeQuote,
    agent_pubkey: Seq<u8>,
    challenge_nonce: Seq<u8>,
)
    requires
        quote.attests(agent_pubkey, challenge_nonce, sev_snp::evidence(None)),
    ensures
        quote.report_data_b64@ == primitives::base64_of(agent_pubkey + challenge_nonce),
        quote.measurement_b64@ == primitives::base64_of(
            primitives::sha256_of(encode_utf8("tenxo-edge-agent-v1"@)),
        ),
        quote.chip_id_b64@ == primitives::base64_of(
            encode_utf8("0000000000000000AMD-EPYC-9B12-2024-SNP-VALIDATION-KEY----"@),
        ),
        quote.signature_b64@ == primitives::base64_of(
            encode_utf8(
                "ECDSA-SECP384R1-SOFTWARE-FALLBACK-SIGNATURE-FOR-DEV-MODE-PRODUCTION-ONLY"@,
            ),
        ),
        quote.cert_chain_b64@.len() == 3,
        quote.cert_chain_b64@[0]@ == primitives::base64_of(
            encode_utf8("MILAN-ARK-CERT-DEV-FALLBACK"@),
        ),
        quote.cert_chain_b64@[1]@ == primitives::base64_of(
            encode_utf8("MILAN-ASK-CERT-DEV-FALLBACK"@),
        ),
        quote.cert_chain_b64@[2]@ == primitives::base64_of(
            encode_utf8("MILAN-OCA-CERT-DEV-FALLBACK"@),
        ),
{
    let shown = text::texts(quote.cert_chain_b64@);
    assert(shown.len() == 3);
    assert(shown[0] == quote.cert_chain_b64@[0]@);
    assert(shown[1] == quote.cert_chain_b64@[1]@);
    assert(shown[2] == quote.cert_chain_b64@[2]@);
}

/// The evidence for a message is the hardware's, part by part, where there is
/// hardware, and the development parts where there is none.
pub proof fn law_evidence_comes_from_the_hardware(report: HardwareReport)
    ensures
        ({
            let e = sev_snp::evidence(Some(report));
            &&& e.measurement == primitives::base64_of(report.measurement@)
            &&& e.chip_id == primitives::base64_of(report.chip_id@)
            &&& e.signature == primitives::base64_of(report.signature@)
            &&& e.cert_chain.len() == report.cert_chain@.len()
            &&& forall|i: int|
                0 <= i < report.cert_chain@.len() ==> #[trigger] e.cert_chain[i]
                    == primitives::base64_of(report.cert_chain@[i]@)
        }),
        ({
            let e = sev_snp::evidence(None);
            &&& e.measurement == primitives::base64_of(
                primitives::sha256_of(encode_utf8("tenxo-edge-agent-v1"@)),
            )
            &&& e.chip_id == primitives::base64_of(
                encode_utf8("0000000000000000AMD-EPYC-9B12-2024-SNP-VALIDATION-KEY----"@),
            )
            &&& e.signature == primitives::base64_of(
                encode_utf8(
                    "ECDSA-SECP384R1-SOFTWARE-FALLBACK-SIGNATURE-FOR-DEV-MODE-PRODUCTION-ONLY"@,
                ),
            )
            &&& e.cert_chain == seq![
                primitives::base64_of(encode_utf8("MILAN-ARK-CERT-DEV-FALLBACK"@)),
                primitives::base64_of(encode_utf8("MILAN-ASK-CERT-DEV-FALLBACK"@)),
                primitives::base64_of(encode_utf8("MILAN-OCA-CERT-DEV-FALLBACK"@)),
            ]
        }),
{
}

/// A report can be quoted just where the base64 text of each of its parts, every
/// certificate among them, is no longer than a text can be.
pub proof fn law_reports_fit_part_by_part(report: HardwareReport, len: nat)
    ensures
        primitives::encodable(len) == (len <= isize::MAX as int / 4 * 3),
        report.fits() ==> report.measurement@.len() <= isize::MAX as int / 4 * 3
            && report.chip_id@.len() <= isize::MAX as int / 4 * 3 && report.signature@.len()
            <= isize::MAX as int / 4 * 3,
        report.fits() ==> forall|i: int|
            0 <= i < report.cert_chain@.len() ==> (#[trigger] report.cert_chain@[i])@.len()
                <= isize::MAX as int / 4 * 3,
        !report.fits() ==> report.measurement@.len() > isize::MAX as int / 4 * 3
            || report.chip_id@.len() > isize::MAX as int / 4 * 3 || report.signature@.len()
            > isize::MAX as int / 4 * 3 || exists|i: int|
            0 <= i < report.cert_chain@.len() && (#[trigger] report.cert_chain@[i])@.len()
                > isize::MAX as int / 4 * 3,
{
}

} // verus!
