//! What stands in each message, part by part.

use vstd::prelude::*;
use vstd::utf8::*;

use crate::json;
use crate::json::Json;
use crate::messages;
use crate::primitives;
use crate::sev_snp::Evidence;
use crate::sev_snp::TeeQuote;

verus! {

/// The message of a quote holds each part of the quote under its own name, as it is
/// in the quote, and nothing more.
pub proof fn law_quote_message_holds_each_part(quote: TeeQuote)
    ensures
        ({
            let message = messages::typed("tee_quote"@, messages::quote_members(quote));
            let p = json::member(message, "payload"@)->0;
            &&& message is Object && message->Object_0.dom() == set!["type"@, "payload"@]
            &&& json::member(message, "type"@) == Some(Json::Text("tee_quote"@))
            &&& json::member(message, "payload"@) is Some
            &&& p is Object && p->Object_0.dom() == set!["report_data_b64"@, "measurement_b64"@, "chip_id_b64"@, "signature_b64"@, "cert_chain_b64"@]
            &&& json::member(p, "report_data_b64"@) == Some(Json::Text(quote.report_data_b64@))
            &&& json::member(p, "measurement_b64"@) == Some(Json::Text(quote.measurement_b64@))
            &&& json::member(p, "chip_id_b64"@) == Some(Json::Text(quote.chip_id_b64@))
            &&& json::member(p, "signature_b64"@) == Some(Json::Text(quote.signature_b64@))
            &&& json::member(p, "cert_chain_b64"@) == Some(Json::List(quote.cert_chain_b64@.map_values(|s: String| Json::Text(s@))))
        }),
{
    reveal_strlit("report_data_b64");
    reveal_strlit("measurement_b64");
    reveal_strlit("chip_id_b64");
    reveal_strlit("signature_b64");
    reveal_strlit("cert_chain_b64");
    assert("report_data_b64"@[0] != "measurement_b64"@[0]);
    assert("report_data_b64"@.len() != "chip_id_b64"@.len());
    assert("report_data_b64"@.len() != "signature_b64"@.len());
    assert("report_data_b64"@.len() != "cert_chain_b64"@.len());
    assert("measurement_b64"@.len() != "chip_id_b64"@.len());
    assert("measurement_b64"@.len() != "signature_b64"@.len());
    assert("measurement_b64"@.len() != "cert_chain_b64"@.len());
    assert("chip_id_b64"@.len() != "signature_b64"@.len());
    assert("chip_id_b64"@.len() != "cert_chain_b64"@.len());
    assert("signature_b64"@.len() != "cert_chain_b64"@.len());
    reveal_strlit("type");
    reveal_strlit("payload");
    assert("type"@.len() != "payload"@.len());
    let p = json::member(messages::typed("tee_quote"@, messages::quote_members(quote)), "payload"@)->0;
    assert((messages::typed("tee_quote"@, messages::quote_members(quote)))->Object_0.dom() =~= set!["type"@, "payload"@]);
    assert(p->Object_0.dom() =~= set!["report_data_b64"@, "measurement_b64"@, "chip_id_b64"@, "signature_b64"@, "cert_chain_b64"@]);
}

/// An attestation holds the base64 of the agent's public key followed by the nonce,
/// and each part of the evidence under its own name.
pub proof fn law_attestation_holds_each_part(agent_pubkey: Seq<u8>, challenge_nonce: Seq<u8>, evidence: Evidence)
    ensures
        ({
            let message = messages::attestation_json(agent_pubkey, challenge_nonce, evidence);
            let p = json::member(message, "payload"@)->0;
            &&& message is Object && message->Object_0.dom() == set!["type"@, "payload"@]
            &&& json::member(message, "type"@) == Some(Json::Text("tee_quote"@))
            &&& json::member(message, "payload"@) is Some
            &&& p is Object && p->Object_0.dom() == set!["report_data_b64"@, "measurement_b64"@, "chip_id_b64"@, "signature_b64"@, "cert_chain_b64"@]
            &&& json::member(p, "report_data_b64"@) == Some(Json::Text(primitives::base64_of(agent_pubkey + challenge_nonce)))
            &&& json::member(p, "measurement_b64"@) == Some(Json::Text(evidence.measurement))
            &&& json::member(p, "chip_id_b64"@) == Some(Json::Text(evidence.chip_id))
            &&& json::member(p, "signature_b64"@) == Some(Json::Text(evidence.signature))
            &&& json::member(p, "cert_chain_b64"@) == Some(Json::List(evidence.cert_chain.map_values(|s: Seq<char>| Json::Text(s))))
        }),
{
    reveal_strlit("report_data_b64");
    reveal_strlit("measurement_b64");
    reveal_strlit("chip_id_b64");
    reveal_strlit("signature_b64");
    reveal_strlit("cert_chain_b64");
    assert("report_data_b64"@[0] != "measurement_b64"@[0]);
    assert("report_data_b64"@.len() != "chip_id_b64"@.len());
    assert("report_data_b64"@.len() != "signature_b64"@.len());
    assert("report_data_b64"@.len() != "cert_chain_b64"@.len());
    assert("measurement_b64"@.len() != "chip_id_b64"@.len());
    assert("measurement_b64"@.len() != "signature_b64"@.len());
    assert("measurement_b64"@.len() != "cert_chain_b64"@.len());
    assert("chip_id_b64"@.len() != "signature_b64"@.len());
    assert("chip_id_b64"@.len() != "cert_chain_b64"@.len());
    assert("signature_b64"@.len() != "cert_chain_b64"@.len());
    reveal_strlit("type");
    reveal_strlit("payload");
    assert("type"@.len() != "payload"@.len());
    let p = json::member(messages::attestation_json(agent_pubkey, challenge_nonce, evidence), "payload"@)->0;
    assert((messages::attestation_json(agent_pubkey, challenge_nonce, evidence))->Object_0.dom() =~= set!["type"@, "payload"@]);
    assert(p->Object_0.dom() =~= set!["report_data_b64"@, "measurement_b64"@, "chip_id_b64"@, "signature_b64"@, "cert_chain_b64"@]);
}

/// A registration names the node, and nothing more.
pub proof fn law_registration_names_the_node(node_id: Seq<char>)
    ensures
        ({
            let message = messages::register_json(node_id);
            let p = json::member(message, "payload"@)->0;
            &&& message is Object && message->Object_0.dom() == set!["type"@, "payload"@]
            &&& json::member(message, "type"@) == Some(Json::Text("register"@))
            &&& json::member(message, "payload"@) is Some
            &&& p is Object && p->Object_0.dom() == set!["node_id"@]
            &&& json::member(p, "node_id"@) == Some(Json::Text(node_id))
        }),
{
    reveal_strlit("node_id");
    reveal_strlit("type");
    reveal_strlit("payload");
    assert("type"@.len() != "payload"@.len());
    let p = json::member(messages::register_json(node_id), "payload"@)->0;
    assert((messages::register_json(node_id))->Object_0.dom() =~= set!["type"@, "payload"@]);
    assert(p->Object_0.dom() =~= set!["node_id"@]);
}

/// The heartbeat of a session tells that the node is idle, whose it is and what it has.
pub proof fn law_heartbeat_tells_of_the_node(node_id: Seq<char>, owner: Seq<char>, gpu_model: Seq<char>, gpu_vram_mb: int)
    ensures
        ({
            let message = messages::typed("heartbeat"@, messages::idle_members(node_id, owner, gpu_model, gpu_vram_mb));
            let p = json::member(message, "payload"@)->0;
            &&& message is Object && message->Object_0.dom() == set!["type"@, "payload"@]
            &&& json::member(message, "type"@) == Some(Json::Text("heartbeat"@))
            &&& json::member(message, "payload"@) is Some
            &&& p is Object && p->Object_0.dom() == set!["node_id"@, "status"@, "owner"@, "gpu_model"@, "gpu_vram_mb"@]
            &&& json::member(p, "node_id"@) == Some(Json::Text(node_id))
            &&& json::member(p, "status"@) == Some(Json::Text("idle"@))
            &&& json::member(p, "owner"@) == Some(Json::Text(owner))
            &&& json::member(p, "gpu_model"@) == Some(Json::Text(gpu_model))
            &&& json::member(p, "gpu_vram_mb"@) == Some(Json::Int(gpu_vram_mb))
        }),
{
    reveal_strlit("node_id");
    reveal_strlit("status");
    reveal_strlit("owner");
    reveal_strlit("gpu_model");
    reveal_strlit("gpu_vram_mb");
    assert("node_id"@.len() != "status"@.len());
    assert("node_id"@.len() != "owner"@.len());
    assert("node_id"@.len() != "gpu_model"@.len());
    assert("node_id"@.len() != "gpu_vram_mb"@.len());
    assert("status"@.len() != "owner"@.len());
    assert("status"@.len() != "gpu_model"@.len());
    assert("status"@.len() != "gpu_vram_mb"@.len());
    assert("owner"@.len() != "gpu_model"@.len());
    assert("owner"@.len() != "gpu_vram_mb"@.len());
    assert("gpu_model"@.len() != "gpu_vram_mb"@.len());
    reveal_strlit("type");
    reveal_strlit("payload");
    assert("type"@.len() != "payload"@.len());
    let p = json::member(messages::typed("heartbeat"@, messages::idle_members(node_id, owner, gpu_model, gpu_vram_mb)), "payload"@)->0;
    assert((messages::typed("heartbeat"@, messages::idle_members(node_id, owner, gpu_model, gpu_vram_mb)))->Object_0.dom() =~= set!["type"@, "payload"@]);
    assert(p->Object_0.dom() =~= set!["node_id"@, "status"@, "owner"@, "gpu_model"@, "gpu_vram_mb"@]);
}

/// A posted heartbeat tells the same, and that the agent is attested.
pub proof fn law_posted_heartbeat_tells_of_the_node(node_id: Seq<char>, owner: Seq<char>, gpu_model: Seq<char>, gpu_vram_mb: int)
    ensures
        ({
            let p = Json::Object(messages::idle_members(node_id, owner, gpu_model, gpu_vram_mb).insert("tee_attested"@, Json::Bool(true)));
            &&& p is Object && p->Object_0.dom() == set!["node_id"@, "status"@, "owner"@, "gpu_model"@, "gpu_vram_mb"@, "tee_attested"@]
            &&& json::member(p, "node_id"@) == Some(Json::Text(node_id))
            &&& json::member(p, "status"@) == Some(Json::Text("idle"@))
            &&& json::member(p, "owner"@) == Some(Json::Text(owner))
            &&& json::member(p, "gpu_model"@) == Some(Json::Text(gpu_model))
            &&& json::member(p, "gpu_vram_mb"@) == Some(Json::Int(gpu_vram_mb))
            &&& json::member(p, "tee_attested"@) == Some(Json::Bool(true))
        }),
{
    reveal_strlit("node_id");
    reveal_strlit("status");
    reveal_strlit("owner");
    reveal_strlit("gpu_model");
    reveal_strlit("gpu_vram_mb");
    reveal_strlit("tee_attested");
    assert("node_id"@.len() != "status"@.len());
    assert("node_id"@.len() != "owner"@.len());
    assert("node_id"@.len() != "gpu_model"@.len());
    assert("node_id"@.len() != "gpu_vram_mb"@.len());
    assert("node_id"@.len() != "tee_attested"@.len());
    assert("status"@.len() != "owner"@.len());
    assert("status"@.len() != "gpu_model"@.len());
    assert("status"@.len() != "gpu_vram_mb"@.len());
    assert("status"@.len() != "tee_attested"@.len());
    assert("owner"@.len() != "gpu_model"@.len());
    assert("owner"@.len() != "gpu_vram_mb"@.len());
    assert("owner"@.len() != "tee_attested"@.len());
    assert("gpu_model"@.len() != "gpu_vram_mb"@.len());
    assert("gpu_model"@.len() != "tee_attested"@.len());
    assert("gpu_vram_mb"@.len() != "tee_attested"@.len());
    let p = Json::Object(messages::idle_members(node_id, owner, gpu_model, gpu_vram_mb).insert("tee_attested"@, Json::Bool(true)));
    assert(p->Object_0.dom() =~= set!["node_id"@, "status"@, "owner"@, "gpu_model"@, "gpu_vram_mb"@, "tee_attested"@]);
}

/// The report of a failed job has its name, that it failed, and the error.
pub proof fn law_failure_report_has_the_error(job_id: Seq<char>, error: Seq<char>)
    ensures
        ({
            let message = messages::error_json(job_id, error);
            let p = json::member(message, "payload"@)->0;
            &&& message is Object && message->Object_0.dom() == set!["type"@, "payload"@]
            &&& json::member(message, "type"@) == Some(Json::Text("result"@))
            &&& json::member(message, "payload"@) is Some
            &&& p is Object && p->Object_0.dom() == set!["job_id"@, "status"@, "error"@]
            &&& json::member(p, "job_id"@) == Some(Json::Text(job_id))
            &&& json::member(p, "status"@) == Some(Json::Text("error"@))
            &&& json::member(p, "error"@) == Some(Json::Text(error))
        }),
{
    reveal_strlit("job_id");
    reveal_strlit("status");
    reveal_strlit("error");
    assert("job_id"@[0] != "status"@[0]);
    assert("job_id"@.len() != "error"@.len());
    assert("status"@.len() != "error"@.len());
    reveal_strlit("type");
    reveal_strlit("payload");
    assert("type"@.len() != "payload"@.len());
    let p = json::member(messages::error_json(job_id, error), "payload"@)->0;
    assert((messages::error_json(job_id, error))->Object_0.dom() =~= set!["type"@, "payload"@]);
    assert(p->Object_0.dom() =~= set!["job_id"@, "status"@, "error"@]);
}

/// The report of a job that is done has its name, that it is done, and where its
/// result is.
pub proof fn law_success_report_has_the_result(job_id: Seq<char>, result_url: Seq<char>)
    ensures
        ({
            let message = messages::done_json(job_id, result_url);
            let p = json::member(message, "payload"@)->0;
            &&& message is Object && message->Object_0.dom() == set!["type"@, "payload"@]
            &&& json::member(message, "type"@) == Some(Json::Text("result"@))
            &&& json::member(message, "payload"@) is Some
            &&& p is Object && p->Object_0.dom() == set!["job_id"@, "status"@, "result_url"@]
            &&& json::member(p, "job_id"@) == Some(Json::Text(job_id))
            &&& json::member(p, "status"@) == Some(Json::Text("done"@))
            &&& json::member(p, "result_url"@) == Some(Json::Text(result_url))
        }),
{
    reveal_strlit("job_id");
    reveal_strlit("status");
    reveal_strlit("result_url");
    assert("job_id"@[0] != "status"@[0]);
    assert("job_id"@.len() != "result_url"@.len());
    assert("status"@.len() != "result_url"@.len());
    reveal_strlit("type");
    reveal_strlit("payload");
    assert("type"@.len() != "payload"@.len());
    let p = json::member(messages::done_json(job_id, result_url), "payload"@)->0;
    assert((messages::done_json(job_id, result_url))->Object_0.dom() =~= set!["type"@, "payload"@]);
    assert(p->Object_0.dom() =~= set!["job_id"@, "status"@, "result_url"@]);
}

/// A receipt has the name of the job, the hash of what went in, the hash of what
/// came out, each under its own name, and how they were made.
pub proof fn law_receipt_has_both_hashes(job_id: Seq<char>, input_hash: Seq<char>, output_hash: Seq<char>)
    ensures
        ({
            let p = messages::receipt_json(job_id, input_hash, output_hash);
            &&& p is Object && p->Object_0.dom() == set!["job_id"@, "input_hash"@, "output_hash"@, "algorithm"@]
            &&& json::member(p, "job_id"@) == Some(Json::Text(job_id))
            &&& json::member(p, "input_hash"@) == Some(Json::Text(input_hash))
            &&& json::member(p, "output_hash"@) == Some(Json::Text(output_hash))
            &&& json::member(p, "algorithm"@) == Some(Json::Text("sha-256"@))
        }),
{
    reveal_strlit("job_id");
    reveal_strlit("input_hash");
    reveal_strlit("output_hash");
    reveal_strlit("algorithm");
    assert("job_id"@.len() != "input_hash"@.len());
    assert("job_id"@.len() != "output_hash"@.len());
    assert("job_id"@.len() != "algorithm"@.len());
    assert("input_hash"@.len() != "output_hash"@.len());
    assert("input_hash"@.len() != "algorithm"@.len());
    assert("output_hash"@.len() != "algorithm"@.len());
    let p = messages::receipt_json(job_id, input_hash, output_hash);
    assert(p->Object_0.dom() =~= set!["job_id"@, "input_hash"@, "output_hash"@, "algorithm"@]);
}

/// A receipt is sent as the UTF-8 of its JSON text.
pub proof fn law_receipt_is_its_json(
    job_id: Seq<char>,
    input_hash: Seq<char>,
    output_hash: Seq<char>,
)
    ensures
        messages::receipt_of(job_id, input_hash, output_hash) == encode_utf8(
            json::json_written(messages::receipt_json(job_id, input_hash, output_hash)),
        ),
{
}

} // verus!
