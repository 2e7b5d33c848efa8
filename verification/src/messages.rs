//! The JSON messages that the agent sends.

use vstd::prelude::*;
use vstd::string::*;
use vstd::utf8::*;

use crate::json;
use crate::json::Json;
use crate::primitives;
use crate::sev_snp;
use crate::sev_snp::Evidence;
use crate::sev_snp::TeeQuote;
use crate::text;

verus! {

/// A message of a kind with a payload.
pub open spec fn typed(kind: Seq<char>, payload: Map<Seq<char>, Json>) -> Json {
    Json::Object(map!["type"@ => Json::Text(kind), "payload"@ => Json::Object(payload)])
}

fn typed_message(kind: &str, payload: serde_json::Map<String, serde_json::Value>) -> (r: String)
    ensures
        r@ == json::json_written(typed(kind@, json::members_of(payload))),
{
    let mut object: serde_json::Map<String, serde_json::Value> = json::no_members();
    json::insert_member(&mut object, "type", json::text_value(kind));
    json::insert_member(&mut object, "payload", json::object_value(payload));
    json::write_json(&json::object_value(object))
}

fn text_list(items: &Vec<String>) -> (r: serde_json::Value)
    ensures
        json::json_of(r) == Json::List(items@.map_values(|s: String| Json::Text(s@))),
{
    let mut values: Vec<serde_json::Value> = Vec::new();
    let mut i: usize = 0;
    while i < items.len()
        invariant
            i <= items@.len(),
            values@.len() == i,
            forall|j: int|
                0 <= j < i ==> json::json_of(#[trigger] values@[j]) == Json::Text(items@[j]@),
        decreases items@.len() - i,
    {
        values.push(json::text_value(items[i].as_str()));
        i = i + 1;
    }
    assert(values@.map_values(|v: serde_json::Value| json::json_of(v)) =~= items@.map_values(
        |s: String| Json::Text(s@),
    ));
    json::list_value(values)
}

/// What a quote is in JSON.
pub open spec fn quote_members(quote: TeeQuote) -> Map<Seq<char>, Json> {
    map![
        "report_data_b64"@ => Json::Text(quote.report_data_b64@),
        "measurement_b64"@ => Json::Text(quote.measurement_b64@),
        "chip_id_b64"@ => Json::Text(quote.chip_id_b64@),
        "signature_b64"@ => Json::Text(quote.signature_b64@),
        "cert_chain_b64"@ => Json::List(quote.cert_chain_b64@.map_values(|s: String| Json::Text(s@))),
    ]
}

/// The message that attests a public key and a nonce to the matchmaker, with this
/// evidence.
pub open spec fn attestation_json(
    agent_pubkey: Seq<u8>,
    challenge_nonce: Seq<u8>,
    evidence: Evidence,
) -> Json {
    typed(
        "tee_quote"@,
        map![
            "report_data_b64"@ => Json::Text(
                primitives::base64_of(sev_snp::report_data(agent_pubkey, challenge_nonce)),
            ),
            "measurement_b64"@ => Json::Text(evidence.measurement),
            "chip_id_b64"@ => Json::Text(evidence.chip_id),
            "signature_b64"@ => Json::Text(evidence.signature),
            "cert_chain_b64"@ => Json::List(
                evidence.cert_chain.map_values(|s: Seq<char>| Json::Text(s)),
            ),
        ],
    )
}

/// The message of a quote for a public key and a nonce is the attestation of
/// that key and that nonce.
pub proof fn lemma_quote_message(
    quote: TeeQuote,
    agent_pubkey: Seq<u8>,
    challenge_nonce: Seq<u8>,
    evidence: Evidence,
)
    requires
        quote.attests(agent_pubkey, challenge_nonce, evidence),
    ensures
        typed("tee_quote"@, quote_members(quote)) == attestation_json(
            agent_pubkey,
            challenge_nonce,
            evidence,
        ),
{
    let chain = quote.cert_chain_b64@;
    assert forall|i: int| 0 <= i < chain.len() implies #[trigger] text::texts(chain)[i]
        == chain[i]@ by {}
    assert(chain.map_values(|s: String| Json::Text(s@)) =~= evidence.cert_chain.map_values(
        |s: Seq<char>| Json::Text(s),
    ));
}

/// The message that brings a quote to the matchmaker.
pub fn tee_quote_message(quote: &TeeQuote) -> (r: String)
    ensures
        r@ == json::json_written(typed("tee_quote"@, quote_members(*quote))),
{
    let mut payload: serde_json::Map<String, serde_json::Value> = json::no_members();
    json::insert_member(
        &mut payload,
        "report_data_b64",
        json::text_value(quote.report_data_b64.as_str()),
    );
    json::insert_member(
        &mut payload,
        "measurement_b64",
        json::text_value(quote.measurement_b64.as_str()),
    );
    json::insert_member(
        &mut payload,
        "chip_id_b64",
        json::text_value(quote.chip_id_b64.as_str()),
    );
    json::insert_member(
        &mut payload,
        "signature_b64",
        json::text_value(quote.signature_b64.as_str()),
    );
    json::insert_member(&mut payload, "cert_chain_b64", text_list(&quote.cert_chain_b64));
    typed_message("tee_quote", payload)
}

/// The message that gives the node's name to the matchmaker.
pub open spec fn register_json(node_id: Seq<char>) -> Json {
    typed("register"@, map!["node_id"@ => Json::Text(node_id)])
}

/// The message that gives the node's name to the matchmaker.
pub fn register_message(node_id: &str) -> (r: String)
    ensures
        r@ == json::json_written(register_json(node_id@)),
{
    let mut payload: serde_json::Map<String, serde_json::Value> = json::no_members();
    json::insert_member(&mut payload, "node_id", json::text_value(node_id));
    typed_message("register", payload)
}

/// What a heartbeat tells of an idle node.
pub open spec fn idle_members(
    node_id: Seq<char>,
    owner: Seq<char>,
    gpu_model: Seq<char>,
    gpu_vram_mb: int,
) -> Map<Seq<char>, Json> {
    map![
        "node_id"@ => Json::Text(node_id),
        "status"@ => Json::Text("idle"@),
        "owner"@ => Json::Text(owner),
        "gpu_model"@ => Json::Text(gpu_model),
        "gpu_vram_mb"@ => Json::Int(gpu_vram_mb),
    ]
}

fn idle_payload(node_id: &str, owner: &str, gpu_model: &str, gpu_vram_mb: i32) -> (r:
    serde_json::Map<String, serde_json::Value>)
    ensures
        json::members_of(r) == idle_members(node_id@, owner@, gpu_model@, gpu_vram_mb as int),
{
    let mut payload: serde_json::Map<String, serde_json::Value> = json::no_members();
    json::insert_member(&mut payload, "node_id", json::text_value(node_id));
    json::insert_member(&mut payload, "status", json::text_value("idle"));
    json::insert_member(&mut payload, "owner", json::text_value(owner));
    json::insert_member(&mut payload, "gpu_model", json::text_value(gpu_model));
    json::insert_member(&mut payload, "gpu_vram_mb", json::int_value(gpu_vram_mb));
    payload
}

/// The heartbeat that opens a session on the WebSocket.
pub fn heartbeat_message(node_id: &str, owner: &str, gpu_model: &str, gpu_vram_mb: i32) -> (r:
    String)
    ensures
        r@ == json::json_written(
            typed(
                "heartbeat"@,
                idle_members(node_id@, owner@, gpu_model@, gpu_vram_mb as int),
            ),
        ),
{
    typed_message("heartbeat", idle_payload(node_id, owner, gpu_model, gpu_vram_mb))
}

/// The body of the heartbeat that is posted again and again.
pub fn heartbeat_body(node_id: &str, owner: &str, gpu_model: &str, gpu_vram_mb: i32) -> (r: String)
    ensures
        r@ == json::json_written(
            Json::Object(
                idle_members(node_id@, owner@, gpu_model@, gpu_vram_mb as int).insert(
                    "tee_attested"@,
                    Json::Bool(true),
                ),
            ),
        ),
{
    let mut body: serde_json::Map<String, serde_json::Value> = idle_payload(
        node_id,
        owner,
        gpu_model,
        gpu_vram_mb,
    );
    json::insert_member(&mut body, "tee_attested", json::bool_value(true));
    json::write_json(&json::object_value(body))
}

/// The message that reports a job as failed.
pub open spec fn error_json(job_id: Seq<char>, error: Seq<char>) -> Json {
    typed(
        "result"@,
        map![
            "job_id"@ => Json::Text(job_id),
            "status"@ => Json::Text("error"@),
            "error"@ => Json::Text(error),
        ],
    )
}

/// The message that reports a job as failed.
pub fn error_reply(job_id: &str, error: &str) -> (r: String)
    ensures
        r@ == json::json_written(error_json(job_id@, error@)),
{
    let mut payload: serde_json::Map<String, serde_json::Value> = json::no_members();
    json::insert_member(&mut payload, "job_id", json::text_value(job_id));
    json::insert_member(&mut payload, "status", json::text_value("error"));
    json::insert_member(&mut payload, "error", json::text_value(error));
    typed_message("result", payload)
}

/// The message that reports a job as done, and where its result is.
pub open spec fn done_json(job_id: Seq<char>, result_url: Seq<char>) -> Json {
    typed(
        "result"@,
        map![
            "job_id"@ => Json::Text(job_id),
            "status"@ => Json::Text("done"@),
            "result_url"@ => Json::Text(result_url),
        ],
    )
}

/// The message that reports a job as done, and where its result is.
pub fn done_reply(job_id: &str, result_url: &str) -> (r: String)
    ensures
        r@ == json::json_written(done_json(job_id@, result_url@)),
{
    let mut payload: serde_json::Map<String, serde_json::Value> = json::no_members();
    json::insert_member(&mut payload, "job_id", json::text_value(job_id));
    json::insert_member(&mut payload, "status", json::text_value("done"));
    json::insert_member(&mut payload, "result_url", json::text_value(result_url));
    typed_message("result", payload)
}

/// The answer to a message that is no job: a failed job without a name.
pub fn invalid_job_reply(reason: &str) -> (r: String)
    ensures
        r@ == json::json_written(error_json(""@, "invalid job message: "@ + reason@)),
{
    let error: String = text::cat2("invalid job message: ", reason);
    error_reply("", error.as_str())
}

/// The receipt of a job: the hashes of what went in and what came out.
pub open spec fn receipt_json(
    job_id: Seq<char>,
    input_hash: Seq<char>,
    output_hash: Seq<char>,
) -> Json {
    Json::Object(
        map![
            "job_id"@ => Json::Text(job_id),
            "input_hash"@ => Json::Text(input_hash),
            "output_hash"@ => Json::Text(output_hash),
            "algorithm"@ => Json::Text("sha-256"@),
        ],
    )
}

/// The bytes of the receipt of a job.
pub open spec fn receipt_of(
    job_id: Seq<char>,
    input_hash: Seq<char>,
    output_hash: Seq<char>,
) -> Seq<u8> {
    encode_utf8(json::json_written(receipt_json(job_id, input_hash, output_hash)))
}

/// The bytes of the receipt of a job.
pub fn integrity_receipt(job_id: &str, input_hash: &str, output_hash: &str) -> (r: Vec<u8>)
    ensures
        r@ == receipt_of(job_id@, input_hash@, output_hash@),
{
    let mut receipt: serde_json::Map<String, serde_json::Value> = json::no_members();
    json::insert_member(&mut receipt, "job_id", json::text_value(job_id));
    json::insert_member(&mut receipt, "input_hash", json::text_value(input_hash));
    json::insert_member(&mut receipt, "output_hash", json::text_value(output_hash));
    json::insert_member(&mut receipt, "algorithm", json::text_value("sha-256"));
    json::write_json_bytes(&json::object_value(receipt))
}

} // verus!
