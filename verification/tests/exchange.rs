use edge_agent::exchange::{
    read_signal, signaling_url, ExchangeAction, ExchangeError, Frame, KeyExchange,
};
use edge_agent::messages::{
    done_reply, error_reply, heartbeat_body, heartbeat_message, integrity_receipt,
    invalid_job_reply, register_message, tee_quote_message,
};
use edge_agent::keys::AgentKeys;
use edge_agent::sev_snp::{generate_tee_quote, HardwareReport};

const NONCE: &str = "AgICAgICAgICAgICAgICAgICAgICAgICAgICAgICAgI=";

fn text(s: &str) -> Frame {
    Frame::Text(s.to_string())
}

fn message_of(action: ExchangeAction) -> String {
    match action {
        ExchangeAction::Send { message, .. } => message,
        other => panic!("not a message: {:?}", other),
    }
}

fn new_exchange(node_id: &str) -> KeyExchange {
    KeyExchange::new(AgentKeys::generate(), node_id)
}

fn challenge() -> Frame {
    text(&format!("{{\"type\":\"challenge\",\"payload\":{{\"nonce\":\"{}\"}}}}", NONCE))
}

fn after_challenge() -> KeyExchange {
    let mut exchange = new_exchange("node-1");
    assert!(matches!(exchange.on_frame(&challenge()), Ok(ExchangeAction::Attest { .. })));
    assert!(!exchange.expects_frame());
    message_of(exchange.on_report(&None));
    assert!(exchange.expects_frame());
    exchange
}

fn after_session() -> KeyExchange {
    let mut exchange = after_challenge();
    let created = text("{\"type\":\"session_created\",\"payload\":{\"session_id\":\"s-9\"}}");
    message_of(exchange.on_frame(&created).unwrap());
    exchange
}

#[test]
fn http_addresses_become_websocket_addresses() {
    assert_eq!(signaling_url("http://127.0.0.1:8080"), "ws://127.0.0.1:8080/signal/agent");
    assert_eq!(signaling_url("https://api.example"), "wss://api.example/signal/agent");
    assert_eq!(signaling_url("api.example"), "api.example/signal/agent");
}

#[test]
fn the_quote_binds_key_and_nonce() {
    let quote = generate_tee_quote(&[1u8; 32], &[2u8; 32], &None);
    assert_eq!(
        quote.report_data_b64,
        "AQEBAQEBAQEBAQEBAQEBAQEBAQEBAQEBAQEBAQEBAQECAgICAgICAgICAgICAgICAgICAgICAgICAgICAgICAg=="
    );
    assert_eq!(quote.measurement_b64, "XubnsIG+Ou2KbNxUL5IfEVBCxLFznfKJCkxzUQPuT7c=");
    assert_eq!(
        quote.chip_id_b64,
        "MDAwMDAwMDAwMDAwMDAwMEFNRC1FUFlDLTlCMTItMjAyNC1TTlAtVkFMSURBVElPTi1LRVktLS0t"
    );
    assert_eq!(
        quote.signature_b64,
        "RUNEU0EtU0VDUDM4NFIxLVNPRlRXQVJFLUZBTExCQUNLLVNJR05BVFVSRS1GT1ItREVWLU1PREUtUFJPRFVDVElPTi1PTkxZ"
    );
    assert_eq!(
        quote.cert_chain_b64,
        vec![
            "TUlMQU4tQVJLLUNFUlQtREVWLUZBTExCQUNL",
            "TUlMQU4tQVNLLUNFUlQtREVWLUZBTExCQUNL",
            "TUlMQU4tT0NBLUNFUlQtREVWLUZBTExCQUNL",
        ]
    );
}

#[test]
fn a_hardware_report_is_carried() {
    let report = HardwareReport {
        measurement: vec![9u8; 32],
        chip_id: b"abc".to_vec(),
        signature: vec![],
        cert_chain: vec![b"a".to_vec(), b"ab".to_vec()],
    };
    assert!(report.can_be_quoted());
    let quote = generate_tee_quote(&[1u8; 32], &[2u8; 32], &Some(report));
    let development = generate_tee_quote(&[1u8; 32], &[2u8; 32], &None);
    assert_eq!(quote.report_data_b64, development.report_data_b64);
    assert_eq!(quote.measurement_b64, "CQkJCQkJCQkJCQkJCQkJCQkJCQkJCQkJCQkJCQkJCQk=");
    assert_eq!(quote.chip_id_b64, "YWJj");
    assert_eq!(quote.signature_b64, "");
    assert_eq!(quote.cert_chain_b64, vec!["YQ==", "YWI="]);
}

#[test]
fn the_exchange_runs_to_its_end() {
    let keys = AgentKeys::generate();
    let public = keys.public_key();
    let mut exchange = KeyExchange::new(keys, "node-1");
    match exchange.on_frame(&challenge()).unwrap() {
        ExchangeAction::Attest { report_data } => {
            assert_eq!(report_data[..32], public);
            assert_eq!(report_data[32..], [2u8; 32]);
        }
        other => panic!("{:?}", other),
    }
    match exchange.on_report(&None) {
        ExchangeAction::Send { message, failure } => {
            let quote = generate_tee_quote(&public, &[2u8; 32], &None);
            assert_eq!(message, tee_quote_message(&quote));
            let value: serde_json::Value = serde_json::from_str(&message).unwrap();
            assert_eq!(value["type"].as_str(), Some("tee_quote"));
            assert_eq!(
                value["payload"]["report_data_b64"].as_str(),
                Some(quote.report_data_b64.as_str())
            );
            assert_eq!(value["payload"]["cert_chain_b64"].as_array().unwrap().len(), 3);
            assert_eq!(failure, ExchangeError::QuoteUnsent);
        }
        other => panic!("{:?}", other),
    }
    let created = text("{\"type\":\"session_created\",\"payload\":{\"session_id\":\"s-9\"}}");
    match exchange.on_frame(&created).unwrap() {
        ExchangeAction::Send { message, failure } => {
            assert_eq!(message, "{\"payload\":{\"node_id\":\"node-1\"},\"type\":\"register\"}");
            assert_eq!(failure, ExchangeError::RegisterUnsent);
        }
        other => panic!("{:?}", other),
    }
    assert_eq!(exchange.session_name(), "s-9");
    let key = format!("{{\"type\":\"client_pub_key\",\"payload\":{{\"pub_key\":\"{}\"}}}}", NONCE);
    match exchange.on_frame(&text(&key)).unwrap() {
        ExchangeAction::Finish { client_key } => assert_eq!(client_key, vec![2u8; 32]),
        other => panic!("{:?}", other),
    }
}

#[test]
fn the_attested_pair_makes_the_secret() {
    let keys = AgentKeys::generate();
    let public = keys.public_key();
    let exchange = KeyExchange::new(keys, "n");
    let client = AgentKeys::generate();
    let client_public = client.public_key();
    let secret = exchange.finish(&client_public).unwrap();
    assert_eq!(secret, client.consume_shared_secret(&public));
    assert!(new_exchange("n").finish(&[1u8; 31]).is_none());
    assert!(new_exchange("n").finish(&[1u8; 33]).is_none());
}

#[test]
fn other_messages_are_passed_over() {
    let mut exchange = new_exchange("n");
    for frame in [
        text("{\"type\":\"session_created\"}"),
        text("{}"),
        text("[1]"),
        text("{\"type\":3}"),
        Frame::Close,
        Frame::Other,
    ] {
        assert!(matches!(exchange.on_frame(&frame), Ok(ExchangeAction::Read)));
        assert_eq!(exchange.read_failure(), ExchangeError::ChallengeUnread);
    }
    let mut waiting = after_session();
    assert!(matches!(waiting.on_frame(&Frame::Other), Ok(ExchangeAction::Read)));
    assert!(matches!(waiting.on_frame(&text("{\"type\":\"challenge\"}")), Ok(ExchangeAction::Read)));
}

#[test]
fn unrelated_messages_change_nothing() {
    let created = text("{\"type\":\"session_created\",\"payload\":{\"session_id\":\"s-9\"}}");
    let key = text(&format!("{{\"type\":\"client_pub_key\",\"payload\":{{\"pub_key\":\"{}\"}}}}", NONCE));
    let noise = || vec![text("{\"type\":\"ping\"}"), Frame::Other];
    let mut exchange = new_exchange("node-1");
    let mut sent = Vec::new();
    let mut finished = None;
    for wanted in [challenge(), created, key] {
        let mut frames = noise();
        frames.push(wanted);
        for frame in frames {
            match exchange.on_frame(&frame).unwrap() {
                ExchangeAction::Read => {}
                ExchangeAction::Attest { .. } => sent.push(message_of(exchange.on_report(&None))),
                ExchangeAction::Send { message, .. } => sent.push(message),
                ExchangeAction::Finish { client_key } => finished = Some(client_key),
            }
        }
    }
    assert_eq!(sent.len(), 2);
    assert!(sent[0].contains("\"type\":\"tee_quote\""));
    assert_eq!(sent[1], register_message("node-1"));
    assert_eq!(finished, Some(vec![2u8; 32]));
}

#[test]
fn a_bad_challenge_ends_the_exchange() {
    let mut exchange = new_exchange("n");
    let cases = [
        ("not json", ExchangeError::ChallengeNotJson, "invalid JSON in challenge"),
        (
            "{\"type\":\"challenge\",\"payload\":{}}",
            ExchangeError::NonceMissing,
            "missing nonce in challenge",
        ),
        (
            "{\"type\":\"challenge\",\"payload\":{\"nonce\":5}}",
            ExchangeError::NonceMissing,
            "missing nonce in challenge",
        ),
        (
            "{\"type\":\"challenge\",\"payload\":{\"nonce\":\"*\"}}",
            ExchangeError::NonceNotBase64,
            "failed to decode challenge nonce",
        ),
        (
            "{\"type\":\"challenge\",\"payload\":{\"nonce\":\"AgI=\"}}",
            ExchangeError::NonceLength { len: 2 },
            "challenge nonce must be 32 bytes, got 2",
        ),
    ];
    for (message, error, shown) in cases {
        let got = exchange.on_frame(&text(message)).unwrap_err();
        assert_eq!(got, error);
        assert_eq!(got.message(), shown);
        assert_eq!(exchange.read_failure(), ExchangeError::ChallengeUnread);
    }
}

#[test]
fn a_bad_session_or_key_ends_the_exchange() {
    let mut exchange = after_challenge();
    assert_eq!(exchange.on_frame(&text("x")).unwrap_err(), ExchangeError::SessionNotJson);
    let err = exchange.on_frame(&text("{\"type\":\"session_created\"}")).unwrap_err();
    assert_eq!(err, ExchangeError::SessionIdMissing);
    let mut exchange = after_session();
    assert_eq!(exchange.on_frame(&text("x")).unwrap_err(), ExchangeError::ClientKeyNotJson);
    let err = exchange.on_frame(&text("{\"type\":\"client_pub_key\"}")).unwrap_err();
    assert_eq!(err, ExchangeError::ClientKeyMissing);
    let bad = text("{\"type\":\"client_pub_key\",\"payload\":{\"pub_key\":\"?\"}}");
    assert_eq!(exchange.on_frame(&bad).unwrap_err(), ExchangeError::ClientKeyNotBase64);
    assert_eq!(exchange.on_frame(&Frame::Close).unwrap_err(), ExchangeError::ConnectionClosed);
}

#[test]
fn exchange_errors_have_their_texts() {
    assert_eq!(
        ExchangeError::NotConnected.message(),
        "failed to connect to matchmaker signaling WS"
    );
    assert_eq!(ExchangeError::QuoteUnsent.message(), "failed to send tee_quote");
    assert_eq!(ExchangeError::SessionNotJson.message(), "invalid JSON in session response");
    assert_eq!(ExchangeError::SessionIdMissing.message(), "missing session_id in response");
    assert_eq!(ExchangeError::RegisterUnsent.message(), "failed to send register");
    assert_eq!(ExchangeError::ClientKeyNotJson.message(), "invalid JSON in pubkey response");
    assert_eq!(
        ExchangeError::ClientKeyMissing.message(),
        "missing pub_key in client_pub_key message"
    );
    assert_eq!(ExchangeError::ClientKeyNotBase64.message(), "failed to decode client public key");
    assert_eq!(ExchangeError::ConnectionClosed.message(), "matchmaker closed WebSocket connection");
}

#[test]
fn an_unreadable_connection_is_named_by_its_stage() {
    let first = new_exchange("n").read_failure();
    assert_eq!(first.message(), "failed to read challenge");
    assert_eq!(after_challenge().read_failure().message(), "failed to read session response");
    assert_eq!(after_session().read_failure().message(), "failed to read client pubkey");
}

#[test]
fn signals_are_read_field_by_field() {
    let signal = read_signal(
        "{\"type\":\"t\",\"payload\":{\"nonce\":\"n\",\"session_id\":\"s\",\"pub_key\":\"p\"},\"nonce\":\"outer\"}",
    )
    .unwrap();
    assert_eq!(signal.kind.as_deref(), Some("t"));
    assert_eq!(signal.nonce.as_deref(), Some("n"));
    assert_eq!(signal.session_id.as_deref(), Some("s"));
    assert_eq!(signal.pub_key.as_deref(), Some("p"));
    assert!(read_signal("{").is_none());
}

#[test]
fn messages_have_their_json() {
    assert_eq!(
        register_message("n\"1"),
        "{\"payload\":{\"node_id\":\"n\\\"1\"},\"type\":\"register\"}"
    );
    assert_eq!(
        heartbeat_message("n", "o", "RTX", 24564),
        "{\"payload\":{\"gpu_model\":\"RTX\",\"gpu_vram_mb\":24564,\"node_id\":\"n\",\"owner\":\"o\",\"status\":\"idle\"},\"type\":\"heartbeat\"}"
    );
    assert_eq!(
        heartbeat_body("n", "", "unknown", -1),
        "{\"gpu_model\":\"unknown\",\"gpu_vram_mb\":-1,\"node_id\":\"n\",\"owner\":\"\",\"status\":\"idle\",\"tee_attested\":true}"
    );
    assert_eq!(
        error_reply("j", "bad"),
        "{\"payload\":{\"error\":\"bad\",\"job_id\":\"j\",\"status\":\"error\"},\"type\":\"result\"}"
    );
    assert_eq!(
        done_reply("j", "u"),
        "{\"payload\":{\"job_id\":\"j\",\"result_url\":\"u\",\"status\":\"done\"},\"type\":\"result\"}"
    );
    assert_eq!(
        invalid_job_reply("why"),
        "{\"payload\":{\"error\":\"invalid job message: why\",\"job_id\":\"\",\"status\":\"error\"},\"type\":\"result\"}"
    );
    assert_eq!(
        integrity_receipt("j", "in", "out"),
        b"{\"algorithm\":\"sha-256\",\"input_hash\":\"in\",\"job_id\":\"j\",\"output_hash\":\"out\"}".to_vec()
    );
}
