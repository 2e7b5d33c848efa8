//! What a key exchange agrees on.

use vstd::prelude::*;

use crate::exchange;
use crate::exchange::ExchangeAction;
use crate::exchange::ExchangeError;
use crate::exchange::ExchangeMove;
use crate::exchange::Frame;
use crate::exchange::KeyExchange;
use crate::exchange::Party;
use crate::exchange::Progress;
use crate::exchange::Signal;
use crate::exchange::Stage;
use crate::json;
use crate::json::Json;
use crate::messages;
use crate::primitives;
use crate::sev_snp;
use crate::sev_snp::HardwareReport;
use crate::text;

verus! {

/// The WebSocket address is made of the HTTP address by two replacements, one after
/// the other, and an address without either prefix is left as it is.
pub proof fn law_ws_addresses_are_http_addresses(url: Seq<char>)
    ensures
        exchange::ws_url_of(url) == text::replaced(
            text::replaced(url, "http://"@, "ws://"@),
            "https://"@,
            "wss://"@,
        ),
        !text::occurs_in("http://"@, url) && !text::occurs_in("https://"@, url)
            ==> exchange::ws_url_of(url) == url,
{
    if !text::occurs_in("http://"@, url) && !text::occurs_in("https://"@, url) {
        text::lemma_nothing_replaced(url, "http://"@, "ws://"@);
        text::lemma_nothing_replaced(url, "https://"@, "wss://"@);
    }
}

/// What is read in a message is what stands in it: its type, and the texts of the
/// same names in its payload, each as it is there.
pub proof fn law_signals_are_read_by_name(
    kind: Json,
    nonce: Json,
    session_id: Json,
    pub_key: Json,
    message: Json,
    payload: Json,
)
    requires
        json::member(message, "type"@) == Some(kind),
        json::member(message, "payload"@) == Some(payload),
        json::member(payload, "nonce"@) == Some(nonce),
        json::member(payload, "session_id"@) == Some(session_id),
        json::member(payload, "pub_key"@) == Some(pub_key),
    ensures
        exchange::signal_in(message).kind == json::text_in(kind),
        exchange::signal_in(message).nonce == json::text_in(nonce),
        exchange::signal_in(message).session_id == json::text_in(session_id),
        exchange::signal_in(message).pub_key == json::text_in(pub_key),
{
}

/// What is not in a message is not read in it.
pub proof fn law_missing_parts_are_not_read(message: Json)
    ensures
        json::member(message, "type"@) is None ==> exchange::signal_in(message).kind is None,
        json::member(message, "payload"@) is None ==> {
            &&& exchange::signal_in(message).nonce is None
            &&& exchange::signal_in(message).session_id is None
            &&& exchange::signal_in(message).pub_key is None
        },
        json::member(message, "payload"@) matches Some(payload) ==> {
            &&& json::member(payload, "nonce"@) is None ==> exchange::signal_in(
                message,
            ).nonce is None
            &&& json::member(payload, "session_id"@) is None ==> exchange::signal_in(
                message,
            ).session_id is None
            &&& json::member(payload, "pub_key"@) is None ==> exchange::signal_in(
                message,
            ).pub_key is None
        },
{
}

/// An agent that waits for the client's key, and gets a message of that type, ends
/// with just the bytes whose base64 text stands under `pub_key` in the payload, in
/// their order. Any other type is passed over.
pub proof fn law_the_client_key_is_the_one_sent(
    public_key: Seq<u8>,
    node_id: Seq<char>,
    message: String,
    value: Json,
    payload: Json,
    key_b64: Seq<char>,
    key: Seq<u8>,
)
    requires
        json::json_read(message@) == Some(value),
        json::member(value, "type"@) == Some(Json::Text("client_pub_key"@)),
        json::member(value, "payload"@) == Some(payload),
        json::member(payload, "pub_key"@) == Some(Json::Text(key_b64)),
        primitives::base64_decoded(key_b64) == Ok::<Seq<u8>, primitives::Base64Error>(key),
    ensures
        exchange::move_on_frame(Stage::ClientKey, public_key, node_id, Frame::Text(message)) == Ok::<
            ExchangeMove,
            ExchangeError,
        >(ExchangeMove::Finish { client_key: key }),
{
}

/// What the agent ends an exchange with came from the client: a whole exchange that
/// ends well had a message of the client's key, and its end is what the base64 text
/// in that message decodes to.
pub proof fn law_exchanges_end_with_a_key_that_was_sent(party: Party, frames: Seq<Frame>)
    requires
        Progress::start().after_all(party, frames).end matches Some(Ok(_)),
    ensures
        exists|i: int|
            #![trigger frames[i]]
            0 <= i < frames.len() && frames[i] is Text && {
                let value = json::json_read(frames[i]->Text_0@);
                &&& value is Some
                &&& json::member(value->0, "type"@) == Some(Json::Text("client_pub_key"@))
                &&& json::member(value->0, "payload"@) is Some
                &&& json::member(json::member(value->0, "payload"@)->0, "pub_key"@) matches Some(
                    Json::Text(key_b64),
                ) && primitives::base64_decoded(key_b64) == Ok::<
                    Seq<u8>,
                    primitives::Base64Error,
                >(Progress::start().after_all(party, frames).end->0->Ok_0)
            },
    decreases frames.len(),
{
    if frames.len() > 0 {
        let front = frames.drop_last();
        let p = Progress::start().after_all(party, front);
        if p.end is Some {
            law_exchanges_end_with_a_key_that_was_sent(party, front);
            let i = choose|i: int|
                #![trigger front[i]]
                0 <= i < front.len() && front[i] is Text && {
                    let value = json::json_read(front[i]->Text_0@);
                    &&& value is Some
                    &&& json::member(value->0, "type"@) == Some(Json::Text("client_pub_key"@))
                    &&& json::member(value->0, "payload"@) is Some
                    &&& json::member(json::member(value->0, "payload"@)->0, "pub_key"@) matches Some(
                        Json::Text(key_b64),
                    ) && primitives::base64_decoded(key_b64) == Ok::<
                        Seq<u8>,
                        primitives::Base64Error,
                    >(p.end->0->Ok_0)
                };
            assert(frames[i] == front[i]);
        } else {
            exchange::law_two_messages_are_sent(party, front);
            assert(frames[frames.len() - 1] == frames.last());
        }
    }
}

/// A challenge with a nonce of 32 bytes has the hardware asked to attest the agent's
/// public key followed by that nonce. A nonce of another length is refused.
pub proof fn law_the_nonce_is_the_one_sent(
    public_key: Seq<u8>,
    node_id: Seq<char>,
    message: String,
    value: Json,
    payload: Json,
    nonce_b64: Seq<char>,
    nonce: Seq<u8>,
)
    requires
        json::json_read(message@) == Some(value),
        json::member(value, "type"@) == Some(Json::Text("challenge"@)),
        json::member(value, "payload"@) == Some(payload),
        json::member(payload, "nonce"@) == Some(Json::Text(nonce_b64)),
        primitives::base64_decoded(nonce_b64) == Ok::<Seq<u8>, primitives::Base64Error>(nonce),
    ensures
        exchange::move_on_frame(Stage::Challenge, public_key, node_id, Frame::Text(message)) == (
        if nonce.len() == 32 {
            Ok::<ExchangeMove, ExchangeError>(
                ExchangeMove::Attest { report_data: public_key + nonce },
            )
        } else {
            Err(ExchangeError::NonceLength { len: nonce.len() as usize })
        }),
        exchange::nonce_in(Frame::Text(message)) == nonce,
{
}

/// The quote that is sent attests the agent's public key and the nonce with what the
/// hardware gave; if it cannot be sent, that is the error.
pub proof fn law_the_quote_is_sent(
    public_key: Seq<u8>,
    nonce: Seq<u8>,
    hardware: Option<HardwareReport>,
)
    ensures
        exchange::move_on_report(public_key, nonce, hardware) == (ExchangeMove::Send {
            message: json::json_written(
                messages::attestation_json(public_key, nonce, sev_snp::evidence(hardware)),
            ),
            failure: ExchangeError::QuoteUnsent,
        }),
{
}

/// Word of the session is answered with the registration of the node.
pub proof fn law_a_session_is_registered(
    public_key: Seq<u8>,
    node_id: Seq<char>,
    message: String,
    value: Json,
    payload: Json,
    session_id: Seq<char>,
)
    requires
        json::json_read(message@) == Some(value),
        json::member(value, "type"@) == Some(Json::Text("session_created"@)),
        json::member(value, "payload"@) == Some(payload),
        json::member(payload, "session_id"@) == Some(Json::Text(session_id)),
    ensures
        exchange::move_on_frame(Stage::Session, public_key, node_id, Frame::Text(message)) == Ok::<
            ExchangeMove,
            ExchangeError,
        >(
            ExchangeMove::Send {
                message: json::json_written(messages::register_json(node_id)),
                failure: ExchangeError::RegisterUnsent,
            },
        ),
        exchange::signal_in(value).session_id == Some(session_id),
{
}

/// What is wrong with a message that is waited for ends the exchange: it is no JSON,
/// the part that it should bring is missing, or that part is not base64.
pub proof fn law_bad_messages_end_the_exchange(
    public_key: Seq<u8>,
    node_id: Seq<char>,
    message: String,
)
    ensures
        ({
            let at = |stage: Stage|
                exchange::move_on_frame(stage, public_key, node_id, Frame::Text(message));
            let value = json::json_read(message@);
            let signal = exchange::signal_in(value->0);
            &&& value is None ==> {
                &&& at(Stage::Challenge) == Err::<ExchangeMove, ExchangeError>(
                    ExchangeError::ChallengeNotJson,
                )
                &&& at(Stage::Session) == Err::<ExchangeMove, ExchangeError>(
                    ExchangeError::SessionNotJson,
                )
                &&& at(Stage::ClientKey) == Err::<ExchangeMove, ExchangeError>(
                    ExchangeError::ClientKeyNotJson,
                )
            }
            &&& value is Some && signal.kind == Some("challenge"@) ==> {
                &&& signal.nonce is None ==> at(Stage::Challenge) == Err::<
                    ExchangeMove,
                    ExchangeError,
                >(ExchangeError::NonceMissing)
                &&& signal.nonce is Some && primitives::base64_decoded(signal.nonce->0) is Err
                    ==> at(Stage::Challenge) == Err::<ExchangeMove, ExchangeError>(
                    ExchangeError::NonceNotBase64,
                )
            }
            &&& value is Some && signal.kind == Some("session_created"@) && signal.session_id is None
                ==> at(Stage::Session) == Err::<ExchangeMove, ExchangeError>(
                ExchangeError::SessionIdMissing,
            )
            &&& value is Some && signal.kind == Some("client_pub_key"@) ==> {
                &&& signal.pub_key is None ==> at(Stage::ClientKey) == Err::<
                    ExchangeMove,
                    ExchangeError,
                >(ExchangeError::ClientKeyMissing)
                &&& signal.pub_key is Some && primitives::base64_decoded(signal.pub_key->0) is Err
                    ==> at(Stage::ClientKey) == Err::<ExchangeMove, ExchangeError>(
                    ExchangeError::ClientKeyNotBase64,
                )
            }
        }),
{
}

/// A message that is not of the type that is waited for is passed over, and so is
/// what is no text; but a close while the client's key is waited for ends the
/// exchange.
pub proof fn law_other_messages_are_passed_over(
    stage: Stage,
    public_key: Seq<u8>,
    node_id: Seq<char>,
    message: String,
)
    requires
        stage != Stage::Report,
        json::json_read(message@) is Some,
        exchange::signal_in(json::json_read(message@)->0).kind != Some(
            match stage {
                Stage::Challenge => "challenge"@,
                Stage::Session => "session_created"@,
                _ => "client_pub_key"@,
            },
        ),
    ensures
        exchange::move_on_frame(stage, public_key, node_id, Frame::Text(message)) == Ok::<
            ExchangeMove,
            ExchangeError,
        >(ExchangeMove::Read),
        exchange::move_on_frame(stage, public_key, node_id, Frame::Other) == Ok::<
            ExchangeMove,
            ExchangeError,
        >(ExchangeMove::Read),
        exchange::move_on_frame(stage, public_key, node_id, Frame::Close) == (if stage
            == Stage::ClientKey {
            Err::<ExchangeMove, ExchangeError>(ExchangeError::ConnectionClosed)
        } else {
            Ok(ExchangeMove::Read)
        }),
{
}

/// The exchange goes from the challenge to the report, from there to the session, and
/// from there to the client's key, with each answer; nothing else moves it.
pub proof fn law_answers_move_the_exchange(
    stage: Stage,
    report_data: Seq<u8>,
    message: Seq<char>,
    failure: ExchangeError,
    client_key: Seq<u8>,
)
    ensures
        exchange::stage_after(stage, Ok(ExchangeMove::Attest { report_data })) == Stage::Report,
        exchange::stage_after(Stage::Report, Ok(ExchangeMove::Send { message, failure }))
            == Stage::Session,
        exchange::stage_after(Stage::Session, Ok(ExchangeMove::Send { message, failure }))
            == Stage::ClientKey,
        exchange::stage_after(stage, Ok(ExchangeMove::Read)) == stage,
        exchange::stage_after(stage, Ok(ExchangeMove::Finish { client_key })) == stage,
        exchange::stage_after(stage, Err(failure)) == stage,
{
}

/// An action shows what it holds, and is what was wanted only where it holds that.
pub proof fn law_actions_show_what_they_hold(
    action: ExchangeAction,
    error: ExchangeError,
    wanted: Result<ExchangeMove, ExchangeError>,
    signal: Signal,
)
    ensures
        action@ == (match action {
            ExchangeAction::Read => ExchangeMove::Read,
            ExchangeAction::Attest { report_data } => ExchangeMove::Attest {
                report_data: report_data@,
            },
            ExchangeAction::Send { message, failure } => ExchangeMove::Send {
                message: message@,
                failure,
            },
            ExchangeAction::Finish { client_key } => ExchangeMove::Finish {
                client_key: client_key@,
            },
        }),
        exchange::carries_out(Ok(action), wanted) ==> wanted == Ok::<ExchangeMove, ExchangeError>(
            action@,
        ),
        exchange::carries_out(Err(error), wanted) ==> wanted == Err::<ExchangeMove, ExchangeError>(
            error,
        ),
        signal@.kind == text::opt_text(signal.kind),
        signal@.nonce == text::opt_text(signal.nonce),
        signal@.session_id == text::opt_text(signal.session_id),
        signal@.pub_key == text::opt_text(signal.pub_key),
{
}

/// Each error says at which message the exchange ended, and why.
pub proof fn law_exchange_errors_name_the_message(len: usize)
    ensures
        ExchangeError::NotConnected.text() == "failed to connect to matchmaker signaling WS"@,
        ExchangeError::ChallengeUnread.text() == "failed to read challenge"@,
        ExchangeError::ChallengeNotJson.text() == "invalid JSON in challenge"@,
        ExchangeError::NonceMissing.text() == "missing nonce in challenge"@,
        ExchangeError::NonceNotBase64.text() == "failed to decode challenge nonce"@,
        (ExchangeError::NonceLength { len }).text() == "challenge nonce must be 32 bytes, got "@
            + text::decimal(len as nat),
        ExchangeError::QuoteUnsent.text() == "failed to send tee_quote"@,
        ExchangeError::SessionUnread.text() == "failed to read session response"@,
        ExchangeError::SessionNotJson.text() == "invalid JSON in session response"@,
        ExchangeError::SessionIdMissing.text() == "missing session_id in response"@,
        ExchangeError::RegisterUnsent.text() == "failed to send register"@,
        ExchangeError::ClientKeyUnread.text() == "failed to read client pubkey"@,
        ExchangeError::ClientKeyNotJson.text() == "invalid JSON in pubkey response"@,
        ExchangeError::ClientKeyMissing.text() == "missing pub_key in client_pub_key message"@,
        ExchangeError::ClientKeyNotBase64.text() == "failed to decode client public key"@,
        ExchangeError::ConnectionClosed.text() == "matchmaker closed WebSocket connection"@,
{
}

/// The parties of two states of an exchange are the same just where pair and node
/// are, and the public key is the one of the pair.
pub proof fn law_parties_are_pair_and_node(a: KeyExchange, b: KeyExchange)
    ensures
        a.same_party(b) == (a.secret() == b.secret() && a.node_id() == b.node_id()),
        a.public_key() == primitives::x25519_public(a.secret()),
{
}

} // verus!
