//! The key exchange with a client through the matchmaker: which message the
//! agent waits for, what it answers, and when it gives up.

use vstd::prelude::*;
use vstd::string::*;

use crate::json;
use crate::json::Json;
use crate::keys;
use crate::keys::AgentKeys;
use crate::messages;
use crate::primitives;
use crate::sev_snp;
use crate::sev_snp::HardwareReport;
use crate::text;

verus! {

// ---------------------------------------------------------------------------
// Where to connect

/// The WebSocket address of an HTTP address.
pub open spec fn ws_url_of(url: Seq<char>) -> Seq<char> {
    text::replaced(text::replaced(url, "http://"@, "ws://"@), "https://"@, "wss://"@)
}

/// A pattern laid on `head` at place `i` differs from it inside `head`.
spec fn differs_at(head: Seq<char>, pattern: Seq<char>, i: int) -> bool {
    exists|k: int|
        #![trigger pattern[k]]
        0 <= k < pattern.len() && i + k < head.len() && head[i + k] != pattern[k]
}

proof fn lemma_not_across(head: Seq<char>, rest: Seq<char>, pattern: Seq<char>)
    requires
        pattern.len() > 0,
        !text::occurs_in(pattern, rest),
        forall|i: int| 0 <= i < head.len() ==> differs_at(head, pattern, i),
    ensures
        !text::occurs_in(pattern, head + rest),
{
    let s = head + rest;
    assert forall|i: int| !text::stands_at(s, pattern, i) by {
        if text::stands_at(s, pattern, i) {
            if i < head.len() {
                assert(differs_at(head, pattern, i));
                let k = choose|k: int|
                    #![trigger pattern[k]]
                    0 <= k < pattern.len() && i + k < head.len() && head[i + k] != pattern[k];
                assert(s.subrange(i, i + pattern.len())[k] == s[i + k]);
            } else {
                let j = i - head.len();
                assert(rest.subrange(j, j + pattern.len()) =~= s.subrange(i, i + pattern.len()));
                assert(text::stands_at(rest, pattern, j));
            }
        }
    }
}

/// An `http` address becomes the `ws` address of the same place, and an `https`
/// address the `wss` address, where the place itself holds no such prefix.
pub proof fn law_ws_url_keeps_the_place(place: Seq<char>)
    requires
        !text::occurs_in("http://"@, place),
        !text::occurs_in("https://"@, place),
    ensures
        ws_url_of("http://"@ + place) == "ws://"@ + place,
        ws_url_of("https://"@ + place) == "wss://"@ + place,
{
    let http = "http://"@;
    let https = "https://"@;
    let ws = "ws://"@;
    let wss = "wss://"@;
    reveal_strlit("http://");
    reveal_strlit("https://");
    reveal_strlit("ws://");
    reveal_strlit("wss://");
    let a = http + place;
    assert(a.take(http.len() as int) =~= http);
    assert(a.skip(http.len() as int) =~= place);
    text::lemma_nothing_replaced(place, http, ws);
    assert(text::replaced(a, http, ws) == ws + place);
    assert forall|i: int| 0 <= i < ws.len() implies differs_at(ws, https, i) by {
        assert(ws[i + 0] != https[0]);
    }
    lemma_not_across(ws, place, https);
    text::lemma_nothing_replaced(ws + place, https, wss);
    let b = https + place;
    assert forall|i: int| 0 <= i < https.len() implies differs_at(https, http, i) by {
        if i == 0 {
            assert(https[i + 4] != http[4]);
        } else {
            assert(https[i + 0] != http[0]);
        }
    }
    lemma_not_across(https, place, http);
    text::lemma_nothing_replaced(b, http, ws);
    assert(b.take(https.len() as int) =~= https);
    assert(b.skip(https.len() as int) =~= place);
    text::lemma_nothing_replaced(place, https, wss);
}

/// The address of the matchmaker's signaling channel.
pub fn signaling_url(matchmaker_url: &str) -> (r: String)
    ensures
        r@ == ws_url_of(matchmaker_url@) + "/signal/agent"@,
{
    proof {
        reveal_strlit("http://");
        reveal_strlit("https://");
    }
    let plain: String = text::replace(matchmaker_url, "http://", "ws://");
    let both: String = text::replace(plain.as_str(), "https://", "wss://");
    text::cat2(both.as_str(), "/signal/agent")
}

// ---------------------------------------------------------------------------
// What comes in

/// A WebSocket message, as far as the agent tells them apart.
#[derive(Debug)]
pub enum Frame {
    Text(String),
    Close,
    Other,
}

/// What the agent reads in a signaling message: its kind, and of its payload the
/// texts that the exchange needs.
#[derive(Debug)]
pub struct Signal {
    pub kind: Option<String>,
    pub nonce: Option<String>,
    pub session_id: Option<String>,
    pub pub_key: Option<String>,
}

/// The contents of a `Signal`.
pub struct SignalModel {
    pub kind: Option<Seq<char>>,
    pub nonce: Option<Seq<char>>,
    pub session_id: Option<Seq<char>>,
    pub pub_key: Option<Seq<char>>,
}

impl View for Signal {
    type V = SignalModel;

    open spec fn view(&self) -> SignalModel {
        SignalModel {
            kind: text::opt_text(self.kind),
            nonce: text::opt_text(self.nonce),
            session_id: text::opt_text(self.session_id),
            pub_key: text::opt_text(self.pub_key),
        }
    }
}

/// The text member of an object under a key.
pub open spec fn text_member(value: Json, key: Seq<char>) -> Option<Seq<char>> {
    match json::member(value, key) {
        Some(v) => json::text_in(v),
        None => None,
    }
}

/// The text member, under a key, of an object's payload.
pub open spec fn payload_text(value: Json, key: Seq<char>) -> Option<Seq<char>> {
    match json::member(value, "payload"@) {
        Some(payload) => text_member(payload, key),
        None => None,
    }
}

/// What the agent reads in a JSON message.
pub open spec fn signal_in(value: Json) -> SignalModel {
    SignalModel {
        kind: text_member(value, "type"@),
        nonce: payload_text(value, "nonce"@),
        session_id: payload_text(value, "session_id"@),
        pub_key: payload_text(value, "pub_key"@),
    }
}

fn find_text(value: &serde_json::Value, key: &str) -> (r: Option<String>)
    ensures
        text::opt_text(r) == text_member(json::json_of(*value), key@),
{
    match json::get_member(value, key) {
        Some(v) => match json::as_text(v) {
            Some(s) => Some(s.to_owned()),
            None => None,
        },
        None => None,
    }
}

fn find_payload_text(value: &serde_json::Value, key: &str) -> (r: Option<String>)
    ensures
        text::opt_text(r) == payload_text(json::json_of(*value), key@),
{
    match json::get_member(value, "payload") {
        Some(payload) => find_text(payload, key),
        None => None,
    }
}

/// Reads a signaling message; `None` where the text is not JSON.
pub fn read_signal(message: &str) -> (r: Option<Signal>)
    ensures
        r is Some == json::json_read(message@) is Some,
        r is Some ==> r->0@ == signal_in(json::json_read(message@)->0),
{
    match json::read_json(message) {
        Ok(value) => Some(
            Signal {
                kind: find_text(&value, "type"),
                nonce: find_payload_text(&value, "nonce"),
                session_id: find_payload_text(&value, "session_id"),
                pub_key: find_payload_text(&value, "pub_key"),
            },
        ),
        Err(_) => None,
    }
}

// ---------------------------------------------------------------------------
// Errors

/// Why a key exchange ended without a key.
#[derive(Debug, Clone, Copy, PartialEq, Eq, Structural)]
pub enum ExchangeError {
    NotConnected,
    ChallengeUnread,
    ChallengeNotJson,
    NonceMissing,
    NonceNotBase64,
    NonceLength { len: usize },
    QuoteUnsent,
    SessionUnread,
    SessionNotJson,
    SessionIdMissing,
    RegisterUnsent,
    ClientKeyUnread,
    ClientKeyNotJson,
    ClientKeyMissing,
    ClientKeyNotBase64,
    ConnectionClosed,
}

impl ExchangeError {
    /// The text of the error.
    pub open spec fn text(self) -> Seq<char> {
        match self {
            ExchangeError::NotConnected => "failed to connect to matchmaker signaling WS"@,
            ExchangeError::ChallengeUnread => "failed to read challenge"@,
            ExchangeError::ChallengeNotJson => "invalid JSON in challenge"@,
            ExchangeError::NonceMissing => "missing nonce in challenge"@,
            ExchangeError::NonceNotBase64 => "failed to decode challenge nonce"@,
            ExchangeError::NonceLength { len } => "challenge nonce must be 32 bytes, got "@
                + text::decimal(len as nat),
            ExchangeError::QuoteUnsent => "failed to send tee_quote"@,
            ExchangeError::SessionUnread => "failed to read session response"@,
            ExchangeError::SessionNotJson => "invalid JSON in session response"@,
            ExchangeError::SessionIdMissing => "missing session_id in response"@,
            ExchangeError::RegisterUnsent => "failed to send register"@,
            ExchangeError::ClientKeyUnread => "failed to read client pubkey"@,
            ExchangeError::ClientKeyNotJson => "invalid JSON in pubkey response"@,
            ExchangeError::ClientKeyMissing => "missing pub_key in client_pub_key message"@,
            ExchangeError::ClientKeyNotBase64 => "failed to decode client public key"@,
            ExchangeError::ConnectionClosed => "matchmaker closed WebSocket connection"@,
        }
    }

    /// The text of the error.
    pub fn message(&self) -> (r: String)
        ensures
            r@ == self.text(),
    {
        match self {
            ExchangeError::NotConnected =>
                "failed to connect to matchmaker signaling WS".to_owned(),
            ExchangeError::ChallengeUnread => "failed to read challenge".to_owned(),
            ExchangeError::ChallengeNotJson => "invalid JSON in challenge".to_owned(),
            ExchangeError::NonceMissing => "missing nonce in challenge".to_owned(),
            ExchangeError::NonceNotBase64 => "failed to decode challenge nonce".to_owned(),
            ExchangeError::NonceLength { len } => text::cat2(
                "challenge nonce must be 32 bytes, got ",
                text::decimal_text(*len as u64).as_str(),
            ),
            ExchangeError::QuoteUnsent => "failed to send tee_quote".to_owned(),
            ExchangeError::SessionUnread => "failed to read session response".to_owned(),
            ExchangeError::SessionNotJson => "invalid JSON in session response".to_owned(),
            ExchangeError::SessionIdMissing => "missing session_id in response".to_owned(),
            ExchangeError::RegisterUnsent => "failed to send register".to_owned(),
            ExchangeError::ClientKeyUnread => "failed to read client pubkey".to_owned(),
            ExchangeError::ClientKeyNotJson => "invalid JSON in pubkey response".to_owned(),
            ExchangeError::ClientKeyMissing =>
                "missing pub_key in client_pub_key message".to_owned(),
            ExchangeError::ClientKeyNotBase64 => "failed to decode client public key".to_owned(),
            ExchangeError::ConnectionClosed => "matchmaker closed WebSocket connection".to_owned(),
        }
    }
}

// ---------------------------------------------------------------------------
// The exchange

/// What the agent waits for.
#[derive(Debug, Clone, Copy, PartialEq, Eq, Structural)]
pub enum Stage {
    /// The challenge nonce of the matchmaker.
    Challenge,
    /// What the hardware attests.
    Report,
    /// Word that the session is there.
    Session,
    /// The public key of the client.
    ClientKey,
}

/// What the agent does next.
#[derive(Debug)]
pub enum ExchangeAction {
    /// Read another message.
    Read,
    /// Ask the hardware, if there is any, to attest this report data.
    Attest { report_data: Vec<u8> },
    /// Send a message, then read; `failure` is the error if it cannot be sent.
    Send { message: String, failure: ExchangeError },
    /// The exchange is over: this is the client's public key.
    Finish { client_key: Vec<u8> },
}

/// The contents of an `ExchangeAction`.
pub enum ExchangeMove {
    Read,
    Attest { report_data: Seq<u8> },
    Send { message: Seq<char>, failure: ExchangeError },
    Finish { client_key: Seq<u8> },
}

impl View for ExchangeAction {
    type V = ExchangeMove;

    open spec fn view(&self) -> ExchangeMove {
        match self {
            ExchangeAction::Read => ExchangeMove::Read,
            ExchangeAction::Attest { report_data } => ExchangeMove::Attest {
                report_data: report_data@,
            },
            ExchangeAction::Send { message, failure } => ExchangeMove::Send {
                message: message@,
                failure: *failure,
            },
            ExchangeAction::Finish { client_key } => ExchangeMove::Finish {
                client_key: client_key@,
            },
        }
    }
}

/// What the agent does with a challenge that brings these bytes: it has its public
/// key attested together with the nonce.
pub open spec fn move_on_nonce(public_key: Seq<u8>, nonce: Seq<u8>) -> Result<
    ExchangeMove,
    ExchangeError,
> {
    if nonce.len() == 32 {
        Ok(ExchangeMove::Attest { report_data: sev_snp::report_data(public_key, nonce) })
    } else {
        Err(ExchangeError::NonceLength { len: nonce.len() as usize })
    }
}

/// What the agent does with what the hardware attests, or without hardware: it
/// sends the quote.
pub open spec fn move_on_report(
    public_key: Seq<u8>,
    nonce: Seq<u8>,
    hardware: Option<HardwareReport>,
) -> ExchangeMove {
    ExchangeMove::Send {
        message: json::json_written(
            messages::attestation_json(public_key, nonce, sev_snp::evidence(hardware)),
        ),
        failure: ExchangeError::QuoteUnsent,
    }
}

/// What the agent does with a signaling message. A message of a kind that it
/// does not wait for is passed over.
pub open spec fn move_on_signal(
    stage: Stage,
    public_key: Seq<u8>,
    node_id: Seq<char>,
    signal: SignalModel,
) -> Result<ExchangeMove, ExchangeError> {
    match stage {
        Stage::Challenge => if signal.kind != Some("challenge"@) {
            Ok(ExchangeMove::Read)
        } else {
            match signal.nonce {
                None => Err(ExchangeError::NonceMissing),
                Some(nonce) => match primitives::base64_decoded(nonce) {
                    Ok(bytes) => move_on_nonce(public_key, bytes),
                    Err(_) => Err(ExchangeError::NonceNotBase64),
                },
            }
        },
        Stage::Report => Ok(ExchangeMove::Read),
        Stage::Session => if signal.kind != Some("session_created"@) {
            Ok(ExchangeMove::Read)
        } else if signal.session_id is None {
            Err(ExchangeError::SessionIdMissing)
        } else {
            Ok(
                ExchangeMove::Send {
                    message: json::json_written(messages::register_json(node_id)),
                    failure: ExchangeError::RegisterUnsent,
                },
            )
        },
        Stage::ClientKey => if signal.kind != Some("client_pub_key"@) {
            Ok(ExchangeMove::Read)
        } else {
            match signal.pub_key {
                None => Err(ExchangeError::ClientKeyMissing),
                Some(key) => match primitives::base64_decoded(key) {
                    Ok(client_key) => Ok(ExchangeMove::Finish { client_key }),
                    Err(_) => Err(ExchangeError::ClientKeyNotBase64),
                },
            }
        },
    }
}

/// The error for a message that is not JSON.
pub open spec fn not_json_error(stage: Stage) -> ExchangeError {
    match stage {
        Stage::Challenge => ExchangeError::ChallengeNotJson,
        Stage::Report => ExchangeError::SessionNotJson,
        Stage::Session => ExchangeError::SessionNotJson,
        Stage::ClientKey => ExchangeError::ClientKeyNotJson,
    }
}

/// What the agent does with a WebSocket message. It minds a close only while it
/// waits for the client's key.
pub open spec fn move_on_frame(
    stage: Stage,
    public_key: Seq<u8>,
    node_id: Seq<char>,
    frame: Frame,
) -> Result<ExchangeMove, ExchangeError> {
    match frame {
        Frame::Text(message) => match json::json_read(message@) {
            Some(value) => move_on_signal(stage, public_key, node_id, signal_in(value)),
            None => Err(not_json_error(stage)),
        },
        Frame::Close => if stage == Stage::ClientKey {
            Err(ExchangeError::ConnectionClosed)
        } else {
            Ok(ExchangeMove::Read)
        },
        Frame::Other => Ok(ExchangeMove::Read),
    }
}

/// The stage after a move.
pub open spec fn stage_after(stage: Stage, done: Result<ExchangeMove, ExchangeError>) -> Stage {
    match done {
        Ok(ExchangeMove::Attest { .. }) => Stage::Report,
        Ok(ExchangeMove::Send { .. }) => match stage {
            Stage::Report => Stage::Session,
            _ => Stage::ClientKey,
        },
        _ => stage,
    }
}

/// The result holds the action that `wanted` describes, or its error.
pub open spec fn carries_out(
    r: Result<ExchangeAction, ExchangeError>,
    wanted: Result<ExchangeMove, ExchangeError>,
) -> bool {
    match r {
        Ok(action) => wanted == Ok::<ExchangeMove, ExchangeError>(action@),
        Err(e) => wanted == Err::<ExchangeMove, ExchangeError>(e),
    }
}

/// A key exchange under way. It holds the pair whose public key it has attested,
/// and whose secret makes the shared secret.
pub struct KeyExchange {
    stage: Stage,
    keys: AgentKeys,
    nonce: [u8; 32],
    node_id: String,
    session_id: String,
}

impl KeyExchange {
    /// What the agent waits for.
    pub closed spec fn stage(self) -> Stage {
        self.stage
    }

    /// The secret of the pair.
    pub closed spec fn secret(self) -> x25519_dalek::EphemeralSecret {
        self.keys.secret()
    }

    /// The public key of the pair.
    pub open spec fn public_key(self) -> Seq<u8> {
        primitives::x25519_public(self.secret())
    }

    /// The nonce of the challenge.
    pub closed spec fn nonce(self) -> Seq<u8> {
        self.nonce@
    }

    /// The name of the node.
    pub closed spec fn node_id(self) -> Seq<char> {
        self.node_id@
    }

    /// The name of the session, once it is there.
    pub closed spec fn session_id(self) -> Seq<char> {
        self.session_id@
    }

    /// The pair and the node stay what they are.
    pub open spec fn same_party(self, other: Self) -> bool {
        self.secret() == other.secret() && self.node_id() == other.node_id()
    }

    /// An exchange with a pair, that waits for the challenge.
    pub fn new(keys: AgentKeys, node_id: &str) -> (r: Self)
        ensures
            r.stage() == Stage::Challenge,
            r.secret() == keys.secret(),
            r.node_id() == node_id@,
            r.session_id() == Seq::<char>::empty(),
    {
        KeyExchange {
            stage: Stage::Challenge,
            keys,
            nonce: [0u8;32],
            node_id: node_id.to_owned(),
            session_id: String::new(),
        }
    }

    /// The name of the session; empty until it is there.
    pub fn session_name(&self) -> (r: &str)
        ensures
            r@ == self.session_id(),
    {
        self.session_id.as_str()
    }

    /// Whether the agent waits for a message, and not for the hardware.
    pub fn expects_frame(&self) -> (r: bool)
        ensures
            r == (self.stage() != Stage::Report),
    {
        match self.stage {
            Stage::Report => false,
            _ => true,
        }
    }

    /// Takes the bytes of a challenge nonce.
    pub fn on_nonce(&mut self, nonce: &[u8]) -> (r: Result<ExchangeAction, ExchangeError>)
        requires
            old(self).stage() == Stage::Challenge,
        ensures
            carries_out(r, move_on_nonce(old(self).public_key(), nonce@)),
            final(self).stage() == stage_after(
                Stage::Challenge,
                move_on_nonce(old(self).public_key(), nonce@),
            ),
            final(self).nonce() == (if nonce@.len() == 32 {
                nonce@
            } else {
                old(self).nonce()
            }),
            final(self).same_party(*old(self)),
            final(self).session_id() == old(self).session_id(),
    {
        if nonce.len() != 32 {
            return Err(ExchangeError::NonceLength { len: nonce.len() });
        }
        let nonce: [u8; 32] = keys::array32(nonce);
        let public_key: [u8; 32] = self.keys.public_key();
        let report_data: Vec<u8> = sev_snp::quote_report_data(&public_key, &nonce);
        self.nonce = nonce;
        self.stage = Stage::Report;
        Ok(ExchangeAction::Attest { report_data })
    }

    /// Takes what the hardware attests of the report data that was asked for, or
    /// that there is no hardware.
    pub fn on_report(&mut self, hardware: &Option<HardwareReport>) -> (r: ExchangeAction)
        requires
            old(self).stage() == Stage::Report,
            hardware is Some ==> hardware->0.fits(),
        ensures
            r@ == move_on_report(old(self).public_key(), old(self).nonce(), *hardware),
            final(self).stage() == Stage::Session,
            final(self).same_party(*old(self)),
            final(self).session_id() == old(self).session_id(),
            final(self).nonce() == old(self).nonce(),
    {
        let public_key: [u8; 32] = self.keys.public_key();
        let quote: sev_snp::TeeQuote = sev_snp::generate_tee_quote(
            &public_key,
            &self.nonce,
            hardware,
        );
        proof {
            messages::lemma_quote_message(
                quote,
                public_key@,
                self.nonce@,
                sev_snp::evidence(*hardware),
            );
        }
        self.stage = Stage::Session;
        ExchangeAction::Send {
            message: messages::tee_quote_message(&quote),
            failure: ExchangeError::QuoteUnsent,
        }
    }

    /// Takes a signaling message.
    pub fn on_signal(&mut self, signal: &Signal) -> (r: Result<ExchangeAction, ExchangeError>)
        requires
            old(self).stage() != Stage::Report,
        ensures
            ({
                let wanted = move_on_signal(
                    old(self).stage(),
                    old(self).public_key(),
                    old(self).node_id(),
                    signal@,
                );
                &&& carries_out(r, wanted)
                &&& final(self).stage() == stage_after(old(self).stage(), wanted)
            }),
            r matches Ok(ExchangeAction::Finish { client_key }) ==> primitives::base64_decoded(
                signal@.pub_key->0,
            ) == Ok::<Seq<u8>, primitives::Base64Error>(client_key@),
            final(self).same_party(*old(self)),
            final(self).stage() == Stage::Report ==> final(self).nonce()
                == primitives::base64_decoded(signal@.nonce->0)->Ok_0,
            final(self).stage() != Stage::Report ==> final(self).nonce() == old(self).nonce(),
            old(self).stage() == Stage::Session && final(self).stage() == Stage::ClientKey
                ==> signal@.session_id == Some(final(self).session_id()),
            !(old(self).stage() == Stage::Session && final(self).stage() == Stage::ClientKey)
                ==> final(self).session_id() == old(self).session_id(),
    {
        match self.stage {
            Stage::Challenge => {
                if !text::holds(&signal.kind, "challenge") {
                    return Ok(ExchangeAction::Read);
                }
                match &signal.nonce {
                    None => Err(ExchangeError::NonceMissing),
                    Some(nonce) => match primitives::base64_decode(nonce.as_str()) {
                        Ok(bytes) => self.on_nonce(bytes.as_slice()),
                        Err(_) => Err(ExchangeError::NonceNotBase64),
                    },
                }
            },
            Stage::Report => Ok(ExchangeAction::Read),
            Stage::Session => {
                if !text::holds(&signal.kind, "session_created") {
                    return Ok(ExchangeAction::Read);
                }
                match &signal.session_id {
                    None => Err(ExchangeError::SessionIdMissing),
                    Some(id) => {
                        self.session_id = id.clone();
                        self.stage = Stage::ClientKey;
                        Ok(
                            ExchangeAction::Send {
                                message: messages::register_message(self.node_id.as_str()),
                                failure: ExchangeError::RegisterUnsent,
                            },
                        )
                    },
                }
            },
            Stage::ClientKey => {
                if !text::holds(&signal.kind, "client_pub_key") {
                    return Ok(ExchangeAction::Read);
                }
                match &signal.pub_key {
                    None => Err(ExchangeError::ClientKeyMissing),
                    Some(key) => match primitives::base64_decode(key.as_str()) {
                        Ok(client_key) => Ok(ExchangeAction::Finish { client_key }),
                        Err(_) => Err(ExchangeError::ClientKeyNotBase64),
                    },
                }
            },
        }
    }

    /// Takes a WebSocket message.
    pub fn on_frame(&mut self, frame: &Frame) -> (r: Result<ExchangeAction, ExchangeError>)
        requires
            old(self).stage() != Stage::Report,
        ensures
            ({
                let wanted = move_on_frame(
                    old(self).stage(),
                    old(self).public_key(),
                    old(self).node_id(),
                    *frame,
                );
                &&& carries_out(r, wanted)
                &&& final(self).stage() == stage_after(old(self).stage(), wanted)
            }),
            final(self).same_party(*old(self)),
            final(self).stage() == Stage::Report ==> final(self).nonce()
                == primitives::base64_decoded(
                signal_in(json::json_read(frame->Text_0@)->0).nonce->0,
            )->Ok_0,
            final(self).stage() != Stage::Report ==> final(self).nonce() == old(self).nonce(),
            r matches Ok(ExchangeAction::Finish { client_key }) ==> primitives::base64_decoded(
                signal_in(json::json_read(frame->Text_0@)->0).pub_key->0,
            ) == Ok::<Seq<u8>, primitives::Base64Error>(client_key@),
            old(self).stage() == Stage::Session && final(self).stage() == Stage::ClientKey
                ==> signal_in(json::json_read(frame->Text_0@)->0).session_id == Some(
                final(self).session_id(),
            ),
            !(old(self).stage() == Stage::Session && final(self).stage() == Stage::ClientKey)
                ==> final(self).session_id() == old(self).session_id(),
    {
        match frame {
            Frame::Text(message) => match read_signal(message.as_str()) {
                Some(signal) => self.on_signal(&signal),
                None => Err(
                    match self.stage {
                        Stage::Challenge => ExchangeError::ChallengeNotJson,
                        Stage::ClientKey => ExchangeError::ClientKeyNotJson,
                        _ => ExchangeError::SessionNotJson,
                    },
                ),
            },
            Frame::Close => match self.stage {
                Stage::ClientKey => Err(ExchangeError::ConnectionClosed),
                _ => Ok(ExchangeAction::Read),
            },
            Frame::Other => Ok(ExchangeAction::Read),
        }
    }

    /// The error when the connection cannot be read.
    pub fn read_failure(&self) -> (r: ExchangeError)
        ensures
            r == (match self.stage() {
                Stage::Challenge => ExchangeError::ChallengeUnread,
                Stage::ClientKey => ExchangeError::ClientKeyUnread,
                _ => ExchangeError::SessionUnread,
            }),
    {
        match self.stage {
            Stage::Challenge => ExchangeError::ChallengeUnread,
            Stage::ClientKey => ExchangeError::ClientKeyUnread,
            _ => ExchangeError::SessionUnread,
        }
    }

    /// Ends the exchange with a client's public key: the secret that the attested
    /// pair shares with the holder of that key, or `None` where it is no key of 32
    /// bytes. The holder computes the same secret from its own and the public key
    /// that was attested.
    pub fn finish(self, client_key: &[u8]) -> (r: Option<[u8; 32]>)
        ensures
            r is Some == (client_key@.len() == 32),
            r is Some ==> r->0@ == primitives::x25519_shared(self.secret(), client_key@),
            r is Some ==> forall|client: x25519_dalek::EphemeralSecret|
                #![trigger primitives::x25519_public(client)]
                primitives::x25519_public(client) == client_key@ ==> r->0@
                    == primitives::x25519_shared(client, self.public_key()),
    {
        if client_key.len() != 32 {
            return None;
        }
        Some(self.keys.consume_shared_secret(client_key))
    }
}

/// The exchange goes in one order. It finishes with a client's key only while it
/// waits for one, it sends nothing any more then, and it waits for one only after
/// it has attested its public key and registered.
pub proof fn law_exchange_goes_in_order(
    stage: Stage,
    public_key: Seq<u8>,
    node_id: Seq<char>,
    frame: Frame,
)
    ensures
        ({
            let done = move_on_frame(stage, public_key, node_id, frame);
            &&& done matches Ok(ExchangeMove::Finish { .. }) ==> stage == Stage::ClientKey
            &&& done matches Ok(ExchangeMove::Send { .. }) ==> stage == Stage::Session
            &&& done matches Ok(ExchangeMove::Attest { .. }) ==> stage == Stage::Challenge
            &&& stage_after(stage, done) == Stage::ClientKey && stage != Stage::ClientKey
                ==> stage == Stage::Session && done == Ok::<ExchangeMove, ExchangeError>(
                ExchangeMove::Send {
                    message: json::json_written(messages::register_json(node_id)),
                    failure: ExchangeError::RegisterUnsent,
                },
            )
            &&& stage_after(stage, done) == Stage::Session ==> stage == Stage::Session
            &&& stage_after(stage, done) == Stage::Report && stage != Stage::Report ==> stage
                == Stage::Challenge && exists|nonce: Seq<u8>|
                #![trigger sev_snp::report_data(public_key, nonce)]
                nonce.len() == 32 && done == Ok::<ExchangeMove, ExchangeError>(
                    ExchangeMove::Attest { report_data: sev_snp::report_data(public_key, nonce) },
                )
        }),
{
}

// ---------------------------------------------------------------------------
// A whole exchange

/// How far an exchange has come: what it waits for, what it sent, and how it ended,
/// once it did.
pub struct Progress {
    pub stage: Stage,
    pub sent: Seq<Seq<char>>,
    pub end: Option<Result<Seq<u8>, ExchangeError>>,
}

/// Who takes part in an exchange: the public key and the name of the agent, and what
/// the hardware attests of each report data.
pub struct Party {
    pub public_key: Seq<u8>,
    pub node_id: Seq<char>,
    pub hardware: spec_fn(Seq<u8>) -> Option<HardwareReport>,
}

impl Party {
    /// The message that attests the agent's public key and a nonce.
    pub open spec fn quote(self, nonce: Seq<u8>) -> Seq<char> {
        json::json_written(
            messages::attestation_json(
                self.public_key,
                nonce,
                sev_snp::evidence((self.hardware)(sev_snp::report_data(self.public_key, nonce))),
            ),
        )
    }

    /// The message that registers the agent.
    pub open spec fn registration(self) -> Seq<char> {
        json::json_written(messages::register_json(self.node_id))
    }
}

/// The nonce that a challenge brings.
pub open spec fn nonce_in(frame: Frame) -> Seq<u8> {
    primitives::base64_decoded(signal_in(json::json_read(frame->Text_0@)->0).nonce->0)->Ok_0
}

impl Progress {
    /// An exchange at its start.
    pub open spec fn start() -> Self {
        Progress { stage: Stage::Challenge, sent: seq![], end: None }
    }

    /// How far the exchange is after one more message. A challenge is answered with
    /// what the hardware attests.
    pub open spec fn after(self, party: Party, frame: Frame) -> Self {
        if self.end is Some {
            self
        } else {
            let done = move_on_frame(self.stage, party.public_key, party.node_id, frame);
            match done {
                Ok(ExchangeMove::Read) => self,
                Ok(ExchangeMove::Attest { .. }) => {
                    let answer = move_on_report(
                        party.public_key,
                        nonce_in(frame),
                        (party.hardware)(sev_snp::report_data(party.public_key, nonce_in(frame))),
                    );
                    Progress {
                        stage: stage_after(
                            Stage::Report,
                            Ok::<ExchangeMove, ExchangeError>(answer),
                        ),
                        sent: self.sent.push(answer->Send_message),
                        ..self
                    }
                },
                Ok(ExchangeMove::Send { message, .. }) => Progress {
                    stage: stage_after(self.stage, done),
                    sent: self.sent.push(message),
                    ..self
                },
                Ok(ExchangeMove::Finish { client_key }) => Progress {
                    end: Some(Ok(client_key)),
                    ..self
                },
                Err(e) => Progress { end: Some(Err(e)), ..self },
            }
        }
    }

    /// How far the exchange is after these messages.
    pub open spec fn after_all(self, party: Party, frames: Seq<Frame>) -> Self
        decreases frames.len(),
    {
        if frames.len() == 0 {
            self
        } else {
            self.after_all(party, frames.drop_last()).after(party, frames.last())
        }
    }
}

proof fn lemma_after_all_in_parts(p: Progress, party: Party, a: Seq<Frame>, b: Seq<Frame>)
    ensures
        p.after_all(party, a + b) == p.after_all(party, a).after_all(party, b),
    decreases b.len(),
{
    if b.len() == 0 {
        assert(a + b =~= a);
    } else {
        lemma_after_all_in_parts(p, party, a, b.drop_last());
        assert((a + b).drop_last() =~= a + b.drop_last());
    }
}

/// A message that the agent does not wait for changes nothing in the whole exchange:
/// with it and without it, whatever comes before and after, the agent sends the same
/// messages and comes to the same end.
pub proof fn law_unrelated_messages_change_nothing(
    party: Party,
    before: Seq<Frame>,
    frame: Frame,
    later: Seq<Frame>,
)
    requires
        move_on_frame(
            Progress::start().after_all(party, before).stage,
            party.public_key,
            party.node_id,
            frame,
        ) == Ok::<ExchangeMove, ExchangeError>(ExchangeMove::Read),
    ensures
        Progress::start().after_all(party, before.push(frame) + later)
            == Progress::start().after_all(party, before + later),
{
    let start = Progress::start();
    lemma_after_all_in_parts(start, party, before.push(frame), later);
    lemma_after_all_in_parts(start, party, before, later);
    assert(before.push(frame).drop_last() =~= before);
    assert(start.after_all(party, before.push(frame)) == start.after_all(party, before));
}

/// After the end of an exchange nothing changes it any more.
pub proof fn law_an_exchange_ends_once(party: Party, before: Seq<Frame>, later: Seq<Frame>)
    requires
        Progress::start().after_all(party, before).end is Some,
    ensures
        Progress::start().after_all(party, before + later) == Progress::start().after_all(
            party,
            before,
        ),
    decreases later.len(),
{
    if later.len() == 0 {
        assert(before + later =~= before);
    } else {
        law_an_exchange_ends_once(party, before, later.drop_last());
        assert((before + later).drop_last() =~= before + later.drop_last());
    }
}

/// The messages that an exchange sends by a stage: a quote of the agent's public key
/// with a nonce of 32 bytes, then the registration.
pub open spec fn sent_by(party: Party, stage: Stage, sent: Seq<Seq<char>>) -> bool {
    match stage {
        Stage::Challenge => sent.len() == 0,
        Stage::Report => false,
        Stage::Session => sent.len() == 1 && is_quote(party, sent[0]),
        Stage::ClientKey => sent.len() == 2 && is_quote(party, sent[0]) && sent[1]
            == party.registration(),
    }
}

/// The message attests the agent's public key with some nonce of 32 bytes.
pub open spec fn is_quote(party: Party, message: Seq<char>) -> bool {
    exists|nonce: Seq<u8>| nonce.len() == 32 && message == #[trigger] party.quote(nonce)
}

/// Whatever messages come, the agent sends no more than two: first a quote of its
/// public key, then its registration. By the time it has a client's key it has sent
/// just these two.
pub proof fn law_two_messages_are_sent(party: Party, frames: Seq<Frame>)
    ensures
        ({
            let p = Progress::start().after_all(party, frames);
            &&& sent_by(party, p.stage, p.sent)
            &&& p.sent.len() <= 2
            &&& p.end matches Some(Ok(_)) ==> p.stage == Stage::ClientKey && p.sent.len() == 2
                && is_quote(party, p.sent[0]) && p.sent[1] == party.registration()
        }),
    decreases frames.len(),
{
    if frames.len() > 0 {
        law_two_messages_are_sent(party, frames.drop_last());
        let p = Progress::start().after_all(party, frames.drop_last());
        let frame = frames.last();
        if p.end is None && p.stage == Stage::Challenge {
            let nonce = nonce_in(frame);
            assert(p.after(party, frame).sent.len() == 1 ==> p.after(party, frame).sent[0]
                == party.quote(nonce));
        }
    }
}

} // verus!
