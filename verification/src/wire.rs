//! What crosses the boundary between a session and its transport: the steps
//! of a handshake, the frames of a message, and what comes back.

use vstd::prelude::*;

verus! {

/// Which half of the handshake a session performs.
#[derive(Debug, Clone, Copy, PartialEq, Eq, Structural)]
pub enum Role {
    Initiator,
    Responder,
}

/// One transport operation of a handshake.
#[derive(Debug, Clone, Copy, PartialEq, Eq, Structural)]
pub enum HandshakeStep {
    /// Write the header, prefixed by its length.
    SendHeader,
    /// Ask the transport for the peer's address.
    ReadPeerAddress,
    /// Read a length-prefixed header.
    ReadHeader,
    /// Parse the header that was read into request metadata.
    ParseRequest,
    /// Key exchange: send the public material together with a fresh salt.
    SendSaltedMaterial,
    /// Key exchange: receive the peer's completion and derive the key.
    ReceiveCompletion,
}

/// The role that a flag selects, if any.
pub open spec fn role_of_flag(flag: u8) -> Option<Role> {
    if flag == 0 {
        Some(Role::Initiator)
    } else if flag == 1 {
        Some(Role::Responder)
    } else {
        None
    }
}

/// The transport operations of a handshake, in wire order. Both roles run the
/// key exchange in the same direction: salted material out, completion in.
pub open spec fn handshake_steps(role: Role) -> Seq<HandshakeStep> {
    match role {
        Role::Initiator => seq![
            HandshakeStep::SendHeader,
            HandshakeStep::SendSaltedMaterial,
            HandshakeStep::ReceiveCompletion,
        ],
        Role::Responder => seq![
            HandshakeStep::ReadPeerAddress,
            HandshakeStep::ReadHeader,
            HandshakeStep::ParseRequest,
            HandshakeStep::SendSaltedMaterial,
            HandshakeStep::ReceiveCompletion,
        ],
    }
}

/// What a handshake hands to the transport: the steps to run, and the key
/// material, which leaves the session for good.
pub struct HandshakePlan {
    pub role: Role,
    pub steps: Vec<HandshakeStep>,
    /// The header that an initiator writes; absent for a responder.
    pub header: Option<String>,
    pub private_key: ring::agreement::EphemeralPrivateKey,
    pub public_key: Vec<u8>,
}

/// How a handshake ended on the transport.
pub enum HandshakeOutcome {
    /// The initiator's exchange completed with this derived key.
    Initiator { key: Vec<u8> },
    /// The responder's exchange completed: the peer's address, the header it
    /// sent, and the derived key.
    Responder { peer: String, header: String, key: Vec<u8> },
    /// A transport or cryptographic step failed.
    Failed,
}

/// A handshake outcome as the contracts see it.
pub enum HandshakeOutcomeView {
    Initiator { key: Seq<u8> },
    Responder { peer: Seq<char>, header: Seq<char>, key: Seq<u8> },
    Failed,
}

impl View for HandshakeOutcome {
    type V = HandshakeOutcomeView;

    open spec fn view(&self) -> HandshakeOutcomeView {
        match *self {
            HandshakeOutcome::Initiator { key } => HandshakeOutcomeView::Initiator { key: key@ },
            HandshakeOutcome::Responder { peer, header, key } => HandshakeOutcomeView::Responder {
                peer: peer@,
                header: header@,
                key: key@,
            },
            HandshakeOutcome::Failed => HandshakeOutcomeView::Failed,
        }
    }
}

impl HandshakeOutcomeView {
    /// The key that the exchange reported, if it completed.
    pub open spec fn key(self) -> Option<Seq<u8>> {
        match self {
            HandshakeOutcomeView::Initiator { key } => Some(key),
            HandshakeOutcomeView::Responder { key, .. } => Some(key),
            HandshakeOutcomeView::Failed => None,
        }
    }

    /// The role whose handshake this outcome reports; a failure reports
    /// either.
    pub open spec fn fits(self, role: Role) -> bool {
        match self {
            HandshakeOutcomeView::Initiator { .. } => role == Role::Initiator,
            HandshakeOutcomeView::Responder { .. } => role == Role::Responder,
            HandshakeOutcomeView::Failed => true,
        }
    }
}

/// One packet of an outgoing message.
#[derive(Debug, PartialEq, Eq)]
pub enum Frame {
    /// A status marker carrying a code.
    Marker(u32),
    /// A payload to encrypt under `key` and write.
    Encrypted { key: Vec<u8>, payload: Vec<u8> },
}

/// A frame as the contracts see it.
pub enum FrameView {
    Marker(u32),
    Encrypted { key: Seq<u8>, payload: Seq<u8> },
}

impl View for Frame {
    type V = FrameView;

    open spec fn view(&self) -> FrameView {
        match *self {
            Frame::Marker(code) => FrameView::Marker(code),
            Frame::Encrypted { key, payload } => FrameView::Encrypted {
                key: key@,
                payload: payload@,
            },
        }
    }
}

/// The views of a sequence of frames.
pub open spec fn frame_views(frames: Seq<Frame>) -> Seq<FrameView> {
    Seq::new(frames.len(), |i: int| frames[i]@)
}

/// The wire layout of one message: a marker 0 that opens it, the payload
/// under the session key, and a marker with the status code.
pub open spec fn message_frames(key: Seq<u8>, payload: Seq<u8>, status_code: u32) -> Seq<
    FrameView,
> {
    seq![
        FrameView::Marker(0),
        FrameView::Encrypted { key, payload },
        FrameView::Marker(status_code),
    ]
}

/// One packet that an incoming message is read from.
#[derive(Debug, PartialEq, Eq)]
pub enum Expect {
    /// A status marker.
    Marker,
    /// An encrypted payload, to decrypt under `key`.
    Encrypted { key: Vec<u8> },
}

/// An expected packet as the contracts see it.
pub enum ExpectView {
    Marker,
    Encrypted { key: Seq<u8> },
}

impl View for Expect {
    type V = ExpectView;

    open spec fn view(&self) -> ExpectView {
        match *self {
            Expect::Marker => ExpectView::Marker,
            Expect::Encrypted { key } => ExpectView::Encrypted { key: key@ },
        }
    }
}

/// The views of a sequence of expected packets.
pub open spec fn expect_views(reads: Seq<Expect>) -> Seq<ExpectView> {
    Seq::new(reads.len(), |i: int| reads[i]@)
}

/// The packets of one incoming message, in wire order: the flag, the payload
/// under the session key, the status code.
pub open spec fn message_reads(key: Seq<u8>) -> Seq<ExpectView> {
    seq![ExpectView::Marker, ExpectView::Encrypted { key }, ExpectView::Marker]
}

/// The flag that marks a message as the last one of its channel.
pub const TERMINAL_FLAG: u32 = 1;

/// A message as it was received.
#[derive(Debug, PartialEq, Eq)]
pub struct Response {
    pub content: Vec<u8>,
    pub status_code: u32,
    pub flag: u32,
}

/// A received message as the contracts see it.
pub struct ResponseView {
    pub content: Seq<u8>,
    pub status_code: u32,
    pub flag: u32,
}

impl View for Response {
    type V = ResponseView;

    open spec fn view(&self) -> ResponseView {
        ResponseView { content: self.content@, status_code: self.status_code, flag: self.flag }
    }
}

/// A received message, and whether the transport must now be closed.
#[derive(Debug, PartialEq, Eq)]
pub struct Delivery {
    pub response: Response,
    pub close_socket: bool,
}

/// A reply of a higher layer: its body and its status code.
#[derive(Debug, PartialEq, Eq)]
pub struct Reply {
    pub body: Vec<u8>,
    pub status_code: u32,
}

/// What a responder learned of its peer: the address, and a copy of the
/// symmetric key for the layers above.
#[derive(Debug, PartialEq, Eq)]
pub struct Request {
    pub remote_peer: String,
    pub aes_key: Option<Vec<u8>>,
}

/// Request metadata as the contracts see it.
pub struct RequestView {
    pub remote_peer: Seq<char>,
    pub aes_key: Option<Seq<u8>>,
}

impl View for Request {
    type V = RequestView;

    open spec fn view(&self) -> RequestView {
        RequestView {
            remote_peer: self.remote_peer@,
            aes_key: match self.aes_key {
                Some(k) => Some(k@),
                None => None,
            },
        }
    }
}

} // verus!
