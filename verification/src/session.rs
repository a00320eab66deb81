//! The session: its key material, its handshake, its framed messages and its
//! closed flag. A session decides; the transport that it is bound to carries
//! out what it decides and reports back.

use crate::error::SessionError;
use crate::outside::{
    generate_private_key, json_bytes, json_encoding, public_key_bytes, public_key_of,
};
use crate::wire::{
    expect_views, frame_views, handshake_steps, message_frames, message_reads, role_of_flag,
    Delivery, Expect, ExpectView, Frame, FrameView, HandshakeOutcome, HandshakeOutcomeView,
    HandshakePlan, HandshakeStep, Reply, Request, RequestView, Response, ResponseView, Role,
    TERMINAL_FLAG,
};
use vstd::prelude::*;

verus! {

/// Where a session stands in its handshake.
#[derive(Debug, Clone, Copy, PartialEq, Eq, Structural)]
pub enum Phase {
    /// No handshake was started; the private key is still held.
    Uninitialized,
    /// A handshake in this role is running on the transport.
    KeyExchanging(Role),
    /// The symmetric key is set.
    Established,
    /// The handshake failed; the session cannot be used again.
    Failed,
}

/// One end of an encrypted channel.
pub struct Session {
    header: Option<String>,
    private_key: Option<ring::agreement::EphemeralPrivateKey>,
    public_key: Vec<u8>,
    aes_key: Option<Vec<u8>>,
    request_time: i64,
    request: Option<Request>,
    phase: Phase,
    closed: bool,
}

/// A session as the contracts see it.
pub struct SessionView {
    pub header: Option<Seq<char>>,
    pub private_key: Option<ring::agreement::EphemeralPrivateKey>,
    pub public_key: Seq<u8>,
    pub symmetric_key: Option<Seq<u8>>,
    pub request_time: i64,
    pub request: Option<RequestView>,
    pub phase: Phase,
    pub closed: bool,
}

impl SessionView {
    /// The private key is held exactly until a handshake starts, the
    /// symmetric key exactly from the moment one succeeds, and request
    /// metadata carries a copy of that key.
    pub open spec fn wf(self) -> bool {
        &&& (self.private_key is Some <==> self.phase == Phase::Uninitialized)
        &&& (self.symmetric_key is Some <==> self.phase == Phase::Established)
        &&& (self.request matches Some(r) ==> r.aes_key == self.symmetric_key
            && self.symmetric_key is Some && self.header is Some)
    }

    /// A session that was just made of a key pair.
    pub open spec fn fresh(
        header: Option<Seq<char>>,
        private_key: ring::agreement::EphemeralPrivateKey,
        public_key: Seq<u8>,
        request_time: i64,
    ) -> SessionView {
        SessionView {
            header,
            private_key: Some(private_key),
            public_key,
            symmetric_key: None,
            request_time,
            request: None,
            phase: Phase::Uninitialized,
            closed: false,
        }
    }

    /// Why a handshake in `role` cannot start, if it cannot.
    pub open spec fn handshake_error(self, role: Role) -> Option<SessionError> {
        if role == Role::Initiator && self.header is None {
            Some(SessionError::MissingHeader)
        } else if self.private_key is None {
            Some(SessionError::KeyConsumed)
        } else {
            None
        }
    }

    /// The session once a handshake in `role` has started: the private key
    /// is gone.
    pub open spec fn begin(self, role: Role) -> SessionView {
        SessionView { private_key: None, phase: Phase::KeyExchanging(role), ..self }
    }

    /// Why an outcome is not accepted, if it is not.
    pub open spec fn outcome_error(self, outcome: HandshakeOutcomeView) -> Option<SessionError> {
        match self.phase {
            Phase::KeyExchanging(role) => if outcome.fits(role) {
                None
            } else {
                Some(SessionError::UnexpectedOutcome)
            },
            _ => Some(SessionError::UnexpectedOutcome),
        }
    }

    /// The session once an outcome was accepted.
    pub open spec fn establish(self, outcome: HandshakeOutcomeView) -> SessionView {
        match outcome {
            HandshakeOutcomeView::Initiator { key } => SessionView {
                symmetric_key: Some(key),
                phase: Phase::Established,
                ..self
            },
            HandshakeOutcomeView::Responder { peer, header, key } => SessionView {
                header: Some(header),
                symmetric_key: Some(key),
                request: Some(RequestView { remote_peer: peer, aes_key: Some(key) }),
                phase: Phase::Established,
                ..self
            },
            HandshakeOutcomeView::Failed => SessionView { phase: Phase::Failed, ..self },
        }
    }

    /// The frames of an outgoing message, or why none is written.
    pub open spec fn send(self, payload: Seq<u8>, status_code: u32) -> Result<
        Seq<FrameView>,
        SessionError,
    > {
        if self.closed {
            Err(SessionError::ChannelClosed)
        } else {
            match self.symmetric_key {
                None => Err(SessionError::NotEstablished),
                Some(key) => Ok(message_frames(key, payload, status_code)),
            }
        }
    }

    /// The packets to read for an incoming message, or why none is read.
    pub open spec fn recv(self) -> Result<Seq<ExpectView>, SessionError> {
        if self.closed {
            Err(SessionError::ChannelClosed)
        } else {
            match self.symmetric_key {
                None => Err(SessionError::NotEstablished),
                Some(key) => Ok(message_reads(key)),
            }
        }
    }

    /// The session after `close`.
    pub open spec fn close(self) -> SessionView {
        SessionView { closed: true, ..self }
    }

    /// Whether `close` has the transport closed: only the first time.
    pub open spec fn closes_socket(self) -> bool {
        !self.closed
    }

    /// The session after a message with this flag was received: the terminal
    /// flag closes it.
    pub open spec fn deliver(self, flag: u32) -> SessionView {
        if flag == TERMINAL_FLAG {
            self.close()
        } else {
            self
        }
    }

    /// Whether receiving a message with this flag has the transport closed.
    pub open spec fn deliver_closes_socket(self, flag: u32) -> bool {
        flag == TERMINAL_FLAG && self.closes_socket()
    }
}

/// What starting a handshake in `role` does to a session and hands back:
/// either the error and an unchanged session, or the plan for that role, made
/// of the session's header and key pair, and a session without its private
/// key.
pub open spec fn handshake_begins(
    before: SessionView,
    role: Role,
    r: Result<HandshakePlan, SessionError>,
    after: SessionView,
) -> bool {
    match before.handshake_error(role) {
        Some(e) => (r matches Err(x) && x == e) && after == before,
        None => (r matches Ok(plan) && {
            &&& plan.role == role
            &&& plan.steps@ == handshake_steps(role)
            &&& text_view(plan.header) == if role == Role::Initiator {
                before.header
            } else {
                None
            }
            &&& Some(plan.private_key) == before.private_key
            &&& plan.public_key@ == before.public_key
        }) && after == before.begin(role),
    }
}

/// What assembling a message from the markers read and the payload does to a
/// session and hands back: with two markers, the response whose flag is the
/// first and whose status code is the second, and a session that has received
/// that flag; with any other number, nothing and an unchanged session.
pub open spec fn assembled(
    before: SessionView,
    markers: Seq<u32>,
    content: Seq<u8>,
    r: Option<Delivery>,
    after: SessionView,
) -> bool {
    if markers.len() == 2 {
        (r matches Some(d) && {
            &&& d.response@ == (ResponseView { content, status_code: markers[1], flag: markers[0] })
            &&& d.close_socket == before.deliver_closes_socket(markers[0])
        }) && after == before.deliver(markers[0])
    } else {
        r is None && after == before
    }
}

/// Whether `r` holds exactly the frames, or the error, that `expected` does.
pub open spec fn frames_are(
    r: Result<Vec<Frame>, SessionError>,
    expected: Result<Seq<FrameView>, SessionError>,
) -> bool {
    match expected {
        Ok(frames) => r matches Ok(out) && frame_views(out@) == frames,
        Err(e) => r matches Err(x) && x == e,
    }
}

/// Whether `r` holds exactly the packets to read, or the error, that
/// `expected` does.
pub open spec fn reads_are(
    r: Result<Vec<Expect>, SessionError>,
    expected: Result<Seq<ExpectView>, SessionError>,
) -> bool {
    match expected {
        Ok(reads) => r matches Ok(out) && expect_views(out@) == reads,
        Err(e) => r matches Err(x) && x == e,
    }
}

/// The view of an optional text.
pub open spec fn text_view(text: Option<String>) -> Option<Seq<char>> {
    match text {
        Some(t) => Some(t@),
        None => None,
    }
}

/// The view of optional bytes.
pub open spec fn bytes_view(bytes: Option<Vec<u8>>) -> Option<Seq<u8>> {
    match bytes {
        Some(b) => Some(b@),
        None => None,
    }
}

/// A copy of `bytes`.
fn copy_bytes(bytes: &Vec<u8>) -> (copy: Vec<u8>)
    ensures
        copy@ == bytes@,
{
    let copy = bytes.clone();
    assert(copy@ =~= bytes@);
    copy
}

/// Generates a fresh ephemeral key pair on the curve that both peers share:
/// the private key, and the public key that belongs to it.
pub fn generate_key_pair() -> (r: Result<
    (ring::agreement::EphemeralPrivateKey, Vec<u8>),
    SessionError,
>)
    ensures
        r matches Ok(pair) ==> pair.1@ == public_key_of(pair.0),
        r matches Err(e) ==> e == SessionError::KeyGeneration,
{
    match generate_private_key() {
        Err(_) => Err(SessionError::KeyGeneration),
        Ok(private_key) => match public_key_bytes(&private_key) {
            Err(_) => Err(SessionError::KeyGeneration),
            Ok(public_key) => Ok((private_key, public_key)),
        },
    }
}

/// The transport operations of a handshake in `role`.
pub fn steps_for(role: Role) -> (steps: Vec<HandshakeStep>)
    ensures
        steps@ == handshake_steps(role),
{
    let mut steps: Vec<HandshakeStep> = Vec::new();
    match role {
        Role::Initiator => {
            steps.push(HandshakeStep::SendHeader);
        },
        Role::Responder => {
            steps.push(HandshakeStep::ReadPeerAddress);
            steps.push(HandshakeStep::ReadHeader);
            steps.push(HandshakeStep::ParseRequest);
        },
    }
    steps.push(HandshakeStep::SendSaltedMaterial);
    steps.push(HandshakeStep::ReceiveCompletion);
    assert(steps@ =~= handshake_steps(role));
    steps
}

impl View for Session {
    type V = SessionView;

    closed spec fn view(&self) -> SessionView {
        SessionView {
            header: text_view(self.header),
            private_key: self.private_key,
            public_key: self.public_key@,
            symmetric_key: bytes_view(self.aes_key),
            request_time: self.request_time,
            request: match self.request {
                Some(r) => Some(r@),
                None => None,
            },
            phase: self.phase,
            closed: self.closed,
        }
    }
}

impl Session {
    /// A session made of a given key pair and creation time.
    pub fn with_key_pair(
        header: Option<String>,
        private_key: ring::agreement::EphemeralPrivateKey,
        public_key: Vec<u8>,
        request_time: i64,
    ) -> (s: Session)
        ensures
            s@ == SessionView::fresh(text_view(header), private_key, public_key@, request_time),
            s@.wf(),
    {
        Session {
            header,
            private_key: Some(private_key),
            public_key,
            aes_key: None,
            request_time,
            request: None,
            phase: Phase::Uninitialized,
            closed: false,
        }
    }

    /// A session for the responder role, made at `request_time` (milliseconds
    /// since the Unix epoch): the header is learned later. Fails only if no
    /// key pair can be generated.
    pub fn new(request_time: i64) -> (r: Result<Session, SessionError>)
        ensures
            r matches Ok(s) ==> s@.wf() && s@ == SessionView::fresh(
                None,
                s@.private_key->0,
                public_key_of(s@.private_key->0),
                request_time,
            ),
            r matches Err(e) ==> e == SessionError::KeyGeneration,
    {
        match generate_key_pair() {
            Err(e) => Err(e),
            Ok((private_key, public_key)) => Ok(
                Session::with_key_pair(None, private_key, public_key, request_time),
            ),
        }
    }

    /// A session for the initiator role, made at `request_time` (milliseconds
    /// since the Unix epoch), with the header it will send. Fails only if no
    /// key pair can be generated.
    pub fn new_with_header(header: &str, request_time: i64) -> (r: Result<Session, SessionError>)
        ensures
            r matches Ok(s) ==> s@.wf() && s@ == SessionView::fresh(
                Some(header@),
                s@.private_key->0,
                public_key_of(s@.private_key->0),
                request_time,
            ),
            r matches Err(e) ==> e == SessionError::KeyGeneration,
    {
        match generate_key_pair() {
            Err(e) => Err(e),
            Ok((private_key, public_key)) => Ok(
                Session::with_key_pair(
                    Some(header.to_owned()),
                    private_key,
                    public_key,
                    request_time,
                ),
            ),
        }
    }

    /// Starts a handshake in `role`: the private key leaves the session with
    /// the plan, so that no second handshake can use it.
    fn begin(&mut self, role: Role) -> (r: Result<HandshakePlan, SessionError>)
        ensures
            handshake_begins(old(self)@, role, r, final(self)@),
            old(self)@.wf() ==> final(self)@.wf(),
    {
        let header = match role {
            Role::Initiator => match &self.header {
                None => {
                    return Err(SessionError::MissingHeader);
                },
                Some(h) => Some(h.clone()),
            },
            Role::Responder => None,
        };
        match self.private_key.take() {
            None => Err(SessionError::KeyConsumed),
            Some(private_key) => {
                self.phase = Phase::KeyExchanging(role);
                Ok(
                    HandshakePlan {
                        role,
                        steps: steps_for(role),
                        header,
                        private_key,
                        public_key: copy_bytes(&self.public_key),
                    },
                )
            },
        }
    }

    /// Starts the initiator's handshake.
    pub fn first_hand(&mut self) -> (r: Result<HandshakePlan, SessionError>)
        ensures
            handshake_begins(old(self)@, Role::Initiator, r, final(self)@),
            old(self)@.wf() ==> final(self)@.wf(),
    {
        self.begin(Role::Initiator)
    }

    /// Starts the responder's handshake.
    pub fn second_hand(&mut self) -> (r: Result<HandshakePlan, SessionError>)
        ensures
            handshake_begins(old(self)@, Role::Responder, r, final(self)@),
            old(self)@.wf() ==> final(self)@.wf(),
    {
        self.begin(Role::Responder)
    }

    /// Starts the handshake that `flag` selects: 0 the initiator's, 1 the
    /// responder's. Any other flag is refused and the session is left as it
    /// was, with nothing for the transport to do.
    pub fn handshake(&mut self, flag: u8) -> (r: Result<HandshakePlan, SessionError>)
        ensures
            match role_of_flag(flag) {
                Some(role) => handshake_begins(old(self)@, role, r, final(self)@),
                None => (r matches Err(e) && e == SessionError::UnknownHandshakeFlag)
                    && final(self)@ == old(self)@,
            },
            old(self)@.wf() ==> final(self)@.wf(),
    {
        if flag == 0 {
            self.first_hand()
        } else if flag == 1 {
            self.second_hand()
        } else {
            Err(SessionError::UnknownHandshakeFlag)
        }
    }

    /// Takes in how the handshake ended on the transport. A success sets the
    /// symmetric key, once and for good; the responder also learns the header
    /// and records its peer. A failure leaves the session unusable. An
    /// outcome that the session was not waiting for changes nothing.
    pub fn establish(&mut self, outcome: HandshakeOutcome) -> (r: Result<(), SessionError>)
        ensures
            old(self)@.outcome_error(outcome@) matches Some(e) ==> r == Err::<(), SessionError>(e)
                && final(self)@ == old(self)@,
            old(self)@.outcome_error(outcome@) is None ==> r is Ok && final(self)@
                == old(self)@.establish(outcome@),
            old(self)@.wf() ==> final(self)@.wf(),
    {
        let role = match self.phase {
            Phase::KeyExchanging(role) => role,
            _ => {
                return Err(SessionError::UnexpectedOutcome);
            },
        };
        match outcome {
            HandshakeOutcome::Initiator { key } => {
                if role != Role::Initiator {
                    return Err(SessionError::UnexpectedOutcome);
                }
                self.aes_key = Some(key);
                self.phase = Phase::Established;
            },
            HandshakeOutcome::Responder { peer, header, key } => {
                if role != Role::Responder {
                    return Err(SessionError::UnexpectedOutcome);
                }
                let copy = copy_bytes(&key);
                self.request = Some(Request { remote_peer: peer, aes_key: Some(copy) });
                self.aes_key = Some(key);
                self.header = Some(header);
                self.phase = Phase::Established;
            },
            HandshakeOutcome::Failed => {
                self.phase = Phase::Failed;
            },
        }
        Ok(())
    }

    /// Frames a message: a marker 0, the payload under the session key, a
    /// marker with the status code. A closed session frames nothing.
    pub fn send(&self, data: Vec<u8>, status_code: u32) -> (r: Result<Vec<Frame>, SessionError>)
        ensures
            frames_are(r, self@.send(data@, status_code)),
    {
        if self.closed {
            return Err(SessionError::ChannelClosed);
        }
        match &self.aes_key {
            None => Err(SessionError::NotEstablished),
            Some(key) => {
                let mut frames: Vec<Frame> = Vec::new();
                frames.push(Frame::Marker(0));
                frames.push(Frame::Encrypted { key: copy_bytes(key), payload: data });
                frames.push(Frame::Marker(status_code));
                assert(frame_views(frames@) =~= message_frames(key@, data@, status_code));
                Ok(frames)
            },
        }
    }

    /// Frames a JSON value, in its compact encoding, as `send` does.
    pub fn send_json(&self, json: serde_json::Value, status_code: u32) -> (r: Result<
        Vec<Frame>,
        SessionError,
    >)
        ensures
            frames_are(r, self@.send(json_encoding(json), status_code)),
    {
        self.send(json_bytes(&json), status_code)
    }

    /// Frames a reply of a higher layer, as `send` does with its body and
    /// status code.
    pub fn response(&self, response: Reply) -> (r: Result<Vec<Frame>, SessionError>)
        ensures
            frames_are(r, self@.send(response.body@, response.status_code)),
    {
        self.send(response.body, response.status_code)
    }

    /// Says what to read for the next message: a marker, a payload under the
    /// session key, a marker. A closed session reads nothing.
    pub fn recv(&self) -> (r: Result<Vec<Expect>, SessionError>)
        ensures
            reads_are(r, self@.recv()),
    {
        if self.closed {
            return Err(SessionError::ChannelClosed);
        }
        match &self.aes_key {
            None => Err(SessionError::NotEstablished),
            Some(key) => {
                let mut reads: Vec<Expect> = Vec::new();
                reads.push(Expect::Marker);
                reads.push(Expect::Encrypted { key: copy_bytes(key) });
                reads.push(Expect::Marker);
                assert(expect_views(reads@) =~= message_reads(key@));
                Ok(reads)
            },
        }
    }

    /// Assembles what was read into a response. The terminal flag closes the
    /// session as `close` does, and the transport with it.
    pub fn deliver(&mut self, flag: u32, content: Vec<u8>, status_code: u32) -> (d: Delivery)
        ensures
            d.response@ == (ResponseView { content: content@, status_code, flag }),
            d.close_socket == old(self)@.deliver_closes_socket(flag),
            final(self)@ == old(self)@.deliver(flag),
            old(self)@.wf() ==> final(self)@.wf(),
    {
        let close_socket = if flag == TERMINAL_FLAG {
            self.close()
        } else {
            false
        };
        Delivery { response: Response { content, status_code, flag }, close_socket }
    }

    /// Takes in the markers of one message in the order in which they were
    /// read, and the decrypted payload between them: the first marker is the
    /// flag, the second the status code. Anything but two markers is no
    /// message, and the session stays as it was.
    pub fn assemble(&mut self, markers: Vec<u32>, content: Vec<u8>) -> (r: Option<Delivery>)
        ensures
            assembled(old(self)@, markers@, content@, r, final(self)@),
            old(self)@.wf() ==> final(self)@.wf(),
    {
        if markers.len() != 2 {
            return None;
        }
        let flag: u32 = markers[0];
        let status_code: u32 = markers[1];
        Some(self.deliver(flag, content, status_code))
    }

    /// Closes the session. Returns whether the transport is to be closed
    /// now: true the first time, false on every later call.
    pub fn close(&mut self) -> (close_socket: bool)
        ensures
            final(self)@ == old(self)@.close(),
            close_socket == old(self)@.closes_socket(),
            old(self)@.wf() ==> final(self)@.wf(),
    {
        let first = !self.closed;
        self.closed = true;
        first
    }

    /// Whether the session was closed.
    pub fn closed(&self) -> (c: bool)
        ensures
            c == self@.closed,
    {
        self.closed
    }

    /// Where the session stands in its handshake.
    pub fn phase(&self) -> (p: Phase)
        ensures
            p == self@.phase,
    {
        self.phase
    }

    /// When the session was made, in milliseconds since the Unix epoch.
    pub fn request_time(&self) -> (t: i64)
        ensures
            t == self@.request_time,
    {
        self.request_time
    }

    /// The public key as it is sent to the peer.
    pub fn public_key(&self) -> (bytes: Vec<u8>)
        ensures
            bytes@ == self@.public_key,
    {
        copy_bytes(&self.public_key)
    }

    /// A copy of the symmetric key, once a handshake has set it.
    pub fn symmetric_key(&self) -> (key: Option<Vec<u8>>)
        ensures
            bytes_view(key) == self@.symmetric_key,
    {
        match &self.aes_key {
            None => None,
            Some(k) => Some(copy_bytes(k)),
        }
    }

    /// Whether a header is known.
    pub fn has_header(&self) -> (b: bool)
        ensures
            b == self@.header is Some,
    {
        self.header.is_some()
    }

    /// Whether request metadata was recorded, as a responder does.
    pub fn has_request(&self) -> (b: bool)
        ensures
            b == self@.request is Some,
    {
        self.request.is_some()
    }

    /// The header: the one given at construction or learned in the handshake.
    pub fn header(&self) -> (h: String)
        requires
            self@.header is Some,
        ensures
            Some(h@) == self@.header,
    {
        self.header.as_ref().unwrap().clone()
    }

    /// The peer's address as the responder recorded it.
    pub fn get_ip(&self) -> (ip: String)
        requires
            self@.request is Some,
        ensures
            ip@ == self@.request->0.remote_peer,
    {
        self.request.as_ref().unwrap().remote_peer.clone()
    }
}

} // verus!
