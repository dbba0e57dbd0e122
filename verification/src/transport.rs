//! The transport core's decision logic: one client/server API over plaintext
//! and DTLS-secured datagrams. The socket calls themselves run in the
//! surrounding application, which reports each outcome (bound, connected,
//! datagram arrived, timed out, handshake result) as a plain value; the
//! functions here decide what each of those outcomes means, and their
//! contracts pin the decisions down.

use crate::secure::build_acceptor;
use crate::secure::has_nul_char;
use vstd::prelude::*;

verus! {

/// What the transport needs to know: the remote (or listening) endpoint and
/// whether the security layer wraps the exchange.
#[derive(Debug, Clone)]
pub struct Config {
    pub host: String,
    pub port: u16,
    pub use_dtls: bool,
}

/// The resolved peer of a connected stream, kept as the plain host text and
/// port it was built from. Immutable after connect.
#[derive(Debug, Clone, PartialEq, Eq)]
pub struct PeerAddr {
    pub host: String,
    pub port: u16,
}

/// The error taxonomy: every fallible operation returns one of these; none is
/// silently discarded.
#[derive(Debug, Clone, PartialEq, Eq)]
pub enum TransportError {
    /// The local socket could not be bound, at construction.
    BindError,
    /// The socket could not be connected, at client construction.
    ConnectError,
    /// The handshake attempt failed; fatal to this attempt only, never
    /// retried at this layer.
    HandshakeFailed(String),
    /// The acceptor identity could not be loaded, at server construction.
    CertLoadFailed,
    /// A send or receive failed.
    IoError,
    /// A configured deadline elapsed: a distinguished I/O failure.
    Timeout,
    /// The stream was closed; every later operation fails with this.
    StreamClosed,
}

/// The two stream kinds: a closed set, so exhaustiveness is checkable.
#[derive(Debug, Clone, Copy, PartialEq, Eq, Structural)]
pub enum StreamMode {
    Cleartext,
    Secured,
}

/// The model of one stream: its kind, its fixed peer, the timeout that
/// applies to both directions at once, and whether it is still open.
#[derive(Debug, PartialEq, Eq)]
pub struct StreamState {
    pub mode: StreamMode,
    pub peer: PeerAddr,
    pub timeout_ms: Option<u64>,
    pub open: bool,
}

/// A stream as client or server initialization hands it out: open, without a
/// timeout, in the given mode, pointed at the given peer.
pub open spec fn fresh_stream_for(st: StreamState, mode: StreamMode, host: Seq<char>, port: u16) -> bool {
    st.mode == mode && st.open && st.timeout_ms is None && st.peer.host@ == host && st.peer.port
        == port
}

/// A received datagram clipped to the caller's buffer: the excess is dropped,
/// as plain datagram truncation drops it.
pub open spec fn clip_to(d: Seq<u8>, cap: nat) -> Seq<u8> {
    if d.len() <= cap {
        d
    } else {
        d.take(cap as int)
    }
}

/// What one server interaction answers, at the spec level: the arrived
/// payload itself, exactly when the server is open and, if secured, the
/// handshake established; nothing otherwise.
pub open spec fn spec_echo_result(open: bool, secured: bool, established: bool, payload: Seq<u8>) -> Option<Seq<u8>> {
    if open && (!secured || established) {
        Some(payload)
    } else {
        None
    }
}

/// What one receive of a delivered datagram yields, at the spec level: its
/// bytes clipped to the buffer, on an open stream only.
pub open spec fn spec_receive_result(open: bool, payload: Seq<u8>, cap: nat) -> Option<Seq<u8>> {
    if open {
        Some(clip_to(payload, cap))
    } else {
        None
    }
}

/// What the runtime reports back for one blocking receive.
#[derive(Debug)]
pub enum RecvEvent {
    /// One datagram arrived, carrying these bytes.
    Datagram(Vec<u8>),
    /// The configured deadline elapsed first.
    TimedOut,
    /// The read failed outright.
    Failed,
}

/// What the runtime reports back for one send.
#[derive(Debug, Clone, Copy, PartialEq, Eq, Structural)]
pub enum SendEvent {
    /// The datagram went out whole.
    Sent,
    /// The configured deadline elapsed first.
    TimedOut,
    /// The write failed outright.
    Failed,
}

impl StreamState {
    /// Apply a timeout to the stream, or clear it with `None`. One field
    /// covers both directions, so the setting is atomic by construction. On a
    /// closed stream nothing changes and the call fails deterministically.
    pub fn set_timeout(&mut self, timeout_ms: Option<u64>) -> (r: Result<(), TransportError>)
        ensures
            old(self).open ==> r is Ok && final(self).timeout_ms == timeout_ms && final(self).mode
                == old(self).mode && final(self).peer == old(self).peer && final(self).open,
            !old(self).open ==> r is Err && r->Err_0 is StreamClosed && *final(self) == *old(self),
    {
        if !self.open {
            return Err(TransportError::StreamClosed);
        }
        self.timeout_ms = timeout_ms;
        Ok(())
    }

    /// The peer fixed at connect time; on a closed stream the call fails
    /// deterministically.
    pub fn peer_addr(&self) -> (r: Result<&PeerAddr, TransportError>)
        ensures
            self.open <==> r is Ok,
            r is Ok ==> r->Ok_0 == self.peer,
            !self.open ==> r->Err_0 is StreamClosed,
    {
        if !self.open {
            return Err(TransportError::StreamClosed);
        }
        Ok(&self.peer)
    }

    /// Close the stream. Every later operation on a retained handle fails
    /// with `StreamClosed` rather than behaving as undefined.
    pub fn close(&mut self)
        ensures
            !final(self).open,
            final(self).mode == old(self).mode && final(self).peer == old(self).peer,
            final(self).timeout_ms == old(self).timeout_ms,
    {
        self.open = false;
    }

    /// Decide what one blocking receive into a buffer of `cap` bytes yields:
    /// the datagram's bytes, clipped to the buffer; a distinguished `Timeout`
    /// when the deadline elapsed; `IoError` on a failed read; `StreamClosed`
    /// on a closed stream, whatever the runtime reported.
    pub fn receive_outcome(&self, event: RecvEvent, cap: usize) -> (r: Result<
        Vec<u8>,
        TransportError,
    >)
        ensures
            !self.open ==> r is Err && r->Err_0 is StreamClosed,
            self.open && event is Datagram ==> r is Ok && r->Ok_0@ == clip_to(
                event->Datagram_0@,
                cap as nat,
            ),
            self.open && event is TimedOut ==> r is Err && r->Err_0 is Timeout,
            self.open && event is Failed ==> r is Err && r->Err_0 is IoError,
            event is Datagram ==> ((r is Ok <==> spec_receive_result(
                self.open,
                event->Datagram_0@,
                cap as nat,
            ) is Some) && (r is Ok ==> Some(r->Ok_0@) == spec_receive_result(
                self.open,
                event->Datagram_0@,
                cap as nat,
            ))),
    {
        if !self.open {
            return Err(TransportError::StreamClosed);
        }
        match event {
            RecvEvent::Datagram(mut data) => {
                if data.len() > cap {
                    data.truncate(cap);
                }
                Ok(data)
            },
            RecvEvent::TimedOut => Err(TransportError::Timeout),
            RecvEvent::Failed => Err(TransportError::IoError),
        }
    }

    /// Decide what one send of `data` yields: in either mode a successful
    /// send moved the whole datagram, so success reports exactly the
    /// payload's length; `Timeout`, `IoError` and `StreamClosed` as for
    /// receiving.
    pub fn send_outcome(&self, data: &Vec<u8>, event: SendEvent) -> (r: Result<
        usize,
        TransportError,
    >)
        ensures
            !self.open ==> r is Err && r->Err_0 is StreamClosed,
            self.open && event is Sent ==> r is Ok && r->Ok_0 == data@.len(),
            self.open && event is TimedOut ==> r is Err && r->Err_0 is Timeout,
            self.open && event is Failed ==> r is Err && r->Err_0 is IoError,
    {
        if !self.open {
            return Err(TransportError::StreamClosed);
        }
        match event {
            SendEvent::Sent => Ok(data.len()),
            SendEvent::TimedOut => Err(TransportError::Timeout),
            SendEvent::Failed => Err(TransportError::IoError),
        }
    }
}

/// The handshake's states: waiting for the first datagram, negotiating,
/// established, or failed for good.
#[derive(Debug, Clone, Copy, PartialEq, Eq, Structural)]
pub enum HandshakeState {
    AwaitingFirstFlight,
    Handshaking,
    Established,
    Failed,
}

/// What the runtime observed while the handshake ran.
#[derive(Debug, Clone, Copy, PartialEq, Eq, Structural)]
pub enum HandshakeEvent {
    /// The first datagram of a flight arrived.
    FirstDatagram,
    /// The security layer finished negotiating.
    Negotiated,
    /// The security layer gave up.
    Aborted,
}

/// The handshake state machine. Retransmission inside a flight is the
/// security layer's own business, so a repeated first datagram keeps the
/// machine negotiating; `Established` and `Failed` are terminal.
pub open spec fn spec_handshake_step(s: HandshakeState, ev: HandshakeEvent) -> HandshakeState {
    match s {
        HandshakeState::AwaitingFirstFlight => match ev {
            HandshakeEvent::FirstDatagram => HandshakeState::Handshaking,
            HandshakeEvent::Negotiated => HandshakeState::AwaitingFirstFlight,
            HandshakeEvent::Aborted => HandshakeState::Failed,
        },
        HandshakeState::Handshaking => match ev {
            HandshakeEvent::FirstDatagram => HandshakeState::Handshaking,
            HandshakeEvent::Negotiated => HandshakeState::Established,
            HandshakeEvent::Aborted => HandshakeState::Failed,
        },
        HandshakeState::Established => HandshakeState::Established,
        HandshakeState::Failed => HandshakeState::Failed,
    }
}

/// Advance the handshake machine by one observed event.
pub fn handshake_step(s: HandshakeState, ev: HandshakeEvent) -> (r: HandshakeState)
    ensures
        r == spec_handshake_step(s, ev),
{
    match s {
        HandshakeState::AwaitingFirstFlight => match ev {
            HandshakeEvent::FirstDatagram => HandshakeState::Handshaking,
            HandshakeEvent::Negotiated => HandshakeState::AwaitingFirstFlight,
            HandshakeEvent::Aborted => HandshakeState::Failed,
        },
        HandshakeState::Handshaking => match ev {
            HandshakeEvent::FirstDatagram => HandshakeState::Handshaking,
            HandshakeEvent::Negotiated => HandshakeState::Established,
            HandshakeEvent::Aborted => HandshakeState::Failed,
        },
        HandshakeState::Established => HandshakeState::Established,
        HandshakeState::Failed => HandshakeState::Failed,
    }
}

/// Law: no half-secured session is ever observable. The machine reaches
/// `Established` only from `Handshaking` on a completed negotiation (or by
/// already being there), never from a fresh or failed state.
pub proof fn lemma_established_only_by_negotiation(s: HandshakeState, ev: HandshakeEvent)
    ensures
        spec_handshake_step(s, ev) is Established <==> (s is Established || (s is Handshaking
            && ev is Negotiated)),
{
}

/// Law: `Failed` is terminal; no event revives a failed handshake, and an
/// established session never regresses.
pub proof fn lemma_terminal_states(ev: HandshakeEvent)
    ensures
        spec_handshake_step(HandshakeState::Failed, ev) is Failed,
        spec_handshake_step(HandshakeState::Established, ev) is Established,
{
}

/// Gate a stream on the handshake: a secured stream exists exactly when the
/// handshake is established; anything else yields `HandshakeFailed` carrying
/// the runtime's reason, and no stream at all.
pub fn secured_stream(
    hs: &HandshakeState,
    peer: PeerAddr,
    failure_reason: String,
) -> (r: Result<StreamState, TransportError>)
    ensures
        hs is Established <==> r is Ok,
        r is Ok ==> r->Ok_0.mode == StreamMode::Secured && r->Ok_0.open && r->Ok_0.timeout_ms
            is None && r->Ok_0.peer == peer,
        !(hs is Established) ==> r is Err && r->Err_0 is HandshakeFailed
            && r->Err_0->HandshakeFailed_0@ == failure_reason@,
{
    match hs {
        HandshakeState::Established => Ok(
            StreamState { mode: StreamMode::Secured, peer, timeout_ms: None, open: true },
        ),
        _ => Err(TransportError::HandshakeFailed(failure_reason)),
    }
}

/// Decide the outcome of client initialization from the runtime's reports:
/// bind and connect failures first; then, in cleartext mode, an open
/// cleartext stream; in secured mode, a secured stream exactly when the
/// handshake established, and `HandshakeFailed` otherwise. The stream's peer
/// is always the configured host and port, and no half-secured stream can
/// come back.
pub fn client_init_outcome(
    conf: &Config,
    bound: bool,
    connected: bool,
    handshake: &HandshakeState,
    failure_reason: String,
) -> (r: Result<StreamState, TransportError>)
    ensures
        !bound ==> r is Err && r->Err_0 is BindError,
        bound && !connected ==> r is Err && r->Err_0 is ConnectError,
        bound && connected && !conf.use_dtls ==> r is Ok && fresh_stream_for(
            r->Ok_0,
            StreamMode::Cleartext,
            conf.host@,
            conf.port,
        ),
        bound && connected && conf.use_dtls && handshake is Established ==> r is Ok
            && fresh_stream_for(r->Ok_0, StreamMode::Secured, conf.host@, conf.port),
        bound && connected && conf.use_dtls && !(handshake is Established) ==> r is Err
            && r->Err_0 is HandshakeFailed && r->Err_0->HandshakeFailed_0@ == failure_reason@,
{
    if !bound {
        return Err(TransportError::BindError);
    }
    if !connected {
        return Err(TransportError::ConnectError);
    }
    let peer = PeerAddr { host: conf.host.clone(), port: conf.port };
    if conf.use_dtls {
        secured_stream(handshake, peer, failure_reason)
    } else {
        Ok(StreamState { mode: StreamMode::Cleartext, peer, timeout_ms: None, open: true })
    }
}

/// The server's state: its listening port, the optional long-lived acceptor
/// identity (present exactly when the exchange is secured), and whether it is
/// still open.
pub struct ServerState {
    pub port: u16,
    pub acceptor: Option<openssl::ssl::SslAcceptor>,
    pub open: bool,
}

/// Decide the outcome of server initialization once the runtime reports the
/// bind: a failed bind is `BindError`; in cleartext mode the server carries
/// no acceptor; in secured mode the acceptor identity is loaded from the
/// configured paths, a failure there is `CertLoadFailed` at construction —
/// never later — and a constructed secured server always holds its acceptor.
pub fn server_init(conf: &Config, bound: bool, cert_path: &str, key_path: &str) -> (r: Result<
    ServerState,
    TransportError,
>)
    ensures
        !bound ==> r is Err && r->Err_0 is BindError,
        bound && !conf.use_dtls ==> r is Ok && r->Ok_0.acceptor is None && r->Ok_0.port
            == conf.port && r->Ok_0.open,
        bound && conf.use_dtls && r is Ok ==> r->Ok_0.acceptor is Some && r->Ok_0.port == conf.port
            && r->Ok_0.open,
        bound && conf.use_dtls && r is Err ==> r->Err_0 is CertLoadFailed,
        bound && conf.use_dtls && (has_nul_char(cert_path@) || has_nul_char(key_path@)) ==> r is Err,
{
    if !bound {
        return Err(TransportError::BindError);
    }
    if conf.use_dtls {
        match build_acceptor(cert_path, key_path) {
            Ok(acceptor) => Ok(
                ServerState { port: conf.port, acceptor: Some(acceptor), open: true },
            ),
            Err(e) => Err(e),
        }
    } else {
        Ok(ServerState { port: conf.port, acceptor: None, open: true })
    }
}

impl ServerState {
    /// Whether interactions run the acceptor-role handshake.
    pub open spec fn secured(&self) -> bool {
        self.acceptor is Some
    }

    /// Stop serving; later interactions fail deterministically.
    pub fn close(&mut self)
        ensures
            !final(self).open,
            final(self).port == old(self).port,
            final(self).acceptor is Some <==> old(self).acceptor is Some,
    {
        self.open = false;
    }
}

/// Decide one server interaction around an arrived datagram: on a closed
/// server nothing is served; a secured server answers only behind an
/// established handshake and sends nothing on a failed one; the answer is
/// the arrived payload itself, byte for byte, back to its sender.
pub fn server_echo_outcome(
    srv: &ServerState,
    payload: Vec<u8>,
    sender: PeerAddr,
    handshake: &HandshakeState,
    failure_reason: String,
) -> (r: Result<(Vec<u8>, PeerAddr), TransportError>)
    ensures
        !srv.open ==> r is Err && r->Err_0 is StreamClosed,
        srv.open && srv.secured() && !(handshake is Established) ==> r is Err
            && r->Err_0 is HandshakeFailed && r->Err_0->HandshakeFailed_0@ == failure_reason@,
        srv.open && (!srv.secured() || handshake is Established) ==> r is Ok && r->Ok_0.0 == payload
            && r->Ok_0.1 == sender,
        r is Ok <==> spec_echo_result(
            srv.open,
            srv.secured(),
            handshake is Established,
            payload@,
        ) is Some,
        r is Ok ==> Some(r->Ok_0.0@) == spec_echo_result(
            srv.open,
            srv.secured(),
            handshake is Established,
            payload@,
        ),
{
    if !srv.open {
        return Err(TransportError::StreamClosed);
    }
    if srv.acceptor.is_some() {
        match handshake {
            HandshakeState::Established => Ok((payload, sender)),
            _ => Err(TransportError::HandshakeFailed(failure_reason)),
        }
    } else {
        Ok((payload, sender))
    }
}

/// Law: a round trip is exact, in either mode. When an open server answers a
/// client's datagram — directly in cleartext mode, behind an established
/// handshake in secured mode — and the open client receives the answer into a
/// buffer at least as large as the payload, it observes exactly the bytes it
/// sent: same length, same byte sequence. A datagram carries its payload with
/// no added framing, so nothing else enters the path.
pub proof fn lemma_round_trip_exact(
    client_open: bool,
    server_open: bool,
    secured: bool,
    established: bool,
    sent: Seq<u8>,
    cap: nat,
)
    requires
        client_open,
        server_open,
        !secured || established,
        sent.len() <= cap,
    ensures
        spec_echo_result(server_open, secured, established, sent) is Some,
        spec_receive_result(
            client_open,
            spec_echo_result(server_open, secured, established, sent)->0,
            cap,
        ) == Some(sent),
{
}

/// Law: clipping keeps exactly the buffer-bounded prefix: nothing is lost
/// under the buffer's size, and never more than the buffer holds comes back.
pub proof fn lemma_clip_bounds(d: Seq<u8>, cap: nat)
    ensures
        clip_to(d, cap).len() == if d.len() <= cap {
            d.len()
        } else {
            cap
        },
        forall|i: int| 0 <= i < clip_to(d, cap).len() ==> clip_to(d, cap)[i] == d[i],
{
}

/// Law: the peer a client stream reports is the configured endpoint: any
/// stream initialization handed out answers `peer_addr` with exactly the
/// configured host and port.
pub proof fn lemma_peer_addr_matches_config(st: StreamState, mode: StreamMode, host: Seq<char>, port: u16)
    requires
        fresh_stream_for(st, mode, host, port),
    ensures
        st.open && st.peer.host@ == host && st.peer.port == port,
{
}

} // verus!
