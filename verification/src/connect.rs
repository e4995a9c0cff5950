//! The protocol engine's core: the fixed seven-byte frame header, the typed
//! message bodies (in the submodules), frame assembly and filtering, and the
//! request/reply plumbing every query command shares.

use vstd::prelude::*;

use crate::config::ConfigError;
use crate::hexstr::{hex_of, payload_hex};
use crate::rf::{RFClient, RecvError, RecvTimeoutError, SendError};

pub mod area;
pub mod boiler;
pub mod data;
pub mod date;
pub mod pair;
pub mod promiscuous;
pub mod sensors;
pub mod sonde;

verus! {

/// What went wrong while decoding a frame.
#[derive(PartialEq, Eq, Structural, Clone, Copy, Debug)]
pub enum FrameDecodeError {
    /// Fewer than the seven header bytes.
    HeaderTooShort,
    /// The header's length field disagrees with the frame's actual size.
    LengthMismatch,
    /// The body bytes are too few for the expected layout.
    BodyTooShort,
    /// The body decoded but its own consistency assertion failed.
    AssertFailed,
}

/// The kind of a protocol-level failure, as callers tell them apart.
#[derive(PartialEq, Eq, Structural, Clone, Copy, Debug)]
pub enum ErrorKind {
    /// The transport link failed.
    Transport,
    /// A bounded wait elapsed with nothing received.
    Timeout,
    /// A frame would not decode.
    FrameDecode,
    /// An unexpected control or message type during the pairing handshake.
    ProtocolViolation,
    /// A configuration value is missing or out of range.
    Configuration,
}

/// A protocol-level failure, with its kind and a diagnostic text.
#[derive(PartialEq, Eq, Clone, Debug)]
pub struct ConnectError {
    kind: ErrorKind,
    msg: String,
}

impl ConnectError {
    /// The failure's kind.
    pub closed spec fn spec_kind(self) -> ErrorKind {
        self.kind
    }

    /// The failure's kind, as callers branch on it.
    pub fn error_kind(&self) -> (r: ErrorKind)
        ensures
            r == self.spec_kind(),
    {
        self.kind
    }

    pub fn new(msg: &str) -> (r: ConnectError)
        ensures
            r.spec_message() == msg@,
            r.spec_kind() == ErrorKind::Configuration,
    {
        ConnectError { kind: ErrorKind::Configuration, msg: String::from_str(msg) }
    }

    pub fn with_kind(kind: ErrorKind, msg: &str) -> (r: ConnectError)
        ensures
            r.spec_message() == msg@,
            r.spec_kind() == kind,
    {
        ConnectError { kind, msg: String::from_str(msg) }
    }

    /// The failure text.
    pub closed spec fn spec_message(self) -> Seq<char> {
        self.msg@
    }

    /// The failure text, for diagnostics.
    pub fn message(&self) -> (r: String)
        ensures
            r@ == self.spec_message(),
    {
        self.msg.clone()
    }

    pub fn from_config(e: ConfigError) -> (r: ConnectError)
        ensures
            r.spec_kind() == ErrorKind::Configuration,
    {
        ConnectError { kind: ErrorKind::Configuration, msg: e.message() }
    }

    pub fn from_send(e: SendError) -> (r: ConnectError)
        ensures
            r.spec_kind() == ErrorKind::Transport,
    {
        ConnectError { kind: ErrorKind::Transport, msg: e.message() }
    }

    pub fn from_recv(e: RecvError) -> (r: ConnectError)
        ensures
            r.spec_kind() == ErrorKind::Transport,
    {
        ConnectError { kind: ErrorKind::Transport, msg: e.message() }
    }

    pub fn from_recv_timeout(e: RecvTimeoutError) -> (r: ConnectError)
        ensures
            r.spec_kind() == (if e is Timeout {
                ErrorKind::Timeout
            } else {
                ErrorKind::Transport
            }),
    {
        let kind = if e.is_timeout() {
            ErrorKind::Timeout
        } else {
            ErrorKind::Transport
        };
        ConnectError { kind, msg: e.message() }
    }

    /// A decode failure, carrying the offending frame in hex for diagnosis.
    pub fn from_decode(payload: &Vec<u8>) -> (r: ConnectError)
        ensures
            r.spec_kind() == ErrorKind::FrameDecode,
            r.spec_message() == "undecodable frame: "@ + hex_of(payload@),
    {
        let mut msg = String::from_str("undecodable frame: ");
        msg.append(payload_hex(payload).as_str());
        ConnectError { kind: ErrorKind::FrameDecode, msg }
    }
}

/// The fixed frame header. On the wire it is seven bytes, in this order:
/// length (payload bytes after the length byte, plus six... that is, body
/// length plus six), destination, source, association identifier, request
/// identifier, control, message type.
#[derive(PartialEq, Eq, Structural, Clone, Copy, Debug)]
pub struct Metadata {
    pub length: u8,
    pub to_addr: u8,
    pub from_addr: u8,
    pub association_id: u8,
    pub request_id: u8,
    pub control: u8,
    pub msg_type: u8,
}

impl Metadata {
    /// The header's seven wire bytes.
    pub open spec fn enc(self) -> Seq<u8> {
        seq![
            self.length,
            self.to_addr,
            self.from_addr,
            self.association_id,
            self.request_id,
            self.control,
            self.msg_type,
        ]
    }

    /// What the first seven bytes of a payload decode to.
    pub open spec fn parse_spec(b: Seq<u8>) -> Option<Metadata> {
        if b.len() < 7 {
            None
        } else {
            Some(
                Metadata {
                    length: b[0],
                    to_addr: b[1],
                    from_addr: b[2],
                    association_id: b[3],
                    request_id: b[4],
                    control: b[5],
                    msg_type: b[6],
                },
            )
        }
    }

    pub fn to_bytes(&self) -> (r: Vec<u8>)
        ensures
            r@ == self.enc(),
    {
        let v: Vec<u8> = vec![
            self.length,
            self.to_addr,
            self.from_addr,
            self.association_id,
            self.request_id,
            self.control,
            self.msg_type,
        ];
        proof {
            assert(v@ =~= self.enc());
        }
        v
    }

    /// Decode a header from the front of a payload; bytes past the seventh
    /// are not looked at.
    pub fn from_bytes(payload: &[u8]) -> (r: Result<Metadata, FrameDecodeError>)
        ensures
            r matches Ok(m) ==> Self::parse_spec(payload@) == Some(m),
            r is Err <==> payload@.len() < 7,
            r is Err ==> r == Err::<Metadata, FrameDecodeError>(FrameDecodeError::HeaderTooShort),
    {
        if payload.len() < 7 {
            return Err(FrameDecodeError::HeaderTooShort);
        }
        Ok(
            Metadata {
                length: payload[0],
                to_addr: payload[1],
                from_addr: payload[2],
                association_id: payload[3],
                request_id: payload[4],
                control: payload[5],
                msg_type: payload[6],
            },
        )
    }

    /// The round trip on the header alone: decoding the encoded bytes gives
    /// the header back.
    pub proof fn lemma_round_trip(self)
        ensures
            Self::parse_spec(self.enc()) == Some(self),
    {
    }
}

/// Whether a frame header carries exactly the given source, destination,
/// association identifier and request identifier.
pub open spec fn matches_filter(
    meta: Metadata,
    from: u8,
    to: u8,
    association_id: u8,
    request_id: u8,
) -> bool {
    meta.from_addr == from && meta.to_addr == to && meta.association_id == association_id
        && meta.request_id == request_id
}

/// Pass a payload through exactly when its header carries the given source,
/// destination, association identifier and request identifier; a mismatch in
/// any one of the four yields no match, and only a payload too short for a
/// header is an error.
pub fn filter<'a>(
    payload: &'a Vec<u8>,
    from: u8,
    to: u8,
    association_id: u8,
    request_id: u8,
) -> (r: Result<Option<&'a Vec<u8>>, FrameDecodeError>)
    ensures
        r is Err <==> payload@.len() < 7,
        payload@.len() >= 7 ==> {
            let meta = Metadata::parse_spec(payload@).unwrap();
            if matches_filter(meta, from, to, association_id, request_id) {
                r == Ok::<Option<&'a Vec<u8>>, FrameDecodeError>(Some(payload))
            } else {
                r == Ok::<Option<&'a Vec<u8>>, FrameDecodeError>(None::<&'a Vec<u8>>)
            }
        },
{
    let meta = match Metadata::from_bytes(payload.as_slice()) {
        Ok(m) => m,
        Err(e) => {
            return Err(e);
        },
    };

    if meta.from_addr != from {
        return Ok(None);
    }
    if meta.to_addr != to {
        return Ok(None);
    }
    if meta.association_id != association_id {
        return Ok(None);
    }
    if meta.request_id != request_id {
        return Ok(None);
    }

    Ok(Some(payload))
}


/// A message body's own consistency condition, checked after decoding.
pub trait Assert: Sized {
    /// The condition itself.
    spec fn asserted(self) -> bool;

    /// Evaluate the condition.
    fn check(&self) -> (r: bool)
        ensures
            r == self.asserted(),
    ;
}

/// A typed message body with an exact wire layout.
pub trait Body: Assert {
    /// Field values are in range for the wire layout.
    spec fn wf(self) -> bool;

    /// The body's exact wire bytes.
    spec fn enc(self) -> Seq<u8>;

    /// Whether the body bytes `b` decode to exactly `m`: every field of `m`
    /// is pinned by `b`.
    spec fn parses_to(b: Seq<u8>, m: Self) -> bool;

    /// Whether two bodies are the same message: equal field by field, with
    /// byte-vector fields compared by contents.
    spec fn same(a: Self, b: Self) -> bool;

    /// The decode failure for the body bytes `b`, if they do not decode.
    spec fn parse_err(b: Seq<u8>) -> Option<FrameDecodeError>;

    /// Encode the body.
    fn to_bytes(&self) -> (r: Vec<u8>)
        requires
            self.wf(),
        ensures
            r@ == self.enc(),
    ;

    /// Decode a body from the front of `b`; bytes past the layout are not
    /// looked at.
    fn parse(b: &[u8]) -> (r: Result<Self, FrameDecodeError>)
        ensures
            r is Ok <==> Self::parse_err(b@) is None,
            r matches Ok(m) ==> Self::parses_to(b@, m) && m.wf() && m.asserted(),
            r matches Err(e) ==> Self::parse_err(b@) == Some(e),
    ;

    /// The round trip on the body alone: the encoded bytes decode, to the
    /// body itself and to nothing else.
    proof fn lemma_round_trip(self, m: Self)
        requires
            self.wf(),
            self.asserted(),
        ensures
            Self::parses_to(self.enc(), self),
            Self::parse_err(self.enc()) is None,
            Self::parses_to(self.enc(), m) ==> Self::same(m, self),
    ;
}

/// Whether a whole frame decodes to exactly the header `meta` and body `t`:
/// the header comes from the first seven bytes, its length field states the
/// frame's actual size, and the body comes from the rest.
pub open spec fn frame_parses_to<T: Body>(payload: Seq<u8>, meta: Metadata, t: T) -> bool {
    &&& Metadata::parse_spec(payload) == Some(meta)
    &&& meta.length == payload.len() - 1
    &&& T::parses_to(payload.skip(7), t)
}

/// The decode failure for a whole frame, if it does not decode.
pub open spec fn frame_parse_err<T: Body>(payload: Seq<u8>) -> Option<FrameDecodeError> {
    if payload.len() < 7 {
        Some(FrameDecodeError::HeaderTooShort)
    } else if payload[0] != payload.len() - 1 {
        Some(FrameDecodeError::LengthMismatch)
    } else {
        T::parse_err(payload.skip(7))
    }
}

/// The full wire frame for a header and body.
pub open spec fn frame_enc<T: Body>(meta: Metadata, body: T) -> Seq<u8> {
    meta.enc() + body.enc()
}

/// A well-formed frame: a valid body whose size the header's length field
/// states (body length plus six).
pub open spec fn frame_wf<T: Body>(meta: Metadata, body: T) -> bool {
    &&& body.wf()
    &&& body.asserted()
    &&& body.enc().len() + 6 <= 255
    &&& meta.length == body.enc().len() + 6
}

/// Decode a whole frame: the header from the first seven bytes, whose length
/// field must state the frame's actual size, then the body from the rest.
pub fn from_bytes<T: Body>(payload: &Vec<u8>) -> (r: Result<(Metadata, T), FrameDecodeError>)
    ensures
        r is Ok <==> frame_parse_err::<T>(payload@) is None,
        r matches Ok((meta, t)) ==> frame_parses_to(payload@, meta, t) && t.wf() && t.asserted(),
        r matches Err(e) ==> frame_parse_err::<T>(payload@) == Some(e),
{
    let meta = match Metadata::from_bytes(payload.as_slice()) {
        Ok(m) => m,
        Err(e) => {
            return Err(e);
        },
    };
    if meta.length as usize != payload.len() - 1 {
        return Err(FrameDecodeError::LengthMismatch);
    }
    let body_slice = vstd::slice::slice_subrange(payload.as_slice(), 7, payload.len());
    proof {
        assert(body_slice@ =~= payload@.skip(7));
    }
    match T::parse(body_slice) {
        Ok(t) => Ok((meta, t)),
        Err(e) => Err(e),
    }
}

/// Round trip: an encoded frame decodes, to the original header and body and
/// to nothing else, for every well-formed pair.
pub proof fn lemma_frame_round_trip<T: Body>(meta: Metadata, body: T, meta2: Metadata, body2: T)
    requires
        frame_wf(meta, body),
    ensures
        frame_parses_to::<T>(frame_enc(meta, body), meta, body),
        frame_parse_err::<T>(frame_enc(meta, body)) is None,
        frame_parses_to::<T>(frame_enc(meta, body), meta2, body2) ==> meta2 == meta && T::same(
            body2,
            body,
        ),
{
    let p = frame_enc(meta, body);
    assert(Metadata::parse_spec(p) == Some(meta));
    assert(p.skip(7) =~= body.enc());
    body.lemma_round_trip(body2);
}

/// The frame a command sends: a header whose length field is the body length
/// plus six, then the body. A body too long for the one-byte length field is
/// a configuration error.
pub fn build_cmd_frame<T: Body>(
    from: u8,
    to: u8,
    association_id: u8,
    request_id: u8,
    control: u8,
    msg_type: u8,
    cmd: &T,
) -> (r: Result<Vec<u8>, ConnectError>)
    requires
        cmd.wf(),
    ensures
        cmd.enc().len() + 6 > 255 ==> (r matches Err(e) && e.spec_kind()
            == ErrorKind::Configuration),
        cmd.enc().len() + 6 <= 255 ==> (r matches Ok(v) && v@ == frame_enc(
            Metadata {
                length: (cmd.enc().len() + 6) as u8,
                to_addr: to,
                from_addr: from,
                association_id,
                request_id,
                control,
                msg_type,
            },
            *cmd,
        )),
{
    let mut data = cmd.to_bytes();
    if data.len() > 249 {
        return Err(ConnectError::new("command body too long for one frame"));
    }
    let metadata = Metadata {
        length: (data.len() + 6) as u8,
        to_addr: to,
        from_addr: from,
        association_id,
        request_id,
        control,
        msg_type,
    };
    let mut payload = metadata.to_bytes();
    payload.append(&mut data);
    Ok(payload)
}

/// Build a frame from a typed body and hand it to the transport as one unit.
pub fn send_cmd<R: RFClient, T: Body>(
    rf: &mut R,
    from: u8,
    to: u8,
    association_id: u8,
    request_id: u8,
    control: u8,
    msg_type: u8,
    cmd: &T,
) -> (r: Result<(), ConnectError>)
    requires
        cmd.wf(),
    ensures
        cmd.enc().len() + 6 > 255 ==> (r matches Err(e) && e.spec_kind()
            == ErrorKind::Configuration),
        r matches Err(e) ==> (e.spec_kind() == ErrorKind::Configuration ==> cmd.enc().len() + 6
            > 255),
        r matches Err(e) ==> e.spec_kind() == ErrorKind::Configuration || e.spec_kind()
            == ErrorKind::Transport,
{
    let payload = match build_cmd_frame(
        from,
        to,
        association_id,
        request_id,
        control,
        msg_type,
        cmd,
    ) {
        Ok(p) => p,
        Err(e) => {
            return Err(e);
        },
    };
    match rf.send(payload) {
        Ok(_) => Ok(()),
        Err(e) => Err(ConnectError::from_send(e)),
    }
}

/// An opaque command body: raw bytes sent as they stand. Decoding takes the
/// whole remaining payload.
#[derive(Debug, PartialEq, Eq, Clone)]
pub struct Cmd {
    pub data: Vec<u8>,
}

impl Assert for Cmd {
    open spec fn asserted(self) -> bool {
        true
    }

    fn check(&self) -> (r: bool) {
        true
    }
}

impl Body for Cmd {
    open spec fn wf(self) -> bool {
        true
    }

    open spec fn enc(self) -> Seq<u8> {
        self.data@
    }

    open spec fn parses_to(b: Seq<u8>, m: Self) -> bool {
        m.data@ == b
    }

    open spec fn same(a: Self, b: Self) -> bool {
        a.data@ == b.data@
    }

    open spec fn parse_err(b: Seq<u8>) -> Option<FrameDecodeError> {
        None
    }

    fn to_bytes(&self) -> (r: Vec<u8>) {
        self.data.clone()
    }

    fn parse(b: &[u8]) -> (r: Result<Self, FrameDecodeError>) {
        let data = crate::wire::read_vec(b, 0, b.len());
        proof {
            assert(data@ =~= b@);
        }
        Ok(Cmd { data })
    }

    proof fn lemma_round_trip(self, m: Self) {
    }
}

/// A body that is deliberately dropped: nothing of the payload is decoded.
#[derive(Debug, PartialEq, Eq, Structural, Clone, Copy)]
pub struct DropMsg {}

impl Assert for DropMsg {
    open spec fn asserted(self) -> bool {
        true
    }

    fn check(&self) -> (r: bool) {
        true
    }
}

impl Body for DropMsg {
    open spec fn wf(self) -> bool {
        true
    }

    open spec fn enc(self) -> Seq<u8> {
        Seq::empty()
    }

    open spec fn parses_to(b: Seq<u8>, m: Self) -> bool {
        true
    }

    open spec fn same(a: Self, b: Self) -> bool {
        true
    }

    open spec fn parse_err(b: Seq<u8>) -> Option<FrameDecodeError> {
        None
    }

    fn to_bytes(&self) -> (r: Vec<u8>) {
        let v: Vec<u8> = Vec::new();
        proof {
            assert(v@ =~= self.enc());
        }
        v
    }

    fn parse(b: &[u8]) -> (r: Result<Self, FrameDecodeError>) {
        Ok(DropMsg {  })
    }

    proof fn lemma_round_trip(self, m: Self) {
    }
}


/// Test one received payload against the four identifiers and decode it: a
/// frame for someone else is no match (`None`), a matching frame that will
/// not decode is an error carrying the frame's hex, and a payload too short
/// for a header is a decode error as well.
pub fn try_match<T: Body>(
    payload: &Vec<u8>,
    from: u8,
    to: u8,
    association_id: u8,
    request_id: u8,
) -> (r: Result<Option<(Metadata, T)>, ConnectError>)
    ensures
        payload@.len() < 7 ==> (r matches Err(e) && e.spec_kind() == ErrorKind::FrameDecode),
        payload@.len() >= 7 ==> {
            let meta = Metadata::parse_spec(payload@).unwrap();
            if !matches_filter(meta, from, to, association_id, request_id) {
                r == Ok::<Option<(Metadata, T)>, ConnectError>(None)
            } else if frame_parse_err::<T>(payload@) is Some {
                r matches Err(e) && e.spec_kind() == ErrorKind::FrameDecode
            } else {
                r matches Ok(Some((m, t))) && m == meta && frame_parses_to(payload@, m, t)
                    && t.wf() && t.asserted()
            }
        },
{
    match filter(payload, from, to, association_id, request_id) {
        Err(_) => Err(ConnectError::from_decode(payload)),
        Ok(None) => Ok(None),
        Ok(Some(p)) => match from_bytes::<T>(p) {
            Ok((meta, t)) => Ok(Some((meta, t))),
            Err(_) => Err(ConnectError::from_decode(payload)),
        },
    }
}

/// How many frames a blocking receive loop will examine before giving up:
/// large enough never to end in practice, so that exhaustion is a link
/// failure and not a policy.
pub const MAX_RECV_FRAMES: u64 = 18446744073709551615;

/// Whether a reply pair is sound for the four identifiers: the header
/// matches them, the body passed its own checks, and some frame decodes to
/// exactly this pair.
pub open spec fn reply_ok<T: Body>(
    meta: Metadata,
    t: T,
    from: u8,
    to: u8,
    association_id: u8,
    request_id: u8,
) -> bool {
    &&& matches_filter(meta, from, to, association_id, request_id)
    &&& t.wf()
    &&& t.asserted()
    &&& exists|p: Seq<u8>| frame_parses_to::<T>(p, meta, t)
}

/// Block until a frame matching the four identifiers arrives, dropping all
/// others, and decode it; never gives up on its own.
pub fn wait_reply<R: RFClient, T: Body>(
    rf: &mut R,
    from: u8,
    to: u8,
    association_id: u8,
    request_id: u8,
) -> (r: Result<(Metadata, T), ConnectError>)
    ensures
        r matches Ok((meta, t)) ==> reply_ok(meta, t, from, to, association_id, request_id),
        r matches Err(e) ==> e.spec_kind() == ErrorKind::Transport || e.spec_kind()
            == ErrorKind::FrameDecode,
{
    let mut left: u64 = MAX_RECV_FRAMES;
    while left > 0
        decreases left,
    {
        left = left - 1;
        let payload = match rf.recv() {
            Ok(p) => p,
            Err(e) => {
                return Err(ConnectError::from_recv(e));
            },
        };
        match try_match::<T>(&payload, from, to, association_id, request_id) {
            Ok(Some((meta, t))) => {
                proof {
                    assert(frame_parses_to::<T>(payload@, meta, t));
                }
                return Ok((meta, t));
            },
            Ok(None) => {},
            Err(e) => {
                return Err(e);
            },
        }
    }
    Err(ConnectError::with_kind(ErrorKind::Transport, "receive budget exhausted"))
}

/// As [`wait_reply`], but bounded: if `timeout_ms` elapses on one receive
/// with nothing matching yet, the timeout is surfaced as an error.
pub fn wait_reply_within<R: RFClient, T: Body>(
    rf: &mut R,
    from: u8,
    to: u8,
    association_id: u8,
    request_id: u8,
    timeout_ms: u64,
) -> (r: Result<(Metadata, T), ConnectError>)
    ensures
        r matches Ok((meta, t)) ==> reply_ok(meta, t, from, to, association_id, request_id),
        r matches Err(e) ==> e.spec_kind() == ErrorKind::Transport || e.spec_kind()
            == ErrorKind::Timeout || e.spec_kind() == ErrorKind::FrameDecode,
{
    let mut left: u64 = MAX_RECV_FRAMES;
    while left > 0
        decreases left,
    {
        left = left - 1;
        let payload = match rf.recv_timeout(timeout_ms) {
            Ok(p) => p,
            Err(e) => {
                return Err(ConnectError::from_recv_timeout(e));
            },
        };
        match try_match::<T>(&payload, from, to, association_id, request_id) {
            Ok(Some((meta, t))) => {
                proof {
                    assert(frame_parses_to::<T>(payload@, meta, t));
                }
                return Ok((meta, t));
            },
            Ok(None) => {},
            Err(e) => {
                return Err(e);
            },
        }
    }
    Err(ConnectError::with_kind(ErrorKind::Transport, "receive budget exhausted"))
}

/// As [`wait_reply`], but a timeout is a quiet outcome (`None`), for retry
/// policies that resend instead of failing.
pub fn wait_reply_timeout<R: RFClient, T: Body>(
    rf: &mut R,
    from: u8,
    to: u8,
    association_id: u8,
    request_id: u8,
    timeout_ms: u64,
) -> (r: Result<Option<(Metadata, T)>, ConnectError>)
    ensures
        r matches Ok(Some((meta, t))) ==> reply_ok(meta, t, from, to, association_id, request_id),
        r matches Err(e) ==> e.spec_kind() == ErrorKind::Transport || e.spec_kind()
            == ErrorKind::FrameDecode,
{
    let mut left: u64 = MAX_RECV_FRAMES;
    while left > 0
        decreases left,
    {
        left = left - 1;
        let payload = match rf.recv_timeout(timeout_ms) {
            Ok(p) => p,
            Err(e) => {
                if e.is_timeout() {
                    return Ok(None);
                }
                return Err(ConnectError::from_recv_timeout(e));
            },
        };
        match try_match::<T>(&payload, from, to, association_id, request_id) {
            Ok(Some((meta, t))) => {
                proof {
                    assert(frame_parses_to::<T>(payload@, meta, t));
                }
                return Ok(Some((meta, t)));
            },
            Ok(None) => {},
            Err(e) => {
                return Err(e);
            },
        }
    }
    Err(ConnectError::with_kind(ErrorKind::Transport, "receive budget exhausted"))
}

} // verus!
