//! The pairing (association) handshake: the gateway's announce message, the
//! version handshake sent back, and the handshake loop that listens on the
//! broadcast address and captures the pairing result.

use vstd::prelude::*;

use crate::connect::{
    build_cmd_frame, frame_enc, frame_parse_err, Assert, Body, ConnectError, ErrorKind,
    FrameDecodeError, Metadata,
};
use crate::rf::RFClient;
use crate::wire::read_arr;

verus! {

/// The version handshake sent in reply to a pairing announce: four fixed
/// version bytes.
#[derive(Debug, PartialEq, Eq, Clone, Copy)]
pub struct AssociationCmd {
    pub version: [u8; 4],
}

impl Assert for AssociationCmd {
    /// The reply carries no length of its own; nothing to check.
    open spec fn asserted(self) -> bool {
        true
    }

    fn check(&self) -> (r: bool) {
        true
    }
}

impl Body for AssociationCmd {
    open spec fn wf(self) -> bool {
        true
    }

    open spec fn enc(self) -> Seq<u8> {
        self.version@
    }

    open spec fn parses_to(b: Seq<u8>, m: Self) -> bool {
        b.len() >= 4 && m.version@ == b.subrange(0, 4)
    }

    open spec fn same(a: Self, b: Self) -> bool {
        a == b
    }

    open spec fn parse_err(b: Seq<u8>) -> Option<FrameDecodeError> {
        if b.len() < 4 {
            Some(FrameDecodeError::BodyTooShort)
        } else {
            None
        }
    }

    fn to_bytes(&self) -> (r: Vec<u8>) {
        let v: Vec<u8> = vec![self.version[0], self.version[1], self.version[2], self.version[3]];
        proof {
            assert(v@ =~= self.enc());
        }
        v
    }

    fn parse(b: &[u8]) -> (r: Result<Self, FrameDecodeError>) {
        if b.len() < 4 {
            return Err(FrameDecodeError::BodyTooShort);
        }
        let version: [u8; 4] = read_arr::<4>(b, 0);
        Ok(AssociationCmd { version })
    }

    proof fn lemma_round_trip(self, m: Self) {
        assert(self.enc().subrange(0, 4) =~= self.version@);
        if Self::parses_to(self.enc(), m) {
            assert(m.version@ =~= self.version@);
            assert(m.version =~= self.version);
        }
    }
}

/// The gateway's pairing announce: a one-byte length (the network
/// identifier's size) and the four-byte network identifier itself.
#[derive(Debug, PartialEq, Eq, Clone, Copy)]
pub struct AssociationMsg {
    pub len: u8,
    pub network_id: [u8; 4],
}

impl Assert for AssociationMsg {
    /// The length field must state the network identifier's size.
    open spec fn asserted(self) -> bool {
        self.len == 4
    }

    fn check(&self) -> (r: bool) {
        self.len == 4
    }
}

impl Body for AssociationMsg {
    open spec fn wf(self) -> bool {
        true
    }

    open spec fn enc(self) -> Seq<u8> {
        seq![self.len] + self.network_id@
    }

    open spec fn parses_to(b: Seq<u8>, m: Self) -> bool {
        b.len() >= 5 && m.len == b[0] && m.network_id@ == b.subrange(1, 5)
    }

    open spec fn same(a: Self, b: Self) -> bool {
        a == b
    }

    open spec fn parse_err(b: Seq<u8>) -> Option<FrameDecodeError> {
        if b.len() < 5 {
            Some(FrameDecodeError::BodyTooShort)
        } else if b[0] != 4 {
            Some(FrameDecodeError::AssertFailed)
        } else {
            None
        }
    }

    fn to_bytes(&self) -> (r: Vec<u8>) {
        let v: Vec<u8> = vec![
            self.len,
            self.network_id[0],
            self.network_id[1],
            self.network_id[2],
            self.network_id[3],
        ];
        proof {
            assert(v@ =~= self.enc());
        }
        v
    }

    fn parse(b: &[u8]) -> (r: Result<Self, FrameDecodeError>) {
        if b.len() < 5 {
            return Err(FrameDecodeError::BodyTooShort);
        }
        let m = AssociationMsg { len: b[0], network_id: read_arr::<4>(b, 1) };
        if !m.check() {
            return Err(FrameDecodeError::AssertFailed);
        }
        Ok(m)
    }

    proof fn lemma_round_trip(self, m: Self) {
        assert(self.enc()[0] == self.len);
        assert(self.enc().subrange(1, 5) =~= self.network_id@);
        if Self::parses_to(self.enc(), m) {
            assert(m.network_id@ =~= self.network_id@);
            assert(m.network_id =~= self.network_id);
        }
    }
}

/// The result of pairing: the network identifier, the association
/// identifier, and the starting request identifier, as the caller persists
/// them.
#[derive(Debug, PartialEq, Eq, Clone, Copy)]
pub struct Association {
    pub network_id: [u8; 4],
    pub association_id: u8,
    pub request_id: u8,
}

/// What a valid pairing announce pins down: the frame decodes as an announce
/// with the expected control and message type, and the association record
/// carries its identifiers and network identifier.
pub open spec fn announce_yields(p: Seq<u8>, a: Association) -> bool {
    &&& frame_parse_err::<AssociationMsg>(p) is None
    &&& Metadata::parse_spec(p) matches Some(meta) && meta.control == 0x02 && meta.msg_type == 0x41
        && a.association_id == meta.association_id && a.request_id == meta.request_id
    &&& a.network_id@ == p.subrange(8, 12)
}

/// The fixed version-handshake reply frame for one announce: it echoes the
/// announcer's association and request identifiers, answers with control
/// 0x82 (the announce's control plus 0x80), and carries the four version
/// bytes.
pub open spec fn announce_reply(p: Seq<u8>, from: u8) -> Seq<u8> {
    let meta = Metadata::parse_spec(p).unwrap();
    frame_enc(
        Metadata {
            length: 10,
            to_addr: 0x80,
            from_addr: from,
            association_id: meta.association_id,
            request_id: meta.request_id,
            control: (meta.control + 0x80) as u8,
            msg_type: meta.msg_type,
        },
        AssociationCmd { version: [0x01, 0x21, 0x01, 0x02] },
    )
}

/// Whether some frame is a valid announce yielding this association record.
pub open spec fn some_announce_yields(a: Association) -> bool {
    exists|p: Seq<u8>| announce_yields(p, a)
}

/// Judge one frame heard while pairing: a frame that will not decode as an
/// announce is a decode error; one with an unexpected control or message
/// type is a protocol violation (fatal); a valid announce yields the
/// captured association and the reply frame to send back.
pub fn process_announce(payload: &Vec<u8>, from: u8) -> (r: Result<
    (Association, Vec<u8>),
    ConnectError,
>)
    ensures
        frame_parse_err::<AssociationMsg>(payload@) is Some ==> (r matches Err(e) && e.spec_kind()
            == ErrorKind::FrameDecode),
        frame_parse_err::<AssociationMsg>(payload@) is None ==> {
            let meta = Metadata::parse_spec(payload@).unwrap();
            if meta.control != 0x02 || meta.msg_type != 0x41 {
                r matches Err(e) && e.spec_kind() == ErrorKind::ProtocolViolation
            } else {
                r matches Ok((a, reply)) && announce_yields(payload@, a) && reply@
                    == announce_reply(payload@, from)
            }
        },
{
    let (meta, data) = match crate::connect::from_bytes::<AssociationMsg>(payload) {
        Ok(p) => p,
        Err(_) => {
            return Err(ConnectError::from_decode(payload));
        },
    };
    if meta.control != 0x02 {
        return Err(
            ConnectError::with_kind(ErrorKind::ProtocolViolation, "unexpected control in announce"),
        );
    }
    if meta.msg_type != 0x41 {
        return Err(
            ConnectError::with_kind(
                ErrorKind::ProtocolViolation,
                "unexpected msg_type in announce",
            ),
        );
    }
    let a = Association {
        network_id: data.network_id,
        association_id: meta.association_id,
        request_id: meta.request_id,
    };
    let cmd = AssociationCmd { version: [0x01, 0x21, 0x01, 0x02] };
    let reply = match build_cmd_frame(
        from,
        0x80,
        meta.association_id,
        meta.request_id,
        meta.control + 0x80,
        meta.msg_type,
        &cmd,
    ) {
        Ok(v) => v,
        Err(e) => {
            return Err(e);
        },
    };
    proof {
        assert(payload@.skip(7).subrange(1, 5) =~= payload@.subrange(8, 12));
        assert(cmd.enc().len() == 4);
        assert(announce_yields(payload@, a));
    }
    Ok((a, reply))
}

/// The pairing handshake. Listening on the broadcast network, it waits for
/// an announce; a five-second silence before any announce fails the
/// handshake for good, and an unexpected frame is fatal. Each announce is
/// answered with the version handshake; a five-second silence after at least
/// one announce completes the pairing with the last captured record.
pub fn connect_association<R: RFClient>(rf: &mut R, from: u8) -> (r: Result<
    Association,
    ConnectError,
>)
    ensures
        r matches Ok(a) ==> some_announce_yields(a),
{
    let broadcast: Vec<u8> = vec![0xff, 0xff, 0xff, 0xff];
    match rf.set_network_id(broadcast) {
        Ok(_) => {},
        Err(m) => {
            return Err(ConnectError::with_kind(ErrorKind::Transport, m.as_str()));
        },
    }
    let mut res: Option<Association> = None;
    let ghost mut witness: Seq<u8> = Seq::empty();
    let mut left: u64 = crate::connect::MAX_RECV_FRAMES;
    while left > 0
        invariant
            res matches Some(a) ==> announce_yields(witness, a),
        decreases left,
    {
        left = left - 1;
        let payload = match rf.recv_timeout(5000) {
            Ok(p) => p,
            Err(e) => {
                if e.is_timeout() {
                    match res {
                        Some(a) => {
                            proof {
                                assert(some_announce_yields(a)) by {
                                    assert(announce_yields(witness, a));
                                }
                            }
                            return Ok(a);
                        },
                        None => {
                            return Err(
                                ConnectError::with_kind(ErrorKind::Timeout, "association failed"),
                            );
                        },
                    }
                }
                return Err(ConnectError::from_recv_timeout(e));
            },
        };
        let (a, reply) = match process_announce(&payload, from) {
            Ok(p) => p,
            Err(e) => {
                return Err(e);
            },
        };
        proof {
            witness = payload@;
        }
        res = Some(a);
        match rf.send(reply) {
            Ok(_) => {},
            Err(e) => {
                return Err(ConnectError::from_send(e));
            },
        }
    }
    Err(ConnectError::with_kind(ErrorKind::Transport, "receive budget exhausted"))
}

} // verus!
