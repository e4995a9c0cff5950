//! The passive traffic decoder: it watches every frame on the link, tracks
//! in-flight request identifiers, and pairs each tracked identifier's next
//! frame with the signature recorded for the request. Decoding failures are
//! reported as observations and never stop the loop.

use vstd::prelude::*;

use std::collections::HashMap;

use crate::config::Frisquet;
use crate::connect::area::AreaMsg;
use crate::connect::boiler::BoilerMsg;
use crate::connect::date::DateMsg;
use crate::connect::sensors::SensorsMsg;
use crate::connect::{
    frame_parse_err, frame_parses_to, from_bytes, ConnectError, ErrorKind, Metadata,
    MAX_RECV_FRAMES,
};
use crate::rf::RFClient;
use crate::wire::read_vec;

verus! {

broadcast use vstd::std_specs::hash::group_hash_axioms;

/// What was recorded about an in-flight request: one of the recognised
/// command signatures, or the raw command body itself.
#[derive(Debug, PartialEq, Eq, Clone)]
pub enum Signature {
    /// An area programme write (body prefix `a1 54 00 18`).
    AreaWrite,
    /// A boiler status exchange (body prefix `a0 f0 00 15`).
    BoilerStatus,
    /// A generic command with an unrecognised prefix.
    Generic,
    /// Any other message type: the raw command body stands for it.
    Raw(Vec<u8>),
}

/// The raw bytes a signature carries, if any.
pub open spec fn raw_sig_bytes(sig: Signature) -> Seq<u8> {
    match sig {
        Signature::Raw(b) => b@,
        _ => Seq::empty(),
    }
}

/// The command body of a clock query.
pub open spec fn date_query_sig() -> Seq<u8> {
    seq![0xa0u8, 0x2b, 0x00, 0x04]
}

/// The command body of a sensors query.
pub open spec fn sensors_query_sig() -> Seq<u8> {
    seq![0x79u8, 0xe0, 0x00, 0x1c]
}

/// One observation on the link, as the decoder explains each frame.
#[derive(Debug, PartialEq, Eq, Clone)]
pub enum Observation {
    /// The frame has no decodable header; skipped.
    BadHeader,
    /// Traffic neither from nor to the controller; ignored.
    NotOurs,
    /// A new request was recorded under its signature.
    Request { meta: Metadata, sig: Signature },
    /// A new generic command whose typed body would not decode; skipped,
    /// nothing recorded.
    BadRequest { meta: Metadata },
    /// A tracked request's reply: the boiler's clock.
    DateReply { meta: Metadata, msg: DateMsg },
    /// A tracked request's reply: a sensors snapshot.
    SensorsReply { meta: Metadata, msg: SensorsMsg },
    /// A tracked request's reply, kept raw.
    RawReply { meta: Metadata, body: Vec<u8> },
    /// A tracked request whose recorded signature is not recognised; the
    /// reply is kept raw.
    UnknownReply { meta: Metadata, body: Vec<u8> },
    /// A tracked request's reply that would not decode as the expected type;
    /// the entry is still spent.
    BadReply { meta: Metadata },
}

/// The in-flight table: request identifier to recorded signature. An entry
/// is made by the first frame of an untracked identifier and spent by the
/// next frame that carries the identifier, match or not.
pub struct Tracker {
    inflight: HashMap<u8, Signature>,
}

impl Tracker {
    /// The table's contents.
    pub closed spec fn view(self) -> Map<u8, Signature> {
        self.inflight@
    }

    /// A fresh tracker: nothing in flight.
    pub fn new() -> (r: Tracker)
        ensures
            r@ == Map::<u8, Signature>::empty(),
    {
        Tracker { inflight: HashMap::new() }
    }

    /// Whether a request identifier is currently in flight.
    pub fn in_flight(&self, request_id: u8) -> (r: bool)
        ensures
            r == self@.contains_key(request_id),
    {
        self.inflight.contains_key(&request_id)
    }

    /// Explain one frame and update the table. Only traffic touching the
    /// controller address (0x7e) is looked at; an untracked request
    /// identifier records a signature, a tracked one is paired with its
    /// recorded signature and the entry is spent.
    pub fn observe(&mut self, payload: &Vec<u8>) -> (r: Observation)
        ensures
            payload@.len() < 7 ==> r == Observation::BadHeader && final(self)@ == old(self)@,
            payload@.len() >= 7 ==> {
                let p = payload@;
                let meta = Metadata::parse_spec(p).unwrap();
                let m0 = old(self)@;
                if meta.from_addr != 0x7e && meta.to_addr != 0x7e {
                    r == Observation::NotOurs && final(self)@ == m0
                } else if m0.contains_key(meta.request_id) {
                    let sig = m0[meta.request_id];
                    &&& final(self)@ == m0.remove(meta.request_id)
                    &&& if sig is Raw && raw_sig_bytes(sig) == date_query_sig() {
                        if frame_parse_err::<DateMsg>(p) is None {
                            r matches Observation::DateReply { meta: m2, msg } && m2 == meta
                                && frame_parses_to::<DateMsg>(p, meta, msg)
                        } else {
                            r == Observation::BadReply { meta }
                        }
                    } else if sig is Raw && raw_sig_bytes(sig) == sensors_query_sig() {
                        if frame_parse_err::<SensorsMsg>(p) is None {
                            r matches Observation::SensorsReply { meta: m2, msg } && m2 == meta
                                && frame_parses_to::<SensorsMsg>(p, meta, msg)
                        } else {
                            r == Observation::BadReply { meta }
                        }
                    } else if sig is Raw {
                        r matches Observation::UnknownReply { meta: m2, body } && m2 == meta
                            && body@ == p.skip(7)
                    } else {
                        r matches Observation::RawReply { meta: m2, body } && m2 == meta && body@
                            == p.skip(7)
                    }
                } else {
                    if meta.msg_type == 0x17 {
                        if p.len() < 11 {
                            r == Observation::BadRequest { meta } && final(self)@ == m0
                        } else if p.subrange(7, 11) == seq![0xa1u8, 0x54, 0x00, 0x18] {
                            if frame_parse_err::<AreaMsg>(p) is None {
                                r == Observation::Request { meta, sig: Signature::AreaWrite }
                                    && final(self)@ == m0.insert(
                                    meta.request_id,
                                    Signature::AreaWrite,
                                )
                            } else {
                                r == Observation::BadRequest { meta } && final(self)@ == m0
                            }
                        } else if p.subrange(7, 11) == seq![0xa0u8, 0xf0, 0x00, 0x15] {
                            if frame_parse_err::<BoilerMsg>(p) is None {
                                r == Observation::Request { meta, sig: Signature::BoilerStatus }
                                    && final(self)@ == m0.insert(
                                    meta.request_id,
                                    Signature::BoilerStatus,
                                )
                            } else {
                                r == Observation::BadRequest { meta } && final(self)@ == m0
                            }
                        } else {
                            let m1 = m0.insert(meta.request_id, Signature::Generic);
                            r == Observation::Request { meta, sig: Signature::Generic }
                                && final(self)@ == m1
                        }
                    } else {
                        &&& (r matches Observation::Request { meta: m2, sig } && m2 == meta
                            && sig is Raw && raw_sig_bytes(sig) == p.skip(7))
                        &&& exists|b: Vec<u8>|
                            b@ == p.skip(7) && final(self)@ == m0.insert(
                                meta.request_id,
                                Signature::Raw(b),
                            )
                    }
                }
            },
    {
        let meta = match Metadata::from_bytes(payload.as_slice()) {
            Ok(m) => m,
            Err(_) => {
                return Observation::BadHeader;
            },
        };

        if meta.from_addr != 0x7e && meta.to_addr != 0x7e {
            return Observation::NotOurs;
        }

        match self.inflight.remove(&meta.request_id) {
            Some(sig) => {
                match sig {
                    Signature::Raw(b) => {
                        if b.len() == 4 && b[0] == 0xa0 && b[1] == 0x2b && b[2] == 0x00 && b[3]
                            == 0x04 {
                            proof {
                                assert(b@ =~= date_query_sig());
                            }
                            match from_bytes::<DateMsg>(payload) {
                                Ok((_, msg)) => Observation::DateReply { meta, msg },
                                Err(_) => Observation::BadReply { meta },
                            }
                        } else if b.len() == 4 && b[0] == 0x79 && b[1] == 0xe0 && b[2] == 0x00
                            && b[3] == 0x1c {
                            proof {
                                assert(b@ =~= sensors_query_sig());
                            }
                            match from_bytes::<SensorsMsg>(payload) {
                                Ok((_, msg)) => Observation::SensorsReply { meta, msg },
                                Err(_) => Observation::BadReply { meta },
                            }
                        } else {
                            proof {
                                assert(b@ != date_query_sig() && b@ != sensors_query_sig());
                            }
                            let body = read_vec(payload.as_slice(), 7, payload.len() - 7);
                            proof {
                                assert(body@ =~= payload@.skip(7));
                            }
                            Observation::UnknownReply { meta, body }
                        }
                    },
                    _ => {
                        let body = read_vec(payload.as_slice(), 7, payload.len() - 7);
                        proof {
                            assert(body@ =~= payload@.skip(7));
                        }
                        Observation::RawReply { meta, body }
                    },
                }
            },
            None => {
                if meta.msg_type == 0x17 {
                    if payload.len() < 11 {
                        return Observation::BadRequest { meta };
                    }
                    if payload[7] == 0xa1 && payload[8] == 0x54 && payload[9] == 0x00 && payload[10]
                        == 0x18 {
                        proof {
                            assert(payload@.subrange(7, 11) =~= seq![0xa1u8, 0x54, 0x00, 0x18]);
                        }
                        match from_bytes::<AreaMsg>(payload) {
                            Ok(_) => {
                                self.inflight.insert(meta.request_id, Signature::AreaWrite);
                                Observation::Request { meta, sig: Signature::AreaWrite }
                            },
                            Err(_) => Observation::BadRequest { meta },
                        }
                    } else if payload[7] == 0xa0 && payload[8] == 0xf0 && payload[9] == 0x00
                        && payload[10] == 0x15 {
                        proof {
                            assert(payload@.subrange(7, 11) =~= seq![0xa0u8, 0xf0, 0x00, 0x15]);
                        }
                        match from_bytes::<BoilerMsg>(payload) {
                            Ok(_) => {
                                self.inflight.insert(meta.request_id, Signature::BoilerStatus);
                                Observation::Request { meta, sig: Signature::BoilerStatus }
                            },
                            Err(_) => Observation::BadRequest { meta },
                        }
                    } else {
                        proof {
                            assert(payload@.subrange(7, 11) != seq![0xa1u8, 0x54, 0x00, 0x18]
                                && payload@.subrange(7, 11) != seq![0xa0u8, 0xf0, 0x00, 0x15]);
                        }
                        self.inflight.insert(meta.request_id, Signature::Generic);
                        Observation::Request { meta, sig: Signature::Generic }
                    }
                } else {
                    let body = read_vec(payload.as_slice(), 7, payload.len() - 7);
                    let body2 = read_vec(payload.as_slice(), 7, payload.len() - 7);
                    proof {
                        assert(body@ =~= payload@.skip(7));
                        assert(body2@ =~= payload@.skip(7));
                    }
                    self.inflight.insert(meta.request_id, Signature::Raw(body2));
                    Observation::Request { meta, sig: Signature::Raw(body) }
                }
            },
        }
    }
}

/// The never-ending observation loop: watch the entity's network and explain
/// every frame; only a transport failure (or a missing network identifier)
/// ends it.
pub fn connect_promiscuous<R: RFClient>(rf: &mut R, config: &mut Frisquet) -> (r: Result<
    (),
    ConnectError,
>)
    ensures
        r is Err,
        old(config).network_id is None ==> (r matches Err(e) && e.spec_kind()
            == ErrorKind::Configuration),
{
    let network_id = match config.network_id() {
        Ok(v) => v,
        Err(e) => {
            return Err(ConnectError::from_config(e));
        },
    };
    match rf.set_network_id(network_id) {
        Ok(_) => {},
        Err(m) => {
            return Err(ConnectError::with_kind(ErrorKind::Transport, m.as_str()));
        },
    }
    let mut tracker = Tracker::new();
    let mut left: u64 = MAX_RECV_FRAMES;
    while left > 0
        invariant
            old(config).network_id is Some,
        decreases left,
    {
        left = left - 1;
        let payload = match rf.recv() {
            Ok(p) => p,
            Err(e) => {
                return Err(ConnectError::from_recv(e));
            },
        };
        let _ = tracker.observe(&payload);
    }
    Err(ConnectError::with_kind(ErrorKind::Transport, "receive budget exhausted"))
}

} // verus!
