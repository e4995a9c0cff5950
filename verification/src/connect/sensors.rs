//! The sensors snapshot: a length byte, then thirteen signed big-endian
//! temperature readings interleaved with two opaque regions.

use vstd::prelude::*;

use crate::config::{next_request_id, Frisquet};
use crate::connect::{
    reply_ok, wait_reply, Assert, Body, ConnectError, ErrorKind, FrameDecodeError, Metadata,
};
use crate::rf::RFClient;
use crate::wire::{be16_decode, be16_encode, be16_hi, be16_lo, be16_val, lemma_be16_round_trip,
    read_arr};

verus! {

/// One sensors snapshot. Temperatures are in tenths of a degree, signed.
/// Wire layout, big-endian: length, five readings, twenty-six opaque bytes,
/// three ambient readings, six opaque bytes, three setpoint readings, the
/// outdoor reading.
#[derive(Debug, PartialEq, Eq, Clone, Copy)]
pub struct SensorsMsg {
    pub len: u8,
    pub temp_ecs: i16,
    pub temp_cdc: i16,
    pub temp_depart_1: i16,
    pub temp_depart_2: i16,
    pub temp_depart_3: i16,
    pub data: [u8; 26],
    pub temp_ambi_1: i16,
    pub temp_ambi_2: i16,
    pub temp_ambi_3: i16,
    pub data2: [u8; 6],
    pub temp_cons_1: i16,
    pub temp_cons_2: i16,
    pub temp_cons_3: i16,
    pub temp_exterieur: i16,
}

impl Assert for SensorsMsg {
    /// The length field must state the payload length.
    open spec fn asserted(self) -> bool {
        self.len == 0x38
    }

    fn check(&self) -> (r: bool) {
        self.len == 0x38
    }
}

impl Body for SensorsMsg {
    open spec fn wf(self) -> bool {
        true
    }

    open spec fn enc(self) -> Seq<u8> {
        seq![
            self.len,
            be16_hi(self.temp_ecs),
            be16_lo(self.temp_ecs),
            be16_hi(self.temp_cdc),
            be16_lo(self.temp_cdc),
            be16_hi(self.temp_depart_1),
            be16_lo(self.temp_depart_1),
            be16_hi(self.temp_depart_2),
            be16_lo(self.temp_depart_2),
            be16_hi(self.temp_depart_3),
            be16_lo(self.temp_depart_3),
        ] + self.data@ + seq![
            be16_hi(self.temp_ambi_1),
            be16_lo(self.temp_ambi_1),
            be16_hi(self.temp_ambi_2),
            be16_lo(self.temp_ambi_2),
            be16_hi(self.temp_ambi_3),
            be16_lo(self.temp_ambi_3),
        ] + self.data2@ + seq![
            be16_hi(self.temp_cons_1),
            be16_lo(self.temp_cons_1),
            be16_hi(self.temp_cons_2),
            be16_lo(self.temp_cons_2),
            be16_hi(self.temp_cons_3),
            be16_lo(self.temp_cons_3),
            be16_hi(self.temp_exterieur),
            be16_lo(self.temp_exterieur),
        ]
    }

    open spec fn parses_to(b: Seq<u8>, m: Self) -> bool {
        &&& b.len() >= 57
        &&& m.len == b[0]
        &&& m.temp_ecs == be16_val(b[1], b[2])
        &&& m.temp_cdc == be16_val(b[3], b[4])
        &&& m.temp_depart_1 == be16_val(b[5], b[6])
        &&& m.temp_depart_2 == be16_val(b[7], b[8])
        &&& m.temp_depart_3 == be16_val(b[9], b[10])
        &&& m.data@ == b.subrange(11, 37)
        &&& m.temp_ambi_1 == be16_val(b[37], b[38])
        &&& m.temp_ambi_2 == be16_val(b[39], b[40])
        &&& m.temp_ambi_3 == be16_val(b[41], b[42])
        &&& m.data2@ == b.subrange(43, 49)
        &&& m.temp_cons_1 == be16_val(b[49], b[50])
        &&& m.temp_cons_2 == be16_val(b[51], b[52])
        &&& m.temp_cons_3 == be16_val(b[53], b[54])
        &&& m.temp_exterieur == be16_val(b[55], b[56])
    }

    open spec fn same(a: Self, b: Self) -> bool {
        a == b
    }

    open spec fn parse_err(b: Seq<u8>) -> Option<FrameDecodeError> {
        if b.len() < 57 {
            Some(FrameDecodeError::BodyTooShort)
        } else if b[0] != 0x38 {
            Some(FrameDecodeError::AssertFailed)
        } else {
            None
        }
    }

    fn to_bytes(&self) -> (r: Vec<u8>) {
        let mut v: Vec<u8> = Vec::new();
        v.push(self.len);
        let (hi, lo) = be16_encode(self.temp_ecs);
        v.push(hi);
        v.push(lo);
        let (hi, lo) = be16_encode(self.temp_cdc);
        v.push(hi);
        v.push(lo);
        let (hi, lo) = be16_encode(self.temp_depart_1);
        v.push(hi);
        v.push(lo);
        let (hi, lo) = be16_encode(self.temp_depart_2);
        v.push(hi);
        v.push(lo);
        let (hi, lo) = be16_encode(self.temp_depart_3);
        v.push(hi);
        v.push(lo);
        let mut i: usize = 0;
        while i < 26
            invariant
                i <= 26,
                v@.len() == 11 + i,
                v@ =~= self.enc().subrange(0, 11) + self.data@.subrange(0, i as int),
            decreases 26 - i,
        {
            v.push(self.data[i]);
            i += 1;
        }
        let (hi, lo) = be16_encode(self.temp_ambi_1);
        v.push(hi);
        v.push(lo);
        let (hi, lo) = be16_encode(self.temp_ambi_2);
        v.push(hi);
        v.push(lo);
        let (hi, lo) = be16_encode(self.temp_ambi_3);
        v.push(hi);
        v.push(lo);
        let mut j: usize = 0;
        while j < 6
            invariant
                j <= 6,
                v@.len() == 43 + j,
                v@ =~= self.enc().subrange(0, 43) + self.data2@.subrange(0, j as int),
            decreases 6 - j,
        {
            v.push(self.data2[j]);
            j += 1;
        }
        let (hi, lo) = be16_encode(self.temp_cons_1);
        v.push(hi);
        v.push(lo);
        let (hi, lo) = be16_encode(self.temp_cons_2);
        v.push(hi);
        v.push(lo);
        let (hi, lo) = be16_encode(self.temp_cons_3);
        v.push(hi);
        v.push(lo);
        let (hi, lo) = be16_encode(self.temp_exterieur);
        v.push(hi);
        v.push(lo);
        proof {
            assert(v@ =~= self.enc());
        }
        v
    }

    fn parse(b: &[u8]) -> (r: Result<Self, FrameDecodeError>) {
        if b.len() < 57 {
            return Err(FrameDecodeError::BodyTooShort);
        }
        let m = SensorsMsg {
            len: b[0],
            temp_ecs: be16_decode(b[1], b[2]),
            temp_cdc: be16_decode(b[3], b[4]),
            temp_depart_1: be16_decode(b[5], b[6]),
            temp_depart_2: be16_decode(b[7], b[8]),
            temp_depart_3: be16_decode(b[9], b[10]),
            data: read_arr::<26>(b, 11),
            temp_ambi_1: be16_decode(b[37], b[38]),
            temp_ambi_2: be16_decode(b[39], b[40]),
            temp_ambi_3: be16_decode(b[41], b[42]),
            data2: read_arr::<6>(b, 43),
            temp_cons_1: be16_decode(b[49], b[50]),
            temp_cons_2: be16_decode(b[51], b[52]),
            temp_cons_3: be16_decode(b[53], b[54]),
            temp_exterieur: be16_decode(b[55], b[56]),
        };
        if !m.check() {
            return Err(FrameDecodeError::AssertFailed);
        }
        Ok(m)
    }

    proof fn lemma_round_trip(self, m: Self) {
        let e = self.enc();
        assert(e.subrange(11, 37) =~= self.data@);
        assert(e.subrange(43, 49) =~= self.data2@);
        lemma_be16_round_trip(self.temp_ecs);
        lemma_be16_round_trip(self.temp_cdc);
        lemma_be16_round_trip(self.temp_depart_1);
        lemma_be16_round_trip(self.temp_depart_2);
        lemma_be16_round_trip(self.temp_depart_3);
        lemma_be16_round_trip(self.temp_ambi_1);
        lemma_be16_round_trip(self.temp_ambi_2);
        lemma_be16_round_trip(self.temp_ambi_3);
        lemma_be16_round_trip(self.temp_cons_1);
        lemma_be16_round_trip(self.temp_cons_2);
        lemma_be16_round_trip(self.temp_cons_3);
        lemma_be16_round_trip(self.temp_exterieur);
        if Self::parses_to(e, m) {
            assert(m.data =~= self.data);
            assert(m.data2 =~= self.data2);
        }
    }
}


/// The sensors query frame: body 79 e0 00 1c under control 0x01, message\n/// type 0x03, controller to hub, length byte ten.
pub fn build_sensors_query(association_id: u8, request_id: u8) -> (r: Vec<u8>)
    ensures
        r@ == seq![0x0au8, 0x80, 0x7e, association_id, request_id, 0x01, 0x03, 0x79, 0xe0, 0x00, 0x1c],
{
    let mut v: Vec<u8> = vec![0x0a, 0x80, 0x7e, association_id, request_id, 0x01, 0x03, 0x79, 0xe0, 0x00, 0x1c];
    proof {
        assert(v@ =~= seq![0x0au8, 0x80, 0x7e, association_id, request_id, 0x01, 0x03, 0x79, 0xe0, 0x00, 0x1c]);
    }
    v
}
/// Query one sensors snapshot. Selects the entity's network, draws the next request
/// identifier, sends the query, and blocks until the matching reply arrives.
pub fn connect_sensors<R: RFClient>(rf: &mut R, config: &mut Frisquet) -> (r: Result<
    (Metadata, SensorsMsg),
    ConnectError,
>)
    ensures
        old(config).network_id is None ==> (r matches Err(e) && e.spec_kind()
            == ErrorKind::Configuration),
        old(config).association_id is None ==> r is Err,
        old(config).request_id is None ==> r is Err,
        final(config).network_id == old(config).network_id,
        final(config).association_id == old(config).association_id,
        final(config).request_id == old(config).request_id || (old(config).request_id matches Some(
            rid,
        ) && final(config).request_id == Some(next_request_id(rid))),
        r is Ok ==> old(config).request_id is Some && final(config).request_id == Some(
            next_request_id(old(config).request_id.unwrap()),
        ),
        r matches Err(e) ==> (e.spec_kind() == ErrorKind::Configuration
            ==> (old(config).network_id is None || old(config).association_id is None
            || old(config).request_id is None)),
        r matches Err(e) ==> ((e.spec_kind() == ErrorKind::Timeout || e.spec_kind()
            == ErrorKind::FrameDecode) ==> (old(config).request_id matches Some(rid)
            && final(config).request_id == Some(next_request_id(rid)))),
        r matches Ok((meta, msg)) ==> reply_ok(
            meta,
            msg,
            0x80,
            0x7e,
            old(config).association_id.unwrap(),
            next_request_id(old(config).request_id.unwrap()),
        ),
{
    let network_id = match config.network_id() {
        Ok(v) => v,
        Err(e) => {
            return Err(ConnectError::from_config(e));
        },
    };
    match rf.set_network_id(network_id) {
        Ok(_) => {},
        Err(m) => {
            return Err(ConnectError::with_kind(ErrorKind::Transport, m.as_str()));
        },
    }
    let association_id = match config.association_id() {
        Ok(v) => v,
        Err(e) => {
            return Err(ConnectError::from_config(e));
        },
    };
    let req_id = match config.next_req_id() {
        Ok(v) => v,
        Err(e) => {
            return Err(ConnectError::from_config(e));
        },
    };
    let frame = build_sensors_query(association_id, req_id);
    match rf.send(frame) {
        Ok(_) => {},
        Err(e) => {
            return Err(ConnectError::from_send(e));
        },
    }
    wait_reply::<R, SensorsMsg>(rf, 0x80, 0x7e, association_id, req_id)
}

} // verus!
