//! The external temperature probe's messages: the probe's one-time
//! initialisation, the periodic temperature report (tenths of a degree,
//! signed, big-endian), and the boiler's replies to both.

use vstd::prelude::*;

use crate::config::{next_request_id, Frisquet};
use crate::connect::{
    reply_ok, wait_reply_within, Assert, Body, ConnectError, ErrorKind, FrameDecodeError,
    Metadata,
};
use crate::rf::RFClient;
use crate::wire::{be16_decode, be16_encode, be16_val, read_arr, read_vec};

verus! {

/// The temperature report: a fixed nine-byte command prefix, then the
/// temperature in tenths of a degree, signed, big-endian.
#[derive(Debug, PartialEq, Eq, Clone, Copy)]
pub struct SetExternalTemperatureMsg {
    pub data: [u8; 9],
    pub temperature: i16,
}

impl Assert for SetExternalTemperatureMsg {
    /// The report carries no length of its own; nothing to check.
    open spec fn asserted(self) -> bool {
        true
    }

    fn check(&self) -> (r: bool) {
        true
    }
}

impl Body for SetExternalTemperatureMsg {
    open spec fn wf(self) -> bool {
        true
    }

    open spec fn enc(self) -> Seq<u8> {
        self.data@ + seq![
            crate::wire::be16_hi(self.temperature),
            crate::wire::be16_lo(self.temperature),
        ]
    }

    open spec fn parses_to(b: Seq<u8>, m: Self) -> bool {
        &&& b.len() >= 11
        &&& m.data@ == b.subrange(0, 9)
        &&& m.temperature == be16_val(b[9], b[10])
    }

    open spec fn same(a: Self, b: Self) -> bool {
        a == b
    }

    open spec fn parse_err(b: Seq<u8>) -> Option<FrameDecodeError> {
        if b.len() < 11 {
            Some(FrameDecodeError::BodyTooShort)
        } else {
            None
        }
    }

    fn to_bytes(&self) -> (r: Vec<u8>) {
        let mut v: Vec<u8> = vec![
            self.data[0],
            self.data[1],
            self.data[2],
            self.data[3],
            self.data[4],
            self.data[5],
            self.data[6],
            self.data[7],
            self.data[8],
        ];
        let (hi, lo) = be16_encode(self.temperature);
        v.push(hi);
        v.push(lo);
        proof {
            assert(v@ =~= self.enc());
        }
        v
    }

    fn parse(b: &[u8]) -> (r: Result<Self, FrameDecodeError>) {
        if b.len() < 11 {
            return Err(FrameDecodeError::BodyTooShort);
        }
        Ok(
            SetExternalTemperatureMsg {
                data: read_arr::<9>(b, 0),
                temperature: be16_decode(b[9], b[10]),
            },
        )
    }

    proof fn lemma_round_trip(self, m: Self) {
        let e = self.enc();
        assert(e.subrange(0, 9) =~= self.data@);
        crate::wire::lemma_be16_round_trip(self.temperature);
        if Self::parses_to(e, m) {
            assert(m.data =~= self.data);
        }
    }
}

/// The probe's initialisation message: exactly two raw bytes.
#[derive(Debug, PartialEq, Eq, Clone)]
pub struct ExternalTemperatureInitMsg {
    pub data: Vec<u8>,
}

impl Assert for ExternalTemperatureInitMsg {
    /// The message carries no length of its own; nothing to check.
    open spec fn asserted(self) -> bool {
        true
    }

    fn check(&self) -> (r: bool) {
        true
    }
}

impl Body for ExternalTemperatureInitMsg {
    open spec fn wf(self) -> bool {
        self.data@.len() == 2
    }

    open spec fn enc(self) -> Seq<u8> {
        self.data@
    }

    open spec fn parses_to(b: Seq<u8>, m: Self) -> bool {
        b.len() >= 2 && m.data@ == b.subrange(0, 2)
    }

    open spec fn same(a: Self, b: Self) -> bool {
        a.data@ == b.data@
    }

    open spec fn parse_err(b: Seq<u8>) -> Option<FrameDecodeError> {
        if b.len() < 2 {
            Some(FrameDecodeError::BodyTooShort)
        } else {
            None
        }
    }

    fn to_bytes(&self) -> (r: Vec<u8>) {
        self.data.clone()
    }

    fn parse(b: &[u8]) -> (r: Result<Self, FrameDecodeError>) {
        if b.len() < 2 {
            return Err(FrameDecodeError::BodyTooShort);
        }
        Ok(ExternalTemperatureInitMsg { data: read_vec(b, 0, 2) })
    }

    proof fn lemma_round_trip(self, m: Self) {
        assert(self.enc().subrange(0, 2) =~= self.data@);
    }
}

/// The boiler's reply to a temperature report: the boiler's clock, in the
/// same layout as the date message.
#[derive(Debug, PartialEq, Eq, Structural, Clone, Copy)]
pub struct SetExternalTemperatureReplyMsg {
    pub len: u8,
    pub year: u8,
    pub month: u8,
    pub day: u8,
    pub hour: u8,
    pub minute: u8,
    pub second: u8,
    pub data: u8,
    pub weekday: u8,
}

impl Assert for SetExternalTemperatureReplyMsg {
    /// The length field must state the payload length.
    open spec fn asserted(self) -> bool {
        self.len == 8
    }

    fn check(&self) -> (r: bool) {
        self.len == 8
    }
}

impl Body for SetExternalTemperatureReplyMsg {
    open spec fn wf(self) -> bool {
        true
    }

    open spec fn enc(self) -> Seq<u8> {
        seq![
            self.len,
            self.year,
            self.month,
            self.day,
            self.hour,
            self.minute,
            self.second,
            self.data,
            self.weekday,
        ]
    }

    open spec fn parses_to(b: Seq<u8>, m: Self) -> bool {
        &&& b.len() >= 9
        &&& m == SetExternalTemperatureReplyMsg {
            len: b[0],
            year: b[1],
            month: b[2],
            day: b[3],
            hour: b[4],
            minute: b[5],
            second: b[6],
            data: b[7],
            weekday: b[8],
        }
    }

    open spec fn same(a: Self, b: Self) -> bool {
        a == b
    }

    open spec fn parse_err(b: Seq<u8>) -> Option<FrameDecodeError> {
        if b.len() < 9 {
            Some(FrameDecodeError::BodyTooShort)
        } else if b[0] != 8 {
            Some(FrameDecodeError::AssertFailed)
        } else {
            None
        }
    }

    fn to_bytes(&self) -> (r: Vec<u8>) {
        let v: Vec<u8> = vec![
            self.len,
            self.year,
            self.month,
            self.day,
            self.hour,
            self.minute,
            self.second,
            self.data,
            self.weekday,
        ];
        proof {
            assert(v@ =~= self.enc());
        }
        v
    }

    fn parse(b: &[u8]) -> (r: Result<Self, FrameDecodeError>) {
        if b.len() < 9 {
            return Err(FrameDecodeError::BodyTooShort);
        }
        let m = SetExternalTemperatureReplyMsg {
            len: b[0],
            year: b[1],
            month: b[2],
            day: b[3],
            hour: b[4],
            minute: b[5],
            second: b[6],
            data: b[7],
            weekday: b[8],
        };
        if !m.check() {
            return Err(FrameDecodeError::AssertFailed);
        }
        Ok(m)
    }

    proof fn lemma_round_trip(self, m: Self) {
    }
}

/// The boiler's reply to the probe's initialisation: an empty body.
#[derive(Debug, PartialEq, Eq, Clone)]
pub struct ExternalTemperatureInitReply {
    pub data: Vec<u8>,
}

impl Assert for ExternalTemperatureInitReply {
    /// The reply carries no length of its own; nothing to check.
    open spec fn asserted(self) -> bool {
        true
    }

    fn check(&self) -> (r: bool) {
        true
    }
}

impl Body for ExternalTemperatureInitReply {
    open spec fn wf(self) -> bool {
        self.data@.len() == 0
    }

    open spec fn enc(self) -> Seq<u8> {
        self.data@
    }

    open spec fn parses_to(b: Seq<u8>, m: Self) -> bool {
        m.data@ == Seq::<u8>::empty()
    }

    open spec fn same(a: Self, b: Self) -> bool {
        a.data@ == b.data@
    }

    open spec fn parse_err(b: Seq<u8>) -> Option<FrameDecodeError> {
        None
    }

    fn to_bytes(&self) -> (r: Vec<u8>) {
        self.data.clone()
    }

    fn parse(b: &[u8]) -> (r: Result<Self, FrameDecodeError>) {
        let data: Vec<u8> = Vec::new();
        proof {
            assert(data@ =~= Seq::<u8>::empty());
        }
        Ok(ExternalTemperatureInitReply { data })
    }

    proof fn lemma_round_trip(self, m: Self) {
        assert(self.enc() =~= Seq::<u8>::empty());
    }
}


/// The probe's initialisation frame: body 00 00 under control 0x01,\n/// message type 0x43, probe (0x20) to hub (0x80), length byte eight.
pub fn build_init_frame(association_id: u8, request_id: u8) -> (r: Vec<u8>)
    ensures
        r@ == seq![0x08u8, 0x80, 0x20, association_id, request_id, 0x01, 0x43, 0x00, 0x00],
{
    let mut v: Vec<u8> = vec![0x08, 0x80, 0x20, association_id, request_id, 0x01, 0x43, 0x00, 0x00];
    proof {
        assert(v@ =~= seq![0x08u8, 0x80, 0x20, association_id, request_id, 0x01, 0x43, 0x00, 0x00]);
    }
    v
}
/// The probe's one-time initialisation: announces the probe to the boiler
/// and waits up to fifteen seconds for the acknowledgment; a timeout is
/// surfaced as an error, not retried.
pub fn send_init<R: RFClient>(rf: &mut R, config: &mut Frisquet) -> (r: Result<
    (Metadata, ExternalTemperatureInitReply),
    ConnectError,
>)
    ensures
        old(config).network_id is None ==> (r matches Err(e) && e.spec_kind()
            == ErrorKind::Configuration),
        old(config).association_id is None ==> r is Err,
        old(config).request_id is None ==> r is Err,
        final(config).network_id == old(config).network_id,
        final(config).association_id == old(config).association_id,
        final(config).request_id == old(config).request_id || (old(config).request_id matches Some(
            rid,
        ) && final(config).request_id == Some(next_request_id(rid))),
        r is Ok ==> old(config).request_id is Some && final(config).request_id == Some(
            next_request_id(old(config).request_id.unwrap()),
        ),
        r matches Err(e) ==> (e.spec_kind() == ErrorKind::Configuration
            ==> (old(config).network_id is None || old(config).association_id is None
            || old(config).request_id is None)),
        r matches Err(e) ==> ((e.spec_kind() == ErrorKind::Timeout || e.spec_kind()
            == ErrorKind::FrameDecode) ==> (old(config).request_id matches Some(rid)
            && final(config).request_id == Some(next_request_id(rid)))),
        r matches Ok((meta, msg)) ==> reply_ok(
            meta,
            msg,
            0x80,
            0x20,
            old(config).association_id.unwrap(),
            next_request_id(old(config).request_id.unwrap()),
        ),
{
    let network_id = match config.network_id() {
        Ok(v) => v,
        Err(e) => {
            return Err(ConnectError::from_config(e));
        },
    };
    match rf.set_network_id(network_id) {
        Ok(_) => {},
        Err(m) => {
            return Err(ConnectError::with_kind(ErrorKind::Transport, m.as_str()));
        },
    }
    let association_id = match config.association_id() {
        Ok(v) => v,
        Err(e) => {
            return Err(ConnectError::from_config(e));
        },
    };
    let req_id = match config.next_req_id() {
        Ok(v) => v,
        Err(e) => {
            return Err(ConnectError::from_config(e));
        },
    };
    let frame = build_init_frame(association_id, req_id);
    match rf.send(frame) {
        Ok(_) => {},
        Err(e) => {
            return Err(ConnectError::from_send(e));
        },
    }
    wait_reply_within::<R, ExternalTemperatureInitReply>(
        rf,
        0x80,
        0x20,
        association_id,
        req_id,
        15000,
    )
}


/// The temperature report frame: the fixed nine-byte command prefix and the
/// big-endian signed temperature in tenths, under control 0x01, message type
/// 0x17, probe to hub, length byte seventeen.
pub fn build_temperature_report(association_id: u8, request_id: u8, temperature: i16) -> (r: Vec<
    u8,
>)
    ensures
        r@ == seq![0x11u8, 0x80, 0x20, association_id, request_id, 0x01, 0x17, 0x9c, 0x54, 0x00, 0x04, 0xa0, 0x29, 0x00, 0x01, 0x02, crate::wire::be16_hi(temperature), crate::wire::be16_lo(temperature)],
{
    let mut v: Vec<u8> = vec![0x11, 0x80, 0x20, association_id, request_id, 0x01, 0x17, 0x9c, 0x54, 0x00, 0x04, 0xa0, 0x29, 0x00, 0x01, 0x02];
    let (hi, lo) = be16_encode(temperature);
    v.push(hi);
    v.push(lo);
    proof {
        assert(v@ =~= seq![0x11u8, 0x80, 0x20, association_id, request_id, 0x01, 0x17, 0x9c, 0x54, 0x00, 0x04, 0xa0, 0x29, 0x00, 0x01, 0x02, crate::wire::be16_hi(temperature), crate::wire::be16_lo(temperature)]);
    }
    v
}
/// Report the outdoor temperature, in tenths of a degree, and wait up to
/// fifteen seconds for the boiler's clock reply; a timeout is surfaced as an
/// error, not retried. The caller rounds its reading to tenths.
pub fn send_temperature<R: RFClient>(rf: &mut R, config: &mut Frisquet, temperature: i16) -> (r:
    Result<(Metadata, SetExternalTemperatureReplyMsg), ConnectError>)
    ensures
        old(config).network_id is None ==> (r matches Err(e) && e.spec_kind()
            == ErrorKind::Configuration),
        old(config).association_id is None ==> r is Err,
        old(config).request_id is None ==> r is Err,
        final(config).network_id == old(config).network_id,
        final(config).association_id == old(config).association_id,
        final(config).request_id == old(config).request_id || (old(config).request_id matches Some(
            rid,
        ) && final(config).request_id == Some(next_request_id(rid))),
        r is Ok ==> old(config).request_id is Some && final(config).request_id == Some(
            next_request_id(old(config).request_id.unwrap()),
        ),
        r matches Err(e) ==> (e.spec_kind() == ErrorKind::Configuration
            ==> (old(config).network_id is None || old(config).association_id is None
            || old(config).request_id is None)),
        r matches Err(e) ==> ((e.spec_kind() == ErrorKind::Timeout || e.spec_kind()
            == ErrorKind::FrameDecode) ==> (old(config).request_id matches Some(rid)
            && final(config).request_id == Some(next_request_id(rid)))),
        r matches Ok((meta, msg)) ==> reply_ok(
            meta,
            msg,
            0x80,
            0x20,
            old(config).association_id.unwrap(),
            next_request_id(old(config).request_id.unwrap()),
        ),
{
    let network_id = match config.network_id() {
        Ok(v) => v,
        Err(e) => {
            return Err(ConnectError::from_config(e));
        },
    };
    match rf.set_network_id(network_id) {
        Ok(_) => {},
        Err(m) => {
            return Err(ConnectError::with_kind(ErrorKind::Transport, m.as_str()));
        },
    }
    let association_id = match config.association_id() {
        Ok(v) => v,
        Err(e) => {
            return Err(ConnectError::from_config(e));
        },
    };
    let req_id = match config.next_req_id() {
        Ok(v) => v,
        Err(e) => {
            return Err(ConnectError::from_config(e));
        },
    };
    let frame = build_temperature_report(association_id, req_id, temperature);
    match rf.send(frame) {
        Ok(_) => {},
        Err(e) => {
            return Err(ConnectError::from_send(e));
        },
    }
    wait_reply_within::<R, SetExternalTemperatureReplyMsg>(
        rf,
        0x80,
        0x20,
        association_id,
        req_id,
        15000,
    )
}

} // verus!
