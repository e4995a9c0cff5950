//! The boiler's clock message: a length byte, six binary-coded-decimal clock
//! fields, one opaque byte, and the weekday (1 is Monday, 7 is Sunday).

use vstd::prelude::*;

use crate::bcd_decode;
use crate::bcd_value;
use crate::config::{next_request_id, Frisquet};
use crate::connect::{
    reply_ok, wait_reply, Assert, Body, ConnectError, ErrorKind, FrameDecodeError, Metadata,
};
use crate::rf::RFClient;

verus! {

/// The clock reply: every calendar field is binary-coded decimal on the
/// wire; the getters decode them.
#[derive(Debug, PartialEq, Eq, Structural, Clone, Copy)]
pub struct DateMsg {
    pub len: u8,
    pub year: u8,
    pub month: u8,
    pub day: u8,
    pub hour: u8,
    pub minute: u8,
    pub second: u8,
    pub data: u8,
    pub weekday: u8,
}

impl Assert for DateMsg {
    /// The length field must state the payload length.
    open spec fn asserted(self) -> bool {
        self.len == 8
    }

    fn check(&self) -> (r: bool) {
        self.len == 8
    }
}

impl Body for DateMsg {
    open spec fn wf(self) -> bool {
        true
    }

    open spec fn enc(self) -> Seq<u8> {
        seq![
            self.len,
            self.year,
            self.month,
            self.day,
            self.hour,
            self.minute,
            self.second,
            self.data,
            self.weekday,
        ]
    }

    open spec fn parses_to(b: Seq<u8>, m: Self) -> bool {
        &&& b.len() >= 9
        &&& m == DateMsg {
            len: b[0],
            year: b[1],
            month: b[2],
            day: b[3],
            hour: b[4],
            minute: b[5],
            second: b[6],
            data: b[7],
            weekday: b[8],
        }
    }

    open spec fn same(a: Self, b: Self) -> bool {
        a == b
    }

    open spec fn parse_err(b: Seq<u8>) -> Option<FrameDecodeError> {
        if b.len() < 9 {
            Some(FrameDecodeError::BodyTooShort)
        } else if b[0] != 8 {
            Some(FrameDecodeError::AssertFailed)
        } else {
            None
        }
    }

    fn to_bytes(&self) -> (r: Vec<u8>) {
        let v: Vec<u8> = vec![
            self.len,
            self.year,
            self.month,
            self.day,
            self.hour,
            self.minute,
            self.second,
            self.data,
            self.weekday,
        ];
        proof {
            assert(v@ =~= self.enc());
        }
        v
    }

    fn parse(b: &[u8]) -> (r: Result<Self, FrameDecodeError>) {
        if b.len() < 9 {
            return Err(FrameDecodeError::BodyTooShort);
        }
        let m = DateMsg {
            len: b[0],
            year: b[1],
            month: b[2],
            day: b[3],
            hour: b[4],
            minute: b[5],
            second: b[6],
            data: b[7],
            weekday: b[8],
        };
        if !m.check() {
            return Err(FrameDecodeError::AssertFailed);
        }
        Ok(m)
    }

    proof fn lemma_round_trip(self, m: Self) {
    }
}

impl DateMsg {
    /// The year, decoded from its binary-coded-decimal wire byte.
    pub fn year(&self) -> (r: u8)
        ensures
            r == bcd_value(self.year),
    {
        bcd_decode(self.year)
    }

    /// The month, decoded from its binary-coded-decimal wire byte.
    pub fn month(&self) -> (r: u8)
        ensures
            r == bcd_value(self.month),
    {
        bcd_decode(self.month)
    }

    /// The day of the month, decoded from its binary-coded-decimal wire
    /// byte.
    pub fn day(&self) -> (r: u8)
        ensures
            r == bcd_value(self.day),
    {
        bcd_decode(self.day)
    }

    /// The hour, decoded from its binary-coded-decimal wire byte.
    pub fn hour(&self) -> (r: u8)
        ensures
            r == bcd_value(self.hour),
    {
        bcd_decode(self.hour)
    }

    /// The minute, decoded from its binary-coded-decimal wire byte.
    pub fn minute(&self) -> (r: u8)
        ensures
            r == bcd_value(self.minute),
    {
        bcd_decode(self.minute)
    }

    /// The second, decoded from its binary-coded-decimal wire byte.
    pub fn second(&self) -> (r: u8)
        ensures
            r == bcd_value(self.second),
    {
        bcd_decode(self.second)
    }

    /// The weekday, plain on the wire: 1 is Monday through 7 is Sunday.
    pub fn weekday(&self) -> (r: u8)
        ensures
            r == self.weekday,
    {
        self.weekday
    }
}


/// The clock query frame: body a0 2b 00 04 under control 0x01, message\n/// type 0x03, controller (0x7e) to hub (0x80), length byte ten.
pub fn build_date_query(association_id: u8, request_id: u8) -> (r: Vec<u8>)
    ensures
        r@ == seq![0x0au8, 0x80, 0x7e, association_id, request_id, 0x01, 0x03, 0xa0, 0x2b, 0x00, 0x04],
{
    let mut v: Vec<u8> = vec![0x0a, 0x80, 0x7e, association_id, request_id, 0x01, 0x03, 0xa0, 0x2b, 0x00, 0x04];
    proof {
        assert(v@ =~= seq![0x0au8, 0x80, 0x7e, association_id, request_id, 0x01, 0x03, 0xa0, 0x2b, 0x00, 0x04]);
    }
    v
}
/// Query the boiler's clock. Selects the entity's network, draws the next request
/// identifier, sends the query, and blocks until the matching reply arrives.
pub fn connect_date<R: RFClient>(rf: &mut R, config: &mut Frisquet) -> (r: Result<
    (Metadata, DateMsg),
    ConnectError,
>)
    ensures
        old(config).network_id is None ==> (r matches Err(e) && e.spec_kind()
            == ErrorKind::Configuration),
        old(config).association_id is None ==> r is Err,
        old(config).request_id is None ==> r is Err,
        final(config).network_id == old(config).network_id,
        final(config).association_id == old(config).association_id,
        final(config).request_id == old(config).request_id || (old(config).request_id matches Some(
            rid,
        ) && final(config).request_id == Some(next_request_id(rid))),
        r is Ok ==> old(config).request_id is Some && final(config).request_id == Some(
            next_request_id(old(config).request_id.unwrap()),
        ),
        r matches Err(e) ==> (e.spec_kind() == ErrorKind::Configuration
            ==> (old(config).network_id is None || old(config).association_id is None
            || old(config).request_id is None)),
        r matches Err(e) ==> ((e.spec_kind() == ErrorKind::Timeout || e.spec_kind()
            == ErrorKind::FrameDecode) ==> (old(config).request_id matches Some(rid)
            && final(config).request_id == Some(next_request_id(rid)))),
        r matches Ok((meta, msg)) ==> reply_ok(
            meta,
            msg,
            0x80,
            0x7e,
            old(config).association_id.unwrap(),
            next_request_id(old(config).request_id.unwrap()),
        ),
{
    let network_id = match config.network_id() {
        Ok(v) => v,
        Err(e) => {
            return Err(ConnectError::from_config(e));
        },
    };
    match rf.set_network_id(network_id) {
        Ok(_) => {},
        Err(m) => {
            return Err(ConnectError::with_kind(ErrorKind::Transport, m.as_str()));
        },
    }
    let association_id = match config.association_id() {
        Ok(v) => v,
        Err(e) => {
            return Err(ConnectError::from_config(e));
        },
    };
    let req_id = match config.next_req_id() {
        Ok(v) => v,
        Err(e) => {
            return Err(ConnectError::from_config(e));
        },
    };
    let frame = build_date_query(association_id, req_id);
    match rf.send(frame) {
        Ok(_) => {},
        Err(e) => {
            return Err(ConnectError::from_send(e));
        },
    }
    wait_reply::<R, DateMsg>(rf, 0x80, 0x7e, association_id, req_id)
}

} // verus!
