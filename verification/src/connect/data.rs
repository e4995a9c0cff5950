//! The three opaque data dumps the boiler answers with: each is a one-byte
//! count followed by that many payload bytes, not decoded further.

use vstd::prelude::*;

use crate::config::{next_request_id, Frisquet};
use crate::connect::{
    reply_ok, wait_reply, Assert, Body, ConnectError, ErrorKind, FrameDecodeError, Metadata,
};
use crate::rf::RFClient;
use crate::wire::read_vec;

verus! {

/// An opaque data dump: a count byte, then that many raw bytes.
#[derive(Debug, PartialEq, Eq, Clone)]
pub struct Data1Msg {
    pub len: u8,
    pub items: Vec<u8>,
}

impl Assert for Data1Msg {
    /// Nothing beyond the layout itself to check.
    open spec fn asserted(self) -> bool {
        true
    }

    fn check(&self) -> (r: bool) {
        true
    }
}

impl Body for Data1Msg {
    open spec fn wf(self) -> bool {
        self.items@.len() == self.len
    }

    open spec fn enc(self) -> Seq<u8> {
        seq![self.len] + self.items@
    }

    open spec fn parses_to(b: Seq<u8>, m: Self) -> bool {
        &&& b.len() >= 1 + b[0]
        &&& m.len == b[0]
        &&& m.items@ == b.subrange(1, 1 + b[0])
    }

    open spec fn same(a: Self, b: Self) -> bool {
        a.len == b.len && a.items@ == b.items@
    }

    open spec fn parse_err(b: Seq<u8>) -> Option<FrameDecodeError> {
        if b.len() < 1 || b.len() < 1 + b[0] {
            Some(FrameDecodeError::BodyTooShort)
        } else {
            None
        }
    }

    fn to_bytes(&self) -> (r: Vec<u8>) {
        let mut v: Vec<u8> = vec![self.len];
        let mut items = self.items.clone();
        v.append(&mut items);
        proof {
            assert(v@ =~= self.enc());
        }
        v
    }

    fn parse(b: &[u8]) -> (r: Result<Self, FrameDecodeError>) {
        if b.len() < 1 {
            return Err(FrameDecodeError::BodyTooShort);
        }
        let n = b[0];
        if b.len() - 1 < n as usize {
            return Err(FrameDecodeError::BodyTooShort);
        }
        let items = read_vec(b, 1, n as usize);
        Ok(Data1Msg { len: n, items })
    }

    proof fn lemma_round_trip(self, m: Self) {
        assert(self.enc()[0] == self.len);
        assert(self.enc().subrange(1, 1 + self.len) =~= self.items@);
    }
}

/// An opaque data dump: a count byte, then that many raw bytes.
#[derive(Debug, PartialEq, Eq, Clone)]
pub struct Data3Msg {
    pub len: u8,
    pub items: Vec<u8>,
}

impl Assert for Data3Msg {
    /// Nothing beyond the layout itself to check.
    open spec fn asserted(self) -> bool {
        true
    }

    fn check(&self) -> (r: bool) {
        true
    }
}

impl Body for Data3Msg {
    open spec fn wf(self) -> bool {
        self.items@.len() == self.len
    }

    open spec fn enc(self) -> Seq<u8> {
        seq![self.len] + self.items@
    }

    open spec fn parses_to(b: Seq<u8>, m: Self) -> bool {
        &&& b.len() >= 1 + b[0]
        &&& m.len == b[0]
        &&& m.items@ == b.subrange(1, 1 + b[0])
    }

    open spec fn same(a: Self, b: Self) -> bool {
        a.len == b.len && a.items@ == b.items@
    }

    open spec fn parse_err(b: Seq<u8>) -> Option<FrameDecodeError> {
        if b.len() < 1 || b.len() < 1 + b[0] {
            Some(FrameDecodeError::BodyTooShort)
        } else {
            None
        }
    }

    fn to_bytes(&self) -> (r: Vec<u8>) {
        let mut v: Vec<u8> = vec![self.len];
        let mut items = self.items.clone();
        v.append(&mut items);
        proof {
            assert(v@ =~= self.enc());
        }
        v
    }

    fn parse(b: &[u8]) -> (r: Result<Self, FrameDecodeError>) {
        if b.len() < 1 {
            return Err(FrameDecodeError::BodyTooShort);
        }
        let n = b[0];
        if b.len() - 1 < n as usize {
            return Err(FrameDecodeError::BodyTooShort);
        }
        let items = read_vec(b, 1, n as usize);
        Ok(Data3Msg { len: n, items })
    }

    proof fn lemma_round_trip(self, m: Self) {
        assert(self.enc()[0] == self.len);
        assert(self.enc().subrange(1, 1 + self.len) =~= self.items@);
    }
}

/// An opaque data dump: a count byte, then that many raw bytes.
#[derive(Debug, PartialEq, Eq, Clone)]
pub struct Data4Msg {
    pub len: u8,
    pub items: Vec<u8>,
}

impl Assert for Data4Msg {
    /// Nothing beyond the layout itself to check.
    open spec fn asserted(self) -> bool {
        true
    }

    fn check(&self) -> (r: bool) {
        true
    }
}

impl Body for Data4Msg {
    open spec fn wf(self) -> bool {
        self.items@.len() == self.len
    }

    open spec fn enc(self) -> Seq<u8> {
        seq![self.len] + self.items@
    }

    open spec fn parses_to(b: Seq<u8>, m: Self) -> bool {
        &&& b.len() >= 1 + b[0]
        &&& m.len == b[0]
        &&& m.items@ == b.subrange(1, 1 + b[0])
    }

    open spec fn same(a: Self, b: Self) -> bool {
        a.len == b.len && a.items@ == b.items@
    }

    open spec fn parse_err(b: Seq<u8>) -> Option<FrameDecodeError> {
        if b.len() < 1 || b.len() < 1 + b[0] {
            Some(FrameDecodeError::BodyTooShort)
        } else {
            None
        }
    }

    fn to_bytes(&self) -> (r: Vec<u8>) {
        let mut v: Vec<u8> = vec![self.len];
        let mut items = self.items.clone();
        v.append(&mut items);
        proof {
            assert(v@ =~= self.enc());
        }
        v
    }

    fn parse(b: &[u8]) -> (r: Result<Self, FrameDecodeError>) {
        if b.len() < 1 {
            return Err(FrameDecodeError::BodyTooShort);
        }
        let n = b[0];
        if b.len() - 1 < n as usize {
            return Err(FrameDecodeError::BodyTooShort);
        }
        let items = read_vec(b, 1, n as usize);
        Ok(Data4Msg { len: n, items })
    }

    proof fn lemma_round_trip(self, m: Self) {
        assert(self.enc()[0] == self.len);
        assert(self.enc().subrange(1, 1 + self.len) =~= self.items@);
    }
}


/// The first data-dump query frame: body 79 fc 00 1c under control 0x01,\n/// message type 0x03, controller to hub.
pub fn build_data1_query(association_id: u8, request_id: u8) -> (r: Vec<u8>)
    ensures
        r@ == seq![0x0au8, 0x80, 0x7e, association_id, request_id, 0x01, 0x03, 0x79, 0xfc, 0x00, 0x1c],
{
    let mut v: Vec<u8> = vec![0x0a, 0x80, 0x7e, association_id, request_id, 0x01, 0x03, 0x79, 0xfc, 0x00, 0x1c];
    proof {
        assert(v@ =~= seq![0x0au8, 0x80, 0x7e, association_id, request_id, 0x01, 0x03, 0x79, 0xfc, 0x00, 0x1c]);
    }
    v
}
/// Query the first opaque data dump. Selects the entity's network, draws the next request
/// identifier, sends the query, and blocks until the matching reply arrives.
pub fn connect_data1<R: RFClient>(rf: &mut R, config: &mut Frisquet) -> (r: Result<
    (Metadata, Data1Msg),
    ConnectError,
>)
    ensures
        old(config).network_id is None ==> (r matches Err(e) && e.spec_kind()
            == ErrorKind::Configuration),
        old(config).association_id is None ==> r is Err,
        old(config).request_id is None ==> r is Err,
        final(config).network_id == old(config).network_id,
        final(config).association_id == old(config).association_id,
        final(config).request_id == old(config).request_id || (old(config).request_id matches Some(
            rid,
        ) && final(config).request_id == Some(next_request_id(rid))),
        r is Ok ==> old(config).request_id is Some && final(config).request_id == Some(
            next_request_id(old(config).request_id.unwrap()),
        ),
        r matches Err(e) ==> (e.spec_kind() == ErrorKind::Configuration
            ==> (old(config).network_id is None || old(config).association_id is None
            || old(config).request_id is None)),
        r matches Err(e) ==> ((e.spec_kind() == ErrorKind::Timeout || e.spec_kind()
            == ErrorKind::FrameDecode) ==> (old(config).request_id matches Some(rid)
            && final(config).request_id == Some(next_request_id(rid)))),
        r matches Ok((meta, msg)) ==> reply_ok(
            meta,
            msg,
            0x80,
            0x7e,
            old(config).association_id.unwrap(),
            next_request_id(old(config).request_id.unwrap()),
        ),
{
    let network_id = match config.network_id() {
        Ok(v) => v,
        Err(e) => {
            return Err(ConnectError::from_config(e));
        },
    };
    match rf.set_network_id(network_id) {
        Ok(_) => {},
        Err(m) => {
            return Err(ConnectError::with_kind(ErrorKind::Transport, m.as_str()));
        },
    }
    let association_id = match config.association_id() {
        Ok(v) => v,
        Err(e) => {
            return Err(ConnectError::from_config(e));
        },
    };
    let req_id = match config.next_req_id() {
        Ok(v) => v,
        Err(e) => {
            return Err(ConnectError::from_config(e));
        },
    };
    let frame = build_data1_query(association_id, req_id);
    match rf.send(frame) {
        Ok(_) => {},
        Err(e) => {
            return Err(ConnectError::from_send(e));
        },
    }
    wait_reply::<R, Data1Msg>(rf, 0x80, 0x7e, association_id, req_id)
}


/// The third data-dump query frame: body 7a 34 00 1c under control 0x01,\n/// message type 0x03, controller to hub.
pub fn build_data3_query(association_id: u8, request_id: u8) -> (r: Vec<u8>)
    ensures
        r@ == seq![0x0au8, 0x80, 0x7e, association_id, request_id, 0x01, 0x03, 0x7a, 0x34, 0x00, 0x1c],
{
    let mut v: Vec<u8> = vec![0x0a, 0x80, 0x7e, association_id, request_id, 0x01, 0x03, 0x7a, 0x34, 0x00, 0x1c];
    proof {
        assert(v@ =~= seq![0x0au8, 0x80, 0x7e, association_id, request_id, 0x01, 0x03, 0x7a, 0x34, 0x00, 0x1c]);
    }
    v
}
/// Query the third opaque data dump. Selects the entity's network, draws the next request
/// identifier, sends the query, and blocks until the matching reply arrives.
pub fn connect_data3<R: RFClient>(rf: &mut R, config: &mut Frisquet) -> (r: Result<
    (Metadata, Data3Msg),
    ConnectError,
>)
    ensures
        old(config).network_id is None ==> (r matches Err(e) && e.spec_kind()
            == ErrorKind::Configuration),
        old(config).association_id is None ==> r is Err,
        old(config).request_id is None ==> r is Err,
        final(config).network_id == old(config).network_id,
        final(config).association_id == old(config).association_id,
        final(config).request_id == old(config).request_id || (old(config).request_id matches Some(
            rid,
        ) && final(config).request_id == Some(next_request_id(rid))),
        r is Ok ==> old(config).request_id is Some && final(config).request_id == Some(
            next_request_id(old(config).request_id.unwrap()),
        ),
        r matches Err(e) ==> (e.spec_kind() == ErrorKind::Configuration
            ==> (old(config).network_id is None || old(config).association_id is None
            || old(config).request_id is None)),
        r matches Err(e) ==> ((e.spec_kind() == ErrorKind::Timeout || e.spec_kind()
            == ErrorKind::FrameDecode) ==> (old(config).request_id matches Some(rid)
            && final(config).request_id == Some(next_request_id(rid)))),
        r matches Ok((meta, msg)) ==> reply_ok(
            meta,
            msg,
            0x80,
            0x7e,
            old(config).association_id.unwrap(),
            next_request_id(old(config).request_id.unwrap()),
        ),
{
    let network_id = match config.network_id() {
        Ok(v) => v,
        Err(e) => {
            return Err(ConnectError::from_config(e));
        },
    };
    match rf.set_network_id(network_id) {
        Ok(_) => {},
        Err(m) => {
            return Err(ConnectError::with_kind(ErrorKind::Transport, m.as_str()));
        },
    }
    let association_id = match config.association_id() {
        Ok(v) => v,
        Err(e) => {
            return Err(ConnectError::from_config(e));
        },
    };
    let req_id = match config.next_req_id() {
        Ok(v) => v,
        Err(e) => {
            return Err(ConnectError::from_config(e));
        },
    };
    let frame = build_data3_query(association_id, req_id);
    match rf.send(frame) {
        Ok(_) => {},
        Err(e) => {
            return Err(ConnectError::from_send(e));
        },
    }
    wait_reply::<R, Data3Msg>(rf, 0x80, 0x7e, association_id, req_id)
}


/// The fourth data-dump query frame: its eleven-byte body under control\n/// 0x01, message type 0x17, controller to hub.
pub fn build_data4_query(association_id: u8, request_id: u8) -> (r: Vec<u8>)
    ensures
        r@ == seq![0x11u8, 0x80, 0x7e, association_id, request_id, 0x01, 0x17, 0xa0, 0xf0, 0x00, 0x15, 0x9c, 0x40, 0x00, 0x01, 0x02, 0x00, 0x00],
{
    let mut v: Vec<u8> = vec![0x11, 0x80, 0x7e, association_id, request_id, 0x01, 0x17, 0xa0, 0xf0, 0x00, 0x15, 0x9c, 0x40, 0x00, 0x01, 0x02, 0x00, 0x00];
    proof {
        assert(v@ =~= seq![0x11u8, 0x80, 0x7e, association_id, request_id, 0x01, 0x17, 0xa0, 0xf0, 0x00, 0x15, 0x9c, 0x40, 0x00, 0x01, 0x02, 0x00, 0x00]);
    }
    v
}
/// Query the fourth opaque data dump. Selects the entity's network, draws the next request
/// identifier, sends the query, and blocks until the matching reply arrives.
pub fn connect_data4<R: RFClient>(rf: &mut R, config: &mut Frisquet) -> (r: Result<
    (Metadata, Data4Msg),
    ConnectError,
>)
    ensures
        old(config).network_id is None ==> (r matches Err(e) && e.spec_kind()
            == ErrorKind::Configuration),
        old(config).association_id is None ==> r is Err,
        old(config).request_id is None ==> r is Err,
        final(config).network_id == old(config).network_id,
        final(config).association_id == old(config).association_id,
        final(config).request_id == old(config).request_id || (old(config).request_id matches Some(
            rid,
        ) && final(config).request_id == Some(next_request_id(rid))),
        r is Ok ==> old(config).request_id is Some && final(config).request_id == Some(
            next_request_id(old(config).request_id.unwrap()),
        ),
        r matches Err(e) ==> (e.spec_kind() == ErrorKind::Configuration
            ==> (old(config).network_id is None || old(config).association_id is None
            || old(config).request_id is None)),
        r matches Err(e) ==> ((e.spec_kind() == ErrorKind::Timeout || e.spec_kind()
            == ErrorKind::FrameDecode) ==> (old(config).request_id matches Some(rid)
            && final(config).request_id == Some(next_request_id(rid)))),
        r matches Ok((meta, msg)) ==> reply_ok(
            meta,
            msg,
            0x80,
            0x7e,
            old(config).association_id.unwrap(),
            next_request_id(old(config).request_id.unwrap()),
        ),
{
    let network_id = match config.network_id() {
        Ok(v) => v,
        Err(e) => {
            return Err(ConnectError::from_config(e));
        },
    };
    match rf.set_network_id(network_id) {
        Ok(_) => {},
        Err(m) => {
            return Err(ConnectError::with_kind(ErrorKind::Transport, m.as_str()));
        },
    }
    let association_id = match config.association_id() {
        Ok(v) => v,
        Err(e) => {
            return Err(ConnectError::from_config(e));
        },
    };
    let req_id = match config.next_req_id() {
        Ok(v) => v,
        Err(e) => {
            return Err(ConnectError::from_config(e));
        },
    };
    let frame = build_data4_query(association_id, req_id);
    match rf.send(frame) {
        Ok(_) => {},
        Err(e) => {
            return Err(ConnectError::from_send(e));
        },
    }
    wait_reply::<R, Data4Msg>(rf, 0x80, 0x7e, association_id, req_id)
}

} // verus!
