//! A scripted transport for exercising the protocol engine without a radio:
//! it replays a fixed list of hex-encoded frames and records what is sent.

use vstd::prelude::*;

use crate::hexstr::hex_decode;
use crate::rf::{RFClient, RecvError, RecvTimeoutError, SendError};

verus! {

/// A transport double: `recv` pops the next scripted reply (last element
/// first), `send` records the payload, and a bounded wait on an exhausted
/// script times out.
pub struct TestClient {
    replies: Vec<String>,
    sent: Vec<Vec<u8>>,
}

impl TestClient {
    /// The scripted replies still pending, in pop order (last first).
    pub closed spec fn spec_replies(self) -> Seq<Seq<char>> {
        self.replies.deep_view()
    }

    /// Everything sent so far, oldest first.
    pub closed spec fn spec_sent(self) -> Seq<Seq<u8>> {
        self.sent.deep_view()
    }

    pub fn new(replies: Vec<String>) -> (r: TestClient)
        ensures
            r.spec_replies() == replies.deep_view(),
            r.spec_sent() == Seq::<Seq<u8>>::empty(),
    {
        let r = TestClient { replies, sent: Vec::new() };
        proof {
            assert(r.sent.deep_view() =~= Seq::<Seq<u8>>::empty());
        }
        r
    }

    /// The payloads sent so far, oldest first.
    pub fn sent(&self) -> (r: &Vec<Vec<u8>>)
        ensures
            r.deep_view() == self.spec_sent(),
    {
        &self.sent
    }

    fn try_recv(&mut self) -> (r: Result<Option<Vec<u8>>, String>)
        ensures
            final(self).spec_sent() == old(self).spec_sent(),
            old(self).spec_replies().len() == 0 ==> r matches Ok(None),
    {
        match self.replies.pop() {
            None => Ok(None),
            Some(m) => match hex_decode(m.as_str()) {
                Ok(data) => Ok(Some(data)),
                Err(_) => Err(String::from_str("scripted reply is not hex")),
            },
        }
    }
}

impl RFClient for TestClient {
    fn set_network_id(&mut self, network_id: Vec<u8>) -> Result<(), String> {
        Ok(())
    }

    fn recv(&mut self) -> Result<Vec<u8>, RecvError> {
        match self.try_recv() {
            Ok(Some(data)) => Ok(data),
            Ok(None) => Err(RecvError::new("no more scripted replies")),
            Err(m) => Err(RecvError::new(m.as_str())),
        }
    }

    fn recv_timeout(&mut self, timeout_ms: u64) -> Result<Vec<u8>, RecvTimeoutError> {
        match self.try_recv() {
            Ok(Some(data)) => Ok(data),
            Ok(None) => Err(RecvTimeoutError::Timeout),
            Err(msg) => Err(RecvTimeoutError::Error { msg }),
        }
    }

    fn send(&mut self, payload: Vec<u8>) -> Result<(), SendError> {
        self.sent.push(payload);
        Ok(())
    }

    fn sleep(&mut self) -> Result<(), String> {
        Ok(())
    }
}

} // verus!
