//! The transport abstraction: a blocking radio client that can select a
//! network identifier, send one frame, and receive frames with or without a
//! timeout. Concrete transports (a serial adapter, an MQTT adapter) live
//! outside the library; [`test::TestClient`] is the in-library double.

use vstd::prelude::*;

pub mod test;

verus! {

/// A receive failure on the transport link.
#[derive(PartialEq, Eq, Clone, Debug)]
pub struct RecvError {
    msg: String,
}

impl RecvError {
    /// The failure text.
    pub closed spec fn spec_message(self) -> Seq<char> {
        self.msg@
    }

    pub fn new(msg: &str) -> (r: RecvError)
        ensures
            r.spec_message() == msg@,
    {
        RecvError { msg: String::from_str(msg) }
    }

    /// The failure text, for diagnostics.
    pub fn message(&self) -> (r: String)
        ensures
            r@ == self.spec_message(),
    {
        self.msg.clone()
    }
}

/// A receive failure on a bounded wait: either the bound elapsed with
/// nothing received, or the link itself failed.
#[derive(PartialEq, Eq, Clone, Debug)]
pub enum RecvTimeoutError {
    Timeout,
    Error { msg: String },
}

impl RecvTimeoutError {
    /// Returns `true` if the receive operation timed out.
    pub fn is_timeout(&self) -> (r: bool)
        ensures
            r == (self is Timeout),
    {
        match self {
            RecvTimeoutError::Timeout => true,
            _ => false,
        }
    }

    /// The failure text, for diagnostics.
    pub fn message(&self) -> (r: String)
        ensures
            self matches RecvTimeoutError::Error { msg } ==> r@ == msg@,
    {
        match self {
            RecvTimeoutError::Timeout => String::from_str("timed out waiting on receive operation"),
            RecvTimeoutError::Error { msg } => msg.clone(),
        }
    }
}

/// A send failure on the transport link.
#[derive(PartialEq, Eq, Clone, Debug)]
pub struct SendError {
    msg: String,
}

impl SendError {
    /// The failure text.
    pub closed spec fn spec_message(self) -> Seq<char> {
        self.msg@
    }

    pub fn new(msg: &str) -> (r: SendError)
        ensures
            r.spec_message() == msg@,
    {
        SendError { msg: String::from_str(msg) }
    }

    /// The failure text, for diagnostics.
    pub fn message(&self) -> (r: String)
        ensures
            r@ == self.spec_message(),
    {
        self.msg.clone()
    }
}

/// A blocking radio transport. The library promises nothing about what a
/// transport returns: every caller states what holds of its own result
/// whatever bytes come back.
pub trait RFClient {
    /// Select the network identifier that subsequent traffic uses.
    fn set_network_id(&mut self, network_id: Vec<u8>) -> Result<(), String>;

    /// Block until one frame arrives.
    fn recv(&mut self) -> Result<Vec<u8>, RecvError>;

    /// Block until one frame arrives or `timeout_ms` milliseconds elapse.
    fn recv_timeout(&mut self, timeout_ms: u64) -> Result<Vec<u8>, RecvTimeoutError>;

    /// Send one frame.
    fn send(&mut self, payload: Vec<u8>) -> Result<(), SendError>;

    /// Put the radio in low-power mode.
    fn sleep(&mut self) -> Result<(), String>;
}

} // verus!
