//! Errors of the external-temperature source. The source itself (an HTTP
//! call into a home-automation service, returning a floating-point reading)
//! is an external collaborator and lives outside the library.

use vstd::prelude::*;

verus! {

/// A failure to obtain the external temperature.
#[derive(PartialEq, Eq, Clone, Debug)]
pub struct ExternalTemperatureErr {
    msg: String,
}

impl ExternalTemperatureErr {
    pub fn new(msg: &str) -> (r: ExternalTemperatureErr)
        ensures
            r.spec_message() == msg@,
    {
        ExternalTemperatureErr { msg: String::from_str(msg) }
    }

    /// The failure text.
    pub closed spec fn spec_message(self) -> Seq<char> {
        self.msg@
    }

    /// The failure text, for diagnostics.
    pub fn message(&self) -> (r: String)
        ensures
            r@ == self.spec_message(),
    {
        self.msg.clone()
    }
}

} // verus!
