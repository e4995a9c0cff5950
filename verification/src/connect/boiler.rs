//! The boiler status message as seen by the passive decoder: an echoed
//! command pair, a length byte, and an opaque tail.

use vstd::prelude::*;

use crate::connect::{Assert, Body, FrameDecodeError};
use crate::wire::read_arr;

verus! {

/// A boiler status record: the command bytes appear twice and must match,
/// then the length byte, then forty-two bytes not decoded further.
#[derive(Debug, PartialEq, Eq, Clone, Copy)]
pub struct BoilerMsg {
    pub cmd: [u8; 4],
    pub cmd2: [u8; 4],
    pub len: u8,
    pub unknown: [u8; 42],
}

impl Assert for BoilerMsg {
    /// The echoed command bytes must match, and the length byte must state
    /// the record's size.
    open spec fn asserted(self) -> bool {
        self.cmd == self.cmd2 && self.len == 0x2a
    }

    fn check(&self) -> (r: bool) {
        let eq = self.cmd[0] == self.cmd2[0] && self.cmd[1] == self.cmd2[1] && self.cmd[2]
            == self.cmd2[2] && self.cmd[3] == self.cmd2[3];
        proof {
            if eq {
                assert(self.cmd =~= self.cmd2);
            }
        }
        eq && self.len == 0x2a
    }
}

impl Body for BoilerMsg {
    open spec fn wf(self) -> bool {
        true
    }

    open spec fn enc(self) -> Seq<u8> {
        self.cmd@ + self.cmd2@ + seq![self.len] + self.unknown@
    }

    open spec fn parses_to(b: Seq<u8>, m: Self) -> bool {
        &&& b.len() >= 51
        &&& m.cmd@ == b.subrange(0, 4)
        &&& m.cmd2@ == b.subrange(4, 8)
        &&& m.len == b[8]
        &&& m.unknown@ == b.subrange(9, 51)
    }

    open spec fn same(a: Self, b: Self) -> bool {
        a == b
    }

    open spec fn parse_err(b: Seq<u8>) -> Option<FrameDecodeError> {
        if b.len() < 51 {
            Some(FrameDecodeError::BodyTooShort)
        } else if !(b.subrange(0, 4) =~= b.subrange(4, 8) && b[8] == 0x2a) {
            Some(FrameDecodeError::AssertFailed)
        } else {
            None
        }
    }

    fn to_bytes(&self) -> (r: Vec<u8>) {
        let mut v: Vec<u8> = vec![self.cmd[0], self.cmd[1], self.cmd[2], self.cmd[3]];
        let mut v2: Vec<u8> = vec![self.cmd2[0], self.cmd2[1], self.cmd2[2], self.cmd2[3]];
        v.append(&mut v2);
        v.push(self.len);
        let mut i: usize = 0;
        while i < 42
            invariant
                i <= 42,
                v@.len() == 9 + i,
                v@ =~= self.cmd@ + self.cmd2@ + seq![self.len] + self.unknown@.subrange(0, i as int),
            decreases 42 - i,
        {
            v.push(self.unknown[i]);
            i += 1;
        }
        proof {
            assert(v@ =~= self.enc());
        }
        v
    }

    fn parse(b: &[u8]) -> (r: Result<Self, FrameDecodeError>) {
        if b.len() < 51 {
            return Err(FrameDecodeError::BodyTooShort);
        }
        let m = BoilerMsg {
            cmd: read_arr::<4>(b, 0),
            cmd2: read_arr::<4>(b, 4),
            len: b[8],
            unknown: read_arr::<42>(b, 9),
        };
        if !m.check() {
            proof {
                if b@.subrange(0, 4) =~= b@.subrange(4, 8) && b@[8] == 0x2a {
                    assert(m.cmd =~= m.cmd2);
                }
            }
            return Err(FrameDecodeError::AssertFailed);
        }
        proof {
            if !(b@.subrange(0, 4) =~= b@.subrange(4, 8) && b@[8] == 0x2a) {
                if b@.subrange(0, 4) == m.cmd@ && b@.subrange(4, 8) == m.cmd2@ {
                    assert(m.cmd@ != m.cmd2@ || m.len != 0x2a);
                }
            }
        }
        Ok(m)
    }

    proof fn lemma_round_trip(self, m: Self) {
        let e = self.enc();
        assert(e.subrange(0, 4) =~= self.cmd@);
        assert(e.subrange(4, 8) =~= self.cmd2@);
        assert(e[8] == self.len);
        assert(e.subrange(9, 51) =~= self.unknown@);
        if Self::parses_to(e, m) {
            assert(m.cmd =~= self.cmd);
            assert(m.cmd2 =~= self.cmd2);
            assert(m.unknown =~= self.unknown);
        }
    }
}

} // verus!
