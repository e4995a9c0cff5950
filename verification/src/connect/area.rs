//! The area (zone) programme message: an echoed command pair, the three
//! setpoint bytes, the mode selector, one bit-packed flag byte, and the
//! seven half-hour schedule masks, one per day.

use vstd::prelude::*;

use crate::bcd_value;

use crate::config::{
    comfort_covers, mask_bit, mask_matches, mode_code, next_request_id, override_code,
    prog_all_valid, setpoint_byte, Area, ConfigError, Frisquet, Prog,
};
use crate::connect::date::{connect_date, DateMsg};
use crate::connect::{
    send_cmd, wait_reply_timeout, Assert, Body, ConnectError, DropMsg, ErrorKind, FrameDecodeError,
    Metadata, MAX_RECV_FRAMES,
};
use crate::rf::RFClient;
use crate::wire::read_arr;

verus! {

/// Whether some entry of a programme is a comfort entry covering a slot.
pub open spec fn comfort_scheduled(prog: Seq<Prog>, slot: int) -> bool {
    exists|i: int| 0 <= i < prog.len() && comfort_covers(#[trigger] prog[i], slot)
}

/// The programme of a weekday, 1 Monday through 7 Sunday.
pub open spec fn day_prog(a: Area, weekday: u8) -> Seq<Prog> {
    if weekday == 1 {
        a.monday@
    } else if weekday == 2 {
        a.tuesday@
    } else if weekday == 3 {
        a.wednesday@
    } else if weekday == 4 {
        a.thursday@
    } else if weekday == 5 {
        a.friday@
    } else if weekday == 6 {
        a.saturday@
    } else if weekday == 7 {
        a.sunday@
    } else {
        Seq::empty()
    }
}

/// A fully valid area configuration: three setpoints on the half-degree
/// grid, known mode and override names, and well-formed programmes for all
/// seven days.
pub open spec fn area_valid(a: Area) -> bool {
    &&& setpoint_byte(a.comfort as int) is Some
    &&& setpoint_byte(a.reduced as int) is Some
    &&& setpoint_byte(a.frost as int) is Some
    &&& mode_code(a.mode@) is Some
    &&& override_code(a.override_mode@) is Some
    &&& prog_all_valid(a.monday@)
    &&& prog_all_valid(a.tuesday@)
    &&& prog_all_valid(a.wednesday@)
    &&& prog_all_valid(a.thursday@)
    &&& prog_all_valid(a.friday@)
    &&& prog_all_valid(a.saturday@)
    &&& prog_all_valid(a.sunday@)
}

/// The value of a flag bit.
pub open spec fn flag_bit(v: bool) -> u8 {
    if v {
        1
    } else {
        0
    }
}

/// The programme frame for one heating area. Setpoint bytes are the
/// temperature in tenths of a degree minus fifty; each day's schedule is a
/// 48-bit mask of half-hour comfort slots.
#[derive(Debug, PartialEq, Eq, Clone, Copy)]
pub struct AreaMsg {
    pub cmd: [u8; 4],
    pub cmd2: [u8; 4],
    pub len: u8,
    pub temp_comfort: u8,
    pub temp_reduced: u8,
    pub temp_frost: u8,
    pub mode: u8,
    pub unknow_mode: bool,
    pub boost: bool,
    pub unknown_mode2: u8,
    pub unknown_mode3: u8,
    pub derogation: bool,
    pub confort: bool,
    pub unknown_data: u8,
    pub sunday: [u8; 6],
    pub monday: [u8; 6],
    pub tuesday: [u8; 6],
    pub wednesday: [u8; 6],
    pub thursday: [u8; 6],
    pub friday: [u8; 6],
    pub saturday: [u8; 6],
}

impl AreaMsg {
    /// The bit-packed flag byte, highest bit first: the unknown mode flag,
    /// boost, two reserved two-bit fields, derogation, comfort.
    pub open spec fn flags_byte(self) -> u8 {
        (flag_bit(self.unknow_mode) << 7) | (flag_bit(self.boost) << 6) | (self.unknown_mode2
            << 4) | (self.unknown_mode3 << 2) | (flag_bit(self.derogation) << 1) | flag_bit(
            self.confort,
        )
    }
}

/// Unpacking the packed flag byte recovers each flag.
proof fn lemma_flags_round(un: u8, bo: u8, um2: u8, um3: u8, de: u8, co: u8)
    requires
        un <= 1,
        bo <= 1,
        um2 <= 3,
        um3 <= 3,
        de <= 1,
        co <= 1,
    ensures
        ((un << 7) | (bo << 6) | (um2 << 4) | (um3 << 2) | (de << 1) | co) & 0x80 == un << 7,
        ((un << 7) | (bo << 6) | (um2 << 4) | (um3 << 2) | (de << 1) | co) & 0x40 == bo << 6,
        (((un << 7) | (bo << 6) | (um2 << 4) | (um3 << 2) | (de << 1) | co) >> 4) & 3 == um2,
        (((un << 7) | (bo << 6) | (um2 << 4) | (um3 << 2) | (de << 1) | co) >> 2) & 3 == um3,
        ((un << 7) | (bo << 6) | (um2 << 4) | (um3 << 2) | (de << 1) | co) & 2 == de << 1,
        ((un << 7) | (bo << 6) | (um2 << 4) | (um3 << 2) | (de << 1) | co) & 1 == co,
        un << 7 == 0 <==> un == 0,
        bo << 6 == 0 <==> bo == 0,
        de << 1 == 0 <==> de == 0,
{
    assert(un <= 1 && bo <= 1 && um2 <= 3 && um3 <= 3 && de <= 1 && co <= 1 ==> ((un << 7) | (bo
        << 6) | (um2 << 4) | (um3 << 2) | (de << 1) | co) & 0x80 == un << 7 && ((un << 7) | (bo
        << 6) | (um2 << 4) | (um3 << 2) | (de << 1) | co) & 0x40 == bo << 6 && (((un << 7) | (bo
        << 6) | (um2 << 4) | (um3 << 2) | (de << 1) | co) >> 4) & 3 == um2 && (((un << 7) | (bo
        << 6) | (um2 << 4) | (um3 << 2) | (de << 1) | co) >> 2) & 3 == um3 && ((un << 7) | (bo
        << 6) | (um2 << 4) | (um3 << 2) | (de << 1) | co) & 2 == de << 1 && ((un << 7) | (bo
        << 6) | (um2 << 4) | (um3 << 2) | (de << 1) | co) & 1 == co && (un << 7 == 0 <==> un == 0)
        && (bo << 6 == 0 <==> bo == 0) && (de << 1 == 0 <==> de == 0)) by (bit_vector);
}

impl Assert for AreaMsg {
    /// The echoed command bytes must match, and the length byte must state
    /// the programme's size.
    open spec fn asserted(self) -> bool {
        self.cmd == self.cmd2 && self.len == 0x30
    }

    fn check(&self) -> (r: bool) {
        let eq = self.cmd[0] == self.cmd2[0] && self.cmd[1] == self.cmd2[1] && self.cmd[2]
            == self.cmd2[2] && self.cmd[3] == self.cmd2[3];
        proof {
            if eq {
                assert(self.cmd =~= self.cmd2);
            }
        }
        eq && self.len == 0x30
    }
}

impl Body for AreaMsg {
    /// The two reserved fields fit their two bits.
    open spec fn wf(self) -> bool {
        self.unknown_mode2 <= 3 && self.unknown_mode3 <= 3
    }

    open spec fn enc(self) -> Seq<u8> {
        self.cmd@ + self.cmd2@ + seq![
            self.len,
            self.temp_comfort,
            self.temp_reduced,
            self.temp_frost,
            self.mode,
            self.flags_byte(),
            self.unknown_data,
        ] + self.sunday@ + self.monday@ + self.tuesday@ + self.wednesday@ + self.thursday@
            + self.friday@ + self.saturday@
    }

    open spec fn parses_to(b: Seq<u8>, m: Self) -> bool {
        &&& b.len() >= 57
        &&& m.cmd@ == b.subrange(0, 4)
        &&& m.cmd2@ == b.subrange(4, 8)
        &&& m.len == b[8]
        &&& m.temp_comfort == b[9]
        &&& m.temp_reduced == b[10]
        &&& m.temp_frost == b[11]
        &&& m.mode == b[12]
        &&& m.unknow_mode == (b[13] & 0x80 != 0)
        &&& m.boost == (b[13] & 0x40 != 0)
        &&& m.unknown_mode2 == (b[13] >> 4) & 3
        &&& m.unknown_mode3 == (b[13] >> 2) & 3
        &&& m.derogation == (b[13] & 2 != 0)
        &&& m.confort == (b[13] & 1 != 0)
        &&& m.unknown_data == b[14]
        &&& m.sunday@ == b.subrange(15, 21)
        &&& m.monday@ == b.subrange(21, 27)
        &&& m.tuesday@ == b.subrange(27, 33)
        &&& m.wednesday@ == b.subrange(33, 39)
        &&& m.thursday@ == b.subrange(39, 45)
        &&& m.friday@ == b.subrange(45, 51)
        &&& m.saturday@ == b.subrange(51, 57)
    }

    open spec fn same(a: Self, b: Self) -> bool {
        a == b
    }

    open spec fn parse_err(b: Seq<u8>) -> Option<FrameDecodeError> {
        if b.len() < 57 {
            Some(FrameDecodeError::BodyTooShort)
        } else if !(b.subrange(0, 4) =~= b.subrange(4, 8) && b[8] == 0x30) {
            Some(FrameDecodeError::AssertFailed)
        } else {
            None
        }
    }

    fn to_bytes(&self) -> (r: Vec<u8>) {
        let un = if self.unknow_mode {
            1u8
        } else {
            0u8
        };
        let bo = if self.boost {
            1u8
        } else {
            0u8
        };
        let de = if self.derogation {
            1u8
        } else {
            0u8
        };
        let co = if self.confort {
            1u8
        } else {
            0u8
        };
        let um2 = self.unknown_mode2;
        let um3 = self.unknown_mode3;
        let flags: u8 = (un << 7) | (bo << 6) | (um2 << 4) | (um3 << 2) | (de << 1) | co;
        proof {
            assert(flags == self.flags_byte());
        }
        let mut v: Vec<u8> = vec![
            self.cmd[0],
            self.cmd[1],
            self.cmd[2],
            self.cmd[3],
            self.cmd2[0],
            self.cmd2[1],
            self.cmd2[2],
            self.cmd2[3],
            self.len,
            self.temp_comfort,
            self.temp_reduced,
            self.temp_frost,
            self.mode,
            flags,
            self.unknown_data,
            self.sunday[0],
            self.sunday[1],
            self.sunday[2],
            self.sunday[3],
            self.sunday[4],
            self.sunday[5],
            self.monday[0],
            self.monday[1],
            self.monday[2],
            self.monday[3],
            self.monday[4],
            self.monday[5],
            self.tuesday[0],
            self.tuesday[1],
            self.tuesday[2],
            self.tuesday[3],
            self.tuesday[4],
            self.tuesday[5],
            self.wednesday[0],
            self.wednesday[1],
            self.wednesday[2],
            self.wednesday[3],
            self.wednesday[4],
            self.wednesday[5],
            self.thursday[0],
            self.thursday[1],
            self.thursday[2],
            self.thursday[3],
            self.thursday[4],
            self.thursday[5],
            self.friday[0],
            self.friday[1],
            self.friday[2],
            self.friday[3],
            self.friday[4],
            self.friday[5],
            self.saturday[0],
            self.saturday[1],
            self.saturday[2],
            self.saturday[3],
            self.saturday[4],
            self.saturday[5],
        ];
        proof {
            assert(v@ =~= self.enc());
        }
        v
    }

    fn parse(b: &[u8]) -> (r: Result<Self, FrameDecodeError>) {
        if b.len() < 57 {
            return Err(FrameDecodeError::BodyTooShort);
        }
        let fl = b[13];
        proof {
            assert((fl >> 4) & 3 <= 3 && (fl >> 2) & 3 <= 3) by (bit_vector);
        }
        let m = AreaMsg {
            cmd: read_arr::<4>(b, 0),
            cmd2: read_arr::<4>(b, 4),
            len: b[8],
            temp_comfort: b[9],
            temp_reduced: b[10],
            temp_frost: b[11],
            mode: b[12],
            unknow_mode: fl & 0x80 != 0,
            boost: fl & 0x40 != 0,
            unknown_mode2: (fl >> 4) & 3,
            unknown_mode3: (fl >> 2) & 3,
            derogation: fl & 2 != 0,
            confort: fl & 1 != 0,
            unknown_data: b[14],
            sunday: read_arr::<6>(b, 15),
            monday: read_arr::<6>(b, 21),
            tuesday: read_arr::<6>(b, 27),
            wednesday: read_arr::<6>(b, 33),
            thursday: read_arr::<6>(b, 39),
            friday: read_arr::<6>(b, 45),
            saturday: read_arr::<6>(b, 51),
        };
        if !m.check() {
            proof {
                if b@.subrange(0, 4) =~= b@.subrange(4, 8) && b@[8] == 0x30 {
                    assert(m.cmd =~= m.cmd2);
                }
            }
            return Err(FrameDecodeError::AssertFailed);
        }
        proof {
            if !(b@.subrange(0, 4) =~= b@.subrange(4, 8) && b@[8] == 0x30) {
                if b@.subrange(0, 4) == m.cmd@ && b@.subrange(4, 8) == m.cmd2@ {
                    assert(m.cmd@ != m.cmd2@ || m.len != 0x30);
                }
            }
        }
        Ok(m)
    }

    proof fn lemma_round_trip(self, m: Self) {
        let e = self.enc();
        assert(e.subrange(0, 4) =~= self.cmd@);
        assert(e.subrange(4, 8) =~= self.cmd2@);
        assert(e.subrange(15, 21) =~= self.sunday@);
        assert(e.subrange(21, 27) =~= self.monday@);
        assert(e.subrange(27, 33) =~= self.tuesday@);
        assert(e.subrange(33, 39) =~= self.wednesday@);
        assert(e.subrange(39, 45) =~= self.thursday@);
        assert(e.subrange(45, 51) =~= self.friday@);
        assert(e.subrange(51, 57) =~= self.saturday@);
        lemma_flags_round(
            flag_bit(self.unknow_mode),
            flag_bit(self.boost),
            self.unknown_mode2,
            self.unknown_mode3,
            flag_bit(self.derogation),
            flag_bit(self.confort),
        );
        if Self::parses_to(e, m) {
            assert(m.cmd =~= self.cmd);
            assert(m.cmd2 =~= self.cmd2);
            assert(m.sunday =~= self.sunday);
            assert(m.monday =~= self.monday);
            assert(m.tuesday =~= self.tuesday);
            assert(m.wednesday =~= self.wednesday);
            assert(m.thursday =~= self.thursday);
            assert(m.friday =~= self.friday);
            assert(m.saturday =~= self.saturday);
        }
    }
}

/// One step of the area-write retry policy, from (retry count, request
/// identifier in use, the entity's canonical counter): a timeout bumps the
/// request identifier by one; the third consecutive timeout abandons the
/// bumped identifier, draws the entity's next canonical identifier, and
/// resets the count.
pub open spec fn retry_step_spec(retry: u8, req_id: u8, counter: u8) -> (u8, u8, u8) {
    if retry + 1 == 3 {
        (0u8, next_request_id(counter), next_request_id(counter))
    } else {
        ((retry + 1) as u8, ((req_id + 1) % 256) as u8, counter)
    }
}

/// After three consecutive timeouts, the fourth attempt uses the entity's
/// next canonical request identifier — not the timed-out identifier plus
/// four.
pub proof fn lemma_retry_resets_to_canonical(r0: u8, c0: u8)
    ensures
        ({
            let (a1, q1, c1) = retry_step_spec(0, r0, c0);
            let (a2, q2, c2) = retry_step_spec(a1, q1, c1);
            let (a3, q3, c3) = retry_step_spec(a2, q2, c2);
            a3 == 0 && q3 == next_request_id(c0) && c3 == next_request_id(c0)
        }),
{
}

/// Apply one retry step to the live counter, returning the new retry count
/// and the request identifier for the next attempt.
pub fn retry_step(retry: u8, req_id: u8, config: &mut Frisquet) -> (r: Result<
    (u8, u8),
    ConfigError,
>)
    requires
        retry < 3,
        old(config).request_id is Some,
    ensures
        r matches Ok((retry2, req2)) ==> {
            let (sr, sq, sc) = retry_step_spec(retry, req_id, old(config).request_id.unwrap());
            retry2 == sr && req2 == sq && final(config).request_id == Some(sc)
        },
        r is Ok,
        final(config).network_id == old(config).network_id,
        final(config).association_id == old(config).association_id,
        final(config).send_init == old(config).send_init,
{
    let retry2 = retry + 1;
    let req2 = req_id.wrapping_add(1);
    if retry2 == 3 {
        match config.next_req_id() {
            Ok(fresh) => Ok((0, fresh)),
            Err(e) => Err(e),
        }
    } else {
        Ok((retry2, req2))
    }
}

/// Whether a half-hour slot is marked comfort in a day's mask.
pub fn slot_active(mask: &[u8; 6], slot: u8) -> (r: bool)
    requires
        slot < 48,
    ensures
        r == mask_bit(mask@, slot as int),
{
    (mask[(slot / 8) as usize] >> (slot % 8)) & 1 == 1
}


/// Whether comfort is active at the boiler's clock: in auto mode, the bit of
/// the current half-hour slot in the clock's weekday programme; otherwise,
/// whether the selector is pinned to comfort. A clock outside the slot or
/// weekday range is a decode-level error; an invalid mode name or programme
/// is a configuration error.
pub fn resolve_current_mode(area: &Area, date: &DateMsg) -> (r: Result<bool, ConnectError>)
    ensures
        mode_code(area.mode@) is None ==> (r matches Err(e) && e.spec_kind()
            == ErrorKind::Configuration),
        mode_code(area.mode@) is Some && mode_code(area.mode@) != Some(5u8) ==> r == Ok::<
            bool,
            ConnectError,
        >(mode_code(area.mode@) == Some(6u8)),
        mode_code(area.mode@) == Some(5u8) ==> {
            let slot = bcd_value(date.hour) * 2 + bcd_value(date.minute) / 30;
            let wd = date.weekday;
            if slot >= 48 || wd < 1 || wd > 7 {
                r matches Err(e) && e.spec_kind() == ErrorKind::FrameDecode
            } else if !prog_all_valid(day_prog(*area, wd)) {
                r matches Err(e) && e.spec_kind() == ErrorKind::Configuration
            } else {
                r == Ok::<bool, ConnectError>(comfort_scheduled(day_prog(*area, wd), slot as int))
            }
        },
{
    let auto = match area.mode_is_auto() {
        Ok(v) => v,
        Err(e) => {
            return Err(ConnectError::from_config(e));
        },
    };
    if !auto {
        return match area.mode_is_comfort() {
            Ok(v) => Ok(v),
            Err(e) => Err(ConnectError::from_config(e)),
        };
    }
    let hour = date.hour();
    let minute = date.minute();
    let slot_wide: u32 = (hour as u32) * 2 + (minute as u32) / 30;
    let day = date.weekday();
    if slot_wide >= 48 || day < 1 || day > 7 {
        return Err(
            ConnectError::with_kind(ErrorKind::FrameDecode, "clock out of range in date reply"),
        );
    }
    let slot: u8 = slot_wide as u8;
    let mask = if day == 1 {
        area.monday()
    } else if day == 2 {
        area.tuesday()
    } else if day == 3 {
        area.wednesday()
    } else if day == 4 {
        area.thursday()
    } else if day == 5 {
        area.friday()
    } else if day == 6 {
        area.saturday()
    } else {
        area.sunday()
    };
    let mask = match mask {
        Ok(m) => m,
        Err(e) => {
            return Err(ConnectError::from_config(e));
        },
    };
    Ok(slot_active(&mask, slot))
}

/// Assemble the programme frame body for one area: the fixed command pair
/// and length, the three setpoint bytes, the mode code, the flag bits (an
/// override forces the comfort flag and sets derogation; otherwise the
/// current slot's state stands), and the seven day masks. Succeeds exactly
/// on a fully valid area configuration.
pub fn build_area_msg(area: &Area, curr_mode: bool) -> (r: Result<AreaMsg, ConfigError>)
    ensures
        r is Ok <==> area_valid(*area),
        r matches Ok(m) ==> {
            &&& m.cmd@ == seq![0xa1u8, 0x54, 0x00, 0x18]
            &&& m.cmd2@ == seq![0xa1u8, 0x54, 0x00, 0x18]
            &&& m.len == 0x30
            &&& setpoint_byte(area.comfort as int) == Some(m.temp_comfort)
            &&& setpoint_byte(area.reduced as int) == Some(m.temp_reduced)
            &&& setpoint_byte(area.frost as int) == Some(m.temp_frost)
            &&& mode_code(area.mode@) == Some(m.mode)
            &&& m.unknow_mode == false
            &&& m.boost == area.boost
            &&& m.unknown_mode2 == 0
            &&& m.unknown_mode3 == 1
            &&& (override_code(area.override_mode@) matches Some(o) && m.derogation == (o is Some)
                && m.confort == (match o {
                Option::Some(v) => v,
                Option::None => curr_mode,
            }))
            &&& m.unknown_data == 0
            &&& mask_matches(area.sunday@, m.sunday@)
            &&& mask_matches(area.monday@, m.monday@)
            &&& mask_matches(area.tuesday@, m.tuesday@)
            &&& mask_matches(area.wednesday@, m.wednesday@)
            &&& mask_matches(area.thursday@, m.thursday@)
            &&& mask_matches(area.friday@, m.friday@)
            &&& mask_matches(area.saturday@, m.saturday@)
            &&& m.wf()
            &&& m.asserted()
        },
{
    let temp_comfort = match area.comfort() {
        Ok(v) => v,
        Err(e) => {
            return Err(e);
        },
    };
    let temp_reduced = match area.reduced() {
        Ok(v) => v,
        Err(e) => {
            return Err(e);
        },
    };
    let temp_frost = match area.frost() {
        Ok(v) => v,
        Err(e) => {
            return Err(e);
        },
    };
    let mode = match area.mode() {
        Ok(v) => v,
        Err(e) => {
            return Err(e);
        },
    };
    let over = match area.comfort_override() {
        Ok(v) => v,
        Err(e) => {
            return Err(e);
        },
    };
    let sunday = match area.sunday() {
        Ok(v) => v,
        Err(e) => {
            return Err(e);
        },
    };
    let monday = match area.monday() {
        Ok(v) => v,
        Err(e) => {
            return Err(e);
        },
    };
    let tuesday = match area.tuesday() {
        Ok(v) => v,
        Err(e) => {
            return Err(e);
        },
    };
    let wednesday = match area.wednesday() {
        Ok(v) => v,
        Err(e) => {
            return Err(e);
        },
    };
    let thursday = match area.thursday() {
        Ok(v) => v,
        Err(e) => {
            return Err(e);
        },
    };
    let friday = match area.friday() {
        Ok(v) => v,
        Err(e) => {
            return Err(e);
        },
    };
    let saturday = match area.saturday() {
        Ok(v) => v,
        Err(e) => {
            return Err(e);
        },
    };
    let msg = AreaMsg {
        cmd: [0xa1, 0x54, 0x00, 0x18],
        cmd2: [0xa1, 0x54, 0x00, 0x18],
        len: 0x30,
        temp_comfort,
        temp_reduced,
        temp_frost,
        mode,
        unknow_mode: false,
        boost: area.boost,
        unknown_mode2: 0,
        unknown_mode3: 1,
        derogation: over.is_some(),
        confort: match over {
            Some(v) => v,
            None => curr_mode,
        },
        unknown_data: 0,
        sunday,
        monday,
        tuesday,
        wednesday,
        thursday,
        friday,
        saturday,
    };
    proof {
        assert(msg.cmd@ =~= seq![0xa1u8, 0x54, 0x00, 0x18]);
        assert(msg.cmd2@ =~= seq![0xa1u8, 0x54, 0x00, 0x18]);
        assert(msg.cmd =~= msg.cmd2);
    }
    Ok(msg)
}

/// Write one area's programme to the boiler. The boiler's clock is read
/// first; in auto mode the current half-hour slot of the clock's weekday
/// decides whether comfort is active now. The programme frame is then sent
/// and resent under the retry policy until the boiler acknowledges it: a
/// five-second timeout bumps the request identifier, and the third
/// consecutive timeout draws a fresh canonical identifier.
pub fn connect_area1<R: RFClient>(rf: &mut R, config: &mut Frisquet, area: &Area) -> (r: Result<
    (Metadata, ()),
    ConnectError,
>)
    ensures
        old(config).network_id is None ==> r is Err,
        old(config).association_id is None ==> r is Err,
        old(config).request_id is None ==> r is Err,
        final(config).network_id == old(config).network_id,
        final(config).association_id == old(config).association_id,
        mode_code(area.mode@) is None ==> r is Err,
        r is Ok ==> area_valid(*area),
        r matches Err(e) ==> (e.spec_kind() == ErrorKind::Configuration
            ==> (old(config).network_id is None || old(config).association_id is None
            || old(config).request_id is None || !area_valid(*area))),
        r matches Ok((meta, x)) ==> meta.from_addr == 0x80 && meta.to_addr == 0x7e
            && meta.association_id == old(config).association_id.unwrap(),
{
    let network_id = match config.network_id() {
        Ok(v) => v,
        Err(e) => {
            return Err(ConnectError::from_config(e));
        },
    };
    match rf.set_network_id(network_id) {
        Ok(_) => {},
        Err(m) => {
            return Err(ConnectError::with_kind(ErrorKind::Transport, m.as_str()));
        },
    }
    let (_meta, date) = match connect_date(rf, config) {
        Ok(p) => p,
        Err(e) => {
            return Err(e);
        },
    };
    let association_id = match config.association_id() {
        Ok(v) => v,
        Err(e) => {
            return Err(ConnectError::from_config(e));
        },
    };
    let mut req_id = match config.next_req_id() {
        Ok(v) => v,
        Err(e) => {
            return Err(ConnectError::from_config(e));
        },
    };

    let curr_mode = match resolve_current_mode(area, &date) {
        Ok(v) => v,
        Err(e) => {
            return Err(e);
        },
    };
    let msg = match build_area_msg(area, curr_mode) {
        Ok(m) => m,
        Err(e) => {
            return Err(ConnectError::from_config(e));
        },
    };

    let mut retry: u8 = 0;
    let mut left: u64 = MAX_RECV_FRAMES;
    while left > 0
        invariant
            retry < 3,
            config.request_id is Some,
            config.network_id == old(config).network_id,
            config.association_id == old(config).association_id,
            old(config).network_id is Some,
            old(config).request_id is Some,
            old(config).association_id == Some(association_id),
            mode_code(area.mode@) is Some,
            area_valid(*area),
            msg.wf(),
            msg.asserted(),
        decreases left,
    {
        left = left - 1;
        match send_cmd(rf, 0x7e, 0x80, association_id, req_id, 0x08, 0x17, &msg) {
            Ok(_) => {},
            Err(e) => {
                return Err(e);
            },
        }
        match wait_reply_timeout::<R, DropMsg>(rf, 0x80, 0x7e, association_id, req_id, 5000) {
            Ok(Some((meta, _msg))) => {
                return Ok((meta, ()));
            },
            Ok(None) => {
                let (retry2, req2) = match retry_step(retry, req_id, config) {
                    Ok(p) => p,
                    Err(e) => {
                        return Err(ConnectError::from_config(e));
                    },
                };
                retry = retry2;
                req_id = req2;
            },
            Err(e) => {
                return Err(e);
            },
        }
    }
    Err(ConnectError::with_kind(ErrorKind::Transport, "receive budget exhausted"))
}

} // verus!
