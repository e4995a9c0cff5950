//! The caller-owned configuration data the protocol engine works on: the
//! pairing record of each entity, the heating-area programme, and the
//! schedule and setpoint encodings. Reading and writing the configuration
//! file is the caller's business; the types here hold the values the engine
//! needs.

use vstd::prelude::*;

verus! {

/// A configuration problem: a missing pairing record, an out-of-range
/// setpoint, an unparsable schedule entry.
#[derive(PartialEq, Eq, Clone, Debug)]
pub struct ConfigError {
    msg: String,
}

impl ConfigError {
    pub fn new(msg: &str) -> (r: ConfigError)
        ensures
            r.spec_message() == msg@,
    {
        ConfigError { msg: String::from_str(msg) }
    }

    /// The failure text.
    pub closed spec fn spec_message(self) -> Seq<char> {
        self.msg@
    }

    /// The failure text, for diagnostics.
    pub fn message(&self) -> (r: String)
        ensures
            r@ == self.spec_message(),
    {
        self.msg.clone()
    }
}

/// The pairing record of one entity: its network identifier, association
/// identifier, and the rolling request identifier, each absent until pairing
/// has produced it.
#[derive(PartialEq, Eq, Clone, Debug)]
pub struct Frisquet {
    pub send_init: Option<bool>,
    pub network_id: Option<[u8; 4]>,
    pub association_id: Option<u8>,
    pub request_id: Option<u8>,
}

impl Frisquet {
    /// The paired network identifier, as transports take it.
    pub fn network_id(&self) -> (r: Result<Vec<u8>, ConfigError>)
        ensures
            self.network_id matches Some(id) ==> (r matches Ok(v) && v@ == id@),
            self.network_id is None <==> r is Err,
    {
        match self.network_id {
            Some(id) => {
                let v: Vec<u8> = vec![id[0], id[1], id[2], id[3]];
                proof {
                    assert(v@ =~= id@);
                }
                Ok(v)
            },
            None => Err(ConfigError::new("missing required config: frisquet.network_id")),
        }
    }

    /// The paired association identifier.
    pub fn association_id(&self) -> (r: Result<u8, ConfigError>)
        ensures
            self.association_id matches Some(id) ==> r == Ok::<u8, ConfigError>(id),
            self.association_id is None <==> r is Err,
    {
        match self.association_id {
            Some(id) => Ok(id),
            None => Err(ConfigError::new("missing required config: frisquet.association_id")),
        }
    }

    /// Draw the next canonical request identifier: the sequence advances by
    /// four, wrapping at 256.
    pub fn next_req_id(&mut self) -> (r: Result<u8, ConfigError>)
        ensures
            old(self).request_id matches Some(id) ==> {
                &&& r == Ok::<u8, ConfigError>(next_request_id(id))
                &&& final(self).request_id == Some(next_request_id(id))
            },
            old(self).request_id is None <==> r is Err,
            old(self).request_id is None ==> *final(self) == *old(self),
            final(self).network_id == old(self).network_id,
            final(self).association_id == old(self).association_id,
            final(self).send_init == old(self).send_init,
    {
        match self.request_id {
            Some(id) => {
                let req_id = id.wrapping_add(4);
                self.request_id = Some(req_id);
                Ok(req_id)
            },
            None => Err(ConfigError::new("missing required config: frisquet.request_id")),
        }
    }
}

/// The canonical successor of a request identifier: four further on, modulo
/// 256.
pub open spec fn next_request_id(id: u8) -> u8 {
    ((id + 4) % 256) as u8
}

} // verus!

verus! {

/// Whether a character is a decimal digit.
pub open spec fn is_digit(c: char) -> bool {
    '0' as u32 <= c as u32 <= '9' as u32
}

/// The value of a decimal digit character.
pub open spec fn digit_val(c: char) -> u8 {
    ((c as u32 - '0' as u32) % 10) as u8
}

/// Whether every character of a string is a decimal digit.
pub open spec fn all_digits(s: Seq<char>) -> bool {
    forall|i: int| 0 <= i < s.len() ==> is_digit(#[trigger] s[i])
}

/// The numeric value of a digit string.
pub open spec fn digits_val(s: Seq<char>) -> nat
    decreases s.len(),
{
    if s.len() == 0 {
        0
    } else {
        (digits_val(s.drop_last()) * 10 + digit_val(s.last())) as nat
    }
}

/// Splitting a string at a character that occurs in it exactly once.
pub open spec fn char_split(s: Seq<char>, c: char) -> Option<(Seq<char>, Seq<char>)> {
    if exists|k: int|
        0 <= k < s.len() && s[k] == c && (forall|j: int|
            0 <= j < s.len() && j != k ==> s[j] != c) {
        let k = choose|k: int|
            0 <= k < s.len() && s[k] == c && (forall|j: int|
                0 <= j < s.len() && j != k ==> s[j] != c);
        Some((s.subrange(0, k), s.subrange(k + 1, s.len() as int)))
    } else {
        None
    }
}

/// The half-hour slot index a time string denotes, if it is well formed:
/// digits for the hour (below 24), the letter between, and digits for the
/// minutes (00 or 30). The index is hour times two, plus one for the half
/// hour.
pub open spec fn time_index_spec(s: Seq<char>) -> Option<u8> {
    match char_split(s, 'h') {
        Option::None => None,
        Option::Some((h, m)) => {
            if h.len() > 0 && all_digits(h) && digits_val(h) < 24 && m.len() > 0 && all_digits(m)
                && (digits_val(m) == 0 || digits_val(m) == 30) {
                Some((digits_val(h) * 2 + digits_val(m) / 30) as u8)
            } else {
                None
            }
        },
    }
}

/// The slot range a timeframe string denotes, if it is well formed: two
/// times joined by a dash. An end of "00h00" after a nonzero start means end
/// of day (slot 48); an end before the start is rejected.
pub open spec fn time_indexes_spec(s: Seq<char>) -> Option<(u8, u8)> {
    match char_split(s, '-') {
        Option::None => None,
        Option::Some((a, b)) => {
            match (time_index_spec(a), time_index_spec(b)) {
                (Option::Some(start), Option::Some(end0)) => {
                    let end: u8 = if start > 0 && end0 == 0 {
                        48
                    } else {
                        end0
                    };
                    if end < start {
                        None
                    } else {
                        Some((start, end))
                    }
                },
                _ => None,
            }
        },
    }
}

/// Split a string at a character, accepting it only when the character
/// occurs exactly once.
#[verifier::rlimit(60)]
fn split_unique<'a>(s: &'a str, c: char) -> (r: Result<(&'a str, &'a str), ()>)
    ensures
        r is Ok <==> char_split(s@, c) is Some,
        r matches Ok((a, b)) ==> char_split(s@, c) == Some((a@, b@)),
{
    let n = s.unicode_len();
    let mut i: usize = 0;
    let mut pos: usize = 0;
    let mut count: usize = 0;
    let ghost mut pos2: int = 0int;
    while i < n
        invariant
            0 <= i <= n,
            n == s@.len(),
            count <= i,
            count >= 1 ==> 0 <= pos < i && s@[pos as int] == c,
            count == 0 ==> forall|j: int| 0 <= j < i ==> s@[j] != c,
            count == 1 ==> forall|j: int| 0 <= j < i && j != pos ==> s@[j] != c,
            count >= 2 ==> 0 <= pos2 < i && pos2 != pos && s@[pos2] == c,
        decreases n - i,
    {
        if s.get_char(i) == c {
            if count == 0 {
                pos = i;
            } else {
                proof {
                    pos2 = i as int;
                }
            }
            count += 1;
        }
        i += 1;
    }
    if count != 1 {
        proof {
            if count == 0 {
                assert(char_split(s@, c) is None);
            } else {
                assert forall|k: int|
                    !(0 <= k < s@.len() && s@[k] == c && (forall|j: int|
                        0 <= j < s@.len() && j != k ==> s@[j] != c)) by {
                    if 0 <= k < s@.len() && s@[k] == c {
                        if k != pos {
                            assert(s@[pos as int] == c);
                        } else {
                            assert(s@[pos2] == c);
                        }
                    }
                }
            }
        }
        return Err(());
    }
    let a = s.substring_char(0, pos);
    let b = s.substring_char(pos + 1, n);
    proof {
        let k = choose|k: int|
            0 <= k < s@.len() && s@[k] == c && (forall|j: int|
                0 <= j < s@.len() && j != k ==> s@[j] != c);
        assert(s@[pos as int] == c);
        assert(k == pos);
    }
    Ok((a, b))
}

/// Parse a digit string, saturating at 1000: large values all behave alike
/// for the bounds checked afterwards.
fn parse_digits(s: &str) -> (r: Result<u32, ()>)
    ensures
        r is Ok <==> (s@.len() > 0 && all_digits(s@)),
        r matches Ok(v) ==> (if digits_val(s@) < 1000 {
            v == digits_val(s@)
        } else {
            v >= 1000 && digits_val(s@) >= 1000
        }),
{
    let n = s.unicode_len();
    if n == 0 {
        return Err(());
    }
    let mut i: usize = 0;
    let mut val: u32 = 0;
    while i < n
        invariant
            0 <= i <= n,
            n == s@.len(),
            all_digits(s@.subrange(0, i as int)),
            val <= 10009,
            digits_val(s@.subrange(0, i as int)) < 1000 ==> val == digits_val(
                s@.subrange(0, i as int),
            ),
            digits_val(s@.subrange(0, i as int)) >= 1000 ==> val >= 1000 && digits_val(
                s@.subrange(0, i as int),
            ) >= 1000,
        decreases n - i,
    {
        let ch = s.get_char(i);
        let code = ch as u32;
        if code < '0' as u32 || code > '9' as u32 {
            proof {
                assert(!is_digit(s@[i as int]));
            }
            return Err(());
        }
        let d = code - '0' as u32;
        proof {
            assert(is_digit(s@[i as int]));
            assert(digit_val(s@[i as int]) == d);
            assert(s@.subrange(0, i + 1).drop_last() =~= s@.subrange(0, i as int));
            assert(s@.subrange(0, i + 1).last() == s@[i as int]);
        }
        if val < 1000 {
            val = val * 10 + d;
        }
        i += 1;
    }
    proof {
        assert(s@.subrange(0, n as int) =~= s@);
    }
    Ok(val)
}

/// The half-hour slot index of a time string, exactly when the string is
/// well formed: digits for the hour (below 24), the letter between, digits
/// for the minutes (00 or 30).
pub fn time_index(time: &str) -> (r: Result<u8, ()>)
    ensures
        r is Ok <==> time_index_spec(time@) is Some,
        r matches Ok(v) ==> time_index_spec(time@) == Some(v),
        r matches Ok(v) ==> v < 48,
{
    let (hs, ms) = match split_unique(time, 'h') {
        Ok(p) => p,
        Err(_) => {
            return Err(());
        },
    };
    let hours = match parse_digits(hs) {
        Ok(v) => v,
        Err(_) => {
            return Err(());
        },
    };
    if hours >= 24 {
        return Err(());
    }
    let minutes = match parse_digits(ms) {
        Ok(v) => v,
        Err(_) => {
            return Err(());
        },
    };
    if minutes != 0 && minutes != 30 {
        return Err(());
    }
    Ok((hours * 2 + minutes / 30) as u8)
}

/// The slot range of a timeframe string, exactly when it is well formed:
/// "12h00-14h30" covers slots 24 to 29 exclusive; an end of "00h00" after a
/// nonzero start is end of day, slot 48.
pub fn time_indexes(timeframe: &str) -> (r: Result<(u8, u8), ()>)
    ensures
        r is Ok <==> time_indexes_spec(timeframe@) is Some,
        r matches Ok(p) ==> time_indexes_spec(timeframe@) == Some(p),
        r matches Ok(p) ==> p.0 <= p.1 <= 48,
{
    let (a, b) = match split_unique(timeframe, '-') {
        Ok(p) => p,
        Err(_) => {
            return Err(());
        },
    };
    let start = match time_index(a) {
        Ok(v) => v,
        Err(_) => {
            return Err(());
        },
    };
    let end0 = match time_index(b) {
        Ok(v) => v,
        Err(_) => {
            return Err(());
        },
    };
    let end = if start > 0 && end0 == 0 {
        48
    } else {
        end0
    };
    if end < start {
        return Err(());
    }
    Ok((start, end))
}

} // verus!

verus! {

/// One weekly-programme entry: a timeframe string and a mode name.
#[derive(Debug, PartialEq, Eq, Clone)]
pub struct Prog {
    pub timeframe: String,
    pub mode: String,
}

/// Whether bit `n` of a day's six-byte mask is set: bit `n` marks comfort
/// for the half-hour slot starting at `n/2` hours, `(n%2)*30` minutes.
pub open spec fn mask_bit(mask: Seq<u8>, n: int) -> bool
    recommends
        mask.len() == 6,
        0 <= n < 48,
{
    (mask[n / 8] >> ((n % 8) as u8)) & 1 == 1
}

/// Whether a programme entry is a comfort entry covering slot `n`.
pub open spec fn comfort_covers(p: Prog, n: int) -> bool {
    &&& p.mode@ == "comfort"@
    &&& time_indexes_spec(p.timeframe@) matches Some((start, end)) && start <= n < end
}

/// A well-formed programme entry: comfort with a well-formed timeframe, or
/// reduced (the default, which sets nothing).
pub open spec fn prog_entry_valid(p: Prog) -> bool {
    ||| (p.mode@ == "comfort"@ && time_indexes_spec(p.timeframe@) is Some)
    ||| p.mode@ == "reduced"@
}

/// Whether every entry of a programme is well formed.
pub open spec fn prog_all_valid(prog: Seq<Prog>) -> bool {
    forall|i: int| 0 <= i < prog.len() ==> prog_entry_valid(#[trigger] prog[i])
}

/// Whether a mask holds exactly the comfort slots of a programme.
pub open spec fn mask_matches(prog: Seq<Prog>, mask: Seq<u8>) -> bool {
    forall|n: int|
        0 <= n < 48 ==> (#[trigger] mask_bit(mask, n) <==> exists|i: int|
            0 <= i < prog.len() && comfort_covers(#[trigger] prog[i], n))
}

/// Whether one of the first `k` entries of a programme is a comfort entry
/// covering slot `n`.
pub open spec fn covered_before(prog: Seq<Prog>, k: int, n: int) -> bool {
    exists|i: int| 0 <= i < k && comfort_covers(#[trigger] prog[i], n)
}

/// The two mode names the programme accepts are distinct.
proof fn lemma_mode_names_distinct()
    ensures
        "comfort"@ != "reduced"@,
{
    reveal_strlit("comfort");
    reveal_strlit("reduced");
    assert("comfort"@[0] == 'c');
    assert("reduced"@[0] == 'r');
}

/// Character-by-character string equality, pinned to view equality.
pub fn str_eq(a: &str, b: &str) -> (r: bool)
    ensures
        r == (a@ == b@),
{
    let na = a.unicode_len();
    let nb = b.unicode_len();
    if na != nb {
        proof {
            assert(a@ != b@);
        }
        return false;
    }
    let mut i: usize = 0;
    while i < na
        invariant
            0 <= i <= na,
            na == a@.len(),
            na == b@.len(),
            forall|j: int| 0 <= j < i ==> a@[j] == b@[j],
        decreases na - i,
    {
        if a.get_char(i) != b.get_char(i) {
            return false;
        }
        i += 1;
    }
    proof {
        assert(a@ =~= b@);
    }
    true
}

/// Build one day's six-byte mask from its programme entries: each comfort
/// entry sets the bits of its slot range; reduced entries set nothing; any
/// other mode, or a comfort entry with an unparsable timeframe, is a
/// configuration error.
#[verifier::spinoff_prover]
#[verifier::rlimit(100)]
pub fn to_mode_prog(prog: &Vec<Prog>) -> (r: Result<[u8; 6], ConfigError>)
    ensures
        r is Ok <==> prog_all_valid(prog@),
        r matches Ok(mask) ==> mask_matches(prog@, mask@),
{
    let mut res: [u8; 6] = [0u8; 6];
    proof {
        lemma_mode_names_distinct();
        assert forall|n: int| 0 <= n < 48 implies !mask_bit(res@, n) by {
            lemma_zero_bits((n % 8) as u8);
        }
    }
    let mut k: usize = 0;
    while k < prog.len()
        invariant
            k <= prog@.len(),
            "comfort"@ != "reduced"@,
            res@.len() == 6,
            forall|i: int| 0 <= i < k ==> prog_entry_valid(#[trigger] prog@[i]),
            forall|n: int| 0 <= n < 48 ==> (#[trigger] mask_bit(res@, n) <==> covered_before(prog@, k as int, n)),
        decreases prog@.len() - k,
    {
        let entry = &prog[k];
        if str_eq(entry.mode.as_str(), "comfort") {
            let (start, end) = match time_indexes(entry.timeframe.as_str()) {
                Ok(p) => p,
                Err(_) => {
                    proof {
                        assert(!prog_entry_valid(prog@[k as int]));
                    }
                    return Err(
                        ConfigError::new("timeframe should be 12h00-14h30 format, 30 min increment"),
                    );
                },
            };
            let mut n: u8 = start;
            while n < end
                invariant
                    start <= n <= end,
                    end <= 48,
                    res@.len() == 6,
                    k < prog@.len(),
                    time_indexes_spec(prog@[k as int].timeframe@) == Some((start, end)),
                    prog@[k as int].mode@ == "comfort"@,
                    forall|m: int|
                        0 <= m < 48 ==> (#[trigger] mask_bit(res@, m) <==> (covered_before(
                            prog@,
                            k as int,
                            m,
                        ) || (start <= m < n))),
                decreases end - n,
            {
                let ghost oldres = res@;
                let idx = (n / 8) as usize;
                let sh = n % 8;
                res[idx] = res[idx] | (1u8 << sh);
                proof {
                    assert(res@ == oldres.update(n as int / 8, oldres[n as int / 8] | (1u8 << (n
                        % 8))));
                    assert forall|m: int|
                        0 <= m < 48 implies (#[trigger] mask_bit(res@, m) <==> (mask_bit(oldres, m)
                        || m == n)) by {
                        lemma_set_bit(oldres[m / 8], (n % 8) as u8, (m % 8) as u8);
                        if m / 8 != n as int / 8 {
                            assert(res@[m / 8] == oldres[m / 8]);
                            assert(m % 8 == (n % 8) as int && m / 8 == n as int / 8 ==> m == n);
                        }
                    }
                }
                n += 1;
            }
            proof {
                assert forall|m: int|
                    0 <= m < 48 implies (#[trigger] mask_bit(res@, m) <==> covered_before(
                    prog@,
                    k as int + 1,
                    m,
                )) by {
                    if covered_before(prog@, k as int, m) {
                        let i = choose|i: int|
                            0 <= i < k as int && comfort_covers(#[trigger] prog@[i], m);
                        assert(comfort_covers(prog@[i], m));
                    }
                    if start <= m < end {
                        assert(comfort_covers(prog@[k as int], m));
                    }
                    if covered_before(prog@, k as int + 1, m) {
                        let i = choose|i: int|
                            0 <= i < k as int + 1 && comfort_covers(#[trigger] prog@[i], m);
                        if i < k as int {
                            assert(covered_before(prog@, k as int, m));
                        } else {
                            assert(comfort_covers(prog@[k as int], m));
                        }
                    }
                }
            }
        } else if str_eq(entry.mode.as_str(), "reduced") {
            proof {
                assert forall|m: int|
                    0 <= m < 48 implies (covered_before(prog@, k as int, m) <==> covered_before(
                    prog@,
                    k as int + 1,
                    m,
                )) by {
                    if covered_before(prog@, k as int, m) {
                        let i = choose|i: int|
                            0 <= i < k as int && comfort_covers(#[trigger] prog@[i], m);
                        assert(comfort_covers(prog@[i], m));
                    }
                    if covered_before(prog@, k as int + 1, m) {
                        let i = choose|i: int|
                            0 <= i < k as int + 1 && comfort_covers(#[trigger] prog@[i], m);
                        if i < k as int {
                            assert(comfort_covers(prog@[i], m));
                        } else {
                            assert(prog@[k as int].mode@ == "reduced"@);
                            assert(!comfort_covers(prog@[k as int], m));
                        }
                    }
                }
            }
        } else {
            proof {
                assert(!prog_entry_valid(prog@[k as int]));
            }
            return Err(ConfigError::new("invalid mode"));
        }
        k += 1;
    }
    proof {
        assert forall|n: int| 0 <= n < 48 implies (#[trigger] mask_bit(res@, n) <==> exists|i: int|
            0 <= i < prog@.len() && comfort_covers(#[trigger] prog@[i], n)) by {
            assert(mask_bit(res@, n) <==> covered_before(prog@, k as int, n));
        }
    }
    Ok(res)
}

/// Setting one bit of a byte: the named bit reads back set, the others keep
/// their value.
proof fn lemma_set_bit(x: u8, m: u8, j: u8)
    requires
        m < 8,
        j < 8,
    ensures
        ((x | (1u8 << m)) >> j) & 1 == (if j == m {
            1u8
        } else {
            (x >> j) & 1
        }),
{
    assert(m < 8 && j < 8 ==> ((x | (1u8 << m)) >> j) & 1 == (if j == m {
        1u8
    } else {
        (x >> j) & 1
    })) by (bit_vector);
}

/// Every bit of the zero byte is clear.
proof fn lemma_zero_bits(j: u8)
    requires
        j < 8,
    ensures
        (0u8 >> j) & 1 == 0,
{
    assert(j < 8 ==> (0u8 >> j) & 1 == 0) by (bit_vector);
}

} // verus!

verus! {

/// The wire byte for a setpoint given in tenths of a degree: the value
/// shifted down by fifty, accepted only between 5.0 and 30.5 degrees on the
/// half-degree grid.
pub open spec fn setpoint_byte(tenths: int) -> Option<u8> {
    if 50 <= tenths <= 305 && (tenths - 50) % 5 == 0 {
        Some((tenths - 50) as u8)
    } else {
        None
    }
}

/// The wire code of a mode name.
pub open spec fn mode_code(s: Seq<char>) -> Option<u8> {
    if s == "auto"@ {
        Some(5)
    } else if s == "comfort"@ {
        Some(6)
    } else if s == "reduced"@ {
        Some(7)
    } else if s == "frost"@ {
        Some(8)
    } else {
        None
    }
}

/// The meaning of an override name: comfort forces comfort, reduced forces
/// reduced, none leaves the programme in charge.
pub open spec fn override_code(s: Seq<char>) -> Option<Option<bool>> {
    if s == "comfort"@ {
        Some(Some(true))
    } else if s == "reduced"@ {
        Some(Some(false))
    } else if s == "none"@ {
        Some(None)
    } else {
        None
    }
}

/// One heating area's configuration: the three setpoints in tenths of a
/// degree, the mode and override names, the boost flag, and the weekly
/// programme. The caller fills it from its configuration store; floating
/// point readings are rounded to tenths before they reach the library.
#[derive(Debug, PartialEq, Eq, Clone)]
pub struct Area {
    pub comfort: i32,
    pub reduced: i32,
    pub frost: i32,
    pub mode: String,
    pub boost: bool,
    pub override_mode: String,
    pub monday: Vec<Prog>,
    pub tuesday: Vec<Prog>,
    pub wednesday: Vec<Prog>,
    pub thursday: Vec<Prog>,
    pub friday: Vec<Prog>,
    pub saturday: Vec<Prog>,
    pub sunday: Vec<Prog>,
}

impl Area {
    /// The comfort setpoint's wire byte; out-of-range or off-grid values are
    /// configuration errors.
    #[verifier::spinoff_prover]
    pub fn comfort(&self) -> (r: Result<u8, ConfigError>)
        ensures
            r is Ok <==> setpoint_byte(self.comfort as int) is Some,
            r matches Ok(v) ==> setpoint_byte(self.comfort as int) == Some(v),
    {
        if self.comfort < 50 {
            Err(ConfigError::new("comfort temp minimum is 5.0"))
        } else if self.comfort > 305 {
            Err(ConfigError::new("comfort temp maximum is 30.5"))
        } else {
            let d = (self.comfort - 50) as u32;
            if d % 5 != 0 {
                Err(ConfigError::new("comfort temp should be 0.5 inc"))
            } else {
                Ok(d as u8)
            }
        }
    }

    /// The reduced setpoint's wire byte; out-of-range or off-grid values are
    /// configuration errors.
    #[verifier::spinoff_prover]
    pub fn reduced(&self) -> (r: Result<u8, ConfigError>)
        ensures
            r is Ok <==> setpoint_byte(self.reduced as int) is Some,
            r matches Ok(v) ==> setpoint_byte(self.reduced as int) == Some(v),
    {
        if self.reduced < 50 {
            Err(ConfigError::new("reduced temp minimum is 5.0"))
        } else if self.reduced > 305 {
            Err(ConfigError::new("reduced temp maximum is 30.5"))
        } else {
            let d = (self.reduced - 50) as u32;
            if d % 5 != 0 {
                Err(ConfigError::new("reduced temp should be 0.5 inc"))
            } else {
                Ok(d as u8)
            }
        }
    }

    /// The frost setpoint's wire byte; out-of-range or off-grid values are
    /// configuration errors.
    #[verifier::spinoff_prover]
    pub fn frost(&self) -> (r: Result<u8, ConfigError>)
        ensures
            r is Ok <==> setpoint_byte(self.frost as int) is Some,
            r matches Ok(v) ==> setpoint_byte(self.frost as int) == Some(v),
    {
        if self.frost < 50 {
            Err(ConfigError::new("frost temp minimum is 5.0"))
        } else if self.frost > 305 {
            Err(ConfigError::new("frost temp maximum is 30.5"))
        } else {
            let d = (self.frost - 50) as u32;
            if d % 5 != 0 {
                Err(ConfigError::new("frost temp should be 0.5 inc"))
            } else {
                Ok(d as u8)
            }
        }
    }

    /// The mode selector's wire code; an unknown name is a configuration
    /// error.
    pub fn mode(&self) -> (r: Result<u8, ConfigError>)
        ensures
            r is Ok <==> mode_code(self.mode@) is Some,
            r matches Ok(v) ==> mode_code(self.mode@) == Some(v),
    {
        if str_eq(self.mode.as_str(), "auto") {
            Ok(0x05)
        } else if str_eq(self.mode.as_str(), "comfort") {
            Ok(0x06)
        } else if str_eq(self.mode.as_str(), "reduced") {
            Ok(0x07)
        } else if str_eq(self.mode.as_str(), "frost") {
            Ok(0x08)
        } else {
            Err(ConfigError::new("invalid mode"))
        }
    }

    /// Whether the area follows its weekly programme.
    pub fn mode_is_auto(&self) -> (r: Result<bool, ConfigError>)
        ensures
            r is Ok <==> mode_code(self.mode@) is Some,
            r matches Ok(v) ==> v == (mode_code(self.mode@) == Some(5u8)),
    {
        match self.mode() {
            Ok(m) => Ok(m == 0x05),
            Err(e) => Err(e),
        }
    }

    /// Whether the area is pinned to comfort.
    pub fn mode_is_comfort(&self) -> (r: Result<bool, ConfigError>)
        ensures
            r is Ok <==> mode_code(self.mode@) is Some,
            r matches Ok(v) ==> v == (mode_code(self.mode@) == Some(6u8)),
    {
        match self.mode() {
            Ok(m) => Ok(m == 0x06),
            Err(e) => Err(e),
        }
    }

    /// The override in force, if any; an unknown name is a configuration
    /// error.
    pub fn comfort_override(&self) -> (r: Result<Option<bool>, ConfigError>)
        ensures
            r is Ok <==> override_code(self.override_mode@) is Some,
            r matches Ok(v) ==> override_code(self.override_mode@) == Some(v),
    {
        if str_eq(self.override_mode.as_str(), "comfort") {
            Ok(Some(true))
        } else if str_eq(self.override_mode.as_str(), "reduced") {
            Ok(Some(false))
        } else if str_eq(self.override_mode.as_str(), "none") {
            Ok(None)
        } else {
            Err(ConfigError::new("invalid mode"))
        }
    }

    /// Monday's six-byte comfort mask.
    pub fn monday(&self) -> (r: Result<[u8; 6], ConfigError>)
        ensures
            r is Ok <==> prog_all_valid(self.monday@),
            r matches Ok(mask) ==> mask_matches(self.monday@, mask@),
    {
        to_mode_prog(&self.monday)
    }

    /// Tuesday's six-byte comfort mask.
    pub fn tuesday(&self) -> (r: Result<[u8; 6], ConfigError>)
        ensures
            r is Ok <==> prog_all_valid(self.tuesday@),
            r matches Ok(mask) ==> mask_matches(self.tuesday@, mask@),
    {
        to_mode_prog(&self.tuesday)
    }

    /// Wednesday's six-byte comfort mask.
    pub fn wednesday(&self) -> (r: Result<[u8; 6], ConfigError>)
        ensures
            r is Ok <==> prog_all_valid(self.wednesday@),
            r matches Ok(mask) ==> mask_matches(self.wednesday@, mask@),
    {
        to_mode_prog(&self.wednesday)
    }

    /// Thursday's six-byte comfort mask.
    pub fn thursday(&self) -> (r: Result<[u8; 6], ConfigError>)
        ensures
            r is Ok <==> prog_all_valid(self.thursday@),
            r matches Ok(mask) ==> mask_matches(self.thursday@, mask@),
    {
        to_mode_prog(&self.thursday)
    }

    /// Friday's six-byte comfort mask.
    pub fn friday(&self) -> (r: Result<[u8; 6], ConfigError>)
        ensures
            r is Ok <==> prog_all_valid(self.friday@),
            r matches Ok(mask) ==> mask_matches(self.friday@, mask@),
    {
        to_mode_prog(&self.friday)
    }

    /// Saturday's six-byte comfort mask.
    pub fn saturday(&self) -> (r: Result<[u8; 6], ConfigError>)
        ensures
            r is Ok <==> prog_all_valid(self.saturday@),
            r matches Ok(mask) ==> mask_matches(self.saturday@, mask@),
    {
        to_mode_prog(&self.saturday)
    }

    /// Sunday's six-byte comfort mask.
    pub fn sunday(&self) -> (r: Result<[u8; 6], ConfigError>)
        ensures
            r is Ok <==> prog_all_valid(self.sunday@),
            r matches Ok(mask) ==> mask_matches(self.sunday@, mask@),
    {
        to_mode_prog(&self.sunday)
    }
}


/// Where the external-temperature service is reached, and which entity and
/// attribute carry the reading.
#[derive(Debug, PartialEq, Eq, Clone)]
pub struct HAConfig {
    pub host: String,
    pub port: u16,
    pub token: String,
    pub entity_id: String,
    pub temperature_field: String,
}

/// The serial transport's settings.
#[derive(Debug, PartialEq, Eq, Clone)]
pub struct Serial {
    pub port: String,
    pub speed: u32,
}

/// The MQTT transport's settings.
#[derive(Debug, PartialEq, Eq, Clone)]
pub struct MQTT {
    pub broker: String,
    pub client_id: String,
    pub cmd_topic: String,
    pub lst_topic: String,
}

} // verus!
