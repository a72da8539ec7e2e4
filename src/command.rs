//! Power states and the bytes that request them from each generation.
use vstd::prelude::*;

use crate::device::{opt_view, Generation, MatchContext};
use crate::error::Error;
use crate::ident::lower_char;
use crate::text::chars_of;

verus! {

/// GATT characteristic that takes first-generation commands,
/// `0000cb01-0000-1000-8000-00805f9b34fb`.
pub const V1_CHARACTERISTIC: u128 = 0x0000cb01_0000_1000_8000_00805f9b34fb;

/// GATT characteristic that takes second-generation commands,
/// `00001525-1212-efde-1523-785feabcd124`.
pub const V2_CHARACTERISTIC: u128 = 0x00001525_1212_efde_1523_785feabcd124;

/// A requested power state.
#[derive(Clone, Copy, Debug, PartialEq, Eq, Structural)]
pub enum PowerState {
    Off,
    On,
    Standby,
}

/// A payload and the characteristic it is written to, for one generation.
#[derive(Debug)]
pub struct Command {
    pub generation: Generation,
    pub payload: Vec<u8>,
    pub characteristic: u128,
}

impl Command {
    /// A command belongs to one generation and has that generation's
    /// payload length and characteristic.
    pub open spec fn well_formed(&self) -> bool {
        match self.generation {
            Generation::V1 => self.payload@.len() == 20 && self.characteristic == V1_CHARACTERISTIC,
            Generation::V2 => self.payload@.len() == 1 && self.characteristic == V2_CHARACTERISTIC,
        }
    }
}

/// The value of a hexadecimal digit of either case.
pub open spec fn hex_digit(c: char) -> Option<u8> {
    if '0' <= c && c <= '9' {
        Some(((c as u32) - 48) as u8)
    } else if 'a' <= c && c <= 'f' {
        Some(((c as u32) - 87) as u8)
    } else if 'A' <= c && c <= 'F' {
        Some(((c as u32) - 55) as u8)
    } else {
        None
    }
}

/// Exactly eight hexadecimal digits.
pub open spec fn is_hex_id(s: Seq<char>) -> bool {
    s.len() == 8 && forall|i: int| 0 <= i < 8 ==> (#[trigger] hex_digit(s[i])) is Some
}

/// The `k`-th byte of an identifier, read as big-endian digit pairs.
pub open spec fn id_byte(s: Seq<char>, k: int) -> u8 {
    (hex_digit(s[2 * k])->0 * 16 + hex_digit(s[2 * k + 1])->0) as u8
}

/// The 20-byte first-generation frame: a header that says on or off, the
/// four identifier bytes in reverse order, and twelve zero bytes.
pub open spec fn v1_frame(on: bool, s: Seq<char>) -> Seq<u8> {
    seq![
        0x12u8,
        if on { 0x00u8 } else { 0x02u8 },
        0x00u8,
        if on { 0x00u8 } else { 0x01u8 },
        id_byte(s, 3),
        id_byte(s, 2),
        id_byte(s, 1),
        id_byte(s, 0),
    ] + Seq::new(12, |i: int| 0x00u8)
}

/// The one-byte second-generation payload.
pub open spec fn v2_byte(state: PowerState) -> u8 {
    match state {
        PowerState::Off => 0x00,
        PowerState::On => 0x01,
        PowerState::Standby => 0x02,
    }
}

/// What encoding gives: the payload and characteristic, or the error.
pub open spec fn encoding(g: Generation, state: PowerState, bsid: Option<Seq<char>>) -> Result<
    (Seq<u8>, u128),
    Error,
> {
    match g {
        Generation::V2 => Ok((seq![v2_byte(state)], V2_CHARACTERISTIC)),
        Generation::V1 => if state == PowerState::Standby {
            Err(Error::UnsupportedState { generation: Generation::V1 })
        } else {
            match bsid {
                Some(b) if is_hex_id(b) => Ok((v1_frame(state == PowerState::On, b), V1_CHARACTERISTIC)),
                _ => Err(Error::MalformedIdentifier),
            }
        },
    }
}

/// The view of an encoding result.
pub open spec fn command_view(r: Result<Command, Error>) -> Result<(Seq<u8>, u128), Error> {
    match r {
        Ok(c) => Ok((c.payload@, c.characteristic)),
        Err(e) => Err(e),
    }
}

/// The state named, in any case, `off`, `on` or `standby`.
pub open spec fn state_named(s: Seq<char>) -> Option<PowerState> {
    let l = s.map_values(|c: char| lower_char(c));
    if l == seq!['o', 'f', 'f'] {
        Some(PowerState::Off)
    } else if l == seq!['o', 'n'] {
        Some(PowerState::On)
    } else if l == seq!['s', 't', 'a', 'n', 'd', 'b', 'y'] {
        Some(PowerState::Standby)
    } else {
        None
    }
}

/// Reads a power state name, ignoring ASCII case.
pub fn parse_state(raw: &str) -> (r: Option<PowerState>)
    ensures
        r == state_named(raw@),
{
    let cs = chars_of(raw);
    let mut l: Vec<char> = Vec::new();
    let mut i: usize = 0;
    while i < cs.len()
        invariant
            i <= cs@.len(),
            l@ == cs@.subrange(0, i as int).map_values(|c: char| lower_char(c)),
        decreases cs.len() - i,
    {
        l.push(crate::ident::to_lower_ascii(cs[i]));
        assert(cs@.subrange(0, i + 1) == cs@.subrange(0, i as int).push(cs@[i as int]));
        i = i + 1;
    }
    assert(cs@.subrange(0, cs@.len() as int) == raw@);
    let off: Vec<char> = vec!['o', 'f', 'f'];
    let on: Vec<char> = vec!['o', 'n'];
    let standby: Vec<char> = vec!['s', 't', 'a', 'n', 'd', 'b', 'y'];
    if same_chars(&l, &off) {
        Some(PowerState::Off)
    } else if same_chars(&l, &on) {
        Some(PowerState::On)
    } else if same_chars(&l, &standby) {
        Some(PowerState::Standby)
    } else {
        None
    }
}

fn same_chars(a: &Vec<char>, b: &Vec<char>) -> (r: bool)
    ensures
        r == (a@ == b@),
{
    if a.len() != b.len() {
        return false;
    }
    let mut i: usize = 0;
    while i < a.len()
        invariant
            a@.len() == b@.len(),
            i <= a@.len(),
            forall|k: int| 0 <= k < i ==> a@[k] == b@[k],
        decreases a.len() - i,
    {
        if a[i] != b[i] {
            return false;
        }
        i = i + 1;
    }
    assert(a@ =~= b@);
    true
}

/// The value of one hexadecimal digit.
pub fn hex_value(c: char) -> (r: Option<u8>)
    ensures
        r == hex_digit(c),
{
    if '0' <= c && c <= '9' {
        Some(((c as u32) - 48) as u8)
    } else if 'a' <= c && c <= 'f' {
        Some(((c as u32) - 87) as u8)
    } else if 'A' <= c && c <= 'F' {
        Some(((c as u32) - 55) as u8)
    } else {
        None
    }
}

/// The four bytes of an eight-digit identifier, in the order they are written;
/// `None` unless it is exactly eight hexadecimal digits.
pub fn parse_bsid(s: &str) -> (r: Option<Vec<u8>>)
    ensures
        r is Some <==> is_hex_id(s@),
        r matches Some(v) ==> v@.len() == 4 && forall|k: int| 0 <= k < 4 ==> #[trigger] v@[k] == id_byte(s@, k),
{
    let cs = chars_of(s);
    if cs.len() != 8 {
        return None;
    }
    let mut out: Vec<u8> = Vec::new();
    let mut k: usize = 0;
    while k < 4
        invariant
            cs@ == s@,
            cs@.len() == 8,
            k <= 4,
            out@.len() == k,
            forall|i: int| 0 <= i < 2 * k ==> (#[trigger] hex_digit(cs@[i])) is Some,
            forall|j: int| 0 <= j < k ==> #[trigger] out@[j] == id_byte(s@, j),
        decreases 4 - k,
    {
        let hi = match hex_value(cs[2 * k]) {
            Some(v) => v,
            None => return None,
        };
        let lo = match hex_value(cs[2 * k + 1]) {
            Some(v) => v,
            None => return None,
        };
        assert(hi < 16 && lo < 16);
        out.push(hi * 16 + lo);
        k = k + 1;
    }
    Some(out)
}

/// Builds the command that puts a station of generation `generation` into
/// `state`. The second generation takes one byte for any state. The first
/// has no standby, and takes a 20-byte frame that carries the identifier it
/// was selected by, which must be eight hexadecimal digits.
pub fn encode(generation: Generation, state: PowerState, ctx: &MatchContext) -> (r: Result<
    Command,
    Error,
>)
    ensures
        command_view(r) == encoding(generation, state, opt_view(ctx.bsid)),
        r matches Ok(c) ==> c.generation == generation && c.well_formed(),
{
    match generation {
        Generation::V2 => {
            let b: u8 = match state {
                PowerState::Off => 0x00,
                PowerState::On => 0x01,
                PowerState::Standby => 0x02,
            };
            let payload: Vec<u8> = vec![b];
            assert(payload@ =~= seq![v2_byte(state)]);
            Ok(Command { generation, payload, characteristic: V2_CHARACTERISTIC })
        },
        Generation::V1 => {
            if state == PowerState::Standby && !generation.supports_standby() {
                return Err(Error::UnsupportedState { generation });
            }
            let bsid = match &ctx.bsid {
                None => return Err(Error::MalformedIdentifier),
                Some(b) => b,
            };
            let id = match parse_bsid(bsid.as_str()) {
                None => return Err(Error::MalformedIdentifier),
                Some(v) => v,
            };
            let on = state == PowerState::On;
            let flag: u8 = if on { 0x00 } else { 0x02 };
            let mode: u8 = if on { 0x00 } else { 0x01 };
            let payload: Vec<u8> = vec![
                0x12, flag, 0x00, mode, id[3], id[2], id[1], id[0],
                0x00, 0x00, 0x00, 0x00, 0x00, 0x00, 0x00, 0x00, 0x00, 0x00, 0x00, 0x00,
            ];
            assert(payload@ =~= v1_frame(on, bsid@));
            assert(opt_view(ctx.bsid) == Some(bsid@));
            assert(is_hex_id(bsid@));
            Ok(Command { generation, payload, characteristic: V1_CHARACTERISTIC })
        },
    }
}

/// A first-generation identifier that is not exactly eight hexadecimal
/// digits gives `MalformedIdentifier` and no command, for either state the
/// generation has.
pub proof fn lemma_malformed_identifier(state: PowerState, bsid: Seq<char>)
    requires
        state != PowerState::Standby,
        !is_hex_id(bsid),
    ensures
        encoding(Generation::V1, state, Some(bsid)) == Err::<(Seq<u8>, u128), Error>(
            Error::MalformedIdentifier,
        ),
{
}

} // verus!
