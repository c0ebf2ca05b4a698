//! The frame codec: the wire protocol's JSON envelope `{op, d, s, t}` to and
//! from typed frames. The payload `d` is carried as the raw text of one JSON
//! value; its shape is resolved later by `(op, t)` (the payload section at
//! the end of this module, and the supervisor's classifier).
//!
//! The decoder accepts the four envelope keys in any order, skips unknown
//! keys, and tolerates whitespace between tokens. Strings in the envelope
//! header (keys and the event tag) carry no escape sequences — the protocol
//! never escapes them — while the payload scanner skips escapes wherever
//! they occur. The scanner is lexical: it finds the extent of one JSON
//! value, it does not validate it.
use vstd::prelude::*;

use crate::events::{spec_opcode, spec_opcode_of, GatewayEvents};

verus! {

/// Errors of `decode`. A malformed envelope and an opcode outside the
/// enumerated set are distinct: an unknown opcode is dropped with a warning
/// and the connection stays open, for forward compatibility.
#[derive(Clone, Copy, PartialEq, Eq, Structural, Debug)]
pub enum DecodeError {
    MalformedFrame,
    UnknownOpcode,
}

/// A decoded wire envelope. The invariant of the protocol: `s` and `t` are
/// populated if and only if `op` is `Dispatch`.
#[derive(Clone, Debug)]
pub struct Frame {
    pub op: GatewayEvents,
    pub s: Option<u64>,
    pub t: Option<Vec<char>>,
    pub d: Vec<char>,
}

/// Mathematical image of a `Frame`.
#[verifier::ext_equal]
pub struct FrameV {
    pub op: GatewayEvents,
    pub s: Option<u64>,
    pub t: Option<Seq<char>>,
    pub d: Seq<char>,
}

impl View for Frame {
    type V = FrameV;

    open spec fn view(&self) -> FrameV {
        FrameV {
            op: self.op,
            s: self.s,
            t: match &self.t {
                Some(t) => Some(t@),
                None => None,
            },
            d: self.d@,
        }
    }
}

/// JSON insignificant whitespace.
pub open spec fn is_ws(c: char) -> bool {
    c == ' ' || c == '\t' || c == '\n' || c == '\r'
}

/// A decimal digit.
pub open spec fn is_digit(c: char) -> bool {
    c == '0' || c == '1' || c == '2' || c == '3' || c == '4' || c == '5' || c == '6' || c == '7'
        || c == '8' || c == '9'
}

/// The value of a decimal digit.
pub open spec fn spec_digit_val(c: char) -> u64 {
    match c {
        '0' => 0,
        '1' => 1,
        '2' => 2,
        '3' => 3,
        '4' => 4,
        '5' => 5,
        '6' => 6,
        '7' => 7,
        '8' => 8,
        '9' => 9,
        _ => 0,
    }
}

/// The decimal digit of a value below ten.
pub open spec fn spec_digit_char(d: u64) -> char {
    match d {
        0 => '0',
        1 => '1',
        2 => '2',
        3 => '3',
        4 => '4',
        5 => '5',
        6 => '6',
        7 => '7',
        8 => '8',
        9 => '9',
        _ => '0',
    }
}

/// The first position at or after `i` that holds no whitespace.
pub open spec fn spec_skip_ws(s: Seq<char>, i: int) -> int
    decreases s.len() - i,
{
    if 0 <= i < s.len() && is_ws(s[i]) {
        spec_skip_ws(s, i + 1)
    } else {
        i
    }
}

/// Scan the rest of a string token (the opening quote already consumed),
/// skipping escape pairs; the result is the position after the closing
/// quote.
pub open spec fn spec_scan_string_from(s: Seq<char>, i: int, esc: bool) -> Option<int>
    decreases s.len() - i,
{
    if !(0 <= i < s.len()) {
        None
    } else if esc {
        spec_scan_string_from(s, i + 1, false)
    } else if s[i] == '\\' {
        spec_scan_string_from(s, i + 1, true)
    } else if s[i] == '"' {
        Some(i + 1)
    } else {
        spec_scan_string_from(s, i + 1, false)
    }
}

/// Scan the rest of an object or array (the opening bracket already
/// consumed), one character at a time. `stack` holds the kinds of the open
/// brackets, innermost last (`true` for an object, `false` for an array), so
/// a closer of the wrong kind fails the scan; `in_str` and `esc` track
/// strings and backslashes. The result is the position after the bracket
/// that closes the outermost one.
pub open spec fn spec_scan_container(
    s: Seq<char>,
    i: int,
    stack: Seq<bool>,
    in_str: bool,
    esc: bool,
) -> Option<int>
    decreases s.len() - i,
{
    if !(0 <= i < s.len()) {
        None
    } else if in_str {
        if esc {
            spec_scan_container(s, i + 1, stack, true, false)
        } else if s[i] == '\\' {
            spec_scan_container(s, i + 1, stack, true, true)
        } else if s[i] == '"' {
            spec_scan_container(s, i + 1, stack, false, false)
        } else {
            spec_scan_container(s, i + 1, stack, true, false)
        }
    } else {
        if s[i] == '"' {
            spec_scan_container(s, i + 1, stack, true, false)
        } else if s[i] == '{' {
            spec_scan_container(s, i + 1, stack.push(true), false, false)
        } else if s[i] == '[' {
            spec_scan_container(s, i + 1, stack.push(false), false, false)
        } else if s[i] == '}' || s[i] == ']' {
            if stack.len() == 0 || stack.last() != (s[i] == '}') {
                None
            } else if stack.len() == 1 {
                Some(i + 1)
            } else {
                spec_scan_container(s, i + 1, stack.drop_last(), false, false)
            }
        } else {
            spec_scan_container(s, i + 1, stack, false, false)
        }
    }
}

/// A character that ends a primitive token (number, boolean, null).
pub open spec fn is_prim_delim(c: char) -> bool {
    is_ws(c) || c == ',' || c == '}' || c == ']'
}

/// Scan the rest of a primitive token (its first character already
/// consumed): it runs to the next delimiter or to the end of input.
pub open spec fn spec_scan_prim(s: Seq<char>, i: int) -> int
    decreases s.len() - i,
{
    if 0 <= i < s.len() && !is_prim_delim(s[i]) {
        spec_scan_prim(s, i + 1)
    } else {
        i
    }
}

/// The extent of one JSON value starting at `i`: the position after its last
/// character, or `None` when no value starts there.
pub open spec fn spec_scan_value(s: Seq<char>, i: int) -> Option<int> {
    if !(0 <= i < s.len()) {
        None
    } else if s[i] == '"' {
        spec_scan_string_from(s, i + 1, false)
    } else if s[i] == '{' || s[i] == '[' {
        spec_scan_container(s, i + 1, seq![s[i] == '{'], false, false)
    } else if s[i] == '}' || s[i] == ']' || s[i] == ',' || s[i] == ':' || is_ws(s[i]) {
        None
    } else {
        Some(spec_scan_prim(s, i + 1))
    }
}

/// Accumulate decimal digits into `acc`; stops at the first non-digit.
/// `None` on u64 overflow.
pub open spec fn spec_parse_num_loop(s: Seq<char>, i: int, acc: u64) -> Option<(u64, int)>
    decreases s.len() - i,
{
    if 0 <= i < s.len() && is_digit(s[i]) {
        let d = spec_digit_val(s[i]);
        if acc > (u64::MAX - d) / 10 {
            None
        } else {
            spec_parse_num_loop(s, i + 1, (acc * 10 + d) as u64)
        }
    } else {
        Some((acc, i))
    }
}

/// An unsigned decimal number: at least one digit, no overflow.
pub open spec fn spec_parse_u64(s: Seq<char>, i: int) -> Option<(u64, int)> {
    if 0 <= i < s.len() && is_digit(s[i]) {
        spec_parse_num_loop(s, i, 0)
    } else {
        None
    }
}

/// The rest of a plain string token: content up to the closing quote, with
/// no escape sequences allowed (keys and event tags never carry them).
pub open spec fn spec_parse_string_from(s: Seq<char>, i: int, acc: Seq<char>) -> Option<
    (Seq<char>, int),
>
    decreases s.len() - i,
{
    if !(0 <= i < s.len()) {
        None
    } else if s[i] == '"' {
        Some((acc, i + 1))
    } else if s[i] == '\\' {
        None
    } else {
        spec_parse_string_from(s, i + 1, acc.push(s[i]))
    }
}

/// A plain string token starting at `i`.
pub open spec fn spec_parse_string(s: Seq<char>, i: int) -> Option<(Seq<char>, int)> {
    if 0 <= i < s.len() && s[i] == '"' {
        spec_parse_string_from(s, i + 1, Seq::empty())
    } else {
        None
    }
}

/// The literal `null` starts at `i`.
pub open spec fn spec_starts_null(s: Seq<char>, i: int) -> bool {
    &&& 0 <= i
    &&& i + 4 <= s.len()
    &&& s[i] == 'n'
    &&& s[i + 1] == 'u'
    &&& s[i + 2] == 'l'
    &&& s[i + 3] == 'l'
}

/// A number or `null`.
pub open spec fn spec_parse_opt_u64(s: Seq<char>, i: int) -> Option<(Option<u64>, int)> {
    if spec_starts_null(s, i) {
        Some((None, i + 4))
    } else {
        match spec_parse_u64(s, i) {
            Some((n, e)) => Some((Some(n), e)),
            None => None,
        }
    }
}

/// The envelope fields gathered so far; `None` marks a key not seen yet.
#[verifier::ext_equal]
pub struct PartialV {
    pub op: Option<u64>,
    pub s: Option<Option<u64>>,
    pub t: Option<Option<Seq<char>>>,
    pub d: Option<Seq<char>>,
}

/// No envelope field seen yet.
pub open spec fn empty_partial() -> PartialV {
    PartialV { op: None, s: None, t: None, d: None }
}

pub open spec fn is_key_op(k: Seq<char>) -> bool {
    k.len() == 2 && k[0] == 'o' && k[1] == 'p'
}

pub open spec fn is_key_s(k: Seq<char>) -> bool {
    k.len() == 1 && k[0] == 's'
}

pub open spec fn is_key_t(k: Seq<char>) -> bool {
    k.len() == 1 && k[0] == 't'
}

pub open spec fn is_key_d(k: Seq<char>) -> bool {
    k.len() == 1 && k[0] == 'd'
}

/// One member's value, dispatched on its key. A known key seen twice is
/// malformed; an unknown key's value is scanned and ignored.
pub open spec fn spec_parse_member_value(s: Seq<char>, i: int, key: Seq<char>, p: PartialV) -> Option<
    (PartialV, int),
> {
    if is_key_op(key) {
        if p.op is Some {
            None
        } else {
            match spec_parse_u64(s, i) {
                Some((n, e)) => Some((PartialV { op: Some(n), ..p }, e)),
                None => None,
            }
        }
    } else if is_key_s(key) {
        if p.s is Some {
            None
        } else {
            match spec_parse_opt_u64(s, i) {
                Some((n, e)) => Some((PartialV { s: Some(n), ..p }, e)),
                None => None,
            }
        }
    } else if is_key_t(key) {
        if p.t is Some {
            None
        } else if spec_starts_null(s, i) {
            Some((PartialV { t: Some(None), ..p }, i + 4))
        } else {
            match spec_parse_string(s, i) {
                Some((c, e)) => Some((PartialV { t: Some(Some(c)), ..p }, e)),
                None => None,
            }
        }
    } else if is_key_d(key) {
        if p.d is Some {
            None
        } else {
            match spec_scan_value(s, i) {
                Some(e) => Some((PartialV { d: Some(s.subrange(i, e)), ..p }, e)),
                None => None,
            }
        }
    } else {
        match spec_scan_value(s, i) {
            Some(e) => Some((p, e)),
            None => None,
        }
    }
}

/// The members of the envelope object, from a position just after `{` or a
/// `,`; the result is the gathered fields and the position after `}`.
pub open spec fn spec_parse_members(s: Seq<char>, i: int, p: PartialV) -> Option<(PartialV, int)>
    decreases s.len() - i,
{
    let k0 = spec_skip_ws(s, i);
    match spec_parse_string(s, k0) {
        None => None,
        Some((key, j)) => {
            let j2 = spec_skip_ws(s, j);
            if !(j2 < s.len() && s[j2] == ':') {
                None
            } else {
                let v = spec_skip_ws(s, j2 + 1);
                match spec_parse_member_value(s, v, key, p) {
                    None => None,
                    Some((p2, e)) => {
                        let w = spec_skip_ws(s, e);
                        if w < s.len() && s[w] == ',' {
                            if i < w + 1 <= s.len() {
                                spec_parse_members(s, w + 1, p2)
                            } else {
                                None
                            }
                        } else if w < s.len() && s[w] == '}' {
                            Some((p2, w + 1))
                        } else {
                            None
                        }
                    },
                }
            }
        },
    }
}

/// The payload text a frame carries when the envelope had no `d` member.
pub open spec fn null_payload() -> Seq<char> {
    seq!['n', 'u', 'l', 'l']
}

/// The whole decoder: envelope object, required `op`, opcode lookup,
/// defaulted `d`, and the `s`/`t` if-and-only-if-`Dispatch` invariant.
pub open spec fn spec_decode(s: Seq<char>) -> Result<FrameV, DecodeError> {
    let i = spec_skip_ws(s, 0);
    if !(i < s.len() && s[i] == '{') {
        Err(DecodeError::MalformedFrame)
    } else {
        match spec_parse_members(s, i + 1, empty_partial()) {
            None => Err(DecodeError::MalformedFrame),
            Some((p, e)) => {
                if spec_skip_ws(s, e) != s.len() {
                    Err(DecodeError::MalformedFrame)
                } else {
                    match p.op {
                        None => Err(DecodeError::MalformedFrame),
                        Some(n) => match spec_opcode_of(n) {
                            None => Err(DecodeError::UnknownOpcode),
                            Some(op) => {
                                let sv: Option<u64> = match p.s {
                                    Some(x) => x,
                                    None => None,
                                };
                                let tv: Option<Seq<char>> = match p.t {
                                    Some(x) => x,
                                    None => None,
                                };
                                let dv = match p.d {
                                    Some(x) => x,
                                    None => null_payload(),
                                };
                                if ((op == GatewayEvents::Dispatch) <==> (sv is Some)) && ((op
                                    == GatewayEvents::Dispatch) <==> (tv is Some)) {
                                    Ok(FrameV { op, s: sv, t: tv, d: dv })
                                } else {
                                    Err(DecodeError::MalformedFrame)
                                }
                            },
                        },
                    }
                }
            },
        }
    }
}

/// The decimal rendering of a number, most significant digit first.
pub open spec fn spec_render_u64(n: u64) -> Seq<char>
    decreases n,
{
    if n < 10 {
        seq![spec_digit_char(n)]
    } else {
        spec_render_u64(n / 10).push(spec_digit_char(n % 10))
    }
}

/// Text fit to stand between quotes unescaped (an event tag, a token, a
/// session id): no quote, no backslash. The canonical encoder writes such
/// text verbatim.
pub open spec fn plain_wf(t: Seq<char>) -> bool {
    forall|i: int| 0 <= i < t.len() ==> t[i] != '"' && t[i] != '\\'
}

/// A frame the encoder accepts: the `s`/`t` iff `Dispatch` invariant, a
/// well-formed tag, and a payload text that scans as exactly one value.
pub open spec fn frame_wf(f: FrameV) -> bool {
    &&& (f.op == GatewayEvents::Dispatch) <==> (f.s is Some)
    &&& (f.op == GatewayEvents::Dispatch) <==> (f.t is Some)
    &&& match f.t {
        Some(t) => plain_wf(t),
        None => true,
    }
    &&& spec_scan_value(f.d, 0) == Some(f.d.len() as int)
}

/// The canonical encoding: fixed key order, no whitespace, the payload text
/// spliced in verbatim.
pub open spec fn spec_encode(f: FrameV) -> Seq<char> {
    let head = seq!['{', '"', 'o', 'p', '"', ':'] + spec_render_u64(spec_opcode(f.op));
    let mid = if f.op == GatewayEvents::Dispatch {
        seq![',', '"', 's', '"', ':'] + spec_render_u64(f.s->Some_0) + seq![
            ',',
            '"',
            't',
            '"',
            ':',
            '"',
        ] + f.t->Some_0 + seq!['"']
    } else {
        Seq::<char>::empty()
    };
    head + mid + seq![',', '"', 'd', '"', ':'] + f.d + seq!['}']
}

// ---------------------------------------------------------------------------
// Executable code
// ---------------------------------------------------------------------------

/// First non-whitespace position at or after `i`.
fn skip_ws_x(v: &[char], i: usize) -> (r: usize)
    requires
        i <= v.len(),
    ensures
        r == spec_skip_ws(v@, i as int),
        i <= r <= v.len(),
        r < v.len() ==> !is_ws(v@[r as int]),
{
    let mut j = i;
    while j < v.len() && (v[j] == ' ' || v[j] == '\t' || v[j] == '\n' || v[j] == '\r')
        invariant
            i <= j <= v.len(),
            spec_skip_ws(v@, i as int) == spec_skip_ws(v@, j as int),
        decreases v.len() - j,
    {
        j = j + 1;
    }
    j
}

/// Scan a string token from just after its opening quote.
fn scan_string_from_x(v: &[char], i: usize) -> (r: Option<usize>)
    requires
        i <= v.len(),
    ensures
        match r {
            Some(e) => spec_scan_string_from(v@, i as int, false) == Some(e as int) && i < e
                <= v.len(),
            None => spec_scan_string_from(v@, i as int, false) is None,
        },
{
    let mut j = i;
    let mut esc = false;
    loop
        invariant
            i <= j <= v.len(),
            spec_scan_string_from(v@, i as int, false) == spec_scan_string_from(
                v@,
                j as int,
                esc,
            ),
        decreases v.len() - j,
    {
        if j >= v.len() {
            return None;
        }
        let c = v[j];
        if esc {
            esc = false;
            j = j + 1;
        } else if c == '\\' {
            esc = true;
            j = j + 1;
        } else if c == '"' {
            return Some(j + 1);
        } else {
            j = j + 1;
        }
    }
}

/// Scan an object or array from just after its opening bracket; `first_obj`
/// says whether that bracket was `{`.
fn scan_container_x(v: &[char], i: usize, first_obj: bool) -> (r: Option<usize>)
    requires
        i <= v.len(),
    ensures
        match r {
            Some(e) => spec_scan_container(v@, i as int, seq![first_obj], false, false) == Some(
                e as int,
            ) && i < e <= v.len(),
            None => spec_scan_container(v@, i as int, seq![first_obj], false, false) is None,
        },
{
    let mut j = i;
    let mut stack: Vec<bool> = Vec::new();
    stack.push(first_obj);
    proof {
        assert(stack@ =~= seq![first_obj]);
    }
    let mut in_str = false;
    let mut esc = false;
    loop
        invariant
            i <= j <= v.len(),
            stack@.len() >= 1,
            !in_str ==> !esc,
            spec_scan_container(v@, i as int, seq![first_obj], false, false)
                == spec_scan_container(v@, j as int, stack@, in_str, esc),
        decreases v.len() - j,
    {
        proof {
            reveal_with_fuel(spec_scan_container, 2);
        }
        if j >= v.len() {
            return None;
        }
        let c = v[j];
        if in_str {
            if esc {
                esc = false;
            } else if c == '\\' {
                esc = true;
            } else if c == '"' {
                in_str = false;
            }
            j = j + 1;
        } else {
            if c == '"' {
                in_str = true;
                j = j + 1;
            } else if c == '{' {
                stack.push(true);
                j = j + 1;
            } else if c == '[' {
                stack.push(false);
                j = j + 1;
            } else if c == '}' || c == ']' {
                let top = stack[stack.len() - 1];
                if top != (c == '}') {
                    return None;
                }
                if stack.len() == 1 {
                    return Some(j + 1);
                }
                let ghost prior = stack@;
                stack.pop();
                proof {
                    assert(stack@ =~= prior.drop_last());
                }
                j = j + 1;
            } else {
                j = j + 1;
            }
        }
    }
}

/// Scan a primitive token from just after its first character.
fn scan_prim_x(v: &[char], i: usize) -> (r: usize)
    requires
        i <= v.len(),
    ensures
        r == spec_scan_prim(v@, i as int),
        i <= r <= v.len(),
{
    let mut j = i;
    while j < v.len() && !(v[j] == ' ' || v[j] == '\t' || v[j] == '\n' || v[j] == '\r' || v[j]
        == ',' || v[j] == '}' || v[j] == ']')
        invariant
            i <= j <= v.len(),
            spec_scan_prim(v@, i as int) == spec_scan_prim(v@, j as int),
        decreases v.len() - j,
    {
        j = j + 1;
    }
    j
}

/// The extent of one JSON value starting at `i`.
fn scan_value_x(v: &[char], i: usize) -> (r: Option<usize>)
    requires
        i <= v.len(),
    ensures
        match r {
            Some(e) => spec_scan_value(v@, i as int) == Some(e as int) && i < e <= v.len(),
            None => spec_scan_value(v@, i as int) is None,
        },
{
    if i >= v.len() {
        return None;
    }
    let c = v[i];
    if c == '"' {
        scan_string_from_x(v, i + 1)
    } else if c == '{' || c == '[' {
        scan_container_x(v, i + 1, c == '{')
    } else if c == '}' || c == ']' || c == ',' || c == ':' || c == ' ' || c == '\t' || c == '\n'
        || c == '\r' {
        None
    } else {
        Some(scan_prim_x(v, i + 1))
    }
}

/// An unsigned decimal number starting at `i`.
fn parse_u64_x(v: &[char], i: usize) -> (r: Option<(u64, usize)>)
    requires
        i <= v.len(),
    ensures
        match r {
            Some(p) => spec_parse_u64(v@, i as int) == Some((p.0, p.1 as int)) && i < p.1
                <= v.len(),
            None => spec_parse_u64(v@, i as int) is None,
        },
{
    if !(i < v.len() && digit_value(v[i]).is_some()) {
        return None;
    }
    let mut j = i;
    let mut acc: u64 = 0;
    loop
        invariant
            i <= j <= v.len(),
            i < v.len() && is_digit(v@[i as int]),
            j == i ==> acc == 0,
            spec_parse_num_loop(v@, i as int, 0) == spec_parse_num_loop(v@, j as int, acc),
        decreases v.len() - j,
    {
        if j >= v.len() {
            return Some((acc, j));
        }
        match digit_value(v[j]) {
            Some(d) => {
                if acc > (u64::MAX - d) / 10 {
                    return None;
                }
                acc = acc * 10 + d;
                j = j + 1;
            },
            None => {
                return Some((acc, j));
            },
        }
    }
}

/// The value of a decimal digit, `None` for any other character.
fn digit_value(c: char) -> (r: Option<u64>)
    ensures
        r is Some <==> is_digit(c),
        r is Some ==> r->Some_0 == spec_digit_val(c) && r->Some_0 < 10,
{
    match c {
        '0' => Some(0),
        '1' => Some(1),
        '2' => Some(2),
        '3' => Some(3),
        '4' => Some(4),
        '5' => Some(5),
        '6' => Some(6),
        '7' => Some(7),
        '8' => Some(8),
        '9' => Some(9),
        _ => None,
    }
}

/// A plain string token starting at `i`; returns its content.
fn parse_string_x(v: &[char], i: usize) -> (r: Option<(Vec<char>, usize)>)
    requires
        i <= v.len(),
    ensures
        match r {
            Some(p) => spec_parse_string(v@, i as int) == Some((p.0@, p.1 as int)) && i < p.1
                <= v.len(),
            None => spec_parse_string(v@, i as int) is None,
        },
{
    if !(i < v.len() && v[i] == '"') {
        return None;
    }
    let mut j = i + 1;
    let mut acc: Vec<char> = Vec::new();
    loop
        invariant
            i + 1 <= j <= v.len(),
            i < v.len() && v@[i as int] == '"',
            spec_parse_string_from(v@, (i + 1) as int, Seq::empty()) == spec_parse_string_from(
                v@,
                j as int,
                acc@,
            ),
        decreases v.len() - j,
    {
        if j >= v.len() {
            return None;
        }
        let c = v[j];
        if c == '"' {
            return Some((acc, j + 1));
        } else if c == '\\' {
            return None;
        } else {
            acc.push(c);
            j = j + 1;
        }
    }
}

/// The envelope fields gathered so far, executable form.
pub struct Partial {
    pub op: Option<u64>,
    pub s: Option<Option<u64>>,
    pub t: Option<Option<Vec<char>>>,
    pub d: Option<Vec<char>>,
}

impl View for Partial {
    type V = PartialV;

    open spec fn view(&self) -> PartialV {
        PartialV {
            op: self.op,
            s: self.s,
            t: match &self.t {
                None => None,
                Some(None) => Some(None),
                Some(Some(x)) => Some(Some(x@)),
            },
            d: match &self.d {
                None => None,
                Some(x) => Some(x@),
            },
        }
    }
}

/// The members of the envelope object; mirrors `spec_parse_members`.
fn parse_members_x(v: &[char], i: usize, p: Partial) -> (r: Option<(Partial, usize)>)
    requires
        i <= v.len(),
    ensures
        match r {
            Some(q) => spec_parse_members(v@, i as int, p@) == Some((q.0@, q.1 as int)) && q.1
                <= v.len(),
            None => spec_parse_members(v@, i as int, p@) is None,
        },
    decreases v.len() - i,
{
    let k0 = skip_ws_x(v, i);
    let (key, j) = match parse_string_x(v, k0) {
        Some(q) => q,
        None => {
            return None;
        },
    };
    let j2 = skip_ws_x(v, j);
    if !(j2 < v.len() && v[j2] == ':') {
        return None;
    }
    let vpos = skip_ws_x(v, j2 + 1);
    let is_op = key.len() == 2 && key[0] == 'o' && key[1] == 'p';
    let is_s = key.len() == 1 && key[0] == 's';
    let is_t = key.len() == 1 && key[0] == 't';
    let is_d = key.len() == 1 && key[0] == 'd';
    let mut p2 = p;
    let e: usize;
    if is_op {
        if p2.op.is_some() {
            return None;
        }
        match parse_u64_x(v, vpos) {
            Some(q) => {
                p2.op = Some(q.0);
                e = q.1;
            },
            None => {
                return None;
            },
        }
    } else if is_s {
        if p2.s.is_some() {
            return None;
        }
        if starts_null_x(v, vpos) {
            p2.s = Some(None);
            e = vpos + 4;
        } else {
            match parse_u64_x(v, vpos) {
                Some(q) => {
                    p2.s = Some(Some(q.0));
                    e = q.1;
                },
                None => {
                    return None;
                },
            }
        }
    } else if is_t {
        if p2.t.is_some() {
            return None;
        }
        if starts_null_x(v, vpos) {
            p2.t = Some(None);
            e = vpos + 4;
        } else {
            match parse_string_x(v, vpos) {
                Some(q) => {
                    p2.t = Some(Some(q.0));
                    e = q.1;
                },
                None => {
                    return None;
                },
            }
        }
    } else if is_d {
        if p2.d.is_some() {
            return None;
        }
        match scan_value_x(v, vpos) {
            Some(e2) => {
                let raw = vstd::slice::slice_to_vec(vstd::slice::slice_subrange(v, vpos, e2));
                p2.d = Some(raw);
                e = e2;
            },
            None => {
                return None;
            },
        }
    } else {
        match scan_value_x(v, vpos) {
            Some(e2) => {
                e = e2;
            },
            None => {
                return None;
            },
        }
    }
    proof {
        assert(spec_parse_member_value(v@, vpos as int, key@, p@) == Some((p2@, e as int)));
    }
    let w = skip_ws_x(v, e);
    if w < v.len() && v[w] == ',' {
        parse_members_x(v, w + 1, p2)
    } else if w < v.len() && v[w] == '}' {
        Some((p2, w + 1))
    } else {
        None
    }
}

/// Decode one wire envelope. The result is exactly `spec_decode` of the
/// input text.
pub fn decode(v: &[char]) -> (r: Result<Frame, DecodeError>)
    ensures
        match r {
            Ok(f) => spec_decode(v@) == Ok::<FrameV, DecodeError>(f@),
            Err(e) => spec_decode(v@) == Err::<FrameV, DecodeError>(e),
        },
{
    let i = skip_ws_x(v, 0);
    if !(i < v.len() && v[i] == '{') {
        return Err(DecodeError::MalformedFrame);
    }
    let p0 = Partial { op: None, s: None, t: None, d: None };
    proof {
        assert(p0@ == empty_partial());
    }
    let (p, end) = match parse_members_x(v, i + 1, p0) {
        Some(q) => q,
        None => {
            return Err(DecodeError::MalformedFrame);
        },
    };
    let f = skip_ws_x(v, end);
    if f != v.len() {
        return Err(DecodeError::MalformedFrame);
    }
    let n = match p.op {
        Some(n) => n,
        None => {
            return Err(DecodeError::MalformedFrame);
        },
    };
    let op = match crate::events::opcode_of(n) {
        Some(op) => op,
        None => {
            return Err(DecodeError::UnknownOpcode);
        },
    };
    let sv: Option<u64> = match p.s {
        Some(x) => x,
        None => None,
    };
    let tv: Option<Vec<char>> = match p.t {
        Some(x) => x,
        None => None,
    };
    let dv: Vec<char> = match p.d {
        Some(x) => x,
        None => {
            let mut nv: Vec<char> = Vec::new();
            nv.push('n');
            nv.push('u');
            nv.push('l');
            nv.push('l');
            proof {
                assert(nv@ =~= null_payload());
            }
            nv
        },
    };
    let is_dispatch = op == GatewayEvents::Dispatch;
    if (is_dispatch != sv.is_some()) || (is_dispatch != tv.is_some()) {
        return Err(DecodeError::MalformedFrame);
    }
    let fr = Frame { op, s: sv, t: tv, d: dv };
    Ok(fr)
}

/// Append an outbound control frame (anything but `Dispatch`) around a raw
/// payload text; exactly the canonical encoding of that frame.
fn build_control_frame(op: GatewayEvents, d: Vec<char>) -> (r: Vec<char>)
    requires
        op != GatewayEvents::Dispatch,
    ensures
        r@ == spec_encode(FrameV { op, s: None, t: None, d: d@ }),
{
    let mut out: Vec<char> = Vec::new();
    out.push('{');
    out.push('"');
    out.push('o');
    out.push('p');
    out.push('"');
    out.push(':');
    let opv = op.opcode_value();
    push_u64(&mut out, opv);
    out.push(',');
    out.push('"');
    out.push('d');
    out.push('"');
    out.push(':');
    push_chars(&mut out, d.as_slice());
    out.push('}');
    proof {
        assert(out@ =~= spec_encode(FrameV { op, s: None, t: None, d: d@ }));
    }
    out
}

/// The payload of an outbound heartbeat: the stored last sequence number,
/// or `null` before any was seen.
pub open spec fn spec_heartbeat_payload(seq: Option<u64>) -> Seq<char> {
    match seq {
        Some(n) => spec_render_u64(n),
        None => null_payload(),
    }
}

/// The wire text of one heartbeat frame whose `d` is exactly the stored
/// last sequence number (or `null` before any was seen).
pub fn heartbeat_frame(seq: Option<u64>) -> (r: Vec<char>)
    ensures
        r@ == spec_encode(
            FrameV {
                op: GatewayEvents::Heartbeat,
                s: None,
                t: None,
                d: spec_heartbeat_payload(seq),
            },
        ),
{
    let mut d: Vec<char> = Vec::new();
    match seq {
        Some(n) => {
            push_u64(&mut d, n);
        },
        None => {
            d.push('n');
            d.push('u');
            d.push('l');
            d.push('l');
            proof {
                assert(d@ =~= null_payload());
            }
        },
    }
    build_control_frame(GatewayEvents::Heartbeat, d)
}

/// Append a string's characters.
fn push_str(out: &mut Vec<char>, s: &str)
    ensures
        final(out)@ == old(out)@ + s@,
{
    let n = s.unicode_len();
    let mut k: usize = 0;
    while k < n
        invariant
            k <= n,
            n == s@.len(),
            out@ == old(out)@ + s@.subrange(0, k as int),
        decreases n - k,
    {
        let c = s.get_char(k);
        out.push(c);
        k = k + 1;
        proof {
            assert(out@ =~= old(out)@ + s@.subrange(0, k as int));
        }
    }
    proof {
        assert(out@ =~= old(out)@ + s@);
    }
}

/// Whether a run of characters may stand between quotes unescaped.
pub fn is_plain_text(t: &[char]) -> (r: bool)
    ensures
        r == plain_wf(t@),
{
    let mut k: usize = 0;
    while k < t.len()
        invariant
            k <= t.len(),
            forall|i: int| 0 <= i < k ==> t@[i] != '"' && t@[i] != '\\',
        decreases t.len() - k,
    {
        if t[k] == '"' || t[k] == '\\' {
            return false;
        }
        k = k + 1;
    }
    true
}

/// The payload of an `Identify`: the credential, the intents, and fixed
/// connection properties.
pub open spec fn spec_identify_payload(token: Seq<char>, intents: u64) -> Seq<char> {
    "{\"token\":\""@ + token + "\",\"intents\":"@ + spec_render_u64(intents)
        + ",\"properties\":{\"os\":\"linux\",\"browser\":\"discord_gateway\",\"device\":\"discord_gateway\"}}"@
}

/// The payload of a `Resume`: the credential, the stored session id, and
/// the stored sequence number.
pub open spec fn spec_resume_payload(token: Seq<char>, session_id: Seq<char>, seq: u64) -> Seq<
    char,
> {
    "{\"token\":\""@ + token + "\",\"session_id\":\""@ + session_id + "\",\"seq\":"@
        + spec_render_u64(seq) + "}"@
}

/// The wire text of one `Identify` frame; `None` exactly when the token
/// cannot stand between quotes unescaped.
pub fn identify_frame(token: &[char], intents: u64) -> (r: Option<Vec<char>>)
    ensures
        (r is Some) == plain_wf(token@),
        r matches Some(out) ==> out@ == spec_encode(
            FrameV {
                op: GatewayEvents::Identify,
                s: None,
                t: None,
                d: spec_identify_payload(token@, intents),
            },
        ),
{
    if !is_plain_text(token) {
        return None;
    }
    let mut d: Vec<char> = Vec::new();
    push_str(&mut d, "{\"token\":\"");
    push_chars(&mut d, token);
    push_str(&mut d, "\",\"intents\":");
    push_u64(&mut d, intents);
    push_str(
        &mut d,
        ",\"properties\":{\"os\":\"linux\",\"browser\":\"discord_gateway\",\"device\":\"discord_gateway\"}}",
    );
    proof {
        assert(d@ =~= spec_identify_payload(token@, intents));
    }
    Some(build_control_frame(GatewayEvents::Identify, d))
}

/// The wire text of one `Resume` frame carrying the stored session id and
/// sequence number; `None` exactly when the token or the session id cannot
/// stand between quotes unescaped.
pub fn resume_frame(token: &[char], session_id: &[char], seq: u64) -> (r: Option<Vec<char>>)
    ensures
        (r is Some) == (plain_wf(token@) && plain_wf(session_id@)),
        r matches Some(out) ==> out@ == spec_encode(
            FrameV {
                op: GatewayEvents::Resume,
                s: None,
                t: None,
                d: spec_resume_payload(token@, session_id@, seq),
            },
        ),
{
    if !is_plain_text(token) || !is_plain_text(session_id) {
        return None;
    }
    let mut d: Vec<char> = Vec::new();
    push_str(&mut d, "{\"token\":\"");
    push_chars(&mut d, token);
    push_str(&mut d, "\",\"session_id\":\"");
    push_chars(&mut d, session_id);
    push_str(&mut d, "\",\"seq\":");
    push_u64(&mut d, seq);
    push_str(&mut d, "}");
    proof {
        assert(d@ =~= spec_resume_payload(token@, session_id@, seq));
    }
    Some(build_control_frame(GatewayEvents::Resume, d))
}

/// Encode an outbound control frame (anything but `Dispatch`) over a raw
/// payload text, after checking that the payload scans as one complete JSON
/// value; `None` when it does not or the opcode is `Dispatch`.
pub fn encode_command(op: GatewayEvents, d: Vec<char>) -> (r: Option<Vec<char>>)
    ensures
        match r {
            Some(out) => {
                let f = FrameV { op, s: None, t: None, d: d@ };
                frame_wf(f) && out@ == spec_encode(f)
            },
            None => op == GatewayEvents::Dispatch || spec_scan_value(d@, 0) != Some(
                d@.len() as int,
            ),
        },
{
    if op == GatewayEvents::Dispatch {
        return None;
    }
    match scan_value_x(d.as_slice(), 0) {
        Some(e) => {
            if e == d.len() {
                let f = Frame { op, s: None, t: None, d };
                Some(encode(&f))
            } else {
                None
            }
        },
        None => None,
    }
}

/// The decimal digit of a value below ten.
fn digit_char_x(d: u64) -> (c: char)
    requires
        d < 10,
    ensures
        c == spec_digit_char(d),
{
    match d {
        0 => '0',
        1 => '1',
        2 => '2',
        3 => '3',
        4 => '4',
        5 => '5',
        6 => '6',
        7 => '7',
        8 => '8',
        _ => '9',
    }
}

/// Append the decimal rendering of `n`.
fn push_u64(out: &mut Vec<char>, n: u64)
    ensures
        final(out)@ == old(out)@ + spec_render_u64(n),
    decreases n,
{
    if n < 10 {
        let c = digit_char_x(n);
        out.push(c);
        proof {
            assert(out@ =~= old(out)@ + spec_render_u64(n));
        }
    } else {
        push_u64(out, n / 10);
        let c = digit_char_x(n % 10);
        out.push(c);
        proof {
            assert(out@ =~= old(out)@ + spec_render_u64(n));
        }
    }
}

/// Append a run of characters.
fn push_chars(out: &mut Vec<char>, s: &[char])
    ensures
        final(out)@ == old(out)@ + s@,
{
    let mut k: usize = 0;
    while k < s.len()
        invariant
            k <= s.len(),
            out@ == old(out)@ + s@.subrange(0, k as int),
        decreases s.len() - k,
    {
        out.push(s[k]);
        k = k + 1;
        proof {
            assert(out@ =~= old(out)@ + s@.subrange(0, k as int));
        }
    }
    proof {
        assert(out@ =~= old(out)@ + s@);
    }
}

/// Encode a frame canonically: fixed key order, no whitespace. The result
/// is exactly `spec_encode` of the frame.
pub fn encode(f: &Frame) -> (r: Vec<char>)
    requires
        frame_wf(f@),
    ensures
        r@ == spec_encode(f@),
{
    let mut out: Vec<char> = Vec::new();
    out.push('{');
    out.push('"');
    out.push('o');
    out.push('p');
    out.push('"');
    out.push(':');
    let opv = f.op.opcode_value();
    push_u64(&mut out, opv);
    if f.op == GatewayEvents::Dispatch {
        if let (Some(sv), Some(tv)) = (&f.s, &f.t) {
            out.push(',');
            out.push('"');
            out.push('s');
            out.push('"');
            out.push(':');
            push_u64(&mut out, *sv);
            out.push(',');
            out.push('"');
            out.push('t');
            out.push('"');
            out.push(':');
            out.push('"');
            push_chars(&mut out, tv.as_slice());
            out.push('"');
        }
    }
    out.push(',');
    out.push('"');
    out.push('d');
    out.push('"');
    out.push(':');
    push_chars(&mut out, f.d.as_slice());
    out.push('}');
    proof {
        assert(out@ =~= spec_encode(f@));
    }
    out
}

/// The literal `null` starts at `i`.
fn starts_null_x(v: &[char], i: usize) -> (r: bool)
    requires
        i <= v.len(),
    ensures
        r == spec_starts_null(v@, i as int),
{
    if v.len() < 4 || i > v.len() - 4 {
        false
    } else {
        v[i] == 'n' && v[i + 1] == 'u' && v[i + 2] == 'l' && v[i + 3] == 'l'
    }
}

// ---------------------------------------------------------------------------
// Round-trip: decoding a canonical encoding yields the frame back
// ---------------------------------------------------------------------------

/// Powers of ten.
pub open spec fn pow10(k: nat) -> nat
    decreases k,
{
    if k == 0 {
        1
    } else {
        10 * pow10((k - 1) as nat)
    }
}

/// A decimal rendering is never empty and holds digits only.
proof fn lemma_render_digits(n: u64)
    ensures
        spec_render_u64(n).len() >= 1,
        forall|k: int|
            0 <= k < spec_render_u64(n).len() ==> is_digit(#[trigger] spec_render_u64(n)[k]),
    decreases n,
{
    if n >= 10 {
        lemma_render_digits(n / 10);
    }
}

/// Consuming a rendered number advances the digit accumulator exactly by
/// that number, scaled by the digits consumed.
proof fn lemma_parse_num_render(s: Seq<char>, i: int, acc: u64, n: u64)
    requires
        0 <= i,
        i + spec_render_u64(n).len() <= s.len(),
        s.subrange(i, i + spec_render_u64(n).len() as int) == spec_render_u64(n),
        acc * pow10(spec_render_u64(n).len() as nat) + n <= u64::MAX,
    ensures
        spec_parse_num_loop(s, i, acc) == spec_parse_num_loop(
            s,
            i + spec_render_u64(n).len() as int,
            (acc * pow10(spec_render_u64(n).len() as nat) + n) as u64,
        ),
    decreases n,
{
    let r = spec_render_u64(n);
    let l = r.len() as int;
    if n < 10 {
        assert(r == seq![spec_digit_char(n)]);
        assert(s[i] == r[0]);
        assert(is_digit(s[i]) && spec_digit_val(s[i]) == n);
        assert(pow10(1) == 10) by {
            reveal_with_fuel(pow10, 2);
        }
        let d = spec_digit_val(s[i]);
        assert(acc * 10 + n <= u64::MAX);
        assert(acc <= (u64::MAX - d) / 10) by {
            assert(acc * 10 + d <= u64::MAX);
            assert(acc <= (u64::MAX - d) / 10 <==> acc * 10 <= u64::MAX - d) by (nonlinear_arith);
        }
        assert(spec_parse_num_loop(s, i, acc) == spec_parse_num_loop(s, i + 1, (acc * 10
            + d) as u64));
    } else {
        let m = n / 10;
        let d = n % 10;
        let rm = spec_render_u64(m);
        let lm = rm.len() as int;
        assert(r == rm.push(spec_digit_char(d)));
        assert(l == lm + 1);
        assert(s.subrange(i, i + lm) =~= rm) by {
            assert(forall|k: int| 0 <= k < lm ==> s.subrange(i, i + l)[k] == rm[k]);
        }
        assert(pow10((lm + 1) as nat) == 10 * pow10(lm as nat));
        assert(n == 10 * m + d);
        // The full target value, and the value after the leading digits.
        let full = acc * pow10((lm + 1) as nat) + n;
        let part = acc * pow10(lm as nat) + m;
        assert(full == 10 * part + d) by (nonlinear_arith)
            requires
                full == acc * (10 * pow10(lm as nat)) + 10 * m + d && part == acc * pow10(
                    lm as nat,
                ) + m,
        ;
        assert(part <= u64::MAX) by (nonlinear_arith)
            requires
                full == 10 * part + d && full <= u64::MAX && d >= 0 && part >= 0,
        ;
        lemma_parse_num_render(s, i, acc, m);
        // One more digit: the overflow guard passes because the full value
        // fits.
        let acc2 = (acc * pow10(lm as nat) + m) as u64;
        assert(s[i + lm] == spec_digit_char(d)) by {
            assert(s.subrange(i, i + l)[lm] == r[lm]);
        }
        assert(is_digit(s[i + lm]) && spec_digit_val(s[i + lm]) == d);
        assert(acc2 <= (u64::MAX - d) / 10) by {
            assert(acc2 * 10 + d <= u64::MAX) by (nonlinear_arith)
                requires
                    acc2 == part && full == 10 * part + d && full <= u64::MAX,
            ;
            assert(acc2 <= (u64::MAX - d) / 10 <==> acc2 * 10 <= u64::MAX - d)
                by (nonlinear_arith);
        }
        assert(spec_parse_num_loop(s, i + lm, acc2) == spec_parse_num_loop(s, i + lm + 1, (acc2
            * 10 + d) as u64));
        assert((acc2 * 10 + d) as u64 == (acc * pow10(l as nat) + n) as u64) by (nonlinear_arith)
            requires
                acc2 == part && full == 10 * part + d && pow10((lm + 1) as nat) == 10 * pow10(
                    lm as nat,
                ) && full == acc * pow10((lm + 1) as nat) + n && l == lm + 1,
        ;
    }
}

/// Parsing at a rendered number yields that number and stops after it.
proof fn lemma_parse_u64_render(s: Seq<char>, i: int, n: u64)
    requires
        0 <= i,
        i + spec_render_u64(n).len() <= s.len(),
        s.subrange(i, i + spec_render_u64(n).len() as int) == spec_render_u64(n),
        i + spec_render_u64(n).len() == s.len() || !is_digit(
            s[i + spec_render_u64(n).len() as int],
        ),
    ensures
        spec_parse_u64(s, i) == Some((n, i + spec_render_u64(n).len() as int)),
{
    let r = spec_render_u64(n);
    let l = r.len() as int;
    lemma_render_digits(n);
    assert(s[i] == r[0]);
    assert(is_digit(s[i]));
    assert(pow10(l as nat) >= 1) by {
        lemma_pow10_pos(l as nat);
    }
    assert(0 * pow10(l as nat) + n <= u64::MAX) by (nonlinear_arith);
    lemma_parse_num_render(s, i, 0, n);
    assert((0 * pow10(l as nat) + n) as u64 == n) by (nonlinear_arith);
    assert(spec_parse_num_loop(s, i + l, n) == Some((n, i + l)));
}

proof fn lemma_pow10_pos(k: nat)
    ensures
        pow10(k) >= 1,
    decreases k,
{
    if k > 0 {
        lemma_pow10_pos((k - 1) as nat);
    }
}

/// Parsing a plain string token over known content gathers exactly that
/// content.
proof fn lemma_parse_string_content(s: Seq<char>, i: int, t: Seq<char>, acc: Seq<char>)
    requires
        0 <= i,
        i + t.len() + 1 <= s.len(),
        s.subrange(i, i + t.len() as int) == t,
        s[i + t.len() as int] == '"',
        plain_wf(t),
    ensures
        spec_parse_string_from(s, i, acc) == Some((acc + t, i + t.len() + 1)),
    decreases t.len(),
{
    if t.len() == 0 {
        assert(s[i] == '"');
        assert(acc + t =~= acc);
    } else {
        assert(s[i] == t[0]) by {
            assert(s.subrange(i, i + t.len() as int)[0] == t[0]);
        }
        assert(t[0] != '"' && t[0] != '\\');
        assert(s.subrange(i + 1, i + 1 + (t.len() - 1)) =~= t.drop_first()) by {
            assert(forall|k: int|
                0 <= k < t.len() - 1 ==> #[trigger] s.subrange(i, i + t.len() as int)[k + 1] == t[
                    k + 1
                ]);
        }
        assert(plain_wf(t.drop_first())) by {
            assert(forall|k: int|
                0 <= k < t.drop_first().len() ==> #[trigger] t.drop_first()[k] == t[k + 1]);
        }
        lemma_parse_string_content(s, i + 1, t.drop_first(), acc.push(t[0]));
        assert(acc.push(t[0]) + t.drop_first() =~= acc + t);
        assert(i + 1 + t.drop_first().len() + 1 == i + t.len() + 1);
    }
}

/// Parsing a quoted tag: quote, plain content, quote.
proof fn lemma_parse_string_quoted(s: Seq<char>, i: int, t: Seq<char>)
    requires
        0 <= i,
        i + t.len() + 2 <= s.len(),
        s[i] == '"',
        s.subrange(i + 1, i + 1 + t.len() as int) == t,
        s[i + 1 + t.len() as int] == '"',
        plain_wf(t),
    ensures
        spec_parse_string(s, i) == Some((t, i + t.len() + 2)),
{
    lemma_parse_string_content(s, i + 1, t, Seq::empty());
    assert(Seq::empty() + t =~= t);
}

/// A string scan inside `d` lands in the same place when `d` sits inside a
/// larger text.
proof fn lemma_scan_string_embed(d: Seq<char>, s: Seq<char>, off: int, j: int, esc: bool)
    requires
        0 <= off,
        off + d.len() <= s.len(),
        s.subrange(off, off + d.len() as int) == d,
        0 <= j <= d.len(),
        spec_scan_string_from(d, j, esc) is Some,
    ensures
        spec_scan_string_from(d, j, esc)->Some_0 <= d.len(),
        spec_scan_string_from(s, off + j, esc) == Some(
            off + spec_scan_string_from(d, j, esc)->Some_0,
        ),
    decreases d.len() - j,
{
    assert(j < d.len());
    assert(s[off + j] == d[j]) by {
        assert(s.subrange(off, off + d.len() as int)[j] == d[j]);
    }
    if esc {
        lemma_scan_string_embed(d, s, off, j + 1, false);
    } else if d[j] == '\\' {
        lemma_scan_string_embed(d, s, off, j + 1, true);
    } else if d[j] == '"' {
    } else {
        lemma_scan_string_embed(d, s, off, j + 1, false);
    }
}

/// A container scan inside `d` lands in the same place when `d` sits inside
/// a larger text.
proof fn lemma_scan_container_embed(
    d: Seq<char>,
    s: Seq<char>,
    off: int,
    j: int,
    stack: Seq<bool>,
    in_str: bool,
    esc: bool,
)
    requires
        0 <= off,
        off + d.len() <= s.len(),
        s.subrange(off, off + d.len() as int) == d,
        0 <= j <= d.len(),
        spec_scan_container(d, j, stack, in_str, esc) is Some,
    ensures
        spec_scan_container(d, j, stack, in_str, esc)->Some_0 <= d.len(),
        spec_scan_container(s, off + j, stack, in_str, esc) == Some(
            off + spec_scan_container(d, j, stack, in_str, esc)->Some_0,
        ),
    decreases d.len() - j,
{
    assert(j < d.len());
    assert(s[off + j] == d[j]) by {
        assert(s.subrange(off, off + d.len() as int)[j] == d[j]);
    }
    if in_str {
        if esc {
            lemma_scan_container_embed(d, s, off, j + 1, stack, true, false);
        } else if d[j] == '\\' {
            lemma_scan_container_embed(d, s, off, j + 1, stack, true, true);
        } else if d[j] == '"' {
            lemma_scan_container_embed(d, s, off, j + 1, stack, false, false);
        } else {
            lemma_scan_container_embed(d, s, off, j + 1, stack, true, false);
        }
    } else {
        if d[j] == '"' {
            lemma_scan_container_embed(d, s, off, j + 1, stack, true, false);
        } else if d[j] == '{' {
            lemma_scan_container_embed(d, s, off, j + 1, stack.push(true), false, false);
        } else if d[j] == '[' {
            lemma_scan_container_embed(d, s, off, j + 1, stack.push(false), false, false);
        } else if d[j] == '}' || d[j] == ']' {
            if stack.len() == 0 || stack.last() != (d[j] == '}') {
                assert(false);
            } else if stack.len() == 1 {
            } else {
                lemma_scan_container_embed(d, s, off, j + 1, stack.drop_last(), false, false);
            }
        } else {
            lemma_scan_container_embed(d, s, off, j + 1, stack, false, false);
        }
    }
}

/// A primitive scan inside `d` lands in the same place when `d` sits inside
/// a larger text whose next character is a delimiter.
proof fn lemma_scan_prim_embed(d: Seq<char>, s: Seq<char>, off: int, j: int)
    requires
        0 <= off,
        off + d.len() < s.len(),
        s.subrange(off, off + d.len() as int) == d,
        0 <= j <= d.len(),
        is_prim_delim(s[off + d.len() as int]),
    ensures
        spec_scan_prim(s, off + j) == off + spec_scan_prim(d, j),
    decreases d.len() - j,
{
    if j < d.len() {
        assert(s[off + j] == d[j]) by {
            assert(s.subrange(off, off + d.len() as int)[j] == d[j]);
        }
        if !is_prim_delim(d[j]) {
            lemma_scan_prim_embed(d, s, off, j + 1);
        }
    }
}

/// A complete value text, followed by a delimiter inside a larger text,
/// scans to exactly its own length.
proof fn lemma_scan_value_embed(d: Seq<char>, s: Seq<char>, off: int)
    requires
        0 <= off,
        off + d.len() < s.len(),
        s.subrange(off, off + d.len() as int) == d,
        is_prim_delim(s[off + d.len() as int]),
        spec_scan_value(d, 0) == Some(d.len() as int),
    ensures
        spec_scan_value(s, off) == Some(off + d.len()),
{
    assert(0 < d.len());
    assert(s[off] == d[0]) by {
        assert(s.subrange(off, off + d.len() as int)[0] == d[0]);
    }
    if d[0] == '"' {
        lemma_scan_string_embed(d, s, off, 1, false);
    } else if d[0] == '{' || d[0] == '[' {
        lemma_scan_container_embed(d, s, off, 1, seq![d[0] == '{'], false, false);
    } else if d[0] == '}' || d[0] == ']' || d[0] == ',' || d[0] == ':' || is_ws(d[0]) {
        assert(false);
    } else {
        assert(spec_scan_prim(d, 1) == d.len());
        lemma_scan_prim_embed(d, s, off, 1);
    }
}

/// Round trip for frames without `s` and `t` (every opcode but `Dispatch`).
proof fn lemma_roundtrip_plain(f: FrameV)
    requires
        frame_wf(f),
        f.op != GatewayEvents::Dispatch,
    ensures
        spec_decode(spec_encode(f)) == Ok::<FrameV, DecodeError>(f),
{
    let s = spec_encode(f);
    let opv = spec_opcode(f.op);
    let rr = spec_render_u64(opv);
    let lr = rr.len() as int;
    lemma_render_digits(opv);
    let dd = f.d;
    let ld = dd.len() as int;
    assert(spec_scan_value(dd, 0) == Some(ld));
    assert(0 < ld && !is_ws(dd[0]));
    let a2 = 6 + lr;
    let a3 = a2 + 5;
    let a4 = a3 + ld;
    let head = seq!['{', '"', 'o', 'p', '"', ':'] + rr;
    let tail = seq![',', '"', 'd', '"', ':'] + dd + seq!['}'];
    assert(s =~= head + tail);
    assert(s.len() == a4 + 1);
    assert(s[0] == '{' && s[1] == '"' && s[2] == 'o' && s[3] == 'p' && s[4] == '"' && s[5]
        == ':');
    assert(s.subrange(6, a2) =~= rr);
    assert(s[a2] == ',' && s[a2 + 1] == '"' && s[a2 + 2] == 'd' && s[a2 + 3] == '"' && s[a2 + 4]
        == ':');
    assert(s.subrange(a3, a4) =~= dd);
    assert(s[a4] == '}');

    // The envelope opens at position zero.
    assert(spec_skip_ws(s, 0) == 0);

    // First member: "op" with the rendered opcode.
    let p0 = empty_partial();
    assert(spec_skip_ws(s, 1) == 1);
    let kop = seq!['o', 'p'];
    assert(plain_wf(kop)) by {
        assert(forall|i: int| 0 <= i < kop.len() ==> kop[i] != '"' && kop[i] != '\\');
    }
    assert(s.subrange(2, 4) =~= kop);
    lemma_parse_string_quoted(s, 1, kop);
    assert(spec_parse_string(s, 1) == Some((kop, 5int)));
    assert(spec_skip_ws(s, 5) == 5);
    assert(!is_ws(s[6])) by {
        assert(s[6] == rr[0]);
    }
    assert(spec_skip_ws(s, 6) == 6);
    lemma_parse_u64_render(s, 6, opv);
    assert(spec_parse_u64(s, 6) == Some((opv, a2)));
    assert(is_key_op(kop) && !is_key_s(kop) && !is_key_t(kop) && !is_key_d(kop));
    let p1 = PartialV { op: Some(opv), ..p0 };
    assert(spec_parse_member_value(s, 6, kop, p0) == Some((p1, a2)));
    assert(spec_skip_ws(s, a2) == a2);
    assert(spec_parse_members(s, 1, p0) == spec_parse_members(s, a2 + 1, p1));

    // Second member: "d" with the raw payload.
    assert(spec_skip_ws(s, a2 + 1) == a2 + 1);
    let kd = seq!['d'];
    assert(plain_wf(kd)) by {
        assert(forall|i: int| 0 <= i < kd.len() ==> kd[i] != '"' && kd[i] != '\\');
    }
    assert(s.subrange(a2 + 2, a2 + 3) =~= kd);
    lemma_parse_string_quoted(s, a2 + 1, kd);
    assert(spec_parse_string(s, a2 + 1) == Some((kd, a2 + 4)));
    assert(spec_skip_ws(s, a2 + 4) == a2 + 4);
    assert(!is_ws(s[a3])) by {
        assert(s[a3] == dd[0]);
    }
    assert(spec_skip_ws(s, a2 + 5) == a3);
    lemma_scan_value_embed(dd, s, a3);
    assert(spec_scan_value(s, a3) == Some(a4));
    assert(!is_key_op(kd) && !is_key_s(kd) && !is_key_t(kd) && is_key_d(kd));
    let p2 = PartialV { d: Some(s.subrange(a3, a4)), ..p1 };
    assert(spec_parse_member_value(s, a3, kd, p1) == Some((p2, a4)));
    assert(spec_skip_ws(s, a4) == a4);
    assert(spec_parse_members(s, a2 + 1, p1) == Some((p2, a4 + 1)));

    // The object closes the text.
    assert(spec_skip_ws(s, a4 + 1) == s.len() as int);
    crate::events::lemma_opcode_roundtrip(f.op);
    assert(p2.d == Some(dd));
    assert(f.s is None && f.t is None);
    assert(spec_decode(s) == Ok::<FrameV, DecodeError>(
        FrameV { op: f.op, s: None, t: None, d: dd },
    ));
    assert(FrameV { op: f.op, s: None, t: None, d: dd } =~= f);
}

/// Round trip for `Dispatch` frames, which carry `s` and `t`.
#[verifier::rlimit(100)]
proof fn lemma_roundtrip_dispatch(f: FrameV)
    requires
        frame_wf(f),
        f.op == GatewayEvents::Dispatch,
    ensures
        spec_decode(spec_encode(f)) == Ok::<FrameV, DecodeError>(f),
{
    let s = spec_encode(f);
    let opv = spec_opcode(f.op);
    let rr = spec_render_u64(opv);
    let lr = rr.len() as int;
    lemma_render_digits(opv);
    let sval = f.s->Some_0;
    let rs = spec_render_u64(sval);
    let ls = rs.len() as int;
    lemma_render_digits(sval);
    let tt = f.t->Some_0;
    let lt = tt.len() as int;
    let dd = f.d;
    let ld = dd.len() as int;
    assert(spec_scan_value(dd, 0) == Some(ld));
    assert(0 < ld && !is_ws(dd[0]));
    let b0 = 6 + lr;  // ',' before "s"
    let b1 = b0 + 5;  // sequence number
    let b2 = b1 + ls;  // ',' before "t"
    let b3 = b2 + 6;  // tag content
    let b4 = b3 + lt;  // closing quote of the tag
    let b6 = b4 + 6;  // payload
    let b7 = b6 + ld;  // '}'
    let head = seq!['{', '"', 'o', 'p', '"', ':'] + rr;
    let mid = seq![',', '"', 's', '"', ':'] + rs + seq![',', '"', 't', '"', ':', '"'] + tt + seq![
        '"',
    ];
    let tail = seq![',', '"', 'd', '"', ':'] + dd + seq!['}'];
    assert(s =~= head + mid + tail);
    assert(s.len() == b7 + 1);
    assert(s[0] == '{' && s[1] == '"' && s[2] == 'o' && s[3] == 'p' && s[4] == '"' && s[5]
        == ':');
    assert(s.subrange(6, b0) =~= rr);
    assert(s[b0] == ',' && s[b0 + 1] == '"' && s[b0 + 2] == 's' && s[b0 + 3] == '"' && s[b0 + 4]
        == ':');
    assert(s.subrange(b1, b2) =~= rs);
    assert(s[b2] == ',' && s[b2 + 1] == '"' && s[b2 + 2] == 't' && s[b2 + 3] == '"' && s[b2 + 4]
        == ':' && s[b2 + 5] == '"');
    assert(s.subrange(b3, b4) =~= tt);
    assert(s[b4] == '"');
    assert(s[b4 + 1] == ',' && s[b4 + 2] == '"' && s[b4 + 3] == 'd' && s[b4 + 4] == '"' && s[b4
        + 5] == ':');
    assert(s.subrange(b6, b7) =~= dd);
    assert(s[b7] == '}');

    assert(spec_skip_ws(s, 0) == 0);

    // First member: "op".
    let p0 = empty_partial();
    assert(spec_skip_ws(s, 1) == 1);
    let kop = seq!['o', 'p'];
    assert(plain_wf(kop)) by {
        assert(forall|i: int| 0 <= i < kop.len() ==> kop[i] != '"' && kop[i] != '\\');
    }
    assert(s.subrange(2, 4) =~= kop);
    lemma_parse_string_quoted(s, 1, kop);
    assert(spec_skip_ws(s, 5) == 5);
    assert(!is_ws(s[6])) by {
        assert(s[6] == rr[0]);
    }
    assert(spec_skip_ws(s, 6) == 6);
    lemma_parse_u64_render(s, 6, opv);
    assert(is_key_op(kop) && !is_key_s(kop) && !is_key_t(kop) && !is_key_d(kop));
    let p1 = PartialV { op: Some(opv), ..p0 };
    assert(spec_parse_member_value(s, 6, kop, p0) == Some((p1, b0)));
    assert(spec_skip_ws(s, b0) == b0);
    assert(spec_parse_members(s, 1, p0) == spec_parse_members(s, b0 + 1, p1));

    // Second member: "s" with the rendered sequence number.
    assert(spec_skip_ws(s, b0 + 1) == b0 + 1);
    let ks = seq!['s'];
    assert(plain_wf(ks)) by {
        assert(forall|i: int| 0 <= i < ks.len() ==> ks[i] != '"' && ks[i] != '\\');
    }
    assert(s.subrange(b0 + 2, b0 + 3) =~= ks);
    lemma_parse_string_quoted(s, b0 + 1, ks);
    assert(spec_skip_ws(s, b0 + 4) == b0 + 4);
    assert(!is_ws(s[b1]) && is_digit(s[b1])) by {
        assert(s[b1] == rs[0]);
    }
    assert(spec_skip_ws(s, b0 + 5) == b1);
    assert(!spec_starts_null(s, b1));
    lemma_parse_u64_render(s, b1, sval);
    assert(!is_key_op(ks) && is_key_s(ks) && !is_key_t(ks) && !is_key_d(ks));
    let p2 = PartialV { s: Some(Some(sval)), ..p1 };
    assert(spec_parse_member_value(s, b1, ks, p1) == Some((p2, b2)));
    assert(spec_skip_ws(s, b2) == b2);
    assert(spec_parse_members(s, b0 + 1, p1) == spec_parse_members(s, b2 + 1, p2));

    // Third member: "t" with the quoted tag.
    assert(spec_skip_ws(s, b2 + 1) == b2 + 1);
    let kt = seq!['t'];
    assert(plain_wf(kt)) by {
        assert(forall|i: int| 0 <= i < kt.len() ==> kt[i] != '"' && kt[i] != '\\');
    }
    assert(s.subrange(b2 + 2, b2 + 3) =~= kt);
    lemma_parse_string_quoted(s, b2 + 1, kt);
    assert(spec_skip_ws(s, b2 + 4) == b2 + 4);
    assert(spec_skip_ws(s, b2 + 5) == b2 + 5);
    assert(!spec_starts_null(s, b2 + 5));
    assert(plain_wf(tt));
    lemma_parse_string_quoted(s, b2 + 5, tt);
    assert(spec_parse_string(s, b2 + 5) == Some((tt, b4 + 1)));
    assert(!is_key_op(kt) && !is_key_s(kt) && is_key_t(kt) && !is_key_d(kt));
    let p3 = PartialV { t: Some(Some(tt)), ..p2 };
    assert(spec_parse_member_value(s, b2 + 5, kt, p2) == Some((p3, b4 + 1)));
    assert(spec_skip_ws(s, b4 + 1) == b4 + 1);
    assert(spec_parse_members(s, b2 + 1, p2) == spec_parse_members(s, b4 + 2, p3));

    // Fourth member: "d" with the raw payload.
    assert(spec_skip_ws(s, b4 + 2) == b4 + 2);
    let kd = seq!['d'];
    assert(plain_wf(kd)) by {
        assert(forall|i: int| 0 <= i < kd.len() ==> kd[i] != '"' && kd[i] != '\\');
    }
    assert(s.subrange(b4 + 3, b4 + 4) =~= kd);
    lemma_parse_string_quoted(s, b4 + 2, kd);
    assert(spec_skip_ws(s, b4 + 5) == b4 + 5);
    assert(!is_ws(s[b6])) by {
        assert(s[b6] == dd[0]);
    }
    assert(spec_skip_ws(s, b6) == b6);
    lemma_scan_value_embed(dd, s, b6);
    assert(!is_key_op(kd) && !is_key_s(kd) && !is_key_t(kd) && is_key_d(kd));
    let p4 = PartialV { d: Some(s.subrange(b6, b7)), ..p3 };
    assert(spec_parse_member_value(s, b6, kd, p3) == Some((p4, b7)));
    assert(spec_skip_ws(s, b7) == b7);
    assert(spec_parse_members(s, b4 + 2, p3) == Some((p4, b7 + 1)));

    // The object closes the text.
    assert(spec_skip_ws(s, b7 + 1) == s.len() as int);
    crate::events::lemma_opcode_roundtrip(f.op);
    assert(p4.d == Some(dd));
    assert(spec_decode(s) == Ok::<FrameV, DecodeError>(
        FrameV { op: f.op, s: Some(sval), t: Some(tt), d: dd },
    ));
    assert(FrameV { op: f.op, s: Some(sval), t: Some(tt), d: dd } =~= f);
}

/// Round trip on the typed form: decoding a canonical encoding yields the
/// frame unchanged, for every well-formed frame. (The byte-for-byte converse
/// is not promised: the decoder tolerates whitespace and key order that the
/// canonical encoder never emits.)
pub proof fn lemma_decode_encode(f: FrameV)
    requires
        frame_wf(f),
    ensures
        spec_decode(spec_encode(f)) == Ok::<FrameV, DecodeError>(f),
{
    if f.op == GatewayEvents::Dispatch {
        lemma_roundtrip_dispatch(f);
    } else {
        lemma_roundtrip_plain(f);
    }
}

// ---------------------------------------------------------------------------
// Payload shape resolution: typed readings of the raw `d` text
// ---------------------------------------------------------------------------

/// Walk the members of a payload object from just after `{` or a `,`; the
/// result is the position of the value under `key`, if the key is present.
pub open spec fn spec_find_field(s: Seq<char>, i: int, key: Seq<char>) -> Option<int>
    decreases s.len() - i,
{
    let k0 = spec_skip_ws(s, i);
    match spec_parse_string(s, k0) {
        None => None,
        Some((k, j)) => {
            let j2 = spec_skip_ws(s, j);
            if !(j2 < s.len() && s[j2] == ':') {
                None
            } else {
                let v = spec_skip_ws(s, j2 + 1);
                if k == key {
                    Some(v)
                } else {
                    match spec_scan_value(s, v) {
                        None => None,
                        Some(e) => {
                            let w = spec_skip_ws(s, e);
                            if w < s.len() && s[w] == ',' {
                                if i < w + 1 <= s.len() {
                                    spec_find_field(s, w + 1, key)
                                } else {
                                    None
                                }
                            } else {
                                None
                            }
                        },
                    }
                }
            }
        },
    }
}

/// The position of the value under `key` in a payload object.
pub open spec fn spec_obj_field(d: Seq<char>, key: Seq<char>) -> Option<int> {
    let i = spec_skip_ws(d, 0);
    if i < d.len() && d[i] == '{' {
        spec_find_field(d, i + 1, key)
    } else {
        None
    }
}

/// The unsigned number under `key` in a payload object.
pub open spec fn spec_obj_u64(d: Seq<char>, key: Seq<char>) -> Option<u64> {
    match spec_obj_field(d, key) {
        Some(v) => match spec_parse_u64(d, v) {
            Some((n, _)) => Some(n),
            None => None,
        },
        None => None,
    }
}

/// The plain string under `key` in a payload object.
pub open spec fn spec_obj_string(d: Seq<char>, key: Seq<char>) -> Option<Seq<char>> {
    match spec_obj_field(d, key) {
        Some(v) => match spec_parse_string(d, v) {
            Some((c, _)) => Some(c),
            None => None,
        },
        None => None,
    }
}

/// A payload that is exactly the literal `true` or `false`.
pub open spec fn spec_payload_bool(d: Seq<char>) -> Option<bool> {
    if d.len() == 4 && d[0] == 't' && d[1] == 'r' && d[2] == 'u' && d[3] == 'e' {
        Some(true)
    } else if d.len() == 5 && d[0] == 'f' && d[1] == 'a' && d[2] == 'l' && d[3] == 's' && d[4]
        == 'e' {
        Some(false)
    } else {
        None
    }
}

/// The heartbeat interval a `Hello` payload carries.
pub open spec fn spec_hello_interval(d: Seq<char>) -> Option<u64> {
    spec_obj_u64(d, "heartbeat_interval"@)
}

/// Whether a run of characters equals a string's characters.
pub fn chars_eq_str(a: &[char], s: &str) -> (r: bool)
    ensures
        r == (a@ == s@),
{
    let n = s.unicode_len();
    if a.len() != n {
        return false;
    }
    let mut i: usize = 0;
    while i < n
        invariant
            i <= n,
            n == s@.len(),
            a@.len() == n,
            forall|k: int| 0 <= k < i ==> a@[k] == s@[k],
        decreases n - i,
    {
        let c = s.get_char(i);
        if a[i] != c {
            return false;
        }
        i = i + 1;
    }
    proof {
        assert(a@ =~= s@);
    }
    true
}

/// Walk the members of a payload object; mirrors `spec_find_field`.
fn find_field_x(v: &[char], i: usize, key: &str) -> (r: Option<usize>)
    requires
        i <= v.len(),
    ensures
        match r {
            Some(p) => spec_find_field(v@, i as int, key@) == Some(p as int) && p <= v.len(),
            None => spec_find_field(v@, i as int, key@) is None,
        },
    decreases v.len() - i,
{
    let k0 = skip_ws_x(v, i);
    let (k, j) = match parse_string_x(v, k0) {
        Some(q) => q,
        None => {
            return None;
        },
    };
    let j2 = skip_ws_x(v, j);
    if !(j2 < v.len() && v[j2] == ':') {
        return None;
    }
    let vpos = skip_ws_x(v, j2 + 1);
    if chars_eq_str(k.as_slice(), key) {
        Some(vpos)
    } else {
        match scan_value_x(v, vpos) {
            Some(e) => {
                let w = skip_ws_x(v, e);
                if w < v.len() && v[w] == ',' {
                    find_field_x(v, w + 1, key)
                } else {
                    None
                }
            },
            None => None,
        }
    }
}

/// The unsigned number under `key` in a payload object.
pub fn obj_u64_field(d: &[char], key: &str) -> (r: Option<u64>)
    ensures
        r == spec_obj_u64(d@, key@),
{
    let i = skip_ws_x(d, 0);
    if !(i < d.len() && d[i] == '{') {
        return None;
    }
    match find_field_x(d, i + 1, key) {
        Some(v) => match parse_u64_x(d, v) {
            Some(q) => Some(q.0),
            None => None,
        },
        None => None,
    }
}

/// The plain string under `key` in a payload object.
pub fn obj_string_field(d: &[char], key: &str) -> (r: Option<Vec<char>>)
    ensures
        match r {
            Some(c) => spec_obj_string(d@, key@) == Some(c@),
            None => spec_obj_string(d@, key@) is None,
        },
{
    let i = skip_ws_x(d, 0);
    if !(i < d.len() && d[i] == '{') {
        return None;
    }
    match find_field_x(d, i + 1, key) {
        Some(v) => match parse_string_x(d, v) {
            Some(q) => Some(q.0),
            None => None,
        },
        None => None,
    }
}

/// A payload that is exactly `true` or `false`.
pub fn payload_bool(d: &[char]) -> (r: Option<bool>)
    ensures
        r == spec_payload_bool(d@),
{
    if d.len() == 4 && d[0] == 't' && d[1] == 'r' && d[2] == 'u' && d[3] == 'e' {
        Some(true)
    } else if d.len() == 5 && d[0] == 'f' && d[1] == 'a' && d[2] == 'l' && d[3] == 's' && d[4]
        == 'e' {
        Some(false)
    } else {
        None
    }
}

/// The heartbeat interval a `Hello` payload carries.
pub fn hello_interval(d: &[char]) -> (r: Option<u64>)
    ensures
        r == spec_hello_interval(d@),
{
    obj_u64_field(d, "heartbeat_interval")
}

} // verus!
