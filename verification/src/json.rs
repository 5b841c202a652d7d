//! A verified reader for the provider's response format: a JSON object
//! `{"predictions": [{"class": <string>, "confidence": <number>, ...}, ...]}`.
//! Extra fields of any JSON shape are skipped; `class` and `confidence` are
//! required in each prediction; the number token is kept verbatim.
//!
//! Every parsing function exists twice: a specification-level definition of
//! the grammar, and an executable mirror proved to return exactly what the
//! definition says. Container forms carry a fuel bound large enough that it
//! never runs out on any input that fits in memory.

use vstd::prelude::*;
use crate::text::{char_from_code, chars_eq, chars_to_string, copy_range, to_chars};
use crate::detection::{Detection, DetectionView};

verus! {

broadcast use crate::text::lemma_chars_deep_view;

/// JSON insignificant whitespace.
pub open spec fn is_ws(c: char) -> bool {
    c == ' ' || c == '\t' || c == '\n' || c == '\r'
}

/// An ASCII decimal digit.
pub open spec fn is_digit(c: char) -> bool {
    '0' <= c && c <= '9'
}

/// An ASCII hexadecimal digit, either case.
pub open spec fn is_hex(c: char) -> bool {
    ('0' <= c && c <= '9') || ('a' <= c && c <= 'f') || ('A' <= c && c <= 'F')
}

/// The value of a hexadecimal digit.
pub open spec fn spec_hex_val(c: char) -> int {
    if '0' <= c && c <= '9' {
        c as int - '0' as int
    } else if 'a' <= c && c <= 'f' {
        c as int - 'a' as int + 10
    } else {
        c as int - 'A' as int + 10
    }
}

/// The first position at or after `i` that does not hold whitespace.
pub open spec fn spec_skip_ws(s: Seq<char>, i: int) -> int
    decreases s.len() - i when 0 <= i <= s.len()
{
    if i < s.len() && is_ws(s[i]) {
        spec_skip_ws(s, i + 1)
    } else {
        i
    }
}

/// The first position at or after `i` that does not hold a digit.
pub open spec fn spec_scan_digits(s: Seq<char>, i: int) -> int
    decreases s.len() - i when 0 <= i <= s.len()
{
    if i < s.len() && is_digit(s[i]) {
        spec_scan_digits(s, i + 1)
    } else {
        i
    }
}

/// The code point of the four hexadecimal digits at `i`.
pub open spec fn spec_hex4_val(s: Seq<char>, i: int) -> int {
    spec_hex_val(s[i]) * 0x1000 + spec_hex_val(s[i + 1]) * 0x100 + spec_hex_val(s[i + 2]) * 16
        + spec_hex_val(s[i + 3])
}

/// Whether four hexadecimal digits stand at `i`.
pub open spec fn spec_is_hex4(s: Seq<char>, i: int) -> bool {
    i + 4 <= s.len() && is_hex(s[i]) && is_hex(s[i + 1]) && is_hex(s[i + 2]) && is_hex(s[i + 3])
}

/// The body of a JSON string starting right after the opening quote:
/// the unescaped content, and the position right after the closing quote.
/// Unterminated strings, raw control characters, unknown escapes, malformed
/// `\u` sequences and lone surrogates yield `None`.
pub open spec fn spec_string_chars(s: Seq<char>, i: int) -> Option<(Seq<char>, int)>
    decreases s.len() - i when 0 <= i <= s.len()
{
    if i == s.len() {
        None
    } else if s[i] == '"' {
        Some((Seq::empty(), i + 1))
    } else if s[i] == '\\' {
        if i + 1 == s.len() {
            None
        } else {
            let e = s[i + 1];
            if e == '"' || e == '\\' || e == '/' {
                match spec_string_chars(s, i + 2) {
                    None => None,
                    Some((rest, j)) => Some((seq![e] + rest, j)),
                }
            } else if e == 'b' || e == 'f' || e == 'n' || e == 'r' || e == 't' {
                let u = if e == 'b' { '\u{8}' } else if e == 'f' { '\u{c}' }
                    else if e == 'n' { '\n' } else if e == 'r' { '\r' } else { '\t' };
                match spec_string_chars(s, i + 2) {
                    None => None,
                    Some((rest, j)) => Some((seq![u] + rest, j)),
                }
            } else if e == 'u' {
                if spec_is_hex4(s, i + 2) {
                    let cp = spec_hex4_val(s, i + 2);
                    if 0xD800 <= cp && cp < 0xDC00 {
                        if i + 12 <= s.len() && s[i + 6] == '\\' && s[i + 7] == 'u'
                            && spec_is_hex4(s, i + 8) {
                            let lo = spec_hex4_val(s, i + 8);
                            if 0xDC00 <= lo && lo < 0xE000 {
                                let c = 0x10000 + (cp - 0xD800) * 0x400 + (lo - 0xDC00);
                                match spec_string_chars(s, i + 12) {
                                    None => None,
                                    Some((rest, j)) => Some((seq![(c as u32) as char] + rest, j)),
                                }
                            } else {
                                None
                            }
                        } else {
                            None
                        }
                    } else if 0xDC00 <= cp && cp < 0xE000 {
                        None
                    } else {
                        match spec_string_chars(s, i + 6) {
                            None => None,
                            Some((rest, j)) => Some((seq![(cp as u32) as char] + rest, j)),
                        }
                    }
                } else {
                    None
                }
            } else {
                None
            }
        }
    } else if (s[i] as u32) < 0x20 {
        None
    } else {
        match spec_string_chars(s, i + 1) {
            None => None,
            Some((rest, j)) => Some((seq![s[i]] + rest, j)),
        }
    }
}

/// A JSON string at `i`: the opening quote, the body, the closing quote.
pub open spec fn spec_parse_string(s: Seq<char>, i: int) -> Option<(Seq<char>, int)> {
    if 0 <= i && i < s.len() && s[i] == '"' {
        spec_string_chars(s, i + 1)
    } else {
        None
    }
}

/// A JSON number token at `i`: the position right after it, or `None` if
/// no well-formed number starts there. The token itself is the subrange.
pub open spec fn spec_parse_number(s: Seq<char>, i: int) -> Option<int> {
    let a = if 0 <= i && i < s.len() && s[i] == '-' { i + 1 } else { i };
    if !(0 <= a && a < s.len() && is_digit(s[a])) {
        None
    } else {
        let b = if s[a] == '0' { a + 1 } else { spec_scan_digits(s, a) };
        let c = if b < s.len() && s[b] == '.' {
            let d = spec_scan_digits(s, b + 1);
            if d > b + 1 { d } else { -1 }
        } else {
            b
        };
        if c < 0 {
            None
        } else {
            let e = if c < s.len() && (s[c] == 'e' || s[c] == 'E') {
                let f = if c + 1 < s.len() && (s[c + 1] == '+' || s[c + 1] == '-') {
                    c + 2
                } else {
                    c + 1
                };
                let g = spec_scan_digits(s, f);
                if g > f { g } else { -1 }
            } else {
                c
            };
            if e < 0 { None } else { Some(e) }
        }
    }
}

proof fn lemma_scan_digits_bounds(s: Seq<char>, i: int)
    requires
        0 <= i <= s.len(),
    ensures
        i <= spec_scan_digits(s, i) <= s.len(),
    decreases s.len() - i,
{
    if i < s.len() && is_digit(s[i]) {
        lemma_scan_digits_bounds(s, i + 1);
    }
}

fn is_ws_exec(c: char) -> (r: bool)
    ensures
        r == is_ws(c),
{
    c == ' ' || c == '\t' || c == '\n' || c == '\r'
}

fn is_digit_exec(c: char) -> (r: bool)
    ensures
        r == is_digit(c),
{
    '0' <= c && c <= '9'
}

/// Executable mirror of `spec_skip_ws`.
pub fn skip_ws(s: &Vec<char>, i: usize) -> (r: usize)
    requires
        i <= s@.len(),
    ensures
        r as int == spec_skip_ws(s@, i as int),
        i <= r <= s@.len(),
{
    let n = s.len();
    let mut j = i;
    while j < n && is_ws_exec(s[j])
        invariant
            i <= j <= n,
            n == s@.len(),
            spec_skip_ws(s@, i as int) == spec_skip_ws(s@, j as int),
        decreases n - j,
    {
        j += 1;
    }
    j
}

/// Executable mirror of `spec_scan_digits`.
fn scan_digits(s: &Vec<char>, i: usize) -> (r: usize)
    requires
        i <= s@.len(),
    ensures
        r as int == spec_scan_digits(s@, i as int),
        i <= r <= s@.len(),
{
    let n = s.len();
    let mut j = i;
    while j < n && is_digit_exec(s[j])
        invariant
            i <= j <= n,
            n == s@.len(),
            spec_scan_digits(s@, i as int) == spec_scan_digits(s@, j as int),
        decreases n - j,
    {
        j += 1;
    }
    j
}

fn hex_val(c: char) -> (v: u32)
    requires
        is_hex(c),
    ensures
        v as int == spec_hex_val(c),
        v < 16,
{
    let u = c as u32;
    if u >= 48 && u <= 57 {
        u - 48
    } else if u >= 97 && u <= 102 {
        u - 97 + 10
    } else {
        proof {
            assert('A' <= c && c <= 'F');
        }
        u - 65 + 10
    }
}

fn is_hex_exec(c: char) -> (r: bool)
    ensures
        r == is_hex(c),
{
    ('0' <= c && c <= '9') || ('a' <= c && c <= 'f') || ('A' <= c && c <= 'F')
}

fn hex4(s: &Vec<char>, i: usize) -> (r: Option<u32>)
    requires
        i <= s@.len(),
    ensures
        match r {
            Some(v) => spec_is_hex4(s@, i as int) && v as int == spec_hex4_val(s@, i as int)
                && v < 0x10000,
            None => !spec_is_hex4(s@, i as int),
        },
{
    if s.len() - i < 4 {
        return None;
    }
    let c0 = s[i];
    let c1 = s[i + 1];
    let c2 = s[i + 2];
    let c3 = s[i + 3];
    if is_hex_exec(c0) && is_hex_exec(c1) && is_hex_exec(c2) && is_hex_exec(c3) {
        Some(hex_val(c0) * 0x1000 + hex_val(c1) * 0x100 + hex_val(c2) * 16 + hex_val(c3))
    } else {
        None
    }
}

/// Executable mirror of `spec_string_chars`: the unescaped body of a JSON
/// string and the position after the closing quote.
fn string_chars(s: &Vec<char>, i: usize) -> (r: Option<(Vec<char>, usize)>)
    requires
        i <= s@.len(),
    ensures
        match r {
            None => spec_string_chars(s@, i as int) is None,
            Some((v, j)) => spec_string_chars(s@, i as int) == Some((v@, j as int))
                && i < j <= s@.len(),
        },
    decreases s@.len() - i,
{
    let n = s.len();
    if i == n {
        return None;
    }
    let c = s[i];
    if c == '"' {
        return Some((Vec::new(), i + 1));
    }
    if c == '\\' {
        if i + 1 == n {
            return None;
        }
        let e = s[i + 1];
        if e == '"' || e == '\\' || e == '/' {
            match string_chars(s, i + 2) {
                None => None,
                Some((mut rest, j)) => {
                    rest.insert(0, e);
                    Some((rest, j))
                },
            }
        } else if e == 'b' || e == 'f' || e == 'n' || e == 'r' || e == 't' {
            let u = if e == 'b' { '\u{8}' } else if e == 'f' { '\u{c}' }
                else if e == 'n' { '\n' } else if e == 'r' { '\r' } else { '\t' };
            match string_chars(s, i + 2) {
                None => None,
                Some((mut rest, j)) => {
                    rest.insert(0, u);
                    Some((rest, j))
                },
            }
        } else if e == 'u' {
            match hex4(s, i + 2) {
                None => None,
                Some(cp) => {
                    if 0xD800 <= cp && cp < 0xDC00 {
                        if n - i >= 12 && s[i + 6] == '\\' && s[i + 7] == 'u' {
                            match hex4(s, i + 8) {
                                None => None,
                                Some(lo) => {
                                    if 0xDC00 <= lo && lo < 0xE000 {
                                        let code = 0x10000 + (cp - 0xD800) * 0x400 + (lo - 0xDC00);
                                        let uc = char_from_code(code);
                                        match string_chars(s, i + 12) {
                                            None => None,
                                            Some((mut rest, j)) => {
                                                rest.insert(0, uc);
                                                Some((rest, j))
                                            },
                                        }
                                    } else {
                                        None
                                    }
                                },
                            }
                        } else {
                            None
                        }
                    } else if 0xDC00 <= cp && cp < 0xE000 {
                        None
                    } else {
                        let uc = char_from_code(cp);
                        match string_chars(s, i + 6) {
                            None => None,
                            Some((mut rest, j)) => {
                                rest.insert(0, uc);
                                Some((rest, j))
                            },
                        }
                    }
                },
            }
        } else {
            None
        }
    } else if (c as u32) < 0x20 {
        None
    } else {
        match string_chars(s, i + 1) {
            None => None,
            Some((mut rest, j)) => {
                rest.insert(0, c);
                Some((rest, j))
            },
        }
    }
}

/// Executable mirror of `spec_parse_string`.
fn parse_string(s: &Vec<char>, i: usize) -> (r: Option<(Vec<char>, usize)>)
    requires
        i <= s@.len(),
    ensures
        match r {
            None => spec_parse_string(s@, i as int) is None,
            Some((v, j)) => spec_parse_string(s@, i as int) == Some((v@, j as int))
                && i < j <= s@.len(),
        },
{
    if i < s.len() && s[i] == '"' {
        string_chars(s, i + 1)
    } else {
        None
    }
}

/// Executable mirror of `spec_parse_number`: the end of the number token.
fn parse_number(s: &Vec<char>, i: usize) -> (r: Option<usize>)
    requires
        i <= s@.len(),
    ensures
        match r {
            None => spec_parse_number(s@, i as int) is None,
            Some(j) => spec_parse_number(s@, i as int) == Some(j as int) && i < j <= s@.len(),
        },
{
    let n = s.len();
    let a = if i < n && s[i] == '-' { i + 1 } else { i };
    if !(a < n && '0' <= s[a] && s[a] <= '9') {
        return None;
    }
    let b = if s[a] == '0' { a + 1 } else { scan_digits(s, a) };
    proof {
        lemma_scan_digits_bounds(s@, a as int + 1);
        assert(spec_scan_digits(s@, a as int) == spec_scan_digits(s@, a as int + 1));
        assert(b > a);
    }
    let c = if b < n && s[b] == '.' {
        let d = scan_digits(s, b + 1);
        if d > b + 1 {
            d
        } else {
            return None;
        }
    } else {
        b
    };
    let e = if c < n && (s[c] == 'e' || s[c] == 'E') {
        let f = if c + 1 < n && (s[c + 1] == '+' || s[c + 1] == '-') { c + 2 } else { c + 1 };
        let g = scan_digits(s, f);
        if g > f {
            g
        } else {
            return None;
        }
    } else {
        c
    };
    Some(e)
}

/// The end of any JSON value at `i`, its content ignored. `fuel` bounds the
/// recursion; every recursive step lowers it by one.
pub open spec fn spec_skip_value(s: Seq<char>, i: int, fuel: nat) -> Option<int>
    decreases fuel,
{
    if fuel == 0 {
        None
    } else if !(0 <= i && i < s.len()) {
        None
    } else if s[i] == '"' {
        match spec_parse_string(s, i) {
            None => None,
            Some((v, j)) => Some(j),
        }
    } else if s[i] == '{' {
        spec_skip_members(s, spec_skip_ws(s, i + 1), (fuel - 1) as nat, true)
    } else if s[i] == '[' {
        spec_skip_items(s, spec_skip_ws(s, i + 1), (fuel - 1) as nat, true)
    } else if s[i] == 't' {
        if i + 4 <= s.len() && s[i + 1] == 'r' && s[i + 2] == 'u' && s[i + 3] == 'e' {
            Some(i + 4)
        } else {
            None
        }
    } else if s[i] == 'f' {
        if i + 5 <= s.len() && s[i + 1] == 'a' && s[i + 2] == 'l' && s[i + 3] == 's'
            && s[i + 4] == 'e' {
            Some(i + 5)
        } else {
            None
        }
    } else if s[i] == 'n' {
        if i + 4 <= s.len() && s[i + 1] == 'u' && s[i + 2] == 'l' && s[i + 3] == 'l' {
            Some(i + 4)
        } else {
            None
        }
    } else {
        spec_parse_number(s, i)
    }
}

/// The end of an array body whose items are skipped; `i` stands at the
/// first item, or at `]` when no item was read yet (`first`).
pub open spec fn spec_skip_items(s: Seq<char>, i: int, fuel: nat, first: bool) -> Option<int>
    decreases fuel,
{
    if fuel == 0 {
        None
    } else if !(0 <= i && i < s.len()) {
        None
    } else if first && s[i] == ']' {
        Some(i + 1)
    } else {
        match spec_skip_value(s, i, (fuel - 1) as nat) {
            None => None,
            Some(j) => {
                let k = spec_skip_ws(s, j);
                if k < s.len() && s[k] == ']' {
                    Some(k + 1)
                } else if k < s.len() && s[k] == ',' {
                    spec_skip_items(s, spec_skip_ws(s, k + 1), (fuel - 1) as nat, false)
                } else {
                    None
                }
            },
        }
    }
}

/// The end of an object body whose members are skipped; `i` stands at the
/// first key, or at `}` when no member was read yet (`first`).
pub open spec fn spec_skip_members(s: Seq<char>, i: int, fuel: nat, first: bool) -> Option<int>
    decreases fuel,
{
    if fuel == 0 {
        None
    } else if !(0 <= i && i < s.len()) {
        None
    } else if first && s[i] == '}' {
        Some(i + 1)
    } else {
        match spec_parse_string(s, i) {
            None => None,
            Some((key, j)) => {
                let k = spec_skip_ws(s, j);
                if !(k < s.len() && s[k] == ':') {
                    None
                } else {
                    match spec_skip_value(s, spec_skip_ws(s, k + 1), (fuel - 1) as nat) {
                        None => None,
                        Some(j2) => {
                            let k2 = spec_skip_ws(s, j2);
                            if k2 < s.len() && s[k2] == '}' {
                                Some(k2 + 1)
                            } else if k2 < s.len() && s[k2] == ',' {
                                spec_skip_members(s, spec_skip_ws(s, k2 + 1), (fuel - 1) as nat,
                                    false)
                            } else {
                                None
                            }
                        },
                    }
                }
            },
        }
    }
}

/// A finished prediction object: both required fields must have appeared.
pub open spec fn spec_pred_finish(cls: Option<Seq<char>>, conf: Option<Seq<char>>, end: int)
    -> Option<(DetectionView, int)> {
    match (cls, conf) {
        (Some(l), Some(c)) => Some((DetectionView { label: l, confidence: c }, end)),
        _ => None,
    }
}

/// The members of one prediction object from the position of a key (or of
/// `}` when no member was read yet): `class` must be a string, `confidence`
/// a number kept verbatim, a repeated required key is an error, and any
/// other member is skipped whatever its shape.
pub open spec fn spec_pred_members(
    s: Seq<char>,
    i: int,
    fuel: nat,
    first: bool,
    cls: Option<Seq<char>>,
    conf: Option<Seq<char>>,
) -> Option<(DetectionView, int)>
    decreases fuel,
{
    if fuel == 0 {
        None
    } else if !(0 <= i && i < s.len()) {
        None
    } else if first && s[i] == '}' {
        spec_pred_finish(cls, conf, i + 1)
    } else {
        match spec_parse_string(s, i) {
            None => None,
            Some((key, j)) => {
                let k = spec_skip_ws(s, j);
                if !(k < s.len() && s[k] == ':') {
                    None
                } else {
                    let v = spec_skip_ws(s, k + 1);
                    if key == "class"@ {
                        if cls is Some {
                            None
                        } else {
                            match spec_parse_string(s, v) {
                                None => None,
                                Some((lab, j2)) => spec_pred_after(s, j2, (fuel - 1) as nat,
                                    Some(lab), conf),
                            }
                        }
                    } else if key == "confidence"@ {
                        if conf is Some {
                            None
                        } else {
                            match spec_parse_number(s, v) {
                                None => None,
                                Some(j2) => spec_pred_after(s, j2, (fuel - 1) as nat, cls,
                                    Some(s.subrange(v, j2))),
                            }
                        }
                    } else {
                        match spec_skip_value(s, v, (fuel - 1) as nat) {
                            None => None,
                            Some(j2) => spec_pred_after(s, j2, (fuel - 1) as nat, cls, conf),
                        }
                    }
                }
            },
        }
    }
}

/// After one member of a prediction object: either the object ends or a
/// comma leads to the next member.
pub open spec fn spec_pred_after(
    s: Seq<char>,
    i: int,
    fuel: nat,
    cls: Option<Seq<char>>,
    conf: Option<Seq<char>>,
) -> Option<(DetectionView, int)>
    decreases fuel,
{
    if fuel == 0 {
        None
    } else {
        let k = spec_skip_ws(s, i);
        if !(0 <= k && k < s.len()) {
            None
        } else if s[k] == '}' {
            spec_pred_finish(cls, conf, k + 1)
        } else if s[k] == ',' {
            spec_pred_members(s, spec_skip_ws(s, k + 1), (fuel - 1) as nat, false, cls, conf)
        } else {
            None
        }
    }
}

/// The items of the predictions array from the position of an item (or of
/// `]` when no item was read yet): each item must be a prediction object.
pub open spec fn spec_preds_items(
    s: Seq<char>,
    i: int,
    fuel: nat,
    first: bool,
    acc: Seq<DetectionView>,
) -> Option<(Seq<DetectionView>, int)>
    decreases fuel,
{
    if fuel == 0 {
        None
    } else if !(0 <= i && i < s.len()) {
        None
    } else if first && s[i] == ']' {
        Some((acc, i + 1))
    } else if s[i] != '{' {
        None
    } else {
        match spec_pred_members(s, spec_skip_ws(s, i + 1), (fuel - 1) as nat, true, None, None) {
            None => None,
            Some((d, j)) => {
                let k = spec_skip_ws(s, j);
                if k < s.len() && s[k] == ']' {
                    Some((acc.push(d), k + 1))
                } else if k < s.len() && s[k] == ',' {
                    spec_preds_items(s, spec_skip_ws(s, k + 1), (fuel - 1) as nat, false,
                        acc.push(d))
                } else {
                    None
                }
            },
        }
    }
}

/// The members of the top-level object: `predictions` must be an array of
/// predictions and must appear exactly once; any other member is skipped.
pub open spec fn spec_top_members(
    s: Seq<char>,
    i: int,
    fuel: nat,
    first: bool,
    preds: Option<Seq<DetectionView>>,
) -> Option<(Seq<DetectionView>, int)>
    decreases fuel,
{
    if fuel == 0 {
        None
    } else if !(0 <= i && i < s.len()) {
        None
    } else if first && s[i] == '}' {
        match preds {
            Some(ds) => Some((ds, i + 1)),
            None => None,
        }
    } else {
        match spec_parse_string(s, i) {
            None => None,
            Some((key, j)) => {
                let k = spec_skip_ws(s, j);
                if !(k < s.len() && s[k] == ':') {
                    None
                } else {
                    let v = spec_skip_ws(s, k + 1);
                    if key == "predictions"@ {
                        if preds is Some {
                            None
                        } else if !(v < s.len() && s[v] == '[') {
                            None
                        } else {
                            match spec_preds_items(s, spec_skip_ws(s, v + 1), (fuel - 1) as nat,
                                true, Seq::empty()) {
                                None => None,
                                Some((ds, j2)) => spec_top_after(s, j2, (fuel - 1) as nat,
                                    Some(ds)),
                            }
                        }
                    } else {
                        match spec_skip_value(s, v, (fuel - 1) as nat) {
                            None => None,
                            Some(j2) => spec_top_after(s, j2, (fuel - 1) as nat, preds),
                        }
                    }
                }
            },
        }
    }
}

/// After one member of the top-level object.
pub open spec fn spec_top_after(
    s: Seq<char>,
    i: int,
    fuel: nat,
    preds: Option<Seq<DetectionView>>,
) -> Option<(Seq<DetectionView>, int)>
    decreases fuel,
{
    if fuel == 0 {
        None
    } else {
        let k = spec_skip_ws(s, i);
        if !(0 <= k && k < s.len()) {
            None
        } else if s[k] == '}' {
            match preds {
                Some(ds) => Some((ds, k + 1)),
                None => None,
            }
        } else if s[k] == ',' {
            spec_top_members(s, spec_skip_ws(s, k + 1), (fuel - 1) as nat, false, preds)
        } else {
            None
        }
    }
}

/// The fuel that the whole response is read with: ample for any input, since
/// the reader spends at most two steps for each character it consumes.
pub open spec fn spec_fuel(s: Seq<char>) -> nat {
    (4 * s.len() + 8) as nat
}

/// The provider response as a detection list: a single top-level object
/// holding a `predictions` array, with nothing but whitespace after it.
pub open spec fn spec_parse_response(s: Seq<char>) -> Option<Seq<DetectionView>> {
    let i = spec_skip_ws(s, 0);
    if !(i < s.len() && s[i] == '{') {
        None
    } else {
        match spec_top_members(s, spec_skip_ws(s, i + 1), spec_fuel(s), true, None) {
            None => None,
            Some((ds, j)) => {
                if spec_skip_ws(s, j) == s.len() {
                    Some(ds)
                } else {
                    None
                }
            },
        }
    }
}

/// Executable mirror of `spec_skip_value`.
fn skip_value(s: &Vec<char>, i: usize, fuel: u128) -> (r: Option<usize>)
    ensures
        match r {
            None => spec_skip_value(s@, i as int, fuel as nat) is None,
            Some(j) => spec_skip_value(s@, i as int, fuel as nat) == Some(j as int)
                && j <= s@.len(),
        },
    decreases fuel,
{
    if fuel == 0 {
        return None;
    }
    let n = s.len();
    if i >= n {
        return None;
    }
    let c = s[i];
    if c == '"' {
        match parse_string(s, i) {
            None => None,
            Some((v, j)) => Some(j),
        }
    } else if c == '{' {
        let m = skip_ws(s, i + 1);
        skip_members(s, m, fuel - 1, true)
    } else if c == '[' {
        let m = skip_ws(s, i + 1);
        skip_items(s, m, fuel - 1, true)
    } else if c == 't' {
        if n - i >= 4 && s[i + 1] == 'r' && s[i + 2] == 'u' && s[i + 3] == 'e' {
            Some(i + 4)
        } else {
            None
        }
    } else if c == 'f' {
        if n - i >= 5 && s[i + 1] == 'a' && s[i + 2] == 'l' && s[i + 3] == 's' && s[i + 4] == 'e' {
            Some(i + 5)
        } else {
            None
        }
    } else if c == 'n' {
        if n - i >= 4 && s[i + 1] == 'u' && s[i + 2] == 'l' && s[i + 3] == 'l' {
            Some(i + 4)
        } else {
            None
        }
    } else {
        parse_number(s, i)
    }
}

/// Executable mirror of `spec_skip_items`.
fn skip_items(s: &Vec<char>, i: usize, fuel: u128, first: bool) -> (r: Option<usize>)
    ensures
        match r {
            None => spec_skip_items(s@, i as int, fuel as nat, first) is None,
            Some(j) => spec_skip_items(s@, i as int, fuel as nat, first) == Some(j as int)
                && j <= s@.len(),
        },
    decreases fuel,
{
    if fuel == 0 {
        return None;
    }
    let n = s.len();
    if i >= n {
        return None;
    }
    if first && s[i] == ']' {
        return Some(i + 1);
    }
    match skip_value(s, i, fuel - 1) {
        None => None,
        Some(j) => {
            let k = skip_ws(s, j);
            if k < n && s[k] == ']' {
                Some(k + 1)
            } else if k < n && s[k] == ',' {
                let m = skip_ws(s, k + 1);
                skip_items(s, m, fuel - 1, false)
            } else {
                None
            }
        },
    }
}

/// Executable mirror of `spec_skip_members`.
fn skip_members(s: &Vec<char>, i: usize, fuel: u128, first: bool) -> (r: Option<usize>)
    ensures
        match r {
            None => spec_skip_members(s@, i as int, fuel as nat, first) is None,
            Some(j) => spec_skip_members(s@, i as int, fuel as nat, first) == Some(j as int)
                && j <= s@.len(),
        },
    decreases fuel,
{
    if fuel == 0 {
        return None;
    }
    let n = s.len();
    if i >= n {
        return None;
    }
    if first && s[i] == '}' {
        return Some(i + 1);
    }
    match parse_string(s, i) {
        None => None,
        Some((key, j)) => {
            let k = skip_ws(s, j);
            if !(k < n && s[k] == ':') {
                return None;
            }
            let v = skip_ws(s, k + 1);
            match skip_value(s, v, fuel - 1) {
                None => None,
                Some(j2) => {
                    let k2 = skip_ws(s, j2);
                    if k2 < n && s[k2] == '}' {
                        Some(k2 + 1)
                    } else if k2 < n && s[k2] == ',' {
                        let m = skip_ws(s, k2 + 1);
                        skip_members(s, m, fuel - 1, false)
                    } else {
                        None
                    }
                },
            }
        },
    }
}

fn pred_finish(cls: Option<Vec<char>>, conf: Option<Vec<char>>, end: usize) -> (r: Option<(
    Vec<char>,
    Vec<char>,
    usize,
)>)
    ensures
        match r {
            None => spec_pred_finish(cls.deep_view(), conf.deep_view(), end as int) is None,
            Some((lab, cf, j)) => spec_pred_finish(cls.deep_view(), conf.deep_view(), end as int)
                == Some((DetectionView { label: lab@, confidence: cf@ }, j as int)) && j == end,
        },
{
    match (cls, conf) {
        (Some(l), Some(c)) => Some((l, c, end)),
        _ => None,
    }
}

/// Executable mirror of `spec_pred_members`.
fn pred_members(
    s: &Vec<char>,
    i: usize,
    fuel: u128,
    first: bool,
    cls: Option<Vec<char>>,
    conf: Option<Vec<char>>,
) -> (r: Option<(Vec<char>, Vec<char>, usize)>)
    ensures
        match r {
            None => spec_pred_members(s@, i as int, fuel as nat, first, cls.deep_view(),
                conf.deep_view()) is None,
            Some((lab, cf, j)) => spec_pred_members(s@, i as int, fuel as nat, first,
                cls.deep_view(), conf.deep_view()) == Some((DetectionView { label: lab@,
                confidence: cf@ }, j as int)) && j <= s@.len(),
        },
    decreases fuel,
{
    if fuel == 0 {
        return None;
    }
    let n = s.len();
    if i >= n {
        return None;
    }
    if first && s[i] == '}' {
        return pred_finish(cls, conf, i + 1);
    }
    match parse_string(s, i) {
        None => None,
        Some((key, j)) => {
            let k = skip_ws(s, j);
            if !(k < n && s[k] == ':') {
                return None;
            }
            let v = skip_ws(s, k + 1);
            if chars_eq(&key, "class") {
                if cls.is_some() {
                    return None;
                }
                match parse_string(s, v) {
                    None => None,
                    Some((lab, j2)) => pred_after(s, j2, fuel - 1, Some(lab), conf),
                }
            } else if chars_eq(&key, "confidence") {
                if conf.is_some() {
                    return None;
                }
                match parse_number(s, v) {
                    None => None,
                    Some(j2) => {
                        let tok = copy_range(s, v, j2);
                        pred_after(s, j2, fuel - 1, cls, Some(tok))
                    },
                }
            } else {
                match skip_value(s, v, fuel - 1) {
                    None => None,
                    Some(j2) => pred_after(s, j2, fuel - 1, cls, conf),
                }
            }
        },
    }
}

/// Executable mirror of `spec_pred_after`.
fn pred_after(
    s: &Vec<char>,
    i: usize,
    fuel: u128,
    cls: Option<Vec<char>>,
    conf: Option<Vec<char>>,
) -> (r: Option<(Vec<char>, Vec<char>, usize)>)
    requires
        i <= s@.len(),
    ensures
        match r {
            None => spec_pred_after(s@, i as int, fuel as nat, cls.deep_view(),
                conf.deep_view()) is None,
            Some((lab, cf, j)) => spec_pred_after(s@, i as int, fuel as nat, cls.deep_view(),
                conf.deep_view()) == Some((DetectionView { label: lab@, confidence: cf@ },
                j as int)) && j <= s@.len(),
        },
    decreases fuel,
{
    if fuel == 0 {
        return None;
    }
    let n = s.len();
    let k = skip_ws(s, i);
    if k >= n {
        return None;
    }
    if s[k] == '}' {
        pred_finish(cls, conf, k + 1)
    } else if s[k] == ',' {
        let m = skip_ws(s, k + 1);
        pred_members(s, m, fuel - 1, false, cls, conf)
    } else {
        None
    }
}

/// Executable mirror of `spec_preds_items`.
fn preds_items(s: &Vec<char>, i: usize, fuel: u128, first: bool, acc: Vec<Detection>) -> (r:
    Option<(Vec<Detection>, usize)>)
    ensures
        match r {
            None => spec_preds_items(s@, i as int, fuel as nat, first, acc.deep_view()) is None,
            Some((ds, j)) => spec_preds_items(s@, i as int, fuel as nat, first, acc.deep_view())
                == Some((ds.deep_view(), j as int)) && j <= s@.len(),
        },
    decreases fuel,
{
    if fuel == 0 {
        return None;
    }
    let n = s.len();
    if i >= n {
        return None;
    }
    if first && s[i] == ']' {
        return Some((acc, i + 1));
    }
    if s[i] != '{' {
        return None;
    }
    let m = skip_ws(s, i + 1);
    match pred_members(s, m, fuel - 1, true, None, None) {
        None => None,
        Some((lab, cf, j)) => {
            let d = Detection { label: chars_to_string(&lab), confidence: chars_to_string(&cf) };
            let ghost acc0 = acc.deep_view();
            let mut acc = acc;
            acc.push(d);
            proof {
                assert(acc.deep_view() =~= acc0.push(DetectionView { label: lab@,
                    confidence: cf@ }));
            }
            let k = skip_ws(s, j);
            if k < n && s[k] == ']' {
                Some((acc, k + 1))
            } else if k < n && s[k] == ',' {
                let m2 = skip_ws(s, k + 1);
                preds_items(s, m2, fuel - 1, false, acc)
            } else {
                None
            }
        },
    }
}

/// Executable mirror of `spec_top_members`.
fn top_members(s: &Vec<char>, i: usize, fuel: u128, first: bool, preds: Option<Vec<Detection>>)
    -> (r: Option<(Vec<Detection>, usize)>)
    ensures
        match r {
            None => spec_top_members(s@, i as int, fuel as nat, first, preds.deep_view())
                is None,
            Some((ds, j)) => spec_top_members(s@, i as int, fuel as nat, first,
                preds.deep_view()) == Some((ds.deep_view(), j as int)) && j <= s@.len(),
        },
    decreases fuel,
{
    if fuel == 0 {
        return None;
    }
    let n = s.len();
    if i >= n {
        return None;
    }
    if first && s[i] == '}' {
        return match preds {
            Some(ds) => Some((ds, i + 1)),
            None => None,
        };
    }
    match parse_string(s, i) {
        None => None,
        Some((key, j)) => {
            let k = skip_ws(s, j);
            if !(k < n && s[k] == ':') {
                return None;
            }
            let v = skip_ws(s, k + 1);
            if chars_eq(&key, "predictions") {
                if preds.is_some() {
                    return None;
                }
                if !(v < n && s[v] == '[') {
                    return None;
                }
                let m = skip_ws(s, v + 1);
                let acc0: Vec<Detection> = Vec::new();
                proof {
                    assert(acc0.deep_view() =~= Seq::<DetectionView>::empty());
                }
                match preds_items(s, m, fuel - 1, true, acc0) {
                    None => None,
                    Some((ds, j2)) => top_after(s, j2, fuel - 1, Some(ds)),
                }
            } else {
                match skip_value(s, v, fuel - 1) {
                    None => None,
                    Some(j2) => top_after(s, j2, fuel - 1, preds),
                }
            }
        },
    }
}

/// Executable mirror of `spec_top_after`.
fn top_after(s: &Vec<char>, i: usize, fuel: u128, preds: Option<Vec<Detection>>) -> (r: Option<(
    Vec<Detection>,
    usize,
)>)
    requires
        i <= s@.len(),
    ensures
        match r {
            None => spec_top_after(s@, i as int, fuel as nat, preds.deep_view()) is None,
            Some((ds, j)) => spec_top_after(s@, i as int, fuel as nat, preds.deep_view())
                == Some((ds.deep_view(), j as int)) && j <= s@.len(),
        },
    decreases fuel,
{
    if fuel == 0 {
        return None;
    }
    let n = s.len();
    let k = skip_ws(s, i);
    if k >= n {
        return None;
    }
    if s[k] == '}' {
        match preds {
            Some(ds) => Some((ds, k + 1)),
            None => None,
        }
    } else if s[k] == ',' {
        let m = skip_ws(s, k + 1);
        top_members(s, m, fuel - 1, false, preds)
    } else {
        None
    }
}

/// Reads a provider response body. Returns the detection list exactly when
/// the body is a JSON object with a well-formed `predictions` array, else
/// `None`.
pub fn parse_response(body: &str) -> (r: Option<Vec<Detection>>)
    ensures
        match r {
            None => spec_parse_response(body@) is None,
            Some(v) => spec_parse_response(body@) == Some(v.deep_view()),
        },
{
    let s = to_chars(body);
    let i = skip_ws(&s, 0);
    if !(i < s.len() && s[i] == '{') {
        return None;
    }
    let fuel: u128 = 4 * (s.len() as u128) + 8;
    proof {
        assert(fuel as nat == spec_fuel(body@));
    }
    let m = skip_ws(&s, i + 1);
    match top_members(&s, m, fuel, true, None) {
        None => None,
        Some((ds, j)) => {
            let k = skip_ws(&s, j);
            if k == s.len() {
                Some(ds)
            } else {
                None
            }
        },
    }
}

} // verus!
