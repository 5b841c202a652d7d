//! Detection results and their wire encoding: a JSON array of objects
//! `{"class": <label>, "confidence": <number>}`, in the order the provider
//! returned them.

use vstd::prelude::*;
use vstd::string::*;
use crate::text::chars_to_string;

verus! {

/// The mathematical model of one detection: a label and the provider's
/// confidence, kept as the exact JSON number token the provider sent.
pub ghost struct DetectionView {
    pub label: Seq<char>,
    pub confidence: Seq<char>,
}

/// One labeled object-recognition result. The confidence is carried as the
/// JSON number token received from the provider, so encoding reproduces it
/// digit for digit.
pub struct Detection {
    pub label: String,
    pub confidence: String,
}

impl View for Detection {
    type V = DetectionView;

    open spec fn view(&self) -> DetectionView {
        DetectionView { label: self.label@, confidence: self.confidence@ }
    }
}

impl DeepView for Detection {
    type V = DetectionView;

    open spec fn deep_view(&self) -> DetectionView {
        self.view()
    }
}

/// The lowercase hexadecimal digit for `n`.
pub open spec fn spec_hex_digit(n: int) -> char {
    if n == 0 { '0' } else if n == 1 { '1' } else if n == 2 { '2' }
    else if n == 3 { '3' } else if n == 4 { '4' } else if n == 5 { '5' }
    else if n == 6 { '6' } else if n == 7 { '7' } else if n == 8 { '8' }
    else if n == 9 { '9' } else if n == 10 { 'a' } else if n == 11 { 'b' }
    else if n == 12 { 'c' } else if n == 13 { 'd' } else if n == 14 { 'e' }
    else { 'f' }
}

/// How one character appears inside a JSON string: quote, backslash and
/// control characters are escaped, every other character stands as itself.
pub open spec fn spec_escape_char(c: char) -> Seq<char> {
    if c == '"' { seq!['\\', '"'] }
    else if c == '\\' { seq!['\\', '\\'] }
    else if c == '\u{8}' { seq!['\\', 'b'] }
    else if c == '\u{c}' { seq!['\\', 'f'] }
    else if c == '\n' { seq!['\\', 'n'] }
    else if c == '\r' { seq!['\\', 'r'] }
    else if c == '\t' { seq!['\\', 't'] }
    else if (c as u32) < 0x20 {
        seq!['\\', 'u', '0', '0',
            spec_hex_digit((c as u32) as int / 16),
            spec_hex_digit((c as u32) as int % 16)]
    } else {
        seq![c]
    }
}

/// The body of a JSON string: each character escaped as needed.
pub open spec fn spec_escape(s: Seq<char>) -> Seq<char>
    decreases s.len(),
{
    if s.len() == 0 {
        Seq::empty()
    } else {
        spec_escape_char(s[0]) + spec_escape(s.drop_first())
    }
}

proof fn lemma_escape_snoc(s: Seq<char>, c: char)
    ensures
        spec_escape(s.push(c)) == spec_escape(s) + spec_escape_char(c),
    decreases s.len(),
{
    if s.len() == 0 {
        let t = s.push(c);
        assert(t.len() == 1);
        assert(t[0] == c);
        assert(t.drop_first() =~= Seq::<char>::empty());
        assert(t.drop_first().len() == 0);
        assert(spec_escape(t.drop_first()) =~= Seq::<char>::empty());
        assert(spec_escape(t) == spec_escape_char(t[0]) + spec_escape(t.drop_first()));
        assert(spec_escape(s) =~= Seq::<char>::empty());
        assert(spec_escape(s.push(c)) =~= spec_escape(s) + spec_escape_char(c));
    } else {
        assert(s.push(c)[0] == s[0]);
        assert(s.push(c).drop_first() =~= s.drop_first().push(c));
        lemma_escape_snoc(s.drop_first(), c);
        assert(spec_escape(s.push(c)) =~= spec_escape(s) + spec_escape_char(c));
    }
}

fn hex_digit(n: u32) -> (c: char)
    requires
        n < 16,
    ensures
        c == spec_hex_digit(n as int),
{
    if n == 0 { '0' } else if n == 1 { '1' } else if n == 2 { '2' }
    else if n == 3 { '3' } else if n == 4 { '4' } else if n == 5 { '5' }
    else if n == 6 { '6' } else if n == 7 { '7' } else if n == 8 { '8' }
    else if n == 9 { '9' } else if n == 10 { 'a' } else if n == 11 { 'b' }
    else if n == 12 { 'c' } else if n == 13 { 'd' } else if n == 14 { 'e' }
    else { 'f' }
}

fn push_escaped(out: &mut Vec<char>, c: char)
    ensures
        final(out)@ == old(out)@ + spec_escape_char(c),
{
    if c == '"' {
        out.push('\\');
        out.push('"');
    } else if c == '\\' {
        out.push('\\');
        out.push('\\');
    } else if c == '\u{8}' {
        out.push('\\');
        out.push('b');
    } else if c == '\u{c}' {
        out.push('\\');
        out.push('f');
    } else if c == '\n' {
        out.push('\\');
        out.push('n');
    } else if c == '\r' {
        out.push('\\');
        out.push('r');
    } else if c == '\t' {
        out.push('\\');
        out.push('t');
    } else if (c as u32) < 0x20 {
        out.push('\\');
        out.push('u');
        out.push('0');
        out.push('0');
        out.push(hex_digit((c as u32) / 16));
        out.push(hex_digit((c as u32) % 16));
    } else {
        out.push(c);
    }
    proof {
        assert(out@ =~= old(out)@ + spec_escape_char(c));
    }
}

/// Escapes a string for inclusion between JSON quotes.
pub fn escape_str(s: &str) -> (r: String)
    ensures
        r@ == spec_escape(s@),
{
    let n = s.unicode_len();
    let mut out: Vec<char> = Vec::new();
    let mut i: usize = 0;
    while i < n
        invariant
            0 <= i <= n,
            n == s@.len(),
            out@ == spec_escape(s@.subrange(0, i as int)),
        decreases n - i,
    {
        let c = s.get_char(i);
        push_escaped(&mut out, c);
        proof {
            assert(s@.subrange(0, i + 1) =~= s@.subrange(0, i as int).push(c));
            lemma_escape_snoc(s@.subrange(0, i as int), c);
        }
        i += 1;
    }
    proof {
        assert(s@.subrange(0, n as int) =~= s@);
    }
    chars_to_string(&out)
}

/// How one detection appears on the wire: the label escaped, the
/// confidence number verbatim, the field names and order fixed.
pub open spec fn spec_encode_detection(d: DetectionView) -> Seq<char> {
    "{\"class\":\""@ + spec_escape(d.label) + "\",\"confidence\":"@ + d.confidence + "}"@
}

/// The comma-joined encodings of a sequence of detections, in order.
pub open spec fn spec_encode_list(ds: Seq<DetectionView>) -> Seq<char>
    decreases ds.len(),
{
    if ds.len() == 0 {
        Seq::empty()
    } else if ds.len() == 1 {
        spec_encode_detection(ds[0])
    } else {
        spec_encode_detection(ds[0]) + ","@ + spec_encode_list(ds.drop_first())
    }
}

/// The full wire encoding: a JSON array of the detections, in order; the
/// empty sequence encodes to `[]`.
pub open spec fn spec_encode(ds: Seq<DetectionView>) -> Seq<char> {
    "["@ + spec_encode_list(ds) + "]"@
}

/// The wire order is the given order: a detection appended to the list is
/// encoded after everything already there, and nothing else changes.
pub proof fn lemma_encode_list_snoc(ds: Seq<DetectionView>, d: DetectionView)
    ensures
        spec_encode_list(ds.push(d)) == if ds.len() == 0 {
            spec_encode_detection(d)
        } else {
            spec_encode_list(ds) + ","@ + spec_encode_detection(d)
        },
    decreases ds.len(),
{
    if ds.len() == 0 {
        assert(ds.push(d)[0] == d);
        assert(spec_encode_list(ds.push(d)) =~= spec_encode_detection(d));
    } else {
        assert(ds.push(d).drop_first() =~= ds.drop_first().push(d));
        lemma_encode_list_snoc(ds.drop_first(), d);
        if ds.len() == 1 {
            assert(spec_encode_list(ds.push(d)) =~= spec_encode_list(ds) + ","@
                + spec_encode_detection(d));
        } else {
            assert(spec_encode_list(ds.push(d)) =~= spec_encode_list(ds) + ","@
                + spec_encode_detection(d));
        }
    }
}

fn encode_one(out: &mut String, d: &Detection)
    ensures
        final(out)@ == old(out)@ + spec_encode_detection(d@),
{
    out.append("{\"class\":\"");
    let esc = escape_str(d.label.as_str());
    out.append(esc.as_str());
    out.append("\",\"confidence\":");
    out.append(d.confidence.as_str());
    out.append("}");
    proof {
        assert(out@ =~= old(out)@ + spec_encode_detection(d@));
    }
}

/// Encodes a detection list to its wire text: a JSON array of
/// `{"class": ..., "confidence": ...}` objects, order-preserving; an empty
/// list encodes to `[]`.
pub fn encode_detections(ds: &Vec<Detection>) -> (r: String)
    ensures
        r@ == spec_encode(ds.deep_view()),
{
    let mut out = String::from_str("[");
    let mut i: usize = 0;
    while i < ds.len()
        invariant
            0 <= i <= ds@.len(),
            out@ == "["@ + spec_encode_list(ds.deep_view().subrange(0, i as int)),
        decreases ds@.len() - i,
    {
        if i > 0 {
            out.append(",");
        }
        encode_one(&mut out, &ds[i]);
        proof {
            let dv = ds.deep_view();
            assert(dv.subrange(0, i + 1) =~= dv.subrange(0, i as int).push(dv[i as int]));
            lemma_encode_list_snoc(dv.subrange(0, i as int), dv[i as int]);
        }
        i += 1;
    }
    out.append("]");
    proof {
        assert(ds.deep_view().subrange(0, ds@.len() as int) =~= ds.deep_view());
    }
    out
}

/// The encoding of no detections is the literal `[]`.
pub proof fn lemma_encode_empty()
    ensures
        spec_encode(Seq::empty()) == "[]"@,
{
    reveal_strlit("[");
    reveal_strlit("]");
    reveal_strlit("[]");
    assert(spec_encode(Seq::empty()) =~= "[]"@);
}

} // verus!
