//! The frame codec: classifies an inbound text message as a liveness ping,
//! an image payload carried in a data URL, or an unrecognized frame.

use vstd::prelude::*;
use vstd::string::*;
use crate::text::eq_str;

verus! {

/// The mathematical model of a decoded inbound frame.
pub ghost enum FrameView {
    Ping,
    ImageData(Seq<char>),
    Unknown(Seq<char>),
}

/// A decoded inbound frame: a liveness ping, the base64 payload of a data
/// URL, or an unrecognized message that the session silently ignores.
pub enum InboundFrame {
    Ping,
    ImageData(String),
    Unknown(String),
}

impl View for InboundFrame {
    type V = FrameView;

    open spec fn view(&self) -> FrameView {
        match self {
            InboundFrame::Ping => FrameView::Ping,
            InboundFrame::ImageData(s) => FrameView::ImageData(s@),
            InboundFrame::Unknown(s) => FrameView::Unknown(s@),
        }
    }
}

/// The position of the first comma of `s` at or after `i`, if any.
pub open spec fn spec_first_comma(s: Seq<char>, i: int) -> Option<int>
    decreases s.len() - i when 0 <= i <= s.len()
{
    if i == s.len() {
        None
    } else if s[i] == ',' {
        Some(i)
    } else {
        spec_first_comma(s, i + 1)
    }
}

/// The image payload of a data URL: everything after the first comma, or
/// the empty sequence when no comma is present.
pub open spec fn spec_payload(s: Seq<char>) -> Seq<char> {
    match spec_first_comma(s, 0) {
        Some(k) => s.subrange(k + 1, s.len() as int),
        None => Seq::empty(),
    }
}

/// What `decode` returns: `"ping"` exactly is a ping; a message that starts
/// with `"data:image"` carries an image payload; everything else is unknown.
pub open spec fn spec_decode(s: Seq<char>) -> FrameView {
    if s == "ping"@ {
        FrameView::Ping
    } else if s.len() >= 10 && s.subrange(0, 10) == "data:image"@ {
        FrameView::ImageData(spec_payload(s))
    } else {
        FrameView::Unknown(s)
    }
}

proof fn lemma_first_comma_skip(s: Seq<char>, a: int, b: int)
    requires
        0 <= a <= b <= s.len(),
        forall|j: int| a <= j < b ==> s[j] != ',',
    ensures
        spec_first_comma(s, a) == spec_first_comma(s, b),
    decreases b - a,
{
    if a < b {
        lemma_first_comma_skip(s, a + 1, b);
    }
}

fn find_comma(raw: &str, n: usize) -> (r: Option<usize>)
    requires
        n == raw@.len(),
    ensures
        match r {
            Some(k) => k < n && spec_first_comma(raw@, 0) == Some(k as int),
            None => spec_first_comma(raw@, 0) is None,
        },
{
    let mut i: usize = 0;
    while i < n
        invariant
            0 <= i <= n,
            n == raw@.len(),
            forall|j: int| 0 <= j < i ==> raw@[j] != ',',
        decreases n - i,
    {
        if raw.get_char(i) == ',' {
            proof {
                lemma_first_comma_skip(raw@, 0, i as int);
            }
            return Some(i);
        }
        i += 1;
    }
    proof {
        lemma_first_comma_skip(raw@, 0, n as int);
    }
    None
}

/// Decodes one inbound text message.
///
/// The message `"ping"` (exact, case-sensitive) is a ping. A message that
/// starts with `"data:image"` is an image frame whose payload is everything
/// after the first comma; with no comma the payload is empty. Every other
/// message is unknown. Total: every input maps to a frame, nothing panics.
pub fn decode(raw: &str) -> (f: InboundFrame)
    ensures
        f@ == spec_decode(raw@),
{
    if eq_str(raw, "ping") {
        return InboundFrame::Ping;
    }
    let n = raw.unicode_len();
    if n >= 10 {
        let head = raw.substring_char(0, 10);
        if eq_str(head, "data:image") {
            let payload = match find_comma(raw, n) {
                Some(k) => raw.substring_char(k + 1, n).to_owned(),
                None => String::new(),
            };
            return InboundFrame::ImageData(payload);
        }
    }
    InboundFrame::Unknown(raw.to_owned())
}

/// The reply to a ping: the literal `"pong"`.
pub fn encode_pong() -> (r: String)
    ensures
        r@ == "pong"@,
{
    String::from_str("pong")
}

/// Decoding is a pure function of the message text: two decodes of equal
/// raw text always yield the same frame.
pub proof fn lemma_decode_deterministic(a: Seq<char>, b: Seq<char>)
    requires
        a == b,
    ensures
        spec_decode(a) == spec_decode(b),
{
}

} // verus!
