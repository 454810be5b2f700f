//! How a consumer shows the payloads it receives: a hex preview, base64
//! lines, or one line of UTF-8 text per payload.
use vstd::prelude::*;
use vstd::string::StrSliceExecFns;
use vstd::string::StringExecFns;
use vstd::utf8::valid_utf8;
use base64::engine::general_purpose::STANDARD;
use base64::Engine;

verus! {

/// The lower-case hex digits.
pub open spec fn hex_digits() -> Seq<char> {
    seq!['0', '1', '2', '3', '4', '5', '6', '7', '8', '9', 'a', 'b', 'c', 'd', 'e', 'f']
}

/// Two lower-case hex digits for `b`.
pub open spec fn hex_pair(b: u8) -> Seq<char> {
    seq![hex_digits()[(b / 16) as int], hex_digits()[(b % 16) as int]]
}

/// The hex pairs of `s`, separated by single spaces.
pub open spec fn hex_joined(s: Seq<u8>) -> Seq<char>
    decreases s.len(),
{
    if s.len() == 0 {
        Seq::empty()
    } else if s.len() == 1 {
        hex_pair(s[0])
    } else {
        hex_joined(s.drop_last()) + seq![' '] + hex_pair(s.last())
    }
}

/// The hex preview of `bytes`: the first `max` bytes as spaced hex pairs, and
/// a space and an ellipsis if there are more.
pub open spec fn preview(bytes: Seq<u8>, max: nat) -> Seq<char> {
    if bytes.len() > max {
        hex_joined(bytes.take(max as int)) + seq![' ', '\u{2026}']
    } else {
        hex_joined(bytes)
    }
}

/// Shows at most the first `max` bytes of `bytes` in hex, e.g. `"de ad be ef"`,
/// followed by `" …"` when some were left out.
pub fn hex_preview(bytes: &[u8], max: usize) -> (r: String)
    ensures
        r@ == preview(bytes@, max as nat),
{
    let table = "0123456789abcdef";
    proof {
        reveal_strlit("0123456789abcdef");
        assert(table@ =~= hex_digits());
    }
    let n: usize = if bytes.len() > max {
        max
    } else {
        bytes.len()
    };
    let mut out = String::from_str("");
    proof {
        reveal_strlit("");
    }
    let mut i: usize = 0;
    while i < n
        invariant
            i <= n,
            n <= bytes@.len(),
            table@ == hex_digits(),
            out@ == hex_joined(bytes@.take(i as int)),
        decreases n - i,
    {
        if i > 0 {
            proof {
                reveal_strlit(" ");
            }
            out.append(" ");
        }
        let b = bytes[i];
        let hi = (b / 16) as usize;
        let lo = (b % 16) as usize;
        out.append(table.substring_char(hi, hi + 1));
        out.append(table.substring_char(lo, lo + 1));
        proof {
            let t = bytes@.take(i + 1);
            assert(t.drop_last() =~= bytes@.take(i as int));
            assert(t.last() == b);
            assert(table@.subrange(hi as int, hi + 1) =~= seq![hex_digits()[(b / 16) as int]]);
            assert(table@.subrange(lo as int, lo + 1) =~= seq![hex_digits()[(b % 16) as int]]);
            if i == 0 {
                assert(bytes@.take(0) =~= Seq::<u8>::empty());
            }
            assert(out@ =~= hex_joined(t));
        }
        i = i + 1;
    }
    if bytes.len() > max {
        proof {
            reveal_strlit(" \u{2026}");
        }
        out.append(" \u{2026}");
    } else {
        assert(bytes@.take(n as int) =~= bytes@);
    }
    out
}

/// How a consumer prints each payload.
#[derive(Clone, Copy, Debug, PartialEq, Eq, Structural)]
pub enum OutputMode {
    /// The payload in standard base64, one line each.
    Base64,
    /// The payload as it is, one line each; it must be UTF-8 without a newline.
    Jsonl,
}

/// Why a payload cannot be printed in the chosen mode.
#[derive(Clone, Copy, Debug, PartialEq, Eq, Structural)]
pub enum RenderError {
    /// The payload is not valid UTF-8.
    NotUtf8,
    /// The payload holds a newline, so it would not stay on one line.
    HasNewline,
}

/// What standard base64 (with padding) makes of `b`, as ASCII bytes.
pub uninterp spec fn base64_of(b: Seq<u8>) -> Seq<u8>;

/// Relies on base64's `STANDARD.encode`: the standard alphabet with padding.
/// Its length computation panics only when the output length overflows `usize`.
#[verifier::external_body]
fn encode_base64(b: &[u8]) -> (r: Vec<u8>)
    requires
        b@.len() <= usize::MAX / 2,
    ensures
        r@ == base64_of(b@),
{
    STANDARD.encode(b).into_bytes()
}

/// Relies on `std::str::from_utf8`, which accepts exactly the valid UTF-8 byte
/// sequences.
#[verifier::external_body]
fn is_utf8(b: &[u8]) -> (r: bool)
    ensures
        r == valid_utf8(b@),
{
    std::str::from_utf8(b).is_ok()
}

/// Whether `b` holds the byte `x`.
fn contains_byte(b: &[u8], x: u8) -> (r: bool)
    ensures
        r == b@.contains(x),
{
    let mut i: usize = 0;
    while i < b.len()
        invariant
            i <= b@.len(),
            forall|k: int| 0 <= k < i ==> b@[k] != x,
        decreases b@.len() - i,
    {
        if b[i] == x {
            return true;
        }
        i = i + 1;
    }
    false
}

/// The line a consumer prints for `payload` in `mode`, newline included.
pub open spec fn line_of(mode: OutputMode, payload: Seq<u8>) -> Result<Seq<u8>, RenderError> {
    match mode {
        OutputMode::Base64 => Ok(base64_of(payload).push(10u8)),
        OutputMode::Jsonl => if !valid_utf8(payload) {
            Err(RenderError::NotUtf8)
        } else if payload.contains(10u8) {
            Err(RenderError::HasNewline)
        } else {
            Ok(payload.push(10u8))
        },
    }
}

/// Renders one received payload as a line of output, newline included.
pub fn render_line(mode: OutputMode, payload: &[u8]) -> (r: Result<Vec<u8>, RenderError>)
    requires
        payload@.len() <= usize::MAX / 2,
    ensures
        match r {
            Ok(v) => line_of(mode, payload@) == Ok::<Seq<u8>, RenderError>(v@),
            Err(e) => line_of(mode, payload@) == Err::<Seq<u8>, RenderError>(e),
        },
{
    match mode {
        OutputMode::Base64 => {
            let mut v = encode_base64(payload);
            v.push(10u8);
            Ok(v)
        },
        OutputMode::Jsonl => {
            if !is_utf8(payload) {
                return Err(RenderError::NotUtf8);
            }
            if contains_byte(payload, 10u8) {
                return Err(RenderError::HasNewline);
            }
            let mut v: Vec<u8> = Vec::with_capacity(payload.len() + 1);
            let mut i: usize = 0;
            while i < payload.len()
                invariant
                    i <= payload@.len(),
                    v@ == payload@.take(i as int),
                decreases payload@.len() - i,
            {
                v.push(payload[i]);
                i = i + 1;
                assert(v@ =~= payload@.take(i as int));
            }
            assert(payload@.take(payload@.len() as int) =~= payload@);
            v.push(10u8);
            Ok(v)
        },
    }
}

} // verus!
