//! The exact bytes of the JSON request bodies the gateway sends upstream.
//!
//! The generation and pull bodies are fixed three- and two-field objects
//! whose only variable parts are two string values, so they are produced
//! here directly: the object frame is a byte literal and the embedded
//! strings are escaped as JSON requires — `"` and `\` get a backslash,
//! the five control characters with short forms get those, every other
//! control character becomes `\u00XX`, and all other bytes (including
//! multi-byte UTF-8 sequences) pass through unchanged.

use vstd::prelude::*;
use vstd::string::StringSliceAdditionalSpecFns;

verus! {

/// `"`
pub const QUOTE: u8 = 34;

/// `\`
pub const BACKSLASH: u8 = 92;

/// `b`, `t`, `n`, `f`, `r`, `u`: the letters used in short escapes.
pub const LETTER_B: u8 = 98;

pub const LETTER_T: u8 = 116;

pub const LETTER_N: u8 = 110;

pub const LETTER_F: u8 = 102;

pub const LETTER_R: u8 = 114;

pub const LETTER_U: u8 = 117;

/// `0`
pub const DIGIT_ZERO: u8 = 48;

/// The byte for the hex digit `n`, lower case.
pub open spec fn hex_digit(n: u8) -> u8
    recommends
        n < 16,
{
    if n < 10 {
        (DIGIT_ZERO + n) as u8
    } else {
        (87 + n) as u8
    }
}

/// How one byte of a string value appears inside a JSON string literal.
pub open spec fn escaped_byte(b: u8) -> Seq<u8> {
    if b == QUOTE {
        seq![BACKSLASH, QUOTE]
    } else if b == BACKSLASH {
        seq![BACKSLASH, BACKSLASH]
    } else if b == 8 {
        seq![BACKSLASH, LETTER_B]
    } else if b == 9 {
        seq![BACKSLASH, LETTER_T]
    } else if b == 10 {
        seq![BACKSLASH, LETTER_N]
    } else if b == 12 {
        seq![BACKSLASH, LETTER_F]
    } else if b == 13 {
        seq![BACKSLASH, LETTER_R]
    } else if b < 32 {
        seq![BACKSLASH, LETTER_U, DIGIT_ZERO, DIGIT_ZERO, hex_digit(b / 16), hex_digit(b % 16)]
    } else {
        seq![b]
    }
}

/// A whole string value escaped for embedding in a JSON string literal.
pub open spec fn escape_json(s: Seq<u8>) -> Seq<u8>
    decreases s.len(),
{
    if s.len() == 0 {
        Seq::empty()
    } else {
        escape_json(s.drop_last()) + escaped_byte(s.last())
    }
}

/// The body sent to the backend's generation endpoint:
/// `{"model":"…","prompt":"…","stream":false}`.
pub open spec fn generate_body_spec(model: Seq<u8>, prompt: Seq<u8>) -> Seq<u8> {
    "{\"model\":\"".spec_bytes() + escape_json(model) + "\",\"prompt\":\"".spec_bytes()
        + escape_json(prompt) + "\",\"stream\":false}".spec_bytes()
}

/// The body sent to the backend's model-pull endpoint:
/// `{"model":"…","stream":false}`.
pub open spec fn pull_body_spec(model: Seq<u8>) -> Seq<u8> {
    "{\"model\":\"".spec_bytes() + escape_json(model) + "\",\"stream\":false}".spec_bytes()
}

/// Append a byte slice unchanged.
fn append_bytes(out: &mut Vec<u8>, s: &[u8])
    ensures
        final(out)@ == old(out)@ + s@,
{
    let mut i: usize = 0;
    while i < s.len()
        invariant
            0 <= i <= s@.len(),
            out@ == old(out)@ + s@.take(i as int),
        decreases s@.len() - i,
    {
        out.push(s[i]);
        proof {
            assert(old(out)@ + s@.take(i + 1) =~= (old(out)@ + s@.take(i as int)).push(
                s@[i as int],
            ));
        }
        i = i + 1;
    }
    proof {
        assert(s@.take(s@.len() as int) =~= s@);
    }
}

/// Append one byte in its escaped form.
fn push_escaped(out: &mut Vec<u8>, b: u8)
    ensures
        final(out)@ == old(out)@ + escaped_byte(b),
{
    if b == QUOTE {
        out.push(BACKSLASH);
        out.push(QUOTE);
        proof {
            assert(out@ =~= old(out)@ + escaped_byte(b));
        }
    } else if b == BACKSLASH {
        out.push(BACKSLASH);
        out.push(BACKSLASH);
        proof {
            assert(out@ =~= old(out)@ + escaped_byte(b));
        }
    } else if b == 8 {
        out.push(BACKSLASH);
        out.push(LETTER_B);
        proof {
            assert(out@ =~= old(out)@ + escaped_byte(b));
        }
    } else if b == 9 {
        out.push(BACKSLASH);
        out.push(LETTER_T);
        proof {
            assert(out@ =~= old(out)@ + escaped_byte(b));
        }
    } else if b == 10 {
        out.push(BACKSLASH);
        out.push(LETTER_N);
        proof {
            assert(out@ =~= old(out)@ + escaped_byte(b));
        }
    } else if b == 12 {
        out.push(BACKSLASH);
        out.push(LETTER_F);
        proof {
            assert(out@ =~= old(out)@ + escaped_byte(b));
        }
    } else if b == 13 {
        out.push(BACKSLASH);
        out.push(LETTER_R);
        proof {
            assert(out@ =~= old(out)@ + escaped_byte(b));
        }
    } else if b < 32 {
        out.push(BACKSLASH);
        out.push(LETTER_U);
        out.push(DIGIT_ZERO);
        out.push(DIGIT_ZERO);
        let hi: u8 = b / 16;
        let lo: u8 = b % 16;
        out.push(if hi < 10 {
            DIGIT_ZERO + hi
        } else {
            87 + hi
        });
        out.push(if lo < 10 {
            DIGIT_ZERO + lo
        } else {
            87 + lo
        });
        proof {
            assert(out@ =~= old(out)@ + escaped_byte(b));
        }
    } else {
        out.push(b);
        proof {
            assert(out@ =~= old(out)@ + escaped_byte(b));
        }
    }
}

/// Append a whole string value in escaped form.
fn append_escaped(out: &mut Vec<u8>, s: &[u8])
    ensures
        final(out)@ == old(out)@ + escape_json(s@),
{
    let mut i: usize = 0;
    while i < s.len()
        invariant
            0 <= i <= s@.len(),
            out@ == old(out)@ + escape_json(s@.take(i as int)),
        decreases s@.len() - i,
    {
        push_escaped(out, s[i]);
        proof {
            assert(s@.take(i + 1).drop_last() =~= s@.take(i as int));
            assert(s@.take(i + 1).last() == s@[i as int]);
        }
        i = i + 1;
    }
    proof {
        assert(s@.take(s@.len() as int) =~= s@);
    }
}

/// Build the generation request body for `model` and `prompt`.
pub fn generate_body(model: &str, prompt: &str) -> (r: Vec<u8>)
    ensures
        r@ == generate_body_spec(model.spec_bytes(), prompt.spec_bytes()),
{
    let mut out: Vec<u8> = Vec::new();
    append_bytes(&mut out, "{\"model\":\"".as_bytes());
    append_escaped(&mut out, model.as_bytes());
    append_bytes(&mut out, "\",\"prompt\":\"".as_bytes());
    append_escaped(&mut out, prompt.as_bytes());
    append_bytes(&mut out, "\",\"stream\":false}".as_bytes());
    out
}

/// Build the pull request body for `model`.
pub fn pull_body(model: &str) -> (r: Vec<u8>)
    ensures
        r@ == pull_body_spec(model.spec_bytes()),
{
    let mut out: Vec<u8> = Vec::new();
    append_bytes(&mut out, "{\"model\":\"".as_bytes());
    append_escaped(&mut out, model.as_bytes());
    append_bytes(&mut out, "\",\"stream\":false}".as_bytes());
    out
}

} // verus!
