//! The protocol decoder: one line of input text maps to exactly one request.

use vstd::prelude::*;

verus! {

/// A single client request: enqueue the given text, or ask for the oldest
/// pending message. Produced by [`parse_request`], consumed immediately by
/// the handler, never stored.
#[derive(Debug, PartialEq, Eq)]
pub enum Request {
    Publish(String),
    Retrieve,
}

/// A line-terminator character. The decoder strips these, and only these,
/// from the end of the received line; interior or non-terminator whitespace
/// is kept.
pub open spec fn is_line_terminator(c: char) -> bool {
    c == '\n' || c == '\r'
}

/// The received line with every trailing line-terminator character removed.
pub open spec fn trim_line(s: Seq<char>) -> Seq<char>
    decreases s.len(),
{
    if s.len() > 0 && is_line_terminator(s[s.len() - 1]) {
        trim_line(s.drop_last())
    } else {
        s
    }
}

/// What decoding a line yields: an empty line (after trimming the
/// terminators) is a retrieve; anything else publishes the trimmed text.
/// Every line satisfies this for exactly one request kind.
pub open spec fn decodes_to(line: Seq<char>, r: Request) -> bool {
    match r {
        Request::Retrieve => trim_line(line).len() == 0,
        Request::Publish(text) => trim_line(line).len() > 0 && text@ == trim_line(line),
    }
}

/// True exactly when the character at `i` is a line terminator.
fn is_terminator_at(s: &str, i: usize) -> (b: bool)
    requires
        i < s@.len(),
    ensures
        b == is_line_terminator(s@[i as int]),
{
    let c: char = s.get_char(i);
    c == '\n' || c == '\r'
}

/// Decode one line. Total: every input maps to a request, and the decoder
/// never fails. A line of non-terminator whitespace only (for example two
/// spaces) is a non-empty publish payload, not a retrieve.
pub fn parse_request(line: String) -> (r: Request)
    ensures
        decodes_to(line@, r),
{
    let s: &str = line.as_str();
    let len: usize = s.unicode_len();
    let mut n: usize = len;
    proof {
        assert(s@.subrange(0, len as int) =~= s@);
    }
    while n > 0 && is_terminator_at(s, n - 1)
        invariant
            n <= len == s@.len(),
            trim_line(s@) == trim_line(s@.subrange(0, n as int)),
        decreases n,
    {
        proof {
            assert(s@.subrange(0, n as int).drop_last() =~= s@.subrange(0, n - 1));
        }
        n = n - 1;
    }
    if n == 0 {
        Request::Retrieve
    } else {
        let trimmed: &str = s.substring_char(0, n);
        Request::Publish(trimmed.to_owned())
    }
}

/// The decoder is deterministic: two requests decoded from the same line are
/// the same kind, and two publishes carry the same text.
pub proof fn lemma_decode_deterministic(line: Seq<char>, r1: Request, r2: Request)
    requires
        decodes_to(line, r1),
        decodes_to(line, r2),
    ensures
        r1 is Retrieve <==> r2 is Retrieve,
        r1 is Publish && r2 is Publish ==> r1->Publish_0@ == r2->Publish_0@,
{
}

} // verus!
