//! Interpretation of interactive input lines: trimming, reading a
//! selection index against a listing, and reading the post-transfer
//! choice.

use vstd::prelude::*;
use vstd::string::StrSliceExecFns;

verus! {

/// Whitespace that a typed line may carry around its content.
pub open spec fn is_input_ws(c: char) -> bool {
    c == ' ' || c == '\t' || c == '\r' || c == '\n'
}

pub open spec fn trim_start_spec(s: Seq<char>) -> Seq<char>
    decreases s.len(),
{
    if s.len() > 0 && is_input_ws(s[0]) {
        trim_start_spec(s.drop_first())
    } else {
        s
    }
}

pub open spec fn trim_end_spec(s: Seq<char>) -> Seq<char>
    decreases s.len(),
{
    if s.len() > 0 && is_input_ws(s.last()) {
        trim_end_spec(s.drop_last())
    } else {
        s
    }
}

/// A typed line with its surrounding whitespace removed.
pub open spec fn trimmed(s: Seq<char>) -> Seq<char> {
    trim_end_spec(trim_start_spec(s))
}

fn is_ws_char(c: char) -> (b: bool)
    ensures
        b == is_input_ws(c),
{
    c == ' ' || c == '\t' || c == '\r' || c == '\n'
}

/// Remove leading and trailing whitespace from a typed line.
pub fn trim_line(s: &str) -> (r: &str)
    ensures
        r@ == trimmed(s@),
{
    let len = s.unicode_len();
    let mut lo: usize = 0;
    proof {
        assert(s@.subrange(0, len as int) =~= s@);
    }
    while lo < len && is_ws_char(s.get_char(lo))
        invariant
            0 <= lo <= len,
            len == s@.len(),
            trim_start_spec(s@) == trim_start_spec(s@.subrange(lo as int, len as int)),
        decreases len - lo,
    {
        proof {
            assert(s@.subrange(lo as int, len as int).drop_first() =~= s@.subrange(
                lo as int + 1,
                len as int,
            ));
        }
        lo += 1;
    }
    proof {
        assert(trim_start_spec(s@) == s@.subrange(lo as int, len as int));
    }
    let mut hi: usize = len;
    while hi > lo && is_ws_char(s.get_char(hi - 1))
        invariant
            lo <= hi <= len,
            len == s@.len(),
            trim_start_spec(s@) == s@.subrange(lo as int, len as int),
            trim_end_spec(s@.subrange(lo as int, len as int)) == trim_end_spec(
                s@.subrange(lo as int, hi as int),
            ),
        decreases hi,
    {
        proof {
            assert(s@.subrange(lo as int, hi as int).drop_last() =~= s@.subrange(
                lo as int,
                hi as int - 1,
            ));
        }
        hi -= 1;
    }
    s.substring_char(lo, hi)
}

/// Decimal digits and the number a digit string denotes.
pub open spec fn is_ascii_digit(c: char) -> bool {
    48 <= c as int && c as int <= 57
}

pub open spec fn digit_val(c: char) -> int {
    c as int - 48
}

pub open spec fn all_digits(s: Seq<char>) -> bool {
    forall|i: int| 0 <= i < s.len() ==> is_ascii_digit(s[i])
}

pub open spec fn decimal_val(s: Seq<char>) -> int
    decreases s.len(),
{
    if s.len() == 0 {
        0
    } else {
        decimal_val(s.drop_last()) * 10 + digit_val(s.last())
    }
}

/// What a line of selection input denotes against a listing of `n`
/// files: the zero-based index it names, when the trimmed line is a
/// decimal number below `n`; anything else is invalid.
pub open spec fn selection_of_line(line: Seq<char>, n: int) -> Option<int> {
    let t = trimmed(line);
    if t.len() > 0 && all_digits(t) && decimal_val(t) < n {
        Some(decimal_val(t))
    } else {
        None
    }
}

/// Read a selection index from a typed line, against a listing of `n`
/// files. Out-of-range and non-numeric input give nothing, so the
/// caller re-prompts; a number too large for the machine is out of
/// range for any listing.
pub fn parse_selection(line: &str, n: usize) -> (r: Option<usize>)
    ensures
        r matches Some(i) ==> selection_of_line(line@, n as int) == Some(i as int),
        r is None ==> selection_of_line(line@, n as int) is None,
{
    let t = trim_line(line);
    let len = t.unicode_len();
    if len == 0 {
        return None;
    }
    let mut i: usize = 0;
    let mut val: u128 = 0;
    let mut over: bool = false;
    while i < len
        invariant
            0 <= i <= len,
            len == t@.len(),
            t@ == trimmed(line@),
            forall|j: int| 0 <= j < i ==> is_ascii_digit(t@[j]),
            !over ==> val == decimal_val(t@.subrange(0, i as int)) && val <= usize::MAX as u128,
            over ==> decimal_val(t@.subrange(0, i as int)) > usize::MAX as int,
        decreases len - i,
    {
        let c = t.get_char(i);
        let u = c as u32;
        if u < 48 || u > 57 {
            return None;
        }
        let d: u128 = (u - 48) as u128;
        proof {
            assert(t@.subrange(0, i as int + 1).drop_last() =~= t@.subrange(0, i as int));
            assert(t@.subrange(0, i as int + 1).last() == t@[i as int]);
        }
        if !over {
            let w: u128 = val * 10 + d;
            if w > usize::MAX as u128 {
                over = true;
            } else {
                val = w;
            }
        }
        i += 1;
    }
    proof {
        assert(t@.subrange(0, len as int) =~= t@);
    }
    if over {
        return None;
    }
    let v = val as usize;
    if v < n {
        Some(v)
    } else {
        None
    }
}

/// The two options offered after a transfer (or after an empty
/// listing): fetch another file on the same connection, or leave for
/// another server.
#[derive(Clone, Copy, PartialEq, Eq, Structural, Debug)]
pub enum Choice {
    AnotherFile,
    AnotherServer,
}

/// What a line of choice input denotes: option 1 or option 2, exactly;
/// anything else is invalid and the caller re-prompts.
pub open spec fn choice_of_line(line: Seq<char>) -> Option<Choice> {
    let t = trimmed(line);
    if t == seq!['1'] {
        Some(Choice::AnotherFile)
    } else if t == seq!['2'] {
        Some(Choice::AnotherServer)
    } else {
        None
    }
}

/// Read the post-transfer choice from a typed line.
pub fn parse_choice(line: &str) -> (r: Option<Choice>)
    ensures
        r == choice_of_line(line@),
{
    let t = trim_line(line);
    let len = t.unicode_len();
    if len == 1 {
        let c = t.get_char(0);
        if c == '1' {
            proof {
                assert(t@ =~= seq!['1']);
            }
            return Some(Choice::AnotherFile);
        }
        if c == '2' {
            proof {
                assert(t@ =~= seq!['2']);
            }
            return Some(Choice::AnotherServer);
        }
        proof {
            assert(t@ != seq!['1']);
            assert(t@ != seq!['2']);
        }
        return None;
    }
    proof {
        assert(t@ != seq!['1']);
        assert(t@ != seq!['2']);
    }
    None
}

} // verus!
