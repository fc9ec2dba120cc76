//! Conflict detector: decides from the kernel's io_delay configuration text
//! whether the target port is free for userspace, or reserved by the kernel
//! for its own timing-delay use.
//!
//! The configuration lives in a fixed, well-known file; the unverified shell
//! reads it and hands the raw bytes to [`check_port_available`], which trims
//! trailing whitespace, parses the text as an unsigned 8-bit integer and
//! compares it against the reserved sentinel.

use vstd::prelude::*;

use crate::errors::Error;

verus! {

/// The io_delay setting with which the kernel reserves the port for its own
/// timing-delay use: the reserved sentinel.
pub const IO_DELAY_TYPE_0X80: u8 = 0;

/// The ASCII whitespace bytes that may trail the configuration text.
pub open spec fn is_ascii_whitespace(b: u8) -> bool {
    b == 32 || b == 9 || b == 10 || b == 13 || b == 11 || b == 12
}

/// The content with every trailing whitespace byte removed.
pub open spec fn trimmed_end(s: Seq<u8>) -> Seq<u8>
    decreases s.len(),
{
    if s.len() == 0 {
        s
    } else if is_ascii_whitespace(s.last()) {
        trimmed_end(s.drop_last())
    } else {
        s
    }
}

/// An ASCII decimal digit.
pub open spec fn is_ascii_digit(b: u8) -> bool {
    48 <= b <= 57
}

/// Every byte of the text is an ASCII decimal digit.
pub open spec fn all_digits(s: Seq<u8>) -> bool {
    forall|i: int| 0 <= i < s.len() ==> is_ascii_digit(#[trigger] s[i])
}

/// The number that the digit text denotes in decimal.
pub open spec fn digits_value(s: Seq<u8>) -> int
    recommends
        all_digits(s),
    decreases s.len(),
{
    if s.len() == 0 {
        0
    } else {
        digits_value(s.drop_last()) * 10 + (s.last() - 48)
    }
}

/// Valid unsigned 8-bit decimal text: nonempty, digits only, value in range.
pub open spec fn is_u8_decimal(s: Seq<u8>) -> bool {
    s.len() > 0 && all_digits(s) && digits_value(s) <= 255
}

proof fn lemma_all_digits_drop_last(s: Seq<u8>)
    requires
        all_digits(s),
        s.len() > 0,
    ensures
        all_digits(s.drop_last()),
{
    assert forall|i: int| 0 <= i < s.drop_last().len() implies is_ascii_digit(
        #[trigger] s.drop_last()[i],
    ) by {
        assert(s.drop_last()[i] == s[i]);
    }
}

proof fn lemma_digits_value_nonneg(s: Seq<u8>)
    requires
        all_digits(s),
    ensures
        digits_value(s) >= 0,
    decreases s.len(),
{
    if s.len() > 0 {
        lemma_all_digits_drop_last(s);
        lemma_digits_value_nonneg(s.drop_last());
    }
}

/// Appending further digits never shrinks the denoted number, so a prefix
/// already above the 8-bit range condemns the whole text.
proof fn lemma_digits_value_grows(s: Seq<u8>, k: int)
    requires
        all_digits(s),
        0 <= k <= s.len(),
    ensures
        digits_value(s.take(k)) <= digits_value(s),
    decreases s.len(),
{
    if k == s.len() {
        assert(s.take(k) =~= s);
    } else {
        let shorter = s.drop_last();
        lemma_all_digits_drop_last(s);
        assert(s.take(k) =~= shorter.take(k));
        lemma_digits_value_grows(shorter, k);
        lemma_digits_value_nonneg(shorter);
    }
}

fn is_whitespace_byte(b: u8) -> (r: bool)
    ensures
        r == is_ascii_whitespace(b),
{
    b == 32 || b == 9 || b == 10 || b == 13 || b == 11 || b == 12
}

/// The length of `content` once trailing ASCII whitespace is removed.
fn trimmed_len(content: &[u8]) -> (end: usize)
    ensures
        end <= content@.len(),
        trimmed_end(content@) == content@.subrange(0, end as int),
{
    let mut end: usize = content.len();
    proof {
        assert(content@.subrange(0, end as int) =~= content@);
    }
    while end > 0 && is_whitespace_byte(content[end - 1])
        invariant
            end <= content@.len(),
            trimmed_end(content@) == trimmed_end(content@.subrange(0, end as int)),
        decreases end,
    {
        proof {
            let cur = content@.subrange(0, end as int);
            assert(cur.last() == content@[end - 1]);
            assert(cur.drop_last() =~= content@.subrange(0, end - 1));
        }
        end = end - 1;
    }
    proof {
        let cur = content@.subrange(0, end as int);
        if end == 0 {
            assert(cur.len() == 0);
        } else {
            assert(cur.last() == content@[end - 1]);
        }
        assert(trimmed_end(cur) == cur);
    }
    end
}

/// Parses the configuration text as an unsigned 8-bit integer, after
/// trimming trailing whitespace. Returns the parsed value exactly when the
/// trimmed text is valid unsigned 8-bit decimal, and a parse error on any
/// other content — never a silent default.
pub fn parse_io_delay_type(content: &[u8]) -> (result: Result<u8, Error>)
    ensures
        is_u8_decimal(trimmed_end(content@)) ==> result == Ok::<u8, Error>(
            digits_value(trimmed_end(content@)) as u8,
        ),
        !is_u8_decimal(trimmed_end(content@)) ==> result == Err::<u8, Error>(
            Error::ConfigParseError,
        ),
{
    let ghost t = trimmed_end(content@);
    let end = trimmed_len(content);
    if end == 0 {
        return Err(Error::ConfigParseError);
    }
    let mut i: usize = 0;
    let mut acc: u16 = 0;
    while i < end
        invariant
            0 <= i <= end,
            end <= content@.len(),
            t == content@.subrange(0, end as int),
            t == trimmed_end(content@),
            acc <= 255,
            forall|j: int| 0 <= j < i ==> is_ascii_digit(#[trigger] t[j]),
            acc == digits_value(t.take(i as int)),
        decreases end - i,
    {
        let b: u8 = content[i];
        assert(b == t[i as int]);
        if !(48 <= b && b <= 57) {
            assert(!all_digits(t));
            return Err(Error::ConfigParseError);
        }
        proof {
            assert(t.take(i + 1).drop_last() =~= t.take(i as int));
            assert(t.take(i + 1).last() == t[i as int]);
        }
        acc = acc * 10 + (b - 48) as u16;
        if acc > 255 {
            proof {
                if all_digits(t) {
                    lemma_digits_value_grows(t, i + 1);
                }
            }
            return Err(Error::ConfigParseError);
        }
        i = i + 1;
    }
    proof {
        assert(t.take(end as int) =~= t);
    }
    Ok(acc as u8)
}

/// Decides whether the target port is free for userspace. Returns `false`
/// (unavailable) exactly when the configuration text parses to the reserved
/// sentinel, `true` for every other valid unsigned 8-bit value, and a parse
/// error when the text is not a valid unsigned integer.
///
/// Callers must treat `false` as fatal to startup: the kernel then uses the
/// port for its own timing delays, and the condition is a static boot-time
/// parameter that no retry resolves.
pub fn check_port_available(content: &[u8]) -> (result: Result<bool, Error>)
    ensures
        is_u8_decimal(trimmed_end(content@)) ==> result == Ok::<bool, Error>(
            digits_value(trimmed_end(content@)) != IO_DELAY_TYPE_0X80 as int,
        ),
        !is_u8_decimal(trimmed_end(content@)) ==> result == Err::<bool, Error>(
            Error::ConfigParseError,
        ),
{
    proof {
        if is_u8_decimal(trimmed_end(content@)) {
            lemma_digits_value_nonneg(trimmed_end(content@));
        }
    }
    match parse_io_delay_type(content) {
        Ok(value) => Ok(value != IO_DELAY_TYPE_0X80),
        Err(e) => Err(e),
    }
}

} // verus!
