//! Reading a brightness level from the text a device reports it in: decimal
//! digits, with white space allowed around them.

use vstd::prelude::*;
use crate::error::StepError;

verus! {

/// Tab, line feed, vertical tab, form feed, carriage return and space.
pub open spec fn is_space(b: u8) -> bool {
    (9 <= b <= 13) || b == 32
}

/// The ASCII digits `0` to `9`.
pub open spec fn is_digit(b: u8) -> bool {
    48 <= b <= 57
}

/// `text` without the white space it starts with.
pub open spec fn trim_start(text: Seq<u8>) -> Seq<u8>
    decreases text.len(),
{
    if text.len() > 0 && is_space(text[0]) {
        trim_start(text.skip(1))
    } else {
        text
    }
}

/// `text` without the white space it ends with.
pub open spec fn trim_end(text: Seq<u8>) -> Seq<u8>
    decreases text.len(),
{
    if text.len() > 0 && is_space(text.last()) {
        trim_end(text.drop_last())
    } else {
        text
    }
}

/// `text` without the white space around it.
pub open spec fn trimmed(text: Seq<u8>) -> Seq<u8> {
    trim_end(trim_start(text))
}

/// The number that a run of digits writes in base ten, most significant
/// digit first.
pub open spec fn digits_value(digits: Seq<u8>) -> nat
    decreases digits.len(),
{
    if digits.len() == 0 {
        0
    } else {
        digits_value(digits.drop_last()) * 10 + (digits.last() - 48) as nat
    }
}

/// Whether every byte of `digits` is a digit.
pub open spec fn all_digits(digits: Seq<u8>) -> bool {
    forall|k: int| 0 <= k < digits.len() ==> is_digit(#[trigger] digits[k])
}

/// `word` without the one plus sign it may start with.
pub open spec fn unsigned_part(word: Seq<u8>) -> Seq<u8> {
    if word.len() > 0 && word[0] == 43 {
        word.skip(1)
    } else {
        word
    }
}

/// The level that `word` writes: an optional plus sign, then at least one
/// digit and nothing but digits, naming a number that fits in 32 bits.
pub open spec fn level_of_word(word: Seq<u8>) -> Option<u32> {
    let digits = unsigned_part(word);
    if digits.len() > 0 && all_digits(digits) && digits_value(digits) <= u32::MAX {
        Some(digits_value(digits) as u32)
    } else {
        None
    }
}

/// The level that `text` reports, white space around it set aside.
pub open spec fn level_of_text(text: Seq<u8>) -> Option<u32> {
    level_of_word(trimmed(text))
}

/// Where `text` starts with `lead` bytes of white space and no more,
/// trimming its start skips exactly those.
pub proof fn lemma_trim_start_skips(text: Seq<u8>, lead: int)
    requires
        0 <= lead <= text.len(),
        forall|k: int| 0 <= k < lead ==> is_space(#[trigger] text[k]),
        lead < text.len() ==> !is_space(text[lead]),
    ensures
        trim_start(text) =~= text.skip(lead),
    decreases lead,
{
    if lead > 0 {
        let rest = text.skip(1);
        assert(is_space(text[0]));
        assert forall|k: int| 0 <= k < lead - 1 implies is_space(#[trigger] rest[k]) by {
            assert(rest[k] == text[k + 1]);
        }
        lemma_trim_start_skips(rest, lead - 1);
        assert(rest.skip(lead - 1) =~= text.skip(lead));
    }
}

/// Where everything in `text` from index `keep` on is white space and the
/// byte before it is not, trimming its end keeps exactly the first `keep`
/// bytes.
pub proof fn lemma_trim_end_keeps(text: Seq<u8>, keep: int)
    requires
        0 <= keep <= text.len(),
        forall|k: int| keep <= k < text.len() ==> is_space(#[trigger] text[k]),
        keep > 0 ==> !is_space(text[keep - 1]),
    ensures
        trim_end(text) =~= text.take(keep),
    decreases text.len() - keep,
{
    if keep < text.len() {
        let rest = text.drop_last();
        assert(is_space(text.last()));
        assert forall|k: int| keep <= k < rest.len() implies is_space(#[trigger] rest[k]) by {
            assert(rest[k] == text[k]);
        }
        lemma_trim_end_keeps(rest, keep);
        assert(rest.take(keep) =~= text.take(keep));
    } else {
        assert(text.take(keep) =~= text);
    }
}

/// A run of digits is worth at least as much as any run it starts with.
pub proof fn lemma_digits_value_grows(digits: Seq<u8>, len: int)
    requires
        0 <= len <= digits.len(),
    ensures
        digits_value(digits.take(len)) <= digits_value(digits),
    decreases digits.len() - len,
{
    if len < digits.len() {
        let shorter = digits.drop_last();
        lemma_digits_value_grows(shorter, len);
        assert(shorter.take(len) =~= digits.take(len));
    } else {
        assert(digits.take(len) =~= digits);
    }
}

/// Whether `b` is white space.
pub fn is_space_byte(b: u8) -> (space: bool)
    ensures
        space == is_space(b),
{
    (9 <= b && b <= 13) || b == 32
}

/// Whether `b` is a decimal digit.
pub fn is_digit_byte(b: u8) -> (digit: bool)
    ensures
        digit == is_digit(b),
{
    48 <= b && b <= 57
}

/// Reads the level that `text` reports. Anything but white space, an
/// optional plus sign, digits and white space again, or a number too large
/// for 32 bits, is a failed reading.
pub fn parse_level(text: &[u8]) -> (read: Result<u32, StepError>)
    ensures
        read == match level_of_text(text@) {
            Some(level) => Ok::<u32, StepError>(level),
            None => Err::<u32, StepError>(StepError::SourceRead),
        },
{
    let n: usize = text.len();
    let mut from: usize = 0;
    while from < n && is_space_byte(text[from])
        invariant
            from <= n,
            n == text@.len(),
            forall|k: int| 0 <= k < from ==> is_space(#[trigger] text@[k]),
        decreases n - from,
    {
        from += 1;
    }
    let mut to: usize = n;
    while to > from && is_space_byte(text[to - 1])
        invariant
            from <= to <= n,
            n == text@.len(),
            forall|k: int| to <= k < n ==> is_space(#[trigger] text@[k]),
        decreases to,
    {
        to -= 1;
    }
    let ghost word = text@.subrange(from as int, to as int);
    proof {
        let tail = text@.skip(from as int);
        lemma_trim_start_skips(text@, from as int);
        assert forall|k: int| to - from <= k < tail.len() implies is_space(#[trigger] tail[k]) by {
            assert(tail[k] == text@[k + from]);
        }
        if to > from {
            assert(tail[to - from - 1] == text@[to - 1]);
        }
        lemma_trim_end_keeps(tail, to - from);
        assert(tail.take(to - from) =~= word);
        assert(trimmed(text@) =~= word);
    }
    let mut at: usize = from;
    if at < to && text[at] == 43 {
        at += 1;
    }
    let first: usize = at;
    let ghost digits = text@.subrange(first as int, to as int);
    proof {
        if first > from {
            assert(word[0] == text@[from as int]);
            assert(word.skip(1) =~= digits);
        } else {
            if word.len() > 0 {
                assert(word[0] == text@[from as int]);
            }
            assert(word =~= digits);
        }
        assert(unsigned_part(trimmed(text@)) == digits);
    }
    if first >= to {
        return Err(StepError::SourceRead);
    }
    let mut value: u64 = 0;
    while at < to
        invariant
            first <= at <= to <= n,
            n == text@.len(),
            digits == text@.subrange(first as int, to as int),
            digits == unsigned_part(trimmed(text@)),
            value == digits_value(digits.take(at - first)),
            value <= u32::MAX,
            forall|k: int| 0 <= k < at - first ==> is_digit(#[trigger] digits[k]),
        decreases to - at,
    {
        let b: u8 = text[at];
        proof {
            assert(digits[at - first] == b);
            assert(digits.take(at - first + 1).drop_last() =~= digits.take(at - first));
            assert(digits.take(at - first + 1).last() == b);
        }
        if !is_digit_byte(b) {
            return Err(StepError::SourceRead);
        }
        let grown: u64 = value * 10 + (b - 48) as u64;
        if grown > 0xFFFF_FFFF {
            proof {
                lemma_digits_value_grows(digits, at - first + 1);
            }
            return Err(StepError::SourceRead);
        }
        value = grown;
        at += 1;
    }
    proof {
        assert(digits.take(to - first) =~= digits);
    }
    Ok(value as u32)
}

} // verus!
