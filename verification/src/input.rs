//! A number that an operator typed on a line.
use vstd::prelude::*;
use vstd::string::StrSliceExecFns;
use crate::wire::signed_of;

verus! {

/// Whether `c` is white space: one of the characters that trimming a line
/// removes.
pub open spec fn is_space(c: char) -> bool {
    let n = c as int;
    ||| 0x09 <= n <= 0x0d
    ||| n == 0x20
    ||| n == 0x85
    ||| n == 0xa0
    ||| n == 0x1680
    ||| 0x2000 <= n <= 0x200a
    ||| n == 0x2028
    ||| n == 0x2029
    ||| n == 0x202f
    ||| n == 0x205f
    ||| n == 0x3000
}

/// `s` without the white space that it begins with.
pub open spec fn without_leading(s: Seq<char>) -> Seq<char>
    decreases s.len(),
{
    if s.len() > 0 && is_space(s[0]) {
        without_leading(s.drop_first())
    } else {
        s
    }
}

/// `s` without the white space that it ends in.
pub open spec fn without_trailing(s: Seq<char>) -> Seq<char>
    decreases s.len(),
{
    if s.len() > 0 && is_space(s.last()) {
        without_trailing(s.drop_last())
    } else {
        s
    }
}

/// `s` without the white space around it.
pub open spec fn trimmed(s: Seq<char>) -> Seq<char> {
    without_trailing(without_leading(s))
}

/// Whether `c` is one of the ten decimal digits.
pub open spec fn is_digit(c: char) -> bool {
    '0' <= c <= '9'
}

/// The number that the decimal digits `s` spell; leading zeros count for
/// nothing.
pub open spec fn number(s: Seq<char>) -> int
    decreases s.len(),
{
    if s.len() == 0 {
        0
    } else {
        number(s.drop_last()) * 10 + (s.last() as int - '0' as int)
    }
}

/// The digits of `text`: all of it but a plus sign in front.
pub open spec fn unsigned_part(text: Seq<char>) -> Seq<char> {
    if text.len() > 0 && text[0] == '+' {
        text.drop_first()
    } else {
        text
    }
}

/// The 32-bit unsigned number that `text` spells: decimal digits, at least
/// one, after at most one plus sign, and nothing else. A number that does not
/// fit is none.
pub open spec fn parsed(text: Seq<char>) -> Option<u32> {
    let digits = unsigned_part(text);
    if digits.len() > 0 && (forall|i: int| 0 <= i < digits.len() ==> is_digit(#[trigger] digits[i]))
        && number(digits) <= u32::MAX {
        Some(number(digits) as u32)
    } else {
        None
    }
}

/// What an accepted number counts as: a number above zero, read as a signed
/// 32-bit number.
pub open spec fn accepted(n: Option<u32>) -> Option<i32> {
    match n {
        Some(n) => if n > 0 {
            Some(signed_of(n as int))
        } else {
            None
        },
        None => None,
    }
}

/// The amount, or the count, that a typed line gives: the number above zero
/// that the line spells once the white space around it is gone, or nothing
/// where it spells none.
pub open spec fn entered(line: Seq<char>) -> Option<i32> {
    accepted(parsed(trimmed(line)))
}

/// More digits never spell a smaller number.
proof fn lemma_number_grows(s: Seq<char>, k: int)
    requires
        0 <= k <= s.len(),
        forall|i: int| 0 <= i < s.len() ==> is_digit(#[trigger] s[i]),
    ensures
        0 <= number(s.subrange(0, k)) <= number(s),
    decreases s.len() - k,
{
    if k == s.len() {
        assert(s.subrange(0, k) =~= s);
        lemma_number_is_natural(s);
    } else {
        lemma_number_grows(s, k + 1);
        let longer = s.subrange(0, k + 1);
        assert(longer.drop_last() =~= s.subrange(0, k));
        lemma_number_is_natural(s.subrange(0, k));
    }
}

/// Digits spell a number that is not negative.
proof fn lemma_number_is_natural(s: Seq<char>)
    requires
        forall|i: int| 0 <= i < s.len() ==> is_digit(#[trigger] s[i]),
    ensures
        0 <= number(s),
    decreases s.len(),
{
    if s.len() > 0 {
        lemma_number_is_natural(s.drop_last());
    }
}

/// Whether `c` is white space.
fn is_whitespace(c: char) -> (space: bool)
    ensures
        space == is_space(c),
{
    let n: u32 = c as u32;
    (0x09 <= n && n <= 0x0d) || n == 0x20 || n == 0x85 || n == 0xa0 || n == 0x1680 || (0x2000 <= n
        && n <= 0x200a) || n == 0x2028 || n == 0x2029 || n == 0x202f || n == 0x205f || n == 0x3000
}

/// Says what a parsed number counts as: see `accepted`.
pub fn accept(n: Option<u32>) -> (amount: Option<i32>)
    ensures
        amount == accepted(n),
{
    match n {
        Some(n) => {
            if n == 0 {
                None
            } else if n >= 0x8000_0000 {
                Some((n as i64 - 0x1_0000_0000) as i32)
            } else {
                Some(n as i32)
            }
        },
        None => None,
    }
}

/// Reads the number that the characters of `line` from `from` to `to` spell:
/// see `parsed`.
fn parse_between(line: &str, from: usize, to: usize) -> (n: Option<u32>)
    requires
        from <= to <= line@.len(),
    ensures
        n == parsed(line@.subrange(from as int, to as int)),
{
    let ghost text = line@.subrange(from as int, to as int);
    let mut i: usize = from;
    if i < to && line.get_char(i) == '+' {
        i += 1;
    }
    let ghost digits = unsigned_part(text);
    assert(digits =~= line@.subrange(i as int, to as int));
    if i == to {
        return None;
    }
    let start: usize = i;
    let mut value: u64 = 0;
    while i < to
        invariant
            start <= i <= to <= line@.len(),
            start < to,
            text == line@.subrange(from as int, to as int),
            digits == unsigned_part(text),
            digits == line@.subrange(start as int, to as int),
            forall|j: int| 0 <= j < i - start ==> is_digit(#[trigger] digits[j]),
            value == number(digits.subrange(0, i - start)),
            value <= u32::MAX,
        decreases to - i,
    {
        let c: char = line.get_char(i);
        assert(c == digits[i - start]);
        if !('0' <= c && c <= '9') {
            assert(!is_digit(digits[i - start]));
            return None;
        }
        let d: u64 = (c as u32 - '0' as u32) as u64;
        let next: u64 = value * 10 + d;
        proof {
            let longer = digits.subrange(0, i - start + 1);
            assert(longer.drop_last() =~= digits.subrange(0, i - start));
            assert(number(longer) == next);
        }
        if next > 0xffff_ffff {
            proof {
                if forall|j: int| 0 <= j < digits.len() ==> is_digit(#[trigger] digits[j]) {
                    lemma_number_grows(digits, i - start + 1);
                }
            }
            return None;
        }
        value = next;
        i += 1;
    }
    assert(digits.subrange(0, i - start) =~= digits);
    Some(value as u32)
}

/// Reads the number that an operator typed on `line`: see `entered`.
pub fn read_number(line: &str) -> (amount: Option<i32>)
    ensures
        amount == entered(line@),
{
    let n: usize = line.unicode_len();
    let mut from: usize = 0;
    assert(line@.subrange(0, n as int) =~= line@);
    while from < n && is_whitespace(line.get_char(from))
        invariant
            from <= n == line@.len(),
            without_leading(line@) == without_leading(line@.subrange(from as int, n as int)),
        decreases n - from,
    {
        assert(line@.subrange(from as int, n as int).drop_first() =~= line@.subrange(
            from + 1,
            n as int,
        ));
        from += 1;
    }
    assert(without_leading(line@) == line@.subrange(from as int, n as int));
    let mut to: usize = n;
    while from < to && is_whitespace(line.get_char(to - 1))
        invariant
            from <= to <= n == line@.len(),
            trimmed(line@) == without_trailing(line@.subrange(from as int, to as int)),
        decreases to - from,
    {
        assert(line@.subrange(from as int, to as int).drop_last() =~= line@.subrange(
            from as int,
            to - 1,
        ));
        to -= 1;
    }
    assert(trimmed(line@) == line@.subrange(from as int, to as int));
    accept(parse_between(line, from, to))
}

} // verus!
