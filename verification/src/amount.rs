//! Amounts as people write them.

use vstd::prelude::*;
use vstd::string::*;

verus! {

/// The amount, in the smallest unit, that a text stands for, or `None`
/// where the text is no amount: what
/// `grin_core::core::amount_from_hr_string` returns.
pub uninterp spec fn hr_amount(text: Seq<char>) -> Option<u64>;

/// Smallest units to the whole unit.
pub const GRIN_BASE: u64 = 1_000_000_000;

/// Number of digits of a fraction that count.
pub const FRACTION_DIGITS: usize = 9;

/// Largest number of digits that a whole part can have, leading zeros
/// aside.
pub const MAX_WHOLE_DIGITS: usize = 11;

/// The largest whole part that, times 10^9, stays below 2^64.
pub const MAX_WHOLE: u64 = 18_446_744_073;

/// The value of the byte of a decimal digit.
pub open spec fn digit_value(byte: u8) -> Option<nat> {
    if 48 <= byte <= 57 {
        Some((byte - 48) as nat)
    } else {
        None
    }
}

/// The place of the first `.` at or after `from`, or the length of the
/// text where there is none.
pub open spec fn first_dot_from(bytes: Seq<u8>, from: int) -> int
    decreases bytes.len() - from,
{
    if from >= bytes.len() {
        bytes.len() as int
    } else if bytes[from] == 46 {
        from
    } else {
        first_dot_from(bytes, from + 1)
    }
}

/// The place of the first byte at or after `from`, and before `end`, that
/// is no `0`; `end` where there is none.
pub open spec fn skip_zeros_from(bytes: Seq<u8>, from: int, end: int) -> int
    decreases end - from,
{
    if from < end && bytes[from] == 48 {
        skip_zeros_from(bytes, from + 1, end)
    } else {
        from
    }
}

/// Where the digits that count begin in a whole part that ends at `dot`:
/// after one `+`, if the text begins with one, and after all leading zeros.
pub open spec fn significant_start(bytes: Seq<u8>, dot: int) -> int {
    skip_zeros_from(
        bytes,
        if dot > 0 && bytes[0] == 43 {
            1
        } else {
            0
        },
        dot,
    )
}

/// The number that the bytes from `from` up to `to` stand for, or `None`
/// where one of them is no digit. No bytes stand for 0.
pub open spec fn decimal_between(bytes: Seq<u8>, from: int, to: int) -> Option<nat>
    decreases to - from,
{
    if to <= from {
        Some(0)
    } else {
        match (decimal_between(bytes, from, to - 1), digit_value(bytes[to - 1])) {
            (Some(value), Some(digit)) => Some(value * 10 + digit),
            _ => None,
        }
    }
}

/// The number that the first `count` digits of a fraction stand for, which
/// begins at `start`; zeros stand in for digits that the text does not
/// have. `None` where one of the bytes is no digit.
pub open spec fn fraction_value(bytes: Seq<u8>, start: int, count: int) -> Option<nat>
    decreases count,
{
    if count <= 0 {
        Some(0)
    } else {
        let byte = if start + count - 1 < bytes.len() {
            bytes[start + count - 1]
        } else {
            48u8
        };
        match (fraction_value(bytes, start, count - 1), digit_value(byte)) {
            (Some(value), Some(digit)) => Some(value * 10 + digit),
            _ => None,
        }
    }
}

/// The bytes of a text can be handed to the amount parser: up to the ninth
/// digit of the fraction they are plain ASCII, and the whole part, times
/// 10^9, plus the fraction of nine digits, fits 64 bits.
///
/// The whole part is what stands before the first `.`: one `+` at most,
/// then digits, of which at most eleven follow the leading zeros. Where the
/// first nine bytes of the fraction are not all digits, the fraction counts
/// as less than 10^8, which is the most that the parser then makes of it.
pub open spec fn amount_bytes_are_safe(bytes: Seq<u8>) -> bool {
    let dot = first_dot_from(bytes, 0);
    let start = significant_start(bytes, dot);
    &&& forall|k: int| 0 <= k < bytes.len() && k <= dot + FRACTION_DIGITS ==> #[trigger] bytes[k] < 128
    &&& dot - start <= MAX_WHOLE_DIGITS
    &&& decimal_between(bytes, start, dot) matches Some(whole)
    &&& match fraction_value(bytes, dot + 1, FRACTION_DIGITS as int) {
        Some(fraction) => whole * GRIN_BASE + fraction <= u64::MAX,
        None => whole <= MAX_WHOLE,
    }
}

/// The text can be handed to the amount parser: its bytes in UTF-8 are
/// safe.
pub open spec fn amount_text_is_safe(text: Seq<char>) -> bool {
    amount_bytes_are_safe(vstd::utf8::encode_utf8(text))
}

/// What [`parse_amount`] returns for a text.
pub open spec fn spec_parse_amount(text: Seq<char>) -> Option<u64> {
    if amount_text_is_safe(text) {
        hr_amount(text)
    } else {
        None
    }
}

/// The largest number of `digits` decimal digits, up to eleven.
pub open spec fn nines(digits: int) -> nat {
    if digits <= 0 {
        0
    } else if digits == 1 {
        9
    } else if digits == 2 {
        99
    } else if digits == 3 {
        999
    } else if digits == 4 {
        9_999
    } else if digits == 5 {
        99_999
    } else if digits == 6 {
        999_999
    } else if digits == 7 {
        9_999_999
    } else if digits == 8 {
        99_999_999
    } else if digits == 9 {
        999_999_999
    } else if digits == 10 {
        9_999_999_999
    } else {
        99_999_999_999
    }
}

/// `grin_core::core::amount_from_hr_string`, with its error reduced to
/// `None`. The function multiplies the whole part by 10^9 and adds the
/// fraction, cut to nine digits, both unchecked, and it cuts the fraction
/// at its ninth byte: it is called on safe texts only, for which the sum
/// fits and the cut falls between two characters.
#[verifier::external_body]
fn amount_from_hr_string(text: &str) -> (amount: Option<u64>)
    requires
        amount_text_is_safe(text@),
    ensures
        amount == hr_amount(text@),
{
    grin_core::core::amount_from_hr_string(text).ok()
}

/// Tells whether the bytes of a text can be handed to the amount parser.
pub fn amount_is_safe(bytes: &[u8]) -> (safe: bool)
    ensures
        safe == amount_bytes_are_safe(bytes@),
{
    let n: usize = bytes.len();
    let mut dot: usize = 0;
    let mut found: bool = false;
    while dot < n && !found
        invariant
            dot <= n,
            n == bytes@.len(),
            first_dot_from(bytes@, 0) == first_dot_from(bytes@, dot as int),
            found ==> dot < n && bytes@[dot as int] == 46,
        decreases n - dot + (if found { 0int } else { 1int }),
    {
        if bytes[dot] == 46u8 {
            found = true;
        } else {
            dot = dot + 1;
        }
    }
    assert(first_dot_from(bytes@, 0) == dot);

    let end: usize = if n - dot > FRACTION_DIGITS {
        dot + FRACTION_DIGITS + 1
    } else {
        n
    };
    let mut plain: bool = true;
    let mut k: usize = 0;
    while k < end
        invariant
            k <= end <= n,
            n == bytes@.len(),
            plain <==> forall|p: int| 0 <= p < k ==> #[trigger] bytes@[p] < 128,
        decreases end - k,
    {
        if bytes[k] >= 128u8 {
            plain = false;
        }
        k = k + 1;
    }
    if !plain {
        return false;
    }
    let mut plus: usize = 0;
    if dot > 0 && bytes[0] == 43u8 {
        plus = 1;
    }
    let mut start: usize = plus;
    let mut zeros: bool = true;
    while start < dot && zeros
        invariant
            plus <= start <= dot,
            dot <= n,
            n == bytes@.len(),
            skip_zeros_from(bytes@, plus as int, dot as int) == skip_zeros_from(
                bytes@,
                start as int,
                dot as int,
            ),
            !zeros ==> start < dot && bytes@[start as int] != 48,
        decreases dot - start + (if zeros { 1int } else { 0int }),
    {
        if bytes[start] == 48u8 {
            start = start + 1;
        } else {
            zeros = false;
        }
    }
    assert(significant_start(bytes@, dot as int) == start);
    if dot - start > MAX_WHOLE_DIGITS {
        return false;
    }
    let mut whole: u64 = 0;
    let mut whole_reads: bool = true;
    let mut i: usize = start;
    while i < dot
        invariant
            start <= i <= dot,
            dot <= n,
            dot - start <= MAX_WHOLE_DIGITS,
            n == bytes@.len(),
            whole_reads ==> decimal_between(bytes@, start as int, i as int) == Some(whole as nat),
            !whole_reads ==> decimal_between(bytes@, start as int, i as int) is None,
            whole <= nines(i - start),
        decreases dot - i,
    {
        let b: u8 = bytes[i];
        if whole_reads && 48u8 <= b && b <= 57u8 {
            whole = whole * 10 + (b - 48) as u64;
        } else {
            whole_reads = false;
        }
        i = i + 1;
    }
    if !whole_reads {
        return false;
    }
    let mut fraction: u64 = 0;
    let mut fraction_reads: bool = true;
    let mut j: usize = 0;
    while j < FRACTION_DIGITS
        invariant
            j <= FRACTION_DIGITS,
            dot <= n,
            n == bytes@.len(),
            fraction_reads ==> fraction_value(bytes@, dot + 1, j as int) == Some(fraction as nat),
            !fraction_reads ==> fraction_value(bytes@, dot + 1, j as int) is None,
            fraction <= nines(j as int),
        decreases FRACTION_DIGITS - j,
    {
        let mut b: u8 = 48u8;
        if dot < n && j < n - dot - 1 {
            b = bytes[dot + 1 + j];
        }
        if fraction_reads && 48u8 <= b && b <= 57u8 {
            fraction = fraction * 10 + (b - 48) as u64;
        } else {
            fraction_reads = false;
        }
        j = j + 1;
    }
    if fraction_reads {
        whole < MAX_WHOLE || (whole == MAX_WHOLE && fraction <= 709_551_615)
    } else {
        whole <= MAX_WHOLE
    }
}

/// Reads an amount such as `12.5` and returns it in the smallest unit.
///
/// Every text that is handed to the parser is read as the parser reads it.
/// Not handed to it, and so no amount, are a text with a character outside
/// ASCII before the tenth digit of its fraction, one whose whole part is
/// not made of digits after at most one `+`, and one whose amount does not
/// fit 64 bits.
pub fn parse_amount(text: &str) -> (amount: Option<u64>)
    ensures
        amount == spec_parse_amount(text@),
{
    if amount_is_safe(text.as_bytes()) {
        amount_from_hr_string(text)
    } else {
        None
    }
}

} // verus!
