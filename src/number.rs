use vstd::prelude::*;

verus! {

/// Whether `c` is an ASCII decimal digit.
pub open spec fn is_decimal_digit(c: char) -> bool {
    '0' <= c && c <= '9'
}

/// The value of a decimal digit.
pub open spec fn digit_value(c: char) -> int {
    c as int - '0' as int
}

/// The number that a string of decimal digits writes, most significant first.
pub open spec fn digits_value(d: Seq<char>) -> int
    decreases d.len(),
{
    if d.len() == 0 {
        0
    } else {
        digits_value(d.drop_last()) * 10 + digit_value(d.last())
    }
}

/// The text after an optional leading `+` sign.
pub open spec fn unsigned_part(s: Seq<char>) -> Seq<char> {
    if s.len() > 0 && s[0] == '+' {
        s.drop_first()
    } else {
        s
    }
}

/// Whether every character of `d` is a decimal digit.
pub open spec fn all_decimal_digits(d: Seq<char>) -> bool {
    forall|i: int| 0 <= i < d.len() ==> is_decimal_digit(#[trigger] d[i])
}

/// What a string reads as an unsigned 64-bit integer: an optional `+` sign,
/// then one or more decimal digits whose value fits in `u64`. Anything else
/// (empty text, a `-` sign, spaces, other characters, an overflow) is no number.
pub open spec fn parse_u64(s: Seq<char>) -> Option<u64> {
    let d = unsigned_part(s);
    if d.len() > 0 && all_decimal_digits(d) && digits_value(d) <= u64::MAX {
        Some(digits_value(d) as u64)
    } else {
        None
    }
}

proof fn lemma_digits_value_grows(d: Seq<char>, j: int)
    requires
        0 <= j <= d.len(),
        forall|i: int| 0 <= i < d.len() ==> is_decimal_digit(#[trigger] d[i]),
    ensures
        0 <= digits_value(d.take(j)) <= digits_value(d),
    decreases d.len(),
{
    if d.len() > 0 {
        if j == d.len() {
            assert(d.take(j) =~= d);
            lemma_digits_value_grows(d.drop_last(), j - 1);
            assert(d.drop_last().take(j - 1) =~= d.take(j - 1));
        } else {
            lemma_digits_value_grows(d.drop_last(), j);
            assert(d.drop_last().take(j) =~= d.take(j));
            lemma_digits_value_grows(d.drop_last(), d.len() - 1);
            assert(d.drop_last().take(d.len() - 1) =~= d.drop_last());
        }
    } else {
        assert(d.take(j) =~= d);
    }
}

/// Reads `s` as an unsigned 64-bit integer, as `str::parse::<u64>` does.
pub fn parse_decimal_u64(s: &str) -> (r: Option<u64>)
    ensures
        r == parse_u64(s@),
{
    let n = s.unicode_len();
    let mut start: usize = 0;
    if n > 0 && s.get_char(0) == '+' {
        start = 1;
    }
    let ghost d = unsigned_part(s@);
    assert(d =~= s@.subrange(start as int, n as int));
    if start == n {
        return None;
    }
    let mut acc: u64 = 0;
    let mut overflow = false;
    let mut i: usize = start;
    while i < n
        invariant
            start <= i <= n,
            n == s@.len(),
            d =~= s@.subrange(start as int, n as int),
            d == unsigned_part(s@),
            forall|k: int| 0 <= k < i - start ==> is_decimal_digit(#[trigger] d[k]),
            !overflow ==> acc as int == digits_value(d.take(i - start)),
            overflow ==> digits_value(d.take(i - start)) > u64::MAX,
        decreases n - i,
    {
        let c = s.get_char(i);
        assert(c == d[i - start]);
        if !('0' <= c && c <= '9') {
            assert(!is_decimal_digit(d[i - start]));
            return None;
        }
        let ghost prev = d.take(i - start);
        assert(d.take(i - start + 1).drop_last() =~= prev);
        assert(d.take(i - start + 1).last() == c);
        proof {
            lemma_digits_value_grows(d.take(i - start + 1), i - start);
            assert(d.take(i - start + 1).take(i - start) =~= prev);
        }
        let v = (c as u32 - '0' as u32) as u64;
        if !overflow {
            if acc > (u64::MAX - v) / 10 {
                overflow = true;
            } else {
                acc = acc * 10 + v;
            }
        }
        i = i + 1;
    }
    assert(d.take(n - start) =~= d);
    if overflow {
        None
    } else {
        Some(acc)
    }
}

} // verus!
