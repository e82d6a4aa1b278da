//! Reading a decimal integer from characters.

use vstd::prelude::*;

verus! {

pub open spec fn is_digit(c: char) -> bool {
    '0' <= c <= '9'
}

pub open spec fn all_digits(s: Seq<char>) -> bool {
    forall|k: int| 0 <= k < s.len() ==> is_digit(#[trigger] s[k])
}

/// The number that the decimal digits `s` write.
pub open spec fn digits_value(s: Seq<char>) -> int
    decreases s.len(),
{
    if s.len() == 0 {
        0
    } else {
        digits_value(s.drop_last()) * 10 + (s.last() as int - '0' as int)
    }
}

pub open spec fn has_sign(s: Seq<char>) -> bool {
    s.len() > 0 && (s[0] == '-' || s[0] == '+')
}

/// The digits of `s`: all of it but a leading sign.
pub open spec fn digits_of(s: Seq<char>) -> Seq<char> {
    if has_sign(s) {
        s.subrange(1, s.len() as int)
    } else {
        s
    }
}

/// The number that `s` writes, before any bound is applied.
pub open spec fn signed_value(s: Seq<char>) -> int {
    if s.len() > 0 && s[0] == '-' {
        -digits_value(digits_of(s))
    } else {
        digits_value(digits_of(s))
    }
}

/// What `s` reads as: an optional sign, then one or more decimal digits and
/// nothing else, with a value that a 32-bit signed integer holds.
pub open spec fn parsed_i32(s: Seq<char>) -> Option<i32> {
    if digits_of(s).len() == 0 || !all_digits(digits_of(s)) {
        None
    } else if i32::MIN <= signed_value(s) <= i32::MAX {
        Some(signed_value(s) as i32)
    } else {
        None
    }
}

/// Reads a 32-bit signed decimal integer.
pub fn parse_i32(v: &Vec<char>) -> (r: Option<i32>)
    ensures
        r == parsed_i32(v@),
{
    let n: usize = v.len();
    let signed: bool = n > 0 && (v[0] == '-' || v[0] == '+');
    let negative: bool = n > 0 && v[0] == '-';
    let first: usize = if signed { 1 } else { 0 };
    let ghost d = digits_of(v@);
    if first == n {
        return None;
    }
    let cap: i64 = 0x8000_0000;
    let mut acc: i64 = 0;
    let mut overflow: bool = false;
    let mut k: usize = first;
    assert(d.subrange(0, 0) =~= Seq::<char>::empty());
    while k < n
        invariant
            first <= k <= n,
            n == v@.len(),
            d == digits_of(v@),
            d.len() == n - first,
            first == (if has_sign(v@) { 1usize } else { 0usize }),
            cap == 0x8000_0000,
            all_digits(d.subrange(0, k - first)),
            0 <= acc <= cap,
            overflow ==> digits_value(d.subrange(0, k - first)) > cap,
            !overflow ==> digits_value(d.subrange(0, k - first)) == acc,
        decreases n - k,
    {
        let c: char = v[k];
        assert(c == d[k - first]);
        if !('0' <= c && c <= '9') {
            assert(!is_digit(d[k - first]));
            return None;
        }
        let digit: i64 = (c as u32 - '0' as u32) as i64;
        let ghost before = d.subrange(0, k - first);
        let ghost after = d.subrange(0, k - first + 1);
        assert(after.drop_last() =~= before);
        assert(after.last() == c);
        assert(digits_value(after) == digits_value(before) * 10 + digit);
        assert forall|m: int| 0 <= m < after.len() implies is_digit(#[trigger] after[m]) by {
            if m < before.len() {
                assert(after[m] == before[m]);
            }
        }
        if !overflow {
            let next: i64 = acc * 10 + digit;
            if next > cap {
                overflow = true;
            } else {
                acc = next;
            }
        }
        k += 1;
    }
    assert(d.subrange(0, n - first) =~= d);
    if overflow {
        None
    } else if negative {
        Some((-acc) as i32)
    } else if acc < cap {
        Some(acc as i32)
    } else {
        None
    }
}

} // verus!
