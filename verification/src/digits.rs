//! Reading and writing base-10 integers as text.

use vstd::prelude::*;

verus! {

/// The character standing for one decimal digit value.
pub open spec fn digit_char_of(d: int) -> char {
    if d == 0 {
        '0'
    } else if d == 1 {
        '1'
    } else if d == 2 {
        '2'
    } else if d == 3 {
        '3'
    } else if d == 4 {
        '4'
    } else if d == 5 {
        '5'
    } else if d == 6 {
        '6'
    } else if d == 7 {
        '7'
    } else if d == 8 {
        '8'
    } else {
        '9'
    }
}

/// The decimal digit sequence of a non-negative integer, most significant first.
pub open spec fn dec_seq(n: int) -> Seq<char>
    decreases n,
{
    if n < 10 {
        seq![digit_char_of(n)]
    } else {
        dec_seq(n / 10).push(digit_char_of(n % 10))
    }
}

fn digit_char(d: u64) -> (c: char)
    requires
        d < 10,
    ensures
        c == digit_char_of(d as int),
{
    if d == 0 {
        '0'
    } else if d == 1 {
        '1'
    } else if d == 2 {
        '2'
    } else if d == 3 {
        '3'
    } else if d == 4 {
        '4'
    } else if d == 5 {
        '5'
    } else if d == 6 {
        '6'
    } else if d == 7 {
        '7'
    } else if d == 8 {
        '8'
    } else {
        '9'
    }
}

/// Relies on String::push, which appends the given character to the end of the
/// string.
#[verifier::external_body]
pub(crate) fn push_char(s: &mut String, c: char)
    ensures
        final(s)@ == old(s)@.push(c),
{
    s.push(c);
}

/// A decimal digit.
pub open spec fn is_dec_digit(c: char) -> bool {
    48 <= c as int && c as int <= 57
}

/// The value of one decimal digit character.
pub open spec fn digit_val(c: char) -> int {
    c as int - 48
}

pub open spec fn all_dec_digits(s: Seq<char>) -> bool {
    forall|i: int| 0 <= i < s.len() ==> is_dec_digit(#[trigger] s[i])
}

/// The value of a sequence of decimal digits, most significant first.
pub open spec fn digits_val(s: Seq<char>) -> int
    decreases s.len(),
{
    if s.len() == 0 {
        0
    } else {
        digits_val(s.drop_last()) * 10 + digit_val(s.last())
    }
}

/// What parsing text as a base-10 signed integer yields: an optional single
/// sign followed by at least one digit, with no other characters admitted.
pub open spec fn parsed_int(s: Seq<char>) -> Option<int> {
    if s.len() == 0 {
        None
    } else {
        let signed = s[0] == '-' || s[0] == '+';
        let body = if signed {
            s.subrange(1, s.len() as int)
        } else {
            s
        };
        if body.len() > 0 && all_dec_digits(body) {
            if s[0] == '-' {
                Some(-digits_val(body))
            } else {
                Some(digits_val(body))
            }
        } else {
            None
        }
    }
}

/// Parsing as a 64-bit signed integer: the parsed value when it fits, nothing
/// otherwise.
pub open spec fn parsed_i64(s: Seq<char>) -> Option<int> {
    match parsed_int(s) {
        Some(v) => if i64::MIN as int <= v && v <= i64::MAX as int {
            Some(v)
        } else {
            None
        },
        None => None,
    }
}

proof fn lemma_digits_val_nonneg(s: Seq<char>)
    requires
        all_dec_digits(s),
    ensures
        digits_val(s) >= 0,
    decreases s.len(),
{
    if s.len() > 0 {
        assert(all_dec_digits(s.drop_last()));
        lemma_digits_val_nonneg(s.drop_last());
    }
}

/// Parses text as a base-10 signed 64-bit integer: an optional sign followed
/// by one or more digits, rejecting anything else and anything out of range.
pub fn parse_i64(s: &str) -> (r: Option<i64>)
    ensures
        match r {
            Some(v) => parsed_i64(s@) == Some(v as int),
            None => parsed_i64(s@) is None,
        },
{
    let len = s.unicode_len();
    if len == 0 {
        return None;
    }
    let first = s.get_char(0);
    let neg = first == '-';
    let start: usize = if first == '-' || first == '+' {
        1
    } else {
        0
    };
    if start == len {
        return None;
    }
    let ghost body: Seq<char> = if start == 1 {
        s@.subrange(1, s@.len() as int)
    } else {
        s@
    };
    let mut acc: u64 = 0;
    let mut big = false;
    let mut i: usize = start;
    while i < len
        invariant
            start <= i <= len,
            len == s@.len(),
            start == 0 || start == 1,
            start == 1 ==> (s@[0] == '-' || s@[0] == '+'),
            start == 0 ==> !(s@[0] == '-' || s@[0] == '+'),
            neg == (s@[0] == '-'),
            body == (if start == 1 {
                s@.subrange(1, s@.len() as int)
            } else {
                s@
            }),
            forall|j: int| start <= j < i ==> is_dec_digit(#[trigger] s@[j]),
            !big ==> acc as int == digits_val(s@.subrange(start as int, i as int)),
            big ==> digits_val(s@.subrange(start as int, i as int)) > u64::MAX as int,
        decreases len - i,
    {
        let c = s.get_char(i);
        let code = c as u32;
        if code < 48 || code > 57 {
            proof {
                assert(body[i - start as int] == s@[i as int]);
                assert(!all_dec_digits(body));
            }
            return None;
        }
        let d: u64 = (code - 48) as u64;
        proof {
            let p = s@.subrange(start as int, i as int);
            let p1 = s@.subrange(start as int, i + 1 as int);
            assert(p1.drop_last() =~= p);
            assert(p1.last() == s@[i as int]);
            assert(digits_val(p1) == digits_val(p) * 10 + digit_val(s@[i as int]));
        }
        let wide: u128 = (acc as u128) * 10 + (d as u128);
        if big {
            proof {
                let p = s@.subrange(start as int, i as int);
                let p1 = s@.subrange(start as int, i + 1 as int);
                assert(digits_val(p) * 10 >= digits_val(p) + digits_val(p));
                assert(digits_val(p1) > u64::MAX as int);
            }
        } else if wide > u64::MAX as u128 {
            big = true;
        } else {
            acc = wide as u64;
        }
        i += 1;
    }
    proof {
        assert(body =~= s@.subrange(start as int, len as int));
        assert(body.len() > 0);
        assert(all_dec_digits(body));
        lemma_digits_val_nonneg(body);
    }
    if big {
        return None;
    }
    if neg {
        if acc > 9223372036854775808u64 {
            None
        } else if acc == 9223372036854775808u64 {
            Some(i64::MIN)
        } else {
            Some(-(acc as i64))
        }
    } else {
        if acc > 9223372036854775807u64 {
            None
        } else {
            Some(acc as i64)
        }
    }
}

/// Writes a number in decimal, most significant digit first.
pub fn u64_to_string(n: u64) -> (r: String)
    ensures
        r@ == dec_seq(n as int),
    decreases n,
{
    let d = digit_char(n % 10);
    if n < 10 {
        let mut s = String::new();
        push_char(&mut s, d);
        proof {
            assert(s@ =~= dec_seq(n as int));
        }
        s
    } else {
        let mut s = u64_to_string(n / 10);
        push_char(&mut s, d);
        s
    }
}

} // verus!
