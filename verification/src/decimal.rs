//! Decimal numerals: what `str::parse` accepts for integers and what `to_string`
//! prints for them.
use vstd::prelude::*;
use crate::text::push_char;

verus! {

/// An ASCII decimal digit.
pub open spec fn is_digit(c: char) -> bool {
    '0' <= c && c <= '9'
}

/// The value of an ASCII digit.
pub open spec fn digit_value(c: char) -> nat {
    (c as int - '0' as int) as nat
}

/// The digit with value `d` (`d < 10`).
pub open spec fn digit_char(d: nat) -> char {
    ('0' as int + d) as char
}

/// Whether every character is a digit.
pub open spec fn all_digits(s: Seq<char>) -> bool {
    forall|i: int| 0 <= i < s.len() ==> is_digit(#[trigger] s[i])
}

/// The value of a string of digits.
pub open spec fn digits_value(s: Seq<char>) -> nat
    decreases s.len(),
{
    if s.len() == 0 {
        0
    } else {
        digits_value(s.drop_last()) * 10 + digit_value(s.last())
    }
}

/// The digits after an optional leading `sign` character.
pub open spec fn strip_sign(s: Seq<char>, sign: char) -> Seq<char> {
    if s.len() > 0 && s[0] == sign {
        s.skip(1)
    } else {
        s
    }
}

/// The value of an unsigned numeral as `str::parse` reads it: an optional `+`, then at
/// least one digit (no bound on the value).
pub open spec fn unsigned_numeral(s: Seq<char>) -> Option<nat> {
    let d = strip_sign(s, '+');
    if d.len() > 0 && all_digits(d) {
        Some(digits_value(d))
    } else {
        None
    }
}

/// The value of a signed numeral as `str::parse` reads it: an optional `-` or `+`, then
/// at least one digit.
pub open spec fn signed_numeral(s: Seq<char>) -> Option<int> {
    if s.len() > 0 && s[0] == '-' {
        let d = s.skip(1);
        if d.len() > 0 && all_digits(d) {
            Some(-(digits_value(d) as int))
        } else {
            None
        }
    } else {
        match unsigned_numeral(s) {
            Some(v) => Some(v as int),
            None => None,
        }
    }
}

/// What `s.parse::<usize>()` gives: the value when `s` is a numeral within range.
pub open spec fn spec_parse_usize(s: Seq<char>) -> Option<usize> {
    match unsigned_numeral(s) {
        Some(v) => if v <= usize::MAX {
            Some(v as usize)
        } else {
            None
        },
        None => None,
    }
}

/// What `s.parse::<i32>()` gives: the value when `s` is a numeral within range.
pub open spec fn spec_parse_i32(s: Seq<char>) -> Option<i32> {
    match signed_numeral(s) {
        Some(v) => if i32::MIN <= v <= i32::MAX {
            Some(v as i32)
        } else {
            None
        },
        None => None,
    }
}

/// The decimal digits of `n`, without leading zeros (`0` for zero).
pub open spec fn decimal(n: nat) -> Seq<char>
    decreases n,
{
    if n < 10 {
        seq![digit_char(n)]
    } else {
        decimal(n / 10) + seq![digit_char(n % 10)]
    }
}

/// How `to_string` prints the integer `n`.
pub open spec fn signed_decimal(n: int) -> Seq<char> {
    if n < 0 {
        seq!['-'] + decimal((-n) as nat)
    } else {
        decimal(n as nat)
    }
}

/// Reads the digits of `v` (all digits) as a number, when it fits in `usize`.
fn digits_to_usize(v: &Vec<char>, from: usize) -> (r: Option<usize>)
    requires
        from <= v.len(),
        all_digits(v@.skip(from as int)),
    ensures
        r == (if digits_value(v@.skip(from as int)) <= usize::MAX {
            Some(digits_value(v@.skip(from as int)) as usize)
        } else {
            None
        }),
{
    let ghost d = v@.skip(from as int);
    let mut acc: usize = 0;
    let mut i = from;
    while i < v.len()
        invariant
            from <= i <= v.len(),
            d == v@.skip(from as int),
            all_digits(d),
            acc as nat == digits_value(d.take(i - from)),
        decreases v.len() - i,
    {
        proof {
            assert(d.take(i - from + 1).drop_last() =~= d.take(i - from));
            assert(d[i - from] == v@[i as int]);
        }
        let c = v[i];
        let dv = ((c as u32) - ('0' as u32)) as usize;
        let next = match acc.checked_mul(10) {
            Some(m) => m.checked_add(dv),
            None => None,
        };
        match next {
            Some(n) => {
                acc = n;
            },
            None => {
                proof {
                    lemma_digits_prefix_bound(d, i - from + 1);
                }
                return None;
            },
        }
        i = i + 1;
    }
    proof {
        assert(d.take(v.len() - from) =~= d);
    }
    Some(acc)
}

/// A longer prefix of digits is worth at least as much as a shorter one.
proof fn lemma_digits_prefix_bound(d: Seq<char>, k: int)
    requires
        0 <= k <= d.len(),
        all_digits(d),
    ensures
        digits_value(d) >= digits_value(d.take(k)),
    decreases d.len(),
{
    if k < d.len() {
        assert(d.drop_last() =~= d.take(d.len() - 1));
        assert(d.drop_last().take(k) =~= d.take(k));
        lemma_digits_prefix_bound(d.drop_last(), k);
        assert(all_digits(d.drop_last()));
    } else {
        assert(d.take(k) =~= d);
    }
}

/// `s.parse::<usize>()`.
pub fn parse_usize(s: &str) -> (r: Option<usize>)
    ensures
        r == spec_parse_usize(s@),
{
    let v = crate::text::chars_of(s);
    let from: usize = if v.len() > 0 && v[0] == '+' {
        1
    } else {
        0
    };
    proof {
        assert(strip_sign(s@, '+') =~= v@.skip(from as int));
    }
    if from >= v.len() {
        return None;
    }
    let mut i = from;
    while i < v.len()
        invariant
            from <= i <= v.len(),
            v@ == s@,
            strip_sign(s@, '+') == v@.skip(from as int),
            forall|j: int| from <= j < i ==> is_digit(#[trigger] v@[j]),
        decreases v.len() - i,
    {
        if !('0' <= v[i] && v[i] <= '9') {
            proof {
                assert(v@.skip(from as int)[i - from] == v@[i as int]);
                assert(!is_digit(v@.skip(from as int)[i - from]));
                assert(!all_digits(v@.skip(from as int)));
            }
            return None;
        }
        i = i + 1;
    }
    proof {
        assert forall|j: int| 0 <= j < v@.skip(from as int).len() implies is_digit(
            #[trigger] v@.skip(from as int)[j],
        ) by {
            assert(v@.skip(from as int)[j] == v@[j + from]);
        }
    }
    digits_to_usize(&v, from)
}

/// `s.parse::<i32>()`.
pub fn parse_i32(s: &str) -> (r: Option<i32>)
    ensures
        r == spec_parse_i32(s@),
{
    let v = crate::text::chars_of(s);
    let negative = v.len() > 0 && v[0] == '-';
    let from: usize = if v.len() > 0 && (v[0] == '-' || v[0] == '+') {
        1
    } else {
        0
    };
    proof {
        if negative {
            assert(s@.skip(1) =~= v@.skip(from as int));
        } else {
            assert(strip_sign(s@, '+') =~= v@.skip(from as int));
        }
    }
    if from >= v.len() {
        return None;
    }
    let mut i = from;
    while i < v.len()
        invariant
            from <= i <= v.len(),
            v@ == s@,
            negative == (v@.len() > 0 && v@[0] == '-'),
            negative ==> s@.skip(1) == v@.skip(from as int),
            !negative ==> strip_sign(s@, '+') == v@.skip(from as int),
            forall|j: int| from <= j < i ==> is_digit(#[trigger] v@[j]),
        decreases v.len() - i,
    {
        if !('0' <= v[i] && v[i] <= '9') {
            proof {
                assert(v@.skip(from as int)[i - from] == v@[i as int]);
                assert(!is_digit(v@.skip(from as int)[i - from]));
                assert(!all_digits(v@.skip(from as int)));
            }
            return None;
        }
        i = i + 1;
    }
    proof {
        assert forall|j: int| 0 <= j < v@.skip(from as int).len() implies is_digit(
            #[trigger] v@.skip(from as int)[j],
        ) by {
            assert(v@.skip(from as int)[j] == v@[j + from]);
        }
    }
    match digits_to_usize(&v, from) {
        None => None,
        Some(m) => {
            if negative {
                if m <= 2147483648 {
                    Some((0 - (m as i64)) as i32)
                } else {
                    None
                }
            } else {
                if m <= 2147483647 {
                    Some(m as i32)
                } else {
                    None
                }
            }
        },
    }
}

/// `n.to_string()` for an unsigned number.
pub fn format_u64(n: u64) -> (r: String)
    ensures
        r@ == decimal(n as nat),
    decreases n,
{
    if n < 10 {
        let mut r = String::new();
        push_char(&mut r, ((n as u8) + 48) as char);
        r
    } else {
        let mut r = format_u64(n / 10);
        push_char(&mut r, (((n % 10) as u8) + 48) as char);
        r
    }
}

/// `n.to_string()` for a signed number.
pub fn format_i64(n: i64) -> (r: String)
    ensures
        r@ == signed_decimal(n as int),
{
    if n < 0 {
        let mut r = String::new();
        push_char(&mut r, '-');
        let m: u64 = if n == i64::MIN {
            9223372036854775808u64
        } else {
            (-n) as u64
        };
        let digits = format_u64(m);
        r.append(digits.as_str());
        r
    } else {
        format_u64(n as u64)
    }
}

/// The decimal numeral of `n` is made of digits and has no leading sign.
proof fn lemma_decimal_digits(n: nat)
    ensures
        all_digits(decimal(n)),
        decimal(n).len() > 0,
        decimal(n)[0] != '+' && decimal(n)[0] != '-',
        digits_value(decimal(n)) == n,
    decreases n,
{
    assert(digit_char(n % 10) as int == '0' as int + n % 10);
    assert(digit_value(digit_char(n % 10)) == n % 10);
    if n < 10 {
        assert(decimal(n).drop_last() =~= Seq::<char>::empty());
        assert(digits_value(decimal(n)) == digits_value(Seq::<char>::empty()) * 10 + digit_value(
            decimal(n).last(),
        ));
    } else {
        lemma_decimal_digits(n / 10);
        let d = decimal(n);
        assert(d.drop_last() =~= decimal(n / 10));
        assert(d.last() == digit_char(n % 10));
        assert(digits_value(d) == digits_value(decimal(n / 10)) * 10 + n % 10);
        assert((n / 10) * 10 + n % 10 == n);
        assert forall|i: int| 0 <= i < d.len() implies is_digit(#[trigger] d[i]) by {
            if i < d.len() - 1 {
                assert(d[i] == decimal(n / 10)[i]);
            }
        }
    }
}

/// Reading back what `to_string` printed gives the number again (unsigned numbers).
pub proof fn lemma_parse_decimal_roundtrip(n: nat)
    ensures
        unsigned_numeral(decimal(n)) == Some(n),
{
    lemma_decimal_digits(n);
}

/// Reading back what `to_string` printed gives the number again (signed numbers).
pub proof fn lemma_parse_signed_roundtrip(n: int)
    ensures
        signed_numeral(signed_decimal(n)) == Some(n),
{
    if n < 0 {
        lemma_decimal_digits((-n) as nat);
        let s = signed_decimal(n);
        assert(s.skip(1) =~= decimal((-n) as nat));
    } else {
        lemma_decimal_digits(n as nat);
    }
}

} // verus!
