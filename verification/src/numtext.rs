//! Decimal text of integers, both ways: what `to_string` writes and what
//! `str::parse::<i64>` reads.
use vstd::prelude::*;
use crate::text::{all_ascii_digits, chars_of, is_ascii_digit, is_digit_char, push_char};

verus! {

pub open spec fn digit_char(d: nat) -> char
    recommends
        d < 10,
{
    ((d + 48) as u8) as char
}

pub open spec fn digit_value(c: char) -> int {
    c as int - 48
}

/// The decimal digits of `n`, without leading zeros ("0" for zero).
pub open spec fn nat_text(n: nat) -> Seq<char>
    decreases n,
{
    if n < 10 {
        seq![digit_char(n)]
    } else {
        nat_text(n / 10).push(digit_char(n % 10))
    }
}

/// What `to_string` writes for an integer.
pub open spec fn int_text(i: int) -> Seq<char> {
    if i < 0 {
        seq!['-'] + nat_text((-i) as nat)
    } else {
        nat_text(i as nat)
    }
}

/// The number that a run of decimal digits spells.
pub open spec fn digits_value(s: Seq<char>) -> int
    decreases s.len(),
{
    if s.len() == 0 {
        0
    } else {
        digits_value(s.drop_last()) * 10 + digit_value(s.last())
    }
}

pub open spec fn in_i64(v: int) -> bool {
    i64::MIN <= v <= i64::MAX
}

/// What `str::parse::<i64>` accepts: an optional `+` or `-`, then one or more
/// ASCII digits, whose value fits in an `i64`.
pub open spec fn parse_i64_spec(s: Seq<char>) -> Option<int> {
    let negative = s.len() > 0 && s[0] == '-';
    let body = if s.len() > 0 && (s[0] == '-' || s[0] == '+') {
        s.drop_first()
    } else {
        s
    };
    if body.len() == 0 || !all_ascii_digits(body) {
        None
    } else {
        let v = if negative {
            -digits_value(body)
        } else {
            digits_value(body)
        };
        if in_i64(v) {
            Some(v)
        } else {
            None
        }
    }
}

/// `{:02}` of a non-negative number: at least two digits, zero-padded.
pub open spec fn pad2_text(n: nat) -> Seq<char> {
    if n < 10 {
        seq!['0'] + nat_text(n)
    } else {
        nat_text(n)
    }
}

/// `{:02}` writes the number itself in decimal digits, two of them below 100.
pub proof fn lemma_pad2_text_value(n: nat)
    ensures
        all_ascii_digits(pad2_text(n)),
        digits_value(pad2_text(n)) == n,
        pad2_text(n).len() >= 2,
        n < 100 ==> pad2_text(n).len() == 2,
{
    lemma_nat_text_digits(n);
    if n < 10 {
        let t = pad2_text(n);
        assert(t.drop_last() =~= seq!['0']);
        assert(seq!['0'].drop_last() =~= Seq::<char>::empty());
        assert(digits_value(Seq::<char>::empty()) == 0);
        assert(seq!['0'].last() == '0');
        assert(digit_value('0') == 0);
        assert(digits_value(seq!['0']) == digits_value(seq!['0'].drop_last()) * 10 + digit_value(
            seq!['0'].last(),
        ));
        assert(digits_value(seq!['0']) == 0);
        assert(t.last() == nat_text(n)[0]);
        assert(nat_text(n) =~= seq![nat_text(n)[0]]);
        assert(digits_value(nat_text(n)) == digit_value(nat_text(n)[0])) by {
            assert(nat_text(n).drop_last() =~= Seq::<char>::empty());
        }
        assert forall|i: int| 0 <= i < t.len() implies is_ascii_digit(#[trigger] t[i]) by {
            if i == 1 {
                assert(t[1] == nat_text(n)[0]);
            }
        }
    } else {
        if n < 100 {
            lemma_nat_text_digits(n / 10);
            assert(nat_text(n / 10).len() == 1);
        }
    }
}

pub proof fn lemma_digits_value_nonneg(s: Seq<char>)
    requires
        all_ascii_digits(s),
    ensures
        digits_value(s) >= 0,
    decreases s.len(),
{
    if s.len() > 0 {
        lemma_digits_value_nonneg(s.drop_last());
    }
}

pub proof fn lemma_digit_char_value(d: nat)
    requires
        d < 10,
    ensures
        digit_value(digit_char(d)) == d,
        is_ascii_digit(digit_char(d)),
{
    let b: u8 = (d + 48) as u8;
    assert(b as int == d + 48);
    assert((b as char) as int == b as int);
}

pub proof fn lemma_nat_text_digits(n: nat)
    ensures
        nat_text(n).len() > 0,
        all_ascii_digits(nat_text(n)),
        digits_value(nat_text(n)) == n,
        n < 10 <==> nat_text(n).len() == 1,
    decreases n,
{
    if n < 10 {
        lemma_digit_char_value(n);
        let t = nat_text(n);
        assert(t.drop_last() =~= Seq::<char>::empty());
        assert(digits_value(t.drop_last()) == 0);
        assert(t.last() == digit_char(n));
        assert(digits_value(t) == n);
        assert(is_ascii_digit(t[0]));
    } else {
        vstd::arithmetic::div_mod::lemma_fundamental_div_mod(n as int, 10);
        lemma_nat_text_digits(n / 10);
        let t = nat_text(n);
        assert(t.drop_last() =~= nat_text(n / 10));
        lemma_digit_char_value((n % 10) as nat);
        assert(t.last() == digit_char((n % 10) as nat));
        let q = n / 10;
        let r = n % 10;
        assert(digits_value(t) == digits_value(nat_text(q)) * 10 + r);
        assert(q * 10 == 10 * q) by (nonlinear_arith);
        assert(digits_value(t) == n);
        assert forall|i: int| 0 <= i < t.len() implies is_ascii_digit(#[trigger] t[i]) by {
            if i < t.len() - 1 {
                assert(t[i] == nat_text(n / 10)[i]);
            }
        }
    }
}

/// Reading back what `to_string` wrote gives the same number.
pub proof fn lemma_parse_int_text(v: int)
    requires
        in_i64(v),
    ensures
        parse_i64_spec(int_text(v)) == Some(v),
{
    if v < 0 {
        let n = (-v) as nat;
        lemma_nat_text_digits(n);
        let s = int_text(v);
        assert(s.drop_first() =~= nat_text(n));
    } else {
        lemma_nat_text_digits(v as nat);
        let t = nat_text(v as nat);
        assert(is_ascii_digit(t[0]));
    }
}

/// Decimal text of a non-negative number.
pub fn u64_text(v: u64) -> (r: String)
    ensures
        r@ == nat_text(v as nat),
    decreases v,
{
    if v < 10 {
        let mut r = String::new();
        let c: char = ((v + 48) as u8) as char;
        push_char(&mut r, c);
        assert(r@ =~= nat_text(v as nat));
        r
    } else {
        let mut r = u64_text(v / 10);
        let c: char = ((v % 10 + 48) as u8) as char;
        push_char(&mut r, c);
        r
    }
}

/// `i64::to_string`.
pub fn i64_text(v: i64) -> (r: String)
    ensures
        r@ == int_text(v as int),
{
    if v < 0 {
        let magnitude: u64 = if v == i64::MIN {
            9223372036854775808u64
        } else {
            (-v) as u64
        };
        let digits = u64_text(magnitude);
        let mut r = String::from_str("-");
        r.append(digits.as_str());
        proof {
            reveal_strlit("-");
            assert(r@ =~= int_text(v as int));
        }
        r
    } else {
        u64_text(v as u64)
    }
}

/// `usize::to_string`.
pub fn usize_text(v: usize) -> (r: String)
    ensures
        r@ == nat_text(v as nat),
{
    u64_text(v as u64)
}

/// `{:02}` of a non-negative number.
pub fn pad2(v: u64) -> (r: String)
    ensures
        r@ == pad2_text(v as nat),
{
    let digits = u64_text(v);
    if v < 10 {
        let mut r = String::from_str("0");
        r.append(digits.as_str());
        proof {
            reveal_strlit("0");
        }
        r
    } else {
        digits
    }
}

/// Accumulates the value of a run of digits, giving up once it passes `limit`.
fn digits_value_bounded(v: &Vec<char>, from: usize, limit: u64) -> (r: Option<u64>)
    requires
        from <= v.len(),
        all_ascii_digits(v@.skip(from as int)),
    ensures
        match r {
            Some(x) => x == digits_value(v@.skip(from as int)) && x <= limit,
            None => digits_value(v@.skip(from as int)) > limit,
        },
{
    let mut acc: u128 = 0;
    let mut i: usize = from;
    while i < v.len()
        invariant
            from <= i <= v.len(),
            all_ascii_digits(v@.skip(from as int)),
            acc == digits_value(v@.subrange(from as int, i as int)),
            acc <= limit,
        decreases v.len() - i,
    {
        assert(v@[i as int] == v@.skip(from as int)[i - from]);
        let d: u128 = (v[i] as u32 - 48) as u128;
        let next: u128 = acc * 10 + d;
        assert(v@.subrange(from as int, i + 1).drop_last() =~= v@.subrange(from as int, i as int));
        if next > limit as u128 {
            proof {
                let rest = v@.skip(from as int);
                lemma_digits_prefix_bound(rest, (i + 1 - from) as int);
                assert(rest.take((i + 1 - from) as int) =~= v@.subrange(from as int, i + 1));
            }
            return None;
        }
        acc = next;
        i = i + 1;
    }
    assert(v@.subrange(from as int, v.len() as int) =~= v@.skip(from as int));
    Some(acc as u64)
}

/// A prefix of a run of digits spells no more than the whole run.
proof fn lemma_digits_prefix_bound(s: Seq<char>, k: int)
    requires
        0 <= k <= s.len(),
        all_ascii_digits(s),
    ensures
        digits_value(s.take(k)) <= digits_value(s),
    decreases s.len() - k,
{
    if k < s.len() {
        lemma_digits_prefix_bound(s, k + 1);
        let t = s.take(k + 1);
        assert(t.drop_last() =~= s.take(k));
        assert(is_ascii_digit(s[k]));
        lemma_digits_value_nonneg(s.take(k));
        assert(t.last() == s[k]);
    } else {
        assert(s.take(k) =~= s);
    }
}

/// `str::parse::<i64>`.
pub fn parse_i64(s: &str) -> (r: Option<i64>)
    ensures
        match r {
            Some(x) => parse_i64_spec(s@) == Some(x as int),
            None => parse_i64_spec(s@) is None,
        },
{
    let v = chars_of(s);
    let n: usize = v.len();
    let negative = n > 0 && v[0] == '-';
    let from: usize = if n > 0 && (v[0] == '-' || v[0] == '+') {
        1
    } else {
        0
    };
    let ghost body = if s@.len() > 0 && (s@[0] == '-' || s@[0] == '+') {
        s@.drop_first()
    } else {
        s@
    };
    assert(body =~= v@.skip(from as int));
    if from == n {
        return None;
    }
    let mut i: usize = from;
    while i < n
        invariant
            from <= i <= n == v.len(),
            forall|k: int| from <= k < i ==> is_ascii_digit(#[trigger] v@[k]),
            body == v@.skip(from as int),
            v@ == s@,
            body == (if s@.len() > 0 && (s@[0] == '-' || s@[0] == '+') {
                s@.drop_first()
            } else {
                s@
            }),
        decreases n - i,
    {
        if !is_digit_char(v[i]) {
            assert(body[(i - from) as int] == v@[i as int]);
            return None;
        }
        i = i + 1;
    }
    assert forall|k: int| 0 <= k < body.len() implies is_ascii_digit(#[trigger] body[k]) by {
        assert(body[k] == v@[k + from]);
    }
    let limit: u64 = if negative {
        9223372036854775808u64
    } else {
        9223372036854775807u64
    };
    match digits_value_bounded(&v, from, limit) {
        None => None,
        Some(x) => {
            if negative {
                if x == 9223372036854775808u64 {
                    Some(i64::MIN)
                } else {
                    Some(-(x as i64))
                }
            } else {
                Some(x as i64)
            }
        },
    }
}

} // verus!
