//! The pinyin spelling and initials under which members are found by name.
use vstd::prelude::*;
use pinyin::ToPinyin;
use crate::text::{
    ascii_lower, chars_of, is_ascii_alphanumeric, is_alphanumeric_char, is_white_space,
    is_whitespace_char, lower_ascii_char, opt_view, push_char,
};

verus! {

/// The plain (toneless) pinyin that the `pinyin` crate gives a character,
/// where it knows one.
pub uninterp spec fn pinyin_plain(c: char) -> Option<Seq<char>>;

/// What `str::to_lowercase` gives back for a text.
pub uninterp spec fn unicode_lowercase(s: Seq<char>) -> Seq<char>;

/// `char::to_pinyin` and `Pinyin::plain` from the `pinyin` crate. Trusted:
/// the result is the spelling named `pinyin_plain`, nothing where the crate
/// knows none.
#[verifier::external_body]
fn plain_pinyin_of(c: char) -> (r: Option<String>)
    ensures
        opt_view(r) == pinyin_plain(c),
{
    match c.to_pinyin() {
        Some(p) => Some(p.plain().to_string()),
        None => None,
    }
}

/// `str::to_lowercase`. Trusted: the result is the text named
/// `unicode_lowercase`.
#[verifier::external_body]
pub(crate) fn lowercase_text(s: &str) -> (r: String)
    ensures
        r@ == unicode_lowercase(s@),
{
    s.to_lowercase()
}

/// One character's share of the spelling and of the initials.
pub open spec fn pinyin_step(acc: (Seq<char>, Seq<char>), c: char) -> (Seq<char>, Seq<char>) {
    match pinyin_plain(c) {
        Some(p) => {
            let plain = unicode_lowercase(p);
            (acc.0 + plain, if plain.len() > 0 {
                acc.1.push(plain[0])
            } else {
                acc.1
            })
        },
        None => if is_ascii_alphanumeric(c) {
            (acc.0.push(ascii_lower(c)), acc.1.push(ascii_lower(c)))
        } else {
            acc
        },
    }
}

/// Spelling and initials built from every character of `s` in turn.
pub open spec fn pinyin_fold(s: Seq<char>) -> (Seq<char>, Seq<char>)
    decreases s.len(),
{
    if s.len() == 0 {
        (seq![], seq![])
    } else {
        pinyin_step(pinyin_fold(s.drop_last()), s.last())
    }
}

/// `s` without its whitespace characters.
pub open spec fn without_white_space(s: Seq<char>) -> Seq<char>
    decreases s.len(),
{
    if s.len() == 0 {
        seq![]
    } else if is_white_space(s.last()) {
        without_white_space(s.drop_last())
    } else {
        without_white_space(s.drop_last()).push(s.last())
    }
}

pub open spec fn first_n(s: Seq<char>, n: nat) -> Seq<char> {
    if s.len() <= n {
        s
    } else {
        s.take(n as int)
    }
}

/// The full spelling and the initials of a name. Where no character yields
/// any, the lowercased name stands for the spelling and its first eight
/// non-whitespace characters, lowercased, for the initials.
pub open spec fn name_pinyin(name: Seq<char>) -> (Seq<char>, Seq<char>) {
    let folded = pinyin_fold(name);
    if folded.0.len() == 0 {
        (
            unicode_lowercase(name),
            unicode_lowercase(first_n(without_white_space(name), 8)),
        )
    } else {
        folded
    }
}

/// Spells a name in pinyin, giving the full spelling and the initials.
pub fn generate_pinyin(name: &str) -> (r: (String, String))
    ensures
        (r.0@, r.1@) == name_pinyin(name@),
{
    let chars = chars_of(name);
    let mut full = String::new();
    let mut initials = String::new();
    let mut i: usize = 0;
    while i < chars.len()
        invariant
            i <= chars.len(),
            chars@ == name@,
            (full@, initials@) == pinyin_fold(name@.take(i as int)),
        decreases chars.len() - i,
    {
        let ch = chars[i];
        let ghost prior = name@.take(i as int);
        let ghost next = name@.take(i + 1);
        assert(next.drop_last() =~= prior);
        assert(next.last() == ch);
        match plain_pinyin_of(ch) {
            Some(p) => {
                let plain = lowercase_text(p.as_str());
                let plain_chars = chars_of(plain.as_str());
                if plain_chars.len() > 0 {
                    push_char(&mut initials, plain_chars[0]);
                }
                full.append(plain.as_str());
            },
            None => {
                if is_alphanumeric_char(ch) {
                    let lower = lower_ascii_char(ch);
                    push_char(&mut full, lower);
                    push_char(&mut initials, lower);
                }
            },
        }
        i = i + 1;
    }
    assert(name@.take(chars.len() as int) =~= name@);
    if full.as_str().is_empty() {
        let lowered = lowercase_text(name);
        let mut kept = String::new();
        let mut j: usize = 0;
        let mut count: usize = 0;
        while j < chars.len()
            invariant
                j <= chars.len(),
                chars@ == name@,
                count == kept@.len(),
                kept@ == first_n(without_white_space(name@.take(j as int)), 8),
            decreases chars.len() - j,
        {
            let ch = chars[j];
            let ghost prior = name@.take(j as int);
            let ghost next = name@.take(j + 1);
            assert(next.drop_last() =~= prior);
            assert(next.last() == ch);
            if !is_whitespace_char(ch) && count < 8 {
                push_char(&mut kept, ch);
                count = count + 1;
            }
            proof {
                let before = without_white_space(prior);
                if !is_white_space(ch) && before.len() >= 8 {
                    assert(first_n(before.push(ch), 8) =~= first_n(before, 8));
                }
                if !is_white_space(ch) && before.len() < 8 {
                    assert(first_n(before.push(ch), 8) =~= before.push(ch));
                }
            }
            j = j + 1;
        }
        assert(name@.take(chars.len() as int) =~= name@);
        let initials_lowered = lowercase_text(kept.as_str());
        (lowered, initials_lowered)
    } else {
        (full, initials)
    }
}

} // verus!
