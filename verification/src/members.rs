//! Checking what the member form sends before a member is written.
use vstd::prelude::*;
use crate::errors::CommandError;
use crate::models::MemberFormPayload;
use crate::name_pinyin::{generate_pinyin, name_pinyin};
use crate::numtext::{
    digits_value, int_text, lemma_nat_text_digits, lemma_pad2_text_value, lemma_parse_int_text,
    nat_text, pad2, pad2_text, parse_i64, parse_i64_spec,
};
use crate::text::{
    all_ascii_digits, chars_of, is_blank_text, is_digit_char, normalize_optional_text,
    normalized_text, opt_view, trim_end, trim_start, trim_text, trimmed,
};

verus! {

/// What becomes of one part of a birthday (month or day).
pub enum BirthPartOutcome {
    /// Nothing was given (or only whitespace).
    Empty,
    /// The part, as two digits at least.
    Value(Seq<char>),
    /// The text holds something other than ASCII digits.
    NotDigits,
    /// The digits do not fit in a number.
    Malformed,
    /// The number lies outside the allowed range.
    OutOfRange,
}

pub open spec fn birth_part_result(value: Option<Seq<char>>, min: i64, max: i64) -> BirthPartOutcome {
    match normalized_text(value) {
        None => BirthPartOutcome::Empty,
        Some(t) => if !all_ascii_digits(t) {
            BirthPartOutcome::NotDigits
        } else {
            match parse_i64_spec(t) {
                None => BirthPartOutcome::Malformed,
                Some(p) => if p < min || p > max {
                    BirthPartOutcome::OutOfRange
                } else {
                    BirthPartOutcome::Value(pad2_text(p as nat))
                },
            }
        },
    }
}

/// A run of decimal digits has no whitespace at either end, so trimming keeps
/// it whole.
proof fn lemma_digits_trim_to_themselves(t: Seq<char>)
    requires
        t.len() > 0,
        all_ascii_digits(t),
    ensures
        trimmed(t) == t,
        !is_blank_text(t),
{
    assert(crate::text::is_ascii_digit(t[0]));
    assert(crate::text::is_ascii_digit(t.last()));
    assert(trim_start(t) == t);
    assert(trim_end(t) == t);
}

/// Every number from `min` to `max` (both bounds included) written in decimal
/// is accepted and stored as its two-digit (at least) form, whose digits spell
/// the number; a number outside the bounds is refused as out of range, and a
/// blank or missing part is no value.
pub proof fn lemma_birth_part_bounds(n: nat, min: i64, max: i64)
    ensures
        min <= n <= max ==> birth_part_result(Some(nat_text(n)), min, max)
            == BirthPartOutcome::Value(pad2_text(n)),
        min <= n <= max ==> digits_value(pad2_text(n)) == n && all_ascii_digits(pad2_text(n)),
        min <= n <= max && n < 100 ==> pad2_text(n).len() == 2,
        n <= i64::MAX && (n < min || n > max) ==> birth_part_result(Some(nat_text(n)), min, max)
            == BirthPartOutcome::OutOfRange,
        birth_part_result(None, min, max) == BirthPartOutcome::Empty,
{
    lemma_nat_text_digits(n);
    lemma_pad2_text_value(n);
    lemma_digits_trim_to_themselves(nat_text(n));
    if n <= i64::MAX {
        lemma_parse_int_text(n as int);
        assert(int_text(n as int) == nat_text(n));
    }
}

/// The value a birthday part is stored as, where it is accepted.
pub open spec fn birth_value(o: BirthPartOutcome) -> Option<Option<Seq<char>>> {
    match o {
        BirthPartOutcome::Empty => Some(None),
        BirthPartOutcome::Value(s) => Some(Some(s)),
        _ => None,
    }
}

/// `e` is the error that a refused birthday part named `label` is reported with.
pub open spec fn birth_error_matches(
    e: CommandError,
    label: Seq<char>,
    o: BirthPartOutcome,
    min: i64,
    max: i64,
) -> bool {
    match o {
        BirthPartOutcome::NotDigits => e matches CommandError::BirthPartNotDigits { label: l }
            && l@ == label,
        BirthPartOutcome::Malformed => e matches CommandError::BirthPartMalformed { label: l }
            && l@ == label,
        BirthPartOutcome::OutOfRange => e matches CommandError::BirthPartOutOfRange {
            label: l,
            min: a,
            max: b,
        } && l@ == label && a == min && b == max,
        _ => false,
    }
}

/// Checks one part of a birthday: blank is no value; otherwise it must be
/// ASCII digits spelling a number from `min` to `max`, which is kept as two
/// digits at least.
pub fn validate_member_birth_part(label: &str, value: Option<String>, min: i64, max: i64) -> (r:
    Result<Option<String>, CommandError>)
    ensures
        ({
            let o = birth_part_result(opt_view(value), min, max);
            match birth_value(o) {
                Some(v) => r matches Ok(x) && opt_view(x) == v,
                None => r matches Err(e) && birth_error_matches(e, label@, o, min, max),
            }
        }),
{
    let ghost given = opt_view(value);
    let text = match normalize_optional_text(value) {
        None => {
            return Ok(None);
        },
        Some(t) => t,
    };
    let chars = chars_of(text.as_str());
    let mut i: usize = 0;
    while i < chars.len()
        invariant
            i <= chars.len(),
            chars@ == text@,
            given == opt_view(value),
            normalized_text(given) == Some(text@),
            forall|k: int| 0 <= k < i ==> crate::text::is_ascii_digit(#[trigger] chars@[k]),
        decreases chars.len() - i,
    {
        if !is_digit_char(chars[i]) {
            return Err(CommandError::BirthPartNotDigits { label: String::from_str(label) });
        }
        i = i + 1;
    }
    let parsed = match parse_i64(text.as_str()) {
        None => {
            return Err(CommandError::BirthPartMalformed { label: String::from_str(label) });
        },
        Some(p) => p,
    };
    if parsed < min || parsed > max {
        return Err(
            CommandError::BirthPartOutOfRange { label: String::from_str(label), min, max },
        );
    }
    proof {
        assert(chars@.len() > 0);
        assert(!(chars@[0] == '-' || chars@[0] == '+'));
        crate::numtext::lemma_digits_value_nonneg(text@);
    }
    Ok(Some(pad2(parsed as u64)))
}

/// The member fields that the form yields once checked.
#[derive(Debug, Clone, PartialEq)]
pub struct MemberFields {
    pub name: String,
    pub gender: Option<String>,
    pub birth_month: Option<String>,
    pub birth_day: Option<String>,
    pub mobile: Option<String>,
    pub remark: Option<String>,
    pub name_pinyin: String,
    pub name_initials: String,
}

/// Checks the member form: the name must not be blank and the birthday parts
/// must be valid (month 1 to 12, day 1 to 31); the texts are trimmed, blank
/// optional texts dropped, and the name spelled in pinyin.
pub fn prepare_member_form(payload: &MemberFormPayload) -> (r: Result<MemberFields, CommandError>)
    ensures
        ({
            let om = birth_part_result(opt_view(payload.birth_month), 1, 12);
            let od = birth_part_result(opt_view(payload.birth_day), 1, 31);
            if is_blank_text(payload.name@) {
                r == Err::<MemberFields, CommandError>(CommandError::MemberNameRequired)
            } else if birth_value(om) is None {
                r matches Err(e) && birth_error_matches(e, "生日月"@, om, 1, 12)
            } else if birth_value(od) is None {
                r matches Err(e) && birth_error_matches(e, "生日日"@, od, 1, 31)
            } else {
                r matches Ok(f) && f.name@ == trimmed(payload.name@) && opt_view(f.birth_month)
                    == birth_value(om)->0 && opt_view(f.birth_day) == birth_value(od)->0 && (
                f.name_pinyin@, f.name_initials@) == name_pinyin(trimmed(payload.name@))
                    && opt_view(f.gender) == normalized_text(opt_view(payload.gender))
                    && opt_view(f.mobile) == normalized_text(opt_view(payload.mobile))
                    && opt_view(f.remark) == normalized_text(opt_view(payload.remark))
            }
        }),
{
    let name = trim_text(payload.name.as_str());
    if name.as_str().is_empty() {
        return Err(CommandError::MemberNameRequired);
    }
    let birth_month = validate_member_birth_part(
        "生日月",
        copy_text(&payload.birth_month),
        1,
        12,
    )?;
    let birth_day = validate_member_birth_part("生日日", copy_text(&payload.birth_day), 1, 31)?;
    let (name_pinyin, name_initials) = generate_pinyin(name.as_str());
    Ok(
        MemberFields {
            name,
            gender: normalize_optional_text(copy_text(&payload.gender)),
            birth_month,
            birth_day,
            mobile: normalize_optional_text(copy_text(&payload.mobile)),
            remark: normalize_optional_text(copy_text(&payload.remark)),
            name_pinyin,
            name_initials,
        },
    )
}

pub fn copy_text(v: &Option<String>) -> (r: Option<String>)
    ensures
        opt_view(r) == opt_view(*v),
{
    match v {
        Some(s) => Some(s.clone()),
        None => None,
    }
}

/// The number a new member gets: the requested one where it is positive, the
/// next free one otherwise.
pub fn choose_member_no(requested: Option<i64>, next_free: i64) -> (r: i64)
    ensures
        r == match requested {
            Some(no) => if no > 0 {
                no
            } else {
                next_free
            },
            None => next_free,
        },
{
    match requested {
        Some(no) if no > 0 => no,
        _ => next_free,
    }
}

/// A new member's number must not be held by a member already: refused where
/// `holders` (how many members hold it) is positive.
pub fn check_member_no_unused(holders: i64) -> (r: Result<(), CommandError>)
    ensures
        holders > 0 ==> r == Err::<(), CommandError>(CommandError::MemberNoExists),
        holders <= 0 ==> r is Ok,
{
    if holders > 0 {
        Err(CommandError::MemberNoExists)
    } else {
        Ok(())
    }
}

/// An edited member's number must not be held by another member: refused
/// where `other_holders` (how many other members hold it) is positive.
pub fn check_member_no_not_taken(other_holders: i64) -> (r: Result<(), CommandError>)
    ensures
        other_holders > 0 ==> r == Err::<(), CommandError>(CommandError::MemberNoTaken),
        other_holders <= 0 ==> r is Ok,
{
    if other_holders > 0 {
        Err(CommandError::MemberNoTaken)
    } else {
        Ok(())
    }
}

} // verus!
