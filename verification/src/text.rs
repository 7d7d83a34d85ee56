//! Character-level text helpers: Unicode whitespace trimming, ASCII classes,
//! and building strings out of characters.
use vstd::prelude::*;

verus! {

/// The Unicode `White_Space` property, which `char::is_whitespace` and
/// `str::trim` test.
pub open spec fn is_white_space(c: char) -> bool {
    let v: u32 = c as u32;
    ||| (0x9 <= v && v <= 0xd)
    ||| v == 0x20
    ||| v == 0x85
    ||| v == 0xa0
    ||| v == 0x1680
    ||| (0x2000 <= v && v <= 0x200a)
    ||| v == 0x2028
    ||| v == 0x2029
    ||| v == 0x202f
    ||| v == 0x205f
    ||| v == 0x3000
}

/// `s` with its leading whitespace removed.
pub open spec fn trim_start(s: Seq<char>) -> Seq<char>
    decreases s.len(),
{
    if s.len() > 0 && is_white_space(s[0]) {
        trim_start(s.drop_first())
    } else {
        s
    }
}

/// `s` with its trailing whitespace removed.
pub open spec fn trim_end(s: Seq<char>) -> Seq<char>
    decreases s.len(),
{
    if s.len() > 0 && is_white_space(s.last()) {
        trim_end(s.drop_last())
    } else {
        s
    }
}

/// What `str::trim` gives back: both ends stripped of whitespace.
pub open spec fn trimmed(s: Seq<char>) -> Seq<char> {
    trim_end(trim_start(s))
}

/// The text is empty once trimmed.
pub open spec fn is_blank_text(s: Seq<char>) -> bool {
    trimmed(s).len() == 0
}

pub open spec fn is_ascii_digit(c: char) -> bool {
    '0' <= c && c <= '9'
}

pub open spec fn is_ascii_upper(c: char) -> bool {
    'A' <= c && c <= 'Z'
}

pub open spec fn is_ascii_lower(c: char) -> bool {
    'a' <= c && c <= 'z'
}

pub open spec fn is_ascii_alphanumeric(c: char) -> bool {
    is_ascii_digit(c) || is_ascii_upper(c) || is_ascii_lower(c)
}

/// What `char::to_ascii_lowercase` gives back.
pub open spec fn ascii_lower(c: char) -> char {
    if is_ascii_upper(c) {
        ((c as u32 + 32) as u8) as char
    } else {
        c
    }
}

pub open spec fn all_ascii_digits(s: Seq<char>) -> bool {
    forall|i: int| 0 <= i < s.len() ==> is_ascii_digit(#[trigger] s[i])
}

/// Appends one character (`String::push`).
#[verifier::external_body]
pub(crate) fn push_char(s: &mut String, c: char)
    ensures
        final(s)@ == old(s)@.push(c),
{
    s.push(c);
}

pub fn is_whitespace_char(c: char) -> (b: bool)
    ensures
        b == is_white_space(c),
{
    let v: u32 = c as u32;
    (0x9 <= v && v <= 0xd) || v == 0x20 || v == 0x85 || v == 0xa0 || v == 0x1680 || (0x2000 <= v
        && v <= 0x200a) || v == 0x2028 || v == 0x2029 || v == 0x202f || v == 0x205f || v == 0x3000
}

pub fn is_digit_char(c: char) -> (b: bool)
    ensures
        b == is_ascii_digit(c),
{
    '0' <= c && c <= '9'
}

pub fn is_alphanumeric_char(c: char) -> (b: bool)
    ensures
        b == is_ascii_alphanumeric(c),
{
    ('0' <= c && c <= '9') || ('A' <= c && c <= 'Z') || ('a' <= c && c <= 'z')
}

pub fn lower_ascii_char(c: char) -> (r: char)
    ensures
        r == ascii_lower(c),
{
    if 'A' <= c && c <= 'Z' {
        ((c as u32 + 32) as u8) as char
    } else {
        c
    }
}

/// The characters of `s`, in order.
pub fn chars_of(s: &str) -> (v: Vec<char>)
    ensures
        v@ == s@,
{
    let mut v: Vec<char> = Vec::new();
    for c in it: s.chars()
        invariant
            v@ == it.seq().take(it.index() as int),
    {
        v.push(c);
    }
    v
}

/// A string holding `v[from..to]`.
pub fn string_from_chars(v: &Vec<char>, from: usize, to: usize) -> (r: String)
    requires
        from <= to <= v.len(),
    ensures
        r@ == v@.subrange(from as int, to as int),
{
    let mut r = String::new();
    let mut i: usize = from;
    while i < to
        invariant
            from <= i <= to <= v.len(),
            r@ == v@.subrange(from as int, i as int),
        decreases to - i,
    {
        push_char(&mut r, v[i]);
        i = i + 1;
        assert(r@ =~= v@.subrange(from as int, i as int));
    }
    r
}

pub proof fn lemma_trim_start_skip(s: Seq<char>, i: int)
    requires
        0 <= i <= s.len(),
        forall|k: int| 0 <= k < i ==> is_white_space(#[trigger] s[k]),
    ensures
        trim_start(s) == trim_start(s.skip(i)),
    decreases i,
{
    if i == 0 {
        assert(s.skip(0) =~= s);
    } else {
        let t = s.drop_first();
        assert forall|k: int| 0 <= k < i - 1 implies is_white_space(#[trigger] t[k]) by {
            assert(t[k] == s[k + 1]);
        }
        lemma_trim_start_skip(t, i - 1);
        assert(t.skip(i - 1) =~= s.skip(i));
    }
}

pub proof fn lemma_trim_end_take(s: Seq<char>, j: int)
    requires
        0 <= j <= s.len(),
        forall|k: int| j <= k < s.len() ==> is_white_space(#[trigger] s[k]),
    ensures
        trim_end(s) == trim_end(s.take(j)),
    decreases s.len() - j,
{
    if j == s.len() {
        assert(s.take(j) =~= s);
    } else {
        let t = s.drop_last();
        assert forall|k: int| j <= k < t.len() implies is_white_space(#[trigger] t[k]) by {
            assert(t[k] == s[k]);
        }
        lemma_trim_end_take(t, j);
        assert(t.take(j) =~= s.take(j));
    }
}

/// Where the trimmed text starts and ends inside `v`.
pub fn trim_bounds(v: &Vec<char>) -> (r: (usize, usize))
    ensures
        r.0 <= r.1 <= v.len(),
        v@.subrange(r.0 as int, r.1 as int) == trimmed(v@),
{
    let n: usize = v.len();
    let mut i: usize = 0;
    while i < n && is_whitespace_char(v[i])
        invariant
            i <= n == v.len(),
            forall|k: int| 0 <= k < i ==> is_white_space(#[trigger] v@[k]),
        decreases n - i,
    {
        i = i + 1;
    }
    proof {
        lemma_trim_start_skip(v@, i as int);
    }
    let ghost t = v@.skip(i as int);
    assert(trim_start(t) == t);
    let mut j: usize = n;
    while j > i && is_whitespace_char(v[j - 1])
        invariant
            i <= j <= n == v.len(),
            t == v@.skip(i as int),
            forall|k: int| (j - i) <= k < t.len() ==> is_white_space(#[trigger] t[k]),
        decreases j,
    {
        assert(t[j - 1 - i] == v@[j - 1]);
        j = j - 1;
    }
    proof {
        lemma_trim_end_take(t, (j - i) as int);
        assert(t.take((j - i) as int) =~= v@.subrange(i as int, j as int));
        let u = t.take((j - i) as int);
        if u.len() > 0 {
            assert(u.last() == v@[j - 1]);
        }
    }
    (i, j)
}

/// `str::trim`.
pub fn trim_text(s: &str) -> (r: String)
    ensures
        r@ == trimmed(s@),
{
    let v = chars_of(s);
    let (i, j) = trim_bounds(&v);
    string_from_chars(&v, i, j)
}

/// Whether the text is empty after trimming.
pub fn is_blank(s: &str) -> (b: bool)
    ensures
        b == is_blank_text(s@),
{
    let v = chars_of(s);
    let (i, j) = trim_bounds(&v);
    i == j
}

/// What `normalize_optional_text` gives back: the trimmed text, or nothing
/// where there was none or it was blank.
pub open spec fn normalized_text(value: Option<Seq<char>>) -> Option<Seq<char>> {
    match value {
        None => None,
        Some(t) => if trimmed(t).len() == 0 {
            None
        } else {
            Some(trimmed(t))
        },
    }
}

pub open spec fn opt_view(value: Option<String>) -> Option<Seq<char>> {
    match value {
        None => None,
        Some(t) => Some(t@),
    }
}

/// Trims an optional text and drops it when nothing is left.
pub fn normalize_optional_text(value: Option<String>) -> (r: Option<String>)
    ensures
        opt_view(r) == normalized_text(opt_view(value)),
{
    match value {
        None => None,
        Some(item) => {
            let trimmed_item = trim_text(item.as_str());
            if trimmed_item.as_str().is_empty() {
                None
            } else {
                Some(trimmed_item)
            }
        },
    }
}

/// `text1 + text2` as a new string.
pub fn concat_str(a: &str, b: &str) -> (r: String)
    ensures
        r@ == a@ + b@,
{
    let mut r = String::from_str(a);
    r.append(b);
    r
}

/// Every character replaced by `to` where it equals `from`.
pub open spec fn replace_char(s: Seq<char>, from: char, to: char) -> Seq<char> {
    s.map_values(|c: char| if c == from { to } else { c })
}

/// `str::replace` for one character by another.
pub fn replace_char_text(s: &str, from: char, to: char) -> (r: String)
    ensures
        r@ == replace_char(s@, from, to),
{
    let v = chars_of(s);
    let mut r = String::new();
    let mut i: usize = 0;
    while i < v.len()
        invariant
            i <= v.len(),
            v@ == s@,
            r@ == replace_char(s@.take(i as int), from, to),
        decreases v.len() - i,
    {
        let c = v[i];
        if c == from {
            push_char(&mut r, to);
        } else {
            push_char(&mut r, c);
        }
        i = i + 1;
        assert(r@ =~= replace_char(s@.take(i as int), from, to));
    }
    assert(s@.take(v.len() as int) =~= s@);
    r
}

/// Trimming twice is trimming once.
pub proof fn lemma_trimmed_idempotent(s: Seq<char>)
    ensures
        trimmed(trimmed(s)) == trimmed(s),
{
    lemma_trim_start_fixed(s);
    lemma_trim_end_keeps_start(trim_start(s));
    lemma_trim_end_fixed(trim_start(s));
}

proof fn lemma_trim_start_fixed(s: Seq<char>)
    ensures
        trim_start(trim_start(s)) == trim_start(s),
        trim_start(s).len() > 0 ==> !is_white_space(trim_start(s)[0]),
    decreases s.len(),
{
    if s.len() > 0 && is_white_space(s[0]) {
        lemma_trim_start_fixed(s.drop_first());
    }
}

proof fn lemma_trim_end_fixed(s: Seq<char>)
    ensures
        trim_end(trim_end(s)) == trim_end(s),
        trim_end(s).len() > 0 ==> !is_white_space(trim_end(s).last()),
    decreases s.len(),
{
    if s.len() > 0 && is_white_space(s.last()) {
        lemma_trim_end_fixed(s.drop_last());
    }
}

/// Trimming the end of a text that does not start with whitespace keeps it so.
proof fn lemma_trim_end_keeps_start(s: Seq<char>)
    requires
        s.len() > 0 ==> !is_white_space(s[0]),
    ensures
        trim_start(trim_end(s)) == trim_end(s),
        trim_end(s).len() > 0 ==> trim_end(s)[0] == s[0],
    decreases s.len(),
{
    if s.len() > 0 && is_white_space(s.last()) {
        let t = s.drop_last();
        if t.len() > 0 {
            assert(t[0] == s[0]);
        }
        lemma_trim_end_keeps_start(t);
    }
}

/// Normalizing an already normalized text changes nothing.
pub proof fn lemma_normalized_idempotent(value: Option<Seq<char>>)
    ensures
        normalized_text(normalized_text(value)) == normalized_text(value),
{
    if let Some(t) = value {
        lemma_trimmed_idempotent(t);
    }
}

} // verus!
