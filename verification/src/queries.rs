//! The parameters of searches and reports, and the statement that writes a
//! backup.
use vstd::prelude::*;
use crate::clock::{current_month, is_month_text};
use crate::models::OperationLogFilter;
use crate::name_pinyin::{lowercase_text, unicode_lowercase};
use crate::numtext::in_i64;
use crate::text::{
    chars_of, concat_str, is_blank, is_blank_text, normalize_optional_text, normalized_text,
    opt_view, push_char, trim_text, trimmed,
};

verus! {

pub open spec fn clamp(v: i64, lo: i64, hi: i64) -> i64 {
    if v < lo {
        lo
    } else if v > hi {
        hi
    } else {
        v
    }
}

/// What a member search asks the database for.
#[derive(Debug, Clone, PartialEq)]
pub struct MemberSearchPlan {
    /// The trimmed keyword; an empty one matches every member.
    pub keyword: String,
    /// The pattern for number, mobile, name and spelling: the keyword anywhere.
    pub like: String,
    /// The pattern for the initials: the lowercased keyword at the start.
    pub initials_like: String,
    pub page_no: i64,
    pub page_size: i64,
    pub offset: i64,
}

/// The page of a search: page numbers start at 1 and pages hold 1 to 100
/// members.
pub open spec fn search_page(page_no: i64, page_size: i64) -> (i64, i64) {
    (if page_no < 1 {
        1
    } else {
        page_no
    }, clamp(page_size, 1, 100))
}

/// A search page starts at 1 and holds 1 to 100 members; a page number or
/// size within those bounds is kept as asked.
pub proof fn lemma_search_page_bounds(page_no: i64, page_size: i64)
    ensures
        search_page(page_no, page_size).0 >= 1,
        1 <= search_page(page_no, page_size).1 <= 100,
        page_no >= 1 ==> search_page(page_no, page_size).0 == page_no,
        1 <= page_size <= 100 ==> search_page(page_no, page_size).1 == page_size,
        page_size > 100 ==> search_page(page_no, page_size).1 == 100,
        page_size < 1 ==> search_page(page_no, page_size).1 == 1,
{
}

/// Plans a member search for a keyword and a page.
pub fn plan_member_search(keyword: &str, page_no: i64, page_size: i64) -> (r: MemberSearchPlan)
    requires
        in_i64((search_page(page_no, page_size).0 - 1) * search_page(page_no, page_size).1),
    ensures
        (r.page_no, r.page_size) == search_page(page_no, page_size),
        r.offset == (r.page_no - 1) * r.page_size,
        r.keyword@ == trimmed(keyword@),
        r.like@ == "%"@ + trimmed(keyword@) + "%"@,
        r.initials_like@ == unicode_lowercase(trimmed(keyword@)) + "%"@,
{
    let page_no: i64 = if page_no < 1 {
        1
    } else {
        page_no
    };
    let page_size: i64 = if page_size < 1 {
        1
    } else if page_size > 100 {
        100
    } else {
        page_size
    };
    let offset: i64 = (page_no - 1) * page_size;
    let keyword = trim_text(keyword);
    let a = concat_str("%", keyword.as_str());
    let like = concat_str(a.as_str(), "%");
    let lowered = lowercase_text(keyword.as_str());
    let initials_like = concat_str(lowered.as_str(), "%");
    MemberSearchPlan { keyword, like, initials_like, page_no, page_size, offset }
}

/// What a query of the operation log asks the database for.
#[derive(Debug, Clone, PartialEq)]
pub struct LogQueryPlan {
    /// The module to keep; empty for every module.
    pub module_name: String,
    /// The trimmed keyword; empty for every entry.
    pub keyword: String,
    pub keyword_like: String,
    pub limit: i64,
}

/// Plans a query of the operation log: no keyword and no module where none is
/// given, and 80 entries (at least 1, at most 500) unless told otherwise.
pub fn plan_log_query(filter: &OperationLogFilter) -> (r: LogQueryPlan)
    ensures
        r.keyword@ == trimmed(
            match opt_view(filter.keyword) {
                Some(k) => k,
                None => seq![],
            },
        ),
        r.keyword_like@ == "%"@ + r.keyword@ + "%"@,
        r.module_name@ == match opt_view(filter.module_name) {
            Some(m) => m,
            None => seq![],
        },
        r.limit == clamp(
            match filter.limit {
                Some(l) => l,
                None => 80,
            },
            1,
            500,
        ),
{
    let keyword = match &filter.keyword {
        Some(k) => trim_text(k.as_str()),
        None => trim_text(""),
    };
    let a = concat_str("%", keyword.as_str());
    let keyword_like = concat_str(a.as_str(), "%");
    let module_name = match &filter.module_name {
        Some(m) => m.clone(),
        None => String::new(),
    };
    let limit: i64 = match filter.limit {
        Some(l) => l,
        None => 80,
    };
    let limit: i64 = if limit < 1 {
        1
    } else if limit > 500 {
        500
    } else {
        limit
    };
    proof {
        reveal_strlit("");
        assert(trimmed(""@) =~= seq![]);
    }
    LogQueryPlan { module_name, keyword, keyword_like, limit }
}

/// The month a report covers: the given one, or the current month where none
/// is given.
pub fn report_month(month: String) -> (r: String)
    ensures
        !is_blank_text(month@) ==> r@ == month@,
        is_blank_text(month@) ==> is_month_text(r@),
{
    if is_blank(month.as_str()) {
        current_month()
    } else {
        month
    }
}

/// The directory a backup goes to, before it is resolved against the root
/// directory: the one asked for where it is not blank (trimmed), the
/// configured backup directory otherwise.
pub fn backup_dir_choice(target_path: Option<String>, configured: &str) -> (r: String)
    ensures
        r@ == match normalized_text(opt_view(target_path)) {
            Some(p) => p,
            None => configured@,
        },
{
    match normalize_optional_text(target_path) {
        Some(p) => p,
        None => String::from_str(configured),
    }
}

/// `s` with every single quote doubled, as an SQL string literal needs it.
pub open spec fn sql_quoted(s: Seq<char>) -> Seq<char>
    decreases s.len(),
{
    if s.len() == 0 {
        seq![]
    } else if s.last() == '\'' {
        sql_quoted(s.drop_last()) + seq!['\'', '\'']
    } else {
        sql_quoted(s.drop_last()).push(s.last())
    }
}

/// The statement that writes a copy of the database to `path`.
pub fn vacuum_into_sql(path: &str) -> (r: String)
    ensures
        r@ == "VACUUM INTO '"@ + sql_quoted(path@) + "';"@,
{
    let chars = chars_of(path);
    let mut quoted = String::new();
    let mut i: usize = 0;
    while i < chars.len()
        invariant
            i <= chars.len(),
            chars@ == path@,
            quoted@ == sql_quoted(path@.take(i as int)),
        decreases chars.len() - i,
    {
        let c = chars[i];
        let ghost next = path@.take(i + 1);
        assert(next.drop_last() =~= path@.take(i as int));
        assert(next.last() == c);
        if c == '\'' {
            push_char(&mut quoted, '\'');
            push_char(&mut quoted, '\'');
            assert(quoted@ =~= sql_quoted(next));
        } else {
            push_char(&mut quoted, c);
        }
        i = i + 1;
    }
    assert(path@.take(chars.len() as int) =~= path@);
    let head = concat_str("VACUUM INTO '", quoted.as_str());
    concat_str(head.as_str(), "';")
}

} // verus!
