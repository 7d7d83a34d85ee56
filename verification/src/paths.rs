//! File paths held as text. Whether a path is absolute, how two paths are
//! joined and how a prefix is taken off are the platform's business and are
//! asked of `std::path`; what the library decides with the answers is below.
use vstd::prelude::*;
use std::path::Path;
use crate::text::{replace_char, replace_char_text};

verus! {

pub open spec fn is_separator(c: char) -> bool {
    c == '/' || c == '\\'
}

/// A path that no platform takes for absolute: it starts with no separator and
/// holds no `:` (so it has neither a root nor a Windows prefix).
pub open spec fn plainly_relative(p: Seq<char>) -> bool {
    (p.len() == 0 || !is_separator(p[0])) && !p.contains(':')
}

/// `Path::is_absolute`. Trusted: a path with neither a root nor a Windows
/// prefix is not absolute on any platform. What else counts as absolute
/// depends on the platform and is not stated.
#[verifier::external_body]
pub(crate) fn path_is_absolute(p: &str) -> (b: bool)
    ensures
        plainly_relative(p@) ==> !b,
{
    Path::new(p).is_absolute()
}

/// A Windows verbatim path (`\\?\...`), which `Path::join` normalizes.
pub open spec fn is_verbatim(p: Seq<char>) -> bool {
    p.len() >= 4 && p[0] == '\\' && p[1] == '\\' && p[2] == '?' && p[3] == '\\'
}

/// What may stand between a base path and the relative path joined to it:
/// nothing, or one separator (`/` on Unix, `\\` on Windows). Nothing follows
/// an empty base or a base that ends in `/`; a separator follows a base that
/// ends in any other character but `\\` or `:`.
pub open spec fn join_separator_ok(base: Seq<char>, sep: Seq<char>) -> bool {
    &&& (sep == Seq::<char>::empty() || sep == seq!['/'] || sep == seq!['\\'])
    &&& base.len() == 0 ==> sep.len() == 0
    &&& base.len() > 0 && base.last() == '/' ==> sep.len() == 0
    &&& base.len() > 0 && !is_separator(base.last()) && base.last() != ':' ==> sep.len() == 1
}

/// `r` is the relative path `child` joined under `base`: the base, at most one
/// separator, then the child.
pub open spec fn is_joined(base: Seq<char>, child: Seq<char>, r: Seq<char>) -> bool {
    exists|sep: Seq<char>| #[trigger] join_separator_ok(base, sep) && r == base + sep + child
}

/// `Path::join`, as text. Trusted: a plainly relative child (no root, no
/// prefix) extends a base that is not a verbatim path, with the platform's
/// separator between them where the base does not already end in one. What
/// comes of an absolute or rooted child, or of a verbatim base, depends on the
/// platform and is not stated.
#[verifier::external_body]
pub(crate) fn path_join(base: &str, child: &str) -> (r: String)
    ensures
        plainly_relative(child@) && !is_verbatim(base@) ==> is_joined(base@, child@, r@),
{
    Path::new(base).join(child).to_string_lossy().to_string()
}

/// `Path::strip_prefix`, as text. Trusted; which prefixes the platform
/// recognizes is not stated.
#[verifier::external_body]
pub(crate) fn path_strip_prefix(path: &str, prefix: &str) -> Option<String> {
    match Path::new(path).strip_prefix(prefix) {
        Ok(rest) => Some(rest.to_string_lossy().to_string()),
        Err(_) => None,
    }
}

/// `Path::ends_with`. Trusted; how the platform splits paths into components
/// is not stated.
#[verifier::external_body]
pub(crate) fn path_ends_with(path: &str, child: &str) -> bool {
    Path::new(path).ends_with(child)
}

/// `raw` where it is absolute, `joined` (the root joined with `raw`)
/// otherwise.
pub open spec fn resolved_text(raw: Seq<char>, raw_is_absolute: bool, joined: Seq<char>) -> Seq<
    char,
> {
    if raw_is_absolute {
        raw
    } else {
        joined
    }
}

/// Chooses the path that a configured path stands for, given whether it is
/// absolute and what it becomes under the root directory.
pub fn pick_resolved_path(raw: &str, raw_is_absolute: bool, joined: String) -> (r: String)
    ensures
        r@ == resolved_text(raw@, raw_is_absolute, joined@),
{
    if raw_is_absolute {
        String::from_str(raw)
    } else {
        joined
    }
}

/// The path that a configured path stands for: itself where it is absolute,
/// else itself under `root_dir`. A plainly relative path is never absolute,
/// so it comes back joined under `root_dir`; which other paths are absolute
/// is the platform's business (see `pick_resolved_path` for the choice).
pub fn resolve_path(root_dir: &str, raw: &str) -> (r: String)
    ensures
        plainly_relative(raw@) && !is_verbatim(root_dir@) ==> is_joined(root_dir@, raw@, r@),
{
    let absolute = path_is_absolute(raw);
    let joined = path_join(root_dir, raw);
    pick_resolved_path(raw, absolute, joined)
}

/// A path as the configuration file keeps it: an absolute path inside the
/// root directory loses that prefix, and every backslash becomes a slash.
pub open spec fn config_value_text(
    path: Seq<char>,
    path_is_absolute: bool,
    stripped: Option<Seq<char>>,
) -> Seq<char> {
    let candidate = if path_is_absolute {
        match stripped {
            Some(rest) => rest,
            None => path,
        }
    } else {
        path
    };
    replace_char(candidate, '\\', '/')
}

/// Writes a path as the configuration file keeps it, given whether it is
/// absolute and what is left of it once the root directory is taken off.
pub fn pick_config_value(path: &str, path_is_absolute: bool, stripped: Option<String>) -> (r:
    String)
    ensures
        r@ == config_value_text(
            path@,
            path_is_absolute,
            match stripped {
                Some(s) => Some(s@),
                None => None,
            },
        ),
{
    if path_is_absolute {
        match stripped {
            Some(rest) => replace_char_text(rest.as_str(), '\\', '/'),
            None => replace_char_text(path, '\\', '/'),
        }
    } else {
        replace_char_text(path, '\\', '/')
    }
}

/// A path as the configuration file keeps it.
pub fn path_to_config_value(root_dir: &str, path: &str) -> (r: String)
    ensures
        plainly_relative(path@) ==> r@ == replace_char(path@, '\\', '/'),
{
    let absolute = path_is_absolute(path);
    let stripped = if absolute {
        path_strip_prefix(path, root_dir)
    } else {
        None
    };
    pick_config_value(path, absolute, stripped)
}

/// A configured path made portable: an absolute path that ends in the
/// portable relative path becomes that relative path; a relative path gets
/// slashes for backslashes; anything else stays as it is.
pub open spec fn portable_text(
    raw: Seq<char>,
    portable: Seq<char>,
    raw_is_absolute: bool,
    ends_with_portable: bool,
) -> Seq<char> {
    if raw_is_absolute && ends_with_portable {
        portable
    } else if !raw_is_absolute {
        replace_char(raw, '\\', '/')
    } else {
        raw
    }
}

/// Makes a configured path portable, given whether it is absolute and whether
/// it ends in the portable relative path.
pub fn pick_portable_path(
    raw: &str,
    portable: &str,
    raw_is_absolute: bool,
    ends_with_portable: bool,
) -> (r: String)
    ensures
        r@ == portable_text(raw@, portable@, raw_is_absolute, ends_with_portable),
{
    if raw_is_absolute && ends_with_portable {
        return String::from_str(portable);
    }
    if !raw_is_absolute {
        return replace_char_text(raw, '\\', '/');
    }
    String::from_str(raw)
}

/// `r` is what `raw` becomes when made portable, for some answer of the
/// platform to whether `raw` is absolute and ends in `portable` (a plainly
/// relative path is never absolute).
pub open spec fn portable_step(raw: Seq<char>, portable: Seq<char>, r: Seq<char>) -> bool {
    exists|a: bool, e: bool|
        (plainly_relative(raw) ==> !a) && r == #[trigger] portable_text(raw, portable, a, e)
}

/// Slashes for backslashes keep a plainly relative path plainly relative, leave
/// no backslash behind, and change nothing when done again.
pub proof fn lemma_slashes_settle(p: Seq<char>)
    ensures
        !replace_char(p, '\\', '/').contains('\\'),
        replace_char(replace_char(p, '\\', '/'), '\\', '/') == replace_char(p, '\\', '/'),
        plainly_relative(p) ==> plainly_relative(replace_char(p, '\\', '/')),
{
    let q = replace_char(p, '\\', '/');
    assert(!q.contains('\\')) by {
        if q.contains('\\') {
            let k = choose|k: int| 0 <= k < q.len() && q[k] == '\\';
            assert(q[k] == (if p[k] == '\\' { '/' } else { p[k] }));
        }
    }
    assert(replace_char(q, '\\', '/') =~= q) by {
        assert forall|k: int| 0 <= k < q.len() implies replace_char(q, '\\', '/')[k] == q[k] by {
            if q[k] == '\\' {
                assert(q.contains('\\'));
            }
        }
    }
    if plainly_relative(p) {
        assert(!q.contains(':')) by {
            if q.contains(':') {
                let k = choose|k: int| 0 <= k < q.len() && q[k] == ':';
                assert(q[k] == (if p[k] == '\\' { '/' } else { p[k] }));
                assert(p[k] == ':');
                assert(p.contains(':'));
            }
        }
        if q.len() > 0 {
            assert(q[0] == (if p[0] == '\\' { '/' } else { p[0] }));
        }
    }
}

/// Making a path portable a second time changes nothing where the first time
/// gave a plainly relative path and the portable form holds no backslash.
pub proof fn lemma_portable_step_settles(p0: Seq<char>, q: Seq<char>, p1: Seq<char>, p2: Seq<char>)
    requires
        portable_step(p0, q, p1),
        portable_step(p1, q, p2),
        plainly_relative(p1),
        !q.contains('\\'),
    ensures
        p2 == p1,
{
    let (a1, e1) = choose|a: bool, e: bool|
        (plainly_relative(p0) ==> !a) && p1 == #[trigger] portable_text(p0, q, a, e);
    let (a2, e2) = choose|a: bool, e: bool|
        (plainly_relative(p1) ==> !a) && p2 == #[trigger] portable_text(p1, q, a, e);
    lemma_slashes_settle(p0);
    assert(!a2);
    assert(p2 == replace_char(p1, '\\', '/'));
    if a1 && e1 {
        assert(p1 == q);
        assert(replace_char(q, '\\', '/') =~= q) by {
            assert forall|k: int| 0 <= k < q.len() implies replace_char(q, '\\', '/')[k] == q[k] by {
                if q[k] == '\\' {
                    assert(q.contains('\\'));
                }
            }
        }
    } else if !a1 {
        assert(p1 == replace_char(p0, '\\', '/'));
    } else {
        assert(p1 == p0);
        assert(!a1);
    }
}

/// Makes a configured path portable.
pub fn normalize_portable_path(raw: &str, portable_relative: &str) -> (r: String)
    ensures
        plainly_relative(raw@) ==> r@ == replace_char(raw@, '\\', '/'),
        portable_step(raw@, portable_relative@, r@),
{
    let absolute = path_is_absolute(raw);
    let ends = if absolute {
        path_ends_with(raw, portable_relative)
    } else {
        false
    };
    let r = pick_portable_path(raw, portable_relative, absolute, ends);
    assert(portable_text(raw@, portable_relative@, absolute, ends) == r@);
    r
}

} // verus!
