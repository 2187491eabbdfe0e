//! Output file naming: inserting a `.signed` marker into a path string
//! before its extension.
//!
//! A path is treated as text the way the platform path API reads it:
//! trailing `/` separators are ignored, everything after the last
//! remaining `/` is the file name, and the last `.` inside the file name —
//! not at its first character — separates stem from extension.

use vstd::prelude::*;

use vstd::string::StrSliceExecFns;
use vstd::string::StringExecFns;

verus! {

/// True of a path made of nothing but `/` separators (or empty): one with
/// no file name at all.
pub open spec fn all_slashes(s: Seq<char>) -> bool {
    forall|i: int| 0 <= i < s.len() ==> #[trigger] s[i] == '/'
}

/// The path with its trailing `/` separators removed, as the platform
/// path API ignores them (`dir/` names the entry `dir`).  A path with no
/// file name at all is left as it is.
pub open spec fn strip_trailing_slashes(s: Seq<char>) -> Seq<char>
    decreases s.len(),
{
    if all_slashes(s) {
        s
    } else if s[s.len() - 1] == '/' {
        strip_trailing_slashes(s.drop_last())
    } else {
        s
    }
}

/// The index right after the last `/` of the path: where the file name
/// starts (0 when there is no `/`).
pub open spec fn comp_start(s: Seq<char>) -> int
    decreases s.len(),
{
    if s.len() == 0 {
        0
    } else if s[s.len() - 1] == '/' {
        s.len() as int
    } else {
        comp_start(s.drop_last())
    }
}

/// The index of the last `.` of the path, or -1 when there is none.
pub open spec fn last_dot(s: Seq<char>) -> int
    decreases s.len(),
{
    if s.len() == 0 {
        -1
    } else if s[s.len() - 1] == '.' {
        s.len() - 1
    } else {
        last_dot(s.drop_last())
    }
}

/// The `.signed` marker.
pub open spec fn signed_suffix() -> Seq<char> {
    seq!['.', 's', 'i', 'g', 'n', 'e', 'd']
}

/// True when the file name of the path has an extension separator: a `.`
/// past the file name's first character.
pub open spec fn has_extension_sep(s: Seq<char>) -> bool {
    last_dot(s) > comp_start(s)
}

/// The output name for a path already free of trailing separators:
/// `.signed` inserted before the extension separator of the file name, or
/// appended when there is no extension.  A trailing `.` (an empty
/// extension) is dropped, as the platform path API does.
pub open spec fn to_outfile_core(s: Seq<char>) -> Seq<char> {
    let d = last_dot(s);
    if has_extension_sep(s) {
        if d == s.len() - 1 {
            s.take(d) + signed_suffix()
        } else {
            s.take(d) + signed_suffix() + s.skip(d)
        }
    } else {
        s + signed_suffix()
    }
}

/// The output name: trailing separators ignored, then `.signed` inserted
/// before the file name's extension, or appended when there is none.
pub open spec fn to_outfile_spec(s: Seq<char>) -> Seq<char> {
    to_outfile_core(strip_trailing_slashes(s))
}

/// What the stem-swap-then-set-extension renaming produces on a path
/// already free of trailing separators: for a name with a non-empty
/// extension the re-set extension replaces the `.signed` marker again, so
/// the name comes back unchanged; only names without one keep the marker.
pub open spec fn add_signed_core(s: Seq<char>) -> Seq<char> {
    let d = last_dot(s);
    if has_extension_sep(s) {
        if d == s.len() - 1 {
            s.take(d) + signed_suffix()
        } else {
            s
        }
    } else {
        s + signed_suffix()
    }
}

/// The stem-swap-then-set-extension renaming, with trailing separators
/// ignored as the platform path API does.
pub open spec fn add_signed_spec(s: Seq<char>) -> Seq<char> {
    add_signed_core(strip_trailing_slashes(s))
}

proof fn lemma_comp_start_bounds(s: Seq<char>)
    ensures
        0 <= comp_start(s) <= s.len(),
    decreases s.len(),
{
    if s.len() > 0 && s[s.len() - 1] != '/' {
        lemma_comp_start_bounds(s.drop_last());
    }
}

proof fn lemma_last_dot_bounds(s: Seq<char>)
    ensures
        -1 <= last_dot(s) < s.len(),
    decreases s.len(),
{
    if s.len() > 0 && s[s.len() - 1] != '.' {
        lemma_last_dot_bounds(s.drop_last());
    }
}

proof fn lemma_strip_is_take(s: Seq<char>, end: int)
    requires
        0 < end <= s.len(),
        s[end - 1] != '/',
        forall|j: int| end <= j < s.len() ==> #[trigger] s[j] == '/',
    ensures
        strip_trailing_slashes(s) == s.take(end),
    decreases s.len(),
{
    assert(!all_slashes(s)) by {
        assert(s[end - 1] != '/');
    }
    if end == s.len() {
        assert(s.take(end) =~= s);
    } else {
        assert(s[s.len() - 1] == '/');
        assert(s.drop_last()[end - 1] == s[end - 1]);
        lemma_strip_is_take(s.drop_last(), end);
        assert(s.drop_last().take(end) =~= s.take(end));
    }
}

/// Hands back the path without its trailing `/` separators (a path with
/// no file name at all comes back whole).
fn strip_trailing(path: &str) -> (base: &str)
    ensures
        base@ == strip_trailing_slashes(path@),
{
    let len = path.unicode_len();
    let mut end: usize = len;
    while end > 0 && path.get_char(end - 1) == '/'
        invariant
            end <= len,
            len == path@.len(),
            forall|j: int| end <= j < len ==> #[trigger] path@[j] == '/',
        decreases end,
    {
        end = end - 1;
    }
    if end == 0 {
        proof {
            assert(all_slashes(path@));
        }
        path
    } else {
        proof {
            lemma_strip_is_take(path@, end as int);
        }
        let base = path.substring_char(0, end);
        proof {
            assert(base@ =~= path@.take(end as int));
        }
        base
    }
}

/// Scans the path once: where the file name starts, and where its last
/// `.` sits, if anywhere.
fn scan_path(s: &str) -> (r: (usize, bool, usize))
    ensures
        r.0 as int == comp_start(s@),
        r.1 <==> last_dot(s@) >= 0,
        r.1 ==> r.2 as int == last_dot(s@),
{
    let len = s.unicode_len();
    let mut cs: usize = 0;
    let mut has_dot: bool = false;
    let mut d: usize = 0;
    let mut i: usize = 0;
    while i < len
        invariant
            i <= len,
            len == s@.len(),
            cs as int == comp_start(s@.take(i as int)),
            has_dot <==> last_dot(s@.take(i as int)) >= 0,
            has_dot ==> d as int == last_dot(s@.take(i as int)),
        decreases len - i,
    {
        let c = s.get_char(i);
        proof {
            assert(s@.take(i + 1).drop_last() =~= s@.take(i as int));
            assert(s@.take(i + 1)[i as int] == s@[i as int]);
        }
        if c == '/' {
            cs = i + 1;
        } else if c == '.' {
            has_dot = true;
            d = i;
        }
        i = i + 1;
    }
    proof {
        assert(s@.take(len as int) =~= s@);
    }
    (cs, has_dot, d)
}

/// Appends the `.signed` marker to a string.
fn push_signed(r: &mut String)
    ensures
        final(r)@ == old(r)@ + signed_suffix(),
{
    proof {
        reveal_strlit(".signed");
        assert(".signed"@ =~= signed_suffix());
    }
    r.append(".signed");
}

/// The output file name for a path: trailing separators ignored, then the
/// file name's stem, the `.signed` marker, and the extension again when
/// the name has a non-empty one (`dir/report.json` becomes
/// `dir/report.signed.json`, `report` becomes `report.signed`, `tmp/bin/`
/// becomes `tmp/bin.signed`, a trailing `.` is dropped).
pub fn to_outfile(path: &str) -> (r: String)
    ensures
        r@ == to_outfile_spec(path@),
{
    let base = strip_trailing(path);
    proof {
        lemma_comp_start_bounds(base@);
        lemma_last_dot_bounds(base@);
    }
    let len = base.unicode_len();
    let (cs, has_dot, d) = scan_path(base);
    if has_dot && d > cs {
        let stem = base.substring_char(0, d);
        let mut r = String::from_str(stem);
        push_signed(&mut r);
        if d + 1 < len {
            let ext = base.substring_char(d, len);
            r.append(ext);
            proof {
                assert(r@ =~= to_outfile_core(base@));
            }
            r
        } else {
            proof {
                assert(r@ =~= to_outfile_core(base@));
            }
            r
        }
    } else {
        let mut r = String::from_str(base);
        push_signed(&mut r);
        proof {
            assert(r@ =~= to_outfile_core(base@));
        }
        r
    }
}

/// The name the stem-swap-then-set-extension renaming produces, trailing
/// separators ignored: unchanged for a name with a non-empty extension
/// (the re-set extension replaces the `.signed` marker again), the marker
/// appended otherwise.
pub fn add_signed_to_filename(path: &str) -> (r: String)
    ensures
        r@ == add_signed_spec(path@),
{
    let base = strip_trailing(path);
    proof {
        lemma_comp_start_bounds(base@);
        lemma_last_dot_bounds(base@);
    }
    let len = base.unicode_len();
    let (cs, has_dot, d) = scan_path(base);
    if has_dot && d > cs {
        if d + 1 < len {
            let r = String::from_str(base);
            proof {
                assert(r@ =~= add_signed_core(base@));
            }
            r
        } else {
            let stem = base.substring_char(0, d);
            let mut r = String::from_str(stem);
            push_signed(&mut r);
            proof {
                assert(r@ =~= add_signed_core(base@));
            }
            r
        }
    } else {
        let mut r = String::from_str(base);
        push_signed(&mut r);
        proof {
            assert(r@ =~= add_signed_core(base@));
        }
        r
    }
}

} // verus!
