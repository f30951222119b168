//! String helpers: equality, flag-token matching, and the file-name
//! component of a path.

use vstd::prelude::*;
use vstd::string::StrSliceExecFns;
use vstd::string::StringExecFns;

verus! {

/// Character-for-character string equality.
pub fn str_eq(a: &str, b: &str) -> (r: bool)
    ensures
        r == (a@ == b@),
{
    let n = a.unicode_len();
    let m = b.unicode_len();
    if n != m {
        return false;
    }
    let mut i: usize = 0;
    while i < n
        invariant
            i <= n,
            n == a@.len(),
            n == b@.len(),
            forall|k: int| 0 <= k < i ==> a@[k] == b@[k],
        decreases n - i,
    {
        if a.get_char(i) != b.get_char(i) {
            return false;
        }
        i = i + 1;
    }
    proof {
        assert(a@ =~= b@);
    }
    true
}

/// The characters of the long form of a flag token: `--` followed by the
/// flag name.
pub open spec fn spec_long_token(name: Seq<char>) -> Seq<char> {
    "--"@ + name
}

/// The characters of the short form of a flag token: `-` followed by the
/// short code.
pub open spec fn spec_short_token(code: Seq<char>) -> Seq<char> {
    "-"@ + code
}

/// Whether `token` names the flag with the given name and short code, in
/// either form.
pub open spec fn spec_token_matches(token: Seq<char>, name: Seq<char>, code: Seq<char>) -> bool {
    token == spec_long_token(name) || token == spec_short_token(code)
}

/// Whether `token` is `--name` or `-code`.
pub fn token_matches(token: &str, name: &str, code: &str) -> (r: bool)
    ensures
        r == spec_token_matches(token@, name@, code@),
{
    let long = String::from_str("--").concat(name);
    if str_eq(token, long.as_str()) {
        return true;
    }
    let short = String::from_str("-").concat(code);
    str_eq(token, short.as_str())
}

/// `s` with every trailing `/` removed.
pub open spec fn spec_strip_trailing_slashes(s: Seq<char>) -> Seq<char>
    decreases s.len(),
{
    if s.len() > 0 && s[s.len() - 1] == '/' {
        spec_strip_trailing_slashes(s.drop_last())
    } else {
        s
    }
}

/// The suffix of `s` after its last `/`, or all of `s` when it holds none.
pub open spec fn spec_after_last_slash(s: Seq<char>) -> Seq<char>
    decreases s.len(),
{
    if s.len() == 0 {
        s
    } else if s[s.len() - 1] == '/' {
        Seq::empty()
    } else {
        spec_after_last_slash(s.drop_last()).push(s[s.len() - 1])
    }
}

/// The file-name component of a path: trailing slashes are ignored, the part
/// after the last remaining slash is taken, and an empty result, `.` or `..`
/// means the path has no file name.
pub open spec fn spec_file_name(s: Seq<char>) -> Option<Seq<char>> {
    let base = spec_after_last_slash(spec_strip_trailing_slashes(s));
    if base.len() == 0 || base == "."@ || base == ".."@ {
        None
    } else {
        Some(base)
    }
}

/// The file-name component of `s`, per [`spec_file_name`].
pub fn file_name(s: &str) -> (r: Option<&str>)
    ensures
        match r {
            Some(b) => spec_file_name(s@) == Some(b@),
            None => spec_file_name(s@) is None,
        },
{
    let n = s.unicode_len();
    let mut end: usize = n;
    proof {
        assert(s@.take(n as int) =~= s@);
    }
    while end > 0 && s.get_char(end - 1) == '/'
        invariant
            end <= n,
            n == s@.len(),
            spec_strip_trailing_slashes(s@) == spec_strip_trailing_slashes(
                s@.take(end as int),
            ),
        decreases end,
    {
        proof {
            assert(s@.take(end as int).drop_last() =~= s@.take(end - 1 as int));
        }
        end = end - 1;
    }
    let ghost trimmed = s@.take(end as int);
    proof {
        assert(spec_strip_trailing_slashes(trimmed) == trimmed);
        assert(trimmed.take(end as int) =~= trimmed);
        assert(trimmed.skip(end as int) =~= Seq::<char>::empty());
        assert(spec_after_last_slash(trimmed) + Seq::<char>::empty() =~= spec_after_last_slash(
            trimmed,
        ));
    }
    let mut start: usize = end;
    while start > 0 && s.get_char(start - 1) != '/'
        invariant
            start <= end,
            end <= n,
            n == s@.len(),
            trimmed == s@.take(end as int),
            trimmed.len() == end,
            spec_after_last_slash(trimmed) == spec_after_last_slash(trimmed.take(start as int))
                + trimmed.skip(start as int),
        decreases start,
    {
        proof {
            let head = trimmed.take(start as int);
            assert(head.len() == start);
            assert(head[start - 1] == s@[start - 1]);
            assert(head.drop_last() =~= trimmed.take(start - 1 as int));
            assert(spec_after_last_slash(head) == spec_after_last_slash(
                trimmed.take(start - 1 as int),
            ).push(s@[start - 1]));
            assert(spec_after_last_slash(trimmed.take(start - 1 as int)).push(s@[start - 1])
                + trimmed.skip(start as int) =~= spec_after_last_slash(
                trimmed.take(start - 1 as int),
            ) + trimmed.skip(start - 1 as int));
        }
        start = start - 1;
    }
    proof {
        if start > 0 {
            let head = trimmed.take(start as int);
            assert(head[start - 1] == s@[start - 1]);
            assert(spec_after_last_slash(head) =~= Seq::<char>::empty());
        } else {
            assert(trimmed.take(0) =~= Seq::<char>::empty());
            assert(spec_after_last_slash(Seq::<char>::empty()) =~= Seq::<char>::empty());
        }
        assert(spec_after_last_slash(trimmed) =~= trimmed.skip(start as int));
    }
    let base = s.substring_char(start, end);
    proof {
        assert(base@ =~= trimmed.skip(start as int));
    }
    if base.is_empty() {
        proof {
            assert(base@.len() == 0);
        }
        return None;
    }
    if str_eq(base, ".") || str_eq(base, "..") {
        return None;
    }
    proof {
        assert(base@.len() > 0);
    }
    Some(base)
}

} // verus!
