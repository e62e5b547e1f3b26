//! Paths as character sequences, joined and trimmed the way a POSIX `PathBuf` does.

use vstd::prelude::*;

verus! {

/// The path separator.
pub const SEPARATOR: char = '/';

/// `p` names a location from the filesystem root.
pub open spec fn is_absolute(p: Seq<char>) -> bool {
    p.len() > 0 && p[0] == SEPARATOR
}

/// `base` joined with `p`: an absolute `p` replaces `base`; otherwise a separator
/// is put between the two unless `base` is empty or already ends in one.
pub open spec fn path_join(base: Seq<char>, p: Seq<char>) -> Seq<char> {
    if is_absolute(p) {
        p
    } else if base.len() == 0 || base.last() == SEPARATOR {
        base + p
    } else {
        base + seq![SEPARATOR] + p
    }
}

/// `s` with every trailing separator removed.
pub open spec fn trim_trailing_separators(s: Seq<char>) -> Seq<char>
    decreases s.len(),
{
    if s.len() > 0 && s.last() == SEPARATOR {
        trim_trailing_separators(s.drop_last())
    } else {
        s
    }
}

/// Joins `p` onto `base`.
pub fn join_path(base: &str, p: &str) -> (r: String)
    ensures
        r@ == path_join(base@, p@),
{
    let plen = p.unicode_len();
    if plen > 0 && p.get_char(0) == SEPARATOR {
        return p.to_owned();
    }
    let blen = base.unicode_len();
    let mut r = base.to_owned();
    if blen > 0 && base.get_char(blen - 1) != SEPARATOR {
        r.append("/");
        proof {
            reveal_strlit("/");
        }
        assert(r@ == base@ + seq![SEPARATOR]);
    }
    r.append(p);
    r
}

/// Removes the separators at the end of `s`.
pub fn trim_end_separators(s: &str) -> (r: String)
    ensures
        r@ == trim_trailing_separators(s@),
{
    let mut n: usize = s.unicode_len();
    assert(s@.subrange(0, n as int) =~= s@);
    while n > 0 && s.get_char(n - 1) == SEPARATOR
        invariant
            n <= s@.len(),
            trim_trailing_separators(s@.subrange(0, n as int)) == trim_trailing_separators(s@),
        decreases n,
    {
        assert(s@.subrange(0, n as int).drop_last() =~= s@.subrange(0, n - 1));
        n = n - 1;
    }
    assert(trim_trailing_separators(s@.subrange(0, n as int)) == s@.subrange(0, n as int));
    s.substring_char(0, n).to_owned()
}

} // verus!
