//! Reading version numbers, forgiving pre-release and build suffixes that a
//! strict reading refuses.

use vstd::prelude::*;

verus! {

#[verifier::external_type_specification]
#[verifier::external_body]
pub struct ExSemver(dia_semver::Semver);

/// Whether `dia_semver`'s tolerant parser accepts the text.
pub uninterp spec fn semver_parses(s: Seq<char>) -> bool;

/// Relies on `dia_semver::Semver`'s `FromStr`: its tolerant parser, which
/// accepts or refuses a text by the text alone.
#[verifier::external_body]
fn parse_tolerant(s: &str) -> (r: Option<dia_semver::Semver>)
    ensures
        r is Some == semver_parses(s@),
{
    <dia_semver::Semver as std::str::FromStr>::from_str(s).ok()
}

/// `i` is the first place of `c` in `s`.
pub open spec fn is_first(s: Seq<char>, c: char, i: int) -> bool {
    &&& 0 <= i < s.len()
    &&& s[i] == c
    &&& forall|k: int| 0 <= k < i ==> s[k] != c
}

/// Where a version is cut to drop its suffix: at its first `-`, or, where it
/// has none, at its first `+`.
pub open spec fn cut_point(s: Seq<char>, i: int) -> bool {
    is_first(s, '-', i) || (!s.contains('-') && is_first(s, '+', i))
}

fn find_char(s: &str, c: char) -> (r: Option<usize>)
    ensures
        match r {
            Some(i) => is_first(s@, c, i as int),
            None => !s@.contains(c),
        },
{
    let n = s.unicode_len();
    let mut i: usize = 0;
    while i < n
        invariant
            n == s@.len(),
            i <= n,
            forall|k: int| 0 <= k < i ==> s@[k] != c,
        decreases n - i,
    {
        if s.get_char(i) == c {
            return Some(i);
        }
        i = i + 1;
    }
    None
}

/// Reads `version`; where the whole text is refused, reads it again without
/// its pre-release or build suffix. `None` where neither reading succeeds.
pub fn parse_semver(version: &str) -> (r: Option<dia_semver::Semver>)
    ensures
        r is Some <==> (semver_parses(version@) || exists|i: int|
            cut_point(version@, i) && semver_parses(#[trigger] version@.subrange(0, i))),
{
    let whole = parse_tolerant(version);
    if whole.is_some() {
        return whole;
    }
    let cut = match find_char(version, '-') {
        Some(i) => Some(i),
        None => find_char(version, '+'),
    };
    match cut {
        Some(i) => {
            let head = version.substring_char(0, i);
            let r = parse_tolerant(head);
            proof {
                assert forall|j: int| cut_point(version@, j) implies j == i by {
                    if j < i {
                    } else if j > i {
                    }
                }
            }
            r
        },
        None => None,
    }
}

} // verus!
