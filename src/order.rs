//! The order of strings by their characters, as `str`'s comparison orders them.

use vstd::prelude::*;

verus! {

/// `a` comes strictly before `b`: on the first differing character `a`'s is
/// smaller, or `a` is a proper prefix of `b`.
pub open spec fn text_lt(a: Seq<char>, b: Seq<char>) -> bool
    decreases a.len(),
{
    if a.len() == 0 {
        b.len() > 0
    } else if b.len() == 0 {
        false
    } else if a[0] != b[0] {
        (a[0] as int) < (b[0] as int)
    } else {
        text_lt(a.drop_first(), b.drop_first())
    }
}

/// Each element comes strictly before the next: ascending without duplicates.
pub open spec fn strictly_ascending(s: Seq<Seq<char>>) -> bool {
    forall|i: int, j: int| 0 <= i < j < s.len() ==> text_lt(#[trigger] s[i], #[trigger] s[j])
}

pub proof fn lemma_text_lt_irreflexive(a: Seq<char>)
    ensures
        !text_lt(a, a),
    decreases a.len(),
{
    if a.len() > 0 {
        lemma_text_lt_irreflexive(a.drop_first());
    }
}

pub proof fn lemma_text_lt_transitive(a: Seq<char>, b: Seq<char>, c: Seq<char>)
    requires
        text_lt(a, b),
        text_lt(b, c),
    ensures
        text_lt(a, c),
    decreases a.len(),
{
    if a.len() > 0 && b.len() > 0 && c.len() > 0 {
        if a[0] == b[0] && b[0] == c[0] {
            lemma_text_lt_transitive(a.drop_first(), b.drop_first(), c.drop_first());
        }
    }
}

pub proof fn lemma_text_lt_total(a: Seq<char>, b: Seq<char>)
    requires
        a != b,
    ensures
        text_lt(a, b) || text_lt(b, a),
    decreases a.len(),
{
    if a.len() > 0 && b.len() > 0 && a[0] == b[0] {
        if a.drop_first() == b.drop_first() {
            assert(a =~= seq![a[0]] + a.drop_first());
            assert(b =~= seq![b[0]] + b.drop_first());
        }
        lemma_text_lt_total(a.drop_first(), b.drop_first());
    } else if a.len() > 0 && b.len() > 0 {
        assert((a[0] as int) != (b[0] as int));
    } else if a.len() == 0 && b.len() == 0 {
        assert(a =~= b);
    }
}

proof fn lemma_text_lt_skip(a: Seq<char>, b: Seq<char>, i: int)
    requires
        0 <= i < a.len(),
        i < b.len(),
        a[i] == b[i],
    ensures
        text_lt(a.skip(i), b.skip(i)) == text_lt(a.skip(i + 1), b.skip(i + 1)),
{
    assert(a.skip(i).drop_first() =~= a.skip(i + 1));
    assert(b.skip(i).drop_first() =~= b.skip(i + 1));
}

/// Whether `a` comes strictly before `b`.
pub fn str_lt(a: &str, b: &str) -> (r: bool)
    ensures
        r == text_lt(a@, b@),
{
    let la = a.unicode_len();
    let lb = b.unicode_len();
    let mut i: usize = 0;
    assert(a@.skip(0) =~= a@);
    assert(b@.skip(0) =~= b@);
    while i < la && i < lb
        invariant
            la == a@.len(),
            lb == b@.len(),
            i <= la,
            i <= lb,
            text_lt(a@, b@) == text_lt(a@.skip(i as int), b@.skip(i as int)),
        decreases la - i,
    {
        let ca = a.get_char(i);
        let cb = b.get_char(i);
        if ca != cb {
            return (ca as u32) < (cb as u32);
        }
        proof {
            lemma_text_lt_skip(a@, b@, i as int);
        }
        i = i + 1;
    }
    i == la && i < lb
}

} // verus!

verus! {

/// The versions after `v` is recorded in the ascending list `s`: unchanged
/// when it is there already, else inserted where it keeps the order.
pub open spec fn with_version(s: Seq<Seq<char>>, v: Seq<char>) -> Seq<Seq<char>>
    decreases s.len(),
{
    if s.len() == 0 {
        seq![v]
    } else if s[0] == v {
        s
    } else if text_lt(s[0], v) {
        seq![s[0]] + with_version(s.drop_first(), v)
    } else {
        seq![v] + s
    }
}

/// The versions of a crate after each of `vs` was recorded in turn, starting
/// from none.
pub open spec fn versions_after(vs: Seq<Seq<char>>) -> Seq<Seq<char>>
    decreases vs.len(),
{
    if vs.len() == 0 {
        Seq::empty()
    } else {
        with_version(versions_after(vs.drop_last()), vs.last())
    }
}

/// Recording a version at the first place `i` that does not come before it.
pub proof fn lemma_with_version_at(s: Seq<Seq<char>>, v: Seq<char>, i: int)
    requires
        0 <= i <= s.len(),
        forall|k: int| 0 <= k < i ==> text_lt(#[trigger] s[k], v),
        i < s.len() ==> !text_lt(s[i], v),
    ensures
        with_version(s, v) == if i < s.len() && s[i] == v {
            s
        } else {
            s.subrange(0, i) + seq![v] + s.subrange(i, s.len() as int)
        },
    decreases i,
{
    if i == 0 {
        if s.len() > 0 && s[0] != v {
            assert(s.subrange(0, 0) + seq![v] + s.subrange(0, s.len() as int) =~= seq![v] + s);
        } else if s.len() == 0 {
            assert(s.subrange(0, 0) + seq![v] + s.subrange(0, 0) =~= seq![v]);
        }
    } else {
        lemma_text_lt_irreflexive(v);
        assert(text_lt(s[0], v));
        let t = s.drop_first();
        assert forall|k: int| 0 <= k < i - 1 implies text_lt(#[trigger] t[k], v) by {
            assert(t[k] == s[k + 1]);
        }
        lemma_with_version_at(t, v, i - 1);
        if i < s.len() && s[i] == v {
            assert(seq![s[0]] + t =~= s);
        } else {
            assert(seq![s[0]] + (t.subrange(0, i - 1) + seq![v] + t.subrange(i - 1, t.len() as int))
                =~= s.subrange(0, i) + seq![v] + s.subrange(i, s.len() as int));
        }
    }
}

/// The first place in `s` whose version does not come before `v`.
pub open spec fn insertion_point(s: Seq<Seq<char>>, v: Seq<char>) -> int
    decreases s.len(),
{
    if s.len() == 0 || !text_lt(s[0], v) {
        0
    } else {
        1 + insertion_point(s.drop_first(), v)
    }
}

proof fn lemma_insertion_point(s: Seq<Seq<char>>, v: Seq<char>)
    ensures
        0 <= insertion_point(s, v) <= s.len(),
        forall|k: int| 0 <= k < insertion_point(s, v) ==> text_lt(#[trigger] s[k], v),
        insertion_point(s, v) < s.len() ==> !text_lt(s[insertion_point(s, v)], v),
    decreases s.len(),
{
    if s.len() > 0 && text_lt(s[0], v) {
        let t = s.drop_first();
        lemma_insertion_point(t, v);
        assert forall|k: int| 0 <= k < insertion_point(s, v) implies text_lt(#[trigger] s[k], v) by {
            if k > 0 {
                assert(s[k] == t[k - 1]);
            }
        }
    }
}

/// Recording a version keeps a list ascending, and adds exactly that version.
pub proof fn lemma_with_version_ascending(s: Seq<Seq<char>>, v: Seq<char>)
    requires
        strictly_ascending(s),
    ensures
        strictly_ascending(with_version(s, v)),
        with_version(s, v).to_set() == s.to_set().insert(v),
{
    lemma_insertion_point(s, v);
    let i = insertion_point(s, v);
    lemma_with_version_at(s, v, i);
    if i < s.len() && s[i] == v {
        assert(s.to_set().insert(v) =~= s.to_set());
    } else {
        let r = s.subrange(0, i) + seq![v] + s.subrange(i, s.len() as int);
        if i < s.len() {
            lemma_text_lt_total(s[i], v);
        }
        assert forall|a: int, b: int| 0 <= a < b < r.len() implies text_lt(#[trigger] r[a], #[trigger] r[b]) by {
            if b < i {
                assert(r[a] == s[a] && r[b] == s[b]);
            } else if b == i {
                assert(r[a] == s[a] && r[b] == v);
            } else if a < i {
                assert(r[a] == s[a] && r[b] == s[b - 1]);
                if b - 1 > i {
                    lemma_text_lt_transitive(v, s[i], s[b - 1]);
                }
                lemma_text_lt_transitive(s[a], v, s[b - 1]);
            } else if a == i {
                assert(r[b] == s[b - 1]);
                if b - 1 > i {
                    lemma_text_lt_transitive(v, s[i], s[b - 1]);
                }
            } else {
                assert(r[a] == s[a - 1] && r[b] == s[b - 1]);
            }
        }
        assert forall|x: Seq<char>| r.to_set().contains(x) <==> s.to_set().insert(v).contains(x) by {
            if r.to_set().contains(x) {
                let k = choose|k: int| 0 <= k < r.len() && r[k] == x;
                if k < i {
                    assert(s[k] == x);
                } else if k > i {
                    assert(s[k - 1] == x);
                }
            }
            if s.to_set().contains(x) {
                let k = choose|k: int| 0 <= k < s.len() && s[k] == x;
                if k < i {
                    assert(r[k] == x);
                } else {
                    assert(r[k + 1] == x);
                }
            }
            if x == v {
                assert(r[i] == x);
            }
        }
        assert(r.to_set() =~= s.to_set().insert(v));
    }
}

/// However the versions of a crate arrive, and however often each arrives,
/// the list kept holds each of them exactly once, in ascending order.
pub proof fn lemma_versions_after_ascending(vs: Seq<Seq<char>>)
    ensures
        strictly_ascending(versions_after(vs)),
        versions_after(vs).to_set() == vs.to_set(),
    decreases vs.len(),
{
    if vs.len() == 0 {
        assert(versions_after(vs).to_set() =~= vs.to_set());
    } else {
        let p = vs.drop_last();
        lemma_versions_after_ascending(p);
        lemma_with_version_ascending(versions_after(p), vs.last());
        assert(vs =~= p.push(vs.last()));
        assert(vs.to_set() =~= p.to_set().insert(vs.last())) by {
            assert forall|x: Seq<char>| vs.to_set().contains(x) <==> p.to_set().insert(vs.last()).contains(x) by {
                if vs.to_set().contains(x) {
                    let k = choose|k: int| 0 <= k < vs.len() && vs[k] == x;
                    if k < p.len() {
                        assert(p[k] == x);
                    }
                }
                if p.to_set().contains(x) {
                    let k = choose|k: int| 0 <= k < p.len() && p[k] == x;
                    assert(vs[k] == x);
                }
                if x == vs.last() {
                    assert(vs[vs.len() - 1] == x);
                }
            }
        }
    }
}

} // verus!
