//! Character-level string utilities: whitespace trimming, whitespace
//! splitting, path joining and membership tests, all specified over
//! `Seq<char>` views.

use vstd::prelude::*;
use vstd::string::StrSliceExecFns;
use vstd::string::StringExecFns;

verus! {

/// The ASCII whitespace characters that trimming and splitting recognise.
pub open spec fn is_space_char(c: char) -> bool {
    c == ' ' || c == '\t' || c == '\n' || c == '\r'
}

/// Executable mirror of `is_space_char`.
pub fn is_space(c: char) -> (r: bool)
    ensures
        r == is_space_char(c),
{
    c == ' ' || c == '\t' || c == '\n' || c == '\r'
}

pub open spec fn trim_start_s(s: Seq<char>) -> Seq<char>
    decreases s.len(),
{
    if s.len() > 0 && is_space_char(s[0]) {
        trim_start_s(s.drop_first())
    } else {
        s
    }
}

pub open spec fn trim_end_s(s: Seq<char>) -> Seq<char>
    decreases s.len(),
{
    if s.len() > 0 && is_space_char(s[s.len() - 1]) {
        trim_end_s(s.drop_last())
    } else {
        s
    }
}

/// The string without its leading and trailing whitespace.
pub open spec fn trimmed(s: Seq<char>) -> Seq<char> {
    trim_end_s(trim_start_s(s))
}

/// Remove leading and trailing whitespace.
pub fn trim_str(s: &str) -> (r: String)
    ensures
        r@ == trimmed(s@),
{
    let n = s.unicode_len();
    let mut a: usize = 0;
    proof {
        assert(s@.skip(0) =~= s@);
    }
    while a < n && is_space(s.get_char(a))
        invariant
            a <= n,
            n == s@.len(),
            trim_start_s(s@) == trim_start_s(s@.skip(a as int)),
        decreases n - a,
    {
        proof {
            assert(s@.skip(a as int).drop_first() =~= s@.skip(a + 1));
        }
        a = a + 1;
    }
    proof {
        assert(trim_start_s(s@) == s@.skip(a as int)) by {
            if a < n {
                assert(!is_space_char(s@.skip(a as int)[0]));
            } else {
                assert(s@.skip(a as int).len() == 0);
            }
        }
    }
    let mut b: usize = n;
    while b > a && is_space(s.get_char(b - 1))
        invariant
            a <= b <= n,
            n == s@.len(),
            trim_end_s(s@.skip(a as int)) == trim_end_s(s@.subrange(a as int, b as int)),
        decreases b,
    {
        proof {
            let sub = s@.subrange(a as int, b as int);
            assert(sub[sub.len() - 1] == s@[b - 1]);
            assert(sub.drop_last() =~= s@.subrange(a as int, b - 1));
        }
        b = b - 1;
    }
    proof {
        assert(trim_end_s(s@.subrange(a as int, b as int)) == s@.subrange(a as int, b as int))
            by {
            let sub = s@.subrange(a as int, b as int);
            if b > a {
                assert(!is_space_char(sub[sub.len() - 1]));
            } else {
                assert(sub.len() == 0);
            }
        };
    }
    s.substring_char(a, b).to_owned()
}

/// The views of a sequence of strings.
pub open spec fn views_of(v: Seq<String>) -> Seq<Seq<char>> {
    v.map_values(|s: String| s@)
}

pub open spec fn commit_tok(acc: Seq<Seq<char>>, cur: Seq<char>) -> Seq<Seq<char>> {
    if cur.len() == 0 {
        acc
    } else {
        acc.push(cur)
    }
}

pub open spec fn split_ws_rec(s: Seq<char>, cur: Seq<char>, acc: Seq<Seq<char>>) -> Seq<
    Seq<char>,
>
    decreases s.len(),
{
    if s.len() == 0 {
        commit_tok(acc, cur)
    } else if is_space_char(s[0]) {
        split_ws_rec(s.drop_first(), Seq::empty(), commit_tok(acc, cur))
    } else {
        split_ws_rec(s.drop_first(), cur.push(s[0]), acc)
    }
}

/// The maximal runs of non-whitespace characters of `s`, in order.
pub open spec fn tokens_of(s: Seq<char>) -> Seq<Seq<char>> {
    split_ws_rec(s, Seq::empty(), Seq::empty())
}

/// Split into whitespace-separated tokens.
pub fn split_tokens(s: &str) -> (r: Vec<String>)
    ensures
        views_of(r@) == tokens_of(s@),
{
    let n = s.unicode_len();
    let mut toks: Vec<String> = Vec::new();
    let mut start: usize = 0;
    let mut i: usize = 0;
    proof {
        assert(s@.skip(0) =~= s@);
        assert(s@.subrange(0, 0) =~= Seq::<char>::empty());
        assert(views_of(toks@) =~= Seq::<Seq<char>>::empty());
    }
    while i < n
        invariant
            start <= i <= n,
            n == s@.len(),
            tokens_of(s@) == split_ws_rec(
                s@.skip(i as int),
                s@.subrange(start as int, i as int),
                views_of(toks@),
            ),
        decreases n - i,
    {
        proof {
            assert(s@.skip(i as int)[0] == s@[i as int]);
            assert(s@.skip(i as int).drop_first() =~= s@.skip(i + 1));
        }
        if is_space(s.get_char(i)) {
            if i > start {
                let t = s.substring_char(start, i).to_owned();
                proof {
                    let cur = s@.subrange(start as int, i as int);
                    assert(cur.len() > 0);
                    assert(views_of(toks@.push(t)) =~= views_of(toks@).push(cur));
                }
                toks.push(t);
            } else {
                proof {
                    assert(s@.subrange(start as int, i as int).len() == 0);
                }
            }
            start = i + 1;
            proof {
                assert(s@.subrange(start as int, start as int) =~= Seq::<char>::empty());
            }
        } else {
            proof {
                assert(s@.subrange(start as int, i as int).push(s@[i as int]) =~= s@.subrange(
                    start as int,
                    i + 1,
                ));
            }
        }
        i = i + 1;
    }
    proof {
        assert(s@.skip(n as int).len() == 0);
    }
    if start < n {
        let t = s.substring_char(start, n).to_owned();
        proof {
            let cur = s@.subrange(start as int, n as int);
            assert(cur.len() > 0);
            assert(views_of(toks@.push(t)) =~= views_of(toks@).push(cur));
        }
        toks.push(t);
    } else {
        proof {
            assert(s@.subrange(start as int, n as int).len() == 0);
        }
    }
    toks
}

/// The resolved path of `rel` against `base`: `rel` itself when absolute,
/// otherwise `base` extended with a separator and `rel`.
pub open spec fn spec_join(base: Seq<char>, rel: Seq<char>) -> Seq<char> {
    if rel.len() > 0 && rel[0] == '/' {
        rel
    } else if base.len() > 0 && base[base.len() - 1] == '/' {
        base + rel
    } else {
        base + seq!['/'] + rel
    }
}

/// Join a relative path onto a base directory.
pub fn join_path(base: &str, rel: &str) -> (r: String)
    ensures
        r@ == spec_join(base@, rel@),
{
    let rl = rel.unicode_len();
    if rl > 0 && rel.get_char(0) == '/' {
        return rel.to_owned();
    }
    let bl = base.unicode_len();
    let mut r = base.to_owned();
    if !(bl > 0 && base.get_char(bl - 1) == '/') {
        proof {
            reveal_strlit("/");
        }
        r.append("/");
        proof {
            assert(("/")@ =~= seq!['/']);
        }
    }
    r.append(rel);
    r
}

/// Whether some string of `v` has the view `x@`.
pub fn contains_string(v: &Vec<String>, x: &String) -> (r: bool)
    ensures
        r == views_of(v@).contains(x@),
{
    let mut i: usize = 0;
    while i < v.len()
        invariant
            i <= v@.len(),
            forall|j: int| 0 <= j < i ==> views_of(v@)[j] != x@,
        decreases v@.len() - i,
    {
        if x.eq(&v[i]) {
            proof {
                assert(views_of(v@)[i as int] == x@);
            }
            return true;
        }
        i = i + 1;
    }
    proof {
        assert(forall|j: int| 0 <= j < views_of(v@).len() ==> views_of(v@)[j] != x@);
    }
    false
}

/// Whether `v` holds the status `x`.
pub fn contains_i32(v: &Vec<i32>, x: i32) -> (r: bool)
    ensures
        r == v@.contains(x),
{
    let mut i: usize = 0;
    while i < v.len()
        invariant
            i <= v@.len(),
            forall|j: int| 0 <= j < i ==> v@[j] != x,
        decreases v@.len() - i,
    {
        if v[i] == x {
            return true;
        }
        i = i + 1;
    }
    false
}

} // verus!
