//! The installer page: its templates get the version of the package.

use vstd::prelude::*;
use crate::binary_install::path::slice_of;
use crate::text::{to_chars, from_chars, push_all, occurs_at, occurs_at_exec, starts_with_seq,
    chars_starts_with, split_seq, split_chars};

verus! {

/// `s` with every match of `pat`, found left to right without overlap,
/// replaced by `rep` (`str::replace`, for a non-empty pattern).
pub open spec fn replace_all(s: Seq<char>, pat: Seq<char>, rep: Seq<char>) -> Seq<char>
    decreases s.len(),
{
    if s.len() == 0 || pat.len() == 0 {
        s
    } else if occurs_at(s, pat, 0) {
        rep + replace_all(s.skip(pat.len() as int), pat, rep)
    } else {
        seq![s[0]] + replace_all(s.skip(1), pat, rep)
    }
}

/// Replaces every match of a non-empty `pat` in `s` by `rep`.
fn replace_chars(s: &Vec<char>, pat: &Vec<char>, rep: &Vec<char>) -> (r: Vec<char>)
    requires
        pat@.len() > 0,
    ensures
        r@ == replace_all(s@, pat@, rep@),
{
    let mut out: Vec<char> = Vec::new();
    let mut i: usize = 0;
    assert(s@.skip(0) =~= s@);
    while i < s.len()
        invariant
            i <= s.len(),
            pat@.len() > 0,
            out@ + replace_all(s@.skip(i as int), pat@, rep@) == replace_all(s@, pat@, rep@),
        decreases s.len() - i,
    {
        let ghost rest = s@.skip(i as int);
        if occurs_at_exec(s, pat, i) {
            proof {
                assert(rest.subrange(0, pat@.len() as int) =~= s@.subrange(i as int, i + pat@.len()));
                assert(occurs_at(rest, pat@, 0));
                assert(rest.skip(pat@.len() as int) =~= s@.skip(i + pat@.len()));
            }
            let ghost before = out@;
            push_all(&mut out, rep);
            assert(before + (rep@ + replace_all(s@.skip(i + pat@.len()), pat@, rep@))
                =~= out@ + replace_all(s@.skip(i + pat@.len()), pat@, rep@));
            i = i + pat.len();
        } else {
            proof {
                if occurs_at(rest, pat@, 0) {
                    assert(rest.subrange(0, pat@.len() as int) =~= s@.subrange(i as int, i + pat@.len()));
                }
                assert(rest.skip(1) =~= s@.skip(i + 1));
            }
            let ghost before = out@;
            out.push(s[i]);
            assert(before + (seq![s@[i as int]] + replace_all(s@.skip(i + 1), pat@, rep@))
                =~= out@ + replace_all(s@.skip(i + 1), pat@, rep@));
            i = i + 1;
        }
    }
    assert(s@.skip(i as int) =~= Seq::<char>::empty());
    assert(out@ + Seq::<char>::empty() =~= out@);
    out
}

/// A template with `$VERSION` replaced by `v` and the package's version.
pub fn fixup(input: &str, version: &str) -> (r: String)
    ensures
        r@ == replace_all(input@, "$VERSION"@, seq!['v'] + version@),
{
    let s = to_chars(input);
    let pat = to_chars("$VERSION");
    let mut rep: Vec<char> = Vec::new();
    rep.push('v');
    let vs = to_chars(version);
    push_all(&mut rep, &vs);
    proof {
        reveal_strlit("$VERSION");
    }
    assert(rep@ =~= seq!['v'] + version@);
    let out = replace_chars(&s, &pat, &rep);
    from_chars(&out)
}

/// The first line of `ls` that starts with `version =`.
pub open spec fn version_line(ls: Seq<Seq<char>>) -> Option<Seq<char>>
    decreases ls.len(),
{
    if ls.len() == 0 {
        None
    } else if starts_with_seq(ls[0], "version ="@) {
        Some(ls[0])
    } else {
        version_line(ls.drop_first())
    }
}

/// Where `c` first occurs in `l`, or -1.
pub open spec fn first_index_of(l: Seq<char>, c: char) -> int
    decreases l.len(),
{
    if l.len() == 0 {
        -1
    } else if l[0] == c {
        0
    } else {
        let k = first_index_of(l.drop_first(), c);
        if k < 0 { -1 } else { k + 1 }
    }
}

/// Where `c` last occurs in `l`, or -1.
pub open spec fn last_index_of(l: Seq<char>, c: char) -> int
    decreases l.len(),
{
    if l.len() == 0 {
        -1
    } else if l.last() == c {
        l.len() - 1
    } else {
        last_index_of(l.drop_last(), c)
    }
}

/// The version a `Cargo.toml` text gives: what is between the first and the
/// last `"` of its first line that starts with `version =`; none when there
/// is no such line or it has fewer than two quotes.
pub open spec fn manifest_version_of(manifest: Seq<char>) -> Option<Seq<char>> {
    match version_line(split_seq(manifest, '\n')) {
        None => None,
        Some(l) => {
            let a = first_index_of(l, '"');
            let b = last_index_of(l, '"');
            if 0 <= a && a < b { Some(l.subrange(a + 1, b)) } else { None }
        },
    }
}

proof fn lemma_first_index_of(l: Seq<char>, c: char)
    ensures
        -1 <= first_index_of(l, c) < l.len(),
        first_index_of(l, c) >= 0 ==> l[first_index_of(l, c)] == c,
        forall|k: int| 0 <= k < l.len() && (first_index_of(l, c) < 0 || k < first_index_of(l, c)) ==> l[k] != c,
    decreases l.len(),
{
    if l.len() > 0 && l[0] != c {
        lemma_first_index_of(l.drop_first(), c);
        assert forall|k: int| 0 <= k < l.len() && (first_index_of(l, c) < 0 || k < first_index_of(l, c))
            implies l[k] != c by {
            if k > 0 {
                assert(l[k] == l.drop_first()[k - 1]);
            }
        }
    }
}

proof fn lemma_last_index_of(l: Seq<char>, c: char)
    ensures
        -1 <= last_index_of(l, c) < l.len(),
        last_index_of(l, c) >= 0 ==> l[last_index_of(l, c)] == c,
        forall|k: int| last_index_of(l, c) < k < l.len() ==> l[k] != c,
    decreases l.len(),
{
    if l.len() > 0 && l.last() != c {
        lemma_last_index_of(l.drop_last(), c);
        assert forall|k: int| last_index_of(l, c) < k < l.len() implies l[k] != c by {
            if k < l.len() - 1 {
                assert(l[k] == l.drop_last()[k]);
            }
        }
    }
}

/// The version a `Cargo.toml` text gives, if its version line has one.
pub fn manifest_version(manifest: &str) -> (r: Option<String>)
    ensures
        match manifest_version_of(manifest@) {
            Some(v) => r matches Some(s) && s@ == v,
            None => r is None,
        },
{
    let text = to_chars(manifest);
    let lines = split_chars(&text, '\n');
    let ghost ls = split_seq(manifest@, '\n');
    let prefix = to_chars("version =");
    proof {
        reveal_strlit("version =");
    }
    let mut i: usize = 0;
    assert(ls.skip(0) =~= ls);
    while i < lines.len() && !chars_starts_with(&lines[i], &prefix)
        invariant
            i <= lines.len() == ls.len(),
            ls == split_seq(manifest@, '\n'),
            forall|k: int| 0 <= k < ls.len() ==> #[trigger] lines@[k]@ == ls[k],
            prefix@ == "version ="@,
            version_line(ls.skip(i as int)) == version_line(ls),
        decreases lines.len() - i,
    {
        assert(ls.skip(i as int).drop_first() =~= ls.skip(i + 1));
        assert(ls.skip(i as int)[0] == ls[i as int]);
        i = i + 1;
    }
    if i == lines.len() {
        assert(ls.skip(i as int) =~= Seq::<Seq<char>>::empty());
        return None;
    }
    assert(ls.skip(i as int)[0] == ls[i as int]);
    assert(starts_with_seq(lines@[i as int]@, prefix@));
    let line = &lines[i];
    let ghost l = line@;
    assert(version_line(ls) == Some(l));
    proof {
        lemma_first_index_of(l, '"');
        lemma_last_index_of(l, '"');
    }
    let mut a: usize = 0;
    while a < line.len() && line[a] != '"'
        invariant
            a <= line.len(),
            l == line@,
            forall|k: int| 0 <= k < a ==> l[k] != '"',
        decreases line.len() - a,
    {
        a = a + 1;
    }
    if a == line.len() {
        return None;
    }
    let mut b: usize = line.len();
    while b > 0 && line[b - 1] != '"'
        invariant
            b <= line.len(),
            l == line@,
            forall|k: int| b <= k < l.len() ==> l[k] != '"',
        decreases b,
    {
        b = b - 1;
    }
    proof {
        let fi = first_index_of(l, '"');
        assert(l[a as int] == '"');
        if fi >= 0 && fi != a {
            assert(l[fi] == '"');
        }
        assert(fi == a);
    }
    proof {
        let li = last_index_of(l, '"');
        if b > 0 {
            assert(l[b - 1] == '"');
            if li >= 0 && li != b - 1 {
                assert(l[li] == '"');
            }
        } else if li >= 0 {
            assert(l[li] == '"');
        }
        assert(li == b - 1);
    }
    if a + 1 >= b {
        return None;
    }
    let v = slice_of(line, a + 1, b - 1);
    Some(from_chars(&v))
}

} // verus!
