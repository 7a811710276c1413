//! Utility functions for commands.

use vstd::prelude::*;
use crate::binary_install::path::{trim_trailing, seg_start};
use crate::text::{to_chars, from_chars, split_chars, split_seq, chars_eq, push_decimal,
    push_decimal_pad2, decimal, decimal_pad2, lemma_split_nonempty};

verus! {

/// If an explicit path is given, then use it, otherwise the crate path that
/// searching up from the current directory found.
pub fn get_crate_path(path: Option<String>, found_from_cwd: String) -> (r: String)
    ensures
        match path {
            Some(p) => r == p,
            None => r == found_from_cwd,
        },
{
    match path {
        Some(p) => p,
        None => found_from_cwd,
    }
}

/// The parent of `p` (`Path::parent`): `p` without its last component, or
/// none for the root and the empty path.
pub open spec fn parent_of(p: Seq<char>) -> Option<Seq<char>> {
    let t = trim_trailing(p);
    if t.len() == 0 || t == seq!['/'] {
        None
    } else {
        Some(trim_trailing(t.take(seg_start(t) as int)))
    }
}

/// The parent of `path`, if it has one (`Path::parent`).
pub fn parent(path: &str) -> (r: Option<String>)
    ensures
        match parent_of(path@) {
            Some(q) => r matches Some(s) && s@ == q,
            None => r is None,
        },
{
    let p = to_chars(path);
    let t = trim(&p);
    if t.len() == 0 || (t.len() == 1 && t[0] == '/') {
        if t.len() == 1 {
            assert(t@ =~= seq!['/']);
        }
        return None;
    }
    proof {
        if t@ == seq!['/'] {
            assert(t@.len() == 1);
        }
    }
    let k = seg_start_of(&t);
    let head = crate::binary_install::path::slice_of(&t, 0, k);
    assert(head@ =~= t@.take(k as int));
    let r = trim(&head);
    Some(from_chars(&r))
}

/// `p` without trailing `/` and `/.`.
fn trim(p: &Vec<char>) -> (r: Vec<char>)
    ensures
        r@ == trim_trailing(p@),
{
    let mut n = p.len();
    assert(p@.take(n as int) =~= p@);
    while n > 1 && (p[n - 1] == '/' || (p[n - 1] == '.' && p[n - 2] == '/'))
        invariant
            n <= p.len(),
            trim_trailing(p@.take(n as int)) == trim_trailing(p@),
        decreases n,
    {
        assert(p@.take(n as int).drop_last() =~= p@.take(n - 1));
        n = n - 1;
    }
    let r = crate::binary_install::path::slice_of(p, 0, n);
    assert(r@ =~= p@.take(n as int));
    r
}

/// Where the last segment of `t` starts.
fn seg_start_of(t: &Vec<char>) -> (k: usize)
    ensures
        k as nat == seg_start(t@),
        k <= t.len(),
{
    let mut k = t.len();
    assert(t@.take(k as int) =~= t@);
    while k > 0 && t[k - 1] != '/'
        invariant
            k <= t.len(),
            seg_start(t@) == seg_start(t@.take(k as int)),
        decreases k,
    {
        assert(t@.take(k as int).drop_last() =~= t@.take(k - 1));
        k = k - 1;
    }
    k
}

/// The component that stands for the root directory.
pub open spec fn root_component() -> Seq<char> {
    seq!['/']
}

/// Whether a `/`-separated piece is a normal component (not empty and not
/// `.`).
pub open spec fn is_normal_piece(s: Seq<char>) -> bool {
    s.len() > 0 && s != seq!['.']
}

/// The normal components among `ps`, in order.
pub open spec fn normal_pieces(ps: Seq<Seq<char>>) -> Seq<Seq<char>>
    decreases ps.len(),
{
    if ps.len() == 0 {
        Seq::<Seq<char>>::empty()
    } else if is_normal_piece(ps.last()) {
        normal_pieces(ps.drop_last()).push(ps.last())
    } else {
        normal_pieces(ps.drop_last())
    }
}

/// The components of `p` (`Path::components`): the root directory for an
/// absolute path, `.` for a path starting with `./`, then its normal parts.
pub open spec fn components_of(p: Seq<char>) -> Seq<Seq<char>> {
    let head = if p.len() > 0 && p[0] == '/' {
        seq![root_component()]
    } else if p.len() > 0 && p[0] == '.' && (p.len() == 1 || p[1] == '/') {
        seq![seq!['.']]
    } else {
        Seq::<Seq<char>>::empty()
    };
    head + normal_pieces(split_seq(p, '/'))
}

/// The components of `child` are the last components of `p`
/// (`Path::ends_with`).
pub open spec fn path_ends_with(p: Seq<char>, child: Seq<char>) -> bool {
    let a = components_of(p);
    let b = components_of(child);
    b.len() <= a.len() && a.subrange(a.len() - b.len(), a.len() as int) == b
}

/// The components of `path`.
fn components(path: &str) -> (r: Vec<Vec<char>>)
    ensures
        r@.len() == components_of(path@).len(),
        forall|i: int| 0 <= i < r@.len() ==> #[trigger] r@[i]@ == components_of(path@)[i],
{
    let p = to_chars(path);
    let mut r: Vec<Vec<char>> = Vec::new();
    let ghost head: Seq<Seq<char>>;
    if p.len() > 0 && p[0] == '/' {
        let mut root: Vec<char> = Vec::new();
        root.push('/');
        r.push(root);
        proof {
            head = seq![root_component()];
            assert(r@[0]@ =~= root_component());
        }
    } else if p.len() > 0 && p[0] == '.' && (p.len() == 1 || p[1] == '/') {
        let mut cur: Vec<char> = Vec::new();
        cur.push('.');
        r.push(cur);
        proof {
            head = seq![seq!['.']];
            assert(r@[0]@ =~= seq!['.']);
        }
    } else {
        proof {
            head = Seq::<Seq<char>>::empty();
        }
    }
    let pieces = split_chars(&p, '/');
    let ghost ps = split_seq(p@, '/');
    let h = r.len();
    let mut i: usize = 0;
    while i < pieces.len()
        invariant
            i <= pieces.len() == ps.len(),
            ps == split_seq(p@, '/'),
            forall|k: int| 0 <= k < ps.len() ==> #[trigger] pieces@[k]@ == ps[k],
            h == head.len(),
            r@.len() == h + normal_pieces(ps.take(i as int)).len(),
            forall|k: int| 0 <= k < h ==> #[trigger] r@[k]@ == head[k],
            forall|k: int| 0 <= k < normal_pieces(ps.take(i as int)).len() ==> #[trigger] r@[h + k]@
                == normal_pieces(ps.take(i as int))[k],
        decreases pieces.len() - i,
    {
        assert(ps.take(i + 1).drop_last() =~= ps.take(i as int));
        assert(ps.take(i + 1).last() == ps[i as int]);
        let keep = pieces[i].len() > 0 && !(pieces[i].len() == 1 && pieces[i][0] == '.');
        proof {
            if pieces@[i as int]@.len() == 1 {
                if pieces@[i as int]@[0] == '.' {
                    assert(pieces@[i as int]@ =~= seq!['.']);
                } else {
                    assert(pieces@[i as int]@ != seq!['.']);
                }
            }
        }
        if keep {
            r.push(pieces[i].clone());
        }
        i = i + 1;
    }
    assert(ps.take(i as int) =~= ps);
    assert forall|k: int| 0 <= k < r@.len() implies #[trigger] r@[k]@ == components_of(path@)[k] by {
        if k >= h {
            assert(r@[h + (k - h)]@ == normal_pieces(ps)[k - h]);
        }
    }
    r
}

/// Whether the components of `child` are the last components of `path`.
pub fn ends_with(path: &str, child: &str) -> (r: bool)
    ensures
        r == path_ends_with(path@, child@),
{
    let a = components(path);
    let b = components(child);
    let ghost av = components_of(path@);
    let ghost bv = components_of(child@);
    if b.len() > a.len() {
        return false;
    }
    let off = a.len() - b.len();
    let mut i: usize = 0;
    while i < b.len()
        invariant
            av == components_of(path@),
            bv == components_of(child@),
            off + b.len() == a.len(),
            a@.len() == av.len(),
            b@.len() == bv.len(),
            forall|k: int| 0 <= k < a@.len() ==> #[trigger] a@[k]@ == av[k],
            forall|k: int| 0 <= k < b@.len() ==> #[trigger] b@[k]@ == bv[k],
            i <= b.len(),
            forall|k: int| 0 <= k < i ==> av[off + k] == bv[k],
        decreases b.len() - i,
    {
        if !chars_eq(&a[off + i], &b[i]) {
            assert(av.subrange(off as int, av.len() as int)[i as int] != bv[i as int]);
            assert(av.subrange(off as int, av.len() as int) != bv);
            return false;
        }
        i = i + 1;
    }
    assert(av.subrange(off as int, av.len() as int) =~= bv);
    true
}

/// Whether `path` is the package directory: it exists, is a directory, and
/// ends with `pkg_directory`.
pub fn is_pkg_directory(exists: bool, is_dir: bool, path: &str, pkg_directory: &str) -> (r: bool)
    ensures
        r == (exists && is_dir && path_ends_with(path@, pkg_directory@)),
{
    exists && is_dir && ends_with(path, pkg_directory)
}

/// How `elapsed` renders a duration of `secs` seconds and `nanos`
/// nanoseconds.
pub open spec fn elapsed_of(secs: nat, nanos: nat) -> Seq<char> {
    if secs >= 60 {
        decimal(secs / 60) + "m "@ + decimal_pad2(secs % 60) + "s"@
    } else {
        decimal(secs) + "."@ + decimal_pad2(nanos / 10_000_000) + "s"@
    }
}

/// Render a duration of `secs` whole seconds and `subsec_nanos` nanoseconds
/// for display on a console: minutes and seconds from a minute on, seconds
/// and hundredths below.
pub fn elapsed(secs: u64, subsec_nanos: u32) -> (r: String)
    ensures
        r@ == elapsed_of(secs as nat, subsec_nanos as nat),
{
    let mut v: Vec<char> = Vec::new();
    if secs >= 60 {
        push_decimal(&mut v, secs / 60);
        v.push('m');
        v.push(' ');
        push_decimal_pad2(&mut v, secs % 60);
        v.push('s');
        proof {
            reveal_strlit("m ");
            reveal_strlit("s");
        }
    } else {
        push_decimal(&mut v, secs);
        v.push('.');
        push_decimal_pad2(&mut v, (subsec_nanos / 10_000_000) as u64);
        v.push('s');
        proof {
            reveal_strlit(".");
            reveal_strlit("s");
        }
    }
    assert(v@ =~= elapsed_of(secs as nat, subsec_nanos as nat));
    from_chars(&v)
}

} // verus!
