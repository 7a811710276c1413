//! Paths of the binaries that a crate installs locally, and the `/`-separated
//! path arithmetic (join, file name, file stem, extension) they rest on.
//!
//! Paths are held as text. The operations follow `std::path` on Unix: `/` is
//! the only separator, a joined absolute path replaces the base, and trailing
//! `/` and `/.` do not change a path's file name.

use vstd::prelude::*;
use crate::text::{to_chars, from_chars, push_all};

verus! {

// ---------------------------------------------------------------------------
// Model
// ---------------------------------------------------------------------------

/// `base` joined with `comp` (`Path::join`).
pub open spec fn path_join(base: Seq<char>, comp: Seq<char>) -> Seq<char> {
    if comp.len() > 0 && comp[0] == '/' {
        comp
    } else if base.len() == 0 {
        comp
    } else if base.last() == '/' {
        base + comp
    } else {
        base + seq!['/'] + comp
    }
}

/// `p` without trailing `/` and `/.` (a lone `/` or `.` stays).
pub open spec fn trim_trailing(p: Seq<char>) -> Seq<char>
    decreases p.len(),
{
    if p.len() > 1 && p.last() == '/' {
        trim_trailing(p.drop_last())
    } else if p.len() > 1 && p.last() == '.' && p[p.len() - 2] == '/' {
        trim_trailing(p.drop_last())
    } else {
        p
    }
}

/// Where the last `/`-separated segment of `p` starts.
pub open spec fn seg_start(p: Seq<char>) -> nat
    decreases p.len(),
{
    if p.len() == 0 {
        0
    } else if p.last() == '/' {
        p.len()
    } else {
        seg_start(p.drop_last())
    }
}

/// The last segment of `p`, after trailing `/` and `/.` are dropped.
pub open spec fn last_segment(p: Seq<char>) -> Seq<char> {
    let t = trim_trailing(p);
    t.subrange(seg_start(t) as int, t.len() as int)
}

/// The final component of `p`, if it is a normal one (`Path::file_name`).
pub open spec fn file_name_of(p: Seq<char>) -> Option<Seq<char>> {
    let seg = last_segment(p);
    if seg.len() == 0 || seg == seq!['.'] || seg == seq!['.', '.'] {
        None
    } else {
        Some(seg)
    }
}

/// Index of the last `.` in `s`, or -1.
pub open spec fn last_dot(s: Seq<char>) -> int
    decreases s.len(),
{
    if s.len() == 0 {
        -1
    } else if s.last() == '.' {
        s.len() - 1
    } else {
        last_dot(s.drop_last())
    }
}

/// Length of the stem of the file name `name`: up to its last `.`, unless
/// that `.` is its first character or it has none.
pub open spec fn stem_len(name: Seq<char>) -> nat {
    if last_dot(name) <= 0 { name.len() } else { last_dot(name) as nat }
}

/// The file name of `p` without its extension (`Path::file_stem`).
pub open spec fn file_stem_of(p: Seq<char>) -> Option<Seq<char>> {
    match file_name_of(p) {
        Some(n) => Some(n.take(stem_len(n) as int)),
        None => None,
    }
}

/// `p` with its extension replaced by `ext`, or removed when `ext` is empty
/// (`PathBuf::set_extension`); unchanged when `p` has no file name.
pub open spec fn with_extension_of(p: Seq<char>, ext: Seq<char>) -> Seq<char> {
    match file_name_of(p) {
        None => p,
        Some(n) => {
            let t = trim_trailing(p);
            let keep = t.take((seg_start(t) + stem_len(n)) as int);
            if ext.len() == 0 { keep } else { keep + seq!['.'] + ext }
        },
    }
}

/// `s` contains no `/`.
pub open spec fn no_separator(s: Seq<char>) -> bool {
    forall|i: int| 0 <= i < s.len() ==> s[i] != '/'
}

/// The directory of a crate's locally installed binaries: `$CRATE/bin`.
pub open spec fn local_bin_dir_of(crate_path: Seq<char>) -> Seq<char> {
    path_join(crate_path, seq!['b', 'i', 'n'])
}

/// Where `bin` is installed locally: `$CRATE/bin/$BIN`, with the `exe`
/// extension on Windows.
pub open spec fn local_bin_path_of(crate_path: Seq<char>, bin: Seq<char>, windows: bool) -> Seq<char> {
    let p = path_join(local_bin_dir_of(crate_path), bin);
    if windows { with_extension_of(p, seq!['e', 'x', 'e']) } else { p }
}

// ---------------------------------------------------------------------------
// Lemmas
// ---------------------------------------------------------------------------

proof fn lemma_seg_start_bound(p: Seq<char>)
    ensures
        seg_start(p) <= p.len(),
        seg_start(p) > 0 ==> p[seg_start(p) - 1] == '/',
        forall|i: int| seg_start(p) <= i < p.len() ==> p[i] != '/',
    decreases p.len(),
{
    if p.len() > 0 && p.last() != '/' {
        lemma_seg_start_bound(p.drop_last());
        assert forall|i: int| seg_start(p) <= i < p.len() implies p[i] != '/' by {
            if i < p.len() - 1 {
                assert(p[i] == p.drop_last()[i]);
            }
        }
    }
}

proof fn lemma_seg_start_of_no_sep(prefix: Seq<char>, name: Seq<char>)
    requires
        no_separator(name),
        prefix.len() == 0 || prefix.last() == '/',
    ensures
        seg_start(prefix + name) == prefix.len(),
    decreases name.len(),
{
    if name.len() == 0 {
        assert(prefix + name =~= prefix);
    } else {
        assert((prefix + name).drop_last() =~= prefix + name.drop_last());
        lemma_seg_start_of_no_sep(prefix, name.drop_last());
    }
}

/// What `path_join` puts before a relative component: the base, with a `/`
/// unless it is empty or already ends in one.
spec fn join_prefix(base: Seq<char>) -> Seq<char> {
    if base.len() == 0 {
        Seq::<char>::empty()
    } else if base.last() == '/' {
        base
    } else {
        base + seq!['/']
    }
}

/// Joining a plain name: the name follows the prefix, nothing is trimmed,
/// and the last segment starts where the name does.
proof fn lemma_join_plain(base: Seq<char>, name: Seq<char>)
    requires
        name.len() > 0,
        no_separator(name),
        name != seq!['.'],
        name != seq!['.', '.'],
    ensures
        path_join(base, name) == join_prefix(base) + name,
        trim_trailing(path_join(base, name)) == path_join(base, name),
        seg_start(path_join(base, name)) == join_prefix(base).len(),
{
    let p = path_join(base, name);
    let prefix = join_prefix(base);
    assert(p =~= prefix + name);
    assert(p.last() == name.last());
    assert(name.last() != '/');
    if name.len() > 1 {
        assert(p[p.len() - 2] == name[name.len() - 2]);
        assert(name[name.len() - 2] != '/');
    } else {
        assert(name[0] != '.') by {
            if name[0] == '.' {
                assert(name =~= seq!['.']);
            }
        }
    }
    assert(trim_trailing(p) == p);
    lemma_seg_start_of_no_sep(prefix, name);
}

/// Joining a plain name onto a path gives a path whose file name is that
/// name.
pub proof fn lemma_join_file_name(base: Seq<char>, name: Seq<char>)
    requires
        name.len() > 0,
        no_separator(name),
        name != seq!['.'],
        name != seq!['.', '.'],
    ensures
        file_name_of(path_join(base, name)) == Some(name),
{
    lemma_join_plain(base, name);
    let p = path_join(base, name);
    assert(p.subrange(join_prefix(base).len() as int, p.len() as int) =~= name);
}

/// A locally installed binary's file name is the binary's name; on Windows
/// it is the name's stem with the `exe` extension.
pub proof fn lemma_local_bin_path_file_name(crate_path: Seq<char>, bin: Seq<char>)
    requires
        bin.len() > 0,
        no_separator(bin),
        bin != seq!['.'],
        bin != seq!['.', '.'],
    ensures
        file_name_of(local_bin_path_of(crate_path, bin, false)) == Some(bin),
        file_name_of(local_bin_path_of(crate_path, bin, true))
            == Some(bin.take(stem_len(bin) as int) + seq!['.', 'e', 'x', 'e']),
{
    let dir = local_bin_dir_of(crate_path);
    lemma_join_file_name(dir, bin);
    lemma_join_plain(dir, bin);
    lemma_last_dot_bound(bin);
    let stem = bin.take(stem_len(bin) as int);
    let named = stem + seq!['.', 'e', 'x', 'e'];
    assert(named.len() > 2);
    assert(named != seq!['.'] && named != seq!['.', '.']);
    assert(no_separator(named)) by {
        assert forall|i: int| 0 <= i < named.len() implies named[i] != '/' by {
            if i < stem.len() {
                assert(named[i] == bin[i]);
            }
        }
    }
    let p = path_join(dir, bin);
    let keep = p.take((seg_start(p) + stem_len(bin)) as int);
    assert(keep =~= join_prefix(dir) + stem);
    assert(with_extension_of(p, seq!['e', 'x', 'e']) =~= keep + seq!['.'] + seq!['e', 'x', 'e']);
    lemma_join_plain(dir, named);
    assert(keep + seq!['.'] + seq!['e', 'x', 'e'] =~= join_prefix(dir) + named);
    lemma_join_file_name(dir, named);
}

// ---------------------------------------------------------------------------
// Executable path operations
// ---------------------------------------------------------------------------

/// `base` joined with `comp` (`Path::join`).
pub fn join(base: &str, comp: &str) -> (r: String)
    ensures
        r@ == path_join(base@, comp@),
{
    let b = to_chars(base);
    let c = to_chars(comp);
    if c.len() > 0 && c[0] == '/' {
        return from_chars(&c);
    }
    if b.len() == 0 {
        return from_chars(&c);
    }
    let mut out = b.clone();
    if b[b.len() - 1] != '/' {
        out.push('/');
    }
    push_all(&mut out, &c);
    from_chars(&out)
}

/// The length of `p` once trailing `/` and `/.` are dropped.
fn trimmed_len(p: &[char]) -> (n: usize)
    ensures
        n <= p.len(),
        p@.take(n as int) == trim_trailing(p@),
{
    let mut n = p.len();
    assert(p@.take(n as int) =~= p@);
    while n > 1 && (p[n - 1] == '/' || (p[n - 1] == '.' && p[n - 2] == '/'))
        invariant
            n <= p.len(),
            trim_trailing(p@.take(n as int)) == trim_trailing(p@),
        decreases n,
    {
        assert(p@.take(n as int).drop_last() =~= p@.take(n - 1));
        n = n - 1;
    }
    n
}

/// Where the last segment of `p.take(end)` starts.
fn seg_start_in(p: &[char], end: usize) -> (s: usize)
    requires
        end <= p.len(),
    ensures
        s as nat == seg_start(p@.take(end as int)),
{
    let mut k = end;
    while k > 0 && p[k - 1] != '/'
        invariant
            k <= end <= p.len(),
            seg_start(p@.take(end as int)) == seg_start(p@.take(k as int)),
        decreases k,
    {
        assert(p@.take(k as int).drop_last() =~= p@.take(k - 1));
        k = k - 1;
    }
    k
}

/// Index of the last `.` in `s`, or `None`.
fn last_dot_in(s: &[char]) -> (r: Option<usize>)
    ensures
        match r {
            Some(k) => last_dot(s@) == k as int,
            None => last_dot(s@) == -1,
        },
{
    let mut k = s.len();
    assert(s@.take(k as int) =~= s@);
    while k > 0 && s[k - 1] != '.'
        invariant
            k <= s.len(),
            last_dot(s@.take(k as int)) == last_dot(s@),
        decreases k,
    {
        assert(s@.take(k as int).drop_last() =~= s@.take(k - 1));
        k = k - 1;
    }
    if k == 0 {
        None
    } else {
        Some(k - 1)
    }
}

/// Positions `(start, end)` in `p` of its file name, if it has one.
fn file_name_span(p: &[char]) -> (r: Option<(usize, usize)>)
    ensures
        match r {
            Some((a, b)) => a <= b <= p.len() && file_name_of(p@) == Some(p@.subrange(a as int, b as int))
                && a == seg_start(trim_trailing(p@)) && p@.take(b as int) == trim_trailing(p@),
            None => file_name_of(p@) is None,
        },
{
    let end = trimmed_len(p);
    let start = seg_start_in(p, end);
    let ghost t = trim_trailing(p@);
    proof {
        lemma_seg_start_bound(t);
    }
    assert(t.subrange(start as int, end as int) =~= p@.subrange(start as int, end as int));
    let len = end - start;
    if len == 0 {
        return None;
    }
    if len == 1 && p[start] == '.' {
        assert(p@.subrange(start as int, end as int) =~= seq!['.']);
        return None;
    }
    if len == 2 && p[start] == '.' && p[start + 1] == '.' {
        assert(p@.subrange(start as int, end as int) =~= seq!['.', '.']);
        return None;
    }
    proof {
        let seg = p@.subrange(start as int, end as int);
        if len == 1 {
            assert(seg != seq!['.']) by {
                assert(seg[0] != '.');
            }
        }
        if len == 2 {
            assert(seg != seq!['.', '.']) by {
                assert(seg[0] != '.' || seg[1] != '.');
            }
        }
    }
    Some((start, end))
}

/// The file name of `path` (`Path::file_name`).
pub fn file_name(path: &str) -> (r: Option<String>)
    ensures
        match r {
            Some(n) => file_name_of(path@) == Some(n@),
            None => file_name_of(path@) is None,
        },
{
    let p = to_chars(path);
    match file_name_span(&p) {
        Some((a, b)) => {
            let seg = slice_of(&p, a, b);
            Some(from_chars(&seg))
        },
        None => None,
    }
}

/// The file stem of `path` (`Path::file_stem`).
pub fn file_stem(path: &str) -> (r: Option<String>)
    ensures
        match r {
            Some(n) => file_stem_of(path@) == Some(n@),
            None => file_stem_of(path@) is None,
        },
{
    let p = to_chars(path);
    match file_name_span(&p) {
        Some((a, b)) => {
            let name = slice_of(&p, a, b);
            let n = stem_len_exec(&name);
            let stem = slice_of(&name, 0, n);
            assert(stem@ =~= name@.take(n as int));
            Some(from_chars(&stem))
        },
        None => None,
    }
}

/// The stem length of a file name.
fn stem_len_exec(name: &[char]) -> (n: usize)
    ensures
        n as nat == stem_len(name@),
        n <= name.len(),
{
    proof {
        lemma_last_dot_bound(name@);
    }
    match last_dot_in(name) {
        Some(k) => if k == 0 { name.len() } else { k },
        None => name.len(),
    }
}

proof fn lemma_last_dot_bound(s: Seq<char>)
    ensures
        -1 <= last_dot(s) < s.len(),
    decreases s.len(),
{
    if s.len() > 0 && s.last() != '.' {
        lemma_last_dot_bound(s.drop_last());
    }
}

/// The characters `v[a..b]`.
pub fn slice_of(v: &[char], a: usize, b: usize) -> (r: Vec<char>)
    requires
        a <= b <= v.len(),
    ensures
        r@ == v@.subrange(a as int, b as int),
{
    let mut r: Vec<char> = Vec::new();
    let mut i = a;
    while i < b
        invariant
            a <= i <= b <= v.len(),
            r@ == v@.subrange(a as int, i as int),
        decreases b - i,
    {
        r.push(v[i]);
        assert(v@.subrange(a as int, i + 1) =~= v@.subrange(a as int, i as int).push(v@[i as int]));
        i = i + 1;
    }
    r
}

/// `path` with its extension replaced by `ext`, or removed when `ext` is
/// empty (`Path::with_extension`).
pub fn with_extension(path: &str, ext: &str) -> (r: String)
    requires
        no_separator(ext@),
    ensures
        r@ == with_extension_of(path@, ext@),
{
    let p = to_chars(path);
    match file_name_span(&p) {
        None => from_chars(&p),
        Some((a, b)) => {
            let name = slice_of(&p, a, b);
            let n = stem_len_exec(&name);
            let mut out = slice_of(&p, 0, a + n);
            proof {
                let t = trim_trailing(p@);
                assert(t == p@.take(b as int));
                assert(out@ =~= t.take((a + n) as int));
            }
            let e = to_chars(ext);
            if e.len() > 0 {
                out.push('.');
                push_all(&mut out, &e);
            }
            from_chars(&out)
        },
    }
}

// ---------------------------------------------------------------------------
// Locally installed binaries
// ---------------------------------------------------------------------------

/// Whether `std::path::MAIN_SEPARATOR` is `\`, as on Windows. It is a
/// property of the platform the program was built for, so nothing is
/// stated of it.
#[verifier::external_body]
fn host_is_windows() -> bool {
    std::path::MAIN_SEPARATOR == '\\'
}

/// Get the path for a crate's directory of locally-installed binaries.
///
/// This does not check whether or ensure that the directory exists.
pub fn local_bin_dir(crate_path: &str) -> (r: String)
    ensures
        r@ == local_bin_dir_of(crate_path@),
{
    let r = join(crate_path, "bin");
    proof {
        reveal_strlit("bin");
    }
    r
}

/// Where `bin` would be with a crate-local install, given whether the host is
/// Windows (which adds the `exe` extension).
pub fn local_bin_path_for(crate_path: &str, bin: &str, windows: bool) -> (r: String)
    ensures
        r@ == local_bin_path_of(crate_path@, bin@, windows),
{
    let dir = local_bin_dir(crate_path);
    let p = join(dir.as_str(), bin);
    if windows {
        proof {
            reveal_strlit("exe");
        }
        with_extension(p.as_str(), "exe")
    } else {
        p
    }
}

/// Get the path for where `bin` would be if we have a crate-local install for
/// it.
///
/// This does *not* check whether there is a file at that path or not.
///
/// This will automatically add the `.exe` extension for windows.
pub fn local_bin_path(crate_path: &str, bin: &str) -> (r: String)
    ensures
        r@ == local_bin_path_of(crate_path@, bin@, false)
            || r@ == local_bin_path_of(crate_path@, bin@, true),
{
    let windows = host_is_windows();
    local_bin_path_for(crate_path, bin, windows)
}

} // verus!
