//! Finding and installing the binaries that the workflow depends on: the
//! global download cache, downloads within it, and the archive entries an
//! installation expects.

pub mod archive;
pub mod error;
pub mod fetch;
pub mod path;

use std::hash::{Hash, Hasher};
use vstd::prelude::*;
use crate::binary_install::path::{join, path_join, with_extension, with_extension_of, file_stem,
    file_stem_of, file_name, file_name_of, no_separator};
use crate::text::{from_chars, push_str, push_all, to_chars, chars_eq, join_seq, views,
    join_strings, str_ends_with, ends_with_seq};

verus! {

// ---------------------------------------------------------------------------
// Outside computations
// ---------------------------------------------------------------------------

/// What a zero-keyed SipHash-1-3 hasher finishes with after hashing the
/// string `s` through its `Hash` impl.
pub uninterp spec fn sip13_str_hash(s: Seq<char>) -> u64;

/// Hashes `s` with `siphasher::sip::SipHasher13::new()` (zero keys) through
/// `str`'s `Hash` impl and returns `finish()`; the value is the named
/// function of `s`.
#[verifier::external_body]
fn sip13_hash_str(s: &str) -> (r: u64)
    ensures
        r == sip13_str_hash(s@),
{
    let mut hasher = siphasher::sip::SipHasher13::new();
    s.hash(&mut hasher);
    hasher.finish()
}

/// The lowercase hexadecimal digit for `n < 16`.
pub open spec fn hex_digit(n: u8) -> char {
    if n < 10 { crate::text::digit_char(n as nat) }
    else if n == 10 { 'a' }
    else if n == 11 { 'b' }
    else if n == 12 { 'c' }
    else if n == 13 { 'd' }
    else if n == 14 { 'e' }
    else { 'f' }
}

/// Each byte of `bs` as two lowercase hexadecimal digits, high nibble first.
pub open spec fn hex_lower(bs: Seq<u8>) -> Seq<char>
    decreases bs.len(),
{
    if bs.len() == 0 {
        Seq::<char>::empty()
    } else {
        hex_lower(bs.drop_last()) + seq![hex_digit(bs.last() >> 4u8), hex_digit(bs.last() & 0x0fu8)]
    }
}

/// `hex::encode`: each byte as two lowercase hexadecimal digits, high nibble
/// first, in order.
#[verifier::external_body]
fn hex_encode(bytes: &[u8]) -> (r: String)
    ensures
        r@ == hex_lower(bytes@),
{
    hex::encode(bytes)
}

/// The eight bytes of `x`, least significant first.
pub open spec fn le_bytes(x: u64) -> Seq<u8> {
    seq![x as u8, (x >> 8u64) as u8, (x >> 16u64) as u8, (x >> 24u64) as u8,
        (x >> 32u64) as u8, (x >> 40u64) as u8, (x >> 48u64) as u8, (x >> 56u64) as u8]
}

/// The name of the cache directory for the download of `url` named `name`:
/// `$NAME-` followed by the hex of the hash of `url`, least significant byte
/// first.
pub open spec fn hashed_dirname_of(url: Seq<char>, name: Seq<char>) -> Seq<char> {
    dirname_of_hash(name, sip13_str_hash(url))
}

/// The name of a cache directory for the download named `name` whose URL
/// hashes to `hash`: `$NAME-` and the hash's bytes in hex, least
/// significant first.
pub open spec fn dirname_of_hash(name: Seq<char>, hash: u64) -> Seq<char> {
    name + seq!['-'] + hex_lower(le_bytes(hash))
}

proof fn lemma_hex_lower_len(bs: Seq<u8>)
    ensures
        hex_lower(bs).len() == 2 * bs.len(),
    decreases bs.len(),
{
    if bs.len() > 0 {
        lemma_hex_lower_len(bs.drop_last());
    }
}

/// A cache directory name is the download's name, a `-` and sixteen hex
/// digits, so it is never empty.
pub proof fn lemma_hashed_dirname_len(url: Seq<char>, name: Seq<char>)
    ensures
        hashed_dirname_of(url, name).len() == name.len() + 17,
{
    lemma_hex_lower_len(le_bytes(sip13_str_hash(url)));
}

/// The cache directory name for a download named `name` whose URL hashes to
/// `hash`.
pub fn dirname_from_hash(name: &str, hash: u64) -> (r: String)
    ensures
        r@ == dirname_of_hash(name@, hash),
        r@.len() == name@.len() + 17,
{
    let bytes: Vec<u8> = vec![
        hash as u8,
        (hash >> 8) as u8,
        (hash >> 16) as u8,
        (hash >> 24) as u8,
        (hash >> 32) as u8,
        (hash >> 40) as u8,
        (hash >> 48) as u8,
        (hash >> 56) as u8,
    ];
    assert(bytes@ =~= le_bytes(hash));
    let hex = hex_encode(&bytes);
    let mut v = to_chars(name);
    v.push('-');
    push_str(&mut v, hex.as_str());
    proof {
        assert(v@ =~= dirname_of_hash(name@, hash));
        lemma_hex_lower_len(le_bytes(hash));
    }
    from_chars(&v)
}

/// The cache directory name for the download of `url` named `name`.
pub fn hashed_dirname(url: &str, name: &str) -> (r: String)
    ensures
        r@ == hashed_dirname_of(url@, name@),
        r@.len() == name@.len() + 17,
{
    let result = sip13_hash_str(url);
    dirname_from_hash(name, result)
}

/// `dirs::cache_dir()`, as text. Which directory that is depends on the
/// platform and the environment, so nothing is stated of it.
#[verifier::external_body]
fn dirs_cache_dir() -> Option<String> {
    dirs::cache_dir().map(|p| p.to_string_lossy().into_owned())
}

/// `dirs::home_dir()`, as text. Which directory that is depends on the
/// platform and the environment, so nothing is stated of it.
#[verifier::external_body]
fn dirs_home_dir() -> Option<String> {
    dirs::home_dir().map(|p| p.to_string_lossy().into_owned())
}

// ---------------------------------------------------------------------------
// Cache and downloads
// ---------------------------------------------------------------------------

/// Global cache for wasm-pack, currently containing binaries downloaded from
/// urls like wasm-bindgen and such.
#[derive(Debug)]
pub struct Cache {
    destination: String,
}

/// Representation of a downloaded tarball/zip
#[derive(Debug)]
pub struct Download {
    root: String,
}

impl View for Cache {
    type V = Seq<char>;

    /// The cache's directory.
    closed spec fn view(&self) -> Seq<char> {
        self.destination@
    }
}

impl View for Download {
    type V = Seq<char>;

    /// The directory the download was extracted into.
    closed spec fn view(&self) -> Seq<char> {
        self.root@
    }
}

/// The message when neither a cache directory nor a home directory is known.
pub open spec fn no_home_message() -> Seq<char> {
    "couldn't find your home directory, is $HOME not set?"@
}

/// The cache directory named `name` under the platform's cache directory, or
/// under the home directory when there is none.
pub open spec fn cache_destination_of(
    name: Seq<char>,
    cache_dir: Option<Seq<char>>,
    home_dir: Option<Seq<char>>,
) -> Option<Seq<char>> {
    match cache_dir {
        Some(c) => Some(path_join(c, seq!['.'] + name)),
        None => match home_dir {
            Some(h) => Some(path_join(h, seq!['.'] + name)),
            None => None,
        },
    }
}

/// How a download of an archive at `url` goes on.
#[derive(Debug)]
pub enum DownloadStep {
    /// The download is already in the cache.
    Cached(Download),
    /// It is not there and installing is not permitted.
    NotPermitted,
    /// Fetch `url`, extract it into `temp`, then move `temp` to
    /// `destination`.
    Fetch {
        /// Where the archive is extracted first.
        temp: String,
        /// Where the extracted files end up.
        destination: String,
        /// Whether the archive is a zip (`Some(true)`) or a gzipped tarball
        /// (`Some(false)`); none when the URL names neither, which cannot
        /// be extracted.
        zip: Option<bool>,
    },
}

impl Cache {
    /// The cache at `cache_dir` (or, without one, `home_dir`) under the name
    /// `.$NAME`.
    pub fn from_dirs(name: &str, cache_dir: Option<String>, home_dir: Option<String>) -> (r: Result<Cache, String>)
        ensures
            match cache_destination_of(name@, opt_view(cache_dir), opt_view(home_dir)) {
                Some(d) => r matches Ok(c) && c@ == d,
                None => r matches Err(m) && m@ == no_home_message(),
            },
    {
        let mut cache_name: Vec<char> = Vec::new();
        cache_name.push('.');
        push_str(&mut cache_name, name);
        assert(cache_name@ =~= seq!['.'] + name@);
        let cache_name = from_chars(&cache_name);
        let base = match cache_dir {
            Some(c) => Some(c),
            None => home_dir,
        };
        match base {
            Some(b) => Ok(Cache { destination: join(b.as_str(), cache_name.as_str()) }),
            None => {
                let r = String::from_str("couldn't find your home directory, is $HOME not set?");
                Err(r)
            },
        }
    }

    /// Returns the global cache directory, as inferred from env vars and such.
    ///
    /// This function may return an error if a cache directory cannot be
    /// determined.
    pub fn new(name: &str) -> (r: Result<Cache, String>)
        ensures
            match r {
                Ok(c) => exists|d: Seq<char>| c@ == path_join(d, seq!['.'] + name@),
                Err(m) => m@ == no_home_message(),
            },
    {
        let c = dirs_cache_dir();
        let h = dirs_home_dir();
        let r = Cache::from_dirs(name, c, h);
        match r {
            Ok(cache) => {
                let ghost d = match opt_view(c) { Some(x) => x, None => opt_view(h)->0 };
                assert(cache@ == path_join(d, seq!['.'] + name@));
                Ok(cache)
            },
            Err(m) => Err(m),
        }
    }

    /// Creates a new cache specifically at a particular directory, useful in
    /// testing and such.
    pub fn at(path: &str) -> (c: Cache)
        ensures
            c@ == path@,
    {
        Cache { destination: String::from_str(path) }
    }

    /// Joins a path to the destination of this cache, returning the result
    pub fn join(&self, path: &str) -> (r: String)
        ensures
            r@ == path_join(self@, path@),
    {
        join(self.destination.as_str(), path)
    }

    /// The directory a download of `url` named `name` lives in.
    pub fn destination_for(&self, name: &str, url: &str) -> (r: String)
        ensures
            r@ == path_join(self@, hashed_dirname_of(url@, name@)),
    {
        let dirname = hashed_dirname(url, name);
        self.join(dirname.as_str())
    }

    /// Decides how a download of `url` named `name` goes on, given whether
    /// its directory already exists in the cache: use it; stop when
    /// installing is not permitted; or fetch it into a hidden temporary
    /// directory next to the destination, as the kind of archive its URL
    /// names (a URL naming neither kind is found out only once fetched).
    pub fn download(
        &self,
        install_permitted: bool,
        name: &str,
        url: &str,
        destination_exists: bool,
    ) -> (r: DownloadStep)
        ensures
            destination_exists ==> (r matches DownloadStep::Cached(d)
                && d@ == path_join(self@, hashed_dirname_of(url@, name@))),
            !destination_exists && !install_permitted ==> r is NotPermitted,
            !destination_exists && install_permitted ==> (r matches DownloadStep::Fetch { temp, destination, zip }
                && destination@ == path_join(self@, hashed_dirname_of(url@, name@))
                && temp@ == path_join(self@, seq!['.'] + hashed_dirname_of(url@, name@))
                && zip == archive_kind_of(url@)),
    {
        let dirname = hashed_dirname(url, name);
        let destination = self.join(dirname.as_str());
        if destination_exists {
            return DownloadStep::Cached(Download { root: destination });
        }
        if !install_permitted {
            return DownloadStep::NotPermitted;
        }
        let mut t: Vec<char> = Vec::new();
        t.push('.');
        push_str(&mut t, dirname.as_str());
        assert(t@ =~= seq!['.'] + dirname@);
        let t = from_chars(&t);
        let temp = self.join(t.as_str());
        proof {
            reveal_strlit(".tar.gz");
            reveal_strlit(".zip");
        }
        let zip = if str_ends_with(url, ".tar.gz") {
            Some(false)
        } else if str_ends_with(url, ".zip") {
            Some(true)
        } else {
            None
        };
        DownloadStep::Fetch { temp, destination, zip }
    }
}

/// What kind of archive `url` names: a zip (`Some(true)`), a gzipped
/// tarball (`Some(false)`), or neither.
pub open spec fn archive_kind_of(url: Seq<char>) -> Option<bool> {
    if ends_with_seq(url, ".tar.gz"@) {
        Some(false)
    } else if ends_with_seq(url, ".zip"@) {
        Some(true)
    } else {
        None
    }
}

/// The context of a failed download of `url`.
pub open spec fn download_failed_message(url: Seq<char>) -> Seq<char> {
    "failed to download from "@ + url
}

/// The context of a failed extraction of the archive at `url`.
pub open spec fn extract_failed_message(zip: bool, url: Seq<char>) -> Seq<char> {
    (if zip { "failed to extract zip from "@ } else { "failed to extract tarball from "@ }) + url
}

/// The context of a failed download of `url`.
pub fn download_failed(url: &str) -> (r: String)
    ensures
        r@ == download_failed_message(url@),
{
    let mut v: Vec<char> = Vec::new();
    push_str(&mut v, "failed to download from ");
    push_str(&mut v, url);
    proof {
        reveal_strlit("failed to download from ");
        assert(v@ =~= download_failed_message(url@));
    }
    from_chars(&v)
}

/// The context of a failed extraction of the archive at `url`.
pub fn extract_failed(zip: bool, url: &str) -> (r: String)
    ensures
        r@ == extract_failed_message(zip, url@),
{
    let mut v: Vec<char> = Vec::new();
    if zip {
        push_str(&mut v, "failed to extract zip from ");
    } else {
        push_str(&mut v, "failed to extract tarball from ");
    }
    push_str(&mut v, url);
    proof {
        reveal_strlit("failed to extract zip from ");
        reveal_strlit("failed to extract tarball from ");
        assert(v@ =~= extract_failed_message(zip, url@));
    }
    from_chars(&v)
}

/// The view of an optional string.
pub open spec fn opt_view(o: Option<String>) -> Option<Seq<char>> {
    match o {
        Some(s) => Some(s@),
        None => None,
    }
}

/// The path `download` gives for the binary `name`: `$ROOT/$NAME` with the
/// platform's executable extension (`exe` on Windows, none elsewhere).
pub open spec fn binary_path_of(root: Seq<char>, name: Seq<char>, windows: bool) -> Seq<char> {
    with_extension_of(path_join(root, name), if windows { seq!['e', 'x', 'e'] } else { Seq::<char>::empty() })
}

/// The message when a binary is missing.
pub open spec fn missing_binary_message(path: Seq<char>) -> Seq<char> {
    path + " binary does not exist"@
}

/// The message when a binary is not executable.
pub open spec fn not_executable_message(path: Seq<char>) -> Seq<char> {
    path + " is not executable"@
}

impl Download {
    /// Manually constructs a download at the specified path
    pub fn at(path: &str) -> (d: Download)
        ensures
            d@ == path@,
    {
        Download { root: String::from_str(path) }
    }

    /// Where the binary `name` is within this download.
    pub fn binary_path(&self, name: &str, windows: bool) -> (r: String)
        ensures
            r@ == binary_path_of(self@, name@, windows),
    {
        let p = join(self.root.as_str(), name);
        proof {
            reveal_strlit("exe");
            reveal_strlit("");
        }
        if windows {
            with_extension(p.as_str(), "exe")
        } else {
            with_extension(p.as_str(), "")
        }
    }

    /// Judges the binary at `path` from what the file system says of it: it
    /// must be a file, and executable.
    pub fn binary(path: String, is_file: bool, is_executable: bool) -> (r: Result<String, String>)
        ensures
            is_file && is_executable ==> r == Ok::<String, String>(path),
            !is_file ==> (r matches Err(m) && m@ == missing_binary_message(path@)),
            is_file && !is_executable ==> (r matches Err(m) && m@ == not_executable_message(path@)),
    {
        if !is_file {
            let mut v = to_chars(path.as_str());
            push_str(&mut v, " binary does not exist");
            proof {
                reveal_strlit(" binary does not exist");
            }
            return Err(from_chars(&v));
        }
        if !is_executable {
            let mut v = to_chars(path.as_str());
            push_str(&mut v, " is not executable");
            proof {
                reveal_strlit(" is not executable");
            }
            return Err(from_chars(&v));
        }
        Ok(path)
    }
}

// ---------------------------------------------------------------------------
// Expected binaries of an archive
// ---------------------------------------------------------------------------

/// No string occurs twice in `s`.
pub open spec fn no_dups(s: Seq<Seq<char>>) -> bool {
    forall|i: int, j: int| 0 <= i < s.len() && 0 <= j < s.len() && i != j ==> s[i] != s[j]
}

/// The binaries an archive is expected to hold that have not been found in
/// it yet. Each name is held once, in no promised order.
#[derive(Debug)]
pub struct ExpectedBinaries {
    names: Vec<String>,
}

impl View for ExpectedBinaries {
    type V = Seq<Seq<char>>;

    /// The names still expected.
    closed spec fn view(&self) -> Seq<Seq<char>> {
        views(self.names@)
    }
}

/// The message when an archive lacks some expected binaries.
pub open spec fn missing_executables_message(zip: bool, missing: Seq<Seq<char>>) -> Seq<char> {
    (if zip { "the zip was missing expected executables: "@ } else {
        "the tarball was missing expected executables: "@
    }) + join_seq(missing, ", "@)
}

impl ExpectedBinaries {
    /// Each expected name occurs once.
    #[verifier::type_invariant]
    closed spec fn inv(&self) -> bool {
        no_dups(views(self.names@))
    }

    /// Expects each of `binaries` (duplicates count once).
    pub fn new(binaries: &[&str]) -> (r: ExpectedBinaries)
        ensures
            no_dups(r@),
            forall|x: Seq<char>| r@.contains(x) <==> (exists|i: int| 0 <= i < binaries@.len() && binaries@[i]@ == x),
    {
        let mut names: Vec<String> = Vec::new();
        let mut i: usize = 0;
        while i < binaries.len()
            invariant
                i <= binaries.len(),
                no_dups(views(names@)),
                forall|x: Seq<char>| views(names@).contains(x) <==> (exists|k: int| 0 <= k < i && binaries@[k]@ == x),
            decreases binaries.len() - i,
        {
            let b = binaries[i];
            if !contains_name(&names, b) {
                let ghost before = views(names@);
                names.push(String::from_str(b));
                assert(views(names@) =~= before.push(b@));
                proof {
                    assert forall|x: Seq<char>| views(names@).contains(x) implies (exists|k: int| 0 <= k < i + 1 && binaries@[k]@ == x) by {
                        let j = choose|j: int| 0 <= j < views(names@).len() && views(names@)[j] == x;
                        if j < before.len() {
                            assert(before.contains(x));
                        } else {
                            assert(binaries@[i as int]@ == x);
                        }
                    }
                    assert forall|x: Seq<char>| (exists|k: int| 0 <= k < i + 1 && binaries@[k]@ == x) implies views(names@).contains(x) by {
                        let k = choose|k: int| 0 <= k < i + 1 && binaries@[k]@ == x;
                        if k < i {
                            assert(before.contains(x));
                            let j = choose|j: int| 0 <= j < before.len() && before[j] == x;
                            assert(views(names@)[j] == x);
                        } else {
                            assert(views(names@)[before.len() as int] == x);
                        }
                    }
                }
            } else {
                proof {
                    assert forall|x: Seq<char>| (exists|k: int| 0 <= k < i + 1 && binaries@[k]@ == x) implies views(names@).contains(x) by {
                        let k = choose|k: int| 0 <= k < i + 1 && binaries@[k]@ == x;
                        if k < i {
                        }
                    }
                }
            }
            i = i + 1;
        }
        ExpectedBinaries { names }
    }

    /// Whether `name` is still expected.
    pub fn contains(&self, name: &str) -> (r: bool)
        ensures
            r == self@.contains(name@),
    {
        contains_name(&self.names, name)
    }

    /// Whether every expected binary has been found.
    pub fn is_empty(&self) -> (r: bool)
        ensures
            r == (self@.len() == 0),
    {
        self.names.len() == 0
    }

    /// Stops expecting `name`; tells whether it was expected.
    pub fn take(&mut self, name: &str) -> (r: bool)
        ensures
            r == old(self)@.contains(name@),
            r ==> exists|i: int| 0 <= i < old(self)@.len() && old(self)@[i] == name@
                && final(self)@ == old(self)@.remove(i),
            !r ==> final(self)@ == old(self)@,
            !final(self)@.contains(name@),
            no_dups(final(self)@),
            final(self)@.to_set() == old(self)@.to_set().remove(name@),
    {
        proof {
            use_type_invariant(&*self);
        }
        let ghost old_v = views(self.names@);
        let n = self.names.len();
        let mut rest: Vec<String> = Vec::new();
        let mut found: Option<usize> = None;
        let mut i: usize = 0;
        let target = to_chars(name);
        while i < n
            invariant
                n == self.names@.len(),
                old_v == views(self.names@),
                no_dups(old_v),
                target@ == name@,
                i <= n,
                match found {
                    Some(k) => k < i && old_v[k as int] == name@
                        && views(rest@) == old_v.take(i as int).remove(k as int),
                    None => views(rest@) == old_v.take(i as int)
                        && forall|k: int| 0 <= k < i ==> old_v[k] != name@,
                },
            decreases n - i,
        {
            let cur = to_chars(self.names[i].as_str());
            let ghost pre = old_v.take(i as int);
            assert(old_v.take(i + 1) =~= pre.push(old_v[i as int]));
            if chars_eq(&cur, &target) {
                assert(old_v[i as int] == name@);
                match found {
                    Some(k) => {
                        assert(false);
                    },
                    None => {
                        assert(pre.push(old_v[i as int]).remove(i as int) =~= pre);
                        found = Some(i);
                    },
                }
            } else {
                let ghost prev = views(rest@);
                rest.push(self.names[i].clone());
                assert(views(rest@) =~= prev.push(old_v[i as int]));
                match found {
                    Some(k) => {
                        assert(old_v.take(i + 1).remove(k as int) =~= pre.remove(k as int).push(old_v[i as int]));
                        assert(views(rest@) =~= old_v.take(i + 1).remove(k as int));
                    },
                    None => {
                        assert(views(rest@) =~= old_v.take(i + 1));
                    },
                }
            }
            i = i + 1;
        }
        assert(old_v.take(n as int) =~= old_v);
        proof {
            match found {
                Some(k) => {
                    let r = old_v.remove(k as int);
                    assert forall|a: int, b: int| 0 <= a < r.len() && 0 <= b < r.len() && a != b implies r[a] != r[b] by {
                        let a2 = if a < k { a } else { a + 1 };
                        let b2 = if b < k { b } else { b + 1 };
                        assert(r[a] == old_v[a2]);
                        assert(r[b] == old_v[b2]);
                    }
                    assert forall|j: int| 0 <= j < r.len() implies r[j] != name@ by {
                        let j2 = if j < k { j } else { j + 1 };
                        assert(r[j] == old_v[j2]);
                    }
                },
                None => {},
            }
        }
        self.names = rest;
        proof {
            match found {
                Some(k) => lemma_remove_to_set(old_v, k as int),
                None => {
                    assert(old_v.to_set().remove(name@) =~= old_v.to_set());
                },
            }
        }
        found.is_some()
    }

    /// If the archive entry at `entry_path` is one of the expected binaries
    /// (by file stem), stops expecting it and gives where to unpack it: the
    /// entry's file name under `dst`.
    pub fn claim_entry(&mut self, entry_path: &str, dst: &str) -> (r: Option<String>)
        ensures
            match file_stem_of(entry_path@) {
                Some(stem) => if old(self)@.contains(stem) {
                    &&& r matches Some(p) && file_name_of(entry_path@) matches Some(n) && p@ == path_join(dst@, n)
                    &&& exists|i: int| 0 <= i < old(self)@.len() && old(self)@[i] == stem
                        && final(self)@ == old(self)@.remove(i)
                } else {
                    r is None && final(self)@ == old(self)@
                },
                None => r is None && final(self)@ == old(self)@,
            },
            no_dups(final(self)@),
            final(self)@.to_set() == match file_stem_of(entry_path@) {
                Some(stem) => old(self)@.to_set().remove(stem),
                None => old(self)@.to_set(),
            },
    {
        proof {
            use_type_invariant(&*self);
        }
        match file_stem(entry_path) {
            Some(stem) => {
                if self.take(stem.as_str()) {
                    match file_name(entry_path) {
                        Some(n) => Some(join(dst, n.as_str())),
                        None => None,
                    }
                } else {
                    None
                }
            },
            None => None,
        }
    }

    /// The expected binaries not found yet, joined with `, `.
    pub fn missing(&self) -> (r: String)
        ensures
            r@ == join_seq(self@, ", "@),
    {
        join_strings(&self.names, ", ")
    }

    /// The error when an archive did not hold every expected binary.
    pub fn missing_error(&self, zip: bool) -> (r: String)
        ensures
            r@ == missing_executables_message(zip, self@),
    {
        let mut v: Vec<char> = Vec::new();
        if zip {
            push_str(&mut v, "the zip was missing expected executables: ");
        } else {
            push_str(&mut v, "the tarball was missing expected executables: ");
        }
        let m = self.missing();
        push_str(&mut v, m.as_str());
        proof {
            reveal_strlit("the zip was missing expected executables: ");
            reveal_strlit("the tarball was missing expected executables: ");
            assert(v@ =~= missing_executables_message(zip, self@));
        }
        from_chars(&v)
    }
}

/// Removing an element of a sequence without duplicates removes exactly
/// that value from its set of elements.
proof fn lemma_remove_to_set(s: Seq<Seq<char>>, i: int)
    requires
        no_dups(s),
        0 <= i < s.len(),
    ensures
        s.remove(i).to_set() == s.to_set().remove(s[i]),
{
    let r = s.remove(i);
    assert forall|x: Seq<char>| r.to_set().contains(x) <==> s.to_set().remove(s[i]).contains(x) by {
        if r.contains(x) {
            let j = choose|j: int| 0 <= j < r.len() && r[j] == x;
            let j2 = if j < i { j } else { j + 1 };
            assert(s[j2] == x);
            assert(j2 != i);
        }
        if s.contains(x) && x != s[i] {
            let j = choose|j: int| 0 <= j < s.len() && s[j] == x;
            if j < i {
                assert(r[j] == x);
            } else {
                assert(j != i);
                assert(r[j - 1] == x);
            }
        }
    }
    assert(r.to_set() =~= s.to_set().remove(s[i]));
}

/// Whether `name` is among `names`.
fn contains_name(names: &Vec<String>, name: &str) -> (r: bool)
    ensures
        r == views(names@).contains(name@),
{
    let target = to_chars(name);
    let mut i: usize = 0;
    while i < names.len()
        invariant
            i <= names.len(),
            target@ == name@,
            forall|k: int| 0 <= k < i ==> views(names@)[k] != name@,
        decreases names.len() - i,
    {
        let cur = to_chars(names[i].as_str());
        if chars_eq(&cur, &target) {
            assert(views(names@)[i as int] == name@);
            return true;
        }
        i = i + 1;
    }
    false
}

} // verus!
