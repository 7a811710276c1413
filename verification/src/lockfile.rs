//! Reading the versions of dependencies from a `Cargo.lock` lock file.

use vstd::prelude::*;
use crate::binary_install::no_dups;
use crate::style::bold_dim;
use crate::text::{to_chars, from_chars, chars_eq, push_str};

verus! {

/// One `[[package]]` entry of a lock file.
#[derive(Debug)]
pub struct PackageValue {
    /// The package's name.
    pub name: String,
    /// The locked version.
    pub version: String,
}

/// This struct represents a single package entry in `Cargo.lock`
#[derive(Debug)]
pub struct Package {
    name: String,
    version: Option<String>,
}

/// The `(name, version)` views of lock-file entries.
pub open spec fn entries_of(es: Seq<PackageValue>) -> Seq<(Seq<char>, Seq<char>)> {
    es.map_values(|e: PackageValue| (e.name@, e.version@))
}

/// Every name of `deps` is the name of one of the first `k` entries.
pub open spec fn covered(deps: Seq<Seq<char>>, es: Seq<(Seq<char>, Seq<char>)>, k: int) -> bool {
    forall|i: int| #![trigger deps[i]] 0 <= i < deps.len() ==> exists|j: int| 0 <= j < k && #[trigger] es[j].0 == deps[i]
}

/// The first prefix length from `k + 1` on at which every dependency has been
/// seen, or the number of entries.
pub open spec fn stop_from(deps: Seq<Seq<char>>, es: Seq<(Seq<char>, Seq<char>)>, k: int) -> int
    decreases es.len() - k,
{
    if k >= es.len() {
        es.len() as int
    } else if covered(deps, es, k + 1) {
        k + 1
    } else {
        stop_from(deps, es, k + 1)
    }
}

/// How many entries are read: up to the first one after which every
/// dependency has a version (when the names are distinct), else all.
pub open spec fn entries_read(deps: Seq<Seq<char>>, es: Seq<(Seq<char>, Seq<char>)>) -> int {
    if no_dups(deps) { stop_from(deps, es, 0) } else { es.len() as int }
}

/// The version of the last of the first `k` entries named `name`.
pub open spec fn last_version(name: Seq<char>, es: Seq<(Seq<char>, Seq<char>)>, k: int) -> Option<Seq<char>>
    decreases k,
{
    if k <= 0 {
        None
    } else if es[k - 1].0 == name {
        Some(es[k - 1].1)
    } else {
        last_version(name, es, k - 1)
    }
}

/// `deps[i]` does not occur earlier in `deps`.
pub open spec fn first_occurrence(deps: Seq<Seq<char>>, i: int) -> bool {
    forall|j: int| 0 <= j < i ==> deps[j] != deps[i]
}

/// The version found for the `i`-th dependency: the last one locked among the
/// entries read, for the first occurrence of a name; none for a repetition.
pub open spec fn resolved_version(deps: Seq<Seq<char>>, es: Seq<(Seq<char>, Seq<char>)>, i: int) -> Option<Seq<char>> {
    if first_occurrence(deps, i) { last_version(deps[i], es, entries_read(deps, es)) } else { None }
}

/// The view of an optional string.
pub open spec fn opt_str(o: Option<String>) -> Option<Seq<char>> {
    match o {
        Some(s) => Some(s@),
        None => None,
    }
}

proof fn lemma_last_version_absent(name: Seq<char>, es: Seq<(Seq<char>, Seq<char>)>, k: int)
    requires
        0 <= k <= es.len(),
    ensures
        last_version(name, es, k) is None <==> forall|j: int| 0 <= j < k ==> es[j].0 != name,
    decreases k,
{
    if k > 0 {
        lemma_last_version_absent(name, es, k - 1);
    }
}

proof fn lemma_stop_from_bound(deps: Seq<Seq<char>>, es: Seq<(Seq<char>, Seq<char>)>, k: int)
    requires
        0 <= k,
    ensures
        stop_from(deps, es, k) <= es.len(),
        k < es.len() ==> k < stop_from(deps, es, k),
    decreases es.len() - k,
{
    if k < es.len() && !covered(deps, es, k + 1) {
        lemma_stop_from_bound(deps, es, k + 1);
    }
}

impl Package {
    /// The package's name.
    pub closed spec fn name_of(&self) -> Seq<char> {
        self.name@
    }

    /// The version found for the package, if any.
    pub closed spec fn version_of(&self) -> Option<Seq<char>> {
        opt_str(self.version)
    }

    /// Finds the locked versions of the named dependencies among the entries
    /// of a lock file, read in order until every name has a version.
    pub fn get(dep_names: &[&str], packages: &[PackageValue]) -> (r: Vec<Package>)
        ensures
            r@.len() == dep_names@.len(),
            forall|i: int| 0 <= i < r@.len() ==> (#[trigger] r@[i]).name_of() == dep_names@[i]@
                && r@[i].version_of() == resolved_version(
                    dep_names@.map_values(|d: &str| d@), entries_of(packages@), i),
    {
        let ghost deps = dep_names@.map_values(|d: &str| d@);
        let ghost es = entries_of(packages@);
        let n = dep_names.len();
        let mut names: Vec<Vec<char>> = Vec::new();
        let mut k: usize = 0;
        while k < n
            invariant
                k <= n == dep_names@.len(),
                names@.len() == k,
                forall|i: int| 0 <= i < k ==> (#[trigger] names@[i])@ == dep_names@[i]@,
            decreases n - k,
        {
            names.push(to_chars(dep_names[k]));
            k = k + 1;
        }
        let mut versions: Vec<Option<String>> = Vec::new();
        k = 0;
        while k < n
            invariant
                k <= n,
                versions@.len() == k,
                forall|i: int| 0 <= i < k ==> versions@[i] is None,
            decreases n - k,
        {
            versions.push(None);
            k = k + 1;
        }
        let mut j: usize = 0;
        let m = packages.len();
        assert(es.len() == m);
        proof {
            if n > 0 {
                if covered(deps, es, 0) {
                    let d0 = deps[0];
                    assert(exists|w: int| 0 <= w < 0 && #[trigger] es[w].0 == deps[0]);
                }
            }
        }
        while j < m
            invariant
                j <= m == packages@.len() == es.len(),
                n == dep_names@.len() == deps.len() == names@.len() == versions@.len(),
                deps == dep_names@.map_values(|d: &str| d@),
                es == entries_of(packages@),
                forall|i: int| 0 <= i < n ==> (#[trigger] names@[i])@ == deps[i],
                forall|i: int| 0 <= i < n ==> opt_str(#[trigger] versions@[i]) == (
                    if first_occurrence(deps, i) { last_version(deps[i], es, j as int) } else { None }),
                no_dups(deps) && n > 0 ==> stop_from(deps, es, 0) == stop_from(deps, es, j as int),
                no_dups(deps) && n > 0 ==> !covered(deps, es, j as int),
            decreases m - j,
        {
            let pname = to_chars(packages[j].name.as_str());
            let mut i: usize = 0;
            let mut hit: Option<usize> = None;
            while i < n
                invariant
                    i <= n == names@.len() == deps.len(),
                    forall|q: int| 0 <= q < n ==> (#[trigger] names@[q])@ == deps[q],
                    pname@ == es[j as int].0,
                    j < es.len(),
                    hit is None ==> forall|q: int| 0 <= q < i ==> deps[q] != es[j as int].0,
                    hit matches Some(h) ==> h < n && deps[h as int] == es[j as int].0
                        && forall|q: int| 0 <= q < h ==> deps[q] != es[j as int].0,
                decreases n - i,
            {
                if hit.is_none() && chars_eq(&names[i], &pname) {
                    hit = Some(i);
                }
                i = i + 1;
            }
            let ghost prev = versions@;
            match hit {
                Some(h) => {
                    versions.set(h, Some(packages[j].version.clone()));
                },
                None => {},
            }
            proof {
                assert forall|q: int| 0 <= q < n implies opt_str(#[trigger] versions@[q]) == (
                    if first_occurrence(deps, q) { last_version(deps[q], es, j + 1) } else { None }) by {
                    if first_occurrence(deps, q) {
                        if es[j as int].0 == deps[q] {
                            assert(hit matches Some(h) && h == q) by {
                                match hit {
                                    Some(h) => {
                                        if h < q {
                                            assert(deps[h as int] == deps[q]);
                                        } else if h > q {
                                            assert(deps[q] != es[j as int].0);
                                        }
                                    },
                                    None => {
                                        assert(deps[q] != es[j as int].0);
                                    },
                                }
                            }
                        } else {
                            assert(!(hit matches Some(h) && h == q));
                        }
                    } else {
                        let w = choose|w: int| 0 <= w < q && deps[w] == deps[q];
                        if hit matches Some(h) && h == q {
                            assert(deps[w] == es[j as int].0);
                        }
                    }
                }
            }
            if hit.is_some() && all_some(&versions) {
                proof {
                    assert(no_dups(deps)) by {
                        assert forall|a: int, b: int| 0 <= a < deps.len() && 0 <= b < deps.len() && a != b implies deps[a] != deps[b] by {
                            let hi = if a < b { b } else { a };
                            assert(versions@[hi] is Some);
                        }
                    }
                    assert(covered(deps, es, j + 1)) by {
                        assert forall|q: int| #![trigger deps[q]] 0 <= q < deps.len() implies exists|w: int| 0 <= w < j + 1 && #[trigger] es[w].0 == deps[q] by {
                            assert(versions@[q] is Some);
                            lemma_last_version_absent(deps[q], es, j + 1);
                        }
                    }
                    assert(stop_from(deps, es, j as int) == j + 1);
                }
                return finish(dep_names, versions);
            }
            proof {
                if no_dups(deps) && n > 0 {
                    if covered(deps, es, j + 1) {
                        assert forall|q: int| 0 <= q < n implies versions@[q] is Some by {
                            let w = choose|w: int| 0 <= w < j + 1 && #[trigger] es[w].0 == deps[q];
                            lemma_last_version_absent(deps[q], es, j + 1);
                        }
                        if hit is None {
                            assert(covered(deps, es, j as int)) by {
                                assert forall|q: int| #![trigger deps[q]] 0 <= q < deps.len() implies exists|w: int| 0 <= w < j && #[trigger] es[w].0 == deps[q] by {
                                    let w = choose|w: int| 0 <= w < j + 1 && #[trigger] es[w].0 == deps[q];
                                    assert(w != j);
                                }
                            }
                        }
                        assert(false);
                    }
                    assert(stop_from(deps, es, j as int) == stop_from(deps, es, j + 1));
                }
            }
            j = j + 1;
        }
        proof {
            if no_dups(deps) && n > 0 {
                lemma_stop_from_bound(deps, es, m as int);
                assert(stop_from(deps, es, 0) == m);
            }
        }
        finish(dep_names, versions)
    }

    /// Get the version of this package used in the `Cargo.lock`.
    pub fn version(&self) -> (r: Option<&str>)
        ensures
            match r {
                Some(v) => self.version_of() == Some(v@),
                None => self.version_of() is None,
            },
    {
        match &self.version {
            Some(v) => Some(v.as_str()),
            None => None,
        }
    }

    /// Like `version`, except it returns an error instead of `None`.
    /// `suggested_version` is only used when showing an example of adding the
    /// dependency to `Cargo.toml`.
    pub fn require_version_or_suggest(&self, section: &str, suggested_version: &str) -> (r: Result<&str, String>)
        ensures
            match self.version_of() {
                Some(v) => r matches Ok(x) && x@ == v,
                None => r matches Err(e) && (e@ == missing_dependency_message(self.name_of(), section@, self.name_of(), suggested_version@)
                    || e@ == missing_dependency_message(crate::style::ansi_bold_dim(self.name_of()), section@, self.name_of(), suggested_version@)),
            },
    {
        match &self.version {
            Some(v) => Ok(v.as_str()),
            None => {
                let styled = bold_dim(self.name.as_str());
                Err(missing_dependency(styled.as_str(), section, self.name.as_str(), suggested_version))
            },
        }
    }
}

/// The message asking to add `name` to the `section` of `Cargo.toml`, where
/// `shown` is how the name is shown in quotes.
pub open spec fn missing_dependency_message(shown: Seq<char>, section: Seq<char>, name: Seq<char>, suggested: Seq<char>) -> Seq<char> {
    "Ensure that you have \""@ + shown + "\" as a dependency in your Cargo.toml file:\n["@ + section + "]\n"@
        + name + " = \""@ + suggested + "\""@
}

/// The message asking to add a dependency to `Cargo.toml`.
pub fn missing_dependency(shown: &str, section: &str, name: &str, suggested: &str) -> (r: String)
    ensures
        r@ == missing_dependency_message(shown@, section@, name@, suggested@),
{
    let mut v: Vec<char> = Vec::new();
    push_str(&mut v, "Ensure that you have \"");
    push_str(&mut v, shown);
    push_str(&mut v, "\" as a dependency in your Cargo.toml file:\n[");
    push_str(&mut v, section);
    push_str(&mut v, "]\n");
    push_str(&mut v, name);
    push_str(&mut v, " = \"");
    push_str(&mut v, suggested);
    push_str(&mut v, "\"");
    assert(v@ =~= missing_dependency_message(shown@, section@, name@, suggested@));
    from_chars(&v)
}

/// Whether every version is set.
fn all_some(vs: &Vec<Option<String>>) -> (r: bool)
    ensures
        r == forall|i: int| 0 <= i < vs@.len() ==> vs@[i] is Some,
{
    let mut i: usize = 0;
    while i < vs.len()
        invariant
            i <= vs.len(),
            forall|q: int| 0 <= q < i ==> vs@[q] is Some,
        decreases vs.len() - i,
    {
        if vs[i].is_none() {
            return false;
        }
        i = i + 1;
    }
    true
}

/// Pairs each dependency name with its version.
fn finish(dep_names: &[&str], versions: Vec<Option<String>>) -> (r: Vec<Package>)
    requires
        versions@.len() == dep_names@.len(),
    ensures
        r@.len() == dep_names@.len(),
        forall|i: int| 0 <= i < r@.len() ==> (#[trigger] r@[i]).name_of() == dep_names@[i]@
            && r@[i].version_of() == opt_str(versions@[i]),
{
    let mut r: Vec<Package> = Vec::new();
    let mut i: usize = 0;
    while i < dep_names.len()
        invariant
            i <= dep_names.len() == versions@.len(),
            r@.len() == i,
            forall|q: int| 0 <= q < i ==> (#[trigger] r@[q]).name_of() == dep_names@[q]@
                && r@[q].version_of() == opt_str(versions@[q]),
        decreases dep_names.len() - i,
    {
        let v = match &versions[i] {
            Some(s) => Some(s.clone()),
            None => None,
        };
        r.push(Package { name: String::from_str(dep_names[i]), version: v });
        i = i + 1;
    }
    r
}

} // verus!
