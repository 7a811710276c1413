//! Reading the entries of a downloaded archive and deciding which of them
//! an installation unpacks, and where.

use vstd::prelude::*;
use std::io::Read;
use crate::binary_install::{ExpectedBinaries, missing_executables_message, no_dups};
use crate::binary_install::path::{path_join, file_stem_of, file_name_of};

verus! {

/// The entries of the zip archive `data`, in order, each by its sanitized
/// path (`ZipFile::mangled_name`) and its contents; or the error's message.
pub uninterp spec fn zip_entries_of(data: Seq<u8>) -> Result<Seq<(Seq<char>, Seq<u8>)>, Seq<char>>;

/// The entries of the gzipped tarball `data`, in order, each by its path
/// and its contents; or the error's message.
pub uninterp spec fn tar_gz_entries_of(data: Seq<u8>) -> Result<Seq<(Seq<char>, Seq<u8>)>, Seq<char>>;

/// Archive entries as text paths and bytes.
pub open spec fn entries_view(v: Seq<(String, Vec<u8>)>) -> Seq<(Seq<char>, Seq<u8>)> {
    v.map_values(|e: (String, Vec<u8>)| (e.0@, e.1@))
}

/// A listing of entries, or its error, as plain values.
pub open spec fn listing_view(r: Result<Vec<(String, Vec<u8>)>, String>) -> Result<Seq<(Seq<char>, Seq<u8>)>, Seq<char>> {
    match r {
        Ok(v) => Ok(entries_view(v@)),
        Err(e) => Err(e@),
    }
}

/// Reads the entries of a zip archive with `zip::ZipArchive` (names by
/// `mangled_name`, contents read whole); the result is the named function
/// of the bytes.
#[verifier::external_body]
fn zip_entries(data: &[u8]) -> (r: Result<Vec<(String, Vec<u8>)>, String>)
    ensures
        listing_view(r) == zip_entries_of(data@),
{
    let mut archive = zip::ZipArchive::new(std::io::Cursor::new(data)).map_err(|e| e.to_string())?;
    let mut out = Vec::new();
    for i in 0..archive.len() {
        let mut entry = archive.by_index(i).map_err(|e| e.to_string())?;
        let name = entry.mangled_name().to_string_lossy().into_owned();
        let mut bytes = Vec::new();
        entry.read_to_end(&mut bytes).map_err(|e| e.to_string())?;
        out.push((name, bytes));
    }
    Ok(out)
}

/// Reads the entries of a gzipped tarball with `tar::Archive` over a
/// `flate2::read::GzDecoder` (names by `Entry::path`, contents read whole);
/// the result is the named function of the bytes.
#[verifier::external_body]
fn tar_gz_entries(data: &[u8]) -> (r: Result<Vec<(String, Vec<u8>)>, String>)
    ensures
        listing_view(r) == tar_gz_entries_of(data@),
{
    let mut archive = tar::Archive::new(flate2::read::GzDecoder::new(data));
    let mut out = Vec::new();
    for entry in archive.entries().map_err(|e| e.to_string())? {
        let mut entry = entry.map_err(|e| e.to_string())?;
        let name = entry.path().map_err(|e| e.to_string())?.to_string_lossy().into_owned();
        let mut bytes = Vec::new();
        entry.read_to_end(&mut bytes).map_err(|e| e.to_string())?;
        out.push((name, bytes));
    }
    Ok(out)
}

/// The names among `binaries`.
pub open spec fn names_set(binaries: Seq<&str>) -> Set<Seq<char>> {
    Set::new(|x: Seq<char>| exists|i: int| 0 <= i < binaries.len() && binaries[i]@ == x)
}

/// What unpacking `entries` into `dst` writes while `expected` binaries are
/// still looked for: the first entry whose file stem is an expected name is
/// written under its file name, in order; and the names never found.
pub open spec fn plan_of(
    entries: Seq<(Seq<char>, Seq<u8>)>,
    expected: Set<Seq<char>>,
    dst: Seq<char>,
) -> (Seq<(Seq<char>, Seq<u8>)>, Set<Seq<char>>)
    decreases entries.len(),
{
    if entries.len() == 0 {
        (Seq::empty(), expected)
    } else {
        let e = entries[0];
        match file_stem_of(e.0) {
            Some(stem) => if expected.contains(stem) {
                let rest = plan_of(entries.drop_first(), expected.remove(stem), dst);
                (seq![(path_join(dst, file_name_of(e.0)->0), e.1)] + rest.0, rest.1)
            } else {
                plan_of(entries.drop_first(), expected, dst)
            },
            None => plan_of(entries.drop_first(), expected, dst),
        }
    }
}

/// The listing of the archive `data`, of the kind `zip` says.
pub open spec fn archive_entries_of(data: Seq<u8>, zip: bool) -> Result<Seq<(Seq<char>, Seq<u8>)>, Seq<char>> {
    if zip { zip_entries_of(data) } else { tar_gz_entries_of(data) }
}

/// What to write to install `binaries` from the archive `data` (a zip or a
/// gzipped tarball) into `dst`: each file's path and contents. An archive
/// that cannot be read gives its error; one that lacks some of the binaries
/// gives the error naming them (in no promised order).
pub fn plan_extraction(data: &[u8], zip: bool, dst: &str, binaries: &[&str]) -> (r: Result<Vec<(String, Vec<u8>)>, String>)
    ensures
        match archive_entries_of(data@, zip) {
            Err(e) => r matches Err(m) && m@ == e,
            Ok(es) => {
                let p = plan_of(es, names_set(binaries@), dst@);
                if p.1 == Set::<Seq<char>>::empty() {
                    r matches Ok(v) && entries_view(v@) == p.0
                } else {
                    r matches Err(m) && exists|missing: Seq<Seq<char>>| no_dups(missing)
                        && missing.to_set() == p.1 && m@ == missing_executables_message(zip, missing)
                }
            },
        },
{
    let listing = if zip { zip_entries(data) } else { tar_gz_entries(data) };
    let entries = match listing {
        Ok(es) => es,
        Err(e) => return Err(e),
    };
    let ghost es = entries_view(entries@);
    let mut expected = ExpectedBinaries::new(binaries);
    assert(expected@.to_set() =~= names_set(binaries@));
    let ghost whole = plan_of(es, names_set(binaries@), dst@);
    let mut out: Vec<(String, Vec<u8>)> = Vec::new();
    let mut i: usize = 0;
    assert(es.skip(0) =~= es);
    assert(entries_view(out@) + whole.0 =~= whole.0);
    while i < entries.len()
        invariant
            i <= entries.len(),
            es == entries_view(entries@),
            whole == plan_of(es, names_set(binaries@), dst@),
            entries_view(out@) + plan_of(es.skip(i as int), expected@.to_set(), dst@).0 == whole.0,
            plan_of(es.skip(i as int), expected@.to_set(), dst@).1 == whole.1,
            no_dups(expected@),
        decreases entries.len() - i,
    {
        let ghost rest = es.skip(i as int);
        let ghost before = expected@.to_set();
        assert(rest[0] == es[i as int]);
        assert(rest.drop_first() =~= es.skip(i + 1));
        match expected.claim_entry(entries[i].0.as_str(), dst) {
            Some(p) => {
                let bytes = entries[i].1.clone();
                assert(bytes@ =~= entries@[i as int].1@);
                let ghost prev = entries_view(out@);
                out.push((p, bytes));
                assert(entries_view(out@) =~= prev.push(entries_view(out@).last()));
                assert(prev + plan_of(rest, before, dst@).0 =~= entries_view(out@) + plan_of(
                    es.skip(i + 1), expected@.to_set(), dst@).0);
            },
            None => {},
        }
        i = i + 1;
    }
    assert(es.skip(i as int) =~= Seq::<(Seq<char>, Seq<u8>)>::empty());
    assert(entries_view(out@) + Seq::<(Seq<char>, Seq<u8>)>::empty() =~= entries_view(out@));
    if expected.is_empty() {
        assert(expected@.to_set() =~= Set::<Seq<char>>::empty());
        Ok(out)
    } else {
        assert(expected@.to_set().contains(expected@[0]));
        Err(expected.missing_error(zip))
    }
}

} // verus!
