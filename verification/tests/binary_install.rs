use wasm_pack::binaries::{download_error, install_binaries_outcome, invalid_tarball};
use wasm_pack::binary_install::error::Error;
use wasm_pack::binary_install::fetch::{curl, with_url_context};
use wasm_pack::binary_install::archive::plan_extraction;
use wasm_pack::binary_install::{dirname_from_hash, download_failed, extract_failed, hashed_dirname, Cache, Download, DownloadStep, ExpectedBinaries};

#[test]
fn it_returns_same_hash_for_same_name_and_url() {
    let name = "wasm-pack";
    let url = "http://localhost:7878/wasm-pack-v0.6.0.tar.gz";

    let first = hashed_dirname(url, name);
    let second = hashed_dirname(url, name);

    assert!(!first.is_empty());
    assert!(!second.is_empty());
    assert_eq!(first, second);
}

#[test]
fn it_returns_different_hashes_for_different_urls() {
    let name = "wasm-pack";
    let url = "http://localhost:7878/wasm-pack-v0.5.1.tar.gz";
    let second_url = "http://localhost:7878/wasm-pack-v0.6.0.tar.gz";

    let first = hashed_dirname(url, name);
    let second = hashed_dirname(second_url, name);

    assert_ne!(first, second);
}

#[test]
fn hashed_dirname_is_name_dash_and_sixteen_hex_digits() {
    let d = hashed_dirname("http://localhost:7878/wasm-pack-v0.6.0.tar.gz", "wasm-pack");
    assert!(d.starts_with("wasm-pack-"));
    assert_eq!(d.len(), "wasm-pack".len() + 17);
    let hex = &d["wasm-pack-".len()..];
    assert!(hex.chars().all(|c| c.is_ascii_digit() || ('a'..='f').contains(&c)));
}

#[test]
fn it_joins_path_with_destination() {
    let cache = Cache::at("/tmp/cache-dir");
    assert_eq!(cache.join("hello"), "/tmp/cache-dir/hello");
}

#[test]
fn cache_from_dirs_prefers_the_cache_directory() {
    let c = Cache::from_dirs("wasm-pack", Some("/home/u/.cache".to_string()), Some("/home/u".to_string()))
        .unwrap();
    assert_eq!(c.join("x"), "/home/u/.cache/.wasm-pack/x");
    let h = Cache::from_dirs("wasm-pack", None, Some("/home/u".to_string())).unwrap();
    assert_eq!(h.join("x"), "/home/u/.wasm-pack/x");
    let e = Cache::from_dirs("wasm-pack", None, None);
    assert_eq!(e.err().unwrap(), "couldn't find your home directory, is $HOME not set?");
}

#[test]
fn it_returns_destination_if_binary_already_exists() {
    let binary_name = "wasm-pack";
    let cache = Cache::at("/tmp/cache-dir");
    let url = &format!("{}/{}.tar.gz", "http://localhost:7878", binary_name);

    let dirname = hashed_dirname(url, binary_name);
    let full_path = format!("/tmp/cache-dir/{}", dirname);

    match cache.download(true, binary_name, url, true) {
        DownloadStep::Cached(dl) => assert_eq!(dl.binary_path(binary_name, false), format!("{}/wasm-pack", full_path)),
        _ => panic!("expected the cached download"),
    }
}

#[test]
fn it_returns_none_if_install_is_not_permitted() {
    let binary_name = "wasm-pack";
    let cache = Cache::at("/tmp/cache-dir");
    let dl = cache.download(false, binary_name, &format!("{}/{}.tar.gz", "", binary_name), false);
    assert!(matches!(dl, DownloadStep::NotPermitted));
}

#[test]
fn download_fetches_into_a_hidden_sibling_directory() {
    let cache = Cache::at("/c");
    let url = "http://localhost:7880/wasm-pack.zip";
    let dirname = hashed_dirname(url, "wasm-pack");
    match cache.download(true, "wasm-pack", url, false) {
        DownloadStep::Fetch { temp, destination, zip } => {
            assert_eq!(destination, format!("/c/{}", dirname));
            assert_eq!(temp, format!("/c/.{}", dirname));
            assert_eq!(zip, Some(true));
        }
        _ => panic!("expected a fetch"),
    }
    assert_eq!(cache.destination_for("wasm-pack", url), format!("/c/{}", dirname));
    match cache.download(true, "wasm-pack", "http://h/wasm-pack.tar.gz", false) {
        DownloadStep::Fetch { zip, .. } => assert_eq!(zip, Some(false)),
        _ => panic!("expected a fetch"),
    }
}

#[test]
fn it_returns_binary_name() {
    let download = Download::at("/tmp/dl");
    let full_path = download.binary_path("wasm-pack", false);
    assert_eq!(full_path, "/tmp/dl/wasm-pack");
    let binary = Download::binary(full_path.clone(), true, true);
    assert_eq!(binary.unwrap(), full_path);
}

#[test]
fn binary_path_adds_exe_on_windows() {
    let download = Download::at("/tmp/dl");
    assert_eq!(download.binary_path("wasm-pack", true), "/tmp/dl/wasm-pack.exe");
}

#[test]
fn it_bails_if_not_file() {
    let full_path = Download::at("/tmp/dl").binary_path("wasm-pack", false);
    let binary = Download::binary(full_path.clone(), false, false);
    assert_eq!(format!("{} binary does not exist", full_path), binary.unwrap_err());
}

#[test]
fn it_bails_if_not_executable() {
    let full_path = Download::at("/tmp/dl").binary_path("wasm-pack", false);
    let binary = Download::binary(full_path.clone(), true, false);
    assert_eq!(format!("{} is not executable", full_path), binary.unwrap_err());
}

#[test]
fn expected_binaries_count_each_name_once() {
    let mut e = ExpectedBinaries::new(&["wasm-bindgen", "wasm-bindgen-test-runner", "wasm-bindgen"]);
    assert_eq!(e.missing(), "wasm-bindgen, wasm-bindgen-test-runner");
    assert!(e.contains("wasm-bindgen"));
    assert!(e.take("wasm-bindgen"));
    assert!(!e.take("wasm-bindgen"));
    assert!(!e.contains("wasm-bindgen"));
    assert_eq!(e.missing(), "wasm-bindgen-test-runner");
    assert!(!e.is_empty());
    assert!(e.take("wasm-bindgen-test-runner"));
    assert!(e.is_empty());
}

#[test]
fn claim_entry_matches_by_file_stem() {
    let mut e = ExpectedBinaries::new(&["wasm-bindgen"]);
    assert_eq!(e.claim_entry("pkg/README.md", "/dst"), None);
    assert_eq!(e.claim_entry("wasm-bindgen-0.2.87/wasm-bindgen.exe", "/dst"), Some("/dst/wasm-bindgen.exe".to_string()));
    assert!(e.is_empty());
    assert_eq!(e.claim_entry("wasm-bindgen-0.2.87/wasm-bindgen", "/dst"), None);
}

#[test]
fn missing_error_names_the_archive_kind() {
    let e = ExpectedBinaries::new(&["a", "b"]);
    assert_eq!(e.missing_error(true), "the zip was missing expected executables: a, b");
    assert_eq!(e.missing_error(false), "the tarball was missing expected executables: a, b");
}

#[test]
fn install_binaries_from_targz_at_url_should_return_archive_error_when_tarball_does_not_include_all_files() {
    let url = format!("http://{}:{}", "localhost", 7879);
    let mut expected = ExpectedBinaries::new(&["wasm-pack"]);
    assert_eq!(expected.claim_entry("foo.txt", "bin"), None);

    let result = install_binaries_outcome(&expected, false, &url);
    assert!(result.is_err());

    let expected_message = format!("the tarball at {} was missing expected executables: {}", url, "wasm-pack");
    match result.err().unwrap() {
        Error::Archive { message } => assert_eq!(expected_message, message),
        _ => panic!("Wrong error returned"),
    }
}

#[test]
fn install_binaries_succeeds_once_every_binary_was_found() {
    let mut expected = ExpectedBinaries::new(&["wasm-pack"]);
    assert_eq!(expected.claim_entry("wasm-pack", "bin"), Some("bin/wasm-pack".to_string()));
    assert!(install_binaries_outcome(&expected, false, "http://localhost:7880").is_ok());
}

#[test]
fn install_binaries_from_targz_at_url_should_return_http_error_for_bad_url() {
    let url = "";
    let err = download_error(&with_url_context(url));
    let expected_message = format!("when requesting {}", url);
    match err {
        Error::Http { message } => assert_eq!(expected_message, message),
        _ => panic!("Wrong error returned"),
    }
}

#[test]
fn curl_accepts_only_success_status_codes() {
    assert_eq!(curl("http://x/a", 200, vec![1, 2]).unwrap(), vec![1, 2]);
    assert_eq!(curl("http://x/a", 299, vec![]).unwrap(), Vec::<u8>::new());
    match curl("http://x/a", 404, vec![1]) {
        Err(Error::Http { message }) => {
            assert_eq!(message, "received a bad HTTP status code (404) when requesting http://x/a")
        }
        _ => panic!("expected an HTTP error"),
    }
    assert!(curl("http://x/a", 199, vec![]).is_err());
    assert!(curl("http://x/a", 300, vec![]).is_err());
}

#[test]
fn errors_describe_their_kind() {
    let a = Error::archive("bad");
    assert_eq!(a.message(), "bad");
    assert_eq!(a.error_type(), "There was an error related to an archive file. Details:\n\n");
    let h = Error::http("down");
    assert_eq!(h.error_type(), "There wasn an HTTP error. Details:\n\n");
    assert_eq!(h.message(), "down");
}

#[test]
fn dirname_from_hash_writes_the_bytes_least_significant_first() {
    assert_eq!(dirname_from_hash("wasm-pack", 0x0123_4567_89ab_cdef), "wasm-pack-efcdab8967452301");
    assert_eq!(dirname_from_hash("x", 0), "x-0000000000000000");
    assert_eq!(dirname_from_hash("", 0xff), "-ff00000000000000");
}

#[test]
fn download_failure_contexts() {
    assert_eq!(download_failed("http://h/a.tar.gz"), "failed to download from http://h/a.tar.gz");
    assert_eq!(extract_failed(false, "http://h/a.tar.gz"), "failed to extract tarball from http://h/a.tar.gz");
    assert_eq!(extract_failed(true, "http://h/a.zip"), "failed to extract zip from http://h/a.zip");
}

#[test]
fn it_returns_cache_dir() {
    let name = "wasm-pack";
    let cache = Cache::new(name);

    let expected = dirs::cache_dir()
        .or_else(dirs::home_dir)
        .unwrap()
        .join(".".to_owned() + name)
        .join("x");

    assert!(cache.is_ok());
    assert_eq!(cache.unwrap().join("x"), expected.to_string_lossy());
}

#[test]
fn it_downloads_tarball() {
    let url = format!("http://{}:{}", "localhost", 7880);
    let binary_name = "wasm-pack";
    let cache = Cache::at("/tmp/cache-dir");
    let full_url = format!("{}/{}.tar.gz", &url, binary_name);
    let dirname = hashed_dirname(&full_url, binary_name);

    match cache.download(true, binary_name, &full_url, false) {
        DownloadStep::Fetch { temp, destination, zip } => {
            assert_eq!(zip, Some(false));
            assert_eq!(temp, format!("/tmp/cache-dir/.{}", dirname));
            assert_eq!(destination, format!("/tmp/cache-dir/{}", dirname));
        }
        _ => panic!("expected a download"),
    }
    let mut expected = ExpectedBinaries::new(&[binary_name]);
    assert!(expected.claim_entry("wasm-pack", "/tmp/cache-dir/.x").is_some());
    assert!(expected.is_empty());
}

#[test]
fn it_returns_error_when_it_failed_to_download() {
    let url = format!("http://{}:{}", "localhost", 7881);
    let full_url = &format!("{}/{}.tar.gz", &url, "wasm-pack");
    assert_eq!(&format!("failed to download from {}", full_url), &download_failed(full_url));
}

#[test]
fn it_returns_error_when_it_failed_to_extract_tarball() {
    let url = format!("http://{}:{}", "localhost", 7882);
    let full_url = &format!("{}/{}.tar.gz", &url, "wasm-pack");
    match Cache::at("/tmp/c").download(true, "wasm-pack", full_url, false) {
        DownloadStep::Fetch { zip, .. } => {
            assert_eq!(&format!("failed to extract tarball from {}", full_url), &extract_failed(zip.unwrap(), full_url))
        }
        _ => panic!("expected a download"),
    }
}

#[test]
fn it_returns_error_when_it_failed_to_extract_zip() {
    let url = format!("http://{}:{}", "localhost", 7883);
    let full_url = &format!("{}/{}.zip", &url, "wasm-pack");
    match Cache::at("/tmp/c").download(true, "wasm-pack", full_url, false) {
        DownloadStep::Fetch { zip, .. } => {
            assert_eq!(&format!("failed to extract zip from {}", full_url), &extract_failed(zip.unwrap(), full_url))
        }
        _ => panic!("expected a download"),
    }
}

#[test]
fn install_binaries_from_targz_at_url_should_return_archive_error_when_tarball_is_missing() {
    let url = format!("http://{}:{}", "localhost", 7878);
    let err = invalid_tarball(&url, "failed to fill whole buffer");
    let expected_message = format!("Invalid tarball at {}. Inner error: failed to fill whole buffer", url);
    match err {
        Error::Archive { message } => assert_eq!(expected_message, message),
        _ => panic!("Wrong error returned"),
    }
}

#[test]
fn download_of_an_unknown_archive_kind_is_decided_after_fetching() {
    match Cache::at("/c").download(true, "wasm-pack", "http://localhost:7884/wasm-pack.bin", false) {
        DownloadStep::Fetch { zip, .. } => assert_eq!(zip, None),
        _ => panic!("expected a fetch"),
    }
}

fn tar_gz(files: &[(&str, &[u8])]) -> Vec<u8> {
    let mut encoder = flate2::write::GzEncoder::new(Vec::new(), flate2::Compression::default());
    {
        let mut builder = tar::Builder::new(&mut encoder);
        for (name, bytes) in files {
            let mut header = tar::Header::new_gnu();
            header.set_size(bytes.len() as u64);
            header.set_mode(0o755);
            header.set_cksum();
            builder.append_data(&mut header, name, *bytes).unwrap();
        }
        builder.finish().unwrap();
    }
    encoder.finish().unwrap()
}

fn zip_archive(files: &[(&str, &[u8])]) -> Vec<u8> {
    let mut w = zip::ZipWriter::new(std::io::Cursor::new(Vec::new()));
    for (name, bytes) in files {
        w.start_file(*name, zip::write::FileOptions::default()).unwrap();
        std::io::Write::write_all(&mut w, bytes).unwrap();
    }
    w.finish().unwrap().into_inner()
}

#[test]
fn extraction_plan_takes_the_first_entry_of_each_binary() {
    let data = tar_gz(&[
        ("dist/README.md", b"readme"),
        ("dist/wasm-bindgen", b"one"),
        ("dist/wasm-bindgen-test-runner", b"two"),
        ("other/wasm-bindgen", b"again"),
    ]);
    let plan = plan_extraction(&data, false, "/tmp/x", &["wasm-bindgen", "wasm-bindgen-test-runner"]).unwrap();
    assert_eq!(
        plan,
        vec![
            ("/tmp/x/wasm-bindgen".to_string(), b"one".to_vec()),
            ("/tmp/x/wasm-bindgen-test-runner".to_string(), b"two".to_vec()),
        ]
    );
}

#[test]
fn extraction_plan_reads_zips() {
    let data = zip_archive(&[("wasm-opt.exe", b"bin"), ("lib/x.dll", b"lib")]);
    let plan = plan_extraction(&data, true, "/t", &["wasm-opt"]).unwrap();
    assert_eq!(plan, vec![("/t/wasm-opt.exe".to_string(), b"bin".to_vec())]);
}

#[test]
fn extraction_plan_names_missing_binaries() {
    let data = tar_gz(&[("foo.txt", b"x")]);
    assert_eq!(
        plan_extraction(&data, false, "/t", &["wasm-pack"]).unwrap_err(),
        "the tarball was missing expected executables: wasm-pack"
    );
    let z = zip_archive(&[("foo.txt", b"x")]);
    assert_eq!(
        plan_extraction(&z, true, "/t", &["wasm-pack"]).unwrap_err(),
        "the zip was missing expected executables: wasm-pack"
    );
}

#[test]
fn extraction_plan_refuses_unreadable_archives() {
    assert!(plan_extraction(b"not an archive", true, "/t", &["x"]).is_err());
    assert!(plan_extraction(b"", false, "/t", &["x"]).is_err());
}
