use wasm_pack::binary_install::Cache;
use wasm_pack::command::build::{get_process_steps, select_profile, BuildProfile, BuildStep, Target};
use wasm_pack::command::publish::{publish, PublishStep};
use wasm_pack::command::watch::{serve, watch, watch_path, WatchAction, WatchEvent};
use wasm_pack::command::init::{set_crate_path, Init, InitOptions, InitStep};
use wasm_pack::command::install::{cargo_install_wasm_bindgen, rustup_add_wasm_target};
use wasm_pack::command::login::login;
use wasm_pack::command::publish::access::Access;
use wasm_pack::command::test::{Test, TestOptions, TestStep};
use wasm_pack::command::utils::{elapsed, ends_with, get_crate_path, is_pkg_directory, parent};
use wasm_pack::command::{run_wasm_pack, Command, Invocation};
use wasm_pack::error::Error;
use wasm_pack::install::InstallMode;

fn strings(v: &[&str]) -> Vec<String> {
    v.iter().map(|s| s.to_string()).collect()
}

#[test]
fn target_names_read_back() {
    for t in [Target::Bundler, Target::Web, Target::Nodejs, Target::NoModules, Target::Deno] {
        let back = Target::from_str(&t.to_string()).unwrap();
        assert_eq!(back.to_string(), t.to_string());
    }
    assert_eq!(Target::from_str("browser").unwrap().to_string(), "bundler");
    assert_eq!(Target::from_str("no-modules").unwrap().to_string(), "no-modules");
    assert_eq!(Target::from_str("webpack").err().unwrap(), "Unknown target: webpack");
    assert!(matches!(Target::default(), Target::Bundler));
}

#[test]
fn access_levels() {
    assert_eq!(Access::from_str("public").unwrap().to_string(), "--access=public");
    assert_eq!(Access::from_str("restricted").unwrap().to_string(), "--access=restricted");
    assert_eq!(Access::from_str("private").unwrap().to_string(), "--access=restricted");
    assert_eq!(
        Access::from_str("secret").err().unwrap(),
        "secret is not a supported access level. See https://docs.npmjs.com/cli/access for more information on npm package access levels."
    );
}

#[test]
fn install_modes() {
    assert!(matches!(InstallMode::parse("no-install").unwrap(), InstallMode::Noinstall));
    assert!(matches!(InstallMode::parse("normal").unwrap(), InstallMode::Normal));
    assert!(matches!(InstallMode::parse("force").unwrap(), InstallMode::Force));
    assert_eq!(InstallMode::parse("quick").err().unwrap(), "Unknown build mode: quick");
    assert!(InstallMode::Normal.install_permitted());
    assert!(InstallMode::Force.install_permitted());
    assert!(!InstallMode::Noinstall.install_permitted());
    assert!(matches!(InstallMode::default(), InstallMode::Normal));
}

#[test]
fn profiles() {
    assert!(matches!(select_profile(false, false, false, false).unwrap(), BuildProfile::Release));
    assert!(matches!(select_profile(false, false, true, false).unwrap(), BuildProfile::Release));
    assert!(matches!(select_profile(true, false, false, false).unwrap(), BuildProfile::Dev));
    assert!(matches!(select_profile(false, true, false, false).unwrap(), BuildProfile::Dev));
    assert!(matches!(select_profile(false, false, false, true).unwrap(), BuildProfile::Profiling));
    assert_eq!(
        select_profile(true, false, true, false).err().unwrap(),
        "Can only supply one of the --dev, --release, or --profiling flags"
    );
    assert!(select_profile(false, false, true, true).is_err());
}

#[test]
fn login_defaults_to_the_npm_registry() {
    let l = login(None, &Some("@me".to_string()), &None);
    assert_eq!(l.registry, "https://registry.npmjs.org/");
    assert_eq!(l.scope, Some("@me".to_string()));
    let g = login(Some("http://r".to_string()), &None, &Some("legacy".to_string()));
    assert_eq!(g.registry, "http://r");
    assert_eq!(g.auth_type, Some("legacy".to_string()));
}

#[test]
fn dispatch_keeps_the_options() {
    match run_wasm_pack(Command::Generate {
        name: "hello".to_string(),
        template: "https://t".to_string(),
        mode: InstallMode::Noinstall,
    }) {
        Invocation::Generate { template, name, install_permitted } => {
            assert_eq!(template, "https://t");
            assert_eq!(name, "hello");
            assert!(!install_permitted);
        }
        _ => panic!("expected generate"),
    }
    match run_wasm_pack(Command::Login { registry: None, scope: None, auth_type: None }) {
        Invocation::Login(l) => assert_eq!(l.registry, "https://registry.npmjs.org/"),
        _ => panic!("expected login"),
    }
    match run_wasm_pack(Command::Pack { pkg_directory: "pkg".to_string(), path: None }) {
        Invocation::Pack { path, pkg_directory } => {
            assert_eq!(path, None);
            assert_eq!(pkg_directory, "pkg");
        }
        _ => panic!("expected pack"),
    }
}

fn options() -> TestOptions {
    TestOptions::default()
}

#[test]
fn test_needs_an_environment() {
    let e = Test::try_from_opts(options(), ".".to_string(), Cache::at("/c"));
    assert_eq!(
        e.err().unwrap(),
        "Must specify at least one of `--node`, `--chrome`, `--firefox`, or `--safari`"
    );
    let mut o = options();
    o.node = true;
    o.headless = true;
    assert!(Test::try_from_opts(o, ".".to_string(), Cache::at("/c")).err().unwrap().starts_with(
        "The `--headless` flag only applies to browser tests."
    ));
}

#[test]
fn test_steps_follow_the_chosen_environments() {
    let mut o = options();
    o.node = true;
    o.chrome = true;
    o.firefox = true;
    o.geckodriver = Some("/usr/bin/geckodriver".to_string());
    o.path_and_extra_options = strings(&["my-crate", "--features", "x", "--", "--nocapture"]);
    let t = Test::try_from_opts(o, "/cwd".to_string(), Cache::at("/c")).unwrap();
    let steps = t.get_process_steps();
    assert!(matches!(
        steps.as_slice(),
        [
            TestStep::CheckRustcVersion,
            TestStep::CheckForWasmTarget,
            TestStep::BuildTests,
            TestStep::InstallWasmBindgen,
            TestStep::TestNode,
            TestStep::GetChromedriver,
            TestStep::TestChrome,
            TestStep::TestFirefox,
        ]
    ));
    assert_eq!(t.crate_path(), "my-crate");
    assert_eq!(t.extra_options(), &strings(&["--features", "x", "--", "--nocapture"]));
    assert_eq!(t.build_test_options(), strings(&["--features", "x"]));
    assert_eq!(t.cache().join("x"), "/c/x");
    let (chrome, gecko, safari) = t.drivers();
    assert_eq!(chrome, None);
    assert_eq!(gecko, Some("/usr/bin/geckodriver".to_string()));
    assert_eq!(safari, None);
}

#[test]
fn test_crate_path_defaults_to_the_found_one() {
    let mut o = options();
    o.safari = true;
    o.mode = InstallMode::Noinstall;
    o.release = true;
    o.path_and_extra_options = strings(&["--release"]);
    let t = Test::try_from_opts(o, "/cwd".to_string(), Cache::at("/c")).unwrap();
    assert_eq!(t.crate_path(), "/cwd");
    assert!(t.release());
    assert!(matches!(t.mode(), InstallMode::Noinstall));
    assert!(matches!(
        t.get_process_steps().as_slice(),
        [TestStep::BuildTests, TestStep::InstallWasmBindgen, TestStep::GetSafaridriver, TestStep::TestSafari]
    ));
}

#[test]
fn test_environments() {
    let mut o = options();
    o.chrome = true;
    o.headless = true;
    let mut t = Test::try_from_opts(o, "/cwd".to_string(), Cache::at("/c")).unwrap();
    t.set_test_runner_path("/bin/runner".to_string());
    assert_eq!(
        t.webdriver_env(),
        vec![
            ("CARGO_TARGET_WASM32_UNKNOWN_UNKNOWN_RUNNER".to_string(), "/bin/runner".to_string()),
            ("WASM_BINDGEN_TEST_ONLY_WEB".to_string(), "1".to_string()),
        ]
    );
    assert_eq!(
        t.node_env(),
        vec![
            ("CARGO_TARGET_WASM32_UNKNOWN_UNKNOWN_RUNNER".to_string(), "/bin/runner".to_string()),
            ("WASM_BINDGEN_TEST_ONLY_NODE".to_string(), "1".to_string()),
        ]
    );
    let b = t.browser_env("CHROMEDRIVER", "/bin/chromedriver");
    assert_eq!(b.last().unwrap(), &("CHROMEDRIVER".to_string(), "/bin/chromedriver".to_string()));
    t.set_driver(TestStep::GetChromedriver, "/bin/chromedriver".to_string());
    assert_eq!(t.drivers().0, Some("/bin/chromedriver".to_string()));
    t.set_cache(Cache::at("/other"));
    assert_eq!(t.cache().join("y"), "/other/y");
}

#[test]
fn test_environment_shows_the_browser_unless_headless() {
    let mut o = options();
    o.firefox = true;
    let mut t = Test::try_from_opts(o, "/cwd".to_string(), Cache::at("/c")).unwrap();
    t.set_test_runner_path("r".to_string());
    assert_eq!(t.webdriver_env().last().unwrap(), &("NO_HEADLESS".to_string(), "1".to_string()));
}

#[test]
fn init_options() {
    let i = Init::from(InitOptions {
        path: None,
        scope: Some("me".to_string()),
        disable_dts: true,
        target: "nodejs".to_string(),
    });
    assert_eq!(i.crate_path(), ".");
    assert_eq!(i.scope(), &Some("me".to_string()));
    assert!(i.disable_dts());
    assert_eq!(i.target(), "nodejs");
    assert!(matches!(
        Init::set_process_steps().as_slice(),
        [InitStep::CreateDir, InitStep::CreateJson, InitStep::CopyReadme]
    ));
    assert_eq!(set_crate_path(Some("x".to_string())), "x");
}

#[test]
fn installs_are_judged_by_their_exit() {
    assert!(rustup_add_wasm_target(true, "").is_ok());
    match rustup_add_wasm_target(false, "no network") {
        Err(Error::Cli { message, stderr }) => {
            assert_eq!(message, "Adding the wasm32-unknown-unknown target failed");
            assert_eq!(stderr, "no network");
        }
        _ => panic!("expected a CLI error"),
    }
    assert!(cargo_install_wasm_bindgen(false, "binary `wasm-bindgen` already exists in destination").is_ok());
    match cargo_install_wasm_bindgen(false, "boom") {
        Err(Error::Cli { message, .. }) => assert_eq!(message, "Installing wasm-bindgen failed"),
        _ => panic!("expected a CLI error"),
    }
}

#[test]
fn command_utils() {
    assert_eq!(get_crate_path(Some("a".to_string()), "b".to_string()), "a");
    assert_eq!(get_crate_path(None, "b".to_string()), "b");
    assert_eq!(parent("/usr/local/bin/rustup"), Some("/usr/local/bin".to_string()));
    assert_eq!(parent("rustup"), Some("".to_string()));
    assert_eq!(parent("/"), None);
    assert!(ends_with("/work/crate/pkg", "pkg"));
    assert!(ends_with("/work/crate/pkg/", "crate/pkg"));
    assert!(!ends_with("/work/crate/pkgs", "pkg"));
    assert!(is_pkg_directory(true, true, "/w/pkg", "pkg"));
    assert!(!is_pkg_directory(true, false, "/w/pkg", "pkg"));
    assert_eq!(elapsed(75, 0), "1m 15s");
    assert_eq!(elapsed(3, 450_000_000), "3.45s");
    assert_eq!(elapsed(0, 5_000_000), "0.00s");
}

#[test]
fn publish_uses_the_package_directory_found() {
    match publish(Some("/c/pkg".to_string()), None, "\"/c\"") {
        PublishStep::Publish { pkg_directory } => assert_eq!(pkg_directory, "/c/pkg"),
        _ => panic!("expected to publish"),
    }
    match publish(None, None, "\"/c\"") {
        PublishStep::Fail(m) => {
            assert_eq!(m, "Unable to find the pkg directory at path '\"/c\"',or in a child directory of '\"/c\"'")
        }
        _ => panic!("expected a failure"),
    }
}

#[test]
fn publish_reads_the_picked_index_as_a_target_name() {
    match publish(None, Some((".".to_string(), 2)), "\"/c\"") {
        PublishStep::Fail(m) => assert_eq!(m, "Unknown target: 2"),
        _ => panic!("expected a failure"),
    }
}

#[test]
fn watching_and_serving() {
    assert!(matches!(watch(None), WatchAction::Build));
    assert!(matches!(watch(Some(WatchEvent::Changed)), WatchAction::Build));
    assert!(matches!(watch(Some(WatchEvent::NoticeWrite)), WatchAction::Wait));
    assert!(matches!(watch(Some(WatchEvent::NoticeRemove)), WatchAction::Wait));
    assert_eq!(watch_path("/c"), "/c/src");
    let plan = serve(false, None, None, "/c");
    assert_eq!(plan.port, 8000);
    assert_eq!(plan.root, "/c");
    assert!(plan.watch);
    let other = serve(true, Some(9000), Some("/www".to_string()), "/c");
    assert_eq!((other.port, other.root.as_str(), other.watch), (9000, "/www", false));
}

#[test]
fn build_steps_follow_the_options() {
    let all = get_process_steps(InstallMode::Normal, false, false);
    assert!(matches!(
        all.as_slice(),
        [
            BuildStep::CheckRustcVersion,
            BuildStep::CheckCrateConfig,
            BuildStep::CheckForWasmTarget,
            BuildStep::BuildWasm,
            BuildStep::CreateDir,
            BuildStep::InstallWasmBindgen,
            BuildStep::RunWasmBindgen,
            BuildStep::RunWasmOpt,
            BuildStep::CreateJson,
            BuildStep::CopyReadme,
            BuildStep::CopyLicense,
        ]
    ));
    let forced = get_process_steps(InstallMode::Force, true, true);
    assert!(matches!(
        forced.as_slice(),
        [BuildStep::BuildWasm, BuildStep::CreateDir, BuildStep::InstallWasmBindgen, BuildStep::RunWasmBindgen]
    ));
}

#[test]
fn a_driver_path_implies_its_browser() {
    let mut o = options();
    o.geckodriver = Some("/bin/geckodriver".to_string());
    let t = Test::try_from_opts(o, "/cwd".to_string(), Cache::at("/c")).unwrap();
    assert!(matches!(
        t.get_process_steps().as_slice(),
        [
            TestStep::CheckRustcVersion,
            TestStep::CheckForWasmTarget,
            TestStep::BuildTests,
            TestStep::InstallWasmBindgen,
            TestStep::TestFirefox,
        ]
    ));
    assert_eq!(t.drivers(), (None, Some("/bin/geckodriver".to_string()), None));

    let mut c = options();
    c.chromedriver = Some("/bin/chromedriver".to_string());
    c.safaridriver = Some("/bin/safaridriver".to_string());
    c.headless = true;
    let t = Test::try_from_opts(c, "/cwd".to_string(), Cache::at("/c")).unwrap();
    assert!(matches!(
        t.get_process_steps().as_slice(),
        [
            TestStep::CheckRustcVersion,
            TestStep::CheckForWasmTarget,
            TestStep::BuildTests,
            TestStep::InstallWasmBindgen,
            TestStep::TestChrome,
            TestStep::TestSafari,
        ]
    ));
    assert_eq!(t.drivers(), (Some("/bin/chromedriver".to_string()), None, Some("/bin/safaridriver".to_string())));
}

#[test]
fn modes_differ_only_in_their_checks() {
    let mut steps = Vec::new();
    for mode in [InstallMode::Normal, InstallMode::Force, InstallMode::Noinstall] {
        let mut o = options();
        o.node = true;
        o.mode = mode;
        steps.push(Test::try_from_opts(o, "/cwd".to_string(), Cache::at("/c")).unwrap().get_process_steps());
    }
    assert_eq!(steps[0].len(), 5);
    assert!(matches!(steps[0][0], TestStep::CheckRustcVersion));
    assert_eq!(steps[1].len(), 4);
    assert!(matches!(steps[1][0], TestStep::CheckForWasmTarget));
    assert_eq!(steps[2].len(), 3);
    assert!(matches!(steps[2][0], TestStep::BuildTests));
    let normal = get_process_steps(InstallMode::Normal, false, true);
    let forced = get_process_steps(InstallMode::Force, false, true);
    assert_eq!(forced.len() + 3, normal.len());
    assert_eq!(get_process_steps(InstallMode::Noinstall, false, true).len(), normal.len());
}
