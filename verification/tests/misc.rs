use wasm_pack::build::WasmPackVersion;
use wasm_pack::cache::get_wasm_pack_cache;
use wasm_pack::child::{new_command, run, run_capture_stdout, CommandError, Exit};
use wasm_pack::error::Error;
use wasm_pack::generate::generate;
use wasm_pack::installer::{confirm_can_overwrite, install_destination};
use wasm_pack::installer_page::{fixup, manifest_version};
use wasm_pack::license::{copy_from_crate, license_copy, LicensePlan};
use wasm_pack::logger::{log_file_path, log_level, manifest_path, this_dir, Level};
use wasm_pack::workflow::{crate_path, get_cmd_action, get_cmd_path, get_cmd_scope, Action, Command, Context};
use wasm_pack::{newer_version_notice, LogLevel};

fn exit(success: bool) -> Exit {
    Exit {
        success,
        status: "exit status: 1".to_string(),
        stdout: "out".to_string(),
        stderr: "err".to_string(),
    }
}

#[test]
fn commands_launch_through_cmd_on_windows() {
    assert_eq!(new_command("npm", false), vec!["npm".to_string()]);
    assert_eq!(new_command("npm", true), vec!["cmd".to_string(), "/c".to_string(), "npm".to_string()]);
}

#[test]
fn command_outcomes() {
    assert!(run(Ok(exit(true)), "cargo").is_ok());
    let e = run(Ok(exit(false)), "cargo build").unwrap_err();
    assert_eq!(e.to_string(), "failed to execute `cargo build`: exited with exit status: 1");
    assert_eq!(e.stderr, Some("err".to_string()));
    let launch = run(Err("No such file or directory".to_string()), "npm").unwrap_err();
    assert_eq!(launch.to_string(), "failed to execute `npm`: No such file or directory");
    assert_eq!(launch.stderr, None);
    assert_eq!(run_capture_stdout(Ok(exit(true)), "rustc").unwrap(), "out");
    assert!(run_capture_stdout(Ok(exit(false)), "rustc").is_err());
    let s = CommandError::from_status("x", "signal: 9", None);
    assert_eq!(s.to_string(), "failed to execute `x`: exited with signal: 9");
    assert_eq!(CommandError::from_error("y", "denied").to_string(), "failed to execute `y`: denied");
}

#[test]
fn wasm_pack_errors() {
    let cli = Error::cli("Installing wasm-bindgen failed", "boom");
    assert_eq!(cli.to_string(), "Installing wasm-bindgen failed. stderr:\n\nboom");
    assert_eq!(cli.error_type(), "There was an error while calling another CLI tool. Details:\n\n");
    let config = Error::crate_config("bad");
    assert_eq!(config.to_string(), "bad");
    assert_eq!(config.error_type(), "There was a crate configuration error. Details:\n\n");
    assert_eq!(Error::Io("disk".to_string()).error_type(), "There was an I/O error. Details:\n\n");
    assert_eq!(
        Error::PkgNotFound { message: "m".to_string() }.error_type(),
        "Unable to find the 'pkg' directory at the path, set the path as the parent of the 'pkg' directory \n\n"
    );
}

#[test]
fn cache_location() {
    let c = get_wasm_pack_cache(Some("/tmp/wp-cache".to_string())).unwrap();
    assert_eq!(c.join("a"), "/tmp/wp-cache/a");
}

#[test]
fn generate_arguments() {
    assert_eq!(
        generate("https://github.com/rustwasm/wasm-pack-template", "hello"),
        vec![
            "generate".to_string(),
            "--git".to_string(),
            "https://github.com/rustwasm/wasm-pack-template".to_string(),
            "--name".to_string(),
            "hello".to_string(),
        ]
    );
}

#[test]
fn installer_destination() {
    assert_eq!(install_destination("/home/u/.cargo/bin/rustup", false).unwrap(), "/home/u/.cargo/bin/wasm-pack");
    assert_eq!(install_destination("C:/cargo/bin/rustup.exe", true).unwrap(), "C:/cargo/bin/wasm-pack.exe");
    assert_eq!(
        install_destination("/", false).unwrap_err(),
        "can't install when `rustup` is at the root of the filesystem"
    );
}

#[test]
fn installer_overwrite() {
    assert!(confirm_can_overwrite("/b/wasm-pack", true, false, "").is_ok());
    assert_eq!(
        confirm_can_overwrite("/b/wasm-pack", false, false, "").unwrap_err(),
        "existing wasm-pack installation found at `/b/wasm-pack`, pass `-f` to force installation over this file, otherwise aborting installation now"
    );
    assert!(confirm_can_overwrite("/b/wasm-pack", false, true, "yes\n").is_ok());
    assert!(confirm_can_overwrite("/b/wasm-pack", false, true, "Y").is_ok());
    assert_eq!(confirm_can_overwrite("/b/wasm-pack", false, true, "no").unwrap_err(), "aborting installation");
}

#[test]
fn license_plans() {
    match copy_from_crate(&Some("MIT".to_string()), &None, "/c", "/c/pkg") {
        LicensePlan::Glob { pattern } => assert_eq!(pattern, "/c/LICENSE*"),
        _ => panic!("expected a glob"),
    }
    match copy_from_crate(&None, &Some("COPYING".to_string()), "/c", "/c/pkg") {
        LicensePlan::File { from, to } => {
            assert_eq!(from, "/c/COPYING");
            assert_eq!(to, "/c/pkg/COPYING");
        }
        _ => panic!("expected a file"),
    }
    assert!(matches!(copy_from_crate(&None, &None, "/c", "/c/pkg"), LicensePlan::Nothing));
    assert_eq!(
        license_copy("/c/LICENSE-MIT", "/c", "/c/pkg").unwrap(),
        ("/c/LICENSE-MIT".to_string(), "/c/pkg/LICENSE-MIT".to_string())
    );
    assert_eq!(license_copy("/", "/c", "/c/pkg").unwrap_err(), "Could not get file name from path");
}

#[test]
fn logging() {
    assert!(matches!(log_level(0), Level::Error));
    assert!(matches!(log_level(1), Level::Info));
    assert!(matches!(log_level(2), Level::Debug));
    assert!(matches!(log_level(7), Level::Trace));
    assert_eq!(this_dir(), ".");
    assert_eq!(manifest_path("/c"), "/c/Cargo.toml");
    assert_eq!(log_file_path(&Some("/c".to_string()), true), "/c/wasm-pack.log");
    assert_eq!(log_file_path(&Some("/c".to_string()), false), "./wasm-pack.log");
    assert_eq!(log_file_path(&None, true), "./wasm-pack.log");
    assert!(matches!(LogLevel::from_str("warn").unwrap(), LogLevel::Warn));
    assert_eq!(LogLevel::from_str("loud").err().unwrap(), "Unknown log-level: loud");
}

#[test]
fn newer_versions() {
    let v = WasmPackVersion { local: "0.12.0".to_string(), latest: "0.13.1".to_string() };
    assert_eq!(
        newer_version_notice(&v).unwrap(),
        "There's a newer version of wasm-pack available, the new version is: 0.13.1, you are using: 0.12.0. To update, navigate to: https://rustwasm.github.io/wasm-pack/installer/"
    );
    let same = WasmPackVersion { local: "0.13.1".to_string(), latest: "0.13.1".to_string() };
    assert_eq!(newer_version_notice(&same), None);
    let unknown = WasmPackVersion { local: "0.13.1".to_string(), latest: "".to_string() };
    assert_eq!(newer_version_notice(&unknown), None);
}

#[test]
fn workflow_context() {
    let init = Command::Init { path: None, scope: Some("me".to_string()) };
    assert!(matches!(get_cmd_action(&init), Action::Init));
    assert_eq!(get_cmd_path(&init), ".");
    assert_eq!(get_cmd_scope(&init), Some("me".to_string()));
    let pack = Command::Pack { path: Some("/c".to_string()) };
    let ctx = Context::new(&pack, 2);
    assert!(matches!(ctx.run(), Action::Pack));
    assert_eq!(ctx.path(), "/c");
    assert_eq!(ctx.scope(), &None);
    assert_eq!(crate_path(None), ".");
    assert_eq!(get_cmd_scope(&Command::Publish { path: None }), None);
}

#[test]
fn pack_and_publish_messages() {
    let ctx = Context::new(&Command::Pack { path: None }, 0);
    let (ok, message) = ctx.pack(Ok(()));
    assert!(ok.is_ok());
    assert_eq!(message, Some("\u{1f392}  packed up your package!".to_string()));
    let (failed, none) = ctx.publish(Err(Error::cli("Publishing failed", "")));
    assert!(failed.is_err());
    assert_eq!(none, None);
    assert_eq!(ctx.publish(Ok(())).1, Some("\u{1f4a5}  published your package!".to_string()));
}

#[test]
fn installer_templates_get_the_version() {
    assert_eq!(
        fixup("curl https://x/$VERSION/init.sh | sh # $VERSION", "0.13.1"),
        "curl https://x/v0.13.1/init.sh | sh # v0.13.1"
    );
    assert_eq!(fixup("$VERSIO", "1"), "$VERSIO");
    assert_eq!(fixup("$$VERSION$", "1"), "$v1$");
    assert_eq!(fixup("", "1"), "");
}

#[test]
fn installer_version_comes_from_the_first_version_line() {
    let manifest = "[package]\nname = \"wasm-pack\"\nversion = \"0.13.1\"\n[dependencies]\nversion = \"9\"\n";
    assert_eq!(manifest_version(manifest), Some("0.13.1".to_string()));
    assert_eq!(manifest_version("version = \"1.2.3\"\r\n"), Some("1.2.3".to_string()));
    assert_eq!(manifest_version("[package]\nname = \"x\"\n"), None);
    assert_eq!(manifest_version("version = 3\n"), None);
    assert_eq!(manifest_version("version = \"1\" # \"x\""), Some("1\" # \"x".to_string()));
    assert_eq!(manifest_version(" version = \"1\""), None);
}

fn named_manifest(name: &str) -> wasm_pack::manifest::CargoManifest {
    wasm_pack::manifest::CargoManifest {
        package: wasm_pack::manifest::CargoPackage {
            name: name.to_string(),
            authors: vec![],
            description: None,
            version: "0.1.0".to_string(),
            license: None,
            repository: None,
        },
        dependencies: None,
        dev_dependencies: None,
        lib: None,
    }
}

#[test]
fn context_manifest_is_read_once() {
    let mut ctx = Context::new(&Command::Init { path: Some("/c".to_string()), scope: None }, 1);
    assert!(ctx.manifest_missing());
    assert!(ctx.manifest().is_none());
    ctx.set_manifest(named_manifest("first"));
    assert!(!ctx.manifest_missing());
    ctx.set_manifest(named_manifest("second"));
    assert_eq!(ctx.manifest().unwrap().package.name, "first");
    assert_eq!(ctx.path(), "/c");
}

#[test]
fn context_run_outcome() {
    let ctx = Context::new(&Command::Pack { path: None }, 0);
    let (report, result) = ctx.finish(Ok(()), Ok(()));
    assert_eq!(report, None);
    assert!(result.is_ok());
    let (report, result) = ctx.finish(Err(Error::crate_config("bad")), Ok(()));
    assert_eq!(report, Some("There was a crate configuration error. Details:\n\n".to_string()));
    assert_eq!(result.unwrap_err().to_string(), "bad");
    let (report, result) = ctx.finish(Err(Error::crate_config("bad")), Err(Error::Io("tty".to_string())));
    assert!(report.is_some());
    assert_eq!(result.unwrap_err().to_string(), "tty");
    let (report, result) = ctx.finish(Ok(()), Err(Error::Io("tty".to_string())));
    assert_eq!(report, None);
    assert_eq!(result.unwrap_err().to_string(), "tty");
}
