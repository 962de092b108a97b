use aztec_noir::command::{
    build_command, launch, ArgValue, BinaryKind, LaunchSpec, ResolvedBinary, ToolSettings,
};
use aztec_noir::error::ResolveError;
use aztec_noir::platform::{Architecture, Os, Platform};
use aztec_noir::release::{
    binary_path, entry_is_stale, find_asset, stale_directories, version_directory, ReleaseAsset,
};
use aztec_noir::text::{join, starts_with};

fn binary(path: &str, kind: BinaryKind) -> ResolvedBinary {
    ResolvedBinary { path: path.to_string(), kind }
}

fn text(value: &str) -> ArgValue {
    ArgValue::Text(value.to_string())
}

fn strings(values: &[&str]) -> Vec<String> {
    values.iter().map(|value| value.to_string()).collect()
}

#[test]
fn raw_tool_gets_mode_token_then_extra_arguments() {
    let settings = ToolSettings { path: None, args: Some(vec![text("--foo"), text("bar")]) };
    let spec = build_command(binary("/usr/bin/nargo", BinaryKind::RawTool), &settings);
    assert_eq!(
        spec,
        LaunchSpec {
            command: "/usr/bin/nargo".to_string(),
            args: strings(&["lsp", "--foo", "bar"]),
            env: Vec::new(),
        }
    );
}

#[test]
fn values_that_are_not_strings_are_left_out() {
    let settings = ToolSettings {
        path: None,
        args: Some(vec![
            ArgValue::Other,
            text("--foo"),
            ArgValue::Other,
            ArgValue::Other,
            text("bar"),
            ArgValue::Other,
        ]),
    };
    let spec = build_command(binary("nargo", BinaryKind::RawTool), &settings);
    assert_eq!(spec.args, strings(&["lsp", "--foo", "bar"]));
    let only_others = ToolSettings { path: None, args: Some(vec![ArgValue::Other]) };
    let spec = build_command(binary("nargo", BinaryKind::RawTool), &only_others);
    assert_eq!(spec.args, strings(&["lsp"]));
}

#[test]
fn wrapper_gets_only_the_extra_arguments() {
    let settings = ToolSettings { path: None, args: Some(vec![text("--foo"), text("bar")]) };
    let spec = build_command(binary("/bin/aztec-lsp", BinaryKind::Wrapper), &settings);
    assert_eq!(spec.command, "/bin/aztec-lsp");
    assert_eq!(spec.args, strings(&["--foo", "bar"]));
    assert!(spec.env.is_empty());
}

#[test]
fn missing_or_empty_argument_list_adds_nothing() {
    for args in [None, Some(Vec::new())] {
        let settings = ToolSettings { path: Some("/ignored/here".to_string()), args };
        let raw = build_command(binary("nargo", BinaryKind::RawTool), &settings);
        assert_eq!(raw.args, strings(&["lsp"]));
        let wrapped = build_command(binary("w", BinaryKind::Wrapper), &settings);
        assert!(wrapped.args.is_empty());
    }
}

#[test]
fn arguments_are_not_examined() {
    let settings = ToolSettings {
        path: None,
        args: Some(vec![text(""), text("lsp"), text("--bad flag"), text("\u{e9}t\u{e9}")]),
    };
    let spec = build_command(binary("nargo", BinaryKind::RawTool), &settings);
    assert_eq!(spec.args, strings(&["lsp", "", "lsp", "--bad flag", "\u{e9}t\u{e9}"]));
}

#[test]
fn launch_builds_the_command_or_passes_the_message_on() {
    let settings = ToolSettings { path: None, args: Some(vec![text("-v")]) };
    let started = launch(Ok(binary("/usr/bin/nargo", BinaryKind::RawTool)), &settings);
    assert_eq!(
        started,
        Ok(LaunchSpec {
            command: "/usr/bin/nargo".to_string(),
            args: strings(&["lsp", "-v"]),
            env: Vec::new(),
        })
    );
    let failed = launch(
        Err(ResolveError::DownloadOrExtractFailed("disk full".to_string())),
        &settings,
    );
    assert_eq!(failed, Err("failed to download nargo: disk full".to_string()));
}

#[test]
fn every_failure_has_its_message() {
    let platform = Platform { os: Os::Windows, arch: Architecture::Aarch64 };
    let cases = [
        (
            ResolveError::ManualInstallRequired,
            "Noir does not provide pre-built Windows binaries. Please build nargo from source and add it to your PATH: https://noir-lang.org/docs/getting_started/installation/",
        ),
        (
            ResolveError::UnsupportedPlatform(platform),
            "unsupported platform: Os::Windows Architecture::Aarch64",
        ),
        (ResolveError::ReleaseMetadataUnavailable("no network".to_string()), "no network"),
        (ResolveError::AssetNotFound("a.tar.gz".to_string()), "no asset found for a.tar.gz"),
        (
            ResolveError::DownloadOrExtractFailed("bad gzip header".to_string()),
            "failed to download nargo: bad gzip header",
        ),
        (ResolveError::MakeExecutableFailed("read-only".to_string()), "read-only"),
        (ResolveError::ReleaseMetadataUnavailable(String::new()), ""),
    ];
    for (error, message) in cases {
        assert_eq!(error.message(), message);
    }
}

#[test]
fn asset_table_has_four_entries() {
    let os = [Os::Mac, Os::Linux, Os::Windows];
    let arch = [Architecture::Aarch64, Architecture::X86, Architecture::X8664];
    let mut named = Vec::new();
    for o in os {
        for a in arch {
            if let Some(name) = (Platform { os: o, arch: a }).asset_name() {
                named.push((o, a, name));
            }
        }
    }
    assert_eq!(
        named,
        vec![
            (Os::Mac, Architecture::Aarch64, "nargo-aarch64-apple-darwin.tar.gz"),
            (Os::Mac, Architecture::X8664, "nargo-x86_64-apple-darwin.tar.gz"),
            (Os::Linux, Architecture::Aarch64, "nargo-aarch64-unknown-linux-gnu.tar.gz"),
            (Os::Linux, Architecture::X8664, "nargo-x86_64-unknown-linux-gnu.tar.gz"),
        ]
    );
}

#[test]
fn only_windows_lacks_prebuilt_releases() {
    assert!(Os::Mac.has_prebuilt_releases());
    assert!(Os::Linux.has_prebuilt_releases());
    assert!(!Os::Windows.has_prebuilt_releases());
}

#[test]
fn version_directory_and_binary_path_are_spelled_out() {
    assert_eq!(version_directory("v1.0.0-beta.3"), "nargo-v1.0.0-beta.3");
    assert_eq!(version_directory(""), "nargo-");
    assert_eq!(binary_path("nargo-v1.0.0-beta.3"), "nargo-v1.0.0-beta.3/nargo");
    assert_eq!(binary_path(&version_directory("nightly")), "nargo-nightly/nargo");
}

#[test]
fn stale_entries_are_version_directories_other_than_the_current_one() {
    let current = "nargo-v1.0.0".to_string();
    let stale = |name: &str| entry_is_stale(&name.to_string(), &current);
    assert!(stale("nargo-v0.9.0"));
    assert!(stale("nargo-"));
    assert!(stale("nargo-v1.0.0 "));
    assert!(stale("nargo-v1.0.0/nargo"));
    assert!(!stale("nargo-v1.0.0"));
    assert!(!stale("nargo"));
    assert!(!stale("Nargo-v0.9.0"));
    assert!(!stale(" nargo-v0.9.0"));
    assert!(!stale(""));
    assert!(!stale("narg\u{f6}-v0.9.0"));
}

#[test]
fn stale_directories_keep_their_order() {
    let entries = strings(&[
        "nargo-v0.9.0",
        "readme",
        "nargo-v1.0.0",
        "nargo-v0.1.0",
        "nargo-v0.9.0",
        "aztec-v0.9.0",
    ]);
    let current = "nargo-v1.0.0".to_string();
    assert_eq!(
        stale_directories(&entries, &current),
        strings(&["nargo-v0.9.0", "nargo-v0.1.0", "nargo-v0.9.0"])
    );
    assert!(stale_directories(&Vec::new(), &current).is_empty());
    assert!(stale_directories(&strings(&["nargo-v1.0.0"]), &current).is_empty());
}

#[test]
fn find_asset_matches_the_whole_name() {
    let assets = vec![
        ReleaseAsset { name: "nargo.tar.gz.sig".to_string(), download_url: "u0".to_string() },
        ReleaseAsset { name: "nargo.tar.gz".to_string(), download_url: "u1".to_string() },
        ReleaseAsset { name: "nargo.tar.gz".to_string(), download_url: "u2".to_string() },
    ];
    assert_eq!(find_asset(&assets, "nargo.tar.gz").map(|a| a.download_url.as_str()), Some("u1"));
    assert_eq!(find_asset(&assets, "nargo.tar").map(|a| a.download_url.as_str()), None);
    assert_eq!(find_asset(&assets, "NARGO.TAR.GZ"), None);
    assert_eq!(find_asset(&Vec::new(), "nargo.tar.gz"), None);
}

#[test]
fn starts_with_compares_characters() {
    assert!(starts_with("nargo-1", "nargo-"));
    assert!(starts_with("nargo-", "nargo-"));
    assert!(starts_with("anything", ""));
    assert!(starts_with("", ""));
    assert!(!starts_with("", "n"));
    assert!(!starts_with("nargo", "nargo-"));
    assert!(!starts_with("margo-1", "nargo-"));
    assert!(starts_with("\u{e9}t\u{e9}-1", "\u{e9}t\u{e9}"));
    assert!(!starts_with("\u{e9}t\u{e9}-1", "\u{e9}te"));
}

#[test]
fn join_puts_the_head_first() {
    assert_eq!(join("nargo-", "v1"), "nargo-v1");
    assert_eq!(join("", "v1"), "v1");
    assert_eq!(join("v1", ""), "v1");
}
