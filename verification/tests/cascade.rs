use aztec_noir::command::{build_command, ArgValue, BinaryKind, ResolvedBinary, ToolSettings};
use aztec_noir::error::ResolveError;
use aztec_noir::platform::{Architecture, Os, Platform};
use aztec_noir::release::{Release, ReleaseAsset};
use aztec_noir::resolver::{Action, ArchiveFormat, Event, InstallStatus, Phase, Resolver};

const LINUX_ASSET: &str = "nargo-x86_64-unknown-linux-gnu.tar.gz";

/// A host made of fixed answers, which keeps a record of what it was asked.
struct Host {
    override_path: Option<String>,
    platform: Platform,
    on_path: Vec<(String, String)>,
    files: Vec<String>,
    release: Result<Release, String>,
    download: Result<(), String>,
    make_executable: Result<(), String>,
    entries: Vec<String>,
    asked: Vec<String>,
    removed: Vec<String>,
}

fn linux() -> Platform {
    Platform { os: Os::Linux, arch: Architecture::X8664 }
}

fn release(version: &str, names: &[&str]) -> Release {
    Release {
        version: version.to_string(),
        assets: names
            .iter()
            .map(|name| ReleaseAsset {
                name: name.to_string(),
                download_url: format!("https://example.test/{}/{}", version, name),
            })
            .collect(),
    }
}

fn host(platform: Platform) -> Host {
    Host {
        override_path: None,
        platform,
        on_path: Vec::new(),
        files: Vec::new(),
        release: Ok(release("v1.0.0", &[LINUX_ASSET])),
        download: Ok(()),
        make_executable: Ok(()),
        entries: Vec::new(),
        asked: Vec::new(),
        removed: Vec::new(),
    }
}

impl Host {
    fn with_program(mut self, name: &str, place: &str) -> Host {
        self.on_path.push((name.to_string(), place.to_string()));
        self
    }

    fn with_file(mut self, path: &str) -> Host {
        self.files.push(path.to_string());
        self
    }

    fn answer(&mut self, action: &Action) -> Event {
        match action {
            Action::ReadSettings => {
                self.asked.push("settings".to_string());
                Event::SettingsRead(self.override_path.clone())
            }
            Action::DetectPlatform => {
                self.asked.push("platform".to_string());
                Event::PlatformDetected(self.platform)
            }
            Action::Which(name) => {
                self.asked.push(format!("which {}", name));
                let found = self.on_path.iter().find(|(program, _)| program == name);
                Event::Located(found.map(|(_, place)| place.clone()))
            }
            Action::CheckExists(path) => {
                self.asked.push(format!("exists {}", path));
                Event::Existence(self.files.contains(path))
            }
            Action::Report(InstallStatus::CheckingForUpdate) => {
                self.asked.push("status checking".to_string());
                Event::Acknowledged
            }
            Action::Report(InstallStatus::Downloading) => {
                self.asked.push("status downloading".to_string());
                Event::Acknowledged
            }
            Action::FetchLatestRelease { repository, require_assets, pre_release } => {
                self.asked.push(format!(
                    "release {} assets={} pre={}",
                    repository, require_assets, pre_release
                ));
                Event::ReleaseFetched(self.release.clone())
            }
            Action::FetchArchive { url, directory, format } => {
                assert_eq!(*format, ArchiveFormat::GzipTar);
                self.asked.push(format!("download {} into {}", url, directory));
                if self.download.is_ok() {
                    self.files.push(format!("{}/nargo", directory));
                    self.entries.push(directory.clone());
                }
                Event::Completed(self.download.clone())
            }
            Action::MakeExecutable(path) => {
                self.asked.push(format!("chmod {}", path));
                Event::Completed(self.make_executable.clone())
            }
            Action::ListInstallRoot => {
                self.asked.push("list".to_string());
                Event::Listed(self.entries.clone())
            }
            Action::RemoveDirectories(names) => {
                self.asked.push(format!("remove {}", names.join(",")));
                self.removed.extend(names.iter().cloned());
                self.entries.retain(|entry| !names.contains(entry));
                Event::Acknowledged
            }
            Action::Finish(_) => unreachable!("a finished resolution asks for nothing"),
        }
    }

    fn touched_network(&self) -> bool {
        self.asked.iter().any(|line| line.starts_with("release") || line.starts_with("download"))
    }

    fn downloaded(&self) -> bool {
        self.asked.iter().any(|line| line.starts_with("download"))
    }
}

fn resolve(resolver: &mut Resolver, host: &mut Host) -> Result<ResolvedBinary, ResolveError> {
    let mut action = resolver.advance(Event::LaunchRequested).expect("a resolver at rest starts");
    loop {
        match action {
            Action::Finish(outcome) => return outcome,
            other => {
                let event = host.answer(&other);
                action = resolver.advance(event).expect("the answer is the one awaited");
            }
        }
    }
}

fn raw(path: &str) -> ResolvedBinary {
    ResolvedBinary { path: path.to_string(), kind: BinaryKind::RawTool }
}

fn no_settings() -> ToolSettings {
    ToolSettings { path: None, args: None }
}

#[test]
fn configured_path_is_returned_unchecked() {
    for platform in [linux(), Platform { os: Os::Windows, arch: Architecture::X86 }] {
        let mut host = host(platform).with_program("nargo", "/usr/bin/nargo");
        host.override_path = Some("/not/built/yet/nargo".to_string());
        let mut resolver = Resolver::new();
        let outcome = resolve(&mut resolver, &mut host);
        assert_eq!(outcome, Ok(raw("/not/built/yet/nargo")));
        assert_eq!(host.asked, vec!["settings".to_string()]);
        assert_eq!(resolver.cache, None);
        assert!(resolver.is_idle());
    }
}

#[test]
fn windows_takes_the_primary_tool_from_path() {
    let windows = Platform { os: Os::Windows, arch: Architecture::X8664 };
    let mut host = host(windows)
        .with_program("nargo", "C:\\tools\\nargo.exe")
        .with_program("aztec-lsp", "C:\\tools\\aztec-lsp.cmd")
        .with_program("aztec", "C:\\tools\\aztec.exe");
    let outcome = resolve(&mut Resolver::new(), &mut host);
    assert_eq!(outcome, Ok(raw("C:\\tools\\nargo.exe")));
    assert_eq!(host.asked, vec!["settings", "platform", "which nargo"]);
    assert!(!host.touched_network());
}

#[test]
fn windows_without_the_tool_asks_for_a_manual_build() {
    for arch in [Architecture::Aarch64, Architecture::X86, Architecture::X8664] {
        let mut host = host(Platform { os: Os::Windows, arch }).with_program("aztec", "C:\\aztec");
        let mut resolver = Resolver { cache: Some("nargo-v0.9.0/nargo".to_string()), phase: Phase::Idle };
        host.files.push("nargo-v0.9.0/nargo".to_string());
        let outcome = resolve(&mut resolver, &mut host);
        assert_eq!(outcome, Err(ResolveError::ManualInstallRequired));
        assert_eq!(
            outcome.unwrap_err().message(),
            "Noir does not provide pre-built Windows binaries. Please build nargo from source and add it to your PATH: https://noir-lang.org/docs/getting_started/installation/"
        );
        assert_eq!(host.asked, vec!["settings", "platform", "which nargo"]);
        assert!(!host.touched_network());
        assert_eq!(resolver.cache, Some("nargo-v0.9.0/nargo".to_string()));
    }
}

#[test]
fn wrapper_on_path_precedes_the_primary_tool() {
    let mut host = host(linux())
        .with_program("nargo", "/usr/bin/nargo")
        .with_program("aztec-lsp", "/usr/local/bin/aztec-lsp");
    let outcome = resolve(&mut Resolver::new(), &mut host);
    let binary = outcome.expect("the wrapper is on PATH");
    assert_eq!(binary.path, "/usr/local/bin/aztec-lsp");
    assert_eq!(binary.kind, BinaryKind::Wrapper);
    assert_eq!(host.asked, vec!["settings", "platform", "which aztec-lsp"]);
    let spec = build_command(binary, &no_settings());
    assert_eq!(spec.command, "/usr/local/bin/aztec-lsp");
    assert!(spec.args.is_empty());
    assert!(spec.env.is_empty());
}

#[test]
fn secondary_toolchain_precedes_the_primary_tool() {
    let mut host = host(linux())
        .with_program("nargo", "/usr/bin/nargo")
        .with_program("aztec", "/home/me/.aztec/bin/aztec");
    let outcome = resolve(&mut Resolver::new(), &mut host);
    assert_eq!(outcome, Ok(raw("/home/me/.aztec/bin/aztec")));
    assert_eq!(host.asked, vec!["settings", "platform", "which aztec-lsp", "which aztec"]);
}

#[test]
fn primary_tool_alone_is_launched_with_the_mode_token() {
    let mut host = host(linux()).with_program("nargo", "/usr/bin/nargo");
    let outcome = resolve(&mut Resolver::new(), &mut host);
    assert_eq!(outcome, Ok(raw("/usr/bin/nargo")));
    assert_eq!(
        host.asked,
        vec!["settings", "platform", "which aztec-lsp", "which aztec", "which nargo"]
    );
    assert!(!host.touched_network());
    let spec = build_command(outcome.unwrap(), &no_settings());
    assert_eq!(spec.command, "/usr/bin/nargo");
    assert_eq!(spec.args.first().map(String::as_str), Some("lsp"));
    assert_eq!(spec.args.len(), 1);
}

#[test]
fn cached_binary_that_still_exists_is_reused() {
    let mut host = host(linux()).with_file("nargo-v0.9.0/nargo");
    let mut resolver = Resolver { cache: Some("nargo-v0.9.0/nargo".to_string()), phase: Phase::Idle };
    let outcome = resolve(&mut resolver, &mut host);
    assert_eq!(outcome, Ok(raw("nargo-v0.9.0/nargo")));
    assert_eq!(host.asked.last().map(String::as_str), Some("exists nargo-v0.9.0/nargo"));
    assert!(!host.touched_network());
    assert_eq!(resolver.cache, Some("nargo-v0.9.0/nargo".to_string()));
}

#[test]
fn cached_binary_that_is_gone_leads_to_a_remote_install() {
    let mut host = host(linux());
    let mut resolver = Resolver { cache: Some("nargo-v0.9.0/nargo".to_string()), phase: Phase::Idle };
    let outcome = resolve(&mut resolver, &mut host);
    assert_eq!(outcome, Ok(raw("nargo-v1.0.0/nargo")));
    assert_eq!(
        host.asked[..8],
        [
            "settings",
            "platform",
            "which aztec-lsp",
            "which aztec",
            "which nargo",
            "exists nargo-v0.9.0/nargo",
            "status checking",
            "release noir-lang/noir assets=true pre=false",
        ]
    );
    assert!(host.downloaded());
    assert_eq!(resolver.cache, Some("nargo-v1.0.0/nargo".to_string()));
}

#[test]
fn fresh_install_runs_in_order_and_removes_old_versions() {
    let mut host = host(linux());
    host.entries = vec![
        "nargo-v0.8.0".to_string(),
        "notes.txt".to_string(),
        "nargo-v0.9.0".to_string(),
        "nargo".to_string(),
    ];
    let mut resolver = Resolver::new();
    let outcome = resolve(&mut resolver, &mut host);
    assert_eq!(outcome, Ok(raw("nargo-v1.0.0/nargo")));
    assert_eq!(
        host.asked,
        vec![
            "settings".to_string(),
            "platform".to_string(),
            "which aztec-lsp".to_string(),
            "which aztec".to_string(),
            "which nargo".to_string(),
            "status checking".to_string(),
            "release noir-lang/noir assets=true pre=false".to_string(),
            "exists nargo-v1.0.0/nargo".to_string(),
            "status downloading".to_string(),
            format!("download https://example.test/v1.0.0/{} into nargo-v1.0.0", LINUX_ASSET),
            "chmod nargo-v1.0.0/nargo".to_string(),
            "list".to_string(),
            "remove nargo-v0.8.0,nargo-v0.9.0".to_string(),
        ]
    );
    assert_eq!(host.removed, vec!["nargo-v0.8.0", "nargo-v0.9.0"]);
    assert_eq!(host.entries, vec!["notes.txt", "nargo", "nargo-v1.0.0"]);
    assert_eq!(resolver.cache, Some("nargo-v1.0.0/nargo".to_string()));
    assert!(resolver.is_idle());
}

#[test]
fn fresh_install_without_old_versions_removes_nothing() {
    let mut host = host(linux());
    let outcome = resolve(&mut Resolver::new(), &mut host);
    assert_eq!(outcome, Ok(raw("nargo-v1.0.0/nargo")));
    assert_eq!(host.asked.last().map(String::as_str), Some("list"));
    assert!(host.removed.is_empty());
}

#[test]
fn installed_version_is_not_downloaded_again() {
    let mut host = host(linux());
    let mut first = Resolver::new();
    assert_eq!(resolve(&mut first, &mut host), Ok(raw("nargo-v1.0.0/nargo")));
    assert!(host.downloaded());

    // A new resolver has no cache, so it goes through the remote install
    // again; the binary is there, so nothing is downloaded.
    host.asked.clear();
    let mut second = Resolver::new();
    assert_eq!(resolve(&mut second, &mut host), Ok(raw("nargo-v1.0.0/nargo")));
    assert_eq!(
        host.asked[5..],
        [
            "status checking",
            "release noir-lang/noir assets=true pre=false",
            "exists nargo-v1.0.0/nargo",
        ]
    );
    assert!(!host.downloaded());
    assert_eq!(second.cache, Some("nargo-v1.0.0/nargo".to_string()));

    // The first resolver remembers the path and asks the network nothing.
    host.asked.clear();
    assert_eq!(resolve(&mut first, &mut host), Ok(raw("nargo-v1.0.0/nargo")));
    assert!(!host.touched_network());
}

#[test]
fn unsupported_platform_fails_before_any_network_call() {
    let pairs = [
        (Os::Mac, Architecture::X86, "unsupported platform: Os::Mac Architecture::X86"),
        (Os::Linux, Architecture::X86, "unsupported platform: Os::Linux Architecture::X86"),
    ];
    for (os, arch, message) in pairs {
        let platform = Platform { os, arch };
        let mut host = host(platform);
        let mut resolver = Resolver::new();
        let outcome = resolve(&mut resolver, &mut host);
        assert_eq!(outcome, Err(ResolveError::UnsupportedPlatform(platform)));
        assert_eq!(outcome.unwrap_err().message(), message);
        assert_eq!(host.asked.last().map(String::as_str), Some("status checking"));
        assert!(!host.touched_network());
        assert_eq!(resolver.cache, None);
    }
}

#[test]
fn every_supported_platform_picks_its_own_archive() {
    let table = [
        (Os::Mac, Architecture::Aarch64, "nargo-aarch64-apple-darwin.tar.gz"),
        (Os::Mac, Architecture::X8664, "nargo-x86_64-apple-darwin.tar.gz"),
        (Os::Linux, Architecture::Aarch64, "nargo-aarch64-unknown-linux-gnu.tar.gz"),
        (Os::Linux, Architecture::X8664, "nargo-x86_64-unknown-linux-gnu.tar.gz"),
    ];
    let all: Vec<&str> = table.iter().map(|(_, _, name)| *name).collect();
    for (os, arch, name) in table {
        let mut host = host(Platform { os, arch });
        host.release = Ok(release("v2.1.0", &all));
        let outcome = resolve(&mut Resolver::new(), &mut host);
        assert_eq!(outcome, Ok(raw("nargo-v2.1.0/nargo")));
        let wanted = format!("download https://example.test/v2.1.0/{} into nargo-v2.1.0", name);
        assert!(host.asked.contains(&wanted));
    }
}

#[test]
fn failed_release_fetch_is_passed_on_word_for_word() {
    let mut host = host(linux());
    host.release = Err("rate limit exceeded".to_string());
    let mut resolver = Resolver { cache: Some("gone/nargo".to_string()), phase: Phase::Idle };
    let outcome = resolve(&mut resolver, &mut host);
    assert_eq!(
        outcome,
        Err(ResolveError::ReleaseMetadataUnavailable("rate limit exceeded".to_string()))
    );
    assert_eq!(outcome.unwrap_err().message(), "rate limit exceeded");
    assert!(!host.downloaded());
    assert_eq!(resolver.cache, Some("gone/nargo".to_string()));
    assert!(resolver.is_idle());
}

#[test]
fn release_without_the_wanted_archive_fails() {
    let mut host = host(linux());
    host.release = Ok(release("v1.0.0", &["nargo-x86_64-apple-darwin.tar.gz", "notes.md"]));
    let outcome = resolve(&mut Resolver::new(), &mut host);
    assert_eq!(outcome, Err(ResolveError::AssetNotFound(LINUX_ASSET.to_string())));
    assert_eq!(
        outcome.unwrap_err().message(),
        "no asset found for nargo-x86_64-unknown-linux-gnu.tar.gz"
    );
    assert!(!host.downloaded());
}

#[test]
fn release_without_any_archive_fails() {
    let mut host = host(linux());
    host.release = Ok(release("v1.0.0", &[]));
    let outcome = resolve(&mut Resolver::new(), &mut host);
    assert_eq!(outcome, Err(ResolveError::AssetNotFound(LINUX_ASSET.to_string())));
}

#[test]
fn failed_download_names_the_step() {
    let mut host = host(linux());
    host.download = Err("connection reset".to_string());
    let mut resolver = Resolver::new();
    let outcome = resolve(&mut resolver, &mut host);
    assert_eq!(
        outcome,
        Err(ResolveError::DownloadOrExtractFailed("connection reset".to_string()))
    );
    assert_eq!(outcome.unwrap_err().message(), "failed to download nargo: connection reset");
    assert_eq!(host.asked.last().map(String::as_str).map(|line| &line[..8]), Some("download"));
    assert_eq!(resolver.cache, None);
    assert!(resolver.is_idle());
}

#[test]
fn failure_to_make_the_binary_executable_is_passed_on() {
    let mut host = host(linux());
    host.make_executable = Err("permission denied".to_string());
    host.entries = vec!["nargo-v0.9.0".to_string()];
    let mut resolver = Resolver::new();
    let outcome = resolve(&mut resolver, &mut host);
    assert_eq!(
        outcome,
        Err(ResolveError::MakeExecutableFailed("permission denied".to_string()))
    );
    assert_eq!(outcome.unwrap_err().message(), "permission denied");
    assert!(host.removed.is_empty());
    assert_eq!(resolver.cache, None);
}

#[test]
fn first_archive_of_the_wanted_name_is_taken() {
    let mut host = host(linux());
    host.release = Ok(Release {
        version: "v3.0.0".to_string(),
        assets: vec![
            ReleaseAsset { name: "other".to_string(), download_url: "https://a/0".to_string() },
            ReleaseAsset { name: LINUX_ASSET.to_string(), download_url: "https://a/1".to_string() },
            ReleaseAsset { name: LINUX_ASSET.to_string(), download_url: "https://a/2".to_string() },
        ],
    });
    assert_eq!(resolve(&mut Resolver::new(), &mut host), Ok(raw("nargo-v3.0.0/nargo")));
    assert!(host.asked.contains(&"download https://a/1 into nargo-v3.0.0".to_string()));
}

#[test]
fn every_resolution_ends_within_fifteen_actions() {
    let mut host = host(linux());
    host.entries = vec!["nargo-old".to_string()];
    let mut resolver = Resolver { cache: Some("gone/nargo".to_string()), phase: Phase::Idle };
    assert!(resolve(&mut resolver, &mut host).is_ok());
    // Fourteen questions to the host, and the request to finish.
    assert_eq!(host.asked.len(), 14);
}

#[test]
fn event_that_was_not_awaited_changes_nothing() {
    let mut resolver = Resolver::new();
    assert_eq!(resolver.advance(Event::Acknowledged), None);
    assert_eq!(resolver, Resolver::new());
    assert_eq!(resolver.advance(Event::LaunchRequested), Some(Action::ReadSettings));
    assert_eq!(resolver.advance(Event::LaunchRequested), None);
    assert_eq!(resolver.advance(Event::Existence(true)), None);
    assert_eq!(resolver.phase, Phase::ReadingSettings);
    assert_eq!(resolver.advance(Event::SettingsRead(None)), Some(Action::DetectPlatform));
}

#[test]
fn step_by_value_agrees_with_advance() {
    let (resolver, action) = Resolver::new().step(Event::LaunchRequested);
    assert_eq!(action, Some(Action::ReadSettings));
    let (resolver, action) = resolver.step(Event::Listed(Vec::new()));
    assert_eq!(action, None);
    assert_eq!(resolver.phase, Phase::ReadingSettings);
    let (resolver, action) = resolver.step(Event::SettingsRead(Some("/opt/nargo".to_string())));
    assert_eq!(action, Some(Action::Finish(Ok(raw("/opt/nargo")))));
    assert!(resolver.is_idle());
}

#[test]
fn configured_arguments_follow_the_resolved_binary() {
    let mut host = host(linux()).with_program("nargo", "/usr/bin/nargo");
    let binary = resolve(&mut Resolver::new(), &mut host).unwrap();
    let settings = ToolSettings {
        path: None,
        args: Some(vec![ArgValue::Text("--foo".to_string()), ArgValue::Text("bar".to_string())]),
    };
    let spec = build_command(binary, &settings);
    assert_eq!(spec.args, vec!["lsp", "--foo", "bar"]);
}
