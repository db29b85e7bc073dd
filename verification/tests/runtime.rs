use node_runtime::{
    after_probe, build_probe_plan, build_subcommand_plan, check_binaries_present, compute_paths,
    housekeeping_plan, installed_version_from_manifest, latest_from_info, npm_info_args,
    npm_install_args, package_json_path, parent_dir, pinned_version, prepare_install, remap_proxy,
    resolve_arch, resolve_os, resolve_subcommand_outcome, search_path_entries,
    should_install_npm_package, Arch, ArchiveType, ConfigurationChannel, ManifestReadOutcome,
    NodeError, NodePaths, NodeRuntimeSettings, NpmInfo, NpmInfoDistTags, Os, ProcessOutput,
};

fn default_settings() -> NodeRuntimeSettings {
    NodeRuntimeSettings { node: None, npm: None, cache: None }
}

fn linux_paths() -> NodePaths {
    compute_paths("/sup", "v22.5.1", Os::Linux, Arch::X64, &default_settings())
}

#[test]
fn resolves_supported_platforms() {
    assert_eq!(resolve_os("macos").unwrap(), Os::Macos);
    assert_eq!(resolve_os("linux").unwrap(), Os::Linux);
    assert_eq!(resolve_os("windows").unwrap(), Os::Windows);
    assert_eq!(resolve_arch("x86_64").unwrap(), Arch::X64);
    assert_eq!(resolve_arch("aarch64").unwrap(), Arch::Arm64);
}

#[test]
fn rejects_unsupported_platforms() {
    match resolve_os("freebsd") {
        Err(NodeError::UnsupportedPlatform { what }) => assert_eq!(what, "freebsd"),
        other => panic!("expected unsupported platform, got {:?}", other),
    }
    match resolve_arch("riscv64") {
        Err(NodeError::UnsupportedPlatform { what }) => assert_eq!(what, "riscv64"),
        other => panic!("expected unsupported platform, got {:?}", other),
    }
}

#[test]
fn prepare_install_fails_fast_on_unsupported_os() {
    let mut channel = ConfigurationChannel::new();
    match prepare_install(&mut channel, "freebsd", "x86_64", "/sup", "v22.5.1") {
        Err(NodeError::UnsupportedPlatform { what }) => assert_eq!(what, "freebsd"),
        other => panic!("expected unsupported platform, got {:?}", other.map(|_| ())),
    }
    match prepare_install(&mut channel, "linux", "sparc", "/sup", "v22.5.1") {
        Err(NodeError::UnsupportedPlatform { what }) => assert_eq!(what, "sparc"),
        other => panic!("expected unsupported platform, got {:?}", other.map(|_| ())),
    }
}

#[test]
fn computes_default_linux_layout() {
    let paths = linux_paths();
    assert_eq!(paths.node, "/sup/node/node-v22.5.1-linux-x64/bin/node");
    assert_eq!(paths.npm, "/sup/node/node-v22.5.1-linux-x64/bin/npm");
    assert_eq!(paths.cache, "/sup/node/node-v22.5.1-linux-x64/cache");
}

#[test]
fn computes_windows_layout_relative_paths() {
    let paths = compute_paths("/sup", "v22.5.1", Os::Windows, Arch::Arm64, &default_settings());
    assert_eq!(paths.node, "/sup/node/node-v22.5.1-win-arm64/node.exe");
    assert_eq!(paths.npm, "/sup/node/node-v22.5.1-win-arm64/node_modules/npm/bin/npm-cli.js");
    assert_eq!(paths.cache, "/sup/node/node-v22.5.1-win-arm64/cache");
}

#[test]
fn overrides_replace_computed_defaults() {
    let settings = NodeRuntimeSettings {
        node: Some(String::from("/custom/node")),
        npm: None,
        cache: Some(String::from("/custom/cache")),
    };
    let paths = compute_paths("/sup", "v22.5.1", Os::Macos, Arch::Arm64, &settings);
    assert_eq!(paths.node, "/custom/node");
    assert_eq!(paths.npm, "/sup/node/node-v22.5.1-darwin-arm64/bin/npm");
    assert_eq!(paths.cache, "/custom/cache");
}

#[test]
fn blank_rc_files_live_in_the_cache() {
    let paths = linux_paths();
    assert_eq!(paths.user_rc(), "/sup/node/node-v22.5.1-linux-x64/cache/blank_user_npmrc");
    assert_eq!(paths.global_rc(), "/sup/node/node-v22.5.1-linux-x64/cache/blank_global_npmrc");
}

#[test]
fn npm_command_pins_cache_and_configs() {
    let paths = linux_paths();
    let plan = paths.create_npm_command();
    assert_eq!(plan.program, paths.node);
    assert!(plan.clear_env);
    assert_eq!(
        plan.args,
        vec![
            paths.npm.clone(),
            String::from("--cache"),
            paths.cache.clone(),
            String::from("--userconfig"),
            paths.user_rc(),
            String::from("--globalconfig"),
            paths.global_rc(),
        ]
    );
    assert!(plan.env.is_empty());
    assert!(plan.cwd.is_none());
    assert!(!plan.discard_io);
}

#[test]
fn probe_asks_only_for_the_version() {
    let paths = linux_paths();
    let plan = build_probe_plan(&paths, Os::Linux);
    assert_eq!(plan.args.last().unwrap().as_str(), "--version");
    assert!(plan.discard_io);
    assert!(!plan.hide_console);
    let windows_paths =
        compute_paths("/sup", "v22.5.1", Os::Windows, Arch::X64, &default_settings());
    let windows_plan = build_probe_plan(&windows_paths, Os::Windows);
    assert!(windows_plan.hide_console);
}

#[test]
fn binary_path_is_the_resolved_runtime_binary() {
    let mut channel = ConfigurationChannel::new();
    let attempt = prepare_install(&mut channel, "linux", "x86_64", "/sup", "v22.5.1").unwrap();
    assert_eq!(attempt.binary_path(), attempt.paths.node);
}

#[test]
fn probe_success_needs_no_repair() {
    let mut channel = ConfigurationChannel::new();
    let attempt = prepare_install(&mut channel, "linux", "x86_64", "/sup", "v22.5.1").unwrap();
    assert_eq!(after_probe(&attempt, true).unwrap(), None);
}

#[test]
fn failed_probe_with_override_is_a_configuration_error() {
    let mut channel = ConfigurationChannel::new();
    channel.configure(NodeRuntimeSettings {
        node: Some(String::from("/custom/node")),
        npm: None,
        cache: None,
    });
    let attempt = prepare_install(&mut channel, "linux", "x86_64", "/sup", "v22.5.1").unwrap();
    assert!(attempt.has_override);
    match after_probe(&attempt, false) {
        Err(NodeError::OverrideInvalid { path }) => assert_eq!(path, "/custom/node"),
        other => panic!("expected override error, got {:?}", other),
    }
}

#[test]
fn failed_probe_without_override_downloads_one_archive() {
    let mut channel = ConfigurationChannel::new();
    let attempt = prepare_install(&mut channel, "linux", "x86_64", "/sup", "v22.5.1").unwrap();
    assert!(!attempt.has_override);
    let plan = after_probe(&attempt, false).unwrap().unwrap();
    assert_eq!(plan.containing_dir, "/sup/node");
    assert_eq!(plan.file_name, "node-v22.5.1-linux-x64.tar.gz");
    assert_eq!(plan.url, "https://nodejs.org/dist/v22.5.1/node-v22.5.1-linux-x64.tar.gz");
    assert_eq!(plan.archive, ArchiveType::TarGz);
}

#[test]
fn windows_release_ships_as_zip() {
    let mut channel = ConfigurationChannel::new();
    let attempt = prepare_install(&mut channel, "windows", "x86_64", "/sup", "v22.5.1").unwrap();
    let plan = after_probe(&attempt, false).unwrap().unwrap();
    assert_eq!(plan.url, "https://nodejs.org/dist/v22.5.1/node-v22.5.1-win-x64.zip");
    assert_eq!(plan.archive, ArchiveType::Zip);
}

#[test]
fn housekeeping_touches_cache_and_blank_files() {
    let paths = linux_paths();
    let plan = housekeeping_plan(&paths);
    assert_eq!(plan.cache_dir, paths.cache);
    assert_eq!(plan.blank_files, vec![paths.user_rc(), paths.global_rc()]);
}

#[test]
fn configuration_applies_only_at_the_next_drain() {
    let mut channel = ConfigurationChannel::new();
    let first = prepare_install(&mut channel, "linux", "x86_64", "/sup", "v22.5.1").unwrap();
    channel.configure(NodeRuntimeSettings {
        node: Some(String::from("/late/node")),
        npm: None,
        cache: None,
    });
    // The already-prepared attempt is untouched by the publication.
    assert_eq!(first.paths.node, "/sup/node/node-v22.5.1-linux-x64/bin/node");
    let current = channel.current();
    assert!(current.node.is_none());
    // The next operation drains and sees the update.
    let second = prepare_install(&mut channel, "linux", "x86_64", "/sup", "v22.5.1").unwrap();
    assert_eq!(second.paths.node, "/late/node");
    assert!(second.has_override);
}

#[test]
fn queued_updates_apply_last_write_wins() {
    let mut channel = ConfigurationChannel::new();
    channel.configure(NodeRuntimeSettings {
        node: Some(String::from("/one")),
        npm: None,
        cache: None,
    });
    channel.configure(NodeRuntimeSettings {
        node: Some(String::from("/two")),
        npm: None,
        cache: None,
    });
    let attempt = prepare_install(&mut channel, "linux", "x86_64", "/sup", "v22.5.1").unwrap();
    assert_eq!(attempt.paths.node, "/two");
}

#[test]
fn parent_dir_strips_the_last_component() {
    assert_eq!(parent_dir("/a/b/c"), "/a/b");
    assert_eq!(parent_dir("/a"), "");
    assert_eq!(parent_dir("bare"), "");
    assert_eq!(parent_dir("/sup/node/bin/node"), "/sup/node/bin");
}

#[test]
fn search_path_prepends_managed_directories() {
    let paths = linux_paths();
    let existing = vec![String::from("/usr/bin"), String::from("/bin")];
    let entries = search_path_entries(&paths, &existing);
    assert_eq!(
        entries,
        vec![
            String::from("/sup/node/node-v22.5.1-linux-x64/bin"),
            String::from("/sup/node/node-v22.5.1-linux-x64/bin"),
            String::from("/usr/bin"),
            String::from("/bin"),
        ]
    );
}

#[test]
fn missing_binaries_are_reported_by_path() {
    let paths = linux_paths();
    assert!(check_binaries_present(&paths, true, true).is_ok());
    match check_binaries_present(&paths, false, true) {
        Err(NodeError::MissingManagedBinary { path }) => assert_eq!(path, paths.node),
        other => panic!("expected missing binary, got {:?}", other),
    }
    match check_binaries_present(&paths, true, false) {
        Err(NodeError::MissingManagedBinary { path }) => assert_eq!(path, paths.npm),
        other => panic!("expected missing npm, got {:?}", other),
    }
}

#[test]
fn proxy_localhost_is_rewritten_to_loopback() {
    assert_eq!(remap_proxy("http://localhost:10809"), "http://127.0.0.1:10809");
    assert_eq!(remap_proxy("HTTP://LOCALHOST:10809"), "http://127.0.0.1:10809");
    assert_eq!(remap_proxy("http://proxy.example:3128"), "http://proxy.example:3128");
}

#[test]
fn subcommand_plan_carries_proxy_prefix_and_path() {
    let paths = linux_paths();
    let extra = vec![String::from("left-pad"), String::from("--json")];
    let directory = Some(String::from("/work"));
    let proxy = Some(String::from("http://localhost:10809"));
    let plan = build_subcommand_plan(
        &paths,
        Os::Linux,
        "info",
        &extra,
        &directory,
        &proxy,
        "/managed:/usr/bin",
        &None,
        &None,
    );
    let mut expected = paths.create_npm_command().args;
    expected.push(String::from("info"));
    expected.push(String::from("left-pad"));
    expected.push(String::from("--json"));
    expected.push(String::from("--prefix"));
    expected.push(String::from("/work"));
    expected.push(String::from("--proxy"));
    expected.push(String::from("http://127.0.0.1:10809"));
    assert_eq!(plan.args, expected);
    assert_eq!(plan.cwd, Some(String::from("/work")));
    assert_eq!(
        plan.env,
        vec![(String::from("PATH"), String::from("/managed:/usr/bin"))]
    );
    assert!(!plan.hide_console);
}

#[test]
fn windows_plan_forwards_ambient_variables() {
    let paths = compute_paths("/sup", "v22.5.1", Os::Windows, Arch::X64, &default_settings());
    let plan = build_subcommand_plan(
        &paths,
        Os::Windows,
        "install",
        &Vec::new(),
        &None,
        &None,
        "managed",
        &Some(String::from("C:/Windows")),
        &Some(String::from("C:/Windows/system32/cmd.exe")),
    );
    assert_eq!(
        plan.env,
        vec![
            (String::from("PATH"), String::from("managed")),
            (String::from("SYSTEMROOT"), String::from("C:/Windows")),
            (String::from("ComSpec"), String::from("C:/Windows/system32/cmd.exe")),
        ]
    );
    assert!(plan.hide_console);
    assert!(plan.cwd.is_none());
}

fn ok_output(success: bool, stdout: &str) -> ProcessOutput {
    ProcessOutput {
        success,
        stdout: stdout.as_bytes().to_vec(),
        stderr: Vec::new(),
    }
}

#[test]
fn first_successful_attempt_is_returned() {
    let out = resolve_subcommand_outcome("info", Ok(ok_output(true, "data")), None).unwrap();
    assert!(out.success);
    assert_eq!(out.stdout, b"data".to_vec());
}

#[test]
fn spawn_failure_then_success_returns_second_output() {
    let first = Err(NodeError::MissingManagedBinary { path: String::from("/x/node") });
    let second = Some(Ok(ok_output(true, "recovered")));
    let out = resolve_subcommand_outcome("info", first, second).unwrap();
    assert_eq!(out.stdout, b"recovered".to_vec());
}

#[test]
fn two_spawn_failures_name_the_subcommand() {
    let first = Err(NodeError::MissingManagedBinary { path: String::from("/x/node") });
    let second = Some(Err(NodeError::MissingManagedBinary { path: String::from("/x/node") }));
    match resolve_subcommand_outcome("info", first, second) {
        Err(NodeError::SpawnFailed { subcommand, cause }) => {
            assert_eq!(subcommand, "info");
            assert_eq!(
                *cause,
                NodeError::MissingManagedBinary { path: String::from("/x/node") }
            );
        }
        other => panic!("expected spawn failure, got {:?}", other),
    }
}

#[test]
fn non_zero_exit_is_fatal_and_not_retried() {
    let mut out = ok_output(false, "boom");
    out.stderr = b"bad".to_vec();
    match resolve_subcommand_outcome("install", Ok(out), None) {
        Err(NodeError::NonZeroExit { subcommand, stdout, stderr }) => {
            assert_eq!(subcommand, "install");
            assert_eq!(stdout, b"boom".to_vec());
            assert_eq!(stderr, b"bad".to_vec());
        }
        other => panic!("expected non-zero exit, got {:?}", other),
    }
}

#[test]
fn latest_tag_wins_over_version_list() {
    let info = NpmInfo {
        dist_tags: NpmInfoDistTags { latest: Some(String::from("9.1.2")) },
        versions: vec![String::from("1.0.0"), String::from("2.0.0")],
    };
    assert_eq!(latest_from_info("pkg", info).unwrap(), "9.1.2");
}

#[test]
fn missing_tag_falls_back_to_last_version() {
    let info = NpmInfo {
        dist_tags: NpmInfoDistTags { latest: None },
        versions: vec![String::from("1.0.0"), String::from("2.0.0")],
    };
    assert_eq!(latest_from_info("pkg", info).unwrap(), "2.0.0");
}

#[test]
fn empty_metadata_is_a_not_found_error() {
    let info = NpmInfo { dist_tags: NpmInfoDistTags { latest: None }, versions: Vec::new() };
    match latest_from_info("prettier", info) {
        Err(NodeError::MetadataNotFound { package }) => assert_eq!(package, "prettier"),
        other => panic!("expected metadata not found, got {:?}", other),
    }
}

#[test]
fn info_query_carries_network_flags() {
    let args = npm_info_args("prettier");
    assert_eq!(
        args,
        vec![
            String::from("prettier"),
            String::from("--json"),
            String::from("--fetch-retry-mintimeout"),
            String::from("2000"),
            String::from("--fetch-retry-maxtimeout"),
            String::from("5000"),
            String::from("--fetch-timeout"),
            String::from("5000"),
        ]
    );
}

#[test]
fn install_arguments_pin_exact_versions() {
    let packages = vec![
        (String::from("prettier"), String::from("3.0.0")),
        (String::from("eslint"), String::from("9.1.0")),
    ];
    let args = npm_install_args(&packages);
    assert_eq!(
        args,
        vec![
            String::from("prettier@3.0.0"),
            String::from("eslint@9.1.0"),
            String::from("--save-exact"),
            String::from("--fetch-retry-mintimeout"),
            String::from("2000"),
            String::from("--fetch-retry-maxtimeout"),
            String::from("5000"),
            String::from("--fetch-timeout"),
            String::from("5000"),
        ]
    );
}

#[test]
fn manifest_path_is_under_node_modules() {
    assert_eq!(
        package_json_path("/proj", "prettier"),
        "/proj/node_modules/prettier/package.json"
    );
}

#[test]
fn missing_manifest_is_none_not_an_error() {
    assert_eq!(installed_version_from_manifest(ManifestReadOutcome::Missing).unwrap(), None);
}

#[test]
fn unreadable_manifest_propagates_as_error() {
    match installed_version_from_manifest(ManifestReadOutcome::Unreadable(String::from(
        "bad json",
    ))) {
        Err(NodeError::ManifestUnreadable { detail }) => assert_eq!(detail, "bad json"),
        other => panic!("expected manifest error, got {:?}", other),
    }
}

#[test]
fn parsed_manifest_yields_its_version() {
    let r = installed_version_from_manifest(ManifestReadOutcome::Parsed(String::from("2.1.0")));
    assert_eq!(r.unwrap(), Some(String::from("2.1.0")));
}

#[test]
fn should_install_when_executable_is_absent() {
    assert!(should_install_npm_package(false, &Ok(Some(String::from("9.9.9"))), "1.0.0"));
}

#[test]
fn should_install_when_lookup_failed_or_found_nothing() {
    let failed: Result<Option<String>, NodeError> =
        Err(NodeError::ManifestUnreadable { detail: String::from("bad") });
    assert!(should_install_npm_package(true, &failed, "1.0.0"));
    assert!(should_install_npm_package(true, &Ok(None), "1.0.0"));
}

#[test]
fn should_install_when_versions_are_unparsable() {
    assert!(should_install_npm_package(true, &Ok(Some(String::from("not-a-version"))), "1.0.0"));
    assert!(should_install_npm_package(true, &Ok(Some(String::from("1.0.0"))), "not-a-version"));
}

#[test]
fn equal_versions_need_no_install() {
    assert!(!should_install_npm_package(true, &Ok(Some(String::from("2.1.0"))), "2.1.0"));
}

#[test]
fn older_installed_version_needs_install() {
    assert!(should_install_npm_package(true, &Ok(Some(String::from("1.0.0"))), "1.0.1"));
    assert!(!should_install_npm_package(true, &Ok(Some(String::from("1.0.1"))), "1.0.0"));
}

#[test]
fn pinned_version_is_stable() {
    assert_eq!(pinned_version(), "v22.5.1");
}

#[test]
fn error_messages_name_their_context() {
    let e = NodeError::MetadataNotFound { package: String::from("prettier") };
    assert_eq!(e.message(), "no version found for npm package prettier");
    let u = NodeError::UnsupportedPlatform { what: String::from("sparc") };
    assert_eq!(u.message(), "running on unsupported platform: sparc");
}
