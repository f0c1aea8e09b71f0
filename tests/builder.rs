use cgo::command::{go_env, join_path};
use cgo::{Build, BuildMode, ErrorKind, GoCommand, HostEnv, ToolOutcome};

fn host(out_dir: Option<&str>) -> HostEnv {
    HostEnv {
        target_arch: Some("x86_64".to_string()),
        target_os: Some("linux".to_string()),
        out_dir: out_dir.map(|d| d.to_string()),
        cc: Some("/usr/bin/cc".to_string()),
        cxx: Some("/usr/bin/c++".to_string()),
        windows: false,
    }
}

fn args_of(cmd: &GoCommand) -> Vec<&str> {
    cmd.args.iter().map(|a| a.as_str()).collect()
}

#[test]
fn lib_name_archive_non_windows() {
    assert_eq!(Build::new().format_lib_name("example", false), "libexample.a");
}

#[test]
fn lib_name_archive_windows() {
    assert_eq!(Build::new().format_lib_name("example", true), "libexample.lib");
}

#[test]
fn lib_name_shared_windows() {
    let mut b = Build::new();
    b.build_mode(BuildMode::CShared);
    assert_eq!(b.format_lib_name("example", true), "libexample.dll");
}

#[test]
fn lib_name_shared_non_windows() {
    let mut b = Build::new();
    b.build_mode(BuildMode::CShared);
    assert_eq!(b.format_lib_name("example", false), "libexample.so");
}

#[test]
fn build_mode_flag_values() {
    assert_eq!(BuildMode::CArchive.to_string(), "c-archive");
    assert_eq!(BuildMode::CShared.to_string(), "c-shared");
    assert_eq!(BuildMode::default(), BuildMode::CArchive);
}

#[test]
fn default_builder_prepares_minimal_command() {
    let cmd = Build::new().prepare("example", &host(Some("/tmp/out"))).unwrap();
    assert_eq!(cmd.program, "go");
    assert_eq!(cmd.out_dir, "/tmp/out");
    assert_eq!(
        args_of(&cmd),
        vec!["build", "-buildmode", "c-archive", "-o", "/tmp/out/libexample.a"]
    );
}

#[test]
fn change_dir_comes_first_with_all_options() {
    let mut b = Build::new();
    b.trimpath(true)
        .ldflags("-s -w")
        .build_mode(BuildMode::CShared)
        .change_dir("./tests/example")
        .package("main.go")
        .package("other.go")
        .out_dir("/tmp/out/");
    let cmd = b.prepare("integrationtest", &host(None)).unwrap();
    assert_eq!(
        args_of(&cmd),
        vec![
            "build",
            "-C",
            "./tests/example",
            "-ldflags",
            "-s -w",
            "-trimpath",
            "-buildmode",
            "c-shared",
            "-o",
            "/tmp/out/libintegrationtest.so",
            "main.go",
            "other.go",
        ]
    );
}

#[test]
fn change_dir_alone_comes_first() {
    let mut b = Build::new();
    b.change_dir("pkg").package("main.go");
    let cmd = b.prepare("x", &host(Some("/o"))).unwrap();
    assert_eq!(&args_of(&cmd)[..3], &["build", "-C", "pkg"]);
}

#[test]
fn command_environment_in_order() {
    let cmd = Build::new().prepare("example", &host(Some("/tmp/out"))).unwrap();
    let envs: Vec<(&str, &str)> = cmd.envs.iter().map(|(k, v)| (k.as_str(), v.as_str())).collect();
    assert_eq!(
        envs,
        vec![
            ("CGO_ENABLED", "1"),
            ("GOOS", "linux"),
            ("GOARCH", "amd64"),
            ("CC", "/usr/bin/cc"),
            ("CXX", "/usr/bin/c++"),
        ]
    );
}

#[test]
fn environment_without_host_compilers() {
    let envs = go_env("darwin", "arm64", None, None);
    assert_eq!(envs.len(), 3);
    assert_eq!(envs[1], ("GOOS".to_string(), "darwin".to_string()));
    assert_eq!(envs[2], ("GOARCH".to_string(), "arm64".to_string()));
}

#[test]
fn configured_out_dir_wins_over_host() {
    let mut b = Build::new();
    b.out_dir("/mine");
    let cmd = b.prepare("example", &host(Some("/cargo"))).unwrap();
    assert_eq!(cmd.out_dir, "/mine");
}

#[test]
fn missing_out_dir_is_reported() {
    let err = Build::new().prepare("example", &host(None)).unwrap_err();
    assert_eq!(err.kind(), ErrorKind::EnvVarNotFound);
    assert!(err.message().contains("OUT_DIR"));
}

#[test]
fn arch_is_checked_before_os() {
    let mut h = host(Some("/o"));
    h.target_arch = Some("sparc".to_string());
    h.target_os = None;
    let err = Build::new().prepare("example", &h).unwrap_err();
    assert_eq!(err.kind(), ErrorKind::InvalidGOARCH);
    h.target_arch = None;
    let err = Build::new().prepare("example", &h).unwrap_err();
    assert!(err.message().contains("CARGO_CFG_TARGET_ARCH"));
}

#[test]
fn invalid_os_in_prepare() {
    let mut h = host(Some("/o"));
    h.target_os = Some("haiku".to_string());
    let err = Build::new().prepare("example", &h).unwrap_err();
    assert_eq!(err.kind(), ErrorKind::InvalidGOOS);
    assert!(err.message().contains("haiku"));
}

#[test]
fn windows_paths_use_backslash() {
    let mut h = host(Some("C:\\out"));
    h.windows = true;
    let cmd = Build::new().prepare("example", &h).unwrap();
    assert_eq!(cmd.args[4], "C:\\out\\libexample.lib");
}

#[test]
fn join_path_cases() {
    assert_eq!(join_path("/tmp/out", "libx.a", false), "/tmp/out/libx.a");
    assert_eq!(join_path("/tmp/out/", "libx.a", false), "/tmp/out/libx.a");
    assert_eq!(join_path("", "libx.a", false), "libx.a");
    assert_eq!(join_path("dir\\", "libx.a", false), "dir\\/libx.a");
    assert_eq!(join_path("dir/", "libx.lib", true), "dir/libx.lib");
}

#[test]
fn builder_default_matches_new() {
    let a = Build::default().prepare("e", &host(Some("/o"))).unwrap();
    let b = Build::new().prepare("e", &host(Some("/o"))).unwrap();
    assert_eq!(a.args, b.args);
    assert!(Build::new().get_cargo_metadata());
    assert_eq!(Build::new().get_out_dir(), None);
}

#[test]
fn spawn_failure_keeps_os_error() {
    let os_error = "No such file or directory (os error 2)";
    let outcome = ToolOutcome::SpawnFailed(os_error.to_string());
    let err = Build::new().report("example", "/tmp/out", &outcome).unwrap_err();
    assert_eq!(err.kind(), ErrorKind::ToolExecError);
    assert!(err.message().contains(os_error));
    assert_eq!(err.message(), "failed to execute go command: No such file or directory (os error 2)");
}

#[test]
fn failure_shows_stdout_section_only() {
    let outcome = ToolOutcome::Exited {
        success: false,
        status: "exit status: 1".to_string(),
        stdout: "compile error: x.go:3".to_string(),
        stderr: String::new(),
    };
    let err = Build::new().report("example", "/tmp/out", &outcome).unwrap_err();
    assert_eq!(err.kind(), ErrorKind::ToolExecError);
    assert!(err.message().contains("=== stdout:\ncompile error: x.go:3"));
    assert!(!err.message().contains("stderr:"));
    assert_eq!(
        err.message(),
        "failed to build Go library (exit status: 1). Build output:\n=== stdout:\ncompile error: x.go:3"
    );
}

#[test]
fn failure_trims_both_streams() {
    let outcome = ToolOutcome::Exited {
        success: false,
        status: "exit status: 2".to_string(),
        stdout: "  \n\t ".to_string(),
        stderr: "\n  # pkg\n  bad \n".to_string(),
    };
    let err = Build::new().report("example", "/o", &outcome).unwrap_err();
    assert_eq!(
        err.to_string(),
        "ToolExecError: failed to build Go library (exit status: 2). Build output:\n=== stderr:\n# pkg\n  bad"
    );
}

#[test]
fn success_directives_for_shared_library() {
    let mut b = Build::new();
    b.build_mode(BuildMode::CShared).cargo_metadata(true);
    let outcome = ToolOutcome::Exited {
        success: true,
        status: "exit status: 0".to_string(),
        stdout: String::new(),
        stderr: String::new(),
    };
    let directives = b.report("example", "/tmp/out", &outcome).unwrap();
    assert_eq!(
        directives,
        vec![
            "cargo:rustc-link-search=native=/tmp/out".to_string(),
            "cargo:rustc-link-lib=dynamic=example".to_string(),
        ]
    );
}

#[test]
fn success_directives_for_archive() {
    let outcome = ToolOutcome::Exited {
        success: true,
        status: "exit status: 0".to_string(),
        stdout: "noise".to_string(),
        stderr: String::new(),
    };
    let directives = Build::new().report("example", "/o", &outcome).unwrap();
    assert_eq!(directives[1], "cargo:rustc-link-lib=static=example");
}

#[test]
fn no_directives_without_metadata() {
    let mut b = Build::new();
    b.cargo_metadata(false);
    let outcome = ToolOutcome::Exited {
        success: true,
        status: "exit status: 0".to_string(),
        stdout: String::new(),
        stderr: String::new(),
    };
    assert!(b.report("example", "/o", &outcome).unwrap().is_empty());
}
