use knotty::cli::{package_name, version_text, CliArgs, CliOutcome};
use knotty::config::knotty_config::{
    config_root_with_env, default_context_panel_width, default_inspector_width,
    knotty_config_path_with_env, AppearancePreferences, ColorSchemePreference, KnottyConfig,
};
use knotty::runtime_contract::{default_socket_help, default_socket_path, missing_socket_path_message};
use std::path::PathBuf;

fn args(items: &[&str]) -> Vec<String> {
    items.iter().map(|s| s.to_string()).collect()
}

#[test]
fn package_name_uses_knotty_branding() {
    assert_eq!(package_name(), "knotty");
}

#[test]
fn test_default_socket_path() {
    let path = CliArgs::default_socket_path(Some("/tmp/test-runtime"))
        .expect("XDG runtime path should resolve");
    assert_eq!(PathBuf::from(path), PathBuf::from("/tmp/test-runtime/knot/knotd.sock"));
    assert_eq!(CliArgs::default_socket_path(None), None);
}

#[test]
fn parse_from_reads_automation_token() {
    let outcome = CliArgs::parse_from(
        &args(&[
            "knotty",
            "--socket",
            "/tmp/test-runtime/knot/knotd.sock",
            "--enable-automation",
            "--automation-token",
            "dev-token",
        ]),
        None,
        Some("/tmp/test-runtime"),
    );
    match outcome {
        CliOutcome::Run(a) => {
            assert_eq!(PathBuf::from(a.socket_path), PathBuf::from("/tmp/test-runtime/knot/knotd.sock"));
            assert!(a.automation_enabled);
            assert_eq!(a.automation_token.as_deref(), Some("dev-token"));
        }
        other => panic!("unexpected outcome {:?}", other),
    }
}

#[test]
fn parse_from_prefers_socket_env_over_runtime_dir() {
    match CliArgs::parse_from(&args(&["knotty"]), Some("/run/custom.sock"), Some("/run/user/1")) {
        CliOutcome::Run(a) => {
            assert_eq!(a.socket_path, "/run/custom.sock");
            assert!(!a.automation_enabled);
            assert_eq!(a.automation_token, None);
        }
        other => panic!("unexpected outcome {:?}", other),
    }
    match CliArgs::parse_from(&args(&["knotty", "-s", "/x.sock"]), Some("/run/custom.sock"), None) {
        CliOutcome::Run(a) => assert_eq!(a.socket_path, "/x.sock"),
        other => panic!("unexpected outcome {:?}", other),
    }
    match CliArgs::parse_from(&args(&["knotty"]), None, Some("/run/user/1/")) {
        CliOutcome::Run(a) => assert_eq!(a.socket_path, "/run/user/1/knot/knotd.sock"),
        other => panic!("unexpected outcome {:?}", other),
    }
}

#[test]
fn parse_from_reports_each_failure() {
    match CliArgs::parse_from(&args(&["knotty", "--socket"]), None, None) {
        CliOutcome::Fail { message, with_help } => {
            assert_eq!(message, "Error: --socket requires a path argument");
            assert!(!with_help);
        }
        other => panic!("unexpected outcome {:?}", other),
    }
    match CliArgs::parse_from(&args(&["knotty", "--automation-token"]), None, None) {
        CliOutcome::Fail { message, .. } => {
            assert_eq!(message, "Error: --automation-token requires a token argument")
        }
        other => panic!("unexpected outcome {:?}", other),
    }
    match CliArgs::parse_from(&args(&["knotty", "--bogus"]), None, None) {
        CliOutcome::Fail { message, with_help } => {
            assert_eq!(message, "Unknown argument: --bogus");
            assert!(with_help);
        }
        other => panic!("unexpected outcome {:?}", other),
    }
    match CliArgs::parse_from(&args(&["knotty"]), None, None) {
        CliOutcome::Fail { message, with_help } => {
            assert_eq!(message, format!("Error: {}", missing_socket_path_message()));
            assert!(!with_help);
        }
        other => panic!("unexpected outcome {:?}", other),
    }
    assert!(matches!(
        CliArgs::parse_from(&args(&["knotty", "-h", "--bogus"]), None, None),
        CliOutcome::ShowHelp
    ));
    assert!(matches!(
        CliArgs::parse_from(&args(&["knotty", "--version"]), None, None),
        CliOutcome::ShowVersion
    ));
}

#[test]
fn version_line_names_the_package() {
    assert_eq!(version_text("0.1.0"), "knotty 0.1.0");
}

#[test]
fn help_lines_name_the_default_socket() {
    let lines = knotty::cli::help_lines();
    assert_eq!(lines.len(), 17);
    assert_eq!(lines[0], "knotty - GTK4 frontend for Knot knowledge base");
    assert_eq!(lines[10], "                         [default: $XDG_RUNTIME_DIR/knot/knotd.sock]");
}

#[test]
fn runtime_contract_paths_and_messages() {
    assert_eq!(default_socket_help(), "$XDG_RUNTIME_DIR/knot/knotd.sock");
    assert_eq!(default_socket_path(None), None);
    assert_eq!(
        default_socket_path(Some("/run/user/1000")).as_deref(),
        Some("/run/user/1000/knot/knotd.sock")
    );
    assert_eq!(
        missing_socket_path_message(),
        "No socket path configured. Pass --socket, set KNOTD_SOCKET_PATH, or set XDG_RUNTIME_DIR so knot-gtk can use $XDG_RUNTIME_DIR/knot/knotd.sock"
    );
}

#[test]
fn knotty_config_path_prefers_xdg_config_home() {
    let path = knotty_config_path_with_env(Some("/tmp/config"), Some("/tmp/home"))
        .expect("path should resolve");
    assert_eq!(PathBuf::from(path), PathBuf::from("/tmp/config/knot/knotty.toml"));
}

#[test]
fn knotty_config_path_falls_back_to_home_config_dir() {
    let path = knotty_config_path_with_env(None, Some("/tmp/home")).expect("path should resolve");
    assert_eq!(PathBuf::from(path), PathBuf::from("/tmp/home/.config/knot/knotty.toml"));
}

#[test]
fn config_path_without_any_root_is_an_error() {
    assert_eq!(
        knotty_config_path_with_env(None, None),
        Err("Cannot resolve knotty config path without XDG_CONFIG_HOME or HOME".to_string())
    );
    assert_eq!(config_root_with_env(None, Some("/home/a/")), Ok("/home/a/.config".to_string()));
}

#[test]
fn config_defaults_match_documented_widths() {
    assert_eq!(default_context_panel_width(), 280);
    assert_eq!(default_inspector_width(), 280);
    let config = KnottyConfig::default();
    assert_eq!(config.appearance, AppearancePreferences::default());
    assert_eq!(config.appearance.color_scheme, ColorSchemePreference::System);
    assert!(!config.automation.enabled);
}
