use codex_gateway::auth::{authenticate, constant_time_eq};
use codex_gateway::config::{Config, ConfigError, Directory, ListenAddress, Sandbox};

const LOCAL: ListenAddress = ListenAddress::V4 { octets: [127, 0, 0, 1], port: 8787 };
const PUBLIC: ListenAddress = ListenAddress::V4 { octets: [0, 0, 0, 0], port: 8787 };

fn directory(path: &str) -> Directory {
    Directory { path: path.to_owned(), is_absolute: true, is_dir: true }
}

fn config() -> Config {
    Config {
        listen: LOCAL,
        api_key: Some("secret".to_owned()),
        no_auth: false,
        cwd: Some(directory("/work")),
        codex_bin: "codex".to_owned(),
        codex_model: None,
        exposed_model: "codex".to_owned(),
        sandbox: Sandbox::WorkspaceWrite,
        timeout_secs: 3600,
    }
}

fn here() -> Result<Directory, String> {
    Ok(directory("/here"))
}

#[test]
fn valid_configurations_stay_as_they_are() {
    let valid = config().validate(Err("gone".to_owned())).unwrap();
    assert_eq!(valid.cwd, Some(directory("/work")));
    assert_eq!(valid.api_key.as_deref(), Some("secret"));
    let again = valid.validate(here()).unwrap();
    assert_eq!(again.cwd, Some(directory("/work")));
}

#[test]
fn current_directory_is_the_default() {
    let mut without = config();
    without.cwd = None;
    assert_eq!(without.validate(here()).unwrap().cwd, Some(directory("/here")));
}

#[test]
fn api_key_is_required() {
    for key in [None, Some(String::new())] {
        let mut without = config();
        without.api_key = key;
        without.listen = PUBLIC;
        let error = without.validate(here()).unwrap_err();
        assert_eq!(error, ConfigError::MissingApiKey);
        assert_eq!(
            error.message(),
            "CODEX_BRIDGE_API_KEY is required; use --no-auth only for a loopback-only server"
        );
    }
}

#[test]
fn authentication_is_off_only_on_loopback() {
    let mut open = config();
    open.no_auth = true;
    open.api_key = None;
    assert!(open.clone().validate(here()).is_ok());
    open.listen = PUBLIC;
    let error = open.validate(here()).unwrap_err();
    assert_eq!(error, ConfigError::NoAuthOnNonLoopback);
    assert_eq!(error.message(), "--no-auth may only be used with a loopback listen address");
}

#[test]
fn unreadable_current_directory_is_reported() {
    let mut without = config();
    without.cwd = None;
    let error = without.validate(Err("gone".to_owned())).unwrap_err();
    assert_eq!(error, ConfigError::CurrentDir("gone".to_owned()));
    assert_eq!(error.message(), "cannot determine current directory");
    assert_eq!(ConfigError::MissingCwd.message(), "working directory was not initialized");
}

#[test]
fn working_directory_must_exist_and_be_absolute() {
    for (is_absolute, is_dir) in [(false, true), (true, false), (false, false)] {
        let mut elsewhere = config();
        elsewhere.cwd = Some(Directory { path: "some/where".to_owned(), is_absolute, is_dir });
        let error = elsewhere.validate(here()).unwrap_err();
        assert_eq!(error, ConfigError::InvalidCwd("some/where".to_owned()));
        assert_eq!(
            error.message(),
            "CODEX_BRIDGE_CWD must be an existing absolute directory: some/where"
        );
    }
}

#[test]
fn loopback_addresses() {
    assert!(LOCAL.is_loopback());
    assert!(ListenAddress::V4 { octets: [127, 9, 8, 7], port: 1 }.is_loopback());
    assert!(!PUBLIC.is_loopback());
    assert!(ListenAddress::V6 { segments: [0, 0, 0, 0, 0, 0, 0, 1], port: 1 }.is_loopback());
    assert!(!ListenAddress::V6 { segments: [0; 8], port: 1 }.is_loopback());
    let mapped = [0, 0, 0, 0, 0, 0xffff, 0x7f00, 1];
    assert!(!ListenAddress::V6 { segments: mapped, port: 1 }.is_loopback());
}

#[test]
fn sandbox_names() {
    assert_eq!(Sandbox::ReadOnly.as_app_server_value(), "read-only");
    assert_eq!(Sandbox::WorkspaceWrite.as_app_server_value(), "workspace-write");
    assert_eq!(Sandbox::DangerFullAccess.as_app_server_value(), "danger-full-access");
}

#[test]
fn sandbox_names_are_read_back() {
    for sandbox in [Sandbox::ReadOnly, Sandbox::WorkspaceWrite, Sandbox::DangerFullAccess] {
        assert_eq!(Sandbox::from_name(sandbox.as_app_server_value()), Some(sandbox));
    }
    for name in ["", "Read-Only", "danger-full-access ", "full"] {
        assert_eq!(Sandbox::from_name(name), None);
    }
}

#[test]
fn api_key_lets_clients_in() {
    assert!(authenticate(&config(), Some(b"Bearer secret")).is_ok());
}

#[test]
fn other_tokens_are_refused() {
    let headers: [&[u8]; 9] = [
        b"Bearer wrong!",
        b"Bearer secre",
        b"Bearer secret ",
        b"bearer secret",
        b"Basic secret",
        b"secret",
        b"Bearer ",
        b"",
        b"Bearer secret\x80",
    ];
    for header in headers {
        let error = authenticate(&config(), Some(header)).unwrap_err();
        assert_eq!(error.status, 401);
        assert_eq!(error.message, "invalid or missing bearer token");
        assert_eq!(error.code, "invalid_api_key");
    }
    assert!(authenticate(&config(), None).is_err());
}

#[test]
fn without_authentication_everyone_is_let_in() {
    let mut open = config();
    open.no_auth = true;
    assert!(authenticate(&open, None).is_ok());
    assert!(authenticate(&open, Some(b"Bearer wrong")).is_ok());
}

#[test]
fn keys_beyond_ascii_cannot_be_shown() {
    let mut accented = config();
    accented.api_key = Some("h\u{e9}".to_owned());
    assert!(authenticate(&accented, Some("Bearer h\u{e9}".as_bytes())).is_err());
}

#[test]
fn byte_strings_are_compared_whole() {
    assert!(constant_time_eq(b"", b""));
    assert!(constant_time_eq(b"abc", b"abc"));
    assert!(!constant_time_eq(b"abc", b"abd"));
    assert!(!constant_time_eq(b"abc", b"abc\0"));
    assert!(!constant_time_eq(b"abc\0", b"abc"));
    assert!(!constant_time_eq(b"", b"\0"));
}
