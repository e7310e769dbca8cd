//! Gateway configuration and its validation.
use crate::text::same_text;
use vstd::prelude::*;
use vstd::string::*;

verus! {

#[derive(Debug, Clone, PartialEq, Eq)]
pub enum ConfigError {
    MissingApiKey,
    NoAuthOnNonLoopback,
    /// The current directory could not be read, for this reason.
    CurrentDir(String),
    MissingCwd,
    /// The path that is no existing absolute directory.
    InvalidCwd(String),
}

impl ConfigError {
    pub open spec fn message_text(self) -> Seq<char> {
        match self {
            ConfigError::MissingApiKey =>
                "CODEX_BRIDGE_API_KEY is required; use --no-auth only for a loopback-only server"@,
            ConfigError::NoAuthOnNonLoopback =>
                "--no-auth may only be used with a loopback listen address"@,
            ConfigError::CurrentDir(_) => "cannot determine current directory"@,
            ConfigError::MissingCwd => "working directory was not initialized"@,
            ConfigError::InvalidCwd(path) =>
                "CODEX_BRIDGE_CWD must be an existing absolute directory: "@ + path@,
        }
    }

    /// What the user is told.
    pub fn message(&self) -> (r: String)
        ensures
            r@ == self.message_text(),
    {
        match self {
            ConfigError::MissingApiKey =>
                "CODEX_BRIDGE_API_KEY is required; use --no-auth only for a loopback-only server".to_owned(),
            ConfigError::NoAuthOnNonLoopback =>
                "--no-auth may only be used with a loopback listen address".to_owned(),
            ConfigError::CurrentDir(_) => "cannot determine current directory".to_owned(),
            ConfigError::MissingCwd => "working directory was not initialized".to_owned(),
            ConfigError::InvalidCwd(path) => {
                let mut text =
                    "CODEX_BRIDGE_CWD must be an existing absolute directory: ".to_owned();
                text.append(path.as_str());
                text
            },
        }
    }
}

/// What Codex turns may touch.
#[derive(Debug, Clone, Copy, PartialEq, Eq)]
pub enum Sandbox {
    ReadOnly,
    WorkspaceWrite,
    DangerFullAccess,
}

impl Sandbox {
    pub open spec fn app_server_text(self) -> Seq<char> {
        match self {
            Sandbox::ReadOnly => "read-only"@,
            Sandbox::WorkspaceWrite => "workspace-write"@,
            Sandbox::DangerFullAccess => "danger-full-access"@,
        }
    }

    /// The name of the sandbox in the app-server protocol.
    #[must_use]
    pub fn as_app_server_value(self) -> (r: &'static str)
        ensures
            r@ == self.app_server_text(),
    {
        match self {
            Sandbox::ReadOnly => "read-only",
            Sandbox::WorkspaceWrite => "workspace-write",
            Sandbox::DangerFullAccess => "danger-full-access",
        }
    }

    /// The sandbox of this name, if there is one.
    pub open spec fn named(name: Seq<char>) -> Option<Sandbox> {
        if name == "read-only"@ {
            Some(Sandbox::ReadOnly)
        } else if name == "workspace-write"@ {
            Some(Sandbox::WorkspaceWrite)
        } else if name == "danger-full-access"@ {
            Some(Sandbox::DangerFullAccess)
        } else {
            None
        }
    }

    /// Reads the name of a sandbox, as it stands in the settings.
    pub fn from_name(name: &str) -> (r: Option<Sandbox>)
        ensures
            r == Sandbox::named(name@),
    {
        if same_text(name, "read-only") {
            Some(Sandbox::ReadOnly)
        } else if same_text(name, "workspace-write") {
            Some(Sandbox::WorkspaceWrite)
        } else if same_text(name, "danger-full-access") {
            Some(Sandbox::DangerFullAccess)
        } else {
            None
        }
    }
}

/// The names of the sandboxes in the app-server protocol differ, and are those in the
/// settings: each is read as the sandbox that it is the name of, and nothing else is read as
/// a sandbox. So full access is granted only where its name was given.
pub proof fn law_sandbox_names(a: Sandbox, b: Sandbox, name: Seq<char>)
    ensures
        a.app_server_text() == b.app_server_text() <==> a == b,
        Sandbox::named(a.app_server_text()) == Some(a),
        Sandbox::named(name) == Some(a) <==> name == a.app_server_text(),
{
    reveal_strlit("read-only");
    reveal_strlit("workspace-write");
    reveal_strlit("danger-full-access");
    assert("read-only"@.len() == 9 && "workspace-write"@.len() == 15 && "danger-full-access"@.len()
        == 18);
}

/// The address of the HTTP listener.
#[derive(Debug, Clone, Copy, PartialEq, Eq)]
pub enum ListenAddress {
    V4 { octets: [u8; 4], port: u16 },
    V6 { segments: [u16; 8], port: u16 },
}

impl ListenAddress {
    /// 127.0.0.0/8, or ::1.
    pub open spec fn on_loopback(self) -> bool {
        match self {
            ListenAddress::V4 { octets, .. } => octets@[0] == 127,
            ListenAddress::V6 { segments, .. } => segments@ == seq![
                0u16,
                0u16,
                0u16,
                0u16,
                0u16,
                0u16,
                0u16,
                1u16,
            ],
        }
    }

    /// Whether only this machine can reach the address.
    pub fn is_loopback(&self) -> (r: bool)
        ensures
            r == self.on_loopback(),
    {
        match self {
            ListenAddress::V4 { octets, .. } => octets[0] == 127,
            ListenAddress::V6 { segments, .. } => {
                let r = segments[0] == 0 && segments[1] == 0 && segments[2] == 0 && segments[3] == 0
                    && segments[4] == 0 && segments[5] == 0 && segments[6] == 0 && segments[7] == 1;
                proof {
                    let one = seq![0u16, 0u16, 0u16, 0u16, 0u16, 0u16, 0u16, 1u16];
                    if r {
                        assert(segments@ =~= one);
                    } else if segments@ == one {
                        assert(one[7] == 1u16);
                    }
                }
                r
            },
        }
    }
}

/// A directory, as the file system describes it.
#[derive(Debug, Clone, PartialEq, Eq)]
pub struct Directory {
    pub path: String,
    /// Whether the path is absolute.
    pub is_absolute: bool,
    /// Whether the path leads to an existing directory.
    pub is_dir: bool,
}

/// The settings of a gateway.
#[derive(Debug, Clone)]
pub struct Config {
    /// Address on which the OpenAI-compatible API listens.
    pub listen: ListenAddress,
    /// Bearer token accepted from clients. Required unless `no_auth` is set.
    pub api_key: Option<String>,
    /// Disable HTTP authentication. Safe only on a loopback listener.
    pub no_auth: bool,
    /// Working directory exposed to Codex.
    pub cwd: Option<Directory>,
    /// Path to the Codex CLI executable.
    pub codex_bin: String,
    /// Codex model override. Without one, Codex goes by its own configuration.
    pub codex_model: Option<String>,
    /// Model ID advertised by /v1/models.
    pub exposed_model: String,
    /// Sandbox granted to Codex turns.
    pub sandbox: Sandbox,
    /// Maximum time for one Codex turn.
    pub timeout_secs: u64,
}

impl Config {
    pub open spec fn has_api_key(self) -> bool {
        match self.api_key {
            Some(key) => key@.len() > 0,
            None => false,
        }
    }

    /// Clients are authenticated, or only this machine can reach the gateway.
    pub open spec fn access_is_guarded(self) -> bool {
        if self.no_auth {
            self.listen.on_loopback()
        } else {
            self.has_api_key()
        }
    }

    /// The configured working directory or, without one, the current directory.
    pub open spec fn working_dir(self, current_dir: Result<Directory, String>) -> Result<
        Directory,
        String,
    > {
        match self.cwd {
            Some(dir) => Ok(dir),
            None => current_dir,
        }
    }

    /// Everything that `validate` establishes.
    pub open spec fn is_valid(self) -> bool {
        &&& self.access_is_guarded()
        &&& self.cwd matches Some(dir) && dir.is_absolute && dir.is_dir
    }

    /// The outcome of validation: a valid configuration, or the first thing that is wrong.
    pub open spec fn validation(self, current_dir: Result<Directory, String>) -> Result<
        Config,
        ConfigError,
    > {
        if !self.access_is_guarded() {
            Err(
                if self.no_auth {
                    ConfigError::NoAuthOnNonLoopback
                } else {
                    ConfigError::MissingApiKey
                },
            )
        } else {
            match self.working_dir(current_dir) {
                Err(reason) => Err(ConfigError::CurrentDir(reason)),
                Ok(dir) => if dir.is_absolute && dir.is_dir {
                    Ok(Config { cwd: Some(dir), ..self })
                } else {
                    Err(ConfigError::InvalidCwd(dir.path))
                },
            }
        }
    }

    /// Validates authentication, listener and working-directory settings, and settles the
    /// working directory. `current_dir` is the directory the gateway was started in, or the
    /// reason why it could not be read.
    ///
    /// # Errors
    ///
    /// Returns an error when authentication is missing, unauthenticated access
    /// is exposed beyond loopback, or the working directory is invalid.
    pub fn validate(self, current_dir: Result<Directory, String>) -> (r: Result<Config, ConfigError>)
        ensures
            r == self.validation(current_dir),
    {
        let keyless = match &self.api_key {
            Some(key) => key.as_str().is_empty(),
            None => true,
        };
        if !self.no_auth && keyless {
            return Err(ConfigError::MissingApiKey);
        }
        if self.no_auth && !self.listen.is_loopback() {
            return Err(ConfigError::NoAuthOnNonLoopback);
        }
        let mut config = self;
        let dir = match config.cwd.take() {
            Some(dir) => dir,
            None => match current_dir {
                Ok(dir) => dir,
                Err(reason) => return Err(ConfigError::CurrentDir(reason)),
            },
        };
        if !dir.is_absolute || !dir.is_dir {
            return Err(ConfigError::InvalidCwd(dir.path));
        }
        config.cwd = Some(dir);
        Ok(config)
    }
}

/// A configuration that passes validation is valid: its access is guarded, and its working
/// directory is an existing absolute directory. In particular, authentication is off only
/// on a loopback listener.
pub proof fn law_validation_establishes_validity(
    config: Config,
    current_dir: Result<Directory, String>,
)
    ensures
        config.validation(current_dir) matches Ok(valid) ==> valid.is_valid() && (valid.no_auth
            ==> valid.listen.on_loopback()),
{
}

/// A valid configuration passes validation unchanged, wherever the gateway is started.
pub proof fn law_validation_keeps_valid_configurations(
    config: Config,
    current_dir: Result<Directory, String>,
)
    requires
        config.is_valid(),
    ensures
        config.validation(current_dir) == Ok::<Config, ConfigError>(config),
{
}

} // verus!
