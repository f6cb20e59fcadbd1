//! Daemon configuration.
//!
//! Comes from a TOML file (default `~/.config/hermes-dms/config.toml`, mode
//! 0600). The Hermes API key and the Bearer token of the MCP server may instead
//! be supplied by the environment, which always wins over the file so the
//! secrets can be kept out of it.

use vstd::prelude::*;
use vstd::string::*;

use crate::paths::{join, joined, PathBytes};
use crate::text::{lossy, lossy_text};

verus! {

/// The workstation's VLAN address: bind the MCP server here, not 0.0.0.0, so
/// the desktop tools are only reachable over the cluster-internal network.
pub const DEFAULT_MCP_LISTEN_ADDR: &'static str = "10.20.0.3:9721";

/// Hermes API server default.
pub const DEFAULT_HERMES_API_URL: &'static str = "http://hermes.ai.svc.cluster.local:8642";

/// Model router default.
pub const DEFAULT_OLLAMA_ROUTER_URL: &'static str =
    "http://ollama-router.ai.svc.cluster.local:11434";

/// Where the configuration is, below the directory for configurations.
pub const CONFIG_NAME: &'static str = "hermes-dms/config.toml";

/// Where the configuration is, below the home directory.
pub const HOME_CONFIG_NAME: &'static str = ".config/hermes-dms/config.toml";

/// Where the configuration is when there is no home directory either.
pub const FALLBACK_CONFIG_NAME: &'static str = "hermes-dms.toml";

/// The name of the IPC socket.
pub const SOCKET_NAME: &'static str = "hermes-dms.sock";

/// The directory of the IPC socket when there is no runtime directory.
pub const FALLBACK_RUNTIME_DIR: &'static str = "/tmp";

/// A socket address that parsed.
#[derive(Debug, Clone, PartialEq, Eq)]
pub struct ListenAddr {
    /// The address with its port, e.g. `10.20.0.3:9721` or `[::1]:9721`.
    pub addr: String,
    /// The address alone, e.g. `10.20.0.3` or `::1`.
    pub ip: String,
}

/// What a [`ListenAddr`] says.
#[verifier::ext_equal]
pub struct ListenAddrView {
    pub addr: Seq<char>,
    pub ip: Seq<char>,
}

impl DeepView for ListenAddr {
    type V = ListenAddrView;

    open spec fn deep_view(&self) -> ListenAddrView {
        ListenAddrView { addr: self.addr@, ip: self.ip@ }
    }
}

/// Resolved, validated configuration.
#[derive(Debug, Clone, PartialEq, Eq)]
pub struct Config {
    pub hermes_api_url: String,
    pub hermes_api_key: String,
    /// Bearer token guarding the MCP server and the gateway; `None` leaves them
    /// open.
    pub mcp_auth_token: Option<String>,
    pub mcp_listen_addr: ListenAddr,
    pub socket_path: PathBytes,
    pub ollama_router_url: String,
    /// Token for the model router; `None` switches the model picker off.
    pub ollama_router_token: Option<String>,
}

/// What a [`Config`] says.
#[verifier::ext_equal]
pub struct ConfigView {
    pub hermes_api_url: Seq<char>,
    pub hermes_api_key: Seq<char>,
    pub mcp_auth_token: Option<Seq<char>>,
    pub mcp_listen_addr: ListenAddrView,
    pub socket_path: Seq<u8>,
    pub ollama_router_url: Seq<char>,
    pub ollama_router_token: Option<Seq<char>>,
}

impl View for Config {
    type V = ConfigView;

    open spec fn view(&self) -> ConfigView {
        ConfigView {
            hermes_api_url: self.hermes_api_url@,
            hermes_api_key: self.hermes_api_key@,
            mcp_auth_token: self.mcp_auth_token.deep_view(),
            mcp_listen_addr: self.mcp_listen_addr.deep_view(),
            socket_path: self.socket_path@,
            ollama_router_url: self.ollama_router_url@,
            ollama_router_token: self.ollama_router_token.deep_view(),
        }
    }
}

/// As parsed from TOML. Every field is optional; defaults are applied during
/// [`Config::resolve`].
#[derive(Debug, Clone, PartialEq, Eq)]
pub struct RawConfig {
    pub hermes_api_url: Option<String>,
    pub hermes_api_key: Option<String>,
    pub mcp_auth_token: Option<String>,
    pub mcp_listen_addr: Option<String>,
    pub socket_path: Option<String>,
    pub ollama_router_url: Option<String>,
    pub ollama_router_token: Option<String>,
}

impl Default for RawConfig {
    fn default() -> (r: Self)
        ensures
            r == (RawConfig {
                hermes_api_url: None,
                hermes_api_key: None,
                mcp_auth_token: None,
                mcp_listen_addr: None,
                socket_path: None,
                ollama_router_url: None,
                ollama_router_token: None,
            }),
    {
        RawConfig {
            hermes_api_url: None,
            hermes_api_key: None,
            mcp_auth_token: None,
            mcp_listen_addr: None,
            socket_path: None,
            ollama_router_url: None,
            ollama_router_token: None,
        }
    }
}

/// What the environment says about the configuration.
#[derive(Debug, Clone, PartialEq, Eq)]
pub struct Environment {
    /// `HERMES_API_KEY`.
    pub hermes_api_key: Option<String>,
    /// `MCP_AUTH_TOKEN`.
    pub mcp_auth_token: Option<String>,
    /// `XDG_RUNTIME_DIR`.
    pub runtime_dir: Option<PathBytes>,
}

/// Why there is no configuration.
#[derive(Debug, Clone, PartialEq, Eq)]
pub enum ConfigError {
    /// The file cannot be read.
    Read { path: PathBytes, source: String },
    /// The file cannot be parsed.
    Parse { path: PathBytes, source: String },
    /// `mcp_listen_addr` is no socket address.
    BadAddr { value: String, source: String },
    /// There is no Hermes API key.
    MissingKey,
}

/// What a [`ConfigError`] says.
#[verifier::ext_equal]
pub enum ConfigErrorView {
    Read { path: Seq<u8>, source: Seq<char> },
    Parse { path: Seq<u8>, source: Seq<char> },
    BadAddr { value: Seq<char>, source: Seq<char> },
    MissingKey,
}

impl View for ConfigError {
    type V = ConfigErrorView;

    open spec fn view(&self) -> ConfigErrorView {
        match self {
            ConfigError::Read { path, source } => ConfigErrorView::Read {
                path: path@,
                source: source@,
            },
            ConfigError::Parse { path, source } => ConfigErrorView::Parse {
                path: path@,
                source: source@,
            },
            ConfigError::BadAddr { value, source } => ConfigErrorView::BadAddr {
                value: value@,
                source: source@,
            },
            ConfigError::MissingKey => ConfigErrorView::MissingKey,
        }
    }
}

/// A text as Rust writes it in source code, in double quotes and with escapes.
pub uninterp spec fn quoted(s: Seq<char>) -> Seq<char>;

/// `str`'s `Debug` format.
#[verifier::external_body]
fn quote(s: &str) -> (r: String)
    ensures
        r@ == quoted(s@),
{
    format!("{:?}", s)
}

impl ConfigErrorView {
    /// The error in words.
    pub open spec fn message(self) -> Seq<char> {
        match self {
            ConfigErrorView::Read { path, source } => "reading config file "@ + lossy(path) + ": "@
                + source,
            ConfigErrorView::Parse { path, source } => "parsing config file "@ + lossy(path)
                + ": "@ + source,
            ConfigErrorView::BadAddr { value, source } => "invalid mcp_listen_addr "@ + quoted(
                value,
            ) + ": "@ + source,
            ConfigErrorView::MissingKey =>
                "no Hermes API key: set `hermes_api_key` in the config file or the HERMES_API_KEY env var"@,
        }
    }
}

impl ConfigError {
    /// The error in words.
    pub fn message(&self) -> (r: String)
        ensures
            r@ == self@.message(),
    {
        match self {
            ConfigError::Read { path, source } => "reading config file ".to_owned().concat(
                lossy_text(path.as_slice()).as_str(),
            ).concat(": ").concat(source.as_str()),
            ConfigError::Parse { path, source } => "parsing config file ".to_owned().concat(
                lossy_text(path.as_slice()).as_str(),
            ).concat(": ").concat(source.as_str()),
            ConfigError::BadAddr { value, source } => "invalid mcp_listen_addr ".to_owned().concat(
                quote(value.as_str()).as_str(),
            ).concat(": ").concat(source.as_str()),
            ConfigError::MissingKey =>
                "no Hermes API key: set `hermes_api_key` in the config file or the HERMES_API_KEY env var".to_owned(),
        }
    }
}

/// A setting that is there and not empty.
pub open spec fn non_empty(s: Option<Seq<char>>) -> Option<Seq<char>> {
    match s {
        Some(t) => if t.len() > 0 {
            Some(t)
        } else {
            None
        },
        None => None,
    }
}

/// A secret: the environment's, unless that is missing or empty, else the
/// file's, unless that is.
pub open spec fn secret(env: Option<Seq<char>>, file: Option<Seq<char>>) -> Option<Seq<char>> {
    match non_empty(env) {
        Some(k) => Some(k),
        None => non_empty(file),
    }
}

fn pick_secret(env: Option<String>, file: Option<String>) -> (r: Option<String>)
    ensures
        r.deep_view() == secret(env.deep_view(), file.deep_view()),
{
    if let Some(k) = env {
        if !k.as_str().is_empty() {
            return Some(k);
        }
    }
    if let Some(k) = file {
        if !k.as_str().is_empty() {
            return Some(k);
        }
    }
    None
}

/// `s`, or `default` where it is missing.
pub open spec fn or_default(s: Option<Seq<char>>, default: Seq<char>) -> Seq<char> {
    match s {
        Some(t) => t,
        None => default,
    }
}

fn pick(s: Option<String>, default: &str) -> (r: String)
    ensures
        r@ == or_default(s.deep_view(), default@),
{
    match s {
        Some(t) => t,
        None => default.to_owned(),
    }
}

/// The socket below the runtime directory, or below `/tmp` without one.
pub open spec fn socket_below(runtime_dir: Option<Seq<u8>>) -> Seq<u8> {
    joined(
        match runtime_dir {
            Some(d) => d,
            None => FALLBACK_RUNTIME_DIR.spec_bytes(),
        },
        SOCKET_NAME.spec_bytes(),
    )
}

/// The bytes of a path that may be missing.
pub open spec fn path_view(p: Option<PathBytes>) -> Option<Seq<u8>> {
    match p {
        Some(b) => Some(b@),
        None => None,
    }
}

/// The bytes of a borrowed path that may be missing.
pub open spec fn slice_view(p: Option<&[u8]>) -> Option<Seq<u8>> {
    match p {
        Some(b) => Some(b@),
        None => None,
    }
}

/// The default config file, below `XDG_CONFIG_HOME` or else below `HOME`.
pub open spec fn default_config(
    xdg_config_home: Option<Seq<u8>>,
    home: Option<Seq<u8>>,
) -> Option<Seq<u8>> {
    match (xdg_config_home, home) {
        (Some(x), _) => Some(joined(x, CONFIG_NAME.spec_bytes())),
        (None, Some(h)) => Some(joined(h, HOME_CONFIG_NAME.spec_bytes())),
        (None, None) => None,
    }
}

/// The config file to load.
pub open spec fn chosen_config(given: Option<Seq<u8>>, default: Option<Seq<u8>>) -> Seq<u8> {
    match (given, default) {
        (Some(g), _) => g,
        (None, Some(d)) => d,
        (None, None) => FALLBACK_CONFIG_NAME.spec_bytes(),
    }
}

/// The configuration that the file and the environment make, where parsing the
/// listen address gave `addr`.
pub open spec fn resolved(
    raw: RawConfig,
    env: Environment,
    addr: Result<ListenAddrView, Seq<char>>,
) -> Result<ConfigView, ConfigErrorView> {
    match (secret(env.hermes_api_key.deep_view(), raw.hermes_api_key.deep_view()), addr) {
        (None, _) => Err(ConfigErrorView::MissingKey),
        (Some(_), Err(source)) => Err(
            ConfigErrorView::BadAddr {
                value: or_default(raw.mcp_listen_addr.deep_view(), DEFAULT_MCP_LISTEN_ADDR@),
                source,
            },
        ),
        (Some(key), Ok(a)) => Ok(
            ConfigView {
                hermes_api_url: or_default(
                    raw.hermes_api_url.deep_view(),
                    DEFAULT_HERMES_API_URL@,
                ),
                hermes_api_key: key,
                mcp_auth_token: secret(
                    env.mcp_auth_token.deep_view(),
                    raw.mcp_auth_token.deep_view(),
                ),
                mcp_listen_addr: a,
                socket_path: match raw.socket_path {
                    Some(p) => vstd::utf8::encode_utf8(p@),
                    None => socket_below(path_view(env.runtime_dir)),
                },
                ollama_router_url: or_default(
                    raw.ollama_router_url.deep_view(),
                    DEFAULT_OLLAMA_ROUTER_URL@,
                ),
                ollama_router_token: raw.ollama_router_token.deep_view(),
            },
        ),
    }
}

impl RawConfig {
    /// The text of the listen address: the one that is set, else the default.
    pub open spec fn addr_text(self) -> Seq<char> {
        or_default(self.mcp_listen_addr.deep_view(), DEFAULT_MCP_LISTEN_ADDR@)
    }

    /// The text of the listen address, to be parsed before
    /// [`Config::resolve`].
    pub fn listen_addr_text(&self) -> (r: String)
        ensures
            r@ == self.addr_text(),
    {
        match &self.mcp_listen_addr {
            Some(a) => a.clone(),
            None => DEFAULT_MCP_LISTEN_ADDR.to_owned(),
        }
    }
}

impl Config {
    /// Default config-file path, honouring `XDG_CONFIG_HOME` then `HOME`.
    pub fn default_path(xdg_config_home: Option<&[u8]>, home: Option<&[u8]>) -> (r: Option<
        PathBytes,
    >)
        ensures
            path_view(r) == default_config(slice_view(xdg_config_home), slice_view(home)),
    {
        match xdg_config_home {
            Some(x) => Some(join(x, CONFIG_NAME)),
            None => match home {
                Some(h) => Some(join(h, HOME_CONFIG_NAME)),
                None => None,
            },
        }
    }

    /// The config file to load: the one given on the command line, else the
    /// default one, else `hermes-dms.toml` in the current directory.
    pub fn choose_path(given: Option<PathBytes>, default: Option<PathBytes>) -> (r: PathBytes)
        ensures
            r@ == chosen_config(path_view(given), path_view(default)),
    {
        match given {
            Some(g) => g,
            None => match default {
                Some(d) => d,
                None => FALLBACK_CONFIG_NAME.as_bytes_vec(),
            },
        }
    }

    /// Default Unix socket path under `$XDG_RUNTIME_DIR` (local tmpfs), falling
    /// back to `/tmp` when the runtime dir is unset.
    pub fn default_socket_path(runtime_dir: Option<&[u8]>) -> (r: PathBytes)
        ensures
            r@ == socket_below(slice_view(runtime_dir)),
    {
        match runtime_dir {
            Some(d) => join(d, SOCKET_NAME),
            None => join(FALLBACK_RUNTIME_DIR.as_bytes(), SOCKET_NAME),
        }
    }

    /// Pure resolution of raw config and environment into a validated
    /// [`Config`]. `addr` is what parsing [`RawConfig::listen_addr_text`] as a
    /// socket address gave.
    pub fn resolve(raw: RawConfig, env: Environment, addr: Result<ListenAddr, String>) -> (r: Result<
        Self,
        ConfigError,
    >)
        ensures
            ({
                let want = resolved(
                    raw,
                    env,
                    (match addr {
                        Ok(a) => Ok(a.deep_view()),
                        Err(e) => Err(e@),
                    }),
                );
                match r {
                    Ok(c) => want == Ok::<_, ConfigErrorView>(c@),
                    Err(e) => want == Err::<ConfigView, _>(e@),
                }
            }),
    {
        let key = match pick_secret(env.hermes_api_key, raw.hermes_api_key) {
            Some(k) => k,
            None => return Err(ConfigError::MissingKey),
        };
        let mcp_listen_addr = match addr {
            Ok(a) => a,
            Err(source) => {
                return Err(
                    ConfigError::BadAddr {
                        value: pick(raw.mcp_listen_addr, DEFAULT_MCP_LISTEN_ADDR),
                        source,
                    },
                );
            },
        };
        let socket_path = match raw.socket_path {
            Some(p) => p.as_str().as_bytes_vec(),
            None => match env.runtime_dir {
                Some(d) => Config::default_socket_path(Some(d.as_slice())),
                None => Config::default_socket_path(None),
            },
        };
        Ok(
            Config {
                hermes_api_url: pick(raw.hermes_api_url, DEFAULT_HERMES_API_URL),
                hermes_api_key: key,
                mcp_auth_token: pick_secret(env.mcp_auth_token, raw.mcp_auth_token),
                mcp_listen_addr,
                socket_path,
                ollama_router_url: pick(raw.ollama_router_url, DEFAULT_OLLAMA_ROUTER_URL),
                ollama_router_token: raw.ollama_router_token,
            },
        )
    }
}

/// The environment's key wins over the file's, unless it is empty.
pub proof fn environment_key_wins(
    raw: RawConfig,
    env: Environment,
    addr: ListenAddrView,
    key: Seq<char>,
)
    requires
        env.hermes_api_key.deep_view() == Some(key),
    ensures
        key.len() > 0 ==> (resolved(raw, env, Ok(addr)) matches Ok(c) && c.hermes_api_key == key),
        key.len() == 0 ==> resolved(raw, env, Ok(addr)) == resolved(
            raw,
            (Environment { hermes_api_key: None, ..env }),
            Ok(addr),
        ),
{
}

/// A resolved configuration never has an empty key, and never an empty token.
pub proof fn resolved_secrets_are_not_empty(
    raw: RawConfig,
    env: Environment,
    addr: Result<ListenAddrView, Seq<char>>,
)
    ensures
        resolved(raw, env, addr) matches Ok(c) ==> {
            &&& c.hermes_api_key.len() > 0
            &&& c.mcp_auth_token matches Some(t) ==> t.len() > 0
        },
{
}

/// A secret is the environment's where that is there and not empty, else the
/// file's where that is, and else there is none.
pub proof fn secrets_come_from_the_environment_first(e: Seq<char>, f: Option<Seq<char>>)
    ensures
        e.len() > 0 ==> secret(Some(e), f) == Some(e),
        e.len() == 0 ==> secret(Some(e), f) == secret(None, f),
        secret(None, f) is Some <==> f is Some && f->0.len() > 0,
        secret(None, f) is Some ==> secret(None, f) == f,
{
}

/// There is no configuration without a key, and none with an address that does
/// not parse, which is told as it was given, with the reason; else there is one.
pub proof fn configuration_needs_a_key_and_an_address(
    raw: RawConfig,
    env: Environment,
    addr: Result<ListenAddrView, Seq<char>>,
)
    ensures
        ({
            let has_key = (env.hermes_api_key is Some && env.hermes_api_key->0@.len() > 0) || (
            raw.hermes_api_key is Some && raw.hermes_api_key->0@.len() > 0);
            let r = resolved(raw, env, addr);
            &&& !has_key <==> r == Err::<ConfigView, _>(ConfigErrorView::MissingKey)
            &&& r is Ok <==> has_key && addr is Ok
            &&& has_key && addr is Err ==> (r matches Err(ConfigErrorView::BadAddr { value, source })
                && source == addr->Err_0 && value == (if raw.mcp_listen_addr is Some {
                raw.mcp_listen_addr->0@
            } else {
                "10.20.0.3:9721"@
            }))
        }),
{
}

/// What is configured is what the file says, where it says anything, and the
/// default where it does not; the two secrets go by the environment first.
pub proof fn settings_are_taken_as_they_are(
    raw: RawConfig,
    env: Environment,
    addr: ListenAddrView,
)
    ensures
        raw.addr_text() == (if raw.mcp_listen_addr is Some {
            raw.mcp_listen_addr->0@
        } else {
            "10.20.0.3:9721"@
        }),
        resolved(raw, env, Ok(addr)) matches Ok(c) ==> {
            &&& c.mcp_listen_addr == addr
            &&& c.hermes_api_url == (if raw.hermes_api_url is Some {
                raw.hermes_api_url->0@
            } else {
                "http://hermes.ai.svc.cluster.local:8642"@
            })
            &&& c.ollama_router_url == (if raw.ollama_router_url is Some {
                raw.ollama_router_url->0@
            } else {
                "http://ollama-router.ai.svc.cluster.local:11434"@
            })
            &&& c.ollama_router_token == raw.ollama_router_token.deep_view()
            &&& Some(c.hermes_api_key) == secret(
                env.hermes_api_key.deep_view(),
                raw.hermes_api_key.deep_view(),
            )
            &&& c.mcp_auth_token == secret(
                env.mcp_auth_token.deep_view(),
                raw.mcp_auth_token.deep_view(),
            )
            &&& raw.socket_path is Some ==> c.socket_path == vstd::utf8::encode_utf8(
                raw.socket_path->0@,
            )
            &&& raw.socket_path is None && env.runtime_dir is Some ==> c.socket_path == joined(
                env.runtime_dir->0@,
                "hermes-dms.sock".spec_bytes(),
            )
            &&& raw.socket_path is None && env.runtime_dir is None ==> c.socket_path == joined(
                "/tmp".spec_bytes(),
                "hermes-dms.sock".spec_bytes(),
            )
        },
{
}

/// The config file is the one given, else the default one, else the one in the
/// current directory; and the default is below `XDG_CONFIG_HOME` where that is
/// set, else below `HOME`, else nowhere.
pub proof fn config_file_is_found_in_order(
    x: Seq<u8>,
    h: Seq<u8>,
    home: Option<Seq<u8>>,
    default: Option<Seq<u8>>,
)
    ensures
        default_config(Some(x), home) == Some(joined(x, "hermes-dms/config.toml".spec_bytes())),
        default_config(None, Some(h)) == Some(
            joined(h, ".config/hermes-dms/config.toml".spec_bytes()),
        ),
        default_config(None, None) is None,
        chosen_config(Some(x), default) == x,
        chosen_config(None, Some(h)) == h,
        chosen_config(None, None) == "hermes-dms.toml".spec_bytes(),
        socket_below(Some(x)) == joined(x, "hermes-dms.sock".spec_bytes()),
        socket_below(None) == joined("/tmp".spec_bytes(), "hermes-dms.sock".spec_bytes()),
{
}

/// Every error names the file or the value that it is about, and ends in the
/// whole reason.
pub proof fn config_errors_tell_their_detail(path: Seq<u8>, value: Seq<char>, reason: Seq<char>)
    ensures
        (ConfigErrorView::Read { path, source: reason }).message() == "reading config file "@
            + lossy(path) + ": "@ + reason,
        (ConfigErrorView::Parse { path, source: reason }).message() == "parsing config file "@
            + lossy(path) + ": "@ + reason,
        (ConfigErrorView::BadAddr { value, source: reason }).message()
            == "invalid mcp_listen_addr "@ + quoted(value) + ": "@ + reason,
        ConfigErrorView::MissingKey.message()
            == "no Hermes API key: set `hermes_api_key` in the config file or the HERMES_API_KEY env var"@,
{
}

/// Paths are taken byte for byte, and a missing one counts as missing.
pub proof fn paths_are_taken_as_they_are(p: PathBytes, s: &[u8])
    ensures
        path_view(Some(p)) == Some(p@),
        path_view(None) is None,
        slice_view(Some(s)) == Some(s@),
        slice_view(None) is None,
{
}

} // verus!
