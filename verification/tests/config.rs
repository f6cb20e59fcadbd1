use hermes_dms::config::{
    Config, ConfigError, Environment, ListenAddr, RawConfig, DEFAULT_HERMES_API_URL,
    DEFAULT_MCP_LISTEN_ADDR, DEFAULT_OLLAMA_ROUTER_URL,
};

fn raw_with_key() -> RawConfig {
    RawConfig {
        hermes_api_key: Some("filekey".into()),
        ..Default::default()
    }
}

fn env(key: Option<&str>) -> Environment {
    Environment {
        hermes_api_key: key.map(String::from),
        mcp_auth_token: None,
        runtime_dir: None,
    }
}

/// What parsing a listen address gives, for the addresses used here.
fn parsed(text: &str) -> Result<ListenAddr, String> {
    match text {
        "10.20.0.3:9721" => Ok(ListenAddr {
            addr: "10.20.0.3:9721".into(),
            ip: "10.20.0.3".into(),
        }),
        _ => Err("invalid socket address syntax".into()),
    }
}

fn resolve(raw: RawConfig, env: Environment) -> Result<Config, ConfigError> {
    let addr = parsed(&raw.listen_addr_text());
    Config::resolve(raw, env, addr)
}

/// Missing optional fields fall back to documented defaults.
#[test]
fn defaults_applied() {
    let cfg = resolve(raw_with_key(), env(None)).unwrap();
    assert_eq!(cfg.hermes_api_url, DEFAULT_HERMES_API_URL);
    assert_eq!(
        cfg.mcp_listen_addr,
        parsed(DEFAULT_MCP_LISTEN_ADDR).unwrap()
    );
    assert!(cfg.socket_path.ends_with(b"/hermes-dms.sock"));
    assert_eq!(cfg.ollama_router_url, DEFAULT_OLLAMA_ROUTER_URL);
    assert_eq!(cfg.ollama_router_token, None);
    assert_eq!(cfg.mcp_auth_token, None);
}

/// The env key wins over the file key.
#[test]
fn env_key_overrides_file() {
    let cfg = resolve(raw_with_key(), env(Some("envkey"))).unwrap();
    assert_eq!(cfg.hermes_api_key, "envkey");
}

/// An empty env key is ignored and the file key is used.
#[test]
fn empty_env_key_falls_back_to_file() {
    let cfg = resolve(raw_with_key(), env(Some(""))).unwrap();
    assert_eq!(cfg.hermes_api_key, "filekey");
}

/// No key anywhere is a hard error.
#[test]
fn missing_key_errors() {
    let err = resolve(RawConfig::default(), env(None)).unwrap_err();
    assert!(matches!(err, ConfigError::MissingKey));
}

/// An empty key in the file is no key, and a missing key is reported before a
/// bad address.
#[test]
fn empty_file_key_errors() {
    let raw = RawConfig {
        hermes_api_key: Some(String::new()),
        mcp_listen_addr: Some("not-an-addr".into()),
        ..Default::default()
    };
    assert_eq!(resolve(raw, env(Some(""))), Err(ConfigError::MissingKey));
}

/// A malformed listen address produces a clear error, not a panic.
#[test]
fn bad_addr_errors() {
    let raw = RawConfig {
        mcp_listen_addr: Some("not-an-addr".into()),
        ..raw_with_key()
    };
    let err = resolve(raw, env(None)).unwrap_err();
    assert!(matches!(err, ConfigError::BadAddr { .. }));
    assert_eq!(
        err.message(),
        "invalid mcp_listen_addr \"not-an-addr\": invalid socket address syntax"
    );
}

/// Settings that are given are kept as they are.
#[test]
fn full_config_resolves() {
    let raw = RawConfig {
        hermes_api_url: Some("http://10.43.0.5:8642".into()),
        hermes_api_key: Some("abc123".into()),
        mcp_auth_token: Some("tok".into()),
        mcp_listen_addr: Some("10.20.0.3:9721".into()),
        socket_path: Some("/run/user/1000/hermes-dms.sock".into()),
        ollama_router_url: Some("http://o".into()),
        ollama_router_token: Some("t".into()),
    };
    let cfg = resolve(raw, env(None)).unwrap();
    assert_eq!(cfg.hermes_api_url, "http://10.43.0.5:8642");
    assert_eq!(cfg.hermes_api_key, "abc123");
    assert_eq!(cfg.mcp_auth_token.as_deref(), Some("tok"));
    assert_eq!(cfg.socket_path, b"/run/user/1000/hermes-dms.sock");
    assert_eq!(cfg.ollama_router_url, "http://o");
    assert_eq!(cfg.ollama_router_token.as_deref(), Some("t"));
}

#[test]
fn env_token_overrides_file() {
    let raw = RawConfig {
        mcp_auth_token: Some("file".into()),
        ..raw_with_key()
    };
    let with = |token: Option<&str>| Environment {
        mcp_auth_token: token.map(String::from),
        ..env(None)
    };
    let token = |e: Environment| resolve(raw.clone(), e).unwrap().mcp_auth_token;
    assert_eq!(token(with(Some("env"))).as_deref(), Some("env"));
    assert_eq!(token(with(Some(""))).as_deref(), Some("file"));
    assert_eq!(token(with(None)).as_deref(), Some("file"));
    let empty = RawConfig {
        mcp_auth_token: Some(String::new()),
        ..raw_with_key()
    };
    assert_eq!(resolve(empty, env(None)).unwrap().mcp_auth_token, None);
}

#[test]
fn default_paths() {
    assert_eq!(
        Config::default_path(Some(b"/cfg"), Some(b"/home/u")),
        Some(b"/cfg/hermes-dms/config.toml".to_vec())
    );
    assert_eq!(
        Config::default_path(None, Some(b"/home/u")),
        Some(b"/home/u/.config/hermes-dms/config.toml".to_vec())
    );
    assert_eq!(Config::default_path(None, None), None);

    assert_eq!(
        Config::default_socket_path(Some(b"/run/user/1000")),
        b"/run/user/1000/hermes-dms.sock"
    );
    assert_eq!(Config::default_socket_path(None), b"/tmp/hermes-dms.sock");

    let given = Some(b"g.toml".to_vec());
    let default = Some(b"d.toml".to_vec());
    assert_eq!(Config::choose_path(given, default.clone()), b"g.toml");
    assert_eq!(Config::choose_path(None, default), b"d.toml");
    assert_eq!(Config::choose_path(None, None), b"hermes-dms.toml");
}

#[test]
fn runtime_dir_places_the_socket() {
    let e = Environment {
        runtime_dir: Some(b"/run/user/7".to_vec()),
        ..env(None)
    };
    assert_eq!(
        resolve(raw_with_key(), e).unwrap().socket_path,
        b"/run/user/7/hermes-dms.sock"
    );
}

#[test]
fn config_errors_in_words() {
    assert_eq!(
        ConfigError::Read { path: b"/c.toml".to_vec(), source: "not found".into() }.message(),
        "reading config file /c.toml: not found"
    );
    assert_eq!(
        ConfigError::Parse { path: b"/c.toml".to_vec(), source: "bad key".into() }.message(),
        "parsing config file /c.toml: bad key"
    );
    assert_eq!(
        ConfigError::BadAddr { value: "a\"b\n".into(), source: "no".into() }.message(),
        "invalid mcp_listen_addr \"a\\\"b\\n\": no"
    );
    assert_eq!(
        ConfigError::MissingKey.message(),
        "no Hermes API key: set `hermes_api_key` in the config file or the HERMES_API_KEY env var"
    );
}
