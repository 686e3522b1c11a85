//! Loading and validating the configuration.
use ssh_mcp_rs::config::{
    config_path_for, config_path_in, default_config_path, AuthMethod, Config, ConfigError, ConfigFile,
    ConfigSettings, HostConfig, HostSettings,
};
use ssh_mcp_rs::path::{expanded, join_path, join_raw_path};

fn text_of(value: Option<toml::Value>) -> Option<String> {
    value.map(|v| v.as_str().unwrap().to_string())
}

fn host_settings(mut table: toml::Table) -> Result<HostSettings, String> {
    let settings = HostSettings {
        host: text_of(table.remove("host")).ok_or("missing field `host`")?,
        port: table.remove("port").map(|v| v.as_integer().unwrap() as u16),
        user: text_of(table.remove("user")).ok_or("missing field `user`")?,
        auth: match text_of(table.remove("auth")).as_deref() {
            Some("password") => AuthMethod::Password,
            Some("key") => AuthMethod::Key,
            Some("agent") => AuthMethod::Agent,
            other => return Err(format!("auth: {other:?}")),
        },
        key_path: text_of(table.remove("key_path")),
        password: text_of(table.remove("password")),
        sudo_password: text_of(table.remove("sudo_password")),
        timeout_ms: table.remove("timeout_ms").map(|v| v.as_integer().unwrap() as u64),
        max_command_chars: table
            .remove("max_command_chars")
            .map(|v| v.as_integer().unwrap() as usize),
        shellcheck: table.remove("shellcheck").map(|v| v.as_bool().unwrap()),
        windows: table.remove("windows").map(|v| v.as_bool().unwrap()),
        allowed_commands: table.remove("allowed_commands").map(|v| {
            let list = v.as_array().unwrap();
            list.iter().map(|c| c.as_str().unwrap().to_string()).collect()
        }),
    };
    match table.keys().next() {
        Some(key) => Err(format!("unknown field `{key}`")),
        None => Ok(settings),
    }
}

fn settings(text: &str) -> Result<ConfigSettings, String> {
    let mut table: toml::Table = text.parse().map_err(|e: toml::de::Error| e.to_string())?;
    let shellcheck_path = text_of(table.remove("shellcheck_path"));
    let mut hosts = Vec::new();
    if let Some(toml::Value::Table(named)) = table.remove("hosts") {
        for (name, host) in named {
            hosts.push((name, host_settings(host.as_table().unwrap().clone())?));
        }
    }
    Ok(ConfigSettings { shellcheck_path, hosts })
}

fn load(text: &str) -> Result<Config, ConfigError> {
    let file = match settings(text) {
        Ok(settings) => ConfigFile::Settings(settings),
        Err(why) => ConfigFile::Malformed(why),
    };
    Config::load("/etc/config.toml", file)
}

#[test]
fn parses_minimal_password_host() {
    let cfg = load(
        r#"
[hosts.myhost]
host = "1.2.3.4"
user = "admin"
auth = "password"
password = "secret"
"#,
    )
    .unwrap();
    let h = cfg.hosts.get("myhost").unwrap();
    assert_eq!(h.host, "1.2.3.4");
    assert_eq!(h.port, 22);
    assert_eq!(h.user, "admin");
    assert_eq!(h.auth, AuthMethod::Password);
    assert_eq!(h.password.as_deref(), Some("secret"));
    assert_eq!(h.timeout_ms, 60_000);
    assert_eq!(h.max_command_chars, 1_000);
    assert!(h.shellcheck);
    assert!(!h.windows);
}

#[test]
fn parses_key_host_with_overrides() {
    let cfg = load(
        r#"
[hosts.prod]
host = "prod.example.com"
port = 2222
user = "deploy"
auth = "key"
key_path = "/home/user/.ssh/id_ed25519"
timeout_ms = 30000
max_command_chars = 500
shellcheck = false
windows = false
allowed_commands = ["^systemctl\\s", "^journalctl\\s"]
"#,
    )
    .unwrap();
    let h = cfg.hosts.get("prod").unwrap();
    assert_eq!(h.port, 2222);
    assert_eq!(h.auth, AuthMethod::Key);
    assert_eq!(h.timeout_ms, 30_000);
    assert_eq!(h.max_command_chars, 500);
    assert!(!h.shellcheck);
    assert_eq!(h.allowed_commands.len(), 2);
}

#[test]
fn parses_agent_host() {
    let cfg = load(
        r#"
[hosts.dev]
host = "dev.example.com"
user = "ubuntu"
auth = "agent"
"#,
    )
    .unwrap();
    assert_eq!(cfg.hosts.get("dev").unwrap().auth, AuthMethod::Agent);
}

#[test]
fn parses_global_shellcheck_path() {
    let cfg = load(
        r#"
shellcheck_path = "/usr/local/bin/shellcheck"

[hosts.h]
host = "1.2.3.4"
user = "u"
auth = "agent"
"#,
    )
    .unwrap();
    assert_eq!(cfg.shellcheck_path.as_deref(), Some("/usr/local/bin/shellcheck"));
}

#[test]
fn rejects_key_auth_without_key_path() {
    let result = load(
        r#"
[hosts.h]
host = "1.2.3.4"
user = "u"
auth = "key"
"#,
    );
    assert!(matches!(result, Err(ConfigError::MissingKeyPath(_))));
}

#[test]
fn rejects_password_auth_without_password() {
    let result = load(
        r#"
[hosts.h]
host = "1.2.3.4"
user = "u"
auth = "password"
"#,
    );
    assert!(matches!(result, Err(ConfigError::MissingPassword(_))));
}

#[test]
fn rejects_empty_hosts() {
    assert!(matches!(load(""), Err(ConfigError::NoHosts)));
}

#[test]
fn rejects_unknown_keys() {
    let result = load(
        r#"
[hosts.h]
host = "1.2.3.4"
user = "u"
auth = "agent"
unknown_field = "oops"
"#,
    );
    assert!(matches!(result, Err(ConfigError::Parse(_))));
}

#[test]
fn not_found_returns_error() {
    let result = Config::load("/nonexistent/path.toml", ConfigFile::Missing);
    assert!(matches!(result, Err(ConfigError::NotFound(_))));
}

#[test]
fn default_config_path_is_some() {
    // Just verify it resolves without panicking; path may not exist.
    assert!(default_config_path().is_some());
}

#[test]
fn default_config_path_ends_in_the_config_file() {
    let path = default_config_path().unwrap();
    assert!(path.ends_with(b"/ssh-mcp/config.toml"));
    assert!(path.len() > b"/ssh-mcp/config.toml".len());
    let expected = dirs::config_dir().unwrap().join("ssh-mcp").join("config.toml");
    assert_eq!(path, expected.into_os_string().into_encoded_bytes());
}

#[test]
fn config_path_is_in_its_directory() {
    assert_eq!(config_path_in(b"/home/u/.config"), b"/home/u/.config/ssh-mcp/config.toml");
    assert_eq!(config_path_in(b"/"), b"/ssh-mcp/config.toml");
    assert_eq!(config_path_in(b""), b"ssh-mcp/config.toml");
}

#[test]
fn there_is_a_config_path_exactly_if_the_directory_is_known() {
    assert_eq!(
        config_path_for(Some(b"/home/u/.config".to_vec())),
        Some(b"/home/u/.config/ssh-mcp/config.toml".to_vec())
    );
    assert_eq!(
        config_path_for(Some(b"/home/\xff/".to_vec())),
        Some(b"/home/\xff/ssh-mcp/config.toml".to_vec())
    );
    assert_eq!(config_path_for(None), None);
}

#[test]
fn joined_paths_are_those_of_std() {
    for dir in ["", "/", "/usr/bin", "/usr/bin/", "relative", "ä/ö"] {
        let expected = std::path::Path::new(dir).join("shellcheck");
        assert_eq!(join_path(dir, "shellcheck"), expected.to_str().unwrap());
        assert_eq!(
            join_raw_path(dir.as_bytes(), "shellcheck"),
            expected.to_str().unwrap().as_bytes()
        );
    }
}

#[test]
fn the_home_directory_is_put_for_a_tilde() {
    let home = Some("/home/u");
    assert_eq!(expanded("~/.ssh/id_ed25519", home), "/home/u/.ssh/id_ed25519");
    assert_eq!(expanded("~/.ssh/id_ed25519", Some("/root/")), "/root/.ssh/id_ed25519");
    assert_eq!(expanded("~", home), "/home/u");
    assert_eq!(expanded("~/", home), "/home/u/");
    for other in ["", "/k", "k", "~user/k", "a~/k", "/~/k", "~~"] {
        assert_eq!(expanded(other, home), other);
    }
    assert_eq!(expanded("~/.ssh/id_ed25519", None), "~/.ssh/id_ed25519");
}

#[test]
fn a_documented_key_path_is_found_at_home() {
    let cfg = load(
        r#"
[hosts.prod]
host = "192.168.1.10"
port = 22
user = "admin"
auth = "key"
key_path = "~/.ssh/id_ed25519"
sudo_password = "supersecret"
"#,
    )
    .unwrap();
    let host = cfg.hosts.get("prod").unwrap();
    assert_eq!(host.key_path.as_deref(), Some("~/.ssh/id_ed25519"));
    let at_home = host.at_home(Some("/home/admin"));
    assert_eq!(at_home.key_path.as_deref(), Some("/home/admin/.ssh/id_ed25519"));
    assert_eq!(at_home.sudo_password.as_deref(), Some("supersecret"));
    let mut back = at_home;
    back.key_path = host.key_path.clone();
    assert!(back.same_as(host));
    let mut keyless = host.clone();
    keyless.key_path = None;
    assert_eq!(keyless.at_home(Some("/home/admin")).key_path, None);
}

#[test]
fn config_errors_say_what_is_wrong() {
    let missing = Config::load("/nonexistent/path.toml", ConfigFile::Missing).unwrap_err();
    assert_eq!(missing.message(), "config file not found at /nonexistent/path.toml");
    let unreadable =
        Config::load("/x", ConfigFile::Unreadable("permission denied".into())).unwrap_err();
    assert_eq!(unreadable.message(), "failed to read config file: permission denied");
    let malformed = Config::load("/x", ConfigFile::Malformed("bad".into())).unwrap_err();
    assert_eq!(malformed.message(), "failed to parse config: bad");
    assert_eq!(load("").unwrap_err().message(), "no hosts configured");
    let key = load("[hosts.h]\nhost = \"a\"\nuser = \"u\"\nauth = \"key\"").unwrap_err();
    assert_eq!(key.message(), "host 'h': key_path required when auth = key");
    let password = load("[hosts.h]\nhost = \"a\"\nuser = \"u\"\nauth = \"password\"").unwrap_err();
    assert_eq!(password.message(), "host 'h': password required when auth = password");
}

#[test]
fn a_later_host_of_the_same_name_counts() {
    let host = |address: &str| HostSettings {
        host: address.to_string(),
        port: None,
        user: "u".into(),
        auth: AuthMethod::Agent,
        key_path: None,
        password: None,
        sudo_password: None,
        timeout_ms: None,
        max_command_chars: None,
        shellcheck: None,
        windows: None,
        allowed_commands: None,
    };
    let settings = ConfigSettings {
        shellcheck_path: None,
        hosts: vec![("h".into(), host("first")), ("h".into(), host("second"))],
    };
    let cfg = Config::load("/x", ConfigFile::Settings(settings)).unwrap();
    assert_eq!(cfg.hosts.len(), 1);
    assert_eq!(cfg.hosts.get("h").unwrap().host, "second");
}

#[test]
fn shellcheck_is_needed_by_hosts_that_are_not_windows_hosts() {
    let one = |shellcheck: bool, windows: bool| {
        load(&format!(
            "[hosts.h]\nhost = \"a\"\nuser = \"u\"\nauth = \"agent\"\nshellcheck = {shellcheck}\nwindows = {windows}"
        ))
        .unwrap()
    };
    assert!(one(true, false).needs_shellcheck());
    assert!(!one(true, true).needs_shellcheck());
    assert!(!one(false, false).needs_shellcheck());
}

#[test]
fn hosts_are_the_same_if_every_setting_is() {
    let host = || {
        HostConfig::from_settings(HostSettings {
            host: "a".into(),
            port: Some(1),
            user: "u".into(),
            auth: AuthMethod::Key,
            key_path: Some("/k".into()),
            password: None,
            sudo_password: Some("p".into()),
            timeout_ms: Some(2),
            max_command_chars: Some(3),
            shellcheck: Some(false),
            windows: Some(true),
            allowed_commands: Some(vec!["^ls".into()]),
        })
    };
    assert!(host().same_as(&host()));
    assert!(host().same_as(&host().clone()));
    let mut other = host();
    other.allowed_commands = vec!["^ps".into()];
    assert!(!host().same_as(&other));
    let mut other = host();
    other.sudo_password = None;
    assert!(!host().same_as(&other));
    let mut other = host();
    other.port = 9;
    assert!(!host().same_as(&other));
    let mut other = host();
    other.windows = false;
    assert!(!host().same_as(&other));
}
