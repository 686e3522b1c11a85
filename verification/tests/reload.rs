//! Taking over a changed config file.
use ssh_mcp_rs::config::{
    AuthMethod, Config, ConfigError, ConfigFile, ConfigSettings, HostConfig, HostSettings,
};
use ssh_mcp_rs::name_map::NameMap;
use ssh_mcp_rs::pool::{ConnectionPool, Lookup};
use ssh_mcp_rs::reload::reload_config;
use ssh_mcp_rs::ssh::MockSshSession;

fn make_host_config(host: &str) -> HostConfig {
    HostConfig {
        host: format!("{host}.example.com"),
        port: 22,
        user: "u".into(),
        auth: AuthMethod::Agent,
        key_path: None,
        password: None,
        sudo_password: None,
        timeout_ms: 60_000,
        max_command_chars: 1_000,
        shellcheck: false,
        windows: false,
        allowed_commands: vec![],
    }
}

fn make_config(host_names: &[&str]) -> Config {
    let mut hosts = NameMap::new();
    for &n in host_names {
        hosts.insert(n.to_string(), make_host_config(n));
    }
    Config { shellcheck_path: None, hosts }
}

fn text_of(table: &toml::Table, key: &str) -> Option<String> {
    table.get(key).map(|v| v.as_str().unwrap().to_string())
}

fn read_toml(text: &str) -> ConfigFile {
    let table: toml::Table = match text.parse() {
        Ok(table) => table,
        Err(error) => {
            let error: toml::de::Error = error;
            return ConfigFile::Malformed(error.to_string());
        }
    };
    let mut hosts = Vec::new();
    if let Some(toml::Value::Table(named)) = table.get("hosts") {
        for (name, host) in named {
            let host = host.as_table().unwrap();
            assert_eq!(text_of(host, "auth").as_deref(), Some("agent"));
            let settings = HostSettings {
                host: text_of(host, "host").unwrap(),
                port: host.get("port").map(|v| v.as_integer().unwrap() as u16),
                user: text_of(host, "user").unwrap(),
                auth: AuthMethod::Agent,
                key_path: None,
                password: None,
                sudo_password: None,
                timeout_ms: host.get("timeout_ms").map(|v| v.as_integer().unwrap() as u64),
                max_command_chars: host
                    .get("max_command_chars")
                    .map(|v| v.as_integer().unwrap() as usize),
                shellcheck: host.get("shellcheck").map(|v| v.as_bool().unwrap()),
                windows: host.get("windows").map(|v| v.as_bool().unwrap()),
                allowed_commands: None,
            };
            hosts.push((name.clone(), settings));
        }
    }
    ConfigFile::Settings(ConfigSettings {
        shellcheck_path: text_of(&table, "shellcheck_path"),
        hosts,
    })
}

const PATH: &str = "/etc/config.toml";

#[test]
fn reload_adds_new_host_to_pool_and_config() {
    let mut shared = make_config(&["prod"]);
    let mut pool: ConnectionPool<MockSshSession> = ConnectionPool::new(make_config(&["prod"]));

    let file = read_toml(
        r#"
[hosts.prod]
host = "prod.example.com"
user = "u"
auth = "agent"

[hosts.dev]
host = "dev.example.com"
user = "u"
auth = "agent"
"#,
    );

    reload_config(PATH, file, &mut shared, &mut pool).unwrap();

    // Pool now knows both hosts.
    let names = pool.host_names();
    assert!(names.contains(&"prod".to_string()));
    assert!(names.contains(&"dev".to_string()));

    // Shared config also reflects the addition.
    assert!(shared.hosts.contains_key("dev"));
}

#[test]
fn reload_removes_host_from_pool_and_config() {
    let mut shared = make_config(&["prod", "dev"]);
    let mut pool: ConnectionPool<MockSshSession> =
        ConnectionPool::new(make_config(&["prod", "dev"]));

    let file = read_toml(
        r#"
[hosts.prod]
host = "prod.example.com"
user = "u"
auth = "agent"
"#,
    );

    reload_config(PATH, file, &mut shared, &mut pool).unwrap();

    let names = pool.host_names();
    assert!(names.contains(&"prod".to_string()));
    assert!(!names.contains(&"dev".to_string()));

    assert!(!shared.hosts.contains_key("dev"));
}

#[test]
fn reload_invalid_config_keeps_old_state() {
    let mut shared = make_config(&["prod"]);
    let mut pool: ConnectionPool<MockSshSession> = ConnectionPool::new(make_config(&["prod"]));

    // A config that fails validation (no hosts).
    let file = read_toml("shellcheck_path = \"/usr/bin/shellcheck\"");

    let result = reload_config(PATH, file, &mut shared, &mut pool);

    // Should return an error.
    assert!(result.is_err());

    // Pool and config are untouched.
    assert_eq!(pool.host_names(), vec!["prod"]);
    assert!(shared.hosts.contains_key("prod"));
    assert!(!shared.hosts.is_empty());
}

#[test]
fn reload_missing_file_keeps_old_state() {
    let mut shared = make_config(&["prod"]);
    let mut pool: ConnectionPool<MockSshSession> = ConnectionPool::new(make_config(&["prod"]));

    let result =
        reload_config("/nonexistent/path.toml", ConfigFile::Missing, &mut shared, &mut pool);

    assert!(matches!(result, Err(ConfigError::NotFound(_))));
    assert_eq!(pool.host_names(), vec!["prod"]);
}

/// Gets the session of a host, counting the connections.
fn get(pool: &mut ConnectionPool<MockSshSession>, count: &mut usize, name: &str) {
    let opened_with = match pool.get(name).unwrap() {
        Lookup::Cached(_) => return,
        Lookup::Connect(config) => config.clone(),
    };
    *count += 1;
    pool.store(name, opened_with, MockSshSession::new());
}

#[test]
fn reload_unchanged_config_no_reconnect() {
    let mut count = 0;
    let mut shared = make_config(&["prod"]);
    let mut pool: ConnectionPool<MockSshSession> = ConnectionPool::new(make_config(&["prod"]));

    // Connect once.
    get(&mut pool, &mut count, "prod");
    assert_eq!(count, 1);

    // A config that matches exactly what make_host_config produces
    // (shellcheck = false, port = 22, timeout_ms = 60000, etc.).
    let file = read_toml(
        r#"
[hosts.prod]
host = "prod.example.com"
port = 22
user = "u"
auth = "agent"
timeout_ms = 60000
max_command_chars = 1000
shellcheck = false
windows = false
"#,
    );

    reload_config(PATH, file, &mut shared, &mut pool).unwrap();

    // Still only one connection (session not dropped).
    get(&mut pool, &mut count, "prod");
    assert_eq!(count, 1);
}

#[test]
fn reload_changed_host_reconnects() {
    let mut count = 0;
    let mut shared = make_config(&["prod"]);
    let mut pool: ConnectionPool<MockSshSession> = ConnectionPool::new(make_config(&["prod"]));
    get(&mut pool, &mut count, "prod");
    let file =
        read_toml("[hosts.prod]\nhost = \"other.example.com\"\nuser = \"u\"\nauth = \"agent\"");
    reload_config(PATH, file, &mut shared, &mut pool).unwrap();
    get(&mut pool, &mut count, "prod");
    assert_eq!(count, 2);
    assert_eq!(shared.hosts.get("prod").unwrap().host, "other.example.com");
}
