//! The connection pool.
use std::cell::RefCell;
use std::collections::HashMap;
use std::rc::Rc;

use ssh_mcp_rs::config::{AuthMethod, Config, HostConfig};
use ssh_mcp_rs::error::ToolError;
use ssh_mcp_rs::name_map::NameMap;
use ssh_mcp_rs::pool::{ConnectionPool, Lookup};
use ssh_mcp_rs::ssh::{ExecOutput, MockSshSession};

type Session = Rc<RefCell<MockSshSession>>;

fn host_config(name: &str) -> HostConfig {
    HostConfig {
        host: format!("{name}.example.com"),
        port: 22,
        user: "u".into(),
        auth: AuthMethod::Agent,
        key_path: None,
        password: None,
        sudo_password: None,
        timeout_ms: 60_000,
        max_command_chars: 1_000,
        shellcheck: false,
        windows: false,
        allowed_commands: vec![],
    }
}

fn make_config(host_names: &[&str]) -> Config {
    let mut hosts = NameMap::new();
    for &name in host_names {
        hosts.insert(name.to_string(), host_config(name));
    }
    Config { shellcheck_path: None, hosts }
}

struct MockFactory {
    sessions: HashMap<String, Session>,
    connect_count: usize,
}

impl MockFactory {
    fn new() -> Self {
        Self { sessions: HashMap::new(), connect_count: 0 }
    }

    fn add(&mut self, name: &str, session: Session) {
        self.sessions.insert(name.to_string(), session);
    }

    fn connect(&mut self, name: &str) -> Result<Session, ToolError> {
        self.connect_count += 1;
        self.sessions
            .get(name)
            .map(Rc::clone)
            .ok_or_else(|| ToolError::UnknownHost(name.to_string()))
    }
}

/// Gets the session of a host, opening it with the factory if need be.
fn get(
    pool: &mut ConnectionPool<Session>,
    factory: &mut MockFactory,
    name: &str,
) -> Result<Session, ToolError> {
    let opened_with = match pool.get(name)? {
        Lookup::Cached(session) => return Ok(Rc::clone(session)),
        Lookup::Connect(config) => config.clone(),
    };
    let session = factory.connect(name)?;
    match pool.store(name, opened_with, Rc::clone(&session)) {
        Some(other) => Ok(Rc::clone(other)),
        None => Ok(session),
    }
}

fn new_session() -> Session {
    Rc::new(RefCell::new(MockSshSession::new()))
}

#[test]
fn get_unknown_host_returns_error() {
    let mut factory = MockFactory::new();
    let mut pool = ConnectionPool::new(make_config(&["prod"]));
    assert!(matches!(
        get(&mut pool, &mut factory, "nonexistent"),
        Err(ToolError::UnknownHost(_))
    ));
}

#[test]
fn get_connects_lazily_on_first_call() {
    let mut factory = MockFactory::new();
    factory.add("prod", new_session());
    let mut pool = ConnectionPool::new(make_config(&["prod"]));

    assert_eq!(factory.connect_count, 0);
    get(&mut pool, &mut factory, "prod").unwrap();
    assert_eq!(factory.connect_count, 1);
}

#[test]
fn get_reuses_existing_session() {
    let mut factory = MockFactory::new();
    factory.add("prod", new_session());
    let mut pool = ConnectionPool::new(make_config(&["prod"]));

    get(&mut pool, &mut factory, "prod").unwrap();
    get(&mut pool, &mut factory, "prod").unwrap();
    assert_eq!(factory.connect_count, 1);
}

#[test]
fn remove_forces_reconnect() {
    let mut factory = MockFactory::new();
    factory.add("prod", new_session());
    let mut pool = ConnectionPool::new(make_config(&["prod"]));

    get(&mut pool, &mut factory, "prod").unwrap();
    pool.remove("prod");
    get(&mut pool, &mut factory, "prod").unwrap();
    assert_eq!(factory.connect_count, 2);
}

#[test]
fn host_names_returns_sorted_list() {
    let pool: ConnectionPool<Session> =
        ConnectionPool::new(make_config(&["zebra", "alpha", "mango"]));
    assert_eq!(pool.host_names(), vec!["alpha", "mango", "zebra"]);
}

#[test]
fn exec_through_pool_uses_session() {
    let mut factory = MockFactory::new();
    let mock = new_session();
    mock.borrow_mut().set_exec(
        "whoami",
        ExecOutput { stdout: "root\n".into(), stderr: String::new(), exit_code: 0 },
    );
    factory.add("prod", Rc::clone(&mock));
    let mut pool = ConnectionPool::new(make_config(&["prod"]));

    let session = get(&mut pool, &mut factory, "prod").unwrap();
    let out = session.borrow_mut().exec("whoami").unwrap();
    assert_eq!(out.stdout, "root\n");
}

#[test]
fn host_names_are_in_the_order_of_their_bytes() {
    let names = ["b", "a", "B", "ab", "é", "z", "\u{10000}", "\u{ffff}", ""];
    let pool: ConnectionPool<u8> = ConnectionPool::new(make_config(&names));
    let mut sorted: Vec<String> = names.iter().map(|n| n.to_string()).collect();
    sorted.sort();
    assert_eq!(pool.host_names(), sorted);
}

#[test]
fn a_failed_connect_leaves_the_pool_as_it_was() {
    let mut factory = MockFactory::new();
    let mut pool = ConnectionPool::new(make_config(&["prod"]));
    assert!(get(&mut pool, &mut factory, "prod").is_err());
    factory.add("prod", new_session());
    assert!(get(&mut pool, &mut factory, "prod").is_ok());
    assert_eq!(factory.connect_count, 2);
}

#[test]
fn the_first_of_two_sessions_is_kept() {
    let mut pool: ConnectionPool<&str> = ConnectionPool::new(make_config(&["prod"]));
    assert!(pool.store("prod", host_config("prod"), "first").is_none());
    assert_eq!(pool.store("prod", host_config("prod"), "second"), Some(&"first"));
    assert!(matches!(pool.get("prod"), Ok(Lookup::Cached(&"first"))));
}

#[test]
fn sessions_of_other_hosts_are_left_alone() {
    let mut pool: ConnectionPool<u8> = ConnectionPool::new(make_config(&["a", "b"]));
    pool.store("a", host_config("a"), 1);
    assert!(matches!(pool.get("b"), Ok(Lookup::Connect(_))));
    pool.store("b", host_config("b"), 2);
    pool.remove("a");
    assert!(matches!(pool.get("a"), Ok(Lookup::Connect(_))));
    assert!(matches!(pool.get("b"), Ok(Lookup::Cached(&2))));
}

#[test]
fn a_session_opened_with_an_old_configuration_is_not_kept() {
    let mut pool: ConnectionPool<u8> = ConnectionPool::new(make_config(&["prod"]));
    let mut old = host_config("prod");
    old.user = "someone".into();
    assert!(pool.store("prod", old, 1).is_none());
    assert!(matches!(pool.get("prod"), Ok(Lookup::Connect(_))));
    assert!(pool.store("gone", host_config("gone"), 2).is_none());
    assert!(matches!(pool.get("gone"), Err(ToolError::UnknownHost(_))));
}

#[test]
fn reconciling_drops_the_sessions_of_changed_hosts_only() {
    let mut pool: ConnectionPool<u8> = ConnectionPool::new(make_config(&["same", "new", "gone"]));
    pool.store("same", host_config("same"), 1);
    pool.store("new", host_config("new"), 2);
    pool.store("gone", host_config("gone"), 3);
    let mut config = make_config(&["same", "added"]);
    let mut changed = host_config("new");
    changed.port = 2222;
    config.hosts.insert("new".into(), changed);
    pool.reconcile(&config);
    assert!(matches!(pool.get("same"), Ok(Lookup::Cached(&1))));
    assert!(matches!(pool.get("new"), Ok(Lookup::Connect(c)) if c.port == 2222));
    assert!(matches!(pool.get("gone"), Err(ToolError::UnknownHost(_))));
    assert!(matches!(pool.get("added"), Ok(Lookup::Connect(_))));
    assert_eq!(pool.host_names(), vec!["added", "new", "same"]);
}
