//! The configuration: which hosts there are, and how each is reached.
use vstd::prelude::*;
use vstd::string::*;

use crate::name_map::NameMap;
use crate::path;
use crate::text;

verus! {

/// How to authenticate to a host.
#[derive(Debug, Clone, Copy, PartialEq, Eq, Structural)]
pub enum AuthMethod {
    Password,
    Key,
    Agent,
}

/// How one host is reached, and what may be run on it.
#[derive(Debug)]
pub struct HostConfig {
    pub host: String,
    pub port: u16,
    pub user: String,
    pub auth: AuthMethod,
    pub key_path: Option<String>,
    pub password: Option<String>,
    pub sudo_password: Option<String>,
    pub timeout_ms: u64,
    pub max_command_chars: usize,
    pub shellcheck: bool,
    pub windows: bool,
    pub allowed_commands: Vec<String>,
}

/// What a `HostConfig` holds, as mathematical values.
pub struct HostView {
    pub host: Seq<char>,
    pub port: u16,
    pub user: Seq<char>,
    pub auth: AuthMethod,
    pub key_path: Option<Seq<char>>,
    pub password: Option<Seq<char>>,
    pub sudo_password: Option<Seq<char>>,
    pub timeout_ms: u64,
    pub max_command_chars: usize,
    pub shellcheck: bool,
    pub windows: bool,
    pub allowed_commands: Seq<Seq<char>>,
}

impl View for HostConfig {
    type V = HostView;

    open spec fn view(&self) -> HostView {
        HostView {
            host: self.host@,
            port: self.port,
            user: self.user@,
            auth: self.auth,
            key_path: text::text_in(self.key_path),
            password: text::text_in(self.password),
            sudo_password: text::text_in(self.sudo_password),
            timeout_ms: self.timeout_ms,
            max_command_chars: self.max_command_chars,
            shellcheck: self.shellcheck,
            windows: self.windows,
            allowed_commands: text::texts_of(self.allowed_commands@),
        }
    }
}

impl Clone for HostConfig {
    fn clone(&self) -> (copy: Self)
        ensures
            copy@ == self@,
    {
        HostConfig {
            host: self.host.clone(),
            port: self.port,
            user: self.user.clone(),
            auth: self.auth,
            key_path: text::copy_option(&self.key_path),
            password: text::copy_option(&self.password),
            sudo_password: text::copy_option(&self.sudo_password),
            timeout_ms: self.timeout_ms,
            max_command_chars: self.max_command_chars,
            shellcheck: self.shellcheck,
            windows: self.windows,
            allowed_commands: text::copy_list(&self.allowed_commands),
        }
    }
}

impl HostConfig {
    /// Tells whether two hosts are configured alike.
    pub fn same_as(&self, other: &HostConfig) -> (same: bool)
        ensures
            same == (self@ == other@),
    {
        text::same_text(self.host.as_str(), other.host.as_str()) && self.port == other.port
            && text::same_text(self.user.as_str(), other.user.as_str()) && self.auth == other.auth
            && text::same_option(&self.key_path, &other.key_path) && text::same_option(
            &self.password,
            &other.password,
        ) && text::same_option(&self.sudo_password, &other.sudo_password) && self.timeout_ms
            == other.timeout_ms && self.max_command_chars == other.max_command_chars
            && self.shellcheck == other.shellcheck && self.windows == other.windows
            && text::same_list(&self.allowed_commands, &other.allowed_commands)
    }
}

/// The port of a host whose settings name none.
pub fn default_port() -> (port: u16)
    ensures
        port == 22,
{
    22
}

/// The time limit of a host whose settings name none, in milliseconds.
pub fn default_timeout_ms() -> (timeout: u64)
    ensures
        timeout == 60_000,
{
    60_000
}

/// The command length limit of a host whose settings name none.
pub fn default_max_command_chars() -> (limit: usize)
    ensures
        limit == 1_000,
{
    1_000
}

/// Whether commands are checked with shellcheck on a host whose settings do not say.
pub fn default_shellcheck() -> (on: bool)
    ensures
        on,
{
    true
}

/// The settings of a host as a config file gives them: what may be left out is optional.
#[derive(Debug)]
pub struct HostSettings {
    pub host: String,
    pub port: Option<u16>,
    pub user: String,
    pub auth: AuthMethod,
    pub key_path: Option<String>,
    pub password: Option<String>,
    pub sudo_password: Option<String>,
    pub timeout_ms: Option<u64>,
    pub max_command_chars: Option<usize>,
    pub shellcheck: Option<bool>,
    pub windows: Option<bool>,
    pub allowed_commands: Option<Vec<String>>,
}

impl HostSettings {
    /// The host that the settings describe: what they leave out has its default.
    pub open spec fn described(self) -> HostView {
        HostView {
            host: self.host@,
            port: self.port.unwrap_or(22),
            user: self.user@,
            auth: self.auth,
            key_path: text::text_in(self.key_path),
            password: text::text_in(self.password),
            sudo_password: text::text_in(self.sudo_password),
            timeout_ms: self.timeout_ms.unwrap_or(60_000),
            max_command_chars: self.max_command_chars.unwrap_or(1_000),
            shellcheck: self.shellcheck.unwrap_or(true),
            windows: self.windows.unwrap_or(false),
            allowed_commands: match self.allowed_commands {
                Some(list) => text::texts_of(list@),
                None => Seq::empty(),
            },
        }
    }
}

impl HostConfig {
    /// The host that the settings describe.
    pub fn from_settings(settings: HostSettings) -> (host: HostConfig)
        ensures
            host@ == settings.described(),
    {
        let allowed_commands: Vec<String> = match settings.allowed_commands {
            Some(list) => list,
            None => Vec::new(),
        };
        let host = HostConfig {
            host: settings.host,
            port: settings.port.unwrap_or(default_port()),
            user: settings.user,
            auth: settings.auth,
            key_path: settings.key_path,
            password: settings.password,
            sudo_password: settings.sudo_password,
            timeout_ms: settings.timeout_ms.unwrap_or(default_timeout_ms()),
            max_command_chars: settings.max_command_chars.unwrap_or(default_max_command_chars()),
            shellcheck: settings.shellcheck.unwrap_or(default_shellcheck()),
            windows: settings.windows.unwrap_or(false),
            allowed_commands,
        };
        assert(host@.allowed_commands =~= settings.described().allowed_commands);
        host
    }
}

impl HostView {
    /// The host with the home directory put for the `~` that its key's path begins with.
    pub open spec fn at_home(self, home: Option<Seq<char>>) -> HostView {
        HostView {
            key_path: match self.key_path {
                Some(p) => Some(path::with_home(p, home)),
                None => None,
            },
            ..self
        }
    }
}

impl HostConfig {
    /// The host with the home directory put for the `~` that its key's path begins with.
    pub fn at_home(&self, home: Option<&str>) -> (host: HostConfig)
        ensures
            host@ == self@.at_home(
                match home {
                    Some(dir) => Some(dir@),
                    None => None,
                },
            ),
    {
        let key_path: Option<String> = match &self.key_path {
            Some(p) => Some(path::expanded(p.as_str(), home)),
            None => None,
        };
        HostConfig { key_path, ..self.clone() }
    }
}

/// The whole configuration.
#[derive(Debug)]
pub struct Config {
    pub shellcheck_path: Option<String>,
    pub hosts: NameMap<HostConfig>,
}

/// What a `Config` holds, as mathematical values.
pub struct ConfigView {
    pub shellcheck_path: Option<Seq<char>>,
    pub hosts: Map<Seq<char>, HostView>,
}

/// What the hosts in a map hold.
pub open spec fn hosts_of(hosts: Map<Seq<char>, HostConfig>) -> Map<Seq<char>, HostView> {
    hosts.map_values(|host: HostConfig| host@)
}

impl View for Config {
    type V = ConfigView;

    open spec fn view(&self) -> ConfigView {
        ConfigView {
            shellcheck_path: text::text_in(self.shellcheck_path),
            hosts: hosts_of(self.hosts@),
        }
    }
}

/// Errors that can occur when loading configuration.
#[derive(Debug)]
pub enum ConfigError {
    NotFound(String),
    Io(String),
    Parse(String),
    MissingKeyPath(String),
    MissingPassword(String),
    NoHosts,
}

/// What a `ConfigError` says, as mathematical values.
pub enum ConfigErrorView {
    NotFound(Seq<char>),
    Io(Seq<char>),
    Parse(Seq<char>),
    MissingKeyPath(Seq<char>),
    MissingPassword(Seq<char>),
    NoHosts,
}

impl View for ConfigError {
    type V = ConfigErrorView;

    open spec fn view(&self) -> ConfigErrorView {
        match self {
            ConfigError::NotFound(path) => ConfigErrorView::NotFound(path@),
            ConfigError::Io(message) => ConfigErrorView::Io(message@),
            ConfigError::Parse(message) => ConfigErrorView::Parse(message@),
            ConfigError::MissingKeyPath(name) => ConfigErrorView::MissingKeyPath(name@),
            ConfigError::MissingPassword(name) => ConfigErrorView::MissingPassword(name@),
            ConfigError::NoHosts => ConfigErrorView::NoHosts,
        }
    }
}

impl ConfigErrorView {
    /// The text in which the error is shown.
    pub open spec fn message(self) -> Seq<char> {
        match self {
            ConfigErrorView::NotFound(path) => "config file not found at "@ + path,
            ConfigErrorView::Io(message) => "failed to read config file: "@ + message,
            ConfigErrorView::Parse(message) => "failed to parse config: "@ + message,
            ConfigErrorView::MissingKeyPath(name) => "host '"@ + name
                + "': key_path required when auth = key"@,
            ConfigErrorView::MissingPassword(name) => "host '"@ + name
                + "': password required when auth = password"@,
            ConfigErrorView::NoHosts => "no hosts configured"@,
        }
    }
}

impl ConfigError {
    /// The text in which the error is shown.
    pub fn message(&self) -> (message: String)
        ensures
            message@ == self@.message(),
    {
        match self {
            ConfigError::NotFound(path) => "config file not found at ".to_owned().concat(
                path.as_str(),
            ),
            ConfigError::Io(message) => "failed to read config file: ".to_owned().concat(
                message.as_str(),
            ),
            ConfigError::Parse(message) => "failed to parse config: ".to_owned().concat(
                message.as_str(),
            ),
            ConfigError::MissingKeyPath(name) => "host '".to_owned().concat(name.as_str()).concat(
                "': key_path required when auth = key",
            ),
            ConfigError::MissingPassword(name) => "host '".to_owned().concat(name.as_str()).concat(
                "': password required when auth = password",
            ),
            ConfigError::NoHosts => "no hosts configured".to_owned(),
        }
    }
}

/// What is wrong with a host's configuration, if anything: the secret that its way to
/// authenticate needs is missing.
pub open spec fn host_fault(name: Seq<char>, host: HostView) -> Option<ConfigErrorView> {
    if host.auth == AuthMethod::Key && host.key_path is None {
        Some(ConfigErrorView::MissingKeyPath(name))
    } else if host.auth == AuthMethod::Password && host.password is None {
        Some(ConfigErrorView::MissingPassword(name))
    } else {
        None
    }
}

/// Whether a configuration can be used: it has a host, and no host lacks its secret.
pub open spec fn usable(config: ConfigView) -> bool {
    &&& config.hosts.dom() != Set::<Seq<char>>::empty()
    &&& forall|name: Seq<char>| #[trigger]
        config.hosts.contains_key(name) ==> host_fault(name, config.hosts[name]) is None
}

/// Whether `error` is the right complaint about a configuration: that it has no hosts, or what
/// is wrong with the first host in the order of names that has something wrong with it.
pub open spec fn complaint(config: ConfigView, error: ConfigErrorView) -> bool {
    if config.hosts.dom() == Set::<Seq<char>>::empty() {
        error is NoHosts
    } else {
        exists|name: Seq<char>| #[trigger] first_fault(config, name, error)
    }
}

/// Whether `name` is the first host with something wrong with it, and `error` says what.
pub open spec fn first_fault(config: ConfigView, name: Seq<char>, error: ConfigErrorView) -> bool {
    &&& config.hosts.contains_key(name)
    &&& host_fault(name, config.hosts[name]) == Some(error)
    &&& forall|other: Seq<char>| #[trigger]
        config.hosts.contains_key(other) && text::text_before(other, name) ==> host_fault(
            other,
            config.hosts[other],
        ) is None
}

impl Config {
    /// Checks that there is a host, and that every host has the secret it needs.
    pub fn validate(&self) -> (result: Result<(), ConfigError>)
        ensures
            result is Ok <==> usable(self@),
            result matches Err(error) ==> complaint(self@, error@),
    {
        let ghost names = self.hosts.names_in_order();
        if self.hosts.is_empty() {
            assert(self@.hosts.dom() =~= Set::<Seq<char>>::empty());
            return Err(ConfigError::NoHosts);
        }
        let n = self.hosts.len();
        proof {
            assert(names.contains(names[0]));
            assert(self.hosts@.contains_key(names[0]));
            assert(self@.hosts.contains_key(names[0]));
            assert(self@.hosts.dom().contains(names[0]));
        }
        let mut i: usize = 0;
        while i < n
            invariant
                i <= n,
                n == names.len(),
                names == self.hosts.names_in_order(),
                crate::name_map::ascending(names),
                self@.hosts.dom() != Set::<Seq<char>>::empty(),
                forall|j: int|
                    0 <= j < i ==> host_fault(#[trigger] names[j], self@.hosts[names[j]]) is None,
            decreases n - i,
        {
            let name = self.hosts.name_at(i);
            let host = self.hosts.value_at(i);
            assert(self@.hosts.contains_key(names[i as int]));
            assert(self@.hosts[names[i as int]] == host@);
            proof {
                assert forall|other: Seq<char>| #[trigger]
                    self@.hosts.contains_key(other) && text::text_before(other, name@) implies host_fault(
                    other,
                    self@.hosts[other],
                ) is None by {
                    assert(self.hosts@.contains_key(other));
                    let j = names.index_of(other);
                    assert(names[j] == other);
                    if j > i {
                        text::lemma_text_before_transitive(other, name@, other);
                    }
                    if j >= i {
                        text::lemma_text_before_irreflexive(other);
                    }
                }
            }
            match host.auth {
                AuthMethod::Key if host.key_path.is_none() => {
                    let error = ConfigError::MissingKeyPath(name.clone());
                    assert(first_fault(self@, name@, error@));
                    return Err(error);
                },
                AuthMethod::Password if host.password.is_none() => {
                    let error = ConfigError::MissingPassword(name.clone());
                    assert(first_fault(self@, name@, error@));
                    return Err(error);
                },
                _ => {},
            }
            i = i + 1;
        }
        proof {
            assert forall|name: Seq<char>| #[trigger] self@.hosts.contains_key(name) implies host_fault(
                name,
                self@.hosts[name],
            ) is None by {
                assert(self.hosts@.contains_key(name));
                assert(names[names.index_of(name)] == name);
            }
        }
        Ok(())
    }

    /// Tells whether any host wants its commands checked with shellcheck; Windows hosts never do.
    pub fn needs_shellcheck(&self) -> (yes: bool)
        ensures
            yes == wants_shellcheck(self@),
    {
        let ghost names = self.hosts.names_in_order();
        let n = self.hosts.len();
        let mut i: usize = 0;
        while i < n
            invariant
                i <= n,
                n == names.len(),
                names == self.hosts.names_in_order(),
                forall|j: int|
                    0 <= j < i ==> !self@.hosts[#[trigger] names[j]].shellcheck
                        || self@.hosts[names[j]].windows,
            decreases n - i,
        {
            let host = self.hosts.value_at(i);
            assert(self@.hosts.contains_key(names[i as int]));
            assert(self@.hosts[names[i as int]] == host@);
            if host.shellcheck && !host.windows {
                return true;
            }
            i = i + 1;
        }
        proof {
            assert forall|name: Seq<char>| #[trigger] self@.hosts.contains_key(name) implies !self@.hosts[name].shellcheck
                || self@.hosts[name].windows by {
                assert(self.hosts@.contains_key(name));
                assert(names[names.index_of(name)] == name);
            }
        }
        false
    }
}

/// Whether a configuration has a host other than a Windows host with shellcheck on.
pub open spec fn wants_shellcheck(config: ConfigView) -> bool {
    exists|name: Seq<char>| #[trigger]
        config.hosts.contains_key(name) && config.hosts[name].shellcheck
            && !config.hosts[name].windows
}

/// A configuration as a config file gives it.
#[derive(Debug)]
pub struct ConfigSettings {
    pub shellcheck_path: Option<String>,
    pub hosts: Vec<(String, HostSettings)>,
}

/// The hosts that a list of settings describes; of two with one name, the later counts.
pub open spec fn described_hosts(hosts: Seq<(String, HostSettings)>) -> Map<Seq<char>, HostView>
    decreases hosts.len(),
{
    if hosts.len() == 0 {
        Map::empty()
    } else {
        described_hosts(hosts.drop_last()).insert(hosts.last().0@, hosts.last().1.described())
    }
}

impl ConfigSettings {
    /// The configuration that the settings describe.
    pub open spec fn described(self) -> ConfigView {
        ConfigView {
            shellcheck_path: text::text_in(self.shellcheck_path),
            hosts: described_hosts(self.hosts@),
        }
    }
}

/// What came of reading a config file.
#[derive(Debug)]
pub enum ConfigFile {
    /// There is no such file.
    Missing,
    /// The file could not be read, and why.
    Unreadable(String),
    /// The file does not hold settings, and why.
    Malformed(String),
    /// The settings in the file.
    Settings(ConfigSettings),
}

impl ConfigFile {
    /// The configuration that comes of the file, if it can be used.
    pub open spec fn accepted(self) -> Option<ConfigView> {
        match self {
            ConfigFile::Settings(settings) if usable(settings.described()) => Some(
                settings.described(),
            ),
            _ => None,
        }
    }

    /// Whether `error` is the right one for a file at `path` of which no configuration comes.
    pub open spec fn refusal(self, path: Seq<char>, error: ConfigErrorView) -> bool {
        match self {
            ConfigFile::Missing => error == ConfigErrorView::NotFound(path),
            ConfigFile::Unreadable(why) => error == ConfigErrorView::Io(why@),
            ConfigFile::Malformed(why) => error == ConfigErrorView::Parse(why@),
            ConfigFile::Settings(settings) => complaint(settings.described(), error),
        }
    }
}

impl Config {
    /// The configuration that the settings describe, not yet validated.
    pub fn from_settings(settings: ConfigSettings) -> (config: Config)
        ensures
            config@ == settings.described(),
    {
        let mut hosts: NameMap<HostConfig> = NameMap::new();
        let list = settings.hosts;
        let ghost all = list@;
        assert(hosts_of(hosts@) =~= described_hosts(all.take(0)));
        for entry in it: list
            invariant
                it.seq() == all,
                hosts_of(hosts@) == described_hosts(all.take(it.index() as int)),
        {
            let ghost before = hosts@;
            let ghost done = all.take(it.index() + 1);
            let (name, host_settings) = entry;
            assert(done.drop_last() =~= all.take(it.index() as int));
            assert(done.last() == (name, host_settings));
            let ghost text = name@;
            let host = HostConfig::from_settings(host_settings);
            hosts.insert(name, host);
            assert(hosts_of(before.insert(text, host)) =~= hosts_of(before).insert(text, host@));
        }
        assert(all.take(all.len() as int) =~= all);
        Config { shellcheck_path: settings.shellcheck_path, hosts }
    }

    /// The validated configuration of the file at `path`, given what came of reading it.
    pub fn load(path: &str, file: ConfigFile) -> (result: Result<Config, ConfigError>)
        ensures
            match result {
                Ok(config) => file.accepted() == Some(config@),
                Err(error) => file.accepted() is None && file.refusal(path@, error@),
            },
    {
        match file {
            ConfigFile::Missing => Err(ConfigError::NotFound(path.to_owned())),
            ConfigFile::Unreadable(why) => Err(ConfigError::Io(why)),
            ConfigFile::Malformed(why) => Err(ConfigError::Parse(why)),
            ConfigFile::Settings(settings) => {
                let config = Config::from_settings(settings);
                match config.validate() {
                    Ok(()) => Ok(config),
                    Err(error) => Err(error),
                }
            },
        }
    }
}

impl Clone for Config {
    fn clone(&self) -> (copy: Self)
        ensures
            copy@ == self@,
    {
        let hosts = self.hosts.clone();
        let copy = Config { shellcheck_path: text::copy_option(&self.shellcheck_path), hosts };
        assert(copy@.hosts =~= self@.hosts);
        copy
    }
}

/// The path of the config file of a user whose config directory is `dir`.
pub open spec fn config_path(dir: Seq<u8>) -> Seq<u8> {
    path::raw_path_in(path::raw_path_in(dir, "ssh-mcp"@), "config.toml"@)
}

/// The path of the config file of a user whose config directory is `dir`.
pub fn config_path_in(dir: &[u8]) -> (path: Vec<u8>)
    ensures
        path@ == config_path(dir@),
{
    path::join_raw_path(path::join_raw_path(dir, "ssh-mcp").as_slice(), "config.toml")
}

/// `dirs::config_dir` gives the user's config directory, if it can tell. Which one that is
/// depends on the user and the environment, so nothing is claimed of it. Its path is handed on
/// as `OsString::into_encoded_bytes` gives it: all of its bytes, whether or not they are text.
#[verifier::external_body]
fn user_config_dir() -> (dir: Option<Vec<u8>>) {
    dirs::config_dir().map(|dir| dir.into_os_string().into_encoded_bytes())
}

/// Resolve the default XDG config path: ~/.config/ssh-mcp/config.toml
pub fn default_config_path() -> (path: Option<Vec<u8>>)
    ensures
        path matches Some(p) ==> exists|dir: Seq<u8>| p@ == #[trigger] config_path(dir),
{
    config_path_for(user_config_dir())
}

/// The path of the config file of a user, given their config directory: there is one exactly if
/// the directory is known, and it is the one in that directory.
pub fn config_path_for(dir: Option<Vec<u8>>) -> (path: Option<Vec<u8>>)
    ensures
        path::bytes_in(path) == match dir {
            Some(d) => Some(config_path(d@)),
            None => None,
        },
{
    match dir {
        Some(d) => Some(config_path_in(d.as_slice())),
        None => None,
    }
}

/// One host that has shellcheck on, and is not a Windows host, is enough for the server to need
/// shellcheck; without such a host it does not.
pub proof fn hosts_decide_on_shellcheck(config: ConfigView, name: Seq<char>)
    ensures
        config.hosts.contains_key(name) && config.hosts[name].shellcheck
            && !config.hosts[name].windows ==> wants_shellcheck(config),
        (forall|other: Seq<char>| #[trigger]
            config.hosts.contains_key(other) ==> !config.hosts[other].shellcheck
                || config.hosts[other].windows) ==> !wants_shellcheck(config),
{
}

/// A host holds the settings it is made of, each as it is.
pub proof fn a_host_holds_its_settings(host: HostConfig)
    ensures
        host@.host == host.host@,
        host@.port == host.port,
        host@.user == host.user@,
        host@.auth == host.auth,
        host@.key_path is Some <==> host.key_path is Some,
        host.key_path matches Some(p) ==> host@.key_path == Some(p@),
        host@.password is Some <==> host.password is Some,
        host.password matches Some(p) ==> host@.password == Some(p@),
        host@.sudo_password is Some <==> host.sudo_password is Some,
        host.sudo_password matches Some(p) ==> host@.sudo_password == Some(p@),
        host@.timeout_ms == host.timeout_ms,
        host@.max_command_chars == host.max_command_chars,
        host@.shellcheck == host.shellcheck,
        host@.windows == host.windows,
        host@.allowed_commands.len() == host.allowed_commands@.len(),
        forall|i: int|
            0 <= i < host.allowed_commands@.len() ==> #[trigger] host@.allowed_commands[i]
                == host.allowed_commands@[i]@,
{
}

/// What a config file says of a host is kept as it is; what it leaves out gets its default: port 22,
/// a timeout of a minute, a thousand characters, shellcheck on, not a Windows host, and no
/// allowlist. No secret has a default.
pub proof fn settings_are_kept(settings: HostSettings)
    ensures
        ({
            let host = settings.described();
            &&& host.host == settings.host@
            &&& host.port == match settings.port {
                Some(port) => port,
                None => 22,
            }
            &&& host.user == settings.user@
            &&& host.auth == settings.auth
            &&& host.key_path is Some <==> settings.key_path is Some
            &&& settings.key_path matches Some(p) ==> host.key_path == Some(p@)
            &&& host.password is Some <==> settings.password is Some
            &&& settings.password matches Some(p) ==> host.password == Some(p@)
            &&& host.sudo_password is Some <==> settings.sudo_password is Some
            &&& settings.sudo_password matches Some(p) ==> host.sudo_password == Some(p@)
            &&& host.timeout_ms == match settings.timeout_ms {
                Some(timeout) => timeout,
                None => 60_000,
            }
            &&& host.max_command_chars == match settings.max_command_chars {
                Some(limit) => limit,
                None => 1_000,
            }
            &&& host.shellcheck == match settings.shellcheck {
                Some(on) => on,
                None => true,
            }
            &&& host.windows == match settings.windows {
                Some(yes) => yes,
                None => false,
            }
            &&& settings.allowed_commands is None ==> host.allowed_commands.len() == 0
            &&& settings.allowed_commands matches Some(list) ==> host.allowed_commands.len()
                == list@.len() && forall|i: int|
                0 <= i < list@.len() ==> #[trigger] host.allowed_commands[i] == list@[i]@
        }),
{
}

/// Every host that a config file describes is in the configuration, as the last description of its
/// name has it; and no other host is.
pub proof fn every_described_host_is_there(
    hosts: Seq<(String, HostSettings)>,
    at: int,
    name: Seq<char>,
)
    requires
        0 <= at < hosts.len(),
        forall|i: int| at < i < hosts.len() ==> (#[trigger] hosts[i]).0@ != hosts[at].0@,
    ensures
        described_hosts(hosts).contains_key(hosts[at].0@),
        described_hosts(hosts)[hosts[at].0@] == hosts[at].1.described(),
        described_hosts(hosts).contains_key(name) ==> exists|i: int|
            0 <= i < hosts.len() && (#[trigger] hosts[i]).0@ == name,
    decreases hosts.len(),
{
    lemma_described_names(hosts, name);
    let fewer = hosts.drop_last();
    if at < fewer.len() {
        assert(fewer[at] == hosts[at]);
        assert forall|i: int| at < i < fewer.len() implies (#[trigger] fewer[i]).0@
            != fewer[at].0@ by {
            assert(fewer[i] == hosts[i]);
        }
        every_described_host_is_there(fewer, at, name);
        assert(hosts[hosts.len() - 1].0@ != hosts[at].0@);
    }
}

proof fn lemma_described_names(hosts: Seq<(String, HostSettings)>, name: Seq<char>)
    ensures
        described_hosts(hosts).contains_key(name) ==> exists|i: int|
            0 <= i < hosts.len() && (#[trigger] hosts[i]).0@ == name,
    decreases hosts.len(),
{
    if hosts.len() > 0 && described_hosts(hosts).contains_key(name) {
        if hosts.last().0@ == name {
            assert(hosts[hosts.len() - 1].0@ == name);
        } else {
            let fewer = hosts.drop_last();
            lemma_described_names(fewer, name);
            let i = choose|i: int| 0 <= i < fewer.len() && (#[trigger] fewer[i]).0@ == name;
            assert(hosts[i].0@ == name);
        }
    }
}

/// A configuration can be used exactly if it has a host, every host that authenticates with a key
/// names one, and every host that authenticates with a password has one.
pub proof fn what_makes_a_configuration_usable(config: ConfigView, some: Seq<char>)
    ensures
        config.hosts.contains_key(some) && (forall|name: Seq<char>| #[trigger]
            config.hosts.contains_key(name) ==> match config.hosts[name].auth {
                AuthMethod::Key => config.hosts[name].key_path is Some,
                AuthMethod::Password => config.hosts[name].password is Some,
                AuthMethod::Agent => true,
            }) ==> usable(config),
        usable(config) && config.hosts.contains_key(some) ==> match config.hosts[some].auth {
            AuthMethod::Key => config.hosts[some].key_path is Some,
            AuthMethod::Password => config.hosts[some].password is Some,
            AuthMethod::Agent => true,
        },
        usable(config) ==> exists|name: Seq<char>| #[trigger] config.hosts.contains_key(name),
{
    if config.hosts.contains_key(some) {
        assert(config.hosts.dom().contains(some));
    }
    if usable(config) {
        assert(exists|name: Seq<char>| #[trigger] config.hosts.contains_key(name)) by {
            if forall|name: Seq<char>| !(#[trigger] config.hosts.contains_key(name)) {
                assert(config.hosts.dom() =~= Set::<Seq<char>>::empty());
            }
        }
    }
}

/// A complaint about a configuration is never wrong: it has no hosts where that is said, and a host
/// that is named lacks what it is said to lack.
pub proof fn complaints_are_true(config: ConfigView, error: ConfigErrorView)
    requires
        complaint(config, error),
    ensures
        !usable(config),
        match error {
            ConfigErrorView::NoHosts => forall|name: Seq<char>|
                !(#[trigger] config.hosts.contains_key(name)),
            ConfigErrorView::MissingKeyPath(name) => config.hosts.contains_key(name)
                && config.hosts[name].auth == AuthMethod::Key && config.hosts[name].key_path is None,
            ConfigErrorView::MissingPassword(name) => config.hosts.contains_key(name)
                && config.hosts[name].auth == AuthMethod::Password
                && config.hosts[name].password is None,
            _ => false,
        },
{
    if config.hosts.dom() == Set::<Seq<char>>::empty() {
        assert forall|name: Seq<char>| !(#[trigger] config.hosts.contains_key(name)) by {
            assert(!config.hosts.dom().contains(name));
        }
    } else {
        let name = choose|name: Seq<char>| #[trigger] first_fault(config, name, error);
        assert(config.hosts.contains_key(name));
    }
}

/// A config file gives the configuration that its settings describe, if that can be used, and
/// nothing else; a file that is not there, cannot be read or does not hold settings is refused with
/// its path or the reason.
pub proof fn files_are_taken_as_they_are(file: ConfigFile, path: Seq<char>, error: ConfigErrorView)
    ensures
        file matches ConfigFile::Settings(settings) ==> file.accepted() == if usable(
            settings.described(),
        ) {
            Some(settings.described())
        } else {
            None
        },
        !(file is Settings) ==> file.accepted() is None,
        file is Missing ==> (file.refusal(path, error) <==> error == ConfigErrorView::NotFound(
            path,
        )),
        file matches ConfigFile::Unreadable(why) ==> (file.refusal(path, error) <==> error
            == ConfigErrorView::Io(why@)),
        file matches ConfigFile::Malformed(why) ==> (file.refusal(path, error) <==> error
            == ConfigErrorView::Parse(why@)),
        file matches ConfigFile::Settings(settings) ==> (file.refusal(path, error) ==> complaint(
            settings.described(),
            error,
        )),
{
}

/// The settings of a whole file are those of its hosts, and the path of shellcheck if it gives one.
pub proof fn a_file_holds_its_settings(settings: ConfigSettings)
    ensures
        settings.described().hosts == described_hosts(settings.hosts@),
        settings.described().shellcheck_path is Some <==> settings.shellcheck_path is Some,
        settings.shellcheck_path matches Some(p) ==> settings.described().shellcheck_path == Some(
            p@,
        ),
{
}

/// What is said of a configuration that is refused names the path, the reason or the host in full.
pub proof fn config_errors_say_all_they_know(error: ConfigErrorView)
    ensures
        error.message() == match error {
            ConfigErrorView::NotFound(path) => "config file not found at "@ + path,
            ConfigErrorView::Io(message) => "failed to read config file: "@ + message,
            ConfigErrorView::Parse(message) => "failed to parse config: "@ + message,
            ConfigErrorView::MissingKeyPath(name) => "host '"@ + name
                + "': key_path required when auth = key"@,
            ConfigErrorView::MissingPassword(name) => "host '"@ + name
                + "': password required when auth = password"@,
            ConfigErrorView::NoHosts => "no hosts configured"@,
        },
{
}

/// The path of the config file begins with the config directory and ends in the directory and the
/// file that are looked for in it.
pub proof fn the_config_file_is_in_its_directory(dir: Seq<u8>)
    ensures
        ({
            let path = config_path(dir);
            let file = vstd::utf8::encode_utf8("config.toml"@);
            let below = vstd::utf8::encode_utf8("ssh-mcp"@);
            let slash = path.len() - file.len() - 1;
            &&& dir.len() <= slash - below.len()
            &&& path.take(dir.len() as int) == dir
            &&& path.skip(slash + 1) == file
            &&& path[slash] == 0x2f
            &&& path.subrange(slash - below.len(), slash) == below
            &&& dir.len() > 0 ==> path[slash - below.len() - 1] == 0x2f
        }),
{
    let file = vstd::utf8::encode_utf8("config.toml"@);
    let below = vstd::utf8::encode_utf8("ssh-mcp"@);
    let inner = path::raw_path_in(dir, "ssh-mcp"@);
    let path = config_path(dir);
    reveal_strlit("ssh-mcp");
    vstd::utf8::is_ascii_chars_encode_utf8("ssh-mcp"@);
    path::a_raw_path_holds_its_parts(dir, "ssh-mcp"@);
    path::a_raw_path_holds_its_parts(inner, "config.toml"@);
    assert(below.len() == 7 && below[6] == 0x70);
    assert(inner.last() == inner.skip(inner.len() - below.len())[6]);
    assert(path.take(inner.len() as int) == inner);
    assert(path.len() == inner.len() + file.len() + 1);
    assert(path.take(dir.len() as int) =~= path.take(inner.len() as int).take(dir.len() as int));
    assert(inner.take(dir.len() as int) == dir);
    let slash = path.len() - file.len() - 1;
    assert(slash == inner.len());
    assert(path.subrange(slash - below.len(), slash) =~= path.take(inner.len() as int).skip(
        inner.len() - below.len(),
    ));
    if dir.len() > 0 {
        assert(path[slash - below.len() - 1] == path.take(inner.len() as int)[inner.len()
            - below.len() - 1]);
    }
}

/// Putting the home directory for a `~` changes nothing of a host but the path of its key, and
/// that only as it changes any path.
pub proof fn home_changes_the_key_alone(host: HostView, home: Option<Seq<char>>)
    ensures
        ({
            let there = host.at_home(home);
            &&& there.host == host.host && there.port == host.port && there.user == host.user
            &&& there.auth == host.auth && there.password == host.password
            &&& there.sudo_password == host.sudo_password && there.timeout_ms == host.timeout_ms
            &&& there.max_command_chars == host.max_command_chars
            &&& there.shellcheck == host.shellcheck && there.windows == host.windows
            &&& there.allowed_commands == host.allowed_commands
            &&& there.key_path is Some <==> host.key_path is Some
            &&& host.key_path matches Some(p) ==> there.key_path == Some(path::with_home(p, home))
        }),
{
}

/// A configuration holds its hosts, each under its name, and the path of shellcheck if it has one.
pub proof fn a_configuration_holds_its_hosts(config: Config, name: Seq<char>)
    ensures
        config@.hosts.contains_key(name) <==> config.hosts@.contains_key(name),
        config.hosts@.contains_key(name) ==> config@.hosts[name] == config.hosts@[name]@,
        config@.shellcheck_path is Some <==> config.shellcheck_path is Some,
        config.shellcheck_path matches Some(p) ==> config@.shellcheck_path == Some(p@),
{
}

/// An error of the configuration holds what it was made of, in full.
pub proof fn a_config_error_holds_what_it_was_made_of(error: ConfigError)
    ensures
        error@ == match error {
            ConfigError::NotFound(path) => ConfigErrorView::NotFound(path@),
            ConfigError::Io(message) => ConfigErrorView::Io(message@),
            ConfigError::Parse(message) => ConfigErrorView::Parse(message@),
            ConfigError::MissingKeyPath(name) => ConfigErrorView::MissingKeyPath(name@),
            ConfigError::MissingPassword(name) => ConfigErrorView::MissingPassword(name@),
            ConfigError::NoHosts => ConfigErrorView::NoHosts,
        },
{
}

} // verus!
