//! One session per host, opened when it is first needed and kept for later calls.
use vstd::prelude::*;

use crate::config;
use crate::config::{Config, HostConfig};
use crate::error;
use crate::error::ToolError;
use crate::name_map;
use crate::name_map::NameMap;
use crate::text;

verus! {

/// A session, and the configuration it was opened with.
#[derive(Debug)]
struct Opened<S> {
    config: HostConfig,
    session: S,
}

/// Holds one persistent SSH session per named host, lazily connected on first use. Every session
/// it holds was opened with the configuration that its host has now.
#[derive(Debug)]
pub struct ConnectionPool<S> {
    configs: NameMap<HostConfig>,
    sessions: NameMap<Opened<S>>,
}

/// What a `ConnectionPool` holds, as mathematical values.
#[verifier::ext_equal]
pub struct PoolView<S> {
    /// The hosts.
    pub configs: Map<Seq<char>, config::HostView>,
    /// The sessions that are open, by host.
    pub sessions: Map<Seq<char>, S>,
    /// The configurations that the open sessions were opened with, by host.
    pub opened: Map<Seq<char>, config::HostView>,
}

impl<S> View for ConnectionPool<S> {
    type V = PoolView<S>;

    closed spec fn view(&self) -> PoolView<S> {
        PoolView {
            configs: config::hosts_of(self.configs@),
            sessions: self.sessions@.map_values(|o: Opened<S>| o.session),
            opened: self.sessions@.map_values(|o: Opened<S>| o.config@),
        }
    }
}

impl<S> PoolView<S> {
    /// Whether every open session is that of a host, and was opened with the configuration that
    /// the host has.
    pub open spec fn current(self) -> bool {
        &&& self.opened.dom() == self.sessions.dom()
        &&& forall|name: Seq<char>| #[trigger]
            self.sessions.contains_key(name) ==> self.configs.contains_key(name)
                && self.opened[name] == self.configs[name]
    }

    /// What a request for a host's session comes to.
    pub open spec fn lookup(self, host: Seq<char>) -> Result<
        LookupView<S>,
        error::ToolErrorView,
    > {
        if self.sessions.contains_key(host) {
            Ok(LookupView::Cached(self.sessions[host]))
        } else if self.configs.contains_key(host) {
            Ok(LookupView::Connect(self.configs[host]))
        } else {
            Err(error::ToolErrorView::UnknownHost(host))
        }
    }

    /// The pool after a session was opened for a host: it is kept, unless the host has one or is
    /// no longer configured as it was when the session was opened.
    pub open spec fn with_session(
        self,
        host: Seq<char>,
        opened_with: config::HostView,
        session: S,
    ) -> PoolView<S> {
        if !self.sessions.contains_key(host) && self.configs.contains_key(host)
            && self.configs[host] == opened_with {
            PoolView {
                sessions: self.sessions.insert(host, session),
                opened: self.opened.insert(host, opened_with),
                ..self
            }
        } else {
            self
        }
    }

    /// The pool without the session of a host.
    pub open spec fn without_session(self, host: Seq<char>) -> PoolView<S> {
        PoolView {
            sessions: self.sessions.remove(host),
            opened: self.opened.remove(host),
            ..self
        }
    }

    /// Whether a host is configured in `hosts` as it is in the pool.
    pub open spec fn unchanged(
        self,
        hosts: Map<Seq<char>, config::HostView>,
        host: Seq<char>,
    ) -> bool {
        self.configs.contains_key(host) && hosts.contains_key(host) && hosts[host]
            == self.configs[host]
    }

    /// The pool once its hosts are `hosts`: the sessions of the hosts that did not change stay,
    /// the others go.
    pub open spec fn reconciled(self, hosts: Map<Seq<char>, config::HostView>) -> PoolView<S> {
        PoolView {
            configs: hosts,
            sessions: self.sessions.filter_keys(|name: Seq<char>| self.unchanged(hosts, name)),
            opened: self.opened.filter_keys(|name: Seq<char>| self.unchanged(hosts, name)),
        }
    }
}

/// What a request for a host's session comes to.
#[derive(Debug)]
pub enum Lookup<'a, S> {
    /// The session is open.
    Cached(&'a S),
    /// The session has to be opened, with this configuration.
    Connect(&'a HostConfig),
}

/// What a `Lookup` holds, as mathematical values.
pub enum LookupView<S> {
    Cached(S),
    Connect(config::HostView),
}

impl<'a, S> View for Lookup<'a, S> {
    type V = LookupView<S>;

    open spec fn view(&self) -> LookupView<S> {
        match self {
            Lookup::Cached(session) => LookupView::Cached(**session),
            Lookup::Connect(config) => LookupView::Connect(config@),
        }
    }
}

impl<S> ConnectionPool<S> {
    #[verifier::type_invariant]
    pub closed spec fn up_to_date(self) -> bool {
        self@.current()
    }

    /// A pool with the hosts of a configuration and no open session.
    pub fn new(config: Config) -> (pool: Self)
        ensures
            pool@ == (PoolView {
                configs: config@.hosts,
                sessions: Map::<Seq<char>, S>::empty(),
                opened: Map::empty(),
            }),
    {
        let sessions: NameMap<Opened<S>> = NameMap::new();
        let ghost pool = ConnectionPool { configs: config.hosts, sessions };
        assert(pool@.sessions =~= Map::<Seq<char>, S>::empty());
        assert(pool@.opened =~= Map::<Seq<char>, config::HostView>::empty());
        ConnectionPool { configs: config.hosts, sessions }
    }

    /// The session for `host_name`, or the configuration to open it with.
    pub fn get(&self, host_name: &str) -> (result: Result<Lookup<'_, S>, ToolError>)
        ensures
            error::outcome_of(result) == self@.lookup(host_name@),
            self@.current(),
    {
        proof {
            use_type_invariant(self);
        }
        if let Some(opened) = self.sessions.get(host_name) {
            return Ok(Lookup::Cached(&opened.session));
        }
        match self.configs.get(host_name) {
            Some(host_config) => Ok(Lookup::Connect(host_config)),
            None => Err(ToolError::UnknownHost(host_name.to_owned())),
        }
    }

    /// Keeps a session that was opened for `host_name` with the configuration `opened_with`. If
    /// the host has a session by now, that one is to be used, and comes back; otherwise the one
    /// given is, whether or not it is kept.
    pub fn store(&mut self, host_name: &str, opened_with: HostConfig, session: S) -> (other: Option<
        &S,
    >)
        ensures
            final(self)@ == old(self)@.with_session(host_name@, opened_with@, session),
            other is Some <==> old(self)@.sessions.contains_key(host_name@),
            other matches Some(s) ==> *s == old(self)@.sessions[host_name@],
    {
        proof {
            use_type_invariant(&*self);
        }
        if self.sessions.contains_key(host_name) {
            return match self.sessions.get(host_name) {
                Some(opened) => Some(&opened.session),
                None => None,
            };
        }
        let unchanged: bool = match self.configs.get(host_name) {
            Some(config) => config.same_as(&opened_with),
            None => false,
        };
        if unchanged {
            let mut sessions: NameMap<Opened<S>> = NameMap::new();
            std::mem::swap(&mut sessions, &mut self.sessions);
            sessions.insert(host_name.to_owned(), Opened { config: opened_with, session });
            let ghost pool = ConnectionPool { configs: self.configs, sessions };
            assert(pool@ =~= old(self)@.with_session(host_name@, opened_with@, session));
            self.sessions = sessions;
        }
        None
    }

    /// Remove a cached session (forces reconnect on next `get`).
    pub fn remove(&mut self, host_name: &str)
        ensures
            final(self)@ == old(self)@.without_session(host_name@),
    {
        proof {
            use_type_invariant(&*self);
        }
        let mut sessions: NameMap<Opened<S>> = NameMap::new();
        std::mem::swap(&mut sessions, &mut self.sessions);
        let _ = sessions.remove(host_name);
        let ghost pool = ConnectionPool { configs: self.configs, sessions };
        assert(pool@ =~= old(self)@.without_session(host_name@));
        self.sessions = sessions;
    }

    /// Return sorted list of all configured host names.
    pub fn host_names(&self) -> (names: Vec<String>)
        ensures
            name_map::ascending(text::texts_of(names@)),
            forall|name: Seq<char>| #[trigger]
                text::texts_of(names@).contains(name) <==> self@.configs.contains_key(name),
    {
        self.configs.names()
    }

    /// Takes over the hosts of a new configuration. The sessions of hosts that are configured as
    /// before stay open; those of hosts that are gone or have changed are dropped.
    pub fn reconcile(&mut self, new_config: &Config)
        ensures
            final(self)@ == old(self)@.reconciled(new_config@.hosts),
    {
        proof {
            use_type_invariant(&*self);
        }
        let ghost before = self@;
        let ghost hosts = new_config@.hosts;
        let mut sessions: NameMap<Opened<S>> = NameMap::new();
        std::mem::swap(&mut sessions, &mut self.sessions);
        let ghost all = sessions@;
        let names = sessions.names();
        let ghost texts = text::texts_of(names@);
        let mut i: usize = 0;
        while i < names.len()
            invariant
                i <= names@.len(),
                texts == text::texts_of(names@),
                before.current(),
                before.configs == config::hosts_of(self.configs@),
                before.opened == all.map_values(|o: Opened<S>| o.config@),
                before.sessions == all.map_values(|o: Opened<S>| o.session),
                hosts == config::hosts_of(new_config.hosts@),
                forall|name: Seq<char>| #[trigger] texts.contains(name) <==> all.contains_key(name),
                forall|name: Seq<char>| #[trigger]
                    sessions@.contains_key(name) ==> all.contains_key(name) && sessions@[name]
                        == all[name],
                forall|name: Seq<char>| #[trigger]
                    all.contains_key(name) && !sessions@.contains_key(name) ==> !before.unchanged(
                        hosts,
                        name,
                    ),
                forall|j: int|
                    0 <= j < i && sessions@.contains_key(#[trigger] texts[j]) ==> before.unchanged(
                        hosts,
                        texts[j],
                    ),
            decreases names@.len() - i,
        {
            let name = names[i].as_str();
            assert(texts[i as int] == name@);
            assert(texts.contains(name@));
            assert(before.sessions.contains_key(name@));
            let keep: bool = match (self.configs.get(name), new_config.hosts.get(name)) {
                (Some(old_host), Some(new_host)) => old_host.same_as(new_host),
                _ => false,
            };
            assert(keep == before.unchanged(hosts, name@));
            if !keep {
                let _ = sessions.remove(name);
            }
            i = i + 1;
        }
        proof {
            assert forall|name: Seq<char>| #[trigger]
                sessions@.contains_key(name) implies before.unchanged(hosts, name) by {
                assert(texts.contains(name));
                assert(texts[texts.index_of(name)] == name);
            }
        }
        let configs = new_config.hosts.clone();
        assert(config::hosts_of(configs@) =~= hosts);
        let ghost pool = ConnectionPool { configs, sessions };
        assert(pool@.sessions =~= before.reconciled(hosts).sessions);
        assert(pool@.opened =~= before.reconciled(hosts).opened);
        self.configs = configs;
        self.sessions = sessions;
    }
}

/// A pool that opens its sessions lazily: before the first session is kept for a host of its
/// configuration, a request for that host's session asks for one to be opened.
pub proof fn first_request_connects<S>(pool: PoolView<S>, host: Seq<char>)
    requires
        pool.configs.contains_key(host),
        !pool.sessions.contains_key(host),
    ensures
        pool.lookup(host) == Ok::<LookupView<S>, error::ToolErrorView>(
            LookupView::Connect(pool.configs[host]),
        ),
{
}

/// A session is reused: once it is kept for a host, every request for the host's session gets it.
pub proof fn kept_session_is_reused<S>(pool: PoolView<S>, host: Seq<char>, session: S)
    requires
        pool.configs.contains_key(host),
        !pool.sessions.contains_key(host),
    ensures
        pool.with_session(host, pool.configs[host], session).lookup(host) == Ok::<
            LookupView<S>,
            error::ToolErrorView,
        >(LookupView::Cached(session)),
{
}

/// The first of two sessions opened for a host at once is kept.
pub proof fn first_session_wins<S>(
    pool: PoolView<S>,
    host: Seq<char>,
    opened_with: config::HostView,
    first: S,
    second: S,
)
    requires
        pool.configs.contains_key(host),
        pool.configs[host] == opened_with,
        !pool.sessions.contains_key(host),
    ensures
        pool.with_session(host, opened_with, first).with_session(host, opened_with, second)
            == pool.with_session(host, opened_with, first),
{
}

/// Removing a host's session makes the next request for it ask for a new one, and no other
/// request come out differently.
pub proof fn removed_session_is_reopened<S>(pool: PoolView<S>, host: Seq<char>, other: Seq<char>)
    requires
        pool.current(),
    ensures
        pool.without_session(host).lookup(host) == if pool.configs.contains_key(host) {
            Ok::<LookupView<S>, error::ToolErrorView>(LookupView::Connect(pool.configs[host]))
        } else {
            Err(error::ToolErrorView::UnknownHost(host))
        },
        other != host ==> pool.without_session(host).lookup(other) == pool.lookup(other),
{
}

/// Keeping a session for one host leaves the requests for all others as they were.
pub proof fn sessions_do_not_mix<S>(
    pool: PoolView<S>,
    host: Seq<char>,
    opened_with: config::HostView,
    session: S,
    other: Seq<char>,
)
    requires
        other != host,
    ensures
        pool.with_session(host, opened_with, session).lookup(other) == pool.lookup(other),
{
}

/// A request for a session names an unknown host exactly if the host is not configured.
pub proof fn only_configured_hosts<S>(pool: PoolView<S>, host: Seq<char>)
    requires
        pool.current(),
    ensures
        pool.lookup(host) is Err <==> !pool.configs.contains_key(host),
{
}

/// Keeping a session, removing one and taking over new hosts all leave a pool in which every
/// session was opened with the configuration that its host has.
pub proof fn sessions_stay_current<S>(
    pool: PoolView<S>,
    host: Seq<char>,
    opened_with: config::HostView,
    session: S,
    hosts: Map<Seq<char>, config::HostView>,
)
    requires
        pool.current(),
    ensures
        pool.with_session(host, opened_with, session).current(),
        pool.without_session(host).current(),
        pool.reconciled(hosts).current(),
{
    assert(pool.with_session(host, opened_with, session).opened.dom() =~= pool.with_session(
        host,
        opened_with,
        session,
    ).sessions.dom());
    assert(pool.without_session(host).opened.dom() =~= pool.without_session(host).sessions.dom());
    assert(pool.reconciled(hosts).opened.dom() =~= pool.reconciled(hosts).sessions.dom());
}

/// Taking over hosts that are all as they were drops no session.
pub proof fn same_hosts_keep_sessions<S>(pool: PoolView<S>)
    requires
        pool.current(),
    ensures
        pool.reconciled(pool.configs) == pool,
{
    assert(pool.reconciled(pool.configs).sessions =~= pool.sessions);
    assert(pool.reconciled(pool.configs).opened =~= pool.opened);
}

/// After new hosts are taken over, a request for a session comes out as follows: a host that is
/// not among them is unknown, one that did not change keeps its session, and one that did is to
/// be connected to as it is configured now.
pub proof fn reconciled_requests<S>(
    pool: PoolView<S>,
    hosts: Map<Seq<char>, config::HostView>,
    host: Seq<char>,
)
    requires
        pool.current(),
    ensures
        pool.reconciled(hosts).lookup(host) == if !hosts.contains_key(host) {
            Err::<LookupView<S>, error::ToolErrorView>(error::ToolErrorView::UnknownHost(host))
        } else if pool.sessions.contains_key(host) && pool.configs[host] == hosts[host] {
            Ok(LookupView::Cached(pool.sessions[host]))
        } else {
            Ok(LookupView::Connect(hosts[host]))
        },
{
}

/// Taking over the same hosts once more changes nothing.
pub proof fn reconciling_again_changes_nothing<S>(
    pool: PoolView<S>,
    hosts: Map<Seq<char>, config::HostView>,
)
    requires
        pool.current(),
    ensures
        pool.reconciled(hosts).reconciled(hosts) == pool.reconciled(hosts),
{
    assert(pool.reconciled(hosts).opened.dom() =~= pool.reconciled(hosts).sessions.dom());
    same_hosts_keep_sessions(pool.reconciled(hosts));
}

/// An open session is given to whoever asks for its host, and nothing else is.
pub proof fn open_sessions_are_given<S>(pool: PoolView<S>, host: Seq<char>, session: S)
    ensures
        pool.sessions.contains_key(host) ==> pool.lookup(host) == Ok::<
            LookupView<S>,
            error::ToolErrorView,
        >(LookupView::Cached(pool.sessions[host])),
        pool.lookup(host) == Ok::<LookupView<S>, error::ToolErrorView>(LookupView::Cached(session))
            ==> pool.sessions.contains_key(host) && pool.sessions[host] == session,
        !pool.sessions.contains_key(host) && !pool.configs.contains_key(host) ==> pool.lookup(host)
            == Err::<LookupView<S>, error::ToolErrorView>(error::ToolErrorView::UnknownHost(host)),
{
}

/// A session is kept exactly if its host has none and is configured as it was when the session was
/// opened. Keeping it changes neither the hosts nor any other session.
pub proof fn what_is_kept<S>(
    pool: PoolView<S>,
    host: Seq<char>,
    opened_with: config::HostView,
    session: S,
    other: Seq<char>,
)
    ensures
        ({
            let after = pool.with_session(host, opened_with, session);
            let fits = !pool.sessions.contains_key(host) && pool.configs.contains_key(host)
                && pool.configs[host] == opened_with;
            &&& after.configs == pool.configs
            &&& fits ==> after.sessions.contains_key(host) && after.sessions[host] == session
                && after.opened.contains_key(host) && after.opened[host] == opened_with
            &&& !fits ==> after == pool
            &&& other != host ==> (after.sessions.contains_key(other)
                <==> pool.sessions.contains_key(other)) && after.sessions[other]
                == pool.sessions[other]
        }),
{
}

/// Removing a session changes neither the hosts nor any other session.
pub proof fn what_is_removed<S>(pool: PoolView<S>, host: Seq<char>, other: Seq<char>)
    ensures
        ({
            let after = pool.without_session(host);
            &&& after.configs == pool.configs
            &&& !after.sessions.contains_key(host)
            &&& other != host ==> (after.sessions.contains_key(other)
                <==> pool.sessions.contains_key(other)) && (pool.sessions.contains_key(other)
                ==> after.sessions[other] == pool.sessions[other])
        }),
{
}

/// Once new hosts are taken over, the hosts are those, and a session stays exactly if its host is
/// configured as before.
pub proof fn what_is_reconciled<S>(
    pool: PoolView<S>,
    hosts: Map<Seq<char>, config::HostView>,
    host: Seq<char>,
)
    ensures
        ({
            let after = pool.reconciled(hosts);
            let stays = pool.sessions.contains_key(host) && pool.configs.contains_key(host)
                && hosts.contains_key(host) && hosts[host] == pool.configs[host];
            &&& after.configs == hosts
            &&& after.sessions.contains_key(host) <==> stays
            &&& stays ==> after.sessions[host] == pool.sessions[host]
        }),
{
}

/// In a pool that is up to date, whoever gets a session gets one that was opened with the
/// configuration that its host has.
pub proof fn sessions_fit_their_hosts<S>(pool: PoolView<S>, host: Seq<char>)
    requires
        pool.current(),
        pool.sessions.contains_key(host),
    ensures
        pool.configs.contains_key(host),
        pool.opened.contains_key(host),
        pool.opened[host] == pool.configs[host],
{
    assert(pool.opened.dom().contains(host));
}

} // verus!
