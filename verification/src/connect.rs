//! Opening a session: dialling a host and authenticating to it, step by step.
use vstd::prelude::*;
use vstd::string::*;

use crate::config;
use crate::config::{AuthMethod, HostConfig};
use crate::error;
use crate::error::ToolError;

verus! {

/// What `std::path::Path` shows of a path with `{:?}`.
pub uninterp spec fn path_debug(path: Seq<char>) -> Seq<char>;

/// `<std::path::Path as std::fmt::Debug>::fmt` shows a path between quotes, with the characters
/// escaped that could not be read otherwise. What it shows depends on the path alone.
#[verifier::external_body]
fn shown_path(path: &str) -> (shown: String)
    ensures
        shown@ == path_debug(path@),
{
    format!("{:?}", std::path::Path::new(path))
}

/// The error for a key that could not be loaded, given how its path is shown and why.
pub open spec fn unloaded_key(shown: Seq<char>, why: Seq<char>) -> error::ToolErrorView {
    error::ToolErrorView::InvalidParam("failed to load key "@ + shown + ": "@ + why)
}

/// The error for a key that could not be loaded, given how its path is shown and why.
pub fn key_not_loaded(shown: &str, why: &str) -> (error: ToolError)
    ensures
        error@ == unloaded_key(shown@, why@),
{
    ToolError::InvalidParam("failed to load key ".to_owned().concat(shown).concat(": ").concat(why))
}

/// How far a session is opened. `H` is a choice of hash for RSA signatures.
#[derive(Debug)]
pub enum Stage<H> {
    Dialing,
    Password,
    LoadingKey { path: String },
    HashForKey,
    Key { hash: Option<H> },
    ReachingAgent,
    ListingIdentities,
    HashForIdentity { index: usize, count: usize },
    Identity { index: usize, count: usize, hash: Option<H> },
    Connected,
    Failed(ToolError),
}

/// What a `Stage` holds, as mathematical values.
pub enum StageView<H> {
    Dialing,
    Password,
    LoadingKey { path: Seq<char> },
    HashForKey,
    Key { hash: Option<H> },
    ReachingAgent,
    ListingIdentities,
    HashForIdentity { index: usize, count: usize },
    Identity { index: usize, count: usize, hash: Option<H> },
    Connected,
    Failed(error::ToolErrorView),
}

impl<H> View for Stage<H> {
    type V = StageView<H>;

    open spec fn view(&self) -> StageView<H> {
        match self {
            Stage::Dialing => StageView::Dialing,
            Stage::Password => StageView::Password,
            Stage::LoadingKey { path } => StageView::LoadingKey { path: path@ },
            Stage::HashForKey => StageView::HashForKey,
            Stage::Key { hash } => StageView::Key { hash: *hash },
            Stage::ReachingAgent => StageView::ReachingAgent,
            Stage::ListingIdentities => StageView::ListingIdentities,
            Stage::HashForIdentity { index, count } => StageView::HashForIdentity {
                index: *index,
                count: *count,
            },
            Stage::Identity { index, count, hash } => StageView::Identity {
                index: *index,
                count: *count,
                hash: *hash,
            },
            Stage::Connected => StageView::Connected,
            Stage::Failed(error) => StageView::Failed(error@),
        }
    }
}

/// What has to be done next to open a session.
#[derive(Debug)]
pub enum ConnectAction<'a, H> {
    /// Open a connection that closes after `timeout_ms` of inactivity.
    Dial { host: &'a str, port: u16, timeout_ms: u64 },
    /// Authenticate with a password.
    Password { user: &'a str, password: &'a str },
    /// Load the secret key at a path.
    LoadKey { path: &'a str },
    /// Ask which RSA hash the server likes best.
    RsaHash,
    /// Authenticate with the key that was loaded.
    Key { user: &'a str, hash: Option<H> },
    /// Reach the SSH agent.
    ReachAgent,
    /// Ask the agent for its identities.
    ListIdentities,
    /// Authenticate with one of the agent's identities.
    Identity { index: usize, user: &'a str, hash: Option<H> },
    /// Nothing: the session is open, or cannot be opened.
    Finish,
}

/// What a `ConnectAction` holds, as mathematical values.
pub enum ConnectActionView<H> {
    Dial { host: Seq<char>, port: u16, timeout_ms: u64 },
    Password { user: Seq<char>, password: Seq<char> },
    LoadKey { path: Seq<char> },
    RsaHash,
    Key { user: Seq<char>, hash: Option<H> },
    ReachAgent,
    ListIdentities,
    Identity { index: usize, user: Seq<char>, hash: Option<H> },
    Finish,
}

impl<'a, H> View for ConnectAction<'a, H> {
    type V = ConnectActionView<H>;

    open spec fn view(&self) -> ConnectActionView<H> {
        match self {
            ConnectAction::Dial { host, port, timeout_ms } => ConnectActionView::Dial {
                host: host@,
                port: *port,
                timeout_ms: *timeout_ms,
            },
            ConnectAction::Password { user, password } => ConnectActionView::Password {
                user: user@,
                password: password@,
            },
            ConnectAction::LoadKey { path } => ConnectActionView::LoadKey { path: path@ },
            ConnectAction::RsaHash => ConnectActionView::RsaHash,
            ConnectAction::Key { user, hash } => ConnectActionView::Key { user: user@, hash: *hash },
            ConnectAction::ReachAgent => ConnectActionView::ReachAgent,
            ConnectAction::ListIdentities => ConnectActionView::ListIdentities,
            ConnectAction::Identity { index, user, hash } => ConnectActionView::Identity {
                index: *index,
                user: user@,
                hash: *hash,
            },
            ConnectAction::Finish => ConnectActionView::Finish,
        }
    }
}

/// What came of an action. An error is given in words.
#[derive(Debug)]
pub enum ConnectEvent<H> {
    Dialed(Result<(), String>),
    /// Whether the server accepted what was shown to it.
    Authenticated(Result<bool, String>),
    KeyLoaded(Result<(), String>),
    /// The server may not say which hash it likes, or like none.
    RsaHash(Result<Option<Option<H>>, String>),
    AgentReached(bool),
    /// How many identities the agent has.
    Identities(Result<usize, String>),
}

/// The stage after the server judged what was shown to it, where nothing else can be shown.
pub open spec fn judged<H>(host_name: Seq<char>, accepted: Result<bool, String>) -> StageView<H> {
    match accepted {
        Ok(true) => StageView::Connected,
        Ok(false) => StageView::Failed(error::ToolErrorView::SshAuth { host: host_name }),
        Err(source) => StageView::Failed(
            error::ToolErrorView::SshConnect { host: host_name, source: source@ },
        ),
    }
}

/// The hash to use, given what the server said.
pub open spec fn chosen_hash<H>(answer: Option<Option<H>>) -> Option<H> {
    match answer {
        Some(hash) => hash,
        None => None,
    }
}

/// The stage in which the identity at `index` is tried, or the end if there is none.
pub open spec fn try_identity<H>(host_name: Seq<char>, index: int, count: int) -> StageView<H> {
    if index < count {
        StageView::HashForIdentity { index: index as usize, count: count as usize }
    } else {
        StageView::Failed(error::ToolErrorView::SshAuth { host: host_name })
    }
}

/// The opening of a session with a host.
#[verifier::ext_equal]
pub struct ConnectView<H> {
    pub host_name: Seq<char>,
    pub config: config::HostView,
    pub stage: StageView<H>,
}

impl<H> ConnectView<H> {
    /// What has to be done next.
    pub open spec fn action(self) -> ConnectActionView<H> {
        match self.stage {
            StageView::Dialing => ConnectActionView::Dial {
                host: self.config.host,
                port: self.config.port,
                timeout_ms: self.config.timeout_ms,
            },
            StageView::Password => ConnectActionView::Password {
                user: self.config.user,
                password: match self.config.password {
                    Some(password) => password,
                    None => ""@,
                },
            },
            StageView::LoadingKey { path } => ConnectActionView::LoadKey { path },
            StageView::HashForKey => ConnectActionView::RsaHash,
            StageView::Key { hash } => ConnectActionView::Key { user: self.config.user, hash },
            StageView::ReachingAgent => ConnectActionView::ReachAgent,
            StageView::ListingIdentities => ConnectActionView::ListIdentities,
            StageView::HashForIdentity { .. } => ConnectActionView::RsaHash,
            StageView::Identity { index, hash, .. } => ConnectActionView::Identity {
                index,
                user: self.config.user,
                hash,
            },
            StageView::Connected => ConnectActionView::Finish,
            StageView::Failed(_) => ConnectActionView::Finish,
        }
    }

    /// The stage in which a session over an open connection begins to authenticate.
    pub open spec fn authenticating(self) -> StageView<H> {
        match self.config.auth {
            AuthMethod::Password => StageView::Password,
            AuthMethod::Key => StageView::LoadingKey { path: self.config.key_path->0 },
            AuthMethod::Agent => StageView::ReachingAgent,
        }
    }

    /// The stage after a connection error.
    pub open spec fn broken(self, source: String) -> StageView<H> {
        StageView::Failed(
            error::ToolErrorView::SshConnect { host: self.host_name, source: source@ },
        )
    }

    /// The stage after an event. An event that does not answer what was to be done changes
    /// nothing.
    pub open spec fn stage_after(self, event: ConnectEvent<H>) -> StageView<H> {
        match (self.stage, event) {
            (StageView::Dialing, ConnectEvent::Dialed(result)) => match result {
                Ok(()) => self.authenticating(),
                Err(source) => self.broken(source),
            },
            (StageView::Password, ConnectEvent::Authenticated(accepted)) => judged(
                self.host_name,
                accepted,
            ),
            (StageView::LoadingKey { path }, ConnectEvent::KeyLoaded(result)) => match result {
                Ok(()) => StageView::HashForKey,
                Err(why) => StageView::Failed(unloaded_key(path_debug(path), why@)),
            },
            (StageView::HashForKey, ConnectEvent::RsaHash(result)) => match result {
                Ok(answer) => StageView::Key { hash: chosen_hash(answer) },
                Err(source) => self.broken(source),
            },
            (StageView::Key { .. }, ConnectEvent::Authenticated(accepted)) => judged(
                self.host_name,
                accepted,
            ),
            (StageView::ReachingAgent, ConnectEvent::AgentReached(reached)) => if reached {
                StageView::ListingIdentities
            } else {
                StageView::Failed(
                    error::ToolErrorView::InvalidParam(
                        "SSH_AUTH_SOCK not set or agent unavailable"@,
                    ),
                )
            },
            (StageView::ListingIdentities, ConnectEvent::Identities(result)) => match result {
                Ok(count) => try_identity(self.host_name, 0, count as int),
                Err(why) => StageView::Failed(
                    error::ToolErrorView::InvalidParam(
                        "agent request_identities failed: "@ + why@,
                    ),
                ),
            },
            (
                StageView::HashForIdentity { index, count },
                ConnectEvent::RsaHash(result),
            ) => match result {
                Ok(answer) => StageView::Identity { index, count, hash: chosen_hash(answer) },
                Err(source) => self.broken(source),
            },
            (
                StageView::Identity { index, count, .. },
                ConnectEvent::Authenticated(accepted),
            ) => match accepted {
                Ok(true) => StageView::Connected,
                _ => try_identity(self.host_name, index + 1, count as int),
            },
            _ => self.stage,
        }
    }

    /// The opening after an event.
    pub open spec fn after(self, event: ConnectEvent<H>) -> ConnectView<H> {
        ConnectView { stage: self.stage_after(event), ..self }
    }

    /// The opening after events, one by one.
    pub open spec fn after_all(self, events: Seq<ConnectEvent<H>>) -> ConnectView<H>
        decreases events.len(),
    {
        if events.len() == 0 {
            self
        } else {
            self.after_all(events.drop_last()).after(events.last())
        }
    }
}

/// The opening of a session with a host.
#[derive(Debug)]
pub struct Connecting<H> {
    host_name: String,
    config: HostConfig,
    stage: Stage<H>,
}

impl<H> View for Connecting<H> {
    type V = ConnectView<H>;

    closed spec fn view(&self) -> ConnectView<H> {
        ConnectView { host_name: self.host_name@, config: self.config@, stage: self.stage@ }
    }
}

/// The end of an opening that failed to authenticate.
fn refused<H>(host_name: &str) -> (stage: Stage<H>)
    ensures
        stage@ == StageView::<H>::Failed(error::ToolErrorView::SshAuth { host: host_name@ }),
{
    Stage::Failed(ToolError::SshAuth { host: host_name.to_owned() })
}

/// The end of an opening on a connection error.
fn broken<H>(host_name: &str, source: String) -> (stage: Stage<H>)
    ensures
        stage@ == StageView::<H>::Failed(
            error::ToolErrorView::SshConnect { host: host_name@, source: source@ },
        ),
{
    Stage::Failed(ToolError::SshConnect { host: host_name.to_owned(), source })
}

/// The end of an opening that showed the server all it has.
fn verdict<H>(host_name: &str, accepted: Result<bool, String>) -> (stage: Stage<H>)
    ensures
        stage@ == judged::<H>(host_name@, accepted),
{
    match accepted {
        Ok(true) => Stage::Connected,
        Ok(false) => refused(host_name),
        Err(source) => broken(host_name, source),
    }
}

/// Goes on to the identity at `index`, if there is one.
fn next_identity<H>(host_name: &str, index: usize, count: usize) -> (stage: Stage<H>)
    ensures
        stage@ == try_identity::<H>(host_name@, index as int, count as int),
{
    if index < count {
        Stage::HashForIdentity { index, count }
    } else {
        refused(host_name)
    }
}

impl<H> Connecting<H> {
    #[verifier::type_invariant]
    pub closed spec fn has_its_key(self) -> bool {
        &&& self.config.auth == AuthMethod::Key ==> self.config.key_path is Some
        &&& self.stage matches Stage::Identity { index, count, .. } ==> index < count
        &&& self.stage matches Stage::HashForIdentity { index, count } ==> index < count
    }
}

impl<H: Copy> Connecting<H> {
    /// Begins to open a session with a host. A host that authenticates with a key has to have
    /// one.
    pub fn new(host_name: &str, config: HostConfig) -> (connecting: Self)
        requires
            config.auth == AuthMethod::Key ==> config.key_path is Some,
        ensures
            connecting@ == (ConnectView {
                host_name: host_name@,
                config: config@,
                stage: StageView::<H>::Dialing,
            }),
    {
        Connecting { host_name: host_name.to_owned(), config, stage: Stage::Dialing }
    }

    /// What has to be done next.
    pub fn action(&self) -> (action: ConnectAction<'_, H>)
        ensures
            action@ == self@.action(),
    {
        let user = self.config.user.as_str();
        match &self.stage {
            Stage::Dialing => ConnectAction::Dial {
                host: self.config.host.as_str(),
                port: self.config.port,
                timeout_ms: self.config.timeout_ms,
            },
            Stage::Password => {
                let password = match &self.config.password {
                    Some(password) => password.as_str(),
                    None => "",
                };
                ConnectAction::Password { user, password }
            },
            Stage::LoadingKey { path } => ConnectAction::LoadKey { path: path.as_str() },
            Stage::HashForKey => ConnectAction::RsaHash,
            Stage::Key { hash } => ConnectAction::Key { user, hash: *hash },
            Stage::ReachingAgent => ConnectAction::ReachAgent,
            Stage::ListingIdentities => ConnectAction::ListIdentities,
            Stage::HashForIdentity { .. } => ConnectAction::RsaHash,
            Stage::Identity { index, hash, .. } => ConnectAction::Identity {
                index: *index,
                user,
                hash: *hash,
            },
            Stage::Connected => ConnectAction::Finish,
            Stage::Failed(_) => ConnectAction::Finish,
        }
    }

    /// The stage in which authentication begins.
    fn authenticate(&self) -> (stage: Stage<H>)
        ensures
            stage@ == self@.authenticating(),
            !(stage is Identity),
            !(stage is HashForIdentity),
    {
        proof {
            use_type_invariant(self);
        }
        match self.config.auth {
            AuthMethod::Password => Stage::Password,
            AuthMethod::Key => match &self.config.key_path {
                Some(path) => Stage::LoadingKey { path: path.clone() },
                None => {
                    assert(false);
                    Stage::Dialing
                },
            },
            AuthMethod::Agent => Stage::ReachingAgent,
        }
    }

    /// The opening after an event. One that does not answer what was to be done changes nothing.
    pub fn step(self, event: ConnectEvent<H>) -> (next: Self)
        ensures
            next@ == self@.after(event),
    {
        proof {
            use_type_invariant(&self);
        }
        let first = self.authenticate();
        let Connecting { host_name, config, stage } = self;
        let name = host_name.as_str();
        let stage: Stage<H> = match (stage, event) {
            (Stage::Dialing, ConnectEvent::Dialed(result)) => match result {
                Ok(()) => first,
                Err(source) => broken(name, source),
            },
            (Stage::Password, ConnectEvent::Authenticated(accepted)) => verdict(name, accepted),
            (Stage::LoadingKey { path }, ConnectEvent::KeyLoaded(result)) => match result {
                Ok(()) => Stage::HashForKey,
                Err(why) => Stage::Failed(
                    key_not_loaded(shown_path(path.as_str()).as_str(), why.as_str()),
                ),
            },
            (Stage::HashForKey, ConnectEvent::RsaHash(result)) => match result {
                Ok(answer) => Stage::Key {
                    hash: match answer {
                        Some(hash) => hash,
                        None => None,
                    },
                },
                Err(source) => broken(name, source),
            },
            (Stage::Key { .. }, ConnectEvent::Authenticated(accepted)) => verdict(name, accepted),
            (Stage::ReachingAgent, ConnectEvent::AgentReached(reached)) => {
                if reached {
                    Stage::ListingIdentities
                } else {
                    Stage::Failed(
                        ToolError::InvalidParam(
                            "SSH_AUTH_SOCK not set or agent unavailable".to_owned(),
                        ),
                    )
                }
            },
            (Stage::ListingIdentities, ConnectEvent::Identities(result)) => match result {
                Ok(count) => next_identity(name, 0, count),
                Err(why) => Stage::Failed(
                    ToolError::InvalidParam(
                        "agent request_identities failed: ".to_owned().concat(why.as_str()),
                    ),
                ),
            },
            (Stage::HashForIdentity { index, count }, ConnectEvent::RsaHash(result)) => match result {
                Ok(answer) => Stage::Identity {
                    index,
                    count,
                    hash: match answer {
                        Some(hash) => hash,
                        None => None,
                    },
                },
                Err(source) => broken(name, source),
            },
            (
                Stage::Identity { index, count, .. },
                ConnectEvent::Authenticated(accepted),
            ) => match accepted {
                Ok(true) => Stage::Connected,
                _ => next_identity(name, index + 1, count),
            },
            (stage, _) => stage,
        };
        Connecting { host_name, config, stage }
    }

    /// How the opening ended, once it has: the session is open, or why it is not.
    pub fn finish(self) -> (result: Option<Result<(), ToolError>>)
        ensures
            result is Some <==> self@.action() is Finish,
            result matches Some(Ok(())) ==> self@.stage is Connected,
            result matches Some(Err(error)) ==> self@.stage == StageView::<H>::Failed(error@),
    {
        match self.stage {
            Stage::Connected => Some(Ok(())),
            Stage::Failed(error) => Some(Err(error)),
            _ => None,
        }
    }
}

/// Once a session is open or cannot be opened, nothing changes that.
pub proof fn an_end_is_final<H>(connecting: ConnectView<H>, event: ConnectEvent<H>)
    requires
        connecting.action() is Finish,
    ensures
        connecting.after(event) == connecting,
{
}

/// A session opens only when the server accepts what is shown to it.
pub proof fn only_the_server_lets_in<H>(connecting: ConnectView<H>, event: ConnectEvent<H>)
    requires
        !(connecting.stage is Connected),
        connecting.after(event).stage is Connected,
    ensures
        event == ConnectEvent::<H>::Authenticated(Ok(true)),
        connecting.action() is Password || connecting.action() is Key || connecting.action() is Identity,
{
}

/// Each way to authenticate shows the server only what it is named for: a host with a password
/// is never asked for a key or an identity, and so on.
pub proof fn one_way_to_authenticate<H>(connecting: ConnectView<H>, events: Seq<ConnectEvent<H>>)
    requires
        connecting.stage is Dialing,
    ensures
        connecting.after_all(events).action() is Password ==> connecting.config.auth
            == AuthMethod::Password,
        connecting.after_all(events).action() is Key ==> connecting.config.auth == AuthMethod::Key,
        connecting.after_all(events).action() is Identity ==> connecting.config.auth
            == AuthMethod::Agent,
{
    lemma_stage_fits(connecting, events);
}

/// Whether a stage belongs to a way to authenticate.
spec fn fits<H>(stage: StageView<H>, auth: AuthMethod) -> bool {
    match stage {
        StageView::Password => auth == AuthMethod::Password,
        StageView::LoadingKey { .. } => auth == AuthMethod::Key,
        StageView::HashForKey => auth == AuthMethod::Key,
        StageView::Key { .. } => auth == AuthMethod::Key,
        StageView::ReachingAgent => auth == AuthMethod::Agent,
        StageView::ListingIdentities => auth == AuthMethod::Agent,
        StageView::HashForIdentity { .. } => auth == AuthMethod::Agent,
        StageView::Identity { .. } => auth == AuthMethod::Agent,
        _ => true,
    }
}

proof fn lemma_stage_fits<H>(connecting: ConnectView<H>, events: Seq<ConnectEvent<H>>)
    requires
        connecting.stage is Dialing,
    ensures
        fits(connecting.after_all(events).stage, connecting.config.auth),
        connecting.after_all(events).config == connecting.config,
    decreases events.len(),
{
    if events.len() > 0 {
        lemma_stage_fits(connecting, events.drop_last());
    }
}

/// With a password, a session opens exactly if the server is reached and accepts the password.
pub proof fn password_decides<H>(
    connecting: ConnectView<H>,
    dialed: Result<(), String>,
    accepted: Result<bool, String>,
)
    requires
        connecting.stage is Dialing,
        connecting.config.auth == AuthMethod::Password,
    ensures
        connecting.after(ConnectEvent::Dialed(dialed)).after(
            ConnectEvent::Authenticated(accepted),
        ).stage is Connected <==> dialed is Ok && accepted == Ok::<bool, String>(true),
{
}

/// The events of trying identities one after the other: what the server said of hashes, and
/// whether it accepted the identity.
pub open spec fn attempts<H>(
    hashes: Seq<Option<Option<H>>>,
    answers: Seq<Result<bool, String>>,
) -> Seq<ConnectEvent<H>>
    decreases hashes.len(),
{
    if hashes.len() == 0 || answers.len() == 0 {
        Seq::empty()
    } else {
        attempts(hashes.drop_last(), answers.drop_last()).push(
            ConnectEvent::RsaHash(Ok(hashes.last())),
        ).push(ConnectEvent::Authenticated(answers.last()))
    }
}

/// The agent's identities are tried one by one, in order, for as long as the server accepts
/// none: after as many refusals as there are identities, authentication has failed.
pub proof fn identities_are_tried_in_order<H>(
    connecting: ConnectView<H>,
    count: usize,
    hashes: Seq<Option<Option<H>>>,
    answers: Seq<Result<bool, String>>,
)
    requires
        connecting.stage == try_identity::<H>(connecting.host_name, 0, count as int),
        hashes.len() == answers.len() <= count,
        forall|i: int| 0 <= i < answers.len() ==> #[trigger] answers[i] != Ok::<bool, String>(true),
    ensures
        connecting.after_all(attempts(hashes, answers)) == (ConnectView {
            stage: try_identity::<H>(connecting.host_name, hashes.len() as int, count as int),
            ..connecting
        }),
    decreases hashes.len(),
{
    if hashes.len() > 0 {
        assert forall|i: int| 0 <= i < answers.drop_last().len() implies #[trigger] answers.drop_last()[i]
            != Ok::<bool, String>(true) by {
            assert(answers.drop_last()[i] == answers[i]);
        }
        identities_are_tried_in_order(connecting, count, hashes.drop_last(), answers.drop_last());
        let before = attempts(hashes.drop_last(), answers.drop_last());
        let one = before.push(ConnectEvent::RsaHash(Ok(hashes.last())));
        let two = one.push(ConnectEvent::Authenticated(answers.last()));
        assert(two.drop_last() =~= one);
        assert(one.drop_last() =~= before);
        assert(answers[answers.len() - 1] != Ok::<bool, String>(true));
        assert(connecting.after_all(two) == connecting.after_all(one).after(two.last()));
        assert(connecting.after_all(one) == connecting.after_all(before).after(one.last()));
    }
}

/// The first identity that the server accepts opens the session.
pub proof fn accepted_identity_connects<H>(
    connecting: ConnectView<H>,
    count: usize,
    hashes: Seq<Option<Option<H>>>,
    answers: Seq<Result<bool, String>>,
    hash: Option<Option<H>>,
)
    requires
        connecting.stage == try_identity::<H>(connecting.host_name, 0, count as int),
        hashes.len() == answers.len() < count,
        forall|i: int| 0 <= i < answers.len() ==> #[trigger] answers[i] != Ok::<bool, String>(true),
    ensures
        connecting.after_all(attempts(hashes, answers)).after(
            ConnectEvent::RsaHash(Ok(hash)),
        ).after(ConnectEvent::Authenticated(Ok(true))).stage is Connected,
{
    identities_are_tried_in_order(connecting, count, hashes, answers);
}

/// Every host of a usable configuration can begin to connect: a host that authenticates with a
/// key has one, and a host that authenticates with a password sends the one it is configured
/// with.
pub proof fn usable_hosts_can_connect<H>(config: config::ConfigView, name: Seq<char>)
    requires
        config::usable(config),
        config.hosts.contains_key(name),
    ensures
        config.hosts[name].auth == AuthMethod::Key ==> config.hosts[name].key_path is Some,
        config.hosts[name].auth == AuthMethod::Password ==> {
            let connecting = ConnectView {
                host_name: name,
                config: config.hosts[name],
                stage: StageView::<H>::Password,
            };
            config.hosts[name].password is Some && connecting.action()
                == ConnectActionView::<H>::Password {
                user: config.hosts[name].user,
                password: config.hosts[name].password->0,
            }
        },
{
}

/// Every host is dialled first, at its own address and port, with its own timeout.
pub proof fn each_host_is_dialled_where_it_is<H>(connecting: ConnectView<H>)
    requires
        connecting.stage is Dialing,
    ensures
        connecting.action() matches ConnectActionView::Dial { host, port, timeout_ms } && host
            == connecting.config.host && port == connecting.config.port && timeout_ms
            == connecting.config.timeout_ms,
{
}

/// Two openings dial alike only if their hosts have the same address, port and timeout.
pub proof fn other_hosts_are_dialled_elsewhere<H>(a: ConnectView<H>, b: ConnectView<H>)
    requires
        a.stage is Dialing,
        b.stage is Dialing,
        a.action() == b.action(),
    ensures
        a.config.host == b.config.host,
        a.config.port == b.config.port,
        a.config.timeout_ms == b.config.timeout_ms,
{
}

/// Whoever is shown to the server is the user that the host is configured with; a password is the
/// one it is configured with, or none.
pub proof fn the_configured_user_is_shown<H>(connecting: ConnectView<H>)
    ensures
        connecting.action() matches ConnectActionView::Password { user, password } ==> user
            == connecting.config.user && match connecting.config.password {
            Some(configured) => password == configured,
            None => password.len() == 0,
        },
        connecting.action() matches ConnectActionView::Key { user, .. } ==> user
            == connecting.config.user,
        connecting.action() matches ConnectActionView::Identity { user, .. } ==> user
            == connecting.config.user,
{
    reveal_strlit("");
}

/// A host that cannot be dialled is reported with the reason; one that can is asked to let in by
/// the way it is configured with.
pub proof fn dialling_leads_to_authentication<H>(connecting: ConnectView<H>, why: String)
    requires
        connecting.stage is Dialing,
    ensures
        connecting.after(ConnectEvent::Dialed(Err(why))).stage == StageView::<H>::Failed(
            error::ToolErrorView::SshConnect { host: connecting.host_name, source: why@ },
        ),
        ({
            let action = connecting.after(ConnectEvent::Dialed(Ok(()))).action();
            match connecting.config.auth {
                AuthMethod::Password => action is Password,
                AuthMethod::Key => connecting.config.key_path matches Some(path) ==> action == (
                ConnectActionView::<H>::LoadKey { path }),
                AuthMethod::Agent => action is ReachAgent,
            }
        }),
{
}

/// What the server says of a password or of a key decides: accepted, the session is open; refused,
/// authentication has failed on this host; and an error is a connection error with its reason.
pub proof fn the_server_decides<H>(connecting: ConnectView<H>, why: String)
    requires
        connecting.action() is Password || connecting.action() is Key,
    ensures
        connecting.after(ConnectEvent::Authenticated(Ok(true))).stage is Connected,
        connecting.after(ConnectEvent::Authenticated(Ok(false))).stage == StageView::<H>::Failed(
            error::ToolErrorView::SshAuth { host: connecting.host_name },
        ),
        connecting.after(ConnectEvent::Authenticated(Err(why))).stage == StageView::<H>::Failed(
            error::ToolErrorView::SshConnect { host: connecting.host_name, source: why@ },
        ),
{
}

/// With a key, the key at the configured path is loaded, the server is asked for a hash, and the
/// key is shown with the hash that the server likes, or with none if it names none. Whatever fails
/// on the way is reported with its reason.
pub proof fn a_key_is_loaded_and_shown<H>(
    connecting: ConnectView<H>,
    path: Seq<char>,
    answer: Option<Option<H>>,
    why: String,
)
    requires
        connecting.stage is Dialing,
        connecting.config.auth == AuthMethod::Key,
        connecting.config.key_path == Some(path),
    ensures
        ({
            let dialed = connecting.after(ConnectEvent::Dialed(Ok(())));
            let loaded = dialed.after(ConnectEvent::KeyLoaded(Ok(())));
            let hashed = loaded.after(ConnectEvent::RsaHash(Ok(answer)));
            &&& dialed.action() == (ConnectActionView::<H>::LoadKey { path })
            &&& loaded.action() is RsaHash
            &&& hashed.action() matches ConnectActionView::Key { user, hash } && user
                == connecting.config.user && match answer {
                Some(Some(liked)) => hash == Some(liked),
                _ => hash is None,
            }
            &&& hashed.after(ConnectEvent::Authenticated(Ok(true))).stage is Connected
            &&& dialed.after(ConnectEvent::KeyLoaded(Err(why))).stage == StageView::<H>::Failed(
                error::ToolErrorView::InvalidParam(
                    "failed to load key "@ + path_debug(path) + ": "@ + why@,
                ),
            )
            &&& loaded.after(ConnectEvent::RsaHash(Err(why))).stage == StageView::<H>::Failed(
                error::ToolErrorView::SshConnect { host: connecting.host_name, source: why@ },
            )
        }),
{
}

/// With the agent, the agent is reached, its identities are listed, and the first is tried, if
/// there is one. Whatever fails on the way is reported with its reason.
pub proof fn the_agent_is_asked_for_identities<H>(
    connecting: ConnectView<H>,
    count: usize,
    why: String,
)
    requires
        connecting.stage is Dialing,
        connecting.config.auth == AuthMethod::Agent,
    ensures
        ({
            let dialed = connecting.after(ConnectEvent::Dialed(Ok(())));
            let reached = dialed.after(ConnectEvent::AgentReached(true));
            let listed = reached.after(ConnectEvent::Identities(Ok(count)));
            &&& dialed.action() is ReachAgent
            &&& reached.action() is ListIdentities
            &&& count > 0 ==> listed.action() is RsaHash && listed.stage == (StageView::<
                H,
            >::HashForIdentity { index: 0, count })
            &&& count == 0 ==> listed.stage == StageView::<H>::Failed(
                error::ToolErrorView::SshAuth { host: connecting.host_name },
            )
            &&& dialed.after(ConnectEvent::AgentReached(false)).stage == StageView::<H>::Failed(
                error::ToolErrorView::InvalidParam("SSH_AUTH_SOCK not set or agent unavailable"@),
            )
            &&& reached.after(ConnectEvent::Identities(Err(why))).stage == StageView::<H>::Failed(
                error::ToolErrorView::InvalidParam("agent request_identities failed: "@ + why@),
            )
        }),
{
}

/// An identity is shown with the hash that the server likes, or with none if it names none. If the
/// server accepts it, the session is open; whatever else comes of it, the next identity is tried,
/// and after the last one authentication has failed.
pub proof fn each_identity_gets_its_turn<H>(
    connecting: ConnectView<H>,
    index: usize,
    count: usize,
    answer: Option<Option<H>>,
    refusal: Result<bool, String>,
    why: String,
)
    requires
        connecting.stage == (StageView::<H>::HashForIdentity { index, count }),
        index < count,
        refusal != Ok::<bool, String>(true),
    ensures
        ({
            let shown = connecting.after(ConnectEvent::RsaHash(Ok(answer)));
            let refused = shown.after(ConnectEvent::Authenticated(refusal));
            &&& connecting.action() is RsaHash
            &&& shown.action() matches ConnectActionView::Identity { index: i, user, hash } && i
                == index && user == connecting.config.user && match answer {
                Some(Some(liked)) => hash == Some(liked),
                _ => hash is None,
            }
            &&& shown.after(ConnectEvent::Authenticated(Ok(true))).stage is Connected
            &&& index + 1 < count ==> refused.stage == (StageView::<H>::HashForIdentity {
                index: (index + 1) as usize,
                count,
            })
            &&& index + 1 == count ==> refused.stage == StageView::<H>::Failed(
                error::ToolErrorView::SshAuth { host: connecting.host_name },
            )
            &&& connecting.after(ConnectEvent::RsaHash(Err(why))).stage == StageView::<H>::Failed(
                error::ToolErrorView::SshConnect { host: connecting.host_name, source: why@ },
            )
        }),
{
}

/// All identities of the agent are tried: after as many refusals as there are before it, each is
/// the one that is shown next; and after as many as there are, authentication has failed.
pub proof fn no_identity_is_left_out<H>(
    connecting: ConnectView<H>,
    count: usize,
    hashes: Seq<Option<Option<H>>>,
    answers: Seq<Result<bool, String>>,
    hash: Option<Option<H>>,
)
    requires
        connecting.stage is ListingIdentities,
        hashes.len() == answers.len() <= count,
        forall|i: int| 0 <= i < answers.len() ==> #[trigger] answers[i] != Ok::<bool, String>(true),
    ensures
        ({
            let listed = connecting.after(ConnectEvent::Identities(Ok(count)));
            let tried = listed.after_all(attempts(hashes, answers));
            &&& hashes.len() < count ==> (tried.after(ConnectEvent::RsaHash(Ok(hash))).action()
                matches ConnectActionView::Identity { index, .. } && index == hashes.len())
            &&& hashes.len() == count ==> tried.stage == StageView::<H>::Failed(
                error::ToolErrorView::SshAuth { host: connecting.host_name },
            )
        }),
{
    let listed = connecting.after(ConnectEvent::Identities(Ok(count)));
    identities_are_tried_in_order(listed, count, hashes, answers);
}

/// An opening keeps its host and configuration, whatever happens.
pub proof fn an_opening_is_for_one_host<H>(connecting: ConnectView<H>, events: Seq<ConnectEvent<H>>)
    ensures
        connecting.after_all(events).host_name == connecting.host_name,
        connecting.after_all(events).config == connecting.config,
    decreases events.len(),
{
    if events.len() > 0 {
        an_opening_is_for_one_host(connecting, events.drop_last());
    }
}

/// An action says what it says.
pub proof fn connect_actions_are_what_they_say<H>(action: ConnectAction<'_, H>)
    ensures
        action@ == match action {
            ConnectAction::Dial { host, port, timeout_ms } => ConnectActionView::Dial {
                host: host@,
                port,
                timeout_ms,
            },
            ConnectAction::Password { user, password } => ConnectActionView::Password {
                user: user@,
                password: password@,
            },
            ConnectAction::LoadKey { path } => ConnectActionView::LoadKey { path: path@ },
            ConnectAction::RsaHash => ConnectActionView::RsaHash,
            ConnectAction::Key { user, hash } => ConnectActionView::Key { user: user@, hash },
            ConnectAction::ReachAgent => ConnectActionView::ReachAgent,
            ConnectAction::ListIdentities => ConnectActionView::ListIdentities,
            ConnectAction::Identity { index, user, hash } => ConnectActionView::Identity {
                index,
                user: user@,
                hash,
            },
            ConnectAction::Finish => ConnectActionView::Finish,
        },
{
}

} // verus!
