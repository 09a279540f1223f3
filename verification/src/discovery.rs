//! The search for the Plex servers to watch.
//!
//! Unless the configuration names a server, those of the account are looked up,
//! again and again until some are found: the network may not be up yet.
use crate::text;
use vstd::prelude::*;

verus! {

/// The first wait between two searches, in seconds.
pub const DISCOVERY_RETRY_INITIAL: u64 = 5;

/// The longest wait between two searches, in seconds.
pub const DISCOVERY_RETRY_MAX: u64 = 300;

/// An address at which a server can be reached.
#[derive(Debug, Clone)]
pub struct ServerConnection {
    pub uri: String,
}

/// A server that the account lists.
#[derive(Debug, Clone)]
pub struct ServerEntry {
    pub name: String,
    pub connections: Vec<ServerConnection>,
    /// What the server is accessed with, if it may be accessed.
    pub access_token: Option<String>,
}

/// A server to watch.
#[derive(Debug, Clone)]
pub struct MonitorTarget {
    pub name: String,
    pub connections: Vec<ServerConnection>,
    pub access_token: String,
    /// The user whose sessions are shown. Without one, the ownership of sessions
    /// cannot be verified.
    pub username: Option<String>,
}

/// How monitoring begins.
#[derive(Debug)]
pub enum MonitorStart {
    /// With this server, which the configuration names.
    Manual(MonitorTarget),
    /// With a search for the servers of the account.
    Discover(Discovery),
}

/// What a search is waiting for.
#[derive(Debug, Clone, Copy, PartialEq, Eq, Structural)]
pub enum SearchPhase {
    /// The account is asked for its user name.
    Naming,
    /// The account is asked for its servers.
    Listing,
    /// Some time passes before the next attempt.
    Resting,
    /// Nothing: servers have been found.
    Over,
}

/// What is to be done next in a search.
#[derive(Debug)]
pub enum DiscoveryAction {
    /// Ask the account for its user name.
    FetchUsername,
    /// Ask the account for its servers.
    FetchServers,
    /// Wait this many seconds, unless the search is cancelled.
    Sleep(u64),
    /// Watch these servers; the search is over.
    Monitor(Vec<MonitorTarget>),
}

/// How an action of a search went.
#[derive(Debug)]
pub enum DiscoveryEvent {
    /// The account gave this user name, or none.
    Username(Option<String>),
    /// The account listed these servers, or could not be asked.
    Servers(Option<Vec<ServerEntry>>),
    /// The wait is over.
    Slept,
}

/// What an event reports.
pub enum DiscoveryEventView {
    Username(Option<Seq<char>>),
    Servers(Option<Seq<ServerEntry>>),
    Slept,
}

impl View for DiscoveryEvent {
    type V = DiscoveryEventView;

    open spec fn view(&self) -> DiscoveryEventView {
        match *self {
            DiscoveryEvent::Username(username) => DiscoveryEventView::Username(text::option_text(username)),
            DiscoveryEvent::Servers(Some(servers)) => DiscoveryEventView::Servers(Some(servers@)),
            DiscoveryEvent::Servers(None) => DiscoveryEventView::Servers(None),
            DiscoveryEvent::Slept => DiscoveryEventView::Slept,
        }
    }
}

/// The state of a search.
pub struct SearchState {
    /// The next wait, in seconds.
    pub delay: int,
    /// The user name of the account, once it is known.
    pub username: Option<Seq<char>>,
    pub phase: SearchPhase,
}

impl SearchState {
    /// What holds of every search: the waits stay within their bounds, and the
    /// servers are asked for only once the user name is known.
    pub open spec fn valid(self) -> bool {
        &&& DISCOVERY_RETRY_INITIAL <= self.delay <= DISCOVERY_RETRY_MAX
        &&& self.phase == SearchPhase::Naming ==> self.username is None
        &&& self.phase == SearchPhase::Listing ==> self.username is Some
    }
}

/// The first step of an attempt: the user name is asked for as long as it is not
/// known.
pub open spec fn first_phase(username: Option<Seq<char>>) -> SearchPhase {
    if username is None {
        SearchPhase::Naming
    } else {
        SearchPhase::Listing
    }
}

/// A search before its first step.
pub open spec fn fresh_search() -> SearchState {
    SearchState {
        delay: DISCOVERY_RETRY_INITIAL as int,
        username: None,
        phase: SearchPhase::Naming,
    }
}

/// The event is an answer to what the search waits for.
pub open spec fn search_awaits(s: SearchState, event: DiscoveryEventView) -> bool {
    match s.phase {
        SearchPhase::Naming => event is Username,
        SearchPhase::Listing => event is Servers,
        SearchPhase::Resting => event is Slept,
        SearchPhase::Over => false,
    }
}

/// The state that an event leads to.
pub open spec fn search_step(s: SearchState, event: DiscoveryEventView) -> SearchState {
    match event {
        DiscoveryEventView::Username(None) => SearchState { phase: SearchPhase::Resting, ..s },
        DiscoveryEventView::Username(username) => SearchState {
            username,
            phase: SearchPhase::Listing,
            ..s
        },
        DiscoveryEventView::Servers(Some(servers)) if servers.len() > 0 => SearchState {
            phase: SearchPhase::Over,
            ..s
        },
        DiscoveryEventView::Servers(_) => SearchState { phase: SearchPhase::Resting, ..s },
        DiscoveryEventView::Slept => SearchState {
            delay: doubled(s.delay),
            phase: first_phase(s.username),
            ..s
        },
    }
}

/// What is to be done in the state that an event led to.
pub open spec fn search_action(
    s: SearchState,
    event: DiscoveryEventView,
    action: DiscoveryAction,
) -> bool {
    match s.phase {
        SearchPhase::Naming => action is FetchUsername,
        SearchPhase::Listing => action is FetchServers,
        SearchPhase::Resting => action matches DiscoveryAction::Sleep(delay) && delay == s.delay,
        SearchPhase::Over => action matches DiscoveryAction::Monitor(targets) && event matches
            DiscoveryEventView::Servers(Some(servers)) && targets_of(targets@, servers, s.username),
    }
}

/// The wait after a wait of `delay` seconds.
pub open spec fn doubled(delay: int) -> int {
    if 2 * delay < DISCOVERY_RETRY_MAX {
        2 * delay
    } else {
        DISCOVERY_RETRY_MAX as int
    }
}

/// The wait after the search numbered `n`, the first being numbered 0.
pub open spec fn nth_delay(n: nat) -> int
    decreases n,
{
    if n == 0 {
        DISCOVERY_RETRY_INITIAL as int
    } else {
        doubled(nth_delay((n - 1) as nat))
    }
}

/// A target is the server of an entry, for this user.
pub open spec fn target_of(
    target: MonitorTarget,
    entry: ServerEntry,
    username: Option<Seq<char>>,
) -> bool {
    &&& target.name == entry.name
    &&& target.connections == entry.connections
    &&& entry.access_token == Some(target.access_token)
    &&& text::option_text(target.username) == username
}

/// The servers that may be accessed.
pub open spec fn accessible(servers: Seq<ServerEntry>) -> Seq<ServerEntry> {
    servers.filter(|entry: ServerEntry| entry.access_token is Some)
}

/// The targets are the servers that may be accessed, in their order.
pub open spec fn targets_of(
    targets: Seq<MonitorTarget>,
    servers: Seq<ServerEntry>,
    username: Option<Seq<char>>,
) -> bool {
    &&& targets.len() == accessible(servers).len()
    &&& forall|i: int|
        0 <= i < targets.len() ==> target_of(#[trigger] targets[i], accessible(servers)[i], username)
}

fn copy_name(name: &Option<String>) -> (copy: Option<String>)
    ensures
        text::option_text(copy) == text::option_text(*name),
{
    match name {
        Some(name) => Some(name.clone()),
        None => None,
    }
}

/// The servers to watch among those of the account: the ones that may be
/// accessed.
pub fn monitor_targets(servers: Vec<ServerEntry>, username: &Option<String>) -> (targets: Vec<
    MonitorTarget,
>)
    ensures
        targets_of(targets@, servers@, text::option_text(*username)),
{
    let mut targets: Vec<MonitorTarget> = Vec::new();
    let ghost all = servers@;
    for entry in iter: servers
        invariant
            iter.seq() == all,
            targets_of(targets@, all.take(iter.index() as int), text::option_text(*username)),
    {
        let ghost seen = all.take(iter.index() as int);
        proof {
            assert(all.take(iter.index() + 1).drop_last() =~= seen);
            reveal(Seq::filter);
        }
        if let Some(access_token) = entry.access_token {
            targets.push(
                MonitorTarget {
                    name: entry.name,
                    connections: entry.connections,
                    access_token,
                    username: copy_name(username),
                },
            );
        }
    }
    proof {
        assert(all.take(all.len() as int) =~= all);
    }
    targets
}

/// The server that the configuration names, without a user.
pub fn manual_target(url: String, token: String) -> (target: MonitorTarget)
    ensures
        target.name@ == "Manual Server"@,
        target.connections@ == seq![ServerConnection { uri: url }],
        target.access_token == token,
        target.username is None,
{
    MonitorTarget {
        name: "Manual Server".to_owned(),
        connections: vec![ServerConnection { uri: url }],
        access_token: token,
        username: None,
    }
}

/// How monitoring begins for the settings given.
pub fn begin_monitoring(token: String, plex_server_url: Option<String>) -> (start: MonitorStart)
    ensures
        match plex_server_url {
            Some(url) => start matches MonitorStart::Manual(target) && target.name@
                == "Manual Server"@ && target.connections@ == seq![ServerConnection { uri: url }]
                && target.access_token == token && target.username is None,
            None => start matches MonitorStart::Discover(search) && search@ == fresh_search(),
        },
{
    match plex_server_url {
        Some(url) => MonitorStart::Manual(manual_target(url, token)),
        None => MonitorStart::Discover(Discovery::new()),
    }
}

/// A search for the servers of the account.
#[derive(Debug)]
pub struct Discovery {
    delay: u64,
    username: Option<String>,
    phase: SearchPhase,
}

impl View for Discovery {
    type V = SearchState;

    closed spec fn view(&self) -> SearchState {
        SearchState {
            delay: self.delay as int,
            username: text::option_text(self.username),
            phase: self.phase,
        }
    }
}

impl Discovery {
    /// The search before its first step, which is to ask for the user name.
    pub fn new() -> (search: Discovery)
        ensures
            search@ == fresh_search(),
            search@.valid(),
    {
        Discovery {
            delay: DISCOVERY_RETRY_INITIAL,
            username: None,
            phase: SearchPhase::Naming,
        }
    }

    /// What is to be done next in a search that is not over.
    pub fn action(&self) -> (action: DiscoveryAction)
        requires
            self@.phase != SearchPhase::Over,
        ensures
            match self@.phase {
                SearchPhase::Naming => action is FetchUsername,
                SearchPhase::Listing => action is FetchServers,
                _ => action matches DiscoveryAction::Sleep(delay) && delay == self@.delay,
            },
    {
        match self.phase {
            SearchPhase::Naming => DiscoveryAction::FetchUsername,
            SearchPhase::Listing => DiscoveryAction::FetchServers,
            _ => DiscoveryAction::Sleep(self.delay),
        }
    }

    fn rest(&mut self) -> (action: DiscoveryAction)
        ensures
            final(self)@ == (SearchState { phase: SearchPhase::Resting, ..old(self)@ }),
            action matches DiscoveryAction::Sleep(delay) && delay == old(self)@.delay,
    {
        self.phase = SearchPhase::Resting;
        self.action()
    }

    /// Takes the outcome of an action, and hands out the next one. An attempt
    /// asks for the user name as long as it is not known, and then for the
    /// servers; the search is over once there are some. After an attempt that
    /// failed there is a wait, each twice as long as the one before, up to the
    /// longest.
    pub fn advance(&mut self, event: DiscoveryEvent) -> (action: DiscoveryAction)
        requires
            old(self)@.valid(),
            search_awaits(old(self)@, event@),
        ensures
            final(self)@ == search_step(old(self)@, event@),
            search_action(final(self)@, event@, action),
            final(self)@.valid(),
    {
        match event {
            DiscoveryEvent::Username(Some(username)) => {
                self.username = Some(username);
                self.phase = SearchPhase::Listing;
                self.action()
            },
            DiscoveryEvent::Username(None) => self.rest(),
            DiscoveryEvent::Servers(Some(servers)) => if servers.len() > 0 {
                self.phase = SearchPhase::Over;
                DiscoveryAction::Monitor(monitor_targets(servers, &self.username))
            } else {
                self.rest()
            },
            DiscoveryEvent::Servers(None) => self.rest(),
            DiscoveryEvent::Slept => {
                let twice: u64 = self.delay * 2;
                self.delay = if twice < DISCOVERY_RETRY_MAX {
                    twice
                } else {
                    DISCOVERY_RETRY_MAX
                };
                self.phase = if self.username.is_none() {
                    SearchPhase::Naming
                } else {
                    SearchPhase::Listing
                };
                self.action()
            },
        }
    }
}

/// What an account gives at each attempt, the first being numbered 0.
pub struct Account {
    pub usernames: spec_fn(nat) -> Option<Seq<char>>,
    pub servers: spec_fn(nat) -> Option<Seq<ServerEntry>>,
}

impl Account {
    /// The user name that is known before an attempt.
    pub open spec fn known(self, attempt: nat) -> Option<Seq<char>>
        decreases attempt,
    {
        if attempt == 0 {
            None
        } else {
            self.told((attempt - 1) as nat)
        }
    }

    /// The user name that is known once it was asked for in an attempt: one that
    /// is known already is not asked for again.
    pub open spec fn told(self, attempt: nat) -> Option<Seq<char>>
        decreases attempt,
    {
        let before = if attempt == 0 {
            None
        } else {
            self.told((attempt - 1) as nat)
        };
        if before is Some {
            before
        } else {
            (self.usernames)(attempt)
        }
    }

    /// Servers are found at an attempt: the user name is known, and there are
    /// servers in the list.
    pub open spec fn succeeds(self, attempt: nat) -> bool {
        &&& self.told(attempt) is Some
        &&& (self.servers)(attempt) matches Some(servers) && servers.len() > 0
    }

    /// How the next action goes.
    pub open spec fn answer(self, phase: SearchPhase, attempt: nat) -> DiscoveryEventView {
        match phase {
            SearchPhase::Naming => DiscoveryEventView::Username((self.usernames)(attempt)),
            SearchPhase::Listing => DiscoveryEventView::Servers((self.servers)(attempt)),
            _ => DiscoveryEventView::Slept,
        }
    }
}

/// The state of a search after at most `rounds` actions, and the number of the
/// attempt that it is then at. The first of the actions belongs to `attempt`.
pub open spec fn search(account: Account, s: SearchState, attempt: nat, rounds: nat) -> (
    SearchState,
    nat,
)
    decreases rounds,
{
    if rounds == 0 || s.phase == SearchPhase::Over {
        (s, attempt)
    } else {
        search(
            account,
            search_step(s, account.answer(s.phase, attempt)),
            if s.phase == SearchPhase::Resting {
                attempt + 1
            } else {
                attempt
            },
            (rounds - 1) as nat,
        )
    }
}

/// The state of a search at the start of an attempt.
pub open spec fn at_attempt(account: Account, attempt: nat) -> SearchState {
    SearchState {
        delay: nth_delay(attempt),
        username: account.known(attempt),
        phase: first_phase(account.known(attempt)),
    }
}

/// The outcomes that `search` goes by are such as the search waits for.
pub proof fn law_answers_are_awaited(account: Account, s: SearchState, attempt: nat)
    requires
        s.phase != SearchPhase::Over,
    ensures
        search_awaits(s, account.answer(s.phase, attempt)),
{
}

proof fn lemma_search_adds(account: Account, s: SearchState, attempt: nat, a: nat, b: nat)
    ensures
        search(account, s, attempt, a + b) == search(
            account,
            search(account, s, attempt, a).0,
            search(account, s, attempt, a).1,
            b,
        ),
    decreases a,
{
    if a > 0 && s.phase != SearchPhase::Over {
        lemma_search_adds(
            account,
            search_step(s, account.answer(s.phase, attempt)),
            if s.phase == SearchPhase::Resting {
                attempt + 1
            } else {
                attempt
            },
            (a - 1) as nat,
            b,
        );
    }
}

proof fn lemma_failed_attempt(account: Account, attempt: nat) -> (rounds: nat)
    requires
        !account.succeeds(attempt),
    ensures
        2 <= rounds <= 3,
        search(account, at_attempt(account, attempt), attempt, rounds) == (
            at_attempt(account, attempt + 1),
            attempt + 1,
        ),
{
    reveal_with_fuel(search, 4);
    let s = at_attempt(account, attempt);
    let rounds: nat = if s.username is None && (account.usernames)(attempt) is Some {
        3
    } else {
        2
    };
    assert(account.told(attempt) == (if s.username is Some {
        s.username
    } else {
        (account.usernames)(attempt)
    }));
    rounds
}

proof fn lemma_search_from(account: Account, from: nat, attempt: nat, rounds: nat)
    requires
        from <= attempt,
        forall|earlier: nat| from <= earlier < attempt ==> !account.succeeds(earlier),
        account.succeeds(attempt),
        rounds >= 3 * (attempt - from) + 2,
    ensures
        search(account, at_attempt(account, from), from, rounds) == (
            SearchState {
                delay: nth_delay(attempt),
                username: account.told(attempt),
                phase: SearchPhase::Over,
            },
            attempt,
        ),
    decreases attempt - from,
{
    if from == attempt {
        reveal_with_fuel(search, 4);
    } else {
        let used = lemma_failed_attempt(account, from);
        lemma_search_adds(
            account,
            at_attempt(account, from),
            from,
            used,
            (rounds - used) as nat,
        );
        lemma_search_from(account, from + 1, attempt, (rounds - used) as nat);
    }
}

/// A search ends at the first attempt at which the user name is known and the
/// account lists servers, after as many waits as attempts failed before it.
pub proof fn law_search(account: Account, attempt: nat)
    requires
        forall|earlier: nat| earlier < attempt ==> !account.succeeds(earlier),
        account.succeeds(attempt),
    ensures
        search(account, fresh_search(), 0, 3 * attempt + 2) == (
            SearchState {
                delay: nth_delay(attempt),
                username: account.told(attempt),
                phase: SearchPhase::Over,
            },
            attempt,
        ),
{
    lemma_search_from(account, 0, attempt, 3 * attempt + 2);
}

/// As long as every attempt fails, the search goes on to the next, with the wait
/// that belongs to it.
pub proof fn law_search_goes_on(account: Account, attempt: nat)
    requires
        forall|earlier: nat| earlier < attempt ==> !account.succeeds(earlier),
    ensures
        exists|rounds: nat|
            search(account, fresh_search(), 0, rounds) == (at_attempt(account, attempt), attempt),
    decreases attempt,
{
    if attempt == 0 {
        assert(search(account, fresh_search(), 0, 0) == (at_attempt(account, 0), 0nat));
    } else {
        let last = (attempt - 1) as nat;
        law_search_goes_on(account, last);
        let rounds = choose|rounds: nat|
            search(account, fresh_search(), 0, rounds) == (at_attempt(account, last), last);
        let used = lemma_failed_attempt(account, last);
        lemma_search_adds(account, fresh_search(), 0, rounds, used);
        assert(search(account, fresh_search(), 0, rounds + used) == (
            at_attempt(account, attempt),
            attempt,
        ));
    }
}

/// The waits between searches double from the first on, until they reach the
/// longest and stay there; so they never shrink.
pub proof fn law_delays(n: nat)
    ensures
        nth_delay(n) == (if DISCOVERY_RETRY_INITIAL * vstd::arithmetic::power2::pow2(n)
            < DISCOVERY_RETRY_MAX {
            DISCOVERY_RETRY_INITIAL * vstd::arithmetic::power2::pow2(n)
        } else {
            DISCOVERY_RETRY_MAX as int
        }),
        DISCOVERY_RETRY_INITIAL <= nth_delay(n) <= nth_delay(n + 1) <= DISCOVERY_RETRY_MAX,
    decreases n,
{
    vstd::arithmetic::power2::lemma2_to64();
    if n > 0 {
        law_delays((n - 1) as nat);
        vstd::arithmetic::power2::lemma_pow2_unfold(n);
    }
    vstd::arithmetic::power2::lemma_pow2_pos(n);
}

proof fn lemma_accessible_is_listed(servers: Seq<ServerEntry>, i: int)
    requires
        0 <= i < accessible(servers).len(),
    ensures
        exists|j: int| 0 <= j < servers.len() && #[trigger] servers[j] == accessible(servers)[i],
    decreases servers.len(),
{
    reveal(Seq::filter);
    let earlier = servers.drop_last();
    if i < accessible(earlier).len() {
        lemma_accessible_is_listed(earlier, i);
        let j = choose|j: int|
            0 <= j < earlier.len() && #[trigger] earlier[j] == accessible(earlier)[i];
        assert(servers[j] == accessible(servers)[i]);
    } else {
        assert(servers[servers.len() - 1] == accessible(servers)[i]);
    }
}

/// A target is one of the servers listed.
pub open spec fn is_listed(
    target: MonitorTarget,
    servers: Seq<ServerEntry>,
    username: Option<Seq<char>>,
) -> bool {
    exists|j: int| 0 <= j < servers.len() && target_of(target, #[trigger] servers[j], username)
}

/// A server is one of the targets.
pub open spec fn is_watched(
    entry: ServerEntry,
    targets: Seq<MonitorTarget>,
    username: Option<Seq<char>>,
) -> bool {
    exists|i: int| 0 <= i < targets.len() && target_of(#[trigger] targets[i], entry, username)
}

/// Every server that is listed with a token is watched, and nothing is watched
/// that is not such a server.
pub proof fn law_targets(
    targets: Seq<MonitorTarget>,
    servers: Seq<ServerEntry>,
    username: Option<Seq<char>>,
)
    requires
        targets_of(targets, servers, username),
    ensures
        targets.len() <= servers.len(),
        forall|i: int|
            0 <= i < targets.len() ==> is_listed(#[trigger] targets[i], servers, username),
        forall|j: int|
            0 <= j < servers.len() ==> ((#[trigger] servers[j]).access_token is Some <==> is_watched(
                servers[j],
                targets,
                username,
            )),
{
    let may_access = |entry: ServerEntry| entry.access_token is Some;
    servers.lemma_filter_len(may_access);
    assert forall|i: int| 0 <= i < targets.len() implies is_listed(
        #[trigger] targets[i],
        servers,
        username,
    ) by {
        lemma_accessible_is_listed(servers, i);
        let j = choose|j: int|
            0 <= j < servers.len() && #[trigger] servers[j] == accessible(servers)[i];
        assert(target_of(targets[i], servers[j], username));
    }
    assert forall|j: int|
        0 <= j < servers.len() && (#[trigger] servers[j]).access_token is Some implies is_watched(
        servers[j],
        targets,
        username,
    ) by {
        servers.lemma_filter_contains(may_access, j);
        let i = choose|i: int|
            0 <= i < accessible(servers).len() && accessible(servers)[i] == servers[j];
        assert(target_of(targets[i], accessible(servers)[i], username));
    }
}

} // verus!
