//! How the servers to watch are found.
use crate::discovery;
use crate::discovery::{
    Account, Discovery, DiscoveryAction, DiscoveryEvent, MonitorStart, MonitorTarget, SearchPhase,
    ServerEntry,
};
use vstd::arithmetic::power2::*;
use vstd::prelude::*;

verus! {

/// Where the servers with a token stand in a list.
spec fn open_places(servers: Seq<ServerEntry>) -> Seq<int>
    decreases servers.len(),
{
    if servers.len() == 0 {
        seq![]
    } else if servers.last().access_token is Some {
        open_places(servers.drop_last()).push(servers.len() - 1)
    } else {
        open_places(servers.drop_last())
    }
}

proof fn lemma_open_places(servers: Seq<ServerEntry>)
    ensures
        open_places(servers).len() == discovery::accessible(servers).len(),
        forall|i: int|
            0 <= i < open_places(servers).len() ==> 0 <= #[trigger] open_places(servers)[i]
                < servers.len() && servers[open_places(servers)[i]] == discovery::accessible(
                servers,
            )[i],
        forall|i: int, j: int|
            0 <= i < j < open_places(servers).len() ==> open_places(servers)[i] < open_places(
                servers,
            )[j],
        forall|j: int|
            0 <= j < servers.len() && (#[trigger] servers[j]).access_token is Some ==> open_places(
                servers,
            ).contains(j),
    decreases servers.len(),
{
    reveal(Seq::filter);
    if servers.len() > 0 {
        let earlier = servers.drop_last();
        lemma_open_places(earlier);
        let places = open_places(servers);
        assert forall|j: int|
            0 <= j < servers.len() && (#[trigger] servers[j]).access_token is Some implies places.contains(
            j,
        ) by {
            if j < earlier.len() {
                assert(earlier[j].access_token is Some);
                let i = choose|i: int|
                    0 <= i < open_places(earlier).len() && open_places(earlier)[i] == j;
                assert(places[i] == j);
            } else {
                assert(places.last() == j);
            }
        }
    }
}

/// The servers that are watched are those that are listed with a token, each
/// once and in the order of the list. Each is watched under its own name, with
/// its own token, at all the addresses that it is listed with, in their order,
/// and for the user named. The places returned are theirs in the list.
pub proof fn law_watched_servers(
    servers: Vec<ServerEntry>,
    username: Option<String>,
    targets: Vec<MonitorTarget>,
) -> (places: Seq<int>)
    requires
        call_ensures(discovery::monitor_targets, (servers, &username), targets),
    ensures
        places.len() == targets@.len(),
        forall|i: int|
            0 <= i < places.len() ==> 0 <= #[trigger] places[i] < servers@.len() && {
                let server = servers@[places[i]];
                let target = targets@[i];
                &&& server.access_token == Some(target.access_token)
                &&& target.name@ == server.name@
                &&& target.connections@.len() == server.connections@.len()
                &&& forall|k: int|
                    0 <= k < server.connections@.len() ==> #[trigger] target.connections@[k].uri@
                        == server.connections@[k].uri@
                &&& match username {
                    Some(name) => target.username matches Some(user) && user@ == name@,
                    None => target.username is None,
                }
            },
        forall|i: int, j: int| 0 <= i < j < places.len() ==> places[i] < places[j],
        forall|j: int|
            0 <= j < servers@.len() && (#[trigger] servers@[j]).access_token is Some
                ==> places.contains(j),
{
    lemma_open_places(servers@);
    open_places(servers@)
}

/// A server that the settings name is taken as it is, with the token of the
/// account and without a user. Otherwise the servers are searched for, beginning
/// with the user name.
pub proof fn law_beginning(
    token: String,
    server_url: Option<String>,
    start: MonitorStart,
)
    requires
        call_ensures(discovery::begin_monitoring, (token, server_url), start),
    ensures
        server_url matches Some(url) ==> {
            &&& start matches MonitorStart::Manual(target) && {
                &&& target.name@ == "Manual Server"@
                &&& target.connections@.len() == 1 && target.connections@[0].uri == url
                &&& target.access_token == token
                &&& target.username is None
            }
        },
        server_url is None ==> {
            &&& start matches MonitorStart::Discover(search) && {
                &&& search@.phase == SearchPhase::Naming
                &&& search@.username is None
                &&& search@.delay == 5
            }
        },
{
}

/// A server that is named is one address, with the token given and no user.
pub proof fn law_named_server(url: String, token: String, target: MonitorTarget)
    requires
        call_ensures(discovery::manual_target, (url, token), target),
    ensures
        target.name@ == "Manual Server"@,
        target.connections@.len() == 1 && target.connections@[0].uri == url,
        target.access_token == token,
        target.username is None,
{
}

/// A new search knows no user name, and asks for it.
pub proof fn law_new_search(search: Discovery, action: DiscoveryAction)
    requires
        call_ensures(Discovery::new, (), search),
        call_ensures(Discovery::action, (&search,), action),
    ensures
        search@.username is None,
        search@.delay == 5,
        search@.phase == SearchPhase::Naming,
        action is FetchUsername,
{
}

/// A search says what it waits for: the user name, the servers, or the end of
/// the wait that is due.
pub proof fn law_next_in_search(search: Discovery, action: DiscoveryAction)
    requires
        call_ensures(Discovery::action, (&search,), action),
        search@.phase != SearchPhase::Over,
    ensures
        search@.phase == SearchPhase::Naming <==> action is FetchUsername,
        search@.phase == SearchPhase::Listing <==> action is FetchServers,
        search@.phase == SearchPhase::Resting <==> action is Sleep,
        action matches DiscoveryAction::Sleep(seconds) ==> seconds == search@.delay,
{
}

/// A user name is kept, and the servers are asked for; without one there is a
/// wait.
pub proof fn law_user_name(
    search: &mut Discovery,
    username: Option<String>,
    action: DiscoveryAction,
)
    requires
        call_ensures(
            Discovery::advance,
            (search, DiscoveryEvent::Username(username)),
            action,
        ),
    ensures
        final(search)@.delay == old(search)@.delay,
        username matches Some(name) ==> {
            &&& final(search)@.username == Some(name@)
            &&& final(search)@.phase == SearchPhase::Listing
            &&& action is FetchServers
        },
        username is None ==> {
            &&& final(search)@.username == old(search)@.username
            &&& final(search)@.phase == SearchPhase::Resting
            &&& action matches DiscoveryAction::Sleep(seconds) && seconds == old(search)@.delay
        },
{
}

/// Without servers there is a wait. With servers the search is over, even if none
/// of them can be watched: those that can be are then watched, as
/// `monitor_targets` picks them for the user name that is known.
pub proof fn law_server_list(
    search: &mut Discovery,
    servers: Option<Vec<ServerEntry>>,
    action: DiscoveryAction,
) -> (places: Seq<int>)
    requires
        call_ensures(Discovery::advance, (search, DiscoveryEvent::Servers(servers)), action),
    ensures
        final(search)@.delay == old(search)@.delay,
        final(search)@.username == old(search)@.username,
        servers is None || servers->Some_0@.len() == 0 ==> {
            &&& final(search)@.phase == SearchPhase::Resting
            &&& action matches DiscoveryAction::Sleep(seconds) && seconds == old(search)@.delay
        },
        servers is Some && servers->Some_0@.len() > 0 ==> {
            let list = servers->Some_0@;
            &&& final(search)@.phase == SearchPhase::Over
            &&& action matches DiscoveryAction::Monitor(targets) && {
                &&& places.len() == targets@.len()
                &&& forall|i: int|
                    0 <= i < places.len() ==> 0 <= #[trigger] places[i] < list.len() && {
                        let server = list[places[i]];
                        let target = targets@[i];
                        &&& server.access_token == Some(target.access_token)
                        &&& target.name@ == server.name@
                        &&& target.connections@ == server.connections@
                        &&& match old(search)@.username {
                            Some(name) => target.username matches Some(user) && user@ == name,
                            None => target.username is None,
                        }
                    }
                &&& forall|i: int, j: int| 0 <= i < j < places.len() ==> places[i] < places[j]
                &&& forall|j: int|
                    0 <= j < list.len() && (#[trigger] list[j]).access_token is Some
                        ==> places.contains(j)
            }
        },
{
    match servers {
        Some(list) => {
            lemma_open_places(list@);
            open_places(list@)
        },
        None => seq![],
    }
}

/// After a wait the next one is twice as long, but never longer than five
/// minutes. The user name is asked for again only as long as it is not known.
pub proof fn law_after_a_wait(
    search: &mut Discovery,
    action: DiscoveryAction,
)
    requires
        call_ensures(Discovery::advance, (search, DiscoveryEvent::Slept), action),
    ensures
        final(search)@.username == old(search)@.username,
        2 * old(search)@.delay <= 300 ==> final(search)@.delay == 2 * old(search)@.delay,
        2 * old(search)@.delay >= 300 ==> final(search)@.delay == 300,
        old(search)@.username is None ==> action is FetchUsername && final(search)@.phase
            == SearchPhase::Naming,
        old(search)@.username is Some ==> action is FetchServers && final(search)@.phase
            == SearchPhase::Listing,
{
}

proof fn lemma_delays(
    account: Account,
    s: discovery::SearchState,
    attempt: nat,
    rounds: nat,
)
    requires
        s.delay == discovery::nth_delay(attempt),
    ensures
        ({
            let (now, at) = discovery::search(account, s, attempt, rounds);
            now.delay == discovery::nth_delay(at)
        }),
    decreases rounds,
{
    if rounds > 0 && s.phase != SearchPhase::Over {
        lemma_delays(
            account,
            discovery::search_step(s, account.answer(s.phase, attempt)),
            if s.phase == SearchPhase::Resting {
                attempt + 1
            } else {
                attempt
            },
            (rounds - 1) as nat,
        );
    }
}

/// At every point of a search that began anew, the wait that is due after the
/// attempt numbered `n`, the first being numbered 0, is five seconds doubled `n`
/// times, or five minutes if that is longer.
pub proof fn law_waits_of_a_search(account: Account, search: Discovery, rounds: nat)
    requires
        call_ensures(Discovery::new, (), search),
    ensures
        ({
            let (now, attempt) = discovery::search(account, search@, 0, rounds);
            &&& 5 * pow2(attempt) <= 300 ==> now.delay == 5 * pow2(attempt)
            &&& 5 * pow2(attempt) >= 300 ==> now.delay == 300
        }),
{
    lemma_delays(account, search@, 0, rounds);
    let (now, attempt) = discovery::search(account, search@, 0, rounds);
    discovery::law_delays(attempt);
}

/// Whatever an account may answer, a search takes it: a user name or none where
/// that was asked for, a list of servers or none where those were, and the end of
/// a wait.
pub proof fn law_search_takes_answers(search: &mut Discovery, event: DiscoveryEvent)
    requires
        old(search)@.valid(),
        match old(search)@.phase {
            SearchPhase::Naming => event is Username,
            SearchPhase::Listing => event is Servers,
            SearchPhase::Resting => event is Slept,
            SearchPhase::Over => false,
        },
    ensures
        call_requires(Discovery::advance, (search, event)),
        call_requires(Discovery::action, (&*old(search),)),
{
    assert(discovery::search_awaits(old(search)@, event@));
}

/// A search stays valid, whatever it is answered.
pub proof fn law_search_stays_valid(
    fresh: Discovery,
    search: &mut Discovery,
    event: DiscoveryEvent,
    action: DiscoveryAction,
)
    requires
        call_ensures(Discovery::new, (), fresh),
        call_ensures(Discovery::advance, (search, event), action),
    ensures
        fresh@.valid(),
        final(search)@.valid(),
{
}

/// What `search` goes by is what `advance` does.
pub proof fn law_search_is_advance(
    search: &mut Discovery,
    event: DiscoveryEvent,
    action: DiscoveryAction,
)
    requires
        call_ensures(Discovery::advance, (search, event), action),
    ensures
        final(search)@ == discovery::search_step(old(search)@, event@),
{
}

} // verus!
