//! How the connection to a Discord client is opened, used and ended.
use crate::discord;
use crate::discord::{
    Action, ActionView, ClientChoice, ClientState, DiscordClient, Event, Phase, Plan,
};
use crate::frame;
use crate::frame::Received;
use crate::json;
use crate::json::Json;
use crate::laws::answers;
use crate::presence;
use crate::presence::Presence;
use crate::session;
use crate::session::Pipes;
use serde_json::Value;
use vstd::prelude::*;
use vstd::utf8::*;

verus! {

/// A new client belongs to the application named. It is not connected, has no
/// pipe open, and has no pipe to go back to.
pub proof fn law_new(client_id: &str, client: DiscordClient, connected: bool)
    requires
        call_ensures(DiscordClient::new, (client_id,), client),
        call_ensures(DiscordClient::is_connected, (&client,), connected),
    ensures
        !connected,
        client@.client_id == client_id@,
        !client@.socket,
        client@.last_target is None,
        client@.idle(),
        client@.valid(),
{
}

/// A client says whether it is connected.
pub proof fn law_is_connected(client: DiscordClient, connected: bool)
    requires
        call_ensures(DiscordClient::is_connected, (&client,), connected),
    ensures
        connected == client@.connected,
{
}

/// A client that waits for nothing takes every request; only what is to be shown
/// must have moments that can be told, and that only if the client is connected.
pub proof fn law_takes_requests(
    client: &mut DiscordClient,
    pipe: u32,
    name: &str,
    p: Presence,
    now: i64,
    pid: u32,
    nonce: &str,
    fits: bool,
)
    requires
        old(client)@.valid(),
        old(client)@.idle(),
        call_ensures(presence::clock_in_range, (&p, now), fits),
    ensures
        call_requires(DiscordClient::connect_to, (client, pipe)),
        call_requires(DiscordClient::connect_auto, (client,)),
        call_requires(DiscordClient::connect_configured, (client, name)),
        call_requires(DiscordClient::reconnect, (client,)),
        call_requires(DiscordClient::ensure_connected, (client,)),
        call_requires(DiscordClient::disconnect, (client,)),
        call_requires(DiscordClient::clear, (client, pid)),
        call_requires(DiscordClient::clear_with, (client, pid, nonce)),
        fits || !old(client)@.connected ==> call_requires(
            DiscordClient::update,
            (client, &p, now, pid),
        ) && call_requires(DiscordClient::update_with, (client, &p, now, pid, nonce)),
{
}

/// Whatever an action may come to, the client takes it: a pipe is opened or is
/// not, a frame is sent or is not, bytes are read, whichever they are, or are not,
/// and a pipe is closed.
pub proof fn law_takes_outcomes(client: &mut DiscordClient, event: Event)
    requires
        old(client)@.valid(),
        match old(client)@.phase {
            Phase::Idle => false,
            Phase::Opening(_) => event is Opened || event is OpenFailed,
            Phase::Closing(_) | Phase::Greeting(_) | Phase::Publishing | Phase::Clearing => event is Sent
                || event is SendFailed,
            Phase::AwaitingHeader(_) => event is Header || event is ReadFailed,
            Phase::AwaitingBody(_) => event is Body || event is ReadFailed,
            Phase::Dropping(_) | Phase::Rejecting(_) => event is Closed,
        },
    ensures
        call_requires(DiscordClient::advance, (client, event)),
{
    assert(discord::awaits(old(client)@, event@));
}

/// A request leaves a client that takes what becomes of it.
pub proof fn law_requests_keep_a_client_valid(
    client: &mut DiscordClient,
    pipe: u32,
    name: &str,
    p: Presence,
    now: i64,
    pid: u32,
    nonce: &str,
    action: Action,
)
    requires
        ({
            ||| call_ensures(DiscordClient::connect_to, (client, pipe), action)
            ||| call_ensures(DiscordClient::connect_auto, (client,), action)
            ||| call_ensures(DiscordClient::connect_configured, (client, name), action)
            ||| call_ensures(DiscordClient::reconnect, (client,), action)
            ||| call_ensures(DiscordClient::ensure_connected, (client,), action)
            ||| call_ensures(DiscordClient::disconnect, (client,), action)
            ||| call_ensures(DiscordClient::update, (client, &p, now, pid), action)
            ||| call_ensures(DiscordClient::update_with, (client, &p, now, pid, nonce), action)
            ||| call_ensures(DiscordClient::clear, (client, pid), action)
            ||| call_ensures(DiscordClient::clear_with, (client, pid, nonce), action)
        }),
        old(client)@.valid(),
        old(client)@.idle(),
    ensures
        final(client)@.valid(),
        final(client)@.client_id == old(client)@.client_id,
        final(client)@.socket == old(client)@.socket,
        final(client)@.connected == old(client)@.connected,
        final(client)@.last_target == old(client)@.last_target,
        match action {
            Action::Open(pipe) => !old(client)@.connected && (final(client)@.phase
                == Phase::Opening(Plan::One(pipe)) || final(client)@.phase == Phase::Opening(
                Plan::Scan(pipe),
            )),
            Action::Send(_) => old(client)@.connected && !final(client)@.idle(),
            Action::Done => final(client)@.idle(),
            _ => false,
        },
{
    assert(action@ is Open || action@ is Send || action@ is Done);
}

/// Each name stands for a pipe: 0 for the stable client, 1 for the PTB and 2 for
/// the Canary. Any other name stands for none.
pub proof fn law_names(name: &str, choice: ClientChoice)
    requires
        call_ensures(discord::client_choice, (name,), choice),
    ensures
        name@ == "stable"@ <==> choice == ClientChoice::Pipe(0),
        name@ == "ptb"@ <==> choice == ClientChoice::Pipe(1),
        name@ == "canary"@ <==> choice == ClientChoice::Pipe(2),
        name@ == "auto"@ <==> choice == ClientChoice::Auto,
        choice matches ClientChoice::Pipe(pipe) ==> pipe <= 2,
{
    lemma_names_differ();
}

proof fn lemma_names_differ()
    ensures
        "auto"@ != "stable"@ && "auto"@ != "ptb"@ && "auto"@ != "canary"@,
        "stable"@ != "ptb"@ && "stable"@ != "canary"@ && "ptb"@ != "canary"@,
{
    reveal_strlit("auto");
    reveal_strlit("stable");
    reveal_strlit("ptb");
    reveal_strlit("canary");
    assert("auto"@.len() == 4 && "ptb"@.len() == 3);
    assert("stable"@.len() == 6 && "canary"@.len() == 6);
    assert("stable"@[0] == 's' && "canary"@[0] == 'c');
}

/// The pipe of a number has a name that ends in the number; the name of each of
/// the ten pipes ends in one digit.
pub proof fn law_pipe_name(pipe: u32, path: String)
    requires
        call_ensures(discord::pipe_path, (pipe,), path),
    ensures
        ({
            let front = r"\\?\pipe\discord-ipc-"@;
            let digits = path@.skip(front.len() as int);
            &&& front.is_prefix_of(path@)
            &&& answers::digits_value(digits) == pipe
            &&& digits.len() > 0
            &&& pipe > 0 ==> digits[0] != '0'
            &&& pipe < 10 ==> digits.len() == 1
        }),
{
    let front = r"\\?\pipe\discord-ipc-"@;
    answers::lemma_numeral(pipe as nat);
    assert(path@.skip(front.len() as int) =~= crate::text::numeral(pipe as nat));
}

proof fn lemma_frame(opcode: u32, text: Seq<char>)
    requires
        opcode < 256,
    ensures
        ({
            let frame = frame::text_frame(opcode, text);
            let header = frame.header;
            &&& frame.body == encode_utf8(text)
            &&& header.len() == 8
            &&& header[0] == opcode && header[1] == 0 && header[2] == 0 && header[3] == 0
            &&& header[4] + 0x100 * header[5] + 0x1_0000 * header[6] + 0x100_0000 * header[7]
                == frame.body.len() % 0x1_0000_0000
        }),
{
    let frame = frame::text_frame(opcode, text);
    frame::law_unpack_of_pack(opcode, frame::stated_len(frame.body.len()), seq![]);
    assert(frame.header + seq![] =~= frame.header);
}

/// The pipes that are to be opened, one after the other, once this action has
/// been handed out, in at most `rounds` actions.
pub open spec fn opened(pipes: Pipes, s: ClientState, action: ActionView, rounds: nat) -> Seq<u32>
    decreases rounds,
{
    if rounds == 0 || s.idle() {
        seq![]
    } else {
        let (next, then) = discord::step(s, pipes.answer(s.phase));
        let later = opened(pipes, next, then, (rounds - 1) as nat);
        match action {
            ActionView::Open(pipe) => seq![pipe] + later,
            _ => later,
        }
    }
}

proof fn lemma_opened(pipes: Pipes, s: ClientState, action: ActionView, rounds: nat)
    requires
        s.phase matches Phase::Opening(plan) ==> action == ActionView::Open(
            discord::plan_pipe(plan),
        ),
        action is Open ==> s.phase is Opening,
    ensures
        opened(pipes, s, action, rounds) == session::tried(pipes, s, rounds),
    decreases rounds,
{
    if rounds > 0 && !s.idle() {
        let (next, then) = discord::step(s, pipes.answer(s.phase));
        lemma_opened(pipes, next, then, (rounds - 1) as nat);
    }
}

proof fn lemma_one(pipes: Pipes, s: ClientState, pipe: u32)
    requires
        s.valid(),
        s.idle(),
    ensures
        ({
            let (after, action) = discord::end(s, Some(Plan::One(pipe)));
            let now = session::run(pipes, after, 52);
            &&& now.idle() && now.socket == now.connected
            &&& now.connected <==> pipes.responds(pipe)
            &&& now.last_target == (if pipes.responds(pipe) {
                Some(pipe)
            } else {
                s.last_target
            })
            &&& opened(pipes, after, action, 52) == seq![pipe]
        }),
{
    let (after, action) = discord::end(s, Some(Plan::One(pipe)));
    session::law_connect(pipes, s, Plan::One(pipe));
    lemma_opened(pipes, after, action, 52);
}

proof fn lemma_scan(pipes: Pipes, s: ClientState)
    requires
        s.valid(),
        s.idle(),
    ensures
        ({
            let (after, action) = discord::end(s, Some(Plan::Scan(0)));
            let now = session::run(pipes, after, 52);
            &&& now.idle() && now.socket == now.connected
            &&& forall|pipe: u32|
                pipe < 10 && #[trigger] pipes.responds(pipe) && (forall|other: u32|
                    other < pipe ==> !(#[trigger] pipes.responds(other))) ==> {
                    &&& now.connected
                    &&& now.last_target == Some(pipe)
                    &&& opened(pipes, after, action, 52) == Seq::new(
                        (pipe + 1) as nat,
                        |i: int| i as u32,
                    )
                }
            &&& (forall|pipe: u32| pipe < 10 ==> !(#[trigger] pipes.responds(pipe))) ==> {
                &&& !now.connected
                &&& now.last_target == s.last_target
                &&& opened(pipes, after, action, 52) == Seq::new(10, |i: int| i as u32)
            }
        }),
{
    let (after, action) = discord::end(s, Some(Plan::Scan(0)));
    session::law_connect(pipes, s, Plan::Scan(0));
    session::law_first_responder(pipes, 0);
    lemma_opened(pipes, after, action, 52);
    let tried = session::plan_pipes(pipes, Plan::Scan(0));
    match session::first_responder(pipes, 0) {
        Some(pipe) => {
            assert(tried =~= Seq::new((pipe + 1) as nat, |i: int| i as u32));
        },
        None => {
            assert(tried =~= Seq::new(10, |i: int| i as u32));
        },
    }
}

/// A request for one pipe tries this pipe alone. The client ends up connected
/// exactly if a Discord client answers there, and then remembers the pipe.
pub proof fn law_one_pipe(
    pipes: Pipes,
    client: &mut DiscordClient,
    pipe: u32,
    action: Action,
)
    requires
        call_ensures(DiscordClient::connect_to, (client, pipe), action),
        old(client)@.valid(),
        old(client)@.idle(),
    ensures
        ({
            let now = session::run(pipes, final(client)@, 52);
            let tried = opened(pipes, final(client)@, action@, 52);
            &&& now.idle() && now.socket == now.connected && now.client_id
                == old(client)@.client_id
            &&& now.connected <==> pipes.responds(pipe)
            &&& now.last_target == (if pipes.responds(pipe) {
                Some(pipe)
            } else {
                old(client)@.last_target
            })
            &&& tried == seq![pipe]
        }),
{
    lemma_one(pipes, old(client)@, pipe);
    session::law_connect(pipes, old(client)@, Plan::One(pipe));
}

/// A request for any pipe tries them in the order of their numbers, each once,
/// and stops at the first on which a Discord client answers. It is connected to
/// that one, and remembers it; if none of the ten answers, it is not connected.
pub proof fn law_any_pipe(
    pipes: Pipes,
    client: &mut DiscordClient,
    action: Action,
)
    requires
        call_ensures(DiscordClient::connect_auto, (client,), action),
        old(client)@.valid(),
        old(client)@.idle(),
    ensures
        ({
            let now = session::run(pipes, final(client)@, 52);
            let tried = opened(pipes, final(client)@, action@, 52);
            &&& now.idle() && now.socket == now.connected && now.client_id
                == old(client)@.client_id
            &&& forall|pipe: u32|
                pipe < 10 && #[trigger] pipes.responds(pipe) && (forall|other: u32|
                    other < pipe ==> !(#[trigger] pipes.responds(other))) ==> {
                    &&& now.connected
                    &&& now.last_target == Some(pipe)
                    &&& tried == Seq::new((pipe + 1) as nat, |i: int| i as u32)
                }
            &&& (forall|pipe: u32| pipe < 10 ==> !(#[trigger] pipes.responds(pipe))) ==> {
                &&& !now.connected
                &&& now.last_target == old(client)@.last_target
                &&& tried == Seq::new(10, |i: int| i as u32)
            }
        }),
{
    lemma_scan(pipes, old(client)@);
    session::law_connect(pipes, old(client)@, Plan::Scan(0));
}

/// A request to reconnect tries the pipe that is remembered, and no other. If
/// none is, it tries them all in the order of their numbers, up to the first on
/// which a Discord client answers.
pub proof fn law_reconnect(
    pipes: Pipes,
    client: &mut DiscordClient,
    action: Action,
)
    requires
        call_ensures(DiscordClient::reconnect, (client,), action),
        old(client)@.valid(),
        old(client)@.idle(),
    ensures
        ({
            let now = session::run(pipes, final(client)@, 52);
            let tried = opened(pipes, final(client)@, action@, 52);
            &&& now.idle() && now.socket == now.connected && now.client_id
                == old(client)@.client_id
            &&& old(client)@.last_target matches Some(last) ==> {
                &&& now.connected <==> pipes.responds(last)
                &&& now.last_target == Some(last)
                &&& tried == seq![last]
            }
            &&& old(client)@.last_target is None ==> forall|pipe: u32|
                pipe < 10 && #[trigger] pipes.responds(pipe) && (forall|other: u32|
                    other < pipe ==> !(#[trigger] pipes.responds(other))) ==> {
                    &&& now.connected
                    &&& now.last_target == Some(pipe)
                    &&& tried == Seq::new((pipe + 1) as nat, |i: int| i as u32)
                }
            &&& old(client)@.last_target is None ==> (forall|pipe: u32| pipe < 10 ==> !(#[trigger] pipes.responds(pipe))) ==> {
                &&& !now.connected
                &&& now.last_target == old(client)@.last_target
                &&& tried == Seq::new(10, |i: int| i as u32)
            }
        }),
{
    match old(client)@.last_target {
        Some(last) => {
            lemma_one(pipes, old(client)@, last);
            session::law_connect(pipes, old(client)@, Plan::One(last));
        },
        None => {
            lemma_scan(pipes, old(client)@);
            session::law_connect(pipes, old(client)@, Plan::Scan(0));
        },
    }
}

/// With "stable", "ptb" or "canary" in the settings, one pipe is tried and no
/// other: 0, 1 and 2 in turn. The client ends up connected exactly if a Discord
/// client answers there. With any other name, the pipes are tried in the order of
/// their numbers, up to the first on which a Discord client answers.
pub proof fn law_configured(
    pipes: Pipes,
    client: &mut DiscordClient,
    name: &str,
    action: Action,
)
    requires
        call_ensures(DiscordClient::connect_configured, (client, name), action),
        old(client)@.valid(),
        old(client)@.idle(),
    ensures
        ({
            let now = session::run(pipes, final(client)@, 52);
            let tried = opened(pipes, final(client)@, action@, 52);
            &&& now.idle() && now.socket == now.connected && now.client_id
                == old(client)@.client_id
            &&& forall|pipe: u32|
                (name@ == "stable"@ && pipe == 0) || (name@ == "ptb"@ && pipe == 1) || (name@
                    == "canary"@ && pipe == 2) ==> {
                    &&& now.connected <==> #[trigger] pipes.responds(pipe)
                    &&& now.last_target == (if pipes.responds(pipe) {
                        Some(pipe)
                    } else {
                        old(client)@.last_target
                    })
                    &&& tried == seq![pipe]
                }
            &&& name@ != "stable"@ && name@ != "ptb"@ && name@ != "canary"@ ==> forall|pipe: u32|
                pipe < 10 && #[trigger] pipes.responds(pipe) && (forall|other: u32|
                    other < pipe ==> !(#[trigger] pipes.responds(other))) ==> {
                    &&& now.connected
                    &&& now.last_target == Some(pipe)
                    &&& tried == Seq::new((pipe + 1) as nat, |i: int| i as u32)
                }
            &&& name@ != "stable"@ && name@ != "ptb"@ && name@ != "canary"@ ==> (forall|pipe: u32| pipe < 10 ==> !(#[trigger] pipes.responds(pipe))) ==> {
                &&& !now.connected
                &&& now.last_target == old(client)@.last_target
                &&& tried == Seq::new(10, |i: int| i as u32)
            }
        }),
{
    lemma_names_differ();
    let s = old(client)@;
    if name@ == "stable"@ {
        lemma_one(pipes, s, 0);
        session::law_connect(pipes, s, Plan::One(0));
    } else if name@ == "ptb"@ {
        lemma_one(pipes, s, 1);
        session::law_connect(pipes, s, Plan::One(1));
    } else if name@ == "canary"@ {
        lemma_one(pipes, s, 2);
        session::law_connect(pipes, s, Plan::One(2));
    } else {
        lemma_scan(pipes, s);
        session::law_connect(pipes, s, Plan::Scan(0));
    }
}

/// A client that is connected stays as it is if a connection is seen to; one that
/// is not does what it would do if it were asked to reconnect.
pub proof fn law_ensure_connected(
    client: &mut DiscordClient,
    action: Action,
    other: &mut DiscordClient,
    other_action: Action,
)
    requires
        call_ensures(DiscordClient::ensure_connected, (client,), action),
        call_ensures(DiscordClient::reconnect, (other,), other_action),
        old(client)@ == old(other)@,
    ensures
        old(client)@.connected ==> action is Done && final(client)@ == old(client)@,
        !old(client)@.connected ==> action@ == other_action@ && final(client)@ == final(other)@,
{
}

/// A request to disconnect leaves the client without a connection and without a
/// pipe that is open, whether Discord can be told or not; the pipe is remembered.
/// No pipe is opened.
pub proof fn law_disconnect(pipes: Pipes, client: &mut DiscordClient, action: Action)
    requires
        call_ensures(DiscordClient::disconnect, (client,), action),
        old(client)@.valid(),
        old(client)@.idle(),
    ensures
        ({
            let now = session::run(pipes, final(client)@, 52);
            &&& now.idle() && !now.socket && !now.connected
            &&& now.last_target == old(client)@.last_target
            &&& now.client_id == old(client)@.client_id
            &&& !(action is Open)
            &&& !old(client)@.connected ==> action is Done && final(client)@ == old(client)@
            &&& old(client)@.connected ==> action is Send && final(client)@ == (ClientState {
                phase: Phase::Closing(None),
                ..old(client)@
            })
        }),
{
    session::law_disconnect(pipes, old(client)@);
}

/// Whatever is asked of a client that is connected, be it another connection or
/// the end of this one, the first thing that is done is to tell Discord that the
/// conversation ends: a frame with the opcode 2 and an empty object.
pub proof fn law_farewell_comes_first(client: &mut DiscordClient, pipe: u32, name: &str, action: Action)
    requires
        ({
            ||| call_ensures(DiscordClient::connect_to, (client, pipe), action)
            ||| call_ensures(DiscordClient::connect_auto, (client,), action)
            ||| call_ensures(DiscordClient::reconnect, (client,), action)
            ||| call_ensures(DiscordClient::connect_configured, (client, name), action)
            ||| call_ensures(DiscordClient::disconnect, (client,), action)
        }),
        old(client)@.connected,
    ensures
        action matches Action::Send(frame) && {
            &&& frame.header@ == seq![2u8, 0, 0, 0, 2, 0, 0, 0]
            &&& frame.body@ == encode_utf8("{}"@)
        },
        final(client)@.phase is Closing,
        final(client)@.connected && final(client)@.socket == old(client)@.socket,
        final(client)@.last_target == old(client)@.last_target,
{
    lemma_farewell();
    assert(action@ == ActionView::Send(discord::close_frame()));
}

proof fn lemma_farewell()
    ensures
        discord::close_frame().header == seq![2u8, 0, 0, 0, 2, 0, 0, 0],
        discord::close_frame().body == encode_utf8("{}"@),
{
    reveal_strlit("{}");
    let text = "{}"@;
    assert(text =~= seq!['{', '}']);
    assert(is_ascii_chars(text));
    is_ascii_chars_encode_utf8(text);
    assert(encode_utf8(text).len() == 2);
    assert(discord::close_frame().header =~= seq![2u8, 0, 0, 0, 2, 0, 0, 0]);
}

/// Once the farewell was sent, or could not be, the pipe is closed.
pub proof fn law_farewell(
    client: &mut DiscordClient,
    next: Option<Plan>,
    event: Event,
    action: Action,
)
    requires
        call_ensures(DiscordClient::advance, (client, event), action),
        old(client)@.phase == Phase::Closing(next),
    ensures
        action is Close,
        final(client)@ == (ClientState { phase: Phase::Dropping(next), ..old(client)@ }),
{
}

/// Once the pipe of a conversation is closed, the client is not connected any
/// more, and goes on to the pipe that was asked for, if one was.
pub proof fn law_after_farewell(
    client: &mut DiscordClient,
    next: Option<Plan>,
    event: Event,
    action: Action,
)
    requires
        call_ensures(DiscordClient::advance, (client, event), action),
        old(client)@.phase == Phase::Dropping(next),
    ensures
        !final(client)@.socket && !final(client)@.connected,
        final(client)@.last_target == old(client)@.last_target,
        next is None ==> action is Done && final(client)@.idle(),
        next matches Some(Plan::One(pipe)) ==> action == Action::Open(pipe) && final(client)@.phase
            == Phase::Opening(Plan::One(pipe)),
        next matches Some(Plan::Scan(pipe)) ==> action == Action::Open(pipe)
            && final(client)@.phase == Phase::Opening(Plan::Scan(pipe)),
{
}

/// On a pipe that was opened the first frame says hello: it has the opcode 0, and
/// holds the version 1 of the protocol and the application's number, and nothing
/// else.
pub proof fn law_hello(client: &mut DiscordClient, plan: Plan, event: Event, action: Action)
    requires
        call_ensures(DiscordClient::advance, (client, event), action),
        old(client)@.phase == Phase::Opening(plan),
        event is Opened,
    ensures
        final(client)@ == (ClientState {
            socket: true,
            phase: Phase::Greeting(plan),
            ..old(client)@
        }),
        action matches Action::Send(frame) && {
            let hello = json::json_text(
                Json::Object(
                    map!["v"@ => Json::Int(1), "client_id"@ => Json::Text(old(client)@.client_id)],
                ),
            );
            &&& frame.body@ == encode_utf8(hello)
            &&& frame.header@.len() == 8
            &&& frame.header@.take(4) == seq![0u8, 0, 0, 0]
            &&& frame.header@[4] + 0x100 * frame.header@[5] + 0x1_0000 * frame.header@[6]
                + 0x100_0000 * frame.header@[7] == frame.body@.len() % 0x1_0000_0000
        },
{
    let hello = json::json_text(
        Json::Object(
            map!["v"@ => Json::Int(1), "client_id"@ => Json::Text(old(client)@.client_id)],
        ),
    );
    lemma_frame(0, hello);
    assert(action@ == ActionView::Send(frame::text_frame(0, hello)));
}

/// A pipe that did not work out is given up, be it that it could not be opened or
/// that it was closed again after the hello went wrong. If it was the only one
/// asked for, or the last of the ten, that is all; otherwise the next one is
/// opened. The client is not connected, and remembers what it remembered.
pub proof fn law_given_up(client: &mut DiscordClient, plan: Plan, event: Event, action: Action)
    requires
        call_ensures(DiscordClient::advance, (client, event), action),
        (old(client)@.phase == Phase::Opening(plan) && event is OpenFailed) || old(client)@.phase
            == Phase::Rejecting(plan),
        old(client)@.valid(),
    ensures
        !final(client)@.socket && !final(client)@.connected,
        final(client)@.last_target == old(client)@.last_target,
        plan is One ==> action is Done && final(client)@.idle(),
        plan matches Plan::Scan(pipe) ==> {
            &&& pipe >= 9 ==> action is Done && final(client)@.idle()
            &&& pipe < 9 ==> action == Action::Open((pipe + 1) as u32) && final(client)@.phase
                == Phase::Opening(Plan::Scan((pipe + 1) as u32))
        },
{
}

/// Once the hello was sent, a header is read; then as many bytes as it states; and
/// if those are UTF-8 and JSON, whatever they say, the client is connected to the
/// pipe, and remembers it. Whatever goes wrong on the way, the pipe is closed.
pub proof fn law_reply(client: &mut DiscordClient, plan: Plan, event: Event, action: Action)
    requires
        call_ensures(DiscordClient::advance, (client, event), action),
    ensures
        old(client)@.phase == Phase::Greeting(plan) ==> {
            &&& event is Sent ==> action is ReadHeader && final(client)@ == (ClientState {
                phase: Phase::AwaitingHeader(plan),
                ..old(client)@
            })
            &&& !(event is Sent) ==> action is Close && final(client)@ == (ClientState {
                phase: Phase::Rejecting(plan),
                ..old(client)@
            })
        },
        old(client)@.phase == Phase::AwaitingHeader(plan) ==> {
            let whole = event matches Event::Header(header) && header@.len() >= 8;
            &&& whole ==> {
                let header = event->Header_0@;
                &&& action matches Action::ReadBody(length) && length == header[4] + 0x100
                    * header[5] + 0x1_0000 * header[6] + 0x100_0000 * header[7]
                &&& final(client)@ == (ClientState {
                    phase: Phase::AwaitingBody(plan),
                    ..old(client)@
                })
            }
            &&& !whole ==> action is Close && final(client)@ == (ClientState {
                phase: Phase::Rejecting(plan),
                ..old(client)@
            })
        },
        old(client)@.phase == Phase::AwaitingBody(plan) ==> {
            let good = event matches Event::Body(body) && valid_utf8(body@) && json::json_parsed(
                decode_utf8(body@),
            ) is Ok;
            &&& good ==> {
                &&& action is Done
                &&& final(client)@.connected && final(client)@.idle()
                &&& final(client)@.socket == old(client)@.socket
                &&& plan matches Plan::One(pipe) ==> final(client)@.last_target == Some(pipe)
                &&& plan matches Plan::Scan(pipe) ==> final(client)@.last_target == Some(pipe)
            }
            &&& !good ==> action is Close && final(client)@ == (ClientState {
                phase: Phase::Rejecting(plan),
                ..old(client)@
            })
        },
{
    assert(event@ is Header <==> event is Header);
    assert(event@ is Body <==> event is Body);
}

/// A pipe counts as open from the moment it was opened to the moment it was
/// closed. Bytes are written and read only while one is open, and a pipe is opened
/// only while none is. The number of the application never changes.
pub proof fn law_pipe_is_open(client: &mut DiscordClient, event: Event, action: Action)
    requires
        call_ensures(DiscordClient::advance, (client, event), action),
        old(client)@.valid(),
        discord::awaits(old(client)@, event@),
    ensures
        final(client)@.valid(),
        final(client)@.client_id == old(client)@.client_id,
        event is Opened ==> final(client)@.socket,
        event is Closed ==> !final(client)@.socket,
        !(event is Opened) && !(event is Closed) ==> final(client)@.socket == old(client)@.socket,
        (action is Send || action is ReadHeader || action is ReadBody || action is Close)
            ==> final(client)@.socket,
        action is Open ==> !final(client)@.socket,
{
}

/// A client waits for what it has asked for: each phase belongs to one kind of
/// action, and a pipe that is to be opened is the one that its plan is at.
pub proof fn law_waits_for_what_it_asked(
    client: &mut DiscordClient,
    event: Event,
    action: Action,
)
    requires
        call_ensures(DiscordClient::advance, (client, event), action),
        old(client)@.valid(),
        discord::awaits(old(client)@, event@),
    ensures
        match action {
            Action::Open(pipe) => final(client)@.phase == Phase::Opening(Plan::One(pipe))
                || final(client)@.phase == Phase::Opening(Plan::Scan(pipe)),
            Action::Send(_) => final(client)@.phase is Greeting || final(client)@.phase is Closing,
            Action::ReadHeader => final(client)@.phase is AwaitingHeader,
            Action::ReadBody(_) => final(client)@.phase is AwaitingBody,
            Action::Close => final(client)@.phase is Rejecting || final(client)@.phase is Dropping,
            Action::Done => final(client)@.idle(),
        },
{
}

/// What `run` goes by is what `advance` does.
pub proof fn law_run_is_advance(client: &mut DiscordClient, event: Event, action: Action)
    requires
        call_ensures(DiscordClient::advance, (client, event), action),
    ensures
        (final(client)@, action@) == discord::step(old(client)@, event@),
{
}

/// What is shown is told to Discord as the command `SET_ACTIVITY`, in a frame with
/// the opcode 1: it names the process and the nonce given, and the activity that
/// `activity_value` makes of the presence, and nothing else. It is read back as it
/// is, if its length can be told. The client stays connected. Without a
/// connection nothing is sent.
pub proof fn law_shown(
    client: &mut DiscordClient,
    p: Presence,
    now: i64,
    pid: u32,
    nonce: &str,
    action: Action,
    activity: Value,
)
    requires
        call_ensures(DiscordClient::update_with, (client, &p, now, pid, nonce), action),
        call_ensures(presence::activity_value, (&p, now), activity),
    ensures
        !old(client)@.connected ==> action is Done && final(client)@ == old(client)@,
        old(client)@.connected ==> {
            let command = Json::Object(
                map![
                    "cmd"@ => Json::Text("SET_ACTIVITY"@),
                    "args"@ => Json::Object(
                        map![
                            "pid"@ => Json::Int(pid as int),
                            "activity"@ => json::value_json(activity),
                        ],
                    ),
                    "nonce"@ => Json::Text(nonce@),
                ],
            );
            &&& final(client)@ == (ClientState { phase: Phase::Publishing, ..old(client)@ })
            &&& action matches Action::Send(frame) && {
                &&& frame.header@.len() == 8
                &&& frame.header@.take(4) == seq![1u8, 0, 0, 0]
                &&& frame.header@[4] + 0x100 * frame.header@[5] + 0x1_0000 * frame.header@[6]
                    + 0x100_0000 * frame.header@[7] == frame.body@.len() % 0x1_0000_0000
                &&& frame.body@ == encode_utf8(json::json_text(command))
                &&& frame.body@.len() < 0x1_0000_0000 ==> forall|rest: Seq<u8>| #[trigger]
                    frame::received(frame.header@ + frame.body@ + rest) == Some(
                        Received { opcode: 1, outcome: Ok(command), rest },
                    )
            }
        },
{
    let command = discord::set_activity(pid, json::value_json(activity), nonce@);
    lemma_frame(1, json::json_text(command));
    if old(client)@.connected {
        assert(action@ == ActionView::Send(frame::text_frame(1, json::json_text(command))));
        lemma_told(action, command);
    }
}

/// What is shown is taken off by the same command without an activity, in a frame
/// with the opcode 1. The client stays connected. Without a connection nothing is
/// sent.
pub proof fn law_taken_off(
    client: &mut DiscordClient,
    pid: u32,
    nonce: &str,
    action: Action,
)
    requires
        call_ensures(DiscordClient::clear_with, (client, pid, nonce), action),
    ensures
        !old(client)@.connected ==> action is Done && final(client)@ == old(client)@,
        old(client)@.connected ==> {
            let command = Json::Object(
                map![
                    "cmd"@ => Json::Text("SET_ACTIVITY"@),
                    "args"@ => Json::Object(
                        map!["pid"@ => Json::Int(pid as int), "activity"@ => Json::Null],
                    ),
                    "nonce"@ => Json::Text(nonce@),
                ],
            );
            &&& final(client)@ == (ClientState { phase: Phase::Clearing, ..old(client)@ })
            &&& action matches Action::Send(frame) && {
                &&& frame.header@.len() == 8
                &&& frame.header@.take(4) == seq![1u8, 0, 0, 0]
                &&& frame.header@[4] + 0x100 * frame.header@[5] + 0x1_0000 * frame.header@[6]
                    + 0x100_0000 * frame.header@[7] == frame.body@.len() % 0x1_0000_0000
                &&& frame.body@ == encode_utf8(json::json_text(command))
                &&& frame.body@.len() < 0x1_0000_0000 ==> forall|rest: Seq<u8>| #[trigger]
                    frame::received(frame.header@ + frame.body@ + rest) == Some(
                        Received { opcode: 1, outcome: Ok(command), rest },
                    )
            }
        },
{
    let command = discord::set_activity(pid, Json::Null, nonce@);
    lemma_frame(1, json::json_text(command));
    if old(client)@.connected {
        assert(action@ == ActionView::Send(frame::text_frame(1, json::json_text(command))));
        lemma_told(action, command);
    }
}

proof fn lemma_told(action: Action, command: Json)
    requires
        action is Send,
        discord::tells(action, command),
    ensures
        ({
            let frame = action->Send_0;
            frame.body@.len() < 0x1_0000_0000 ==> forall|rest: Seq<u8>| #[trigger]
                frame::received(frame.header@ + frame.body@ + rest) == Some(
                    Received { opcode: 1, outcome: Ok(command), rest },
                )
        }),
{
    let frame = action->Send_0;
    if frame.body@.len() < 0x1_0000_0000 {
        assert(frame::carries(frame@, 1, command));
        assert forall|rest: Seq<u8>| #[trigger]
            frame::received(frame.header@ + frame.body@ + rest) == Some(
                Received { opcode: 1, outcome: Ok(command), rest },
            ) by {
            assert(frame::frame_bytes(frame@) + rest == frame.header@ + frame.body@ + rest);
        }
    }
}

/// The nonce of a command is a random UUID, in its usual form of 36 characters;
/// but for that, `update` does what `update_with` does with such a nonce. The
/// nonce returned is that one.
pub proof fn law_shown_under_a_nonce(
    client: &mut DiscordClient,
    p: Presence,
    now: i64,
    pid: u32,
    action: Action,
    activity: Value,
) -> (nonce: Seq<char>)
    requires
        call_ensures(DiscordClient::update, (client, &p, now, pid), action),
        call_ensures(presence::activity_value, (&p, now), activity),
    ensures
        !old(client)@.connected ==> action is Done && final(client)@ == old(client)@,
        old(client)@.connected ==> {
            let command = Json::Object(
                map![
                    "cmd"@ => Json::Text("SET_ACTIVITY"@),
                    "args"@ => Json::Object(
                        map![
                            "pid"@ => Json::Int(pid as int),
                            "activity"@ => json::value_json(activity),
                        ],
                    ),
                    "nonce"@ => Json::Text(nonce),
                ],
            );
            &&& discord::is_uuid_v4(nonce)
            &&& nonce.len() == 36 && nonce[14] == '4' && nonce[8] == '-' && nonce[13] == '-'
                && nonce[18] == '-' && nonce[23] == '-'
            &&& final(client)@ == (ClientState { phase: Phase::Publishing, ..old(client)@ })
            &&& action matches Action::Send(frame) && {
                &&& frame.header@.take(4) == seq![1u8, 0, 0, 0]
                &&& frame.body@ == encode_utf8(json::json_text(command))
                &&& frame.body@.len() < 0x1_0000_0000 ==> forall|rest: Seq<u8>| #[trigger]
                    frame::received(frame.header@ + frame.body@ + rest) == Some(
                        Received { opcode: 1, outcome: Ok(command), rest },
                    )
            }
        },
{
    if old(client)@.connected {
        let nonce = choose|nonce: Seq<char>|
            #![trigger discord::is_uuid_v4(nonce)]
            discord::is_uuid_v4(nonce) && action@ == discord::command(
                old(client)@,
                Phase::Publishing,
                discord::set_activity(pid, json::value_json(activity), nonce),
            ).1 && discord::tells(
                action,
                discord::set_activity(pid, json::value_json(activity), nonce),
            );
        let command = discord::set_activity(pid, json::value_json(activity), nonce);
        lemma_frame(1, json::json_text(command));
        lemma_told(action, command);
        nonce
    } else {
        seq![]
    }
}

/// The nonce of a command is a random UUID, in its usual form of 36 characters;
/// but for that, `clear` does what `clear_with` does with such a nonce. The nonce
/// returned is that one.
pub proof fn law_taken_off_under_a_nonce(
    client: &mut DiscordClient,
    pid: u32,
    action: Action,
) -> (nonce: Seq<char>)
    requires
        call_ensures(DiscordClient::clear, (client, pid), action),
    ensures
        !old(client)@.connected ==> action is Done && final(client)@ == old(client)@,
        old(client)@.connected ==> {
            let command = Json::Object(
                map![
                    "cmd"@ => Json::Text("SET_ACTIVITY"@),
                    "args"@ => Json::Object(
                        map!["pid"@ => Json::Int(pid as int), "activity"@ => Json::Null],
                    ),
                    "nonce"@ => Json::Text(nonce),
                ],
            );
            &&& discord::is_uuid_v4(nonce)
            &&& nonce.len() == 36 && nonce[14] == '4' && nonce[8] == '-' && nonce[13] == '-'
                && nonce[18] == '-' && nonce[23] == '-'
            &&& final(client)@ == (ClientState { phase: Phase::Clearing, ..old(client)@ })
            &&& action matches Action::Send(frame) && {
                &&& frame.header@.take(4) == seq![1u8, 0, 0, 0]
                &&& frame.body@ == encode_utf8(json::json_text(command))
                &&& frame.body@.len() < 0x1_0000_0000 ==> forall|rest: Seq<u8>| #[trigger]
                    frame::received(frame.header@ + frame.body@ + rest) == Some(
                        Received { opcode: 1, outcome: Ok(command), rest },
                    )
            }
        },
{
    if old(client)@.connected {
        let nonce = choose|nonce: Seq<char>|
            #![trigger discord::is_uuid_v4(nonce)]
            discord::is_uuid_v4(nonce) && action@ == discord::command(
                old(client)@,
                Phase::Clearing,
                discord::set_activity(pid, Json::Null, nonce),
            ).1 && discord::tells(action, discord::set_activity(pid, Json::Null, nonce));
        let command = discord::set_activity(pid, Json::Null, nonce);
        lemma_frame(1, json::json_text(command));
        lemma_told(action, command);
        nonce
    } else {
        seq![]
    }
}

/// The command that sets an activity names the process, the activity and the
/// nonce, and nothing else.
pub proof fn law_command(pid: u32, activity: Value, nonce: &str, payload: Value)
    requires
        call_ensures(discord::activity_payload, (pid, activity, nonce), payload),
    ensures
        json::value_json(payload) == Json::Object(
            map![
                "cmd"@ => Json::Text("SET_ACTIVITY"@),
                "args"@ => Json::Object(
                    map![
                        "pid"@ => Json::Int(pid as int),
                        "activity"@ => json::value_json(activity),
                    ],
                ),
                "nonce"@ => Json::Text(nonce@),
            ],
        ),
{
}

/// An activity that was sent leaves the client connected. One that could not be
/// sent ends the conversation: Discord is told so. If taking an activity off went
/// wrong, the client stays connected all the same.
pub proof fn law_after_a_command(client: &mut DiscordClient, event: Event, action: Action)
    requires
        call_ensures(DiscordClient::advance, (client, event), action),
        old(client)@.connected,
        old(client)@.phase == Phase::Publishing || old(client)@.phase == Phase::Clearing,
    ensures
        final(client)@.connected && final(client)@.last_target == old(client)@.last_target,
        event is Sent || old(client)@.phase == Phase::Clearing ==> action is Done
            && final(client)@.idle(),
        !(event is Sent) && old(client)@.phase == Phase::Publishing ==> {
            &&& final(client)@.phase == Phase::Closing(None)
            &&& action matches Action::Send(frame) && {
                &&& frame.header@ == seq![2u8, 0, 0, 0, 2, 0, 0, 0]
                &&& frame.body@ == encode_utf8("{}"@)
            }
        },
{
    lemma_farewell();
    if !(event is Sent) && old(client)@.phase == Phase::Publishing {
        assert(action@ == ActionView::Send(discord::close_frame()));
    }
}

} // verus!
