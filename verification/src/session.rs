//! What the requests to a Discord client come to once every action has been
//! performed.
use crate::discord;
use crate::discord::{ActionView, ClientState, EventView, Phase, Plan};
use crate::frame;
use vstd::prelude::*;

verus! {

/// How the pipes of a machine behave, each by its number.
pub struct Pipes {
    /// The pipe can be opened.
    pub opens: spec_fn(u32) -> bool,
    /// The handshake can be written to it.
    pub takes_handshake: spec_fn(u32) -> bool,
    /// The header that comes back, if one can be read.
    pub header: spec_fn(u32) -> Option<Seq<u8>>,
    /// The body that comes back, if one can be read.
    pub body: spec_fn(u32) -> Option<Seq<u8>>,
    /// A frame can be written to the pipe of the open conversation.
    pub takes_frame: bool,
}

impl Pipes {
    /// A Discord client answers on the pipe.
    pub open spec fn responds(self, pipe: u32) -> bool {
        &&& (self.opens)(pipe)
        &&& (self.takes_handshake)(pipe)
        &&& (self.header)(pipe) matches Some(header) && header.len() >= frame::HEADER_LEN
        &&& (self.body)(pipe) matches Some(body) && discord::good_reply(body)
    }

    /// How the action that a client waits for goes.
    pub open spec fn answer(self, phase: Phase) -> EventView {
        match phase {
            Phase::Opening(plan) => if (self.opens)(discord::plan_pipe(plan)) {
                EventView::Opened
            } else {
                EventView::OpenFailed
            },
            Phase::Greeting(plan) => if (self.takes_handshake)(discord::plan_pipe(plan)) {
                EventView::Sent
            } else {
                EventView::SendFailed
            },
            Phase::AwaitingHeader(plan) => match (self.header)(discord::plan_pipe(plan)) {
                Some(header) => EventView::Header(header),
                None => EventView::ReadFailed,
            },
            Phase::AwaitingBody(plan) => match (self.body)(discord::plan_pipe(plan)) {
                Some(body) => EventView::Body(body),
                None => EventView::ReadFailed,
            },
            Phase::Closing(_) | Phase::Publishing | Phase::Clearing => if self.takes_frame {
                EventView::Sent
            } else {
                EventView::SendFailed
            },
            _ => EventView::Closed,
        }
    }
}

/// The state of a client after at most `rounds` actions have been performed. A
/// client that waits for nothing stays as it is.
pub open spec fn run(pipes: Pipes, s: ClientState, rounds: nat) -> ClientState
    decreases rounds,
{
    if rounds == 0 || s.idle() {
        s
    } else {
        run(pipes, discord::step(s, pipes.answer(s.phase)).0, (rounds - 1) as nat)
    }
}

/// The pipes that are opened, or found to be shut, in at most `rounds` actions,
/// one after the other.
pub open spec fn tried(pipes: Pipes, s: ClientState, rounds: nat) -> Seq<u32>
    decreases rounds,
{
    if rounds == 0 || s.idle() {
        seq![]
    } else {
        let later = tried(pipes, discord::step(s, pipes.answer(s.phase)).0, (rounds - 1) as nat);
        match s.phase {
            Phase::Opening(plan) => seq![discord::plan_pipe(plan)] + later,
            _ => later,
        }
    }
}

/// The outcomes that `run` goes by are such as the client waits for.
pub proof fn law_answers_are_awaited(pipes: Pipes, s: ClientState)
    requires
        !s.idle(),
    ensures
        discord::awaits(s, pipes.answer(s.phase)),
{
}

/// The rounds within which every request is dealt with: two to end the
/// conversation that is open, and five for each pipe.
pub const ENOUGH_ROUNDS: u64 = 52;

/// The first pipe from `from` on that answers, among those that there are.
pub open spec fn first_responder(pipes: Pipes, from: u32) -> Option<u32>
    decreases discord::PIPES - from,
{
    if from >= discord::PIPES {
        None
    } else if pipes.responds(from) {
        Some(from)
    } else {
        first_responder(pipes, (from + 1) as u32)
    }
}

/// The pipe on which a plan ends up in a conversation.
pub open spec fn plan_outcome(pipes: Pipes, plan: Plan) -> Option<u32> {
    match plan {
        Plan::One(pipe) => if pipes.responds(pipe) {
            Some(pipe)
        } else {
            None
        },
        Plan::Scan(from) => first_responder(pipes, from),
    }
}

/// The pipes that a plan goes through: a scan takes them in the order of their
/// numbers, each once, up to the first that answers.
pub open spec fn plan_pipes(pipes: Pipes, plan: Plan) -> Seq<u32> {
    match plan {
        Plan::One(pipe) => seq![pipe],
        Plan::Scan(from) => Seq::new(
            (match first_responder(pipes, from) {
                Some(pipe) => pipe - from + 1,
                None => discord::PIPES - from,
            }) as nat,
            |i: int| (from + i) as u32,
        ),
    }
}

/// The state of a client whose search ended on this pipe, or on none.
pub open spec fn settled(s: ClientState, outcome: Option<u32>) -> ClientState {
    ClientState {
        client_id: s.client_id,
        socket: outcome is Some,
        connected: outcome is Some,
        last_target: if outcome is Some {
            outcome
        } else {
            s.last_target
        },
        phase: Phase::Idle,
    }
}

proof fn lemma_run_adds(pipes: Pipes, s: ClientState, a: nat, b: nat)
    ensures
        run(pipes, s, a + b) == run(pipes, run(pipes, s, a), b),
        tried(pipes, s, a + b) == tried(pipes, s, a) + tried(pipes, run(pipes, s, a), b),
    decreases a,
{
    if a > 0 && !s.idle() {
        lemma_run_adds(
            pipes,
            discord::step(s, pipes.answer(s.phase)).0,
            (a - 1) as nat,
            b,
        );
    }
    assert(tried(pipes, s, a + b) =~= tried(pipes, s, a) + tried(pipes, run(pipes, s, a), b));
}

/// The rounds that the search of a plan can take.
spec fn plan_rounds(plan: Plan) -> nat {
    match plan {
        Plan::One(_) => 5,
        Plan::Scan(from) => (5 * (discord::PIPES - from)) as nat,
    }
}

#[verifier::rlimit(40)]
proof fn lemma_attempt(pipes: Pipes, s: ClientState, plan: Plan)
    requires
        s.valid(),
        s.phase == Phase::Opening(plan),
    ensures
        run(pipes, s, plan_rounds(plan)) == settled(s, plan_outcome(pipes, plan)),
        tried(pipes, s, plan_rounds(plan)) == plan_pipes(pipes, plan),
    decreases plan_rounds(plan),
{
    let pipe = discord::plan_pipe(plan);
    reveal_with_fuel(run, 6);
    reveal_with_fuel(tried, 6);
    law_first_responder(pipes, pipe);
    if pipes.responds(pipe) {
        assert(run(pipes, s, 5) == settled(s, Some(pipe)));
        assert(tried(pipes, s, 5) =~= seq![pipe]);
        lemma_run_adds(pipes, s, 5, (plan_rounds(plan) - 5) as nat);
    } else {
        let next = discord::pass_on(s, plan).0;
        // However the pipe fails, the client comes to the next one within five
        // rounds, or to rest.
        let used: nat = if !(pipes.opens)(pipe) {
            1
        } else if !(pipes.takes_handshake)(pipe) {
            3
        } else if !((pipes.header)(pipe) matches Some(header) && header.len()
            >= frame::HEADER_LEN) {
            4
        } else {
            5
        };
        assert(run(pipes, s, used) == next);
        assert(tried(pipes, s, used) =~= seq![pipe]);
        lemma_run_adds(pipes, s, used, (plan_rounds(plan) - used) as nat);
        match plan {
            Plan::Scan(from) if from + 1 < discord::PIPES => {
                let rest = Plan::Scan((from + 1) as u32);
                lemma_attempt(pipes, next, rest);
                lemma_run_adds(pipes, next, plan_rounds(rest), (5 - used) as nat);
            },
            _ => {},
        }
    }
    assert(tried(pipes, s, plan_rounds(plan)) =~= plan_pipes(pipes, plan));
}

proof fn lemma_run_longer(pipes: Pipes, s: ClientState, rounds: nat, enough: nat)
    requires
        run(pipes, s, rounds).idle(),
        rounds <= enough,
    ensures
        run(pipes, s, enough) == run(pipes, s, rounds),
        tried(pipes, s, enough) == tried(pipes, s, rounds),
{
    lemma_run_adds(pipes, s, rounds, (enough - rounds) as nat);
    assert(tried(pipes, s, enough) =~= tried(pipes, s, rounds));
}

/// A request to connect ends on the pipe that its plan finds, and only there: the
/// client is then connected to it, and remembers it. If no pipe answers, the
/// client is not connected, and remembers the pipe that it remembered before.
/// A conversation that was open is ended first, even if Discord cannot be told.
/// On the way exactly the pipes of the plan are tried, in their order.
pub proof fn law_connect(pipes: Pipes, s: ClientState, plan: Plan)
    requires
        s.valid(),
        s.idle(),
        discord::plan_ok(plan),
    ensures
        run(pipes, discord::end(s, Some(plan)).0, ENOUGH_ROUNDS as nat) == settled(
            s,
            plan_outcome(pipes, plan),
        ),
        tried(pipes, discord::end(s, Some(plan)).0, ENOUGH_ROUNDS as nat) == plan_pipes(
            pipes,
            plan,
        ),
{
    let start = discord::end(s, Some(plan)).0;
    let opening = discord::attempt(
        ClientState { socket: false, connected: false, ..s },
        plan,
    ).0;
    let closing: nat = if s.connected {
        2
    } else {
        0
    };
    reveal_with_fuel(run, 3);
    reveal_with_fuel(tried, 3);
    assert(run(pipes, start, closing) == opening);
    assert(tried(pipes, start, closing) =~= seq![]);
    lemma_attempt(pipes, opening, plan);
    lemma_run_adds(pipes, start, closing, plan_rounds(plan));
    lemma_run_longer(pipes, start, closing + plan_rounds(plan), ENOUGH_ROUNDS as nat);
    assert(seq![] + plan_pipes(pipes, plan) =~= plan_pipes(pipes, plan));
}

/// A scan finds the first pipe that answers: it answers, and none before it
/// does; and it finds none only if none answers.
pub proof fn law_first_responder(pipes: Pipes, from: u32)
    ensures
        first_responder(pipes, from) matches Some(pipe) ==> from <= pipe < discord::PIPES
            && pipes.responds(pipe) && forall|before: u32|
            from <= before < pipe ==> !pipes.responds(before),
        first_responder(pipes, from) is None ==> forall|pipe: u32|
            from <= pipe < discord::PIPES ==> !pipes.responds(pipe),
    decreases discord::PIPES - from,
{
    if from < discord::PIPES && !pipes.responds(from) {
        law_first_responder(pipes, (from + 1) as u32);
    }
}

/// A request to disconnect leaves no pipe open, and the pipe that was used is
/// remembered, even if Discord cannot be told.
pub proof fn law_disconnect(pipes: Pipes, s: ClientState)
    requires
        s.valid(),
        s.idle(),
    ensures
        run(pipes, discord::end(s, None).0, ENOUGH_ROUNDS as nat) == (ClientState {
            socket: false,
            connected: false,
            ..s
        }),
{
    let start = discord::end(s, None).0;
    let closing: nat = if s.connected {
        2
    } else {
        0
    };
    reveal_with_fuel(run, 3);
    lemma_run_longer(pipes, start, closing, ENOUGH_ROUNDS as nat);
}

/// After a conversation has been held on a pipe and ended, a request to
/// reconnect tries that pipe, and no other.
pub proof fn law_reconnect_returns(before: Pipes, after: Pipes, s: ClientState, plan: Plan)
    requires
        s.valid(),
        s.idle(),
        discord::plan_ok(plan),
        plan_outcome(before, plan) is Some,
    ensures
        ({
            let pipe = plan_outcome(before, plan)->Some_0;
            let held = run(before, discord::end(s, Some(plan)).0, ENOUGH_ROUNDS as nat);
            let ended = run(before, discord::end(held, None).0, ENOUGH_ROUNDS as nat);
            let again = run(
                after,
                discord::end(ended, Some(discord::return_plan(ended.last_target))).0,
                ENOUGH_ROUNDS as nat,
            );
            &&& held.connected
            &&& !ended.connected
            &&& discord::return_plan(ended.last_target) == Plan::One(pipe)
            &&& again.connected <==> after.responds(pipe)
            &&& again.last_target == Some(pipe)
        }),
{
    let held = run(before, discord::end(s, Some(plan)).0, ENOUGH_ROUNDS as nat);
    law_connect(before, s, plan);
    let ended = run(before, discord::end(held, None).0, ENOUGH_ROUNDS as nat);
    law_disconnect(before, held);
    law_connect(after, ended, discord::return_plan(ended.last_target));
}

/// An activity that cannot be sent ends the conversation; one that can be sent
/// leaves the client as it was. The end of an activity leaves the client as it
/// was either way. Without a conversation nothing is sent.
pub proof fn law_commands(pipes: Pipes, s: ClientState, data: crate::json::Json)
    requires
        s.valid(),
        s.idle(),
    ensures
        run(
            pipes,
            discord::command(s, Phase::Publishing, data).0,
            ENOUGH_ROUNDS as nat,
        ) == (if s.connected && !pipes.takes_frame {
            ClientState { socket: false, connected: false, ..s }
        } else {
            s
        }),
        run(pipes, discord::command(s, Phase::Clearing, data).0, ENOUGH_ROUNDS as nat) == s,
        !s.connected ==> discord::command(s, Phase::Publishing, data).1 is Done,
        !s.connected ==> discord::command(s, Phase::Clearing, data).1 is Done,
{
    reveal_with_fuel(run, 4);
    let publishing = discord::command(s, Phase::Publishing, data).0;
    let clearing = discord::command(s, Phase::Clearing, data).0;
    lemma_run_longer(pipes, publishing, 3, ENOUGH_ROUNDS as nat);
    lemma_run_longer(pipes, clearing, 1, ENOUGH_ROUNDS as nat);
}

/// Whatever happens on the pipes, a client stays valid, and it never asks for
/// bytes to be written or read while no pipe is open. Which pipe it remembers
/// changes only when a handshake on it went well.
pub proof fn law_step(s: ClientState, event: EventView)
    requires
        s.valid(),
        discord::awaits(s, event),
    ensures
        ({
            let (next, action) = discord::step(s, event);
            &&& next.valid()
            &&& (action is Send || action is ReadHeader || action is ReadBody || action is Close)
                ==> next.socket
            &&& action is Open ==> !next.socket
            &&& action is Done <==> next.idle()
            &&& next.client_id == s.client_id
            &&& next.last_target != s.last_target ==> !s.connected && next.connected
                && next.last_target is Some
            &&& !s.connected && next.connected ==> s.phase is AwaitingBody && next.last_target
                == Some(discord::plan_pipe(s.phase->AwaitingBody_0))
        }),
{
}

/// The same holds of the requests themselves: they leave a client valid, and ask
/// for bytes to be written only while a pipe is open, and for a pipe only while
/// none is. No request changes which pipe is remembered.
pub proof fn law_request(
    s: ClientState,
    next: Option<Plan>,
    phase: Phase,
    data: crate::json::Json,
)
    requires
        s.valid(),
        s.idle(),
        next matches Some(plan) ==> discord::plan_ok(plan),
        phase == Phase::Publishing || phase == Phase::Clearing,
    ensures
        ({
            let (ending, action) = discord::end(s, next);
            &&& ending.valid()
            &&& action is Send <==> s.connected
            &&& action is Send ==> ending.socket
            &&& action is Open <==> !s.connected && next is Some
            &&& action is Open ==> !ending.socket
            &&& action is Done <==> ending.idle()
            &&& ending.last_target == s.last_target
        }),
        ({
            let (sending, action) = discord::command(s, phase, data);
            &&& sending.valid()
            &&& action is Send <==> s.connected
            &&& action is Send ==> sending.socket
            &&& action is Done <==> sending.idle()
            &&& sending.last_target == s.last_target
        }),
{
}

/// A client that waits for the reply to its handshake asks for exactly the bytes
/// of one frame, and is connected if and only if what the frame says is JSON.
pub proof fn law_reply_is_one_frame(s: ClientState, stream: Seq<u8>)
    requires
        s.phase is AwaitingHeader,
        frame::received(stream) is Some,
    ensures
        ({
            let reply = frame::received(stream)->Some_0;
            let end = stream.len() - reply.rest.len();
            let header = stream.take(frame::HEADER_LEN as int);
            let body = stream.subrange(frame::HEADER_LEN as int, end);
            let (reading, action) = discord::step(s, EventView::Header(header));
            let (greeted, _) = discord::step(reading, EventView::Body(body));
            &&& action == ActionView::ReadBody(body.len() as u32)
            &&& header + body + reply.rest == stream
            &&& reply.outcome is Ok ==> greeted.connected && greeted.idle()
            &&& reply.outcome is Err ==> greeted.phase is Rejecting && greeted.connected
                == s.connected
        }),
{
    let reply = frame::received(stream)->Some_0;
    let header = stream.take(frame::HEADER_LEN as int);
    let end = stream.len() - reply.rest.len();
    let body = stream.subrange(frame::HEADER_LEN as int, end);
    assert(frame::le_value(header, 4) == frame::le_value(stream, 4));
    assert(header + body + reply.rest =~= stream);
}

} // verus!
