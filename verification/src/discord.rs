//! The connection to a Discord client on this machine.
//!
//! A `DiscordClient` decides what is done on the connection. Each of its methods
//! hands out the next action; the caller performs it and reports the outcome to
//! `advance`, until the action is `Done`.
use crate::frame;
use crate::frame::{Frame, FrameView};
use crate::json;
use crate::json::Json;
use crate::presence;
use crate::presence::Presence;
use crate::text;
use serde_json::Value;
use vstd::prelude::*;
use vstd::string::StringExecFns;

verus! {

/// The number of pipes on which a Discord client may listen.
pub const PIPES: u32 = 10;

/// The opcode of the frame that opens a conversation.
pub const OP_HANDSHAKE: u32 = 0;

/// The opcode of a frame that carries a command.
pub const OP_FRAME: u32 = 1;

/// The opcode of the frame that ends a conversation.
pub const OP_CLOSE: u32 = 2;

/// Which pipes are tried.
#[derive(Debug, Clone, Copy, PartialEq, Eq, Structural)]
pub enum Plan {
    /// This pipe alone.
    One(u32),
    /// This pipe, and after it those that follow.
    Scan(u32),
}

/// What a client is waiting for.
#[derive(Debug, Clone, Copy, PartialEq, Eq, Structural)]
pub enum Phase {
    /// Nothing: the next request can be made.
    Idle,
    /// The closing frame is being sent, with what is tried afterwards.
    Closing(Option<Plan>),
    /// The pipe of the ended conversation is being closed.
    Dropping(Option<Plan>),
    /// A pipe is being opened.
    Opening(Plan),
    /// The handshake is being sent.
    Greeting(Plan),
    /// The header of the reply to the handshake is being read.
    AwaitingHeader(Plan),
    /// The body of the reply to the handshake is being read.
    AwaitingBody(Plan),
    /// A pipe on which the handshake failed is being closed.
    Rejecting(Plan),
    /// An activity is being sent.
    Publishing,
    /// The end of the activity is being sent.
    Clearing,
}

/// What the caller is to do next.
#[derive(Debug)]
pub enum Action {
    /// Open the pipe of this number.
    Open(u32),
    /// Write the header of a frame, and then its body.
    Send(Frame),
    /// Read the eight bytes of a header.
    ReadHeader,
    /// Read this many bytes.
    ReadBody(u32),
    /// Close the pipe.
    Close,
    /// Nothing: the request has been dealt with.
    Done,
}

/// How an action went.
#[derive(Debug)]
pub enum Event {
    Opened,
    OpenFailed,
    Sent,
    SendFailed,
    Header(Vec<u8>),
    Body(Vec<u8>),
    ReadFailed,
    Closed,
}

/// What an action asks for.
pub enum ActionView {
    Open(u32),
    Send(FrameView),
    ReadHeader,
    ReadBody(u32),
    Close,
    Done,
}

/// What an event reports.
pub enum EventView {
    Opened,
    OpenFailed,
    Sent,
    SendFailed,
    Header(Seq<u8>),
    Body(Seq<u8>),
    ReadFailed,
    Closed,
}

impl View for Action {
    type V = ActionView;

    open spec fn view(&self) -> ActionView {
        match *self {
            Action::Open(pipe) => ActionView::Open(pipe),
            Action::Send(frame) => ActionView::Send(frame@),
            Action::ReadHeader => ActionView::ReadHeader,
            Action::ReadBody(length) => ActionView::ReadBody(length),
            Action::Close => ActionView::Close,
            Action::Done => ActionView::Done,
        }
    }
}

impl View for Event {
    type V = EventView;

    open spec fn view(&self) -> EventView {
        match *self {
            Event::Opened => EventView::Opened,
            Event::OpenFailed => EventView::OpenFailed,
            Event::Sent => EventView::Sent,
            Event::SendFailed => EventView::SendFailed,
            Event::Header(bytes) => EventView::Header(bytes@),
            Event::Body(bytes) => EventView::Body(bytes@),
            Event::ReadFailed => EventView::ReadFailed,
            Event::Closed => EventView::Closed,
        }
    }
}

/// The state of a client.
pub struct ClientState {
    /// The number by which Discord knows the application.
    pub client_id: Seq<char>,
    /// A pipe is open.
    pub socket: bool,
    /// The handshake on that pipe went well.
    pub connected: bool,
    /// The pipe of the last handshake that went well.
    pub last_target: Option<u32>,
    pub phase: Phase,
}

/// The pipe that a plan tries first.
pub open spec fn plan_pipe(plan: Plan) -> u32 {
    match plan {
        Plan::One(pipe) => pipe,
        Plan::Scan(pipe) => pipe,
    }
}

/// A scan stays among the pipes that there are.
pub open spec fn plan_ok(plan: Plan) -> bool {
    plan matches Plan::Scan(pipe) ==> pipe < PIPES
}

impl ClientState {
    /// What holds of every client: a connected one has a pipe open and knows
    /// which, and one that waits for nothing has a pipe open only if it is
    /// connected.
    pub open spec fn valid(self) -> bool {
        &&& self.connected ==> self.socket && self.last_target is Some
        &&& match self.phase {
            Phase::Idle => self.socket == self.connected,
            Phase::Closing(next) | Phase::Dropping(next) => self.connected && (next matches Some(
                plan,
            ) ==> plan_ok(plan)),
            Phase::Opening(plan) => !self.socket && plan_ok(plan),
            Phase::Greeting(plan)
            | Phase::AwaitingHeader(plan)
            | Phase::AwaitingBody(plan)
            | Phase::Rejecting(plan) => self.socket && !self.connected && plan_ok(plan),
            Phase::Publishing | Phase::Clearing => self.connected,
        }
    }

    /// The client waits for nothing.
    pub open spec fn idle(self) -> bool {
        self.phase == Phase::Idle
    }
}

/// The first frame of a conversation.
pub open spec fn handshake_frame(client_id: Seq<char>) -> FrameView {
    frame::json_frame(
        OP_HANDSHAKE,
        Json::Object(map!["v"@ => Json::Int(1), "client_id"@ => Json::Text(client_id)]),
    )
}

/// The last frame of a conversation.
pub open spec fn close_frame() -> FrameView {
    frame::text_frame(OP_CLOSE, "{}"@)
}

/// The command that sets the activity of a process, or ends it.
pub open spec fn set_activity(pid: u32, activity: Json, nonce: Seq<char>) -> Json {
    Json::Object(
        map![
            "cmd"@ => Json::Text("SET_ACTIVITY"@),
            "args"@ => Json::Object(map!["pid"@ => Json::Int(pid as int), "activity"@ => activity]),
            "nonce"@ => Json::Text(nonce),
        ],
    )
}

/// A reply to the handshake is good if it is JSON, whatever it says.
pub open spec fn good_reply(body: Seq<u8>) -> bool {
    frame::body_json(body) is Ok
}

/// The pipe of a plan is to be opened.
pub open spec fn attempt(s: ClientState, plan: Plan) -> (ClientState, ActionView) {
    (ClientState { phase: Phase::Opening(plan), ..s }, ActionView::Open(plan_pipe(plan)))
}

/// The pipe of a plan did not answer: the next one is tried, if there is one.
pub open spec fn pass_on(s: ClientState, plan: Plan) -> (ClientState, ActionView) {
    match plan {
        Plan::Scan(pipe) if pipe + 1 < PIPES => attempt(s, Plan::Scan((pipe + 1) as u32)),
        _ => (ClientState { phase: Phase::Idle, ..s }, ActionView::Done),
    }
}

/// The handshake failed: the pipe is to be closed.
pub open spec fn reject(s: ClientState, plan: Plan) -> (ClientState, ActionView) {
    (ClientState { phase: Phase::Rejecting(plan), ..s }, ActionView::Close)
}

/// The conversation is to be ended, if there is one.
pub open spec fn end(s: ClientState, next: Option<Plan>) -> (ClientState, ActionView) {
    if s.connected {
        (ClientState { phase: Phase::Closing(next), ..s }, ActionView::Send(close_frame()))
    } else {
        match next {
            Some(plan) => attempt(s, plan),
            None => (ClientState { phase: Phase::Idle, ..s }, ActionView::Done),
        }
    }
}

/// The event is an answer to what the client waits for.
pub open spec fn awaits(s: ClientState, event: EventView) -> bool {
    match s.phase {
        Phase::Idle => false,
        Phase::Closing(_) | Phase::Greeting(_) | Phase::Publishing | Phase::Clearing => event is Sent
            || event is SendFailed,
        Phase::Dropping(_) | Phase::Rejecting(_) => event is Closed,
        Phase::Opening(_) => event is Opened || event is OpenFailed,
        Phase::AwaitingHeader(_) => event is Header || event is ReadFailed,
        Phase::AwaitingBody(_) => event is Body || event is ReadFailed,
    }
}

/// The state that an event leads to, and what is then to be done.
pub open spec fn step(s: ClientState, event: EventView) -> (ClientState, ActionView) {
    match s.phase {
        Phase::Idle => (s, ActionView::Done),
        Phase::Closing(next) => (
            ClientState { phase: Phase::Dropping(next), ..s },
            ActionView::Close,
        ),
        Phase::Dropping(next) => end(ClientState { socket: false, connected: false, ..s }, next),
        Phase::Opening(plan) => if event is Opened {
            (
                ClientState { socket: true, phase: Phase::Greeting(plan), ..s },
                ActionView::Send(handshake_frame(s.client_id)),
            )
        } else {
            pass_on(s, plan)
        },
        Phase::Greeting(plan) => if event is Sent {
            (ClientState { phase: Phase::AwaitingHeader(plan), ..s }, ActionView::ReadHeader)
        } else {
            reject(s, plan)
        },
        Phase::AwaitingHeader(plan) => match event {
            EventView::Header(header) if header.len() >= frame::HEADER_LEN => (
                ClientState { phase: Phase::AwaitingBody(plan), ..s },
                ActionView::ReadBody(frame::le_value(header, 4) as u32),
            ),
            _ => reject(s, plan),
        },
        Phase::AwaitingBody(plan) => match event {
            EventView::Body(body) if good_reply(body) => (
                ClientState {
                    connected: true,
                    last_target: Some(plan_pipe(plan)),
                    phase: Phase::Idle,
                    ..s
                },
                ActionView::Done,
            ),
            _ => reject(s, plan),
        },
        Phase::Rejecting(plan) => pass_on(ClientState { socket: false, ..s }, plan),
        Phase::Publishing => if event is Sent {
            (ClientState { phase: Phase::Idle, ..s }, ActionView::Done)
        } else {
            end(s, None)
        },
        Phase::Clearing => (ClientState { phase: Phase::Idle, ..s }, ActionView::Done),
    }
}

/// The plan that comes back to the last pipe on which a conversation was held,
/// or looks for one if there was none.
pub open spec fn return_plan(last_target: Option<u32>) -> Plan {
    match last_target {
        Some(pipe) => Plan::One(pipe),
        None => Plan::Scan(0),
    }
}

/// A command is to be sent, if there is a conversation.
pub open spec fn command(s: ClientState, phase: Phase, data: Json) -> (ClientState, ActionView) {
    if s.connected {
        (
            ClientState { phase: phase, ..s },
            ActionView::Send(frame::json_frame(OP_FRAME, data)),
        )
    } else {
        (s, ActionView::Done)
    }
}

/// The frame that is to be sent, if one is, carries this command, unless it is
/// too long for its length to be told.
pub open spec fn tells(action: Action, data: Json) -> bool {
    action matches Action::Send(frame) ==> frame@.body.len() < 0x1_0000_0000 ==> frame::carries(
        frame@,
        OP_FRAME,
        data,
    )
}

/// The Discord client that a configuration names.
#[derive(Debug, Clone, Copy, PartialEq, Eq, Structural)]
pub enum ClientChoice {
    /// Whichever answers first.
    Auto,
    /// The one on this pipe.
    Pipe(u32),
    /// A name that is not known, for which whichever answers first is taken.
    Unknown,
}

/// The client of each name.
pub open spec fn choice_of(name: Seq<char>) -> ClientChoice {
    if name == "auto"@ {
        ClientChoice::Auto
    } else if name == "stable"@ {
        ClientChoice::Pipe(0)
    } else if name == "ptb"@ {
        ClientChoice::Pipe(1)
    } else if name == "canary"@ {
        ClientChoice::Pipe(2)
    } else {
        ClientChoice::Unknown
    }
}

/// The pipes that are tried for a choice.
pub open spec fn choice_plan(choice: ClientChoice) -> Plan {
    match choice {
        ClientChoice::Pipe(pipe) => Plan::One(pipe),
        _ => Plan::Scan(0),
    }
}

/// The characters of lower-case hexadecimal numerals.
pub open spec fn is_hex(c: char) -> bool {
    ('0' <= c && c <= '9') || ('a' <= c && c <= 'f')
}

/// The shape of a random UUID: hyphens after 8, 12, 16 and 20 digits, the
/// version 4 and the variant of RFC 9562.
pub open spec fn is_uuid_v4(s: Seq<char>) -> bool {
    &&& s.len() == 36
    &&& s[8] == '-' && s[13] == '-' && s[18] == '-' && s[23] == '-'
    &&& s[14] == '4'
    &&& s[19] == '8' || s[19] == '9' || s[19] == 'a' || s[19] == 'b'
    &&& forall|i: int|
        0 <= i < 36 && i != 8 && i != 13 && i != 18 && i != 23 ==> is_hex(#[trigger] s[i])
}

/// Calls `uuid::Uuid::new_v4` and writes the UUID out. Which one comes is left
/// to chance; its shape is that of a random UUID. On a system that has no random
/// numbers to give, the call does not return.
#[verifier::external_body]
fn fresh_nonce() -> (nonce: String)
    ensures
        is_uuid_v4(nonce@),
{
    uuid::Uuid::new_v4().to_string()
}

/// The name of the pipe of this number.
pub fn pipe_path(pipe: u32) -> (path: String)
    ensures
        path@ == r"\\?\pipe\discord-ipc-"@ + text::numeral(pipe as nat),
{
    r"\\?\pipe\discord-ipc-".to_owned().concat(text::decimal(pipe).as_str())
}

/// The Discord client that a name in the configuration stands for.
pub fn client_choice(name: &str) -> (choice: ClientChoice)
    ensures
        choice == choice_of(name@),
{
    if text::same_text(name, "auto") {
        ClientChoice::Auto
    } else if text::same_text(name, "stable") {
        ClientChoice::Pipe(0)
    } else if text::same_text(name, "ptb") {
        ClientChoice::Pipe(1)
    } else if text::same_text(name, "canary") {
        ClientChoice::Pipe(2)
    } else {
        ClientChoice::Unknown
    }
}

fn handshake_payload(client_id: &str) -> (payload: Value)
    ensures
        json::value_json(payload) == Json::Object(
            map!["v"@ => Json::Int(1), "client_id"@ => Json::Text(client_id@)],
        ),
{
    let mut object = serde_json::Map::new();
    json::insert(&mut object, "v", json::number_value(1));
    json::insert(&mut object, "client_id", json::text_value(client_id));
    json::object_value(object)
}

/// The command that sets the activity of a process, or ends it.
pub fn activity_payload(pid: u32, activity: Value, nonce: &str) -> (payload: Value)
    ensures
        json::value_json(payload) == set_activity(pid, json::value_json(activity), nonce@),
{
    let mut args = serde_json::Map::new();
    json::insert(&mut args, "pid", json::number_value(pid));
    json::insert(&mut args, "activity", activity);
    let mut object = serde_json::Map::new();
    json::insert(&mut object, "cmd", json::text_value("SET_ACTIVITY"));
    json::insert(&mut object, "args", json::object_value(args));
    json::insert(&mut object, "nonce", json::text_value(nonce));
    json::object_value(object)
}

proof fn lemma_command_is_plain(pid: u32, activity: Json, nonce: Seq<char>)
    requires
        json::is_plain(activity, 125),
    ensures
        json::is_plain(set_activity(pid, activity, nonce), 127),
{
    let args = Json::Object(map!["pid"@ => Json::Int(pid as int), "activity"@ => activity]);
    assert(json::is_plain(Json::Int(pid as int), 125));
    assert(json::is_plain(args, 126));
    assert(json::is_plain(Json::Text(nonce), 126));
    assert(json::is_plain(Json::Text("SET_ACTIVITY"@), 126));
}

/// A connection to a Discord client.
#[derive(Debug)]
pub struct DiscordClient {
    client_id: String,
    socket: bool,
    connected: bool,
    last_target: Option<u32>,
    phase: Phase,
}

impl View for DiscordClient {
    type V = ClientState;

    closed spec fn view(&self) -> ClientState {
        ClientState {
            client_id: self.client_id@,
            socket: self.socket,
            connected: self.connected,
            last_target: self.last_target,
            phase: self.phase,
        }
    }
}

impl DiscordClient {
    /// A client that has not been connected yet.
    pub fn new(client_id: &str) -> (client: Self)
        ensures
            client@ == (ClientState {
                client_id: client_id@,
                socket: false,
                connected: false,
                last_target: None,
                phase: Phase::Idle,
            }),
            client@.valid(),
    {
        DiscordClient {
            client_id: client_id.to_owned(),
            socket: false,
            connected: false,
            last_target: None,
            phase: Phase::Idle,
        }
    }

    /// Tells whether the conversation with Discord is open.
    pub fn is_connected(&self) -> (connected: bool)
        ensures
            connected == self@.connected,
    {
        self.connected
    }

    /// The frame that carries `data`, for which a pipe has to be open.
    fn send_frame(&self, data: &Value, opcode: u32) -> (frame: Result<Frame, String>)
        ensures
            self@.socket ==> (frame matches Ok(frame) && frame@ == frame::json_frame(
                opcode,
                json::value_json(*data),
            ) && (json::value_json(*data) == Json::Object(json::no_fields()) ==> frame@
                == frame::text_frame(opcode, "{}"@)) && (json::is_plain(
                json::value_json(*data),
                json::READABLE_DEPTH as nat,
            ) && frame@.body.len() < 0x1_0000_0000 ==> frame::carries(
                frame@,
                opcode,
                json::value_json(*data),
            ))),
            !self@.socket ==> (frame matches Err(message) && message@ == "Not connected"@),
    {
        let frame = frame::frame_json(data, opcode);
        if self.socket {
            Ok(frame)
        } else {
            Err("Not connected".to_owned())
        }
    }

    fn attempt(&mut self, plan: Plan) -> (action: Action)
        ensures
            (final(self)@, action@) == attempt(old(self)@, plan),
    {
        self.phase = Phase::Opening(plan);
        match plan {
            Plan::One(pipe) => Action::Open(pipe),
            Plan::Scan(pipe) => Action::Open(pipe),
        }
    }

    fn pass_on(&mut self, plan: Plan) -> (action: Action)
        ensures
            (final(self)@, action@) == pass_on(old(self)@, plan),
    {
        match plan {
            Plan::Scan(pipe) if pipe < PIPES - 1 => self.attempt(Plan::Scan(pipe + 1)),
            _ => {
                self.phase = Phase::Idle;
                Action::Done
            },
        }
    }

    fn reject(&mut self, plan: Plan) -> (action: Action)
        ensures
            (final(self)@, action@) == reject(old(self)@, plan),
    {
        self.phase = Phase::Rejecting(plan);
        Action::Close
    }

    fn send_handshake(&mut self, plan: Plan) -> (action: Action)
        requires
            old(self)@.socket,
        ensures
            final(self)@ == (ClientState { phase: Phase::Greeting(plan), ..old(self)@ }),
            action@ == ActionView::Send(handshake_frame(old(self)@.client_id)),
    {
        let payload = handshake_payload(self.client_id.as_str());
        let frame = self.send_frame(&payload, OP_HANDSHAKE).unwrap();
        self.phase = Phase::Greeting(plan);
        Action::Send(frame)
    }

    fn end(&mut self, next: Option<Plan>) -> (action: Action)
        requires
            old(self)@.connected ==> old(self)@.socket,
        ensures
            (final(self)@, action@) == end(old(self)@, next),
    {
        if self.connected {
            let payload = json::object_value(serde_json::Map::new());
            let frame = self.send_frame(&payload, OP_CLOSE).unwrap();
            self.phase = Phase::Closing(next);
            Action::Send(frame)
        } else {
            match next {
                Some(plan) => self.attempt(plan),
                None => {
                    self.phase = Phase::Idle;
                    Action::Done
                },
            }
        }
    }

    fn command(&mut self, phase: Phase, payload: &Value) -> (action: Action)
        requires
            old(self)@.connected ==> old(self)@.socket,
        ensures
            (final(self)@, action@) == command(old(self)@, phase, json::value_json(*payload)),
            json::is_plain(json::value_json(*payload), json::READABLE_DEPTH as nat) ==> tells(
                action,
                json::value_json(*payload),
            ),
    {
        if self.connected {
            let frame = self.send_frame(payload, OP_FRAME).unwrap();
            self.phase = phase;
            Action::Send(frame)
        } else {
            Action::Done
        }
    }

    /// Connects to the pipe of this number (0 is the stable client, 1 the PTB and
    /// 2 the Canary), after the conversation that may be open has been ended.
    pub fn connect_to(&mut self, pipe_index: u32) -> (action: Action)
        requires
            old(self)@.valid(),
            old(self)@.idle(),
        ensures
            (final(self)@, action@) == end(old(self)@, Some(Plan::One(pipe_index))),
            final(self)@.valid(),
    {
        self.end(Some(Plan::One(pipe_index)))
    }

    /// Connects to the first pipe that answers, after the conversation that may
    /// be open has been ended.
    pub fn connect_auto(&mut self) -> (action: Action)
        requires
            old(self)@.valid(),
            old(self)@.idle(),
        ensures
            (final(self)@, action@) == end(old(self)@, Some(Plan::Scan(0))),
            final(self)@.valid(),
    {
        self.end(Some(Plan::Scan(0)))
    }

    /// Connects to the last pipe on which a conversation was held, or to the
    /// first that answers if there was none.
    pub fn reconnect(&mut self) -> (action: Action)
        requires
            old(self)@.valid(),
            old(self)@.idle(),
        ensures
            (final(self)@, action@) == end(
                old(self)@,
                Some(return_plan(old(self)@.last_target)),
            ),
            final(self)@.valid(),
    {
        match self.last_target {
            Some(pipe) => self.connect_to(pipe),
            None => self.connect_auto(),
        }
    }

    /// Sees to it that there is a conversation: without one, reconnects.
    pub fn ensure_connected(&mut self) -> (action: Action)
        requires
            old(self)@.valid(),
            old(self)@.idle(),
        ensures
            (final(self)@, action@) == (if old(self)@.connected {
                (old(self)@, ActionView::Done)
            } else {
                end(old(self)@, Some(return_plan(old(self)@.last_target)))
            }),
            final(self)@.valid(),
    {
        if self.connected {
            Action::Done
        } else {
            self.reconnect()
        }
    }

    /// Connects to the client that the configuration names.
    pub fn connect_configured(&mut self, name: &str) -> (action: Action)
        requires
            old(self)@.valid(),
            old(self)@.idle(),
        ensures
            (final(self)@, action@) == end(old(self)@, Some(choice_plan(choice_of(name@)))),
            final(self)@.valid(),
    {
        match client_choice(name) {
            ClientChoice::Pipe(pipe) => self.connect_to(pipe),
            _ => self.connect_auto(),
        }
    }

    /// Ends the conversation, if one is open: Discord is told, and the pipe is
    /// closed.
    pub fn disconnect(&mut self) -> (action: Action)
        requires
            old(self)@.valid(),
            old(self)@.idle(),
        ensures
            (final(self)@, action@) == end(old(self)@, None),
            final(self)@.valid(),
    {
        self.end(None)
    }

    /// Shows a presence, under a fresh nonce. Without a conversation nothing is
    /// sent.
    pub fn update(&mut self, p: &Presence, now: i64, pid: u32) -> (action: Action)
        requires
            old(self)@.valid(),
            old(self)@.idle(),
            old(self)@.connected ==> presence::clock_fits(*p, now as int),
        ensures
            old(self)@.connected ==> exists|nonce: Seq<char>|
                #![trigger is_uuid_v4(nonce)]
                is_uuid_v4(nonce) && (final(self)@, action@) == command(
                    old(self)@,
                    Phase::Publishing,
                    set_activity(
                        pid,
                        Json::Object(presence::activity_object(*p, now as int)),
                        nonce,
                    ),
                ) && tells(
                    action,
                    set_activity(
                        pid,
                        Json::Object(presence::activity_object(*p, now as int)),
                        nonce,
                    ),
                ),
            !old(self)@.connected ==> (final(self)@, action@) == (old(self)@, ActionView::Done),
            final(self)@.valid(),
    {
        if !self.connected {
            return Action::Done;
        }
        let nonce = fresh_nonce();
        self.update_with(p, now, pid, nonce.as_str())
    }

    /// Shows a presence, under the nonce given.
    pub fn update_with(&mut self, p: &Presence, now: i64, pid: u32, nonce: &str) -> (action: Action)
        requires
            old(self)@.valid(),
            old(self)@.idle(),
            old(self)@.connected ==> presence::clock_fits(*p, now as int),
        ensures
            (final(self)@, action@) == command(
                old(self)@,
                Phase::Publishing,
                set_activity(
                    pid,
                    Json::Object(presence::activity_object(*p, now as int)),
                    nonce@,
                ),
            ),
            tells(
                action,
                set_activity(
                    pid,
                    Json::Object(presence::activity_object(*p, now as int)),
                    nonce@,
                ),
            ),
            final(self)@.valid(),
    {
        if !self.connected {
            return Action::Done;
        }
        let activity = presence::activity_value(p, now);
        let payload = activity_payload(pid, activity, nonce);
        proof {
            presence::lemma_activity_is_plain(*p, now as int, 125);
            lemma_command_is_plain(pid, json::value_json(activity), nonce@);
        }
        self.command(Phase::Publishing, &payload)
    }

    /// Shows nothing any more, under a fresh nonce. Without a conversation
    /// nothing is sent.
    pub fn clear(&mut self, pid: u32) -> (action: Action)
        requires
            old(self)@.valid(),
            old(self)@.idle(),
        ensures
            old(self)@.connected ==> exists|nonce: Seq<char>|
                #![trigger is_uuid_v4(nonce)]
                is_uuid_v4(nonce) && (final(self)@, action@) == command(
                    old(self)@,
                    Phase::Clearing,
                    set_activity(pid, Json::Null, nonce),
                ) && tells(action, set_activity(pid, Json::Null, nonce)),
            !old(self)@.connected ==> (final(self)@, action@) == (old(self)@, ActionView::Done),
            final(self)@.valid(),
    {
        if !self.connected {
            return Action::Done;
        }
        let nonce = fresh_nonce();
        self.clear_with(pid, nonce.as_str())
    }

    /// Shows nothing any more, under the nonce given.
    pub fn clear_with(&mut self, pid: u32, nonce: &str) -> (action: Action)
        requires
            old(self)@.valid(),
            old(self)@.idle(),
        ensures
            (final(self)@, action@) == command(
                old(self)@,
                Phase::Clearing,
                set_activity(pid, Json::Null, nonce@),
            ),
            tells(action, set_activity(pid, Json::Null, nonce@)),
            final(self)@.valid(),
    {
        let payload = activity_payload(pid, json::null_value(), nonce);
        proof {
            lemma_command_is_plain(pid, Json::Null, nonce@);
        }
        self.command(Phase::Clearing, &payload)
    }

    /// Takes the outcome of an action, and hands out the next one.
    pub fn advance(&mut self, event: Event) -> (action: Action)
        requires
            old(self)@.valid(),
            awaits(old(self)@, event@),
        ensures
            (final(self)@, action@) == step(old(self)@, event@),
            final(self)@.valid(),
    {
        match self.phase {
            Phase::Idle => Action::Done,
            Phase::Closing(next) => {
                self.phase = Phase::Dropping(next);
                Action::Close
            },
            Phase::Dropping(next) => {
                self.socket = false;
                self.connected = false;
                self.end(next)
            },
            Phase::Opening(plan) => match event {
                Event::Opened => {
                    self.socket = true;
                    self.send_handshake(plan)
                },
                _ => self.pass_on(plan),
            },
            Phase::Greeting(plan) => match event {
                Event::Sent => {
                    self.phase = Phase::AwaitingHeader(plan);
                    Action::ReadHeader
                },
                _ => self.reject(plan),
            },
            Phase::AwaitingHeader(plan) => match event {
                Event::Header(header) => match frame::unpack(header.as_slice()) {
                    Ok((_, length)) => {
                        self.phase = Phase::AwaitingBody(plan);
                        Action::ReadBody(length)
                    },
                    Err(_) => self.reject(plan),
                },
                _ => self.reject(plan),
            },
            Phase::AwaitingBody(plan) => match event {
                Event::Body(body) => match frame::read_body(body.as_slice()) {
                    Ok(_) => {
                        self.connected = true;
                        self.last_target = match plan {
                            Plan::One(pipe) => Some(pipe),
                            Plan::Scan(pipe) => Some(pipe),
                        };
                        self.phase = Phase::Idle;
                        Action::Done
                    },
                    Err(_) => self.reject(plan),
                },
                _ => self.reject(plan),
            },
            Phase::Rejecting(plan) => {
                self.socket = false;
                self.pass_on(plan)
            },
            Phase::Publishing => match event {
                Event::Sent => {
                    self.phase = Phase::Idle;
                    Action::Done
                },
                _ => self.end(None),
            },
            Phase::Clearing => {
                self.phase = Phase::Idle;
                Action::Done
            },
        }
    }
}

} // verus!
