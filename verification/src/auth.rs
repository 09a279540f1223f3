//! The sign-in to Plex: a page is opened on which the user lets the program in,
//! and Plex is asked now and then whether that has happened.
use crate::text;
use vstd::prelude::*;
use vstd::string::StringExecFns;
use vstd::utf8::*;

verus! {

/// How long the user has to let the program in, in seconds.
pub const AUTH_TIMEOUT: u64 = 300;

/// The wait before each question to Plex, in seconds.
pub const AUTH_POLL_INTERVAL: u64 = 2;

/// The ASCII letters and digits.
pub open spec fn is_alphanumeric(byte: u8) -> bool {
    ||| 0x30 <= byte <= 0x39
    ||| 0x41 <= byte <= 0x5a
    ||| 0x61 <= byte <= 0x7a
}

/// The upper-case hexadecimal digit of a number below 16.
pub open spec fn hex_digit(n: int) -> char {
    if n < 10 {
        (n + 0x30) as char
    } else {
        (n - 10 + 0x41) as char
    }
}

/// A byte in percent-encoding: letters and digits stand for themselves.
pub open spec fn encoded_byte(byte: u8) -> Seq<char> {
    if is_alphanumeric(byte) {
        seq![byte as char]
    } else {
        seq!['%', hex_digit(byte as int / 16), hex_digit(byte as int % 16)]
    }
}

/// Bytes in percent-encoding.
pub open spec fn percent_encoded(bytes: Seq<u8>) -> Seq<char>
    decreases bytes.len(),
{
    if bytes.len() == 0 {
        seq![]
    } else {
        encoded_byte(bytes.first()) + percent_encoded(bytes.drop_first())
    }
}

/// The address of the page on which the user lets the program in.
pub open spec fn auth_address(client_id: Seq<char>, code: Seq<char>) -> Seq<char> {
    "https://app.plex.tv/auth#?clientID="@ + percent_encoded(encode_utf8(client_id)) + "&code="@
        + percent_encoded(encode_utf8(code))
        + "&context%5Bdevice%5D%5Bproduct%5D=Presence%20for%20Plex"@
}

/// Calls `percent_encoding::utf8_percent_encode` with the set
/// `NON_ALPHANUMERIC`: of the text's UTF-8 bytes, those that are not ASCII
/// letters or digits become a percent sign and two upper-case hexadecimal
/// digits.
#[verifier::external_body]
fn percent_encode(text: &str) -> (encoded: String)
    ensures
        encoded@ == percent_encoded(encode_utf8(text@)),
{
    percent_encoding::utf8_percent_encode(text, percent_encoding::NON_ALPHANUMERIC).to_string()
}

/// The address of the page on which the user lets the program in, for the name
/// of the program and the code that Plex gave.
pub fn auth_url(client_id: &str, code: &str) -> (url: String)
    ensures
        url@ == auth_address(client_id@, code@),
{
    let mut url = "https://app.plex.tv/auth#?clientID=".to_owned();
    url.append(percent_encode(client_id).as_str());
    url.append("&code=");
    url.append(percent_encode(code).as_str());
    url.append("&context%5Bdevice%5D%5Bproduct%5D=Presence%20for%20Plex");
    url
}

/// What is to be done next in a sign-in.
#[derive(Debug)]
pub enum AuthAction {
    /// Ask Plex for a pin.
    RequestPin,
    /// Show this address, and open it in a browser if that can be done.
    Show(String),
    /// Wait this many seconds.
    Sleep(u64),
    /// Ask Plex whether the user let the program in by the pin of this number.
    CheckPin(u64),
    /// Put this token into the configuration, and save that if it can be done.
    Store(String),
    /// Nothing: the sign-in is over, with this token or without one.
    Finish(Option<String>),
}

/// How an action of a sign-in went.
#[derive(Debug)]
pub enum AuthEvent {
    /// Plex gave a pin, by its number and its code, or none.
    Pin(Option<(u64, String)>),
    /// The address was shown.
    Shown,
    /// The wait is over.
    Slept,
    /// Plex gave this token, or none yet.
    Checked(Option<String>),
    /// The time that the user has was over before the wait or the question was.
    TimedOut,
    /// The token was put into the configuration.
    Stored,
}

/// Where a sign-in stands.
#[derive(Debug)]
pub enum AuthPhase {
    /// Plex is asked for a pin.
    Requesting,
    /// The address for the pin of this number and this code is shown.
    Showing(u64, String),
    /// Some time passes, for the pin of this number.
    Waiting(u64),
    /// Plex is asked whether the user let the program in by the pin of this
    /// number.
    Checking(u64),
    /// This token is put into the configuration.
    Storing(String),
    /// The sign-in is over, with this token or without one.
    Over(Option<String>),
}

/// What an action asks for.
pub enum AuthActionView {
    RequestPin,
    Show(Seq<char>),
    Sleep(u64),
    CheckPin(u64),
    Store(Seq<char>),
    Finish(Option<Seq<char>>),
}

/// What an event reports.
pub enum AuthEventView {
    Pin(Option<(u64, Seq<char>)>),
    Shown,
    Slept,
    Checked(Option<Seq<char>>),
    TimedOut,
    Stored,
}

/// Where a sign-in stands.
pub enum AuthPhaseView {
    Requesting,
    Showing(u64, Seq<char>),
    Waiting(u64),
    Checking(u64),
    Storing(Seq<char>),
    Over(Option<Seq<char>>),
}

impl View for AuthAction {
    type V = AuthActionView;

    open spec fn view(&self) -> AuthActionView {
        match *self {
            AuthAction::RequestPin => AuthActionView::RequestPin,
            AuthAction::Show(url) => AuthActionView::Show(url@),
            AuthAction::Sleep(seconds) => AuthActionView::Sleep(seconds),
            AuthAction::CheckPin(pin) => AuthActionView::CheckPin(pin),
            AuthAction::Store(token) => AuthActionView::Store(token@),
            AuthAction::Finish(token) => AuthActionView::Finish(text::option_text(token)),
        }
    }
}

impl View for AuthEvent {
    type V = AuthEventView;

    open spec fn view(&self) -> AuthEventView {
        match *self {
            AuthEvent::Pin(Some((pin, code))) => AuthEventView::Pin(Some((pin, code@))),
            AuthEvent::Pin(None) => AuthEventView::Pin(None),
            AuthEvent::Shown => AuthEventView::Shown,
            AuthEvent::Slept => AuthEventView::Slept,
            AuthEvent::Checked(token) => AuthEventView::Checked(text::option_text(token)),
            AuthEvent::TimedOut => AuthEventView::TimedOut,
            AuthEvent::Stored => AuthEventView::Stored,
        }
    }
}

impl View for AuthPhase {
    type V = AuthPhaseView;

    open spec fn view(&self) -> AuthPhaseView {
        match *self {
            AuthPhase::Requesting => AuthPhaseView::Requesting,
            AuthPhase::Showing(pin, code) => AuthPhaseView::Showing(pin, code@),
            AuthPhase::Waiting(pin) => AuthPhaseView::Waiting(pin),
            AuthPhase::Checking(pin) => AuthPhaseView::Checking(pin),
            AuthPhase::Storing(token) => AuthPhaseView::Storing(token@),
            AuthPhase::Over(token) => AuthPhaseView::Over(text::option_text(token)),
        }
    }
}

/// What is to be done where a sign-in of the program of this name stands.
pub open spec fn auth_action(phase: AuthPhaseView, client_id: Seq<char>) -> AuthActionView {
    match phase {
        AuthPhaseView::Requesting => AuthActionView::RequestPin,
        AuthPhaseView::Showing(_, code) => AuthActionView::Show(auth_address(client_id, code)),
        AuthPhaseView::Waiting(_) => AuthActionView::Sleep(AUTH_POLL_INTERVAL),
        AuthPhaseView::Checking(pin) => AuthActionView::CheckPin(pin),
        AuthPhaseView::Storing(token) => AuthActionView::Store(token),
        AuthPhaseView::Over(token) => AuthActionView::Finish(token),
    }
}

/// The event is an answer to what is to be done.
pub open spec fn auth_awaits(phase: AuthPhaseView, event: AuthEventView) -> bool {
    match phase {
        AuthPhaseView::Requesting => event is Pin,
        AuthPhaseView::Showing(_, _) => event is Shown,
        AuthPhaseView::Waiting(_) => event is Slept || event is TimedOut,
        AuthPhaseView::Checking(_) => event is Checked || event is TimedOut,
        AuthPhaseView::Storing(_) => event is Stored,
        AuthPhaseView::Over(_) => false,
    }
}

/// Where a sign-in stands after an event.
pub open spec fn auth_step(phase: AuthPhaseView, event: AuthEventView) -> AuthPhaseView {
    match (phase, event) {
        (AuthPhaseView::Requesting, AuthEventView::Pin(Some((pin, code)))) => AuthPhaseView::Showing(
            pin,
            code,
        ),
        (AuthPhaseView::Showing(pin, _), _) => AuthPhaseView::Waiting(pin),
        (AuthPhaseView::Waiting(pin), AuthEventView::Slept) => AuthPhaseView::Checking(pin),
        (AuthPhaseView::Checking(_), AuthEventView::Checked(Some(token))) => AuthPhaseView::Storing(
            token,
        ),
        (AuthPhaseView::Checking(pin), AuthEventView::Checked(None)) => AuthPhaseView::Waiting(pin),
        (AuthPhaseView::Storing(token), _) => AuthPhaseView::Over(Some(token)),
        (AuthPhaseView::Over(token), _) => AuthPhaseView::Over(token),
        _ => AuthPhaseView::Over(None),
    }
}

impl AuthPhase {
    /// A sign-in that has just been asked for.
    pub fn begin() -> (phase: AuthPhase)
        ensures
            phase@ == AuthPhaseView::Requesting,
    {
        AuthPhase::Requesting
    }

    /// What is to be done next.
    pub fn action(&self, client_id: &str) -> (action: AuthAction)
        ensures
            action@ == auth_action(self@, client_id@),
    {
        match self {
            AuthPhase::Requesting => AuthAction::RequestPin,
            AuthPhase::Showing(_, code) => AuthAction::Show(auth_url(client_id, code.as_str())),
            AuthPhase::Waiting(_) => AuthAction::Sleep(AUTH_POLL_INTERVAL),
            AuthPhase::Checking(pin) => AuthAction::CheckPin(*pin),
            AuthPhase::Storing(token) => AuthAction::Store(token.clone()),
            AuthPhase::Over(Some(token)) => AuthAction::Finish(Some(token.clone())),
            AuthPhase::Over(None) => AuthAction::Finish(None),
        }
    }

    /// Takes the outcome of the action.
    pub fn advance(self, event: AuthEvent) -> (phase: AuthPhase)
        requires
            auth_awaits(self@, event@),
        ensures
            phase@ == auth_step(self@, event@),
    {
        match (self, event) {
            (AuthPhase::Requesting, AuthEvent::Pin(Some((pin, code)))) => AuthPhase::Showing(
                pin,
                code,
            ),
            (AuthPhase::Showing(pin, _), _) => AuthPhase::Waiting(pin),
            (AuthPhase::Waiting(pin), AuthEvent::Slept) => AuthPhase::Checking(pin),
            (AuthPhase::Checking(_), AuthEvent::Checked(Some(token))) => AuthPhase::Storing(token),
            (AuthPhase::Checking(pin), AuthEvent::Checked(None)) => AuthPhase::Waiting(pin),
            (AuthPhase::Storing(token), _) => AuthPhase::Over(Some(token)),
            (AuthPhase::Over(token), _) => AuthPhase::Over(token),
            _ => AuthPhase::Over(None),
        }
    }
}

/// How Plex and the user behave during a sign-in.
pub struct Visit {
    /// The number and the code of the pin that Plex gives, if it gives one.
    pub pin: Option<(u64, Seq<char>)>,
    /// What Plex gives to each question about the pin of a number, the first
    /// question being numbered 0.
    pub tokens: spec_fn(u64, nat) -> Option<Seq<char>>,
    /// How many waits and questions, taken together, end before the time is up.
    pub patience: nat,
}

impl Visit {
    /// How the next action goes, after this many waits and questions.
    pub open spec fn answer(self, phase: AuthPhaseView, ended: nat) -> AuthEventView {
        match phase {
            AuthPhaseView::Requesting => AuthEventView::Pin(self.pin),
            AuthPhaseView::Showing(_, _) => AuthEventView::Shown,
            AuthPhaseView::Waiting(_) => if ended < self.patience {
                AuthEventView::Slept
            } else {
                AuthEventView::TimedOut
            },
            AuthPhaseView::Checking(pin) => if ended < self.patience {
                AuthEventView::Checked((self.tokens)(pin, ended / 2))
            } else {
                AuthEventView::TimedOut
            },
            _ => AuthEventView::Stored,
        }
    }

    /// The token that the user gets: the first that Plex gives in time for this
    /// pin, to the question numbered `from` or a later one.
    pub open spec fn first_token(self, pin: u64, from: nat) -> Option<Seq<char>>
        decreases self.patience - 2 * from,
    {
        if 2 * from + 2 > self.patience {
            None
        } else if (self.tokens)(pin, from) is Some {
            (self.tokens)(pin, from)
        } else {
            self.first_token(pin, from + 1)
        }
    }

    /// What is done from the wait before the question numbered `from` on: a wait
    /// and a question about this pin, again and again, until there is a token,
    /// which is stored, or the time is up.
    pub open spec fn questions(self, pin: u64, from: nat) -> Seq<AuthActionView>
        decreases self.patience - 2 * from,
    {
        let wait = AuthActionView::Sleep(AUTH_POLL_INTERVAL);
        let question = AuthActionView::CheckPin(pin);
        if 2 * from + 1 > self.patience {
            seq![wait]
        } else if 2 * from + 2 > self.patience {
            seq![wait, question]
        } else {
            match (self.tokens)(pin, from) {
                Some(token) => seq![wait, question, AuthActionView::Store(token)],
                None => seq![wait, question] + self.questions(pin, from + 1),
            }
        }
    }
}

/// How many waits and questions have ended once the next action has.
pub open spec fn ended_after(phase: AuthPhaseView, ended: nat) -> nat {
    if phase is Waiting || phase is Checking {
        ended + 1
    } else {
        ended
    }
}

/// Where a sign-in stands after at most `rounds` further actions, of which the
/// first comes after `ended` waits and questions.
pub open spec fn visit(v: Visit, phase: AuthPhaseView, ended: nat, rounds: nat) -> AuthPhaseView
    decreases rounds,
{
    if rounds == 0 || phase is Over {
        phase
    } else {
        visit(
            v,
            auth_step(phase, v.answer(phase, ended)),
            ended_after(phase, ended),
            (rounds - 1) as nat,
        )
    }
}

/// What is done, one action after the other, in at most `rounds` actions of a
/// sign-in of the program of this name, of which the first comes after `ended`
/// waits and questions.
pub open spec fn actions(
    v: Visit,
    client_id: Seq<char>,
    phase: AuthPhaseView,
    ended: nat,
    rounds: nat,
) -> Seq<AuthActionView>
    decreases rounds,
{
    if rounds == 0 || phase is Over {
        seq![]
    } else {
        seq![auth_action(phase, client_id)] + actions(
            v,
            client_id,
            auth_step(phase, v.answer(phase, ended)),
            ended_after(phase, ended),
            (rounds - 1) as nat,
        )
    }
}

/// The outcomes that `visit` goes by are such as the sign-in waits for.
pub proof fn law_answers_are_awaited(v: Visit, phase: AuthPhaseView, ended: nat)
    requires
        !(phase is Over),
    ensures
        auth_awaits(phase, v.answer(phase, ended)),
{
}

proof fn lemma_waiting(v: Visit, client_id: Seq<char>, pin: u64, from: nat, rounds: nat)
    requires
        2 * from <= v.patience,
        rounds >= v.patience - 2 * from + 2,
    ensures
        visit(v, AuthPhaseView::Waiting(pin), 2 * from, rounds) == AuthPhaseView::Over(
            v.first_token(pin, from),
        ),
        actions(v, client_id, AuthPhaseView::Waiting(pin), 2 * from, rounds) == v.questions(
            pin,
            from,
        ),
    decreases v.patience - 2 * from,
{
    reveal_with_fuel(visit, 5);
    reveal_with_fuel(actions, 5);
    assert((2 * from + 1) / 2 == from);
    if 2 * from + 2 <= v.patience && (v.tokens)(pin, from) is None {
        lemma_waiting(v, client_id, pin, from + 1, (rounds - 2) as nat);
    }
    assert(actions(v, client_id, AuthPhaseView::Waiting(pin), 2 * from, rounds) =~= v.questions(
        pin,
        from,
    ));
}

/// A sign-in comes to an end, and with the first token that Plex gives in time,
/// if it gives a pin and such a token; it ends without a token otherwise.
pub proof fn law_sign_in(v: Visit, rounds: nat)
    requires
        rounds >= v.patience + 4,
    ensures
        visit(v, AuthPhaseView::Requesting, 0, rounds) == AuthPhaseView::Over(
            match v.pin {
                Some((pin, _)) => v.first_token(pin, 0),
                None => None,
            },
        ),
{
    reveal_with_fuel(visit, 3);
    if let Some((pin, _)) = v.pin {
        lemma_waiting(v, seq![], pin, 0, (rounds - 2) as nat);
    }
}

/// What a sign-in does: it asks for a pin, and if there is one, it shows the
/// address for its code and then asks about this pin and no other, each time
/// after a wait, until there is a token or the time is up.
pub proof fn law_sign_in_actions(v: Visit, client_id: Seq<char>, rounds: nat)
    requires
        rounds >= v.patience + 4,
    ensures
        actions(v, client_id, AuthPhaseView::Requesting, 0, rounds) == (match v.pin {
            Some((pin, code)) => seq![
                AuthActionView::RequestPin,
                AuthActionView::Show(auth_address(client_id, code)),
            ] + v.questions(pin, 0),
            None => seq![AuthActionView::RequestPin],
        }),
{
    reveal_with_fuel(actions, 3);
    if let Some((pin, _)) = v.pin {
        lemma_waiting(v, client_id, pin, 0, (rounds - 2) as nat);
    }
}

proof fn lemma_questions(v: Visit, pin: u64, from: nat, i: int)
    requires
        0 <= i < v.questions(pin, from).len(),
    ensures
        v.questions(pin, from)[0] is Sleep,
        !(v.questions(pin, from)[i] is RequestPin),
        v.questions(pin, from)[i] is CheckPin ==> i > 0 && v.questions(pin, from)[i]
            == AuthActionView::CheckPin(pin) && v.questions(pin, from)[i - 1]
            == AuthActionView::Sleep(AUTH_POLL_INTERVAL),
        v.questions(pin, from)[i] is Store ==> i == v.questions(pin, from).len() - 1
            && v.first_token(pin, from) == Some(v.questions(pin, from)[i]->Store_0),
    decreases v.patience - 2 * from,
{
    if 2 * from + 2 <= v.patience && (v.tokens)(pin, from) is None && i >= 2 {
        lemma_questions(v, pin, from + 1, i - 2);
    }
}

/// Plex is asked only about the pin that was requested, and only right after a
/// wait; and once a token is stored, which is the one that the sign-in ends with,
/// nothing more is done.
pub proof fn law_questions_are_about_the_pin(v: Visit, client_id: Seq<char>, rounds: nat, i: int)
    requires
        rounds >= v.patience + 4,
        0 <= i < actions(v, client_id, AuthPhaseView::Requesting, 0, rounds).len(),
    ensures
        ({
            let done = actions(v, client_id, AuthPhaseView::Requesting, 0, rounds);
            &&& done[i] is RequestPin <==> i == 0
            &&& done[i] matches AuthActionView::CheckPin(asked) ==> i > 0 && (v.pin matches Some(
                (pin, _),
            ) && asked == pin) && done[i - 1] == AuthActionView::Sleep(AUTH_POLL_INTERVAL)
            &&& done[i] matches AuthActionView::Store(token) ==> i == done.len() - 1 && visit(
                v,
                AuthPhaseView::Requesting,
                0,
                rounds,
            ) == AuthPhaseView::Over(Some(token))
        }),
{
    law_sign_in(v, rounds);
    law_sign_in_actions(v, client_id, rounds);
    if let Some((pin, _)) = v.pin {
        if i >= 2 {
            lemma_questions(v, pin, 0, i - 2);
        }
    }
}

/// The characters that percent-encoding leaves: letters, digits and percent
/// signs.
pub open spec fn is_safe(c: char) -> bool {
    ||| c == '%'
    ||| '0' <= c && c <= '9'
    ||| 'A' <= c && c <= 'Z'
    ||| 'a' <= c && c <= 'z'
}

proof fn lemma_encoded_byte(byte: u8)
    ensures
        encoded_byte(byte).len() > 0,
        forall|i: int| 0 <= i < encoded_byte(byte).len() ==> is_safe(#[trigger] encoded_byte(byte)[i]),
        encoded_byte(byte).len() == (if encoded_byte(byte)[0] == '%' {
            3nat
        } else {
            1
        }),
{
}

proof fn lemma_encoded_byte_tells(a: u8, b: u8)
    requires
        encoded_byte(a) == encoded_byte(b),
    ensures
        a == b,
{
    lemma_encoded_byte(a);
    lemma_encoded_byte(b);
    if encoded_byte(a).len() == 3 {
        assert(encoded_byte(a)[1] == encoded_byte(b)[1]);
        assert(encoded_byte(a)[2] == encoded_byte(b)[2]);
    } else {
        assert(encoded_byte(a)[0] == encoded_byte(b)[0]);
    }
}

/// What is percent-encoded holds letters, digits and percent signs only, so that
/// it cannot be taken for another part of an address.
pub proof fn law_encoded_text_is_safe(bytes: Seq<u8>)
    ensures
        forall|i: int|
            0 <= i < percent_encoded(bytes).len() ==> is_safe(#[trigger] percent_encoded(bytes)[i]),
    decreases bytes.len(),
{
    if bytes.len() > 0 {
        lemma_encoded_byte(bytes.first());
        law_encoded_text_is_safe(bytes.drop_first());
        let head = encoded_byte(bytes.first());
        let tail = percent_encoded(bytes.drop_first());
        assert forall|i: int| 0 <= i < percent_encoded(bytes).len() implies is_safe(
            #[trigger] percent_encoded(bytes)[i],
        ) by {
            if i < head.len() {
                assert(percent_encoded(bytes)[i] == head[i]);
            } else {
                assert(percent_encoded(bytes)[i] == tail[i - head.len()]);
            }
        }
    }
}

/// Different bytes never look the same once they are percent-encoded.
pub proof fn law_encoding_loses_nothing(a: Seq<u8>, b: Seq<u8>)
    requires
        percent_encoded(a) == percent_encoded(b),
    ensures
        a == b,
    decreases a.len(),
{
    if a.len() > 0 {
        lemma_encoded_byte(a.first());
    }
    if b.len() > 0 {
        lemma_encoded_byte(b.first());
    }
    if a.len() > 0 && b.len() > 0 {
        let (head_a, head_b) = (encoded_byte(a.first()), encoded_byte(b.first()));
        let (tail_a, tail_b) = (percent_encoded(a.drop_first()), percent_encoded(b.drop_first()));
        assert(percent_encoded(a)[0] == head_a[0]);
        assert(percent_encoded(b)[0] == head_b[0]);
        let n = head_a.len() as int;
        assert(percent_encoded(a).take(n) =~= head_a);
        assert(percent_encoded(b).take(n) =~= head_b);
        assert(percent_encoded(a).skip(n) =~= tail_a);
        assert(percent_encoded(b).skip(n) =~= tail_b);
        lemma_encoded_byte_tells(a.first(), b.first());
        law_encoding_loses_nothing(a.drop_first(), b.drop_first());
        assert(a =~= seq![a.first()] + a.drop_first());
        assert(b =~= seq![b.first()] + b.drop_first());
    } else {
        assert(a.len() > 0 ==> percent_encoded(a).len() > 0);
        assert(b.len() > 0 ==> percent_encoded(b).len() > 0);
        assert(a =~= b);
    }
}

/// The addresses of two codes differ where the codes do.
pub proof fn law_address_tells_codes_apart(client_id: Seq<char>, a: Seq<char>, b: Seq<char>)
    requires
        auth_address(client_id, a) == auth_address(client_id, b),
    ensures
        a == b,
{
    let front = "https://app.plex.tv/auth#?clientID="@ + percent_encoded(encode_utf8(client_id))
        + "&code="@;
    let back = "&context%5Bdevice%5D%5Bproduct%5D=Presence%20for%20Plex"@;
    let (code_a, code_b) = (percent_encoded(encode_utf8(a)), percent_encoded(encode_utf8(b)));
    let address = auth_address(client_id, a);
    let n = front.len() as int;
    assert(address.len() == n + code_a.len() + back.len());
    assert(auth_address(client_id, b).len() == n + code_b.len() + back.len());
    assert(address.subrange(n, n + code_a.len()) =~= code_a);
    assert(auth_address(client_id, b).subrange(n, n + code_b.len()) =~= code_b);
    law_encoding_loses_nothing(encode_utf8(a), encode_utf8(b));
    encode_utf8_decode_utf8(a);
    encode_utf8_decode_utf8(b);
}

} // verus!
