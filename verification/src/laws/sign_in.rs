//! How a sign-in goes.
use crate::auth;
use crate::auth::{AuthAction, AuthEvent, AuthPhase};
use vstd::prelude::*;
use vstd::utf8::*;

verus! {

/// The user has five minutes, and Plex is asked every two seconds.
pub proof fn law_patience()
    ensures
        auth::AUTH_TIMEOUT == 5 * 60,
        auth::AUTH_POLL_INTERVAL == 2,
{
}

/// The bytes that percent-encoded text stands for: a percent sign and the two
/// digits behind it are one byte, any other character is a byte of its own.
pub open spec fn percent_decoded(encoded: Seq<char>) -> Seq<u8>
    decreases encoded.len(),
{
    if encoded.len() == 0 {
        seq![]
    } else if encoded[0] == '%' && encoded.len() >= 3 {
        seq![(16 * hex_value(encoded[1]) + hex_value(encoded[2])) as u8] + percent_decoded(
            encoded.skip(3),
        )
    } else {
        seq![encoded[0] as u8] + percent_decoded(encoded.skip(1))
    }
}

/// The number that a hexadecimal digit stands for.
pub open spec fn hex_value(digit: char) -> int {
    if digit <= '9' {
        digit as int - '0' as int
    } else {
        digit as int - 'A' as int + 10
    }
}

proof fn lemma_byte_is_decoded(byte: u8, rest: Seq<char>)
    ensures
        percent_decoded(auth::encoded_byte(byte) + rest) == seq![byte] + percent_decoded(rest),
{
    let encoded = auth::encoded_byte(byte) + rest;
    if auth::is_alphanumeric(byte) {
        assert(encoded[0] == byte as char);
        assert(encoded.skip(1) =~= rest);
    } else {
        assert(encoded[0] == '%');
        assert(encoded[1] == auth::hex_digit(byte as int / 16));
        assert(encoded[2] == auth::hex_digit(byte as int % 16));
        assert(encoded.skip(3) =~= rest);
    }
}

/// Percent-encoding can be undone: the same bytes come back.
pub proof fn law_encoding_is_undone(bytes: Seq<u8>)
    ensures
        percent_decoded(auth::percent_encoded(bytes)) == bytes,
    decreases bytes.len(),
{
    if bytes.len() > 0 {
        lemma_byte_is_decoded(bytes.first(), auth::percent_encoded(bytes.drop_first()));
        law_encoding_is_undone(bytes.drop_first());
        assert(seq![bytes.first()] + bytes.drop_first() =~= bytes);
    }
}

/// The address is that of Plex's sign-in page. It names the program and the code,
/// both percent-encoded, and then the product.
pub proof fn law_address(client_id: &str, code: &str, url: String)
    requires
        call_ensures(auth::auth_url, (client_id, code), url),
    ensures
        url@ == "https://app.plex.tv/auth#?clientID="@ + auth::percent_encoded(
            encode_utf8(client_id@),
        ) + "&code="@ + auth::percent_encoded(encode_utf8(code@))
            + "&context%5Bdevice%5D%5Bproduct%5D=Presence%20for%20Plex"@,
        percent_decoded(auth::percent_encoded(encode_utf8(client_id@))) == encode_utf8(client_id@),
        percent_decoded(auth::percent_encoded(encode_utf8(code@))) == encode_utf8(code@),
{
    law_encoding_is_undone(encode_utf8(client_id@));
    law_encoding_is_undone(encode_utf8(code@));
}

/// Whatever an action may come to, the sign-in takes it: a pin or none, an address
/// that was shown, a wait that ended in time or not, a token or none in time, and a
/// token that was stored.
pub proof fn law_takes_outcomes(phase: AuthPhase, event: AuthEvent)
    requires
        match phase {
            AuthPhase::Requesting => event is Pin,
            AuthPhase::Showing(_, _) => event is Shown,
            AuthPhase::Waiting(_) => event is Slept || event is TimedOut,
            AuthPhase::Checking(_) => event is Checked || event is TimedOut,
            AuthPhase::Storing(_) => event is Stored,
            AuthPhase::Over(_) => false,
        },
    ensures
        call_requires(AuthPhase::advance, (phase, event)),
{
    assert(auth::auth_awaits(phase@, event@));
}

/// A sign-in begins with the request for a pin.
pub proof fn law_begin(phase: AuthPhase, client_id: &str, action: AuthAction)
    requires
        call_ensures(AuthPhase::begin, (), phase),
        call_ensures(AuthPhase::action, (&phase, client_id), action),
    ensures
        phase is Requesting,
        action is RequestPin,
{
    assert(phase@ is Requesting);
}

/// Without a pin the sign-in is over, and has no token. With one, the address
/// for its code is shown.
pub proof fn law_pin(
    phase: AuthPhase,
    event: AuthEvent,
    next: AuthPhase,
    client_id: &str,
    action: AuthAction,
    code: &str,
    url: String,
)
    requires
        phase is Requesting,
        call_ensures(AuthPhase::advance, (phase, event), next),
        call_ensures(AuthPhase::action, (&next, client_id), action),
        event matches AuthEvent::Pin(Some((_, given))) ==> given@ == code@,
        call_ensures(auth::auth_url, (client_id, code), url),
    ensures
        event matches AuthEvent::Pin(None) ==> action matches AuthAction::Finish(None),
        event matches AuthEvent::Pin(Some((pin, given))) ==> {
            &&& next matches AuthPhase::Showing(number, text) && number == pin && text@ == given@
            &&& action matches AuthAction::Show(shown) && shown@ == url@
        },
{
    assert(phase@ is Requesting);
}

/// Once the address was shown, there is a wait of two seconds, and after it a
/// question about the pin that was given.
pub proof fn law_waits(
    phase: AuthPhase,
    event: AuthEvent,
    next: AuthPhase,
    client_id: &str,
    action: AuthAction,
)
    requires
        call_ensures(AuthPhase::advance, (phase, event), next),
        call_ensures(AuthPhase::action, (&next, client_id), action),
    ensures
        phase matches AuthPhase::Showing(pin, _) ==> next == AuthPhase::Waiting(pin) && action
            == AuthAction::Sleep(2),
        phase matches AuthPhase::Waiting(pin) ==> {
            &&& event is Slept ==> next == AuthPhase::Checking(pin) && action
                == AuthAction::CheckPin(pin)
            &&& event is TimedOut ==> action matches AuthAction::Finish(None)
        },
{
    assert(phase@ is Showing || phase@ is Waiting || !(phase is Showing || phase is Waiting));
}

/// A question that is answered without a token is put again, after a wait of two
/// seconds and about the same pin. A token is stored as it was given, and the
/// sign-in then ends with it. If the time is up, it ends without one.
pub proof fn law_questions(
    phase: AuthPhase,
    event: AuthEvent,
    next: AuthPhase,
    client_id: &str,
    action: AuthAction,
)
    requires
        call_ensures(AuthPhase::advance, (phase, event), next),
        call_ensures(AuthPhase::action, (&next, client_id), action),
    ensures
        phase matches AuthPhase::Checking(pin) ==> {
            &&& event matches AuthEvent::Checked(None) ==> next == AuthPhase::Waiting(pin)
                && action == AuthAction::Sleep(2)
            &&& event matches AuthEvent::Checked(Some(token)) ==> {
                &&& next matches AuthPhase::Storing(kept) && kept@ == token@
                &&& action matches AuthAction::Store(stored) && stored@ == token@
            }
            &&& event is TimedOut ==> action matches AuthAction::Finish(None)
        },
        phase matches AuthPhase::Storing(token) ==> action matches AuthAction::Finish(Some(got))
            && got@ == token@,
{
    assert(phase@ is Checking || phase@ is Storing || !(phase is Checking || phase is Storing));
}

} // verus!
