//! How the program answers to what happens.
use crate::config::Config;
use crate::media::{MediaType, PlaybackState};
use crate::playback;
use crate::playback::{MediaAction, MediaUpdate};
use crate::text;
use crate::tray::{TrayAction, TrayCommand, TrayEvent, TrayState, TrayStatus};
use vstd::prelude::*;

verus! {

/// Media is shown on Discord exactly if the setting of its own kind is on,
/// whatever the other settings are and whatever state it is in. What is shown is
/// cleared exactly if nothing is played any more.
pub proof fn law_media(
    update: MediaUpdate,
    settings: Config,
    answer: (TrayStatus, MediaAction),
)
    requires
        call_ensures(playback::handle_media, (update, &settings), answer),
    ensures
        update is Stopped <==> answer.1 == MediaAction::Clear,
        update matches MediaUpdate::Playing { media_type, .. } ==> {
            &&& media_type == MediaType::Movie ==> (answer.1 == MediaAction::Show
                <==> settings.enable_movies)
            &&& media_type == MediaType::Episode ==> (answer.1 == MediaAction::Show
                <==> settings.enable_tv_shows)
            &&& media_type == MediaType::Track ==> (answer.1 == MediaAction::Show
                <==> settings.enable_music)
        },
{
}

/// The tray learns of every update, whether Discord does or not: of the state of
/// the media, or that nothing is played.
pub proof fn law_status(update: MediaUpdate, settings: Config, answer: (TrayStatus, MediaAction))
    requires
        call_ensures(playback::handle_media, (update, &settings), answer),
    ensures
        update is Stopped ==> answer.0 == TrayStatus::Idle,
        update matches MediaUpdate::Playing { state, .. } ==> answer.0 == TrayStatus::Media(state),
{
}

/// The status of media is the state that it is in.
pub proof fn law_status_of_state(state: PlaybackState, status: TrayStatus)
    requires
        call_ensures(<TrayStatus as From<PlaybackState>>::from, (state,), status),
    ensures
        status == TrayStatus::Media(state),
{
}

/// At the start no sign-in goes on.
pub proof fn law_tray_starts(monitoring: bool, tray: TrayState)
    requires
        call_ensures(TrayState::new, (monitoring,), tray),
    ensures
        !tray.auth_in_progress,
        tray.monitoring == monitoring,
{
}

/// A sign-in that gave a token is over. The tray offers another one and shows
/// that nothing is played; the watching that goes on, if some does, is put to an
/// end, and only then is watching begun, with that token.
pub proof fn law_signed_in(
    tray: &mut TrayState,
    token: String,
    actions: Vec<TrayAction>,
)
    requires
        call_ensures(
            TrayState::handle,
            (tray, TrayEvent::AuthFinished(Some(token))),
            actions,
        ),
    ensures
        !final(tray).auth_in_progress,
        final(tray).monitoring,
        actions@.len() == (if old(tray).monitoring { 4int } else { 3 }),
        actions@[0] == TrayAction::SetAuthText("Reauthenticate"),
        actions@[1] == TrayAction::SetStatus(TrayStatus::Idle),
        old(tray).monitoring ==> actions@[2] is CancelMonitoring,
        actions@.last() == TrayAction::StartMonitoring(token),
{
}

/// A sign-in that gave no token is over. Watching goes on if it did, and where
/// it does not, the tray says that nobody has signed in.
pub proof fn law_not_signed_in(tray: &mut TrayState, actions: Vec<TrayAction>)
    requires
        call_ensures(TrayState::handle, (tray, TrayEvent::AuthFinished(None)), actions),
    ensures
        !final(tray).auth_in_progress,
        final(tray).monitoring == old(tray).monitoring,
        old(tray).monitoring ==> actions@.len() == 0,
        !old(tray).monitoring ==> actions@.len() == 1 && actions@[0] == TrayAction::SetStatus(
            TrayStatus::NotAuthenticated,
        ),
{
}

/// A status is shown as it comes, and changes nothing else.
pub proof fn law_status_is_shown(
    tray: &mut TrayState,
    status: TrayStatus,
    actions: Vec<TrayAction>,
)
    requires
        call_ensures(TrayState::handle, (tray, TrayEvent::Status(status)), actions),
    ensures
        *final(tray) == *old(tray),
        actions@.len() == 1,
        actions@[0] == TrayAction::SetStatus(status),
{
}

/// A sign-in is begun exactly if none goes on; afterwards one does. Watching is
/// not touched. A request to leave is followed, whatever goes on.
pub proof fn law_commands_are_followed(
    tray: &mut TrayState,
    command: TrayCommand,
    actions: Vec<TrayAction>,
)
    requires
        call_ensures(TrayState::handle, (tray, TrayEvent::Command(command)), actions),
    ensures
        final(tray).monitoring == old(tray).monitoring,
        command == TrayCommand::Authenticate ==> {
            &&& final(tray).auth_in_progress
            &&& old(tray).auth_in_progress ==> actions@.len() == 0
            &&& !old(tray).auth_in_progress ==> actions@.len() == 1 && actions@[0] is StartAuth
        },
        command == TrayCommand::Quit ==> {
            &&& *final(tray) == *old(tray)
            &&& actions@.len() == 1 && actions@[0] is Quit
        },
{
}

/// Texts are the same exactly if they hold the same characters.
pub proof fn law_same_text(a: &str, b: &str, same: bool)
    requires
        call_ensures(text::same_text, (a, b), same),
    ensures
        same <==> a@ == b@,
{
}

/// The number that a sequence of decimal digits stands for.
pub open spec fn digits_value(digits: Seq<char>) -> int
    decreases digits.len(),
{
    if digits.len() == 0 {
        0
    } else {
        10 * digits_value(digits.drop_last()) + (digits.last() as int - '0' as int)
    }
}

pub(crate) proof fn lemma_numeral(n: nat)
    ensures
        digits_value(text::numeral(n)) == n,
        text::numeral(n).len() > 0,
        n > 0 ==> text::numeral(n)[0] != '0',
        n < 10 ==> text::numeral(n).len() == 1,
        forall|i: int|
            0 <= i < text::numeral(n).len() ==> '0' <= #[trigger] text::numeral(n)[i]
                && text::numeral(n)[i] <= '9',
    decreases n,
{
    reveal_with_fuel(digits_value, 2);
    let digits = text::numeral(n);
    if n < 10 {
        assert(digits.drop_last() =~= seq![]);
    } else {
        lemma_numeral(n / 10);
        assert(digits.drop_last() =~= text::numeral(n / 10));
    }
}

/// A number is written with decimal digits that stand for it, the first of which
/// is a zero for zero only.
pub proof fn law_decimal(n: u32, numeral: String)
    requires
        call_ensures(text::decimal, (n,), numeral),
    ensures
        digits_value(numeral@) == n,
        forall|i: int|
            0 <= i < numeral@.len() ==> '0' <= #[trigger] numeral@[i] && numeral@[i] <= '9',
        numeral@.len() > 0,
        n > 0 ==> numeral@[0] != '0',
        n < 10 ==> numeral@.len() == 1,
{
    lemma_numeral(n as nat);
}

} // verus!
