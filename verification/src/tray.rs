//! How the tray icon answers to what happens.
use crate::media::PlaybackState;
use vstd::prelude::*;

verus! {

/// What the tray says about the program.
#[derive(Debug, Clone, Copy, PartialEq, Eq, Structural)]
pub enum TrayStatus {
    /// The user has not signed in.
    NotAuthenticated,
    /// Nothing is played.
    Idle,
    /// Media is in this state.
    Media(PlaybackState),
}

impl vstd::std_specs::convert::FromSpecImpl<PlaybackState> for TrayStatus {
    open spec fn obeys_from_spec() -> bool {
        true
    }

    open spec fn from_spec(state: PlaybackState) -> Self {
        TrayStatus::Media(state)
    }
}

impl From<PlaybackState> for TrayStatus {
    fn from(state: PlaybackState) -> (status: Self) {
        TrayStatus::Media(state)
    }
}

/// What the user asks for through the tray.
#[derive(Debug, Clone, Copy, PartialEq, Eq, Structural)]
pub enum TrayCommand {
    Authenticate,
    Quit,
}

/// What the tray is told.
#[derive(Debug)]
pub enum TrayEvent {
    /// A sign-in ended, with this token or without one.
    AuthFinished(Option<String>),
    /// The status changed.
    Status(TrayStatus),
    /// The user asked for something.
    Command(TrayCommand),
}

/// What is to be done, each after the other.
#[derive(Debug)]
pub enum TrayAction {
    /// Label the item for the sign-in.
    SetAuthText(&'static str),
    /// Show a status.
    SetStatus(TrayStatus),
    /// Stop watching the servers that are watched.
    CancelMonitoring,
    /// Watch the servers that this token opens.
    StartMonitoring(String),
    /// Begin a sign-in.
    StartAuth,
    /// Leave.
    Quit,
}

/// What the tray keeps in mind.
#[derive(Debug, Clone, Copy, PartialEq, Eq, Structural)]
pub struct TrayState {
    /// A sign-in has begun and not ended yet.
    pub auth_in_progress: bool,
    /// Servers are watched.
    pub monitoring: bool,
}

/// The state that an event leads to.
pub open spec fn tray_step(s: TrayState, event: TrayEvent) -> TrayState {
    match event {
        TrayEvent::AuthFinished(token) => TrayState {
            auth_in_progress: false,
            monitoring: s.monitoring || token is Some,
        },
        TrayEvent::Command(TrayCommand::Authenticate) => TrayState { auth_in_progress: true, ..s },
        _ => s,
    }
}

/// What is done at an event.
pub open spec fn tray_actions(s: TrayState, event: TrayEvent) -> Seq<TrayAction> {
    match event {
        TrayEvent::AuthFinished(Some(token)) => {
            let shown = seq![
                TrayAction::SetAuthText("Reauthenticate"),
                TrayAction::SetStatus(TrayStatus::Idle),
            ];
            if s.monitoring {
                shown + seq![TrayAction::CancelMonitoring, TrayAction::StartMonitoring(token)]
            } else {
                shown + seq![TrayAction::StartMonitoring(token)]
            }
        },
        TrayEvent::AuthFinished(None) => if s.monitoring {
            seq![]
        } else {
            seq![TrayAction::SetStatus(TrayStatus::NotAuthenticated)]
        },
        TrayEvent::Status(status) => seq![TrayAction::SetStatus(status)],
        TrayEvent::Command(TrayCommand::Quit) => seq![TrayAction::Quit],
        TrayEvent::Command(TrayCommand::Authenticate) => if s.auth_in_progress {
            seq![]
        } else {
            seq![TrayAction::StartAuth]
        },
    }
}

impl TrayState {
    /// The tray at the start, where servers are watched if there is a token.
    pub fn new(monitoring: bool) -> (state: TrayState)
        ensures
            state == (TrayState { auth_in_progress: false, monitoring }),
    {
        TrayState { auth_in_progress: false, monitoring }
    }

    /// Takes an event, and hands out what is to be done. A new token puts an end
    /// to the watching that the old one began; a sign-in is not begun while
    /// another goes on.
    pub fn handle(&mut self, event: TrayEvent) -> (actions: Vec<TrayAction>)
        ensures
            *final(self) == tray_step(*old(self), event),
            actions@ == tray_actions(*old(self), event),
    {
        match event {
            TrayEvent::AuthFinished(token) => {
                self.auth_in_progress = false;
                let mut actions: Vec<TrayAction> = Vec::new();
                match token {
                    Some(token) => {
                        actions.push(TrayAction::SetAuthText("Reauthenticate"));
                        actions.push(TrayAction::SetStatus(TrayStatus::Idle));
                        if self.monitoring {
                            actions.push(TrayAction::CancelMonitoring);
                        }
                        self.monitoring = true;
                        actions.push(TrayAction::StartMonitoring(token));
                    },
                    None => {
                        if !self.monitoring {
                            actions.push(TrayAction::SetStatus(TrayStatus::NotAuthenticated));
                        }
                    },
                }
                actions
            },
            TrayEvent::Status(status) => vec![TrayAction::SetStatus(status)],
            TrayEvent::Command(TrayCommand::Quit) => vec![TrayAction::Quit],
            TrayEvent::Command(TrayCommand::Authenticate) => if self.auth_in_progress {
                Vec::new()
            } else {
                self.auth_in_progress = true;
                vec![TrayAction::StartAuth]
            },
        }
    }
}

/// The state of the tray after some events.
pub open spec fn tray_after(s: TrayState, events: Seq<TrayEvent>) -> TrayState
    decreases events.len(),
{
    if events.len() == 0 {
        s
    } else {
        tray_step(tray_after(s, events.drop_last()), events.last())
    }
}

/// What is done at some events, each after the other.
pub open spec fn tray_history(s: TrayState, events: Seq<TrayEvent>) -> Seq<TrayAction>
    decreases events.len(),
{
    if events.len() == 0 {
        seq![]
    } else {
        tray_history(s, events.drop_last()) + tray_actions(
            tray_after(s, events.drop_last()),
            events.last(),
        )
    }
}

/// How many sign-ins were begun.
pub open spec fn auths_started(actions: Seq<TrayAction>) -> nat {
    actions.filter(|action: TrayAction| action is StartAuth).len()
}

/// How often watching was begun.
pub open spec fn monitors_started(actions: Seq<TrayAction>) -> nat {
    actions.filter(|action: TrayAction| action is StartMonitoring).len()
}

/// How often watching was put to an end.
pub open spec fn monitors_cancelled(actions: Seq<TrayAction>) -> nat {
    actions.filter(|action: TrayAction| action is CancelMonitoring).len()
}

/// How many sign-ins ended.
pub open spec fn auths_finished(events: Seq<TrayEvent>) -> nat {
    events.filter(|event: TrayEvent| event is AuthFinished).len()
}

/// A sign-in ends only while one goes on.
pub open spec fn auths_paired(s: TrayState, events: Seq<TrayEvent>) -> bool {
    forall|i: int|
        0 <= i < events.len() && (#[trigger] events[i]) is AuthFinished ==> tray_after(
            s,
            events.take(i),
        ).auth_in_progress
}

/// At most one sign-in goes on at any time: of those begun, all have ended but
/// the one that goes on, if one does.
pub proof fn law_one_auth_at_a_time(s: TrayState, events: Seq<TrayEvent>)
    requires
        !s.auth_in_progress,
        auths_paired(s, events),
    ensures
        auths_started(tray_history(s, events)) == auths_finished(events) + (if tray_after(
            s,
            events,
        ).auth_in_progress {
            1nat
        } else {
            0
        }),
    decreases events.len(),
{
    let started = |action: TrayAction| action is StartAuth;
    let finished = |event: TrayEvent| event is AuthFinished;
    reveal_with_fuel(Seq::filter, 6);
    if events.len() > 0 {
        let earlier = events.drop_last();
        assert(events.take(events.len() - 1) =~= earlier);
        assert forall|i: int| 0 <= i < earlier.len() && (#[trigger] earlier[i]) is AuthFinished implies tray_after(
            s,
            earlier.take(i),
        ).auth_in_progress by {
            assert(events[i] is AuthFinished);
            assert(events.take(i) =~= earlier.take(i));
        }
        law_one_auth_at_a_time(s, earlier);
        let now = tray_after(s, earlier);
        let actions = tray_actions(now, events.last());
        Seq::filter_distributes_over_add(tray_history(s, earlier), actions, started);
        assert(events =~= earlier + seq![events.last()]);
        Seq::filter_distributes_over_add(earlier, seq![events.last()], finished);
        assert(seq![events.last()].drop_last() =~= seq![]);
        lemma_actions_counted(now, events.last());
    }
}

proof fn lemma_actions_counted(s: TrayState, event: TrayEvent)
    ensures
        auths_started(tray_actions(s, event)) == (if event == TrayEvent::Command(
            TrayCommand::Authenticate,
        ) && !s.auth_in_progress {
            1nat
        } else {
            0
        }),
        monitors_started(tray_actions(s, event)) == (if event matches TrayEvent::AuthFinished(
            Some(_),
        ) {
            1nat
        } else {
            0
        }),
        monitors_cancelled(tray_actions(s, event)) == (if event matches TrayEvent::AuthFinished(
            Some(_),
        ) && s.monitoring {
            1nat
        } else {
            0
        }),
{
    reveal_with_fuel(Seq::filter, 6);
    let actions = tray_actions(s, event);
    let n = actions.len() as int;
    if n >= 1 {
        assert(actions.drop_last() =~= actions.take(n - 1));
    }
    if n >= 2 {
        assert(actions.take(n - 1).drop_last() =~= actions.take(n - 2));
    }
    if n >= 3 {
        assert(actions.take(n - 2).drop_last() =~= actions.take(n - 3));
    }
    if n >= 4 {
        assert(actions.take(n - 3).drop_last() =~= actions.take(n - 4));
    }
}

/// Servers are watched for at most one token at any time: all watching that was
/// begun has been put to an end but the one that goes on, if one does.
pub proof fn law_one_monitor_at_a_time(s: TrayState, events: Seq<TrayEvent>)
    ensures
        monitors_started(tray_history(s, events)) + (if s.monitoring {
            1nat
        } else {
            0
        }) == monitors_cancelled(tray_history(s, events)) + (if tray_after(s, events).monitoring {
            1nat
        } else {
            0
        }),
    decreases events.len(),
{
    let started = |action: TrayAction| action is StartMonitoring;
    let cancelled = |action: TrayAction| action is CancelMonitoring;
    reveal_with_fuel(Seq::filter, 2);
    if events.len() > 0 {
        let earlier = events.drop_last();
        law_one_monitor_at_a_time(s, earlier);
        let now = tray_after(s, earlier);
        let actions = tray_actions(now, events.last());
        Seq::filter_distributes_over_add(tray_history(s, earlier), actions, started);
        Seq::filter_distributes_over_add(tray_history(s, earlier), actions, cancelled);
        lemma_actions_counted(now, events.last());
    }
}

} // verus!
