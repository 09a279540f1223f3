//! The sign-in, the search for servers, the tray and the media updates.
use presence_for_plex::auth::{auth_url, AuthAction, AuthEvent, AuthPhase, AUTH_TIMEOUT};
use presence_for_plex::config::Config;
use presence_for_plex::discovery::{
    begin_monitoring, monitor_targets, Discovery, DiscoveryAction, DiscoveryEvent, MonitorStart,
    ServerConnection, ServerEntry,
};
use presence_for_plex::media::{MediaType, PlaybackState};
use presence_for_plex::playback::{handle_media, MediaAction, MediaUpdate};
use presence_for_plex::text::{decimal, same_text};
use presence_for_plex::tray::{TrayAction, TrayCommand, TrayEvent, TrayState, TrayStatus};

fn server(name: &str, token: Option<&str>) -> ServerEntry {
    ServerEntry {
        name: name.to_string(),
        connections: vec![ServerConnection {
            uri: format!("http://{}", name),
        }],
        access_token: token.map(|t| t.to_string()),
    }
}

#[test]
fn the_address_of_the_sign_in() {
    assert_eq!(
        auth_url("Presence for Plex", "ab1&c=é"),
        "https://app.plex.tv/auth#?clientID=Presence%20for%20Plex&code=ab1%26c%3D%C3%A9\
         &context%5Bdevice%5D%5Bproduct%5D=Presence%20for%20Plex"
    );
}

#[test]
fn codes_that_differ_have_addresses_that_differ() {
    assert_ne!(auth_url("a", "%20"), auth_url("a", " "));
}

#[test]
fn a_sign_in_that_works_out() {
    let phase = AuthPhase::begin();
    assert!(matches!(phase.action("app"), AuthAction::RequestPin));
    let phase = phase.advance(AuthEvent::Pin(Some((41, "c0de".to_string()))));
    match phase.action("app") {
        AuthAction::Show(url) => assert_eq!(url, auth_url("app", "c0de")),
        other => panic!("{:?}", other),
    }
    let phase = phase.advance(AuthEvent::Shown);
    assert!(matches!(phase.action("app"), AuthAction::Sleep(2)));
    let phase = phase.advance(AuthEvent::Slept);
    assert!(matches!(phase.action("app"), AuthAction::CheckPin(41)));
    let phase = phase.advance(AuthEvent::Checked(None));
    assert!(matches!(phase.action("app"), AuthAction::Sleep(2)));
    let phase = phase.advance(AuthEvent::Slept);
    assert!(matches!(phase.action("app"), AuthAction::CheckPin(41)));
    let phase = phase.advance(AuthEvent::Checked(Some("tok".to_string())));
    match phase.action("app") {
        AuthAction::Store(token) => assert_eq!(token, "tok"),
        other => panic!("{:?}", other),
    }
    let phase = phase.advance(AuthEvent::Stored);
    match phase.action("app") {
        AuthAction::Finish(token) => assert_eq!(token.as_deref(), Some("tok")),
        other => panic!("{:?}", other),
    }
}

#[test]
fn a_sign_in_without_a_code_or_in_time_fails() {
    let phase = AuthPhase::begin().advance(AuthEvent::Pin(None));
    assert!(matches!(phase.action("app"), AuthAction::Finish(None)));
    let waiting = || {
        AuthPhase::begin()
            .advance(AuthEvent::Pin(Some((1, "c".to_string()))))
            .advance(AuthEvent::Shown)
    };
    let phase = waiting().advance(AuthEvent::TimedOut);
    assert!(matches!(phase.action("app"), AuthAction::Finish(None)));
    let phase = waiting().advance(AuthEvent::Slept).advance(AuthEvent::TimedOut);
    assert!(matches!(phase.action("app"), AuthAction::Finish(None)));
    assert_eq!(AUTH_TIMEOUT, 300);
}

#[test]
fn a_server_from_the_settings_is_taken_as_it_is() {
    let start = begin_monitoring("tok".to_string(), Some("http://10.0.0.1:32400".to_string()));
    match start {
        MonitorStart::Manual(target) => {
            assert_eq!(target.name, "Manual Server");
            assert_eq!(target.connections.len(), 1);
            assert_eq!(target.connections[0].uri, "http://10.0.0.1:32400");
            assert_eq!(target.access_token, "tok");
            assert_eq!(target.username, None);
        }
        other => panic!("{:?}", other),
    }
    let start = begin_monitoring("tok".to_string(), None);
    match start {
        MonitorStart::Discover(search) => {
            assert!(matches!(search.action(), DiscoveryAction::FetchUsername));
        }
        other => panic!("{:?}", other),
    }
}

#[test]
fn a_search_tells_what_is_next() {
    let mut search = Discovery::new();
    search.advance(DiscoveryEvent::Username(Some("user".to_string())));
    assert!(matches!(search.action(), DiscoveryAction::FetchServers));
    search.advance(DiscoveryEvent::Servers(None));
    assert!(matches!(search.action(), DiscoveryAction::Sleep(5)));
    search.advance(DiscoveryEvent::Slept);
    assert!(matches!(search.action(), DiscoveryAction::FetchServers));
}

#[test]
fn servers_without_a_token_are_passed_over() {
    let targets = monitor_targets(
        vec![server("a", Some("ta")), server("b", None), server("c", Some("tc"))],
        &Some("user".to_string()),
    );
    assert_eq!(targets.len(), 2);
    assert_eq!(targets[0].name, "a");
    assert_eq!(targets[0].connections[0].uri, "http://a");
    assert_eq!(targets[0].access_token, "ta");
    assert_eq!(targets[0].username.as_deref(), Some("user"));
    assert_eq!(targets[1].name, "c");
    assert_eq!(targets[1].access_token, "tc");
}

#[test]
fn waits_double_up_to_the_longest() {
    let mut search = Discovery::new();
    let mut waits = Vec::new();
    for _ in 0..9 {
        match search.advance(DiscoveryEvent::Username(None)) {
            DiscoveryAction::Sleep(seconds) => waits.push(seconds),
            other => panic!("{:?}", other),
        }
        assert!(matches!(
            search.advance(DiscoveryEvent::Slept),
            DiscoveryAction::FetchUsername
        ));
    }
    assert_eq!(waits, vec![5, 10, 20, 40, 80, 160, 300, 300, 300]);
}

#[test]
fn the_user_name_is_asked_for_until_it_is_known() {
    let mut search = Discovery::new();
    let action = search.advance(DiscoveryEvent::Username(Some("user".to_string())));
    assert!(matches!(action, DiscoveryAction::FetchServers));
    let action = search.advance(DiscoveryEvent::Servers(None));
    assert!(matches!(action, DiscoveryAction::Sleep(5)));
    let action = search.advance(DiscoveryEvent::Slept);
    assert!(matches!(action, DiscoveryAction::FetchServers));
    let action = search.advance(DiscoveryEvent::Servers(Some(Vec::new())));
    assert!(matches!(action, DiscoveryAction::Sleep(10)));
    search.advance(DiscoveryEvent::Slept);
    match search.advance(DiscoveryEvent::Servers(Some(vec![server("a", Some("ta"))]))) {
        DiscoveryAction::Monitor(targets) => {
            assert_eq!(targets.len(), 1);
            assert_eq!(targets[0].username.as_deref(), Some("user"));
        }
        other => panic!("{:?}", other),
    }
}

#[test]
fn a_list_in_which_nothing_may_be_accessed_ends_the_search_too() {
    let mut search = Discovery::new();
    search.advance(DiscoveryEvent::Username(Some("user".to_string())));
    match search.advance(DiscoveryEvent::Servers(Some(vec![server("a", None)]))) {
        DiscoveryAction::Monitor(targets) => assert!(targets.is_empty()),
        other => panic!("{:?}", other),
    }
}

#[test]
fn one_sign_in_at_a_time() {
    let mut tray = TrayState::new(false);
    let ask = || TrayEvent::Command(TrayCommand::Authenticate);
    assert!(matches!(tray.handle(ask()).as_slice(), [TrayAction::StartAuth]));
    assert!(tray.handle(ask()).is_empty());
    let actions = tray.handle(TrayEvent::AuthFinished(None));
    assert!(matches!(
        actions.as_slice(),
        [TrayAction::SetStatus(TrayStatus::NotAuthenticated)]
    ));
    assert!(matches!(tray.handle(ask()).as_slice(), [TrayAction::StartAuth]));
}

#[test]
fn a_new_token_replaces_the_old_one() {
    let mut tray = TrayState::new(false);
    let actions = tray.handle(TrayEvent::AuthFinished(Some("a".to_string())));
    assert_eq!(actions.len(), 3);
    assert!(matches!(actions[0], TrayAction::SetAuthText("Reauthenticate")));
    assert!(matches!(actions[1], TrayAction::SetStatus(TrayStatus::Idle)));
    assert!(matches!(&actions[2], TrayAction::StartMonitoring(t) if t == "a"));
    let actions = tray.handle(TrayEvent::AuthFinished(Some("b".to_string())));
    assert_eq!(actions.len(), 4);
    assert!(matches!(actions[2], TrayAction::CancelMonitoring));
    assert!(matches!(&actions[3], TrayAction::StartMonitoring(t) if t == "b"));
    assert!(tray.handle(TrayEvent::AuthFinished(None)).is_empty());
}

#[test]
fn the_tray_shows_the_status_and_quits() {
    let mut tray = TrayState::new(true);
    let status = TrayStatus::from(PlaybackState::Paused);
    assert!(matches!(
        tray.handle(TrayEvent::Status(status)).as_slice(),
        [TrayAction::SetStatus(TrayStatus::Media(PlaybackState::Paused))]
    ));
    assert!(matches!(
        tray.handle(TrayEvent::Command(TrayCommand::Quit)).as_slice(),
        [TrayAction::Quit]
    ));
}

#[test]
fn media_is_shown_if_its_kind_is_enabled() {
    let mut config = Config::default();
    config.enable_music = false;
    let movie = MediaUpdate::Playing {
        media_type: MediaType::Movie,
        state: PlaybackState::Playing,
    };
    let track = MediaUpdate::Playing {
        media_type: MediaType::Track,
        state: PlaybackState::Buffering,
    };
    assert_eq!(
        handle_media(movie, &config),
        (TrayStatus::Media(PlaybackState::Playing), MediaAction::Show)
    );
    assert_eq!(
        handle_media(track, &config),
        (TrayStatus::Media(PlaybackState::Buffering), MediaAction::Ignore)
    );
    assert_eq!(
        handle_media(MediaUpdate::Stopped, &config),
        (TrayStatus::Idle, MediaAction::Clear)
    );
}

#[test]
fn numerals_and_texts() {
    assert_eq!(decimal(0), "0");
    assert_eq!(decimal(1234567890), "1234567890");
    assert!(same_text("é", "é"));
    assert!(!same_text("a", "ab"));
}
