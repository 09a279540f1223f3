//! The connection to Discord, action by action.
use presence_for_plex::discord::{
    client_choice, pipe_path, Action, ClientChoice, DiscordClient, Event,
};
use presence_for_plex::frame::{unpack, Frame};
use presence_for_plex::media::PlaybackState;
use presence_for_plex::presence::{ActivityType, Presence};

const REPLY: &[u8] = b"{\"cmd\":\"DISPATCH\"}";

fn sent(action: Action) -> Frame {
    match action {
        Action::Send(frame) => frame,
        other => panic!("not a frame: {:?}", other),
    }
}

fn text(frame: &Frame) -> String {
    String::from_utf8(frame.body.clone()).unwrap()
}

/// Performs the actions on a machine on which Discord listens on `listening`.
fn drive(client: &mut DiscordClient, mut action: Action, listening: &[u32]) -> Vec<u32> {
    let mut tried = Vec::new();
    loop {
        let event = match action {
            Action::Open(pipe) => {
                tried.push(pipe);
                if listening.contains(&pipe) {
                    Event::Opened
                } else {
                    Event::OpenFailed
                }
            }
            Action::Send(_) => Event::Sent,
            Action::ReadHeader => Event::Header(vec![1, 0, 0, 0, REPLY.len() as u8, 0, 0, 0]),
            Action::ReadBody(length) => {
                assert_eq!(length as usize, REPLY.len());
                Event::Body(REPLY.to_vec())
            }
            Action::Close => Event::Closed,
            Action::Done => return tried,
        };
        action = client.advance(event);
    }
}

fn connected(pipe: u32) -> DiscordClient {
    let mut client = DiscordClient::new("123");
    let action = client.connect_to(pipe);
    drive(&mut client, action, &[pipe]);
    assert!(client.is_connected());
    client
}

fn sample() -> Presence {
    Presence {
        details: "Film (1999)".to_string(),
        state: "Drama".to_string(),
        large_image: None,
        large_image_text: String::new(),
        progress_ms: 0,
        duration_ms: 0,
        show_timestamps: false,
        activity_type: ActivityType::Watching,
        playback_state: PlaybackState::Playing,
        buttons: Vec::new(),
    }
}

#[test]
fn a_new_client_is_not_connected() {
    assert!(!DiscordClient::new("123").is_connected());
}

#[test]
fn the_handshake_names_the_application() {
    let mut client = DiscordClient::new("12\"3");
    assert!(matches!(client.connect_to(1), Action::Open(1)));
    let frame = sent(client.advance(Event::Opened));
    assert_eq!(text(&frame), "{\"client_id\":\"12\\\"3\",\"v\":1}");
    assert_eq!(unpack(&frame.header), Ok((0, frame.body.len() as u32)));
}

#[test]
fn a_good_reply_connects() {
    let mut client = DiscordClient::new("123");
    client.connect_to(0);
    client.advance(Event::Opened);
    assert!(matches!(client.advance(Event::Sent), Action::ReadHeader));
    let action = client.advance(Event::Header(vec![1, 0, 0, 0, 2, 1, 0, 0]));
    assert!(matches!(action, Action::ReadBody(258)));
    assert!(!client.is_connected());
    assert!(matches!(client.advance(Event::Body(b"[]".to_vec())), Action::Done));
    assert!(client.is_connected());
}

#[test]
fn whatever_goes_wrong_in_the_handshake_closes_the_pipe() {
    let good_header = vec![1, 0, 0, 0, 2, 0, 0, 0];
    let bad_ends: Vec<Vec<Event>> = vec![
        vec![Event::Opened, Event::SendFailed],
        vec![Event::Opened, Event::Sent, Event::ReadFailed],
        vec![Event::Opened, Event::Sent, Event::Header(vec![1, 0, 0, 0])],
        vec![
            Event::Opened,
            Event::Sent,
            Event::Header(good_header.clone()),
            Event::ReadFailed,
        ],
        vec![
            Event::Opened,
            Event::Sent,
            Event::Header(good_header.clone()),
            Event::Body(vec![0xff, 0xfe]),
        ],
        vec![
            Event::Opened,
            Event::Sent,
            Event::Header(good_header),
            Event::Body(b"no".to_vec()),
        ],
    ];
    for events in bad_ends {
        let mut client = DiscordClient::new("123");
        let mut action = client.connect_to(4);
        for event in events {
            action = client.advance(event);
        }
        assert!(matches!(action, Action::Close));
        assert!(matches!(client.advance(Event::Closed), Action::Done));
        assert!(!client.is_connected());
    }
}

#[test]
fn a_pipe_that_cannot_be_opened_is_given_up() {
    let mut client = DiscordClient::new("123");
    client.connect_to(4);
    assert!(matches!(client.advance(Event::OpenFailed), Action::Done));
    assert!(!client.is_connected());
}

#[test]
fn auto_takes_the_first_that_answers() {
    let mut client = DiscordClient::new("123");
    let action = client.connect_auto();
    assert_eq!(drive(&mut client, action, &[3, 7]), vec![0, 1, 2, 3]);
    assert!(client.is_connected());
}

#[test]
fn auto_tries_all_ten_pipes() {
    let mut client = DiscordClient::new("123");
    let action = client.connect_auto();
    assert_eq!(
        drive(&mut client, action, &[10, 11]),
        vec![0, 1, 2, 3, 4, 5, 6, 7, 8, 9]
    );
    assert!(!client.is_connected());
}

#[test]
fn auto_goes_on_after_a_failed_handshake() {
    let mut client = DiscordClient::new("123");
    client.connect_auto();
    client.advance(Event::Opened);
    assert!(matches!(client.advance(Event::SendFailed), Action::Close));
    assert!(matches!(client.advance(Event::Closed), Action::Open(1)));
}

#[test]
fn reconnect_returns_to_the_last_pipe() {
    let mut client = connected(7);
    let action = client.disconnect();
    drive(&mut client, action, &[]);
    assert!(!client.is_connected());
    let action = client.reconnect();
    assert_eq!(drive(&mut client, action, &[0, 7]), vec![7]);
    assert!(client.is_connected());
}

#[test]
fn reconnect_scans_where_there_was_no_connection() {
    let mut client = DiscordClient::new("123");
    let action = client.reconnect();
    assert_eq!(drive(&mut client, action, &[1]), vec![0, 1]);
}

#[test]
fn a_connection_is_seen_to_only_where_there_is_none() {
    let mut client = connected(4);
    assert!(matches!(client.ensure_connected(), Action::Done));
    assert!(client.is_connected());
    let action = client.disconnect();
    drive(&mut client, action, &[]);
    let action = client.ensure_connected();
    assert_eq!(drive(&mut client, action, &[1, 4]), vec![4]);
    assert!(client.is_connected());
}

#[test]
fn a_failed_attempt_does_not_forget_the_last_pipe() {
    let mut client = connected(2);
    let action = client.connect_to(5);
    assert_eq!(drive(&mut client, action, &[2]), vec![5]);
    assert!(!client.is_connected());
    let action = client.reconnect();
    assert_eq!(drive(&mut client, action, &[2]), vec![2]);
    assert!(client.is_connected());
}

#[test]
fn disconnecting_tells_discord_and_closes_the_pipe() {
    let mut client = connected(0);
    let frame = sent(client.disconnect());
    assert_eq!(text(&frame), "{}");
    assert_eq!(frame.header, vec![2, 0, 0, 0, 2, 0, 0, 0]);
    assert!(matches!(client.advance(Event::SendFailed), Action::Close));
    assert!(matches!(client.advance(Event::Closed), Action::Done));
    assert!(!client.is_connected());
    assert!(matches!(client.disconnect(), Action::Done));
}

#[test]
fn connecting_ends_the_open_conversation_first() {
    let mut client = connected(0);
    let frame = sent(client.connect_to(1));
    assert_eq!(text(&frame), "{}");
    assert!(matches!(client.advance(Event::Sent), Action::Close));
    assert!(matches!(client.advance(Event::Closed), Action::Open(1)));
    assert!(!client.is_connected());
}

#[test]
fn an_update_carries_the_activity() {
    let mut client = connected(0);
    let frame = sent(client.update_with(&sample(), 1000, 77, "n-1"));
    assert_eq!(
        text(&frame),
        "{\"args\":{\"activity\":{\"assets\":{},\"details\":\"Film (1999)\",\"state\":\"Drama\",\
         \"status_display_type\":2,\"type\":3},\"pid\":77},\"cmd\":\"SET_ACTIVITY\",\
         \"nonce\":\"n-1\"}"
    );
    assert_eq!(unpack(&frame.header), Ok((1, frame.body.len() as u32)));
    assert!(matches!(client.advance(Event::Sent), Action::Done));
    assert!(client.is_connected());
}

#[test]
fn every_update_has_a_fresh_nonce() {
    let mut client = connected(0);
    let mut nonces = Vec::new();
    for _ in 0..2 {
        let frame = sent(client.update(&sample(), 1000, 77));
        let value: serde_json::Value = serde_json::from_slice(&frame.body).unwrap();
        let nonce = value["nonce"].as_str().unwrap().to_string();
        assert_eq!(nonce.len(), 36);
        assert_eq!(nonce.as_bytes()[14], b'4');
        assert!("89ab".contains(nonce.as_bytes()[19] as char));
        for (i, c) in nonce.chars().enumerate() {
            if i == 8 || i == 13 || i == 18 || i == 23 {
                assert_eq!(c, '-');
            } else {
                assert!(c.is_ascii_digit() || ('a'..='f').contains(&c));
            }
        }
        nonces.push(nonce);
        client.advance(Event::Sent);
    }
    assert_ne!(nonces[0], nonces[1]);
}

#[test]
fn an_update_that_fails_disconnects() {
    let mut client = connected(0);
    client.update(&sample(), 1000, 77);
    let frame = sent(client.advance(Event::SendFailed));
    assert_eq!(text(&frame), "{}");
    client.advance(Event::SendFailed);
    assert!(matches!(client.advance(Event::Closed), Action::Done));
    assert!(!client.is_connected());
}

#[test]
fn clearing_sends_no_activity() {
    let mut client = connected(0);
    let frame = sent(client.clear_with(77, "n-2"));
    assert_eq!(
        text(&frame),
        "{\"args\":{\"activity\":null,\"pid\":77},\"cmd\":\"SET_ACTIVITY\",\"nonce\":\"n-2\"}"
    );
    assert!(matches!(client.advance(Event::SendFailed), Action::Done));
    assert!(client.is_connected());
    assert!(matches!(client.clear(77), Action::Send(_)));
}

#[test]
fn nothing_is_sent_without_a_connection() {
    let mut client = DiscordClient::new("123");
    assert!(matches!(client.update(&sample(), 1000, 77), Action::Done));
    assert!(matches!(client.clear(77), Action::Done));
}

#[test]
fn clients_by_name() {
    assert_eq!(client_choice("auto"), ClientChoice::Auto);
    assert_eq!(client_choice("stable"), ClientChoice::Pipe(0));
    assert_eq!(client_choice("ptb"), ClientChoice::Pipe(1));
    assert_eq!(client_choice("canary"), ClientChoice::Pipe(2));
    assert_eq!(client_choice("Stable"), ClientChoice::Unknown);
    assert_eq!(client_choice(""), ClientChoice::Unknown);
}

#[test]
fn the_configured_client_is_tried() {
    for (name, first) in [("auto", 0), ("stable", 0), ("ptb", 1), ("canary", 2), ("other", 0)] {
        let mut client = DiscordClient::new("123");
        match client.connect_configured(name) {
            Action::Open(pipe) => assert_eq!(pipe, first),
            other => panic!("{:?}", other),
        }
        let goes_on = matches!(client.advance(Event::OpenFailed), Action::Open(1));
        assert_eq!(goes_on, name == "auto" || name == "other");
    }
}

#[test]
fn pipes_have_numbered_names() {
    assert_eq!(pipe_path(0), r"\\?\pipe\discord-ipc-0");
    assert_eq!(pipe_path(9), r"\\?\pipe\discord-ipc-9");
    assert_eq!(pipe_path(10), r"\\?\pipe\discord-ipc-10");
    assert_eq!(pipe_path(4294967295), r"\\?\pipe\discord-ipc-4294967295");
}
