//! The activity that a presence becomes.
use presence_for_plex::media::PlaybackState;
use presence_for_plex::presence::{
    activity_value, clock_in_range, unix_seconds, ActivityType, Button, Presence,
};

fn sample() -> Presence {
    Presence {
        details: "Show".to_string(),
        state: "S1 · E2 - Title".to_string(),
        large_image: Some("https://img/x.png".to_string()),
        large_image_text: "Title".to_string(),
        progress_ms: 61_500,
        duration_ms: 120_000,
        show_timestamps: true,
        activity_type: ActivityType::Watching,
        playback_state: PlaybackState::Playing,
        buttons: Vec::new(),
    }
}

fn button(n: u32) -> Button {
    Button {
        label: format!("b{}", n),
        url: format!("https://u/{}", n),
    }
}

#[test]
fn playing_video() {
    assert_eq!(
        activity_value(&sample(), 1000).to_string(),
        "{\"assets\":{\"large_image\":\"https://img/x.png\",\"large_text\":\"Title\"},\
         \"details\":\"Show\",\"state\":\"S1 · E2 - Title\",\"status_display_type\":2,\
         \"timestamps\":{\"end\":1058,\"start\":939},\"type\":3}"
    );
}

#[test]
fn paused_music_with_a_frozen_clock() {
    let mut p = sample();
    p.activity_type = ActivityType::Listening;
    p.playback_state = PlaybackState::Paused;
    p.large_image = None;
    assert_eq!(
        activity_value(&p, 1000).to_string(),
        "{\"assets\":{\"small_image\":\"paused\",\"small_text\":\"Paused\"},\
         \"details\":\"Show\",\"state\":\"S1 · E2 - Title\",\"status_display_type\":1,\
         \"timestamps\":{\"end\":35997520,\"start\":35997400},\"type\":2}"
    );
}

#[test]
fn buffering_has_a_frozen_clock_and_no_mark() {
    let mut p = sample();
    p.playback_state = PlaybackState::Buffering;
    let value = activity_value(&p, 0);
    assert_eq!(value["timestamps"]["start"], 9999 * 3600);
    assert_eq!(value["timestamps"]["end"], 9999 * 3600 + 120);
    assert!(value["assets"].get("small_image").is_none());
}

#[test]
fn no_timestamps_where_none_are_shown() {
    let mut p = sample();
    p.show_timestamps = false;
    assert!(activity_value(&p, 1000).get("timestamps").is_none());
}

#[test]
fn media_played_beyond_its_end_ends_now() {
    let mut p = sample();
    p.progress_ms = 130_000;
    let value = activity_value(&p, 1000);
    assert_eq!(value["timestamps"]["start"], 870);
    assert_eq!(value["timestamps"]["end"], 1000);
}

#[test]
fn texts_under_two_characters_are_left_out() {
    let mut p = sample();
    p.details = "·".to_string();
    p.state = String::new();
    let value = activity_value(&p, 1000);
    assert!(value.get("details").is_none());
    assert!(value.get("state").is_none());
    p.details = "··".to_string();
    p.state = "ab".to_string();
    let value = activity_value(&p, 1000);
    assert_eq!(value["details"], "··");
    assert_eq!(value["state"], "ab");
}

#[test]
fn two_buttons_at_most() {
    let mut p = sample();
    assert!(activity_value(&p, 1000).get("buttons").is_none());
    p.buttons = vec![button(1)];
    assert_eq!(
        activity_value(&p, 1000)["buttons"].to_string(),
        "[{\"label\":\"b1\",\"url\":\"https://u/1\"}]"
    );
    p.buttons = vec![button(1), button(2), button(3)];
    assert_eq!(
        activity_value(&p, 1000)["buttons"].to_string(),
        "[{\"label\":\"b1\",\"url\":\"https://u/1\"},{\"label\":\"b2\",\"url\":\"https://u/2\"}]"
    );
}

#[test]
fn images_are_given_even_if_there_are_none() {
    let mut p = sample();
    p.large_image = None;
    assert_eq!(activity_value(&p, 1000)["assets"].to_string(), "{}");
}

#[test]
fn the_clock_has_bounds() {
    let mut p = sample();
    assert!(clock_in_range(&p, 1000));
    assert!(!clock_in_range(&p, i64::MIN));
    assert!(!clock_in_range(&p, i64::MAX));
    assert!(clock_in_range(&p, i64::MAX - 58));
    p.playback_state = PlaybackState::Paused;
    assert!(clock_in_range(&p, i64::MIN));
    assert!(!clock_in_range(&p, i64::MAX - 9999 * 3600 - 119));
    assert!(clock_in_range(&p, i64::MAX - 9999 * 3600 - 120));
    p.show_timestamps = false;
    assert!(clock_in_range(&p, i64::MAX));
}

#[test]
fn a_clock_before_the_epoch_counts_as_the_epoch() {
    assert_eq!(unix_seconds(None), 0);
    assert_eq!(unix_seconds(Some(1_700_000_000)), 1_700_000_000);
    assert_eq!(unix_seconds(Some(u64::MAX)), -1);
}
