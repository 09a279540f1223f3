//! What Discord gets to show for a presence.
use crate::json;
use crate::json::Json;
use crate::media::PlaybackState;
use crate::presence;
use crate::presence::{ActivityType, Presence};
use crate::rich;
use discord_rich_presence::activity::Activity as RichActivity;
use serde_json::Value;
use vstd::prelude::*;

verus! {

proof fn lemma_fields(p: Presence, now: i64, value: Value) -> (fields: Map<Seq<char>, Json>)
    requires
        call_ensures(presence::activity_value, (&p, now), value),
    ensures
        json::value_json(value) == Json::Object(fields),
        fields == presence::activity_object(p, now as int),
{
    presence::activity_object(p, now as int)
}

/// An activity is an object. It has a type, a line for the member list and
/// images; it has timestamps if they are to be shown, each line of text that is
/// long enough, and buttons if there are any; and it has nothing else.
pub proof fn law_members(p: Presence, now: i64, value: Value, key: Seq<char>)
    requires
        call_ensures(presence::activity_value, (&p, now), value),
    ensures
        json::value_json(value) is Object,
        json::value_json(value)->Object_0.contains_key(key) <==> {
            ||| key == "type"@
            ||| key == "status_display_type"@
            ||| key == "assets"@
            ||| key == "timestamps"@ && p.show_timestamps
            ||| key == "details"@ && p.details@.len() >= 2
            ||| key == "state"@ && p.state@.len() >= 2
            ||| key == "buttons"@ && p.buttons@.len() > 0
        },
{
    let fields = lemma_fields(p, now, value);
    presence::law_activity_fields(p, now as int);
}

/// Music is listened to, and its second line, the artist, stands in the member
/// list; anything else is watched, and its first line stands there. The lines are
/// those of the presence.
pub proof fn law_lines(p: Presence, now: i64, value: Value)
    requires
        call_ensures(presence::activity_value, (&p, now), value),
    ensures
        ({
            let fields = json::value_json(value)->Object_0;
            &&& p.activity_type == ActivityType::Listening ==> fields["type"@] == Json::Int(2)
                && fields["status_display_type"@] == Json::Int(1)
            &&& p.activity_type == ActivityType::Watching ==> fields["type"@] == Json::Int(3)
                && fields["status_display_type"@] == Json::Int(2)
            &&& p.details@.len() >= 2 ==> fields["details"@] == Json::Text(p.details@)
            &&& p.state@.len() >= 2 ==> fields["state"@] == Json::Text(p.state@)
        }),
{
    let fields = lemma_fields(p, now, value);
    presence::law_activity_fields(p, now as int);
}

/// Where timestamps are shown, they are a start and an end and nothing else,
/// whatever the type of the activity. Media that plays started as long ago as it
/// has been played, and ends when what is left of it is over: the present lies in
/// between. Media that does not play starts 9999 hours from now, and ends as much
/// later as it is long.
pub proof fn law_timestamps(p: Presence, now: i64, value: Value)
    requires
        call_ensures(presence::activity_value, (&p, now), value),
        p.show_timestamps,
    ensures
        ({
            let timestamps = json::value_json(value)->Object_0["timestamps"@];
            let times = timestamps->Object_0;
            let (start, end) = (times["start"@]->Int_0, times["end"@]->Int_0);
            &&& timestamps is Object
            &&& forall|key: Seq<char>| #[trigger]
                times.contains_key(key) <==> key == "start"@ || key == "end"@
            &&& times["start"@] is Int && times["end"@] is Int
            &&& p.playback_state == PlaybackState::Playing ==> {
                &&& start == now - p.progress_ms / 1000
                &&& p.progress_ms <= p.duration_ms ==> end == now + (p.duration_ms - p.progress_ms)
                    / 1000
                &&& p.progress_ms >= p.duration_ms ==> end == now
                &&& start <= now <= end
            }
            &&& p.playback_state != PlaybackState::Playing ==> {
                &&& start == now + 9999 * 60 * 60
                &&& end == start + p.duration_ms / 1000
            }
        }),
{
    let fields = lemma_fields(p, now, value);
    presence::law_activity_fields(p, now as int);
    lemma_times_differ();
}

proof fn lemma_times_differ()
    ensures
        "start"@ != "end"@,
{
    reveal_strlit("start");
    reveal_strlit("end");
    assert("start"@.len() != "end"@.len());
}

/// While the same media plays on, its start and its end do not move: after as
/// many whole seconds as it has been played further, both are the same.
pub proof fn law_clock_keeps_still(
    p: Presence,
    q: Presence,
    now: i64,
    later: i64,
    value: Value,
    next: Value,
)
    requires
        call_ensures(presence::activity_value, (&p, now), value),
        call_ensures(presence::activity_value, (&q, later), next),
        p.show_timestamps && q.show_timestamps,
        p.playback_state == PlaybackState::Playing,
        q.playback_state == PlaybackState::Playing,
        q.duration_ms == p.duration_ms,
        q.progress_ms - p.progress_ms == 1000 * (later - now),
        p.progress_ms <= p.duration_ms,
        q.progress_ms <= q.duration_ms,
    ensures
        json::value_json(value)->Object_0["timestamps"@]
            == json::value_json(next)->Object_0["timestamps"@],
{
    law_timestamps(p, now, value);
    law_timestamps(q, later, next);
    let old_times = json::value_json(value)->Object_0["timestamps"@]->Object_0;
    let new_times = json::value_json(next)->Object_0["timestamps"@]->Object_0;
    assert(old_times.dom() =~= new_times.dom());
    assert(old_times =~= new_times);
}

/// The images are the artwork with its text, where there is some, and the mark of
/// paused media on media that is paused; and nothing else.
pub proof fn law_artwork(p: Presence, now: i64, value: Value, key: Seq<char>)
    requires
        call_ensures(presence::activity_value, (&p, now), value),
    ensures
        ({
            let assets = json::value_json(value)->Object_0["assets"@];
            let images = assets->Object_0;
            &&& assets is Object
            &&& images.contains_key(key) <==> {
                ||| key == "large_image"@ && p.large_image is Some
                ||| key == "large_text"@ && p.large_image is Some
                ||| key == "small_image"@ && p.playback_state == PlaybackState::Paused
                ||| key == "small_text"@ && p.playback_state == PlaybackState::Paused
            }
            &&& p.large_image matches Some(image) ==> images["large_image"@] == Json::Text(image@)
                && images["large_text"@] == Json::Text(p.large_image_text@)
            &&& p.playback_state == PlaybackState::Paused ==> images["small_image"@] == Json::Text(
                "paused"@,
            ) && images["small_text"@] == Json::Text("Paused"@)
        }),
{
    let fields = lemma_fields(p, now, value);
    presence::law_activity_fields(p, now as int);
    presence::law_images(p);
}

/// The first two buttons are shown, or those that there are if there are fewer,
/// in their order: each is its label and its link, and nothing else.
pub proof fn law_links(p: Presence, now: i64, value: Value)
    requires
        call_ensures(presence::activity_value, (&p, now), value),
        p.buttons@.len() > 0,
    ensures
        ({
            let buttons = json::value_json(value)->Object_0["buttons"@];
            let shown = buttons->Array_0;
            &&& buttons is Array
            &&& p.buttons@.len() >= 2 ==> shown.len() == 2
            &&& p.buttons@.len() < 2 ==> shown.len() == p.buttons@.len()
            &&& forall|i: int|
                0 <= i < shown.len() ==> #[trigger] shown[i] == Json::Object(
                    map![
                        "label"@ => Json::Text(p.buttons@[i].label@),
                        "url"@ => Json::Text(p.buttons@[i].url@),
                    ],
                )
        }),
{
    let fields = lemma_fields(p, now, value);
    presence::law_activity_fields(p, now as int);
    let shown = fields["buttons"@]->Array_0;
    assert forall|i: int| 0 <= i < shown.len() implies #[trigger] shown[i] == Json::Object(
        map![
            "label"@ => Json::Text(p.buttons@[i].label@),
            "url"@ => Json::Text(p.buttons@[i].url@),
        ],
    ) by {
        assert(presence::shown_buttons(p.buttons@)[i] == p.buttons@[i]);
    }
}

/// The activity that is built and the value that is sent say the same.
pub proof fn law_value_of_activity(
    p: Presence,
    now: i64,
    activity: RichActivity,
    value: Value,
)
    requires
        call_ensures(presence::rich_activity, (&p, now), activity),
        call_ensures(presence::activity_value, (&p, now), value),
    ensures
        json::value_json(value) == Json::Object(rich::activity_fields(activity)),
{
}

/// An activity can be built exactly if the moments that it is to show can be told
/// in 64 bits.
pub proof fn law_moments_fit(p: Presence, now: i64, fits: bool)
    requires
        call_ensures(presence::clock_in_range, (&p, now), fits),
    ensures
        !p.show_timestamps ==> fits,
        p.show_timestamps && p.playback_state == PlaybackState::Playing ==> (fits <==> {
            &&& i64::MIN <= now - p.progress_ms / 1000
            &&& p.progress_ms <= p.duration_ms ==> now + (p.duration_ms - p.progress_ms) / 1000
                <= i64::MAX
        }),
        p.show_timestamps && p.playback_state != PlaybackState::Playing ==> (fits <==> now + 9999
            * 60 * 60 + p.duration_ms / 1000 <= i64::MAX),
        fits ==> call_requires(presence::activity_value, (&p, now)) && call_requires(
            presence::rich_activity,
            (&p, now),
        ),
{
}

/// The seconds since the epoch are told as they are, as long as 63 bits hold
/// them, and a clock that stands before the epoch stands at it.
pub proof fn law_now(since_epoch: Option<u64>, now: i64)
    requires
        call_ensures(presence::unix_seconds, (since_epoch,), now),
    ensures
        since_epoch is None ==> now == 0,
        since_epoch matches Some(seconds) ==> (now - seconds) % 0x1_0000_0000_0000_0000 == 0,
        since_epoch matches Some(seconds) ==> (seconds <= i64::MAX <==> now == seconds),
{
}

} // verus!
