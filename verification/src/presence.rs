//! What the profile shows, and the activity that Discord gets for it.
use crate::json;
use crate::json::Json;
use crate::media::PlaybackState;
use crate::rich;
use discord_rich_presence::activity::{
    Activity as RichActivity, ActivityType as RichActivityType, Assets as RichAssets,
    Button as RichButton, StatusDisplayType as RichDisplayType, Timestamps as RichTimestamps,
};
use serde_json::Value;
use vstd::prelude::*;
use vstd::string::StrSliceExecFns;

verus! {

/// How far ahead the clock of paused media is set, in seconds. Timestamps this
/// far out render as a frozen clock in Discord.
pub const PAUSED_OFFSET: i64 = 35_996_400;

/// The most buttons that an activity shows.
pub const MAX_BUTTONS: usize = 2;

/// What the profile shows.
#[derive(Debug, Clone)]
pub struct Presence {
    pub details: String,
    pub state: String,
    pub large_image: Option<String>,
    pub large_image_text: String,
    pub progress_ms: u64,
    pub duration_ms: u64,
    pub show_timestamps: bool,
    pub activity_type: ActivityType,
    pub playback_state: PlaybackState,
    pub buttons: Vec<Button>,
}

/// The verb in front of the activity.
#[derive(Debug, Clone, Copy, PartialEq, Eq, Structural)]
pub enum ActivityType {
    Watching,
    Listening,
}

/// A button with a link.
#[derive(Debug, Clone)]
pub struct Button {
    pub label: String,
    pub url: String,
}

/// The type that Discord knows an activity by.
pub open spec fn rich_type(activity_type: ActivityType) -> RichActivityType {
    match activity_type {
        ActivityType::Watching => RichActivityType::Watching,
        ActivityType::Listening => RichActivityType::Listening,
    }
}

/// The line that stands in the member list: the state of music, which is the
/// artist, and the details of anything else.
pub open spec fn rich_display(activity_type: ActivityType) -> RichDisplayType {
    match activity_type {
        ActivityType::Listening => RichDisplayType::State,
        ActivityType::Watching => RichDisplayType::Details,
    }
}

/// A text that is shown: Discord rejects texts under two characters.
pub open spec fn shown_text(text: Seq<char>) -> Option<Json> {
    if text.len() >= 2 {
        Some(Json::Text(text))
    } else {
        None
    }
}

/// When the media started and when it ends, in seconds since the epoch. The
/// clock of media that does not run stands still far ahead.
pub open spec fn clock(p: Presence, now: int) -> Option<(int, int)> {
    if !p.show_timestamps {
        None
    } else if p.playback_state == PlaybackState::Playing {
        let left: int = if p.duration_ms > p.progress_ms {
            p.duration_ms - p.progress_ms
        } else {
            0
        };
        Some((now - p.progress_ms as int / 1000, now + left / 1000))
    } else {
        Some((now + PAUSED_OFFSET, now + PAUSED_OFFSET + p.duration_ms as int / 1000))
    }
}

/// The clock fits in the 64 bits of a timestamp.
pub open spec fn clock_fits(p: Presence, now: int) -> bool {
    clock(p, now) matches Some((start, end)) ==> {
        &&& i64::MIN <= start <= i64::MAX
        &&& i64::MIN <= end <= i64::MAX
    }
}

/// The timestamps of an activity.
pub open spec fn timestamps_json(p: Presence, now: int) -> Option<Json> {
    match clock(p, now) {
        Some((start, end)) => Some(
            Json::Object(map!["start"@ => Json::Int(start), "end"@ => Json::Int(end)]),
        ),
        None => None,
    }
}

/// The images of an activity: the artwork with its text, and a mark on media
/// that is paused.
pub open spec fn assets_object(p: Presence) -> Map<Seq<char>, Json> {
    let large = match p.large_image {
        Some(image) => json::no_fields().insert("large_image"@, Json::Text(image@)).insert(
            "large_text"@,
            Json::Text(p.large_image_text@),
        ),
        None => json::no_fields(),
    };
    if p.playback_state == PlaybackState::Paused {
        large.insert("small_image"@, Json::Text("paused"@)).insert(
            "small_text"@,
            Json::Text("Paused"@),
        )
    } else {
        large
    }
}

/// The buttons that are shown.
pub open spec fn shown_buttons(buttons: Seq<Button>) -> Seq<Button> {
    if buttons.len() > MAX_BUTTONS {
        buttons.take(MAX_BUTTONS as int)
    } else {
        buttons
    }
}

/// The buttons of an activity.
pub open spec fn buttons_json(buttons: Seq<Button>) -> Option<Json> {
    if buttons.len() == 0 {
        None
    } else {
        Some(
            Json::Array(
                shown_buttons(buttons).map_values(
                    |button: Button|
                        Json::Object(rich::button_object(button.label@, button.url@)),
                ),
            ),
        )
    }
}

/// `fields`, with `value` under `key` where there is one.
pub open spec fn with_field(
    fields: Map<Seq<char>, Json>,
    key: Seq<char>,
    value: Option<Json>,
) -> Map<Seq<char>, Json> {
    match value {
        Some(value) => fields.insert(key, value),
        None => fields,
    }
}

/// The activity that Discord gets for a presence at the time `now`.
pub open spec fn activity_object(p: Presence, now: int) -> Map<Seq<char>, Json> {
    let fields = json::no_fields().insert(
        "type"@,
        Json::Int(rich::type_number(rich_type(p.activity_type))),
    ).insert(
        "status_display_type"@,
        Json::Int(rich::display_number(rich_display(p.activity_type))),
    );
    let fields = with_field(fields, "details"@, shown_text(p.details@));
    let fields = with_field(fields, "state"@, shown_text(p.state@));
    let fields = with_field(fields, "timestamps"@, timestamps_json(p, now));
    let fields = fields.insert("assets"@, Json::Object(assets_object(p)));
    with_field(fields, "buttons"@, buttons_json(p.buttons@))
}

impl vstd::std_specs::convert::FromSpecImpl<ActivityType> for RichActivityType {
    open spec fn obeys_from_spec() -> bool {
        true
    }

    open spec fn from_spec(t: ActivityType) -> Self {
        rich_type(t)
    }
}

impl From<ActivityType> for RichActivityType {
    fn from(t: ActivityType) -> (rich: Self) {
        match t {
            ActivityType::Watching => RichActivityType::Watching,
            ActivityType::Listening => RichActivityType::Listening,
        }
    }
}

fn rich_timestamps(start: i64, end: i64) -> (timestamps: RichTimestamps)
    ensures
        rich::timestamps_fields(timestamps) == (map![
            "start"@ => Json::Int(start as int),
            "end"@ => Json::Int(end as int),
        ]),
{
    RichTimestamps::new().start(start).end(end)
}

fn rich_assets<'a>(p: &'a Presence) -> (assets: RichAssets<'a>)
    ensures
        rich::assets_fields(assets) == assets_object(*p),
{
    let mut assets = RichAssets::new();
    if let Some(image) = &p.large_image {
        assets = rich::with_large_image(assets, image.as_str());
        assets = rich::with_large_text(assets, p.large_image_text.as_str());
    }
    if p.playback_state == PlaybackState::Paused {
        assets = rich::with_small_image(assets, "paused");
        assets = rich::with_small_text(assets, "Paused");
    }
    assets
}

fn rich_buttons<'a>(buttons: &'a Vec<Button>) -> (rich_buttons: Vec<RichButton<'a>>)
    ensures
        rich_buttons@.len() == shown_buttons(buttons@).len(),
        buttons@.len() > 0 ==> Some(rich::buttons_array(rich_buttons@)) == buttons_json(buttons@),
{
    let shown: usize = if buttons.len() > MAX_BUTTONS {
        MAX_BUTTONS
    } else {
        buttons.len()
    };
    let mut rich_buttons: Vec<RichButton<'a>> = Vec::new();
    for i in 0..shown
        invariant
            shown <= buttons@.len(),
            rich_buttons@.len() == i,
            forall|j: int|
                0 <= j < i ==> #[trigger] rich::button_fields(rich_buttons@[j])
                    == rich::button_object(buttons@[j].label@, buttons@[j].url@),
    {
        rich_buttons.push(rich::link_button(buttons[i].label.as_str(), buttons[i].url.as_str()));
    }
    proof {
        if buttons@.len() > 0 {
            assert(rich::buttons_array(rich_buttons@)->Array_0
                =~= buttons_json(buttons@)->Some_0->Array_0) by {
                assert forall|j: int| 0 <= j < shown implies rich::buttons_array(
                    rich_buttons@,
                )->Array_0[j] == #[trigger] buttons_json(buttons@)->Some_0->Array_0[j] by {
                    assert(shown_buttons(buttons@)[j] == buttons@[j]);
                    assert(rich::button_fields(rich_buttons@[j]) == rich::button_object(
                        buttons@[j].label@,
                        buttons@[j].url@,
                    ));
                }
            }
        }
    }
    rich_buttons
}

/// The activity that Discord gets for a presence at the time `now`, in seconds
/// since the epoch.
pub fn rich_activity<'a>(p: &'a Presence, now: i64) -> (activity: RichActivity<'a>)
    requires
        clock_fits(*p, now as int),
    ensures
        rich::activity_fields(activity) == activity_object(*p, now as int),
{
    let display = match p.activity_type {
        ActivityType::Listening => RichDisplayType::State,
        _ => RichDisplayType::Details,
    };
    let mut activity = RichActivity::new().activity_type(
        RichActivityType::from(p.activity_type),
    ).status_display_type(display);
    if p.details.as_str().unicode_len() >= 2 {
        activity = rich::with_details(activity, p.details.as_str());
    }
    if p.state.as_str().unicode_len() >= 2 {
        activity = rich::with_state(activity, p.state.as_str());
    }
    if p.show_timestamps {
        activity =
        match p.playback_state {
            PlaybackState::Playing => {
                let played: i64 = (p.progress_ms / 1000) as i64;
                let left: i64 = (p.duration_ms.saturating_sub(p.progress_ms) / 1000) as i64;
                activity.timestamps(rich_timestamps(now - played, now + left))
            },
            PlaybackState::Paused | PlaybackState::Buffering => {
                let length: i64 = (p.duration_ms / 1000) as i64;
                activity.timestamps(
                    rich_timestamps(now + PAUSED_OFFSET, now + PAUSED_OFFSET + length),
                )
            },
        };
    }
    activity = activity.assets(rich_assets(p));
    if p.buttons.len() > 0 {
        activity = activity.buttons(rich_buttons(&p.buttons));
    }
    activity
}

/// The JSON value of the activity that Discord gets for a presence.
pub fn activity_value(p: &Presence, now: i64) -> (value: Value)
    requires
        clock_fits(*p, now as int),
    ensures
        json::value_json(value) == Json::Object(activity_object(*p, now as int)),
{
    let activity = rich_activity(p, now);
    rich::activity_value(&activity).unwrap()
}

/// Tells whether the clock of a presence fits in the 64 bits of a timestamp.
pub fn clock_in_range(p: &Presence, now: i64) -> (fits: bool)
    ensures
        fits == clock_fits(*p, now as int),
{
    if !p.show_timestamps {
        return true;
    }
    match p.playback_state {
        PlaybackState::Playing => {
            let played: i64 = (p.progress_ms / 1000) as i64;
            let left: i64 = (p.duration_ms.saturating_sub(p.progress_ms) / 1000) as i64;
            now.checked_sub(played).is_some() && now.checked_add(left).is_some()
        },
        PlaybackState::Paused | PlaybackState::Buffering => {
            let length: i64 = (p.duration_ms / 1000) as i64;
            match now.checked_add(PAUSED_OFFSET) {
                Some(start) => start.checked_add(length).is_some(),
                None => false,
            }
        },
    }
}

/// The time in seconds since the epoch: a clock that stands before the epoch
/// counts as the epoch itself.
pub fn unix_seconds(since_epoch: Option<u64>) -> (now: i64)
    ensures
        since_epoch is None ==> now == 0,
        since_epoch matches Some(seconds) ==> now == (if seconds <= i64::MAX {
            seconds as int
        } else {
            seconds - 0x1_0000_0000_0000_0000
        }),
{
    match since_epoch {
        None => 0,
        Some(seconds) => {
            assert(seconds <= 0x7fff_ffff_ffff_ffff ==> (seconds as i64) == seconds)
                by (bit_vector);
            assert(seconds > 0x7fff_ffff_ffff_ffff ==> (seconds as i64) == seconds
                - 0x1_0000_0000_0000_0000) by (bit_vector);
            #[verifier::truncate]
            (seconds as i64)
        },
    }
}

/// An activity holds no decimals, and objects and arrays are nested in it at most
/// three deep.
pub(crate) proof fn lemma_activity_is_plain(p: Presence, now: int, depth: nat)
    requires
        depth >= 3,
    ensures
        json::is_plain(Json::Object(activity_object(p, now)), depth),
{
    reveal_with_fuel(json::is_plain, 4);
    let fields = activity_object(p, now);
    let inner = (depth - 1) as nat;
    if let Some(times) = timestamps_json(p, now) {
        assert(json::is_plain(times, inner));
    }
    assert(json::is_plain(Json::Object(assets_object(p)), inner));
    if let Some(buttons) = buttons_json(p.buttons@) {
        assert forall|i: int| 0 <= i < buttons->Array_0.len() implies json::is_plain(
            #[trigger] buttons->Array_0[i],
            (inner - 1) as nat,
        ) by {}
        assert(json::is_plain(buttons, inner));
    }
    assert forall|key: Seq<char>| fields.contains_key(key) implies json::is_plain(
        #[trigger] fields[key],
        inner,
    ) by {}
}

/// The clock fits at any time within a hundred billion years of the epoch.
pub proof fn law_clock_fits_in_our_time(p: Presence, now: int)
    requires
        -0x4000_0000_0000_0000 <= now <= 0x4000_0000_0000_0000,
    ensures
        clock_fits(p, now),
{
}

/// While media plays, the present lies between its start and its end; what has
/// been played and what is left make up the whole, but for the second that
/// rounding down can lose.
pub proof fn law_playing_clock(p: Presence, now: int)
    requires
        p.show_timestamps,
        p.playback_state == PlaybackState::Playing,
    ensures
        clock(p, now) matches Some((start, end)) && {
            &&& start <= now <= end
            &&& now - start == p.progress_ms as int / 1000
            &&& p.progress_ms <= p.duration_ms ==> p.duration_ms as int / 1000 - 1 <= end - start
                <= p.duration_ms as int / 1000
            &&& p.progress_ms >= p.duration_ms ==> end == now
        },
{
}

/// The clock of media that is paused or that buffers starts 9999 hours from now
/// and spans the length of the media, however far that has been played.
pub proof fn law_frozen_clock(p: Presence, now: int)
    requires
        p.show_timestamps,
        p.playback_state != PlaybackState::Playing,
    ensures
        clock(p, now) matches Some((start, end)) && start - now == 9999 * 3600 && end - start
            == p.duration_ms as int / 1000,
{
}

/// No button is shown beyond the second, and those shown are the first ones, in
/// their order.
pub proof fn law_buttons(buttons: Seq<Button>)
    ensures
        shown_buttons(buttons).len() <= MAX_BUTTONS,
        shown_buttons(buttons).is_prefix_of(buttons),
        buttons.len() <= MAX_BUTTONS ==> shown_buttons(buttons) == buttons,
        buttons_json(buttons) is None <==> buttons.len() == 0,
        buttons_json(buttons) matches Some(json) ==> json is Array && json->Array_0.len()
            == shown_buttons(buttons).len(),
{
}

/// What stands in an activity, field by field. In particular neither line of
/// text is ever under two characters, and images are always given, be it none.
pub proof fn law_activity_fields(p: Presence, now: int)
    ensures
        ({
            let fields = activity_object(p, now);
            &&& fields.dom() <= set![
                "type"@,
                "status_display_type"@,
                "details"@,
                "state"@,
                "timestamps"@,
                "assets"@,
                "buttons"@,
            ]
            &&& fields.contains_pair(
                "type"@,
                Json::Int(if p.activity_type == ActivityType::Listening { 2 } else { 3 }),
            )
            &&& fields.contains_pair(
                "status_display_type"@,
                Json::Int(if p.activity_type == ActivityType::Listening { 1 } else { 2 }),
            )
            &&& fields.contains_key("details"@) <==> p.details@.len() >= 2
            &&& fields.contains_key("details"@) ==> fields["details"@] == Json::Text(p.details@)
            &&& fields.contains_key("state"@) <==> p.state@.len() >= 2
            &&& fields.contains_key("state"@) ==> fields["state"@] == Json::Text(p.state@)
            &&& fields.contains_key("timestamps"@) <==> p.show_timestamps
            &&& fields.contains_key("timestamps"@) ==> Some(fields["timestamps"@])
                == timestamps_json(p, now)
            &&& fields.contains_pair("assets"@, Json::Object(assets_object(p)))
            &&& fields.contains_key("buttons"@) <==> p.buttons@.len() > 0
            &&& fields.contains_key("buttons"@) ==> Some(fields["buttons"@]) == buttons_json(
                p.buttons@,
            )
        }),
{
    reveal_strlit("type");
    reveal_strlit("status_display_type");
    reveal_strlit("details");
    reveal_strlit("state");
    reveal_strlit("timestamps");
    reveal_strlit("assets");
    reveal_strlit("buttons");
    assert("type"@.len() == 4);
    assert("status_display_type"@.len() == 19);
    assert("state"@.len() == 5);
    assert("timestamps"@.len() == 10);
    assert("assets"@.len() == 6);
    assert("details"@[0] == 'd');
    assert("buttons"@[0] == 'b');
}

/// The mark of paused media stands on paused media only, and the artwork stands
/// there exactly when there is some, with its text.
pub proof fn law_images(p: Presence)
    ensures
        ({
            let images = assets_object(p);
            &&& images.contains_key("small_image"@) <==> p.playback_state == PlaybackState::Paused
            &&& images.contains_key("small_text"@) <==> p.playback_state == PlaybackState::Paused
            &&& images.contains_key("large_image"@) <==> p.large_image is Some
            &&& images.contains_key("large_text"@) <==> p.large_image is Some
            &&& p.large_image matches Some(image) ==> images["large_image"@] == Json::Text(image@)
                && images["large_text"@] == Json::Text(p.large_image_text@)
            &&& p.playback_state == PlaybackState::Paused ==> images["small_image"@] == Json::Text(
                "paused"@,
            ) && images["small_text"@] == Json::Text("Paused"@)
        }),
{
    reveal_strlit("small_image");
    reveal_strlit("small_text");
    reveal_strlit("large_image");
    reveal_strlit("large_text");
    assert("small_image"@.len() == 11);
    assert("small_text"@.len() == 10);
    assert("large_image"@.len() == 11);
    assert("large_text"@.len() == 10);
    assert("small_image"@[0] == 's');
    assert("large_image"@[0] == 'l');
    assert("small_text"@[0] == 's');
    assert("large_text"@[0] == 'l');
}

} // verus!
