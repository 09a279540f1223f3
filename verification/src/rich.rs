//! Activities, as `discord_rich_presence` builds them and `serde_json` reads them.
use crate::json;
use crate::json::Json;
use discord_rich_presence::activity::{
    Activity as RichActivity, ActivityType as RichActivityType, Assets as RichAssets,
    Button as RichButton, StatusDisplayType as RichDisplayType, Timestamps as RichTimestamps,
};
use serde_json::Value;
use vstd::prelude::*;

verus! {

/// `discord_rich_presence::activity::Activity`.
#[verifier::external_type_specification]
#[verifier::external_body]
pub struct ExActivity<'a>(RichActivity<'a>);

/// `discord_rich_presence::activity::Timestamps`.
#[verifier::external_type_specification]
#[verifier::external_body]
pub struct ExTimestamps(RichTimestamps);

/// `discord_rich_presence::activity::Assets`.
#[verifier::external_type_specification]
#[verifier::external_body]
pub struct ExAssets<'a>(RichAssets<'a>);

/// `discord_rich_presence::activity::Button`.
#[verifier::external_type_specification]
#[verifier::external_body]
pub struct ExButton<'a>(RichButton<'a>);

/// `discord_rich_presence::activity::ActivityType`.
#[verifier::external_type_specification]
pub struct ExActivityType(RichActivityType);

/// `discord_rich_presence::activity::StatusDisplayType`.
#[verifier::external_type_specification]
pub struct ExStatusDisplayType(RichDisplayType);

/// The fields that an activity holds, as they are serialized.
pub uninterp spec fn activity_fields(activity: RichActivity) -> Map<Seq<char>, Json>;

/// The fields that timestamps hold, as they are serialized.
pub uninterp spec fn timestamps_fields(timestamps: RichTimestamps) -> Map<Seq<char>, Json>;

/// The fields that assets hold, as they are serialized.
pub uninterp spec fn assets_fields(assets: RichAssets) -> Map<Seq<char>, Json>;

/// The fields that a button holds, as they are serialized.
pub uninterp spec fn button_fields(button: RichButton) -> Map<Seq<char>, Json>;

/// The number by which an activity type is serialized.
pub open spec fn type_number(activity_type: RichActivityType) -> int {
    match activity_type {
        RichActivityType::Playing => 0,
        RichActivityType::Listening => 2,
        RichActivityType::Watching => 3,
        RichActivityType::Competing => 5,
    }
}

/// The number by which a status display type is serialized.
pub open spec fn display_number(display: RichDisplayType) -> int {
    match display {
        RichDisplayType::Name => 0,
        RichDisplayType::State => 1,
        RichDisplayType::Details => 2,
    }
}

/// `Activity::new` makes an activity in which no field is set.
pub assume_specification<'a>[ RichActivity::<'a>::new ]() -> (activity: RichActivity<
    'a,
>)
    ensures
        activity_fields(activity) == json::no_fields(),
;

/// `Activity::activity_type` sets the field `type`.
pub assume_specification<'a>[ RichActivity::<'a>::activity_type ](
    activity: RichActivity<'a>,
    activity_type: RichActivityType,
) -> (updated: RichActivity<'a>)
    ensures
        activity_fields(updated) == activity_fields(activity).insert(
            "type"@,
            Json::Int(type_number(activity_type)),
        ),
;

/// `Activity::status_display_type` sets the field of that name.
pub assume_specification<'a>[ RichActivity::<'a>::status_display_type ](
    activity: RichActivity<'a>,
    status_display_type: RichDisplayType,
) -> (updated: RichActivity<'a>)
    ensures
        activity_fields(updated) == activity_fields(activity).insert(
            "status_display_type"@,
            Json::Int(display_number(status_display_type)),
        ),
;

/// `Activity::timestamps` sets the field of that name.
pub assume_specification<'a>[ RichActivity::<'a>::timestamps ](
    activity: RichActivity<'a>,
    timestamps: RichTimestamps,
) -> (updated: RichActivity<'a>)
    ensures
        activity_fields(updated) == activity_fields(activity).insert(
            "timestamps"@,
            Json::Object(timestamps_fields(timestamps)),
        ),
;

/// `Activity::assets` sets the field of that name.
pub assume_specification<'a>[ RichActivity::<'a>::assets ](
    activity: RichActivity<'a>,
    assets: RichAssets<'a>,
) -> (updated: RichActivity<'a>)
    ensures
        activity_fields(updated) == activity_fields(activity).insert(
            "assets"@,
            Json::Object(assets_fields(assets)),
        ),
;

/// `Activity::buttons` sets the field of that name, unless there is no button.
pub assume_specification<'a>[ RichActivity::<'a>::buttons ](
    activity: RichActivity<'a>,
    buttons: Vec<RichButton<'a>>,
) -> (updated: RichActivity<'a>)
    ensures
        activity_fields(updated) == (if buttons@.len() == 0 {
            activity_fields(activity)
        } else {
            activity_fields(activity).insert("buttons"@, buttons_array(buttons@))
        }),
;

/// `Timestamps::new` makes timestamps in which no field is set.
pub assume_specification[ RichTimestamps::new ]() -> (timestamps: RichTimestamps)
    ensures
        timestamps_fields(timestamps) == json::no_fields(),
;

/// `Timestamps::start` sets the field of that name.
pub assume_specification[ RichTimestamps::start ](
    timestamps: RichTimestamps,
    start: i64,
) -> (updated: RichTimestamps)
    ensures
        timestamps_fields(updated) == timestamps_fields(timestamps).insert(
            "start"@,
            Json::Int(start as int),
        ),
;

/// `Timestamps::end` sets the field of that name.
pub assume_specification[ RichTimestamps::end ](
    timestamps: RichTimestamps,
    end: i64,
) -> (updated: RichTimestamps)
    ensures
        timestamps_fields(updated) == timestamps_fields(timestamps).insert(
            "end"@,
            Json::Int(end as int),
        ),
;

/// `Assets::new` makes assets in which no field is set.
pub assume_specification<'a>[ RichAssets::<'a>::new ]() -> (assets: RichAssets<'a>)
    ensures
        assets_fields(assets) == json::no_fields(),
;

/// Calls `Activity::details`, which sets the field of that name.
#[verifier::external_body]
pub(crate) fn with_details<'a>(activity: RichActivity<'a>, details: &'a str) -> (updated:
    RichActivity<'a>)
    ensures
        activity_fields(updated) == activity_fields(activity).insert(
            "details"@,
            Json::Text(details@),
        ),
{
    activity.details(details)
}

/// Calls `Activity::state`, which sets the field of that name.
#[verifier::external_body]
pub(crate) fn with_state<'a>(activity: RichActivity<'a>, state: &'a str) -> (updated: RichActivity<
    'a,
>)
    ensures
        activity_fields(updated) == activity_fields(activity).insert("state"@, Json::Text(state@)),
{
    activity.state(state)
}

/// Calls `Assets::large_image`, which sets the field of that name.
#[verifier::external_body]
pub(crate) fn with_large_image<'a>(assets: RichAssets<'a>, image: &'a str) -> (updated: RichAssets<
    'a,
>)
    ensures
        assets_fields(updated) == assets_fields(assets).insert("large_image"@, Json::Text(image@)),
{
    assets.large_image(image)
}

/// Calls `Assets::large_text`, which sets the field of that name.
#[verifier::external_body]
pub(crate) fn with_large_text<'a>(assets: RichAssets<'a>, text: &'a str) -> (updated: RichAssets<
    'a,
>)
    ensures
        assets_fields(updated) == assets_fields(assets).insert("large_text"@, Json::Text(text@)),
{
    assets.large_text(text)
}

/// Calls `Assets::small_image`, which sets the field of that name.
#[verifier::external_body]
pub(crate) fn with_small_image<'a>(assets: RichAssets<'a>, image: &'a str) -> (updated: RichAssets<
    'a,
>)
    ensures
        assets_fields(updated) == assets_fields(assets).insert("small_image"@, Json::Text(image@)),
{
    assets.small_image(image)
}

/// Calls `Assets::small_text`, which sets the field of that name.
#[verifier::external_body]
pub(crate) fn with_small_text<'a>(assets: RichAssets<'a>, text: &'a str) -> (updated: RichAssets<
    'a,
>)
    ensures
        assets_fields(updated) == assets_fields(assets).insert("small_text"@, Json::Text(text@)),
{
    assets.small_text(text)
}

/// Calls `discord_rich_presence::activity::Button::new`: a button is its label
/// and its link.
#[verifier::external_body]
pub(crate) fn link_button<'a>(label: &'a str, url: &'a str) -> (button: RichButton<'a>)
    ensures
        button_fields(button) == button_object(label@, url@),
{
    RichButton::new(label, url)
}

/// Calls `serde_json::to_value` on an activity. An activity is a struct of
/// texts, integers, and structs and lists of those, so this does not fail, and
/// the value is an object with the activity's fields.
#[verifier::external_body]
pub(crate) fn activity_value(activity: &RichActivity) -> (value: Result<Value, serde_json::Error>)
    ensures
        value is Ok,
        json::value_json(value->Ok_0) == Json::Object(activity_fields(*activity)),
{
    serde_json::to_value(activity)
}

/// `serde_json::Error`.
#[verifier::external_type_specification]
#[verifier::external_body]
pub struct ExError(serde_json::Error);

/// The fields of a button.
pub open spec fn button_object(label: Seq<char>, url: Seq<char>) -> Map<Seq<char>, Json> {
    map!["label"@ => Json::Text(label), "url"@ => Json::Text(url)]
}

/// The buttons of an activity, as they are serialized.
pub open spec fn buttons_array(buttons: Seq<RichButton>) -> Json {
    Json::Array(buttons.map_values(|button: RichButton| Json::Object(button_fields(button))))
}

} // verus!
