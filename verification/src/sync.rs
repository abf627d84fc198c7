//! The decisions of one sync pass: what to send for system info, and how the
//! weather report is obtained and sent.

use crate::types::{wmo_icon, Icon};
use vstd::prelude::*;

verus! {

/// Highest temperature the screen can show.
pub const MAX_SHOWN_TEMP: u8 = 99;

/// A temperature as the screen shows it: readings of 100 or more become 99.
pub open spec fn shown_temperature(temp: u8) -> u8 {
    if temp >= 100 {
        MAX_SHOWN_TEMP
    } else {
        temp
    }
}

/// Clamp a temperature reading to what the screen can show.
pub fn clamp_temperature(temp: u8) -> (shown: u8)
    ensures
        shown == shown_temperature(temp),
{
    if temp >= 100 {
        MAX_SHOWN_TEMP
    } else {
        temp
    }
}

/// The screen never gets a temperature above 99; readings it can show pass unchanged,
/// and clamping twice is clamping once.
pub proof fn law_shown_temperature(temp: u8)
    ensures
        shown_temperature(temp) <= 99,
        temp <= 99 ==> shown_temperature(temp) == temp,
        temp >= 100 ==> shown_temperature(temp) == 99,
        shown_temperature(shown_temperature(temp)) == shown_temperature(temp),
{
}

/// Hours (0 to 23) that count as day for choosing weather icons: 6 through 18.
pub open spec fn daytime_hour(hour: u32) -> bool {
    6 <= hour <= 18
}

/// Whether `hour` counts as day for choosing weather icons.
pub fn is_daytime(hour: u32) -> (day: bool)
    ensures
        day == daytime_hour(hour),
{
    6 <= hour && hour <= 18
}

/// Where the weather report comes from.
#[derive(Debug, Clone, Copy, PartialEq, Eq, Structural)]
pub enum WeatherMode {
    /// Weather is not updated.
    Disabled,
    /// Weather is fetched for the user's coordinates; `has_coords` tells whether
    /// coordinates are known yet (given by the user or found by geolocation).
    Auto { has_coords: bool },
    /// The user gave the weather: a WMO code and three temperatures.
    Manual { wmo: u8, current: u8, min: u8, max: u8 },
}

/// What happened since the last step of the weather pass.
#[derive(Debug, Clone, Copy, PartialEq, Eq, Structural)]
pub enum WeatherEvent {
    /// A sync pass begins at local `hour`.
    Tick { hour: u32 },
    /// Geolocation found coordinates.
    CoordsFound,
    /// Geolocation failed.
    CoordsFailed,
    /// The forecast service answered: icon and temperatures, already in screen units.
    ForecastReady { icon: Icon, current: u8, min: u8, max: u8 },
    /// The forecast service failed.
    ForecastFailed,
}

/// What the sync loop does next for the weather.
#[derive(Debug, Clone, Copy, PartialEq, Eq, Structural)]
pub enum WeatherAction {
    /// Nothing more to do for the weather in this pass.
    Skip,
    /// Look up the coordinates by geolocation.
    FetchCoords,
    /// Fetch the forecast for the known coordinates.
    FetchForecast,
    /// Send this weather report to the keyboard.
    Send { icon: Icon, current: u8, low: u8, high: u8 },
    /// The user's WMO code has no icon: the pass fails.
    UnknownWmo,
}

/// The weather pass as a state machine: the next mode and action after `event`.
pub open spec fn weather_transition(mode: WeatherMode, event: WeatherEvent) -> (WeatherMode, WeatherAction) {
    match (mode, event) {
        (WeatherMode::Auto { has_coords: false }, WeatherEvent::Tick { .. }) => (mode, WeatherAction::FetchCoords),
        (WeatherMode::Auto { has_coords: true }, WeatherEvent::Tick { .. }) => (mode, WeatherAction::FetchForecast),
        (WeatherMode::Auto { .. }, WeatherEvent::CoordsFound) => (
            WeatherMode::Auto { has_coords: true },
            WeatherAction::FetchForecast,
        ),
        (WeatherMode::Auto { .. }, WeatherEvent::ForecastReady { icon, current, min, max }) => (
            mode,
            WeatherAction::Send { icon, current, low: min, high: max },
        ),
        (WeatherMode::Manual { wmo, current, min, max }, WeatherEvent::Tick { hour }) => (
            mode,
            match wmo_icon(wmo, daytime_hour(hour)) {
                Some(icon) => WeatherAction::Send { icon, current, low: min, high: max },
                None => WeatherAction::UnknownWmo,
            },
        ),
        _ => (mode, WeatherAction::Skip),
    }
}

/// Once coordinates are known they are kept, and geolocation is never asked again.
pub proof fn law_coords_looked_up_once(event: WeatherEvent)
    ensures
        weather_transition(WeatherMode::Auto { has_coords: true }, event).0 == (WeatherMode::Auto {
            has_coords: true,
        }),
        weather_transition(WeatherMode::Auto { has_coords: true }, event).1 != WeatherAction::FetchCoords,
{
}

/// Coordinates become known only when geolocation finds them.
pub proof fn law_coords_only_from_geolocation(event: WeatherEvent)
    ensures
        weather_transition(WeatherMode::Auto { has_coords: false }, event).0 == (WeatherMode::Auto {
            has_coords: true,
        }) <==> event == WeatherEvent::CoordsFound,
{
}

/// With weather disabled nothing is fetched or sent.
pub proof fn law_disabled_weather_skips(event: WeatherEvent)
    ensures
        weather_transition(WeatherMode::Disabled, event) == (WeatherMode::Disabled, WeatherAction::Skip),
{
}

/// Manually given weather never fetches anything, and the mode never changes.
pub proof fn law_manual_weather_never_fetches(mode: WeatherMode, event: WeatherEvent)
    requires
        mode is Manual,
    ensures
        weather_transition(mode, event).0 == mode,
        weather_transition(mode, event).1 != WeatherAction::FetchCoords,
        weather_transition(mode, event).1 != WeatherAction::FetchForecast,
{
}

/// Manual weather at a pass starting at `hour` sends the day icon for the WMO code
/// from 6:00 through 18:59 and the night icon at every other hour, with the given
/// temperatures (minimum as low, maximum as high); a code with no icon fails the pass.
pub proof fn law_manual_weather_icon_by_hour(wmo: u8, current: u8, min: u8, max: u8, hour: u32)
    ensures
        ({
            let mode = WeatherMode::Manual { wmo, current, min, max };
            let step = weather_transition(mode, WeatherEvent::Tick { hour });
            &&& step.0 == mode
            &&& (6 <= hour && hour <= 18) ==> match wmo_icon(wmo, true) {
                Some(icon) => step.1 == (WeatherAction::Send { icon, current, low: min, high: max }),
                None => step.1 == WeatherAction::UnknownWmo,
            }
            &&& (hour < 6 || hour > 18) ==> match wmo_icon(wmo, false) {
                Some(icon) => step.1 == (WeatherAction::Send { icon, current, low: min, high: max }),
                None => step.1 == WeatherAction::UnknownWmo,
            }
            &&& (hour < 6 || hour > 18) && wmo <= 1 ==> step.1 == (WeatherAction::Send {
                icon: Icon::NightClear,
                current,
                low: min,
                high: max,
            })
            &&& (6 <= hour && hour <= 18) && wmo <= 1 ==> step.1 == (WeatherAction::Send {
                icon: Icon::DayClear,
                current,
                low: min,
                high: max,
            })
        }),
{
}

/// A fetched forecast is sent with its minimum as the low and its maximum as the
/// high, whatever the coordinate state.
pub proof fn law_forecast_sent_min_low_max_high(has_coords: bool, icon: Icon, current: u8, min: u8, max: u8)
    ensures
        weather_transition(
            WeatherMode::Auto { has_coords },
            WeatherEvent::ForecastReady { icon, current, min, max },
        ).1 == (WeatherAction::Send { icon, current, low: min, high: max }),
{
}

/// One step of the weather pass. With automatic weather the coordinates are looked
/// up once and then reused, and the fetched forecast is sent with its minimum as the
/// low and its maximum as the high. With manual weather the icon follows the WMO
/// code and the hour of the pass.
pub fn weather_step(mode: WeatherMode, event: WeatherEvent) -> (next: (WeatherMode, WeatherAction))
    ensures
        next == weather_transition(mode, event),
{
    match (mode, event) {
        (WeatherMode::Auto { has_coords: false }, WeatherEvent::Tick { .. }) => (mode, WeatherAction::FetchCoords),
        (WeatherMode::Auto { has_coords: true }, WeatherEvent::Tick { .. }) => (mode, WeatherAction::FetchForecast),
        (WeatherMode::Auto { .. }, WeatherEvent::CoordsFound) => (
            WeatherMode::Auto { has_coords: true },
            WeatherAction::FetchForecast,
        ),
        (WeatherMode::Auto { .. }, WeatherEvent::ForecastReady { icon, current, min, max }) => (
            mode,
            WeatherAction::Send { icon, current, low: min, high: max },
        ),
        (WeatherMode::Manual { wmo, current, min, max }, WeatherEvent::Tick { hour }) => (
            mode,
            match Icon::from_wmo(wmo, is_daytime(hour)) {
                Some(icon) => WeatherAction::Send { icon, current, low: min, high: max },
                None => WeatherAction::UnknownWmo,
            },
        ),
        _ => (mode, WeatherAction::Skip),
    }
}

} // verus!
