//! Weather icons shown by the screen module, and the errors of the driver.

use hidapi::HidError;
use vstd::prelude::*;

verus! {

/// `hidapi::HidError`, carried through opaquely.
#[verifier::external_type_specification]
#[verifier::external_body]
pub struct ExHidError(hidapi::HidError);

/// Everything that can go wrong while talking to the keyboard.
#[derive(Debug)]
pub enum Zoom65Error {
    /// No attached HID interface has the keyboard's ids.
    DeviceNotFound,
    /// The keyboard runs a firmware version this driver does not know.
    UnknownFirmwareVersion,
    /// The keyboard answered an update with a failure code.
    UpdateCommandFailed,
    /// The keyboard's answer was too short or answered another command.
    UnexpectedResponse,
    /// The HID layer failed.
    Hid(HidError),
}

/// Calls `HidError`'s `Display`, the hidapi error's own message. The text comes
/// from hidapi and, for system errors, from the operating system: nothing is stated of it.
#[verifier::external_body]
fn hid_error_message(e: &HidError) -> (m: String) {
    e.to_string()
}

impl Zoom65Error {
    /// The message that describes this error.
    pub fn message(&self) -> (m: String)
        ensures
            self is DeviceNotFound ==> m@ == "failed to find device"@,
            self is UnknownFirmwareVersion ==> m@ == "firmware version is unknown. open an issue for support"@,
            self is UpdateCommandFailed ==> m@
                == "keyboard responded with error while updating, byte 1 == 88 && byte 2 == 0"@,
            self is UnexpectedResponse ==> m@
                == "keyboard sent a response that does not answer the command"@,
    {
        broadcast use vstd::string::to_string_from_display_ensures_for_str;

        match self {
            Zoom65Error::DeviceNotFound => "failed to find device".to_string(),
            Zoom65Error::UnknownFirmwareVersion => "firmware version is unknown. open an issue for support".to_string(),
            Zoom65Error::UpdateCommandFailed => "keyboard responded with error while updating, byte 1 == 88 && byte 2 == 0".to_string(),
            Zoom65Error::UnexpectedResponse => "keyboard sent a response that does not answer the command".to_string(),
            Zoom65Error::Hid(e) => hid_error_message(e),
        }
    }
}

/// A weather icon that the screen module can display.
#[derive(Debug, Clone, Copy, PartialEq, Eq, Structural)]
pub enum Icon {
    DayClear,
    DayPartlyCloudy,
    DayPartlyRainy,
    NightPartlyCloudy,
    NightClear,
    Cloudy,
    Rainy,
    Snowfall,
    Thunderstorm,
}

/// The byte the keyboard firmware uses for each icon.
pub open spec fn icon_code(icon: Icon) -> u8 {
    match icon {
        Icon::DayClear => 0,
        Icon::DayPartlyCloudy => 1,
        Icon::DayPartlyRainy => 2,
        Icon::NightPartlyCloudy => 3,
        Icon::NightClear => 4,
        Icon::Cloudy => 5,
        Icon::Rainy => 6,
        Icon::Snowfall => 7,
        Icon::Thunderstorm => 8,
    }
}

/// The icon for a WMO weather interpretation code, adapted to day or night.
/// Codes that the screen has no icon for map to `None`.
pub open spec fn wmo_icon(wmo: u8, is_day: bool) -> Option<Icon> {
    if wmo == 0 || wmo == 1 {
        Some(if is_day { Icon::DayClear } else { Icon::NightClear })
    } else if wmo == 2 {
        Some(if is_day { Icon::DayPartlyCloudy } else { Icon::NightPartlyCloudy })
    } else if wmo == 3 || wmo == 45 || wmo == 48 {
        Some(Icon::Cloudy)
    } else if wmo == 51 || wmo == 53 || wmo == 55 || wmo == 56 || wmo == 57 || wmo == 61
        || wmo == 63 || wmo == 65 || wmo == 66 || wmo == 67 {
        Some(Icon::Rainy)
    } else if 80 <= wmo <= 82 {
        Some(if is_day { Icon::DayPartlyRainy } else { Icon::Rainy })
    } else if wmo == 71 || wmo == 73 || wmo == 75 || wmo == 77 || wmo == 85 || wmo == 86 {
        Some(Icon::Snowfall)
    } else if wmo == 95 || wmo == 96 || wmo == 99 {
        Some(Icon::Thunderstorm)
    } else {
        None
    }
}

/// Each icon has its own byte, and the bytes run from 0 to 8.
pub proof fn law_icon_codes_distinct(a: Icon, b: Icon)
    ensures
        icon_code(a) < 9,
        icon_code(a) == icon_code(b) ==> a == b,
{
}

/// Day or night only matters for clear, mainly clear, partly cloudy and rain-shower
/// codes (0, 1, 2 and 80 to 82); every other code gets the same icon, or none, either way.
pub proof fn law_wmo_day_night(wmo: u8)
    ensures
        !(wmo <= 2 || 80 <= wmo <= 82) ==> wmo_icon(wmo, true) == wmo_icon(wmo, false),
        wmo_icon(wmo, true) is Some <==> wmo_icon(wmo, false) is Some,
{
}

/// The icons that depend on daylight come in pairs: codes 0 and 1 are the clear
/// sky (sun by day, moon by night), code 2 is partly cloudy, and codes 80 to 82 are
/// rain showers (partly rainy by day, rainy by night). No other code gives these
/// day or night icons.
pub proof fn law_wmo_daylight_pairs(wmo: u8)
    ensures
        (wmo_icon(wmo, true) == Some(Icon::DayClear)) <==> wmo <= 1,
        (wmo_icon(wmo, false) == Some(Icon::NightClear)) <==> wmo <= 1,
        (wmo_icon(wmo, true) == Some(Icon::DayPartlyCloudy)) <==> wmo == 2,
        (wmo_icon(wmo, false) == Some(Icon::NightPartlyCloudy)) <==> wmo == 2,
        (wmo_icon(wmo, true) == Some(Icon::DayPartlyRainy)) <==> 80 <= wmo <= 82,
        wmo_icon(wmo, false) != Some(Icon::DayClear),
        wmo_icon(wmo, false) != Some(Icon::DayPartlyCloudy),
        wmo_icon(wmo, false) != Some(Icon::DayPartlyRainy),
        wmo_icon(wmo, true) != Some(Icon::NightClear),
        wmo_icon(wmo, true) != Some(Icon::NightPartlyCloudy),
{
}

/// The firmware byte of each icon, in the order the screen numbers them.
pub proof fn law_icon_code_table(icon: Icon)
    ensures
        icon == Icon::DayClear <==> icon_code(icon) == 0,
        icon == Icon::DayPartlyCloudy <==> icon_code(icon) == 1,
        icon == Icon::DayPartlyRainy <==> icon_code(icon) == 2,
        icon == Icon::NightPartlyCloudy <==> icon_code(icon) == 3,
        icon == Icon::NightClear <==> icon_code(icon) == 4,
        icon == Icon::Cloudy <==> icon_code(icon) == 5,
        icon == Icon::Rainy <==> icon_code(icon) == 6,
        icon == Icon::Snowfall <==> icon_code(icon) == 7,
        icon == Icon::Thunderstorm <==> icon_code(icon) == 8,
{
}

impl Icon {
    /// Convert a WMO index into a weather icon, adapting for day and night.
    /// Adapted from the list at the bottom of <https://open-meteo.com/en/docs>
    pub fn from_wmo(wmo: u8, is_day: bool) -> (icon: Option<Icon>)
        ensures
            icon == wmo_icon(wmo, is_day),
    {
        match wmo {
            // clear and mainly clear
            0 | 1 => Some(if is_day { Icon::DayClear } else { Icon::NightClear }),
            // partly cloudy
            2 => Some(if is_day { Icon::DayPartlyCloudy } else { Icon::NightPartlyCloudy }),
            // overcast, foggy
            3 | 45 | 48 => Some(Icon::Cloudy),
            // drizzle, freezing drizzle, rain, freezing rain
            51 | 53 | 55 | 56 | 57 | 61 | 63 | 65 | 66 | 67 => Some(Icon::Rainy),
            // rain showers
            80..=82 => Some(if is_day { Icon::DayPartlyRainy } else { Icon::Rainy }),
            // snowfall, snow showers
            71 | 73 | 75 | 77 | 85 | 86 => Some(Icon::Snowfall),
            // thunderstorm
            95 | 96 | 99 => Some(Icon::Thunderstorm),
            // unknown
            _ => None,
        }
    }

    /// The byte that selects this icon on the screen.
    pub fn code(&self) -> (c: u8)
        ensures
            c == icon_code(*self),
    {
        match self {
            Icon::DayClear => 0,
            Icon::DayPartlyCloudy => 1,
            Icon::DayPartlyRainy => 2,
            Icon::NightPartlyCloudy => 3,
            Icon::NightClear => 4,
            Icon::Cloudy => 5,
            Icon::Rainy => 6,
            Icon::Snowfall => 7,
            Icon::Thunderstorm => 8,
        }
    }
}

} // verus!
