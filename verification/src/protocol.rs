//! The byte-level screen protocol: command reports, payloads and responses.

use crate::consts::{APPROVED_VERSIONS, ZOOM65_PRODUCT_ID, ZOOM65_USAGE, ZOOM65_USAGE_PAGE, ZOOM65_VENDOR_ID};
use crate::types::{Icon, Zoom65Error, icon_code};
use vstd::prelude::*;

verus! {

/// Length of every report written to the keyboard (report id and 32 data bytes).
pub const REPORT_LEN: usize = 33;

/// Largest payload an update report can carry.
pub const MAX_PAYLOAD_LEN: usize = 27;

/// The update report for `method` carrying `payload`: report id 0, the bytes 88,
/// payload length + 3 and 165, the two method bytes, the payload, then zeros.
pub open spec fn update_report(method: [u8; 2], payload: Seq<u8>) -> Seq<u8> {
    seq![0u8, 88u8, (payload.len() + 3) as u8, 165u8, method[0], method[1]] + payload
        + Seq::new((MAX_PAYLOAD_LEN - payload.len()) as nat, |i: int| 0u8)
}

/// An update report is 33 bytes: the fixed header, the method, the payload and zero
/// padding; its length byte tells where the payload ends, so the method and the
/// payload can be read back out of it.
pub proof fn law_update_report_layout(method: [u8; 2], payload: Seq<u8>)
    requires
        payload.len() <= MAX_PAYLOAD_LEN,
    ensures
        update_report(method, payload).len() == REPORT_LEN,
        update_report(method, payload)[0] == 0u8,
        update_report(method, payload)[1] == 88u8,
        update_report(method, payload)[3] == 165u8,
        update_report(method, payload)[2] == payload.len() + 3,
        update_report(method, payload)[4] == method[0],
        update_report(method, payload)[5] == method[1],
        update_report(method, payload).subrange(6, 3 + update_report(method, payload)[2]) == payload,
        forall|i: int| 6 + payload.len() <= i < REPORT_LEN ==> update_report(method, payload)[i] == 0u8,
{
    let report = update_report(method, payload);
    assert(report.subrange(6, 6 + payload.len() as int) =~= payload);
}

/// Build the report that asks the keyboard to run update `method_id` with `payload`.
pub fn build_update_report(method_id: [u8; 2], payload: &[u8]) -> (report: [u8; 33])
    requires
        payload@.len() <= MAX_PAYLOAD_LEN,
    ensures
        report@ == update_report(method_id, payload@),
{
    let mut buf = [0u8; 33];
    buf[1] = 88;
    buf[2] = payload.len() as u8 + 3;
    buf[3] = 165;
    buf[4] = method_id[0];
    buf[5] = method_id[1];
    let mut i: usize = 0;
    while i < payload.len()
        invariant
            i <= payload@.len() <= MAX_PAYLOAD_LEN,
            buf@.len() == 33,
            buf@[0] == 0u8,
            buf@[1] == 88u8,
            buf@[2] == (payload@.len() + 3) as u8,
            buf@[3] == 165u8,
            buf@[4] == method_id[0],
            buf@[5] == method_id[1],
            forall|j: int| 0 <= j < i ==> buf@[6 + j] == payload@[j],
            forall|j: int| 6 + i <= j < 33 ==> buf@[j] == 0u8,
        decreases payload@.len() - i,
    {
        buf[6 + i] = payload[i];
        i = i + 1;
    }
    assert(buf@ =~= update_report(method_id, payload@));
    buf
}


/// What an update command's response means: the keyboard echoes 88 in its first
/// byte and reports success with a 1 in its third byte.
pub open spec fn update_outcome(response: Seq<u8>) -> Result<(), Zoom65Error> {
    if response.len() < 3 || response[0] != 88 {
        Err(Zoom65Error::UnexpectedResponse)
    } else if response[2] == 1 {
        Ok(())
    } else {
        Err(Zoom65Error::UpdateCommandFailed)
    }
}

/// An update is accepted exactly when the keyboard's answer has at least three
/// bytes, echoes 88 first and carries 1 in its third byte; an answer that echoes 88
/// with another third byte is a refusal; anything else is unexpected.
pub proof fn law_update_outcome(response: Seq<u8>)
    ensures
        (update_outcome(response) == Ok::<(), Zoom65Error>(())) <==> (response.len() >= 3 && response[0]
            == 88 && response[2] == 1),
        (update_outcome(response) == Err::<(), Zoom65Error>(Zoom65Error::UpdateCommandFailed)) <==> (
        response.len() >= 3 && response[0] == 88 && response[2] != 1),
        (update_outcome(response) == Err::<(), Zoom65Error>(Zoom65Error::UnexpectedResponse)) <==> !(
        response.len() >= 3 && response[0] == 88),
{
}

/// Interpret the keyboard's response to an update report.
pub fn check_update_response(response: &[u8]) -> (r: Result<(), Zoom65Error>)
    ensures
        r == update_outcome(response@),
{
    if response.len() < 3 || response[0] != 88 {
        Err(Zoom65Error::UnexpectedResponse)
    } else if response[2] == 1 {
        Ok(())
    } else {
        Err(Zoom65Error::UpdateCommandFailed)
    }
}

/// What a version query's response means: the keyboard echoes 1 in its first byte
/// and sends the version the web driver tracks in its third byte.
pub open spec fn version_outcome(response: Seq<u8>) -> Result<u8, Zoom65Error> {
    if response.len() >= 3 && response[0] == 1 {
        Ok(response[2])
    } else {
        Err(Zoom65Error::UnexpectedResponse)
    }
}

/// A version answer that has at least three bytes and echoes 1 first gives its
/// third byte as the version; any other answer is unexpected.
pub proof fn law_version_outcome(response: Seq<u8>)
    ensures
        response.len() >= 3 && response[0] == 1 ==> version_outcome(response) == Ok::<u8, Zoom65Error>(
            response[2],
        ),
        !(response.len() >= 3 && response[0] == 1) ==> version_outcome(response) == Err::<
            u8,
            Zoom65Error,
        >(Zoom65Error::UnexpectedResponse),
{
}

/// Read the firmware version out of the keyboard's response to a version query.
pub fn check_version_response(response: &[u8]) -> (r: Result<u8, Zoom65Error>)
    ensures
        r == version_outcome(response@),
{
    if response.len() >= 3 && response[0] == 1 {
        Ok(response[2])
    } else {
        Err(Zoom65Error::UnexpectedResponse)
    }
}

/// The firmware versions whose protocol is known.
pub open spec fn approved_version(version: u8) -> bool {
    APPROVED_VERSIONS@.contains(version)
}

/// Whether the driver knows firmware `version`.
pub fn is_approved_version(version: u8) -> (ok: bool)
    ensures
        ok == approved_version(version),
{
    let mut i: usize = 0;
    while i < APPROVED_VERSIONS.len()
        invariant
            i <= APPROVED_VERSIONS@.len(),
            forall|j: int| 0 <= j < i ==> APPROVED_VERSIONS@[j] != version,
        decreases APPROVED_VERSIONS@.len() - i,
    {
        if APPROVED_VERSIONS[i] == version {
            return true;
        }
        i = i + 1;
    }
    false
}

/// The ids by which a HID interface identifies itself.
#[derive(Debug, Clone, Copy, PartialEq, Eq, Structural)]
pub struct DeviceDescriptor {
    pub vendor_id: u16,
    pub product_id: u16,
    pub usage_page: u16,
    pub usage: u16,
}

/// Whether a HID interface is the keyboard's raw command interface.
pub open spec fn is_zoom65(d: DeviceDescriptor) -> bool {
    &&& d.vendor_id == ZOOM65_VENDOR_ID
    &&& d.product_id == ZOOM65_PRODUCT_ID
    &&& d.usage_page == ZOOM65_USAGE_PAGE
    &&& d.usage == ZOOM65_USAGE
}

impl DeviceDescriptor {
    /// Whether this is the keyboard's raw command interface.
    pub fn is_zoom65(&self) -> (ok: bool)
        ensures
            ok == is_zoom65(*self),
    {
        self.vendor_id == ZOOM65_VENDOR_ID && self.product_id == ZOOM65_PRODUCT_ID
            && self.usage_page == ZOOM65_USAGE_PAGE && self.usage == ZOOM65_USAGE
    }
}

/// The position of the first keyboard interface in `devices`, if any.
pub fn find_zoom65(devices: &[DeviceDescriptor]) -> (found: Option<usize>)
    ensures
        found matches Some(i) ==> i < devices@.len() && is_zoom65(devices@[i as int])
            && forall|j: int| 0 <= j < i ==> !is_zoom65(#[trigger] devices@[j]),
        found is None ==> forall|j: int| 0 <= j < devices@.len() ==> !is_zoom65(#[trigger] devices@[j]),
{
    let mut i: usize = 0;
    while i < devices.len()
        invariant
            i <= devices@.len(),
            forall|j: int| 0 <= j < i ==> !is_zoom65(#[trigger] devices@[j]),
        decreases devices@.len() - i,
    {
        if devices[i].is_zoom65() {
            return Some(i);
        }
        i = i + 1;
    }
    None
}

/// A wall-clock time broken into calendar fields.
#[derive(Debug, Clone, Copy, PartialEq, Eq, Structural)]
pub struct TimeFields {
    pub year: i32,
    pub month: u32,
    pub day: u32,
    pub hour: u32,
    pub minute: u32,
    pub second: u32,
}

/// `year % 100` as Rust computes it: the remainder takes the sign of the year.
pub open spec fn year_in_century(year: int) -> int {
    if year >= 0 {
        year % 100
    } else {
        -((-year) % 100)
    }
}

/// The year byte sent to the keyboard: the year without its century, so that the
/// clock keeps working past the year 2255.
pub open spec fn year_byte(year: int) -> u8 {
    year_in_century(year) as u8
}

/// The set-time payload: year without century, month, day, hour, minute, second.
pub open spec fn time_payload(time: TimeFields) -> Seq<u8> {
    seq![
        year_byte(time.year as int),
        time.month as u8,
        time.day as u8,
        time.hour as u8,
        time.minute as u8,
        time.second as u8,
    ]
}

/// The year byte drops the century: for every year from 0 on it is below 100 and
/// stays the same a century later, so no year overflows the byte.
pub proof fn law_year_byte_drops_century(year: int)
    requires
        year >= 0,
    ensures
        year_byte(year) == year % 100,
        year_byte(year) < 100,
        year_byte(year + 100) == year_byte(year),
{
}

/// The set-time payload is six bytes: the year within its century, then month,
/// day, hour, minute and second; fields in their calendar ranges pass unchanged.
pub proof fn law_time_payload_layout(time: TimeFields)
    ensures
        time_payload(time).len() == 6,
        time.year >= 0 ==> time_payload(time)[0] == time.year % 100,
        time.month < 256 ==> time_payload(time)[1] == time.month,
        time.day < 256 ==> time_payload(time)[2] == time.day,
        time.hour < 256 ==> time_payload(time)[3] == time.hour,
        time.minute < 256 ==> time_payload(time)[4] == time.minute,
        time.second < 256 ==> time_payload(time)[5] == time.second,
{
}

/// Build the set-time payload.
pub fn encode_time(time: &TimeFields) -> (payload: [u8; 6])
    ensures
        payload@ == time_payload(*time),
{
    let y: i32 = time.year % 100;
    assert(y == year_in_century(time.year as int));
    let payload = [
        y as u8,
        time.month as u8,
        time.day as u8,
        time.hour as u8,
        time.minute as u8,
        time.second as u8,
    ];
    assert(payload@ =~= time_payload(*time));
    payload
}


/// The set-weather payload: icon, current temperature, low, high.
pub open spec fn weather_payload(icon: Icon, current: u8, low: u8, high: u8) -> Seq<u8> {
    seq![icon_code(icon), current, low, high]
}

/// The set-weather payload is four bytes: the icon's firmware byte, then the
/// current, low and high temperatures in that order, for every icon and value.
pub proof fn law_weather_payload_layout(icon: Icon, current: u8, low: u8, high: u8)
    ensures
        weather_payload(icon, current, low, high).len() == 4,
        weather_payload(icon, current, low, high)[0] == icon_code(icon),
        weather_payload(icon, current, low, high)[1] == current,
        weather_payload(icon, current, low, high)[2] == low,
        weather_payload(icon, current, low, high)[3] == high,
        icon == Icon::DayClear ==> weather_payload(icon, current, low, high)[0] == 0u8,
        icon == Icon::DayPartlyCloudy ==> weather_payload(icon, current, low, high)[0] == 1u8,
        icon == Icon::DayPartlyRainy ==> weather_payload(icon, current, low, high)[0] == 2u8,
        icon == Icon::NightPartlyCloudy ==> weather_payload(icon, current, low, high)[0] == 3u8,
        icon == Icon::NightClear ==> weather_payload(icon, current, low, high)[0] == 4u8,
        icon == Icon::Cloudy ==> weather_payload(icon, current, low, high)[0] == 5u8,
        icon == Icon::Rainy ==> weather_payload(icon, current, low, high)[0] == 6u8,
        icon == Icon::Snowfall ==> weather_payload(icon, current, low, high)[0] == 7u8,
        icon == Icon::Thunderstorm ==> weather_payload(icon, current, low, high)[0] == 8u8,
{
}

/// Build the set-weather payload.
pub fn encode_weather(icon: Icon, current: u8, low: u8, high: u8) -> (payload: [u8; 4])
    ensures
        payload@ == weather_payload(icon, current, low, high),
{
    let payload = [icon.code(), current, low, high];
    assert(payload@ =~= weather_payload(icon, current, low, high));
    payload
}

/// The set-system-info payload: cpu temperature, gpu temperature, and the two
/// bytes of the download rate.
pub open spec fn system_info_payload(cpu_temp: u8, gpu_temp: u8, download_m: u8, download_r: u8) -> Seq<u8> {
    seq![cpu_temp, gpu_temp, download_m, download_r]
}

/// The set-system-info payload is four bytes: the CPU reading, the GPU reading,
/// then the two download-rate bytes, in that order whatever their values.
pub proof fn law_system_info_payload_layout(cpu_temp: u8, gpu_temp: u8, download_m: u8, download_r: u8)
    ensures
        system_info_payload(cpu_temp, gpu_temp, download_m, download_r).len() == 4,
        system_info_payload(cpu_temp, gpu_temp, download_m, download_r)[0] == cpu_temp,
        system_info_payload(cpu_temp, gpu_temp, download_m, download_r)[1] == gpu_temp,
        system_info_payload(cpu_temp, gpu_temp, download_m, download_r)[2] == download_m,
        system_info_payload(cpu_temp, gpu_temp, download_m, download_r)[3] == download_r,
{
}

/// Build the set-system-info payload.
pub fn encode_system_info(cpu_temp: u8, gpu_temp: u8, download_m: u8, download_r: u8) -> (payload: [u8; 4])
    ensures
        payload@ == system_info_payload(cpu_temp, gpu_temp, download_m, download_r),
{
    let payload = [cpu_temp, gpu_temp, download_m, download_r];
    assert(payload@ =~= system_info_payload(cpu_temp, gpu_temp, download_m, download_r));
    payload
}

} // verus!
