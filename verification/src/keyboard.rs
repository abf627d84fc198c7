//! The keyboard handle: finds the screen module's HID interface and exchanges
//! command reports with it.

use crate::consts::APPROVED_VERSIONS;
use crate::consts::commands::{
    ZOOM65_RESET_SCREEN_ID, ZOOM65_SCREEN_DOWN, ZOOM65_SCREEN_SWITCH, ZOOM65_SCREEN_UP,
    ZOOM65_SET_SYSINFO_ID, ZOOM65_SET_TIME_ID, ZOOM65_SET_WEATHER_ID, ZOOM65_VERSION_CMD,
};
use crate::hid::{descriptor_of, hid_api_new, hid_device_at, hid_device_list, HidLink};
use crate::protocol::{
    approved_version, build_update_report, check_update_response, check_version_response,
    encode_system_info, encode_time, encode_weather, find_zoom65, is_approved_version, is_zoom65,
    system_info_payload, time_payload, update_outcome, update_report, version_outcome,
    weather_payload, DeviceDescriptor, TimeFields, MAX_PAYLOAD_LEN,
};
use crate::types::{Icon, Zoom65Error};
use hidapi::HidApi;
use vstd::prelude::*;

verus! {

/// Every entry of a hidapi context's device list, as descriptors.
fn device_descriptors(api: &HidApi) -> (v: Vec<DeviceDescriptor>)
    ensures
        v@ == hid_device_list(*api).map_values(|e: (u16, u16, u16, u16)| descriptor_of(e)),
{
    let ghost list = hid_device_list(*api);
    let mut v: Vec<DeviceDescriptor> = Vec::new();
    let mut index: usize = 0;
    let mut more = true;
    while more
        invariant
            list == hid_device_list(*api),
            index == v@.len(),
            index <= list.len(),
            more || index == list.len(),
            forall|j: int| 0 <= j < index ==> v@[j] == descriptor_of(#[trigger] list[j]),
        decreases list.len() - index + if more { 1int } else { 0int },
    {
        match hid_device_at(api, index) {
            Some(d) => {
                v.push(d);
                index = index + 1;
            },
            None => {
                more = false;
            },
        }
    }
    assert(v@ =~= list.map_values(|e: (u16, u16, u16, u16)| descriptor_of(e)));
    v
}

/// No entry of a device list is a keyboard interface.
pub open spec fn no_zoom65(list: Seq<(u16, u16, u16, u16)>) -> bool {
    forall|j: int| 0 <= j < list.len() ==> !is_zoom65(descriptor_of(#[trigger] list[j]))
}

/// Entry `i` of a device list is its first keyboard interface.
pub open spec fn first_zoom65(list: Seq<(u16, u16, u16, u16)>, i: int) -> bool {
    &&& 0 <= i < list.len()
    &&& is_zoom65(descriptor_of(list[i]))
    &&& forall|j: int| 0 <= j < i ==> !is_zoom65(descriptor_of(#[trigger] list[j]))
}

/// `keyboard` has sent only the version query and read back the one reply, and
/// that reply means `verdict`.
pub open spec fn answered_version_query(keyboard: Zoom65v3, verdict: Result<u8, Zoom65Error>) -> bool {
    &&& keyboard.sent() == seq![ZOOM65_VERSION_CMD@]
    &&& keyboard.received().len() == 1
    &&& firmware_outcome(keyboard.received()[0]) == verdict
}

/// `keyboard` was opened from the first keyboard interface of `list`, has sent only
/// the version query, and its one reply means `verdict`.
pub open spec fn checked_first_zoom65(
    list: Seq<(u16, u16, u16, u16)>,
    keyboard: Zoom65v3,
    verdict: Result<u8, Zoom65Error>,
) -> bool {
    &&& first_zoom65(list, keyboard.device_index() as int)
    &&& answered_version_query(keyboard, verdict)
}

/// A device list either has no keyboard interface or exactly one first one, and
/// the first one has the keyboard's four ids.
pub proof fn law_first_zoom65(list: Seq<(u16, u16, u16, u16)>, i: int, k: int)
    ensures
        no_zoom65(list) ==> !first_zoom65(list, i),
        first_zoom65(list, i) && first_zoom65(list, k) ==> i == k,
        first_zoom65(list, i) ==> {
            &&& list[i].0 == 0x36B5u16
            &&& list[i].1 == 0x287Fu16
            &&& list[i].2 == 0xFF60u16
            &&& list[i].3 == 0x61u16
        },
        0 <= i < list.len() && list[i] == (0x36B5u16, 0x287Fu16, 0xFF60u16, 0x61u16) ==> !no_zoom65(list),
{
    if first_zoom65(list, i) && first_zoom65(list, k) {
        if i < k {
            assert(!is_zoom65(descriptor_of(list[i])));
        } else if k < i {
            assert(!is_zoom65(descriptor_of(list[k])));
        }
    }
}

/// A well-formed version reply (first byte 1, at least three bytes) is accepted
/// exactly when its version byte is one of `APPROVED_VERSIONS`, and is refused as
/// unknown firmware exactly when it is not; any other reply is unexpected.
pub proof fn law_firmware_accepts_approved_versions(response: Seq<u8>)
    ensures
        response.len() >= 3 && response[0] == 1 ==> {
            &&& (firmware_outcome(response) == Ok::<u8, Zoom65Error>(response[2])
                <==> APPROVED_VERSIONS@.contains(response[2]))
            &&& (firmware_outcome(response) == Err::<u8, Zoom65Error>(Zoom65Error::UnknownFirmwareVersion)
                <==> !APPROVED_VERSIONS@.contains(response[2]))
        },
        !(response.len() >= 3 && response[0] == 1) ==> firmware_outcome(response)
            == Err::<u8, Zoom65Error>(Zoom65Error::UnexpectedResponse),
{
}

/// What a version query's response means for opening the keyboard: the version
/// when it is one this driver knows, `UnknownFirmwareVersion` when it is not.
pub open spec fn firmware_outcome(response: Seq<u8>) -> Result<u8, Zoom65Error> {
    match version_outcome(response) {
        Ok(version) => if approved_version(version) {
            Ok(version)
        } else {
            Err(Zoom65Error::UnknownFirmwareVersion)
        },
        Err(e) => Err(e),
    }
}

/// High level abstraction for managing a zoom65 v3 keyboard.
pub struct Zoom65v3 {
    link: HidLink,
    buf: [u8; 64],
}

impl Zoom65v3 {
    /// The reports the keyboard's device accepted so far (`HidDevice::write`
    /// returned `Ok`), oldest first.
    pub closed spec fn sent(&self) -> Seq<Seq<u8>> {
        self.link.sent()
    }

    /// The input reports read from the keyboard's device so far, oldest first.
    pub closed spec fn received(&self) -> Seq<Seq<u8>> {
        self.link.received()
    }

    /// The position of the opened device in the hidapi device list it was found in.
    pub closed spec fn device_index(&self) -> nat {
        self.link.index()
    }

    /// `next` is `self` after `report` was written and one response was read back.
    pub open spec fn exchanged(self, next: Self, report: Seq<u8>) -> bool {
        &&& next.device_index() == self.device_index()
        &&& next.sent() == self.sent().push(report)
        &&& next.received().len() == self.received().len() + 1
        &&& next.received().drop_last() == self.received()
    }

    /// `next` is `self` after writing `report` or reading its response failed: at most
    /// the report was written, and nothing was read.
    pub open spec fn io_failed(self, next: Self, report: Seq<u8>) -> bool {
        &&& next.device_index() == self.device_index()
        &&& next.received() == self.received()
        &&& (next.sent() == self.sent() || next.sent() == self.sent().push(report))
    }

    /// The last response read back.
    pub open spec fn last_response(self) -> Seq<u8> {
        self.received().last()
    }

    /// `next` is `self` after a version query that returned `r`.
    pub open spec fn version_queried(self, next: Self, r: Result<u8, Zoom65Error>) -> bool {
        if r matches Err(Zoom65Error::Hid(_)) {
            self.io_failed(next, ZOOM65_VERSION_CMD@)
        } else {
            self.exchanged(next, ZOOM65_VERSION_CMD@) && r == version_outcome(next.last_response())
        }
    }

    /// `next` is `self` after a firmware check that returned `r`.
    pub open spec fn firmware_checked(self, next: Self, r: Result<u8, Zoom65Error>) -> bool {
        if r matches Err(Zoom65Error::Hid(_)) {
            self.io_failed(next, ZOOM65_VERSION_CMD@)
        } else {
            self.exchanged(next, ZOOM65_VERSION_CMD@) && r == firmware_outcome(next.last_response())
        }
    }

    /// `next` is `self` after update `method` with `payload` returned `r`.
    pub open spec fn updated(
        self,
        next: Self,
        method: [u8; 2],
        payload: Seq<u8>,
        r: Result<(), Zoom65Error>,
    ) -> bool {
        if r matches Err(Zoom65Error::Hid(_)) {
            self.io_failed(next, update_report(method, payload))
        } else {
            self.exchanged(next, update_report(method, payload)) && r == update_outcome(next.last_response())
        }
    }

    /// An update is reported as done only when its report was written and the
    /// keyboard's answer echoed the update command (88) with the success code 1;
    /// any answer the keyboard gives leaves exactly one more report and response.
    pub proof fn law_update_acknowledged(
        self,
        next: Self,
        method: [u8; 2],
        payload: Seq<u8>,
        r: Result<(), Zoom65Error>,
    )
        requires
            self.updated(next, method, payload, r),
        ensures
            r is Ok ==> {
                &&& next.sent() == self.sent().push(update_report(method, payload))
                &&& next.last_response().len() >= 3
                &&& next.last_response()[0] == 88u8
                &&& next.last_response()[2] == 1u8
            },
            !(r matches Err(Zoom65Error::Hid(_))) ==> {
                &&& next.sent().len() == self.sent().len() + 1
                &&& next.received().len() == self.received().len() + 1
            },
            r matches Err(Zoom65Error::Hid(_)) ==> next.received() == self.received(),
    {
    }

    /// Find and open the device for modifications. The keyboard is accepted exactly
    /// when its answer to the version query is a version this driver knows; any other
    /// answer is the error that answer means.
    pub fn open() -> (r: Result<Zoom65v3, Zoom65Error>)
        ensures
            r matches Ok(keyboard) ==> answered_version_query(
                keyboard,
                firmware_outcome(keyboard.received()[0]),
            ) && firmware_outcome(keyboard.received()[0]) is Ok,
            r matches Err(e) ==> e is DeviceNotFound || e is Hid || exists|keyboard: Zoom65v3|
                #[trigger] answered_version_query(keyboard, Err(e)),
            r matches Err(Zoom65Error::DeviceNotFound) ==> exists|api: HidApi|
                #[trigger] no_zoom65(hid_device_list(api)),
            r matches Ok(keyboard) ==> exists|api: HidApi|
                #[trigger] checked_first_zoom65(
                    hid_device_list(api),
                    keyboard,
                    firmware_outcome(keyboard.received()[0]),
                ),
            r matches Err(e) ==> e is DeviceNotFound || e is Hid || exists|api: HidApi, keyboard: Zoom65v3|
                #[trigger] checked_first_zoom65(hid_device_list(api), keyboard, Err(e)),
            !(r matches Err(Zoom65Error::UpdateCommandFailed)),
    {
        let api = match hid_api_new() {
            Ok(api) => api,
            Err(e) => return Err(Zoom65Error::Hid(e)),
        };
        let r = Self::open_in(&api);
        proof {
            if r is Ok {
                let keyboard = r->Ok_0;
                assert(checked_first_zoom65(
                    hid_device_list(api),
                    keyboard,
                    firmware_outcome(keyboard.received()[0]),
                ));
            }
            if r matches Err(Zoom65Error::DeviceNotFound) {
                assert(no_zoom65(hid_device_list(api)));
            }
            if r is Err {
                let e = r->Err_0;
                if !(e is DeviceNotFound || e is Hid) {
                    let keyboard = choose|keyboard: Zoom65v3|
                        #[trigger] checked_first_zoom65(hid_device_list(api), keyboard, Err(e));
                    assert(answered_version_query(keyboard, Err(e)));
                }
            }
        }
        r
    }

    /// Open the first keyboard interface in the device list of `api`, and check
    /// that its firmware version is one this driver knows. The keyboard is accepted
    /// exactly when its answer to the version query is a known version; any other
    /// answer is the error that answer means (`UnknownFirmwareVersion` for a version
    /// this driver does not know, `UnexpectedResponse` for a malformed answer).
    pub fn open_in(api: &HidApi) -> (r: Result<Zoom65v3, Zoom65Error>)
        ensures
            (r matches Err(Zoom65Error::DeviceNotFound)) <==> no_zoom65(hid_device_list(*api)),
            r matches Ok(keyboard) ==> checked_first_zoom65(
                hid_device_list(*api),
                keyboard,
                firmware_outcome(keyboard.received()[0]),
            ) && firmware_outcome(keyboard.received()[0]) is Ok,
            r matches Err(e) ==> e is DeviceNotFound || e is Hid || exists|keyboard: Zoom65v3|
                #[trigger] checked_first_zoom65(hid_device_list(*api), keyboard, Err(e)),
            !(r matches Err(Zoom65Error::UpdateCommandFailed)),
    {
        let ghost list = hid_device_list(*api);
        let devices = device_descriptors(api);
        let index = match find_zoom65(devices.as_slice()) {
            Some(index) => index,
            None => {
                assert forall|j: int| 0 <= j < list.len() implies !is_zoom65(
                    descriptor_of(#[trigger] list[j]),
                ) by {
                    assert(devices@[j] == descriptor_of(list[j]));
                }
                return Err(Zoom65Error::DeviceNotFound);
            },
        };
        assert forall|j: int| 0 <= j < index implies !is_zoom65(descriptor_of(#[trigger] list[j])) by {
            assert(devices@[j] == descriptor_of(list[j]));
        }
        assert(devices@[index as int] == descriptor_of(list[index as int]));
        assert(!no_zoom65(list));
        let link = match HidLink::open_at(api, index) {
            Ok(link) => link,
            Err(e) => return Err(Zoom65Error::Hid(e)),
        };
        let mut this = Zoom65v3 { link, buf: [0u8; 64] };
        let verdict = this.check_firmware();
        proof {
            if !(verdict matches Err(Zoom65Error::Hid(_))) {
                assert(this.sent() =~= seq![ZOOM65_VERSION_CMD@]);
                assert(checked_first_zoom65(list, this, verdict));
            }
        }
        match verdict {
            Ok(_) => Ok(this),
            Err(e) => Err(e),
        }
    }

    /// Ask the keyboard for its firmware version and accept it only when this
    /// driver knows it.
    pub fn check_firmware(&mut self) -> (r: Result<u8, Zoom65Error>)
        ensures
            old(self).firmware_checked(*final(self), r),
    {
        match self.get_version() {
            Ok(version) => {
                if is_approved_version(version) {
                    Ok(version)
                } else {
                    Err(Zoom65Error::UnknownFirmwareVersion)
                }
            },
            Err(e) => Err(e),
        }
    }

    /// Write `report` and read back one response.
    fn exchange(&mut self, report: &[u8]) -> (r: Result<Vec<u8>, Zoom65Error>)
        ensures
            r matches Ok(response) ==> {
                &&& final(self).device_index() == old(self).device_index()
                &&& final(self).sent() == old(self).sent().push(report@)
                &&& final(self).received() == old(self).received().push(response@)
            },
            r matches Err(e) ==> e is Hid && old(self).io_failed(*final(self), report@),
    {
        if let Err(e) = self.link.write(report) {
            return Err(Zoom65Error::Hid(e));
        }
        let len = match self.link.read(&mut self.buf) {
            Ok(len) => len,
            Err(e) => return Err(Zoom65Error::Hid(e)),
        };
        let mut response: Vec<u8> = Vec::new();
        let mut i: usize = 0;
        while i < len
            invariant
                i <= len <= 64,
                response@ == self.buf@.subrange(0, i as int),
            decreases len - i,
        {
            response.push(self.buf[i]);
            i = i + 1;
            assert(response@ =~= self.buf@.subrange(0, i as int));
        }
        Ok(response)
    }

    /// Get the version id tracked by the web driver.
    pub fn get_version(&mut self) -> (r: Result<u8, Zoom65Error>)
        ensures
            old(self).version_queried(*final(self), r),
    {
        let command = ZOOM65_VERSION_CMD;
        match self.exchange(command.as_slice()) {
            Ok(response) => {
                assert(self.received().drop_last() =~= old(self).received());
                check_version_response(response.as_slice())
            },
            Err(e) => Err(e),
        }
    }

    /// Send update `method_id` with `payload` and interpret the keyboard's answer.
    fn update(&mut self, method_id: [u8; 2], payload: &[u8]) -> (r: Result<(), Zoom65Error>)
        requires
            payload@.len() <= MAX_PAYLOAD_LEN,
        ensures
            old(self).updated(*final(self), method_id, payload@, r),
    {
        let report = build_update_report(method_id, payload);
        match self.exchange(report.as_slice()) {
            Ok(response) => {
                assert(self.received().drop_last() =~= old(self).received());
                check_update_response(response.as_slice())
            },
            Err(e) => Err(e),
        }
    }

    /// Increment the screen position.
    pub fn screen_up(&mut self) -> (r: Result<(), Zoom65Error>)
        ensures
            old(self).updated(*final(self), ZOOM65_SCREEN_UP, Seq::empty(), r),
    {
        let empty: [u8; 0] = [];
        self.update(ZOOM65_SCREEN_UP, empty.as_slice())
    }

    /// Decrement the screen position.
    pub fn screen_down(&mut self) -> (r: Result<(), Zoom65Error>)
        ensures
            old(self).updated(*final(self), ZOOM65_SCREEN_DOWN, Seq::empty(), r),
    {
        let empty: [u8; 0] = [];
        self.update(ZOOM65_SCREEN_DOWN, empty.as_slice())
    }

    /// Switch the active screen.
    pub fn screen_switch(&mut self) -> (r: Result<(), Zoom65Error>)
        ensures
            old(self).updated(*final(self), ZOOM65_SCREEN_SWITCH, Seq::empty(), r),
    {
        let empty: [u8; 0] = [];
        self.update(ZOOM65_SCREEN_SWITCH, empty.as_slice())
    }

    /// Update the keyboard's current time. The year is sent without its century,
    /// which keeps the clock working past the year 2255.
    pub fn set_time(&mut self, time: TimeFields) -> (r: Result<(), Zoom65Error>)
        ensures
            old(self).updated(*final(self), ZOOM65_SET_TIME_ID, time_payload(time), r),
    {
        let payload = encode_time(&time);
        self.update(ZOOM65_SET_TIME_ID, payload.as_slice())
    }

    /// Update the keyboard's current weather report.
    pub fn set_weather(&mut self, icon: Icon, current: u8, low: u8, high: u8) -> (r: Result<
        (),
        Zoom65Error,
    >)
        ensures
            old(self).updated(
                *final(self),
                ZOOM65_SET_WEATHER_ID,
                weather_payload(icon, current, low, high),
                r,
            ),
    {
        let payload = encode_weather(icon, current, low, high);
        self.update(ZOOM65_SET_WEATHER_ID, payload.as_slice())
    }

    /// Update the keyboard's current system info. The download rate arrives as the
    /// two bytes the screen shows it by (see `encode_system_info`).
    pub fn set_system_info(
        &mut self,
        cpu_temp: u8,
        gpu_temp: u8,
        download_m: u8,
        download_r: u8,
    ) -> (r: Result<(), Zoom65Error>)
        ensures
            old(self).updated(
                *final(self),
                ZOOM65_SET_SYSINFO_ID,
                system_info_payload(cpu_temp, gpu_temp, download_m, download_r),
                r,
            ),
    {
        let payload = encode_system_info(cpu_temp, gpu_temp, download_m, download_r);
        self.update(ZOOM65_SET_SYSINFO_ID, payload.as_slice())
    }

    /// Reset the screen back to the meletrix logo.
    pub fn reset_screen(&mut self) -> (r: Result<(), Zoom65Error>)
        ensures
            old(self).updated(*final(self), ZOOM65_RESET_SCREEN_ID, Seq::empty(), r),
    {
        let empty: [u8; 0] = [];
        self.update(ZOOM65_RESET_SCREEN_ID, empty.as_slice())
    }
}

} // verus!
