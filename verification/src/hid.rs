//! The HID boundary: hidapi's context and devices, and a link to one opened
//! device that records every report written to it and every input report read
//! from it.

use crate::protocol::DeviceDescriptor;
use hidapi::{HidApi, HidDevice, HidError};
use vstd::prelude::*;

verus! {

/// `hidapi::HidApi`, a hidapi context with its cached device list.
#[verifier::external_type_specification]
#[verifier::external_body]
pub struct ExHidApi(hidapi::HidApi);

/// `hidapi::HidDevice`, an open HID device.
#[verifier::external_type_specification]
#[verifier::external_body]
pub struct ExHidDevice(hidapi::HidDevice);

/// The device list that a hidapi context caches, in the order `HidApi::device_list`
/// yields it: for each entry its vendor id, product id, usage page and usage.
pub uninterp spec fn hid_device_list(api: HidApi) -> Seq<(u16, u16, u16, u16)>;

/// The descriptor of one cached device list entry.
pub open spec fn descriptor_of(entry: (u16, u16, u16, u16)) -> DeviceDescriptor {
    DeviceDescriptor { vendor_id: entry.0, product_id: entry.1, usage_page: entry.2, usage: entry.3 }
}

/// Calls `HidApi::new`, which initialises the hidapi library on first use and
/// enumerates the attached HID devices into the context's list. Which devices it
/// finds, and whether initialisation succeeds, depend on the machine: nothing is stated.
#[verifier::external_body]
pub(crate) fn hid_api_new() -> (r: Result<HidApi, HidError>) {
    HidApi::new()
}

/// Calls `HidApi::device_list` and takes its `index`-th entry, keeping the entry's
/// vendor id, product id, usage page and usage. `device_list` walks the context's
/// cached list (a `Vec`, so its length fits in a `usize`), so the result is that
/// entry, or `None` past the end of the list.
#[verifier::external_body]
pub(crate) fn hid_device_at(api: &HidApi, index: usize) -> (d: Option<DeviceDescriptor>)
    ensures
        index < hid_device_list(*api).len() ==> d == Some(descriptor_of(hid_device_list(*api)[index as int])),
        index >= hid_device_list(*api).len() ==> d is None,
        d is Some ==> hid_device_list(*api).len() <= usize::MAX,
{
    api.device_list().nth(index).map(|info| DeviceDescriptor {
        vendor_id: info.vendor_id(),
        product_id: info.product_id(),
        usage_page: info.usage_page(),
        usage: info.usage(),
    })
}

/// An opened HID device, with the record of the traffic on it.
pub struct HidLink {
    device: HidDevice,
    index: Ghost<nat>,
    sent: Ghost<Seq<Seq<u8>>>,
    received: Ghost<Seq<Seq<u8>>>,
}

impl HidLink {
    /// The position, in the context's device list, of the entry that was opened.
    pub closed spec fn index(&self) -> nat {
        self.index@
    }

    /// The data of every `HidDevice::write` on this device that returned `Ok`, oldest first.
    pub closed spec fn sent(&self) -> Seq<Seq<u8>> {
        self.sent@
    }

    /// The bytes that every `HidDevice::read` on this device that returned `Ok`
    /// copied into its buffer, oldest first.
    pub closed spec fn received(&self) -> Seq<Seq<u8>> {
        self.received@
    }

    /// Calls `DeviceInfo::open_device` on the `index`-th entry of `HidApi::device_list`.
    /// Whether the device opens depends on the machine; an opened device is the
    /// `index`-th entry, with no traffic yet.
    #[verifier::external_body]
    pub(crate) fn open_at(api: &HidApi, index: usize) -> (r: Result<HidLink, HidError>)
        requires
            index < hid_device_list(*api).len(),
        ensures
            r matches Ok(link) ==> {
                &&& link.index() == index
                &&& link.sent() == Seq::<Seq<u8>>::empty()
                &&& link.received() == Seq::<Seq<u8>>::empty()
            },
    {
        api.device_list().nth(index).unwrap().open_device(api).map(|device| HidLink {
            device,
            index: Ghost(index as nat),
            sent: Ghost(Seq::empty()),
            received: Ghost(Seq::empty()),
        })
    }

    /// Calls `HidDevice::write`, which sends `data` to the device as one output
    /// report (its first byte being the report id). When it returns `Ok` the report
    /// was handed to the device; whether it does is up to the device.
    #[verifier::external_body]
    pub(crate) fn write(&mut self, data: &[u8]) -> (r: Result<usize, HidError>)
        ensures
            final(self).index() == old(self).index(),
            final(self).received() == old(self).received(),
            r is Ok ==> final(self).sent() == old(self).sent().push(data@),
            r is Err ==> final(self).sent() == old(self).sent(),
    {
        self.device.write(data)
    }

    /// Calls `HidDevice::read`, which waits for one input report and copies it into
    /// `buf`, returning how many bytes it copied; the read never copies more than
    /// `buf` holds. The bytes come from the device: nothing is stated of them
    /// beyond that they are what was read.
    #[verifier::external_body]
    pub(crate) fn read(&mut self, buf: &mut [u8; 64]) -> (r: Result<usize, HidError>)
        ensures
            final(self).index() == old(self).index(),
            final(self).sent() == old(self).sent(),
            r matches Ok(n) ==> n <= 64 && final(self).received() == old(self).received().push(
                final(buf)@.subrange(0, n as int),
            ),
            r is Err ==> final(self).received() == old(self).received(),
    {
        self.device.read(buf)
    }
}

} // verus!
