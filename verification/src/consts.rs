//! Identifiers of the keyboard and the firmware versions this driver knows.

use vstd::prelude::*;

pub mod commands;

verus! {

/// USB vendor id of the Zoom65 v3.
pub const ZOOM65_VENDOR_ID: u16 = 0x36B5;

/// USB product id of the Zoom65 v3.
pub const ZOOM65_PRODUCT_ID: u16 = 0x287F;

/// HID usage page of the raw command interface.
pub const ZOOM65_USAGE_PAGE: u16 = 0xFF60;

/// HID usage of the raw command interface.
pub const ZOOM65_USAGE: u16 = 0x61;

/// Firmware versions whose screen protocol this driver speaks.
pub const APPROVED_VERSIONS: [u8; 1] = [12];

} // verus!
