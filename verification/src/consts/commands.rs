//! Command reports and update method ids of the screen protocol.

use vstd::prelude::*;

verus! {

/// Report asking the keyboard for its protocol version.
pub const ZOOM65_VERSION_CMD: [u8; 33] = [
    0, 1, 0, 0, 0, 0, 0, 0, 0, 0, 0, 0, 0, 0, 0, 0, 0,
    0, 0, 0, 0, 0, 0, 0, 0, 0, 0, 0, 0, 0, 0, 0, 0,
];

/// Move the screen position up.
pub const ZOOM65_SCREEN_UP: [u8; 2] = [1, 1];

/// Move the screen position down.
pub const ZOOM65_SCREEN_DOWN: [u8; 2] = [1, 2];

/// Switch the active screen.
pub const ZOOM65_SCREEN_SWITCH: [u8; 2] = [1, 4];

/// Reset the screen back to the logo.
pub const ZOOM65_RESET_SCREEN_ID: [u8; 2] = [1, 8];

/// Set the clock.
pub const ZOOM65_SET_TIME_ID: [u8; 2] = [1, 16];

/// Set the weather report.
pub const ZOOM65_SET_WEATHER_ID: [u8; 2] = [1, 32];

/// Set the system info (temperatures and download rate).
pub const ZOOM65_SET_SYSINFO_ID: [u8; 2] = [1, 64];

} // verus!
