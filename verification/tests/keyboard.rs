use hidapi::HidApi;
use zoom_sync::consts::{ZOOM65_PRODUCT_ID, ZOOM65_USAGE, ZOOM65_USAGE_PAGE, ZOOM65_VENDOR_ID};
use zoom_sync::types::Zoom65Error;
use zoom_sync::Zoom65v3;

#[test]
fn open_without_keyboard_fails() {
    // No Zoom65 is attached where the tests run.
    match Zoom65v3::open() {
        Ok(_) => panic!("no keyboard is attached"),
        Err(Zoom65Error::DeviceNotFound) | Err(Zoom65Error::Hid(_)) => {}
        Err(e) => panic!("unexpected error {}", e.message()),
    }
}

#[test]
fn open_in_reports_missing_keyboard_exactly() {
    let Ok(api) = HidApi::new() else {
        return;
    };
    let listed = api.device_list().any(|d| {
        d.vendor_id() == ZOOM65_VENDOR_ID
            && d.product_id() == ZOOM65_PRODUCT_ID
            && d.usage_page() == ZOOM65_USAGE_PAGE
            && d.usage() == ZOOM65_USAGE
    });
    let r = Zoom65v3::open_in(&api);
    assert_eq!(matches!(r, Err(Zoom65Error::DeviceNotFound)), !listed);
}

#[test]
fn error_messages() {
    assert_eq!(Zoom65Error::DeviceNotFound.message(), "failed to find device");
    assert_eq!(
        Zoom65Error::UnknownFirmwareVersion.message(),
        "firmware version is unknown. open an issue for support"
    );
    assert_eq!(
        Zoom65Error::UpdateCommandFailed.message(),
        "keyboard responded with error while updating, byte 1 == 88 && byte 2 == 0"
    );
    assert_eq!(
        Zoom65Error::UnexpectedResponse.message(),
        "keyboard sent a response that does not answer the command"
    );
}

#[test]
fn hid_error_message_is_hidapis() {
    let e = hidapi::HidError::InitializationError;
    assert_eq!(Zoom65Error::Hid(e).message(), "Failed to initialize hidapi");
}
