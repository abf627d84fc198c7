use zoom_sync::consts::commands::{
    ZOOM65_SET_SYSINFO_ID, ZOOM65_SET_TIME_ID, ZOOM65_SET_WEATHER_ID, ZOOM65_VERSION_CMD,
};
use zoom_sync::consts::{APPROVED_VERSIONS, ZOOM65_PRODUCT_ID, ZOOM65_USAGE, ZOOM65_USAGE_PAGE, ZOOM65_VENDOR_ID};
use zoom_sync::protocol::{
    build_update_report, check_update_response, check_version_response, encode_system_info,
    encode_time, encode_weather, find_zoom65, is_approved_version, DeviceDescriptor, TimeFields,
};
use zoom_sync::types::{Icon, Zoom65Error};

#[test]
fn update_report_with_weather_payload() {
    let report = build_update_report(ZOOM65_SET_WEATHER_ID, &[6, 21, 15, 25]);
    let mut expected = [0u8; 33];
    expected[..10].copy_from_slice(&[0, 88, 7, 165, 1, 32, 6, 21, 15, 25]);
    assert_eq!(report, expected);
}

#[test]
fn update_report_with_empty_payload() {
    let report = build_update_report([1, 2], &[]);
    let mut expected = [0u8; 33];
    expected[..6].copy_from_slice(&[0, 88, 3, 165, 1, 2]);
    assert_eq!(report, expected);
}

#[test]
fn update_report_with_largest_payload() {
    let payload: Vec<u8> = (1..=27).collect();
    let report = build_update_report([9, 8], &payload);
    assert_eq!(report[2], 30);
    assert_eq!(&report[..6], &[0, 88, 30, 165, 9, 8]);
    assert_eq!(&report[6..], payload.as_slice());
}

#[test]
fn update_report_length_byte_recovers_payload() {
    let payload = [24u8, 3, 4, 5, 6, 7];
    let report = build_update_report(ZOOM65_SET_TIME_ID, &payload);
    let len = report[2] as usize - 3;
    assert_eq!(&report[6..6 + len], &payload);
    assert!(report[6 + len..].iter().all(|b| *b == 0));
}

#[test]
fn update_response_success() {
    assert!(check_update_response(&[88, 0, 1]).is_ok());
    assert!(check_update_response(&[88, 5, 1, 9, 9]).is_ok());
}

#[test]
fn update_response_failure_code() {
    assert!(matches!(check_update_response(&[88, 0, 0]), Err(Zoom65Error::UpdateCommandFailed)));
    assert!(matches!(check_update_response(&[88, 1, 2]), Err(Zoom65Error::UpdateCommandFailed)));
}

#[test]
fn update_response_malformed() {
    assert!(matches!(check_update_response(&[]), Err(Zoom65Error::UnexpectedResponse)));
    assert!(matches!(check_update_response(&[88, 0]), Err(Zoom65Error::UnexpectedResponse)));
    assert!(matches!(check_update_response(&[1, 0, 1]), Err(Zoom65Error::UnexpectedResponse)));
}

#[test]
fn version_response_yields_third_byte() {
    assert_eq!(check_version_response(&[1, 0, 12]).ok(), Some(12));
    assert_eq!(check_version_response(&[1, 7, 9, 4]).ok(), Some(9));
}

#[test]
fn version_response_malformed() {
    assert!(matches!(check_version_response(&[1, 0]), Err(Zoom65Error::UnexpectedResponse)));
    assert!(matches!(check_version_response(&[88, 0, 12]), Err(Zoom65Error::UnexpectedResponse)));
    assert!(matches!(check_version_response(&[]), Err(Zoom65Error::UnexpectedResponse)));
}

#[test]
fn version_command_asks_for_protocol_version() {
    assert_eq!(ZOOM65_VERSION_CMD.len(), 33);
    assert_eq!(ZOOM65_VERSION_CMD[0], 0);
    assert_eq!(ZOOM65_VERSION_CMD[1], 1);
}

#[test]
fn approved_versions_are_recognised() {
    for v in APPROVED_VERSIONS {
        assert!(is_approved_version(v));
    }
    for v in 0u8..=255 {
        assert_eq!(is_approved_version(v), APPROVED_VERSIONS.contains(&v));
    }
}

fn zoom65() -> DeviceDescriptor {
    DeviceDescriptor {
        vendor_id: ZOOM65_VENDOR_ID,
        product_id: ZOOM65_PRODUCT_ID,
        usage_page: ZOOM65_USAGE_PAGE,
        usage: ZOOM65_USAGE,
    }
}

#[test]
fn device_match_needs_all_four_ids() {
    let d = zoom65();
    assert!(d.is_zoom65());
    assert!(!DeviceDescriptor { vendor_id: d.vendor_id ^ 1, ..d }.is_zoom65());
    assert!(!DeviceDescriptor { product_id: d.product_id ^ 1, ..d }.is_zoom65());
    assert!(!DeviceDescriptor { usage_page: d.usage_page ^ 1, ..d }.is_zoom65());
    assert!(!DeviceDescriptor { usage: d.usage ^ 1, ..d }.is_zoom65());
}

#[test]
fn find_zoom65_picks_first_match() {
    let d = zoom65();
    let other = DeviceDescriptor { usage: 6, usage_page: 1, ..d };
    assert_eq!(find_zoom65(&[]), None);
    assert_eq!(find_zoom65(&[other]), None);
    assert_eq!(find_zoom65(&[other, d, other, d]), Some(1));
    assert_eq!(find_zoom65(&[d]), Some(0));
}

#[test]
fn time_payload_drops_century() {
    let t = TimeFields { year: 2024, month: 12, day: 31, hour: 23, minute: 59, second: 58 };
    assert_eq!(encode_time(&t), [24, 12, 31, 23, 59, 58]);
    let t = TimeFields { year: 2256, month: 1, day: 2, hour: 3, minute: 4, second: 5 };
    assert_eq!(encode_time(&t), [56, 1, 2, 3, 4, 5]);
    let t = TimeFields { year: 2300, month: 1, day: 1, hour: 0, minute: 0, second: 0 };
    assert_eq!(encode_time(&t), [0, 1, 1, 0, 0, 0]);
}

#[test]
fn time_payload_year_byte_repeats_each_century() {
    for year in 0i32..1000 {
        let a = encode_time(&TimeFields { year, month: 1, day: 1, hour: 0, minute: 0, second: 0 });
        let b = encode_time(&TimeFields { year: year + 100, month: 1, day: 1, hour: 0, minute: 0, second: 0 });
        assert!(a[0] < 100);
        assert_eq!(a[0], b[0]);
    }
}

#[test]
fn time_payload_negative_year_keeps_rust_remainder() {
    let t = TimeFields { year: -7, month: 1, day: 1, hour: 0, minute: 0, second: 0 };
    assert_eq!(encode_time(&t)[0], 249);
    let t = TimeFields { year: -200, month: 1, day: 1, hour: 0, minute: 0, second: 0 };
    assert_eq!(encode_time(&t)[0], 0);
}

#[test]
fn weather_payload_order() {
    assert_eq!(encode_weather(Icon::Snowfall, 1, 2, 3), [7, 1, 2, 3]);
    assert_eq!(encode_weather(Icon::DayClear, 30, 20, 35), [0, 30, 20, 35]);
}

#[test]
fn system_info_payload_order() {
    assert_eq!(encode_system_info(45, 60, 39, 1), [45, 60, 39, 1]);
    let report = build_update_report(ZOOM65_SET_SYSINFO_ID, &encode_system_info(45, 60, 0, 0));
    assert_eq!(&report[..10], &[0, 88, 7, 165, 1, 64, 45, 60, 0, 0]);
}
