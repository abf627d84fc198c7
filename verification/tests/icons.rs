use zoom_sync::types::Icon;

#[test]
fn from_wmo_clear_follows_daylight() {
    assert_eq!(Icon::from_wmo(0, true), Some(Icon::DayClear));
    assert_eq!(Icon::from_wmo(1, true), Some(Icon::DayClear));
    assert_eq!(Icon::from_wmo(0, false), Some(Icon::NightClear));
    assert_eq!(Icon::from_wmo(1, false), Some(Icon::NightClear));
}

#[test]
fn from_wmo_partly_cloudy_follows_daylight() {
    assert_eq!(Icon::from_wmo(2, true), Some(Icon::DayPartlyCloudy));
    assert_eq!(Icon::from_wmo(2, false), Some(Icon::NightPartlyCloudy));
}

#[test]
fn from_wmo_overcast_and_fog_are_cloudy() {
    for wmo in [3u8, 45, 48] {
        assert_eq!(Icon::from_wmo(wmo, true), Some(Icon::Cloudy));
        assert_eq!(Icon::from_wmo(wmo, false), Some(Icon::Cloudy));
    }
}

#[test]
fn from_wmo_drizzle_and_rain_are_rainy() {
    for wmo in [51u8, 53, 55, 56, 57, 61, 63, 65, 66, 67] {
        assert_eq!(Icon::from_wmo(wmo, true), Some(Icon::Rainy));
        assert_eq!(Icon::from_wmo(wmo, false), Some(Icon::Rainy));
    }
}

#[test]
fn from_wmo_rain_showers_follow_daylight() {
    for wmo in [80u8, 81, 82] {
        assert_eq!(Icon::from_wmo(wmo, true), Some(Icon::DayPartlyRainy));
        assert_eq!(Icon::from_wmo(wmo, false), Some(Icon::Rainy));
    }
}

#[test]
fn from_wmo_snow_is_snowfall() {
    for wmo in [71u8, 73, 75, 77, 85, 86] {
        assert_eq!(Icon::from_wmo(wmo, true), Some(Icon::Snowfall));
        assert_eq!(Icon::from_wmo(wmo, false), Some(Icon::Snowfall));
    }
}

#[test]
fn from_wmo_thunderstorm() {
    for wmo in [95u8, 96, 99] {
        assert_eq!(Icon::from_wmo(wmo, true), Some(Icon::Thunderstorm));
        assert_eq!(Icon::from_wmo(wmo, false), Some(Icon::Thunderstorm));
    }
}

#[test]
fn from_wmo_unknown_codes_have_no_icon() {
    for wmo in [4u8, 44, 46, 50, 52, 60, 68, 70, 72, 79, 83, 84, 87, 94, 97, 98, 100, 255] {
        assert_eq!(Icon::from_wmo(wmo, true), None);
        assert_eq!(Icon::from_wmo(wmo, false), None);
    }
}

#[test]
fn from_wmo_daylight_matters_only_for_some_codes() {
    for wmo in 0u8..=255 {
        let day = Icon::from_wmo(wmo, true);
        let night = Icon::from_wmo(wmo, false);
        assert_eq!(day.is_some(), night.is_some());
        if !(wmo <= 2 || (80..=82).contains(&wmo)) {
            assert_eq!(day, night);
        }
    }
}

#[test]
fn icon_codes_match_firmware_bytes() {
    assert_eq!(Icon::DayClear.code(), 0);
    assert_eq!(Icon::DayPartlyCloudy.code(), 1);
    assert_eq!(Icon::DayPartlyRainy.code(), 2);
    assert_eq!(Icon::NightPartlyCloudy.code(), 3);
    assert_eq!(Icon::NightClear.code(), 4);
    assert_eq!(Icon::Cloudy.code(), 5);
    assert_eq!(Icon::Rainy.code(), 6);
    assert_eq!(Icon::Snowfall.code(), 7);
    assert_eq!(Icon::Thunderstorm.code(), 8);
}

#[test]
fn icon_codes_are_distinct() {
    let all = [
        Icon::DayClear,
        Icon::DayPartlyCloudy,
        Icon::DayPartlyRainy,
        Icon::NightPartlyCloudy,
        Icon::NightClear,
        Icon::Cloudy,
        Icon::Rainy,
        Icon::Snowfall,
        Icon::Thunderstorm,
    ];
    for (i, a) in all.iter().enumerate() {
        assert!(a.code() < 9);
        for (j, b) in all.iter().enumerate() {
            assert_eq!(a.code() == b.code(), i == j);
        }
    }
}
