use zoom_sync::sync::{clamp_temperature, is_daytime, weather_step, WeatherAction, WeatherEvent, WeatherMode};
use zoom_sync::types::Icon;

#[test]
fn clamp_keeps_showable_temperatures() {
    for t in 0u8..100 {
        assert_eq!(clamp_temperature(t), t);
    }
}

#[test]
fn clamp_caps_hot_readings_at_99() {
    for t in 100u8..=255 {
        assert_eq!(clamp_temperature(t), 99);
        assert_eq!(clamp_temperature(clamp_temperature(t)), 99);
    }
}

#[test]
fn daytime_is_six_to_eighteen() {
    for h in 0u32..24 {
        assert_eq!(is_daytime(h), (6..=18).contains(&h));
    }
    assert!(!is_daytime(100));
}

#[test]
fn disabled_weather_skips() {
    let events = [
        WeatherEvent::Tick { hour: 12 },
        WeatherEvent::CoordsFound,
        WeatherEvent::CoordsFailed,
        WeatherEvent::ForecastReady { icon: Icon::Cloudy, current: 1, min: 2, max: 3 },
        WeatherEvent::ForecastFailed,
    ];
    for e in events {
        assert_eq!(weather_step(WeatherMode::Disabled, e), (WeatherMode::Disabled, WeatherAction::Skip));
    }
}

#[test]
fn auto_weather_without_coords_looks_them_up() {
    let mode = WeatherMode::Auto { has_coords: false };
    assert_eq!(weather_step(mode, WeatherEvent::Tick { hour: 3 }), (mode, WeatherAction::FetchCoords));
    assert_eq!(
        weather_step(mode, WeatherEvent::CoordsFound),
        (WeatherMode::Auto { has_coords: true }, WeatherAction::FetchForecast)
    );
    assert_eq!(weather_step(mode, WeatherEvent::CoordsFailed), (mode, WeatherAction::Skip));
}

#[test]
fn auto_weather_with_coords_fetches_forecast_again() {
    let mode = WeatherMode::Auto { has_coords: true };
    assert_eq!(weather_step(mode, WeatherEvent::Tick { hour: 3 }), (mode, WeatherAction::FetchForecast));
    assert_eq!(weather_step(mode, WeatherEvent::ForecastFailed), (mode, WeatherAction::Skip));
}

#[test]
fn auto_weather_sends_min_as_low_and_max_as_high() {
    let mode = WeatherMode::Auto { has_coords: true };
    let event = WeatherEvent::ForecastReady { icon: Icon::Rainy, current: 18, min: 12, max: 22 };
    assert_eq!(
        weather_step(mode, event),
        (mode, WeatherAction::Send { icon: Icon::Rainy, current: 18, low: 12, high: 22 })
    );
}

#[test]
fn manual_weather_uses_hour_for_icon() {
    let mode = WeatherMode::Manual { wmo: 0, current: 25, min: 18, max: 30 };
    assert_eq!(
        weather_step(mode, WeatherEvent::Tick { hour: 12 }),
        (mode, WeatherAction::Send { icon: Icon::DayClear, current: 25, low: 18, high: 30 })
    );
    assert_eq!(
        weather_step(mode, WeatherEvent::Tick { hour: 22 }),
        (mode, WeatherAction::Send { icon: Icon::NightClear, current: 25, low: 18, high: 30 })
    );
    assert_eq!(
        weather_step(mode, WeatherEvent::Tick { hour: 6 }),
        (mode, WeatherAction::Send { icon: Icon::DayClear, current: 25, low: 18, high: 30 })
    );
}

#[test]
fn manual_weather_unknown_code_fails() {
    let mode = WeatherMode::Manual { wmo: 42, current: 25, min: 18, max: 30 };
    assert_eq!(weather_step(mode, WeatherEvent::Tick { hour: 12 }), (mode, WeatherAction::UnknownWmo));
}

#[test]
fn coords_once_known_are_never_looked_up_again() {
    let mut mode = WeatherMode::Auto { has_coords: false };
    let (next, action) = weather_step(mode, WeatherEvent::CoordsFound);
    mode = next;
    assert_eq!(action, WeatherAction::FetchForecast);
    for e in [
        WeatherEvent::Tick { hour: 1 },
        WeatherEvent::CoordsFailed,
        WeatherEvent::ForecastFailed,
        WeatherEvent::ForecastReady { icon: Icon::Cloudy, current: 1, min: 2, max: 3 },
    ] {
        let (next, action) = weather_step(mode, e);
        assert_eq!(next, WeatherMode::Auto { has_coords: true });
        assert_ne!(action, WeatherAction::FetchCoords);
        mode = next;
    }
}
