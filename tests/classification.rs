use weather_station::weather::{
    get_temp_emoji, get_weather_text_color, str_eq, temp_class, TempClass, TextColor,
    WeatherResponse,
};

#[test]
fn clear_sky_is_blue() {
    assert_eq!(get_weather_text_color("clear sky"), TextColor::Blue);
}

#[test]
fn cloud_phrases_are_yellow() {
    assert_eq!(get_weather_text_color("few clouds"), TextColor::Yellow);
    assert_eq!(get_weather_text_color("scattered clouds"), TextColor::Yellow);
    assert_eq!(get_weather_text_color("broken clouds"), TextColor::Yellow);
}

#[test]
fn dim_phrases_are_green() {
    for d in ["overcast clouds", "mist", "haze", "smoke", "fog"] {
        assert_eq!(get_weather_text_color(d), TextColor::Green);
    }
}

#[test]
fn precipitation_phrases_are_gray() {
    for d in ["shower rain", "rain", "thunderstorm", "snow"] {
        assert_eq!(get_weather_text_color(d), TextColor::Gray);
    }
}

#[test]
fn other_phrases_are_white() {
    assert_eq!(get_weather_text_color(""), TextColor::White);
    assert_eq!(get_weather_text_color("Clear Sky"), TextColor::White);
    assert_eq!(get_weather_text_color("clear sky "), TextColor::White);
    assert_eq!(get_weather_text_color("light rain"), TextColor::White);
}

#[test]
fn classification_is_repeatable() {
    let first = get_weather_text_color("broken clouds");
    let second = get_weather_text_color(&String::from("broken clouds"));
    assert_eq!(first, second);
    assert_eq!(get_weather_text_color("mist"), get_weather_text_color("mist"));
}

#[test]
fn zero_degrees_is_cold_not_freezing() {
    assert_eq!(temp_class(0), TempClass::Cold);
    assert_eq!(temp_class(-1), TempClass::Freezing);
}

#[test]
fn temperature_band_edges() {
    assert_eq!(temp_class(i32::MIN), TempClass::Freezing);
    assert_eq!(temp_class(1499), TempClass::Cold);
    assert_eq!(temp_class(1500), TempClass::Mild);
    assert_eq!(temp_class(2499), TempClass::Mild);
    assert_eq!(temp_class(2500), TempClass::Warm);
    assert_eq!(temp_class(2800), TempClass::Warm);
    assert_eq!(temp_class(3499), TempClass::Warm);
    assert_eq!(temp_class(3500), TempClass::Hot);
    assert_eq!(temp_class(i32::MAX), TempClass::Hot);
}

#[test]
fn temperature_symbols() {
    assert_eq!(get_temp_emoji(-500), "\u{1f976}");
    assert_eq!(get_temp_emoji(0), "\u{2601}\u{fe0f}");
    assert_eq!(get_temp_emoji(2000), "\u{26c5}\u{fe0f}");
    assert_eq!(get_temp_emoji(2800), "\u{1f324}\u{fe0f}");
    assert_eq!(get_temp_emoji(4000), "\u{1f525}");
}

#[test]
fn text_comparison() {
    assert!(str_eq("rain", "rain"));
    assert!(!str_eq("rain", "rainy"));
    assert!(!str_eq("rain", "Rain"));
    assert!(str_eq("", ""));
}

#[test]
fn fallback_outcome_is_placeholder() {
    let w = WeatherResponse::default();
    assert_eq!(w.weather.len(), 1);
    assert_eq!(w.weather[0].description, "ERR: Check the input again");
    assert_eq!(w.main.temp, 0);
    assert_eq!(w.main.humidity, 0);
    assert_eq!(w.main.pressure, 0);
    assert_eq!(w.wind.speed, 0);
    assert_eq!(w.name, "");
}

#[test]
fn outcome_constructor_keeps_readings() {
    let w = WeatherResponse::new("rain".to_string(), -250, 8100, 101300, 420, "Boston".to_string());
    assert_eq!(w.weather.len(), 1);
    assert_eq!(w.weather[0].description, "rain");
    assert_eq!(w.main.temp, -250);
    assert_eq!(w.main.humidity, 8100);
    assert_eq!(w.main.pressure, 101300);
    assert_eq!(w.wind.speed, 420);
    assert_eq!(w.name, "Boston");
}
