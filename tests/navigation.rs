use weather_station::navigator::{CountriesList, Country};
use weather_station::station::App;

fn three_countries() -> CountriesList {
    let countries = vec![
        Country::new("United States".to_string(), "US".to_string()),
        Country::new("United Kingdom".to_string(), "GB".to_string()),
        Country::new("India".to_string(), "IN".to_string()),
    ];
    CountriesList::with_countries(countries).unwrap()
}

#[test]
fn three_next_calls_wrap_to_start() {
    let mut list = three_countries();
    assert_eq!(list.selected(), 0);
    list.next();
    assert_eq!(list.selected(), 1);
    list.next();
    assert_eq!(list.selected(), 2);
    list.next();
    assert_eq!(list.selected(), 0);
}

#[test]
fn two_previous_calls_from_start_land_on_second() {
    let mut list = three_countries();
    list.previous();
    assert_eq!(list.selected(), 2);
    list.previous();
    assert_eq!(list.selected(), 1);
}

#[test]
fn full_cycle_from_middle_returns() {
    let mut list = three_countries();
    list.next();
    for _ in 0..3 {
        list.next();
    }
    assert_eq!(list.selected(), 1);
    for _ in 0..3 {
        list.previous();
    }
    assert_eq!(list.selected(), 1);
}

#[test]
fn selected_country_follows_selection() {
    let mut list = three_countries();
    list.previous();
    assert_eq!(list.selected_country().iso2(), "IN");
    assert_eq!(list.selected_country().name(), "India");
    assert_eq!(list.len(), 3);
}

#[test]
fn empty_country_list_is_refused() {
    assert!(CountriesList::with_countries(Vec::new()).is_none());
    let list = CountriesList::new();
    assert_eq!(list.len(), 0);
    assert_eq!(list.selected(), 0);
}

#[test]
fn single_entry_list_stays_put() {
    let countries = vec![Country::new("India".to_string(), "IN".to_string())];
    let mut list = CountriesList::with_countries(countries).unwrap();
    list.next();
    assert_eq!(list.selected(), 0);
    list.previous();
    assert_eq!(list.selected(), 0);
}

#[test]
fn app_country_selection_wraps() {
    let mut app = App::new();
    assert_eq!(app.countries_list, vec!["US", "GB", "IN"]);
    app.next_country();
    app.next_country();
    app.next_country();
    assert_eq!(app.selected_country, 0);
    app.previous_country();
    app.previous_country();
    assert_eq!(app.selected_country, 1);
}

#[test]
fn app_city_selection_full_cycle() {
    let mut app = App::new();
    assert_eq!(app.cities_list.len(), 5);
    app.next_city();
    app.next_city();
    for _ in 0..5 {
        app.next_city();
    }
    assert_eq!(app.selected_city, 2);
    for _ in 0..5 {
        app.previous_city();
    }
    assert_eq!(app.selected_city, 2);
    app.previous_city();
    app.previous_city();
    app.previous_city();
    assert_eq!(app.selected_city, 4);
}
