use crate::navigator::{next_index, prev_index, step_back, step_forward};
use crate::weather::{get_weather_text_color, text_color_of, TextColor, WeatherResponse};
use vstd::prelude::*;

verus! {

#[verifier::external_type_specification]
#[verifier::external_body]
pub struct ExJsonError(serde_json::Error);

/// What `str::trim` leaves of a text.
pub uninterp spec fn trimmed(s: Seq<char>) -> Seq<char>;

/// Relies on `str::trim`: the text without leading and trailing whitespace,
/// a function of the characters alone.
#[verifier::external_body]
fn trim_text(s: &str) -> (r: &str)
    ensures
        r@ == trimmed(s@),
{
    s.trim()
}

/// The top-level mode of the interface.
#[derive(Clone, Copy, Debug, PartialEq, Eq, Structural)]
pub enum CurrentScreen {
    /// Browsing the log of lookups.
    Main,
    /// Picking a country and a city.
    Editing,
    /// Asked whether to leave.
    Exiting,
}

/// The input slot being picked while editing.
#[derive(Clone, Copy, Debug, PartialEq, Eq, Structural)]
pub enum CurrentlyEditing {
    Country,
    City,
}

/// A key press, as far as the interface tells keys apart.
#[derive(Clone, Copy, Debug, PartialEq, Eq, Structural)]
pub enum Key {
    Char(char),
    Up,
    Down,
    Enter,
    Esc,
    Other,
}

/// What the caller does after a key press has been handled.
#[derive(Clone, Copy, Debug, PartialEq, Eq, Structural)]
pub enum Action {
    /// Redraw and read the next key.
    Continue,
    /// Look up the pending pair (`query_city`, `query_country`) and hand the
    /// outcome to `save_country_city`.
    Lookup,
    /// Leave the loop; the record log may be dumped.
    Exit,
}

/// The lookup produced an outcome with a condition to classify.
pub open spec fn usable(outcome: Option<WeatherResponse>) -> bool {
    match outcome {
        Some(w) => w.has_condition(),
        None => false,
    }
}

/// The active slot after a switch: country and city trade places, and with
/// none active the country comes first.
pub open spec fn toggled(e: Option<CurrentlyEditing>) -> Option<CurrentlyEditing> {
    match e {
        Some(CurrentlyEditing::Country) => Some(CurrentlyEditing::City),
        Some(CurrentlyEditing::City) => Some(CurrentlyEditing::Country),
        None => Some(CurrentlyEditing::Country),
    }
}

/// The views of a list of labels.
pub open spec fn labels(v: Seq<String>) -> Seq<Seq<char>> {
    v.map_values(|s: String| s@)
}

/// The whole state of the interface: the pending input, the two candidate
/// lists with their selections, the record log and the mode.
///
/// The record log is `countries`, `cities`, `weather` and `colors`, read
/// index by index: entry `k` of each belongs to the `k`-th submission.
pub struct App {
    pub country_input: String,
    pub city_input: String,
    pub countries: Vec<String>,
    pub countries_list: Vec<String>,
    pub selected_country: usize,
    pub cities: Vec<String>,
    pub cities_list: Vec<String>,
    pub selected_city: usize,
    pub weather: Vec<WeatherResponse>,
    pub colors: Vec<TextColor>,
    pub current_screen: CurrentScreen,
    pub currently_editing: Option<CurrentlyEditing>,
}

impl App {
    /// Both lists have entries and a valid selection, the four record
    /// sequences have one length, and an input slot is active exactly while
    /// editing.
    pub open spec fn wf(&self) -> bool {
        &&& self.countries_list@.len() > 0
        &&& self.selected_country < self.countries_list@.len()
        &&& self.cities_list@.len() > 0
        &&& self.selected_city < self.cities_list@.len()
        &&& self.cities@.len() == self.countries@.len()
        &&& self.weather@.len() == self.countries@.len()
        &&& self.colors@.len() == self.countries@.len()
        &&& (self.current_screen == CurrentScreen::Editing) == self.currently_editing.is_some()
    }

    /// The number of records.
    pub open spec fn record_count(&self) -> nat {
        self.countries@.len()
    }

    pub open spec fn same_records(&self, o: &App) -> bool {
        &&& self.countries@ == o.countries@
        &&& self.cities@ == o.cities@
        &&& self.weather@ == o.weather@
        &&& self.colors@ == o.colors@
    }

    pub open spec fn same_lists(&self, o: &App) -> bool {
        &&& self.countries_list@ == o.countries_list@
        &&& self.cities_list@ == o.cities_list@
    }

    pub open spec fn same_selection(&self, o: &App) -> bool {
        &&& self.selected_country == o.selected_country
        &&& self.selected_city == o.selected_city
    }

    pub open spec fn same_input(&self, o: &App) -> bool {
        &&& self.country_input@ == o.country_input@
        &&& self.city_input@ == o.city_input@
    }

    pub open spec fn same_mode(&self, o: &App) -> bool {
        &&& self.current_screen == o.current_screen
        &&& self.currently_editing == o.currently_editing
    }

    pub open spec fn input_empty(&self) -> bool {
        &&& self.country_input@.len() == 0
        &&& self.city_input@.len() == 0
    }

    /// Editing has begun from `o`: the country slot is active and the
    /// pending input is empty.
    pub open spec fn started_editing(&self, o: &App) -> bool {
        &&& self.current_screen == CurrentScreen::Editing
        &&& self.currently_editing == Some(CurrentlyEditing::Country)
        &&& self.input_empty()
        &&& self.same_records(o)
        &&& self.same_lists(o)
        &&& self.same_selection(o)
    }

    /// Editing from `o` was given up: back to browsing, no slot active,
    /// the pending input discarded.
    pub open spec fn cancelled(&self, o: &App) -> bool {
        &&& self.current_screen == CurrentScreen::Main
        &&& self.currently_editing.is_none()
        &&& self.input_empty()
        &&& self.same_records(o)
        &&& self.same_lists(o)
        &&& self.same_selection(o)
    }

    /// Only the screen differs from `o`, and is `s`.
    pub open spec fn switched_to(&self, o: &App, s: CurrentScreen) -> bool {
        &&& self.current_screen == s
        &&& self.currently_editing == o.currently_editing
        &&& self.same_input(o)
        &&& self.same_records(o)
        &&& self.same_lists(o)
        &&& self.same_selection(o)
    }

    /// Only the country selection differs from `o`: one step forward.
    pub open spec fn country_stepped_forward(&self, o: &App) -> bool {
        &&& self.selected_country == next_index(
            o.selected_country as int,
            o.countries_list@.len() as int,
        )
        &&& self.selected_city == o.selected_city
        &&& self.same_mode(o)
        &&& self.same_input(o)
        &&& self.same_records(o)
        &&& self.same_lists(o)
    }

    /// Only the country selection differs from `o`: one step back.
    pub open spec fn country_stepped_back(&self, o: &App) -> bool {
        &&& self.selected_country == prev_index(
            o.selected_country as int,
            o.countries_list@.len() as int,
        )
        &&& self.selected_city == o.selected_city
        &&& self.same_mode(o)
        &&& self.same_input(o)
        &&& self.same_records(o)
        &&& self.same_lists(o)
    }

    /// Only the city selection differs from `o`: one step forward.
    pub open spec fn city_stepped_forward(&self, o: &App) -> bool {
        &&& self.selected_city == next_index(o.selected_city as int, o.cities_list@.len() as int)
        &&& self.selected_country == o.selected_country
        &&& self.same_mode(o)
        &&& self.same_input(o)
        &&& self.same_records(o)
        &&& self.same_lists(o)
    }

    /// Only the city selection differs from `o`: one step back.
    pub open spec fn city_stepped_back(&self, o: &App) -> bool {
        &&& self.selected_city == prev_index(o.selected_city as int, o.cities_list@.len() as int)
        &&& self.selected_country == o.selected_country
        &&& self.same_mode(o)
        &&& self.same_input(o)
        &&& self.same_records(o)
        &&& self.same_lists(o)
    }

    /// The selected country was copied from `o` into the pending input.
    pub open spec fn country_saved(&self, o: &App) -> bool {
        &&& self.country_input@ == o.countries_list@[o.selected_country as int]@
        &&& self.city_input@ == o.city_input@
        &&& self.same_mode(o)
        &&& self.same_records(o)
        &&& self.same_lists(o)
        &&& self.same_selection(o)
    }

    /// The selected city was copied from `o` into the pending input.
    pub open spec fn city_saved(&self, o: &App) -> bool {
        &&& self.city_input@ == o.cities_list@[o.selected_city as int]@
        &&& self.country_input@ == o.country_input@
        &&& self.same_mode(o)
        &&& self.same_records(o)
        &&& self.same_lists(o)
        &&& self.same_selection(o)
    }

    /// A fresh state: the built-in country codes and cities, the first of
    /// each selected, no records, browsing.
    pub fn new() -> (r: Self)
        ensures
            r.wf(),
            r.countries_list@.len() == 3,
            r.cities_list@.len() == 5,
            labels(r.countries_list@) == seq!["US"@, "GB"@, "IN"@],
            labels(r.cities_list@) == seq![
                "Buffalo"@,
                "Boston"@,
                "New York"@,
                "Nagpur"@,
                "Pune"@,
            ],
            r.selected_country == 0,
            r.selected_city == 0,
            r.record_count() == 0,
            r.input_empty(),
            r.current_screen == CurrentScreen::Main,
            r.currently_editing.is_none(),
    {
        let mut countries_list: Vec<String> = Vec::new();
        countries_list.push(String::from_str("US"));
        countries_list.push(String::from_str("GB"));
        countries_list.push(String::from_str("IN"));
        let mut cities_list: Vec<String> = Vec::new();
        cities_list.push(String::from_str("Buffalo"));
        cities_list.push(String::from_str("Boston"));
        cities_list.push(String::from_str("New York"));
        cities_list.push(String::from_str("Nagpur"));
        cities_list.push(String::from_str("Pune"));
        let r = App {
            country_input: String::new(),
            city_input: String::new(),
            countries: Vec::new(),
            countries_list,
            selected_country: 0,
            cities: Vec::new(),
            cities_list,
            selected_city: 0,
            weather: Vec::new(),
            colors: Vec::new(),
            current_screen: CurrentScreen::Main,
            currently_editing: None,
        };
        proof {
            assert(labels(r.countries_list@) =~= seq!["US"@, "GB"@, "IN"@]);
            assert(labels(r.cities_list@) =~= seq![
                "Buffalo"@,
                "Boston"@,
                "New York"@,
                "Nagpur"@,
                "Pune"@,
            ]);
        }
        r
    }

    /// Moves the country selection one step forward, wrapping to the first.
    pub fn next_country(&mut self)
        requires
            old(self).wf(),
        ensures
            final(self).wf(),
            final(self).country_stepped_forward(old(self)),
    {
        self.selected_country = step_forward(self.selected_country, self.countries_list.len());
    }

    /// Moves the country selection one step back, wrapping to the last.
    pub fn previous_country(&mut self)
        requires
            old(self).wf(),
        ensures
            final(self).wf(),
            final(self).country_stepped_back(old(self)),
    {
        self.selected_country = step_back(self.selected_country, self.countries_list.len());
    }

    /// Moves the city selection one step forward, wrapping to the first.
    pub fn next_city(&mut self)
        requires
            old(self).wf(),
        ensures
            final(self).wf(),
            final(self).city_stepped_forward(old(self)),
    {
        self.selected_city = step_forward(self.selected_city, self.cities_list.len());
    }

    /// Moves the city selection one step back, wrapping to the last.
    pub fn previous_city(&mut self)
        requires
            old(self).wf(),
        ensures
            final(self).wf(),
            final(self).city_stepped_back(old(self)),
    {
        self.selected_city = step_back(self.selected_city, self.cities_list.len());
    }

    /// Copies the selected country into the pending input.
    pub fn save_country(&mut self)
        requires
            old(self).wf(),
        ensures
            final(self).wf(),
            final(self).country_saved(old(self)),
    {
        self.country_input = self.countries_list[self.selected_country].clone();
    }

    /// Copies the selected city into the pending input.
    pub fn save_city(&mut self)
        requires
            old(self).wf(),
        ensures
            final(self).wf(),
            final(self).city_saved(old(self)),
    {
        self.city_input = self.cities_list[self.selected_city].clone();
    }

    /// The city to look up: the pending city without surrounding whitespace.
    pub fn query_city(&self) -> (r: &str)
        ensures
            r@ == trimmed(self.city_input@),
    {
        trim_text(self.city_input.as_str())
    }

    /// The country code to look up: the pending country without surrounding
    /// whitespace.
    pub fn query_country(&self) -> (r: &str)
        ensures
            r@ == trimmed(self.country_input@),
    {
        trim_text(self.country_input.as_str())
    }

    /// Records one submission of the pending pair, given the outcome of its
    /// lookup (`None` when the lookup failed).
    ///
    /// The pending country and city are always appended. A successful
    /// outcome that carries a condition is appended with the colour class of
    /// its first description; anything else is recorded as the fallback
    /// outcome in red. Afterwards the pending input is empty and the screen
    /// is back to browsing.
    pub fn save_country_city(&mut self, outcome: Option<WeatherResponse>)
        requires
            old(self).wf(),
        ensures
            final(self).wf(),
            final(self).record_count() == old(self).record_count() + 1,
            final(self).countries@ == old(self).countries@.push(old(self).country_input),
            final(self).cities@ == old(self).cities@.push(old(self).city_input),
            final(self).weather@.drop_last() == old(self).weather@,
            final(self).colors@.drop_last() == old(self).colors@,
            usable(outcome) ==> final(self).weather@.last() == outcome->Some_0
                && final(self).colors@.last() == text_color_of(
                outcome->Some_0.description_view(),
            ),
            !usable(outcome) ==> final(self).weather@.last().is_sentinel()
                && final(self).colors@.last() == TextColor::Red,
            final(self).input_empty(),
            final(self).current_screen == CurrentScreen::Main,
            final(self).currently_editing.is_none(),
            final(self).same_lists(old(self)),
            final(self).same_selection(old(self)),
    {
        let country = self.country_input.clone();
        self.countries.push(country);
        let city = self.city_input.clone();
        self.cities.push(city);
        let mut recorded = false;
        if let Some(response) = outcome {
            if response.weather.len() > 0 {
                let color = get_weather_text_color(response.weather[0].description.as_str());
                self.colors.push(color);
                self.weather.push(response);
                recorded = true;
            }
        }
        if !recorded {
            self.colors.push(TextColor::Red);
            self.weather.push(WeatherResponse::default());
        }
        self.country_input = String::new();
        self.city_input = String::new();
        self.currently_editing = None;
        self.current_screen = CurrentScreen::Main;
    }

    /// Switches the active input slot between country and city. Outside
    /// editing nothing changes, so no slot becomes active there.
    pub fn toggle_editing(&mut self)
        requires
            old(self).wf(),
        ensures
            final(self).wf(),
            old(self).current_screen == CurrentScreen::Editing ==> final(self).currently_editing
                == toggled(old(self).currently_editing),
            final(self).current_screen == old(self).current_screen,
            old(self).current_screen != CurrentScreen::Editing ==> final(self).currently_editing
                == old(self).currently_editing,
            final(self).same_input(old(self)),
            final(self).same_records(old(self)),
            final(self).same_lists(old(self)),
            final(self).same_selection(old(self)),
    {
        if self.current_screen == CurrentScreen::Editing {
            self.currently_editing = match self.currently_editing {
                Some(CurrentlyEditing::Country) => Some(CurrentlyEditing::City),
                Some(CurrentlyEditing::City) => Some(CurrentlyEditing::Country),
                None => Some(CurrentlyEditing::Country),
            };
        }
    }

    /// Begins editing from browsing: the country slot becomes active and the
    /// pending input is emptied. On any other screen nothing changes.
    pub fn start_editing(&mut self)
        requires
            old(self).wf(),
        ensures
            final(self).wf(),
            old(self).current_screen == CurrentScreen::Main ==> final(self).started_editing(
                old(self),
            ),
            old(self).current_screen != CurrentScreen::Main ==> *final(self) == *old(self),
    {
        if self.current_screen == CurrentScreen::Main {
            self.current_screen = CurrentScreen::Editing;
            self.currently_editing = Some(CurrentlyEditing::Country);
            self.country_input = String::new();
            self.city_input = String::new();
        }
    }

    /// Gives up editing: back to browsing with the pending input discarded
    /// and no slot active. On any other screen nothing changes.
    pub fn cancel_editing(&mut self)
        requires
            old(self).wf(),
        ensures
            final(self).wf(),
            old(self).current_screen == CurrentScreen::Editing ==> final(self).cancelled(
                old(self),
            ),
            old(self).current_screen != CurrentScreen::Editing ==> *final(self) == *old(self),
    {
        if self.current_screen == CurrentScreen::Editing {
            self.current_screen = CurrentScreen::Main;
            self.currently_editing = None;
            self.country_input = String::new();
            self.city_input = String::new();
        }
    }

    /// Handles one key press and says what the caller does next.
    ///
    /// Browsing: `e` starts editing, `q` asks whether to leave. Asked to
    /// leave: `y` or `q` leaves, `n` goes back to browsing. Editing: Up and
    /// Down move the selection of the active list forward and back; Enter on
    /// the country copies the selected country and moves on to the city;
    /// Enter on the city copies the selected city and asks for the lookup;
    /// Esc gives up editing. Every other key changes nothing.
    pub fn handle_key(&mut self, key: Key) -> (r: Action)
        requires
            old(self).wf(),
        ensures
            final(self).wf(),
            r == Action::Exit <==> old(self).current_screen == CurrentScreen::Exiting && (key
                == Key::Char('y') || key == Key::Char('q')),
            r == Action::Lookup <==> old(self).current_screen == CurrentScreen::Editing && key
                == Key::Enter && old(self).currently_editing == Some(CurrentlyEditing::City),
            old(self).current_screen == CurrentScreen::Main ==> {
                if key == Key::Char('e') {
                    final(self).started_editing(old(self))
                } else if key == Key::Char('q') {
                    final(self).switched_to(old(self), CurrentScreen::Exiting)
                } else {
                    *final(self) == *old(self)
                }
            },
            old(self).current_screen == CurrentScreen::Exiting ==> {
                if key == Key::Char('n') {
                    final(self).switched_to(old(self), CurrentScreen::Main)
                } else {
                    *final(self) == *old(self)
                }
            },
            old(self).current_screen == CurrentScreen::Editing ==> {
                let country = old(self).currently_editing == Some(CurrentlyEditing::Country);
                if key == Key::Up {
                    if country {
                        final(self).country_stepped_forward(old(self))
                    } else {
                        final(self).city_stepped_forward(old(self))
                    }
                } else if key == Key::Down {
                    if country {
                        final(self).country_stepped_back(old(self))
                    } else {
                        final(self).city_stepped_back(old(self))
                    }
                } else if key == Key::Enter {
                    if country {
                        final(self).country_input@ == old(self).countries_list@[old(
                            self,
                        ).selected_country as int]@ && final(self).city_input@ == old(
                            self,
                        ).city_input@ && final(self).current_screen == CurrentScreen::Editing
                            && final(self).currently_editing == Some(CurrentlyEditing::City)
                            && final(self).same_records(old(self)) && final(self).same_lists(
                            old(self),
                        ) && final(self).same_selection(old(self))
                    } else {
                        final(self).city_saved(old(self))
                    }
                } else if key == Key::Esc {
                    final(self).cancelled(old(self))
                } else {
                    *final(self) == *old(self)
                }
            },
    {
        match self.current_screen {
            CurrentScreen::Main => match key {
                Key::Char('e') => {
                    self.start_editing();
                    Action::Continue
                },
                Key::Char('q') => {
                    self.current_screen = CurrentScreen::Exiting;
                    Action::Continue
                },
                _ => Action::Continue,
            },
            CurrentScreen::Exiting => match key {
                Key::Char('y') | Key::Char('q') => Action::Exit,
                Key::Char('n') => {
                    self.current_screen = CurrentScreen::Main;
                    Action::Continue
                },
                _ => Action::Continue,
            },
            CurrentScreen::Editing => {
                let country = matches!(self.currently_editing, Some(CurrentlyEditing::Country));
                match key {
                    Key::Up => {
                        if country {
                            self.next_country();
                        } else {
                            self.next_city();
                        }
                        Action::Continue
                    },
                    Key::Down => {
                        if country {
                            self.previous_country();
                        } else {
                            self.previous_city();
                        }
                        Action::Continue
                    },
                    Key::Enter => {
                        if country {
                            self.save_country();
                            self.currently_editing = Some(CurrentlyEditing::City);
                            Action::Continue
                        } else {
                            self.save_city();
                            Action::Lookup
                        }
                    },
                    Key::Esc => {
                        self.cancel_editing();
                        Action::Continue
                    },
                    _ => Action::Continue,
                }
            },
        }
    }

    /// Dumps the record log on leaving. Nothing is written, so it always
    /// succeeds.
    pub fn print_json(&self) -> (r: Result<(), serde_json::Error>)
        ensures
            r is Ok,
    {
        Ok(())
    }
}

} // verus!
