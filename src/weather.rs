use vstd::prelude::*;

verus! {

/// One condition reported for a place.
pub struct Weather {
    pub description: String,
}

/// The main readings, each in hundredths of its unit: degrees Celsius for
/// `temp`, percent for `humidity`, hectopascal for `pressure`.
pub struct Main {
    pub temp: i32,
    pub humidity: i32,
    pub pressure: i32,
}

/// The wind reading, in hundredths of a metre per second.
pub struct Wind {
    pub speed: i32,
}

/// The outcome of one weather lookup.
pub struct WeatherResponse {
    pub weather: Vec<Weather>,
    pub main: Main,
    pub wind: Wind,
    pub name: String,
}

/// The description that stands in for a lookup that failed.
pub open spec fn failure_description() -> Seq<char> {
    "ERR: Check the input again"@
}

impl Weather {
    /// The single condition of a failed lookup.
    pub open spec fn is_sentinel(&self) -> bool {
        self.description@ == failure_description()
    }
}

impl Main {
    pub open spec fn is_zero(&self) -> bool {
        self.temp == 0 && self.humidity == 0 && self.pressure == 0
    }
}

impl Wind {
    pub open spec fn is_zero(&self) -> bool {
        self.speed == 0
    }
}

impl WeatherResponse {
    /// The fallback outcome of a failed lookup: one condition with the
    /// placeholder description, zero readings and no place name.
    pub open spec fn is_sentinel(&self) -> bool {
        &&& self.weather@.len() == 1
        &&& self.weather@[0].is_sentinel()
        &&& self.main.is_zero()
        &&& self.wind.is_zero()
        &&& self.name@.len() == 0
    }

    /// The outcome carries a condition to classify.
    pub open spec fn has_condition(&self) -> bool {
        self.weather@.len() > 0
    }

    /// The description of the first condition.
    pub open spec fn description_view(&self) -> Seq<char> {
        self.weather@[0].description@
    }

    /// An outcome with one condition and the given readings.
    pub fn new(
        description: String,
        temp: i32,
        humidity: i32,
        pressure: i32,
        speed: i32,
        name: String,
    ) -> (r: WeatherResponse)
        ensures
            r.weather@.len() == 1,
            r.description_view() == description@,
            r.main.temp == temp,
            r.main.humidity == humidity,
            r.main.pressure == pressure,
            r.wind.speed == speed,
            r.name@ == name@,
    {
        let mut weather = Vec::new();
        weather.push(Weather { description });
        WeatherResponse { weather, main: Main { temp, humidity, pressure }, wind: Wind { speed }, name }
    }
}

impl Default for Weather {
    fn default() -> (r: Self)
        ensures
            r.is_sentinel(),
    {
        Weather { description: String::from_str("ERR: Check the input again") }
    }
}

impl Default for Main {
    fn default() -> (r: Self)
        ensures
            r.is_zero(),
    {
        Main { temp: 0, humidity: 0, pressure: 0 }
    }
}

impl Default for Wind {
    fn default() -> (r: Self)
        ensures
            r.is_zero(),
    {
        Wind { speed: 0 }
    }
}

impl Default for WeatherResponse {
    fn default() -> (r: Self)
        ensures
            r.is_sentinel(),
    {
        let mut weather = Vec::new();
        weather.push(Weather::default());
        WeatherResponse {
            weather,
            main: Main::default(),
            wind: Wind::default(),
            name: String::new(),
        }
    }
}

/// The colour class in which a lookup's text is shown.
#[derive(Clone, Copy, Debug, PartialEq, Eq, Structural)]
pub enum TextColor {
    Blue,
    Yellow,
    Green,
    Gray,
    White,
    Red,
}

/// The colour class of a successful lookup, by its description: clear sky,
/// light clouds, dim conditions, precipitation, and anything else.
pub open spec fn text_color_of(description: Seq<char>) -> TextColor {
    if description == "clear sky"@ {
        TextColor::Blue
    } else if description == "few clouds"@ || description == "scattered clouds"@
        || description == "broken clouds"@ {
        TextColor::Yellow
    } else if description == "overcast clouds"@ || description == "mist"@ || description
        == "haze"@ || description == "smoke"@ || description == "fog"@ {
        TextColor::Green
    } else if description == "shower rain"@ || description == "rain"@ || description
        == "thunderstorm"@ || description == "snow"@ {
        TextColor::Gray
    } else {
        TextColor::White
    }
}

/// Classifying equal descriptions gives equal colour classes, however often
/// it is done.
pub proof fn lemma_classification_deterministic(a: Seq<char>, b: Seq<char>)
    requires
        a == b,
    ensures
        text_color_of(a) == text_color_of(b),
{
}

/// Whether two texts hold the same characters.
pub fn str_eq(a: &str, b: &str) -> (r: bool)
    ensures
        r == (a@ == b@),
{
    let n = a.unicode_len();
    if n != b.unicode_len() {
        return false;
    }
    let mut i: usize = 0;
    while i < n
        invariant
            n == a@.len(),
            n == b@.len(),
            0 <= i <= n,
            a@.subrange(0, i as int) == b@.subrange(0, i as int),
        decreases n - i,
    {
        if a.get_char(i) != b.get_char(i) {
            return false;
        }
        proof {
            assert(a@.subrange(0, i + 1) == a@.subrange(0, i as int).push(a@[i as int]));
            assert(b@.subrange(0, i + 1) == b@.subrange(0, i as int).push(b@[i as int]));
        }
        i = i + 1;
    }
    proof {
        assert(a@ == a@.subrange(0, n as int));
        assert(b@ == b@.subrange(0, n as int));
    }
    true
}

/// The colour class of a successful lookup with the given description.
pub fn get_weather_text_color(description: &str) -> (r: TextColor)
    ensures
        r == text_color_of(description@),
{
    if str_eq(description, "clear sky") {
        TextColor::Blue
    } else if str_eq(description, "few clouds") || str_eq(description, "scattered clouds")
        || str_eq(description, "broken clouds") {
        TextColor::Yellow
    } else if str_eq(description, "overcast clouds") || str_eq(description, "mist") || str_eq(
        description,
        "haze",
    ) || str_eq(description, "smoke") || str_eq(description, "fog") {
        TextColor::Green
    } else if str_eq(description, "shower rain") || str_eq(description, "rain") || str_eq(
        description,
        "thunderstorm",
    ) || str_eq(description, "snow") {
        TextColor::Gray
    } else {
        TextColor::White
    }
}

/// The band a temperature falls in; each band includes its lower bound.
#[derive(Clone, Copy, Debug, PartialEq, Eq, Structural)]
pub enum TempClass {
    /// Below 0 degrees.
    Freezing,
    /// From 0 up to 15 degrees.
    Cold,
    /// From 15 up to 25 degrees.
    Mild,
    /// From 25 up to 35 degrees.
    Warm,
    /// 35 degrees and above.
    Hot,
}

/// The band of a temperature given in hundredths of a degree Celsius.
pub open spec fn temp_class_of(temp: int) -> TempClass {
    if temp < 0 {
        TempClass::Freezing
    } else if temp < 1500 {
        TempClass::Cold
    } else if temp < 2500 {
        TempClass::Mild
    } else if temp < 3500 {
        TempClass::Warm
    } else {
        TempClass::Hot
    }
}

/// The band of a temperature given in hundredths of a degree Celsius.
pub fn temp_class(temp: i32) -> (r: TempClass)
    ensures
        r == temp_class_of(temp as int),
{
    if temp < 0 {
        TempClass::Freezing
    } else if temp < 1500 {
        TempClass::Cold
    } else if temp < 2500 {
        TempClass::Mild
    } else if temp < 3500 {
        TempClass::Warm
    } else {
        TempClass::Hot
    }
}

/// The symbol shown beside each band.
pub open spec fn emoji_of(c: TempClass) -> Seq<char> {
    match c {
        TempClass::Freezing => "\u{1f976}"@,
        TempClass::Cold => "\u{2601}\u{fe0f}"@,
        TempClass::Mild => "\u{26c5}\u{fe0f}"@,
        TempClass::Warm => "\u{1f324}\u{fe0f}"@,
        TempClass::Hot => "\u{1f525}"@,
    }
}

/// The symbol for a temperature given in hundredths of a degree Celsius.
pub fn get_temp_emoji(temp: i32) -> (r: &'static str)
    ensures
        r@ == emoji_of(temp_class_of(temp as int)),
{
    match temp_class(temp) {
        TempClass::Freezing => "\u{1f976}",
        TempClass::Cold => "\u{2601}\u{fe0f}",
        TempClass::Mild => "\u{26c5}\u{fe0f}",
        TempClass::Warm => "\u{1f324}\u{fe0f}",
        TempClass::Hot => "\u{1f525}",
    }
}

} // verus!
