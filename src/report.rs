use crate::weather::{emoji_of, get_temp_emoji, temp_class_of, WeatherResponse};
use vstd::prelude::*;

verus! {

/// The decimal digit `d`, for `0 <= d < 10`.
pub open spec fn digit_text(d: int) -> Seq<char> {
    "0123456789"@.subrange(d, d + 1)
}

/// The decimal digits of `n`, without leading zeros (`0` is one digit).
pub open spec fn digits(n: nat) -> Seq<char>
    decreases n,
{
    if n < 10 {
        digit_text(n as int)
    } else {
        digits(n / 10) + digit_text((n % 10) as int)
    }
}

/// The magnitude of `v` in tenths, rounded half away from zero.
pub open spec fn tenths_of(v: int) -> nat {
    let m = if v < 0 {
        -v
    } else {
        v
    };
    ((m + 5) / 10) as nat
}

/// A reading given in hundredths, written with one decimal: a minus sign for
/// a negative reading, the whole part, a point and the tenths digit.
pub open spec fn fixed1(v: int) -> Seq<char> {
    let t = tenths_of(v);
    let sign = if v < 0 {
        "-"@
    } else {
        ""@
    };
    sign + digits(t / 10) + "."@ + digit_text((t % 10) as int)
}

/// The text shown for one lookup outcome: the place, the first condition
/// with the temperature's symbol, then one line per reading.
pub open spec fn weather_text(w: WeatherResponse) -> Seq<char> {
    "Weather in "@ + w.name@ + ": "@ + w.description_view() + " "@ + emoji_of(
        temp_class_of(w.main.temp as int),
    ) + "\n        > Temperature: "@ + fixed1(w.main.temp as int) + "\u{b0}C\n        > Humidity: "@
        + fixed1(w.main.humidity as int) + "%\n        > Pressure: "@ + fixed1(
        w.main.pressure as int,
    ) + " hPa\n        > Wind Speed: "@ + fixed1(w.wind.speed as int) + " m/s"@
}

/// Appends the decimal digit `d`.
fn append_digit(s: &mut String, d: u64)
    requires
        d < 10,
    ensures
        final(s)@ == old(s)@ + digit_text(d as int),
{
    let all = "0123456789";
    proof {
        reveal_strlit("0123456789");
    }
    let one = all.substring_char(d as usize, (d + 1) as usize);
    s.append(one);
}

/// Appends the decimal digits of `n`.
fn append_digits(s: &mut String, n: u64)
    ensures
        final(s)@ == old(s)@ + digits(n as nat),
    decreases n,
{
    if n < 10 {
        append_digit(s, n);
    } else {
        append_digits(s, n / 10);
        append_digit(s, n % 10);
        proof {
            assert(final(s)@ =~= old(s)@ + digits(n as nat));
        }
    }
}

/// Appends a reading given in hundredths, with one decimal.
fn append_fixed1(s: &mut String, v: i32)
    ensures
        final(s)@ == old(s)@ + fixed1(v as int),
{
    let m: u64 = if v < 0 {
        (-(v as i64)) as u64
    } else {
        v as u64
    };
    let t: u64 = (m + 5) / 10;
    if v < 0 {
        s.append("-");
    } else {
        s.append("");
    }
    append_digits(s, t / 10);
    s.append(".");
    append_digit(s, t % 10);
    proof {
        assert(final(s)@ =~= old(s)@ + fixed1(v as int));
    }
}

/// The text shown for one lookup outcome.
pub fn display_weather_info(weather: &WeatherResponse) -> (r: String)
    requires
        weather.has_condition(),
    ensures
        r@ == weather_text(*weather),
{
    let mut s = String::new();
    s.append("Weather in ");
    s.append(weather.name.as_str());
    s.append(": ");
    s.append(weather.weather[0].description.as_str());
    s.append(" ");
    s.append(get_temp_emoji(weather.main.temp));
    s.append("\n        > Temperature: ");
    append_fixed1(&mut s, weather.main.temp);
    s.append("\u{b0}C\n        > Humidity: ");
    append_fixed1(&mut s, weather.main.humidity);
    s.append("%\n        > Pressure: ");
    append_fixed1(&mut s, weather.main.pressure);
    s.append(" hPa\n        > Wind Speed: ");
    append_fixed1(&mut s, weather.wind.speed);
    s.append(" m/s");
    proof {
        assert(s@ =~= weather_text(*weather));
    }
    s
}

} // verus!
