//! Turning an Open-Meteo daily forecast into `DayForecast` rows.
//!
//! Fetching the response and saving it are done by the application; the
//! library reads the parsed document.

use vstd::prelude::*;
use crate::calendar::{date_exists, weekday_abbrev, weekday_index, weekday_abbreviation};
use crate::json::{lookup, lookup_entry, member, str_or_empty, str_or_empty_chars, u64_or_zero, u64_or_zero_exec, Json};
use crate::model::{day_views, DayForecast, DayView};
use crate::text::{
    chars_of, decimal, join, join_strings, parse_u32, parse_u32_chars, push_chars, push_decimal,
    push_text, split, split_chars, string_of, string_views, text_of, trim, trim_chars,
};

verus! {

pub open spec fn is_rain_code(code: u64) -> bool {
    code == 51 || code == 53 || code == 55 || code == 61 || code == 63 || code == 65 || code == 80
        || code == 81 || code == 82
}

pub open spec fn is_snow_code(code: u64) -> bool {
    code == 71 || code == 73 || code == 75 || code == 77
}

pub open spec fn is_thunder_code(code: u64) -> bool {
    code == 95 || code == 96 || code == 99
}

pub open spec fn is_fog_code(code: u64) -> bool {
    code == 45 || code == 48
}

/// The English condition for a WMO weather code.
pub open spec fn condition_text(code: u64) -> Seq<char> {
    if code == 0 {
        "Sunny"@
    } else if code == 1 {
        "Mostly Sunny"@
    } else if code == 2 {
        "Partly Cloudy"@
    } else if code == 3 {
        "Cloudy"@
    } else if is_fog_code(code) {
        "Foggy"@
    } else if is_rain_code(code) {
        "Rain"@
    } else if is_snow_code(code) {
        "Snow"@
    } else if is_thunder_code(code) {
        "Thunderstorm"@
    } else {
        "Clear"@
    }
}

/// The Kannada description of the sky for a WMO weather code.
pub open spec fn state_text(code: u64) -> Seq<char> {
    if code == 0 {
        "ಬಿಸಿಲಿನ ವಾತಾವರಣ"@
    } else if code == 1 {
        "ಬಹುಶಃ ಬಿಸಿಲು"@
    } else if code == 2 {
        "ಭಾಗಶಃ ಮೋಡಗಾಲ"@
    } else if code == 3 {
        "ಮೋಡಭರಿತ ವಾತಾವರಣ"@
    } else if is_fog_code(code) {
        "ಮಂಜಿನ ವಾತಾವರಣ"@
    } else if is_rain_code(code) {
        "ಮಳೆ ಅಥವಾ ಮಿಂಚುಳ್ಳ ವಾತಾವರಣ"@
    } else if is_snow_code(code) {
        "ಹಿಮ ವಾತಾವರಣ"@
    } else if is_thunder_code(code) {
        "ಗುಡುಗು ಸಹಿತ ಮಳೆಯ ಸಾಧ್ಯತೆ"@
    } else {
        "ಸ್ಪಷ್ಟ ವಾತಾವರಣ"@
    }
}

/// The Kannada phrase for a chance of rain in percent: low up to 15,
/// moderate up to 50, high above.
pub open spec fn precip_phrase(precip: u64) -> Seq<char> {
    if precip <= 15 {
        "ಕಡಿಮೆ ಮಳೆ ಸಾಧ್ಯತೆ"@
    } else if precip <= 50 {
        "ಮಧ್ಯಮ ಮಳೆ ಸಾಧ್ಯತೆ"@
    } else {
        "ಮಳೆ ಸಾಧ್ಯತೆ ಹೆಚ್ಚು"@
    }
}

/// "<sky>; <chance of rain>."
pub open spec fn summary_text(code: u64, precip: u64) -> Seq<char> {
    state_text(code) + "; "@ + precip_phrase(precip) + "."@
}

/// A chance of rain shown as "<n>%".
pub open spec fn precip_text(value: u64) -> Seq<char> {
    decimal(value as nat) + "%"@
}

/// A temperature shown as its whole-degree rounding and "°"; a value that
/// is not a number reads as 0.
pub open spec fn temperature_text(v: Json) -> Seq<char> {
    match v {
        Json::Number(n) => n.rounded@ + "°"@,
        _ => "0°"@,
    }
}

/// "YYYY-MM-DD" shown as "MM DD"; any text with fewer than three
/// dash-separated parts is shown as it is.
pub open spec fn day_label(date: Seq<char>) -> Seq<char> {
    let parts = split(date, '-');
    if parts.len() >= 3 {
        parts[1] + " "@ + parts[2]
    } else {
        date
    }
}

/// A part of a date read as a number, 0 when it is not one.
pub open spec fn number_or_zero(s: Seq<char>) -> u32 {
    match parse_u32(s) {
        Some(v) => v,
        None => 0,
    }
}

/// The weekday abbreviation of a "YYYY-MM-DD" date, or "Day" when the text
/// does not have three parts or names no date.
pub open spec fn day_name_text(date: Seq<char>) -> Seq<char> {
    let parts = split(date, '-');
    if parts.len() != 3 {
        "Day"@
    } else {
        let year = number_or_zero(parts[0]);
        let month = number_or_zero(parts[1]);
        let day = number_or_zero(parts[2]);
        if date_exists(year as i32, month, day) {
            weekday_abbrev(weekday_index((year as i32) as int, month as int, day as int))
        } else {
            "Day"@
        }
    }
}

/// The rain band of a chance of rain: low up to 15, moderate up to 50, high above.
pub open spec fn rain_band(precip: u64) -> int {
    if precip <= 15 {
        0
    } else if precip <= 50 {
        1
    } else {
        2
    }
}

/// The nine groups of weather codes that the report tells apart.
pub open spec fn weather_class(code: u64) -> int {
    if code == 0 {
        0
    } else if code == 1 {
        1
    } else if code == 2 {
        2
    } else if code == 3 {
        3
    } else if is_fog_code(code) {
        4
    } else if is_rain_code(code) {
        5
    } else if is_snow_code(code) {
        6
    } else if is_thunder_code(code) {
        7
    } else {
        8
    }
}

proof fn lemma_state_matches_condition(a: u64, b: u64)
    ensures
        (condition_text(a) == condition_text(b)) <==> (weather_class(a) == weather_class(b)),
        (state_text(a) == state_text(b)) <==> (weather_class(a) == weather_class(b)),
{
    reveal_strlit("Sunny");
    assert("Sunny"@.len() == 5 && "Sunny"@[0] == 'S');
    reveal_strlit("Mostly Sunny");
    assert("Mostly Sunny"@.len() == 12 && "Mostly Sunny"@[0] == 'M');
    reveal_strlit("Partly Cloudy");
    assert("Partly Cloudy"@.len() == 13 && "Partly Cloudy"@[0] == 'P');
    reveal_strlit("Cloudy");
    assert("Cloudy"@.len() == 6 && "Cloudy"@[0] == 'C');
    reveal_strlit("Foggy");
    assert("Foggy"@.len() == 5 && "Foggy"@[0] == 'F');
    reveal_strlit("Rain");
    assert("Rain"@.len() == 4 && "Rain"@[0] == 'R');
    reveal_strlit("Snow");
    assert("Snow"@.len() == 4 && "Snow"@[0] == 'S');
    reveal_strlit("Thunderstorm");
    assert("Thunderstorm"@.len() == 12 && "Thunderstorm"@[0] == 'T');
    reveal_strlit("Clear");
    assert("Clear"@.len() == 5 && "Clear"@[0] == 'C');
    reveal_strlit("ಬಿಸಿಲಿನ ವಾತಾವರಣ");
    assert("ಬಿಸಿಲಿನ ವಾತಾವರಣ"@.len() == 15 && "ಬಿಸಿಲಿನ ವಾತಾವರಣ"@[0] == 'ಬ');
    reveal_strlit("ಬಹುಶಃ ಬಿಸಿಲು");
    assert("ಬಹುಶಃ ಬಿಸಿಲು"@.len() == 12 && "ಬಹುಶಃ ಬಿಸಿಲು"@[0] == 'ಬ');
    reveal_strlit("ಭಾಗಶಃ ಮೋಡಗಾಲ");
    assert("ಭಾಗಶಃ ಮೋಡಗಾಲ"@.len() == 12 && "ಭಾಗಶಃ ಮೋಡಗಾಲ"@[0] == 'ಭ');
    reveal_strlit("ಮೋಡಭರಿತ ವಾತಾವರಣ");
    assert("ಮೋಡಭರಿತ ವಾತಾವರಣ"@.len() == 15 && "ಮೋಡಭರಿತ ವಾತಾವರಣ"@[0] == 'ಮ');
    reveal_strlit("ಮಂಜಿನ ವಾತಾವರಣ");
    assert("ಮಂಜಿನ ವಾತಾವರಣ"@.len() == 13 && "ಮಂಜಿನ ವಾತಾವರಣ"@[0] == 'ಮ');
    reveal_strlit("ಮಳೆ ಅಥವಾ ಮಿಂಚುಳ್ಳ ವಾತಾವರಣ");
    assert("ಮಳೆ ಅಥವಾ ಮಿಂಚುಳ್ಳ ವಾತಾವರಣ"@.len() == 25 && "ಮಳೆ ಅಥವಾ ಮಿಂಚುಳ್ಳ ವಾತಾವರಣ"@[0] == 'ಮ');
    reveal_strlit("ಹಿಮ ವಾತಾವರಣ");
    assert("ಹಿಮ ವಾತಾವರಣ"@.len() == 11 && "ಹಿಮ ವಾತಾವರಣ"@[0] == 'ಹ');
    reveal_strlit("ಗುಡುಗು ಸಹಿತ ಮಳೆಯ ಸಾಧ್ಯತೆ");
    assert("ಗುಡುಗು ಸಹಿತ ಮಳೆಯ ಸಾಧ್ಯತೆ"@.len() == 24 && "ಗುಡುಗು ಸಹಿತ ಮಳೆಯ ಸಾಧ್ಯತೆ"@[0] == 'ಗ');
    reveal_strlit("ಸ್ಪಷ್ಟ ವಾತಾವರಣ");
    assert("ಸ್ಪಷ್ಟ ವಾತಾವರಣ"@.len() == 14 && "ಸ್ಪಷ್ಟ ವಾತಾವರಣ"@[0] == 'ಸ');
}

/// The WMO weather codes the report names, by group: sunny 0, mostly
/// sunny 1, partly cloudy 2, cloudy 3, fog 45 and 48; rain 51, 53, 55 (drizzle),
/// 61, 63, 65 (rain), 80, 81, 82 (showers); snow 71, 73, 75, 77;
/// thunderstorm 95, 96, 99. Every other code reads as clear.
pub open spec fn is_named_wmo_code(c: u64) -> bool {
    c == 0 || c == 1 || c == 2 || c == 3 || c == 45 || c == 48 || c == 51 || c == 53 || c == 55
        || c == 61 || c == 63 || c == 65 || c == 80 || c == 81 || c == 82 || c == 71 || c == 73
        || c == 75 || c == 77 || c == 95 || c == 96 || c == 99
}

/// What each weather code is shown as, code by code: the condition word
/// and the Kannada description of the sky.
pub proof fn lemma_weather_code_table(c: u64)
    ensures
        c == 0 ==> condition_text(c) == "Sunny"@ && state_text(c) == "ಬಿಸಿಲಿನ ವಾತಾವರಣ"@,
        c == 1 ==> condition_text(c) == "Mostly Sunny"@ && state_text(c) == "ಬಹುಶಃ ಬಿಸಿಲು"@,
        c == 2 ==> condition_text(c) == "Partly Cloudy"@ && state_text(c) == "ಭಾಗಶಃ ಮೋಡಗಾಲ"@,
        c == 3 ==> condition_text(c) == "Cloudy"@ && state_text(c) == "ಮೋಡಭರಿತ ವಾತಾವರಣ"@,
        (c == 45 || c == 48) ==> condition_text(c) == "Foggy"@ && state_text(c)
            == "ಮಂಜಿನ ವಾತಾವರಣ"@,
        (c == 51 || c == 53 || c == 55 || c == 61 || c == 63 || c == 65 || c == 80 || c == 81
            || c == 82) ==> condition_text(c) == "Rain"@ && state_text(c)
            == "ಮಳೆ ಅಥವಾ ಮಿಂಚುಳ್ಳ ವಾತಾವರಣ"@,
        (c == 71 || c == 73 || c == 75 || c == 77) ==> condition_text(c) == "Snow"@ && state_text(c)
            == "ಹಿಮ ವಾತಾವರಣ"@,
        (c == 95 || c == 96 || c == 99) ==> condition_text(c) == "Thunderstorm"@ && state_text(c)
            == "ಗುಡುಗು ಸಹಿತ ಮಳೆಯ ಸಾಧ್ಯತೆ"@,
        !is_named_wmo_code(c) ==> condition_text(c) == "Clear"@ && state_text(c)
            == "ಸ್ಪಷ್ಟ ವಾತಾವರಣ"@,
        (condition_text(c) == "Clear"@) <==> !is_named_wmo_code(c),
        (state_text(c) == "ಸ್ಪಷ್ಟ ವಾತಾವರಣ"@) <==> !is_named_wmo_code(c),
{
    lemma_state_matches_condition(c, 100);
}

/// The rain phrase of each chance of rain: low up to 15 %, moderate from 16
/// to 50 %, high above 50 %.
pub proof fn lemma_rain_phrase_table(p: u64)
    ensures
        p <= 15 ==> precip_phrase(p) == "ಕಡಿಮೆ ಮಳೆ ಸಾಧ್ಯತೆ"@,
        16 <= p <= 50 ==> precip_phrase(p) == "ಮಧ್ಯಮ ಮಳೆ ಸಾಧ್ಯತೆ"@,
        p > 50 ==> precip_phrase(p) == "ಮಳೆ ಸಾಧ್ಯತೆ ಹೆಚ್ಚು"@,
        summary_text(63, p) == "ಮಳೆ ಅಥವಾ ಮಿಂಚುಳ್ಳ ವಾತಾವರಣ"@ + "; "@ + precip_phrase(p) + "."@,
{
}

/// Two weather codes get the same summary (for the same chance of rain)
/// exactly when they are shown as the same condition, and the summary
/// depends on the chance of rain only through its band.
pub proof fn lemma_summary_follows_condition(a: u64, b: u64, p: u64, q: u64)
    ensures
        (condition_text(a) == condition_text(b)) <==> (summary_text(a, p) == summary_text(b, p)),
        rain_band(p) == rain_band(q) ==> summary_text(a, p) == summary_text(a, q),
{
    lemma_state_matches_condition(a, b);
    let x = "; "@ + precip_phrase(p) + "."@;
    let sa = state_text(a);
    let sb = state_text(b);
    assert(summary_text(a, p) =~= sa + x);
    assert(summary_text(b, p) =~= sb + x);
    if summary_text(a, p) == summary_text(b, p) {
        assert(sa.len() == sb.len());
        assert(sa =~= (sa + x).take(sa.len() as int));
        assert(sb =~= (sb + x).take(sb.len() as int));
    }
}

/// The English condition for a WMO weather code.
pub fn weather_code_to_condition(code: u64) -> (r: String)
    ensures
        r@ == condition_text(code),
{
    if code == 0 {
        text_of("Sunny")
    } else if code == 1 {
        text_of("Mostly Sunny")
    } else if code == 2 {
        text_of("Partly Cloudy")
    } else if code == 3 {
        text_of("Cloudy")
    } else if code == 45 || code == 48 {
        text_of("Foggy")
    } else if code == 51 || code == 53 || code == 55 || code == 61 || code == 63 || code == 65
        || code == 80 || code == 81 || code == 82 {
        text_of("Rain")
    } else if code == 71 || code == 73 || code == 75 || code == 77 {
        text_of("Snow")
    } else if code == 95 || code == 96 || code == 99 {
        text_of("Thunderstorm")
    } else {
        text_of("Clear")
    }
}

/// A short Kannada summary of the sky and the chance of rain.
pub fn weather_summary(code: u64, precip: u64) -> (r: String)
    ensures
        r@ == summary_text(code, precip),
{
    let state = if code == 0 {
        "ಬಿಸಿಲಿನ ವಾತಾವರಣ"
    } else if code == 1 {
        "ಬಹುಶಃ ಬಿಸಿಲು"
    } else if code == 2 {
        "ಭಾಗಶಃ ಮೋಡಗಾಲ"
    } else if code == 3 {
        "ಮೋಡಭರಿತ ವಾತಾವರಣ"
    } else if code == 45 || code == 48 {
        "ಮಂಜಿನ ವಾತಾವರಣ"
    } else if code == 51 || code == 53 || code == 55 || code == 61 || code == 63 || code == 65
        || code == 80 || code == 81 || code == 82 {
        "ಮಳೆ ಅಥವಾ ಮಿಂಚುಳ್ಳ ವಾತಾವರಣ"
    } else if code == 71 || code == 73 || code == 75 || code == 77 {
        "ಹಿಮ ವಾತಾವರಣ"
    } else if code == 95 || code == 96 || code == 99 {
        "ಗುಡುಗು ಸಹಿತ ಮಳೆಯ ಸಾಧ್ಯತೆ"
    } else {
        "ಸ್ಪಷ್ಟ ವಾತಾವರಣ"
    };
    let phrase = if precip <= 15 {
        "ಕಡಿಮೆ ಮಳೆ ಸಾಧ್ಯತೆ"
    } else if precip <= 50 {
        "ಮಧ್ಯಮ ಮಳೆ ಸಾಧ್ಯತೆ"
    } else {
        "ಮಳೆ ಸಾಧ್ಯತೆ ಹೆಚ್ಚು"
    };
    let mut r = text_of(state);
    push_text(&mut r, "; ");
    push_text(&mut r, phrase);
    push_text(&mut r, ".");
    r
}

/// A chance of rain as "<n>%".
pub fn format_precip(value: u64) -> (r: String)
    ensures
        r@ == precip_text(value),
{
    let mut r = String::new();
    push_decimal(&mut r, value);
    push_text(&mut r, "%");
    r
}

/// A temperature value of the response as "<whole degrees>°".
pub fn format_temperature(v: &Json) -> (r: String)
    ensures
        r@ == temperature_text(*v),
{
    match v {
        Json::Number(n) => {
            let mut r = text_of(n.rounded.as_str());
            push_text(&mut r, "°");
            r
        },
        _ => text_of("0°"),
    }
}

/// "YYYY-MM-DD" as "MM DD".
pub fn format_day_label(date: &str) -> (r: String)
    ensures
        r@ == day_label(date@),
{
    let d = chars_of(date);
    let parts = split_chars(&d, '-');
    if parts.len() >= 3 {
        assert(parts@[1]@ == split(date@, '-')[1]);
        assert(parts@[2]@ == split(date@, '-')[2]);
        let mut r = String::new();
        push_chars(&mut r, &parts[1]);
        push_text(&mut r, " ");
        push_chars(&mut r, &parts[2]);
        r
    } else {
        text_of(date)
    }
}

/// The weekday abbreviation of a "YYYY-MM-DD" date, or "Day".
pub fn format_day_name(date: &str) -> (r: String)
    ensures
        r@ == day_name_text(date@),
{
    let d = chars_of(date);
    let parts = split_chars(&d, '-');
    if parts.len() != 3 {
        return text_of("Day");
    }
    assert(parts@[0]@ == split(date@, '-')[0]);
    assert(parts@[1]@ == split(date@, '-')[1]);
    assert(parts@[2]@ == split(date@, '-')[2]);
    let day = match parse_u32_chars(&parts[2]) {
        Some(v) => v,
        None => 0,
    };
    let month = match parse_u32_chars(&parts[1]) {
        Some(v) => v,
        None => 0,
    };
    let year = match parse_u32_chars(&parts[0]) {
        Some(v) => v,
        None => 0,
    };
    match weekday_abbreviation(year as i32, month, day) {
        Some(name) => name,
        None => text_of("Day"),
    }
}

/// Why a forecast document yields no rows.
#[derive(Debug, Clone, Copy, PartialEq, Eq, Structural)]
pub enum ForecastError {
    /// "weather API response missing daily data"
    MissingDaily,
    /// "weather API response missing time values"
    MissingTimes,
    /// "weather API response missing weather codes"
    MissingCodes,
    /// "weather API response missing max temperature values"
    MissingHighs,
    /// "weather API response missing min temperature values"
    MissingLows,
    /// "weather API response missing precipitation values"
    MissingPrecip,
    /// "Weather API did not return any forecast rows"
    NoRows,
}

/// What a key of the daily block holds.
pub enum Column {
    /// The key is absent.
    Absent,
    /// The key holds something other than an array.
    NotArray,
    /// The key holds an array.
    Values(Seq<Json>),
}

pub open spec fn column(daily: Seq<(String, Json)>, key: Seq<char>) -> Column {
    match lookup(daily, key) {
        None => Column::Absent,
        Some(Json::Array(a)) => Column::Values(a@),
        Some(_) => Column::NotArray,
    }
}

/// The five arrays of the daily block, read in the order the parser reads them.
pub enum DailyColumns {
    /// A key of the daily block is absent: indexing it panics.
    KeyAbsent,
    /// The document is refused with this error.
    Refused(ForecastError),
    /// Times, weather codes, highs, lows and chances of rain.
    Found(Seq<Json>, Seq<Json>, Seq<Json>, Seq<Json>, Seq<Json>),
}

pub open spec fn daily_columns(doc: Json) -> DailyColumns {
    match member(doc, "daily"@) {
        Json::Object(entries) => {
            let d = entries@;
            match column(d, "time"@) {
                Column::Absent => DailyColumns::KeyAbsent,
                Column::NotArray => DailyColumns::Refused(ForecastError::MissingTimes),
                Column::Values(t) => match column(d, "weathercode"@) {
                    Column::Absent => DailyColumns::KeyAbsent,
                    Column::NotArray => DailyColumns::Refused(ForecastError::MissingCodes),
                    Column::Values(c) => match column(d, "temperature_2m_max"@) {
                        Column::Absent => DailyColumns::KeyAbsent,
                        Column::NotArray => DailyColumns::Refused(ForecastError::MissingHighs),
                        Column::Values(h) => match column(d, "temperature_2m_min"@) {
                            Column::Absent => DailyColumns::KeyAbsent,
                            Column::NotArray => DailyColumns::Refused(ForecastError::MissingLows),
                            Column::Values(l) => match column(d, "precipitation_probability_max"@) {
                                Column::Absent => DailyColumns::KeyAbsent,
                                Column::NotArray => DailyColumns::Refused(
                                    ForecastError::MissingPrecip,
                                ),
                                Column::Values(p) => DailyColumns::Found(t, c, h, l, p),
                            },
                        },
                    },
                },
            }
        },
        _ => DailyColumns::Refused(ForecastError::MissingDaily),
    }
}

/// At most ten days are read.
pub open spec fn row_count(times: Seq<Json>) -> nat {
    if times.len() < 10 {
        times.len()
    } else {
        10
    }
}

/// The documents on which the parser would panic: a key of the daily block
/// is absent, or an array is shorter than the rows read from `time`.
pub open spec fn open_meteo_panics(doc: Json) -> bool {
    match daily_columns(doc) {
        DailyColumns::KeyAbsent => true,
        DailyColumns::Found(t, c, h, l, p) => {
            let n = row_count(t);
            c.len() < n || h.len() < n || l.len() < n || p.len() < n
        },
        DailyColumns::Refused(_) => false,
    }
}

/// The forecast row built from the i-th entries of the five arrays.
pub open spec fn day_row(time: Json, code: Json, high: Json, low: Json, precip: Json) -> DayView {
    let date = str_or_empty(time);
    DayView {
        day_name: day_name_text(date),
        date: day_label(date),
        condition: condition_text(u64_or_zero(code)),
        high_temp: temperature_text(high),
        low_temp: temperature_text(low),
        precip_chance: precip_text(u64_or_zero(precip)),
        summary: summary_text(u64_or_zero(code), u64_or_zero(precip)),
    }
}

/// The rows of a document on which the parser does not panic, or its error.
pub open spec fn open_meteo_result(doc: Json) -> Result<Seq<DayView>, ForecastError> {
    match daily_columns(doc) {
        DailyColumns::Refused(e) => Err(e),
        DailyColumns::Found(t, c, h, l, p) => {
            let n = row_count(t);
            if n == 0 {
                Err(ForecastError::NoRows)
            } else {
                Ok(Seq::new(n, |i: int| day_row(t[i], c[i], h[i], l[i], p[i])))
            }
        },
        DailyColumns::KeyAbsent => Err(ForecastError::NoRows),
    }
}

/// A forecast has one row per day of the `time` array, at most ten, and at
/// least one when it is read at all.
pub proof fn lemma_forecast_row_count(doc: Json)
    ensures
        open_meteo_result(doc) matches Ok(rows) ==> 1 <= rows.len() <= 10 && (daily_columns(
            doc,
        ) matches DailyColumns::Found(t, c, h, l, p) && rows.len() == row_count(t)),
{
}

pub open spec fn result_views(r: Result<Vec<DayForecast>, ForecastError>) -> Result<
    Seq<DayView>,
    ForecastError,
> {
    match r {
        Ok(v) => Ok(day_views(v@)),
        Err(e) => Err(e),
    }
}

/// The five arrays of the daily block, as found in a document.
pub enum FoundColumns<'a> {
    KeyAbsent,
    Refused(ForecastError),
    Found(&'a Vec<Json>, &'a Vec<Json>, &'a Vec<Json>, &'a Vec<Json>, &'a Vec<Json>),
}

pub open spec fn found_view(f: FoundColumns) -> DailyColumns {
    match f {
        FoundColumns::KeyAbsent => DailyColumns::KeyAbsent,
        FoundColumns::Refused(e) => DailyColumns::Refused(e),
        FoundColumns::Found(t, c, h, l, p) => DailyColumns::Found(t@, c@, h@, l@, p@),
    }
}

/// What a key of the daily block holds: `None` when absent, `Some(None)`
/// when it is not an array.
fn find_column<'a>(daily: &'a Vec<(String, Json)>, key: &str) -> (r: Option<Option<&'a Vec<Json>>>)
    ensures
        match column(daily@, key@) {
            Column::Absent => r is None,
            Column::NotArray => r == Some(None::<&Vec<Json>>),
            Column::Values(a) => r matches Some(Some(v)) && v@ == a,
        },
{
    match lookup_entry(daily, key) {
        None => None,
        Some(Json::Array(a)) => Some(Some(a)),
        Some(_) => Some(None),
    }
}

fn find_columns<'a>(doc: &'a Json) -> (r: FoundColumns<'a>)
    ensures
        found_view(r) == daily_columns(*doc),
{
    let daily = match doc {
        Json::Object(entries) => match lookup_entry(entries, "daily") {
            Some(Json::Object(d)) => d,
            _ => {
                return FoundColumns::Refused(ForecastError::MissingDaily);
            },
        },
        _ => {
            return FoundColumns::Refused(ForecastError::MissingDaily);
        },
    };
    let t = match find_column(daily, "time") {
        None => {
            return FoundColumns::KeyAbsent;
        },
        Some(None) => {
            return FoundColumns::Refused(ForecastError::MissingTimes);
        },
        Some(Some(a)) => a,
    };
    let c = match find_column(daily, "weathercode") {
        None => {
            return FoundColumns::KeyAbsent;
        },
        Some(None) => {
            return FoundColumns::Refused(ForecastError::MissingCodes);
        },
        Some(Some(a)) => a,
    };
    let h = match find_column(daily, "temperature_2m_max") {
        None => {
            return FoundColumns::KeyAbsent;
        },
        Some(None) => {
            return FoundColumns::Refused(ForecastError::MissingHighs);
        },
        Some(Some(a)) => a,
    };
    let l = match find_column(daily, "temperature_2m_min") {
        None => {
            return FoundColumns::KeyAbsent;
        },
        Some(None) => {
            return FoundColumns::Refused(ForecastError::MissingLows);
        },
        Some(Some(a)) => a,
    };
    let p = match find_column(daily, "precipitation_probability_max") {
        None => {
            return FoundColumns::KeyAbsent;
        },
        Some(None) => {
            return FoundColumns::Refused(ForecastError::MissingPrecip);
        },
        Some(Some(a)) => a,
    };
    FoundColumns::Found(t, c, h, l, p)
}

/// Whether `parse_open_meteo` can read `doc` without panicking (every key of
/// the daily block it indexes is present, and every array is long enough).
pub fn open_meteo_readable(doc: &Json) -> (r: bool)
    ensures
        r == !open_meteo_panics(*doc),
{
    match find_columns(doc) {
        FoundColumns::KeyAbsent => false,
        FoundColumns::Refused(_) => true,
        FoundColumns::Found(t, c, h, l, p) => {
            let n = if t.len() < 10 {
                t.len()
            } else {
                10
            };
            !(c.len() < n || h.len() < n || l.len() < n || p.len() < n)
        },
    }
}

/// The forecast row built from the i-th entries of the five arrays.
fn build_row(time: &Json, code: &Json, high: &Json, low: &Json, precip: &Json) -> (r: DayForecast)
    ensures
        r@ == day_row(*time, *code, *high, *low, *precip),
{
    let date_chars = str_or_empty_chars(time);
    let date = crate::text::string_of(&date_chars);
    let code_value = u64_or_zero_exec(code);
    let precip_value = u64_or_zero_exec(precip);
    DayForecast {
        day_name: format_day_name(date.as_str()),
        date: format_day_label(date.as_str()),
        condition: weather_code_to_condition(code_value),
        high_temp: format_temperature(high),
        low_temp: format_temperature(low),
        precip_chance: format_precip(precip_value),
        summary: weather_summary(code_value, precip_value),
    }
}

/// Converts an Open-Meteo daily forecast into up to ten `DayForecast` rows.
pub fn parse_open_meteo(doc: &Json) -> (r: Result<Vec<DayForecast>, ForecastError>)
    requires
        !open_meteo_panics(*doc),
    ensures
        result_views(r) == open_meteo_result(*doc),
{
    let (t, c, h, l, p) = match find_columns(doc) {
        FoundColumns::KeyAbsent => {
            return Err(ForecastError::NoRows);
        },
        FoundColumns::Refused(e) => {
            return Err(e);
        },
        FoundColumns::Found(t, c, h, l, p) => (t, c, h, l, p),
    };
    let n = if t.len() < 10 {
        t.len()
    } else {
        10
    };
    let ghost rows = Seq::new(n as nat, |i: int| day_row(t@[i], c@[i], h@[i], l@[i], p@[i]));
    let mut results: Vec<DayForecast> = Vec::new();
    for i in 0..n
        invariant
            n <= t.len(),
            n <= c.len(),
            n <= h.len(),
            n <= l.len(),
            n <= p.len(),
            rows == Seq::new(n as nat, |i: int| day_row(t@[i], c@[i], h@[i], l@[i], p@[i])),
            day_views(results@) == rows.take(i as int),
    {
        let row = build_row(&t[i], &c[i], &h[i], &l[i], &p[i]);
        let ghost before = results@;
        results.push(row);
        assert(day_views(results@) =~= day_views(before).push(row@));
        assert(rows.take(i + 1) =~= rows.take(i as int).push(rows[i as int]));
    }
    if results.len() == 0 {
        return Err(ForecastError::NoRows);
    }
    assert(rows.take(n as int) =~= rows);
    Ok(results)
}

/// What scraper gives for an HTML page and two CSS selector groups: `None`
/// when a selector group does not parse; else, for every element matching
/// `item_selector`, in the order `Html::select` yields them, the text nodes of its first
/// descendant matching `field_selector`, if it has one.
pub uninterp spec fn scraped_first_texts(
    html: Seq<char>,
    item_selector: Seq<char>,
    field_selector: Seq<char>,
) -> Option<Seq<Option<Seq<Seq<char>>>>>;

pub open spec fn texts_view(t: Option<Vec<String>>) -> Option<Seq<Seq<char>>> {
    match t {
        Some(v) => Some(string_views(v@)),
        None => None,
    }
}

pub open spec fn scraped_view(r: Option<Vec<Option<Vec<String>>>>) -> Option<Seq<Option<Seq<Seq<char>>>>> {
    match r {
        Some(items) => Some(items@.map_values(|t: Option<Vec<String>>| texts_view(t))),
        None => None,
    }
}

/// Calls `scraper::Html::parse_document` on `html`, `scraper::Selector::parse`
/// on both selector groups, and collects, for each element that
/// `Html::select` yields for the item selector, the `text()` nodes of the
/// first element that `ElementRef::select` yields for the field selector.
/// Trusted: the result is `scraped_first_texts` of the three texts (parsing
/// and matching depend on nothing else).
#[verifier::external_body]
fn select_first_texts(html: &str, item_selector: &str, field_selector: &str) -> (r: Option<Vec<Option<Vec<String>>>>)
    ensures
        scraped_view(r) == scraped_first_texts(html@, item_selector@, field_selector@),
{
    let doc = scraper::Html::parse_document(html);
    let (items, field) = match (scraper::Selector::parse(item_selector), scraper::Selector::parse(field_selector)) {
        (Ok(items), Ok(field)) => (items, field),
        _ => return None,
    };
    Some(doc.select(&items).map(|item| item.select(&field).next().map(|e| e.text().map(|t| t.to_string()).collect())).collect())
}

/// Why a daily-list page yields no rows.
#[derive(Debug, Clone, Copy, PartialEq, Eq, Structural)]
pub enum ScrapeError {
    /// One of the selectors is not a CSS selector group scraper accepts.
    SelectorRejected,
    /// "No daily-list items matched": the markup changed or the page
    /// served a bot-check.
    NoDailyItems,
}

pub const ITEM_SELECTOR: &'static str = "a.daily-list-item";
pub const DAY_SELECTOR: &'static str = ".date p, .day";
pub const DATE_SELECTOR: &'static str = ".date .module-header, .date span";
pub const CONDITION_SELECTOR: &'static str = ".phrase, .cond";
pub const HIGH_SELECTOR: &'static str = ".temp-hi, .high";
pub const LOW_SELECTOR: &'static str = ".temp-lo, .low";
pub const PRECIP_SELECTOR: &'static str = ".precip";

/// The text of a matched field: its text nodes joined by spaces and
/// trimmed; empty when the field is absent or blank.
pub open spec fn field_text(t: Option<Seq<Seq<char>>>) -> Seq<char> {
    match t {
        Some(nodes) => trim(join(nodes, " "@)),
        None => Seq::empty(),
    }
}

/// The i-th entry of a scraped field, if there is one.
pub open spec fn field_at(f: Seq<Option<Seq<Seq<char>>>>, i: int) -> Option<Seq<Seq<char>>> {
    if 0 <= i < f.len() {
        f[i]
    } else {
        None
    }
}

/// The row of the i-th item of a daily-list page.
pub open spec fn scraped_row(
    day: Seq<Option<Seq<Seq<char>>>>,
    date: Seq<Option<Seq<Seq<char>>>>,
    cond: Seq<Option<Seq<Seq<char>>>>,
    high: Seq<Option<Seq<Seq<char>>>>,
    low: Seq<Option<Seq<Seq<char>>>>,
    precip: Seq<Option<Seq<Seq<char>>>>,
    i: int,
) -> DayView {
    DayView {
        day_name: field_text(field_at(day, i)),
        date: field_text(field_at(date, i)),
        condition: field_text(field_at(cond, i)),
        high_temp: field_text(field_at(high, i)),
        low_temp: field_text(field_at(low, i)),
        precip_chance: field_text(field_at(precip, i)),
        summary: Seq::empty(),
    }
}

/// The rows built from the scraped fields: one for each of the first ten
/// items (counted by the day field), or `NoDailyItems` when there are none.
pub open spec fn scraped_rows(
    day: Seq<Option<Seq<Seq<char>>>>,
    date: Seq<Option<Seq<Seq<char>>>>,
    cond: Seq<Option<Seq<Seq<char>>>>,
    high: Seq<Option<Seq<Seq<char>>>>,
    low: Seq<Option<Seq<Seq<char>>>>,
    precip: Seq<Option<Seq<Seq<char>>>>,
) -> Result<Seq<DayView>, ScrapeError> {
    let n = if day.len() < 10 {
        day.len()
    } else {
        10
    };
    if n == 0 {
        Err(ScrapeError::NoDailyItems)
    } else {
        Ok(Seq::new(n, |i: int| scraped_row(day, date, cond, high, low, precip, i)))
    }
}

/// The rows of a daily-list page: `SelectorRejected` when scraper refuses a
/// selector, else the rows built from what it scraped.
pub open spec fn daily_list_result(html: Seq<char>) -> Result<Seq<DayView>, ScrapeError> {
    let day = scraped_first_texts(html, ITEM_SELECTOR@, DAY_SELECTOR@);
    let date = scraped_first_texts(html, ITEM_SELECTOR@, DATE_SELECTOR@);
    let cond = scraped_first_texts(html, ITEM_SELECTOR@, CONDITION_SELECTOR@);
    let high = scraped_first_texts(html, ITEM_SELECTOR@, HIGH_SELECTOR@);
    let low = scraped_first_texts(html, ITEM_SELECTOR@, LOW_SELECTOR@);
    let precip = scraped_first_texts(html, ITEM_SELECTOR@, PRECIP_SELECTOR@);
    if day is None || date is None || cond is None || high is None || low is None || precip is None {
        Err(ScrapeError::SelectorRejected)
    } else {
        scraped_rows(day->0, date->0, cond->0, high->0, low->0, precip->0)
    }
}

/// The texts of a scraped field.
pub open spec fn scraped_field_view(f: Vec<Option<Vec<String>>>) -> Seq<Option<Seq<Seq<char>>>> {
    f@.map_values(|t: Option<Vec<String>>| texts_view(t))
}

/// The text of the i-th entry of a scraped field.
fn first_text(field: &Vec<Option<Vec<String>>>, i: usize) -> (r: String)
    ensures
        r@ == field_text(field_at(field@.map_values(|t: Option<Vec<String>>| texts_view(t)), i as int)),
{
    let ghost f = field@.map_values(|t: Option<Vec<String>>| texts_view(t));
    if i >= field.len() {
        return String::new();
    }
    assert(f[i as int] == texts_view(field@[i as int]));
    match &field[i] {
        Some(nodes) => {
            let joined = join_strings(nodes.as_slice(), " ");
            let c = chars_of(joined.as_str());
            let t = trim_chars(&c);
            string_of(&t)
        },
        None => String::new(),
    }
}

/// Builds the rows of a daily-list page from the scraped fields (for each
/// item, the text nodes of its first match for the day, date, condition,
/// high, low and rain-chance selectors): one row per item, at most ten,
/// each field the trimmed text of its first match.
pub fn rows_from_scraped(
    day: &Vec<Option<Vec<String>>>,
    date: &Vec<Option<Vec<String>>>,
    cond: &Vec<Option<Vec<String>>>,
    high: &Vec<Option<Vec<String>>>,
    low: &Vec<Option<Vec<String>>>,
    precip: &Vec<Option<Vec<String>>>,
) -> (r: Result<Vec<DayForecast>, ScrapeError>)
    ensures
        result_scrape_views(r) == scraped_rows(
            scraped_field_view(*day),
            scraped_field_view(*date),
            scraped_field_view(*cond),
            scraped_field_view(*high),
            scraped_field_view(*low),
            scraped_field_view(*precip),
        ),
{
    let ghost vday = scraped_field_view(*day);
    let ghost vdate = scraped_field_view(*date);
    let ghost vcond = scraped_field_view(*cond);
    let ghost vhigh = scraped_field_view(*high);
    let ghost vlow = scraped_field_view(*low);
    let ghost vprecip = scraped_field_view(*precip);
    let n = if day.len() < 10 {
        day.len()
    } else {
        10
    };
    let ghost rows = Seq::new(n as nat, |i: int| scraped_row(vday, vdate, vcond, vhigh, vlow, vprecip, i));
    let mut results: Vec<DayForecast> = Vec::new();
    for i in 0..n
        invariant
            rows == Seq::new(n as nat, |i: int| scraped_row(vday, vdate, vcond, vhigh, vlow, vprecip, i)),
            vday == scraped_field_view(*day),
            vdate == scraped_field_view(*date),
            vcond == scraped_field_view(*cond),
            vhigh == scraped_field_view(*high),
            vlow == scraped_field_view(*low),
            vprecip == scraped_field_view(*precip),
            day_views(results@) == rows.take(i as int),
    {
        let row = DayForecast {
            day_name: first_text(day, i),
            date: first_text(date, i),
            condition: first_text(cond, i),
            high_temp: first_text(high, i),
            low_temp: first_text(low, i),
            precip_chance: first_text(precip, i),
            summary: String::new(),
        };
        let ghost before = results@;
        results.push(row);
        assert(day_views(results@) =~= day_views(before).push(row@));
        assert(rows.take(i + 1) =~= rows.take(i as int).push(rows[i as int]));
    }
    if results.len() == 0 {
        return Err(ScrapeError::NoDailyItems);
    }
    assert(rows.take(n as int) =~= rows);
    Ok(results)
}

pub open spec fn result_scrape_views(r: Result<Vec<DayForecast>, ScrapeError>) -> Result<Seq<DayView>, ScrapeError> {
    match r {
        Ok(v) => Ok(day_views(v@)),
        Err(e) => Err(e),
    }
}

/// Reads the rows of a 10-day forecast page of the daily-list kind: one
/// row per `a.daily-list-item`, at most ten, each field the trimmed text of
/// its first match.
pub fn parse_daily_list(html: &str) -> (r: Result<Vec<DayForecast>, ScrapeError>)
    ensures
        result_scrape_views(r) == daily_list_result(html@),
{
    let day = select_first_texts(html, ITEM_SELECTOR, DAY_SELECTOR);
    let date = select_first_texts(html, ITEM_SELECTOR, DATE_SELECTOR);
    let cond = select_first_texts(html, ITEM_SELECTOR, CONDITION_SELECTOR);
    let high = select_first_texts(html, ITEM_SELECTOR, HIGH_SELECTOR);
    let low = select_first_texts(html, ITEM_SELECTOR, LOW_SELECTOR);
    let precip = select_first_texts(html, ITEM_SELECTOR, PRECIP_SELECTOR);
    match (day, date, cond, high, low, precip) {
        (Some(a), Some(b), Some(c), Some(d), Some(e), Some(f)) => rows_from_scraped(&a, &b, &c, &d, &e, &f),
        _ => Err(ScrapeError::SelectorRejected),
    }
}

} // verus!
