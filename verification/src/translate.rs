//! English to Kannada with a built-in dictionary only: day names, months and
//! the weather words the forecast uses. Anything else is left as it is.

use vstd::prelude::*;
use crate::fetch::{condition_text, day_name_text, lemma_weather_code_table};
use crate::text::{
    chars_eq_str, chars_of, is_ascii_digit, lemma_trim_fixed, lemma_trim_keeps_first, lower_ascii,
    lower_ascii_chars, string_of, text_of, trim, trim_chars,
};

verus! {

/// The error side of `to_kannada`, which never fails: a dictionary lookup
/// needs no service that could refuse it.
#[derive(Debug, Clone, Copy, PartialEq, Eq)]
pub struct TranslateError;

/// The characters of a bare number with its unit ("34°", "10%").
pub open spec fn is_number_char(c: char) -> bool {
    is_ascii_digit(c) || c == '°' || c == '%' || c == '.' || c == '-' || c == ' '
}

pub open spec fn is_number_text(s: Seq<char>) -> bool {
    forall|i: int| 0 <= i < s.len() ==> is_number_char(#[trigger] s[i])
}

/// The phrases of the dictionary, matched exactly.
pub open spec fn phrase_translation(t: Seq<char>) -> Option<Seq<char>> {
    if t == "Mysore - 10 Day Forecast"@ {
        Some("ಮೈಸೂರು - 10 ದಿನಗಳ ಮುನ್ಸೂಚನೆ"@)
    } else if t == "Mysore - 10 Days Weather Forecast"@ {
        Some("ಮೈಸೂರು - 10 ದಿನಗಳ ಹವಾಮಾನ ಮುನ್ಸೂಚನೆ"@)
    } else if t == "10 day forecast"@ {
        Some("10 ದಿನಗಳ ಮುನ್ಸೂಚನೆ"@)
    } else if t == "Sunny"@ {
        Some("ಬಿಸಿಲು"@)
    } else if t == "Mostly Sunny"@ {
        Some("ಜಾಸ್ತಿಯಷ್ಟು ಸೂರ್ಯ"@)
    } else if t == "Partly Cloudy"@ {
        Some("ಭಾಗಶಃ ಮೋಡ"@)
    } else if t == "Cloudy"@ {
        Some("ಮೋಡ"@)
    } else if t == "Foggy"@ {
        Some("ಮಂಜು"@)
    } else if t == "Rain"@ {
        Some("ಮಳೆ"@)
    } else if t == "Snow"@ {
        Some("ಹಿಮ"@)
    } else if t == "Thunderstorm"@ {
        Some("ಗುಡುಗು ಸಹಿತ ಮಳೆ"@)
    } else if t == "Clear"@ {
        Some("ಸ್ಪಷ್ಟ"@)
    } else if t == "Mysore"@ {
        Some("ಮೈಸೂರು"@)
    } else if t == "Day"@ {
        Some("ದಿನ"@)
    } else if t == "Night"@ {
        Some("ರಾತ್ರಿ"@)
    } else if t == "Now"@ {
        Some("ಈಗ"@)
    } else if t == "Chance of rain"@ {
        Some("ಮಳೆ ಸಾಧ್ಯತೆ"@)
    } else {
        None
    }
}

/// Day names, short or long, in any letter case.
pub open spec fn day_translation(t: Seq<char>) -> Option<Seq<char>> {
    let l = lower_ascii(t);
    if l == "mon"@ || l == "monday"@ {
        Some("ಸೋಮವಾರ"@)
    } else if l == "tue"@ || l == "tuesday"@ {
        Some("ಮಂಗಳವಾರ"@)
    } else if l == "wed"@ || l == "wednesday"@ {
        Some("ಬುಧವಾರ"@)
    } else if l == "thu"@ || l == "thursday"@ {
        Some("ಗುರುವಾರ"@)
    } else if l == "fri"@ || l == "friday"@ {
        Some("ಶುಕ್ರವಾರ"@)
    } else if l == "sat"@ || l == "saturday"@ {
        Some("ಶನಿವಾರ"@)
    } else if l == "sun"@ || l == "sunday"@ {
        Some("ಭಾನುವಾರ"@)
    } else {
        None
    }
}

/// Month names, short or long, in any letter case.
pub open spec fn month_translation(t: Seq<char>) -> Option<Seq<char>> {
    let l = lower_ascii(t);
    if l == "jan"@ || l == "january"@ {
        Some("ಜನ"@)
    } else if l == "feb"@ || l == "february"@ {
        Some("ಫೆಬ್ರ"@)
    } else if l == "mar"@ || l == "march"@ {
        Some("ಮಾರ್ಚ್"@)
    } else if l == "apr"@ || l == "april"@ {
        Some("ಏಪ್ರಿ"@)
    } else if l == "may"@ {
        Some("ಮೇ"@)
    } else if l == "jun"@ || l == "june"@ {
        Some("ಜೂನ್"@)
    } else if l == "jul"@ || l == "july"@ {
        Some("ಜುಲೈ"@)
    } else if l == "aug"@ || l == "august"@ {
        Some("ಆಗ"@)
    } else if l == "sep"@ || l == "september"@ {
        Some("ಸೆಪ್ಟೆ"@)
    } else if l == "oct"@ || l == "october"@ {
        Some("ಅಕ್ಟೋ"@)
    } else if l == "nov"@ || l == "november"@ {
        Some("ನವೆಂ"@)
    } else if l == "dec"@ || l == "december"@ {
        Some("ಡಿಸೆಂ"@)
    } else {
        None
    }
}

/// The dictionary entry for `text` once trimmed: a phrase, else a day name,
/// else a month name.
pub open spec fn dictionary(text: Seq<char>) -> Option<Seq<char>> {
    let t = trim(text);
    match phrase_translation(t) {
        Some(k) => Some(k),
        None => match day_translation(t) {
            Some(k) => Some(k),
            None => month_translation(t),
        },
    }
}

/// What `to_kannada` gives for `text`.
pub open spec fn kannada(text: Seq<char>) -> Seq<char> {
    if trim(text).len() == 0 {
        Seq::empty()
    } else if is_number_text(text) {
        text
    } else {
        match dictionary(text) {
            Some(k) => k,
            None => text,
        }
    }
}

/// A letter of the Kannada block.
pub open spec fn is_kannada_char(c: char) -> bool {
    0x0C80 <= (c as u32) <= 0x0CFF
}

/// Text that starts with a Kannada letter is not in the dictionary and is
/// left as it is.
pub proof fn lemma_kannada_text_kept(t: Seq<char>)
    requires
        t.len() > 0,
        is_kannada_char(t[0]),
    ensures
        dictionary(t) is None,
        kannada(t) == t,
{
    reveal_strlit("Mysore - 10 Day Forecast");
    reveal_strlit("Mysore - 10 Days Weather Forecast");
    reveal_strlit("10 day forecast");
    reveal_strlit("Sunny");
    reveal_strlit("Mostly Sunny");
    reveal_strlit("Partly Cloudy");
    reveal_strlit("Cloudy");
    reveal_strlit("Foggy");
    reveal_strlit("Rain");
    reveal_strlit("Snow");
    reveal_strlit("Thunderstorm");
    reveal_strlit("Clear");
    reveal_strlit("Mysore");
    reveal_strlit("Day");
    reveal_strlit("Night");
    reveal_strlit("Now");
    reveal_strlit("Chance of rain");
    reveal_strlit("mon");
    reveal_strlit("monday");
    reveal_strlit("tue");
    reveal_strlit("tuesday");
    reveal_strlit("wed");
    reveal_strlit("wednesday");
    reveal_strlit("thu");
    reveal_strlit("thursday");
    reveal_strlit("fri");
    reveal_strlit("friday");
    reveal_strlit("sat");
    reveal_strlit("saturday");
    reveal_strlit("sun");
    reveal_strlit("sunday");
    reveal_strlit("jan");
    reveal_strlit("january");
    reveal_strlit("feb");
    reveal_strlit("february");
    reveal_strlit("mar");
    reveal_strlit("march");
    reveal_strlit("apr");
    reveal_strlit("april");
    reveal_strlit("may");
    reveal_strlit("jun");
    reveal_strlit("june");
    reveal_strlit("jul");
    reveal_strlit("july");
    reveal_strlit("aug");
    reveal_strlit("august");
    reveal_strlit("sep");
    reveal_strlit("september");
    reveal_strlit("oct");
    reveal_strlit("october");
    reveal_strlit("nov");
    reveal_strlit("november");
    reveal_strlit("dec");
    reveal_strlit("december");
    lemma_trim_keeps_first(t);
    let n = trim(t);
    assert(lower_ascii(n)[0] == n[0]);
    assert(!is_number_char(t[0]));
}

proof fn lemma_numeric_title_kept()
    ensures
        kannada("10 ದಿನಗಳ ಮುನ್ಸೂಚನೆ"@) == "10 ದಿನಗಳ ಮುನ್ಸೂಚನೆ"@,
{
    reveal_strlit("10 ದಿನಗಳ ಮುನ್ಸೂಚನೆ");
    reveal_strlit("Mysore - 10 Day Forecast");
    reveal_strlit("Mysore - 10 Days Weather Forecast");
    reveal_strlit("10 day forecast");
    reveal_strlit("Sunny");
    reveal_strlit("Mostly Sunny");
    reveal_strlit("Partly Cloudy");
    reveal_strlit("Cloudy");
    reveal_strlit("Foggy");
    reveal_strlit("Rain");
    reveal_strlit("Snow");
    reveal_strlit("Thunderstorm");
    reveal_strlit("Clear");
    reveal_strlit("Mysore");
    reveal_strlit("Day");
    reveal_strlit("Night");
    reveal_strlit("Now");
    reveal_strlit("Chance of rain");
    reveal_strlit("mon");
    reveal_strlit("monday");
    reveal_strlit("tue");
    reveal_strlit("tuesday");
    reveal_strlit("wed");
    reveal_strlit("wednesday");
    reveal_strlit("thu");
    reveal_strlit("thursday");
    reveal_strlit("fri");
    reveal_strlit("friday");
    reveal_strlit("sat");
    reveal_strlit("saturday");
    reveal_strlit("sun");
    reveal_strlit("sunday");
    reveal_strlit("jan");
    reveal_strlit("january");
    reveal_strlit("feb");
    reveal_strlit("february");
    reveal_strlit("mar");
    reveal_strlit("march");
    reveal_strlit("apr");
    reveal_strlit("april");
    reveal_strlit("may");
    reveal_strlit("jun");
    reveal_strlit("june");
    reveal_strlit("jul");
    reveal_strlit("july");
    reveal_strlit("aug");
    reveal_strlit("august");
    reveal_strlit("sep");
    reveal_strlit("september");
    reveal_strlit("oct");
    reveal_strlit("october");
    reveal_strlit("nov");
    reveal_strlit("november");
    reveal_strlit("dec");
    reveal_strlit("december");
    let t = "10 ದಿನಗಳ ಮುನ್ಸೂಚನೆ"@;
    lemma_trim_fixed(t);
    assert(!is_number_char(t[3]));
    assert(lower_ascii(t)[0] == '1');
}

/// Every dictionary entry is Kannada text, save one that starts with "10 ".
proof fn lemma_dictionary_values(t: Seq<char>)
    ensures
        dictionary(t) matches Some(k) ==> (k.len() > 0 && is_kannada_char(k[0])) || k
            == "10 ದಿನಗಳ ಮುನ್ಸೂಚನೆ"@,
{
    reveal_strlit("ಮೈಸೂರು - 10 ದಿನಗಳ ಮುನ್ಸೂಚನೆ");
    reveal_strlit("ಮೈಸೂರು - 10 ದಿನಗಳ ಹವಾಮಾನ ಮುನ್ಸೂಚನೆ");
    reveal_strlit("10 ದಿನಗಳ ಮುನ್ಸೂಚನೆ");
    reveal_strlit("ಬಿಸಿಲು");
    reveal_strlit("ಜಾಸ್ತಿಯಷ್ಟು ಸೂರ್ಯ");
    reveal_strlit("ಭಾಗಶಃ ಮೋಡ");
    reveal_strlit("ಮೋಡ");
    reveal_strlit("ಮಂಜು");
    reveal_strlit("ಮಳೆ");
    reveal_strlit("ಹಿಮ");
    reveal_strlit("ಗುಡುಗು ಸಹಿತ ಮಳೆ");
    reveal_strlit("ಸ್ಪಷ್ಟ");
    reveal_strlit("ಮೈಸೂರು");
    reveal_strlit("ದಿನ");
    reveal_strlit("ರಾತ್ರಿ");
    reveal_strlit("ಈಗ");
    reveal_strlit("ಮಳೆ ಸಾಧ್ಯತೆ");
    reveal_strlit("ಸೋಮವಾರ");
    reveal_strlit("ಮಂಗಳವಾರ");
    reveal_strlit("ಬುಧವಾರ");
    reveal_strlit("ಗುರುವಾರ");
    reveal_strlit("ಶುಕ್ರವಾರ");
    reveal_strlit("ಶನಿವಾರ");
    reveal_strlit("ಭಾನುವಾರ");
    reveal_strlit("ಜನ");
    reveal_strlit("ಫೆಬ್ರ");
    reveal_strlit("ಮಾರ್ಚ್");
    reveal_strlit("ಏಪ್ರಿ");
    reveal_strlit("ಮೇ");
    reveal_strlit("ಜೂನ್");
    reveal_strlit("ಜುಲೈ");
    reveal_strlit("ಆಗ");
    reveal_strlit("ಸೆಪ್ಟೆ");
    reveal_strlit("ಅಕ್ಟೋ");
    reveal_strlit("ನವೆಂ");
    reveal_strlit("ಡಿಸೆಂ");
}

/// Translating twice gives what translating once gives: dictionary entries
/// are Kannada, which the dictionary leaves alone.
pub proof fn lemma_to_kannada_idempotent(text: Seq<char>)
    ensures
        kannada(kannada(text)) == kannada(text),
{
    if trim(text).len() == 0 {
        assert(trim(Seq::<char>::empty()) =~= Seq::<char>::empty());
    } else if is_number_text(text) {
    } else {
        lemma_dictionary_values(text);
        match dictionary(text) {
            Some(k) => {
                if k == "10 ದಿನಗಳ ಮುನ್ಸೂಚನೆ"@ {
                    lemma_numeric_title_kept();
                } else {
                    lemma_kannada_text_kept(k);
                }
            },
            None => {},
        }
    }
}

/// The Kannada names of the week's days, and of "Day".
pub open spec fn is_kannada_day_name(k: Seq<char>) -> bool {
    ||| k == "ಸೋಮವಾರ"@
    ||| k == "ಮಂಗಳವಾರ"@
    ||| k == "ಬುಧವಾರ"@
    ||| k == "ಗುರುವಾರ"@
    ||| k == "ಶುಕ್ರವಾರ"@
    ||| k == "ಶನಿವಾರ"@
    ||| k == "ಭಾನುವಾರ"@
    ||| k == "ದಿನ"@
}

/// Every day name that a forecast date is shown as is in the dictionary:
/// it reaches the posters as a Kannada day name (or "ದಿನ" for "Day").
pub proof fn lemma_day_names_translate(date: Seq<char>)
    ensures
        kannada(day_name_text(date)) != day_name_text(date),
        is_kannada_day_name(kannada(day_name_text(date))),
{
    lemma_weekday_names_translate(day_name_text(date));
}

proof fn lemma_weekday_names_translate(t: Seq<char>)
    requires
        t == "Day"@ || t == "Sun"@ || t == "Mon"@ || t == "Tue"@ || t == "Wed"@ || t == "Thu"@
            || t == "Fri"@ || t == "Sat"@,
    ensures
        kannada(t) != t,
        is_kannada_day_name(kannada(t)),
{
    reveal_strlit("mon");
    reveal_strlit("monday");
    reveal_strlit("tue");
    reveal_strlit("tuesday");
    reveal_strlit("wed");
    reveal_strlit("wednesday");
    reveal_strlit("thu");
    reveal_strlit("thursday");
    reveal_strlit("fri");
    reveal_strlit("friday");
    reveal_strlit("sat");
    reveal_strlit("saturday");
    reveal_strlit("sun");
    reveal_strlit("sunday");
    reveal_strlit("Mysore - 10 Day Forecast");
    reveal_strlit("Mysore - 10 Days Weather Forecast");
    reveal_strlit("10 day forecast");
    reveal_strlit("Sunny");
    reveal_strlit("Mostly Sunny");
    reveal_strlit("Partly Cloudy");
    reveal_strlit("Cloudy");
    reveal_strlit("Foggy");
    reveal_strlit("Rain");
    reveal_strlit("Snow");
    reveal_strlit("Thunderstorm");
    reveal_strlit("Clear");
    reveal_strlit("Mysore");
    reveal_strlit("Day");
    reveal_strlit("Night");
    reveal_strlit("Now");
    reveal_strlit("Chance of rain");
    if t == "Sun"@ {
        reveal_strlit("Sun");
        reveal_strlit("sun");
        reveal_strlit("ಭಾನುವಾರ");
        lemma_trim_fixed(t);
        assert(lower_ascii(t) =~= "sun"@);
        assert(lower_ascii(t)[0] == 's' && lower_ascii(t)[1] == 'u' && lower_ascii(t).len() == 3);
        assert(!is_number_char(t[0]));
        assert(kannada(t) == "ಭಾನುವಾರ"@);
        assert(kannada(t)[0] != t[0]);
    } else if t == "Mon"@ {
        reveal_strlit("Mon");
        reveal_strlit("mon");
        reveal_strlit("ಸೋಮವಾರ");
        lemma_trim_fixed(t);
        assert(lower_ascii(t) =~= "mon"@);
        assert(lower_ascii(t)[0] == 'm' && lower_ascii(t)[1] == 'o' && lower_ascii(t).len() == 3);
        assert(!is_number_char(t[0]));
        assert(kannada(t) == "ಸೋಮವಾರ"@);
        assert(kannada(t)[0] != t[0]);
    } else if t == "Tue"@ {
        reveal_strlit("Tue");
        reveal_strlit("tue");
        reveal_strlit("ಮಂಗಳವಾರ");
        lemma_trim_fixed(t);
        assert(lower_ascii(t) =~= "tue"@);
        assert(lower_ascii(t)[0] == 't' && lower_ascii(t)[1] == 'u' && lower_ascii(t).len() == 3);
        assert(!is_number_char(t[0]));
        assert(kannada(t) == "ಮಂಗಳವಾರ"@);
        assert(kannada(t)[0] != t[0]);
    } else if t == "Wed"@ {
        reveal_strlit("Wed");
        reveal_strlit("wed");
        reveal_strlit("ಬುಧವಾರ");
        lemma_trim_fixed(t);
        assert(lower_ascii(t) =~= "wed"@);
        assert(lower_ascii(t)[0] == 'w' && lower_ascii(t)[1] == 'e' && lower_ascii(t).len() == 3);
        assert(!is_number_char(t[0]));
        assert(kannada(t) == "ಬುಧವಾರ"@);
        assert(kannada(t)[0] != t[0]);
    } else if t == "Thu"@ {
        reveal_strlit("Thu");
        reveal_strlit("thu");
        reveal_strlit("ಗುರುವಾರ");
        lemma_trim_fixed(t);
        assert(lower_ascii(t) =~= "thu"@);
        assert(lower_ascii(t)[0] == 't' && lower_ascii(t)[1] == 'h' && lower_ascii(t).len() == 3);
        assert(!is_number_char(t[0]));
        assert(kannada(t) == "ಗುರುವಾರ"@);
        assert(kannada(t)[0] != t[0]);
    } else if t == "Fri"@ {
        reveal_strlit("Fri");
        reveal_strlit("fri");
        reveal_strlit("ಶುಕ್ರವಾರ");
        lemma_trim_fixed(t);
        assert(lower_ascii(t) =~= "fri"@);
        assert(lower_ascii(t)[0] == 'f' && lower_ascii(t)[1] == 'r' && lower_ascii(t).len() == 3);
        assert(!is_number_char(t[0]));
        assert(kannada(t) == "ಶುಕ್ರವಾರ"@);
        assert(kannada(t)[0] != t[0]);
    } else if t == "Sat"@ {
        reveal_strlit("Sat");
        reveal_strlit("sat");
        reveal_strlit("ಶನಿವಾರ");
        lemma_trim_fixed(t);
        assert(lower_ascii(t) =~= "sat"@);
        assert(lower_ascii(t)[0] == 's' && lower_ascii(t)[1] == 'a' && lower_ascii(t).len() == 3);
        assert(!is_number_char(t[0]));
        assert(kannada(t) == "ಶನಿವಾರ"@);
        assert(kannada(t)[0] != t[0]);
    } else {
        reveal_strlit("ದಿನ");
        lemma_trim_fixed(t);
        assert(!is_number_char(t[0]));
        assert(kannada(t) == "ದಿನ"@);
        assert(kannada(t)[0] != t[0]);
    }
}

/// The dictionary's phrases, each with its Kannada.
pub proof fn lemma_phrase_table()
    ensures
        kannada("Mysore - 10 Day Forecast"@) == "ಮೈಸೂರು - 10 ದಿನಗಳ ಮುನ್ಸೂಚನೆ"@,
        kannada("Mysore - 10 Days Weather Forecast"@) == "ಮೈಸೂರು - 10 ದಿನಗಳ ಹವಾಮಾನ ಮುನ್ಸೂಚನೆ"@,
        kannada("10 day forecast"@) == "10 ದಿನಗಳ ಮುನ್ಸೂಚನೆ"@,
        kannada("Sunny"@) == "ಬಿಸಿಲು"@,
        kannada("Mostly Sunny"@) == "ಜಾಸ್ತಿಯಷ್ಟು ಸೂರ್ಯ"@,
        kannada("Partly Cloudy"@) == "ಭಾಗಶಃ ಮೋಡ"@,
        kannada("Cloudy"@) == "ಮೋಡ"@,
        kannada("Foggy"@) == "ಮಂಜು"@,
        kannada("Rain"@) == "ಮಳೆ"@,
        kannada("Snow"@) == "ಹಿಮ"@,
        kannada("Thunderstorm"@) == "ಗುಡುಗು ಸಹಿತ ಮಳೆ"@,
        kannada("Clear"@) == "ಸ್ಪಷ್ಟ"@,
        kannada("Mysore"@) == "ಮೈಸೂರು"@,
        kannada("Day"@) == "ದಿನ"@,
        kannada("Night"@) == "ರಾತ್ರಿ"@,
        kannada("Now"@) == "ಈಗ"@,
        kannada("Chance of rain"@) == "ಮಳೆ ಸಾಧ್ಯತೆ"@,
{
    reveal_strlit("Mysore - 10 Day Forecast");
    reveal_strlit("Mysore - 10 Days Weather Forecast");
    reveal_strlit("10 day forecast");
    reveal_strlit("Sunny");
    reveal_strlit("Mostly Sunny");
    reveal_strlit("Partly Cloudy");
    reveal_strlit("Cloudy");
    reveal_strlit("Foggy");
    reveal_strlit("Rain");
    reveal_strlit("Snow");
    reveal_strlit("Thunderstorm");
    reveal_strlit("Clear");
    reveal_strlit("Mysore");
    reveal_strlit("Day");
    reveal_strlit("Night");
    reveal_strlit("Now");
    reveal_strlit("Chance of rain");
    assert(kannada("Mysore - 10 Day Forecast"@) == "ಮೈಸೂರು - 10 ದಿನಗಳ ಮುನ್ಸೂಚನೆ"@) by {
        reveal_strlit("Mysore - 10 Day Forecast");
        reveal_strlit("ಮೈಸೂರು - 10 ದಿನಗಳ ಮುನ್ಸೂಚನೆ");
        lemma_trim_fixed("Mysore - 10 Day Forecast"@);
        assert(!is_number_char("Mysore - 10 Day Forecast"@[0]));
    }
    assert(kannada("Mysore - 10 Days Weather Forecast"@) == "ಮೈಸೂರು - 10 ದಿನಗಳ ಹವಾಮಾನ ಮುನ್ಸೂಚನೆ"@) by {
        reveal_strlit("Mysore - 10 Days Weather Forecast");
        reveal_strlit("ಮೈಸೂರು - 10 ದಿನಗಳ ಹವಾಮಾನ ಮುನ್ಸೂಚನೆ");
        lemma_trim_fixed("Mysore - 10 Days Weather Forecast"@);
        assert(!is_number_char("Mysore - 10 Days Weather Forecast"@[0]));
    }
    assert(kannada("10 day forecast"@) == "10 ದಿನಗಳ ಮುನ್ಸೂಚನೆ"@) by {
        reveal_strlit("10 day forecast");
        reveal_strlit("10 ದಿನಗಳ ಮುನ್ಸೂಚನೆ");
        lemma_trim_fixed("10 day forecast"@);
        assert(!is_number_char("10 day forecast"@[3]));
    }
    assert(kannada("Sunny"@) == "ಬಿಸಿಲು"@) by {
        reveal_strlit("Sunny");
        reveal_strlit("ಬಿಸಿಲು");
        lemma_trim_fixed("Sunny"@);
        assert(!is_number_char("Sunny"@[0]));
    }
    assert(kannada("Mostly Sunny"@) == "ಜಾಸ್ತಿಯಷ್ಟು ಸೂರ್ಯ"@) by {
        reveal_strlit("Mostly Sunny");
        reveal_strlit("ಜಾಸ್ತಿಯಷ್ಟು ಸೂರ್ಯ");
        lemma_trim_fixed("Mostly Sunny"@);
        assert(!is_number_char("Mostly Sunny"@[0]));
    }
    assert(kannada("Partly Cloudy"@) == "ಭಾಗಶಃ ಮೋಡ"@) by {
        reveal_strlit("Partly Cloudy");
        reveal_strlit("ಭಾಗಶಃ ಮೋಡ");
        lemma_trim_fixed("Partly Cloudy"@);
        assert(!is_number_char("Partly Cloudy"@[0]));
    }
    assert(kannada("Cloudy"@) == "ಮೋಡ"@) by {
        reveal_strlit("Cloudy");
        reveal_strlit("ಮೋಡ");
        lemma_trim_fixed("Cloudy"@);
        assert(!is_number_char("Cloudy"@[0]));
    }
    assert(kannada("Foggy"@) == "ಮಂಜು"@) by {
        reveal_strlit("Foggy");
        reveal_strlit("ಮಂಜು");
        lemma_trim_fixed("Foggy"@);
        assert(!is_number_char("Foggy"@[0]));
    }
    assert(kannada("Rain"@) == "ಮಳೆ"@) by {
        reveal_strlit("Rain");
        reveal_strlit("ಮಳೆ");
        lemma_trim_fixed("Rain"@);
        assert(!is_number_char("Rain"@[0]));
    }
    assert(kannada("Snow"@) == "ಹಿಮ"@) by {
        reveal_strlit("Snow");
        reveal_strlit("ಹಿಮ");
        lemma_trim_fixed("Snow"@);
        assert(!is_number_char("Snow"@[0]));
    }
    assert(kannada("Thunderstorm"@) == "ಗುಡುಗು ಸಹಿತ ಮಳೆ"@) by {
        reveal_strlit("Thunderstorm");
        reveal_strlit("ಗುಡುಗು ಸಹಿತ ಮಳೆ");
        lemma_trim_fixed("Thunderstorm"@);
        assert(!is_number_char("Thunderstorm"@[0]));
    }
    assert(kannada("Clear"@) == "ಸ್ಪಷ್ಟ"@) by {
        reveal_strlit("Clear");
        reveal_strlit("ಸ್ಪಷ್ಟ");
        lemma_trim_fixed("Clear"@);
        assert(!is_number_char("Clear"@[0]));
    }
    assert(kannada("Mysore"@) == "ಮೈಸೂರು"@) by {
        reveal_strlit("Mysore");
        reveal_strlit("ಮೈಸೂರು");
        lemma_trim_fixed("Mysore"@);
        assert(!is_number_char("Mysore"@[0]));
    }
    assert(kannada("Day"@) == "ದಿನ"@) by {
        reveal_strlit("Day");
        reveal_strlit("ದಿನ");
        lemma_trim_fixed("Day"@);
        assert(!is_number_char("Day"@[0]));
    }
    assert(kannada("Night"@) == "ರಾತ್ರಿ"@) by {
        reveal_strlit("Night");
        reveal_strlit("ರಾತ್ರಿ");
        lemma_trim_fixed("Night"@);
        assert(!is_number_char("Night"@[0]));
    }
    assert(kannada("Now"@) == "ಈಗ"@) by {
        reveal_strlit("Now");
        reveal_strlit("ಈಗ");
        lemma_trim_fixed("Now"@);
        assert(!is_number_char("Now"@[0]));
    }
    assert(kannada("Chance of rain"@) == "ಮಳೆ ಸಾಧ್ಯತೆ"@) by {
        reveal_strlit("Chance of rain");
        reveal_strlit("ಮಳೆ ಸಾಧ್ಯತೆ");
        lemma_trim_fixed("Chance of rain"@);
        assert(!is_number_char("Chance of rain"@[0]));
    }
}

/// The day names, short and long, each with its Kannada.
pub proof fn lemma_day_name_table()
    ensures
        kannada("mon"@) == "ಸೋಮವಾರ"@,
        kannada("monday"@) == "ಸೋಮವಾರ"@,
        kannada("tue"@) == "ಮಂಗಳವಾರ"@,
        kannada("tuesday"@) == "ಮಂಗಳವಾರ"@,
        kannada("wed"@) == "ಬುಧವಾರ"@,
        kannada("wednesday"@) == "ಬುಧವಾರ"@,
        kannada("thu"@) == "ಗುರುವಾರ"@,
        kannada("thursday"@) == "ಗುರುವಾರ"@,
        kannada("fri"@) == "ಶುಕ್ರವಾರ"@,
        kannada("friday"@) == "ಶುಕ್ರವಾರ"@,
        kannada("sat"@) == "ಶನಿವಾರ"@,
        kannada("saturday"@) == "ಶನಿವಾರ"@,
        kannada("sun"@) == "ಭಾನುವಾರ"@,
        kannada("sunday"@) == "ಭಾನುವಾರ"@,
{
    reveal_strlit("Mysore - 10 Day Forecast");
    reveal_strlit("Mysore - 10 Days Weather Forecast");
    reveal_strlit("10 day forecast");
    reveal_strlit("Sunny");
    reveal_strlit("Mostly Sunny");
    reveal_strlit("Partly Cloudy");
    reveal_strlit("Cloudy");
    reveal_strlit("Foggy");
    reveal_strlit("Rain");
    reveal_strlit("Snow");
    reveal_strlit("Thunderstorm");
    reveal_strlit("Clear");
    reveal_strlit("Mysore");
    reveal_strlit("Day");
    reveal_strlit("Night");
    reveal_strlit("Now");
    reveal_strlit("Chance of rain");
    reveal_strlit("mon");
    reveal_strlit("monday");
    reveal_strlit("tue");
    reveal_strlit("tuesday");
    reveal_strlit("wed");
    reveal_strlit("wednesday");
    reveal_strlit("thu");
    reveal_strlit("thursday");
    reveal_strlit("fri");
    reveal_strlit("friday");
    reveal_strlit("sat");
    reveal_strlit("saturday");
    reveal_strlit("sun");
    reveal_strlit("sunday");
    reveal_strlit("jan");
    reveal_strlit("january");
    reveal_strlit("feb");
    reveal_strlit("february");
    reveal_strlit("mar");
    reveal_strlit("march");
    reveal_strlit("apr");
    reveal_strlit("april");
    reveal_strlit("may");
    reveal_strlit("jun");
    reveal_strlit("june");
    reveal_strlit("jul");
    reveal_strlit("july");
    reveal_strlit("aug");
    reveal_strlit("august");
    reveal_strlit("sep");
    reveal_strlit("september");
    reveal_strlit("oct");
    reveal_strlit("october");
    reveal_strlit("nov");
    reveal_strlit("november");
    reveal_strlit("dec");
    reveal_strlit("december");
    assert(kannada("mon"@) == "ಸೋಮವಾರ"@) by {
        reveal_strlit("mon");
        reveal_strlit("ಸೋಮವಾರ");
        lemma_trim_fixed("mon"@);
        assert(lower_ascii("mon"@) =~= "mon"@);
        assert("mon"@.len() == 3 && "mon"@[0] == 'm' && "mon"@[1] == 'o' && "mon"@[2] == 'n');
        assert(!is_number_char("mon"@[0]));
    }
    assert(kannada("monday"@) == "ಸೋಮವಾರ"@) by {
        reveal_strlit("monday");
        reveal_strlit("ಸೋಮವಾರ");
        lemma_trim_fixed("monday"@);
        assert(lower_ascii("monday"@) =~= "monday"@);
        assert("monday"@.len() == 6 && "monday"@[0] == 'm' && "monday"@[1] == 'o' && "monday"@[2] == 'n');
        assert(!is_number_char("monday"@[0]));
    }
    assert(kannada("tue"@) == "ಮಂಗಳವಾರ"@) by {
        reveal_strlit("tue");
        reveal_strlit("ಮಂಗಳವಾರ");
        lemma_trim_fixed("tue"@);
        assert(lower_ascii("tue"@) =~= "tue"@);
        assert("tue"@.len() == 3 && "tue"@[0] == 't' && "tue"@[1] == 'u' && "tue"@[2] == 'e');
        assert(!is_number_char("tue"@[0]));
    }
    assert(kannada("tuesday"@) == "ಮಂಗಳವಾರ"@) by {
        reveal_strlit("tuesday");
        reveal_strlit("ಮಂಗಳವಾರ");
        lemma_trim_fixed("tuesday"@);
        assert(lower_ascii("tuesday"@) =~= "tuesday"@);
        assert("tuesday"@.len() == 7 && "tuesday"@[0] == 't' && "tuesday"@[1] == 'u' && "tuesday"@[2] == 'e');
        assert(!is_number_char("tuesday"@[0]));
    }
    assert(kannada("wed"@) == "ಬುಧವಾರ"@) by {
        reveal_strlit("wed");
        reveal_strlit("ಬುಧವಾರ");
        lemma_trim_fixed("wed"@);
        assert(lower_ascii("wed"@) =~= "wed"@);
        assert("wed"@.len() == 3 && "wed"@[0] == 'w' && "wed"@[1] == 'e' && "wed"@[2] == 'd');
        assert(!is_number_char("wed"@[0]));
    }
    assert(kannada("wednesday"@) == "ಬುಧವಾರ"@) by {
        reveal_strlit("wednesday");
        reveal_strlit("ಬುಧವಾರ");
        lemma_trim_fixed("wednesday"@);
        assert(lower_ascii("wednesday"@) =~= "wednesday"@);
        assert("wednesday"@.len() == 9 && "wednesday"@[0] == 'w' && "wednesday"@[1] == 'e' && "wednesday"@[2] == 'd');
        assert(!is_number_char("wednesday"@[0]));
    }
    assert(kannada("thu"@) == "ಗುರುವಾರ"@) by {
        reveal_strlit("thu");
        reveal_strlit("ಗುರುವಾರ");
        lemma_trim_fixed("thu"@);
        assert(lower_ascii("thu"@) =~= "thu"@);
        assert("thu"@.len() == 3 && "thu"@[0] == 't' && "thu"@[1] == 'h' && "thu"@[2] == 'u');
        assert(!is_number_char("thu"@[0]));
    }
    assert(kannada("thursday"@) == "ಗುರುವಾರ"@) by {
        reveal_strlit("thursday");
        reveal_strlit("ಗುರುವಾರ");
        lemma_trim_fixed("thursday"@);
        assert(lower_ascii("thursday"@) =~= "thursday"@);
        assert("thursday"@.len() == 8 && "thursday"@[0] == 't' && "thursday"@[1] == 'h' && "thursday"@[2] == 'u');
        assert(!is_number_char("thursday"@[0]));
    }
    assert(kannada("fri"@) == "ಶುಕ್ರವಾರ"@) by {
        reveal_strlit("fri");
        reveal_strlit("ಶುಕ್ರವಾರ");
        lemma_trim_fixed("fri"@);
        assert(lower_ascii("fri"@) =~= "fri"@);
        assert("fri"@.len() == 3 && "fri"@[0] == 'f' && "fri"@[1] == 'r' && "fri"@[2] == 'i');
        assert(!is_number_char("fri"@[0]));
    }
    assert(kannada("friday"@) == "ಶುಕ್ರವಾರ"@) by {
        reveal_strlit("friday");
        reveal_strlit("ಶುಕ್ರವಾರ");
        lemma_trim_fixed("friday"@);
        assert(lower_ascii("friday"@) =~= "friday"@);
        assert("friday"@.len() == 6 && "friday"@[0] == 'f' && "friday"@[1] == 'r' && "friday"@[2] == 'i');
        assert(!is_number_char("friday"@[0]));
    }
    assert(kannada("sat"@) == "ಶನಿವಾರ"@) by {
        reveal_strlit("sat");
        reveal_strlit("ಶನಿವಾರ");
        lemma_trim_fixed("sat"@);
        assert(lower_ascii("sat"@) =~= "sat"@);
        assert("sat"@.len() == 3 && "sat"@[0] == 's' && "sat"@[1] == 'a' && "sat"@[2] == 't');
        assert(!is_number_char("sat"@[0]));
    }
    assert(kannada("saturday"@) == "ಶನಿವಾರ"@) by {
        reveal_strlit("saturday");
        reveal_strlit("ಶನಿವಾರ");
        lemma_trim_fixed("saturday"@);
        assert(lower_ascii("saturday"@) =~= "saturday"@);
        assert("saturday"@.len() == 8 && "saturday"@[0] == 's' && "saturday"@[1] == 'a' && "saturday"@[2] == 't');
        assert(!is_number_char("saturday"@[0]));
    }
    assert(kannada("sun"@) == "ಭಾನುವಾರ"@) by {
        reveal_strlit("sun");
        reveal_strlit("ಭಾನುವಾರ");
        lemma_trim_fixed("sun"@);
        assert(lower_ascii("sun"@) =~= "sun"@);
        assert("sun"@.len() == 3 && "sun"@[0] == 's' && "sun"@[1] == 'u' && "sun"@[2] == 'n');
        assert(!is_number_char("sun"@[0]));
    }
    assert(kannada("sunday"@) == "ಭಾನುವಾರ"@) by {
        reveal_strlit("sunday");
        reveal_strlit("ಭಾನುವಾರ");
        lemma_trim_fixed("sunday"@);
        assert(lower_ascii("sunday"@) =~= "sunday"@);
        assert("sunday"@.len() == 6 && "sunday"@[0] == 's' && "sunday"@[1] == 'u' && "sunday"@[2] == 'n');
        assert(!is_number_char("sunday"@[0]));
    }
}

/// The month names, short and long, each with its Kannada.
pub proof fn lemma_month_name_table()
    ensures
        kannada("jan"@) == "ಜನ"@,
        kannada("january"@) == "ಜನ"@,
        kannada("feb"@) == "ಫೆಬ್ರ"@,
        kannada("february"@) == "ಫೆಬ್ರ"@,
        kannada("mar"@) == "ಮಾರ್ಚ್"@,
        kannada("march"@) == "ಮಾರ್ಚ್"@,
        kannada("apr"@) == "ಏಪ್ರಿ"@,
        kannada("april"@) == "ಏಪ್ರಿ"@,
        kannada("may"@) == "ಮೇ"@,
        kannada("jun"@) == "ಜೂನ್"@,
        kannada("june"@) == "ಜೂನ್"@,
        kannada("jul"@) == "ಜುಲೈ"@,
        kannada("july"@) == "ಜುಲೈ"@,
        kannada("aug"@) == "ಆಗ"@,
        kannada("august"@) == "ಆಗ"@,
        kannada("sep"@) == "ಸೆಪ್ಟೆ"@,
        kannada("september"@) == "ಸೆಪ್ಟೆ"@,
        kannada("oct"@) == "ಅಕ್ಟೋ"@,
        kannada("october"@) == "ಅಕ್ಟೋ"@,
        kannada("nov"@) == "ನವೆಂ"@,
        kannada("november"@) == "ನವೆಂ"@,
        kannada("dec"@) == "ಡಿಸೆಂ"@,
        kannada("december"@) == "ಡಿಸೆಂ"@,
{
    reveal_strlit("Mysore - 10 Day Forecast");
    reveal_strlit("Mysore - 10 Days Weather Forecast");
    reveal_strlit("10 day forecast");
    reveal_strlit("Sunny");
    reveal_strlit("Mostly Sunny");
    reveal_strlit("Partly Cloudy");
    reveal_strlit("Cloudy");
    reveal_strlit("Foggy");
    reveal_strlit("Rain");
    reveal_strlit("Snow");
    reveal_strlit("Thunderstorm");
    reveal_strlit("Clear");
    reveal_strlit("Mysore");
    reveal_strlit("Day");
    reveal_strlit("Night");
    reveal_strlit("Now");
    reveal_strlit("Chance of rain");
    reveal_strlit("mon");
    reveal_strlit("monday");
    reveal_strlit("tue");
    reveal_strlit("tuesday");
    reveal_strlit("wed");
    reveal_strlit("wednesday");
    reveal_strlit("thu");
    reveal_strlit("thursday");
    reveal_strlit("fri");
    reveal_strlit("friday");
    reveal_strlit("sat");
    reveal_strlit("saturday");
    reveal_strlit("sun");
    reveal_strlit("sunday");
    reveal_strlit("jan");
    reveal_strlit("january");
    reveal_strlit("feb");
    reveal_strlit("february");
    reveal_strlit("mar");
    reveal_strlit("march");
    reveal_strlit("apr");
    reveal_strlit("april");
    reveal_strlit("may");
    reveal_strlit("jun");
    reveal_strlit("june");
    reveal_strlit("jul");
    reveal_strlit("july");
    reveal_strlit("aug");
    reveal_strlit("august");
    reveal_strlit("sep");
    reveal_strlit("september");
    reveal_strlit("oct");
    reveal_strlit("october");
    reveal_strlit("nov");
    reveal_strlit("november");
    reveal_strlit("dec");
    reveal_strlit("december");
    assert(kannada("jan"@) == "ಜನ"@) by {
        reveal_strlit("jan");
        reveal_strlit("ಜನ");
        lemma_trim_fixed("jan"@);
        assert(lower_ascii("jan"@) =~= "jan"@);
        assert("jan"@.len() == 3 && "jan"@[0] == 'j' && "jan"@[1] == 'a' && "jan"@[2] == 'n');
        assert(!is_number_char("jan"@[0]));
    }
    assert(kannada("january"@) == "ಜನ"@) by {
        reveal_strlit("january");
        reveal_strlit("ಜನ");
        lemma_trim_fixed("january"@);
        assert(lower_ascii("january"@) =~= "january"@);
        assert("january"@.len() == 7 && "january"@[0] == 'j' && "january"@[1] == 'a' && "january"@[2] == 'n');
        assert(!is_number_char("january"@[0]));
    }
    assert(kannada("feb"@) == "ಫೆಬ್ರ"@) by {
        reveal_strlit("feb");
        reveal_strlit("ಫೆಬ್ರ");
        lemma_trim_fixed("feb"@);
        assert(lower_ascii("feb"@) =~= "feb"@);
        assert("feb"@.len() == 3 && "feb"@[0] == 'f' && "feb"@[1] == 'e' && "feb"@[2] == 'b');
        assert(!is_number_char("feb"@[0]));
    }
    assert(kannada("february"@) == "ಫೆಬ್ರ"@) by {
        reveal_strlit("february");
        reveal_strlit("ಫೆಬ್ರ");
        lemma_trim_fixed("february"@);
        assert(lower_ascii("february"@) =~= "february"@);
        assert("february"@.len() == 8 && "february"@[0] == 'f' && "february"@[1] == 'e' && "february"@[2] == 'b');
        assert(!is_number_char("february"@[0]));
    }
    assert(kannada("mar"@) == "ಮಾರ್ಚ್"@) by {
        reveal_strlit("mar");
        reveal_strlit("ಮಾರ್ಚ್");
        lemma_trim_fixed("mar"@);
        assert(lower_ascii("mar"@) =~= "mar"@);
        assert("mar"@.len() == 3 && "mar"@[0] == 'm' && "mar"@[1] == 'a' && "mar"@[2] == 'r');
        assert(!is_number_char("mar"@[0]));
    }
    assert(kannada("march"@) == "ಮಾರ್ಚ್"@) by {
        reveal_strlit("march");
        reveal_strlit("ಮಾರ್ಚ್");
        lemma_trim_fixed("march"@);
        assert(lower_ascii("march"@) =~= "march"@);
        assert("march"@.len() == 5 && "march"@[0] == 'm' && "march"@[1] == 'a' && "march"@[2] == 'r');
        assert(!is_number_char("march"@[0]));
    }
    assert(kannada("apr"@) == "ಏಪ್ರಿ"@) by {
        reveal_strlit("apr");
        reveal_strlit("ಏಪ್ರಿ");
        lemma_trim_fixed("apr"@);
        assert(lower_ascii("apr"@) =~= "apr"@);
        assert("apr"@.len() == 3 && "apr"@[0] == 'a' && "apr"@[1] == 'p' && "apr"@[2] == 'r');
        assert(!is_number_char("apr"@[0]));
    }
    assert(kannada("april"@) == "ಏಪ್ರಿ"@) by {
        reveal_strlit("april");
        reveal_strlit("ಏಪ್ರಿ");
        lemma_trim_fixed("april"@);
        assert(lower_ascii("april"@) =~= "april"@);
        assert("april"@.len() == 5 && "april"@[0] == 'a' && "april"@[1] == 'p' && "april"@[2] == 'r');
        assert(!is_number_char("april"@[0]));
    }
    assert(kannada("may"@) == "ಮೇ"@) by {
        reveal_strlit("may");
        reveal_strlit("ಮೇ");
        lemma_trim_fixed("may"@);
        assert(lower_ascii("may"@) =~= "may"@);
        assert("may"@.len() == 3 && "may"@[0] == 'm' && "may"@[1] == 'a' && "may"@[2] == 'y');
        assert(!is_number_char("may"@[0]));
    }
    assert(kannada("jun"@) == "ಜೂನ್"@) by {
        reveal_strlit("jun");
        reveal_strlit("ಜೂನ್");
        lemma_trim_fixed("jun"@);
        assert(lower_ascii("jun"@) =~= "jun"@);
        assert("jun"@.len() == 3 && "jun"@[0] == 'j' && "jun"@[1] == 'u' && "jun"@[2] == 'n');
        assert(!is_number_char("jun"@[0]));
    }
    assert(kannada("june"@) == "ಜೂನ್"@) by {
        reveal_strlit("june");
        reveal_strlit("ಜೂನ್");
        lemma_trim_fixed("june"@);
        assert(lower_ascii("june"@) =~= "june"@);
        assert("june"@.len() == 4 && "june"@[0] == 'j' && "june"@[1] == 'u' && "june"@[2] == 'n');
        assert(!is_number_char("june"@[0]));
    }
    assert(kannada("jul"@) == "ಜುಲೈ"@) by {
        reveal_strlit("jul");
        reveal_strlit("ಜುಲೈ");
        lemma_trim_fixed("jul"@);
        assert(lower_ascii("jul"@) =~= "jul"@);
        assert("jul"@.len() == 3 && "jul"@[0] == 'j' && "jul"@[1] == 'u' && "jul"@[2] == 'l');
        assert(!is_number_char("jul"@[0]));
    }
    assert(kannada("july"@) == "ಜುಲೈ"@) by {
        reveal_strlit("july");
        reveal_strlit("ಜುಲೈ");
        lemma_trim_fixed("july"@);
        assert(lower_ascii("july"@) =~= "july"@);
        assert("july"@.len() == 4 && "july"@[0] == 'j' && "july"@[1] == 'u' && "july"@[2] == 'l');
        assert(!is_number_char("july"@[0]));
    }
    assert(kannada("aug"@) == "ಆಗ"@) by {
        reveal_strlit("aug");
        reveal_strlit("ಆಗ");
        lemma_trim_fixed("aug"@);
        assert(lower_ascii("aug"@) =~= "aug"@);
        assert("aug"@.len() == 3 && "aug"@[0] == 'a' && "aug"@[1] == 'u' && "aug"@[2] == 'g');
        assert(!is_number_char("aug"@[0]));
    }
    assert(kannada("august"@) == "ಆಗ"@) by {
        reveal_strlit("august");
        reveal_strlit("ಆಗ");
        lemma_trim_fixed("august"@);
        assert(lower_ascii("august"@) =~= "august"@);
        assert("august"@.len() == 6 && "august"@[0] == 'a' && "august"@[1] == 'u' && "august"@[2] == 'g');
        assert(!is_number_char("august"@[0]));
    }
    assert(kannada("sep"@) == "ಸೆಪ್ಟೆ"@) by {
        reveal_strlit("sep");
        reveal_strlit("ಸೆಪ್ಟೆ");
        lemma_trim_fixed("sep"@);
        assert(lower_ascii("sep"@) =~= "sep"@);
        assert("sep"@.len() == 3 && "sep"@[0] == 's' && "sep"@[1] == 'e' && "sep"@[2] == 'p');
        assert(!is_number_char("sep"@[0]));
    }
    assert(kannada("september"@) == "ಸೆಪ್ಟೆ"@) by {
        reveal_strlit("september");
        reveal_strlit("ಸೆಪ್ಟೆ");
        lemma_trim_fixed("september"@);
        assert(lower_ascii("september"@) =~= "september"@);
        assert("september"@.len() == 9 && "september"@[0] == 's' && "september"@[1] == 'e' && "september"@[2] == 'p');
        assert(!is_number_char("september"@[0]));
    }
    assert(kannada("oct"@) == "ಅಕ್ಟೋ"@) by {
        reveal_strlit("oct");
        reveal_strlit("ಅಕ್ಟೋ");
        lemma_trim_fixed("oct"@);
        assert(lower_ascii("oct"@) =~= "oct"@);
        assert("oct"@.len() == 3 && "oct"@[0] == 'o' && "oct"@[1] == 'c' && "oct"@[2] == 't');
        assert(!is_number_char("oct"@[0]));
    }
    assert(kannada("october"@) == "ಅಕ್ಟೋ"@) by {
        reveal_strlit("october");
        reveal_strlit("ಅಕ್ಟೋ");
        lemma_trim_fixed("october"@);
        assert(lower_ascii("october"@) =~= "october"@);
        assert("october"@.len() == 7 && "october"@[0] == 'o' && "october"@[1] == 'c' && "october"@[2] == 't');
        assert(!is_number_char("october"@[0]));
    }
    assert(kannada("nov"@) == "ನವೆಂ"@) by {
        reveal_strlit("nov");
        reveal_strlit("ನವೆಂ");
        lemma_trim_fixed("nov"@);
        assert(lower_ascii("nov"@) =~= "nov"@);
        assert("nov"@.len() == 3 && "nov"@[0] == 'n' && "nov"@[1] == 'o' && "nov"@[2] == 'v');
        assert(!is_number_char("nov"@[0]));
    }
    assert(kannada("november"@) == "ನವೆಂ"@) by {
        reveal_strlit("november");
        reveal_strlit("ನವೆಂ");
        lemma_trim_fixed("november"@);
        assert(lower_ascii("november"@) =~= "november"@);
        assert("november"@.len() == 8 && "november"@[0] == 'n' && "november"@[1] == 'o' && "november"@[2] == 'v');
        assert(!is_number_char("november"@[0]));
    }
    assert(kannada("dec"@) == "ಡಿಸೆಂ"@) by {
        reveal_strlit("dec");
        reveal_strlit("ಡಿಸೆಂ");
        lemma_trim_fixed("dec"@);
        assert(lower_ascii("dec"@) =~= "dec"@);
        assert("dec"@.len() == 3 && "dec"@[0] == 'd' && "dec"@[1] == 'e' && "dec"@[2] == 'c');
        assert(!is_number_char("dec"@[0]));
    }
    assert(kannada("december"@) == "ಡಿಸೆಂ"@) by {
        reveal_strlit("december");
        reveal_strlit("ಡಿಸೆಂ");
        lemma_trim_fixed("december"@);
        assert(lower_ascii("december"@) =~= "december"@);
        assert("december"@.len() == 8 && "december"@[0] == 'd' && "december"@[1] == 'e' && "december"@[2] == 'c');
        assert(!is_number_char("december"@[0]));
    }
}

/// Weather codes shown as different conditions reach the posters as
/// different Kannada words.
pub proof fn lemma_conditions_translate_apart(a: u64, b: u64)
    requires
        condition_text(a) != condition_text(b),
    ensures
        kannada(condition_text(a)) != kannada(condition_text(b)),
{
    lemma_weather_code_table(a);
    lemma_weather_code_table(b);
    lemma_phrase_table();
    reveal_strlit("ಬಿಸಿಲು");
    assert("ಬಿಸಿಲು"@.len() == 6 && "ಬಿಸಿಲು"@[0] == 'ಬ' && "ಬಿಸಿಲು"@[1] == 'ಿ');
    reveal_strlit("ಜಾಸ್ತಿಯಷ್ಟು ಸೂರ್ಯ");
    assert("ಜಾಸ್ತಿಯಷ್ಟು ಸೂರ್ಯ"@.len() == 17 && "ಜಾಸ್ತಿಯಷ್ಟು ಸೂರ್ಯ"@[0] == 'ಜ' && "ಜಾಸ್ತಿಯಷ್ಟು ಸೂರ್ಯ"@[1] == 'ಾ');
    reveal_strlit("ಭಾಗಶಃ ಮೋಡ");
    assert("ಭಾಗಶಃ ಮೋಡ"@.len() == 9 && "ಭಾಗಶಃ ಮೋಡ"@[0] == 'ಭ' && "ಭಾಗಶಃ ಮೋಡ"@[1] == 'ಾ');
    reveal_strlit("ಮೋಡ");
    assert("ಮೋಡ"@.len() == 3 && "ಮೋಡ"@[0] == 'ಮ' && "ಮೋಡ"@[1] == 'ೋ');
    reveal_strlit("ಮಂಜು");
    assert("ಮಂಜು"@.len() == 4 && "ಮಂಜು"@[0] == 'ಮ' && "ಮಂಜು"@[1] == 'ಂ');
    reveal_strlit("ಮಳೆ");
    assert("ಮಳೆ"@.len() == 3 && "ಮಳೆ"@[0] == 'ಮ' && "ಮಳೆ"@[1] == 'ಳ');
    reveal_strlit("ಹಿಮ");
    assert("ಹಿಮ"@.len() == 3 && "ಹಿಮ"@[0] == 'ಹ' && "ಹಿಮ"@[1] == 'ಿ');
    reveal_strlit("ಗುಡುಗು ಸಹಿತ ಮಳೆ");
    assert("ಗುಡುಗು ಸಹಿತ ಮಳೆ"@.len() == 15 && "ಗುಡುಗು ಸಹಿತ ಮಳೆ"@[0] == 'ಗ' && "ಗುಡುಗು ಸಹಿತ ಮಳೆ"@[1] == 'ು');
    reveal_strlit("ಸ್ಪಷ್ಟ");
    assert("ಸ್ಪಷ್ಟ"@.len() == 6 && "ಸ್ಪಷ್ಟ"@[0] == 'ಸ' && "ಸ್ಪಷ್ಟ"@[1] == '್');
}

/// Every condition that a weather code is shown as is a dictionary word, so
/// it always reaches the posters in Kannada.
pub proof fn lemma_conditions_translate(code: u64)
    ensures
        dictionary(condition_text(code)) is Some,
        kannada(condition_text(code)) == dictionary(condition_text(code))->0,
{
    reveal_strlit("Mysore - 10 Day Forecast");
    reveal_strlit("Mysore - 10 Days Weather Forecast");
    reveal_strlit("10 day forecast");
    reveal_strlit("Sunny");
    reveal_strlit("Mostly Sunny");
    reveal_strlit("Partly Cloudy");
    reveal_strlit("Cloudy");
    reveal_strlit("Foggy");
    reveal_strlit("Rain");
    reveal_strlit("Snow");
    reveal_strlit("Thunderstorm");
    reveal_strlit("Clear");
    reveal_strlit("Mysore");
    reveal_strlit("Day");
    reveal_strlit("Night");
    reveal_strlit("Now");
    reveal_strlit("Chance of rain");
    let t = condition_text(code);
    lemma_trim_fixed(t);
    assert(!is_number_char(t[0]));
}

/// Translates `text` from English to Kannada using the built-in dictionary
/// only. Blank text gives an empty string, a bare number with its unit is
/// kept, and text the dictionary does not hold is returned as it is.
pub fn to_kannada(text: &str) -> (r: Result<String, TranslateError>)
    ensures
        r matches Ok(s) && s@ == kannada(text@),
{
    let chars = chars_of(text);
    let trimmed = trim_chars(&chars);
    if trimmed.len() == 0 {
        return Ok(String::new());
    }
    let mut all_number = true;
    for i in 0..chars.len()
        invariant
            chars@ == text@,
            all_number == (forall|j: int| 0 <= j < i ==> is_number_char(#[trigger] chars@[j])),
    {
        let c = chars[i];
        if !(('0' <= c && c <= '9') || c == '°' || c == '%' || c == '.' || c == '-' || c == ' ') {
            all_number = false;
        }
    }
    if all_number {
        return Ok(text_of(text));
    }
    match dictionary_translation(text) {
        Some(translation) => Ok(translation),
        None => Ok(text_of(text)),
    }
}

/// The dictionary entry for `text`, trimmed.
pub fn dictionary_translation(text: &str) -> (r: Option<String>)
    ensures
        match r {
            Some(s) => dictionary(text@) == Some(s@),
            None => dictionary(text@) is None,
        },
{
    let chars = chars_of(text);
    let t = trim_chars(&chars);
    let found = phrase_entry(&t);
    if let Some(translated) = found {
        return Some(text_of(translated));
    }
    let normalized = string_of(&t);
    if let Some(day) = translate_day_name(normalized.as_str()) {
        return Some(text_of(day));
    }
    if let Some(month) = translate_month_name(normalized.as_str()) {
        return Some(text_of(month));
    }
    None
}

/// The phrase table of the dictionary.
fn phrase_entry(t: &Vec<char>) -> (r: Option<&'static str>)
    ensures
        match r {
            Some(s) => phrase_translation(t@) == Some(s@),
            None => phrase_translation(t@) is None,
        },
{
    if chars_eq_str(t, "Mysore - 10 Day Forecast") {
        Some("ಮೈಸೂರು - 10 ದಿನಗಳ ಮುನ್ಸೂಚನೆ")
    } else if chars_eq_str(t, "Mysore - 10 Days Weather Forecast") {
        Some("ಮೈಸೂರು - 10 ದಿನಗಳ ಹವಾಮಾನ ಮುನ್ಸೂಚನೆ")
    } else if chars_eq_str(t, "10 day forecast") {
        Some("10 ದಿನಗಳ ಮುನ್ಸೂಚನೆ")
    } else if chars_eq_str(t, "Sunny") {
        Some("ಬಿಸಿಲು")
    } else if chars_eq_str(t, "Mostly Sunny") {
        Some("ಜಾಸ್ತಿಯಷ್ಟು ಸೂರ್ಯ")
    } else if chars_eq_str(t, "Partly Cloudy") {
        Some("ಭಾಗಶಃ ಮೋಡ")
    } else if chars_eq_str(t, "Cloudy") {
        Some("ಮೋಡ")
    } else if chars_eq_str(t, "Foggy") {
        Some("ಮಂಜು")
    } else if chars_eq_str(t, "Rain") {
        Some("ಮಳೆ")
    } else if chars_eq_str(t, "Snow") {
        Some("ಹಿಮ")
    } else if chars_eq_str(t, "Thunderstorm") {
        Some("ಗುಡುಗು ಸಹಿತ ಮಳೆ")
    } else if chars_eq_str(t, "Clear") {
        Some("ಸ್ಪಷ್ಟ")
    } else if chars_eq_str(t, "Mysore") {
        Some("ಮೈಸೂರು")
    } else if chars_eq_str(t, "Day") {
        Some("ದಿನ")
    } else if chars_eq_str(t, "Night") {
        Some("ರಾತ್ರಿ")
    } else if chars_eq_str(t, "Now") {
        Some("ಈಗ")
    } else if chars_eq_str(t, "Chance of rain") {
        Some("ಮಳೆ ಸಾಧ್ಯತೆ")
    } else {
        None
    }
}

/// Kannada for a day name, short or long, in any letter case. Only ASCII
/// letters are folded: no other character lower-cases to a letter of these
/// names, so this matches `to_lowercase` on every input.
pub fn translate_day_name(text: &str) -> (r: Option<&'static str>)
    ensures
        match r {
            Some(s) => day_translation(text@) == Some(s@),
            None => day_translation(text@) is None,
        },
{
    let chars = chars_of(text);
    let l = lower_ascii_chars(&chars);
    if chars_eq_str(&l, "mon") || chars_eq_str(&l, "monday") {
        Some("ಸೋಮವಾರ")
    } else if chars_eq_str(&l, "tue") || chars_eq_str(&l, "tuesday") {
        Some("ಮಂಗಳವಾರ")
    } else if chars_eq_str(&l, "wed") || chars_eq_str(&l, "wednesday") {
        Some("ಬುಧವಾರ")
    } else if chars_eq_str(&l, "thu") || chars_eq_str(&l, "thursday") {
        Some("ಗುರುವಾರ")
    } else if chars_eq_str(&l, "fri") || chars_eq_str(&l, "friday") {
        Some("ಶುಕ್ರವಾರ")
    } else if chars_eq_str(&l, "sat") || chars_eq_str(&l, "saturday") {
        Some("ಶನಿವಾರ")
    } else if chars_eq_str(&l, "sun") || chars_eq_str(&l, "sunday") {
        Some("ಭಾನುವಾರ")
    } else {
        None
    }
}

/// Kannada for a month name, short or long, in any letter case (ASCII
/// folding, as for day names).
pub fn translate_month_name(text: &str) -> (r: Option<&'static str>)
    ensures
        match r {
            Some(s) => month_translation(text@) == Some(s@),
            None => month_translation(text@) is None,
        },
{
    let chars = chars_of(text);
    let l = lower_ascii_chars(&chars);
    if chars_eq_str(&l, "jan") || chars_eq_str(&l, "january") {
        Some("ಜನ")
    } else if chars_eq_str(&l, "feb") || chars_eq_str(&l, "february") {
        Some("ಫೆಬ್ರ")
    } else if chars_eq_str(&l, "mar") || chars_eq_str(&l, "march") {
        Some("ಮಾರ್ಚ್")
    } else if chars_eq_str(&l, "apr") || chars_eq_str(&l, "april") {
        Some("ಏಪ್ರಿ")
    } else if chars_eq_str(&l, "may") {
        Some("ಮೇ")
    } else if chars_eq_str(&l, "jun") || chars_eq_str(&l, "june") {
        Some("ಜೂನ್")
    } else if chars_eq_str(&l, "jul") || chars_eq_str(&l, "july") {
        Some("ಜುಲೈ")
    } else if chars_eq_str(&l, "aug") || chars_eq_str(&l, "august") {
        Some("ಆಗ")
    } else if chars_eq_str(&l, "sep") || chars_eq_str(&l, "september") {
        Some("ಸೆಪ್ಟೆ")
    } else if chars_eq_str(&l, "oct") || chars_eq_str(&l, "october") {
        Some("ಅಕ್ಟೋ")
    } else if chars_eq_str(&l, "nov") || chars_eq_str(&l, "november") {
        Some("ನವೆಂ")
    } else if chars_eq_str(&l, "dec") || chars_eq_str(&l, "december") {
        Some("ಡಿಸೆಂ")
    } else {
        None
    }
}

} // verus!
