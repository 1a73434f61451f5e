use weather_report::translate::{dictionary_translation, to_kannada, translate_day_name, translate_month_name};

#[test]
fn falls_back_to_dictionary_translation() {
    let translated = to_kannada("Rain");
    assert!(translated.is_ok());
    assert_eq!(translated.unwrap(), "ಮಳೆ");
}

#[test]
fn leaves_unmapped_text_as_is() {
    let translated = to_kannada("Cloudy with light rain");
    assert!(translated.is_ok());
    assert_eq!(translated.unwrap(), "Cloudy with light rain");
}

#[test]
fn blank_text_becomes_empty() {
    assert_eq!(to_kannada("").unwrap(), "");
    assert_eq!(to_kannada(" \t\u{3000}\n").unwrap(), "");
}

#[test]
fn numbers_with_units_are_kept() {
    assert_eq!(to_kannada("34°").unwrap(), "34°");
    assert_eq!(to_kannada("10%").unwrap(), "10%");
    assert_eq!(to_kannada(" 2.5 - 3 ").unwrap(), " 2.5 - 3 ");
}

#[test]
fn dictionary_matches_trimmed_text() {
    assert_eq!(to_kannada("  Sunny\n").unwrap(), "ಬಿಸಿಲು");
    assert_eq!(to_kannada("Mysore - 10 Day Forecast").unwrap(), "ಮೈಸೂರು - 10 ದಿನಗಳ ಮುನ್ಸೂಚನೆ");
    assert_eq!(to_kannada("Chance of rain").unwrap(), "ಮಳೆ ಸಾಧ್ಯತೆ");
    assert_eq!(to_kannada("sunny").unwrap(), "sunny");
    assert_eq!(dictionary_translation("Cloudy with light rain"), None);
}

#[test]
fn day_and_month_names_ignore_case() {
    assert_eq!(to_kannada("Tue").unwrap(), "ಮಂಗಳವಾರ");
    assert_eq!(to_kannada("MONDAY").unwrap(), "ಸೋಮವಾರ");
    assert_eq!(to_kannada("Aug").unwrap(), "ಆಗ");
    assert_eq!(to_kannada("may").unwrap(), "ಮೇ");
    assert_eq!(translate_day_name("SuNdAy"), Some("ಭಾನುವಾರ"));
    assert_eq!(translate_day_name("Sun "), None);
    assert_eq!(translate_month_name("DECEMBER"), Some("ಡಿಸೆಂ"));
    assert_eq!(translate_month_name("Mayo"), None);
}

#[test]
fn translating_twice_changes_nothing_more() {
    for text in ["Rain", "Thunderstorm", "10 day forecast", "Wed", "sep", "Cloudy with light rain", "  ", "34°"] {
        let once = to_kannada(text).unwrap();
        let twice = to_kannada(&once).unwrap();
        assert_eq!(once, twice);
    }
}

#[test]
fn every_condition_word_is_translated() {
    for code in [0u64, 1, 2, 3, 45, 61, 71, 95, 100] {
        let word = weather_report::fetch::weather_code_to_condition(code);
        assert!(dictionary_translation(&word).is_some());
        assert_ne!(to_kannada(&word).unwrap(), word);
    }
}

#[test]
fn every_day_name_is_translated() {
    let kannada = ["ಸೋಮವಾರ", "ಮಂಗಳವಾರ", "ಬುಧವಾರ", "ಗುರುವಾರ", "ಶುಕ್ರವಾರ", "ಶನಿವಾರ", "ಭಾನುವಾರ", "ದಿನ"];
    for date in ["2026-08-03", "2026-08-04", "2026-08-05", "2026-08-06", "2026-08-07", "2026-08-08", "2026-08-09", "2026-02-30", "x"] {
        let d = weather_report::fetch::format_day_name(date);
        let k = to_kannada(&d).unwrap();
        assert_ne!(k, d);
        assert!(kannada.contains(&k.as_str()));
    }
}
