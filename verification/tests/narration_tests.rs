use weather_report::model::DayForecast;
use weather_report::report::{day_narration, localize_days, narration_script, NARRATION_INTRO};
use weather_report::tts::{audio_size_plausible, build_script, choose_voice, contains_text, split_narration};

fn day(name: &str, condition: &str, summary: &str) -> DayForecast {
    DayForecast {
        day_name: name.to_string(),
        date: "08 04".to_string(),
        condition: condition.to_string(),
        high_temp: "31°".to_string(),
        low_temp: "21°".to_string(),
        precip_chance: "5%".to_string(),
        summary: summary.to_string(),
    }
}

#[test]
fn script_joins_lines_with_sentence_breaks() {
    assert_eq!(build_script(&[]), "");
    assert_eq!(build_script(&["one".to_string()]), "one");
    assert_eq!(build_script(&["one".to_string(), "two".to_string(), "".to_string()]), "one. two. ");
}

#[test]
fn narration_is_cut_at_full_stops() {
    assert_eq!(split_narration("Hello. World..  Again . "), vec!["Hello", "World", "Again"]);
    assert_eq!(split_narration(""), Vec::<String>::new());
    assert_eq!(split_narration("no stop"), vec!["no stop"]);
}

#[test]
fn chooses_the_kannada_female_voice_first() {
    let names: Vec<String> = [
        "Microsoft Server Speech Text to Speech Voice (en-US, AriaNeural)",
        "Microsoft Server Speech Text to Speech Voice (kn-IN, GaganNeural)",
        "Microsoft Server Speech Text to Speech Voice (kn-IN, SapnaNeural)",
    ]
    .iter()
    .map(|s| s.to_string())
    .collect();
    assert_eq!(choose_voice(&names), Some(2));
    assert_eq!(choose_voice(&names[..2]), Some(1));
    assert_eq!(choose_voice(&names[..1]), None);
    assert!(contains_text("abc", ""));
    assert!(!contains_text("", "a"));
}

#[test]
fn audio_must_not_be_tiny() {
    assert!(!audio_size_plausible(2047));
    assert!(audio_size_plausible(2048));
}

#[test]
fn report_keeps_five_days_in_kannada() {
    let days: Vec<DayForecast> = (0..7).map(|_| day("Tue", "Sunny", "")).collect();
    let shown = localize_days(days);
    assert_eq!(shown.len(), 5);
    assert_eq!(shown[0].day_name, "ಮಂಗಳವಾರ");
    assert_eq!(shown[0].condition, "ಬಿಸಿಲು");
    assert_eq!(shown[0].summary, "");
    assert_eq!(shown[0].date, "08 04");
    assert_eq!(shown[0].high_temp, "31°");
    let kept = localize_days(vec![day("Day", "Foggy", "  ")]);
    assert_eq!(kept[0].day_name, "ದಿನ");
    assert_eq!(kept[0].condition, "ಮಂಜು");
    assert_eq!(kept[0].summary, "");
}

#[test]
fn narration_reads_every_day() {
    let d = day("ಮಂಗಳವಾರ", "ಬಿಸಿಲು", "ಚೆನ್ನಾಗಿದೆ.");
    assert_eq!(
        day_narration(&d),
        "ಮಂಗಳವಾರ 08 04, ಹವಾಮಾನ ಬಿಸಿಲು. ಗರಿಷ್ಠ ತಾಪಮಾನ 31° ಮತ್ತು ಕನಿಷ್ಠ ತಾಪಮಾನ 21°. ಚೆನ್ನಾಗಿದೆ."
    );
    let script = narration_script(&[d.clone(), d.clone()]);
    assert_eq!(script, format!("{}. {}. {}", NARRATION_INTRO, day_narration(&d), day_narration(&d)));
    assert_eq!(narration_script(&[]), NARRATION_INTRO);
}
