use weather_report::fetch::{
    format_day_label, format_day_name, format_precip, format_temperature, open_meteo_readable,
    parse_daily_list, parse_open_meteo, rows_from_scraped, weather_code_to_condition, weather_summary, ForecastError,
    ScrapeError,
};
use weather_report::json::{Json, JsonNumber};

#[test]
fn maps_clear_weather_code_to_sunny_text() {
    assert_eq!(weather_code_to_condition(0), "Sunny");
}

#[test]
fn maps_every_weather_code_group() {
    assert_eq!(weather_code_to_condition(1), "Mostly Sunny");
    assert_eq!(weather_code_to_condition(2), "Partly Cloudy");
    assert_eq!(weather_code_to_condition(3), "Cloudy");
    assert_eq!(weather_code_to_condition(48), "Foggy");
    assert_eq!(weather_code_to_condition(61), "Rain");
    assert_eq!(weather_code_to_condition(82), "Rain");
    assert_eq!(weather_code_to_condition(77), "Snow");
    assert_eq!(weather_code_to_condition(99), "Thunderstorm");
    assert_eq!(weather_code_to_condition(4), "Clear");
}

#[test]
fn summary_joins_sky_and_rain_chance() {
    assert_eq!(weather_summary(0, 5), "ಬಿಸಿಲಿನ ವಾತಾವರಣ; ಕಡಿಮೆ ಮಳೆ ಸಾಧ್ಯತೆ.");
    assert_eq!(weather_summary(61, 16), "ಮಳೆ ಅಥವಾ ಮಿಂಚುಳ್ಳ ವಾತಾವರಣ; ಮಧ್ಯಮ ಮಳೆ ಸಾಧ್ಯತೆ.");
    assert_eq!(weather_summary(95, 51), "ಗುಡುಗು ಸಹಿತ ಮಳೆಯ ಸಾಧ್ಯತೆ; ಮಳೆ ಸಾಧ್ಯತೆ ಹೆಚ್ಚು.");
    assert_eq!(weather_summary(7, 15), "ಸ್ಪಷ್ಟ ವಾತಾವರಣ; ಕಡಿಮೆ ಮಳೆ ಸಾಧ್ಯತೆ.");
    assert_eq!(weather_summary(3, 50), "ಮೋಡಭರಿತ ವಾತಾವರಣ; ಮಧ್ಯಮ ಮಳೆ ಸಾಧ್ಯತೆ.");
}

#[test]
fn precip_is_shown_in_percent() {
    assert_eq!(format_precip(0), "0%");
    assert_eq!(format_precip(10), "10%");
    assert_eq!(format_precip(18446744073709551615), "18446744073709551615%");
}

fn number(as_u64: Option<u64>, rounded: &str) -> Json {
    Json::Number(JsonNumber { as_u64, rounded: rounded.to_string() })
}

#[test]
fn temperature_is_rounded_with_degree_sign() {
    assert_eq!(format_temperature(&number(None, "31")), "31°");
    assert_eq!(format_temperature(&Json::Null), "0°");
    assert_eq!(format_temperature(&Json::Str("hot".to_string())), "0°");
}

#[test]
fn day_label_keeps_month_and_day() {
    assert_eq!(format_day_label("2026-08-04"), "08 04");
    assert_eq!(format_day_label("2026-08-04-x"), "08 04");
    assert_eq!(format_day_label("2026-08"), "2026-08");
    assert_eq!(format_day_label(""), "");
}

#[test]
fn day_name_comes_from_the_calendar() {
    assert_eq!(format_day_name("2026-08-04"), "Tue");
    assert_eq!(format_day_name("2024-02-29"), "Thu");
    assert_eq!(format_day_name("2000-01-01"), "Sat");
    assert_eq!(format_day_name("0001-01-01"), "Mon");
    assert_eq!(format_day_name("+1900-03-01"), "Thu");
    assert_eq!(format_day_name("262142-12-31"), "Mon");
    // the year is read as a u32 and cast to i32, so these name years before 0
    assert_eq!(format_day_name("4294967295-01-01"), "Fri");
    assert_eq!(format_day_name("4294705153-01-01"), "Thu");
}

#[test]
fn day_name_falls_back_to_day() {
    assert_eq!(format_day_name("2023-02-29"), "Day");
    assert_eq!(format_day_name("2026-13-01"), "Day");
    assert_eq!(format_day_name("262143-01-01"), "Day");
    assert_eq!(format_day_name("2026-08"), "Day");
    assert_eq!(format_day_name("2026-08-04-01"), "Day");
    assert_eq!(format_day_name("x-y-z"), "Day");
}

fn array(items: Vec<Json>) -> Json {
    Json::Array(items)
}

fn object(entries: Vec<(&str, Json)>) -> Json {
    Json::Object(entries.into_iter().map(|(k, v)| (k.to_string(), v)).collect())
}

fn daily(times: Vec<&str>, codes: Vec<u64>, precip: Vec<u64>) -> Json {
    let n = times.len();
    object(vec![(
        "daily",
        object(vec![
            ("time", array(times.into_iter().map(|t| Json::Str(t.to_string())).collect())),
            ("weathercode", array(codes.into_iter().map(|c| number(Some(c), &c.to_string())).collect())),
            ("temperature_2m_max", array((0..n).map(|_| number(None, "31")).collect())),
            ("temperature_2m_min", array((0..n).map(|_| number(None, "21")).collect())),
            ("precipitation_probability_max", array(precip.into_iter().map(|p| number(Some(p), &p.to_string())).collect())),
        ]),
    )])
}

#[test]
fn parses_open_meteo_rows() {
    let doc = daily(vec!["2026-08-04", "2026-08-05"], vec![0, 61], vec![5, 60]);
    assert!(open_meteo_readable(&doc));
    let days = parse_open_meteo(&doc).unwrap();
    assert_eq!(days.len(), 2);
    assert_eq!(days[0].day_name, "Tue");
    assert_eq!(days[0].date, "08 04");
    assert_eq!(days[0].condition, "Sunny");
    assert_eq!(days[0].high_temp, "31°");
    assert_eq!(days[0].low_temp, "21°");
    assert_eq!(days[0].precip_chance, "5%");
    assert_eq!(days[0].summary, "ಬಿಸಿಲಿನ ವಾತಾವರಣ; ಕಡಿಮೆ ಮಳೆ ಸಾಧ್ಯತೆ.");
    assert_eq!(days[1].day_name, "Wed");
    assert_eq!(days[1].condition, "Rain");
    assert_eq!(days[1].precip_chance, "60%");
}

#[test]
fn reads_at_most_ten_days() {
    let times: Vec<String> = (1..=12).map(|d| format!("2026-08-{d:02}")).collect();
    let doc = daily(times.iter().map(|s| s.as_str()).collect(), vec![1; 12], vec![20; 12]);
    let days = parse_open_meteo(&doc).unwrap();
    assert_eq!(days.len(), 10);
    assert_eq!(days[9].date, "08 10");
}

#[test]
fn refuses_documents_without_daily_data() {
    assert_eq!(parse_open_meteo(&Json::Null).unwrap_err(), ForecastError::MissingDaily);
    let doc = object(vec![("daily", array(vec![]))]);
    assert_eq!(parse_open_meteo(&doc).unwrap_err(), ForecastError::MissingDaily);
    let doc = object(vec![("daily", object(vec![("time", Json::Null)]))]);
    assert_eq!(parse_open_meteo(&doc).unwrap_err(), ForecastError::MissingTimes);
    let doc = daily(vec![], vec![], vec![]);
    assert_eq!(parse_open_meteo(&doc).unwrap_err(), ForecastError::NoRows);
}

#[test]
fn reports_each_missing_array() {
    let base = |broken: &str| {
        let mut entries = vec![
            ("time", array(vec![Json::Str("2026-08-04".to_string())])),
            ("weathercode", array(vec![number(Some(0), "0")])),
            ("temperature_2m_max", array(vec![number(None, "31")])),
            ("temperature_2m_min", array(vec![number(None, "21")])),
            ("precipitation_probability_max", array(vec![number(Some(5), "5")])),
        ];
        for e in entries.iter_mut() {
            if e.0 == broken {
                e.1 = Json::Bool(true);
            }
        }
        object(vec![("daily", object(entries))])
    };
    assert_eq!(parse_open_meteo(&base("weathercode")).unwrap_err(), ForecastError::MissingCodes);
    assert_eq!(parse_open_meteo(&base("temperature_2m_max")).unwrap_err(), ForecastError::MissingHighs);
    assert_eq!(parse_open_meteo(&base("temperature_2m_min")).unwrap_err(), ForecastError::MissingLows);
    assert_eq!(
        parse_open_meteo(&base("precipitation_probability_max")).unwrap_err(),
        ForecastError::MissingPrecip
    );
}

#[test]
fn flags_documents_the_parser_cannot_index() {
    let doc = object(vec![("daily", object(vec![("weathercode", array(vec![]))]))]);
    assert!(!open_meteo_readable(&doc));
    let doc = daily(vec!["2026-08-04", "2026-08-05"], vec![0], vec![5, 6]);
    assert!(!open_meteo_readable(&doc));
    assert!(open_meteo_readable(&Json::Null));
}

#[test]
fn non_numeric_values_read_as_defaults() {
    let doc = object(vec![(
        "daily",
        object(vec![
            ("time", array(vec![number(Some(1), "1")])),
            ("weathercode", array(vec![Json::Str("0".to_string())])),
            ("temperature_2m_max", array(vec![Json::Null])),
            ("temperature_2m_min", array(vec![number(None, "-0")])),
            ("precipitation_probability_max", array(vec![number(None, "5")])),
        ]),
    )]);
    let days = parse_open_meteo(&doc).unwrap();
    assert_eq!(days[0].day_name, "Day");
    assert_eq!(days[0].date, "");
    assert_eq!(days[0].condition, "Sunny");
    assert_eq!(days[0].high_temp, "0°");
    assert_eq!(days[0].low_temp, "-0°");
    assert_eq!(days[0].precip_chance, "0%");
}

const DAILY_LIST_PAGE: &str = r#"<html><body><div class="daily-list">
<a class="daily-list-item" href="/1"><div class="date"><p>Tue</p><span>8/5</span></div>
<div class="phrase">Mostly   sunny</div><div class="temp-hi">34°</div><div class="temp-lo">22°</div><div class="precip"> 10% </div></a>
<a class="daily-list-item" href="/2"><div class="day">Wed</div>
<div class="cond">Rain</div><div class="high">30°</div></a>
</div></body></html>"#;

#[test]
fn scrapes_daily_list_rows() {
    let days = parse_daily_list(DAILY_LIST_PAGE).unwrap();
    assert_eq!(days.len(), 2);
    assert_eq!(days[0].day_name, "Tue");
    assert_eq!(days[0].date, "8/5");
    assert_eq!(days[0].condition, "Mostly   sunny");
    assert_eq!(days[0].high_temp, "34°");
    assert_eq!(days[0].low_temp, "22°");
    assert_eq!(days[0].precip_chance, "10%");
    assert_eq!(days[0].summary, "");
    assert_eq!(days[1].day_name, "Wed");
    assert_eq!(days[1].date, "");
    assert_eq!(days[1].condition, "Rain");
    assert_eq!(days[1].low_temp, "");
}

#[test]
fn scraping_a_page_without_items_fails() {
    assert_eq!(parse_daily_list("<html><p>bot check</p></html>").unwrap_err(), ScrapeError::NoDailyItems);
}

#[test]
fn fallback_sample_reads_as_ten_days() {
    // the built-in sample forecast, as the application hands it over
    let times = ["2026-08-04", "2026-08-05", "2026-08-06", "2026-08-07", "2026-08-08", "2026-08-09", "2026-08-10", "2026-08-11", "2026-08-12", "2026-08-13"];
    let codes = [0u64, 1, 2, 3, 61, 80, 0, 1, 2, 3];
    let highs = ["31", "32", "30", "29", "28", "27", "31", "32", "31", "30"];
    let lows = ["21", "22", "21", "20", "19", "18", "21", "22", "21", "20"];
    let precip = [5u64, 10, 20, 35, 60, 70, 10, 5, 15, 25];
    let doc = object(vec![
        ("city", Json::Str("Mysore".to_string())),
        (
            "daily",
            object(vec![
                ("precipitation_probability_max", array(precip.iter().map(|p| number(Some(*p), &p.to_string())).collect())),
                ("temperature_2m_max", array(highs.iter().map(|t| number(None, t)).collect())),
                ("temperature_2m_min", array(lows.iter().map(|t| number(None, t)).collect())),
                ("time", array(times.iter().map(|t| Json::Str(t.to_string())).collect())),
                ("weathercode", array(codes.iter().map(|c| number(Some(*c), &c.to_string())).collect())),
            ]),
        ),
    ]);
    assert!(open_meteo_readable(&doc));
    let days = parse_open_meteo(&doc).unwrap();
    assert_eq!(days.len(), 10);
    let names: Vec<&str> = days.iter().map(|d| d.day_name.as_str()).collect();
    assert_eq!(names, ["Tue", "Wed", "Thu", "Fri", "Sat", "Sun", "Mon", "Tue", "Wed", "Thu"]);
    assert_eq!(days[4].condition, "Rain");
    assert_eq!(days[4].high_temp, "28°");
    assert_eq!(days[4].low_temp, "19°");
    assert_eq!(days[4].precip_chance, "60%");
    assert_eq!(days[4].summary, "ಮಳೆ ಅಥವಾ ಮಿಂಚುಳ್ಳ ವಾತಾವರಣ; ಮಳೆ ಸಾಧ್ಯತೆ ಹೆಚ್ಚು.");
    assert_eq!(days[9].date, "08 13");
}

#[test]
fn summaries_follow_conditions_and_rain_bands() {
    let codes = [0u64, 1, 2, 3, 45, 48, 51, 61, 82, 71, 77, 95, 99, 4, 100];
    for a in codes {
        for b in codes {
            for p in [0u64, 15, 16, 50, 51, 100] {
                let same_condition = weather_code_to_condition(a) == weather_code_to_condition(b);
                assert_eq!(same_condition, weather_summary(a, p) == weather_summary(b, p));
            }
        }
        assert_eq!(weather_summary(a, 0), weather_summary(a, 15));
        assert_eq!(weather_summary(a, 16), weather_summary(a, 50));
        assert_eq!(weather_summary(a, 51), weather_summary(a, u64::MAX));
        assert_ne!(weather_summary(a, 15), weather_summary(a, 16));
    }
}

fn field(items: Vec<Option<Vec<&str>>>) -> Vec<Option<Vec<String>>> {
    items.into_iter().map(|o| o.map(|v| v.into_iter().map(|t| t.to_string()).collect())).collect()
}

#[test]
fn rows_are_built_from_scraped_fields() {
    let day = field(vec![Some(vec![" Tue", "\n"]), Some(vec![]), None]);
    let date = field(vec![Some(vec!["8/5"])]);
    let cond = field(vec![Some(vec!["Mostly", "sunny "]), Some(vec!["Rain"]), Some(vec!["x"])]);
    let empty = field(vec![]);
    let days = rows_from_scraped(&day, &date, &cond, &empty, &empty, &empty).unwrap();
    assert_eq!(days.len(), 3);
    assert_eq!(days[0].day_name, "Tue");
    assert_eq!(days[0].date, "8/5");
    assert_eq!(days[0].condition, "Mostly sunny");
    assert_eq!(days[1].day_name, "");
    assert_eq!(days[1].date, "");
    assert_eq!(days[2].condition, "x");
    assert_eq!(days[2].high_temp, "");
    let many = field((0..12).map(|_| Some(vec!["d"])).collect());
    assert_eq!(rows_from_scraped(&many, &empty, &empty, &empty, &empty, &empty).unwrap().len(), 10);
    assert_eq!(rows_from_scraped(&empty, &many, &many, &many, &many, &many).unwrap_err(), ScrapeError::NoDailyItems);
}
