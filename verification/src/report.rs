//! The report as a whole: which days are shown, in Kannada, and the
//! narration read over the posters.

use vstd::prelude::*;
use crate::model::{day_views, DayForecast, DayView};
use crate::text::{join, push_text, string_views};
use crate::translate::{kannada, to_kannada};
use crate::tts::build_script;

verus! {

/// The report shows at most this many days.
pub const REPORT_DAYS: usize = 5;

/// A day with its name, condition and (non-empty) summary in Kannada.
pub open spec fn localized(d: DayView) -> DayView {
    DayView {
        day_name: kannada(d.day_name),
        condition: kannada(d.condition),
        summary: if d.summary.len() == 0 {
            d.summary
        } else {
            kannada(d.summary)
        },
        ..d
    }
}

/// The days of the report: the first five, localized.
pub open spec fn report_days(days: Seq<DayView>) -> Seq<DayView> {
    let n = if days.len() < REPORT_DAYS {
        days.len()
    } else {
        REPORT_DAYS as nat
    };
    Seq::new(n, |i: int| localized(days[i]))
}

/// The report keeps the first five days (all of them when there are fewer),
/// in order, and day `i` of the report is day `i` of the forecast: its name
/// and condition in Kannada, its summary in Kannada unless empty, and its
/// date, temperatures and chance of rain as they were.
pub proof fn lemma_report_days_each_day(days: Seq<DayView>)
    ensures
        report_days(days).len() == if days.len() < 5 {
            days.len()
        } else {
            5
        },
        forall|i: int|
            #![trigger report_days(days)[i]]
            0 <= i < report_days(days).len() ==> {
                let r = report_days(days)[i];
                let d = days[i];
                &&& r.day_name == kannada(d.day_name)
                &&& r.date == d.date
                &&& r.condition == kannada(d.condition)
                &&& r.high_temp == d.high_temp
                &&& r.low_temp == d.low_temp
                &&& r.precip_chance == d.precip_chance
                &&& r.summary == if d.summary.len() == 0 {
                    d.summary
                } else {
                    kannada(d.summary)
                }
            },
{
}

fn kannada_string(s: &String) -> (r: String)
    ensures
        r@ == kannada(s@),
{
    match to_kannada(s.as_str()) {
        Ok(t) => t,
        Err(_) => String::new(),
    }
}

/// Keeps the first five days and puts their names, conditions and
/// summaries into Kannada.
pub fn localize_days(days: Vec<DayForecast>) -> (r: Vec<DayForecast>)
    ensures
        day_views(r@) == report_days(day_views(days@)),
{
    let n = if days.len() < REPORT_DAYS {
        days.len()
    } else {
        REPORT_DAYS
    };
    let ghost all = day_views(days@);
    let mut r: Vec<DayForecast> = Vec::new();
    for i in 0..n
        invariant
            n <= days.len(),
            all == day_views(days@),
            day_views(r@) == Seq::new(i as nat, |k: int| localized(all[k])),
    {
        let d = &days[i];
        let summary = if d.summary.as_str().is_empty() {
            d.summary.clone()
        } else {
            kannada_string(&d.summary)
        };
        let day = DayForecast {
            day_name: kannada_string(&d.day_name),
            date: d.date.clone(),
            condition: kannada_string(&d.condition),
            high_temp: d.high_temp.clone(),
            low_temp: d.low_temp.clone(),
            precip_chance: d.precip_chance.clone(),
            summary,
        };
        assert(all[i as int] == d@);
        let ghost before = r@;
        r.push(day);
        assert(day_views(r@) =~= day_views(before).push(localized(d@)));
        assert(Seq::new((i + 1) as nat, |k: int| localized(all[k])) =~= Seq::new(
            i as nat,
            |k: int| localized(all[k]),
        ).push(localized(all[i as int])));
    }
    r
}

/// The greeting that opens the narration.
pub const NARRATION_INTRO: &'static str = "ನಮಸ್ಕಾರ ವೀಕ್ಷಕರೇ, ರೈತ ದರ್ಪಣ ಹವಾಮಾನ ವಾರದಿ ಮಾಹಿತಿ ಚಾನೆಲ್ಗೆ ಸ್ವಾಗತ. ಮುಂದಿನ 5 ದಿನದ ಹವಾಮನ ವರದಿ ಈಗಿದೆ";

pub const LINE_AFTER_DATE: &'static str = ", ಹವಾಮಾನ ";

pub const LINE_AFTER_CONDITION: &'static str = ". ಗರಿಷ್ಠ ತಾಪಮಾನ ";

pub const LINE_AFTER_HIGH: &'static str = " ಮತ್ತು ಕನಿಷ್ಠ ತಾಪಮಾನ ";

pub const LINE_AFTER_LOW: &'static str = ". ";

/// The narration of one day: day, date, condition, high, low, summary.
pub open spec fn narration_line(d: DayView) -> Seq<char> {
    d.day_name + " "@ + d.date + LINE_AFTER_DATE@ + d.condition + LINE_AFTER_CONDITION@
        + d.high_temp + LINE_AFTER_HIGH@ + d.low_temp + LINE_AFTER_LOW@ + d.summary
}

/// The lines of the narration: the greeting, then one line per day.
pub open spec fn narration_lines(days: Seq<DayView>) -> Seq<Seq<char>> {
    seq![NARRATION_INTRO@] + Seq::new(days.len(), |i: int| narration_line(days[i]))
}

/// The narration reads the greeting and then every day once, in order: line
/// `k + 1` is the line of day `k`, which opens with that day's name and date.
/// The script of a non-empty run of days is the script of all but the last
/// day, the separator, and the last day's line.
pub proof fn lemma_narration_each_day(days: Seq<DayView>)
    ensures
        narration_lines(days).len() == days.len() + 1,
        narration_lines(days)[0] == NARRATION_INTRO@,
        forall|k: int|
            #![trigger days[k]]
            0 <= k < days.len() ==> narration_lines(days)[k + 1] == narration_line(days[k]),
        forall|k: int|
            #![trigger days[k]]
            0 <= k < days.len() ==> narration_line(days[k]).take(
                (days[k].day_name.len() + 1 + days[k].date.len()) as int,
            ) == days[k].day_name + " "@ + days[k].date,
        days.len() > 0 ==> join(narration_lines(days), ". "@) == join(
            narration_lines(days.drop_last()),
            ". "@,
        ) + ". "@ + narration_line(days.last()),
{
    assert forall|k: int| 0 <= k < days.len() implies narration_line(days[k]).take(
        (days[k].day_name.len() + 1 + days[k].date.len()) as int,
    ) == days[k].day_name + " "@ + days[k].date by {
        reveal_strlit(" ");
        let d = days[k];
        let head = d.day_name + " "@ + d.date;
        assert(narration_line(d) =~= head + (LINE_AFTER_DATE@ + d.condition + LINE_AFTER_CONDITION@
            + d.high_temp + LINE_AFTER_HIGH@ + d.low_temp + LINE_AFTER_LOW@ + d.summary));
        assert(narration_line(d).take(head.len() as int) =~= head);
    }
    if days.len() > 0 {
        let lines = narration_lines(days);
        assert(lines.drop_last() =~= narration_lines(days.drop_last()));
        assert(lines.last() == narration_line(days.last()));
    }
}

/// The narration of one day.
pub fn day_narration(d: &DayForecast) -> (r: String)
    ensures
        r@ == narration_line(d@),
{
    let mut r = String::new();
    push_text(&mut r, d.day_name.as_str());
    push_text(&mut r, " ");
    push_text(&mut r, d.date.as_str());
    push_text(&mut r, LINE_AFTER_DATE);
    push_text(&mut r, d.condition.as_str());
    push_text(&mut r, LINE_AFTER_CONDITION);
    push_text(&mut r, d.high_temp.as_str());
    push_text(&mut r, LINE_AFTER_HIGH);
    push_text(&mut r, d.low_temp.as_str());
    push_text(&mut r, LINE_AFTER_LOW);
    push_text(&mut r, d.summary.as_str());
    assert(r@ =~= narration_line(d@));
    r
}

/// The narration read from the same data as the table: the greeting, then
/// day, date, condition, high, low and summary for every day.
pub fn narration_script(days: &[DayForecast]) -> (r: String)
    ensures
        r@ == join(narration_lines(day_views(days@)), ". "@),
{
    let ghost all = day_views(days@);
    let mut lines: Vec<String> = Vec::new();
    let mut intro = String::new();
    push_text(&mut intro, NARRATION_INTRO);
    lines.push(intro);
    for i in 0..days.len()
        invariant
            all == day_views(days@),
            string_views(lines@) == seq![NARRATION_INTRO@] + Seq::new(
                i as nat,
                |k: int| narration_line(all[k]),
            ),
    {
        let line = day_narration(&days[i]);
        assert(all[i as int] == days@[i as int]@);
        let ghost before = lines@;
        lines.push(line);
        assert(string_views(lines@) =~= string_views(before).push(line@));
        assert(Seq::new((i + 1) as nat, |k: int| narration_line(all[k])) =~= Seq::new(
            i as nat,
            |k: int| narration_line(all[k]),
        ).push(narration_line(all[i as int])));
    }
    assert(string_views(lines@) =~= narration_lines(all));
    build_script(lines.as_slice())
}

} // verus!
