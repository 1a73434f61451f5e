//! The forecast record that every stage of the report works on.

use vstd::prelude::*;

verus! {

/// One day of the forecast, as shown in the table, the posters and the narration.
#[derive(Debug, Clone)]
pub struct DayForecast {
    /// e.g. "Tuesday" -> translated
    pub day_name: String,
    /// e.g. "Aug 5" (numbers kept as-is)
    pub date: String,
    /// e.g. "Sunny" -> translated
    pub condition: String,
    /// e.g. "34°" (number kept, unit may translate)
    pub high_temp: String,
    /// e.g. "22°"
    pub low_temp: String,
    /// e.g. "10%"
    pub precip_chance: String,
    /// short RealFeel/description text -> translated
    pub summary: String,
}

/// The texts of a `DayForecast`.
pub struct DayView {
    pub day_name: Seq<char>,
    pub date: Seq<char>,
    pub condition: Seq<char>,
    pub high_temp: Seq<char>,
    pub low_temp: Seq<char>,
    pub precip_chance: Seq<char>,
    pub summary: Seq<char>,
}

impl View for DayForecast {
    type V = DayView;

    open spec fn view(&self) -> DayView {
        DayView {
            day_name: self.day_name@,
            date: self.date@,
            condition: self.condition@,
            high_temp: self.high_temp@,
            low_temp: self.low_temp@,
            precip_chance: self.precip_chance@,
            summary: self.summary@,
        }
    }
}

/// The views of a sequence of forecast days.
pub open spec fn day_views(days: Seq<DayForecast>) -> Seq<DayView> {
    days.map_values(|d: DayForecast| d@)
}

} // verus!
