//! Mysore five-day weather report: forecast extraction, Kannada localisation,
//! HTML rendering and narration, as verified logic.

pub mod calendar;
pub mod model;
pub mod text;
pub mod json;
pub mod fetch;
pub mod translate;
pub mod html_render;
pub mod tts;
pub mod report;
pub mod video;
pub mod image_gen;
