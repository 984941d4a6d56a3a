//! Badí' calendar logic behind a command-line date converter: month and
//! feast arithmetic, the cycles of Váḥid and Kull-i-S͟hay, holy-day ordering
//! and the decisions that shape what is shown for a date.
pub mod badi_calls;
pub mod calendar;
pub mod cycles;
pub mod holy_days;
pub mod listing;
pub mod notes;
pub mod text;
