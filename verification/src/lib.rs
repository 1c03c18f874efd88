//! Loading of static GTFS transit feeds into typed rows, the column
//! layout of the batch inserts that store them, and the countdown logic of
//! the departure display.

pub mod transit_authorities;
pub mod calendar_time;
pub mod table;
pub mod models;
pub mod tables;
pub mod display;
