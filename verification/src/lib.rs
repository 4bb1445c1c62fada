//! A lunisolar calendar: the regimes by which the solar terms and new moons of
//! a year are calculated, the packed table of their corrections, the order in
//! which the events of a year are found and the leap month that follows from
//! them, a cache of fixed size, and the cycles, festivals and Tibetan
//! calendar that are counted on top of them.
//!
//! Instants are whole numbers throughout: queries in micro-days, events in
//! half-days, both from the epoch J2000 unless a Julian day is named. Finding
//! an event from the orbital series is left to the caller.

pub mod arith;
pub mod astronomy;
pub mod builder;
pub mod cache;
pub mod codec;
pub mod culture;
pub mod date;
pub mod eightchar;
pub mod error;
pub mod festival;
pub mod fit;
pub mod ganzhi;
pub mod gz;
pub mod holiday;
pub mod jieqi;
pub mod lunar;
pub mod lunar_phase_calculator;
pub mod rabbyung;
pub mod regime;
pub mod shengxiao;
pub mod sixtycycle;
pub mod solar;
pub mod ssq;
pub mod sxtwl;
pub mod text;
pub mod types;
pub mod utils;
pub mod year_plan;
