//! Software control of a single hardware fan: the speed policy that maps a
//! temperature to a fan speed, the clamping applied before a speed is written,
//! the text formats of the fan's control files, and the order in which a fan
//! is discovered and opened.
mod config;
mod controller;
mod discovery;
mod error;
mod text;

pub use config::{FanConfig, SpeedCurve};
pub use controller::FanController;
pub use discovery::{parse_max_speed, parse_min_speed, Action, Discovery, Event, Resource};
pub use error::Error;
pub use text::{encode_decimal, ParseError};
