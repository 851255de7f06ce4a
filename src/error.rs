use vstd::prelude::*;

use crate::text::ParseError;

verus! {

/// What went wrong while discovering or driving a fan.
#[derive(Clone, Copy, Debug, PartialEq, Eq, Structural)]
pub enum Error {
    /// The minimum-speed file could not be read.
    MinSpeedRead,
    /// The minimum-speed file holds no unsigned number.
    MinSpeedParse(ParseError),
    /// The maximum-speed file could not be read.
    MaxSpeedRead,
    /// The maximum-speed file holds no unsigned number.
    MaxSpeedParse(ParseError),
    /// The manual-switch or the output file could not be opened for writing.
    FanOpen,
    /// A write to the manual-switch or the output file failed.
    FanWrite,
}

} // verus!
