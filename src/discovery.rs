use vstd::prelude::*;

use crate::config::FanConfig;
use crate::controller::FanController;
use crate::error::Error;
use crate::text::{parse_trimmed, parse_u32, trim_end, trim_start, ParseError};

verus! {

/// The minimum speed written in a `_min` file: whitespace is trimmed from
/// both ends.
pub open spec fn min_speed_of(text: Seq<char>) -> Result<u32, ParseError> {
    parse_u32(trim_end(trim_start(text)))
}

/// The maximum speed written in a `_max` file: only trailing whitespace is
/// trimmed.
pub open spec fn max_speed_of(text: Seq<char>) -> Result<u32, ParseError> {
    parse_u32(trim_end(text))
}

pub fn parse_min_speed(text: &str) -> (r: Result<u32, ParseError>)
    ensures
        r == min_speed_of(text@),
{
    parse_trimmed(text, true)
}

pub fn parse_max_speed(text: &str) -> (r: Result<u32, ParseError>)
    ensures
        r == max_speed_of(text@),
{
    parse_trimmed(text, false)
}

/// One of the four files that control a fan, named by a suffix to the
/// fan's base path.
#[derive(Clone, Copy, Debug, PartialEq, Eq, Structural)]
pub enum Resource {
    Min,
    Max,
    Manual,
    Output,
}

impl Resource {
    pub open spec fn spec_suffix(self) -> Seq<char> {
        match self {
            Resource::Min => "_min"@,
            Resource::Max => "_max"@,
            Resource::Manual => "_manual"@,
            Resource::Output => "_output"@,
        }
    }

    pub fn suffix(&self) -> (r: &'static str)
        ensures
            r@ == self.spec_suffix(),
    {
        match self {
            Resource::Min => "_min",
            Resource::Max => "_max",
            Resource::Manual => "_manual",
            Resource::Output => "_output",
        }
    }
}

/// What discovery asks the caller to do next.
#[derive(Clone, Copy, Debug, PartialEq, Eq, Structural)]
pub enum Action {
    /// Read the whole file as text.
    Read(Resource),
    /// Open the file for writing, truncating it.
    Open(Resource),
}

/// How the last action went.
#[derive(Debug)]
pub enum Event {
    /// The file was read and held this text.
    Read(String),
    /// The file was opened.
    Opened,
    /// The read or the open failed.
    Failed,
}

/// Where the discovery of one fan stands. It reads the minimum, then the
/// maximum speed, then opens the manual-switch and the output file, and stops
/// at the first failure.
#[derive(Clone, Copy, Debug, PartialEq, Eq, Structural)]
pub enum Discovery {
    ReadingMin,
    ReadingMax { min_speed: u32 },
    OpeningManual { min_speed: u32, max_speed: u32 },
    OpeningOutput { min_speed: u32, max_speed: u32 },
    Found { min_speed: u32, max_speed: u32 },
    Failed(Error),
}

impl Discovery {
    pub fn start() -> (r: Discovery)
        ensures
            r == Discovery::ReadingMin,
    {
        Discovery::ReadingMin
    }

    pub open spec fn action_of(self) -> Option<Action> {
        match self {
            Discovery::ReadingMin => Some(Action::Read(Resource::Min)),
            Discovery::ReadingMax { .. } => Some(Action::Read(Resource::Max)),
            Discovery::OpeningManual { .. } => Some(Action::Open(Resource::Manual)),
            Discovery::OpeningOutput { .. } => Some(Action::Open(Resource::Output)),
            _ => None,
        }
    }

    /// The state after `event`; an event that does not answer the pending
    /// action, or any event once discovery has ended, changes nothing.
    pub open spec fn after(self, event: Event) -> Discovery {
        match (self, event) {
            (Discovery::ReadingMin, Event::Read(text)) => match min_speed_of(text@) {
                Ok(min_speed) => Discovery::ReadingMax { min_speed },
                Err(e) => Discovery::Failed(Error::MinSpeedParse(e)),
            },
            (Discovery::ReadingMin, Event::Failed) => Discovery::Failed(Error::MinSpeedRead),
            (Discovery::ReadingMax { min_speed }, Event::Read(text)) => match max_speed_of(text@) {
                Ok(max_speed) => Discovery::OpeningManual { min_speed, max_speed },
                Err(e) => Discovery::Failed(Error::MaxSpeedParse(e)),
            },
            (Discovery::ReadingMax { .. }, Event::Failed) => Discovery::Failed(Error::MaxSpeedRead),
            (Discovery::OpeningManual { min_speed, max_speed }, Event::Opened) =>
                Discovery::OpeningOutput { min_speed, max_speed },
            (Discovery::OpeningOutput { min_speed, max_speed }, Event::Opened) =>
                Discovery::Found { min_speed, max_speed },
            (Discovery::OpeningManual { .. }, Event::Failed) => Discovery::Failed(Error::FanOpen),
            (Discovery::OpeningOutput { .. }, Event::Failed) => Discovery::Failed(Error::FanOpen),
            _ => self,
        }
    }

    /// The action the caller performs next; `None` once discovery has ended.
    pub fn next_action(&self) -> (r: Option<Action>)
        ensures
            r == self.action_of(),
    {
        match self {
            Discovery::ReadingMin => Some(Action::Read(Resource::Min)),
            Discovery::ReadingMax { .. } => Some(Action::Read(Resource::Max)),
            Discovery::OpeningManual { .. } => Some(Action::Open(Resource::Manual)),
            Discovery::OpeningOutput { .. } => Some(Action::Open(Resource::Output)),
            _ => None,
        }
    }

    pub fn step(&self, event: &Event) -> (r: Discovery)
        ensures
            r == self.after(*event),
    {
        match (self, event) {
            (Discovery::ReadingMin, Event::Read(text)) => match parse_min_speed(text.as_str()) {
                Ok(min_speed) => Discovery::ReadingMax { min_speed },
                Err(e) => Discovery::Failed(Error::MinSpeedParse(e)),
            },
            (Discovery::ReadingMin, Event::Failed) => Discovery::Failed(Error::MinSpeedRead),
            (Discovery::ReadingMax { min_speed }, Event::Read(text)) => match parse_max_speed(text.as_str()) {
                Ok(max_speed) => Discovery::OpeningManual { min_speed: *min_speed, max_speed },
                Err(e) => Discovery::Failed(Error::MaxSpeedParse(e)),
            },
            (Discovery::ReadingMax { .. }, Event::Failed) => Discovery::Failed(Error::MaxSpeedRead),
            (Discovery::OpeningManual { min_speed, max_speed }, Event::Opened) =>
                Discovery::OpeningOutput { min_speed: *min_speed, max_speed: *max_speed },
            (Discovery::OpeningOutput { min_speed, max_speed }, Event::Opened) =>
                Discovery::Found { min_speed: *min_speed, max_speed: *max_speed },
            (Discovery::OpeningManual { .. }, Event::Failed) => Discovery::Failed(Error::FanOpen),
            (Discovery::OpeningOutput { .. }, Event::Failed) => Discovery::Failed(Error::FanOpen),
            _ => *self,
        }
    }

    /// The controller a finished discovery yields, or the error it stopped at.
    /// `None` while discovery is still under way.
    pub fn outcome(&self, config: FanConfig) -> (r: Option<Result<FanController, Error>>)
        ensures
            r == match self {
                Discovery::Found { min_speed, max_speed } =>
                    Some(Ok::<FanController, Error>(FanController { config, min_speed: *min_speed, max_speed: *max_speed })),
                Discovery::Failed(e) => Some(Err::<FanController, Error>(*e)),
                _ => None::<Result<FanController, Error>>,
            },
    {
        match self {
            Discovery::Found { min_speed, max_speed } => Some(Ok(FanController::new(config, *min_speed, *max_speed))),
            Discovery::Failed(e) => Some(Err(*e)),
            _ => None,
        }
    }
}

} // verus!
