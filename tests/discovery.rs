use fan_control::{
    parse_max_speed, parse_min_speed, Action, Discovery, Error, Event, FanConfig, FanController,
    ParseError, Resource, SpeedCurve,
};

fn config() -> FanConfig {
    FanConfig {
        max_allowed_speed: 200,
        always_full_speed: false,
        low_temp: 30,
        high_temp: 70,
        speed_curve: SpeedCurve::Linear,
    }
}

#[test]
fn min_file_trimmed_both_ends() {
    assert_eq!(parse_min_speed("42\n"), Ok(42));
    assert_eq!(parse_min_speed("  42 \t\n"), Ok(42));
    assert_eq!(parse_min_speed("\u{a0}5\u{3000}"), Ok(5));
    assert_eq!(parse_min_speed("+7"), Ok(7));
    assert_eq!(parse_min_speed("0"), Ok(0));
    assert_eq!(parse_min_speed("4294967295"), Ok(u32::MAX));
}

#[test]
fn max_file_trimmed_at_end_only() {
    assert_eq!(parse_max_speed("255\n"), Ok(255));
    assert_eq!(parse_max_speed(" 255\n"), Err(ParseError::InvalidDigit));
    assert_eq!(parse_min_speed(" 255\n"), Ok(255));
}

#[test]
fn parse_errors() {
    assert_eq!(parse_min_speed(""), Err(ParseError::Empty));
    assert_eq!(parse_min_speed(" \n "), Err(ParseError::Empty));
    assert_eq!(parse_max_speed("\n"), Err(ParseError::Empty));
    assert_eq!(parse_min_speed("+"), Err(ParseError::InvalidDigit));
    assert_eq!(parse_min_speed("-"), Err(ParseError::InvalidDigit));
    assert_eq!(parse_min_speed("-1"), Err(ParseError::InvalidDigit));
    assert_eq!(parse_min_speed("12a"), Err(ParseError::InvalidDigit));
    assert_eq!(parse_min_speed("1 2"), Err(ParseError::InvalidDigit));
    assert_eq!(parse_min_speed("4294967296"), Err(ParseError::PosOverflow));
    // the first failure from the left decides
    assert_eq!(parse_min_speed("99999999999x"), Err(ParseError::PosOverflow));
    assert_eq!(parse_min_speed("1x99999999999"), Err(ParseError::InvalidDigit));
}

#[test]
fn parse_agrees_with_std() {
    let samples = [
        "0", "17", "+17", "-17", "+", "-", "", "++1", "4294967295", "4294967296",
        "00000000000000000012", "99999999999x", "1x99999999999", "\u{661}\u{662}", "12\u{e9}",
    ];
    for s in samples {
        let ours = parse_max_speed(s);
        let std = s.parse::<u32>();
        assert_eq!(ours.is_ok(), std.is_ok(), "{s:?}");
        if let Ok(v) = std {
            assert_eq!(ours, Ok(v));
        }
    }
}

#[test]
fn missing_min_file() {
    let d = Discovery::start();
    assert_eq!(d.next_action(), Some(Action::Read(Resource::Min)));
    let d = d.step(&Event::Failed);
    assert_eq!(d, Discovery::Failed(Error::MinSpeedRead));
    // nothing more is read or opened
    assert_eq!(d.next_action(), None);
    assert_eq!(d.outcome(config()), Some(Err(Error::MinSpeedRead)));
}

#[test]
fn discovery_finds_fan() {
    let mut d = Discovery::start();
    d = d.step(&Event::Read(" 30\n".to_string()));
    assert_eq!(d, Discovery::ReadingMax { min_speed: 30 });
    assert_eq!(d.next_action(), Some(Action::Read(Resource::Max)));
    assert_eq!(d.outcome(config()), None);
    d = d.step(&Event::Read("255\n".to_string()));
    assert_eq!(d.next_action(), Some(Action::Open(Resource::Manual)));
    d = d.step(&Event::Opened);
    assert_eq!(d.next_action(), Some(Action::Open(Resource::Output)));
    d = d.step(&Event::Opened);
    assert_eq!(d, Discovery::Found { min_speed: 30, max_speed: 255 });
    assert_eq!(d.next_action(), None);
    assert_eq!(
        d.outcome(config()),
        Some(Ok(FanController::new(config(), 30, 255)))
    );
}

#[test]
fn discovery_errors() {
    let start = Discovery::start();
    assert_eq!(
        start.step(&Event::Read("fast".to_string())),
        Discovery::Failed(Error::MinSpeedParse(ParseError::InvalidDigit))
    );
    let reading_max = start.step(&Event::Read("1".to_string()));
    assert_eq!(reading_max.step(&Event::Failed), Discovery::Failed(Error::MaxSpeedRead));
    assert_eq!(
        reading_max.step(&Event::Read("".to_string())),
        Discovery::Failed(Error::MaxSpeedParse(ParseError::Empty))
    );
    let opening = reading_max.step(&Event::Read("9".to_string()));
    assert_eq!(opening.step(&Event::Failed), Discovery::Failed(Error::FanOpen));
    let opening_output = opening.step(&Event::Opened);
    assert_eq!(opening_output.step(&Event::Failed), Discovery::Failed(Error::FanOpen));
}

#[test]
fn unexpected_events_change_nothing() {
    let start = Discovery::start();
    assert_eq!(start.step(&Event::Opened), start);
    let failed = start.step(&Event::Failed);
    assert_eq!(failed.step(&Event::Read("5".to_string())), failed);
    let opening = Discovery::OpeningManual { min_speed: 1, max_speed: 2 };
    assert_eq!(opening.step(&Event::Read("5".to_string())), opening);
}

#[test]
fn resource_suffixes() {
    assert_eq!(Resource::Min.suffix(), "_min");
    assert_eq!(Resource::Max.suffix(), "_max");
    assert_eq!(Resource::Manual.suffix(), "_manual");
    assert_eq!(Resource::Output.suffix(), "_output");
}
