use card_catalog::card::basic_power::BasicPower;
use card_catalog::card::cost::Cost;
use card_catalog::card::hit_points::HitPoints;
use card_catalog::card::keyword::{Keyword, ParseKeywordError};

#[test]
fn it_parses_number_from_str() {
    assert_eq!(Ok(BasicPower::Number(1)), BasicPower::from_str("1"));
}

#[test]
fn it_parses_x_from_str() {
    assert_eq!(Ok(BasicPower::X), BasicPower::from_str("X"));
}

#[test]
fn basic_power_parses_bounds() {
    assert_eq!(Ok(BasicPower::Number(0)), BasicPower::from_str("0"));
    assert_eq!(Ok(BasicPower::Number(255)), BasicPower::from_str("255"));
}

#[test]
fn basic_power_rejects_out_of_range_and_junk() {
    assert!(BasicPower::from_str("256").is_err());
    assert!(BasicPower::from_str("").is_err());
    assert!(BasicPower::from_str("x").is_err());
    assert!(BasicPower::from_str("1X").is_err());
    assert!(BasicPower::from_str("-1").is_err());
}

#[test]
fn basic_power_error_reports_input() {
    let err = BasicPower::from_str("huge").unwrap_err();
    assert_eq!("huge", err.input().as_str());
    assert_eq!("huge is not a Number or X", err.message());
}

#[test]
fn basic_power_renders_text() {
    assert_eq!("0", BasicPower::Number(0).to_text());
    assert_eq!("7", BasicPower::Number(7).to_text());
    assert_eq!("42", BasicPower::Number(42).to_text());
    assert_eq!("255", BasicPower::Number(255).to_text());
    assert_eq!("X", BasicPower::X.to_text());
}

#[test]
fn cost_parses_number_and_x() {
    assert_eq!(Ok(Cost::Number(3)), Cost::from_str("3"));
    assert_eq!(Ok(Cost::X), Cost::from_str("X"));
    assert!(Cost::from_str("three").is_err());
}

#[test]
fn cost_error_reports_input() {
    let err = Cost::from_str("many").unwrap_err();
    assert_eq!("many is not a Number or X", err.message());
}

#[test]
fn hit_points_error_reports_input() {
    let err = HitPoints::from_str("lots").unwrap_err();
    assert_eq!("lots is not a Number or per player", err.message());
}

#[test]
fn cost_renders_text() {
    assert_eq!("3", Cost::Number(3).to_text());
    assert_eq!("X", Cost::X.to_text());
}

#[test]
fn hit_points_parses_number() {
    assert_eq!(Ok(HitPoints::Number(12)), HitPoints::from_str("12"));
}

#[test]
fn hit_points_parses_per_player() {
    assert_eq!(Ok(HitPoints::PerPlayer(4)), HitPoints::from_str("4:player:"));
    assert_eq!(Ok(HitPoints::PerPlayer(14)), HitPoints::from_str("14:player:"));
}

#[test]
fn hit_points_rejects_malformed() {
    assert!(HitPoints::from_str(":player:").is_err());
    assert!(HitPoints::from_str("4:player").is_err());
    assert!(HitPoints::from_str("300:player:").is_err());
    assert!(HitPoints::from_str("4 per Player").is_err());
}

#[test]
fn hit_points_renders_text() {
    assert_eq!("12", HitPoints::Number(12).to_text());
    assert_eq!("4 per Player", HitPoints::PerPlayer(4).to_text());
}

#[test]
fn it_parses_quickstrike_from_str() {
    assert_eq!(Ok(Keyword::Quickstrike), Keyword::from_str("Quickstrike"));
}

#[test]
fn it_parses_incite_from_str() {
    assert_eq!(Ok(Keyword::Incite(1)), Keyword::from_str("Incite 1"));
}

#[test]
fn keyword_parses_all_bare_tags() {
    assert_eq!(Ok(Keyword::Stalwart), Keyword::from_str("Stalwart"));
    assert_eq!(Ok(Keyword::Steady), Keyword::from_str("Steady"));
    assert_eq!(Ok(Keyword::Toughness), Keyword::from_str("Toughness"));
}

#[test]
fn keyword_parses_hinder() {
    assert_eq!(Ok(Keyword::Hinder(2)), Keyword::from_str("Hinder 2"));
}

#[test]
fn keyword_distinguishes_its_errors() {
    assert_eq!(
        Err(ParseKeywordError::UnknownVariant(String::from("Frenzy 3"))),
        Keyword::from_str("Frenzy 3")
    );
    assert_eq!(
        Err(ParseKeywordError::InvalidValueX(String::from("Incite 300"))),
        Keyword::from_str("Incite 300")
    );
    assert_eq!(
        Err(ParseKeywordError::UnknownVariant(String::from("Incite abc"))),
        Keyword::from_str("Incite abc")
    );
    assert!(Keyword::from_str("quickstrike").is_err());
}

#[test]
fn keyword_renders_text() {
    assert_eq!("Incite 1", Keyword::Incite(1).to_text());
    assert_eq!("Hinder 12", Keyword::Hinder(12).to_text());
    assert_eq!("Quickstrike", Keyword::Quickstrike.to_text());
    assert_eq!("Toughness", Keyword::Toughness.to_text());
}
