use levelspecter::{CaseMode, LevelName, LevelSpec, LevelSpecterError, LevelType};
use std::str::FromStr;

#[test]
fn can_replace_relative_shot_with_absolute() {
    let ls = LevelSpec::from_str("..0001").unwrap();
    let new_ls = ls.rel_to_abs(|level|{
        match level {
            LevelName::Show => Some("DEV01".to_string()),
            LevelName::Sequence => Some("RD".to_string()),
            _ => None
        }
    });

    assert_eq!(new_ls, Ok(LevelSpec::from_shot("DEV01", "RD", "0001")));
}

#[test]
fn levelspec_can_parse_show() {
    let result = LevelSpec::from_str("DEV01");
    let expect = Ok(LevelSpec {show: LevelType::from("DEV01"), sequence: None, shot: None });
    assert_eq!(result, expect);
}

#[test]
fn can_parse_show_with_lowercase_name() {
    let result = LevelSpec::new_with_mode("dev01", CaseMode::Relaxed);
    let expect = Ok(LevelSpec {show: LevelType::from("dev01"), sequence: None, shot: None });
    assert_eq!(result, expect);
}

#[test]
fn cannot_parse_show_with_lowercase_name() {
    let result = LevelSpec::from_str("dev01");
    assert_eq!(
        result,
        Err(LevelSpecterError::ParseError(
            "Unable to parse levelspec for dev01".to_string())));
}

#[test]
fn can_parse_sequence() {
    let result = LevelSpec::from_str("DEV01.RD");
    let expect = Ok(LevelSpec {
        show: LevelType::from("DEV01"),
        sequence: Some(LevelType::from("RD")),
        shot: None
    });
    assert_eq!(result, expect);
}

#[test]
fn levelspec_can_parse_shot() {
    let result = LevelSpec::from_str("DEV01.RD.0001");
    let expect = Ok(LevelSpec {
        show: LevelType::from("DEV01"),
        sequence: Some(LevelType::from("RD")),
        shot: Some(LevelType::from("0001")) });
    assert_eq!(result, expect);
}

#[test]
fn can_parse_shot_with_lowercase_show_and_sequence() {
    let result = LevelSpec::new_with_mode("dev01.rd.0001", CaseMode::Relaxed);
    let expect = Ok(LevelSpec {
        show: LevelType::from("dev01"),
        sequence: Some(LevelType::from("rd")),
        shot: Some(LevelType::from("0001")) });
    assert_eq!(result, expect);
}

#[test]
fn cannot_parse_shot_with_lowercase_shot_and_sequence() {
    let result = LevelSpec::from_str("dev01.rd.0001");
    assert_eq!(
        result,
        Err(LevelSpecterError::ParseError(
            "Unable to parse levelspec for dev01.rd.0001".to_string()))
    );
}

#[test]
fn will_convert_lowercase_to_uppercase_shot() {
    let result = LevelSpec::new_with_mode("dev01.rd.0001", CaseMode::Relaxed).unwrap().upper();
    let expect = LevelSpec {
        show: LevelType::from("DEV01"),
        sequence: Some(LevelType::from("RD")),
        shot: Some(LevelType::from("0001")) };
    assert_eq!(result, expect);
}

#[test]
fn levelspec_can_parse_shot_with_wildcard() {
    let result = LevelSpec::from_str("DEV01.RD.%");
    let expect = Ok(LevelSpec {
        show: LevelType::from("DEV01"),
        sequence: Some(LevelType::from("RD")),
        shot: Some(LevelType::from("%")) });
    assert_eq!(result, expect);
}

#[test]
fn can_parse_sequence_with_relative_show() {
    let result = LevelSpec::from_str(".RD");
    let expect = Ok(LevelSpec {
        show: LevelType::from(""),
        sequence: Some(LevelType::from("RD")),
        shot: None });
    assert_eq!(result, expect);
}

#[test]
fn can_parse_shot_with_relative_show() {
    let result = LevelSpec::from_str(".RD.0001");
    let expect = Ok(LevelSpec {
        show: LevelType::from(""),
        sequence: Some(LevelType::from("RD")),
        shot: Some(LevelType::from("0001")) });
    assert_eq!(result, expect);
}

#[test]
fn can_parse_shot_with_relative_show_and_shot() {
    let result = LevelSpec::from_str(".RD.");
    let expect = Ok(LevelSpec {
        show: LevelType::from(""),
        sequence: Some(LevelType::from("RD")),
        shot: Some(LevelType::from("")) });
    assert_eq!(result, expect);
}

#[test]
fn can_parse_shot_with_relative_show_and_sequence() {
    let result = LevelSpec::from_str("..9999");
    let expect = Ok(LevelSpec {
        show: LevelType::from(""),
        sequence: Some(LevelType::from("")),
        shot: Some(LevelType::from("9999")) });
    assert_eq!(result, expect);
}

#[test]
fn is_concrete_returns_true_for_shot_without_wildcard() {
    let level = LevelSpec::from_str("DEV01.RD.0001").unwrap();
    assert!(level.is_concrete());
}

#[test]
fn is_concrete_returns_true_for_show_with_relative_show() {
    let level = LevelSpec::from_str(".RD.0001").unwrap();
    assert!(level.is_concrete());
}

#[test]
fn is_concrete_returns_true_for_show_with_relative_seq_and_show() {
    let level = LevelSpec::from_str("..0001").unwrap();
    assert!(level.is_concrete());
}

#[test]
fn is_concrete_returns_true_for_show_with_relative_seq_and_shot() {
    let level = LevelSpec::from_str("DEV01..").unwrap();
    assert!(level.is_concrete());
}

#[test]
fn is_concrete_returns_false_for_show_with_wildcard() {
    let level = LevelSpec::from_str("%.RD.0001").unwrap();
    assert!(!level.is_concrete());
}

#[test]
fn is_concrete_returns_false_for_seq_with_wildcard() {
    let level = LevelSpec::from_str("DEV01.%.0001").unwrap();
    assert!(!level.is_concrete());
}

#[test]
fn is_concrete_returns_false_for_shot_with_wildcard() {
    let level = LevelSpec::from_str("DEV01.RD.%").unwrap();
    assert!(!level.is_concrete());
}

#[test]
fn from_shot_instantiates_uppercase_levelspec_given_lowercase_inputs() {
    let result = LevelSpec::from_shot("dev01", "rd", "0001");
    assert_eq!(
        result,
        LevelSpec{
            show: LevelType::from("DEV01"),
            sequence: Some(LevelType::from("RD")),
            shot: Some(LevelType::from("0001"))
        }
    );
}

#[test]
fn from_shot_instantiates_levelspec_given_lowercase_inputs() {
    let result = LevelSpec::from_shot_with_mode("dev01", "rd", "0001", CaseMode::Relaxed);
    assert_eq!(
        result,
        LevelSpec{
            show: LevelType::from("dev01"),
            sequence: Some(LevelType::from("rd")),
            shot: Some(LevelType::from("0001"))
        }
    );
}

#[test]
fn from_sequence_instantiates_uppercase_levelspec_given_lowercase_inputs() {
    let result = LevelSpec::from_sequence("dev01", "rd");
    assert_eq!(
        result,
        LevelSpec{
            show: LevelType::from("DEV01"),
            sequence: Some(LevelType::from("RD")),
            shot: None
        }
    );
}

#[test]
fn from_sequence_instantiates_new_levelspec_given_lowercase_inputs() {
    let result = LevelSpec::from_sequence_with_mode("dev01", "rd", CaseMode::Relaxed);
    assert_eq!(
        result,
        LevelSpec{
            show: LevelType::from("dev01"),
            sequence: Some(LevelType::from("rd")),
            shot: None
        }
    );
}

#[test]
fn from_show_instantiates_uppercase_levelspec_given_lowercase_show() {
    let result = LevelSpec::from_show("dev01");
    assert_eq!(
        result,
        LevelSpec{
            show: LevelType::from("DEV01"),
            sequence: None,
            shot: None
        }
    );
}

#[test]
fn from_show_instantiates_levelspec_given_lowercase_show() {
    let result = LevelSpec::from_show_with_mode("dev01", CaseMode::Relaxed);
    assert_eq!(
        result,
        LevelSpec{
            show: LevelType::from("dev01"),
            sequence: None,
            shot: None
        }
    );
}

#[test]
fn can_get_show_from_levelspec() {
    let ls = LevelSpec::from_show("DEV01");
    let show = ls.show();
    assert_eq!(show, &LevelType::Term("DEV01".to_string()));
    assert_eq!(ls.sequence(), None);
    assert_eq!(ls.shot(), None);
}

#[test]
fn can_get_sequence_from_levelspec() {
    let ls = LevelSpec::from_sequence("DEV01","RD");
    assert_eq!(ls.show(), &LevelType::Term("DEV01".to_string()));
    assert_eq!(ls.sequence(), Some(&LevelType::Term("RD".to_string())));
    assert_eq!(ls.shot(), None);
}

#[test]
fn can_get_shot_from_levelspec() {
    let ls = LevelSpec::from_shot("DEV01","RD", "0001");
    assert_eq!(ls.show(), &LevelType::Term("DEV01".to_string()));
    assert_eq!(ls.sequence(), Some(&LevelType::Term("RD".to_string())));
    assert_eq!(ls.shot(), Some(&LevelType::Term("0001".to_string())));
}
