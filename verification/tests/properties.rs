use levelspecter::levelparser::{
    first_alt, levelparser, parse_assetdev_seq, parse_rel_shot, parse_shot, parse_show_rel_shot,
    rel_seq_rel_alt,
};
use levelspecter::levelspec::resolve_level;
use levelspecter::lexical::{
    alpha_alphanum, alpha_alphanum_lower, alpha_alphanum_upper, char_in_class,
    char_outside_class, loweralpha1, loweralphanum1, upperalpha0, upperalphanum0, upperalphanum1,
    AsCharCaseSensitive, CharClass,
};
use levelspecter::{
    levelspec_parser, levelspec_parser_with_mode, CaseMode, LevelName, LevelSpec,
    LevelSpecterError, LevelType,
};

fn term(s: &str) -> LevelType {
    LevelType::Term(s.to_string())
}

fn parse_error(input: &str) -> LevelSpecterError {
    LevelSpecterError::ParseError(format!("Unable to parse levelspec for {}", input))
}

#[test]
fn name_stops_at_the_first_character_outside_its_class() {
    assert_eq!(alpha_alphanum_upper("DEV01.RD"), Some((".RD", "DEV01")));
    assert_eq!(alpha_alphanum_upper("DEVx"), Some(("x", "DEV")));
    assert_eq!(alpha_alphanum("DEVx_1"), Some(("_1", "DEVx")));
    assert_eq!(alpha_alphanum("A\u{141}"), Some(("\u{141}", "A")));
    assert_eq!(alpha_alphanum(""), None);
    assert_eq!(alpha_alphanum("\u{e9}t\u{e9}"), None);
}

#[test]
fn character_classes_are_ascii_ranges() {
    assert!(char_in_class('0', CharClass::Digit));
    assert!(char_in_class('9', CharClass::Digit));
    assert!(!char_in_class('a', CharClass::Digit));
    assert!(char_in_class('A', CharClass::Upper));
    assert!(char_in_class('Z', CharClass::Upper));
    assert!(!char_in_class('a', CharClass::Upper));
    assert!(!char_in_class('[', CharClass::Upper));
    assert!(!char_in_class('@', CharClass::Upper));
    assert!(char_in_class('a', CharClass::Lower));
    assert!(char_in_class('z', CharClass::Lower));
    assert!(!char_in_class('A', CharClass::Lower));
    assert!(!char_in_class('{', CharClass::Lower));
    assert!(!char_in_class('`', CharClass::Lower));
    assert!(char_in_class('z', CharClass::Alpha));
    assert!(char_in_class('Q', CharClass::Alpha));
    assert!(!char_in_class('5', CharClass::Alpha));
    assert!(char_in_class('5', CharClass::UpperOrDigit));
    assert!(!char_in_class('a', CharClass::UpperOrDigit));
    assert!(char_in_class('5', CharClass::LowerOrDigit));
    assert!(!char_in_class('A', CharClass::LowerOrDigit));
    assert!(char_in_class('a', CharClass::AlphaOrDigit));
    assert!(!char_in_class('_', CharClass::AlphaOrDigit));
    assert!(!char_in_class('/', CharClass::Digit));
    assert!(!char_in_class(':', CharClass::Digit));
    assert!(!char_in_class('\u{141}', CharClass::AlphaOrDigit));
    assert!(!char_in_class('\u{151}', CharClass::Upper));
    assert!(char_outside_class('_', CharClass::AlphaOrDigit));
    assert!(!char_outside_class('7', CharClass::Digit));
}

#[test]
fn case_sensitive_tests_on_bytes_and_characters() {
    assert!(b'a'.is_alpha_lower());
    assert!(!b'A'.is_alpha_lower());
    assert!(b'Z'.is_alpha_upper());
    assert!(!b'z'.is_alpha_upper());
    assert!(b'0'.is_alphanum_lower());
    assert!(!b'Q'.is_alphanum_lower());
    assert!(b'9'.is_alphanum_upper());
    assert!(!b'q'.is_alphanum_upper());
    assert!((&b'q').is_alpha_lower());
    assert!((&b'Q').is_alpha_upper());
    assert!('q'.is_alpha_lower());
    assert!(!'Q'.is_alpha_lower());
    assert!('Q'.is_alpha_upper());
    assert!(!'\u{151}'.is_alpha_upper());
    assert!('7'.is_alphanum_lower());
    assert!('7'.is_alphanum_upper());
    assert!(!'_'.is_alphanum_upper());
    assert!((&'q').is_alphanum_lower());
    assert!(!(&'q').is_alphanum_upper());
}

#[test]
fn runs_are_as_long_as_they_get() {
    assert_eq!(loweralpha1("abc1"), Some(("1", "abc")));
    assert_eq!(loweralphanum1("ab1cD"), Some(("D", "ab1c")));
    assert_eq!(upperalpha0("ABc"), Some(("c", "AB")));
    assert_eq!(upperalphanum1("\u{141}"), None);
    assert_eq!(upperalphanum0("A1\u{e9}"), Some(("\u{e9}", "A1")));
    assert_eq!(alpha_alphanum_lower("a1b2C"), Some(("C", "a1b2")));
    assert_eq!(alpha_alphanum_lower("1a"), None);
}

#[test]
fn show_alone_is_read_as_that_show() {
    for s in ["A", "DEV01", "Z9Z9", "PLATE"] {
        let ls = LevelSpec::new(s).unwrap();
        assert_eq!(ls, LevelSpec { show: term(s), sequence: None, shot: None });
    }
    for s in ["a", "dev01", "Dev01", "DEV01"] {
        let ls = LevelSpec::new_with_mode(s, CaseMode::Relaxed).unwrap();
        assert_eq!(ls, LevelSpec { show: term(s), sequence: None, shot: None });
    }
    let ls = LevelSpec::new("%").unwrap();
    assert_eq!(ls, LevelSpec { show: LevelType::Wildcard, sequence: None, shot: None });
}

#[test]
fn rendering_then_parsing_gives_the_levelspec_back() {
    let strict = [
        LevelSpec::from_show("DEV01"),
        LevelSpec::from_sequence("DEV01", "RD"),
        LevelSpec::from_sequence("DEV01", "ASSETDEV"),
        LevelSpec::from_sequence("DEV01", "ASSETDEVX"),
        LevelSpec::from_shot("DEV01", "RD", "0001"),
        LevelSpec::from_shot("DEV01", "ASSETDEV", "0001"),
        LevelSpec::from_shot("DEV01", "ASSETDEV", "FOOBAR"),
        LevelSpec::from_shot("DEV01", "ASSETDEVX", "12"),
    ];
    for v in strict {
        assert_eq!(LevelSpec::new(&v.to_string()), Ok(v.clone()));
        assert_eq!(LevelSpec::new_with_mode(&v.to_string(), CaseMode::Relaxed), Ok(v));
    }
    let relaxed = [
        LevelSpec::from_show_with_mode("dev01", CaseMode::Relaxed),
        LevelSpec::from_sequence_with_mode("Dev01", "rd", CaseMode::Relaxed),
        LevelSpec::from_shot_with_mode("dev01", "rd", "0001", CaseMode::Relaxed),
        LevelSpec::from_shot_with_mode("dev01", "AssetDev", "fooBar1", CaseMode::Relaxed),
    ];
    for v in relaxed {
        assert_eq!(LevelSpec::new_with_mode(&v.to_string(), CaseMode::Relaxed), Ok(v));
    }
}

#[test]
fn rendering_joins_the_present_levels_with_dots() {
    assert_eq!(LevelSpec::from_show("DEV01").to_string(), "DEV01");
    assert_eq!(LevelSpec::from_sequence("DEV01", "RD").to_string(), "DEV01.RD");
    assert_eq!(LevelSpec::from_shot("DEV01", "RD", "0001").to_string(), "DEV01.RD.0001");
    assert_eq!(LevelSpec::from_shot("", "", "0001").to_string(), "..0001");
    assert_eq!(LevelSpec::from_shot("%", "%", "%").to_string(), "%.%.%");
    assert_eq!(LevelSpec::from_sequence("DEV01", "").to_string(), "DEV01.");
    assert_eq!(LevelSpec::new(".RD.").unwrap().to_string(), ".RD.");
}

#[test]
fn upper_casing_twice_is_upper_casing_once() {
    let values = [
        LevelSpec::from_shot_with_mode("dev01", "rd", "0001", CaseMode::Relaxed),
        LevelSpec::from_shot_with_mode("Dev01", "%", "", CaseMode::Relaxed),
        LevelSpec::from_sequence_with_mode("stra\u{df}e", "\u{e9}t\u{e9}", CaseMode::Relaxed),
        LevelSpec::from_show_with_mode("DEV01", CaseMode::Relaxed),
    ];
    for v in values {
        let once = v.clone().upper();
        let twice = once.clone().upper();
        assert_eq!(twice, once);
        let mut in_place = v.clone();
        in_place.set_upper();
        assert_eq!(in_place, once);
    }
}

#[test]
fn upper_casing_changes_names_only() {
    let v = LevelSpec::from_shot_with_mode("dev01", "%", "", CaseMode::Relaxed).upper();
    assert_eq!(
        v,
        LevelSpec {
            show: term("DEV01"),
            sequence: Some(LevelType::Wildcard),
            shot: Some(LevelType::Relative),
        }
    );
    let w = LevelSpec::from_shot_with_mode("dev01", "rd", "a1b", CaseMode::Relaxed);
    assert_eq!(w.show, term("dev01"));
    assert_eq!(w.upper().shot, Some(term("A1B")));
}

#[test]
fn only_a_wildcard_makes_a_levelspec_a_query() {
    assert!(LevelSpec::from_shot("DEV01", "RD", "0001").is_concrete());
    assert!(LevelSpec::from_shot("", "", "").is_concrete());
    assert!(LevelSpec::from_show("").is_concrete());
    assert!(!LevelSpec::from_show("%").is_concrete());
    assert!(!LevelSpec::from_sequence("DEV01", "%").is_concrete());
    assert!(!LevelSpec::from_shot("DEV01", "RD", "%").is_concrete());
    assert!(!LevelSpec::from_shot("", "", "%").is_concrete());
    let ls = LevelSpec::new("%").unwrap();
    assert_eq!(ls.show, LevelType::Wildcard);
    assert!(!ls.is_concrete());
}

#[test]
fn literal_cases_of_the_notation() {
    assert_eq!(
        LevelSpec::new("DEV01.RD.0001"),
        Ok(LevelSpec { show: term("DEV01"), sequence: Some(term("RD")), shot: Some(term("0001")) })
    );
    assert_eq!(LevelSpec::new("DEV01.ASSETDEV.FOOBAR").unwrap().shot, Some(term("FOOBAR")));
    assert_eq!(LevelSpec::new("DEV01.RD.FOOBAR"), Err(parse_error("DEV01.RD.FOOBAR")));
    assert_eq!(LevelSpec::new("DEV01.RD.00%"), Err(parse_error("DEV01.RD.00%")));
    assert_eq!(LevelSpec::new("DEV_01"), Err(parse_error("DEV_01")));
    assert_eq!(LevelSpec::new("AB%"), Err(parse_error("AB%")));
    assert_eq!(
        levelspec_parser(".RD."),
        Ok(vec![LevelType::Relative, term("RD"), LevelType::Relative])
    );
}

#[test]
fn inputs_that_are_no_levelspec() {
    for s in ["", ".", "..", "...", "DEV01..0001", "DEV01.RD.0001.", "DEV01.RD.0001.X", " DEV01",
        "DEV01 ", "1", "%%", "DEV01.%%", "D\u{e9}V"]
    {
        assert_eq!(levelspec_parser(s), Err(parse_error(s)));
        assert_eq!(levelspec_parser_with_mode(s, CaseMode::Relaxed), Err(parse_error(s)));
        assert_eq!(levelparser(s, CaseMode::Strict), None);
    }
}

#[test]
fn the_first_form_that_matches_decides() {
    // `.SEQ.` is matched once; what follows is left over and the input fails
    assert_eq!(
        rel_seq_rel_alt(".RD..RD.", CaseMode::Strict),
        Some((".RD.", vec![LevelType::Relative, term("RD"), LevelType::Relative]))
    );
    assert_eq!(levelspec_parser(".RD..RD."), Err(parse_error(".RD..RD.")));
    // behind an elided show the keyword is tried before a name
    assert_eq!(levelspec_parser(".ASSETDEVX"), Err(parse_error(".ASSETDEVX")));
    assert_eq!(levelspec_parser("DEV.ASSETDEVX"), Ok(vec![term("DEV"), term("ASSETDEVX")]));
    assert_eq!(
        first_alt("DEV.RD.FOO", CaseMode::Strict),
        Some(("FOO", vec![term("DEV"), term("RD"), LevelType::Relative]))
    );
    assert_eq!(
        levelspec_parser("DEV01.ASSETDEV.0001"),
        Ok(vec![term("DEV01"), term("ASSETDEV"), term("0001")])
    );
    assert_eq!(
        levelspec_parser(".ASSETDEV.FOO1"),
        Ok(vec![LevelType::Relative, term("ASSETDEV"), term("FOO1")])
    );
    // a wildcard sequence never makes the shot a name
    assert_eq!(levelspec_parser("DEV01.%.FOO"), Err(parse_error("DEV01.%.FOO")));
    assert_eq!(
        levelspec_parser_with_mode("dev01.%.foo", CaseMode::Relaxed),
        Err(parse_error("dev01.%.foo"))
    );
}

#[test]
fn keyword_is_matched_as_the_mode_asks() {
    assert_eq!(parse_assetdev_seq(".ASSETDEV.X", CaseMode::Strict), Some((".X", "ASSETDEV")));
    assert_eq!(parse_assetdev_seq(".AssetDev.X", CaseMode::Strict), None);
    assert_eq!(parse_assetdev_seq(".AssetDev.X", CaseMode::Relaxed), Some((".X", "AssetDev")));
    assert_eq!(parse_assetdev_seq(".assetdevil", CaseMode::Relaxed), Some(("il", "assetdev")));
    assert_eq!(parse_assetdev_seq(".ASSETDE", CaseMode::Relaxed), None);
    assert_eq!(parse_assetdev_seq(".\u{c5}SSETDEV", CaseMode::Relaxed), None);
    assert_eq!(parse_assetdev_seq("ASSETDEV", CaseMode::Relaxed), None);
    assert_eq!(
        levelspec_parser_with_mode("dev.AssetDev.foo", CaseMode::Relaxed),
        Ok(vec![term("dev"), term("AssetDev"), term("foo")])
    );
}

#[test]
fn pieces_cut_the_input_where_the_match_ends() {
    assert_eq!(parse_shot(".0001.X"), Some((".X", "0001")));
    assert_eq!(parse_shot(".%%"), Some(("%", "%")));
    assert_eq!(parse_shot("0001"), None);
    assert_eq!(parse_shot("."), None);
    assert_eq!(parse_rel_shot("..12ab"), Some(("ab", "12")));
    assert_eq!(parse_show_rel_shot("DEV01..X", CaseMode::Strict), Some(("X", "DEV01")));
    assert_eq!(parse_show_rel_shot("DEV01.X", CaseMode::Strict), None);
}

#[test]
fn tokens_and_their_text() {
    assert_eq!(LevelType::from(""), LevelType::Relative);
    assert_eq!(LevelType::from("%"), LevelType::Wildcard);
    assert_eq!(LevelType::from("%%"), term("%%"));
    assert_eq!(LevelType::from_text("RD"), term("RD"));
    for s in ["", "%", "RD", "0001", "a b"] {
        let t = LevelType::from(s);
        assert_eq!(t.to_str(), s);
        assert_eq!(LevelType::from(t.to_str()), t);
        assert_eq!(t.duplicate(), t);
    }
    assert!(LevelType::Wildcard.is_wildcard());
    assert!(!LevelType::Wildcard.is_relative());
    assert!(!LevelType::Wildcard.is_term());
    assert!(LevelType::Relative.is_relative());
    assert!(!LevelType::Relative.is_wildcard());
    assert!(term("RD").is_term());
    assert!(!term("RD").is_wildcard());
    assert!(!term("RD").is_relative());
}

#[test]
fn present_levels_in_order() {
    let ls = LevelSpec::from_shot("DEV01", "RD", "0001");
    assert_eq!(ls.to_vec_str(), vec![&term("DEV01"), &term("RD"), &term("0001")]);
    let ls = LevelSpec::from_sequence("DEV01", "%");
    assert_eq!(ls.to_vec_str(), vec![&term("DEV01"), &LevelType::Wildcard]);
    let ls = LevelSpec::from_show("");
    assert_eq!(ls.to_vec_str(), vec![&LevelType::Relative]);
    assert_eq!(
        LevelSpec::from_levels(vec![term("A"), term("B"), term("1")]),
        LevelSpec { show: term("A"), sequence: Some(term("B")), shot: Some(term("1")) }
    );
    assert_eq!(
        LevelSpec::from_levels(vec![term("A"), term("B")]),
        LevelSpec { show: term("A"), sequence: Some(term("B")), shot: None }
    );
    assert_eq!(
        LevelSpec::from_levels(vec![term("A")]),
        LevelSpec { show: term("A"), sequence: None, shot: None }
    );
}

#[test]
fn resolution_fills_elided_levels_only() {
    let ls = LevelSpec::new("..0001").unwrap();
    let out = ls.rel_to_abs(|level| match level {
        LevelName::Show => Some("DEV01".to_string()),
        LevelName::Sequence => Some("RD".to_string()),
        _ => None,
    });
    assert_eq!(out, Ok(LevelSpec::from_shot("DEV01", "RD", "0001")));
    assert_eq!(ls, LevelSpec::from_shot("", "", "0001"));

    let ls = LevelSpec::new("%.RD.").unwrap();
    let out = ls.rel_to_abs(|level| match level {
        LevelName::Shot => Some("%".to_string()),
        _ => None,
    });
    assert_eq!(out, Ok(LevelSpec::from_shot("%", "RD", "%")));

    let ls = LevelSpec::new("DEV01.RD.0001").unwrap();
    assert_eq!(ls.rel_to_abs(|_| None), Ok(ls.clone()));

    let ls = LevelSpec::new("DEV01.").unwrap();
    let out = ls.rel_to_abs(|_| Some("rd".to_string()));
    assert_eq!(
        out,
        Ok(LevelSpec { show: term("DEV01"), sequence: Some(term("rd")), shot: None })
    );
}

#[test]
fn resolution_reports_the_first_level_it_cannot_fill() {
    let ls = LevelSpec::new("..0001").unwrap();
    assert_eq!(
        ls.rel_to_abs(|_| None),
        Err(LevelSpecterError::RelToAbsError("Unable to retrieve Show in rel_to_abs".to_string()))
    );
    let out = ls.rel_to_abs(|level| match level {
        LevelName::Show => Some("DEV01".to_string()),
        _ => None,
    });
    assert_eq!(
        out,
        Err(LevelSpecterError::RelToAbsError(
            "Unable to retrieve Sequence in rel_to_abs".to_string()
        ))
    );
    let ls = LevelSpec::new("DEV01..").unwrap();
    let out = ls.rel_to_abs(|level| match level {
        LevelName::Sequence => Some("RD".to_string()),
        _ => None,
    });
    assert_eq!(
        out,
        Err(LevelSpecterError::RelToAbsError("Unable to retrieve Shot in rel_to_abs".to_string()))
    );
    let out = ls.rel_to_abs(|level| match level {
        LevelName::Sequence => Some(String::new()),
        _ => Some("1".to_string()),
    });
    assert_eq!(
        out,
        Err(LevelSpecterError::RelToAbsError(
            "sequence returned by closure is relative ''".to_string()
        ))
    );
    let ls = LevelSpec::new(".RD").unwrap();
    assert_eq!(
        ls.rel_to_abs(|_| Some(String::new())),
        Err(LevelSpecterError::RelToAbsError("show returned by closure is relative ''".to_string()))
    );
}

#[test]
fn one_supplied_value_at_a_time() {
    assert_eq!(resolve_level(LevelName::Shot, Some("0001".to_string())), Ok(term("0001")));
    assert_eq!(resolve_level(LevelName::Show, Some("%".to_string())), Ok(LevelType::Wildcard));
    assert_eq!(
        resolve_level(LevelName::Shot, Some(String::new())),
        Err(LevelSpecterError::RelToAbsError("shot returned by closure is relative ''".to_string()))
    );
    assert_eq!(
        resolve_level(LevelName::Sequence, None),
        Err(LevelSpecterError::RelToAbsError(
            "Unable to retrieve Sequence in rel_to_abs".to_string()
        ))
    );
}

#[test]
fn the_resolver_is_asked_in_order_and_only_when_needed() {
    let asked = std::cell::RefCell::new(Vec::new());
    let ls = LevelSpec::new("..0001").unwrap();
    let _ = ls.rel_to_abs(|level| {
        asked.borrow_mut().push(level);
        Some("A".to_string())
    });
    assert_eq!(*asked.borrow(), vec![LevelName::Show, LevelName::Sequence]);
    asked.borrow_mut().clear();
    let ls = LevelSpec::new(".RD.").unwrap();
    let _ = ls.rel_to_abs(|level| {
        asked.borrow_mut().push(level);
        None
    });
    assert_eq!(*asked.borrow(), vec![LevelName::Show]);
}

#[test]
fn error_messages() {
    assert_eq!(LevelSpecterError::Placeholder.message(), "Placeholder error");
    assert_eq!(parse_error("x y").message(), "Parse Error Unable to parse levelspec for x y");
    assert_eq!(
        LevelSpecterError::RelToAbsError("why".to_string()).message(),
        "RelToAbs Error: why"
    );
}

#[test]
fn constructors_store_names_as_the_mode_asks() {
    assert_eq!(LevelSpec::from_show("dev01").show, term("DEV01"));
    assert_eq!(LevelSpec::from_show_with_mode("dev01", CaseMode::Strict).show, term("DEV01"));
    assert_eq!(LevelSpec::from_show_with_mode("dev01", CaseMode::Relaxed).show, term("dev01"));
    assert_eq!(
        LevelSpec::from_sequence("dev01", "rd"),
        LevelSpec { show: term("DEV01"), sequence: Some(term("RD")), shot: None }
    );
    assert_eq!(
        LevelSpec::from_shot("dev01", "", "%"),
        LevelSpec {
            show: term("DEV01"),
            sequence: Some(LevelType::Relative),
            shot: Some(LevelType::Wildcard),
        }
    );
}
