use service_logger::{EntryOutcome, Level, level_from_str, parse_env, parse_env_outcomes};

#[test]
fn parse_env_valid() {
    let directives = parse_env("crate1::mod1,crate1::mod2=debug,crate2=trace");
    assert_eq!(directives.len(), 3);
    assert_eq!(directives[0].name, "crate1::mod1".to_string());
    assert_eq!(directives[0].level, Level::Info);

    assert_eq!(directives[1].name, "crate1::mod2".to_string());
    assert_eq!(directives[1].level, Level::Debug);

    assert_eq!(directives[2].name, "crate2".to_string());
    assert_eq!(directives[2].level, Level::Trace);
}

#[test]
fn parse_env_invalid_crate() {
    let directives = parse_env("crate1::mod=warn=info,crate2=warn");
    assert_eq!(directives.len(), 1);
    assert_eq!(directives[0].name, "crate2".to_string());
    assert_eq!(directives[0].level, Level::Warn);
}

#[test]
fn parse_env_invalid_level() {
    let directives = parse_env("crate1::mod=wrong,crate2=error");
    assert_eq!(directives.len(), 1);
    assert_eq!(directives[0].name, "crate2".to_string());
    assert_eq!(directives[0].level, Level::Error);
}

#[test]
fn parse_env_empty() {
    let directives = parse_env("crate1::mod=,=trace");
    assert_eq!(directives.len(), 1);
    assert_eq!(directives[0].name, "crate1::mod".to_string());
    assert_eq!(directives[0].level, Level::Info);
}

#[test]
fn parse_env_empty_spec() {
    assert!(parse_env("").is_empty());
    assert!(parse_env(",,,").is_empty());
}

#[test]
fn parse_env_single_valid_each_level() {
    let cases = [
        ("m=off", Level::Off),
        ("m=error", Level::Error),
        ("m=warn", Level::Warn),
        ("m=info", Level::Info),
        ("m=debug", Level::Debug),
        ("m=trace", Level::Trace),
    ];
    for (input, level) in cases {
        let directives = parse_env(input);
        assert_eq!(directives.len(), 1);
        assert_eq!(directives[0].name, "m".to_string());
        assert_eq!(directives[0].level, level);
    }
}

#[test]
fn parse_env_level_case_insensitive() {
    let directives = parse_env("a=DEBUG,b=Trace,c=wArN");
    assert_eq!(directives.len(), 3);
    assert_eq!(directives[0].level, Level::Debug);
    assert_eq!(directives[1].level, Level::Trace);
    assert_eq!(directives[2].level, Level::Warn);
}

#[test]
fn parse_env_bare_level_skipped() {
    assert!(parse_env("info").is_empty());
    let directives = parse_env("debug,crate1=warn");
    assert_eq!(directives.len(), 1);
    assert_eq!(directives[0].name, "crate1".to_string());
    assert_eq!(directives[0].level, Level::Warn);
}

#[test]
fn parse_env_trailing_equals_means_info() {
    let directives = parse_env("crate1::mod=");
    assert_eq!(directives.len(), 1);
    assert_eq!(directives[0].name, "crate1::mod".to_string());
    assert_eq!(directives[0].level, Level::Info);
}

#[test]
fn parse_env_level_field_trimmed() {
    let directives = parse_env("crate1= debug ,crate2=  ");
    assert_eq!(directives.len(), 2);
    assert_eq!(directives[0].name, "crate1".to_string());
    assert_eq!(directives[0].level, Level::Debug);
    assert_eq!(directives[1].name, "crate2".to_string());
    assert_eq!(directives[1].level, Level::Info);
}

#[test]
fn parse_env_whitespace_name_dropped() {
    assert!(parse_env("  =debug").is_empty());
    assert!(parse_env(" , ").is_empty());
}

#[test]
fn entry_outcomes_classification() {
    let outcomes = parse_env_outcomes("crate1=debug,info,crate2=wrong,a=b=c,,x");
    assert_eq!(outcomes.len(), 6);
    match &outcomes[0] {
        EntryOutcome::Keep(d) => {
            assert_eq!(d.name, "crate1".to_string());
            assert_eq!(d.level, Level::Debug);
        }
        _ => panic!("a valid entry is kept"),
    }
    match &outcomes[1] {
        EntryOutcome::WarnBareLevel(t) => assert_eq!(t, "info"),
        _ => panic!("a bare level warns"),
    }
    match &outcomes[2] {
        EntryOutcome::WarnInvalidLevel(t) => assert_eq!(t, "wrong"),
        _ => panic!("an invalid level warns"),
    }
    match &outcomes[3] {
        EntryOutcome::WarnMalformed(t) => assert_eq!(t, "a=b=c"),
        _ => panic!("a three-field entry warns"),
    }
    assert!(matches!(&outcomes[4], EntryOutcome::Dropped));
    match &outcomes[5] {
        EntryOutcome::Keep(d) => {
            assert_eq!(d.name, "x".to_string());
            assert_eq!(d.level, Level::Info);
        }
        _ => panic!("a bare module name is kept at Info"),
    }
}

#[test]
fn level_from_str_values() {
    assert_eq!(level_from_str("off"), Some(Level::Off));
    assert_eq!(level_from_str("ERROR"), Some(Level::Error));
    assert_eq!(level_from_str("Warn"), Some(Level::Warn));
    assert_eq!(level_from_str("info"), Some(Level::Info));
    assert_eq!(level_from_str("DeBuG"), Some(Level::Debug));
    assert_eq!(level_from_str("trace"), Some(Level::Trace));
    assert_eq!(level_from_str("wrong"), None);
    assert_eq!(level_from_str(""), None);
    assert_eq!(level_from_str(" info"), None);
}
