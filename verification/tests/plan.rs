use service_logger::parse_env;
use service_logger::plan::{SinkKind, config_console_appender, config_file_appender, create_loggers,
    log_path, rotated_path, silent_plan};
use service_logger::Level;

#[test]
fn console_plan_contents() {
    let directives = parse_env("crate1=debug,crate2");
    let p = config_console_appender("svc", directives);
    let sink = p.sink.expect("console plan has a sink");
    assert_eq!(sink.name, "stdout".to_string());
    assert!(matches!(sink.kind, SinkKind::Console));
    assert_eq!(sink.pattern, "[svc]: {d} - {l} - {m}{n}".to_string());
    assert_eq!(p.loggers.len(), 2);
    assert_eq!(p.loggers[0].name, "crate1".to_string());
    assert_eq!(p.loggers[0].level, Level::Debug);
    assert_eq!(p.loggers[0].appender, "stdout".to_string());
    assert!(!p.loggers[0].additive);
    assert_eq!(p.loggers[1].name, "crate2".to_string());
    assert_eq!(p.loggers[1].level, Level::Info);
    assert_eq!(p.root_appender, Some("stdout".to_string()));
    assert_eq!(p.root_level, Level::Info);
}

#[test]
fn file_plan_contents() {
    let directives = parse_env("crate1=trace");
    let p = config_file_appender("logs/svc.log", directives);
    let sink = p.sink.expect("file plan has a sink");
    assert_eq!(sink.name, "requests".to_string());
    match sink.kind {
        SinkKind::File { path } => assert_eq!(path, "logs/svc.log".to_string()),
        SinkKind::Console => panic!("file plan must have a file sink"),
    }
    assert_eq!(
        sink.pattern,
        "{d(%Y-%m-%d - %H:%M:%S)} | {t:20.20} - {L:5} | {l:5} - {m}{n}".to_string()
    );
    assert_eq!(p.loggers.len(), 1);
    assert_eq!(p.loggers[0].appender, "requests".to_string());
    assert_eq!(p.root_appender, Some("requests".to_string()));
    assert_eq!(p.root_level, Level::Info);
}

#[test]
fn empty_directives_make_no_loggers() {
    let p = config_console_appender("svc", Vec::new());
    assert!(p.loggers.is_empty());
}

#[test]
fn loggers_from_directives() {
    let directives = parse_env("a=warn,b=error");
    let loggers = create_loggers(directives, "sinkname");
    assert_eq!(loggers.len(), 2);
    assert_eq!(loggers[0].name, "a".to_string());
    assert_eq!(loggers[0].level, Level::Warn);
    assert_eq!(loggers[0].appender, "sinkname".to_string());
    assert!(!loggers[0].additive);
    assert_eq!(loggers[1].name, "b".to_string());
    assert_eq!(loggers[1].level, Level::Error);
}

#[test]
fn silent_plan_contents() {
    let p = silent_plan();
    assert!(p.sink.is_none());
    assert!(p.loggers.is_empty());
    assert!(p.root_appender.is_none());
    assert_eq!(p.root_level, Level::Off);
}

#[test]
fn paths() {
    assert_eq!(log_path("svc"), "logs/svc.log".to_string());
    assert_eq!(
        rotated_path("svc", "_2020-01-02_03-04-05"),
        "logs/svc_2020-01-02_03-04-05.log".to_string()
    );
}
