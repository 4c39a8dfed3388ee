use service_logger::latch::InitLatch;
use service_logger::parse_env;
use service_logger::plan::{SinkKind, config_console_appender, silent_plan};
use service_logger::rotate::{RotationAction, rotation_step};
use service_logger::Level;

#[test]
fn failed_rename_keeps_live_configuration() {
    let directives = parse_env("crate1=debug");
    let action = rotation_step("svc", directives, false);
    assert!(matches!(action, RotationAction::Keep));
}

#[test]
fn successful_rename_rebuilds_at_live_path() {
    let directives = parse_env("crate1=debug");
    let action = rotation_step("svc", directives, true);
    match action {
        RotationAction::Install(p) => {
            let sink = p.sink.expect("rebuilt plan has a sink");
            match sink.kind {
                SinkKind::File { path } => assert_eq!(path, "logs/svc.log".to_string()),
                SinkKind::Console => panic!("rebuilt plan must point at the file"),
            }
            assert_eq!(p.loggers.len(), 1);
            assert_eq!(p.loggers[0].name, "crate1".to_string());
            assert_eq!(p.loggers[0].level, Level::Debug);
        }
        RotationAction::Keep => panic!("a successful rename must install a rebuilt plan"),
    }
}

#[test]
fn initialization_is_one_shot() {
    let mut latch = InitLatch::new();
    let first = config_console_appender("svc", parse_env("a=debug"));
    let performed = latch.initialize(first);
    assert!(performed);

    let second = silent_plan();
    let performed_again = latch.initialize(second);
    assert!(!performed_again);

    let installed = latch.installed.expect("slot stays filled");
    let sink = installed.sink.expect("first plan stays installed");
    assert_eq!(sink.name, "stdout".to_string());
}
