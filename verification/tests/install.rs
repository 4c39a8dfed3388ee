use service_logger::{InitConfigOutcome, InstallOutcome, LogFavour, init, init_config,
    init_console, silent};

#[test]
fn one_shot_install_and_file_plan() {
    // A file favour only builds the plan; it installs nothing, so the
    // initialization slot is still free afterwards.
    let prepared = init_config(&LogFavour::File("svc"), "crate1=debug");
    match prepared {
        InitConfigOutcome::File(p) => {
            let sink = p.sink.expect("file plan has a sink");
            assert_eq!(sink.name, "requests".to_string());
        }
        InitConfigOutcome::Console(_) => panic!("a file favour must hand the plan back"),
    }

    // The first console installation wins the process-wide slot.
    let first = init_console("svc", "crate1=debug");
    assert_eq!(first, InstallOutcome::Installed);

    // Every later initialization request of any kind is a no-op.
    let second = init_console("svc", "crate2=trace");
    assert_eq!(second, InstallOutcome::AlreadyInitialized);
    match init_config(&LogFavour::Stdout("other"), "") {
        InitConfigOutcome::Console(outcome) => {
            assert_eq!(outcome, InstallOutcome::AlreadyInitialized)
        }
        InitConfigOutcome::File(_) => panic!("a console favour must install"),
    }
    init();
    silent();

    // A configuration the backend refuses (two loggers of one name) is
    // rejected at the build, whether or not the slot is already taken.
    let rejected = init_console("svc", "dup=debug,dup=info");
    assert_eq!(rejected, InstallOutcome::Rejected);
}
