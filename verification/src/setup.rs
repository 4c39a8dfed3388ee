use vstd::prelude::*;
use crate::level::Level;
use crate::parse::{directives_of, parse_env};
use crate::plan::{ConfigPlan, LoggerSpec, config_console_appender, config_file_appender,
    log_path, silent_plan, spec_file_plan, spec_log_path};

verus! {

/// Destination of the process log: the console, or a rotating file under
/// `logs/`; each carries the service name.
pub enum LogFavour<'a> {
    Stdout(&'a str),
    File(&'a str),
}

/// How an attempt to install a configuration as the process logger ended.
#[derive(Clone, Copy, Debug, PartialEq, Eq, Structural)]
pub enum InstallOutcome {
    /// This call installed the configuration.
    Installed,
    /// A logger was already installed; the call changed nothing.
    AlreadyInitialized,
    /// The logging backend refused the configuration.
    Rejected,
}

/// What building an initial configuration for a favour comes to: a console
/// configuration is installed here; a file configuration is handed back,
/// since creating the file sink is I/O and is the caller's.
pub enum InitConfigOutcome {
    Console(InstallOutcome),
    File(ConfigPlan),
}

/// The `log` crate's level-filter type, opaque here; it only crosses the
/// trusted signatures below.
#[verifier::external_type_specification]
#[verifier::external_body]
pub struct ExLogLevelFilter(log::LevelFilter);

/// log4rs's per-module logger type, opaque here; built by `make_logger` and
/// handed on to `install_console`.
#[verifier::external_type_specification]
#[verifier::external_body]
pub struct ExLogger(log4rs::config::Logger);

/// Relies on the `log` crate's `LevelFilter` variants: maps each level of
/// this library to the like-named one of `log`.
#[verifier::external_body]
fn to_log_level(level: &Level) -> log::LevelFilter {
    match level {
        Level::Off => log::LevelFilter::Off,
        Level::Error => log::LevelFilter::Error,
        Level::Warn => log::LevelFilter::Warn,
        Level::Info => log::LevelFilter::Info,
        Level::Debug => log::LevelFilter::Debug,
        Level::Trace => log::LevelFilter::Trace,
    }
}

/// Relies on log4rs's `Logger::builder`: builds a per-module logger with the
/// given scope name, appender, additivity and level.
#[verifier::external_body]
fn make_logger(name: &str, appender: &str, additive: bool, level: log::LevelFilter) -> log4rs::config::Logger {
    log4rs::config::Logger::builder()
        .appender(appender.to_owned())
        .additive(additive)
        .build(name.to_owned(), level)
}

/// Relies on log4rs: builds a console appender with the given line pattern,
/// a configuration holding that appender under `appender_name`, the given
/// per-module loggers and a root through `root_appender` at `root_level`,
/// and installs it as the process logger. `Installed` means this call won
/// the one initialization slot; `AlreadyInitialized` that `init_config`
/// returned its already-set error; `Rejected` that `Config::build` refused
/// the configuration (for instance, a duplicated logger name).
#[verifier::external_body]
fn install_console(
    pattern: &str,
    appender_name: &str,
    loggers: Vec<log4rs::config::Logger>,
    root_appender: &str,
    root_level: log::LevelFilter,
) -> InstallOutcome {
    let sink = log4rs::append::console::ConsoleAppender::builder()
        .encoder(Box::new(log4rs::encode::pattern::PatternEncoder::new(pattern)))
        .build();
    let builder = log4rs::config::Config::builder()
        .appender(log4rs::config::Appender::builder().build(appender_name, Box::new(sink)))
        .loggers(loggers);
    let root = log4rs::config::Root::builder().appender(root_appender).build(root_level);
    match builder.build(root) {
        Err(_) => InstallOutcome::Rejected,
        Ok(config) => match log4rs::init_config(config) {
            Ok(_) => InstallOutcome::Installed,
            Err(_) => InstallOutcome::AlreadyInitialized,
        },
    }
}

/// Relies on log4rs: builds a configuration with no appender and a root at
/// `root_level`, and installs it as the process logger; the outcomes are as
/// in `install_console`.
#[verifier::external_body]
fn install_root_only(root_level: log::LevelFilter) -> InstallOutcome {
    let root = log4rs::config::Root::builder().build(root_level);
    match log4rs::config::Config::builder().build(root) {
        Err(_) => InstallOutcome::Rejected,
        Ok(config) => match log4rs::init_config(config) {
            Ok(_) => InstallOutcome::Installed,
            Err(_) => InstallOutcome::AlreadyInitialized,
        },
    }
}

/// Turn the per-module loggers of a plan into the backend's loggers.
fn build_loggers(loggers: &Vec<LoggerSpec>) -> (out: Vec<log4rs::config::Logger>)
    ensures
        out@.len() == loggers@.len(),
{
    let mut out: Vec<log4rs::config::Logger> = Vec::new();
    let mut i: usize = 0;
    while i < loggers.len()
        invariant
            i <= loggers@.len(),
            out@.len() == i,
        decreases loggers@.len() - i,
    {
        let l = &loggers[i];
        let level = to_log_level(&l.level);
        out.push(make_logger(l.name.as_str(), l.appender.as_str(), l.additive, level));
        i += 1;
    }
    out
}

/// Build the console configuration for `service_name` with the overrides of
/// the filter spec `filter`, and install it as the process logger. The slot
/// is one-shot: once any initializer has won it, later calls return
/// `AlreadyInitialized` and change nothing.
pub fn init_console(service_name: &str, filter: &str) -> (r: InstallOutcome) {
    let directives = parse_env(filter);
    let p = config_console_appender(service_name, directives);
    let loggers = build_loggers(&p.loggers);
    let root_level = to_log_level(&p.root_level);
    let sink = p.sink.unwrap();
    let root_appender = p.root_appender.unwrap();
    install_console(
        sink.pattern.as_str(),
        sink.name.as_str(),
        loggers,
        root_appender.as_str(),
        root_level,
    )
}

/// Build the initial configuration for a favour, with the overrides of the
/// filter spec `filter`. A console configuration is installed at once; for a
/// file destination the plan for the fixed live path `logs/<service>.log` is
/// handed back, for the caller to create the file sink and install.
pub fn init_config(favour: &LogFavour, filter: &str) -> (r: InitConfigOutcome)
    ensures
        (favour matches LogFavour::Stdout(_) ==> r is Console),
        (favour matches LogFavour::File(name) ==> (r matches InitConfigOutcome::File(p) && p@
            == spec_file_plan(spec_log_path(name@), directives_of(filter@)))),
{
    match favour {
        LogFavour::Stdout(service_name) => InitConfigOutcome::Console(
            init_console(service_name, filter),
        ),
        LogFavour::File(service_name) => {
            let directives = parse_env(filter);
            let live = log_path(service_name);
            InitConfigOutcome::File(config_file_appender(live.as_str(), directives))
        },
    }
}

/// Console initialization for an unnamed service, as tests use it; no filter
/// spec is read here, so only the root `Info` level applies.
pub fn init() {
    let _outcome = init_console("", "");
}

/// Install a configuration with all output suppressed: no sink, the root at
/// `Off`. One-shot against the same slot as the other initializers, so only
/// one of the two kinds can win it.
pub fn silent() {
    let p = silent_plan();
    let root_level = to_log_level(&p.root_level);
    let _outcome = install_root_only(root_level);
}

} // verus!
