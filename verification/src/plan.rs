use vstd::prelude::*;
use crate::level::Level;
use crate::parse::Directive;

verus! {

/// Mathematical view of one per-module logger.
#[verifier::ext_equal]
pub struct LoggerV {
    pub name: Seq<char>,
    pub level: Level,
    pub appender: Seq<char>,
    pub additive: bool,
}

/// Mathematical view of the sink kind.
#[verifier::ext_equal]
pub enum SinkKindV {
    Console,
    File { path: Seq<char> },
}

/// Mathematical view of the one named sink of a configuration.
#[verifier::ext_equal]
pub struct SinkV {
    pub name: Seq<char>,
    pub kind: SinkKindV,
    pub pattern: Seq<char>,
}

/// Mathematical view of a whole configuration.
#[verifier::ext_equal]
pub struct PlanV {
    pub sink: Option<SinkV>,
    pub loggers: Seq<LoggerV>,
    pub root_appender: Option<Seq<char>>,
    pub root_level: Level,
}

/// One per-module logger of a configuration: scoped to a module name, routed
/// to a named appender; non-additive, so records of that module are not also
/// duplicated through the root.
pub struct LoggerSpec {
    pub name: String,
    pub level: Level,
    pub appender: String,
    pub additive: bool,
}

impl View for LoggerSpec {
    type V = LoggerV;

    open spec fn view(&self) -> LoggerV {
        LoggerV { name: self.name@, level: self.level, appender: self.appender@, additive: self.additive }
    }
}

/// The kind of sink a configuration writes to.
pub enum SinkKind {
    Console,
    File { path: String },
}

impl View for SinkKind {
    type V = SinkKindV;

    open spec fn view(&self) -> SinkKindV {
        match self {
            SinkKind::Console => SinkKindV::Console,
            SinkKind::File { path } => SinkKindV::File { path: path@ },
        }
    }
}

/// The one named sink of a configuration, with its line pattern.
pub struct SinkSpec {
    pub name: String,
    pub kind: SinkKind,
    pub pattern: String,
}

impl View for SinkSpec {
    type V = SinkV;

    open spec fn view(&self) -> SinkV {
        SinkV { name: self.name@, kind: self.kind@, pattern: self.pattern@ }
    }
}

/// A whole logging configuration, rebuilt wholesale on every
/// (re)configuration: at most one named sink, the per-module loggers, and
/// the root fallback.
pub struct ConfigPlan {
    pub sink: Option<SinkSpec>,
    pub loggers: Vec<LoggerSpec>,
    pub root_appender: Option<String>,
    pub root_level: Level,
}

impl View for ConfigPlan {
    type V = PlanV;

    open spec fn view(&self) -> PlanV {
        PlanV {
            sink: match self.sink {
                Some(s) => Some(s@),
                None => None,
            },
            loggers: self.loggers@.map_values(|l: LoggerSpec| l@),
            root_appender: match self.root_appender {
                Some(a) => Some(a@),
                None => None,
            },
            root_level: self.root_level,
        }
    }
}

/// One non-additive logger per directive, each routed to `appender`.
pub open spec fn spec_create_loggers(dirs: Seq<(Seq<char>, Level)>, appender: Seq<char>) -> Seq<LoggerV> {
    dirs.map_values(|d: (Seq<char>, Level)| LoggerV { name: d.0, level: d.1, appender: appender, additive: false })
}

/// The console line pattern: the service name as a prefix, then timestamp,
/// level and message.
pub open spec fn console_pattern(service: Seq<char>) -> Seq<char> {
    "["@ + service + "]: {d} - {l} - {m}{n}"@
}

/// The file line pattern: timestamp, thread tag, target line, level, message.
pub open spec fn file_pattern() -> Seq<char> {
    "{d(%Y-%m-%d - %H:%M:%S)} | {t:20.20} - {L:5} | {l:5} - {m}{n}"@
}

/// The console configuration: one sink named `stdout`, the per-module
/// loggers routed to it, and the root at `Info` through it.
pub open spec fn spec_console_plan(service: Seq<char>, dirs: Seq<(Seq<char>, Level)>) -> PlanV {
    PlanV {
        sink: Some(SinkV { name: "stdout"@, kind: SinkKindV::Console, pattern: console_pattern(service) }),
        loggers: spec_create_loggers(dirs, "stdout"@),
        root_appender: Some("stdout"@),
        root_level: Level::Info,
    }
}

/// The file configuration: one sink named `requests` at `path`, the
/// per-module loggers routed to it, and the root at `Info` through it.
pub open spec fn spec_file_plan(path: Seq<char>, dirs: Seq<(Seq<char>, Level)>) -> PlanV {
    PlanV {
        sink: Some(SinkV { name: "requests"@, kind: SinkKindV::File { path: path }, pattern: file_pattern() }),
        loggers: spec_create_loggers(dirs, "requests"@),
        root_appender: Some("requests"@),
        root_level: Level::Info,
    }
}

/// The suppressed configuration: no sink, no loggers, root at `Off`.
pub open spec fn spec_silent_plan() -> PlanV {
    PlanV { sink: None, loggers: Seq::empty(), root_appender: None, root_level: Level::Off }
}

/// The fixed live-file path of a service: `logs/<service_name>.log`.
pub open spec fn spec_log_path(service: Seq<char>) -> Seq<char> {
    "logs/"@ + service + ".log"@
}

/// The rotated-file path: the live name with a timestamp inserted.
pub open spec fn spec_rotated_path(service: Seq<char>, stamp: Seq<char>) -> Seq<char> {
    "logs/"@ + service + stamp + ".log"@
}

/// Build one non-additive logger per directive, routed to `appender`.
pub fn create_loggers(directives: Vec<Directive>, appender: &str) -> (loggers: Vec<LoggerSpec>)
    ensures
        loggers@.map_values(|l: LoggerSpec| l@) == spec_create_loggers(
            directives@.map_values(|d: Directive| d@),
            appender@,
        ),
{
    let ghost dv = directives@.map_values(|d: Directive| d@);
    let mut loggers: Vec<LoggerSpec> = Vec::new();
    let mut i: usize = 0;
    proof {
        assert(loggers@.map_values(|l: LoggerSpec| l@) =~= spec_create_loggers(
            dv.take(0),
            appender@,
        ));
    }
    while i < directives.len()
        invariant
            i <= directives@.len(),
            dv == directives@.map_values(|d: Directive| d@),
            loggers@.map_values(|l: LoggerSpec| l@) == spec_create_loggers(
                dv.take(i as int),
                appender@,
            ),
        decreases directives@.len() - i,
    {
        let d = &directives[i];
        let entry = LoggerSpec {
            name: d.name.clone(),
            level: d.level,
            appender: appender.to_owned(),
            additive: false,
        };
        proof {
            assert(spec_create_loggers(dv.take(i as int + 1), appender@) =~= spec_create_loggers(
                dv.take(i as int),
                appender@,
            ).push(entry@));
            assert((loggers@.push(entry)).map_values(|l: LoggerSpec| l@) =~= loggers@.map_values(
                |l: LoggerSpec| l@,
            ).push(entry@));
        }
        loggers.push(entry);
        i += 1;
    }
    proof {
        assert(dv.take(directives@.len() as int) =~= dv);
    }
    loggers
}

/// Build the console configuration for a service: one console sink whose
/// pattern prefixes the service name, a non-additive logger per directive,
/// and the root at `Info`.
pub fn config_console_appender(service_name: &str, directives: Vec<Directive>) -> (p: ConfigPlan)
    ensures
        p@ == spec_console_plan(service_name@, directives@.map_values(|d: Directive| d@)),
{
    let pattern = String::from_str("[").concat(service_name).concat("]: {d} - {l} - {m}{n}");
    let loggers = create_loggers(directives, "stdout");
    let p = ConfigPlan {
        sink: Some(SinkSpec { name: String::from_str("stdout"), kind: SinkKind::Console, pattern }),
        loggers,
        root_appender: Some(String::from_str("stdout")),
        root_level: Level::Info,
    };
    proof {
        assert(p@ =~~= spec_console_plan(service_name@, directives@.map_values(|d: Directive| d@)));
    }
    p
}

/// Build the file configuration at `file_path`: one file sink, a
/// non-additive logger per directive, and the root at `Info`.
pub fn config_file_appender(file_path: &str, directives: Vec<Directive>) -> (p: ConfigPlan)
    ensures
        p@ == spec_file_plan(file_path@, directives@.map_values(|d: Directive| d@)),
{
    let pattern = String::from_str("{d(%Y-%m-%d - %H:%M:%S)} | {t:20.20} - {L:5} | {l:5} - {m}{n}");
    let loggers = create_loggers(directives, "requests");
    let p = ConfigPlan {
        sink: Some(SinkSpec {
            name: String::from_str("requests"),
            kind: SinkKind::File { path: file_path.to_owned() },
            pattern,
        }),
        loggers,
        root_appender: Some(String::from_str("requests")),
        root_level: Level::Info,
    };
    proof {
        assert(p@ =~~= spec_file_plan(file_path@, directives@.map_values(|d: Directive| d@)));
    }
    p
}

/// Build the suppressed configuration: no sink, root at `Off`.
pub fn silent_plan() -> (p: ConfigPlan)
    ensures
        p@ == spec_silent_plan(),
{
    let p = ConfigPlan {
        sink: None,
        loggers: Vec::new(),
        root_appender: None,
        root_level: Level::Off,
    };
    proof {
        assert(p@ =~~= spec_silent_plan());
    }
    p
}

/// The live-file path of a service: `logs/<service_name>.log`.
pub fn log_path(service_name: &str) -> (r: String)
    ensures
        r@ == spec_log_path(service_name@),
{
    String::from_str("logs/").concat(service_name).concat(".log")
}

/// The rotated-file path of a service for a timestamp suffix.
pub fn rotated_path(service_name: &str, stamp: &str) -> (r: String)
    ensures
        r@ == spec_rotated_path(service_name@, stamp@),
{
    String::from_str("logs/").concat(service_name).concat(stamp).concat(".log")
}

} // verus!
