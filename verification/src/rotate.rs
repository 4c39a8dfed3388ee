use vstd::prelude::*;
use crate::level::Level;
use crate::parse::Directive;
use crate::plan::{ConfigPlan, PlanV, SinkKindV, spec_file_plan, spec_log_path, log_path,
    config_file_appender};

verus! {

/// What the rotation coordinator does once the rename attempt of one trigger
/// has ended: keep the live configuration, or install a rebuilt one.
pub enum RotationAction {
    Keep,
    Install(ConfigPlan),
}

/// Decide one rotation trigger after the rename attempt. A failed rename
/// abandons the attempt and keeps the live configuration untouched; a
/// successful one rebuilds the file configuration from the directive set
/// captured at startup, pointing again at the fixed live-file path.
pub fn rotation_step(service_name: &str, directives: Vec<Directive>, rename_ok: bool) -> (a: RotationAction)
    ensures
        (!rename_ok ==> a is Keep),
        (rename_ok ==> (a matches RotationAction::Install(p) && p@ == spec_file_plan(
            spec_log_path(service_name@),
            directives@.map_values(|d: Directive| d@),
        ))),
{
    if !rename_ok {
        RotationAction::Keep
    } else {
        let live = log_path(service_name);
        RotationAction::Install(config_file_appender(live.as_str(), directives))
    }
}

/// After a successful rotation the rebuilt configuration points again at the
/// fixed live-file path: subsequent writes go to a fresh file at the
/// original live path, whatever the directive set.
pub proof fn lemma_rotation_keeps_live_path(service: Seq<char>, dirs: Seq<(Seq<char>, Level)>)
    ensures
        (spec_file_plan(spec_log_path(service), dirs).sink matches Some(sk)
            && sk.kind matches SinkKindV::File { path } && path == spec_log_path(service)),
{
}

} // verus!
