use crate::config::rules_view;
use crate::error::DynLogAPIErr;
use crate::level::{spec_filter_of, Level, LevelFilter};
use std::str::FromStr;
use tracing_subscriber::filter::LevelFilter as F;
use tracing_subscriber::filter::{ParseError, Targets};
use vstd::prelude::*;

verus! {

/// A compiled module filter: each module-path prefix with the most verbose
/// severity it lets through, and the severity for modules that match none.
#[derive(Debug)]
pub struct FilterPlan {
    pub targets: Vec<(String, LevelFilter)>,
    pub default: Option<LevelFilter>,
}

/// What a filter states: its per-module directives and its default.
pub type FilterModel = (Seq<(Seq<char>, LevelFilter)>, Option<LevelFilter>);

impl FilterPlan {
    pub open spec fn model(&self) -> FilterModel {
        (self.targets@.map_values(|t: (String, LevelFilter)| (t.0@, t.1)), self.default)
    }
}

/// The filter that the module-rule grammar compiles `rules` to, or `None`
/// where some rule does not follow it.
pub uninterp spec fn compiled_rules(rules: Seq<Seq<char>>) -> Option<FilterModel>;

/// Relies on `Targets::from_str` of tracing_subscriber, which compiles the
/// comma-joined rules, and on `Targets::into_iter` and `Targets::default_level`,
/// which hand back the per-module directives and the default of what it built.
#[verifier::external_body]
fn compile_targets(rules: &Vec<String>) -> (r: Result<FilterPlan, ParseError>)
    ensures
        match r {
            Ok(p) => compiled_rules(rules_view(rules@)) == Some(p.model()),
            Err(_) => compiled_rules(rules_view(rules@)) is None,
        },
{
    let lf = |l: F| if l == F::OFF { LevelFilter::Off } else if l == F::ERROR { LevelFilter::Error }
        else if l == F::WARN { LevelFilter::Warn } else if l == F::INFO { LevelFilter::Info }
        else if l == F::DEBUG { LevelFilter::Debug } else { LevelFilter::Trace };
    let t = Targets::from_str(&rules.join(","))?;
    let default = t.default_level().map(lf);
    Ok(FilterPlan { targets: t.into_iter().map(|(n, l)| (n, lf(l))).collect(), default })
}

/// The filter that lets every module through at `level`.
pub open spec fn severity_only(level: Level) -> FilterModel {
    (Seq::empty(), Some(spec_filter_of(level)))
}

/// The console policy: the compiled rules where they compile to at least one
/// module directive, and otherwise the global severity alone.
pub open spec fn console_model(rules: Seq<Seq<char>>, level: Level) -> FilterModel {
    match compiled_rules(rules) {
        Some(m) => if m.0.len() > 0 { m } else { severity_only(level) },
        None => severity_only(level),
    }
}

/// The stream logger's module scoping, where its rules compile to at least one
/// module directive.
pub open spec fn scoping_model(rules: Seq<Seq<char>>) -> Option<FilterModel> {
    match compiled_rules(rules) {
        Some(m) => if m.0.len() > 0 { Some(m) } else { None },
        None => None,
    }
}

/// The filter of a file sink: an invalid rule set fails the sink.
pub fn compile_file_filter(rules: &Vec<String>) -> (r: Result<FilterPlan, DynLogAPIErr>)
    ensures
        r is Ok <==> compiled_rules(rules_view(rules@)) is Some,
        r matches Ok(p) ==> compiled_rules(rules_view(rules@)) == Some(p.model()),
        r matches Err(e) ==> e is TargetParseError,
{
    match compile_targets(rules) {
        Ok(p) => Ok(p),
        Err(e) => Err(DynLogAPIErr::TargetParseError(e)),
    }
}

/// The module scoping of the console sink, if its rules give any.
pub fn compile_scoping(rules: &Vec<String>) -> (r: Option<FilterPlan>)
    ensures
        r is Some <==> scoping_model(rules_view(rules@)) is Some,
        r matches Some(p) ==> scoping_model(rules_view(rules@)) == Some(p.model()),
{
    match compile_targets(rules) {
        Ok(p) => if p.targets.len() > 0 { Some(p) } else { None },
        Err(_) => None,
    }
}

/// The filter of the console sink: an empty or invalid rule set falls back to
/// the global severity, so that the console never goes silent.
pub fn compile_console_filter(rules: &Vec<String>, level: Level) -> (r: FilterPlan)
    ensures
        r.model() == console_model(rules_view(rules@), level),
{
    match compile_scoping(rules) {
        Some(p) => p,
        None => {
            let r = FilterPlan { targets: Vec::new(), default: Some(LevelFilter::from_level(level)) };
            assert(r.model().0 =~= Seq::<(Seq<char>, LevelFilter)>::empty());
            r
        },
    }
}

/// Rules that do not compile leave the console filtering by the global
/// severity alone, with no module override.
pub proof fn lemma_console_fails_open(rules: Seq<Seq<char>>, level: Level)
    requires
        compiled_rules(rules) is None,
    ensures
        console_model(rules, level) == severity_only(level),
        console_model(rules, level).0.len() == 0,
{
}

/// The same modules as `m`, each silenced, with `level` for the rest.
pub open spec fn silenced_model(m: FilterModel, level: Level) -> FilterModel {
    (m.0.map_values(|t: (Seq<char>, LevelFilter)| (t.0, LevelFilter::Off)), Some(spec_filter_of(level)))
}

/// A filter that silences every module that `p` names and lets the others
/// through at `level`.
pub fn silence_targets(p: FilterPlan, level: Level) -> (r: FilterPlan)
    ensures
        r.model() == silenced_model(p.model(), level),
{
    let ghost old_model = p.model();
    let mut targets: Vec<(String, LevelFilter)> = Vec::new();
    let mut src = p.targets;
    let n = src.len();
    let mut i: usize = 0;
    while i < n
        invariant
            n == old_model.0.len(),
            i <= n,
            src@.len() == n,
            forall|j: int| i <= j < n ==> (#[trigger] src@[j]).0@ == old_model.0[j].0,
            targets@.len() == i,
            forall|j: int| 0 <= j < i ==> (#[trigger] targets@[j]).0@ == old_model.0[j].0
                && targets@[j].1 == LevelFilter::Off,
        decreases n - i,
    {
        let name = src[i].0.clone();
        targets.push((name, LevelFilter::Off));
        i = i + 1;
    }
    let r = FilterPlan { targets, default: Some(LevelFilter::from_level(level)) };
    assert(r.model().0 =~= silenced_model(old_model, level).0);
    r
}

} // verus!
