use crate::level::Level;
use vstd::prelude::*;

verus! {

/// How a sink renders a record.
#[derive(Clone, Copy, Debug, PartialEq, Eq, Structural)]
pub enum LogFormat {
    Full,
    Compact,
    Pretty,
    Json,
}

/// The switch, format and metadata flags that every sink record carries.
#[derive(Clone, Copy, Debug, PartialEq, Eq, Structural)]
pub struct LogOptions {
    pub enabled: bool,
    pub format: LogFormat,
    pub file: bool,
    pub line_number: bool,
    pub thread_name: bool,
    pub thread_id: bool,
}

/// The global section: master switch and minimum severity.
#[derive(Clone, Copy, Debug, PartialEq, Eq, Structural)]
pub struct GlobalLogger {
    pub options: LogOptions,
    pub log_level: Level,
}

/// The console sink.
#[derive(Debug)]
pub struct StreamLogger {
    pub options: LogOptions,
    pub color: bool,
    pub modules: Vec<String>,
}

/// One file sink: records go to `path/filename`.
#[derive(Debug)]
pub struct FileLogger {
    pub options: LogOptions,
    pub path: String,
    pub filename: String,
    pub modules: Vec<String>,
}

/// The whole configuration file.
#[derive(Debug)]
pub struct LogConfig {
    pub global: GlobalLogger,
    pub stream_logger: StreamLogger,
    pub file_logger: Option<Vec<FileLogger>>,
}

/// The module rules as character sequences.
pub open spec fn rules_view(rules: Seq<String>) -> Seq<Seq<char>> {
    rules.map_values(|s: String| s@)
}

/// A copy of a list of strings.
pub fn copy_strings(v: &Vec<String>) -> (r: Vec<String>)
    ensures
        r@ == v@,
{
    let mut r: Vec<String> = Vec::new();
    let mut i: usize = 0;
    while i < v.len()
        invariant
            i <= v.len(),
            r@ == v@.subrange(0, i as int),
        decreases v.len() - i,
    {
        r.push(v[i].clone());
        i = i + 1;
    }
    assert(r@ =~= v@);
    r
}

} // verus!
