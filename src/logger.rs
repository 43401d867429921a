use crate::config::{copy_strings, rules_view, FileLogger, LogConfig, LogFormat, LogOptions};
use crate::error::DynLogAPIErr;
use crate::filter::{
    compile_console_filter, compile_file_filter, compile_scoping, compiled_rules, console_model,
    scoping_model, silence_targets, silenced_model, FilterPlan,
};
use crate::level::{spec_filter_of, LevelFilter};
use vstd::prelude::*;

verus! {

/// The outcome of reading and decoding the configuration file.
pub enum Loaded {
    /// The file could not be read.
    Unreadable(std::io::Error),
    /// The text was read but is not a valid configuration.
    Malformed(toml::de::Error),
    /// The decoded configuration.
    Parsed(LogConfig),
}

/// Where a built-in sink writes.
#[derive(Debug)]
pub enum Destination {
    Stdout,
    /// A non-rotating file `filename` in `directory`.
    File { directory: String, filename: String },
}

/// A built-in sink stage: destination, formatter settings and module filter.
#[derive(Debug)]
pub struct SinkPlan {
    pub destination: Destination,
    pub format: LogFormat,
    pub ansi: bool,
    pub file: bool,
    pub line_number: bool,
    pub thread_name: bool,
    pub thread_id: bool,
    pub filter: FilterPlan,
}

/// The filter of the catch-all stage.
#[derive(Debug)]
pub enum CatchAllFilter {
    /// Silences the console's modules and lets the rest through at a severity.
    Silencing(FilterPlan),
    /// Directives of the environment, with this severity added.
    FromEnvironment(LevelFilter),
}

/// One stage of the pipeline, ready to be installed.
pub enum Stage<L> {
    Sink(SinkPlan),
    /// A caller-supplied stage, as it was given.
    Supplied(L),
    /// A caller-supplied stage behind the console's module scoping.
    Scoped(L, FilterPlan),
    /// The stage built from the global settings.
    CatchAll { options: LogOptions, filter: CatchAllFilter },
}

/// Whether a plan carries the format and metadata flags of `o`.
pub open spec fn carries(p: SinkPlan, o: LogOptions) -> bool {
    &&& p.format == o.format
    &&& p.file == o.file
    &&& p.line_number == o.line_number
    &&& p.thread_name == o.thread_name
    &&& p.thread_id == o.thread_id
}

/// Whether `s` is the console stage that `c` describes: color only in the
/// full and compact formats, the fail-open module filter.
pub open spec fn is_console_stage<L>(s: Stage<L>, c: LogConfig) -> bool {
    let o = c.stream_logger.options;
    match s {
        Stage::Sink(p) => {
            &&& p.destination is Stdout
            &&& carries(p, o)
            &&& p.ansi == (c.stream_logger.color && (o.format is Full || o.format is Compact))
            &&& p.filter.model() == console_model(rules_view(c.stream_logger.modules@), c.global.log_level)
        },
        _ => false,
    }
}

/// Whether `s` is the stage of file sink `e`: never colored, its own filter.
pub open spec fn is_file_stage<L>(s: Stage<L>, e: FileLogger) -> bool {
    match s {
        Stage::Sink(p) => {
            &&& (p.destination matches Destination::File { directory, filename }
                && directory@ == e.path@ && filename@ == e.filename@)
            &&& carries(p, e.options)
            &&& !p.ansi
            &&& compiled_rules(rules_view(e.modules@)) == Some(p.filter.model())
        },
        _ => false,
    }
}

/// Whether `s` is the catch-all stage that `c` describes.
pub open spec fn is_catch_all<L>(s: Stage<L>, c: LogConfig) -> bool {
    let level = c.global.log_level;
    match s {
        Stage::CatchAll { options, filter } => {
            &&& options == c.global.options
            &&& match scoping_model(rules_view(c.stream_logger.modules@)) {
                Some(m) => (filter matches CatchAllFilter::Silencing(p)
                    && p.model() == silenced_model(m, level)),
                None => filter == CatchAllFilter::FromEnvironment(spec_filter_of(level)),
            }
        },
        _ => false,
    }
}

/// `after` is `before` with one stage added, of which `added` holds.
pub open spec fn appended<L>(before: Seq<Stage<L>>, after: Seq<Stage<L>>, added: spec_fn(Stage<L>) -> bool) -> bool {
    &&& after.len() == before.len() + 1
    &&& after.subrange(0, before.len() as int) == before
    &&& added(after.last())
}

/// The stages after the console sink of `c` is added to `before`.
pub open spec fn stdout_added<L>(c: LogConfig, before: Seq<Stage<L>>, after: Seq<Stage<L>>) -> bool {
    if c.stream_logger.options.enabled {
        appended(before, after, |s: Stage<L>| is_console_stage(s, c))
    } else {
        after == before
    }
}

/// What `init` installs of a logger with configuration `c` and stages `pending`.
pub open spec fn installed<L>(c: LogConfig, pending: Seq<Stage<L>>, r: Seq<Stage<L>>) -> bool {
    if c.global.options.enabled {
        appended(pending, r, |s: Stage<L>| is_catch_all(s, c))
    } else {
        r == pending
    }
}

/// The indices of the enabled file sinks in `v`, in order.
pub open spec fn enabled_indices(v: Seq<FileLogger>, idx: Seq<usize>) -> bool {
    &&& forall|k: int| 0 <= k < idx.len() ==> (#[trigger] idx[k]) < v.len() && v[idx[k] as int].options.enabled
    &&& forall|k: int, m: int| 0 <= k < m < idx.len() ==> idx[k] < idx[m]
    &&& forall|i: int| 0 <= i < v.len() && (#[trigger] v[i]).options.enabled ==> exists|k: int|
        0 <= k < idx.len() && idx[k] == i
}

/// With the global switch off, a logger to which no stage was added installs
/// no stage, even after the console sink was asked for.
pub proof fn lemma_disabled_installs_nothing<L>(
    c: LogConfig,
    after_stdout: Seq<Stage<L>>,
    r: Seq<Stage<L>>,
)
    requires
        !c.global.options.enabled,
        after_stdout == Seq::<Stage<L>>::empty(),
        installed(c, after_stdout, r),
    ensures
        r.len() == 0,
{
}

/// The builder of the pipeline: the configuration and the stages added so far.
pub struct DynamicLogger<L> {
    pub config: LogConfig,
    pub stages: Vec<Stage<L>>,
}

impl<L> DynamicLogger<L> {
    /// A logger over the configuration that `path` held, with no stages yet.
    pub fn new(path: String, loaded: Loaded) -> (r: Result<Self, DynLogAPIErr>)
        ensures
            loaded is Unreadable <==> (r matches Err(DynLogAPIErr::FileReadError { filename, .. })
                && filename@ == path@),
            loaded is Malformed <==> r matches Err(DynLogAPIErr::TomlDeserializeError(_)),
            loaded is Parsed <==> r is Ok,
            loaded matches Loaded::Parsed(c) ==> (r matches Ok(l) && l.config == c && l.stages@.len() == 0),
    {
        match loaded {
            Loaded::Unreadable(source) => Err(DynLogAPIErr::FileReadError { filename: path, source }),
            Loaded::Malformed(e) => Err(DynLogAPIErr::TomlDeserializeError(e)),
            Loaded::Parsed(config) => Ok(DynamicLogger { config, stages: Vec::new() }),
        }
    }

    /// Adds the console sink where the global switch is on.
    pub fn with_stdout(self) -> (r: Result<Self, DynLogAPIErr>)
        ensures
            r matches Ok(l) && l.config == self.config && if self.config.global.options.enabled {
                stdout_added(self.config, self.stages@, l.stages@)
            } else {
                l.stages@ == self.stages@
            },
    {
        let mut s = self;
        if s.config.global.options.enabled {
            s.add_stdout_stage();
        }
        Ok(s)
    }

    /// Adds the console sink, if it is enabled, whatever the global switch.
    pub fn add_stdout_stage(&mut self)
        ensures
            final(self).config == old(self).config,
            stdout_added(old(self).config, old(self).stages@, final(self).stages@),
    {
        let stream = &self.config.stream_logger;
        if !stream.options.enabled {
            return;
        }
        let o = stream.options;
        let ansi = match o.format {
            LogFormat::Full | LogFormat::Compact => stream.color,
            LogFormat::Pretty | LogFormat::Json => false,
        };
        let filter = compile_console_filter(&stream.modules, self.config.global.log_level);
        let plan = SinkPlan {
            destination: Destination::Stdout,
            format: o.format,
            ansi,
            file: o.file,
            line_number: o.line_number,
            thread_name: o.thread_name,
            thread_id: o.thread_id,
            filter,
        };
        self.stages.push(Stage::Sink(plan));
        assert(self.stages@.subrange(0, old(self).stages@.len() as int) =~= old(self).stages@);
    }

    /// The enabled file sinks, by index, or the error that none is declared.
    pub fn filelogger_entries(&self) -> (r: Result<Vec<usize>, DynLogAPIErr>)
        ensures
            self.config.file_logger is None <==> r matches Err(DynLogAPIErr::InitializeFileloggerError),
            self.config.file_logger matches Some(v) ==> (r matches Ok(idx) && enabled_indices(v@, idx@)),
    {
        match &self.config.file_logger {
            None => Err(DynLogAPIErr::InitializeFileloggerError),
            Some(v) => {
                let mut idx: Vec<usize> = Vec::new();
                let mut i: usize = 0;
                while i < v.len()
                    invariant
                        i <= v.len(),
                        forall|k: int| 0 <= k < idx@.len() ==> (#[trigger] idx@[k]) < i && v@[idx@[k] as int].options.enabled,
                        forall|k: int, m: int| 0 <= k < m < idx@.len() ==> idx@[k] < idx@[m],
                        forall|j: int| 0 <= j < i && (#[trigger] v@[j]).options.enabled ==> exists|k: int|
                            0 <= k < idx@.len() && idx@[k] == j,
                    decreases v.len() - i,
                {
                    let ghost old_idx = idx@;
                    if v[i].options.enabled {
                        idx.push(i);
                    }
                    proof {
                        assert forall|j: int| 0 <= j < i + 1 && (#[trigger] v@[j]).options.enabled implies exists|k: int|
                            0 <= k < idx@.len() && idx@[k] == j by {
                            if j < i {
                                let k = choose|k: int| 0 <= k < old_idx.len() && old_idx[k] == j;
                                assert(idx@[k] == j);
                            } else {
                                assert(idx@[idx@.len() - 1] == j);
                            }
                        }
                    }
                    i = i + 1;
                }
                Ok(idx)
            },
        }
    }

    /// The file sinks that `with_file_logger` registers, by index: none where
    /// the global switch is off, else the enabled ones.
    pub fn file_sinks(&self) -> (r: Result<Vec<usize>, DynLogAPIErr>)
        ensures
            !self.config.global.options.enabled ==> (r matches Ok(idx) && idx@.len() == 0),
            self.config.global.options.enabled ==> (self.config.file_logger is None <==> r matches Err(
                DynLogAPIErr::InitializeFileloggerError,
            )),
            self.config.global.options.enabled ==> (self.config.file_logger matches Some(v) ==> (r matches Ok(
                idx,
            ) && enabled_indices(v@, idx@))),
    {
        if self.config.global.options.enabled {
            self.filelogger_entries()
        } else {
            Ok(Vec::new())
        }
    }

    /// Adds file sink `index`, given whether its directory could be created.
    pub fn register_filelogger_target(
        &mut self,
        index: usize,
        dir_created: Result<(), std::io::Error>,
    ) -> (r: Result<(), DynLogAPIErr>)
        requires
            old(self).config.file_logger matches Some(v) && index < v@.len(),
        ensures
            final(self).config == old(self).config,
            ({
                let e = old(self).config.file_logger->Some_0@[index as int];
                &&& dir_created is Err ==> (r matches Err(DynLogAPIErr::CreateLogDirError { path, .. })
                    && path@ == e.path@)
                &&& dir_created is Ok && compiled_rules(rules_view(e.modules@)) is None ==> (r matches Err(
                    DynLogAPIErr::TargetParseError(_),
                ))
                &&& r is Ok <==> dir_created is Ok && compiled_rules(rules_view(e.modules@)) is Some
                &&& r is Ok ==> appended(old(self).stages@, final(self).stages@, |s: Stage<L>| is_file_stage(s, e))
                &&& r is Err ==> final(self).stages@ == old(self).stages@
            }),
    {
        let entries = match &self.config.file_logger {
            Some(v) => v,
            None => { return Err(DynLogAPIErr::InitializeFileloggerError); },
        };
        let entry = &entries[index];
        if let Err(source) = dir_created {
            return Err(DynLogAPIErr::CreateLogDirError { path: entry.path.clone(), source });
        }
        let filter = compile_file_filter(&entry.modules)?;
        let o = entry.options;
        let plan = SinkPlan {
            destination: Destination::File { directory: entry.path.clone(), filename: entry.filename.clone() },
            format: o.format,
            ansi: false,
            file: o.file,
            line_number: o.line_number,
            thread_name: o.thread_name,
            thread_id: o.thread_id,
            filter,
        };
        self.stages.push(Stage::Sink(plan));
        assert(self.stages@.subrange(0, old(self).stages@.len() as int) =~= old(self).stages@);
        Ok(())
    }

    /// Adds a caller-supplied stage as it is.
    pub fn add_layer(self, layer: L) -> (r: Self)
        ensures
            r.config == self.config,
            r.stages@ == self.stages@.push(Stage::Supplied(layer)),
    {
        let mut s = self;
        s.stages.push(Stage::Supplied(layer));
        s
    }

    /// Adds caller-supplied stages as they are, in order.
    pub fn add_layers(self, layers: Vec<L>) -> (r: Self)
        ensures
            r.config == self.config,
            r.stages@ == self.stages@ + layers@.map_values(|l: L| Stage::<L>::Supplied(l)),
    {
        let mut s = self;
        let ghost start = s.stages@;
        let ghost given = layers@;
        let mut rest = layers;
        let ghost n: int = given.len() as int;
        let ghost done: int = 0;
        while rest.len() > 0
            invariant
                s.config == self.config,
                0 <= done <= n,
                n == given.len(),
                rest@.len() == n - done,
                rest@ == given.subrange(done, n),
                s.stages@ == start + given.subrange(0, done).map_values(|l: L| Stage::<L>::Supplied(l)),
            decreases rest.len(),
        {
            let l = rest.remove(0);
            proof {
                done = done + 1;
            }
            s.stages.push(Stage::Supplied(l));
            assert(rest@ =~= given.subrange(done, n));
            assert(given.subrange(0, done) =~= given.subrange(0, done - 1).push(given[done - 1]));
            assert(s.stages@ =~= start + given.subrange(0, done).map_values(|l: L| Stage::<L>::Supplied(l)));
        }
        assert(given.subrange(0, n) =~= given);
        s
    }

    /// Adds a caller-supplied stage behind the console's module scoping, or as
    /// it is where the console's rules give none.
    pub fn add_layer_with_stream_logger_targets(self, layer: L) -> (r: Result<Self, DynLogAPIErr>)
        ensures
            r matches Ok(l) && l.config == self.config && l.stages@.len() == self.stages@.len() + 1
                && l.stages@.drop_last() == self.stages@
                && match scoping_model(rules_view(self.config.stream_logger.modules@)) {
                    Some(m) => (l.stages@.last() matches Stage::Scoped(g, p) && g == layer && p.model() == m),
                    None => l.stages@.last() == Stage::Supplied(layer),
                },
    {
        let mut s = self;
        let stage = match compile_scoping(&s.config.stream_logger.modules) {
            Some(p) => Stage::Scoped(layer, p),
            None => Stage::Supplied(layer),
        };
        s.stages.push(stage);
        assert(s.stages@.drop_last() =~= self.stages@);
        Ok(s)
    }

    /// The stages to install: those added, and the catch-all stage where the
    /// global switch is on.
    pub fn init(self) -> (r: Vec<Stage<L>>)
        ensures
            installed(self.config, self.stages@, r@),
    {
        let DynamicLogger { config, stages } = self;
        let mut stages = stages;
        if config.global.options.enabled {
            let level = config.global.log_level;
            let filter = match compile_scoping(&config.stream_logger.modules) {
                Some(p) => CatchAllFilter::Silencing(silence_targets(p, level)),
                None => CatchAllFilter::FromEnvironment(LevelFilter::from_level(level)),
            };
            stages.push(Stage::CatchAll { options: config.global.options, filter });
            assert(stages@.subrange(0, self.stages@.len() as int) =~= self.stages@);
        }
        stages
    }
}

/// The two built-in sink families of a logger.
pub trait DynamicLogging {
    type Error;

    /// Adds the console sink, if it is enabled.
    fn init_stdout(&mut self) -> Result<(), Self::Error>;

    /// The enabled file sinks, by index, each to be registered in turn with
    /// `register_filelogger_target` once its directory was created.
    fn init_filelogger(&self) -> Result<Vec<usize>, Self::Error>;
}

impl<L> DynamicLogging for DynamicLogger<L> {
    type Error = DynLogAPIErr;

    fn init_stdout(&mut self) -> (r: Result<(), DynLogAPIErr>)
        ensures
            r is Ok,
            final(self).config == old(self).config,
            stdout_added(old(self).config, old(self).stages@, final(self).stages@),
    {
        self.add_stdout_stage();
        Ok(())
    }

    fn init_filelogger(&self) -> (r: Result<Vec<usize>, DynLogAPIErr>)
        ensures
            self.config.file_logger is None <==> r matches Err(DynLogAPIErr::InitializeFileloggerError),
            self.config.file_logger matches Some(v) ==> (r matches Ok(idx) && enabled_indices(v@, idx@)),
    {
        self.filelogger_entries()
    }
}

} // verus!
