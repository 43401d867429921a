use dynamic_logger::filter::{compile_console_filter, compile_file_filter, silence_targets};
use dynamic_logger::{
    CatchAllFilter, Destination, DynLogAPIErr, DynamicLogger, DynamicLogging, FileLogger,
    FilterPlan, GlobalLogger, Level, LevelFilter, LogConfig, LogFormat, LogOptions, Loaded, Stage,
    StreamLogger,
};

fn options(enabled: bool, format: LogFormat) -> LogOptions {
    LogOptions { enabled, format, file: true, line_number: false, thread_name: true, thread_id: false }
}

fn strings(v: &[&str]) -> Vec<String> {
    v.iter().map(|s| s.to_string()).collect()
}

fn config(global_on: bool, stream_modules: &[&str], files: Option<Vec<FileLogger>>) -> LogConfig {
    LogConfig {
        global: GlobalLogger { options: options(global_on, LogFormat::Full), log_level: Level::Info },
        stream_logger: StreamLogger {
            options: options(true, LogFormat::Compact),
            color: true,
            modules: strings(stream_modules),
        },
        file_logger: files,
    }
}

fn file_sink(enabled: bool, path: &str, modules: &[&str]) -> FileLogger {
    FileLogger {
        options: options(enabled, LogFormat::Json),
        path: path.to_string(),
        filename: "app.log".to_string(),
        modules: strings(modules),
    }
}

fn logger(c: LogConfig) -> DynamicLogger<u32> {
    DynamicLogger::new("log.toml".to_string(), Loaded::Parsed(c)).unwrap()
}

#[test]
fn unreadable_file_names_the_path() {
    let e = std::io::Error::new(std::io::ErrorKind::NotFound, "missing");
    let r = DynamicLogger::<u32>::new("/no/such/log.toml".to_string(), Loaded::Unreadable(e));
    match r {
        Err(DynLogAPIErr::FileReadError { filename, .. }) => assert_eq!(filename, "/no/such/log.toml"),
        _ => panic!("expected a read error"),
    }
}

#[test]
fn malformed_text_is_a_deserialize_error() {
    let e = toml::from_str::<toml::Table>("global = [").unwrap_err();
    let r = DynamicLogger::<u32>::new("log.toml".to_string(), Loaded::Malformed(e));
    assert!(matches!(r, Err(DynLogAPIErr::TomlDeserializeError(_))));
}

#[test]
fn parsed_config_is_kept_as_given() {
    let l = logger(config(true, &["a::b=debug"], None));
    assert!(l.config.global.options.enabled);
    assert_eq!(l.config.global.log_level, Level::Info);
    assert_eq!(l.config.stream_logger.modules, vec!["a::b=debug".to_string()]);
    assert!(l.stages.is_empty());
}

#[test]
fn valid_rules_compile_for_both_sinks() {
    let rules = strings(&["crate::net=debug"]);
    let f = compile_file_filter(&rules).unwrap();
    assert_eq!(f.targets, vec![("crate::net".to_string(), LevelFilter::Debug)]);
    let c = compile_console_filter(&rules, Level::Warn);
    assert_eq!(c.targets, vec![("crate::net".to_string(), LevelFilter::Debug)]);
}

#[test]
fn invalid_rules_fail_for_files_and_fall_back_for_console() {
    let rules = strings(&["crate::net=debug", "bogus=notalevel"]);
    assert!(matches!(compile_file_filter(&rules), Err(DynLogAPIErr::TargetParseError(_))));
    let c = compile_console_filter(&rules, Level::Warn);
    assert!(c.targets.is_empty());
    assert_eq!(c.default, Some(LevelFilter::Warn));
}

#[test]
fn empty_rules_fall_back_for_console() {
    let c = compile_console_filter(&Vec::new(), Level::Error);
    assert!(c.targets.is_empty());
    assert_eq!(c.default, Some(LevelFilter::Error));
}

#[test]
fn silencing_keeps_modules_and_sets_default() {
    let p = FilterPlan {
        targets: vec![("a".to_string(), LevelFilter::Debug), ("b".to_string(), LevelFilter::Trace)],
        default: None,
    };
    let s = silence_targets(p, Level::Info);
    assert_eq!(s.targets, vec![("a".to_string(), LevelFilter::Off), ("b".to_string(), LevelFilter::Off)]);
    assert_eq!(s.default, Some(LevelFilter::Info));
}

#[test]
fn stdout_with_invalid_rules_still_logs_at_global_severity() {
    let mut l = logger(config(true, &["bogus=notalevel"], None));
    l.init_stdout().unwrap();
    assert_eq!(l.stages.len(), 1);
    match &l.stages[0] {
        Stage::Sink(p) => {
            assert!(matches!(p.destination, Destination::Stdout));
            assert!(p.ansi);
            assert_eq!(p.format, LogFormat::Compact);
            assert!(p.filter.targets.is_empty());
            assert_eq!(p.filter.default, Some(LevelFilter::Info));
        },
        _ => panic!("expected the console stage"),
    }
}

#[test]
fn console_color_only_in_full_and_compact() {
    let mut c = config(true, &[], None);
    c.stream_logger.options.format = LogFormat::Json;
    let l = logger(c).with_stdout().unwrap();
    match &l.stages[0] {
        Stage::Sink(p) => assert!(!p.ansi),
        _ => panic!("expected the console stage"),
    }
}

#[test]
fn disabled_global_installs_nothing() {
    let l = logger(config(false, &["a=debug"], None)).with_stdout().unwrap();
    assert!(l.init().is_empty());
}

#[test]
fn disabled_global_keeps_explicit_layers() {
    let l = logger(config(false, &[], None)).add_layer(7);
    let stages = l.init();
    assert_eq!(stages.len(), 1);
    assert!(matches!(stages[0], Stage::Supplied(7)));
}

#[test]
fn enabled_global_adds_catch_all_silencing_console_modules() {
    let stages = logger(config(true, &["a::b=debug"], None)).init();
    assert_eq!(stages.len(), 1);
    match &stages[0] {
        Stage::CatchAll { filter: CatchAllFilter::Silencing(p), options } => {
            assert_eq!(options.format, LogFormat::Full);
            assert_eq!(p.targets, vec![("a::b".to_string(), LevelFilter::Off)]);
            assert_eq!(p.default, Some(LevelFilter::Info));
        },
        _ => panic!("expected a silencing catch-all stage"),
    }
}

#[test]
fn enabled_global_without_console_modules_uses_environment() {
    let stages = logger(config(true, &["bogus=notalevel"], None)).init();
    assert!(matches!(stages[0], Stage::CatchAll { filter: CatchAllFilter::FromEnvironment(LevelFilter::Info), .. }));
}

#[test]
fn missing_file_table_is_an_error() {
    let l = logger(config(true, &[], None));
    assert!(matches!(l.init_filelogger(), Err(DynLogAPIErr::InitializeFileloggerError)));
}

#[test]
fn only_enabled_file_sinks_are_listed() {
    let files = vec![file_sink(false, "/a", &[]), file_sink(true, "/b", &[]), file_sink(true, "/c", &[])];
    let l = logger(config(true, &[], Some(files)));
    assert_eq!(l.filelogger_entries().unwrap(), vec![1, 2]);
}

#[test]
fn directory_failure_reports_path_and_adds_nothing() {
    let mut l = logger(config(true, &[], Some(vec![file_sink(true, "/tmp/x/app", &["crate::net"])])));
    let e = std::io::Error::new(std::io::ErrorKind::AlreadyExists, "a file is in the way");
    match l.register_filelogger_target(0, Err(e)) {
        Err(DynLogAPIErr::CreateLogDirError { path, .. }) => assert_eq!(path, "/tmp/x/app"),
        _ => panic!("expected a directory error"),
    }
    assert!(l.stages.is_empty());
}

#[test]
fn invalid_file_rules_fail_that_sink() {
    let mut l = logger(config(true, &[], Some(vec![file_sink(true, "/tmp/x", &["bogus=notalevel"])])));
    assert!(matches!(l.register_filelogger_target(0, Ok(())), Err(DynLogAPIErr::TargetParseError(_))));
    assert!(l.stages.is_empty());
}

#[test]
fn json_file_sink_is_scoped_to_its_module() {
    let mut l = logger(config(true, &[], Some(vec![file_sink(true, "/tmp/x", &["crate::net"])])));
    l.register_filelogger_target(0, Ok(())).unwrap();
    match &l.stages[0] {
        Stage::Sink(p) => {
            match &p.destination {
                Destination::File { directory, filename } => {
                    assert_eq!(directory, "/tmp/x");
                    assert_eq!(filename, "app.log");
                },
                _ => panic!("expected a file destination"),
            }
            assert_eq!(p.format, LogFormat::Json);
            assert!(!p.ansi);
            assert_eq!(p.filter.targets, vec![("crate::net".to_string(), LevelFilter::Trace)]);
        },
        _ => panic!("expected the file stage"),
    }
}

#[test]
fn layers_are_added_in_order() {
    let l = logger(config(true, &[], None)).add_layer(1).add_layers(vec![2, 3]);
    let got: Vec<u32> = l
        .stages
        .iter()
        .map(|s| match s {
            Stage::Supplied(n) => *n,
            _ => 0,
        })
        .collect();
    assert_eq!(got, vec![1, 2, 3]);
}

#[test]
fn supplied_layer_takes_console_scoping() {
    let l = logger(config(true, &["a=warn"], None)).add_layer_with_stream_logger_targets(5).unwrap();
    match &l.stages[0] {
        Stage::Scoped(5, p) => assert_eq!(p.targets, vec![("a".to_string(), LevelFilter::Warn)]),
        _ => panic!("expected a scoped stage"),
    }
    let l = logger(config(true, &["a=nope"], None)).add_layer_with_stream_logger_targets(6).unwrap();
    assert!(matches!(l.stages[0], Stage::Supplied(6)));
}

#[test]
fn read_error_message_holds_the_path() {
    let e = std::io::Error::new(std::io::ErrorKind::NotFound, "missing");
    let r = DynamicLogger::<u32>::new("/no/such/log.toml".to_string(), Loaded::Unreadable(e));
    assert_eq!(r.err().unwrap().message(), "Failed to read file: /no/such/log.toml");
}

#[test]
fn directory_error_message_holds_the_path() {
    let e = DynLogAPIErr::CreateLogDirError {
        path: "/tmp/x".to_string(),
        source: std::io::Error::new(std::io::ErrorKind::Other, "denied"),
    };
    assert_eq!(e.message(), "Failed to create directory: /tmp/x");
    assert_eq!(
        DynLogAPIErr::InitializeFileloggerError.message(),
        "Error parsing file logger table, there were no entries found."
    );
}

#[test]
fn disabled_global_lists_no_file_sinks() {
    let l = logger(config(false, &[], None));
    assert!(l.file_sinks().unwrap().is_empty());
    let l = logger(config(true, &[], None));
    assert!(matches!(l.file_sinks(), Err(DynLogAPIErr::InitializeFileloggerError)));
    let l = logger(config(true, &[], Some(vec![file_sink(false, "/a", &[]), file_sink(true, "/b", &[])])));
    assert_eq!(l.file_sinks().unwrap(), vec![1]);
}

#[test]
fn disabled_console_adds_nothing() {
    let mut c = config(true, &["a=debug"], None);
    c.stream_logger.options.enabled = false;
    let mut l = logger(c);
    l.init_stdout().unwrap();
    assert!(l.stages.is_empty());
}
