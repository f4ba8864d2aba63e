use cbmp_rs::config::{ConfigError, FaultKind};
use cbmp_rs::converter::Converter;
use cbmp_rs::directory::{DirectoryAction, DirectoryEvent, DirectoryRun, TaskError, TaskSummary};
use cbmp_rs::report::Level;
use cbmp_rs::runner::{ConfigAction, ConfigEvent, ConfigRun, RunResult, RunStage};

const SQUARE: &str = r##"<svg xmlns="http://www.w3.org/2000/svg" width="2" height="2"><rect width="2" height="2" fill="#00ff00"/></svg>"##;

/// A file system that lives in a list: paths and what they hold.
struct Disk {
    texts: Vec<(String, String)>,
    written: Vec<(String, Vec<u8>)>,
    directories: Vec<String>,
}

impl Disk {
    fn read(&self, path: &str) -> Result<String, String> {
        match self.texts.iter().find(|entry| entry.0 == path) {
            Some(entry) => Ok(entry.1.clone()),
            None => Err("No such file or directory".to_string()),
        }
    }

    fn find(&self, pattern: &str) -> Vec<String> {
        let prefix = pattern.trim_start_matches("./").trim_end_matches("**/*.svg").to_string();
        let mut found: Vec<String> = self
            .texts
            .iter()
            .map(|entry| entry.0.clone())
            .filter(|path| path.starts_with(&prefix) && path.ends_with(".svg"))
            .collect();
        found.sort();
        found
    }
}

/// Works through one task as a caller would, on the disk in the list.
fn work_through(converter: &Converter, disk: &mut Disk, run: &ConfigRun, index: usize, errors: &mut Vec<String>) -> Result<TaskSummary, TaskError> {
    let (name, task) = run.task(index).unwrap();
    let mut state = DirectoryRun::new(name, task);
    let mut event = DirectoryEvent::Begin;
    loop {
        let (next, step) = converter.process_directory(state, event);
        state = next;
        for notice in &step.notices {
            if notice.level == Level::Error {
                errors.push(notice.message.clone());
            }
        }
        event = match step.action {
            DirectoryAction::CreateDirectory(path) => {
                disk.directories.push(path);
                DirectoryEvent::DirectoryReady
            }
            DirectoryAction::Discover(pattern) => DirectoryEvent::Discovered(disk.find(&pattern)),
            DirectoryAction::ReadSource(path) => match disk.read(&path) {
                Ok(text) => DirectoryEvent::SourceRead(text),
                Err(detail) => DirectoryEvent::SourceUnreadable(detail),
            },
            DirectoryAction::WriteResult { path, bytes } => {
                disk.written.push((path, bytes));
                DirectoryEvent::Written
            }
            DirectoryAction::Finish(summary) => return Ok(summary),
            DirectoryAction::Abort(error) => return Err(error),
            DirectoryAction::Rejected => panic!("the caller told what did not fit"),
        };
    }
}

/// Works through a configuration as a caller would.
fn run_all(converter: &Converter, disk: &mut Disk, config_path: &str, errors: &mut Vec<String>) -> (ConfigRun, RunResult) {
    let mut run = ConfigRun::new(config_path);
    let mut event = ConfigEvent::Begin;
    loop {
        let (next, step) = converter.process_config(run, event);
        run = next;
        for notice in &step.notices {
            if notice.level == Level::Error {
                errors.push(notice.message.clone());
            }
        }
        event = match step.action {
            ConfigAction::ReadConfig(path) => match disk.read(&path) {
                Ok(text) => ConfigEvent::ConfigRead(text),
                Err(detail) => ConfigEvent::ConfigUnreadable(detail),
            },
            ConfigAction::RunTask { index, .. } => match work_through(converter, disk, &run, index, errors) {
                Ok(summary) => ConfigEvent::TaskFinished(summary),
                Err(error) => ConfigEvent::TaskAborted(error),
            },
            ConfigAction::Done(result) => return (run, result),
            ConfigAction::Rejected => panic!("the caller told what did not fit"),
        };
    }
}

fn disk(texts: &[(&str, &str)]) -> Disk {
    Disk {
        texts: texts.iter().map(|entry| (entry.0.to_string(), entry.1.to_string())).collect(),
        written: Vec::new(),
        directories: Vec::new(),
    }
}

#[test]
fn run_with_one_good_and_one_bad_file() {
    let mut disk = disk(&[
        ("cbmp.json", r#"{"icons":{"dir":"./a","out":"./b"}}"#),
        ("a/x.svg", SQUARE),
        ("a/y.svg", "<svg this is no markup"),
    ]);
    let mut errors = Vec::new();
    let (run, result) = run_all(&Converter::new(true), &mut disk, "cbmp.json", &mut errors);
    assert_eq!(run.stage(), RunStage::Finished);
    assert!(matches!(result, RunResult::Completed { finished: 1, aborted: 0 }));
    assert_eq!(result.exit_code(), 0);
    let written: Vec<&str> = disk.written.iter().map(|entry| entry.0.as_str()).collect();
    assert_eq!(written, vec!["./b/x.png"]);
    assert!(disk.written[0].1.starts_with(&[0x89, b'P', b'N', b'G']));
    assert_eq!(errors.len(), 1);
    assert!(errors[0].starts_with("Failed to process y.svg: Failed to parse SVG"));
    assert!(errors[0].contains("y.svg"));
    let summaries = run.summaries();
    assert_eq!(summaries.len(), 1);
    assert_eq!(summaries[0].task_name, "icons");
    assert_eq!((summaries[0].discovered, summaries[0].success, summaries[0].failure), (2, 1, 1));
    assert!(disk.directories.contains(&"./b".to_string()));
}

#[test]
fn run_with_one_bad_file_of_three_writes_the_other_two() {
    let mut disk = disk(&[
        ("cbmp.json", r#"{"icons":{"dir":"src","out":"out","preserveSubdirs":true}}"#),
        ("src/1.svg", SQUARE),
        ("src/deep/2.svg", "no markup"),
        ("src/deep/3.svg", SQUARE),
    ]);
    let mut errors = Vec::new();
    let (run, result) = run_all(&Converter::new(false), &mut disk, "cbmp.json", &mut errors);
    assert_eq!(result.exit_code(), 0);
    let written: Vec<&str> = disk.written.iter().map(|entry| entry.0.as_str()).collect();
    assert_eq!(written, vec!["out/1.png", "out/deep/3.png"]);
    let summary = &run.summaries()[0];
    assert_eq!((summary.discovered, summary.success, summary.failure), (3, 2, 1));
    assert_eq!(errors.len(), 1);
    assert!(errors[0].starts_with("Failed to process deep/2.svg: "));
}

#[test]
fn run_applies_each_tasks_own_rules() {
    let mut disk = disk(&[
        (
            "themes.json",
            r##"{"plain":{"dir":"src","out":"plain"},"dark":{"dir":"src","out":"dark","colors":[{"match":"#00ff00","replace":"#000000"}]}}"##,
        ),
        ("src/x.svg", SQUARE),
    ]);
    let mut errors = Vec::new();
    let (run, result) = run_all(&Converter::new(true), &mut disk, "themes.json", &mut errors);
    assert!(matches!(result, RunResult::Completed { finished: 2, aborted: 0 }));
    assert!(errors.is_empty());
    assert_eq!(run.task_count(), 2);
    let written: Vec<&str> = disk.written.iter().map(|entry| entry.0.as_str()).collect();
    assert_eq!(written, vec!["plain/x.png", "dark/x.png"]);
    let plain = tiny_skia::Pixmap::decode_png(&disk.written[0].1).unwrap().pixel(0, 0).unwrap();
    let dark = tiny_skia::Pixmap::decode_png(&disk.written[1].1).unwrap().pixel(0, 0).unwrap();
    assert_eq!((plain.red(), plain.green(), plain.blue()), (0, 255, 0));
    assert_eq!((dark.red(), dark.green(), dark.blue()), (0, 0, 0));
}

#[test]
fn run_with_a_task_without_files_goes_on() {
    let mut disk = disk(&[
        ("cbmp.json", r#"{"empty":{"dir":"none","out":"o1"},"icons":{"dir":"src","out":"o2"}}"#),
        ("src/x.svg", SQUARE),
    ]);
    let mut errors = Vec::new();
    let (run, result) = run_all(&Converter::new(true), &mut disk, "cbmp.json", &mut errors);
    assert!(matches!(result, RunResult::Completed { finished: 2, aborted: 0 }));
    assert_eq!(run.summaries()[0].discovered, 0);
    assert_eq!(run.summaries()[1].discovered, 1);
    assert!(errors.is_empty());
}

#[test]
fn run_without_a_readable_configuration_fails() {
    let mut disk = disk(&[("src/x.svg", SQUARE)]);
    let mut errors = Vec::new();
    let (run, result) = run_all(&Converter::new(false), &mut disk, "missing.json", &mut errors);
    assert_eq!(run.stage(), RunStage::Failed);
    assert_eq!(result.exit_code(), 1);
    match &result {
        RunResult::Failed(ConfigError::Load(detail)) => assert_eq!(detail, "No such file or directory"),
        other => panic!("a failure to load was due, not {:?}", other),
    }
    assert!(disk.written.is_empty());
    assert!(disk.directories.is_empty());
}

#[test]
fn run_without_a_well_formed_configuration_fails() {
    let mut disk = disk(&[("cbmp.json", r#"{"icons":{"dir":"src"}}"#), ("src/x.svg", SQUARE)]);
    let mut errors = Vec::new();
    let (run, result) = run_all(&Converter::new(false), &mut disk, "cbmp.json", &mut errors);
    assert_eq!(run.stage(), RunStage::Failed);
    assert_eq!(result.exit_code(), 1);
    match &result {
        RunResult::Failed(ConfigError::Parse(error)) => {
            assert_eq!(error.kind, FaultKind::MissingField(cbmp_rs::config::Field::Out));
            assert_eq!(error.task, "icons");
        }
        other => panic!("a failure to parse was due, not {:?}", other),
    }
    assert!(disk.written.is_empty());
    assert_eq!(run.task_count(), 0);
}

#[test]
fn run_tells_what_it_loads_unless_quiet() {
    let converter = Converter::new(false);
    let (run, step) = converter.process_config(ConfigRun::new("cbmp.json"), ConfigEvent::Begin);
    assert_eq!(run.stage(), RunStage::Loading);
    match &step.action {
        ConfigAction::ReadConfig(path) => assert_eq!(path, "cbmp.json"),
        other => panic!("a read was due, not {:?}", other),
    }
    assert_eq!(step.notices.len(), 1);
    assert_eq!(step.notices[0].level, Level::Info);
    assert_eq!(step.notices[0].message, "Loading configuration from cbmp.json");
    let (_, step) = Converter::new(true).process_config(ConfigRun::new("cbmp.json"), ConfigEvent::Begin);
    assert!(step.notices.is_empty());
}

#[test]
fn run_heads_each_task_in_document_order() {
    let converter = Converter::new(true);
    let (run, _) = converter.process_config(ConfigRun::new("c.json"), ConfigEvent::Begin);
    let text = r#"{"zebra":{"dir":"z","out":"z"},"apple":{"dir":"a","out":"a"}}"#.to_string();
    let (run, step) = converter.process_config(run, ConfigEvent::ConfigRead(text));
    assert_eq!(run.stage(), RunStage::Running);
    match &step.action {
        ConfigAction::RunTask { index, header } => {
            assert_eq!(*index, 0);
            assert_eq!(header.level, Level::Task);
            assert_eq!(header.message, "Processing task: zebra");
            assert!(header.newline);
        }
        other => panic!("a task was due, not {:?}", other),
    }
    assert_eq!(run.task(0).unwrap().0, "zebra");
    assert_eq!(run.task(1).unwrap().0, "apple");
    assert!(run.task(2).is_none());
    let summary = TaskSummary { task_name: "zebra".to_string(), discovered: 4, success: 1, failure: 3 };
    let (run, step) = converter.process_config(run, ConfigEvent::TaskFinished(summary));
    match &step.action {
        ConfigAction::RunTask { index, header } => {
            assert_eq!(*index, 1);
            assert_eq!(header.message, "Processing task: apple");
        }
        other => panic!("a task was due, not {:?}", other),
    }
    let summary = TaskSummary { task_name: "apple".to_string(), discovered: 0, success: 0, failure: 0 };
    let (run, step) = converter.process_config(run, ConfigEvent::TaskFinished(summary));
    assert_eq!(run.stage(), RunStage::Finished);
    match &step.action {
        ConfigAction::Done(result) => {
            assert!(matches!(result, RunResult::Completed { finished: 2, aborted: 0 }));
            assert_eq!(result.exit_code(), 0);
        }
        other => panic!("the end was due, not {:?}", other),
    }
    assert_eq!(run.summaries().len(), 2);
    assert_eq!(run.summaries()[0].failure, 3);
}

#[test]
fn run_goes_on_after_a_task_that_was_given_up() {
    let converter = Converter::new(true);
    let (run, _) = converter.process_config(ConfigRun::new("c.json"), ConfigEvent::Begin);
    let text = r#"{"one":{"dir":"1","out":"1"},"two":{"dir":"2","out":"2"}}"#.to_string();
    let (run, _) = converter.process_config(run, ConfigEvent::ConfigRead(text));
    let error = TaskError::Directory { path: "1".to_string(), detail: "permission denied".to_string() };
    let (run, step) = converter.process_config(run, ConfigEvent::TaskAborted(error));
    assert_eq!(step.notices.len(), 1);
    assert_eq!(step.notices[0].level, Level::Error);
    assert_eq!(step.notices[0].message, "Failed to create directory: 1: permission denied");
    assert!(matches!(step.action, ConfigAction::RunTask { index: 1, .. }));
    let summary = TaskSummary { task_name: "two".to_string(), discovered: 1, success: 1, failure: 0 };
    let (run, step) = converter.process_config(run, ConfigEvent::TaskFinished(summary));
    match &step.action {
        ConfigAction::Done(result) => {
            assert!(matches!(result, RunResult::Completed { finished: 1, aborted: 1 }));
            assert_eq!(result.exit_code(), 0);
        }
        other => panic!("the end was due, not {:?}", other),
    }
    assert_eq!(run.summaries().len(), 1);
}

#[test]
fn run_without_tasks_is_completed_at_once() {
    let converter = Converter::new(true);
    let (run, _) = converter.process_config(ConfigRun::new("c.json"), ConfigEvent::Begin);
    let (run, step) = converter.process_config(run, ConfigEvent::ConfigRead("{}".to_string()));
    assert_eq!(run.stage(), RunStage::Finished);
    assert!(matches!(step.action, ConfigAction::Done(RunResult::Completed { finished: 0, aborted: 0 })));
}

#[test]
fn run_rejects_what_does_not_fit_its_stage() {
    let converter = Converter::new(true);
    let run = ConfigRun::new("c.json");
    let (run, step) = converter.process_config(run, ConfigEvent::ConfigRead("{}".to_string()));
    assert!(matches!(step.action, ConfigAction::Rejected));
    assert_eq!(run.stage(), RunStage::Fresh);
    let (run, _) = converter.process_config(run, ConfigEvent::Begin);
    let (run, _) = converter.process_config(run, ConfigEvent::ConfigUnreadable("gone".to_string()));
    assert_eq!(run.stage(), RunStage::Failed);
    let (run, step) = converter.process_config(run, ConfigEvent::ConfigRead("{}".to_string()));
    assert!(matches!(step.action, ConfigAction::Rejected));
    assert_eq!(run.stage(), RunStage::Failed);
    let (run, step) = converter.process_config(run, ConfigEvent::Begin);
    assert!(matches!(step.action, ConfigAction::Rejected));
    assert_eq!(run.stage(), RunStage::Failed);
}

#[test]
fn run_preserves_subdirectories_below_a_dotted_directory() {
    let mut disk = disk(&[
        ("cbmp.json", r#"{"icons":{"dir":"./a","out":"./b","preserveSubdirs":true}}"#),
        ("a/s/x.svg", "<svg xmlns='http://www.w3.org/2000/svg' width='1' height='1'><rect width='1' height='1'/></svg>"),
    ]);
    let mut errors = Vec::new();
    let (run, result) = run_all(&Converter::new(true), &mut disk, "cbmp.json", &mut errors);
    assert_eq!(result.exit_code(), 0);
    assert!(errors.is_empty());
    let written: Vec<&str> = disk.written.iter().map(|entry| entry.0.as_str()).collect();
    assert_eq!(written, vec!["./b/s/x.png"]);
    let picture = tiny_skia::Pixmap::decode_png(&disk.written[0].1).unwrap();
    assert_eq!((picture.width(), picture.height()), (1, 1));
    assert!(disk.directories.contains(&"./b/s/".to_string()));
    let summary = &run.summaries()[0];
    assert_eq!((summary.discovered, summary.success, summary.failure), (1, 1, 0));
}
