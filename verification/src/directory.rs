//! Working through one task.
//!
//! A task is worked through in steps. The caller does what touches the
//! file system and tells what came of it; this module decides what is to be
//! done next. First the output directory is made, then the source files are
//! discovered, then the files are converted one by one, in the order of
//! their discovery. For each file the directory of its result is made, the
//! file is read, its text is converted, and the result is written. A file
//! that fails at any of these is counted and reported, and the next file is
//! taken up; only a directory that cannot be made, or a discovery that
//! fails, ends the task.

use vstd::prelude::*;
use vstd::string::StringExecFns;
use crate::config::Task;
use crate::convert::{
    conversion_of,
    described,
    fails_in_conversion,
    handed_to_parser,
    is_rasterization,
    ConversionError,
    ConversionFault,
    ConversionOutcome,
    ErrorKind,
    OutcomeModel,
};
use crate::converter::Converter;
use crate::paths::{
    directory_of,
    discovery_pattern,
    join,
    parent_directory,
    relative_path,
    relative_to,
    resolve,
    resolve_path,
    vector_pattern,
};
use crate::report::{notices_of, Level, Notice, NoticeModel};
use crate::substitute::{rules_of, Color, Substitution};
use crate::text::{decimal, decimal_text};

verus! {

/// How far a task has come.
#[derive(Clone, Copy, Debug, PartialEq, Eq, Structural)]
pub enum Stage {
    /// Nothing was done yet.
    Fresh,
    /// The output directory is being made.
    Preparing,
    /// The source files are being discovered.
    Discovering,
    /// The directory of the next result is being made.
    Placing,
    /// A source file is being read.
    Reading,
    /// A result is being written.
    Writing,
    /// Every file was taken up.
    Finished,
    /// The task was given up.
    Aborted,
}

/// The count of a task: how many files were discovered, and how many of
/// them were converted and how many failed.
#[derive(Debug)]
pub struct TaskSummary {
    pub task_name: String,
    pub discovered: usize,
    pub success: usize,
    pub failure: usize,
}

/// The count of a task as plain values.
pub struct SummaryModel {
    pub task_name: Seq<char>,
    pub discovered: nat,
    pub success: nat,
    pub failure: nat,
}

impl View for TaskSummary {
    type V = SummaryModel;

    open spec fn view(&self) -> SummaryModel {
        SummaryModel {
            task_name: self.task_name@,
            discovered: self.discovered as nat,
            success: self.success as nat,
            failure: self.failure as nat,
        }
    }
}

/// Why a task was given up.
#[derive(Debug)]
pub enum TaskError {
    /// A directory could not be made.
    Directory { path: String, detail: String },
    /// The source files could not be discovered.
    Discovery { pattern: String, detail: String },
}

/// Why a task was given up, as plain values.
pub enum TaskFault {
    Directory { path: Seq<char>, detail: Seq<char> },
    Discovery { pattern: Seq<char>, detail: Seq<char> },
}

impl View for TaskError {
    type V = TaskFault;

    open spec fn view(&self) -> TaskFault {
        match self {
            TaskError::Directory { path, detail } => TaskFault::Directory {
                path: path@,
                detail: detail@,
            },
            TaskError::Discovery { pattern, detail } => TaskFault::Discovery {
                pattern: pattern@,
                detail: detail@,
            },
        }
    }
}

/// Why a task was given up, in words.
pub open spec fn task_fault_words(fault: TaskFault) -> Seq<char> {
    match fault {
        TaskFault::Directory { path, detail } => "Failed to create directory: "@ + path + ": "@
            + detail,
        TaskFault::Discovery { pattern, detail } => "Failed to search for "@ + pattern + ": "@
            + detail,
    }
}

impl TaskError {
    /// The error in words, for a line of output.
    pub fn describe(&self) -> (words: String)
        ensures
            words@ == task_fault_words(self@),
    {
        match self {
            TaskError::Directory { path, detail } => {
                let mut words = "Failed to create directory: ".to_owned();
                words.append(path.as_str());
                words.append(": ");
                words.append(detail.as_str());
                words
            },
            TaskError::Discovery { pattern, detail } => {
                let mut words = "Failed to search for ".to_owned();
                words.append(pattern.as_str());
                words.append(": ");
                words.append(detail.as_str());
                words
            },
        }
    }
}

/// A source file that was found below a task's source directory: its
/// path, and its path as seen from that directory.
#[derive(Debug)]
pub struct DiscoveredFile {
    pub path: String,
    pub relative: String,
}

/// A source file as plain values.
pub struct FileModel {
    pub path: Seq<char>,
    pub relative: Seq<char>,
}

impl View for DiscoveredFile {
    type V = FileModel;

    open spec fn view(&self) -> FileModel {
        FileModel { path: self.path@, relative: self.relative@ }
    }
}

/// The files of a list, each as plain values.
pub open spec fn files_of(files: Seq<DiscoveredFile>) -> Seq<FileModel> {
    files.map_values(|file: DiscoveredFile| file@)
}

/// The source files that a list of paths stands for, below a source
/// directory: each path with its path as seen from the directory, in the
/// order of the list.
pub open spec fn discovered_in(dir: Seq<char>, paths: Seq<Seq<char>>) -> Seq<FileModel> {
    paths.map_values(|path: Seq<char>| FileModel { path, relative: relative_to(dir, path) })
}

/// What the caller tells of the work it did.
#[derive(Debug)]
pub enum DirectoryEvent {
    /// The task is to be taken up.
    Begin,
    /// The directory asked for exists now.
    DirectoryReady,
    /// The directory asked for could not be made.
    DirectoryFailed(String),
    /// The source files that were found, in the order in which they are to
    /// be converted.
    Discovered(Vec<String>),
    /// The source files could not be searched for.
    DiscoveryFailed(String),
    /// The text of the source file asked for.
    SourceRead(String),
    /// The source file asked for could not be read as text.
    SourceUnreadable(String),
    /// The result was written.
    Written,
    /// The result could not be written.
    WriteFailed(String),
}

/// What the caller tells, as plain values.
pub enum EventModel {
    Begin,
    DirectoryReady,
    DirectoryFailed(Seq<char>),
    Discovered(Seq<Seq<char>>),
    DiscoveryFailed(Seq<char>),
    SourceRead(Seq<char>),
    SourceUnreadable(Seq<char>),
    Written,
    WriteFailed(Seq<char>),
}

/// The texts of a list of strings.
pub open spec fn texts_of(list: Seq<String>) -> Seq<Seq<char>> {
    list.map_values(|s: String| s@)
}

impl View for DirectoryEvent {
    type V = EventModel;

    open spec fn view(&self) -> EventModel {
        match self {
            DirectoryEvent::Begin => EventModel::Begin,
            DirectoryEvent::DirectoryReady => EventModel::DirectoryReady,
            DirectoryEvent::DirectoryFailed(detail) => EventModel::DirectoryFailed(detail@),
            DirectoryEvent::Discovered(files) => EventModel::Discovered(texts_of(files@)),
            DirectoryEvent::DiscoveryFailed(detail) => EventModel::DiscoveryFailed(detail@),
            DirectoryEvent::SourceRead(text) => EventModel::SourceRead(text@),
            DirectoryEvent::SourceUnreadable(detail) => EventModel::SourceUnreadable(detail@),
            DirectoryEvent::Written => EventModel::Written,
            DirectoryEvent::WriteFailed(detail) => EventModel::WriteFailed(detail@),
        }
    }
}

/// What the caller is to do next.
#[derive(Debug)]
pub enum DirectoryAction {
    /// Make this directory and those above it, and tell whether it exists.
    CreateDirectory(String),
    /// Find the files that match this pattern.
    Discover(String),
    /// Read the file at this path as text.
    ReadSource(String),
    /// Write these bytes to the file at this path.
    WriteResult { path: String, bytes: Vec<u8> },
    /// The task is done: this is its count.
    Finish(TaskSummary),
    /// The task was given up.
    Abort(TaskError),
    /// What was told does not fit the stage of the task; nothing changed.
    Rejected,
}

/// What is to be done next, as plain values.
pub enum ActionModel {
    CreateDirectory(Seq<char>),
    Discover(Seq<char>),
    ReadSource(Seq<char>),
    WriteResult { path: Seq<char>, bytes: Seq<u8> },
    Finish(SummaryModel),
    Abort(TaskFault),
    Rejected,
}

impl View for DirectoryAction {
    type V = ActionModel;

    open spec fn view(&self) -> ActionModel {
        match self {
            DirectoryAction::CreateDirectory(path) => ActionModel::CreateDirectory(path@),
            DirectoryAction::Discover(pattern) => ActionModel::Discover(pattern@),
            DirectoryAction::ReadSource(path) => ActionModel::ReadSource(path@),
            DirectoryAction::WriteResult { path, bytes } => ActionModel::WriteResult {
                path: path@,
                bytes: bytes@,
            },
            DirectoryAction::Finish(summary) => ActionModel::Finish(summary@),
            DirectoryAction::Abort(error) => ActionModel::Abort(error@),
            DirectoryAction::Rejected => ActionModel::Rejected,
        }
    }
}

/// One step of a task: what to do next, and the lines to print before.
#[derive(Debug)]
pub struct DirectoryStep {
    pub action: DirectoryAction,
    pub notices: Vec<Notice>,
}

/// One step of a task as plain values.
pub struct StepModel {
    pub action: ActionModel,
    pub notices: Seq<NoticeModel>,
}

impl View for DirectoryStep {
    type V = StepModel;

    open spec fn view(&self) -> StepModel {
        StepModel { action: self.action@, notices: notices_of(self.notices@) }
    }
}

/// A task in work.
#[derive(Debug)]
pub struct DirectoryRun {
    task_name: String,
    dir: String,
    out: String,
    colors: Option<Vec<Color>>,
    preserve_subdirs: bool,
    stage: Stage,
    files: Vec<DiscoveredFile>,
    success: usize,
    failure: usize,
}

/// A task in work as plain values. The file in work is the one behind
/// those that were counted.
pub struct RunModel {
    pub task_name: Seq<char>,
    pub dir: Seq<char>,
    pub out: Seq<char>,
    pub colors: Option<Seq<Substitution>>,
    pub preserve_subdirs: bool,
    pub stage: Stage,
    pub files: Seq<FileModel>,
    pub success: nat,
    pub failure: nat,
}

impl View for DirectoryRun {
    type V = RunModel;

    closed spec fn view(&self) -> RunModel {
        RunModel {
            task_name: self.task_name@,
            dir: self.dir@,
            out: self.out@,
            colors: match self.colors {
                Some(rules) => Some(rules_of(rules@)),
                None => None,
            },
            preserve_subdirs: self.preserve_subdirs,
            stage: self.stage,
            files: files_of(self.files@),
            success: self.success as nat,
            failure: self.failure as nat,
        }
    }
}

/// Whether the counts of a task fit its stage, and its files its source
/// directory: no more files are counted than were discovered, a file is in
/// work only while one is left, a finished task has counted them all, and
/// each file's relative path is its path as seen from the source directory.
pub open spec fn well_formed(run: RunModel) -> bool {
    &&& forall|i: int|
        0 <= i < run.files.len() ==> (#[trigger] run.files[i]).relative == relative_to(
            run.dir,
            run.files[i].path,
        )
    &&& run.success + run.failure <= run.files.len()
    &&& (run.stage == Stage::Placing || run.stage == Stage::Reading || run.stage
        == Stage::Writing) ==> run.success + run.failure < run.files.len()
    &&& run.stage == Stage::Finished ==> run.success + run.failure == run.files.len()
    &&& (run.stage == Stage::Fresh || run.stage == Stage::Preparing || run.stage
        == Stage::Discovering) ==> run.files.len() == 0
}

/// The line that announces a file.
pub open spec fn announcement(relative: Seq<char>) -> Seq<char> {
    "Processing item: "@ + relative + " ..."@
}

/// The line that reports a failed file: its path below the source
/// directory, and the cause.
pub open spec fn failure_message(relative: Seq<char>, cause: Seq<char>) -> Seq<char> {
    "Failed to process "@ + relative + ": "@ + cause
}

/// The line that closes a task.
pub open spec fn summary_message(discovered: nat, task_name: Seq<char>) -> Seq<char> {
    "Finished processing "@ + decimal(discovered) + " file(s) ("@ + task_name + ")"@
}

/// The line that warns of a task without source files.
pub open spec fn empty_message(dir: Seq<char>) -> Seq<char> {
    "No SVG files found in: "@ + dir
}

/// The line that tells that source files were found.
pub open spec fn found_message() -> Seq<char> {
    "SVG files found"@
}

/// A task at another stage.
pub open spec fn at_stage(run: RunModel, stage: Stage) -> RunModel {
    RunModel {
        task_name: run.task_name,
        dir: run.dir,
        out: run.out,
        colors: run.colors,
        preserve_subdirs: run.preserve_subdirs,
        stage,
        files: run.files,
        success: run.success,
        failure: run.failure,
    }
}

/// A task with the files that were discovered for it.
pub open spec fn with_files(run: RunModel, files: Seq<FileModel>) -> RunModel {
    RunModel {
        task_name: run.task_name,
        dir: run.dir,
        out: run.out,
        colors: run.colors,
        preserve_subdirs: run.preserve_subdirs,
        stage: run.stage,
        files,
        success: run.success,
        failure: run.failure,
    }
}

/// A task with the file in work counted.
pub open spec fn counted(run: RunModel, outcome: OutcomeModel) -> RunModel {
    RunModel {
        task_name: run.task_name,
        dir: run.dir,
        out: run.out,
        colors: run.colors,
        preserve_subdirs: run.preserve_subdirs,
        stage: run.stage,
        files: run.files,
        success: if outcome is None {
            run.success + 1
        } else {
            run.success
        },
        failure: if outcome is None {
            run.failure
        } else {
            run.failure + 1
        },
    }
}

/// The index of the file in work.
pub open spec fn cursor(run: RunModel) -> int {
    (run.success + run.failure) as int
}

/// The path of the file in work below the source directory.
pub open spec fn current_relative(run: RunModel) -> Seq<char> {
    run.files[cursor(run)].relative
}

/// The path to which the result of the file in work is written.
pub open spec fn current_output(run: RunModel) -> Seq<char> {
    resolve_path(run.out, current_relative(run), run.preserve_subdirs)
}

/// The count of a task as it stands.
pub open spec fn summary_of(run: RunModel) -> SummaryModel {
    SummaryModel {
        task_name: run.task_name,
        discovered: run.files.len(),
        success: run.success,
        failure: run.failure,
    }
}

/// The lines of a step, with one more unless the converter is quiet.
pub open spec fn unless_quiet(quiet: bool, notices: Seq<NoticeModel>, notice: NoticeModel) -> Seq<
    NoticeModel,
> {
    if quiet {
        notices
    } else {
        notices.push(notice)
    }
}

/// The step that asks for the file in work to be read, and announces the
/// file unless the converter is quiet.
pub open spec fn read_step(quiet: bool, run: RunModel, notices: Seq<NoticeModel>) -> (
    RunModel,
    StepModel,
) {
    (
        at_stage(run, Stage::Reading),
        StepModel {
            action: ActionModel::ReadSource(run.files[cursor(run)].path),
            notices: unless_quiet(
                quiet,
                notices,
                NoticeModel {
                    level: Level::Info,
                    message: announcement(current_relative(run)),
                    newline: false,
                },
            ),
        },
    )
}

/// The step that takes up the next file, or closes the task where none is
/// left. A result that lies in a directory has that directory made first.
pub open spec fn next_file(quiet: bool, run: RunModel, notices: Seq<NoticeModel>) -> (
    RunModel,
    StepModel,
) {
    if cursor(run) >= run.files.len() {
        (
            at_stage(run, Stage::Finished),
            StepModel {
                action: ActionModel::Finish(summary_of(run)),
                notices: notices.push(
                    NoticeModel {
                        level: Level::Done,
                        message: summary_message(run.files.len(), run.task_name),
                        newline: true,
                    },
                ),
            },
        )
    } else if directory_of(current_output(run)).len() > 0 {
        (
            at_stage(run, Stage::Placing),
            StepModel {
                action: ActionModel::CreateDirectory(directory_of(current_output(run))),
                notices,
            },
        )
    } else {
        read_step(quiet, run, notices)
    }
}

/// A step without lines to print.
pub open spec fn silent(action: ActionModel) -> StepModel {
    StepModel { action, notices: Seq::<NoticeModel>::empty() }
}

/// The lines that follow the end of a file's conversion: a word of success
/// unless the converter is quiet, the failure in any case.
pub open spec fn outcome_notices(quiet: bool, run: RunModel, outcome: OutcomeModel) -> Seq<
    NoticeModel,
> {
    match outcome {
        None => unless_quiet(
            quiet,
            Seq::<NoticeModel>::empty(),
            NoticeModel { level: Level::Done, message: Seq::<char>::empty(), newline: true },
        ),
        Some(cause) => seq![
            NoticeModel {
                level: Level::Error,
                message: failure_message(current_relative(run), cause),
                newline: true,
            },
        ],
    }
}

/// The step that follows the end of the file in work: the file is counted
/// and reported, and the next file is taken up.
pub open spec fn file_ended(quiet: bool, run: RunModel, outcome: OutcomeModel) -> (
    RunModel,
    StepModel,
) {
    next_file(quiet, counted(run, outcome), outcome_notices(quiet, run, outcome))
}

/// A failure of the file in work, in words.
pub open spec fn failed_at(kind: ErrorKind, detail: Seq<char>) -> OutcomeModel {
    Some(described(ConversionFault { kind, detail }))
}

/// The step that follows the conversion of the text of the file in work:
/// the result is to be written where the task's output policy puts it; a
/// text that could not be converted ends the file.
pub open spec fn converted_step(
    quiet: bool,
    run: RunModel,
    conversion: Result<Seq<u8>, ConversionFault>,
) -> (RunModel, StepModel) {
    match conversion {
        Ok(bytes) => (
            at_stage(run, Stage::Writing),
            silent(ActionModel::WriteResult { path: current_output(run), bytes }),
        ),
        Err(fault) => file_ended(quiet, run, Some(described(fault))),
    }
}

/// What follows from what the caller tells: the task afterwards, and the
/// step to take. Where the caller hands over the text of a source file,
/// the step rests on `conversion`, which is what converting the text has
/// come to.
pub open spec fn directory_step(
    quiet: bool,
    run: RunModel,
    event: EventModel,
    conversion: Result<Seq<u8>, ConversionFault>,
) -> (RunModel, StepModel) {
    match (run.stage, event) {
        (Stage::Fresh, EventModel::Begin) => (
            at_stage(run, Stage::Preparing),
            silent(ActionModel::CreateDirectory(run.out)),
        ),
        (Stage::Preparing, EventModel::DirectoryReady) => (
            at_stage(run, Stage::Discovering),
            silent(ActionModel::Discover(join(run.dir, vector_pattern()))),
        ),
        (Stage::Preparing, EventModel::DirectoryFailed(detail)) => (
            at_stage(run, Stage::Aborted),
            silent(ActionModel::Abort(TaskFault::Directory { path: run.out, detail })),
        ),
        (Stage::Discovering, EventModel::Discovered(files)) => if files.len() == 0 {
            (
                at_stage(run, Stage::Finished),
                StepModel {
                    action: ActionModel::Finish(summary_of(run)),
                    notices: seq![
                        NoticeModel {
                            level: Level::Warn,
                            message: empty_message(run.dir),
                            newline: true,
                        },
                    ],
                },
            )
        } else {
            next_file(
                quiet,
                with_files(run, discovered_in(run.dir, files)),
                unless_quiet(
                    quiet,
                    Seq::<NoticeModel>::empty(),
                    NoticeModel { level: Level::Info, message: found_message(), newline: true },
                ),
            )
        },
        (Stage::Discovering, EventModel::DiscoveryFailed(detail)) => (
            at_stage(run, Stage::Aborted),
            silent(
                ActionModel::Abort(
                    TaskFault::Discovery { pattern: join(run.dir, vector_pattern()), detail },
                ),
            ),
        ),
        (Stage::Placing, EventModel::DirectoryReady) => read_step(
            quiet,
            run,
            Seq::<NoticeModel>::empty(),
        ),
        (Stage::Placing, EventModel::DirectoryFailed(detail)) => (
            at_stage(run, Stage::Aborted),
            silent(
                ActionModel::Abort(
                    TaskFault::Directory { path: directory_of(current_output(run)), detail },
                ),
            ),
        ),
        (Stage::Reading, EventModel::SourceRead(_)) => converted_step(quiet, run, conversion),
        (Stage::Reading, EventModel::SourceUnreadable(detail)) => file_ended(
            quiet,
            run,
            failed_at(ErrorKind::Read, detail),
        ),
        (Stage::Writing, EventModel::Written) => file_ended(quiet, run, None),
        (Stage::Writing, EventModel::WriteFailed(detail)) => file_ended(
            quiet,
            run,
            failed_at(ErrorKind::Write, detail),
        ),
        _ => (run, silent(ActionModel::Rejected)),
    }
}

/// Makes a line of output.
fn make_notice(level: Level, message: String, newline: bool) -> (notice: Notice)
    ensures
        notice@ == (NoticeModel { level, message: message@, newline }),
{
    Notice { level, message, newline }
}

/// Adds a line to the lines of a step.
fn add_notice(notices: &mut Vec<Notice>, notice: Notice)
    ensures
        notices_of(final(notices)@) == notices_of(old(notices)@).push(notice@),
{
    notices.push(notice);
    assert(notices_of(notices@) =~= notices_of(old(notices)@).push(notice@));
}

/// Adds a line to the lines of a step unless the converter is quiet.
fn add_unless_quiet(quiet: bool, notices: &mut Vec<Notice>, notice: Notice)
    ensures
        notices_of(final(notices)@) == unless_quiet(quiet, notices_of(old(notices)@), notice@),
{
    if !quiet {
        add_notice(notices, notice);
    }
}

/// No lines.
fn no_notices() -> (notices: Vec<Notice>)
    ensures
        notices_of(notices@) == Seq::<NoticeModel>::empty(),
{
    let notices: Vec<Notice> = Vec::new();
    assert(notices_of(notices@) =~= Seq::<NoticeModel>::empty());
    notices
}

/// A step without lines to print.
fn silent_step(action: DirectoryAction) -> (step: DirectoryStep)
    ensures
        step@ == silent(action@),
{
    DirectoryStep { action, notices: no_notices() }
}

/// The words of the first entry that the search could not read, if there
/// is one.
pub open spec fn first_error(entries: Seq<Result<String, String>>) -> Option<Seq<char>>
    decreases entries.len(),
{
    if entries.len() == 0 {
        None
    } else {
        match entries[0] {
            Err(detail) => Some(detail@),
            Ok(_) => first_error(entries.skip(1)),
        }
    }
}

/// The path of an entry that the search could read.
pub open spec fn path_of(entry: Result<String, String>) -> Seq<char> {
    match entry {
        Ok(path) => path@,
        Err(_) => Seq::<char>::empty(),
    }
}

/// What the entries of a search tell: the source files, in the order of
/// the entries, where the search could read them all; a failed discovery,
/// with the words of the first entry that it could not read, otherwise.
pub open spec fn discovery_of(entries: Seq<Result<String, String>>) -> EventModel {
    match first_error(entries) {
        Some(detail) => EventModel::DiscoveryFailed(detail),
        None => EventModel::Discovered(
            entries.map_values(|entry: Result<String, String>| path_of(entry)),
        ),
    }
}

/// Decides what the entries of a search tell the task.
///
/// Each entry is a path that matched, or the words of the search on what
/// it could not read. One entry that could not be read fails the
/// discovery, and with it the task: no file is left out in silence.
pub fn discovery_event(entries: Vec<Result<String, String>>) -> (event: DirectoryEvent)
    ensures
        event@ == discovery_of(entries@),
{
    let ghost all = entries@;
    let ghost to_path = |entry: Result<String, String>| path_of(entry);
    let mut paths: Vec<String> = Vec::new();
    let mut i: usize = 0;
    assert(all.skip(0) =~= all);
    while i < entries.len()
        invariant
            i <= entries.len(),
            all == entries@,
            to_path == |entry: Result<String, String>| path_of(entry),
            first_error(all) == first_error(all.skip(i as int)),
            paths@.len() == i,
            forall|k: int| 0 <= k < i ==> (#[trigger] paths@[k])@ == path_of(all[k]),
        decreases entries.len() - i,
    {
        let ghost rest = all.skip(i as int);
        assert(rest[0] == all[i as int]);
        assert(rest.skip(1) =~= all.skip(i + 1));
        match &entries[i] {
            Err(detail) => {
                return DirectoryEvent::DiscoveryFailed(detail.clone());
            },
            Ok(path) => {
                paths.push(path.clone());
            },
        }
        i = i + 1;
    }
    assert(all.skip(i as int).len() == 0);
    assert(texts_of(paths@) =~= all.map_values(to_path));
    DirectoryEvent::Discovered(paths)
}

/// Pairs each discovered path with its path as seen from the source
/// directory.
pub fn discover(source_dir: &str, paths: &Vec<String>) -> (files: Vec<DiscoveredFile>)
    ensures
        files_of(files@) == discovered_in(source_dir@, texts_of(paths@)),
{
    let mut files: Vec<DiscoveredFile> = Vec::new();
    let mut i: usize = 0;
    while i < paths.len()
        invariant
            i <= paths.len(),
            files@.len() == i,
            files_of(files@) == discovered_in(source_dir@, texts_of(paths@).take(i as int)),
        decreases paths.len() - i,
    {
        let ghost before = files_of(files@);
        let relative = relative_path(source_dir, paths[i].as_str());
        files.push(DiscoveredFile { path: paths[i].clone(), relative });
        proof {
            let after = discovered_in(source_dir@, texts_of(paths@).take(i + 1));
            assert forall|j: int| 0 <= j < i + 1 implies files_of(files@)[j] == after[j] by {
                if j < i {
                    assert(files_of(files@)[j] == before[j]);
                    assert(texts_of(paths@).take(i as int)[j] == texts_of(paths@).take(i + 1)[j]);
                }
            }
            assert(files_of(files@) =~= after);
        }
        i = i + 1;
    }
    assert(texts_of(paths@).take(i as int) =~= texts_of(paths@));
    files
}

/// A second list of rules that says the same as the first.
fn duplicate_rules(rules: &Vec<Color>) -> (copy: Vec<Color>)
    ensures
        rules_of(copy@) == rules_of(rules@),
{
    let mut copy: Vec<Color> = Vec::new();
    let mut i: usize = 0;
    while i < rules.len()
        invariant
            i <= rules.len(),
            copy@.len() == i,
            forall|k: int| 0 <= k < i ==> (#[trigger] copy@[k])@ == rules@[k]@,
        decreases rules.len() - i,
    {
        copy.push(rules[i].duplicate());
        i = i + 1;
    }
    assert(rules_of(copy@) =~= rules_of(rules@));
    copy
}

impl DirectoryRun {
    /// Whether the counts of the task fit its stage.
    pub open spec fn wf(&self) -> bool {
        well_formed(self@)
    }

    /// A task that is yet to be taken up.
    pub fn new(task_name: &str, task: &Task) -> (run: DirectoryRun)
        ensures
            run.wf(),
            run@ == (RunModel {
                task_name: task_name@,
                dir: task@.dir,
                out: task@.out,
                colors: task@.colors,
                preserve_subdirs: task@.preserve_subdirs,
                stage: Stage::Fresh,
                files: Seq::<FileModel>::empty(),
                success: 0,
                failure: 0,
            }),
    {
        let colors = match &task.colors {
            Some(rules) => Some(duplicate_rules(rules)),
            None => None,
        };
        let run = DirectoryRun {
            task_name: task_name.to_owned(),
            dir: task.dir.clone(),
            out: task.out.clone(),
            colors,
            preserve_subdirs: task.preserve_subdirs,
            stage: Stage::Fresh,
            files: Vec::new(),
            success: 0,
            failure: 0,
        };
        assert(files_of(run.files@) =~= Seq::<FileModel>::empty());
        run
    }

    /// How far the task has come.
    pub fn stage(&self) -> (stage: Stage)
        ensures
            stage == self@.stage,
    {
        self.stage
    }

    /// The count of the task as it stands.
    pub fn summary(&self) -> (summary: TaskSummary)
        ensures
            summary@ == summary_of(self@),
    {
        TaskSummary {
            task_name: self.task_name.clone(),
            discovered: self.files.len(),
            success: self.success,
            failure: self.failure,
        }
    }

    /// The path of the file in work below the source directory.
    fn relative_now(&self) -> (relative: String)
        requires
            self.success + self.failure < self.files.len(),
        ensures
            relative@ == current_relative(self@),
    {
        let k = self.success + self.failure;
        self.files[k].relative.clone()
    }

    /// The path to which the result of the file in work is written.
    fn output_now(&self) -> (output: String)
        requires
            self.success + self.failure < self.files.len(),
        ensures
            output@ == current_output(self@),
    {
        let relative = self.relative_now();
        resolve(self.dir.as_str(), self.out.as_str(), relative.as_str(), self.preserve_subdirs)
    }

    /// The step that asks for the file in work to be read.
    fn ask_read(self, quiet: bool, notices: Vec<Notice>) -> (next: (DirectoryRun, DirectoryStep))
        requires
            self.success + self.failure < self.files.len(),
        ensures
            (next.0@, next.1@) == read_step(quiet, self@, notices_of(notices@)),
    {
        let mut run = self;
        let mut notices = notices;
        let k = run.success + run.failure;
        let relative = run.relative_now();
        let mut message = "Processing item: ".to_owned();
        message.append(relative.as_str());
        message.append(" ...");
        add_unless_quiet(quiet, &mut notices, make_notice(Level::Info, message, false));
        let source = run.files[k].path.clone();
        run.stage = Stage::Reading;
        (run, DirectoryStep { action: DirectoryAction::ReadSource(source), notices })
    }

    /// The step that takes up the next file, or closes the task.
    fn take_next(self, quiet: bool, notices: Vec<Notice>) -> (next: (DirectoryRun, DirectoryStep))
        requires
            self.success + self.failure <= self.files.len(),
        ensures
            (next.0@, next.1@) == next_file(quiet, self@, notices_of(notices@)),
    {
        let mut run = self;
        let mut notices = notices;
        let k = run.success + run.failure;
        if k >= run.files.len() {
            let mut message = "Finished processing ".to_owned();
            message.append(decimal_text(run.files.len()).as_str());
            message.append(" file(s) (");
            message.append(run.task_name.as_str());
            message.append(")");
            add_notice(&mut notices, make_notice(Level::Done, message, true));
            let summary = run.summary();
            run.stage = Stage::Finished;
            (run, DirectoryStep { action: DirectoryAction::Finish(summary), notices })
        } else {
            let output = run.output_now();
            let parent = parent_directory(output.as_str());
            if !parent.as_str().is_empty() {
                run.stage = Stage::Placing;
                (run, DirectoryStep { action: DirectoryAction::CreateDirectory(parent), notices })
            } else {
                run.ask_read(quiet, notices)
            }
        }
    }

    /// The step that follows the end of the file in work.
    fn end_file(self, quiet: bool, outcome: ConversionOutcome) -> (next: (
        DirectoryRun,
        DirectoryStep,
    ))
        requires
            self.success + self.failure < self.files.len(),
        ensures
            (next.0@, next.1@) == file_ended(quiet, self@, outcome@),
    {
        let mut run = self;
        let ghost before = run@;
        let mut notices = no_notices();
        match outcome {
            ConversionOutcome::Success => {
                add_unless_quiet(
                    quiet,
                    &mut notices,
                    make_notice(Level::Done, String::new(), true),
                );
                run.success = run.success + 1;
            },
            ConversionOutcome::Failure(cause) => {
                let relative = run.relative_now();
                let mut message = "Failed to process ".to_owned();
                message.append(relative.as_str());
                message.append(": ");
                message.append(cause.as_str());
                add_notice(&mut notices, make_notice(Level::Error, message, true));
                assert(notices_of(notices@) =~= outcome_notices(quiet, before, Some(cause@)));
                run.failure = run.failure + 1;
            },
        }
        assert(run@ == counted(before, outcome@));
        run.take_next(quiet, notices)
    }

    /// The step that follows the conversion of the text of the file in
    /// work.
    fn after_conversion(self, quiet: bool, conversion: Result<Vec<u8>, ConversionError>) -> (next:
        (DirectoryRun, DirectoryStep))
        requires
            self.success + self.failure < self.files.len(),
        ensures
            (next.0@, next.1@) == converted_step(quiet, self@, conversion_of(conversion)),
    {
        let mut run = self;
        match conversion {
            Ok(bytes) => {
                let path = run.output_now();
                run.stage = Stage::Writing;
                (run, silent_step(DirectoryAction::WriteResult { path, bytes }))
            },
            Err(error) => {
                let outcome = ConversionOutcome::from_result(&Err(error));
                run.end_file(quiet, outcome)
            },
        }
    }
}

impl Converter {
    /// Takes a task one step further.
    ///
    /// `run` is the task as it stands and `event` what the caller tells of
    /// the work it was asked to do. The result is the task afterwards and
    /// the next step: what to do, and the lines to print before doing it.
    /// What does not fit the stage of the task is rejected and changes
    /// nothing.
    ///
    /// Where the caller hands over the text of a source file, the text is
    /// converted here: the task's colour rules are applied to it, what they
    /// leave is handed to the parser, and the step is the one that follows
    /// from what this conversion has come to. For every other event the
    /// step is fixed by the task and the event alone.
    pub fn process_directory(&self, run: DirectoryRun, event: DirectoryEvent) -> (next: (
        DirectoryRun,
        DirectoryStep,
    ))
        requires
            run.wf(),
        ensures
            next.0.wf(),
            exists|conversion: Result<Seq<u8>, ConversionFault>|
                fails_in_conversion(conversion) && (next.0@, next.1@) == #[trigger] directory_step(
                    self.quiet,
                    run@,
                    event@,
                    conversion,
                ),
            (run@.stage == Stage::Reading && event@ is SourceRead) ==> exists|
                handed: &str,
                encoded: Result<Vec<u8>, ConversionError>,
            |
                handed@ == handed_to_parser(event@->SourceRead_0, run@.colors)
                    && #[trigger] is_rasterization(handed, encoded) && (next.0@, next.1@)
                    == directory_step(self.quiet, run@, event@, conversion_of(encoded)),
    {
        let quiet = self.quiet;
        let ghost before = run@;
        let ghost told = event@;
        let ghost none = Err::<Seq<u8>, ConversionFault>(
            ConversionFault { kind: ErrorKind::Parse, detail: Seq::<char>::empty() },
        );
        let mut run = run;
        assert(run.success + run.failure <= run.files.len());
        let next = match event {
            DirectoryEvent::Begin => match run.stage {
                Stage::Fresh => {
                    let path = run.out.clone();
                    run.stage = Stage::Preparing;
                    (run, silent_step(DirectoryAction::CreateDirectory(path)))
                },
                _ => (run, silent_step(DirectoryAction::Rejected)),
            },
            DirectoryEvent::DirectoryReady => match run.stage {
                Stage::Preparing => {
                    let pattern = discovery_pattern(run.dir.as_str());
                    run.stage = Stage::Discovering;
                    (run, silent_step(DirectoryAction::Discover(pattern)))
                },
                Stage::Placing => run.ask_read(quiet, no_notices()),
                _ => (run, silent_step(DirectoryAction::Rejected)),
            },
            DirectoryEvent::DirectoryFailed(detail) => match run.stage {
                Stage::Preparing => {
                    let path = run.out.clone();
                    run.stage = Stage::Aborted;
                    (
                        run,
                        silent_step(
                            DirectoryAction::Abort(TaskError::Directory { path, detail }),
                        ),
                    )
                },
                Stage::Placing => {
                    let output = run.output_now();
                    let path = parent_directory(output.as_str());
                    run.stage = Stage::Aborted;
                    (
                        run,
                        silent_step(
                            DirectoryAction::Abort(TaskError::Directory { path, detail }),
                        ),
                    )
                },
                _ => (run, silent_step(DirectoryAction::Rejected)),
            },
            DirectoryEvent::Discovered(files) => match run.stage {
                Stage::Discovering => {
                    if files.len() == 0 {
                        let mut message = "No SVG files found in: ".to_owned();
                        message.append(run.dir.as_str());
                        let mut notices = no_notices();
                        add_notice(&mut notices, make_notice(Level::Warn, message, true));
                        assert(notices_of(notices@) =~= seq![
                            NoticeModel {
                                level: Level::Warn,
                                message: empty_message(before.dir),
                                newline: true,
                            },
                        ]);
                        let summary = run.summary();
                        run.stage = Stage::Finished;
                        (run, DirectoryStep { action: DirectoryAction::Finish(summary), notices })
                    } else {
                        let mut notices = no_notices();
                        add_unless_quiet(
                            quiet,
                            &mut notices,
                            make_notice(Level::Info, "SVG files found".to_owned(), true),
                        );
                        run.files = discover(run.dir.as_str(), &files);
                        assert(run@ == with_files(
                            before,
                            discovered_in(before.dir, texts_of(files@)),
                        ));
                        run.take_next(quiet, notices)
                    }
                },
                _ => (run, silent_step(DirectoryAction::Rejected)),
            },
            DirectoryEvent::DiscoveryFailed(detail) => match run.stage {
                Stage::Discovering => {
                    let pattern = discovery_pattern(run.dir.as_str());
                    run.stage = Stage::Aborted;
                    (
                        run,
                        silent_step(
                            DirectoryAction::Abort(TaskError::Discovery { pattern, detail }),
                        ),
                    )
                },
                _ => (run, silent_step(DirectoryAction::Rejected)),
            },
            DirectoryEvent::SourceRead(text) => match run.stage {
                Stage::Reading => {
                    let conversion = self.svg_to_png(text.as_str(), run.colors.as_ref());
                    let ghost made = conversion;
                    let ghost came = conversion_of(conversion);
                    let ghost handed = choose|handed: &str|
                        handed@ == handed_to_parser(text@, before.colors) && is_rasterization(
                            handed,
                            made,
                        );
                    let next = run.after_conversion(quiet, conversion);
                    proof {
                        lemma_step_keeps_well_formed(quiet, before, told, came);
                        assert((next.0@, next.1@) == directory_step(quiet, before, told, came));
                        assert(handed@ == handed_to_parser(text@, before.colors)
                            && is_rasterization(handed, made));
                    }
                    return next;
                },
                _ => (run, silent_step(DirectoryAction::Rejected)),
            },
            DirectoryEvent::SourceUnreadable(detail) => match run.stage {
                Stage::Reading => {
                    let outcome = ConversionOutcome::from_result(
                        &Err(ConversionError::Read(detail)),
                    );
                    run.end_file(quiet, outcome)
                },
                _ => (run, silent_step(DirectoryAction::Rejected)),
            },
            DirectoryEvent::Written => match run.stage {
                Stage::Writing => run.end_file(quiet, ConversionOutcome::Success),
                _ => (run, silent_step(DirectoryAction::Rejected)),
            },
            DirectoryEvent::WriteFailed(detail) => match run.stage {
                Stage::Writing => {
                    let outcome = ConversionOutcome::from_result(
                        &Err(ConversionError::Write(detail)),
                    );
                    run.end_file(quiet, outcome)
                },
                _ => (run, silent_step(DirectoryAction::Rejected)),
            },
        };
        proof {
            lemma_step_keeps_well_formed(quiet, before, told, none);
            assert((next.0@, next.1@) == directory_step(quiet, before, told, none));
        }
        next
    }

    /// Takes a task one step further from a file's text that was converted
    /// already: the step that `process_directory` takes when it is handed
    /// the text, for a conversion that has come to `conversion`. A task
    /// that does not wait for a file's text stays as it is.
    pub fn file_converted(
        &self,
        run: DirectoryRun,
        conversion: Result<Vec<u8>, ConversionError>,
    ) -> (next: (DirectoryRun, DirectoryStep))
        requires
            run.wf(),
        ensures
            next.0.wf(),
            (next.0@, next.1@) == if run@.stage == Stage::Reading {
                converted_step(self.quiet, run@, conversion_of(conversion))
            } else {
                (run@, silent(ActionModel::Rejected))
            },
    {
        let ghost before = run@;
        proof {
            lemma_step_keeps_well_formed(
                self.quiet,
                before,
                EventModel::SourceRead(Seq::<char>::empty()),
                conversion_of(conversion),
            );
        }
        assert(run.success + run.failure <= run.files.len());
        match run.stage {
            Stage::Reading => run.after_conversion(self.quiet, conversion),
            _ => (run, silent_step(DirectoryAction::Rejected)),
        }
    }
}

/// A step keeps the counts of a task in line with its stage.
pub proof fn lemma_step_keeps_well_formed(
    quiet: bool,
    run: RunModel,
    event: EventModel,
    conversion: Result<Seq<u8>, ConversionFault>,
)
    requires
        well_formed(run),
    ensures
        well_formed(directory_step(quiet, run, event, conversion).0),
{
}

/// Only the text of a source file makes a step rest on a conversion: for
/// everything else that the caller can tell, the step is the same whatever
/// the conversion.
pub proof fn lemma_step_rests_on_conversion_only_for_a_text(
    quiet: bool,
    run: RunModel,
    event: EventModel,
    one: Result<Seq<u8>, ConversionFault>,
    other: Result<Seq<u8>, ConversionFault>,
)
    requires
        !(run.stage == Stage::Reading && event is SourceRead),
    ensures
        directory_step(quiet, run, event, one) == directory_step(quiet, run, event, other),
{
}

/// A task without source files ends at once, with a count of nothing and
/// without an error.
pub proof fn lemma_empty_task_finishes(
    quiet: bool,
    run: RunModel,
    conversion: Result<Seq<u8>, ConversionFault>,
)
    requires
        well_formed(run),
        run.stage == Stage::Discovering,
    ensures
        ({
            let next = directory_step(
                quiet,
                run,
                EventModel::Discovered(Seq::<Seq<char>>::empty()),
                conversion,
            );
            &&& next.0.stage == Stage::Finished
            &&& next.1.action == ActionModel::Finish(
                SummaryModel { task_name: run.task_name, discovered: 0, success: 0, failure: 0 },
            )
        }),
{
}

/// Whether a step ends the file in work with a failure: the file cannot
/// be read, its text cannot be converted, or its result cannot be written.
pub open spec fn fails_the_file(
    run: RunModel,
    event: EventModel,
    conversion: Result<Seq<u8>, ConversionFault>,
) -> bool {
    ||| run.stage == Stage::Reading && event is SourceUnreadable
    ||| run.stage == Stage::Reading && event is SourceRead && conversion is Err
    ||| run.stage == Stage::Writing && event is WriteFailed
}

/// A file that fails is counted as failed and nothing else: the task goes
/// on with the next file, or is closed where none is left. It is never
/// given up on that account.
pub proof fn lemma_failure_stays_with_its_file(
    quiet: bool,
    run: RunModel,
    event: EventModel,
    conversion: Result<Seq<u8>, ConversionFault>,
)
    requires
        well_formed(run),
        fails_the_file(run, event, conversion),
    ensures
        ({
            let next = directory_step(quiet, run, event, conversion);
            &&& next.0.failure == run.failure + 1
            &&& next.0.success == run.success
            &&& next.0.files == run.files
            &&& next.0.stage != Stage::Aborted
            &&& !(next.1.action is Abort)
            &&& !(next.1.action is Rejected)
            &&& next.1.notices.len() > 0
            &&& next.1.notices[0].level == Level::Error
        }),
{
}

/// A file counts as converted when its result was written, and then as
/// nothing else.
pub proof fn lemma_success_is_counted(
    quiet: bool,
    run: RunModel,
    conversion: Result<Seq<u8>, ConversionFault>,
)
    requires
        well_formed(run),
        run.stage == Stage::Writing,
    ensures
        ({
            let next = directory_step(quiet, run, EventModel::Written, conversion);
            &&& next.0.success == run.success + 1
            &&& next.0.failure == run.failure
            &&& next.0.files == run.files
        }),
{
}

/// A text that was converted is written, and to the place that the task's
/// output policy gives the file in work.
pub proof fn lemma_converted_text_is_written(
    quiet: bool,
    run: RunModel,
    text: Seq<char>,
    bytes: Seq<u8>,
)
    requires
        well_formed(run),
        run.stage == Stage::Reading,
    ensures
        ({
            let next = directory_step(quiet, run, EventModel::SourceRead(text), Ok(bytes));
            let file = run.files[cursor(run)];
            &&& next.0.stage == Stage::Writing
            &&& next.1.action == ActionModel::WriteResult {
                path: resolve_path(
                    run.out,
                    relative_to(run.dir, file.path),
                    run.preserve_subdirs,
                ),
                bytes,
            }
        }),
{
}

/// The count that closes a task holds every discovered file once, as
/// converted or as failed.
pub proof fn lemma_summary_counts_every_file(
    quiet: bool,
    run: RunModel,
    event: EventModel,
    conversion: Result<Seq<u8>, ConversionFault>,
)
    requires
        well_formed(run),
    ensures
        directory_step(quiet, run, event, conversion).1.action matches ActionModel::Finish(
            summary,
        ) ==> summary.discovered == summary.success + summary.failure && summary.discovered
            == directory_step(quiet, run, event, conversion).0.files.len(),
{
}

/// Files are taken up in the order of their discovery: the file asked for
/// is the one behind those that were counted.
pub proof fn lemma_files_in_discovery_order(
    quiet: bool,
    run: RunModel,
    event: EventModel,
    conversion: Result<Seq<u8>, ConversionFault>,
)
    requires
        well_formed(run),
    ensures
        directory_step(quiet, run, event, conversion).1.action matches ActionModel::ReadSource(
            source,
        ) ==> {
            let next = directory_step(quiet, run, event, conversion).0;
            &&& cursor(next) < next.files.len()
            &&& source == next.files[cursor(next)].path
        },
{
}

/// How many steps a task that has its files can still take at most: three
/// for each file that is not yet counted, less those that the file in work
/// has behind it.
pub open spec fn steps_left(run: RunModel) -> int {
    let files_left = run.files.len() - cursor(run);
    match run.stage {
        Stage::Placing => 3 * files_left,
        Stage::Reading => 3 * files_left - 1,
        Stage::Writing => 3 * files_left - 2,
        _ => 0,
    }
}

/// Once its files are discovered, a task comes to its end: every step that
/// is not rejected leaves fewer steps to take.
pub proof fn lemma_every_step_brings_the_end_closer(
    quiet: bool,
    run: RunModel,
    event: EventModel,
    conversion: Result<Seq<u8>, ConversionFault>,
)
    requires
        well_formed(run),
        run.stage == Stage::Placing || run.stage == Stage::Reading || run.stage == Stage::Writing,
    ensures
        ({
            let next = directory_step(quiet, run, event, conversion);
            !(next.1.action is Rejected) ==> 0 <= steps_left(next.0) < steps_left(run)
        }),
{
}

} // verus!
