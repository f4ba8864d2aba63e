//! Working through a configuration.
//!
//! A run reads the configuration file, reads the tasks off it, and takes
//! the tasks up one after another, in the order in which the document holds
//! them. As with a single task, the caller does what touches the file
//! system and tells what came of it, and this module decides what is next.
//!
//! A run fails only where no configuration can be had. A task that is
//! given up is reported, and the next task is taken up; files that failed
//! are counted in their task's summary and do not touch the run's result.

use vstd::prelude::*;
use vstd::string::StringExecFns;
use crate::config::{
    config_of_text,
    distinct_task_names,
    parse_config,
    Config,
    ConfigError,
    ConfigFault,
    ConfigModel,
    Task,
};
use crate::converter::Converter;
use crate::directory::{task_fault_words, SummaryModel, TaskError, TaskFault, TaskSummary};
use crate::report::{notices_of, Level, Notice, NoticeModel};

verus! {

/// How far a run has come.
#[derive(Clone, Copy, Debug, PartialEq, Eq, Structural)]
pub enum RunStage {
    /// Nothing was done yet.
    Fresh,
    /// The configuration file is being read.
    Loading,
    /// A task is in work.
    Running,
    /// Every task was taken up.
    Finished,
    /// No configuration could be had.
    Failed,
}

/// How a run ended.
#[derive(Debug)]
pub enum RunResult {
    /// Every task was taken up; so many came to their end, and so many
    /// were given up.
    Completed { finished: usize, aborted: usize },
    /// No configuration could be had, and no task was taken up.
    Failed(ConfigError),
}

/// How a run ended, as plain values.
pub enum ResultModel {
    Completed { finished: nat, aborted: nat },
    Failed(ConfigFault),
}

impl View for RunResult {
    type V = ResultModel;

    open spec fn view(&self) -> ResultModel {
        match self {
            RunResult::Completed { finished, aborted } => ResultModel::Completed {
                finished: *finished as nat,
                aborted: *aborted as nat,
            },
            RunResult::Failed(error) => ResultModel::Failed(error@),
        }
    }
}

/// The exit status that stands for a result: zero for a run that was
/// completed, whatever its files did, and one for a run that failed.
pub open spec fn exit_status(result: ResultModel) -> int {
    match result {
        ResultModel::Completed { .. } => 0,
        ResultModel::Failed(_) => 1,
    }
}

impl RunResult {
    /// The exit status of the process.
    pub fn exit_code(&self) -> (code: i32)
        ensures
            code == exit_status(self@),
    {
        match self {
            RunResult::Completed { .. } => 0,
            RunResult::Failed(_) => 1,
        }
    }
}

/// What the caller tells of the work it did.
#[derive(Debug)]
pub enum ConfigEvent {
    /// The run is to be taken up.
    Begin,
    /// The text of the configuration file.
    ConfigRead(String),
    /// The configuration file could not be read.
    ConfigUnreadable(String),
    /// The task asked for came to its end, with this count.
    TaskFinished(TaskSummary),
    /// The task asked for was given up.
    TaskAborted(TaskError),
}

/// What the caller tells, as plain values.
pub enum ConfigEventModel {
    Begin,
    ConfigRead(Seq<char>),
    ConfigUnreadable(Seq<char>),
    TaskFinished(SummaryModel),
    TaskAborted(TaskFault),
}

impl View for ConfigEvent {
    type V = ConfigEventModel;

    open spec fn view(&self) -> ConfigEventModel {
        match self {
            ConfigEvent::Begin => ConfigEventModel::Begin,
            ConfigEvent::ConfigRead(text) => ConfigEventModel::ConfigRead(text@),
            ConfigEvent::ConfigUnreadable(detail) => ConfigEventModel::ConfigUnreadable(detail@),
            ConfigEvent::TaskFinished(summary) => ConfigEventModel::TaskFinished(summary@),
            ConfigEvent::TaskAborted(error) => ConfigEventModel::TaskAborted(error@),
        }
    }
}

/// What the caller is to do next.
#[derive(Debug)]
pub enum ConfigAction {
    /// Read the file at this path as text.
    ReadConfig(String),
    /// Print a blank line and the header, then work through the task with
    /// this index and tell how it ended.
    RunTask { index: usize, header: Notice },
    /// The run is over.
    Done(RunResult),
    /// What was told does not fit the stage of the run; nothing changed.
    Rejected,
}

/// What is to be done next, as plain values.
pub enum ConfigActionModel {
    ReadConfig(Seq<char>),
    RunTask { index: nat, header: NoticeModel },
    Done(ResultModel),
    Rejected,
}

impl View for ConfigAction {
    type V = ConfigActionModel;

    open spec fn view(&self) -> ConfigActionModel {
        match self {
            ConfigAction::ReadConfig(path) => ConfigActionModel::ReadConfig(path@),
            ConfigAction::RunTask { index, header } => ConfigActionModel::RunTask {
                index: *index as nat,
                header: header@,
            },
            ConfigAction::Done(result) => ConfigActionModel::Done(result@),
            ConfigAction::Rejected => ConfigActionModel::Rejected,
        }
    }
}

/// One step of a run: what to do next, and the lines to print before.
#[derive(Debug)]
pub struct ConfigStep {
    pub action: ConfigAction,
    pub notices: Vec<Notice>,
}

/// One step of a run as plain values.
pub struct ConfigStepModel {
    pub action: ConfigActionModel,
    pub notices: Seq<NoticeModel>,
}

impl View for ConfigStep {
    type V = ConfigStepModel;

    open spec fn view(&self) -> ConfigStepModel {
        ConfigStepModel { action: self.action@, notices: notices_of(self.notices@) }
    }
}

/// A run in work.
#[derive(Debug)]
pub struct ConfigRun {
    config_path: String,
    stage: RunStage,
    config: Config,
    summaries: Vec<TaskSummary>,
    aborted: usize,
}

/// A run in work as plain values. The task in work is the one behind those
/// that ended.
pub struct ConfigRunModel {
    pub config_path: Seq<char>,
    pub stage: RunStage,
    pub tasks: ConfigModel,
    pub summaries: Seq<SummaryModel>,
    pub aborted: nat,
}

/// The counts of a list of summaries.
pub open spec fn summaries_of(list: Seq<TaskSummary>) -> Seq<SummaryModel> {
    list.map_values(|summary: TaskSummary| summary@)
}

impl View for ConfigRun {
    type V = ConfigRunModel;

    closed spec fn view(&self) -> ConfigRunModel {
        ConfigRunModel {
            config_path: self.config_path@,
            stage: self.stage,
            tasks: self.config@,
            summaries: summaries_of(self.summaries@),
            aborted: self.aborted as nat,
        }
    }
}

/// Whether the counts of a run fit its stage: no more tasks ended than the
/// configuration holds, a task is in work only while one is left, a
/// finished run has taken them all up, and before the configuration is read
/// there are none.
pub open spec fn run_well_formed(run: ConfigRunModel) -> bool {
    &&& run.summaries.len() + run.aborted <= run.tasks.len()
    &&& run.stage == RunStage::Running ==> run.summaries.len() + run.aborted < run.tasks.len()
    &&& run.stage == RunStage::Finished ==> run.summaries.len() + run.aborted == run.tasks.len()
    &&& (run.stage == RunStage::Fresh || run.stage == RunStage::Loading || run.stage
        == RunStage::Failed) ==> run.tasks.len() == 0
}

/// The line that tells which file is read.
pub open spec fn loading_message(path: Seq<char>) -> Seq<char> {
    "Loading configuration from "@ + path
}

/// The line that heads a task.
pub open spec fn task_header(name: Seq<char>) -> Seq<char> {
    "Processing task: "@ + name
}

/// A run at another stage.
pub open spec fn run_at(run: ConfigRunModel, stage: RunStage) -> ConfigRunModel {
    ConfigRunModel {
        config_path: run.config_path,
        stage,
        tasks: run.tasks,
        summaries: run.summaries,
        aborted: run.aborted,
    }
}

/// A run with the tasks that were read for it.
pub open spec fn with_tasks(run: ConfigRunModel, tasks: ConfigModel) -> ConfigRunModel {
    ConfigRunModel {
        config_path: run.config_path,
        stage: run.stage,
        tasks,
        summaries: run.summaries,
        aborted: run.aborted,
    }
}

/// A run with one more task that came to its end.
pub open spec fn with_summary(run: ConfigRunModel, summary: SummaryModel) -> ConfigRunModel {
    ConfigRunModel {
        config_path: run.config_path,
        stage: run.stage,
        tasks: run.tasks,
        summaries: run.summaries.push(summary),
        aborted: run.aborted,
    }
}

/// A run with one more task that was given up.
pub open spec fn with_abort(run: ConfigRunModel) -> ConfigRunModel {
    ConfigRunModel {
        config_path: run.config_path,
        stage: run.stage,
        tasks: run.tasks,
        summaries: run.summaries,
        aborted: run.aborted + 1,
    }
}

/// The index of the task in work: the number of tasks that ended.
pub open spec fn task_cursor(run: ConfigRunModel) -> nat {
    run.summaries.len() + run.aborted
}

/// A step without lines to print.
pub open spec fn plain(action: ConfigActionModel) -> ConfigStepModel {
    ConfigStepModel { action, notices: Seq::<NoticeModel>::empty() }
}

/// The step that takes up the next task, or ends the run where none is
/// left.
pub open spec fn next_task(run: ConfigRunModel, notices: Seq<NoticeModel>) -> (
    ConfigRunModel,
    ConfigStepModel,
) {
    if task_cursor(run) >= run.tasks.len() {
        (
            run_at(run, RunStage::Finished),
            ConfigStepModel {
                action: ConfigActionModel::Done(
                    ResultModel::Completed {
                        finished: run.summaries.len(),
                        aborted: run.aborted,
                    },
                ),
                notices,
            },
        )
    } else {
        (
            run_at(run, RunStage::Running),
            ConfigStepModel {
                action: ConfigActionModel::RunTask {
                    index: task_cursor(run),
                    header: NoticeModel {
                        level: Level::Task,
                        message: task_header(run.tasks[task_cursor(run) as int].0),
                        newline: true,
                    },
                },
                notices,
            },
        )
    }
}

/// What follows from what the caller tells: the run afterwards, and the
/// step to take.
pub open spec fn config_step(quiet: bool, run: ConfigRunModel, event: ConfigEventModel) -> (
    ConfigRunModel,
    ConfigStepModel,
) {
    match (run.stage, event) {
        (RunStage::Fresh, ConfigEventModel::Begin) => (
            run_at(run, RunStage::Loading),
            ConfigStepModel {
                action: ConfigActionModel::ReadConfig(run.config_path),
                notices: if quiet {
                    Seq::<NoticeModel>::empty()
                } else {
                    seq![
                        NoticeModel {
                            level: Level::Info,
                            message: loading_message(run.config_path),
                            newline: true,
                        },
                    ]
                },
            },
        ),
        (RunStage::Loading, ConfigEventModel::ConfigUnreadable(detail)) => (
            run_at(run, RunStage::Failed),
            plain(ConfigActionModel::Done(ResultModel::Failed(ConfigFault::Load(detail)))),
        ),
        (RunStage::Loading, ConfigEventModel::ConfigRead(text)) => match config_of_text(text) {
            Err(fault) => (
                run_at(run, RunStage::Failed),
                plain(ConfigActionModel::Done(ResultModel::Failed(ConfigFault::Parse(fault)))),
            ),
            Ok(tasks) => next_task(with_tasks(run, tasks), Seq::<NoticeModel>::empty()),
        },
        (RunStage::Running, ConfigEventModel::TaskFinished(summary)) => next_task(
            with_summary(run, summary),
            Seq::<NoticeModel>::empty(),
        ),
        (RunStage::Running, ConfigEventModel::TaskAborted(fault)) => next_task(
            with_abort(run),
            seq![
                NoticeModel {
                    level: Level::Error,
                    message: task_fault_words(fault),
                    newline: true,
                },
            ],
        ),
        _ => (run, plain(ConfigActionModel::Rejected)),
    }
}

/// A step without lines to print.
fn plain_step(action: ConfigAction) -> (step: ConfigStep)
    ensures
        step@ == plain(action@),
{
    let notices: Vec<Notice> = Vec::new();
    assert(notices_of(notices@) =~= Seq::<NoticeModel>::empty());
    ConfigStep { action, notices }
}

impl ConfigRun {
    /// Whether the counts of the run fit its stage, and every task has a
    /// name of its own.
    pub open spec fn wf(&self) -> bool {
        &&& run_well_formed(self@)
        &&& distinct_task_names(self@.tasks)
    }

    /// A run that is yet to be taken up.
    pub fn new(config_path: &str) -> (run: ConfigRun)
        ensures
            run.wf(),
            run@ == (ConfigRunModel {
                config_path: config_path@,
                stage: RunStage::Fresh,
                tasks: ConfigModel::empty(),
                summaries: Seq::<SummaryModel>::empty(),
                aborted: 0,
            }),
    {
        let run = ConfigRun {
            config_path: config_path.to_owned(),
            stage: RunStage::Fresh,
            config: Config { tasks: Vec::new() },
            summaries: Vec::new(),
            aborted: 0,
        };
        assert(run.config@ =~= ConfigModel::empty());
        assert(summaries_of(run.summaries@) =~= Seq::<SummaryModel>::empty());
        run
    }

    /// How far the run has come.
    pub fn stage(&self) -> (stage: RunStage)
        ensures
            stage == self@.stage,
    {
        self.stage
    }

    /// The number of tasks of the configuration; none before it is read.
    pub fn task_count(&self) -> (count: usize)
        ensures
            count == self@.tasks.len(),
    {
        self.config.tasks.len()
    }

    /// The name and the task at `index`, if the configuration holds so
    /// many.
    pub fn task(&self, index: usize) -> (entry: Option<(&str, &Task)>)
        ensures
            match entry {
                Some((name, task)) => index < self@.tasks.len() && self@.tasks[index as int] == (
                    name@,
                    task@,
                ),
                None => index >= self@.tasks.len(),
            },
    {
        if index < self.config.tasks.len() {
            let entry = &self.config.tasks[index];
            Some((entry.0.as_str(), &entry.1))
        } else {
            None
        }
    }

    /// The counts of the tasks that came to their end, in order.
    pub fn summaries(&self) -> (list: &Vec<TaskSummary>)
        ensures
            summaries_of(list@) == self@.summaries,
    {
        &self.summaries
    }

    /// The step that takes up the next task, or ends the run.
    fn take_next(self, notices: Vec<Notice>) -> (next: (ConfigRun, ConfigStep))
        requires
            self.summaries.len() + self.aborted <= self.config.tasks.len(),
        ensures
            (next.0@, next.1@) == next_task(self@, notices_of(notices@)),
            next.0.config == self.config,
    {
        let mut run = self;
        let index = run.summaries.len() + run.aborted;
        if index >= run.config.tasks.len() {
            let result = RunResult::Completed {
                finished: run.summaries.len(),
                aborted: run.aborted,
            };
            run.stage = RunStage::Finished;
            (run, ConfigStep { action: ConfigAction::Done(result), notices })
        } else {
            let mut message = "Processing task: ".to_owned();
            message.append(run.config.tasks[index].0.as_str());
            let header = Notice { level: Level::Task, message, newline: true };
            run.stage = RunStage::Running;
            (run, ConfigStep { action: ConfigAction::RunTask { index, header }, notices })
        }
    }
}

impl Converter {
    /// Takes a run one step further.
    ///
    /// `run` is the run as it stands and `event` what the caller tells of
    /// the work it was asked to do. The result is the run afterwards and
    /// the next step: what to do, and the lines to print before doing it.
    /// What does not fit the stage of the run is rejected and changes
    /// nothing.
    pub fn process_config(&self, run: ConfigRun, event: ConfigEvent) -> (next: (
        ConfigRun,
        ConfigStep,
    ))
        requires
            run.wf(),
        ensures
            next.0.wf(),
            (next.0@, next.1@) == config_step(self.quiet, run@, event@),
    {
        let quiet = self.quiet;
        let ghost before = run@;
        let ghost told = event@;
        proof {
            lemma_run_step_keeps_well_formed(quiet, before, told);
        }
        let mut run = run;
        assert(run.summaries.len() + run.aborted <= run.config.tasks.len());
        match event {
            ConfigEvent::Begin => match run.stage {
                RunStage::Fresh => {
                    let mut notices: Vec<Notice> = Vec::new();
                    if !quiet {
                        let mut message = "Loading configuration from ".to_owned();
                        message.append(run.config_path.as_str());
                        notices.push(Notice { level: Level::Info, message, newline: true });
                    }
                    assert(notices_of(notices@) =~= config_step(quiet, before, told).1.notices);
                    let path = run.config_path.clone();
                    run.stage = RunStage::Loading;
                    (run, ConfigStep { action: ConfigAction::ReadConfig(path), notices })
                },
                _ => (run, plain_step(ConfigAction::Rejected)),
            },
            ConfigEvent::ConfigUnreadable(detail) => match run.stage {
                RunStage::Loading => {
                    run.stage = RunStage::Failed;
                    (
                        run,
                        plain_step(
                            ConfigAction::Done(RunResult::Failed(ConfigError::Load(detail))),
                        ),
                    )
                },
                _ => (run, plain_step(ConfigAction::Rejected)),
            },
            ConfigEvent::ConfigRead(text) => match run.stage {
                RunStage::Loading => match parse_config(text.as_str()) {
                    Err(error) => {
                        run.stage = RunStage::Failed;
                        (
                            run,
                            plain_step(
                                ConfigAction::Done(RunResult::Failed(ConfigError::Parse(error))),
                            ),
                        )
                    },
                    Ok(config) => {
                        run.config = config;
                        assert(run@ == with_tasks(before, config@));
                        let notices: Vec<Notice> = Vec::new();
                        assert(notices_of(notices@) =~= Seq::<NoticeModel>::empty());
                        run.take_next(notices)
                    },
                },
                _ => (run, plain_step(ConfigAction::Rejected)),
            },
            ConfigEvent::TaskFinished(summary) => match run.stage {
                RunStage::Running => {
                    run.summaries.push(summary);
                    assert(summaries_of(run.summaries@) =~= before.summaries.push(summary@));
                    assert(run@ == with_summary(before, summary@));
                    let notices: Vec<Notice> = Vec::new();
                    assert(notices_of(notices@) =~= Seq::<NoticeModel>::empty());
                    run.take_next(notices)
                },
                _ => (run, plain_step(ConfigAction::Rejected)),
            },
            ConfigEvent::TaskAborted(error) => match run.stage {
                RunStage::Running => {
                    let mut notices: Vec<Notice> = Vec::new();
                    notices.push(
                        Notice { level: Level::Error, message: error.describe(), newline: true },
                    );
                    assert(notices_of(notices@) =~= seq![
                        NoticeModel {
                            level: Level::Error,
                            message: task_fault_words(error@),
                            newline: true,
                        },
                    ]);
                    run.aborted = run.aborted + 1;
                    assert(run@ == with_abort(before));
                    run.take_next(notices)
                },
                _ => (run, plain_step(ConfigAction::Rejected)),
            },
        }
    }
}

/// A step keeps the counts of a run in line with its stage.
pub proof fn lemma_run_step_keeps_well_formed(
    quiet: bool,
    run: ConfigRunModel,
    event: ConfigEventModel,
)
    requires
        run_well_formed(run),
    ensures
        run_well_formed(config_step(quiet, run, event).0),
{
}

/// A run fails only where no configuration can be had: the file cannot be
/// read, or what was read is no configuration. Whatever a task's files
/// did, and whether or not a task was given up, the run goes on and ends
/// as completed, with the exit status zero.
pub proof fn lemma_only_the_configuration_fails_a_run(
    quiet: bool,
    run: ConfigRunModel,
    event: ConfigEventModel,
)
    ensures
        config_step(quiet, run, event).1.action matches ConfigActionModel::Done(result) ==> {
            if run.stage == RunStage::Loading && (event is ConfigUnreadable || (
            event matches ConfigEventModel::ConfigRead(text) && config_of_text(text) is Err)) {
                result is Failed && exit_status(result) == 1
            } else {
                result is Completed && exit_status(result) == 0
            }
        },
{
}

/// Once a run has failed or is finished, no task is taken up any more.
pub proof fn lemma_ended_run_takes_nothing_up(
    quiet: bool,
    run: ConfigRunModel,
    event: ConfigEventModel,
)
    requires
        run.stage == RunStage::Failed || run.stage == RunStage::Finished,
    ensures
        config_step(quiet, run, event) == (run, plain(ConfigActionModel::Rejected)),
{
}

/// Tasks are taken up in the order of the configuration: the task asked
/// for is the one behind those that ended, and the run that ends has taken
/// up every task once.
pub proof fn lemma_tasks_in_document_order(
    quiet: bool,
    run: ConfigRunModel,
    event: ConfigEventModel,
)
    requires
        run_well_formed(run),
    ensures
        ({
            let next = config_step(quiet, run, event);
            &&& next.1.action matches ConfigActionModel::RunTask { index, header } ==> index
                == task_cursor(next.0) && index < next.0.tasks.len()
            &&& next.1.action matches ConfigActionModel::Done(
                ResultModel::Completed { finished, aborted },
            ) ==> finished + aborted == next.0.tasks.len()
        }),
{
}

/// A run comes to its end: each task that ends leaves one task fewer to
/// take up.
pub proof fn lemma_every_task_brings_the_end_closer(
    quiet: bool,
    run: ConfigRunModel,
    event: ConfigEventModel,
)
    requires
        run_well_formed(run),
        run.stage == RunStage::Running,
    ensures
        ({
            let next = config_step(quiet, run, event);
            !(next.1.action is Rejected) ==> next.0.tasks == run.tasks && task_cursor(next.0)
                == task_cursor(run) + 1
        }),
{
}

} // verus!
