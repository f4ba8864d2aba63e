//! The configuration: a list of named tasks.
//!
//! A configuration document is a JSON object. Each member names a task, and
//! its value is an object with the task's source directory under `dir`, its
//! output directory under `out`, and, if wanted, its colour rules under
//! `colors` and the flag `preserveSubdirs`. The two directories must be
//! given. The colour rules and the flag may be left out or be `null`, which
//! says the same. Members that have no meaning here are passed over.
//!
//! Tasks are kept in the order in which the document holds them.

use vstd::prelude::*;
use vstd::string::StringExecFns;
use crate::json::{
    distinct_names,
    error_text,
    json_document,
    json_flag,
    json_items,
    json_members,
    json_null,
    json_text,
    members_of,
    parse_value,
    value_flag,
    value_is_null,
    value_items,
    value_members,
    value_text,
    Members,
};
use crate::substitute::{rules_of, Color, Substitution};
use crate::text::same_text;

verus! {

/// One unit of work: the files of one directory, converted into another.
#[derive(Debug)]
pub struct Task {
    /// The directory that holds the source files.
    pub dir: String,
    /// The directory that the results are written to.
    pub out: String,
    /// The colour rules, applied to each file's text before it is parsed.
    pub colors: Option<Vec<Color>>,
    /// Whether results keep the subdirectories of their source files.
    pub preserve_subdirs: bool,
}

/// What a task says, as plain values.
pub struct TaskModel {
    pub dir: Seq<char>,
    pub out: Seq<char>,
    pub colors: Option<Seq<Substitution>>,
    pub preserve_subdirs: bool,
}

impl View for Task {
    type V = TaskModel;

    open spec fn view(&self) -> TaskModel {
        TaskModel {
            dir: self.dir@,
            out: self.out@,
            colors: match self.colors {
                Some(rules) => Some(rules_of(rules@)),
                None => None,
            },
            preserve_subdirs: self.preserve_subdirs,
        }
    }
}

/// The tasks of a configuration as plain values: names and tasks, in order.
pub type ConfigModel = Seq<(Seq<char>, TaskModel)>;

/// The tasks of a run, each under its name.
#[derive(Debug)]
pub struct Config {
    pub tasks: Vec<(String, Task)>,
}

impl View for Config {
    type V = ConfigModel;

    open spec fn view(&self) -> ConfigModel {
        self.tasks@.map_values(|entry: (String, Task)| (entry.0@, entry.1@))
    }
}

impl Config {
    /// Whether every task has a name of its own.
    pub open spec fn wf(&self) -> bool {
        forall|i: int, j: int|
            0 <= i < j < self.tasks@.len() ==> (#[trigger] self.tasks@[i]).0@ != (
            #[trigger] self.tasks@[j]).0@
    }
}

/// A member of a task or of a colour rule.
#[derive(Clone, Copy, Debug, PartialEq, Eq, Structural)]
pub enum Field {
    Dir,
    Out,
    Colors,
    PreserveSubdirs,
    Match,
    Replace,
}

/// Why a text is no configuration.
#[derive(Clone, Copy, Debug, PartialEq, Eq, Structural)]
pub enum FaultKind {
    /// The text is not well-formed JSON.
    Malformed,
    /// The document is not an object.
    NotAnObject,
    /// A task's value is not an object.
    TaskNotAnObject,
    /// A member that must be given is missing.
    MissingField(Field),
    /// A member holds a value of the wrong kind.
    WrongShape(Field),
}

/// Why a text is no configuration, and in which task the fault lies.
pub struct Fault {
    pub kind: FaultKind,
    /// The task's name; empty where the fault is the document's own.
    pub task: Seq<char>,
}

/// The error of reading a configuration.
#[derive(Debug)]
pub struct ConfigParseError {
    pub kind: FaultKind,
    /// The task's name; empty where the fault is the document's own.
    pub task: String,
    /// The parser's words, where the text is malformed.
    pub detail: String,
}

impl View for ConfigParseError {
    type V = Fault;

    open spec fn view(&self) -> Fault {
        Fault { kind: self.kind, task: self.task@ }
    }
}

/// Why no configuration could be had.
#[derive(Debug)]
pub enum ConfigError {
    /// The configuration file could not be read.
    Load(String),
    /// What was read is no configuration.
    Parse(ConfigParseError),
}

/// Why no configuration could be had, as plain values.
pub enum ConfigFault {
    Load(Seq<char>),
    Parse(Fault),
}

impl View for ConfigError {
    type V = ConfigFault;

    open spec fn view(&self) -> ConfigFault {
        match self {
            ConfigError::Load(detail) => ConfigFault::Load(detail@),
            ConfigError::Parse(error) => ConfigFault::Parse(error@),
        }
    }
}

/// What is wrong with a member, in words.
pub open spec fn kind_words(kind: FaultKind) -> Seq<char> {
    match kind {
        FaultKind::Malformed => "the text is not well-formed"@,
        FaultKind::NotAnObject => "the document is not an object"@,
        FaultKind::TaskNotAnObject => "the task is not an object"@,
        FaultKind::MissingField(field) => "missing field "@ + field_name(field),
        FaultKind::WrongShape(field) => "wrong kind of value for "@ + field_name(field),
    }
}

/// The task in which a fault lies, in words; nothing for a fault of the
/// document.
pub open spec fn task_words(task: Seq<char>) -> Seq<char> {
    if task.len() == 0 {
        task
    } else {
        " in task "@ + task
    }
}

/// What the parser had to say, as the end of a line; nothing where it said
/// nothing.
pub open spec fn detail_words(detail: Seq<char>) -> Seq<char> {
    if detail.len() == 0 {
        detail
    } else {
        ": "@ + detail
    }
}

/// Why a text is no configuration, in words: the fault, the task in which
/// it lies, and what the parser had to say.
pub open spec fn fault_words(fault: Fault, detail: Seq<char>) -> Seq<char> {
    "Failed to parse JSON configuration: "@ + kind_words(fault.kind) + task_words(fault.task)
        + detail_words(detail)
}

/// Why no configuration file was read, in words.
pub open spec fn load_words(detail: Seq<char>) -> Seq<char> {
    "Failed to read config file: "@ + detail
}

/// The name under which a member stands in the document.
pub open spec fn field_name(field: Field) -> Seq<char> {
    match field {
        Field::Dir => "dir"@,
        Field::Out => "out"@,
        Field::Colors => "colors"@,
        Field::PreserveSubdirs => "preserveSubdirs"@,
        Field::Match => "match"@,
        Field::Replace => "replace"@,
    }
}

/// The value of the first member called `name`, if there is one.
pub open spec fn member(members: Members, name: Seq<char>) -> Option<serde_json::Value>
    decreases members.len(),
{
    if members.len() == 0 {
        None
    } else if members[0].0 == name {
        Some(members[0].1)
    } else {
        member(members.skip(1), name)
    }
}

/// A member that must be given and must be text.
pub open spec fn required_text(members: Members, field: Field) -> Result<Seq<char>, FaultKind> {
    match member(members, field_name(field)) {
        None => Err(FaultKind::MissingField(field)),
        Some(value) => match json_text(value) {
            Some(text) => Ok(text),
            None => Err(FaultKind::WrongShape(field)),
        },
    }
}

/// A member that may be left out, or be `null`, and is then `false`; given,
/// it must be a boolean.
pub open spec fn optional_flag(members: Members, field: Field) -> Result<bool, FaultKind> {
    match member(members, field_name(field)) {
        None => Ok(false),
        Some(value) => if json_null(value) {
            Ok(false)
        } else {
            match json_flag(value) {
                Some(flag) => Ok(flag),
                None => Err(FaultKind::WrongShape(field)),
            }
        },
    }
}

/// One colour rule: an object with the texts `match` and `replace`.
pub open spec fn color_of(value: serde_json::Value) -> Result<Substitution, FaultKind> {
    match json_members(value) {
        None => Err(FaultKind::WrongShape(Field::Colors)),
        Some(members) => match required_text(members, Field::Match) {
            Err(kind) => Err(kind),
            Ok(pattern) => match required_text(members, Field::Replace) {
                Err(kind) => Err(kind),
                Ok(replacement) => Ok(Substitution { pattern, replacement }),
            },
        },
    }
}

/// The colour rules of a list, in order; the fault of the first element
/// that is no colour rule.
pub open spec fn colors_of(items: Seq<serde_json::Value>) -> Result<Seq<Substitution>, FaultKind>
    decreases items.len(),
{
    if items.len() == 0 {
        Ok(Seq::<Substitution>::empty())
    } else {
        match color_of(items[0]) {
            Err(kind) => Err(kind),
            Ok(rule) => match colors_of(items.skip(1)) {
                Err(kind) => Err(kind),
                Ok(rest) => Ok(seq![rule] + rest),
            },
        }
    }
}

/// The colour rules of a task: none where the member is left out or
/// `null`; given, it must be a list of colour rules.
pub open spec fn optional_colors(members: Members) -> Result<
    Option<Seq<Substitution>>,
    FaultKind,
> {
    match member(members, field_name(Field::Colors)) {
        None => Ok(None),
        Some(value) => if json_null(value) {
            Ok(None)
        } else {
            match json_items(value) {
                None => Err(FaultKind::WrongShape(Field::Colors)),
                Some(items) => match colors_of(items) {
                    Err(kind) => Err(kind),
                    Ok(rules) => Ok(Some(rules)),
                },
            }
        },
    }
}

/// The task that a value stands for. Its members are read in the order
/// `dir`, `out`, `colors`, `preserveSubdirs`, and the first fault is the
/// task's fault.
pub open spec fn task_of(value: serde_json::Value) -> Result<TaskModel, FaultKind> {
    match json_members(value) {
        None => Err(FaultKind::TaskNotAnObject),
        Some(members) => match required_text(members, Field::Dir) {
            Err(kind) => Err(kind),
            Ok(dir) => match required_text(members, Field::Out) {
                Err(kind) => Err(kind),
                Ok(out) => match optional_colors(members) {
                    Err(kind) => Err(kind),
                    Ok(colors) => match optional_flag(members, Field::PreserveSubdirs) {
                        Err(kind) => Err(kind),
                        Ok(preserve_subdirs) => Ok(
                            TaskModel { dir, out, colors, preserve_subdirs },
                        ),
                    },
                },
            },
        }
    }
}

/// The tasks that the members of a document stand for, in order; the fault
/// of the first member that is no task, with that member's name.
pub open spec fn tasks_of(entries: Members) -> Result<ConfigModel, Fault>
    decreases entries.len(),
{
    if entries.len() == 0 {
        Ok(ConfigModel::empty())
    } else {
        match task_of(entries[0].1) {
            Err(kind) => Err(Fault { kind, task: entries[0].0 }),
            Ok(task) => match tasks_of(entries.skip(1)) {
                Err(fault) => Err(fault),
                Ok(rest) => Ok(seq![(entries[0].0, task)] + rest),
            },
        }
    }
}

/// The configuration that a parsed document stands for.
pub open spec fn config_of(value: serde_json::Value) -> Result<ConfigModel, Fault> {
    match json_members(value) {
        None => Err(Fault { kind: FaultKind::NotAnObject, task: Seq::<char>::empty() }),
        Some(entries) => tasks_of(entries),
    }
}

/// The configuration that a text stands for.
pub open spec fn config_of_text(text: Seq<char>) -> Result<ConfigModel, Fault> {
    match json_document(text) {
        None => Err(Fault { kind: FaultKind::Malformed, task: Seq::<char>::empty() }),
        Some(value) => config_of(value),
    }
}

/// Whether every task of a list has a name of its own.
pub open spec fn distinct_task_names(tasks: ConfigModel) -> bool {
    forall|i: int, j: int|
        0 <= i < j < tasks.len() ==> (#[trigger] tasks[i]).0 != (#[trigger] tasks[j]).0
}

/// Whether the outcome of reading a configuration is the one that was due:
/// the tasks that were due, each under a name of its own, or the fault
/// that was due. Only for a text that is malformed does the error carry
/// words of the parser.
pub open spec fn is_outcome(
    outcome: Result<Config, ConfigParseError>,
    due: Result<ConfigModel, Fault>,
) -> bool {
    match outcome {
        Ok(config) => due == Ok::<ConfigModel, Fault>(config@) && config.wf(),
        Err(error) => due == Err::<ConfigModel, Fault>(error@) && (error.kind
            != FaultKind::Malformed ==> error.detail@.len() == 0),
    }
}

/// The name of a member, as the document spells it.
fn field_key(field: Field) -> (key: &'static str)
    ensures
        key@ == field_name(field),
{
    match field {
        Field::Dir => "dir",
        Field::Out => "out",
        Field::Colors => "colors",
        Field::PreserveSubdirs => "preserveSubdirs",
        Field::Match => "match",
        Field::Replace => "replace",
    }
}

/// Looks a member up by its name.
fn find_member<'a>(members: &Vec<(&'a String, &'a serde_json::Value)>, name: &str) -> (found:
    Option<&'a serde_json::Value>)
    ensures
        match found {
            Some(value) => member(members_of(members@), name@) == Some(*value),
            None => member(members_of(members@), name@) is None,
        },
{
    let ghost all = members_of(members@);
    let mut i: usize = 0;
    assert(all.skip(0) =~= all);
    while i < members.len()
        invariant
            i <= members.len(),
            all == members_of(members@),
            member(all, name@) == member(all.skip(i as int), name@),
        decreases members.len() - i,
    {
        let ghost rest = all.skip(i as int);
        assert(rest[0] == all[i as int]);
        assert(all[i as int] == (members@[i as int].0@, *members@[i as int].1));
        if same_text(members[i].0.as_str(), name) {
            return Some(members[i].1);
        }
        assert(rest.skip(1) =~= all.skip(i + 1));
        i = i + 1;
    }
    None
}

/// Reads a member that must be given and must be text.
fn read_text(members: &Vec<(&String, &serde_json::Value)>, field: Field) -> (text: Result<
    String,
    FaultKind,
>)
    ensures
        match text {
            Ok(t) => required_text(members_of(members@), field) == Ok::<Seq<char>, FaultKind>(t@),
            Err(kind) => required_text(members_of(members@), field) == Err::<
                Seq<char>,
                FaultKind,
            >(kind),
        },
{
    match find_member(members, field_key(field)) {
        None => Err(FaultKind::MissingField(field)),
        Some(value) => match value_text(value) {
            Some(t) => Ok(t.to_owned()),
            None => Err(FaultKind::WrongShape(field)),
        },
    }
}

/// Reads a boolean member that may be left out.
fn read_flag(members: &Vec<(&String, &serde_json::Value)>, field: Field) -> (flag: Result<
    bool,
    FaultKind,
>)
    ensures
        flag == optional_flag(members_of(members@), field),
{
    match find_member(members, field_key(field)) {
        None => Ok(false),
        Some(value) => {
            if value_is_null(value) {
                Ok(false)
            } else {
                match value_flag(value) {
                    Some(b) => Ok(b),
                    None => Err(FaultKind::WrongShape(field)),
                }
            }
        },
    }
}

/// Reads one colour rule.
fn read_color(value: &serde_json::Value) -> (rule: Result<Color, FaultKind>)
    ensures
        match rule {
            Ok(r) => color_of(*value) == Ok::<Substitution, FaultKind>(r@),
            Err(kind) => color_of(*value) == Err::<Substitution, FaultKind>(kind),
        },
{
    match value_members(value) {
        None => Err(FaultKind::WrongShape(Field::Colors)),
        Some(members) => match read_text(&members, Field::Match) {
            Err(kind) => Err(kind),
            Ok(match_color) => match read_text(&members, Field::Replace) {
                Err(kind) => Err(kind),
                Ok(replace) => Ok(Color { match_color, replace }),
            },
        },
    }
}

/// Reads the colour rules of a list.
fn read_colors(items: &Vec<serde_json::Value>) -> (rules: Result<Vec<Color>, FaultKind>)
    ensures
        match rules {
            Ok(list) => colors_of(items@) == Ok::<Seq<Substitution>, FaultKind>(rules_of(list@)),
            Err(kind) => colors_of(items@) == Err::<Seq<Substitution>, FaultKind>(kind),
        },
{
    let ghost all = items@;
    let mut list: Vec<Color> = Vec::new();
    let mut i: usize = 0;
    assert(all.skip(0) =~= all);
    assert(rules_of(list@) + Seq::<Substitution>::empty() =~= rules_of(list@));
    while i < items.len()
        invariant
            i <= items.len(),
            all == items@,
            match colors_of(all.skip(i as int)) {
                Ok(rest) => colors_of(all) == Ok::<Seq<Substitution>, FaultKind>(
                    rules_of(list@) + rest,
                ),
                Err(kind) => colors_of(all) == Err::<Seq<Substitution>, FaultKind>(kind),
            },
        decreases items.len() - i,
    {
        let ghost rest = all.skip(i as int);
        let ghost before = rules_of(list@);
        assert(rest[0] == items@[i as int]);
        assert(rest.skip(1) =~= all.skip(i + 1));
        match read_color(&items[i]) {
            Err(kind) => {
                return Err(kind);
            },
            Ok(rule) => {
                let ghost said = rule@;
                list.push(rule);
                assert(rules_of(list@) =~= before.push(said));
                assert forall|tail: Seq<Substitution>|
                    before + (seq![said] + tail) == #[trigger] (rules_of(list@) + tail) by {
                    assert(before + (seq![said] + tail) =~= rules_of(list@) + tail);
                }
            },
        }
        i = i + 1;
    }
    assert(all.skip(i as int).len() == 0);
    assert(rules_of(list@) + Seq::<Substitution>::empty() =~= rules_of(list@));
    Ok(list)
}

/// Reads the colour rules of a task.
fn read_optional_colors(members: &Vec<(&String, &serde_json::Value)>) -> (colors: Result<
    Option<Vec<Color>>,
    FaultKind,
>)
    ensures
        match colors {
            Ok(Some(list)) => optional_colors(members_of(members@)) == Ok::<
                Option<Seq<Substitution>>,
                FaultKind,
            >(Some(rules_of(list@))),
            Ok(None) => optional_colors(members_of(members@)) == Ok::<
                Option<Seq<Substitution>>,
                FaultKind,
            >(None),
            Err(kind) => optional_colors(members_of(members@)) == Err::<
                Option<Seq<Substitution>>,
                FaultKind,
            >(kind),
        },
{
    match find_member(members, field_key(Field::Colors)) {
        None => Ok(None),
        Some(value) => {
            if value_is_null(value) {
                Ok(None)
            } else {
                match value_items(value) {
                    None => Err(FaultKind::WrongShape(Field::Colors)),
                    Some(items) => match read_colors(items) {
                        Err(kind) => Err(kind),
                        Ok(list) => Ok(Some(list)),
                    },
                }
            }
        },
    }
}

/// Reads one task.
fn read_task(value: &serde_json::Value) -> (task: Result<Task, FaultKind>)
    ensures
        match task {
            Ok(t) => task_of(*value) == Ok::<TaskModel, FaultKind>(t@),
            Err(kind) => task_of(*value) == Err::<TaskModel, FaultKind>(kind),
        },
{
    let members = match value_members(value) {
        None => {
            return Err(FaultKind::TaskNotAnObject);
        },
        Some(members) => members,
    };
    let dir = match read_text(&members, Field::Dir) {
        Err(kind) => {
            return Err(kind);
        },
        Ok(dir) => dir,
    };
    let out = match read_text(&members, Field::Out) {
        Err(kind) => {
            return Err(kind);
        },
        Ok(out) => out,
    };
    let colors = match read_optional_colors(&members) {
        Err(kind) => {
            return Err(kind);
        },
        Ok(colors) => colors,
    };
    let preserve_subdirs = match read_flag(&members, Field::PreserveSubdirs) {
        Err(kind) => {
            return Err(kind);
        },
        Ok(flag) => flag,
    };
    Ok(Task { dir, out, colors, preserve_subdirs })
}

impl ConfigParseError {
    /// The error in words, for a line of output.
    pub fn describe(&self) -> (words: String)
        ensures
            words@ == fault_words(self@, self.detail@),
    {
        let what = match self.kind {
            FaultKind::Malformed => "the text is not well-formed".to_owned(),
            FaultKind::NotAnObject => "the document is not an object".to_owned(),
            FaultKind::TaskNotAnObject => "the task is not an object".to_owned(),
            FaultKind::MissingField(field) => {
                let mut what = "missing field ".to_owned();
                what.append(field_key(field));
                what
            },
            FaultKind::WrongShape(field) => {
                let mut what = "wrong kind of value for ".to_owned();
                what.append(field_key(field));
                what
            },
        };
        let mut words = "Failed to parse JSON configuration: ".to_owned();
        words.append(what.as_str());
        let ghost head = words@;
        if !self.task.as_str().is_empty() {
            words.append(" in task ");
            words.append(self.task.as_str());
        }
        assert(words@ =~= head + task_words(self.task@));
        if !self.detail.as_str().is_empty() {
            words.append(": ");
            words.append(self.detail.as_str());
        }
        assert(words@ =~= head + task_words(self.task@) + detail_words(self.detail@));
        words
    }
}

impl ConfigError {
    /// The error in words, for a line of output.
    pub fn describe(&self) -> (words: String)
        ensures
            words@ == match self {
                ConfigError::Load(detail) => load_words(detail@),
                ConfigError::Parse(error) => fault_words(error@, error.detail@),
            },
    {
        match self {
            ConfigError::Load(detail) => {
                let mut words = "Failed to read config file: ".to_owned();
                words.append(detail.as_str());
                words
            },
            ConfigError::Parse(error) => error.describe(),
        }
    }
}

/// Reads a configuration off a parsed document.
///
/// The document must be an object, and the value of each of its members a
/// task. The first member that is none decides the error, which names it.
pub fn config_from_value(value: &serde_json::Value) -> (outcome: Result<Config, ConfigParseError>)
    ensures
        is_outcome(outcome, config_of(*value)),
{
    let entries = match value_members(value) {
        None => {
            return Err(
                ConfigParseError {
                    kind: FaultKind::NotAnObject,
                    task: String::new(),
                    detail: String::new(),
                },
            );
        },
        Some(entries) => entries,
    };
    let ghost all = members_of(entries@);
    let mut tasks: Vec<(String, Task)> = Vec::new();
    let mut i: usize = 0;
    let ghost view_of = |entry: (String, Task)| (entry.0@, entry.1@);
    assert(all.skip(0) =~= all);
    assert(tasks@.map_values(view_of) + ConfigModel::empty()
        =~= tasks@.map_values(view_of));
    while i < entries.len()
        invariant
            i <= entries.len(),
            all == members_of(entries@),
            json_members(*value) == Some(all),
            distinct_names(all),
            view_of == |entry: (String, Task)| (entry.0@, entry.1@),
            tasks@.len() == i,
            forall|k: int| 0 <= k < i ==> (#[trigger] tasks@[k]).0@ == all[k].0,
            match tasks_of(all.skip(i as int)) {
                Ok(rest) => tasks_of(all) == Ok::<ConfigModel, Fault>(
                    tasks@.map_values(view_of) + rest,
                ),
                Err(fault) => tasks_of(all) == Err::<ConfigModel, Fault>(fault),
            },
        decreases entries.len() - i,
    {
        let ghost rest = all.skip(i as int);
        let ghost before = tasks@.map_values(view_of);
        assert(rest[0] == all[i as int]);
        assert(all[i as int] == (entries@[i as int].0@, *entries@[i as int].1));
        assert(rest.skip(1) =~= all.skip(i + 1));
        match read_task(entries[i].1) {
            Err(kind) => {
                let task = entries[i].0.clone();
                return Err(ConfigParseError { kind, task, detail: String::new() });
            },
            Ok(task) => {
                let name = entries[i].0.clone();
                let ghost said = (name@, task@);
                tasks.push((name, task));
                assert(tasks@.map_values(view_of) =~= before.push(said));
                assert forall|tail: ConfigModel|
                    before + (seq![said] + tail) == #[trigger] (tasks@.map_values(view_of)
                        + tail) by {
                    assert(before + (seq![said] + tail) =~= tasks@.map_values(view_of) + tail);
                }
            },
        }
        i = i + 1;
    }
    assert(all.skip(i as int).len() == 0);
    assert(tasks@.map_values(view_of) + ConfigModel::empty()
        =~= tasks@.map_values(view_of));
    let config = Config { tasks };
    assert(config.wf()) by {
        assert forall|a: int, b: int| 0 <= a < b < config.tasks@.len() implies (
        #[trigger] config.tasks@[a]).0@ != (#[trigger] config.tasks@[b]).0@ by {
            assert(all[a].0 != all[b].0);
        }
    }
    Ok(config)
}

/// Reads a configuration off the text of a configuration document.
///
/// Fails where the text is not well-formed JSON, where the document is not
/// an object, and where a task lacks its source or output directory or
/// holds a member of the wrong kind.
pub fn parse_config(text: &str) -> (outcome: Result<Config, ConfigParseError>)
    ensures
        is_outcome(outcome, config_of_text(text@)),
{
    match parse_value(text) {
        Err(error) => Err(
            ConfigParseError {
                kind: FaultKind::Malformed,
                task: String::new(),
                detail: error_text(&error),
            },
        ),
        Ok(value) => config_from_value(&value),
    }
}

} // verus!
