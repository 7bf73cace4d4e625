//! The schedule store: task names and their declared cadences, read from a
//! TOML document.

use vstd::prelude::*;

use vstd::string::StringSliceAdditionalSpecFns;

use crate::nesting::{count_statement_marks, statement_marks};
use crate::schedule::{RawValue, RawValueView};

verus! {

/// Why no schedule store could be had.
#[derive(Clone, Copy, Debug, PartialEq, Eq, Structural)]
pub enum ConfigError {
    /// The configuration file is absent.
    Missing,
    /// The file is not a TOML document.
    Unparseable,
    /// The document's top level is not a table.
    NotMapping,
}

/// The line reported for a configuration error.
pub open spec fn config_error_text(e: ConfigError) -> Seq<char> {
    match e {
        ConfigError::Missing => "error: config does not exist"@,
        ConfigError::Unparseable => "error: could not read config"@,
        ConfigError::NotMapping => "didn't understand config"@,
    }
}

impl ConfigError {
    /// The line reported for this error.
    pub fn message(&self) -> (r: String)
        ensures
            r@ == config_error_text(*self),
    {
        match self {
            ConfigError::Missing => String::from_str("error: config does not exist"),
            ConfigError::Unparseable => String::from_str("error: could not read config"),
            ConfigError::NotMapping => String::from_str("didn't understand config"),
        }
    }
}

/// The mathematical value of a list of named entries.
pub open spec fn entries_view(v: Seq<(String, RawValue)>) -> Seq<(Seq<char>, RawValueView)> {
    v.map_values(|e: (String, RawValue)| (e.0@, e.1@))
}

/// No name occurs twice.
pub open spec fn names_distinct(es: Seq<(Seq<char>, RawValueView)>) -> bool {
    forall|i: int, j: int|
        0 <= i < j < es.len() ==> (#[trigger] es[i]).0 != (#[trigger] es[j]).0
}

/// The entries of the top-level table of a TOML document, each value taken
/// as a declared cadence, or why the text is no such table.
pub uninterp spec fn toml_entries(text: Seq<char>) -> Result<
    Seq<(Seq<char>, RawValueView)>,
    ConfigError,
>;

/// The most nesting marks (`[`, `{` and `.` outside strings and comments)
/// that one statement of a configuration may hold. toml's parser recurses
/// once per level of nesting, with no limit of its own; a value nests at
/// most twice this deep, which its stack bears.
pub const MAX_STATEMENT_MARKS: usize = 64;

/// Relies on toml's `FromStr` for `toml::Value` (`toml::from_str`) to parse
/// the document, and on its `Table` being a map whose keys are unique. The
/// parser recurses once per level of nesting, so the depth is bounded.
#[verifier::external_body]
fn parse_toml_table(text: &str) -> (r: Result<Vec<(String, RawValue)>, ConfigError>)
    requires
        statement_marks(text.spec_bytes()) <= MAX_STATEMENT_MARKS,
    ensures
        match r {
            Ok(v) => toml_entries(text@) == Ok::<_, ConfigError>(entries_view(v@)) && names_distinct(
                entries_view(v@),
            ),
            Err(e) => toml_entries(text@) == Err::<Seq<(Seq<char>, RawValueView)>, _>(e) && e
                != ConfigError::Missing,
        },
{
    match text.parse::<toml::Value>() {
        Ok(toml::Value::Table(t)) => Ok(t.into_iter().map(|(k, v)| (k, match v {
            toml::Value::Integer(i) => RawValue::Integer(i),
            toml::Value::String(s) => RawValue::Text(s),
            _ => RawValue::Other,
        })).collect()),
        Ok(_) => Err(ConfigError::NotMapping),
        Err(_) => Err(ConfigError::Unparseable),
    }
}

/// Task names, unique, each with its declared cadence, in the order in which
/// tasks are checked. Names are accepted as the document gives them, path
/// separators and `..` included; whoever derives a marker path from a name
/// decides what to do with such names.
pub struct ScheduleStore {
    entries: Vec<(String, RawValue)>,
}

impl View for ScheduleStore {
    type V = Seq<(Seq<char>, RawValueView)>;

    closed spec fn view(&self) -> Seq<(Seq<char>, RawValueView)> {
        entries_view(self.entries@)
    }
}

/// Builds the schedule store from the text of the configuration file. Text
/// with a statement of more than `MAX_STATEMENT_MARKS` nesting marks is
/// refused as unparseable.
pub fn get_config(text: &str) -> (r: Result<ScheduleStore, ConfigError>)
    ensures
        statement_marks(text.spec_bytes()) > MAX_STATEMENT_MARKS ==> r == Err::<ScheduleStore, _>(
            ConfigError::Unparseable,
        ),
        statement_marks(text.spec_bytes()) <= MAX_STATEMENT_MARKS ==> match r {
            Ok(store) => toml_entries(text@) == Ok::<_, ConfigError>(store@) && names_distinct(
                store@,
            ),
            Err(e) => toml_entries(text@) == Err::<Seq<(Seq<char>, RawValueView)>, _>(e) && e
                != ConfigError::Missing,
        },
{
    if count_statement_marks(text.as_bytes()) > MAX_STATEMENT_MARKS {
        return Err(ConfigError::Unparseable);
    }
    match parse_toml_table(text) {
        Ok(entries) => Ok(ScheduleStore { entries }),
        Err(e) => Err(e),
    }
}

impl ScheduleStore {
    /// The number of tasks.
    pub fn len(&self) -> (r: usize)
        ensures
            r == self@.len(),
    {
        self.entries.len()
    }

    /// The name of the task at `i`.
    pub fn name(&self, i: usize) -> (r: &String)
        requires
            i < self@.len(),
        ensures
            r@ == self@[i as int].0,
    {
        &self.entries[i].0
    }

    /// The declared cadence of the task at `i`.
    pub fn value(&self, i: usize) -> (r: &RawValue)
        requires
            i < self@.len(),
        ensures
            r@ == self@[i as int].1,
    {
        &self.entries[i].1
    }

    /// The position of the task called `name`, if there is one.
    pub fn find(&self, name: &str) -> (r: Option<usize>)
        ensures
            match r {
                Some(i) => i < self@.len() && self@[i as int].0 == name@,
                None => forall|j: int| 0 <= j < self@.len() ==> (#[trigger] self@[j]).0 != name@,
            },
    {
        let wanted = String::from_str(name);
        let mut i: usize = 0;
        while i < self.entries.len()
            invariant
                i <= self.entries@.len(),
                wanted@ == name@,
                forall|j: int| 0 <= j < i ==> (#[trigger] self@[j]).0 != name@,
            decreases self.entries@.len() - i,
        {
            if self.entries[i].0 == wanted {
                return Some(i);
            }
            i = i + 1;
        }
        None
    }
}

/// What `done` does for a named task.
#[derive(Clone, Debug, PartialEq, Eq)]
pub enum DoneAction {
    /// Touch the marker file of the task with this name.
    Touch(String),
    /// No such task: report this line and touch nothing.
    Unknown(String),
}

/// Decides what marking the task `item` done does: touch its marker when the
/// store declares it, else report it as unknown.
pub fn done_action(store: &ScheduleStore, item: &str) -> (r: DoneAction)
    ensures
        match r {
            DoneAction::Touch(name) => name@ == item@ && exists|j: int|
                0 <= j < store@.len() && (#[trigger] store@[j]).0 == item@,
            DoneAction::Unknown(line) => line@ == "unknown item "@ + item@ && forall|j: int|
                0 <= j < store@.len() ==> (#[trigger] store@[j]).0 != item@,
        },
{
    match store.find(item) {
        Some(i) => DoneAction::Touch(store.name(i).clone()),
        None => {
            let mut line = String::from_str("unknown item ");
            line.append(item);
            DoneAction::Unknown(line)
        },
    }
}

} // verus!
