//! Common configuration types, with the values they are written as.
use vstd::prelude::*;

use crate::levels::{
    ascii_lower, ascii_lowercase, slog_level_at, slog_level_name, slog_level_named,
    to_ascii_lowercase,
};
use crate::value::{
    field, field_of, lemma_view_entries, lemma_view_items, named_at, same_text, view_entries, Doc,
    FieldError, Value,
};

verus! {

broadcast use vstd::std_specs::vec::group_vec_axioms, vstd::seq::group_seq_axioms;

/// The modes in which a log file can be opened.
///
/// The default mode is `Append`.
#[derive(Debug, PartialEq, Eq, Structural, Copy, Clone)]
pub enum OpenMode {
    /// Appends to an already existing file or creates a new file if it does
    /// not exist.
    Append,
    /// Truncates an already existing file to 0 length before writing or
    /// creates a new file if it does not exist.
    Truncate,
    /// Creates a new file. No file is allowed to (already) exist at the
    /// target location.
    New,
}

impl Default for OpenMode {
    fn default() -> (r: Self)
        ensures
            r == OpenMode::Append,
    {
        OpenMode::Append
    }
}

/// The name an open mode is written as.
pub open spec fn open_mode_name(m: OpenMode) -> Seq<char> {
    match m {
        OpenMode::Append => "append"@,
        OpenMode::Truncate => "truncate"@,
        OpenMode::New => "new"@,
    }
}

/// The open mode that a value names.
pub open spec fn open_mode_of(d: Doc) -> Result<OpenMode, FieldError> {
    match d {
        Doc::Str(s) => if s == "append"@ {
            Ok(OpenMode::Append)
        } else if s == "truncate"@ {
            Ok(OpenMode::Truncate)
        } else if s == "new"@ {
            Ok(OpenMode::New)
        } else {
            Err(FieldError::UnknownVariant)
        },
        _ => Err(FieldError::InvalidType),
    }
}

impl OpenMode {
    /// The value this mode is written as.
    pub fn to_value(&self) -> (r: Value)
        ensures
            r@ == Doc::Str(open_mode_name(*self)),
    {
        match self {
            OpenMode::Append => Value::Str("append".to_owned()),
            OpenMode::Truncate => Value::Str("truncate".to_owned()),
            OpenMode::New => Value::Str("new".to_owned()),
        }
    }

    /// Reads an open mode from its name.
    pub fn from_value(v: &Value) -> (r: Result<OpenMode, FieldError>)
        ensures
            r == open_mode_of(v@),
    {
        match v {
            Value::Str(s) => if same_text(s, "append") {
                Ok(OpenMode::Append)
            } else if same_text(s, "truncate") {
                Ok(OpenMode::Truncate)
            } else if same_text(s, "new") {
                Ok(OpenMode::New)
            } else {
                Err(FieldError::UnknownVariant)
            },
            _ => Err(FieldError::InvalidType),
        }
    }
}

/// An open mode is read back from the value it is written as.
pub proof fn lemma_open_mode_round_trip(m: OpenMode)
    ensures
        open_mode_of(Doc::Str(open_mode_name(m))) == Ok::<OpenMode, FieldError>(m),
{
    reveal_strlit("append");
    reveal_strlit("truncate");
    reveal_strlit("new");
    assert("append"@.len() != "truncate"@.len());
    assert("append"@.len() != "new"@.len());
    assert("truncate"@.len() != "new"@.len());
}

/// The output target of a terminal-based logger.
///
/// Defaults to `Stdout`.
#[derive(Debug, PartialEq, Eq, Structural, Copy, Clone)]
pub enum TermTarget {
    /// The standard output stream.
    Stdout,
    /// The standard error stream.
    Stderr,
}

impl Default for TermTarget {
    fn default() -> (r: Self)
        ensures
            r == TermTarget::Stdout,
    {
        TermTarget::Stdout
    }
}

/// The name a terminal target is written as.
pub open spec fn term_target_name(t: TermTarget) -> Seq<char> {
    match t {
        TermTarget::Stdout => "stdout"@,
        TermTarget::Stderr => "stderr"@,
    }
}

/// The terminal target that a value names.
pub open spec fn term_target_of(d: Doc) -> Result<TermTarget, FieldError> {
    match d {
        Doc::Str(s) => if s == "stdout"@ {
            Ok(TermTarget::Stdout)
        } else if s == "stderr"@ {
            Ok(TermTarget::Stderr)
        } else {
            Err(FieldError::UnknownVariant)
        },
        _ => Err(FieldError::InvalidType),
    }
}

impl TermTarget {
    /// The value this target is written as.
    pub fn to_value(&self) -> (r: Value)
        ensures
            r@ == Doc::Str(term_target_name(*self)),
    {
        match self {
            TermTarget::Stdout => Value::Str("stdout".to_owned()),
            TermTarget::Stderr => Value::Str("stderr".to_owned()),
        }
    }

    /// Reads a terminal target from its name.
    pub fn from_value(v: &Value) -> (r: Result<TermTarget, FieldError>)
        ensures
            r == term_target_of(v@),
    {
        match v {
            Value::Str(s) => if same_text(s, "stdout") {
                Ok(TermTarget::Stdout)
            } else if same_text(s, "stderr") {
                Ok(TermTarget::Stderr)
            } else {
                Err(FieldError::UnknownVariant)
            },
            _ => Err(FieldError::InvalidType),
        }
    }
}

/// A terminal target is read back from the value it is written as.
pub proof fn lemma_term_target_round_trip(t: TermTarget)
    ensures
        term_target_of(Doc::Str(term_target_name(t))) == Ok::<TermTarget, FieldError>(t),
{
    reveal_strlit("stdout");
    reveal_strlit("stderr");
    assert("stdout"@[3] != "stderr"@[3]);
}

/// Timestamp format and time zone.
///
/// Defaults to `Rfc3339Utc`.
#[derive(Debug, PartialEq, Eq, Structural, Copy, Clone)]
pub enum Timestamp {
    /// UTC time in RFC-3339 format.
    Rfc3339Utc,
    /// Local time in RFC-3339 format.
    Rfc3339Local,
}

impl Default for Timestamp {
    fn default() -> (r: Self)
        ensures
            r == Timestamp::Rfc3339Utc,
    {
        Timestamp::Rfc3339Utc
    }
}

/// The name a timestamp format is written as.
pub open spec fn timestamp_name(t: Timestamp) -> Seq<char> {
    match t {
        Timestamp::Rfc3339Utc => "rfc3339-utc"@,
        Timestamp::Rfc3339Local => "rfc3339-local"@,
    }
}

/// The timestamp format that a value names.
pub open spec fn timestamp_of(d: Doc) -> Result<Timestamp, FieldError> {
    match d {
        Doc::Str(s) => if s == "rfc3339-utc"@ {
            Ok(Timestamp::Rfc3339Utc)
        } else if s == "rfc3339-local"@ {
            Ok(Timestamp::Rfc3339Local)
        } else {
            Err(FieldError::UnknownVariant)
        },
        _ => Err(FieldError::InvalidType),
    }
}

impl Timestamp {
    /// The value this format is written as.
    pub fn to_value(&self) -> (r: Value)
        ensures
            r@ == Doc::Str(timestamp_name(*self)),
    {
        match self {
            Timestamp::Rfc3339Utc => Value::Str("rfc3339-utc".to_owned()),
            Timestamp::Rfc3339Local => Value::Str("rfc3339-local".to_owned()),
        }
    }

    /// Reads a timestamp format from its name.
    pub fn from_value(v: &Value) -> (r: Result<Timestamp, FieldError>)
        ensures
            r == timestamp_of(v@),
    {
        match v {
            Value::Str(s) => if same_text(s, "rfc3339-utc") {
                Ok(Timestamp::Rfc3339Utc)
            } else if same_text(s, "rfc3339-local") {
                Ok(Timestamp::Rfc3339Local)
            } else {
                Err(FieldError::UnknownVariant)
            },
            _ => Err(FieldError::InvalidType),
        }
    }
}

/// A timestamp format is read back from the value it is written as.
pub proof fn lemma_timestamp_round_trip(t: Timestamp)
    ensures
        timestamp_of(Doc::Str(timestamp_name(t))) == Ok::<Timestamp, FieldError>(t),
{
    reveal_strlit("rfc3339-utc");
    reveal_strlit("rfc3339-local");
    assert("rfc3339-utc"@.len() != "rfc3339-local"@.len());
}

/// The output target of a logger that writes to the terminal or to files.
///
/// Defaults to `Stdout`.
#[derive(Debug, PartialEq, Eq, Clone)]
pub enum Target {
    /// The standard output stream.
    Stdout,
    /// The standard error stream.
    Stderr,
    /// A file.
    File {
        /// The path at which the file is located.
        path: String,
        /// The mode with which the file will be opened.
        mode: OpenMode,
    },
}

/// The mathematical model of a `Target`.
pub enum TargetModel {
    Stdout,
    Stderr,
    File(Seq<char>, OpenMode),
}

impl View for Target {
    type V = TargetModel;

    open spec fn view(&self) -> TargetModel {
        match self {
            Target::Stdout => TargetModel::Stdout,
            Target::Stderr => TargetModel::Stderr,
            Target::File { path, mode } => TargetModel::File(path@, *mode),
        }
    }
}

impl Default for Target {
    fn default() -> (r: Self)
        ensures
            r == Target::Stdout,
    {
        Target::Stdout
    }
}

/// The value a target is written as: the streams by name, a file as a
/// record of its path and mode.
pub open spec fn target_doc(t: TargetModel) -> Doc {
    match t {
        TargetModel::Stdout => Doc::Str("stdout"@),
        TargetModel::Stderr => Doc::Str("stderr"@),
        TargetModel::File(path, mode) => Doc::Record(
            seq![("path"@, Doc::Str(path)), ("mode"@, Doc::Str(open_mode_name(mode)))],
        ),
    }
}

/// The file target whose mode is `m`, or the absence of a mode, which means
/// the default mode.
pub open spec fn file_target(path: Seq<char>, m: Option<Doc>) -> Result<TargetModel, FieldError> {
    match m {
        None => Ok(TargetModel::File(path, OpenMode::Append)),
        Some(Doc::Unit) => Ok(TargetModel::File(path, OpenMode::Append)),
        Some(d) => match open_mode_of(d) {
            Ok(mode) => Ok(TargetModel::File(path, mode)),
            Err(e) => Err(e),
        },
    }
}

/// The target that a value reads as.
///
/// A string names a stream. A record is a file: its `path` is required, its
/// `mode` defaults to `Append`, other fields are ignored, and a doubled
/// `path` or `mode` is reported before a missing `path`. A sequence is a
/// file too, of exactly a path and a mode, where a unit mode means the
/// default.
pub open spec fn target_of(d: Doc) -> Result<TargetModel, FieldError> {
    match d {
        Doc::Str(s) => if s == "stdout"@ {
            Ok(TargetModel::Stdout)
        } else if s == "stderr"@ {
            Ok(TargetModel::Stderr)
        } else {
            Err(FieldError::UnknownVariant)
        },
        Doc::Record(es) => match (field_of(es, "path"@), field_of(es, "mode"@)) {
            (Err(e), _) => Err(e),
            (_, Err(e)) => Err(e),
            (Ok(None), _) => Err(FieldError::MissingField),
            (Ok(Some(Doc::Str(path))), Ok(m)) => file_target(path, m),
            (Ok(Some(_)), _) => Err(FieldError::InvalidType),
        },
        Doc::List(xs) => if xs.len() != 2 {
            Err(FieldError::InvalidLength)
        } else {
            match xs[0] {
                Doc::Str(path) => file_target(path, Some(xs[1])),
                _ => Err(FieldError::InvalidType),
            }
        },
        _ => Err(FieldError::InvalidType),
    }
}

/// Lifts a result to the model of the target it holds.
pub open spec fn target_result(r: Result<Target, FieldError>) -> Result<TargetModel, FieldError> {
    match r {
        Ok(t) => Ok(t@),
        Err(e) => Err(e),
    }
}

impl Target {
    /// The value this target is written as.
    pub fn to_value(&self) -> (r: Value)
        ensures
            r@ == target_doc(self@),
    {
        match self {
            Target::Stdout => Value::Str("stdout".to_owned()),
            Target::Stderr => Value::Str("stderr".to_owned()),
            Target::File { path, mode } => {
                let mut entries: Vec<(String, Value)> = Vec::new();
                entries.push(("path".to_owned(), Value::Str(path.clone())));
                entries.push(("mode".to_owned(), mode.to_value()));
                proof {
                    lemma_view_entries(entries@);
                    assert(view_entries(entries@) =~= seq![
                        ("path"@, Doc::Str(path@)),
                        ("mode"@, Doc::Str(open_mode_name(*mode))),
                    ]);
                }
                Value::Record(entries)
            },
        }
    }

    /// Reads the file target of the given path and mode value.
    fn file(path: &String, mode: Option<&Value>) -> (r: Result<Target, FieldError>)
        ensures
            target_result(r) == file_target(
                path@,
                match mode {
                    Some(v) => Some(v@),
                    None => None,
                },
            ),
    {
        match mode {
            None => Ok(Target::File { path: path.clone(), mode: OpenMode::Append }),
            Some(Value::Unit) => Ok(Target::File { path: path.clone(), mode: OpenMode::Append }),
            Some(v) => match OpenMode::from_value(v) {
                Ok(mode) => Ok(Target::File { path: path.clone(), mode }),
                Err(e) => Err(e),
            },
        }
    }

    /// Reads a target from the value it is written as.
    pub fn from_value(v: &Value) -> (r: Result<Target, FieldError>)
        ensures
            target_result(r) == target_of(v@),
    {
        match v {
            Value::Str(s) => if same_text(s, "stdout") {
                Ok(Target::Stdout)
            } else if same_text(s, "stderr") {
                Ok(Target::Stderr)
            } else {
                Err(FieldError::UnknownVariant)
            },
            Value::Record(entries) => match (field(entries, "path"), field(entries, "mode")) {
                (Err(e), _) => Err(e),
                (_, Err(e)) => Err(e),
                (Ok(None), _) => Err(FieldError::MissingField),
                (Ok(Some(Value::Str(path))), Ok(m)) => Target::file(path, m),
                (Ok(Some(_)), _) => Err(FieldError::InvalidType),
            },
            Value::List(items) => {
                proof {
                    lemma_view_items(items@);
                }
                if items.len() != 2 {
                    Err(FieldError::InvalidLength)
                } else {
                    match &items[0] {
                        Value::Str(path) => Target::file(path, Some(&items[1])),
                        _ => Err(FieldError::InvalidType),
                    }
                }
            },
            _ => Err(FieldError::InvalidType),
        }
    }
}

/// A target is read back from the value it is written as.
pub proof fn lemma_target_round_trip(t: TargetModel)
    ensures
        target_of(target_doc(t)) == Ok::<TargetModel, FieldError>(t),
{
    reveal_strlit("stdout");
    reveal_strlit("stderr");
    reveal_strlit("path");
    reveal_strlit("mode");
    assert("stdout"@[3] != "stderr"@[3]);
    if let TargetModel::File(path, mode) = t {
        let es = seq![("path"@, Doc::Str(path)), ("mode"@, Doc::Str(open_mode_name(mode)))];
        assert("path"@[0] != "mode"@[0]);
        lemma_single_field(es, 0, "path"@);
        lemma_single_field(es, 1, "mode"@);
        lemma_open_mode_round_trip(mode);
        reveal_strlit("append");
        reveal_strlit("truncate");
        reveal_strlit("new");
    }
}

/// A record whose name `k` stands at position `i` alone gives that entry as
/// the field named `k`.
pub proof fn lemma_single_field(es: Seq<(Seq<char>, Doc)>, i: int, k: Seq<char>)
    requires
        named_at(es, k, i),
        forall|j: int| 0 <= j < es.len() && j != i ==> es[j].0 != k,
    ensures
        field_of(es, k) == Ok::<Option<Doc>, FieldError>(Some(es[i].1)),
{
    assert(!exists|a: int, b: int| a != b && named_at(es, k, a) && named_at(es, k, b));
    let c = choose|j: int| named_at(es, k, j);
    assert(c == i);
}

/// Logging level for filtering.
///
/// Defaults to `Info`.
#[derive(Debug, PartialEq, Eq, Structural, Copy, Clone)]
pub enum Level {
    Critical,
    Error,
    Warning,
    Info,
    Debug,
    Trace,
}

impl Default for Level {
    fn default() -> (r: Self)
        ensures
            r == Level::Info,
    {
        Level::Info
    }
}

/// The level of this crate that stands for a level of `slog`.
pub open spec fn level_from_slog(l: slog::Level) -> Level {
    match l {
        slog::Level::Critical => Level::Critical,
        slog::Level::Error => Level::Error,
        slog::Level::Warning => Level::Warning,
        slog::Level::Info => Level::Info,
        slog::Level::Debug => Level::Debug,
        slog::Level::Trace => Level::Trace,
    }
}

/// The level of `slog` that a level of this crate stands for.
pub open spec fn level_to_slog(l: Level) -> slog::Level {
    match l {
        Level::Critical => slog::Level::Critical,
        Level::Error => slog::Level::Error,
        Level::Warning => slog::Level::Warning,
        Level::Info => slog::Level::Info,
        Level::Debug => slog::Level::Debug,
        Level::Trace => slog::Level::Trace,
    }
}

impl From<slog::Level> for Level {
    fn from(level: slog::Level) -> (r: Level)
        ensures
            r == level_from_slog(level),
    {
        match level {
            slog::Level::Critical => Level::Critical,
            slog::Level::Error => Level::Error,
            slog::Level::Warning => Level::Warning,
            slog::Level::Info => Level::Info,
            slog::Level::Debug => Level::Debug,
            slog::Level::Trace => Level::Trace,
        }
    }
}

impl vstd::std_specs::convert::FromSpecImpl<slog::Level> for Level {
    open spec fn obeys_from_spec() -> bool {
        true
    }

    open spec fn from_spec(v: slog::Level) -> Level {
        level_from_slog(v)
    }
}

/// The name a level is written as.
pub open spec fn level_name(l: Level) -> Seq<char> {
    match l {
        Level::Critical => "critical"@,
        Level::Error => "error"@,
        Level::Warning => "warning"@,
        Level::Info => "info"@,
        Level::Debug => "debug"@,
        Level::Trace => "trace"@,
    }
}

/// The level that a value reads as: a level name, as `slog` parses it, or
/// the number of a level.
pub open spec fn level_of(d: Doc) -> Result<Level, FieldError> {
    match d {
        Doc::Str(s) => match slog_level_named(s) {
            Ok(l) => Ok(level_from_slog(l)),
            Err(_) => Err(FieldError::UnknownVariant),
        },
        Doc::U64(n) => match slog_level_at(n as int) {
            Some(l) => Ok(level_from_slog(l)),
            None => Err(FieldError::InvalidValue),
        },
        _ => Err(FieldError::InvalidType),
    }
}

impl Level {
    /// The level of `slog` that this level stands for.
    pub fn to_slog(&self) -> (r: slog::Level)
        ensures
            r == level_to_slog(*self),
    {
        match self {
            Level::Critical => slog::Level::Critical,
            Level::Error => slog::Level::Error,
            Level::Warning => slog::Level::Warning,
            Level::Info => slog::Level::Info,
            Level::Debug => slog::Level::Debug,
            Level::Trace => slog::Level::Trace,
        }
    }

    /// The value this level is written as: the name that `slog` gives it, in
    /// lower case.
    pub fn to_value(&self) -> (r: Value)
        ensures
            r@ == Doc::Str(level_name(*self)),
    {
        let level = self.to_slog();
        let name = to_ascii_lowercase(level.as_str());
        proof {
            lemma_lower_level_name(*self);
        }
        Value::Str(name)
    }

    /// Reads a level from the value it is written as.
    pub fn from_value(v: &Value) -> (r: Result<Level, FieldError>)
        ensures
            r == level_of(v@),
    {
        match v {
            Value::Str(s) => match <slog::Level as std::str::FromStr>::from_str(s.as_str()) {
                Ok(l) => Ok(Level::from(l)),
                Err(_) => Err(FieldError::UnknownVariant),
            },
            Value::U64(n) => if *n <= 6 {
                match slog::Level::from_usize(*n as usize) {
                    Some(l) => Ok(Level::from(l)),
                    None => Err(FieldError::InvalidValue),
                }
            } else {
                Err(FieldError::InvalidValue)
            },
            _ => Err(FieldError::InvalidType),
        }
    }
}

proof fn lemma_lower_level_name(l: Level)
    ensures
        ascii_lowercase(slog_level_name(level_to_slog(l))) == level_name(l),
{
    reveal_strlit("CRITICAL");
    reveal_strlit("ERROR");
    reveal_strlit("WARNING");
    reveal_strlit("INFO");
    reveal_strlit("DEBUG");
    reveal_strlit("TRACE");
    reveal_strlit("critical");
    reveal_strlit("error");
    reveal_strlit("warning");
    reveal_strlit("info");
    reveal_strlit("debug");
    reveal_strlit("trace");
    assert(ascii_lowercase(slog_level_name(level_to_slog(l))) =~= level_name(l));
}

/// A level is read back from the value it is written as.
pub proof fn lemma_level_round_trip(l: Level)
    ensures
        level_of(Doc::Str(level_name(l))) == Ok::<Level, FieldError>(l),
{
    reveal_with_fuel(crate::levels::first_abbreviated, 8);
    reveal_strlit("OFF");
    reveal_strlit("CRITICAL");
    reveal_strlit("ERROR");
    reveal_strlit("WARNING");
    reveal_strlit("INFO");
    reveal_strlit("DEBUG");
    reveal_strlit("TRACE");
    reveal_strlit("critical");
    reveal_strlit("error");
    reveal_strlit("warning");
    reveal_strlit("info");
    reveal_strlit("debug");
    reveal_strlit("trace");
    let names = crate::levels::log_level_names();
    let n = level_name(l);
    assert(n[0] != 'o');
    match l {
        Level::Critical => {
            assert(crate::levels::abbreviates(names[1], n));
        },
        Level::Error => {
            assert(!crate::levels::abbreviates(names[1], n)) by { assert(ascii_lower(names[1][0]) != ascii_lower(n[0])); }
            assert(crate::levels::abbreviates(names[2], n));
        },
        Level::Warning => {
            assert(!crate::levels::abbreviates(names[1], n)) by { assert(ascii_lower(names[1][0]) != ascii_lower(n[0])); }
            assert(crate::levels::abbreviates(names[3], n));
        },
        Level::Info => {
            assert(!crate::levels::abbreviates(names[1], n)) by { assert(ascii_lower(names[1][0]) != ascii_lower(n[0])); }
            assert(!crate::levels::abbreviates(names[2], n)) by { assert(ascii_lower(names[2][0]) != ascii_lower(n[0])); }
            assert(!crate::levels::abbreviates(names[3], n)) by { assert(ascii_lower(names[3][0]) != ascii_lower(n[0])); }
            assert(crate::levels::abbreviates(names[4], n));
        },
        Level::Debug => {
            assert(!crate::levels::abbreviates(names[1], n)) by { assert(ascii_lower(names[1][0]) != ascii_lower(n[0])); }
            assert(!crate::levels::abbreviates(names[2], n)) by { assert(ascii_lower(names[2][0]) != ascii_lower(n[0])); }
            assert(!crate::levels::abbreviates(names[3], n)) by { assert(ascii_lower(names[3][0]) != ascii_lower(n[0])); }
            assert(crate::levels::abbreviates(names[5], n));
        },
        Level::Trace => {
            assert(!crate::levels::abbreviates(names[1], n)) by { assert(ascii_lower(names[1][0]) != ascii_lower(n[0])); }
            assert(!crate::levels::abbreviates(names[2], n)) by { assert(ascii_lower(names[2][0]) != ascii_lower(n[0])); }
            assert(!crate::levels::abbreviates(names[3], n)) by { assert(ascii_lower(names[3][0]) != ascii_lower(n[0])); }
            assert(!crate::levels::abbreviates(names[5], n)) by { assert(ascii_lower(names[5][0]) != ascii_lower(n[0])); }
            assert(crate::levels::abbreviates(names[6], n));
        },
    }
}

} // verus!
