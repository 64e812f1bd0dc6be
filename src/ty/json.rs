//! Configuration of a logger of type `json`: one JSON object per record, to a
//! stream or a file.
use vstd::prelude::*;

use crate::common::{
    lemma_level_round_trip, lemma_single_field, lemma_target_round_trip,
    lemma_timestamp_round_trip, level_name, level_of, target_doc, target_of, timestamp_name,
    timestamp_of, Level, Target, TargetModel, Timestamp,
};
use crate::common::level_to_slog;
use crate::output::{output, spec_output, Output};
use crate::identity::{Config as ConfigTrait, ConfigId, ConfigType};
use crate::value::{
    bool_of, field, field_of, lemma_view_entries, read_bool, same_text, view_entries,
    with_default, Doc, FieldError, Value,
};

verus! {

broadcast use vstd::std_specs::vec::group_vec_axioms, vstd::seq::group_seq_axioms;

/// The identity of the `json` configuration type.
pub const ID: u64 = 3;

/// Configuration of a logger of type `json`.
#[derive(Debug, Clone, PartialEq)]
pub struct Config {
    /// The target to which the logger should write.
    pub target: Target,
    /// The format in which a record should be displayed.
    pub format: Format,
    /// The minimal logging level the logger should output.
    pub level: Level,
    /// The timestamp format.
    pub timestamp: Timestamp,
    /// If set to `true`, start each entry on a new line.
    pub newlines: bool,
    /// If set to `true`, emit pretty-formatted json.
    pub pretty: bool,
}

impl Default for Config {
    fn default() -> (r: Self)
        ensures
            r@ == default_model(),
    {
        Config {
            target: Target::Stdout,
            format: Format::Basic,
            level: Level::Info,
            timestamp: Timestamp::Rfc3339Utc,
            newlines: newlines(),
            pretty: pretty(),
        }
    }
}

/// Whether each entry starts on a new line, where the configuration does
/// not say.
pub fn newlines() -> (r: bool)
    ensures
        r,
{
    true
}

/// Whether the output is pretty-formatted, where the configuration does not
/// say.
pub fn pretty() -> (r: bool)
    ensures
        !r,
{
    false
}

/// The mathematical model of a `json` configuration.
pub struct Model {
    pub target: TargetModel,
    pub format: Format,
    pub level: Level,
    pub timestamp: Timestamp,
    pub newlines: bool,
    pub pretty: bool,
}

/// The model of the default `json` configuration.
pub open spec fn default_model() -> Model {
    Model {
        target: TargetModel::Stdout,
        format: Format::Basic,
        level: Level::Info,
        timestamp: Timestamp::Rfc3339Utc,
        newlines: true,
        pretty: false,
    }
}

impl View for Config {
    type V = Model;

    open spec fn view(&self) -> Model {
        Model {
            target: self.target@,
            format: self.format,
            level: self.level,
            timestamp: self.timestamp,
            newlines: self.newlines,
            pretty: self.pretty,
        }
    }
}

/// The JSON format in which a record is written: which key-value pairs are
/// emitted.
#[derive(Debug, Copy, Clone, PartialEq, Eq, Structural)]
pub enum Format {
    /// The level (`level`), the timestamp (`ts`) and the message (`msg`).
    Basic,
    /// As `Basic`, with an optional tag (`tag`).
    Tagged,
    /// A winston-style format: the level (`level`), the timestamp
    /// (`timestamp`), the message (`message`) and an optional tag (`label`).
    Winston,
    /// The core fields of the bunyan format.
    Bunyan,
}

impl Default for Format {
    fn default() -> (r: Self)
        ensures
            r == Format::Basic,
    {
        Format::Basic
    }
}

/// The name a format is written as.
pub open spec fn format_name(f: Format) -> Seq<char> {
    match f {
        Format::Basic => "basic"@,
        Format::Tagged => "tagged"@,
        Format::Winston => "winston"@,
        Format::Bunyan => "bunyan"@,
    }
}

/// The format that a value names.
pub open spec fn format_of(d: Doc) -> Result<Format, FieldError> {
    match d {
        Doc::Str(s) => if s == "basic"@ {
            Ok(Format::Basic)
        } else if s == "tagged"@ {
            Ok(Format::Tagged)
        } else if s == "winston"@ {
            Ok(Format::Winston)
        } else if s == "bunyan"@ {
            Ok(Format::Bunyan)
        } else {
            Err(FieldError::UnknownVariant)
        },
        _ => Err(FieldError::InvalidType),
    }
}

impl Format {
    /// The value this format is written as.
    pub fn to_value(&self) -> (r: Value)
        ensures
            r@ == Doc::Str(format_name(*self)),
    {
        match self {
            Format::Basic => Value::Str("basic".to_owned()),
            Format::Tagged => Value::Str("tagged".to_owned()),
            Format::Winston => Value::Str("winston".to_owned()),
            Format::Bunyan => Value::Str("bunyan".to_owned()),
        }
    }

    /// Reads a format from its name.
    pub fn from_value(v: &Value) -> (r: Result<Format, FieldError>)
        ensures
            r == format_of(v@),
    {
        match v {
            Value::Str(s) => if same_text(s, "basic") {
                Ok(Format::Basic)
            } else if same_text(s, "tagged") {
                Ok(Format::Tagged)
            } else if same_text(s, "winston") {
                Ok(Format::Winston)
            } else if same_text(s, "bunyan") {
                Ok(Format::Bunyan)
            } else {
                Err(FieldError::UnknownVariant)
            },
            _ => Err(FieldError::InvalidType),
        }
    }
}

/// The record a `json` configuration writes: its fields in declaration
/// order.
pub open spec fn config_doc(c: Model) -> Doc {
    Doc::Record(
        seq![
            ("target"@, target_doc(c.target)),
            ("format"@, Doc::Str(format_name(c.format))),
            ("level"@, Doc::Str(level_name(c.level))),
            ("timestamp"@, Doc::Str(timestamp_name(c.timestamp))),
            ("newlines"@, Doc::Bool(c.newlines)),
            ("pretty"@, Doc::Bool(c.pretty)),
        ],
    )
}

/// The `json` configuration that a value reads as: a record whose fields
/// all have defaults, and whose other fields are ignored.
pub open spec fn config_of(d: Doc) -> Result<Model, FieldError> {
    match d {
        Doc::Record(es) => match with_default(
            field_of(es, "target"@),
            TargetModel::Stdout,
            |d| target_of(d),
        ) {
            Err(e) => Err(e),
            Ok(target) => match with_default(field_of(es, "format"@), Format::Basic, |d| format_of(d)) {
                Err(e) => Err(e),
                Ok(format) => match with_default(field_of(es, "level"@), Level::Info, |d| level_of(d)) {
                    Err(e) => Err(e),
                    Ok(level) => match with_default(
                        field_of(es, "timestamp"@),
                        Timestamp::Rfc3339Utc,
                        |d| timestamp_of(d),
                    ) {
                        Err(e) => Err(e),
                        Ok(timestamp) => match with_default(
                            field_of(es, "newlines"@),
                            true,
                            |d| bool_of(d),
                        ) {
                            Err(e) => Err(e),
                            Ok(newlines) => match with_default(
                                field_of(es, "pretty"@),
                                false,
                                |d| bool_of(d),
                            ) {
                                Err(e) => Err(e),
                                Ok(pretty) => Ok(
                                    Model { target, format, level, timestamp, newlines, pretty },
                                ),
                            },
                        },
                    },
                },
            },
        },
        _ => Err(FieldError::InvalidType),
    }
}

/// Lifts a result to the model of the configuration it holds.
pub open spec fn config_result(r: Result<Config, FieldError>) -> Result<Model, FieldError> {
    match r {
        Ok(c) => Ok(c@),
        Err(e) => Err(e),
    }
}

impl Config {
    /// Reads a `json` configuration from its fields.
    #[verifier::rlimit(40)]
    pub fn from_value(v: &Value) -> (r: Result<Config, FieldError>)
        ensures
            config_result(r) == config_of(v@),
    {
        let entries = match v {
            Value::Record(entries) => entries,
            _ => return Err(FieldError::InvalidType),
        };
        let target = match field(entries, "target") {
            Err(e) => return Err(e),
            Ok(None) => Target::Stdout,
            Ok(Some(f)) => match Target::from_value(f) {
                Ok(t) => t,
                Err(e) => return Err(e),
            },
        };
        let format = match field(entries, "format") {
            Err(e) => return Err(e),
            Ok(None) => Format::Basic,
            Ok(Some(f)) => match Format::from_value(f) {
                Ok(x) => x,
                Err(e) => return Err(e),
            },
        };
        let level = match field(entries, "level") {
            Err(e) => return Err(e),
            Ok(None) => Level::Info,
            Ok(Some(f)) => match Level::from_value(f) {
                Ok(x) => x,
                Err(e) => return Err(e),
            },
        };
        let timestamp = match field(entries, "timestamp") {
            Err(e) => return Err(e),
            Ok(None) => Timestamp::Rfc3339Utc,
            Ok(Some(f)) => match Timestamp::from_value(f) {
                Ok(x) => x,
                Err(e) => return Err(e),
            },
        };
        let newlines = match field(entries, "newlines") {
            Err(e) => return Err(e),
            Ok(None) => newlines(),
            Ok(Some(f)) => match read_bool(f) {
                Ok(x) => x,
                Err(e) => return Err(e),
            },
        };
        let pretty = match field(entries, "pretty") {
            Err(e) => return Err(e),
            Ok(None) => pretty(),
            Ok(Some(f)) => match read_bool(f) {
                Ok(x) => x,
                Err(e) => return Err(e),
            },
        };
        Ok(Config { target, format, level, timestamp, newlines, pretty })
    }
}

impl ConfigTrait for Config {
    open spec fn spec_ty(&self) -> Seq<char> {
        "json"@
    }

    open spec fn spec_type_id(&self) -> ConfigId {
        ConfigId { id: ID }
    }

    open spec fn spec_fields(&self) -> Doc {
        config_doc(self@)
    }

    fn ty(&self) -> (r: &'static str) {
        "json"
    }

    fn type_id(&self) -> (r: ConfigId) {
        Self::config_id()
    }

    fn to_value(&self) -> (r: Value) {
        let mut entries: Vec<(String, Value)> = Vec::new();
        entries.push(("target".to_owned(), self.target.to_value()));
        entries.push(("format".to_owned(), self.format.to_value()));
        entries.push(("level".to_owned(), self.level.to_value()));
        entries.push(("timestamp".to_owned(), self.timestamp.to_value()));
        entries.push(("newlines".to_owned(), Value::Bool(self.newlines)));
        entries.push(("pretty".to_owned(), Value::Bool(self.pretty)));
        proof {
            lemma_view_entries(entries@);
            assert(view_entries(entries@) =~= config_doc(self@)->Record_0);
        }
        Value::Record(entries)
    }
}

impl ConfigType for Config {
    open spec fn spec_id() -> ConfigId {
        ConfigId { id: ID }
    }

    fn config_id() -> (r: ConfigId) {
        ConfigId::new(ID)
    }

    proof fn lemma_type_id(&self) {
    }
}

/// A `json` configuration is read back from the fields it writes.
pub proof fn lemma_round_trip(c: Model)
    ensures
        config_of(config_doc(c)) == Ok::<Model, FieldError>(c),
{
    reveal_strlit("target");
    reveal_strlit("format");
    reveal_strlit("level");
    reveal_strlit("timestamp");
    reveal_strlit("newlines");
    reveal_strlit("pretty");
    reveal_strlit("basic");
    reveal_strlit("tagged");
    reveal_strlit("winston");
    reveal_strlit("bunyan");
    let es = config_doc(c)->Record_0;
    assert("target"@[1] != "timestamp"@[1]);
    assert("format"@[0] != "target"@[0]);
    assert("pretty"@[0] != "target"@[0]);
    assert("pretty"@[0] != "format"@[0]);
    assert("newlines"@[0] != "timestamp"@[0]);
    assert("level"@.len() != "format"@.len());
    assert("level"@.len() != "target"@.len());
    assert("level"@.len() != "timestamp"@.len());
    assert("level"@.len() != "newlines"@.len());
    assert("level"@.len() != "pretty"@.len());
    assert("newlines"@.len() != "format"@.len());
    assert("newlines"@.len() != "target"@.len());
    assert("newlines"@.len() != "pretty"@.len());
    assert("format"@.len() != "timestamp"@.len());
    assert("pretty"@.len() != "timestamp"@.len());
    assert("basic"@.len() != "tagged"@.len());
    assert("basic"@.len() != "winston"@.len());
    assert("basic"@.len() != "bunyan"@.len());
    assert("tagged"@.len() != "winston"@.len());
    assert("tagged"@[0] != "bunyan"@[0]);
    assert("winston"@.len() != "bunyan"@.len());
    lemma_single_field(es, 0, "target"@);
    lemma_single_field(es, 1, "format"@);
    lemma_single_field(es, 2, "level"@);
    lemma_single_field(es, 3, "timestamp"@);
    lemma_single_field(es, 4, "newlines"@);
    lemma_single_field(es, 5, "pretty"@);
    lemma_target_round_trip(c.target);
    lemma_level_round_trip(c.level);
    lemma_timestamp_round_trip(c.timestamp);
}

/// The value that is written under a key of each JSON record.
#[derive(Debug, Clone, Copy, PartialEq, Eq, Structural)]
pub enum JsonValue {
    /// The message of the record.
    Message,
    /// The tag of the record, where it has one.
    Tag,
    /// The short name of the record's level.
    Level,
    /// The bunyan number of the record's level.
    BunyanLevel,
    /// The time of writing, in RFC-3339 format, in the given time zone.
    Time(Timestamp),
    /// The id of the process.
    Pid,
    /// The file name of the program.
    Name,
    /// The name of the host.
    Hostname,
    /// The version of the bunyan format, 0.
    Version,
}

/// The keys of each JSON record, with what is written under them, in
/// order, for a format and a timestamp format.
pub open spec fn spec_keys(format: Format, ts: Timestamp) -> Seq<(Seq<char>, JsonValue)> {
    match format {
        Format::Basic => seq![
            ("msg"@, JsonValue::Message),
            ("level"@, JsonValue::Level),
            ("ts"@, JsonValue::Time(ts)),
        ],
        Format::Tagged => seq![
            ("msg"@, JsonValue::Message),
            ("tag"@, JsonValue::Tag),
            ("level"@, JsonValue::Level),
            ("ts"@, JsonValue::Time(ts)),
        ],
        Format::Winston => seq![
            ("message"@, JsonValue::Message),
            ("label"@, JsonValue::Tag),
            ("level"@, JsonValue::Level),
            ("timestamp"@, JsonValue::Time(ts)),
        ],
        Format::Bunyan => seq![
            ("msg"@, JsonValue::Message),
            ("level"@, JsonValue::BunyanLevel),
            ("pid"@, JsonValue::Pid),
            ("name"@, JsonValue::Name),
            ("hostname"@, JsonValue::Hostname),
            ("time"@, JsonValue::Time(ts)),
            ("v"@, JsonValue::Version),
        ],
    }
}

/// Whether the keys `r` are the keys of `s`, in order.
pub open spec fn same_keys(r: Seq<(&'static str, JsonValue)>, s: Seq<(Seq<char>, JsonValue)>) -> bool {
    &&& r.len() == s.len()
    &&& forall|i: int| 0 <= i < r.len() ==> #[trigger] r[i].0@ == s[i].0 && r[i].1 == s[i].1
}

/// The keys of each JSON record, with what is written under them, in
/// order, for a format and a timestamp format.
pub fn keys(format: Format, ts: Timestamp) -> (r: Vec<(&'static str, JsonValue)>)
    ensures
        same_keys(r@, spec_keys(format, ts)),
{
    let mut r: Vec<(&'static str, JsonValue)> = Vec::new();
    match format {
        Format::Basic => {
            r.push(("msg", JsonValue::Message));
            r.push(("level", JsonValue::Level));
            r.push(("ts", JsonValue::Time(ts)));
        },
        Format::Tagged => {
            r.push(("msg", JsonValue::Message));
            r.push(("tag", JsonValue::Tag));
            r.push(("level", JsonValue::Level));
            r.push(("ts", JsonValue::Time(ts)));
        },
        Format::Winston => {
            r.push(("message", JsonValue::Message));
            r.push(("label", JsonValue::Tag));
            r.push(("level", JsonValue::Level));
            r.push(("timestamp", JsonValue::Time(ts)));
        },
        Format::Bunyan => {
            r.push(("msg", JsonValue::Message));
            r.push(("level", JsonValue::BunyanLevel));
            r.push(("pid", JsonValue::Pid));
            r.push(("name", JsonValue::Name));
            r.push(("hostname", JsonValue::Hostname));
            r.push(("time", JsonValue::Time(ts)));
            r.push(("v", JsonValue::Version));
        },
    }
    r
}

/// The bunyan number of a level.
pub open spec fn spec_bunyan_level(l: slog::Level) -> u8 {
    match l {
        slog::Level::Critical => 60,
        slog::Level::Error => 50,
        slog::Level::Warning => 40,
        slog::Level::Info => 30,
        slog::Level::Debug => 20,
        slog::Level::Trace => 10,
    }
}

/// The bunyan number of a level: 60 for `Critical` down to 10 for `Trace`.
pub fn level(l: slog::Level) -> (r: u8)
    ensures
        r == spec_bunyan_level(l),
{
    match l {
        slog::Level::Critical => 60,
        slog::Level::Error => 50,
        slog::Level::Warning => 40,
        slog::Level::Info => 30,
        slog::Level::Debug => 20,
        slog::Level::Trace => 10,
    }
}

/// What a `json` logger is made of: where it writes, the keys of each
/// record, its layout, and the least severe level it lets through.
#[derive(Debug, PartialEq)]
pub struct Plan {
    pub output: Output,
    pub keys: Vec<(&'static str, JsonValue)>,
    pub newlines: bool,
    pub pretty: bool,
    pub level: slog::Level,
}

/// Whether `p` is what a `json` logger for `c` is made of. The parent
/// directories of a file target are created first.
pub open spec fn plans(c: Config, p: Plan) -> bool {
    &&& p.output@ == spec_output(c.target@, true)
    &&& same_keys(p.keys@, spec_keys(c.format, c.timestamp))
    &&& p.newlines == c.newlines
    &&& p.pretty == c.pretty
    &&& p.level == level_to_slog(c.level)
}

/// Factory for a logger of type `json`.
pub struct Factory;

impl Factory {
    /// Decides what a `json` logger for `cfg` is made of.
    pub fn build(&self, cfg: &Config) -> (r: Plan)
        ensures
            plans(*cfg, r),
    {
        Plan {
            output: output(&cfg.target, true),
            keys: keys(cfg.format, cfg.timestamp),
            newlines: cfg.newlines,
            pretty: cfg.pretty,
            level: cfg.level.to_slog(),
        }
    }
}

} // verus!
