//! Configuration of a logger of type `plain`: plain text, to a stream or a
//! file.
use vstd::prelude::*;

use crate::common::{
    lemma_level_round_trip, lemma_single_field, lemma_target_round_trip,
    lemma_timestamp_round_trip, level_name, level_of, target_doc, target_of, timestamp_name,
    timestamp_of, Level, Target, TargetModel, Timestamp,
};
use crate::common::level_to_slog;
use crate::output::{output, spec_output, Output};
use crate::identity::{Config as ConfigTrait, ConfigId, ConfigType};
use crate::value::{field_of, 
    field, lemma_view_entries, view_entries, with_default, Doc, FieldError, Value,
};

verus! {

broadcast use vstd::std_specs::vec::group_vec_axioms, vstd::seq::group_seq_axioms;

/// The identity of the `plain` configuration type.
pub const ID: u64 = 1;

/// Configuration of a logger of type `plain`.
#[derive(Debug, Clone, PartialEq, Default)]
pub struct Config {
    /// The target to which the logger should write.
    pub target: Target,
    /// The format in which the logger should display its information.
    pub format: Format,
    /// The minimal logging level the logger should output.
    pub level: Level,
    /// The timestamp format.
    pub timestamp: Timestamp,
}

/// The mathematical model of a `plain` configuration.
pub struct Model {
    pub target: TargetModel,
    pub format: Format,
    pub level: Level,
    pub timestamp: Timestamp,
}

impl View for Config {
    type V = Model;

    open spec fn view(&self) -> Model {
        Model {
            target: self.target@,
            format: self.format,
            level: self.level,
            timestamp: self.timestamp,
        }
    }
}

/// The format in which the logger should display its information.
#[derive(Debug, Copy, Clone, PartialEq, Eq, Structural)]
pub enum Format {
    /// Display all information in every written line.
    Full,
    /// Display information in a compact, non-repetitive format.
    Compact,
}

impl Default for Format {
    fn default() -> (r: Self)
        ensures
            r == Format::Full,
    {
        Format::Full
    }
}

/// The name a format is written as.
pub open spec fn format_name(f: Format) -> Seq<char> {
    match f {
        Format::Full => "full"@,
        Format::Compact => "compact"@,
    }
}

/// The format that a value names.
pub open spec fn format_of(d: Doc) -> Result<Format, FieldError> {
    match d {
        Doc::Str(s) => if s == "full"@ {
            Ok(Format::Full)
        } else if s == "compact"@ {
            Ok(Format::Compact)
        } else {
            Err(FieldError::UnknownVariant)
        },
        _ => Err(FieldError::InvalidType),
    }
}

impl Format {
    /// The value this format is written as.
    pub fn to_value(&self) -> (r: Value)
        ensures
            r@ == Doc::Str(format_name(*self)),
    {
        match self {
            Format::Full => Value::Str("full".to_owned()),
            Format::Compact => Value::Str("compact".to_owned()),
        }
    }

    /// Reads a format from its name.
    pub fn from_value(v: &Value) -> (r: Result<Format, FieldError>)
        ensures
            r == format_of(v@),
    {
        match v {
            Value::Str(s) => if crate::value::same_text(s, "full") {
                Ok(Format::Full)
            } else if crate::value::same_text(s, "compact") {
                Ok(Format::Compact)
            } else {
                Err(FieldError::UnknownVariant)
            },
            _ => Err(FieldError::InvalidType),
        }
    }
}

/// The record a `plain` configuration writes: its fields in declaration
/// order.
pub open spec fn config_doc(c: Model) -> Doc {
    Doc::Record(
        seq![
            ("target"@, target_doc(c.target)),
            ("format"@, Doc::Str(format_name(c.format))),
            ("level"@, Doc::Str(level_name(c.level))),
            ("timestamp"@, Doc::Str(timestamp_name(c.timestamp))),
        ],
    )
}

/// The `plain` configuration that a value reads as: a record whose fields
/// all have defaults, and whose other fields are ignored.
pub open spec fn config_of(d: Doc) -> Result<Model, FieldError> {
    match d {
        Doc::Record(es) => match with_default(
            field_of(es, "target"@),
            TargetModel::Stdout,
            |d| target_of(d),
        ) {
            Err(e) => Err(e),
            Ok(target) => match with_default(field_of(es, "format"@), Format::Full, |d| format_of(d)) {
                Err(e) => Err(e),
                Ok(format) => match with_default(field_of(es, "level"@), Level::Info, |d| level_of(d)) {
                    Err(e) => Err(e),
                    Ok(level) => match with_default(
                        field_of(es, "timestamp"@),
                        Timestamp::Rfc3339Utc,
                        |d| timestamp_of(d),
                    ) {
                        Err(e) => Err(e),
                        Ok(timestamp) => Ok(Model { target, format, level, timestamp }),
                    },
                },
            },
        },
        _ => Err(FieldError::InvalidType),
    }
}

/// Lifts a result to the model of the configuration it holds.
pub open spec fn config_result(r: Result<Config, FieldError>) -> Result<Model, FieldError> {
    match r {
        Ok(c) => Ok(c@),
        Err(e) => Err(e),
    }
}

impl Config {
    /// Reads a `plain` configuration from its fields.
    pub fn from_value(v: &Value) -> (r: Result<Config, FieldError>)
        ensures
            config_result(r) == config_of(v@),
    {
        let entries = match v {
            Value::Record(entries) => entries,
            _ => return Err(FieldError::InvalidType),
        };
        let target = match field(entries, "target") {
            Err(e) => return Err(e),
            Ok(None) => Target::Stdout,
            Ok(Some(f)) => match Target::from_value(f) {
                Ok(t) => t,
                Err(e) => return Err(e),
            },
        };
        let format = match field(entries, "format") {
            Err(e) => return Err(e),
            Ok(None) => Format::Full,
            Ok(Some(f)) => match Format::from_value(f) {
                Ok(x) => x,
                Err(e) => return Err(e),
            },
        };
        let level = match field(entries, "level") {
            Err(e) => return Err(e),
            Ok(None) => Level::Info,
            Ok(Some(f)) => match Level::from_value(f) {
                Ok(x) => x,
                Err(e) => return Err(e),
            },
        };
        let timestamp = match field(entries, "timestamp") {
            Err(e) => return Err(e),
            Ok(None) => Timestamp::Rfc3339Utc,
            Ok(Some(f)) => match Timestamp::from_value(f) {
                Ok(x) => x,
                Err(e) => return Err(e),
            },
        };
        Ok(Config { target, format, level, timestamp })
    }
}

impl ConfigTrait for Config {
    open spec fn spec_ty(&self) -> Seq<char> {
        "plain"@
    }

    open spec fn spec_type_id(&self) -> ConfigId {
        ConfigId { id: ID }
    }

    open spec fn spec_fields(&self) -> Doc {
        config_doc(self@)
    }

    fn ty(&self) -> (r: &'static str) {
        "plain"
    }

    fn type_id(&self) -> (r: ConfigId) {
        Self::config_id()
    }

    fn to_value(&self) -> (r: Value) {
        let mut entries: Vec<(String, Value)> = Vec::new();
        entries.push(("target".to_owned(), self.target.to_value()));
        entries.push(("format".to_owned(), self.format.to_value()));
        entries.push(("level".to_owned(), self.level.to_value()));
        entries.push(("timestamp".to_owned(), self.timestamp.to_value()));
        proof {
            lemma_view_entries(entries@);
            assert(view_entries(entries@) =~= config_doc(self@)->Record_0);
        }
        Value::Record(entries)
    }
}

impl ConfigType for Config {
    open spec fn spec_id() -> ConfigId {
        ConfigId { id: ID }
    }

    fn config_id() -> (r: ConfigId) {
        ConfigId::new(ID)
    }

    proof fn lemma_type_id(&self) {
    }
}

/// A `plain` configuration is read back from the fields it writes.
pub proof fn lemma_round_trip(c: Model)
    ensures
        config_of(config_doc(c)) == Ok::<Model, FieldError>(c),
{
    reveal_strlit("target");
    reveal_strlit("format");
    reveal_strlit("level");
    reveal_strlit("timestamp");
    reveal_strlit("full");
    reveal_strlit("compact");
    let es = config_doc(c)->Record_0;
    assert("target"@[1] != "timestamp"@[1]);
    assert("format"@[0] != "target"@[0]);
    assert("level"@.len() != "format"@.len());
    assert("level"@.len() != "target"@.len());
    assert("level"@.len() != "timestamp"@.len());
    assert("format"@.len() != "timestamp"@.len());
    assert("full"@.len() != "compact"@.len());
    lemma_single_field(es, 0, "target"@);
    lemma_single_field(es, 1, "format"@);
    lemma_single_field(es, 2, "level"@);
    lemma_single_field(es, 3, "timestamp"@);
    lemma_target_round_trip(c.target);
    lemma_level_round_trip(c.level);
    lemma_timestamp_round_trip(c.timestamp);
}

/// What a `plain` logger is made of: where it writes, how it lays out and
/// stamps each record, and the least severe level it lets through.
#[derive(Debug, PartialEq)]
pub struct Plan {
    pub output: Output,
    pub format: Format,
    pub timestamp: Timestamp,
    pub level: slog::Level,
}

/// Whether `p` is what a `plain` logger for `c` is made of. A file target
/// is opened where it is, without creating directories.
pub open spec fn plans(c: Config, p: Plan) -> bool {
    &&& p.output@ == spec_output(c.target@, false)
    &&& p.format == c.format
    &&& p.timestamp == c.timestamp
    &&& p.level == level_to_slog(c.level)
}

/// Factory for a logger of type `plain`.
pub struct Factory;

impl Factory {
    /// Decides what a `plain` logger for `cfg` is made of.
    pub fn build(&self, cfg: &Config) -> (r: Plan)
        ensures
            plans(*cfg, r),
    {
        Plan {
            output: output(&cfg.target, false),
            format: cfg.format,
            timestamp: cfg.timestamp,
            level: cfg.level.to_slog(),
        }
    }
}

} // verus!
