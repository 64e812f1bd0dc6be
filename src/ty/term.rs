//! Configuration of a logger of type `term`: text for a terminal, with or
//! without colors.
use vstd::prelude::*;

use crate::common::{
    lemma_level_round_trip, lemma_single_field, lemma_term_target_round_trip,
    lemma_timestamp_round_trip, level_name, level_of, term_target_name, term_target_of,
    timestamp_name, timestamp_of, Level, TermTarget, Timestamp,
};
use crate::common::level_to_slog;
use crate::identity::{Config as ConfigTrait, ConfigId, ConfigType};
use crate::value::{
    field, field_of, lemma_view_entries, same_text, view_entries, with_default, Doc, FieldError,
    Value,
};

verus! {

broadcast use vstd::std_specs::vec::group_vec_axioms, vstd::seq::group_seq_axioms;

/// The identity of the `term` configuration type.
pub const ID: u64 = 2;

/// Configuration of a logger of type `term`.
#[derive(Debug, Clone, Copy, PartialEq, Eq, Structural, Default)]
pub struct Config {
    /// The target to which the logger should write.
    pub target: TermTarget,
    /// The format in which the logger should display its information.
    pub format: Format,
    /// The minimal logging level the logger should output.
    pub level: Level,
    /// The timestamp format.
    pub timestamp: Timestamp,
    /// The color settings.
    pub color: Color,
}

/// The format in which the logger should display its information.
#[derive(Debug, Copy, Clone, PartialEq, Eq, Structural)]
pub enum Format {
    /// Display all information in every written line.
    Full,
    /// Display information in a compact, non-repetitive format.
    Compact,
}

impl Default for Format {
    fn default() -> (r: Self)
        ensures
            r == Format::Full,
    {
        Format::Full
    }
}

/// The name a format is written as.
pub open spec fn format_name(f: Format) -> Seq<char> {
    match f {
        Format::Full => "full"@,
        Format::Compact => "compact"@,
    }
}

/// The format that a value names.
pub open spec fn format_of(d: Doc) -> Result<Format, FieldError> {
    match d {
        Doc::Str(s) => if s == "full"@ {
            Ok(Format::Full)
        } else if s == "compact"@ {
            Ok(Format::Compact)
        } else {
            Err(FieldError::UnknownVariant)
        },
        _ => Err(FieldError::InvalidType),
    }
}

impl Format {
    /// The value this format is written as.
    pub fn to_value(&self) -> (r: Value)
        ensures
            r@ == Doc::Str(format_name(*self)),
    {
        match self {
            Format::Full => Value::Str("full".to_owned()),
            Format::Compact => Value::Str("compact".to_owned()),
        }
    }

    /// Reads a format from its name.
    pub fn from_value(v: &Value) -> (r: Result<Format, FieldError>)
        ensures
            r == format_of(v@),
    {
        match v {
            Value::Str(s) => if same_text(s, "full") {
                Ok(Format::Full)
            } else if same_text(s, "compact") {
                Ok(Format::Compact)
            } else {
                Err(FieldError::UnknownVariant)
            },
            _ => Err(FieldError::InvalidType),
        }
    }
}

/// The color settings of a terminal logger.
#[derive(Debug, Copy, Clone, PartialEq, Eq, Structural)]
pub enum Color {
    /// Enable colors depending on the terminal being used.
    Auto,
    /// Disable colors.
    Disable,
    /// Force colors.
    Force,
}

impl Default for Color {
    fn default() -> (r: Self)
        ensures
            r == Color::Auto,
    {
        Color::Auto
    }
}

/// The name a color setting is written as.
pub open spec fn color_name(c: Color) -> Seq<char> {
    match c {
        Color::Auto => "auto"@,
        Color::Disable => "disable"@,
        Color::Force => "force"@,
    }
}

/// The color setting that a value names.
pub open spec fn color_of(d: Doc) -> Result<Color, FieldError> {
    match d {
        Doc::Str(s) => if s == "auto"@ {
            Ok(Color::Auto)
        } else if s == "disable"@ {
            Ok(Color::Disable)
        } else if s == "force"@ {
            Ok(Color::Force)
        } else {
            Err(FieldError::UnknownVariant)
        },
        _ => Err(FieldError::InvalidType),
    }
}

impl Color {
    /// The value this setting is written as.
    pub fn to_value(&self) -> (r: Value)
        ensures
            r@ == Doc::Str(color_name(*self)),
    {
        match self {
            Color::Auto => Value::Str("auto".to_owned()),
            Color::Disable => Value::Str("disable".to_owned()),
            Color::Force => Value::Str("force".to_owned()),
        }
    }

    /// Reads a color setting from its name.
    pub fn from_value(v: &Value) -> (r: Result<Color, FieldError>)
        ensures
            r == color_of(v@),
    {
        match v {
            Value::Str(s) => if same_text(s, "auto") {
                Ok(Color::Auto)
            } else if same_text(s, "disable") {
                Ok(Color::Disable)
            } else if same_text(s, "force") {
                Ok(Color::Force)
            } else {
                Err(FieldError::UnknownVariant)
            },
            _ => Err(FieldError::InvalidType),
        }
    }
}

/// The record a `term` configuration writes: its fields in declaration
/// order.
pub open spec fn config_doc(c: Config) -> Doc {
    Doc::Record(
        seq![
            ("target"@, Doc::Str(term_target_name(c.target))),
            ("format"@, Doc::Str(format_name(c.format))),
            ("level"@, Doc::Str(level_name(c.level))),
            ("timestamp"@, Doc::Str(timestamp_name(c.timestamp))),
            ("color"@, Doc::Str(color_name(c.color))),
        ],
    )
}

/// The `term` configuration that a value reads as: a record whose fields
/// all have defaults, and whose other fields are ignored.
pub open spec fn config_of(d: Doc) -> Result<Config, FieldError> {
    match d {
        Doc::Record(es) => match with_default(
            field_of(es, "target"@),
            TermTarget::Stdout,
            |d| term_target_of(d),
        ) {
            Err(e) => Err(e),
            Ok(target) => match with_default(field_of(es, "format"@), Format::Full, |d| format_of(d)) {
                Err(e) => Err(e),
                Ok(format) => match with_default(field_of(es, "level"@), Level::Info, |d| level_of(d)) {
                    Err(e) => Err(e),
                    Ok(level) => match with_default(
                        field_of(es, "timestamp"@),
                        Timestamp::Rfc3339Utc,
                        |d| timestamp_of(d),
                    ) {
                        Err(e) => Err(e),
                        Ok(timestamp) => match with_default(
                            field_of(es, "color"@),
                            Color::Auto,
                            |d| color_of(d),
                        ) {
                            Err(e) => Err(e),
                            Ok(color) => Ok(Config { target, format, level, timestamp, color }),
                        },
                    },
                },
            },
        },
        _ => Err(FieldError::InvalidType),
    }
}

impl Config {
    /// Reads a `term` configuration from its fields.
    pub fn from_value(v: &Value) -> (r: Result<Config, FieldError>)
        ensures
            r == config_of(v@),
    {
        let entries = match v {
            Value::Record(entries) => entries,
            _ => return Err(FieldError::InvalidType),
        };
        let target = match field(entries, "target") {
            Err(e) => return Err(e),
            Ok(None) => TermTarget::Stdout,
            Ok(Some(f)) => match TermTarget::from_value(f) {
                Ok(x) => x,
                Err(e) => return Err(e),
            },
        };
        let format = match field(entries, "format") {
            Err(e) => return Err(e),
            Ok(None) => Format::Full,
            Ok(Some(f)) => match Format::from_value(f) {
                Ok(x) => x,
                Err(e) => return Err(e),
            },
        };
        let level = match field(entries, "level") {
            Err(e) => return Err(e),
            Ok(None) => Level::Info,
            Ok(Some(f)) => match Level::from_value(f) {
                Ok(x) => x,
                Err(e) => return Err(e),
            },
        };
        let timestamp = match field(entries, "timestamp") {
            Err(e) => return Err(e),
            Ok(None) => Timestamp::Rfc3339Utc,
            Ok(Some(f)) => match Timestamp::from_value(f) {
                Ok(x) => x,
                Err(e) => return Err(e),
            },
        };
        let color = match field(entries, "color") {
            Err(e) => return Err(e),
            Ok(None) => Color::Auto,
            Ok(Some(f)) => match Color::from_value(f) {
                Ok(x) => x,
                Err(e) => return Err(e),
            },
        };
        Ok(Config { target, format, level, timestamp, color })
    }
}

impl ConfigTrait for Config {
    open spec fn spec_ty(&self) -> Seq<char> {
        "term"@
    }

    open spec fn spec_type_id(&self) -> ConfigId {
        ConfigId { id: ID }
    }

    open spec fn spec_fields(&self) -> Doc {
        config_doc(*self)
    }

    fn ty(&self) -> (r: &'static str) {
        "term"
    }

    fn type_id(&self) -> (r: ConfigId) {
        Self::config_id()
    }

    fn to_value(&self) -> (r: Value) {
        let mut entries: Vec<(String, Value)> = Vec::new();
        entries.push(("target".to_owned(), self.target.to_value()));
        entries.push(("format".to_owned(), self.format.to_value()));
        entries.push(("level".to_owned(), self.level.to_value()));
        entries.push(("timestamp".to_owned(), self.timestamp.to_value()));
        entries.push(("color".to_owned(), self.color.to_value()));
        proof {
            lemma_view_entries(entries@);
            assert(view_entries(entries@) =~= config_doc(*self)->Record_0);
        }
        Value::Record(entries)
    }
}

impl ConfigType for Config {
    open spec fn spec_id() -> ConfigId {
        ConfigId { id: ID }
    }

    fn config_id() -> (r: ConfigId) {
        ConfigId::new(ID)
    }

    proof fn lemma_type_id(&self) {
    }
}

/// A `term` configuration is read back from the fields it writes.
pub proof fn lemma_round_trip(c: Config)
    ensures
        config_of(config_doc(c)) == Ok::<Config, FieldError>(c),
{
    reveal_strlit("target");
    reveal_strlit("format");
    reveal_strlit("level");
    reveal_strlit("timestamp");
    reveal_strlit("color");
    reveal_strlit("full");
    reveal_strlit("compact");
    reveal_strlit("auto");
    reveal_strlit("disable");
    reveal_strlit("force");
    reveal_strlit("stdout");
    reveal_strlit("stderr");
    let es = config_doc(c)->Record_0;
    assert("target"@[1] != "timestamp"@[1]);
    assert("format"@[0] != "target"@[0]);
    assert("level"@[0] != "color"@[0]);
    assert("level"@.len() != "format"@.len());
    assert("level"@.len() != "target"@.len());
    assert("level"@.len() != "timestamp"@.len());
    assert("color"@.len() != "format"@.len());
    assert("color"@.len() != "target"@.len());
    assert("color"@.len() != "timestamp"@.len());
    assert("format"@.len() != "timestamp"@.len());
    assert("full"@.len() != "compact"@.len());
    assert("auto"@.len() != "disable"@.len());
    assert("auto"@.len() != "force"@.len());
    assert("disable"@.len() != "force"@.len());
    lemma_single_field(es, 0, "target"@);
    lemma_single_field(es, 1, "format"@);
    lemma_single_field(es, 2, "level"@);
    lemma_single_field(es, 3, "timestamp"@);
    lemma_single_field(es, 4, "color"@);
    lemma_term_target_round_trip(c.target);
    lemma_level_round_trip(c.level);
    lemma_timestamp_round_trip(c.timestamp);
}

/// What a `term` logger is made of: the stream it writes to, its colors,
/// how it lays out and stamps each record, and the least severe level it
/// lets through.
#[derive(Debug, Clone, Copy, PartialEq)]
pub struct Plan {
    pub target: TermTarget,
    pub color: Color,
    pub format: Format,
    pub timestamp: Timestamp,
    pub level: slog::Level,
}

/// Whether `p` is what a `term` logger for `c` is made of.
pub open spec fn plans(c: Config, p: Plan) -> bool {
    &&& p.target == c.target
    &&& p.color == c.color
    &&& p.format == c.format
    &&& p.timestamp == c.timestamp
    &&& p.level == level_to_slog(c.level)
}

/// Factory for a logger of type `term`.
pub struct Factory;

impl Factory {
    /// Decides what a `term` logger for `cfg` is made of.
    pub fn build(&self, cfg: &Config) -> (r: Plan)
        ensures
            plans(*cfg, r),
    {
        Plan {
            target: cfg.target,
            color: cfg.color,
            format: cfg.format,
            timestamp: cfg.timestamp,
            level: cfg.level.to_slog(),
        }
    }
}

} // verus!
