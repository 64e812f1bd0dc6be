use slog_conf::common::{Level, OpenMode, Target, TermTarget, Timestamp};
use slog_conf::decode::DecodeError;
use slog_conf::factory::Factories;
use slog_conf::identity::{is, Config, ConfigType, Narrow};
use slog_conf::output::{open_flags, OpenFlags, Output};
use slog_conf::tagged::serialize;
use slog_conf::ty::{json, null, plain, term, AnyConfig, AnyFactory, Drain};
use slog_conf::value::{FieldError, Value};
use slog_conf::{build, deserializers, factories, Error, PlainConfig, SUPPORTED_TYPES};

fn s(x: &str) -> Value {
    Value::Str(x.to_string())
}

fn rec(entries: Vec<(&str, Value)>) -> Value {
    Value::Record(entries.into_iter().map(|(k, v)| (k.to_string(), v)).collect())
}

fn decode(doc: Value) -> Result<AnyConfig, DecodeError> {
    deserializers().deserialize(doc)
}

fn fields_error(doc: Value) -> FieldError {
    match decode(doc) {
        Err(DecodeError::MalformedFields(e)) => e,
        other => panic!("unexpected {:?}", other),
    }
}

fn plain_with(key: &str, value: Value) -> Value {
    rec(vec![("type", s("plain")), (key, value)])
}

fn plain_of(doc: Value) -> PlainConfig {
    match decode(doc) {
        Ok(AnyConfig::Plain(c)) => c,
        other => panic!("unexpected {:?}", other),
    }
}

#[test]
fn plain_defaults() {
    let c = plain_of(rec(vec![("type", s("plain"))]));
    assert_eq!(c, PlainConfig::default());
    assert_eq!(c.target, Target::Stdout);
    assert_eq!(c.format, plain::Format::Full);
    assert_eq!(c.level, Level::Info);
    assert_eq!(c.timestamp, Timestamp::Rfc3339Utc);
}

#[test]
fn plain_all_fields() {
    let c = plain_of(rec(vec![
        ("type", s("plain")),
        ("target", rec(vec![("path", s("/var/log/a.log")), ("mode", s("truncate"))])),
        ("format", s("compact")),
        ("level", s("warn")),
        ("timestamp", s("rfc3339-local")),
        ("other", Value::U64(1)),
    ]));
    assert_eq!(
        c.target,
        Target::File { path: "/var/log/a.log".to_string(), mode: OpenMode::Truncate }
    );
    assert_eq!(c.format, plain::Format::Compact);
    assert_eq!(c.level, Level::Warning);
    assert_eq!(c.timestamp, Timestamp::Rfc3339Local);
}

#[test]
fn target_forms() {
    let t = |v: Value| Target::from_value(&v);
    assert_eq!(t(s("stderr")), Ok(Target::Stderr));
    assert_eq!(t(s("stdin")), Err(FieldError::UnknownVariant));
    assert_eq!(
        t(rec(vec![("path", s("a"))])),
        Ok(Target::File { path: "a".to_string(), mode: OpenMode::Append })
    );
    assert_eq!(t(rec(vec![("mode", s("new"))])), Err(FieldError::MissingField));
    assert_eq!(t(rec(vec![("path", s("a")), ("path", s("b"))])), Err(FieldError::DuplicateField));
    assert_eq!(t(rec(vec![("path", Value::U64(1))])), Err(FieldError::InvalidType));
    assert_eq!(t(rec(vec![("mode", s("new")), ("mode", s("new"))])), Err(FieldError::DuplicateField));
    assert_eq!(t(rec(vec![("path", s("a")), ("mode", s("sideways"))])), Err(FieldError::UnknownVariant));
    assert_eq!(
        t(Value::List(vec![s("a"), Value::Unit])),
        Ok(Target::File { path: "a".to_string(), mode: OpenMode::Append })
    );
    assert_eq!(
        t(Value::List(vec![s("a"), s("new")])),
        Ok(Target::File { path: "a".to_string(), mode: OpenMode::New })
    );
    assert_eq!(t(Value::List(vec![s("a")])), Err(FieldError::InvalidLength));
    assert_eq!(t(Value::List(vec![s("a"), Value::Unit, Value::Unit])), Err(FieldError::InvalidLength));
    assert_eq!(t(Value::Bool(true)), Err(FieldError::InvalidType));
}

#[test]
fn target_written_forms() {
    assert!(matches!(Target::Stdout.to_value(), Value::Str(x) if x == "stdout"));
    let file = Target::File { path: "p".to_string(), mode: OpenMode::New };
    match file.to_value() {
        Value::Record(entries) => {
            assert_eq!(entries.len(), 2);
            assert_eq!(entries[0].0, "path");
            assert!(matches!(&entries[0].1, Value::Str(x) if x == "p"));
            assert_eq!(entries[1].0, "mode");
            assert!(matches!(&entries[1].1, Value::Str(x) if x == "new"));
        },
        _ => panic!("not a record"),
    }
    assert_eq!(Target::from_value(&file.to_value()), Ok(file));
}

#[test]
fn level_names() {
    let l = |v: Value| Level::from_value(&v);
    assert_eq!(l(s("INFO")), Ok(Level::Info));
    assert_eq!(l(s("Critical")), Ok(Level::Critical));
    assert_eq!(l(s("crit")), Ok(Level::Critical));
    assert_eq!(l(s("trce")), Ok(Level::Trace));
    assert_eq!(l(s("debug")), Ok(Level::Debug));
    assert_eq!(l(s("o")), Err(FieldError::UnknownVariant));
    assert_eq!(l(s("")), Err(FieldError::UnknownVariant));
    assert_eq!(l(s("loud")), Err(FieldError::UnknownVariant));
    assert_eq!(l(Value::U64(4)), Ok(Level::Info));
    assert_eq!(l(Value::U64(1)), Ok(Level::Critical));
    assert_eq!(l(Value::U64(0)), Err(FieldError::InvalidValue));
    assert_eq!(l(Value::U64(7)), Err(FieldError::InvalidValue));
    assert_eq!(l(Value::Bool(false)), Err(FieldError::InvalidType));
    for (level, name) in [
        (Level::Critical, "critical"),
        (Level::Error, "error"),
        (Level::Warning, "warning"),
        (Level::Info, "info"),
        (Level::Debug, "debug"),
        (Level::Trace, "trace"),
    ] {
        assert!(matches!(level.to_value(), Value::Str(x) if x == name));
        assert_eq!(Level::from(level.to_slog()), level);
    }
}

#[test]
fn enum_names() {
    assert_eq!(OpenMode::from_value(&s("append")), Ok(OpenMode::Append));
    assert_eq!(OpenMode::from_value(&s("Append")), Err(FieldError::UnknownVariant));
    assert_eq!(TermTarget::from_value(&s("stderr")), Ok(TermTarget::Stderr));
    assert_eq!(Timestamp::from_value(&s("rfc3339-utc")), Ok(Timestamp::Rfc3339Utc));
    assert_eq!(Timestamp::from_value(&Value::U64(3)), Err(FieldError::InvalidType));
    assert_eq!(term::Color::from_value(&s("force")), Ok(term::Color::Force));
    assert_eq!(json::Format::from_value(&s("bunyan")), Ok(json::Format::Bunyan));
    assert!(matches!(OpenMode::Truncate.to_value(), Value::Str(x) if x == "truncate"));
    assert!(matches!(Timestamp::Rfc3339Local.to_value(), Value::Str(x) if x == "rfc3339-local"));
    assert_eq!(OpenMode::default(), OpenMode::Append);
    assert_eq!(TermTarget::default(), TermTarget::Stdout);
    assert_eq!(Target::default(), Target::Stdout);
    assert_eq!(Level::default(), Level::Info);
    assert_eq!(Timestamp::default(), Timestamp::Rfc3339Utc);
    assert_eq!(term::Color::default(), term::Color::Auto);
    assert_eq!(json::Format::default(), json::Format::Basic);
}

#[test]
fn plain_field_errors() {
    assert_eq!(fields_error(plain_with("level", s("loud"))), FieldError::UnknownVariant);
    assert_eq!(fields_error(plain_with("format", Value::Bool(true))), FieldError::InvalidType);
    let doc = rec(vec![("type", s("plain")), ("format", s("full")), ("format", s("full"))]);
    assert_eq!(fields_error(doc), FieldError::DuplicateField);
    assert_eq!(fields_error(Value::List(vec![s("plain")])), FieldError::InvalidType);
}

#[test]
fn json_defaults_and_flags() {
    assert!(json::newlines());
    assert!(!json::pretty());
    match decode(rec(vec![("type", s("json"))])) {
        Ok(AnyConfig::Json(c)) => {
            assert_eq!(c, json::Config::default());
            assert!(c.newlines);
            assert!(!c.pretty);
            assert_eq!(c.format, json::Format::Basic);
        },
        other => panic!("unexpected {:?}", other),
    }
    match decode(rec(vec![("type", s("json")), ("newlines", Value::Bool(false)), ("pretty", Value::Bool(true))])) {
        Ok(AnyConfig::Json(c)) => {
            assert!(!c.newlines);
            assert!(c.pretty);
        },
        other => panic!("unexpected {:?}", other),
    }
    let doc = rec(vec![("type", s("json")), ("pretty", s("yes"))]);
    assert_eq!(fields_error(doc), FieldError::InvalidType);
}

#[test]
fn term_and_null() {
    match decode(rec(vec![("type", s("term")), ("target", s("stderr")), ("color", s("disable"))])) {
        Ok(AnyConfig::Term(c)) => {
            assert_eq!(c.target, TermTarget::Stderr);
            assert_eq!(c.color, term::Color::Disable);
            assert_eq!(c.format, term::Format::Full);
        },
        other => panic!("unexpected {:?}", other),
    }
    assert!(matches!(decode(rec(vec![("type", s("null"))])), Ok(AnyConfig::Null(_))));
    assert!(matches!(decode(Value::List(vec![s("null")])), Ok(AnyConfig::Null(_))));
    let doc = rec(vec![("type", s("null")), ("x", Value::U64(1))]);
    assert_eq!(fields_error(doc), FieldError::InvalidType);
    assert_eq!(fields_error(s("null")), FieldError::InvalidType);
}

fn samples() -> Vec<AnyConfig> {
    vec![
        AnyConfig::Plain(PlainConfig::default()),
        AnyConfig::Plain(PlainConfig {
            target: Target::File { path: "logs/out.log".to_string(), mode: OpenMode::New },
            format: plain::Format::Compact,
            level: Level::Trace,
            timestamp: Timestamp::Rfc3339Local,
        }),
        AnyConfig::Term(term::Config {
            target: TermTarget::Stderr,
            format: term::Format::Compact,
            level: Level::Error,
            timestamp: Timestamp::Rfc3339Utc,
            color: term::Color::Force,
        }),
        AnyConfig::Json(json::Config {
            target: Target::Stderr,
            format: json::Format::Winston,
            level: Level::Debug,
            timestamp: Timestamp::Rfc3339Local,
            newlines: false,
            pretty: true,
        }),
        AnyConfig::Null(null::Config),
    ]
}

#[test]
fn builtin_round_trip() {
    for c in samples() {
        let doc = serialize(&c);
        assert_eq!(decode(doc).unwrap(), c);
    }
}

#[test]
fn tags_and_identities() {
    assert_eq!(
        deserializers().tags(),
        vec!["plain".to_string(), "term".to_string(), "json".to_string(), "null".to_string()]
    );
    let names: Vec<&str> = samples().iter().map(|c| c.ty()).collect();
    assert_eq!(names, vec!["plain", "plain", "term", "json", "null"]);
    let c = AnyConfig::Term(term::Config::default());
    assert_eq!(c.type_id(), term::Config::config_id());
    assert!(is::<term::Config, AnyConfig>(&c));
    assert!(!is::<plain::Config, AnyConfig>(&c));
    assert!(Narrow::<plain::Config>::downcast_ref(&c).is_none());
    let t: Option<&term::Config> = c.downcast_ref();
    assert_eq!(t, Some(&term::Config::default()));
}

#[test]
fn narrowing_in_place() {
    let mut c = AnyConfig::Plain(PlainConfig::default());
    let p: Option<&mut plain::Config> = c.downcast_mut();
    p.unwrap().level = Level::Error;
    let n: Option<&mut null::Config> = c.downcast_mut();
    assert!(n.is_none());
    assert_eq!(c.type_id(), plain::Config::config_id());
    match c {
        AnyConfig::Plain(p) => assert_eq!(p.level, Level::Error),
        _ => panic!("changed kind"),
    }
}

#[test]
fn open_flags_per_mode() {
    assert_eq!(
        open_flags(OpenMode::Append),
        OpenFlags { create: true, write: true, append: true, truncate: false, create_new: false }
    );
    assert_eq!(
        open_flags(OpenMode::Truncate),
        OpenFlags { create: true, write: true, append: false, truncate: true, create_new: false }
    );
    assert_eq!(
        open_flags(OpenMode::New),
        OpenFlags { create: false, write: true, append: false, truncate: false, create_new: true }
    );
}

#[test]
fn plain_and_json_plans() {
    let c = AnyConfig::Plain(PlainConfig {
        target: Target::File { path: "a.log".to_string(), mode: OpenMode::Append },
        format: plain::Format::Full,
        level: Level::Warning,
        timestamp: Timestamp::Rfc3339Utc,
    });
    match build(&c) {
        Ok(Drain::Plain(p)) => {
            assert_eq!(
                p.output,
                Output::File { path: "a.log".to_string(), flags: open_flags(OpenMode::Append), create_parents: false }
            );
            assert_eq!(p.level, slog::Level::Warning);
            assert_eq!(p.format, plain::Format::Full);
        },
        other => panic!("unexpected {:?}", other),
    }
    let c = AnyConfig::Json(json::Config {
        target: Target::File { path: "x/b.log".to_string(), mode: OpenMode::New },
        format: json::Format::Bunyan,
        level: Level::Info,
        timestamp: Timestamp::Rfc3339Local,
        newlines: true,
        pretty: false,
    });
    match build(&c) {
        Ok(Drain::Json(p)) => {
            assert_eq!(
                p.output,
                Output::File { path: "x/b.log".to_string(), flags: open_flags(OpenMode::New), create_parents: true }
            );
            let keys: Vec<&str> = p.keys.iter().map(|k| k.0).collect();
            assert_eq!(keys, vec!["msg", "level", "pid", "name", "hostname", "time", "v"]);
            assert_eq!(p.keys[5].1, json::JsonValue::Time(Timestamp::Rfc3339Local));
            assert_eq!(p.keys[1].1, json::JsonValue::BunyanLevel);
            assert!(p.newlines);
            assert!(!p.pretty);
        },
        other => panic!("unexpected {:?}", other),
    }
}

#[test]
fn json_key_layouts() {
    let names = |f: json::Format| -> Vec<&'static str> {
        json::keys(f, Timestamp::Rfc3339Utc).iter().map(|k| k.0).collect()
    };
    assert_eq!(names(json::Format::Basic), vec!["msg", "level", "ts"]);
    assert_eq!(names(json::Format::Tagged), vec!["msg", "tag", "level", "ts"]);
    assert_eq!(names(json::Format::Winston), vec!["message", "label", "level", "timestamp"]);
    let k = json::keys(json::Format::Winston, Timestamp::Rfc3339Utc);
    assert_eq!(k[1].1, json::JsonValue::Tag);
    assert_eq!(k[3].1, json::JsonValue::Time(Timestamp::Rfc3339Utc));
}

#[test]
fn bunyan_levels() {
    assert_eq!(json::level(slog::Level::Critical), 60);
    assert_eq!(json::level(slog::Level::Error), 50);
    assert_eq!(json::level(slog::Level::Warning), 40);
    assert_eq!(json::level(slog::Level::Info), 30);
    assert_eq!(json::level(slog::Level::Debug), 20);
    assert_eq!(json::level(slog::Level::Trace), 10);
}

#[test]
fn term_and_null_plans() {
    let c = AnyConfig::Term(term::Config { color: term::Color::Force, ..term::Config::default() });
    match build(&c) {
        Ok(Drain::Term(p)) => {
            assert_eq!(p.color, term::Color::Force);
            assert_eq!(p.target, TermTarget::Stdout);
            assert_eq!(p.level, slog::Level::Info);
        },
        other => panic!("unexpected {:?}", other),
    }
    assert!(matches!(build(&AnyConfig::Null(null::Config)), Ok(Drain::Null)));
}

#[test]
fn default_factories_and_unsupported() {
    let mut reg = factories();
    assert!(reg.is_registered::<plain::Config>());
    assert!(reg.is_registered::<term::Config>());
    assert!(reg.is_registered::<json::Config>());
    assert!(reg.is_registered::<null::Config>());
    assert!(reg.deregister::<json::Config>());
    let c = AnyConfig::Json(json::Config::default());
    assert!(matches!(reg.build(&c), Err(Error::Unsupported(id)) if id == json::Config::config_id()));
    let empty: Factories<AnyFactory> = Factories::empty();
    assert!(matches!(empty.build(&AnyConfig::Null(null::Config)), Err(Error::Unsupported(_))));
    let d: Factories<AnyFactory> = Factories::default();
    assert!(d.build(&c).is_ok());
}

#[test]
fn error_message() {
    assert!(matches!(Error::msg("broken"), Error::Msg(m) if m == "broken"));
    let e: Error = std::io::Error::new(std::io::ErrorKind::Other, "x").into();
    assert!(matches!(e, Error::Io(_)));
}

#[test]
fn supported_types_are_registered() {
    let reg = deserializers();
    for tag in SUPPORTED_TYPES {
        assert!(reg.contains_key(tag));
    }
    assert_eq!(SUPPORTED_TYPES.len(), reg.tags().len());
}
