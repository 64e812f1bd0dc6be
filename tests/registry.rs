use slog_conf::decode::{DecodeError, DeserializeConfig, Deserializers};
use slog_conf::factory::{Factories, Factory};
use slog_conf::identity::{is, Config, ConfigId, ConfigType, Narrow};
use slog_conf::tagged::{serialize, tagged, untagged};
use slog_conf::value::{field, FieldError, Value};
use slog_conf::Error;

const ECHO_ID: u64 = 100;

#[derive(Debug, PartialEq)]
struct Echo {
    message: String,
}

impl Config for Echo {
    fn ty(&self) -> &'static str {
        "echo"
    }

    fn type_id(&self) -> ConfigId {
        ConfigId::new(ECHO_ID)
    }

    fn to_value(&self) -> Value {
        Value::Record(vec![("message".to_string(), Value::Str(self.message.clone()))])
    }
}

impl ConfigType for Echo {
    fn config_id() -> ConfigId {
        ConfigId::new(ECHO_ID)
    }

    fn lemma_type_id(&self) {}
}

impl Narrow<Echo> for Echo {
    fn downcast_ref(&self) -> Option<&Echo> {
        Some(self)
    }

    fn downcast_mut(&mut self) -> Option<&mut Echo> {
        Some(self)
    }
}

/// Reads an `Echo`; the shouting one upper-cases the message.
struct EchoDecoder {
    shout: bool,
}

impl DeserializeConfig for EchoDecoder {
    type Config = Echo;

    fn deserialize_config(&self, fields: &Value) -> Result<Echo, FieldError> {
        match fields {
            Value::Record(entries) => match field(entries, "message")? {
                Some(Value::Str(s)) => Ok(Echo {
                    message: if self.shout { s.to_uppercase() } else { s.clone() },
                }),
                Some(_) => Err(FieldError::InvalidType),
                None => Err(FieldError::MissingField),
            },
            _ => Err(FieldError::InvalidType),
        }
    }
}

struct Upper;

impl Factory for Upper {
    type Handle = Echo;
    type Target = String;

    fn config_id(&self) -> ConfigId {
        Echo::config_id()
    }

    fn build(&self, cfg: &Echo) -> Result<String, Error> {
        Ok(cfg.message.to_uppercase())
    }
}

fn s(x: &str) -> Value {
    Value::Str(x.to_string())
}

fn rec(entries: Vec<(&str, Value)>) -> Value {
    Value::Record(entries.into_iter().map(|(k, v)| (k.to_string(), v)).collect())
}

#[test]
fn echo_scenario() {
    let mut decoders = Deserializers::empty();
    assert!(decoders.register("echo", EchoDecoder { shout: false }).is_none());
    let mut factories = Factories::empty();
    assert!(!factories.register(Upper));

    let doc = rec(vec![("type", s("echo")), ("message", s("hi"))]);
    let handle = decoders.deserialize(doc).unwrap();
    let echo: &Echo = handle.downcast_ref().unwrap();
    assert_eq!(echo, &Echo { message: "hi".to_string() });
    assert_eq!(factories.build(&handle).unwrap(), "HI");

    let doc = rec(vec![("type", s("unknown"))]);
    match decoders.deserialize(doc) {
        Err(DecodeError::UnknownTag(t)) => assert_eq!(t, "unknown"),
        other => panic!("unexpected {:?}", other),
    }
}

#[test]
fn unknown_tag_is_reported() {
    let mut decoders = Deserializers::empty();
    decoders.register("echo", EchoDecoder { shout: false });
    let doc = rec(vec![("type", s("plain")), ("message", s("hi"))]);
    assert!(matches!(decoders.deserialize(doc), Err(DecodeError::UnknownTag(t)) if t == "plain"));
}

#[test]
fn missing_discriminator_is_reported() {
    let mut decoders = Deserializers::empty();
    decoders.register("echo", EchoDecoder { shout: false });
    let doc = rec(vec![("message", s("hi"))]);
    assert!(matches!(decoders.deserialize(doc), Err(DecodeError::MissingDiscriminator)));
    assert!(matches!(decoders.deserialize(Value::Bool(true)), Err(DecodeError::MissingDiscriminator)));
    assert!(matches!(decoders.deserialize(Value::List(vec![])), Err(DecodeError::MissingDiscriminator)));
}

#[test]
fn duplicate_and_invalid_discriminators_are_reported() {
    let mut decoders = Deserializers::empty();
    decoders.register("echo", EchoDecoder { shout: false });
    let doc = rec(vec![("type", s("echo")), ("type", s("echo"))]);
    assert!(matches!(decoders.deserialize(doc), Err(DecodeError::DuplicateDiscriminator)));
    let doc = rec(vec![("type", Value::U64(3))]);
    assert!(matches!(decoders.deserialize(doc), Err(DecodeError::InvalidDiscriminator)));
}

#[test]
fn malformed_fields_are_wrapped() {
    let mut decoders = Deserializers::empty();
    decoders.register("echo", EchoDecoder { shout: false });
    let doc = rec(vec![("type", s("echo"))]);
    assert!(matches!(
        decoders.deserialize(doc),
        Err(DecodeError::MalformedFields(FieldError::MissingField))
    ));
}

#[test]
fn reregistration_replaces() {
    let mut decoders = Deserializers::empty();
    assert!(decoders.register("echo", EchoDecoder { shout: false }).is_none());
    let previous = decoders.register("echo", EchoDecoder { shout: true });
    assert!(matches!(previous, Some(EchoDecoder { shout: false })));
    assert_eq!(decoders.tags(), vec!["echo".to_string()]);
    let doc = rec(vec![("type", s("echo")), ("message", s("hi"))]);
    assert_eq!(decoders.deserialize(doc).unwrap().message, "HI");
}

#[test]
fn registry_listing_and_removal() {
    let mut decoders = Deserializers::empty();
    decoders.register("b", EchoDecoder { shout: false });
    decoders.register("a", EchoDecoder { shout: true });
    assert_eq!(decoders.tags(), vec!["b".to_string(), "a".to_string()]);
    assert!(decoders.contains_key("a"));
    assert!(decoders.get("b").is_some());
    assert!(decoders.remove("b").is_some());
    assert!(decoders.remove("b").is_none());
    assert!(!decoders.contains_key("b"));
    assert_eq!(decoders.tags(), vec!["a".to_string()]);
    decoders.register("c", EchoDecoder { shout: false });
    decoders.register("a", EchoDecoder { shout: false });
    assert_eq!(decoders.tags(), vec!["a".to_string(), "c".to_string()]);
}

#[test]
fn unsupported_build() {
    let mut factories: Factories<Upper> = Factories::empty();
    let echo = Echo { message: "x".to_string() };
    assert!(matches!(factories.build(&echo), Err(Error::Unsupported(id)) if id == ConfigId::new(ECHO_ID)));
    factories.register(Upper);
    assert!(factories.is_registered::<Echo>());
    assert!(factories.is_registered_id(&ConfigId::new(ECHO_ID)));
    assert!(factories.register(Upper));
    assert!(factories.deregister::<Echo>());
    assert!(!factories.deregister::<Echo>());
    assert!(matches!(factories.build(&echo), Err(Error::Unsupported(_))));
    factories.register(Upper);
    factories.deregister_id(&ConfigId::new(ECHO_ID));
    assert!(!factories.is_registered::<Echo>());
    factories.register(Upper);
    factories.clear();
    assert!(!factories.is_registered_id(&ConfigId::new(ECHO_ID)));
}

#[test]
fn echo_round_trip() {
    let mut decoders = Deserializers::empty();
    decoders.register("echo", EchoDecoder { shout: false });
    let echo = Echo { message: "round".to_string() };
    let doc = serialize(&echo);
    match &doc {
        Value::Record(entries) => {
            assert_eq!(entries[0].0, "type");
            assert!(matches!(&entries[0].1, Value::Str(t) if t == "echo"));
            assert_eq!(entries.len(), 2);
        },
        _ => panic!("not a record"),
    }
    assert_eq!(decoders.deserialize(doc).unwrap(), echo);
    assert!(is::<Echo, Echo>(&echo));
}

#[test]
fn tagging_of_each_shape() {
    match tagged("t", Value::Unit) {
        Value::Record(entries) => {
            assert_eq!(entries.len(), 1);
            assert_eq!(entries[0].0, "type");
        },
        _ => panic!("not a record"),
    }
    match tagged("t", Value::List(vec![Value::U64(1)])) {
        Value::List(items) => {
            assert_eq!(items.len(), 2);
            assert!(matches!(&items[0], Value::Str(t) if t == "t"));
            assert!(matches!(&items[1], Value::U64(1)));
        },
        _ => panic!("not a list"),
    }
    assert!(matches!(tagged("t", s("t")), Value::Str(x) if x == "t"));
    match untagged(s("stdout")) {
        Ok((t, Value::Str(rest))) => {
            assert_eq!(t, "stdout");
            assert_eq!(rest, "stdout");
        },
        _ => panic!("not split"),
    }
    match untagged(Value::List(vec![s("t"), Value::Bool(true)])) {
        Ok((t, Value::List(rest))) => {
            assert_eq!(t, "t");
            assert!(matches!(rest.as_slice(), [Value::Bool(true)]));
        },
        _ => panic!("not split"),
    }
}
