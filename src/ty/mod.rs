//! The configuration types of this crate, and the handle and decode
//! functions that cover all of them.
use vstd::prelude::*;

pub mod json;
pub mod null;
pub mod plain;
pub mod term;

use crate::decode::{
    decoded_by, lemma_decode_tagged, DecodeError, DeserializeConfig, Deserializers,
};
use crate::factory::{Factories, Factory};
use crate::identity::{Config, ConfigId, ConfigType, Narrow};
use crate::tagged::spec_tagged;
use crate::type_key;
use crate::value::{named_at, Doc, FieldError, Value};
use crate::Error;

verus! {

/// A configuration of one of the types of this crate.
#[derive(Debug, Clone, PartialEq)]
pub enum AnyConfig {
    Plain(plain::Config),
    Term(term::Config),
    Json(json::Config),
    Null(null::Config),
}

/// The mathematical model of an `AnyConfig`.
pub enum AnyModel {
    Plain(plain::Model),
    Term(term::Config),
    Json(json::Model),
    Null,
}

impl View for AnyConfig {
    type V = AnyModel;

    open spec fn view(&self) -> AnyModel {
        match self {
            AnyConfig::Plain(c) => AnyModel::Plain(c@),
            AnyConfig::Term(c) => AnyModel::Term(*c),
            AnyConfig::Json(c) => AnyModel::Json(c@),
            AnyConfig::Null(_) => AnyModel::Null,
        }
    }
}

impl Config for AnyConfig {
    open spec fn spec_ty(&self) -> Seq<char> {
        match self {
            AnyConfig::Plain(c) => c.spec_ty(),
            AnyConfig::Term(c) => c.spec_ty(),
            AnyConfig::Json(c) => c.spec_ty(),
            AnyConfig::Null(c) => c.spec_ty(),
        }
    }

    open spec fn spec_type_id(&self) -> ConfigId {
        match self {
            AnyConfig::Plain(c) => c.spec_type_id(),
            AnyConfig::Term(c) => c.spec_type_id(),
            AnyConfig::Json(c) => c.spec_type_id(),
            AnyConfig::Null(c) => c.spec_type_id(),
        }
    }

    open spec fn spec_fields(&self) -> Doc {
        match self {
            AnyConfig::Plain(c) => c.spec_fields(),
            AnyConfig::Term(c) => c.spec_fields(),
            AnyConfig::Json(c) => c.spec_fields(),
            AnyConfig::Null(c) => c.spec_fields(),
        }
    }

    fn ty(&self) -> (r: &'static str) {
        match self {
            AnyConfig::Plain(c) => c.ty(),
            AnyConfig::Term(c) => c.ty(),
            AnyConfig::Json(c) => c.ty(),
            AnyConfig::Null(c) => c.ty(),
        }
    }

    fn type_id(&self) -> (r: ConfigId) {
        match self {
            AnyConfig::Plain(c) => c.type_id(),
            AnyConfig::Term(c) => c.type_id(),
            AnyConfig::Json(c) => c.type_id(),
            AnyConfig::Null(c) => c.type_id(),
        }
    }

    fn to_value(&self) -> (r: Value) {
        match self {
            AnyConfig::Plain(c) => c.to_value(),
            AnyConfig::Term(c) => c.to_value(),
            AnyConfig::Json(c) => c.to_value(),
            AnyConfig::Null(c) => c.to_value(),
        }
    }
}

impl Narrow<plain::Config> for AnyConfig {
    fn downcast_ref(&self) -> (r: Option<&plain::Config>) {
        match self {
            AnyConfig::Plain(c) => Some(c),
            _ => None,
        }
    }

    fn downcast_mut(&mut self) -> (r: Option<&mut plain::Config>) {
        match self {
            AnyConfig::Plain(c) => Some(c),
            _ => None,
        }
    }
}

impl Narrow<term::Config> for AnyConfig {
    fn downcast_ref(&self) -> (r: Option<&term::Config>) {
        match self {
            AnyConfig::Term(c) => Some(c),
            _ => None,
        }
    }

    fn downcast_mut(&mut self) -> (r: Option<&mut term::Config>) {
        match self {
            AnyConfig::Term(c) => Some(c),
            _ => None,
        }
    }
}

impl Narrow<json::Config> for AnyConfig {
    fn downcast_ref(&self) -> (r: Option<&json::Config>) {
        match self {
            AnyConfig::Json(c) => Some(c),
            _ => None,
        }
    }

    fn downcast_mut(&mut self) -> (r: Option<&mut json::Config>) {
        match self {
            AnyConfig::Json(c) => Some(c),
            _ => None,
        }
    }
}

impl Narrow<null::Config> for AnyConfig {
    fn downcast_ref(&self) -> (r: Option<&null::Config>) {
        match self {
            AnyConfig::Null(c) => Some(c),
            _ => None,
        }
    }

    fn downcast_mut(&mut self) -> (r: Option<&mut null::Config>) {
        match self {
            AnyConfig::Null(c) => Some(c),
            _ => None,
        }
    }
}

/// The decode function of one of the configuration types of this crate.
#[derive(Debug, Clone, Copy, PartialEq, Eq, Structural)]
pub enum Decoder {
    Plain,
    Term,
    Json,
    Null,
}

impl DeserializeConfig for Decoder {
    type Config = AnyConfig;

    open spec fn decodes(&self, fields: Doc, r: Result<AnyConfig, FieldError>) -> bool {
        match self {
            Decoder::Plain => match r {
                Ok(AnyConfig::Plain(c)) => plain::config_of(fields) == Ok::<
                    plain::Model,
                    FieldError,
                >(c@),
                Ok(_) => false,
                Err(e) => plain::config_of(fields) == Err::<plain::Model, FieldError>(e),
            },
            Decoder::Term => match r {
                Ok(AnyConfig::Term(c)) => term::config_of(fields) == Ok::<term::Config, FieldError>(
                    c,
                ),
                Ok(_) => false,
                Err(e) => term::config_of(fields) == Err::<term::Config, FieldError>(e),
            },
            Decoder::Json => match r {
                Ok(AnyConfig::Json(c)) => json::config_of(fields) == Ok::<json::Model, FieldError>(
                    c@,
                ),
                Ok(_) => false,
                Err(e) => json::config_of(fields) == Err::<json::Model, FieldError>(e),
            },
            Decoder::Null => match r {
                Ok(AnyConfig::Null(c)) => null::config_of(fields) == Ok::<null::Config, FieldError>(
                    c,
                ),
                Ok(_) => false,
                Err(e) => null::config_of(fields) == Err::<null::Config, FieldError>(e),
            },
        }
    }

    fn deserialize_config(&self, fields: &Value) -> (r: Result<AnyConfig, FieldError>) {
        match self {
            Decoder::Plain => match plain::Config::from_value(fields) {
                Ok(c) => Ok(AnyConfig::Plain(c)),
                Err(e) => Err(e),
            },
            Decoder::Term => match term::Config::from_value(fields) {
                Ok(c) => Ok(AnyConfig::Term(c)),
                Err(e) => Err(e),
            },
            Decoder::Json => match json::Config::from_value(fields) {
                Ok(c) => Ok(AnyConfig::Json(c)),
                Err(e) => Err(e),
            },
            Decoder::Null => match null::Config::from_value(fields) {
                Ok(c) => Ok(AnyConfig::Null(c)),
                Err(e) => Err(e),
            },
        }
    }
}

/// The decode functions of all configuration types of this crate, under
/// their tags.
pub open spec fn default_decoders() -> Map<Seq<char>, Decoder> {
    map![
        "plain"@ => Decoder::Plain,
        "term"@ => Decoder::Term,
        "json"@ => Decoder::Json,
        "null"@ => Decoder::Null,
    ]
}

/// A registry holding the decode functions of all configuration types of
/// this crate, listed in the order `plain`, `term`, `json`, `null`.
pub fn deserializers() -> (r: Deserializers<Decoder>)
    ensures
        r.wf(),
        r@ == default_decoders(),
        r.tag_order() == seq!["plain"@, "term"@, "json"@, "null"@],
{
    proof {
        reveal_strlit("plain");
        reveal_strlit("term");
        reveal_strlit("json");
        reveal_strlit("null");
        assert("plain"@.len() != "term"@.len());
        assert("plain"@.len() != "json"@.len());
        assert("plain"@.len() != "null"@.len());
        assert("term"@[0] != "json"@[0]);
        assert("term"@[0] != "null"@[0]);
        assert("json"@[0] != "null"@[0]);
    }
    let mut reg = Deserializers::empty();
    reg.register("plain", Decoder::Plain);
    reg.register("term", Decoder::Term);
    reg.register("json", Decoder::Json);
    reg.register("null", Decoder::Null);
    assert(reg@ =~= default_decoders());
    assert(reg.tag_order() =~= seq!["plain"@, "term"@, "json"@, "null"@]);
    reg
}

/// The configuration types of this crate have distinct identities, and
/// each value reports the identity of its type.
pub proof fn lemma_builtin_identities(c: AnyConfig)
    ensures
        plain::Config::spec_id() != term::Config::spec_id(),
        plain::Config::spec_id() != json::Config::spec_id(),
        plain::Config::spec_id() != null::Config::spec_id(),
        term::Config::spec_id() != json::Config::spec_id(),
        term::Config::spec_id() != null::Config::spec_id(),
        json::Config::spec_id() != null::Config::spec_id(),
        match c {
            AnyConfig::Plain(_) => c.spec_type_id() == plain::Config::spec_id(),
            AnyConfig::Term(_) => c.spec_type_id() == term::Config::spec_id(),
            AnyConfig::Json(_) => c.spec_type_id() == json::Config::spec_id(),
            AnyConfig::Null(_) => c.spec_type_id() == null::Config::spec_id(),
        },
{
}

/// Whether a record of the given keys leaves the discriminator free.
proof fn lemma_keys_free(es: Seq<(Seq<char>, Doc)>)
    requires
        forall|i: int| 0 <= i < es.len() ==> (#[trigger] es[i].0).len() != 4 || es[i].0[1] != 'y',
    ensures
        !exists|i: int| named_at(es, type_key(), i),
{
}

/// Round trip: a configuration of this crate, written with its tag and read
/// with the decode functions of this crate, is read back as itself.
pub proof fn lemma_builtin_round_trip(c: AnyConfig, r: Result<AnyConfig, DecodeError>)
    requires
        decoded_by(default_decoders(), spec_tagged(c.spec_ty(), c.spec_fields()), r),
    ensures
        r matches Ok(h) && h@ == c@,
{
    reveal_strlit("plain");
    reveal_strlit("term");
    reveal_strlit("json");
    reveal_strlit("null");
    reveal_strlit("target");
    reveal_strlit("format");
    reveal_strlit("level");
    reveal_strlit("timestamp");
    reveal_strlit("color");
    reveal_strlit("newlines");
    reveal_strlit("pretty");
    assert("plain"@.len() != "term"@.len());
    assert("plain"@.len() != "json"@.len());
    assert("plain"@.len() != "null"@.len());
    assert("term"@[0] != "json"@[0]);
    assert("term"@[0] != "null"@[0]);
    assert("json"@[0] != "null"@[0]);
    let m = default_decoders();
    let fields = c.spec_fields();
    match c {
        AnyConfig::Plain(p) => {
            lemma_keys_free(fields->Record_0);
            lemma_decode_tagged(m, c.spec_ty(), fields, r);
            plain::lemma_round_trip(p@);
        },
        AnyConfig::Term(t) => {
            lemma_keys_free(fields->Record_0);
            lemma_decode_tagged(m, c.spec_ty(), fields, r);
            term::lemma_round_trip(t);
        },
        AnyConfig::Json(j) => {
            lemma_keys_free(fields->Record_0);
            lemma_decode_tagged(m, c.spec_ty(), fields, r);
            json::lemma_round_trip(j@);
        },
        AnyConfig::Null(_) => {
            lemma_decode_tagged(m, c.spec_ty(), fields, r);
        },
    }
}

/// What a logger of one of the types of this crate is made of.
#[derive(Debug)]
pub enum Drain {
    Plain(plain::Plan),
    Term(term::Plan),
    Json(json::Plan),
    Null,
}

/// The factory of one of the configuration types of this crate.
#[derive(Debug, Clone, Copy, PartialEq, Eq, Structural)]
pub enum AnyFactory {
    Plain,
    Term,
    Json,
    Null,
}

impl Factory for AnyFactory {
    type Handle = AnyConfig;

    type Target = Drain;

    open spec fn spec_config_id(&self) -> ConfigId {
        match self {
            AnyFactory::Plain => ConfigId { id: plain::ID },
            AnyFactory::Term => ConfigId { id: term::ID },
            AnyFactory::Json => ConfigId { id: json::ID },
            AnyFactory::Null => ConfigId { id: null::ID },
        }
    }

    open spec fn builds(&self, cfg: AnyConfig, r: Result<Drain, Error>) -> bool {
        match cfg {
            AnyConfig::Plain(c) => r matches Ok(Drain::Plain(p)) && plain::plans(c, p),
            AnyConfig::Term(c) => r matches Ok(Drain::Term(p)) && term::plans(c, p),
            AnyConfig::Json(c) => r matches Ok(Drain::Json(p)) && json::plans(c, p),
            AnyConfig::Null(_) => r matches Ok(Drain::Null),
        }
    }

    fn config_id(&self) -> (r: ConfigId) {
        match self {
            AnyFactory::Plain => plain::Config::config_id(),
            AnyFactory::Term => term::Config::config_id(),
            AnyFactory::Json => json::Config::config_id(),
            AnyFactory::Null => null::Config::config_id(),
        }
    }

    fn build(&self, cfg: &AnyConfig) -> (r: Result<Drain, Error>) {
        match self {
            AnyFactory::Plain => match <AnyConfig as Narrow<plain::Config>>::downcast_ref(cfg) {
                Some(c) => {
                    proof {
                        let inner = cfg->Plain_0;
                        plain::lemma_round_trip(c@);
                        plain::lemma_round_trip(inner@);
                        assert(c@ == inner@);
                    }
                    Ok(Drain::Plain(plain::Factory.build(c)))
                },
                None => {
                    // The registry hands this factory only configurations of its own
                    // identity, so narrowing cannot fail here.
                    assert(false);
                    Err(Error::Unsupported(cfg.type_id()))
                },
            },
            AnyFactory::Term => match <AnyConfig as Narrow<term::Config>>::downcast_ref(cfg) {
                Some(c) => {
                    proof {
                        term::lemma_round_trip(*c);
                        term::lemma_round_trip(cfg->Term_0);
                    }
                    Ok(Drain::Term(term::Factory.build(c)))
                },
                None => {
                    // The registry hands this factory only configurations of its own
                    // identity, so narrowing cannot fail here.
                    assert(false);
                    Err(Error::Unsupported(cfg.type_id()))
                },
            },
            AnyFactory::Json => match <AnyConfig as Narrow<json::Config>>::downcast_ref(cfg) {
                Some(c) => {
                    proof {
                        let inner = cfg->Json_0;
                        json::lemma_round_trip(c@);
                        json::lemma_round_trip(inner@);
                        assert(c@ == inner@);
                    }
                    Ok(Drain::Json(json::Factory.build(c)))
                },
                None => {
                    // The registry hands this factory only configurations of its own
                    // identity, so narrowing cannot fail here.
                    assert(false);
                    Err(Error::Unsupported(cfg.type_id()))
                },
            },
            AnyFactory::Null => Ok(Drain::Null),
        }
    }
}

/// The factories of all configuration types of this crate, under their
/// identities.
pub open spec fn default_factories() -> Map<ConfigId, AnyFactory> {
    map![
        ConfigId { id: plain::ID } => AnyFactory::Plain,
        ConfigId { id: term::ID } => AnyFactory::Term,
        ConfigId { id: json::ID } => AnyFactory::Json,
        ConfigId { id: null::ID } => AnyFactory::Null,
    ]
}

/// A registry holding the factories of all configuration types of this
/// crate.
pub fn factories() -> (r: Factories<AnyFactory>)
    ensures
        r.wf(),
        r@ == default_factories(),
{
    let mut reg = Factories::empty();
    reg.register(AnyFactory::Plain);
    reg.register(AnyFactory::Term);
    reg.register(AnyFactory::Json);
    reg.register(AnyFactory::Null);
    assert(reg@ =~= default_factories());
    reg
}

impl Default for Deserializers<Decoder> {
    /// A registry holding the decode functions of all configuration types
    /// of this crate.
    fn default() -> (r: Self)
        ensures
            r.wf(),
            r@ == default_decoders(),
    {
        deserializers()
    }
}

impl Default for Factories<AnyFactory> {
    /// A registry holding the factories of all configuration types of this
    /// crate.
    fn default() -> (r: Self)
        ensures
            r.wf(),
            r@ == default_factories(),
    {
        factories()
    }
}

/// Decides what a logger for `cfg` is made of, with the factories of this
/// crate; every configuration of this crate has one.
pub fn build(cfg: &AnyConfig) -> (r: Result<Drain, Error>)
    ensures
        r is Ok,
        default_factories()[cfg.spec_type_id()].builds(*cfg, r),
{
    factories().build(cfg)
}

} // verus!
