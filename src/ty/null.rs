//! Configuration of a logger of type `null`, which writes nothing.
use vstd::prelude::*;

use crate::identity::{Config as ConfigTrait, ConfigId, ConfigType};
use crate::value::{Doc, FieldError, Value};

verus! {

/// The identity of the `null` configuration type.
pub const ID: u64 = 4;

/// Configuration of a logger of type `null`.
#[derive(Debug, Clone, Copy, PartialEq, Eq, Structural, Default)]
pub struct Config;

/// Whether a value reads as the `null` configuration: a unit value, an
/// empty record or an empty sequence.
pub open spec fn config_of(d: Doc) -> Result<Config, FieldError> {
    match d {
        Doc::Unit => Ok(Config),
        Doc::Record(es) => if es.len() == 0 {
            Ok(Config)
        } else {
            Err(FieldError::InvalidType)
        },
        Doc::List(xs) => if xs.len() == 0 {
            Ok(Config)
        } else {
            Err(FieldError::InvalidType)
        },
        _ => Err(FieldError::InvalidType),
    }
}

impl Config {
    /// Reads the `null` configuration from its fields.
    pub fn from_value(v: &Value) -> (r: Result<Config, FieldError>)
        ensures
            r == config_of(v@),
    {
        proof {
            if let Value::Record(es) = v {
                crate::value::lemma_view_entries(es@);
            }
            if let Value::List(xs) = v {
                crate::value::lemma_view_items(xs@);
            }
        }
        match v {
            Value::Unit => Ok(Config),
            Value::Record(es) => if es.len() == 0 {
                Ok(Config)
            } else {
                Err(FieldError::InvalidType)
            },
            Value::List(xs) => if xs.len() == 0 {
                Ok(Config)
            } else {
                Err(FieldError::InvalidType)
            },
            _ => Err(FieldError::InvalidType),
        }
    }
}

impl ConfigTrait for Config {
    open spec fn spec_ty(&self) -> Seq<char> {
        "null"@
    }

    open spec fn spec_type_id(&self) -> ConfigId {
        ConfigId { id: ID }
    }

    open spec fn spec_fields(&self) -> Doc {
        Doc::Unit
    }

    fn ty(&self) -> (r: &'static str) {
        "null"
    }

    fn type_id(&self) -> (r: ConfigId) {
        Self::config_id()
    }

    fn to_value(&self) -> (r: Value) {
        Value::Unit
    }
}

impl ConfigType for Config {
    open spec fn spec_id() -> ConfigId {
        ConfigId { id: ID }
    }

    fn config_id() -> (r: ConfigId) {
        ConfigId::new(ID)
    }

    proof fn lemma_type_id(&self) {
    }
}

/// Factory for a logger of type `null`, which discards every record.
pub struct Factory;

} // verus!
