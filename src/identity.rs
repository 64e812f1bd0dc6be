//! How a configuration names its kind: a tag for documents, an identity
//! token for dispatch, and narrowing from a handle to a concrete type that is
//! gated on that token.
use vstd::prelude::*;

use crate::value::{Doc, Value};

verus! {

/// The identity of a concrete configuration type: one token per type,
/// independent of its tag, usable as a key.
#[derive(Clone, Copy, Debug, PartialEq, Eq, Hash, Structural)]
pub struct ConfigId {
    pub id: u64,
}

impl ConfigId {
    /// The identity with the given number.
    pub fn new(id: u64) -> (r: ConfigId)
        ensures
            r == (ConfigId { id }),
    {
        ConfigId { id }
    }
}

/// A configuration value that a logger can be built from.
///
/// A program's handle type implements it: either a single configuration type
/// or a sum over the configuration types that the program knows.
pub trait Config {
    /// The tag under which this value is written; unspecified where an
    /// implementation does not say.
    closed spec fn spec_ty(&self) -> Seq<char> {
        arbitrary()
    }

    /// The identity of the concrete type that backs this value; unspecified
    /// where an implementation does not say.
    closed spec fn spec_type_id(&self) -> ConfigId {
        arbitrary()
    }

    /// The fields that this value writes, without its tag; unspecified where
    /// an implementation does not say.
    closed spec fn spec_fields(&self) -> Doc {
        arbitrary()
    }

    /// The type tag of this configuration.
    fn ty(&self) -> (r: &'static str)
        ensures
            r@ == self.spec_ty(),
    ;

    /// The identity of the concrete type that backs this value.
    fn type_id(&self) -> (r: ConfigId)
        ensures
            r == self.spec_type_id(),
    ;

    /// The fields of this configuration, without its tag.
    fn to_value(&self) -> (r: Value)
        ensures
            r@ == self.spec_fields(),
    ;
}

/// A concrete configuration type, with an identity of its own.
///
/// Each type must pick an identity that no other type uses; the types of
/// this crate take the identities 1 to 4.
pub trait ConfigType: Config + Sized {
    /// The identity of this type; unspecified where an implementation does
    /// not say.
    closed spec fn spec_id() -> ConfigId {
        arbitrary()
    }

    /// The identity of this type.
    fn config_id() -> (r: ConfigId)
        ensures
            r == Self::spec_id(),
    ;

    /// The identity that a value reports is the identity of its type.
    proof fn lemma_type_id(&self)
        ensures
            self.spec_type_id() == Self::spec_id(),
    ;
}

/// Narrowing from a handle to the concrete configuration type `C` that backs
/// it, gated on the identity that the handle reports.
pub trait Narrow<C: ConfigType>: Config {
    /// The concrete value behind this handle, if it is of type `C`.
    fn downcast_ref(&self) -> (r: Option<&C>)
        ensures
            r is Some <==> self.spec_type_id() == C::spec_id(),
            r matches Some(c) ==> c.spec_fields() == self.spec_fields() && c.spec_ty()
                == self.spec_ty(),
    ;

    /// The concrete value behind this handle, to change in place, if it is
    /// of type `C`.
    fn downcast_mut(&mut self) -> (r: Option<&mut C>)
        ensures
            r is Some <==> old(self).spec_type_id() == C::spec_id(),
            r matches Some(c) ==> c.spec_fields() == old(self).spec_fields(),
            r is None ==> final(self).spec_fields() == old(self).spec_fields()
                && final(self).spec_type_id() == old(self).spec_type_id()
                && final(self).spec_ty() == old(self).spec_ty(),
            r matches Some(c) ==> final(self).spec_fields() == final(c).spec_fields()
                && final(self).spec_type_id() == old(self).spec_type_id()
                && final(self).spec_ty() == old(self).spec_ty(),
    ;
}

/// Whether the handle `cfg` is backed by a value of type `C`.
pub fn is<C: ConfigType, H: Config>(cfg: &H) -> (r: bool)
    ensures
        r == (cfg.spec_type_id() == C::spec_id()),
{
    cfg.type_id() == C::config_id()
}

} // verus!
