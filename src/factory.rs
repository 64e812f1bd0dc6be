//! The build registry: from the identity of a configuration's concrete type
//! to the factory written for that type.
use vstd::prelude::*;

use std::collections::HashMap;

use crate::identity::{Config, ConfigId, ConfigType};
use crate::Error;

verus! {

broadcast use vstd::std_specs::hash::group_hash_axioms;

/// A factory that builds a target from configurations of one concrete type.
pub trait Factory {
    /// The handle type that configurations are handed over in.
    type Handle: Config;

    /// The target type that this factory builds.
    type Target;

    /// The identity of the concrete configuration type that this factory is
    /// written for; unspecified where an implementation does not say.
    closed spec fn spec_config_id(&self) -> ConfigId {
        arbitrary()
    }

    /// Whether `r` is an outcome of building from `cfg`; an implementation
    /// that does not say promises nothing.
    closed spec fn builds(&self, cfg: Self::Handle, r: Result<Self::Target, Error>) -> bool {
        true
    }

    /// The identity of the concrete configuration type that this factory is
    /// written for.
    fn config_id(&self) -> (r: ConfigId)
        ensures
            r == self.spec_config_id(),
    ;

    /// Builds a target from a configuration of the type that this factory is
    /// written for; the registry calls it on no other.
    fn build(&self, cfg: &Self::Handle) -> (r: Result<Self::Target, Error>)
        requires
            cfg.spec_type_id() == self.spec_config_id(),
        ensures
            self.builds(*cfg, r),
    ;
}

/// A registry of factories, keyed by the identity of the configuration type
/// that each is written for.
pub struct Factories<F> {
    store: HashMap<u64, F>,
}

impl<F> View for Factories<F> {
    type V = Map<ConfigId, F>;

    closed spec fn view(&self) -> Map<ConfigId, F> {
        Map::new(|k: ConfigId| self.store@.contains_key(k.id), |k: ConfigId| self.store@[k.id])
    }
}

impl<F: Factory> Factories<F> {
    /// Each factory is stored under the identity that it is written for.
    pub closed spec fn wf(&self) -> bool {
        forall|k: u64| #[trigger]
            self.store@.contains_key(k) ==> self.store@[k].spec_config_id().id == k
    }

    /// Creates a new, empty registry.
    pub fn empty() -> (r: Self)
        ensures
            r.wf(),
            r@ == Map::<ConfigId, F>::empty(),
    {
        let r = Factories { store: HashMap::new() };
        assert(r@ =~= Map::<ConfigId, F>::empty());
        r
    }

    /// Registers `factory` for the configuration type that it is written for.
    ///
    /// Returns `true` if that type had a factory before this call, which this
    /// call replaces.
    pub fn register(&mut self, factory: F) -> (r: bool)
        requires
            old(self).wf(),
        ensures
            final(self).wf(),
            final(self)@ == old(self)@.insert(factory.spec_config_id(), factory),
            r == old(self)@.contains_key(factory.spec_config_id()),
    {
        let id = factory.config_id();
        let ghost f = factory;
        let prev = self.store.insert(id.id, factory);
        assert(self@ =~= old(self)@.insert(id, f));
        prev.is_some()
    }

    /// Removes the factory of the configuration type `C`.
    ///
    /// Returns `true` if there was one.
    pub fn deregister<C: ConfigType>(&mut self) -> (r: bool)
        requires
            old(self).wf(),
        ensures
            final(self).wf(),
            final(self)@ == old(self)@.remove(C::spec_id()),
            r == old(self)@.contains_key(C::spec_id()),
    {
        let id = C::config_id();
        let prev = self.store.remove(&id.id);
        assert(self@ =~= old(self)@.remove(id));
        prev.is_some()
    }

    /// Removes the factory registered under the identity `id`.
    pub fn deregister_id(&mut self, id: &ConfigId)
        requires
            old(self).wf(),
        ensures
            final(self).wf(),
            final(self)@ == old(self)@.remove(*id),
    {
        let _ = self.store.remove(&id.id);
        assert(self@ =~= old(self)@.remove(*id));
    }

    /// Whether the configuration type `C` has a factory.
    pub fn is_registered<C: ConfigType>(&self) -> (r: bool)
        ensures
            r == self@.contains_key(C::spec_id()),
    {
        let id = C::config_id();
        self.store.contains_key(&id.id)
    }

    /// Whether a factory is registered under the identity `id`.
    pub fn is_registered_id(&self, id: &ConfigId) -> (r: bool)
        ensures
            r == self@.contains_key(*id),
    {
        self.store.contains_key(&id.id)
    }

    /// Removes every factory.
    pub fn clear(&mut self)
        ensures
            final(self).wf(),
            final(self)@ == Map::<ConfigId, F>::empty(),
    {
        self.store.clear();
        assert(self@ =~= Map::<ConfigId, F>::empty());
    }

    /// Builds a target from `cfg` with the factory registered for the
    /// identity of its concrete type.
    ///
    /// Fails with `Error::Unsupported` where that identity has no factory.
    pub fn build(&self, cfg: &F::Handle) -> (r: Result<F::Target, Error>)
        requires
            self.wf(),
        ensures
            !self@.contains_key(cfg.spec_type_id()) ==> (r matches Err(Error::Unsupported(id))
                && id == cfg.spec_type_id()),
            self@.contains_key(cfg.spec_type_id()) ==> self@[cfg.spec_type_id()].builds(*cfg, r),
    {
        let id = cfg.type_id();
        match self.store.get(&id.id) {
            None => Err(Error::Unsupported(id)),
            Some(factory) => {
                assert(self.store@.contains_key(id.id));
                factory.build(cfg)
            },
        }
    }
}

} // verus!
