//! The decode registry: from the tag found in a document to the function
//! that reads the rest of it.
use vstd::prelude::*;

use crate::tagged::{
    fields_back, lemma_untagged_tagged, spec_tagged, spec_untagged, taggable, untagged,
};
use crate::type_key;
use crate::value::{named_at, same_text, Doc, FieldError, Value};

verus! {

/// Why a document could not be decoded into a configuration.
#[derive(Debug)]
pub enum DecodeError {
    /// The document carries no discriminator field.
    MissingDiscriminator,
    /// The document carries the discriminator field more than once.
    DuplicateDiscriminator,
    /// The discriminator is not a string.
    InvalidDiscriminator,
    /// No decode function is registered for the tag.
    UnknownTag(String),
    /// The decode function registered for the tag rejected the fields.
    MalformedFields(FieldError),
}

/// A decode function: reads the fields of a document, its tag taken out,
/// into a configuration handle.
pub trait DeserializeConfig {
    /// The handle type that this function produces.
    type Config;

    /// Whether `r` is an outcome of reading `fields`; an implementation
    /// that does not say promises nothing.
    closed spec fn decodes(&self, fields: Doc, r: Result<Self::Config, FieldError>) -> bool {
        true
    }

    /// Reads the fields of a configuration.
    fn deserialize_config(&self, fields: &Value) -> (r: Result<Self::Config, FieldError>)
        ensures
            self.decodes(fields@, r),
    ;
}

/// What decoding `doc` with the decode functions `m` may give: the error of
/// a document without a usable tag, `UnknownTag` for a tag without a
/// function, else the outcome of the function registered for the tag on the
/// remaining fields, its error wrapped as it is.
pub open spec fn decoded_by<D: DeserializeConfig>(
    m: Map<Seq<char>, D>,
    doc: Doc,
    r: Result<D::Config, DecodeError>,
) -> bool {
    match spec_untagged(doc) {
        Err(e) => r == Err::<D::Config, DecodeError>(e),
        Ok((t, rest)) => if m.contains_key(t) {
            match r {
                Ok(h) => m[t].decodes(rest, Ok(h)),
                Err(DecodeError::MalformedFields(fe)) => m[t].decodes(rest, Err(fe)),
                Err(_) => false,
            }
        } else {
            r matches Err(DecodeError::UnknownTag(s)) && s@ == t
        },
    }
}

/// A registry of decode functions, keyed by type tag.
pub struct Deserializers<D> {
    store: Vec<(String, D)>,
    map: Ghost<Map<Seq<char>, D>>,
}

impl<D> View for Deserializers<D> {
    type V = Map<Seq<char>, D>;

    closed spec fn view(&self) -> Map<Seq<char>, D> {
        self.map@
    }
}

impl<D> Deserializers<D> {
    /// The store holds each tag once, and agrees with the view.
    pub closed spec fn wf(&self) -> bool {
        &&& forall|i: int, j: int|
            0 <= i < j < self.store@.len() ==> self.store@[i].0@ != self.store@[j].0@
        &&& forall|i: int|
            0 <= i < self.store@.len() ==> #[trigger] self.map@.contains_key(self.store@[i].0@)
                && self.map@[self.store@[i].0@] == self.store@[i].1
        &&& forall|t: Seq<char>|
            #[trigger] self.map@.contains_key(t) ==> exists|i: int|
                0 <= i < self.store@.len() && self.store@[i].0@ == t
    }

    /// The registered tags, in the order of their first registration.
    pub closed spec fn tag_order(&self) -> Seq<Seq<char>> {
        self.store@.map_values(|e: (String, D)| e.0@)
    }

    /// The tag order lists each registered tag once, and nothing else.
    pub proof fn lemma_tag_order(&self)
        requires
            self.wf(),
        ensures
            forall|i: int, j: int|
                0 <= i < j < self.tag_order().len() ==> self.tag_order()[i] != self.tag_order()[j],
            forall|t: Seq<char>| self@.contains_key(t) <==> self.tag_order().contains(t),
    {
        assert forall|t: Seq<char>| self@.contains_key(t) implies self.tag_order().contains(t) by {
            let m = choose|m: int| 0 <= m < self.store@.len() && self.store@[m].0@ == t;
            assert(self.tag_order()[m] == t);
        }
        assert forall|t: Seq<char>| self.tag_order().contains(t) implies self@.contains_key(t) by {
            let m = choose|m: int| 0 <= m < self.tag_order().len() && self.tag_order()[m] == t;
            assert(self.map@.contains_key(self.store@[m].0@));
        }
    }

    /// Creates a new, empty registry.
    pub fn empty() -> (r: Self)
        ensures
            r.wf(),
            r@ == Map::<Seq<char>, D>::empty(),
            r.tag_order() == Seq::<Seq<char>>::empty(),
    {
        let r = Deserializers { store: Vec::new(), map: Ghost(Map::empty()) };
        assert(r.tag_order() =~= Seq::<Seq<char>>::empty());
        r
    }

    /// The position of `tag` in the store, if it is registered.
    fn position(&self, tag: &str) -> (r: Option<usize>)
        requires
            self.wf(),
        ensures
            match r {
                Some(i) => i < self.store@.len() && self.store@[i as int].0@ == tag@,
                None => !self@.contains_key(tag@),
            },
    {
        let mut i: usize = 0;
        while i < self.store.len()
            invariant
                i <= self.store@.len(),
                forall|m: int| 0 <= m < i ==> self.store@[m].0@ != tag@,
            decreases self.store@.len() - i,
        {
            if same_text(&self.store[i].0, tag) {
                return Some(i);
            }
            i = i + 1;
        }
        None
    }

    /// Registers a decode function for the type tag `tag`.
    ///
    /// Returns the function that was registered for `tag` before, which this
    /// call replaces, or `None` if there was none. A new tag goes last in the
    /// tag order; a replaced one keeps its place.
    pub fn register(&mut self, tag: &str, seed: D) -> (r: Option<D>)
        requires
            old(self).wf(),
        ensures
            final(self).wf(),
            final(self)@ == old(self)@.insert(tag@, seed),
            final(self).tag_order() == (if old(self)@.contains_key(tag@) {
                old(self).tag_order()
            } else {
                old(self).tag_order().push(tag@)
            }),
            r == (if old(self)@.contains_key(tag@) {
                Some(old(self)@[tag@])
            } else {
                None::<D>
            }),
    {
        match self.position(tag) {
            Some(i) => {
                let ghost old_store = self.store@;
                let (t, prev) = self.store.remove(i);
                self.store.insert(i, (t, seed));
                self.map = Ghost(self.map@.insert(tag@, seed));
                assert(self.store@ =~= old_store.update(i as int, self.store@[i as int]));
                assert(self.store@[i as int].0@ == tag@);
                assert(self.tag_order() =~= old(self).tag_order());
                assert forall|a: int, b: int| 0 <= a < b < self.store@.len() implies
                    self.store@[a].0@ != self.store@[b].0@ by {
                    assert(self.store@[a].0@ == old(self).store@[a].0@);
                    assert(self.store@[b].0@ == old(self).store@[b].0@);
                }
                assert forall|m: int| 0 <= m < self.store@.len() implies #[trigger]
                    self.map@.contains_key(self.store@[m].0@) && self.map@[self.store@[m].0@]
                        == self.store@[m].1 by {
                    if m != i {
                        assert(self.store@[m] == old(self).store@[m]);
                        assert(old(self).store@[m].0@ != tag@);
                    }
                }
                assert forall|t2: Seq<char>| #[trigger]
                    self.map@.contains_key(t2) implies exists|m: int|
                    0 <= m < self.store@.len() && self.store@[m].0@ == t2 by {
                    if t2 != tag@ {
                        let m = choose|m: int|
                            0 <= m < old(self).store@.len() && old(self).store@[m].0@ == t2;
                        assert(self.store@[m] == old(self).store@[m]);
                    } else {
                        assert(self.store@[i as int].0@ == t2);
                    }
                }
                Some(prev)
            },
            None => {
                self.store.push((tag.to_owned(), seed));
                self.map = Ghost(self.map@.insert(tag@, seed));
                assert(self.tag_order() =~= old(self).tag_order().push(tag@));
                assert forall|a: int, b: int| 0 <= a < b < self.store@.len() implies
                    self.store@[a].0@ != self.store@[b].0@ by {
                    assert(self.store@[a] == old(self).store@[a]);
                    if b < old(self).store@.len() {
                        assert(self.store@[b] == old(self).store@[b]);
                    } else {
                        assert(old(self).map@.contains_key(old(self).store@[a].0@));
                    }
                }
                assert forall|m: int| 0 <= m < self.store@.len() implies #[trigger]
                    self.map@.contains_key(self.store@[m].0@) && self.map@[self.store@[m].0@]
                        == self.store@[m].1 by {
                    if m < old(self).store@.len() {
                        assert(self.store@[m] == old(self).store@[m]);
                    }
                }
                assert forall|t2: Seq<char>| #[trigger]
                    self.map@.contains_key(t2) implies exists|m: int|
                    0 <= m < self.store@.len() && self.store@[m].0@ == t2 by {
                    if t2 != tag@ {
                        let m = choose|m: int|
                            0 <= m < old(self).store@.len() && old(self).store@[m].0@ == t2;
                        assert(self.store@[m] == old(self).store@[m]);
                    } else {
                        assert(self.store@[old(self).store@.len() as int].0@ == t2);
                    }
                }
                None
            },
        }
    }

    /// The decode function registered for `tag`, if any.
    pub fn get(&self, tag: &str) -> (r: Option<&D>)
        requires
            self.wf(),
        ensures
            r == (if self@.contains_key(tag@) {
                Some(&self@[tag@])
            } else {
                None::<&D>
            }),
    {
        match self.position(tag) {
            Some(i) => Some(&self.store[i].1),
            None => None,
        }
    }

    /// Whether a decode function is registered for `tag`.
    pub fn contains_key(&self, tag: &str) -> (r: bool)
        requires
            self.wf(),
        ensures
            r == self@.contains_key(tag@),
    {
        self.position(tag).is_some()
    }

    /// Removes the decode function registered for `tag`, and returns it.
    /// The other tags keep their order.
    pub fn remove(&mut self, tag: &str) -> (r: Option<D>)
        requires
            old(self).wf(),
        ensures
            final(self).wf(),
            final(self)@ == old(self)@.remove(tag@),
            old(self)@.contains_key(tag@) ==> exists|i: int|
                0 <= i < old(self).tag_order().len() && old(self).tag_order()[i] == tag@
                    && final(self).tag_order() == old(self).tag_order().remove(i),
            !old(self)@.contains_key(tag@) ==> final(self).tag_order() == old(self).tag_order(),
            r == (if old(self)@.contains_key(tag@) {
                Some(old(self)@[tag@])
            } else {
                None::<D>
            }),
    {
        match self.position(tag) {
            Some(i) => {
                let (_, prev) = self.store.remove(i);
                self.map = Ghost(self.map@.remove(tag@));
                assert(self.tag_order() =~= old(self).tag_order().remove(i as int));
                assert(old(self).tag_order()[i as int] == tag@);
                assert forall|m: int| 0 <= m < self.store@.len() implies #[trigger]
                    self.map@.contains_key(self.store@[m].0@) && self.map@[self.store@[m].0@]
                        == self.store@[m].1 by {
                    if m < i {
                        assert(self.store@[m] == old(self).store@[m]);
                        assert(old(self).store@[m].0@ != tag@);
                    } else {
                        assert(self.store@[m] == old(self).store@[m + 1]);
                        assert(old(self).store@[m + 1].0@ != tag@);
                    }
                }
                assert forall|t2: Seq<char>| #[trigger]
                    self.map@.contains_key(t2) implies exists|m: int|
                    0 <= m < self.store@.len() && self.store@[m].0@ == t2 by {
                    let m = choose|m: int|
                        0 <= m < old(self).store@.len() && old(self).store@[m].0@ == t2;
                    if m < i {
                        assert(self.store@[m] == old(self).store@[m]);
                    } else {
                        assert(m != i);
                        assert(self.store@[m - 1] == old(self).store@[m]);
                    }
                }
                Some(prev)
            },
            None => {
                assert(self.map@.remove(tag@) =~= self.map@);
                None
            },
        }
    }

    /// The registered tags, each once, in the order of their first
    /// registration.
    pub fn tags(&self) -> (r: Vec<String>)
        requires
            self.wf(),
        ensures
            r@.len() == self.tag_order().len(),
            forall|i: int| 0 <= i < r@.len() ==> #[trigger] r@[i]@ == self.tag_order()[i],
            forall|i: int, j: int| 0 <= i < j < r@.len() ==> r@[i]@ != r@[j]@,
            forall|t: Seq<char>|
                self@.contains_key(t) <==> exists|i: int| 0 <= i < r@.len() && #[trigger] r@[i]@
                    == t,
    {
        let mut r: Vec<String> = Vec::new();
        let mut i: usize = 0;
        while i < self.store.len()
            invariant
                self.wf(),
                i <= self.store@.len(),
                r@.len() == i,
                forall|m: int| 0 <= m < i ==> #[trigger] r@[m]@ == self.store@[m].0@,
            decreases self.store@.len() - i,
        {
            r.push(self.store[i].0.clone());
            i = i + 1;
        }
        assert forall|t: Seq<char>|
            self@.contains_key(t) implies exists|m: int| 0 <= m < r@.len() && #[trigger] r@[m]@
                == t by {
            let m = choose|m: int| 0 <= m < self.store@.len() && self.store@[m].0@ == t;
            assert(r@[m]@ == t);
        }
        assert forall|t: Seq<char>|
            (exists|m: int| 0 <= m < r@.len() && #[trigger] r@[m]@ == t) implies self@.contains_key(
            t) by {
            let m = choose|m: int| 0 <= m < r@.len() && #[trigger] r@[m]@ == t;
            assert(self.map@.contains_key(self.store@[m].0@));
        }
        r
    }
} // impl

impl<D: DeserializeConfig> Deserializers<D> {
    /// Reads a tagged document: takes its tag out, and hands the remaining
    /// fields to the decode function registered for that tag.
    pub fn deserialize(&self, doc: Value) -> (r: Result<D::Config, DecodeError>)
        requires
            self.wf(),
        ensures
            decoded_by(self@, doc@, r),
    {
        match untagged(doc) {
            Err(e) => Err(e),
            Ok((tag, rest)) => match self.position(tag.as_str()) {
                None => Err(DecodeError::UnknownTag(tag)),
                Some(i) => match self.store[i].1.deserialize_config(&rest) {
                    Ok(h) => Ok(h),
                    Err(e) => Err(DecodeError::MalformedFields(e)),
                },
            },
        }
    }
}

/// Registering a second decode function under a tag replaces the first:
/// the registration hands the first back, and a document with that tag is
/// from then on decoded by the second function alone.
pub proof fn lemma_reregister_replaces<D: DeserializeConfig>(
    m: Map<Seq<char>, D>,
    tag: Seq<char>,
    first: D,
    second: D,
    doc: Doc,
    r: Result<D::Config, DecodeError>,
)
    requires
        spec_untagged(doc) matches Ok((t, _)) && t == tag,
    ensures
        m.insert(tag, first).contains_key(tag) && m.insert(tag, first)[tag] == first,
        m.insert(tag, first).insert(tag, second) == m.insert(tag, second),
        decoded_by(m.insert(tag, first).insert(tag, second), doc, r) <==> ({
            let rest = spec_untagged(doc)->Ok_0.1;
            match r {
                Ok(h) => second.decodes(rest, Ok(h)),
                Err(DecodeError::MalformedFields(fe)) => second.decodes(rest, Err(fe)),
                Err(_) => false,
            }
        }),
{
    assert(m.insert(tag, first).insert(tag, second) =~= m.insert(tag, second));
}

/// A document whose tag has no decode function is refused with
/// `UnknownTag`, which names that tag.
pub proof fn lemma_unknown_tag<D: DeserializeConfig>(
    m: Map<Seq<char>, D>,
    doc: Doc,
    r: Result<D::Config, DecodeError>,
)
    requires
        decoded_by(m, doc, r),
        spec_untagged(doc) matches Ok((t, _)) && !m.contains_key(t),
    ensures
        r matches Err(DecodeError::UnknownTag(s)) && s@ == spec_untagged(doc)->Ok_0.0,
{
}

/// A record without the discriminator field is refused with
/// `MissingDiscriminator`.
pub proof fn lemma_missing_discriminator<D: DeserializeConfig>(
    m: Map<Seq<char>, D>,
    es: Seq<(Seq<char>, Doc)>,
    r: Result<D::Config, DecodeError>,
)
    requires
        decoded_by(m, Doc::Record(es), r),
        !exists|i: int| named_at(es, type_key(), i),
    ensures
        r matches Err(DecodeError::MissingDiscriminator),
{
    assert(!crate::value::duplicated(es, type_key()));
}

/// Decoding the tagged document of a configuration goes to the decode
/// function registered under its tag, which is handed exactly the
/// configuration's fields.
pub proof fn lemma_decode_tagged<D: DeserializeConfig>(
    m: Map<Seq<char>, D>,
    tag: Seq<char>,
    fields: Doc,
    r: Result<D::Config, DecodeError>,
)
    requires
        taggable(tag, fields),
        m.contains_key(tag),
        decoded_by(m, spec_tagged(tag, fields), r),
    ensures
        match r {
            Ok(h) => m[tag].decodes(fields_back(fields), Ok(h)),
            Err(DecodeError::MalformedFields(fe)) => m[tag].decodes(fields_back(fields), Err(fe)),
            Err(_) => false,
        },
{
    lemma_untagged_tagged(tag, fields);
}

} // verus!
