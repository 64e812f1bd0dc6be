//! The tagged representation of a configuration: the type tag travels with
//! the configuration's own fields, so that a document names its own kind.
use vstd::prelude::*;

use crate::decode::DecodeError;
use crate::identity::Config;
use crate::value::{
    duplicated, find_field, index_of, lemma_view_entries, lemma_view_items, named_at, view_entries,
    view_items, Doc, Value,
};
use crate::{type_key, type_key_str};

verus! {

broadcast use vstd::std_specs::vec::group_vec_axioms, vstd::seq::group_seq_axioms;

/// The document written for a configuration with tag `tag` whose own fields
/// are `d`.
///
/// A record gets the discriminator as its first field; a unit value becomes a
/// record of the discriminator alone; a sequence gets the tag as its first
/// element. A scalar is written as it is: it stands for itself and carries
/// no separate discriminator.
pub open spec fn spec_tagged(tag: Seq<char>, d: Doc) -> Doc {
    match d {
        Doc::Record(es) => Doc::Record(seq![(type_key(), Doc::Str(tag))] + es),
        Doc::Unit => Doc::Record(seq![(type_key(), Doc::Str(tag))]),
        Doc::List(xs) => Doc::List(seq![Doc::Str(tag)] + xs),
        _ => d,
    }
}

/// The tag of a document and the fields that remain for the decode function
/// of that tag, or why the document names no tag.
pub open spec fn spec_untagged(d: Doc) -> Result<(Seq<char>, Doc), DecodeError> {
    match d {
        Doc::Record(es) => if duplicated(es, type_key()) {
            Err(DecodeError::DuplicateDiscriminator)
        } else if !exists|i: int| named_at(es, type_key(), i) {
            Err(DecodeError::MissingDiscriminator)
        } else {
            match es[index_of(es, type_key())].1 {
                Doc::Str(t) => Ok((t, Doc::Record(es.remove(index_of(es, type_key()))))),
                _ => Err(DecodeError::InvalidDiscriminator),
            }
        },
        Doc::List(xs) => if xs.len() == 0 {
            Err(DecodeError::MissingDiscriminator)
        } else {
            match xs[0] {
                Doc::Str(t) => Ok((t, Doc::List(xs.drop_first()))),
                _ => Err(DecodeError::InvalidDiscriminator),
            }
        },
        Doc::Str(t) => Ok((t, Doc::Str(t))),
        _ => Err(DecodeError::MissingDiscriminator),
    }
}

/// Whether the fields `d` of a configuration with tag `tag` come back from
/// their tagged document: a record that does not use the reserved field
/// name, a unit value, a sequence, or the tag itself as a string.
pub open spec fn taggable(tag: Seq<char>, d: Doc) -> bool {
    match d {
        Doc::Record(es) => !exists|i: int| named_at(es, type_key(), i),
        Doc::Unit => true,
        Doc::List(_) => true,
        Doc::Str(s) => s == tag,
        _ => false,
    }
}

/// The fields `d` as they come back from their tagged document: a unit value
/// comes back as the empty record, anything else as it is.
pub open spec fn fields_back(d: Doc) -> Doc {
    match d {
        Doc::Unit => Doc::Record(Seq::empty()),
        _ => d,
    }
}

/// Writes the fields of a configuration together with its tag.
pub fn tagged(tag: &str, fields: Value) -> (r: Value)
    ensures
        r@ == spec_tagged(tag@, fields@),
{
    let key = type_key_str();
    match fields {
        Value::Record(mut entries) => {
            let ghost old_entries = entries@;
            let entry = (key.to_owned(), Value::Str(tag.to_owned()));
            entries.insert(0, entry);
            proof {
                lemma_view_entries(old_entries);
                lemma_view_entries(entries@);
                assert(view_entries(entries@) =~= seq![(type_key(), Doc::Str(tag@))]
                    + view_entries(old_entries));
            }
            Value::Record(entries)
        },
        Value::Unit => {
            let mut entries: Vec<(String, Value)> = Vec::new();
            entries.push((key.to_owned(), Value::Str(tag.to_owned())));
            proof {
                lemma_view_entries(entries@);
                assert(view_entries(entries@) =~= seq![(type_key(), Doc::Str(tag@))]);
            }
            Value::Record(entries)
        },
        Value::List(mut items) => {
            let ghost old_items = items@;
            items.insert(0, Value::Str(tag.to_owned()));
            proof {
                lemma_view_items(old_items);
                lemma_view_items(items@);
                assert(view_items(items@) =~= seq![Doc::Str(tag@)] + view_items(old_items));
            }
            Value::List(items)
        },
        other => other,
    }
}

/// Splits a document into its tag and the fields that remain.
pub fn untagged(doc: Value) -> (r: Result<(String, Value), DecodeError>)
    ensures
        match r {
            Ok((t, rest)) => spec_untagged(doc@) == Ok::<(Seq<char>, Doc), DecodeError>(
                (t@, rest@),
            ),
            Err(e) => spec_untagged(doc@) == Err::<(Seq<char>, Doc), DecodeError>(e),
        },
{
    let ghost d = doc@;
    match doc {
        Value::Record(mut entries) => {
            let ghost old_entries = entries@;
            proof {
                lemma_view_entries(old_entries);
            }
            match find_field(&entries, type_key_str()) {
                Err(_) => Err(DecodeError::DuplicateDiscriminator),
                Ok(None) => Err(DecodeError::MissingDiscriminator),
                Ok(Some(i)) => {
                    let (_, tag) = entries.remove(i);
                    match tag {
                        Value::Str(t) => {
                            proof {
                                lemma_view_entries(entries@);
                                assert(view_entries(entries@) =~= view_entries(
                                    old_entries,
                                ).remove(i as int));
                            }
                            Ok((t, Value::Record(entries)))
                        },
                        _ => Err(DecodeError::InvalidDiscriminator),
                    }
                },
            }
        },
        Value::List(mut items) => {
            let ghost old_items = items@;
            proof {
                lemma_view_items(old_items);
            }
            if items.len() == 0 {
                Err(DecodeError::MissingDiscriminator)
            } else {
                let first = items.remove(0);
                match first {
                    Value::Str(t) => {
                        proof {
                            lemma_view_items(items@);
                            assert(view_items(items@) =~= view_items(old_items).drop_first());
                        }
                        Ok((t, Value::List(items)))
                    },
                    _ => Err(DecodeError::InvalidDiscriminator),
                }
            }
        },
        Value::Str(t) => {
            let rest = Value::Str(t.clone());
            Ok((t, rest))
        },
        _ => Err(DecodeError::MissingDiscriminator),
    }
}

/// Splitting the tagged document of a configuration gives back its tag and
/// its fields, provided that its fields do not use the reserved field name
/// and that a configuration written as a bare string is written as its tag.
pub proof fn lemma_untagged_tagged(tag: Seq<char>, d: Doc)
    requires
        taggable(tag, d),
    ensures
        spec_untagged(spec_tagged(tag, d)) == Ok::<(Seq<char>, Doc), DecodeError>(
            (tag, fields_back(d)),
        ),
{
    match d {
        Doc::Record(es) => {
            let es2 = seq![(type_key(), Doc::Str(tag))] + es;
            assert(named_at(es2, type_key(), 0));
            assert forall|i: int, j: int|
                i != j && named_at(es2, type_key(), i) implies !named_at(es2, type_key(), j) by {
                if i != 0 {
                    assert(named_at(es, type_key(), i - 1));
                }
                if j != 0 && named_at(es2, type_key(), j) {
                    assert(named_at(es, type_key(), j - 1));
                }
            }
            assert(!duplicated(es2, type_key()));
            assert(index_of(es2, type_key()) == 0);
            assert(es2.remove(0) =~= es);
        },
        Doc::Unit => {
            let es2 = seq![(type_key(), Doc::Str(tag))];
            assert(named_at(es2, type_key(), 0));
            assert(!duplicated(es2, type_key()));
            assert(index_of(es2, type_key()) == 0);
            assert(es2.remove(0) =~= Seq::empty());
        },
        Doc::List(xs) => {
            assert((seq![Doc::Str(tag)] + xs).drop_first() =~= xs);
        },
        _ => {},
    }
}

/// Writes a configuration handle: its fields together with its tag.
pub fn serialize<H: Config>(cfg: &H) -> (r: Value)
    ensures
        r@ == spec_tagged(cfg.spec_ty(), cfg.spec_fields()),
{
    tagged(cfg.ty(), cfg.to_value())
}

} // verus!
