//! The generic structured-data model: configuration documents are read into a
//! `Value` and written out of one, whatever the concrete text format is.
use vstd::prelude::*;

verus! {

broadcast use vstd::std_specs::vec::group_vec_axioms, vstd::seq::group_seq_axioms;

/// A structured value: a scalar, a sequence, or a record of named fields.
///
/// Records keep their entries in document order; a name may occur more than
/// once, which readers of a record report as a duplicate field.
#[derive(Debug)]
pub enum Value {
    Unit,
    Bool(bool),
    U64(u64),
    Str(String),
    List(Vec<Value>),
    Record(Vec<(String, Value)>),
}

/// The mathematical model of a `Value`.
pub enum Doc {
    Unit,
    Bool(bool),
    U64(u64),
    Str(Seq<char>),
    List(Seq<Doc>),
    Record(Seq<(Seq<char>, Doc)>),
}

pub open spec fn view_value(v: Value) -> Doc
    decreases v,
{
    match v {
        Value::Unit => Doc::Unit,
        Value::Bool(b) => Doc::Bool(b),
        Value::U64(n) => Doc::U64(n),
        Value::Str(s) => Doc::Str(s@),
        Value::List(items) => Doc::List(view_items(items@)),
        Value::Record(entries) => Doc::Record(view_entries(entries@)),
    }
}

pub open spec fn view_items(s: Seq<Value>) -> Seq<Doc>
    decreases s,
{
    if s.len() == 0 {
        Seq::empty()
    } else {
        view_items(s.drop_last()).push(view_value(s.last()))
    }
}

pub open spec fn view_entries(s: Seq<(String, Value)>) -> Seq<(Seq<char>, Doc)>
    decreases s,
{
    if s.len() == 0 {
        Seq::empty()
    } else {
        view_entries(s.drop_last()).push((s.last().0@, view_value(s.last().1)))
    }
}

impl View for Value {
    type V = Doc;

    open spec fn view(&self) -> Doc {
        view_value(*self)
    }
}

pub proof fn lemma_view_items(s: Seq<Value>)
    ensures
        view_items(s).len() == s.len(),
        forall|i: int| 0 <= i < s.len() ==> #[trigger] view_items(s)[i] == view_value(s[i]),
    decreases s.len(),
{
    if s.len() > 0 {
        lemma_view_items(s.drop_last());
    }
}

pub proof fn lemma_view_entries(s: Seq<(String, Value)>)
    ensures
        view_entries(s).len() == s.len(),
        forall|i: int|
            0 <= i < s.len() ==> #[trigger] view_entries(s)[i] == (s[i].0@, view_value(s[i].1)),
    decreases s.len(),
{
    if s.len() > 0 {
        lemma_view_entries(s.drop_last());
    }
}

/// Why the fields of a document do not make a value of a concrete type.
#[derive(Clone, Copy, Debug, PartialEq, Eq, Structural)]
pub enum FieldError {
    /// The value has a shape (scalar, sequence, record) that the type does not accept.
    InvalidType,
    /// A string names no variant of an enumeration.
    UnknownVariant,
    /// A number is out of the range that the type accepts.
    InvalidValue,
    /// A required field is absent.
    MissingField,
    /// A field occurs more than once in a record.
    DuplicateField,
    /// A sequence is shorter than the type requires.
    InvalidLength,
}

/// Whether entry `i` of a record is named `k`.
pub open spec fn named_at(es: Seq<(Seq<char>, Doc)>, k: Seq<char>, i: int) -> bool {
    0 <= i < es.len() && es[i].0 == k
}

/// The position of the entry named `k`, where there is one.
pub open spec fn index_of(es: Seq<(Seq<char>, Doc)>, k: Seq<char>) -> int {
    choose|i: int| named_at(es, k, i)
}

/// Whether a record holds the name `k` at two positions.
pub open spec fn duplicated(es: Seq<(Seq<char>, Doc)>, k: Seq<char>) -> bool {
    exists|i: int, j: int| i != j && named_at(es, k, i) && named_at(es, k, j)
}

/// The field named `k` of a record: absent, present once, or duplicated.
pub open spec fn field_of(es: Seq<(Seq<char>, Doc)>, k: Seq<char>) -> Result<Option<Doc>, FieldError> {
    if duplicated(es, k) {
        Err(FieldError::DuplicateField)
    } else if exists|i: int| named_at(es, k, i) {
        Ok(Some(es[index_of(es, k)].1))
    } else {
        Ok(None)
    }
}

/// Whether two strings hold the same characters.
pub fn same_text(a: &String, b: &str) -> (r: bool)
    ensures
        r == (a@ == b@),
{
    *a == b.to_owned()
}

/// Finds the position of the field named `key` of a record.
pub fn find_field(entries: &Vec<(String, Value)>, key: &str) -> (r: Result<Option<usize>, FieldError>)
    ensures
        ({
            let es = view_entries(entries@);
            match r {
                Ok(Some(i)) => {
                    &&& !duplicated(es, key@)
                    &&& named_at(es, key@, i as int)
                    &&& i == index_of(es, key@)
                    &&& field_of(es, key@) == Ok::<Option<Doc>, FieldError>(Some(es[i as int].1))
                },
                Ok(None) => !exists|i: int| named_at(es, key@, i),
                Err(e) => duplicated(es, key@) && e == FieldError::DuplicateField,
            }
        }),
{
    proof {
        lemma_view_entries(entries@);
    }
    let ghost es = view_entries(entries@);
    let mut found: Option<usize> = None;
    let mut i: usize = 0;
    while i < entries.len()
        invariant
            es == view_entries(entries@),
            es.len() == entries@.len(),
            forall|m: int|
                0 <= m < entries@.len() ==> #[trigger] es[m] == (entries@[m].0@, view_value(
                    entries@[m].1,
                )),
            i <= entries.len(),
            match found {
                Some(j) => j < i && named_at(es, key@, j as int) && forall|m: int|
                    0 <= m < i && m != j ==> !named_at(es, key@, m),
                None => forall|m: int| 0 <= m < i ==> !named_at(es, key@, m),
            },
        decreases entries.len() - i,
    {
        if same_text(&entries[i].0, key) {
            assert(named_at(es, key@, i as int));
            match found {
                Some(j) => {
                    assert(named_at(es, key@, j as int));
                    return Err(FieldError::DuplicateField);
                },
                None => {
                    found = Some(i);
                },
            }
        } else {
            assert(!named_at(es, key@, i as int));
        }
        i = i + 1;
    }
    match found {
        Some(j) => {
            assert(named_at(es, key@, j as int));
            assert(index_of(es, key@) == j);
            Ok(Some(j))
        },
        None => Ok(None),
    }
}

/// Looks up the field named `key` of a record.
pub fn field<'a>(entries: &'a Vec<(String, Value)>, key: &str) -> (r: Result<Option<&'a Value>, FieldError>)
    ensures
        field_of(view_entries(entries@), key@) == match r {
            Ok(Some(v)) => Ok::<Option<Doc>, FieldError>(Some(v@)),
            Ok(None) => Ok(None),
            Err(e) => Err(e),
        },
{
    proof {
        lemma_view_entries(entries@);
    }
    match find_field(entries, key) {
        Ok(Some(i)) => Ok(Some(&entries[i].1)),
        Ok(None) => Ok(None),
        Err(e) => Err(e),
    }
}

/// A field read with a default: `default` where the field is absent, else
/// what `read` makes of it.
pub open spec fn with_default<T>(
    f: Result<Option<Doc>, FieldError>,
    default: T,
    read: spec_fn(Doc) -> Result<T, FieldError>,
) -> Result<T, FieldError> {
    match f {
        Err(e) => Err(e),
        Ok(None) => Ok(default),
        Ok(Some(d)) => read(d),
    }
}

/// The flag that a value reads as.
pub open spec fn bool_of(d: Doc) -> Result<bool, FieldError> {
    match d {
        Doc::Bool(b) => Ok(b),
        _ => Err(FieldError::InvalidType),
    }
}

/// Reads a flag.
pub fn read_bool(v: &Value) -> (r: Result<bool, FieldError>)
    ensures
        r == bool_of(v@),
{
    match v {
        Value::Bool(b) => Ok(*b),
        _ => Err(FieldError::InvalidType),
    }
}

} // verus!
