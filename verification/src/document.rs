//! The untyped key-value documents that manifests carry. A data source
//! or template arrives as such a document; the discriminated
//! deserialization protocol inspects its `kind` field and then reads the
//! variant-specific fields.

use crate::common::{str_eq, EntityType};
use vstd::prelude::*;

verus! {

/// Why a manifest document could not be read into a data source or
/// template.
#[derive(Debug)]
pub enum DeserializationError {
    /// The document has no `kind` field at all.
    MissingKind,
    /// The `kind` discriminator names no registered variant. Carries
    /// the active chain's canonical kind, which was expected beside the
    /// registered offchain and subgraph-derived kinds, and the kind
    /// actually found.
    UnsupportedKind { expected: String, found: String },
    /// A field inside the matched variant failed structural validation.
    /// Names the variant being read and the offending field.
    Variant { variant: String, field: String },
}

/// One untyped value of a manifest document.
#[derive(Debug)]
pub enum RawValue {
    Null,
    Bool(bool),
    Int(i64),
    Text(String),
    List(Vec<RawValue>),
    Object(RawDocument),
}

/// One named field of a manifest document.
#[derive(Debug)]
pub struct RawField {
    pub name: String,
    pub value: RawValue,
}

/// An untyped key-value document, ordered as it arrived.
#[derive(Debug)]
pub struct RawDocument {
    pub fields: Vec<RawField>,
}

/// The value of the first field named `name`, if any.
pub open spec fn lookup(fields: Seq<RawField>, name: Seq<char>) -> Option<RawValue>
    decreases fields.len(),
{
    if fields.len() == 0 {
        None
    } else if fields[0].name@ == name {
        Some(fields[0].value)
    } else {
        lookup(fields.drop_first(), name)
    }
}

/// Looking a name up skips any prefix of fields that all miss it.
proof fn lemma_lookup_skip(fields: Seq<RawField>, name: Seq<char>, i: int)
    requires
        0 <= i <= fields.len(),
        forall|j: int| 0 <= j < i ==> fields[j].name@ != name,
    ensures
        lookup(fields, name) == lookup(fields.skip(i), name),
    decreases i,
{
    if i > 0 {
        lemma_lookup_skip(fields.drop_first(), name, i - 1);
        assert(fields.drop_first().skip(i - 1) =~= fields.skip(i));
    } else {
        assert(fields.skip(0) =~= fields);
    }
}

impl RawDocument {
    /// The value at `name`, if the document has such a field.
    pub open spec fn spec_get(&self, name: Seq<char>) -> Option<RawValue> {
        lookup(self.fields@, name)
    }

    /// An empty document.
    pub fn new() -> (r: RawDocument)
        ensures
            r.fields@.len() == 0,
    {
        RawDocument { fields: Vec::new() }
    }

    /// Appends one field.
    pub fn push_field(&mut self, name: String, value: RawValue)
        ensures
            final(self).fields@ == old(self).fields@.push(RawField { name, value }),
    {
        self.fields.push(RawField { name, value });
    }

    /// Returns the value of the first field named `name`, if any.
    pub fn get(&self, name: &str) -> (r: Option<&RawValue>)
        ensures
            match r {
                Some(v) => self.spec_get(name@) == Some(*v),
                None => self.spec_get(name@) is None,
            },
    {
        let mut i: usize = 0;
        while i < self.fields.len()
            invariant
                0 <= i <= self.fields.len(),
                forall|j: int| 0 <= j < i ==> self.fields@[j].name@ != name@,
            decreases self.fields.len() - i,
        {
            if str_eq(self.fields[i].name.as_str(), name) {
                proof {
                    lemma_lookup_skip(self.fields@, name@, i as int);
                    assert(self.fields@.skip(i as int)[0] == self.fields@[i as int]);
                }
                return Some(&self.fields[i].value);
            }
            i = i + 1;
        }
        proof {
            lemma_lookup_skip(self.fields@, name@, self.fields@.len() as int);
        }
        None
    }

    /// The string at `name`: `Some` exactly when the field is present
    /// and holds text.
    pub open spec fn spec_get_str(&self, name: Seq<char>) -> Option<Seq<char>> {
        match self.spec_get(name) {
            Some(RawValue::Text(s)) => Some(s@),
            _ => None,
        }
    }

    /// Returns the string at `name`, if the field is present and holds
    /// text.
    pub fn get_str(&self, name: &str) -> (r: Option<&String>)
        ensures
            match r {
                Some(s) => self.spec_get_str(name@) == Some(s@),
                None => self.spec_get_str(name@) is None,
            },
    {
        match self.get(name) {
            Some(RawValue::Text(s)) => Some(s),
            _ => None,
        }
    }

    /// The integer at `name`: `Some` exactly when the field is present
    /// and holds an integer.
    pub open spec fn spec_get_int(&self, name: Seq<char>) -> Option<i64> {
        match self.spec_get(name) {
            Some(RawValue::Int(n)) => Some(n),
            _ => None,
        }
    }

    /// Returns the integer at `name`, if the field is present and holds
    /// an integer.
    pub fn get_int(&self, name: &str) -> (r: Option<i64>)
        ensures
            r == self.spec_get_int(name@),
    {
        match self.get(name) {
            Some(RawValue::Int(n)) => Some(*n),
            _ => None,
        }
    }

    /// The sub-document at `name`: `Some` exactly when the field is
    /// present and holds an object.
    pub open spec fn spec_get_object(&self, name: Seq<char>) -> Option<RawDocument> {
        match self.spec_get(name) {
            Some(RawValue::Object(d)) => Some(d),
            _ => None,
        }
    }

    /// Returns the sub-document at `name`, if the field is present and
    /// holds an object.
    pub fn get_object(&self, name: &str) -> (r: Option<&RawDocument>)
        ensures
            match r {
                Some(d) => self.spec_get_object(name@) == Some(*d),
                None => self.spec_get_object(name@) is None,
            },
    {
        match self.get(name) {
            Some(RawValue::Object(d)) => Some(d),
            _ => None,
        }
    }

    /// The list at `name`: `Some` exactly when the field is present and
    /// holds a list.
    pub open spec fn spec_get_list(&self, name: Seq<char>) -> Option<Seq<RawValue>> {
        match self.spec_get(name) {
            Some(RawValue::List(vs)) => Some(vs@),
            _ => None,
        }
    }

    /// Returns the list at `name`, if the field is present and holds a
    /// list.
    pub fn get_list(&self, name: &str) -> (r: Option<&Vec<RawValue>>)
        ensures
            match r {
                Some(vs) => self.spec_get_list(name@) == Some(vs@),
                None => self.spec_get_list(name@) is None,
            },
    {
        match self.get(name) {
            Some(RawValue::List(vs)) => Some(vs),
            _ => None,
        }
    }
}

/// The views of a run of text values starting at `i`: `Some` exactly
/// when every value from `i` on is text.
pub open spec fn texts_from(vs: Seq<RawValue>, i: int) -> Option<Seq<Seq<char>>>
    decreases vs.len() - i,
        when 0 <= i <= vs.len()
{
    if i == vs.len() {
        Some(Seq::<Seq<char>>::empty())
    } else {
        match vs[i] {
            RawValue::Text(s) => match texts_from(vs, i + 1) {
                Some(t) => Some(seq![s@] + t),
                None => None,
            },
            _ => None,
        }
    }
}

/// Reads a run of text values as entity type names, from `i` to the
/// end: `Some` exactly when every value is text.
pub fn collect_texts(vs: &Vec<RawValue>, i: usize) -> (r: Option<Vec<EntityType>>)
    requires
        i <= vs.len(),
    ensures
        match r {
            Some(es) => texts_from(vs@, i as int) == Some(
                es@.map_values(|e: EntityType| e.model()),
            ),
            None => texts_from(vs@, i as int) is None,
        },
    decreases vs.len() - i,
{
    if i == vs.len() {
        let es: Vec<EntityType> = Vec::new();
        proof {
            assert(es@.map_values(|e: EntityType| e.model()) =~= Seq::<Seq<char>>::empty());
        }
        return Some(es);
    }
    match &vs[i] {
        RawValue::Text(s) => {
            match collect_texts(vs, i + 1) {
                Some(rest) => {
                    let ghost rest_model = rest@.map_values(|e: EntityType| e.model());
                    let mut out = rest;
                    out.insert(0, EntityType::new(s.clone()));
                    proof {
                        assert(out@.map_values(|e: EntityType| e.model()) =~= seq![s@]
                            + rest_model);
                    }
                    Some(out)
                },
                None => None,
            }
        },
        _ => None,
    }
}

} // verus!
