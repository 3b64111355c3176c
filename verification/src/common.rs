//! Plain value types shared by every data source variant: block
//! coordinates, versions, entity types, contexts, and the persisted
//! snapshot of a dynamically created data source.

use crate::causality_region::CausalityRegion;
use std::sync::Arc;
use vstd::prelude::*;

verus! {

/// The number of a block within its chain.
pub type BlockNumber = i32;

/// The timestamp a block carries, in seconds.
pub type BlockTime = u64;

/// Compares two string slices by their character sequences.
pub fn str_eq(a: &str, b: &str) -> (r: bool)
    ensures
        r == (a@ == b@),
{
    let x = a.to_owned();
    let y = b.to_owned();
    x == y
}

/// Relies on `alloc::sync::Arc::clone`: the clone returns a handle to
/// the very same shared value.
#[verifier::external_body]
pub fn arc_clone<T>(a: &Arc<T>) -> (r: Arc<T>)
    ensures
        r == *a,
{
    Arc::clone(a)
}

/// Relies on `alloc::sync::Arc`'s `Deref`: borrowing through the
/// handle yields the shared value itself.
#[verifier::external_body]
pub fn arc_borrow<T>(a: &Arc<T>) -> (r: &T)
    ensures
        *r == **a,
{
    &**a
}

/// Relies on `alloc::string::String::push_str`: the string grows by
/// exactly the appended characters.
pub assume_specification[ String::push_str ](s: &mut String, other: &str)
    ensures
        final(s)@ == old(s)@ + other@,
;

/// Compares two byte buffers by content.
pub fn bytes_eq(a: &Vec<u8>, b: &Vec<u8>) -> (r: bool)
    ensures
        r == (a@ == b@),
{
    if a.len() != b.len() {
        return false;
    }
    let mut i: usize = 0;
    while i < a.len()
        invariant
            0 <= i <= a@.len(),
            a@.len() == b@.len(),
            forall|j: int| 0 <= j < i ==> a@[j] == b@[j],
        decreases a@.len() - i,
    {
        if a[i] != b[i] {
            return false;
        }
        i = i + 1;
    }
    proof {
        assert(a@ =~= b@);
    }
    true
}

/// Copies a byte buffer; the copy holds the same bytes.
pub fn clone_bytes(v: &Vec<u8>) -> (r: Vec<u8>)
    ensures
        r@ == v@,
{
    let r = v.clone();
    proof {
        assert forall|i: int| 0 <= i < v@.len() implies r@[i] == v@[i] by {
            assert(cloned::<u8>(v@[i], r@[i]));
        }
        assert(r@ =~= v@);
    }
    r
}

/// Copies an optional byte buffer.
pub fn clone_bytes_opt(v: &Option<Vec<u8>>) -> (r: Option<Vec<u8>>)
    ensures
        match v {
            Some(b) => r matches Some(c) && c@ == b@,
            None => r is None,
        },
{
    match v {
        Some(b) => Some(clone_bytes(b)),
        None => None,
    }
}

/// A content-addressed reference to a file, to be fetched by the link
/// resolver during resolution.
#[derive(Debug)]
pub struct Link {
    pub link: String,
}

impl Link {
    /// The referenced address as a character sequence.
    pub open spec fn model(&self) -> Seq<char> {
        self.link@
    }
}

impl Clone for Link {
    fn clone(&self) -> (r: Self)
        ensures
            r.model() == self.model(),
    {
        Link { link: self.link.clone() }
    }
}

/// The name of an entity type a data source may write.
#[derive(Debug)]
pub struct EntityType {
    pub name: String,
}

impl EntityType {
    /// The type name as a character sequence.
    pub open spec fn model(&self) -> Seq<char> {
        self.name@
    }

    /// Builds an entity type from its name.
    pub fn new(name: String) -> (r: EntityType)
        ensures
            r.model() == name@,
    {
        EntityType { name }
    }
}

impl Clone for EntityType {
    fn clone(&self) -> (r: Self)
        ensures
            r.model() == self.model(),
    {
        EntityType { name: self.name.clone() }
    }
}

/// The entity types a schema declares, consulted when an offchain
/// template's declared entity list is validated at resolution.
#[derive(Clone, Debug)]
pub struct InputSchema {
    pub entity_types: Vec<EntityType>,
}

impl InputSchema {
    /// The declared type names.
    pub open spec fn names(&self) -> Seq<Seq<char>> {
        self.entity_types@.map_values(|e: EntityType| e.model())
    }

    /// Whether a name is among the declared entity types.
    pub open spec fn spec_declares(&self, name: Seq<char>) -> bool {
        exists|i: int| 0 <= i < self.names().len() && self.names()[i] == name
    }

    /// Looks a type name up among the declared entity types.
    pub fn declares(&self, name: &str) -> (r: bool)
        ensures
            r == self.spec_declares(name@),
    {
        let mut i: usize = 0;
        while i < self.entity_types.len()
            invariant
                0 <= i <= self.entity_types.len(),
                forall|j: int| 0 <= j < i ==> self.names()[j] != name@,
            decreases self.entity_types.len() - i,
        {
            if str_eq(self.entity_types[i].name.as_str(), name) {
                assert(self.names()[i as int] == name@);
                return true;
            }
            i = i + 1;
        }
        false
    }
}

/// One key-value pair of a data source context.
#[derive(Debug)]
pub struct ContextEntry {
    pub key: String,
    pub value: String,
}

impl ContextEntry {
    /// The pair as character sequences.
    pub open spec fn model(&self) -> (Seq<char>, Seq<char>) {
        (self.key@, self.value@)
    }
}

impl Clone for ContextEntry {
    fn clone(&self) -> (r: Self)
        ensures
            r.model() == self.model(),
    {
        ContextEntry { key: self.key.clone(), value: self.value.clone() }
    }
}

/// Instance-specific parameters handed to a data source at creation,
/// carried through to every trigger handler invocation.
#[derive(Debug)]
pub struct DataSourceContext {
    pub entries: Vec<ContextEntry>,
}

impl DataSourceContext {
    /// The context as a sequence of key-value pairs.
    pub open spec fn model(&self) -> Seq<(Seq<char>, Seq<char>)> {
        self.entries@.map_values(|e: ContextEntry| e.model())
    }

    /// An empty context.
    pub fn new() -> (r: DataSourceContext)
        ensures
            r.model() == Seq::<(Seq<char>, Seq<char>)>::empty(),
    {
        let r = DataSourceContext { entries: Vec::new() };
        proof {
            assert(r.model() =~= Seq::<(Seq<char>, Seq<char>)>::empty());
        }
        r
    }

    /// Appends one key-value pair.
    pub fn push(&mut self, key: String, value: String)
        ensures
            final(self).model() == old(self).model().push((key@, value@)),
    {
        let ghost before = self.model();
        self.entries.push(ContextEntry { key, value });
        proof {
            assert(self.model() =~= before.push(self.entries@.last().model()));
        }
    }
}

impl Clone for DataSourceContext {
    fn clone(&self) -> (r: Self)
        ensures
            r.model() == self.model(),
    {
        let entries = self.entries.clone();
        proof {
            assert forall|i: int| 0 <= i < self.entries@.len() implies entries@[i].model()
                == self.entries@[i].model() by {
                assert(cloned::<ContextEntry>(self.entries@[i], entries@[i]));
            }
            assert(entries@.map_values(|e: ContextEntry| e.model()) =~= self.entries@.map_values(
                |e: ContextEntry| e.model(),
            ));
        }
        DataSourceContext { entries }
    }
}

/// Compares two contexts by their key-value pairs.
pub fn context_eq(a: &DataSourceContext, b: &DataSourceContext) -> (r: bool)
    ensures
        r == (a.model() == b.model()),
{
    if a.entries.len() != b.entries.len() {
        proof {
            assert(a.model().len() == a.entries@.len());
            assert(b.model().len() == b.entries@.len());
        }
        return false;
    }
    let mut i: usize = 0;
    while i < a.entries.len()
        invariant
            0 <= i <= a.entries@.len(),
            a.entries@.len() == b.entries@.len(),
            forall|j: int| 0 <= j < i ==> a.model()[j] == b.model()[j],
        decreases a.entries@.len() - i,
    {
        let same_key = str_eq(a.entries[i].key.as_str(), b.entries[i].key.as_str());
        let same_value = str_eq(a.entries[i].value.as_str(), b.entries[i].value.as_str());
        if !same_key || !same_value {
            proof {
                assert(a.model()[i as int] != b.model()[i as int]);
            }
            return false;
        }
        i = i + 1;
    }
    proof {
        assert(a.model() =~= b.model());
    }
    true
}

/// Compares two optional contexts by their key-value pairs.
pub fn context_opt_eq(a: &Option<DataSourceContext>, b: &Option<DataSourceContext>) -> (r: bool)
    ensures
        r == (match (a, b) {
            (Some(x), Some(y)) => x.model() == y.model(),
            (None, None) => true,
            _ => false,
        }),
{
    match (a, b) {
        (Some(x), Some(y)) => context_eq(x, y),
        (None, None) => true,
        _ => false,
    }
}

/// Copies an optional context, preserving its pairs.
pub fn clone_context_opt(c: &Option<DataSourceContext>) -> (r: Option<DataSourceContext>)
    ensures
        match c {
            Some(ctx) => r matches Some(d) && d.model() == ctx.model(),
            None => r is None,
        },
{
    match c {
        Some(ctx) => Some(ctx.clone()),
        None => None,
    }
}

/// Structured key-value pairs attached to execution logs when a
/// matched trigger is handled; never inspected by this crate.
#[derive(Debug)]
pub struct LogPayload {
    pub entries: Vec<ContextEntry>,
}

impl LogPayload {
    /// The payload as a sequence of key-value pairs.
    pub open spec fn model(&self) -> Seq<(Seq<char>, Seq<char>)> {
        self.entries@.map_values(|e: ContextEntry| e.model())
    }

    /// An empty payload.
    pub fn new() -> (r: LogPayload)
        ensures
            r.model() == Seq::<(Seq<char>, Seq<char>)>::empty(),
    {
        let r = LogPayload { entries: Vec::new() };
        proof {
            assert(r.model() =~= Seq::<(Seq<char>, Seq<char>)>::empty());
        }
        r
    }
}

impl Clone for LogPayload {
    fn clone(&self) -> (r: Self)
        ensures
            r.model() == self.model(),
    {
        let entries = self.entries.clone();
        proof {
            assert forall|i: int| 0 <= i < self.entries@.len() implies entries@[i].model()
                == self.entries@[i].model() by {
                assert(cloned::<ContextEntry>(self.entries@[i], entries@[i]));
            }
            assert(entries@.map_values(|e: ContextEntry| e.model()) =~= self.entries@.map_values(
                |e: ContextEntry| e.model(),
            ));
        }
        LogPayload { entries }
    }
}

/// A pointer to one block: its hash together with its number.
#[derive(Debug)]
pub struct BlockPtr {
    pub hash: Vec<u8>,
    pub number: BlockNumber,
}

impl BlockPtr {
    /// The pointer as plain values.
    pub open spec fn model(&self) -> (Seq<u8>, BlockNumber) {
        (self.hash@, self.number)
    }
}

impl Clone for BlockPtr {
    fn clone(&self) -> (r: Self)
        ensures
            r.model() == self.model(),
    {
        BlockPtr { hash: clone_bytes(&self.hash), number: self.number }
    }
}

/// The persisted snapshot of a dynamically created data source: what
/// the store keeps so the source can be rebuilt after a restart.
#[derive(Debug)]
pub struct StoredDynamicDataSource {
    /// Which manifest template the source was instantiated from.
    pub manifest_idx: u32,
    /// The instantiation parameter: an address for onchain sources, the
    /// file address bytes for offchain ones.
    pub param: Option<Vec<u8>>,
    /// The creation context, if any was supplied.
    pub context: Option<DataSourceContext>,
    /// The block at which the source was created.
    pub creation_block: Option<BlockNumber>,
    /// The isolation region of the source's writes.
    pub causality_region: CausalityRegion,
}

impl StoredDynamicDataSource {
    /// The snapshot as plain values.
    pub open spec fn model(&self) -> (
        u32,
        Option<Seq<u8>>,
        Option<Seq<(Seq<char>, Seq<char>)>>,
        Option<BlockNumber>,
        CausalityRegion,
    ) {
        (
            self.manifest_idx,
            match self.param {
                Some(p) => Some(p@),
                None => None,
            },
            match self.context {
                Some(c) => Some(c.model()),
                None => None,
            },
            self.creation_block,
            self.causality_region,
        )
    }
}

} // verus!
