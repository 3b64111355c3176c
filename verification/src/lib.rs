//! Data-source dispatch and trigger matching for a blockchain indexing
//! pipeline.
//!
//! A subgraph deployment declares *data sources*: units of interest that
//! produce triggers to index. They come in three structurally different
//! kinds — chain-native (`Onchain`, pluggable per chain), file-based
//! (`Offchain`), and derived from another indexer's output (`Subgraph`) —
//! behind one uniform interface. This crate owns the variant unions and
//! their accessors, the `kind`-discriminated deserialization protocol,
//! trigger matching, and the persistence round trip for dynamically
//! created data sources.

pub mod causality_region;
pub mod chain;
pub mod common;
pub mod document;
pub mod mock;
pub mod offchain;
pub mod subgraph;
pub mod trigger;
pub mod version;

pub use causality_region::CausalityRegion;
pub use causality_region::CausalityRegionSeq;
pub use trigger::{MatchOutcome, TriggerError, TriggerWithHandler};

use crate::chain::Blockchain;
use crate::common::{
    arc_clone, bytes_eq, clone_bytes, clone_context_opt, BlockNumber, BlockPtr, DataSourceContext,
    EntityType, InputSchema, StoredDynamicDataSource,
};
use crate::document::{DeserializationError, RawDocument, RawValue};
use crate::version::Version;
use std::sync::Arc;
use vstd::prelude::*;

verus! {

/// A configured unit of interest that produces triggers to index: a
/// contract on the active chain, a file, or another indexer's output
/// stream. Exactly one variant tag is active at a time.
pub enum DataSource<C: Blockchain> {
    Onchain(C::DataSource),
    Offchain(offchain::DataSource),
    Subgraph(subgraph::DataSource),
}

/// Why a runtime instantiation of a data source failed. An `Ignore`
/// failure skips the single instantiation; an `Unknown` failure aborts
/// the broader operation.
#[derive(Debug)]
pub enum DataSourceCreationError {
    /// The creation should be skipped: an invalid runtime-supplied
    /// parameter. Carries the parameter's name and the underlying
    /// cause.
    Ignore(String, String),
    /// Any other failure, propagated as fatal.
    Unknown(String),
}

impl DataSourceCreationError {
    /// Whether the caller should skip this one instantiation and
    /// continue, rather than abort.
    pub fn should_skip(&self) -> (r: bool)
        ensures
            r == (self is Ignore),
    {
        match self {
            DataSourceCreationError::Ignore(_, _) => true,
            DataSourceCreationError::Unknown(_) => false,
        }
    }
}

/// Which entity types a data source may write. `Any` is the default for
/// chain-native and subgraph-derived sources; offchain sources are
/// restricted to the entity list their manifest declares. This is
/// advisory bookkeeping for causality-region columns, not an
/// access-control mechanism.
pub enum EntityTypeAccess {
    Any,
    Restriced(Vec<EntityType>),
}

impl EntityTypeAccess {
    /// Whether access to an entity type is allowed: always under `Any`,
    /// and under `Restriced` exactly for the listed types.
    pub open spec fn spec_allows(&self, name: Seq<char>) -> bool {
        match self {
            EntityTypeAccess::Any => true,
            EntityTypeAccess::Restriced(types) => exists|i: int|
                0 <= i < types@.len() && types@[i].model() == name,
        }
    }

    /// Tests whether a data source with this access may write the
    /// entity type.
    #[verifier::loop_isolation(false)]
    pub fn allows(&self, entity_type: &EntityType) -> (r: bool)
        ensures
            r == self.spec_allows(entity_type.model()),
    {
        match self {
            EntityTypeAccess::Any => true,
            EntityTypeAccess::Restriced(types) => {
                let mut i: usize = 0;
                while i < types.len()
                    invariant
                        0 <= i <= types@.len(),
                        forall|j: int| 0 <= j < i ==> types@[j].model() != entity_type.model(),
                    decreases types@.len() - i,
                {
                    if common::str_eq(types[i].name.as_str(), entity_type.name.as_str()) {
                        proof {
                            assert(self->Restriced_0@[i as int].model() == entity_type.model());
                        }
                        return true;
                    }
                    i = i + 1;
                }
                false
            },
        }
    }

    /// A short description of the access: `Any`, or the restricted
    /// type names joined with commas.
    pub fn describe(&self) -> (r: String)
        ensures
            r@ == match self {
                EntityTypeAccess::Any => "Any"@,
                EntityTypeAccess::Restriced(types) => joined_names(
                    types@.map_values(|e: EntityType| e.model()),
                ),
            },
    {
        match self {
            EntityTypeAccess::Any => "Any".to_owned(),
            EntityTypeAccess::Restriced(types) => {
                let ghost names = types@.map_values(|e: EntityType| e.model());
                let mut out = String::new();
                let mut i: usize = 0;
                while i < types.len()
                    invariant
                        0 <= i <= types@.len(),
                        names == types@.map_values(|e: EntityType| e.model()),
                        out@ == joined_names(names.take(i as int)),
                    decreases types.len() - i,
                {
                    if i > 0 {
                        out.push_str(", ");
                    }
                    out.push_str(types[i].name.as_str());
                    i = i + 1;
                    proof {
                        assert(names.take(i as int).drop_last() =~= names.take(i as int - 1));
                        assert(names.take(i as int).last() == names[i as int - 1]);
                    }
                }
                proof {
                    assert(names.take(types@.len() as int) =~= names);
                }
                out
            },
        }
    }
}

/// Names joined with a comma and a space between each pair.
pub open spec fn joined_names(names: Seq<Seq<char>>) -> Seq<char>
    decreases names.len(),
{
    if names.len() == 0 {
        Seq::<char>::empty()
    } else if names.len() == 1 {
        names[0]
    } else {
        joined_names(names.drop_last()) + ", "@ + names.last()
    }
}

impl<C: Blockchain> DataSource<C> {
    /// The chain-native payload, if this source is chain-native.
    pub fn as_onchain(&self) -> (r: Option<&C::DataSource>)
        ensures
            match r {
                Some(ds) => self matches DataSource::Onchain(inner) && inner == *ds,
                None => !(self is Onchain),
            },
    {
        match self {
            DataSource::Onchain(ds) => Some(ds),
            DataSource::Offchain(_) => None,
            DataSource::Subgraph(_) => None,
        }
    }

    /// The offchain payload, if this source is offchain.
    pub fn as_offchain(&self) -> (r: Option<&offchain::DataSource>)
        ensures
            match r {
                Some(ds) => self matches DataSource::Offchain(inner) && inner == *ds,
                None => !(self is Offchain),
            },
    {
        match self {
            DataSource::Onchain(_) => None,
            DataSource::Offchain(ds) => Some(ds),
            DataSource::Subgraph(_) => None,
        }
    }

    /// The subgraph-derived payload, if this source is subgraph-derived.
    pub fn as_subgraph(&self) -> (r: Option<&subgraph::DataSource>)
        ensures
            match r {
                Some(ds) => self matches DataSource::Subgraph(inner) && inner == *ds,
                None => !(self is Subgraph),
            },
    {
        match self {
            DataSource::Onchain(_) => None,
            DataSource::Offchain(_) => None,
            DataSource::Subgraph(ds) => Some(ds),
        }
    }

    /// Whether this source is chain-native.
    pub fn is_onchain(&self) -> (r: bool)
        ensures
            r == (self is Onchain),
    {
        match self {
            DataSource::Onchain(_) => true,
            _ => false,
        }
    }

    /// Whether this source is offchain.
    pub fn is_offchain(&self) -> (r: bool)
        ensures
            r == (self is Offchain),
    {
        match self {
            DataSource::Offchain(_) => true,
            _ => false,
        }
    }

    /// Whether this source follows block-order causality: true for
    /// chain-native and subgraph-derived sources, false for offchain.
    pub fn is_chain_based(&self) -> (r: bool)
        ensures
            r == (self is Onchain || self is Subgraph),
    {
        match self {
            DataSource::Onchain(_) => true,
            DataSource::Offchain(_) => false,
            DataSource::Subgraph(_) => true,
        }
    }

    /// The source's name.
    pub open spec fn spec_name(&self) -> Seq<char> {
        match self {
            DataSource::Onchain(ds) => C::ds_model(ds).name,
            DataSource::Offchain(ds) => ds.name@,
            DataSource::Subgraph(ds) => ds.name@,
        }
    }

    /// Returns the source's name; total over all three variants.
    pub fn name(&self) -> (r: &str)
        ensures
            r@ == self.spec_name(),
    {
        match self {
            DataSource::Onchain(ds) => C::ds_name(ds),
            DataSource::Offchain(ds) => ds.name.as_str(),
            DataSource::Subgraph(ds) => ds.name.as_str(),
        }
    }

    /// The source's kind discriminator.
    pub open spec fn spec_kind(&self) -> Seq<char> {
        match self {
            DataSource::Onchain(ds) => C::ds_model(ds).kind,
            DataSource::Offchain(ds) => ds.kind@,
            DataSource::Subgraph(ds) => ds.kind@,
        }
    }

    /// Returns the source's kind discriminator; total over all three
    /// variants.
    pub fn kind(&self) -> (r: String)
        ensures
            r@ == self.spec_kind(),
    {
        match self {
            DataSource::Onchain(ds) => C::ds_kind(ds),
            DataSource::Offchain(ds) => ds.kind.clone(),
            DataSource::Subgraph(ds) => ds.kind.clone(),
        }
    }

    /// The network the source indexes: only chain-native sources may
    /// report one.
    pub open spec fn spec_network(&self) -> Option<Seq<char>> {
        match self {
            DataSource::Onchain(ds) => C::ds_model(ds).network,
            DataSource::Offchain(_) => None,
            DataSource::Subgraph(_) => None,
        }
    }

    /// Returns the network the source indexes; `None` for offchain and
    /// subgraph-derived sources.
    pub fn network(&self) -> (r: Option<String>)
        ensures
            match r {
                Some(n) => self.spec_network() == Some(n@),
                None => self.spec_network() is None,
            },
            !(self is Onchain) ==> r is None,
    {
        match self {
            DataSource::Onchain(ds) => C::ds_network(ds),
            DataSource::Offchain(_) => None,
            DataSource::Subgraph(_) => None,
        }
    }

    /// The block the source starts indexing at: only chain-based
    /// variants have one.
    pub open spec fn spec_start_block(&self) -> Option<BlockNumber> {
        match self {
            DataSource::Onchain(ds) => Some(C::ds_model(ds).start_block),
            DataSource::Offchain(_) => None,
            DataSource::Subgraph(ds) => Some(ds.source.start_block),
        }
    }

    /// Returns the start block; `None` for offchain sources.
    pub fn start_block(&self) -> (r: Option<BlockNumber>)
        ensures
            r == self.spec_start_block(),
    {
        match self {
            DataSource::Onchain(ds) => Some(C::ds_start_block(ds)),
            DataSource::Offchain(_) => None,
            DataSource::Subgraph(ds) => Some(ds.source.start_block),
        }
    }

    /// The block the source stops matching after: only chain-native
    /// sources may declare one.
    pub open spec fn spec_end_block(&self) -> Option<BlockNumber> {
        match self {
            DataSource::Onchain(ds) => C::ds_model(ds).end_block,
            DataSource::Offchain(_) => None,
            DataSource::Subgraph(_) => None,
        }
    }

    /// Returns the end block; `None` for offchain and subgraph-derived
    /// sources.
    pub fn end_block(&self) -> (r: Option<BlockNumber>)
        ensures
            r == self.spec_end_block(),
    {
        match self {
            DataSource::Onchain(ds) => C::ds_end_block(ds),
            DataSource::Offchain(_) => None,
            DataSource::Subgraph(_) => None,
        }
    }

    /// The source's address, as bytes: a contract address, a file's
    /// content address, or a source deployment identifier.
    pub open spec fn spec_address(&self) -> Option<Seq<u8>> {
        match self {
            DataSource::Onchain(ds) => C::ds_model(ds).address,
            DataSource::Offchain(ds) => Some(ds.source@),
            DataSource::Subgraph(ds) => Some(vstd::utf8::encode_utf8(ds.source.address@)),
        }
    }

    /// Returns the source's address; total over all three variants.
    pub fn address(&self) -> (r: Option<Vec<u8>>)
        ensures
            match r {
                Some(a) => self.spec_address() == Some(a@),
                None => self.spec_address() is None,
            },
    {
        match self {
            DataSource::Onchain(ds) => C::ds_address(ds),
            DataSource::Offchain(ds) => Some(clone_bytes(&ds.source)),
            DataSource::Subgraph(ds) => Some(ds.source.address.as_str().as_bytes_vec()),
        }
    }

    /// The block at which the source was dynamically created, if it
    /// was.
    pub open spec fn spec_creation_block(&self) -> Option<BlockNumber> {
        match self {
            DataSource::Onchain(ds) => C::ds_model(ds).creation_block,
            DataSource::Offchain(ds) => ds.creation_block,
            DataSource::Subgraph(ds) => ds.creation_block,
        }
    }

    /// Returns the creation block; total over all three variants.
    pub fn creation_block(&self) -> (r: Option<BlockNumber>)
        ensures
            r == self.spec_creation_block(),
    {
        match self {
            DataSource::Onchain(ds) => C::ds_creation_block(ds),
            DataSource::Offchain(ds) => ds.creation_block,
            DataSource::Subgraph(ds) => ds.creation_block,
        }
    }

    /// The instance-specific context handed to the source at creation.
    pub open spec fn spec_context(&self) -> Option<Seq<(Seq<char>, Seq<char>)>> {
        match self {
            DataSource::Onchain(ds) => C::ds_model(ds).context,
            DataSource::Offchain(ds) => ds.model().context,
            DataSource::Subgraph(ds) => ds.model().context,
        }
    }

    /// Returns the creation context; total over all three variants.
    pub fn context(&self) -> (r: Option<DataSourceContext>)
        ensures
            match r {
                Some(c) => self.spec_context() == Some(c.model()),
                None => self.spec_context() is None,
            },
    {
        match self {
            DataSource::Onchain(ds) => C::ds_context(ds),
            DataSource::Offchain(ds) => clone_context_opt(&ds.context),
            DataSource::Subgraph(ds) => clone_context_opt(&ds.context),
        }
    }

    /// The API version of the source's mapping runtime.
    pub open spec fn spec_api_version(&self) -> Version {
        match self {
            DataSource::Onchain(ds) => C::ds_model(ds).api_version,
            DataSource::Offchain(ds) => ds.mapping.api_version,
            DataSource::Subgraph(ds) => ds.mapping.api_version,
        }
    }

    /// Returns the API version; total over all three variants.
    pub fn api_version(&self) -> (r: Version)
        ensures
            r == self.spec_api_version(),
    {
        match self {
            DataSource::Onchain(ds) => C::ds_api_version(ds),
            DataSource::Offchain(ds) => ds.mapping.api_version,
            DataSource::Subgraph(ds) => ds.mapping.api_version,
        }
    }

    /// The earliest manifest spec version that supports this source.
    pub open spec fn spec_min_spec_version(&self) -> Version {
        match self {
            DataSource::Onchain(ds) => C::ds_model(ds).min_spec_version,
            DataSource::Offchain(_) => Version { major: 0, minor: 0, patch: 7 },
            DataSource::Subgraph(_) => Version { major: 1, minor: 3, patch: 0 },
        }
    }

    /// Returns the minimum spec version; total over all three variants.
    pub fn min_spec_version(&self) -> (r: Version)
        ensures
            r == self.spec_min_spec_version(),
    {
        match self {
            DataSource::Onchain(ds) => C::ds_min_spec_version(ds),
            DataSource::Offchain(ds) => ds.min_spec_version(),
            DataSource::Subgraph(ds) => ds.min_spec_version(),
        }
    }

    /// The source's runtime bytecode, shared by reference.
    pub open spec fn spec_runtime(&self) -> Option<Seq<u8>> {
        match self {
            DataSource::Onchain(ds) => C::ds_model(ds).runtime,
            DataSource::Offchain(ds) => Some(ds.mapping.runtime@),
            DataSource::Subgraph(ds) => Some(ds.mapping.runtime@),
        }
    }

    /// Returns the runtime bytecode; total over all three variants.
    pub fn runtime(&self) -> (r: Option<Arc<Vec<u8>>>)
        ensures
            match r {
                Some(b) => self.spec_runtime() == Some(b@),
                None => self.spec_runtime() is None,
            },
    {
        match self {
            DataSource::Onchain(ds) => C::ds_runtime(ds),
            DataSource::Offchain(ds) => Some(arc_clone(&ds.mapping.runtime)),
            DataSource::Subgraph(ds) => Some(arc_clone(&ds.mapping.runtime)),
        }
    }

    /// Which entity types the source may write: offchain sources are
    /// restricted to their declared list; the other variants are
    /// unrestricted.
    pub fn entities(&self) -> (r: EntityTypeAccess)
        ensures
            match self {
                DataSource::Offchain(ds) => r matches EntityTypeAccess::Restriced(types)
                    && types@.map_values(|e: EntityType| e.model()) == ds.model().mapping.entities,
                _ => r is Any,
            },
    {
        match self {
            DataSource::Onchain(_) => EntityTypeAccess::Any,
            DataSource::Offchain(ds) => {
                let types = ds.mapping.entities.clone();
                proof {
                    assert forall|i: int|
                        0 <= i < ds.mapping.entities@.len() implies types@[i].model()
                        == ds.mapping.entities@[i].model() by {
                        assert(cloned::<EntityType>(ds.mapping.entities@[i], types@[i]));
                    }
                    assert(types@.map_values(|e: EntityType| e.model())
                        =~= ds.mapping.entities@.map_values(|e: EntityType| e.model()));
                }
                EntityTypeAccess::Restriced(types)
            },
            DataSource::Subgraph(_) => EntityTypeAccess::Any,
        }
    }

    /// The kinds of handlers the source can run.
    pub open spec fn spec_handler_kinds(&self) -> Seq<Seq<char>> {
        match self {
            DataSource::Onchain(ds) => C::ds_model(ds).handler_kinds,
            DataSource::Offchain(ds) => seq![ds.kind@],
            DataSource::Subgraph(_) => seq!["entity"@],
        }
    }

    /// Returns the handler kinds; total over all three variants.
    pub fn handler_kinds(&self) -> (r: Vec<String>)
        ensures
            r.deep_view() == self.spec_handler_kinds(),
    {
        match self {
            DataSource::Onchain(ds) => C::ds_handler_kinds(ds),
            DataSource::Offchain(ds) => {
                let mut v: Vec<String> = Vec::new();
                v.push(ds.handler_kind().to_owned());
                proof {
                    assert(v.deep_view() =~= self.spec_handler_kinds());
                }
                v
            },
            DataSource::Subgraph(ds) => {
                let mut v: Vec<String> = Vec::new();
                v.push(ds.handler_kind().to_owned());
                proof {
                    assert(v.deep_view() =~= self.spec_handler_kinds());
                }
                v
            },
        }
    }

    /// Whether the source declares contract calls ahead of execution:
    /// only chain-native sources can.
    pub fn has_declared_calls(&self) -> (r: bool)
        ensures
            r == match self {
                DataSource::Onchain(ds) => C::ds_model(ds).has_declared_calls,
                _ => false,
            },
    {
        match self {
            DataSource::Onchain(ds) => C::ds_has_declared_calls(ds),
            DataSource::Offchain(_) => false,
            DataSource::Subgraph(_) => false,
        }
    }

    /// The isolation region of the source's writes: the reserved
    /// on-chain region for chain-native and subgraph-derived sources,
    /// and the fresh region assigned at creation for offchain ones.
    pub open spec fn spec_causality_region(&self) -> CausalityRegion {
        match self {
            DataSource::Offchain(ds) => ds.causality_region,
            _ => CausalityRegion::spec_onchain(),
        }
    }

    /// Returns the source's causality region; total over all three
    /// variants.
    pub fn causality_region(&self) -> (r: CausalityRegion)
        ensures
            r == self.spec_causality_region(),
    {
        match self {
            DataSource::Onchain(_) => CausalityRegion::onchain(),
            DataSource::Offchain(ds) => ds.causality_region,
            DataSource::Subgraph(_) => CausalityRegion::onchain(),
        }
    }

    /// Whether this source and a raw trigger are of the same variant.
    pub open spec fn spec_same_variant(&self, trigger: &TriggerData<C>) -> bool {
        ||| (self is Onchain && trigger is Onchain)
        ||| (self is Offchain && trigger is Offchain)
        ||| (self is Subgraph && trigger is Subgraph)
    }

    /// What matching a raw trigger against this source at a block
    /// yields: an expired chain-native source never matches; a
    /// cross-variant pair never matches and is never an error;
    /// otherwise the variant's own filter decides.
    pub open spec fn spec_match_outcome(&self, trigger: &TriggerData<C>, block: &C::Block) -> Result<
        Option<MatchOutcome<MappingTrigger<C>>>,
        Seq<char>,
    > {
        match (self, trigger) {
            (DataSource::Onchain(ds), TriggerData::Onchain(t)) => {
                if C::ds_expired(ds, C::block_number_spec(block)) {
                    Ok(None)
                } else {
                    match C::ds_match_result(ds, t, block) {
                        Ok(None) => Ok(None),
                        Ok(Some(o)) => Ok(
                            Some(
                                (MatchOutcome {
                                    trigger: MappingTrigger::Onchain(o.trigger),
                                    handler: o.handler,
                                    block_hash: o.block_hash,
                                    block_number: o.block_number,
                                    timestamp: o.timestamp,
                                    extras: o.extras,
                                }),
                            ),
                        ),
                        Err(m) => Err(m),
                    }
                }
            },
            (DataSource::Offchain(ds), TriggerData::Offchain(t)) => {
                if ds.spec_matches_source(t.source@) {
                    Ok(
                        Some(
                            (MatchOutcome {
                                trigger: MappingTrigger::Offchain(*t),
                                handler: ds.mapping.handler@,
                                block_hash: Seq::<u8>::empty(),
                                block_number: 0,
                                timestamp: 0,
                                extras: Seq::<(Seq<char>, Seq<char>)>::empty(),
                            }),
                        ),
                    )
                } else {
                    Ok(None)
                }
            },
            (DataSource::Subgraph(ds), TriggerData::Subgraph(t)) => {
                if ds.spec_matches_source(t.source@) {
                    Ok(
                        Some(
                            (MatchOutcome {
                                trigger: MappingTrigger::Subgraph(
                                    (subgraph::MappingEntityTrigger { data: *t }),
                                ),
                                handler: ds.mapping.handler@,
                                block_hash: C::block_ptr_model(block).0,
                                block_number: C::block_ptr_model(block).1,
                                timestamp: C::block_time_spec(block),
                                extras: Seq::<(Seq<char>, Seq<char>)>::empty(),
                            }),
                        ),
                    )
                } else {
                    Ok(None)
                }
            },
            _ => Ok(None),
        }
    }

    /// Matches one raw trigger against this source at one block.
    ///
    /// Cross-variant pairs yield no match, never an error; an expired
    /// chain-native source matches nothing at that block; a decode
    /// failure inside a matched variant propagates.
    pub fn match_and_decode(&self, trigger: &TriggerData<C>, block: &C::Block) -> (r: Result<
        Option<TriggerWithHandler<MappingTrigger<C>>>,
        TriggerError,
    >)
        ensures
            match (r, self.spec_match_outcome(trigger, block)) {
                (Ok(None), Ok(None)) => true,
                (Ok(Some(t)), Ok(Some(o))) => t.outcome() == o,
                (Err(e), Err(m)) => e.model() == m,
                _ => false,
            },
            !self.spec_same_variant(trigger) ==> r matches Ok(None),
            (self matches DataSource::Onchain(ds) && C::ds_expired(
                ds,
                C::block_number_spec(block),
            )) ==> r matches Ok(None),
    {
        match (self, trigger) {
            (DataSource::Onchain(ds), TriggerData::Onchain(t)) => {
                if C::ds_has_expired(ds, C::block_number(block)) {
                    Ok(None)
                } else {
                    match C::ds_match_and_decode(ds, t, block) {
                        Ok(None) => Ok(None),
                        Ok(Some(twh)) => {
                            let TriggerWithHandler {
                                trigger: inner,
                                handler,
                                block_ptr,
                                timestamp,
                                logging_extras,
                            } = twh;
                            Ok(
                                Some(
                                    TriggerWithHandler::new_with_logging_extras(
                                        MappingTrigger::Onchain(inner),
                                        handler,
                                        block_ptr,
                                        timestamp,
                                        logging_extras,
                                    ),
                                ),
                            )
                        },
                        Err(e) => Err(e),
                    }
                }
            },
            (DataSource::Offchain(ds), TriggerData::Offchain(t)) => {
                if bytes_eq(&ds.source, common::arc_borrow(&t.source)) {
                    let ptr = BlockPtr { hash: Vec::new(), number: 0 };
                    proof {
                        assert(ptr.model().0 =~= Seq::<u8>::empty());
                    }
                    Ok(
                        Some(
                            TriggerWithHandler::new(
                                MappingTrigger::Offchain(t.clone()),
                                ds.mapping.handler.clone(),
                                ptr,
                                0,
                            ),
                        ),
                    )
                } else {
                    Ok(None)
                }
            },
            (DataSource::Subgraph(ds), TriggerData::Subgraph(t)) => {
                if common::str_eq(
                    ds.source.address.as_str(),
                    common::arc_borrow(&t.source).as_str(),
                ) {
                    Ok(
                        Some(
                            TriggerWithHandler::new(
                                MappingTrigger::Subgraph(
                                    (subgraph::MappingEntityTrigger { data: t.clone() }),
                                ),
                                ds.mapping.handler.clone(),
                                C::block_ptr(block),
                                C::block_timestamp(block),
                            ),
                        ),
                    )
                } else {
                    Ok(None)
                }
            },
            _ => Ok(None),
        }
    }

    /// Whether two sources of the same variant index the same thing.
    /// Cross-variant pairs are never duplicates.
    pub open spec fn spec_is_duplicate_of(&self, other: &DataSource<C>) -> bool {
        match (self, other) {
            (DataSource::Onchain(a), DataSource::Onchain(b)) => C::ds_duplicate_spec(a, b),
            (DataSource::Offchain(a), DataSource::Offchain(b)) => a.spec_duplicate_of(b),
            _ => false,
        }
    }

    /// Compares two sources for semantic duplication.
    pub fn is_duplicate_of(&self, other: &DataSource<C>) -> (r: bool)
        ensures
            r == self.spec_is_duplicate_of(other),
    {
        match (self, other) {
            (DataSource::Onchain(a), DataSource::Onchain(b)) => C::ds_is_duplicate_of(a, b),
            (DataSource::Offchain(a), DataSource::Offchain(b)) => a.is_duplicate_of(b),
            _ => false,
        }
    }

    /// The snapshot this source persists as; meaningful for the
    /// chain-native and offchain variants.
    pub open spec fn spec_stored(&self) -> (
        u32,
        Option<Seq<u8>>,
        Option<Seq<(Seq<char>, Seq<char>)>>,
        Option<BlockNumber>,
        CausalityRegion,
    )
        recommends
            !(self is Subgraph),
    {
        match self {
            DataSource::Onchain(ds) => C::ds_stored_model(ds),
            DataSource::Offchain(ds) => ds.spec_stored(),
            DataSource::Subgraph(_) => arbitrary(),
        }
    }

    /// Snapshots a dynamically created source for the store. The
    /// subgraph-derived stored form is not defined yet, so such a
    /// source cannot be snapshotted.
    pub fn as_stored_dynamic_data_source(&self) -> (r: StoredDynamicDataSource)
        requires
            !(self is Subgraph),
        ensures
            r.model() == self.spec_stored(),
    {
        match self {
            DataSource::Onchain(ds) => C::ds_as_stored(ds),
            DataSource::Offchain(ds) => ds.as_stored_dynamic_data_source(),
            DataSource::Subgraph(_) => unreached(),
        }
    }

    /// Rebuilds a dynamically created source from its stored snapshot,
    /// against the same template it was instantiated from. The
    /// subgraph-derived stored form is not defined yet.
    pub fn from_stored_dynamic_data_source(
        template: &DataSourceTemplate<C>,
        stored: StoredDynamicDataSource,
    ) -> (r: Result<DataSource<C>, String>)
        requires
            !(template is Subgraph),
        ensures
            template matches DataSourceTemplate::Onchain(t) ==> {
                &&& (r is Ok) == C::ds_restorable(t, &stored)
                &&& (r matches Ok(ds) ==> ds matches DataSource::Onchain(inner) && C::ds_model(
                    &inner,
                ) == C::ds_restored_model(t, &stored))
            },
            template matches DataSourceTemplate::Offchain(t) ==> {
                &&& (r is Ok) == offchain::DataSource::spec_restorable(t, &stored)
                &&& (r matches Ok(ds) ==> ds matches DataSource::Offchain(inner) && inner.model()
                    == offchain::DataSource::spec_restored(t, &stored))
            },
    {
        match template {
            DataSourceTemplate::Onchain(t) => match C::ds_from_stored(t, stored) {
                Ok(ds) => Ok(DataSource::Onchain(ds)),
                Err(e) => Err(e),
            },
            DataSourceTemplate::Offchain(t) => {
                match offchain::DataSource::from_stored_dynamic_data_source(t, stored) {
                    Ok(ds) => Ok(DataSource::Offchain(ds)),
                    Err(e) => Err(e),
                }
            },
            DataSourceTemplate::Subgraph(_) => unreached(),
        }
    }

    /// The manifest constraints this source violates at a spec version.
    /// Chain-native constraints are the chain's own; offchain and
    /// subgraph-derived sources report none yet, which is a current
    /// limitation rather than a guarantee.
    pub fn validate(&self, spec_version: &Version) -> (r: Vec<String>)
        ensures
            r.deep_view() == match self {
                DataSource::Onchain(ds) => C::ds_validate_spec(ds, *spec_version),
                _ => Seq::<Seq<char>>::empty(),
            },
    {
        match self {
            DataSource::Onchain(ds) => C::ds_validate(ds, spec_version),
            DataSource::Offchain(_) => {
                let v: Vec<String> = Vec::new();
                proof {
                    assert(v.deep_view() =~= Seq::<Seq<char>>::empty());
                }
                v
            },
            DataSource::Subgraph(_) => {
                let v: Vec<String> = Vec::new();
                proof {
                    assert(v.deep_view() =~= Seq::<Seq<char>>::empty());
                }
                v
            },
        }
    }

    /// Whether two sources hold the same variant with the same content.
    pub open spec fn spec_same_content(&self, other: &DataSource<C>) -> bool {
        match (self, other) {
            (DataSource::Onchain(a), DataSource::Onchain(b)) => C::ds_model(a) == C::ds_model(b),
            (DataSource::Offchain(a), DataSource::Offchain(b)) => a.model() == b.model(),
            (DataSource::Subgraph(a), DataSource::Subgraph(b)) => a.model() == b.model(),
            _ => false,
        }
    }
}

impl<C: Blockchain> Clone for DataSource<C> {
    /// The clone holds the same variant with the same content.
    fn clone(&self) -> (r: Self)
        ensures
            r.spec_same_content(self),
    {
        match self {
            DataSource::Onchain(ds) => DataSource::Onchain(C::ds_clone(ds)),
            DataSource::Offchain(ds) => DataSource::Offchain(ds.clone()),
            DataSource::Subgraph(ds) => DataSource::Subgraph(ds.clone()),
        }
    }
}

/// A raw event that may be relevant to one or more data sources,
/// mirroring the three data source variants.
pub enum TriggerData<C: Blockchain> {
    Onchain(C::TriggerData),
    Offchain(offchain::TriggerData),
    Subgraph(subgraph::TriggerData),
}

impl<C: Blockchain> TriggerData<C> {
    /// A short description of the trigger for error messages.
    pub fn error_context(&self) -> (r: String)
        ensures
            r@ == match self {
                TriggerData::Onchain(t) => C::trigger_context_spec(t),
                TriggerData::Offchain(_) => "offchain file trigger"@,
                TriggerData::Subgraph(t) => t.source@,
            },
    {
        match self {
            TriggerData::Onchain(t) => C::trigger_error_context(t),
            TriggerData::Offchain(_) => "offchain file trigger".to_owned(),
            TriggerData::Subgraph(t) => t.error_context(),
        }
    }
}

/// A matched, handler-ready decoded event, mirroring the three data
/// source variants.
pub enum MappingTrigger<C: Blockchain> {
    Onchain(C::MappingTrigger),
    Offchain(offchain::TriggerData),
    Subgraph(subgraph::MappingEntityTrigger),
}

impl<C: Blockchain> MappingTrigger<C> {
    /// A short description for error messages; only chain-native
    /// triggers carry one.
    pub fn error_context(&self) -> (r: Option<String>)
        ensures
            match self {
                MappingTrigger::Onchain(t) => r matches Some(s) && s@ == C::mt_context_spec(t),
                _ => r is None,
            },
    {
        match self {
            MappingTrigger::Onchain(t) => Some(C::mt_error_context(t)),
            MappingTrigger::Offchain(_) => None,
            MappingTrigger::Subgraph(_) => None,
        }
    }

    /// The chain-native decoded trigger, if this is one.
    pub fn as_onchain(&self) -> (r: Option<&C::MappingTrigger>)
        ensures
            match r {
                Some(t) => self matches MappingTrigger::Onchain(inner) && inner == *t,
                None => !(self is Onchain),
            },
    {
        match self {
            MappingTrigger::Onchain(t) => Some(t),
            MappingTrigger::Offchain(_) => None,
            MappingTrigger::Subgraph(_) => None,
        }
    }
}

/// The instance-independent facts about a template, as one flat record.
#[derive(Debug)]
pub struct DataSourceTemplateInfo {
    pub api_version: Version,
    pub runtime: Option<Arc<Vec<u8>>>,
    pub name: String,
    pub manifest_idx: Option<u32>,
    pub kind: String,
}

/// A blueprint for instantiating new data sources at runtime, mirroring
/// the three data source variants.
pub enum DataSourceTemplate<C: Blockchain> {
    Onchain(C::DataSourceTemplate),
    Offchain(offchain::DataSourceTemplate),
    Subgraph(subgraph::DataSourceTemplate),
}

impl<C: Blockchain> DataSourceTemplate<C> {
    /// The template's name.
    pub open spec fn spec_name(&self) -> Seq<char> {
        match self {
            DataSourceTemplate::Onchain(t) => C::template_model(t).name,
            DataSourceTemplate::Offchain(t) => t.name@,
            DataSourceTemplate::Subgraph(t) => t.name@,
        }
    }

    /// Returns the template's name; total over all three variants.
    pub fn name(&self) -> (r: &str)
        ensures
            r@ == self.spec_name(),
    {
        match self {
            DataSourceTemplate::Onchain(t) => C::template_name(t),
            DataSourceTemplate::Offchain(t) => t.name.as_str(),
            DataSourceTemplate::Subgraph(t) => t.name.as_str(),
        }
    }

    /// The template's kind discriminator.
    pub open spec fn spec_kind(&self) -> Seq<char> {
        match self {
            DataSourceTemplate::Onchain(t) => C::template_model(t).kind,
            DataSourceTemplate::Offchain(t) => t.kind@,
            DataSourceTemplate::Subgraph(t) => t.kind@,
        }
    }

    /// Returns the template's kind discriminator; total over all three
    /// variants.
    pub fn kind(&self) -> (r: String)
        ensures
            r@ == self.spec_kind(),
    {
        match self {
            DataSourceTemplate::Onchain(t) => C::template_kind(t),
            DataSourceTemplate::Offchain(t) => t.kind.clone(),
            DataSourceTemplate::Subgraph(t) => t.kind.clone(),
        }
    }

    /// The stable index the template carries in its manifest, reused by
    /// every data source instantiated from it.
    pub open spec fn spec_manifest_idx(&self) -> u32 {
        match self {
            DataSourceTemplate::Onchain(t) => C::template_model(t).manifest_idx,
            DataSourceTemplate::Offchain(t) => t.manifest_idx,
            DataSourceTemplate::Subgraph(t) => t.manifest_idx,
        }
    }

    /// Returns the manifest index; total over all three variants.
    pub fn manifest_idx(&self) -> (r: u32)
        ensures
            r == self.spec_manifest_idx(),
    {
        match self {
            DataSourceTemplate::Onchain(t) => C::template_manifest_idx(t),
            DataSourceTemplate::Offchain(t) => t.manifest_idx,
            DataSourceTemplate::Subgraph(t) => t.manifest_idx,
        }
    }

    /// The API version of the template's mapping runtime.
    pub open spec fn spec_api_version(&self) -> Version {
        match self {
            DataSourceTemplate::Onchain(t) => C::template_model(t).api_version,
            DataSourceTemplate::Offchain(t) => t.mapping.api_version,
            DataSourceTemplate::Subgraph(t) => t.mapping.api_version,
        }
    }

    /// Returns the API version; total over all three variants.
    pub fn api_version(&self) -> (r: Version)
        ensures
            r == self.spec_api_version(),
    {
        match self {
            DataSourceTemplate::Onchain(t) => C::template_api_version(t),
            DataSourceTemplate::Offchain(t) => t.mapping.api_version,
            DataSourceTemplate::Subgraph(t) => t.mapping.api_version,
        }
    }

    /// The template's runtime bytecode, shared by reference.
    pub open spec fn spec_runtime(&self) -> Option<Seq<u8>> {
        match self {
            DataSourceTemplate::Onchain(t) => C::template_model(t).runtime,
            DataSourceTemplate::Offchain(t) => Some(t.mapping.runtime@),
            DataSourceTemplate::Subgraph(t) => Some(t.mapping.runtime@),
        }
    }

    /// Returns the runtime bytecode; total over all three variants.
    pub fn runtime(&self) -> (r: Option<Arc<Vec<u8>>>)
        ensures
            match r {
                Some(b) => self.spec_runtime() == Some(b@),
                None => self.spec_runtime() is None,
            },
    {
        match self {
            DataSourceTemplate::Onchain(t) => C::template_runtime(t),
            DataSourceTemplate::Offchain(t) => Some(arc_clone(&t.mapping.runtime)),
            DataSourceTemplate::Subgraph(t) => Some(arc_clone(&t.mapping.runtime)),
        }
    }

    /// Flattens the template into its instance-independent facts.
    pub fn info(&self) -> (r: DataSourceTemplateInfo)
        ensures
            r.api_version == self.spec_api_version(),
            r.name@ == self.spec_name(),
            r.kind@ == self.spec_kind(),
            r.manifest_idx == Some(self.spec_manifest_idx()),
            match r.runtime {
                Some(b) => self.spec_runtime() == Some(b@),
                None => self.spec_runtime() is None,
            },
    {
        DataSourceTemplateInfo {
            api_version: self.api_version(),
            runtime: self.runtime(),
            name: self.name().to_owned(),
            manifest_idx: Some(self.manifest_idx()),
            kind: self.kind(),
        }
    }

    /// The chain-native template, if this is one. The subgraph-derived
    /// template has no chain-native reading.
    pub fn as_onchain(&self) -> (r: Option<&C::DataSourceTemplate>)
        requires
            !(self is Subgraph),
        ensures
            match r {
                Some(t) => self matches DataSourceTemplate::Onchain(inner) && inner == *t,
                None => self is Offchain,
            },
    {
        match self {
            DataSourceTemplate::Onchain(t) => Some(t),
            DataSourceTemplate::Offchain(_) => None,
            DataSourceTemplate::Subgraph(_) => unreached(),
        }
    }

    /// The offchain template, if this is one.
    pub fn as_offchain(&self) -> (r: Option<&offchain::DataSourceTemplate>)
        requires
            !(self is Subgraph),
        ensures
            match r {
                Some(t) => self matches DataSourceTemplate::Offchain(inner) && inner == *t,
                None => self is Onchain,
            },
    {
        match self {
            DataSourceTemplate::Onchain(_) => None,
            DataSourceTemplate::Offchain(t) => Some(t),
            DataSourceTemplate::Subgraph(_) => unreached(),
        }
    }

    /// The chain-native template by value, if this is one.
    pub fn into_onchain(self) -> (r: Option<C::DataSourceTemplate>)
        requires
            !(self is Subgraph),
        ensures
            match r {
                Some(t) => self matches DataSourceTemplate::Onchain(inner) && inner == t,
                None => self is Offchain,
            },
    {
        match self {
            DataSourceTemplate::Onchain(t) => Some(t),
            DataSourceTemplate::Offchain(_) => None,
            DataSourceTemplate::Subgraph(_) => unreached(),
        }
    }

    /// Whether two templates hold the same variant with the same
    /// content.
    pub open spec fn spec_same_content(&self, other: &DataSourceTemplate<C>) -> bool {
        match (self, other) {
            (DataSourceTemplate::Onchain(a), DataSourceTemplate::Onchain(b)) => C::template_model(a)
                == C::template_model(b),
            (DataSourceTemplate::Offchain(a), DataSourceTemplate::Offchain(b)) => a.model()
                == b.model(),
            (DataSourceTemplate::Subgraph(a), DataSourceTemplate::Subgraph(b)) => a.model()
                == b.model(),
            _ => false,
        }
    }
}

impl<C: Blockchain> Clone for DataSourceTemplate<C> {
    /// The clone holds the same variant with the same content.
    fn clone(&self) -> (r: Self)
        ensures
            r.spec_same_content(self),
    {
        match self {
            DataSourceTemplate::Onchain(t) => DataSourceTemplate::Onchain(C::template_clone(t)),
            DataSourceTemplate::Offchain(t) => DataSourceTemplate::Offchain(t.clone()),
            DataSourceTemplate::Subgraph(t) => DataSourceTemplate::Subgraph(t.clone()),
        }
    }
}

/// Why resolution of a data source or template failed.
#[derive(Debug)]
pub enum ResolveError {
    /// Offchain (static file) data sources declared at the manifest's
    /// top level are not supported yet; resolving one always fails
    /// with this error.
    StaticFilesUnsupported,
    /// The variant's own resolution failed; carries its description.
    Failed(String),
}

/// The selection the kind discriminator makes, first match first:
/// the registered offchain kinds, then the reserved subgraph-derived
/// kind, then the active chain's kind and aliases; anything else is
/// unsupported.
#[derive(Clone, Copy, Debug, PartialEq, Eq, Structural)]
pub enum KindChoice {
    Offchain,
    Subgraph,
    Onchain,
    Unsupported,
}

/// Which variant a kind discriminator selects for the chain `C`.
pub open spec fn spec_kind_choice<C: Blockchain>(kind: Seq<char>) -> KindChoice {
    if offchain::is_offchain_kind(kind) {
        KindChoice::Offchain
    } else if kind == subgraph::spec_subgraph_kind() {
        KindChoice::Subgraph
    } else if kind == C::spec_kind() || C::spec_aliases().contains(kind) {
        KindChoice::Onchain
    } else {
        KindChoice::Unsupported
    }
}

/// Classifies a kind discriminator for the chain `C`.
pub fn classify_kind<C: Blockchain>(kind: &str) -> (r: KindChoice)
    ensures
        r == spec_kind_choice::<C>(kind@),
{
    if offchain::kind_is_offchain(kind) {
        KindChoice::Offchain
    } else if subgraph::kind_is_subgraph(kind) {
        KindChoice::Subgraph
    } else if C::kind_matches(kind) {
        KindChoice::Onchain
    } else {
        KindChoice::Unsupported
    }
}

/// The kind discriminator a document carries: absent if there is no
/// `kind` field at all, and a placeholder if the field is not text.
pub open spec fn spec_doc_kind(doc: &RawDocument) -> Option<Seq<char>> {
    match doc.spec_get("kind"@) {
        None => None,
        Some(RawValue::Text(s)) => Some(s@),
        Some(_) => Some("?"@),
    }
}

/// Extracts the kind discriminator of a document.
fn doc_kind(doc: &RawDocument) -> (r: Option<String>)
    ensures
        match r {
            Some(k) => spec_doc_kind(doc) == Some(k@),
            None => spec_doc_kind(doc) is None,
        },
{
    match doc.get("kind") {
        None => None,
        Some(RawValue::Text(s)) => Some(s.clone()),
        Some(_) => Some("?".to_owned()),
    }
}

/// A data source before resolution: link and content references not
/// yet fetched, runtime bytecode not yet loaded.
pub enum UnresolvedDataSource<C: Blockchain> {
    Onchain(C::UnresolvedDataSource),
    Offchain(offchain::UnresolvedDataSource),
    Subgraph(subgraph::UnresolvedDataSource),
}

impl<C: Blockchain> UnresolvedDataSource<C> {
    /// Reads an unresolved data source from an untyped manifest
    /// document, dispatching on its `kind` discriminator: a registered
    /// offchain kind first, then the reserved subgraph-derived kind,
    /// then the active chain's kind and aliases; a missing `kind` and
    /// an unregistered one are distinct fatal errors, and an error
    /// inside the selected variant surfaces unchanged.
    pub fn from_document(doc: &RawDocument) -> (r: Result<UnresolvedDataSource<C>, DeserializationError>)
        ensures
            spec_doc_kind(doc) is None ==> r matches Err(DeserializationError::MissingKind),
            spec_doc_kind(doc) matches Some(k) ==> match spec_kind_choice::<C>(k) {
                KindChoice::Offchain => match (r, offchain::spec_from_document(doc)) {
                    (Ok(UnresolvedDataSource::Offchain(u)), Ok(m)) => u.model() == m,
                    (Err(DeserializationError::Variant { variant, field }), Err(f)) => variant@
                        == "offchain"@ && field@ == f,
                    _ => false,
                },
                KindChoice::Subgraph => match (r, subgraph::spec_from_document(doc)) {
                    (Ok(UnresolvedDataSource::Subgraph(u)), Ok(m)) => u.model() == m,
                    (Err(DeserializationError::Variant { variant, field }), Err(f)) => variant@
                        == "subgraph"@ && field@ == f,
                    _ => false,
                },
                KindChoice::Onchain => (r matches Ok(u) ==> u is Onchain),
                KindChoice::Unsupported => r matches Err(DeserializationError::UnsupportedKind {
                    expected,
                    found,
                }) && expected@ == C::spec_kind() && found@ == k,
            },
    {
        let kind = match doc_kind(doc) {
            Some(k) => k,
            None => {
                return Err(DeserializationError::MissingKind);
            },
        };
        match classify_kind::<C>(kind.as_str()) {
            KindChoice::Offchain => match offchain::UnresolvedDataSource::from_document(doc) {
                Ok(u) => Ok(UnresolvedDataSource::Offchain(u)),
                Err(e) => Err(e),
            },
            KindChoice::Subgraph => match subgraph::UnresolvedDataSource::from_document(doc) {
                Ok(u) => Ok(UnresolvedDataSource::Subgraph(u)),
                Err(e) => Err(e),
            },
            KindChoice::Onchain => match C::uds_from_document(doc) {
                Ok(u) => Ok(UnresolvedDataSource::Onchain(u)),
                Err(e) => Err(e),
            },
            KindChoice::Unsupported => Err(
                DeserializationError::UnsupportedKind { expected: C::kind_name(), found: kind },
            ),
        }
    }

    /// Turns an unresolved data source into a live one, given its
    /// fetched runtime bytecode and manifest index.
    ///
    /// Resolving an offchain data source always fails: static file
    /// data sources declared at the manifest's top level are not
    /// supported yet, whatever the source holds.
    pub fn resolve(self, runtime: Vec<u8>, manifest_idx: u32) -> (r: Result<
        DataSource<C>,
        ResolveError,
    >)
        ensures
            self is Offchain ==> r matches Err(ResolveError::StaticFilesUnsupported),
            self matches UnresolvedDataSource::Onchain(u) ==> {
                &&& (r is Ok) == C::uds_resolvable(&u)
                &&& (r matches Ok(ds) ==> ds matches DataSource::Onchain(inner) && C::ds_model(
                    &inner,
                ) == C::uds_resolved_model(&u, runtime@, manifest_idx))
                &&& (r is Err ==> r matches Err(ResolveError::Failed(_)))
            },
            self matches UnresolvedDataSource::Subgraph(u) ==> r matches Ok(ds) && ds
                matches DataSource::Subgraph(inner) && inner.model() == u.spec_resolved(runtime@),
    {
        match self {
            UnresolvedDataSource::Onchain(u) => match C::uds_resolve(u, runtime, manifest_idx) {
                Ok(ds) => Ok(DataSource::Onchain(ds)),
                Err(e) => Err(ResolveError::Failed(e)),
            },
            UnresolvedDataSource::Offchain(_) => Err(ResolveError::StaticFilesUnsupported),
            UnresolvedDataSource::Subgraph(u) => Ok(DataSource::Subgraph(u.resolve(runtime))),
        }
    }
}

/// A template before resolution.
pub enum UnresolvedDataSourceTemplate<C: Blockchain> {
    Onchain(C::UnresolvedDataSourceTemplate),
    Offchain(offchain::UnresolvedDataSourceTemplate),
    Subgraph(subgraph::UnresolvedDataSourceTemplate),
}

impl<C: Blockchain> Default for UnresolvedDataSourceTemplate<C> {
    /// The default unresolved template is the chain's own default.
    fn default() -> (r: Self)
        ensures
            r is Onchain,
    {
        UnresolvedDataSourceTemplate::Onchain(C::utpl_default())
    }
}

impl<C: Blockchain> UnresolvedDataSourceTemplate<C> {
    /// Reads an unresolved template from an untyped manifest document,
    /// by the same `kind`-discriminated protocol as data sources.
    pub fn from_document(doc: &RawDocument) -> (r: Result<
        UnresolvedDataSourceTemplate<C>,
        DeserializationError,
    >)
        ensures
            spec_doc_kind(doc) is None ==> r matches Err(DeserializationError::MissingKind),
            spec_doc_kind(doc) matches Some(k) ==> match spec_kind_choice::<C>(k) {
                KindChoice::Offchain => match (r, offchain::spec_template_from_document(doc)) {
                    (Ok(UnresolvedDataSourceTemplate::Offchain(u)), Ok(m)) => u.model() == m,
                    (Err(DeserializationError::Variant { variant, field }), Err(f)) => variant@
                        == "offchain"@ && field@ == f,
                    _ => false,
                },
                KindChoice::Subgraph => match (r, subgraph::spec_template_from_document(doc)) {
                    (Ok(UnresolvedDataSourceTemplate::Subgraph(u)), Ok(m)) => u.model() == m,
                    (Err(DeserializationError::Variant { variant, field }), Err(f)) => variant@
                        == "subgraph"@ && field@ == f,
                    _ => false,
                },
                KindChoice::Onchain => (r matches Ok(u) ==> u is Onchain),
                KindChoice::Unsupported => r matches Err(DeserializationError::UnsupportedKind {
                    expected,
                    found,
                }) && expected@ == C::spec_kind() && found@ == k,
            },
    {
        let kind = match doc_kind(doc) {
            Some(k) => k,
            None => {
                return Err(DeserializationError::MissingKind);
            },
        };
        match classify_kind::<C>(kind.as_str()) {
            KindChoice::Offchain => {
                match offchain::UnresolvedDataSourceTemplate::from_document(doc) {
                    Ok(u) => Ok(UnresolvedDataSourceTemplate::Offchain(u)),
                    Err(e) => Err(e),
                }
            },
            KindChoice::Subgraph => {
                match subgraph::UnresolvedDataSourceTemplate::from_document(doc) {
                    Ok(u) => Ok(UnresolvedDataSourceTemplate::Subgraph(u)),
                    Err(e) => Err(e),
                }
            },
            KindChoice::Onchain => match C::utpl_from_document(doc) {
                Ok(u) => Ok(UnresolvedDataSourceTemplate::Onchain(u)),
                Err(e) => Err(e),
            },
            KindChoice::Unsupported => Err(
                DeserializationError::UnsupportedKind { expected: C::kind_name(), found: kind },
            ),
        }
    }

    /// Turns an unresolved template into a live one, given the fetched
    /// runtime bytecode, the entity schema, and the template's stable
    /// manifest index. Offchain templates validate their declared
    /// entity types against the schema.
    pub fn resolve(self, runtime: Vec<u8>, schema: &InputSchema, manifest_idx: u32) -> (r: Result<
        DataSourceTemplate<C>,
        ResolveError,
    >)
        ensures
            self matches UnresolvedDataSourceTemplate::Onchain(u) ==> {
                &&& (r is Ok) == C::utpl_resolvable(&u)
                &&& (r matches Ok(t) ==> t matches DataSourceTemplate::Onchain(inner)
                    && C::template_model(&inner) == C::utpl_resolved_model(
                    &u,
                    runtime@,
                    manifest_idx,
                ))
            },
            self matches UnresolvedDataSourceTemplate::Offchain(u) ==> {
                &&& (r is Ok) == u.spec_resolvable(schema)
                &&& (r matches Ok(t) ==> t matches DataSourceTemplate::Offchain(inner)
                    && inner.model() == u.spec_resolved(runtime@, manifest_idx))
            },
            self matches UnresolvedDataSourceTemplate::Subgraph(u) ==> r matches Ok(t) && t
                matches DataSourceTemplate::Subgraph(inner) && inner.model() == u.spec_resolved(
                runtime@,
                manifest_idx,
            ),
            r matches Ok(t) ==> t.spec_manifest_idx() == manifest_idx,
    {
        match self {
            UnresolvedDataSourceTemplate::Onchain(u) => {
                match C::utpl_resolve(u, runtime, manifest_idx) {
                    Ok(t) => Ok(DataSourceTemplate::Onchain(t)),
                    Err(e) => Err(ResolveError::Failed(e)),
                }
            },
            UnresolvedDataSourceTemplate::Offchain(u) => {
                match u.resolve(runtime, schema, manifest_idx) {
                    Ok(t) => Ok(DataSourceTemplate::Offchain(t)),
                    Err(e) => Err(ResolveError::Failed(e)),
                }
            },
            UnresolvedDataSourceTemplate::Subgraph(u) => {
                Ok(DataSourceTemplate::Subgraph(u.resolve(runtime, manifest_idx)))
            },
        }
    }
}

impl<C: Blockchain> Clone for UnresolvedDataSourceTemplate<C> {
    /// The clone holds the same variant with the same content.
    fn clone(&self) -> (r: Self)
        ensures
            match (self, &r) {
                (
                    UnresolvedDataSourceTemplate::Onchain(a),
                    UnresolvedDataSourceTemplate::Onchain(b),
                ) => C::utpl_model(a) == C::utpl_model(b),
                (
                    UnresolvedDataSourceTemplate::Offchain(a),
                    UnresolvedDataSourceTemplate::Offchain(b),
                ) => a.model() == b.model(),
                (
                    UnresolvedDataSourceTemplate::Subgraph(a),
                    UnresolvedDataSourceTemplate::Subgraph(b),
                ) => a.model() == b.model(),
                _ => false,
            },
    {
        match self {
            UnresolvedDataSourceTemplate::Onchain(t) => UnresolvedDataSourceTemplate::Onchain(
                C::utpl_clone(t),
            ),
            UnresolvedDataSourceTemplate::Offchain(t) => UnresolvedDataSourceTemplate::Offchain(
                t.clone(),
            ),
            UnresolvedDataSourceTemplate::Subgraph(t) => UnresolvedDataSourceTemplate::Subgraph(
                t.clone(),
            ),
        }
    }
}

/// Discriminator totality: every kind string selects exactly one
/// variant, in dispatch order — a registered offchain kind selects the
/// offchain variant; otherwise the reserved subgraph-derived kind
/// selects the subgraph variant; otherwise the active chain's kind or
/// one of its aliases selects the chain-native variant; any other
/// string is unsupported. A document with no `kind` field at all is a
/// distinct missing-field error of `from_document`.
pub proof fn lemma_discriminator_totality<C: Blockchain>(kind: Seq<char>)
    ensures
        offchain::is_offchain_kind(kind) ==> spec_kind_choice::<C>(kind) == KindChoice::Offchain,
        !offchain::is_offchain_kind(kind) && kind == subgraph::spec_subgraph_kind()
            ==> spec_kind_choice::<C>(kind) == KindChoice::Subgraph,
        !offchain::is_offchain_kind(kind) && kind != subgraph::spec_subgraph_kind() && (kind
            == C::spec_kind() || C::spec_aliases().contains(kind)) ==> spec_kind_choice::<C>(kind)
            == KindChoice::Onchain,
        !offchain::is_offchain_kind(kind) && kind != subgraph::spec_subgraph_kind() && kind
            != C::spec_kind() && !C::spec_aliases().contains(kind) ==> spec_kind_choice::<C>(kind)
            == KindChoice::Unsupported,
{
}

/// Cross-variant non-match: a data source of one variant and a trigger
/// of another never match, and that is no error.
pub proof fn lemma_cross_variant_no_match<C: Blockchain>(
    ds: &DataSource<C>,
    trigger: &TriggerData<C>,
    block: &C::Block,
)
    requires
        !ds.spec_same_variant(trigger),
    ensures
        ds.spec_match_outcome(trigger, block) == Result::<
            Option<MatchOutcome<MappingTrigger<C>>>,
            Seq<char>,
        >::Ok(None),
{
}

/// Expiration gate: a chain-native data source that has expired at a
/// block matches no trigger at that block, whatever its filter would
/// otherwise say.
pub proof fn lemma_expiration_gate<C: Blockchain>(
    ds: &DataSource<C>,
    trigger: &TriggerData<C>,
    block: &C::Block,
)
    requires
        ds matches DataSource::Onchain(inner) && C::ds_expired(
            &inner,
            C::block_number_spec(block),
        ),
    ensures
        ds.spec_match_outcome(trigger, block) == Result::<
            Option<MatchOutcome<MappingTrigger<C>>>,
            Seq<char>,
        >::Ok(None),
{
}

/// Causality default: chain-native and subgraph-derived data sources
/// always live in the reserved on-chain region.
pub proof fn lemma_causality_default<C: Blockchain>(ds: &DataSource<C>)
    requires
        ds is Onchain || ds is Subgraph,
    ensures
        ds.spec_causality_region().is_onchain(),
{
}

/// Causality isolation: two offchain data sources whose regions were
/// drawn from one allocator at different states write to regions
/// distinct from each other and from the reserved on-chain region that
/// every chain-based source uses.
pub proof fn lemma_offchain_regions_isolated<C: Blockchain>(
    a: &DataSource<C>,
    b: &DataSource<C>,
    s0: CausalityRegionSeq,
    s1: CausalityRegionSeq,
)
    requires
        a is Offchain,
        b is Offchain,
        s0.wf(),
        s1.wf(),
        s0.spec_next_id() < s1.spec_next_id(),
        a.spec_causality_region() == s0.spec_next_region(),
        b.spec_causality_region() == s1.spec_next_region(),
    ensures
        a.spec_causality_region() != b.spec_causality_region(),
        !a.spec_causality_region().is_onchain(),
        !b.spec_causality_region().is_onchain(),
{
    causality_region::lemma_fresh_regions_distinct(s0, s1);
}

/// Round-trip persistence for offchain data sources: a source that
/// belongs to a template — same manifest index, kind, name and mapping,
/// and a region other than the reserved on-chain one — is rebuilt,
/// without loss, from its own stored snapshot against that template.
pub proof fn lemma_offchain_stored_round_trip(
    template: &offchain::DataSourceTemplate,
    ds: &offchain::DataSource,
    stored: &StoredDynamicDataSource,
)
    requires
        ds.manifest_idx == template.manifest_idx,
        ds.kind@ == template.kind@,
        ds.name@ == template.name@,
        ds.mapping.model() == template.mapping.model(),
        !ds.causality_region.is_onchain(),
        stored.model() == ds.spec_stored(),
    ensures
        offchain::DataSource::spec_restorable(template, stored),
        offchain::DataSource::spec_restored(template, stored) == ds.model(),
{
    assert(stored.model().1 == Some(ds.source@));
    assert(stored.param matches Some(p) && p@ == ds.source@);
}

} // verus!
