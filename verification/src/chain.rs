//! The pluggable chain capability. Each supported chain implements this
//! trait, supplying its own data source, template, block, and trigger
//! types together with spec-level models of them; the dispatch unions
//! wrap one such implementation beside the fixed offchain and
//! subgraph-derived variants.

use crate::common::{BlockNumber, BlockPtr, BlockTime, DataSourceContext, StoredDynamicDataSource};
use crate::document::{DeserializationError, RawDocument};
use crate::trigger::{MatchOutcome, TriggerError, TriggerWithHandler};
use crate::version::Version;
use std::sync::Arc;
use vstd::prelude::*;

verus! {

/// What a chain-native data source looks like, as plain values.
pub struct OnchainDsModel {
    pub kind: Seq<char>,
    pub name: Seq<char>,
    pub network: Option<Seq<char>>,
    pub address: Option<Seq<u8>>,
    pub start_block: BlockNumber,
    pub end_block: Option<BlockNumber>,
    pub creation_block: Option<BlockNumber>,
    pub api_version: Version,
    pub min_spec_version: Version,
    pub runtime: Option<Seq<u8>>,
    pub context: Option<Seq<(Seq<char>, Seq<char>)>>,
    pub handler_kinds: Seq<Seq<char>>,
    pub has_declared_calls: bool,
}

/// What a chain-native template looks like, as plain values.
pub struct OnchainTemplateModel {
    pub kind: Seq<char>,
    pub name: Seq<char>,
    pub manifest_idx: u32,
    pub api_version: Version,
    pub runtime: Option<Seq<u8>>,
}

/// A chain backend: the capability set the dispatch layer consumes.
///
/// Every exec method is pinned to a spec-level model the implementation
/// must also supply, so that the dispatch unions can state exact
/// contracts without knowing the chain's concrete types.
pub trait Blockchain: Sized {
    /// A live chain-native data source.
    type DataSource;

    /// A chain-native data source before link resolution.
    type UnresolvedDataSource;

    /// A live chain-native template.
    type DataSourceTemplate;

    /// A chain-native template before link resolution.
    type UnresolvedDataSourceTemplate;

    /// One block of the chain.
    type Block;

    /// A raw, not yet matched chain event.
    type TriggerData;

    /// A matched, handler-ready decoded chain event.
    type MappingTrigger;

    /// The canonical kind name of this chain's data sources.
    spec fn spec_kind() -> Seq<char>;

    /// Alternate kind names the discriminator also accepts.
    spec fn spec_aliases() -> Seq<Seq<char>>;

    /// The canonical kind name, e.g. for error messages.
    fn kind_name() -> (r: String)
        ensures
            r@ == Self::spec_kind(),
    ;

    /// Whether a discriminator string names this chain, either
    /// canonically or through an alias.
    fn kind_matches(kind: &str) -> (r: bool)
        ensures
            r == (kind@ == Self::spec_kind() || Self::spec_aliases().contains(kind@)),
    ;

    /// The model of a live data source.
    spec fn ds_model(ds: &Self::DataSource) -> OnchainDsModel;

    /// Whether the data source stops matching after `block`.
    spec fn ds_expired(ds: &Self::DataSource, block: BlockNumber) -> bool;

    /// What matching a trigger against a data source at a block yields.
    spec fn ds_match_result(
        ds: &Self::DataSource,
        trigger: &Self::TriggerData,
        block: &Self::Block,
    ) -> Result<Option<MatchOutcome<Self::MappingTrigger>>, Seq<char>>;

    /// Whether two data sources index the same thing.
    spec fn ds_duplicate_spec(a: &Self::DataSource, b: &Self::DataSource) -> bool;

    /// The persisted snapshot of a dynamically created data source.
    spec fn ds_stored_model(ds: &Self::DataSource) -> (
        u32,
        Option<Seq<u8>>,
        Option<Seq<(Seq<char>, Seq<char>)>>,
        Option<BlockNumber>,
        crate::causality_region::CausalityRegion,
    );

    /// Whether a stored record can be rebuilt against a template.
    spec fn ds_restorable(template: &Self::DataSourceTemplate, stored: &StoredDynamicDataSource) -> bool;

    /// The model of the data source a stored record rebuilds to.
    spec fn ds_restored_model(
        template: &Self::DataSourceTemplate,
        stored: &StoredDynamicDataSource,
    ) -> OnchainDsModel;

    /// The manifest constraints a data source violates at a spec
    /// version, as messages.
    spec fn ds_validate_spec(ds: &Self::DataSource, spec_version: Version) -> Seq<Seq<char>>;

    fn ds_name(ds: &Self::DataSource) -> (r: &str)
        ensures
            r@ == Self::ds_model(ds).name,
    ;

    fn ds_kind(ds: &Self::DataSource) -> (r: String)
        ensures
            r@ == Self::ds_model(ds).kind,
    ;

    fn ds_network(ds: &Self::DataSource) -> (r: Option<String>)
        ensures
            match r {
                Some(n) => Self::ds_model(ds).network == Some(n@),
                None => Self::ds_model(ds).network is None,
            },
    ;

    fn ds_address(ds: &Self::DataSource) -> (r: Option<Vec<u8>>)
        ensures
            match r {
                Some(a) => Self::ds_model(ds).address == Some(a@),
                None => Self::ds_model(ds).address is None,
            },
    ;

    fn ds_start_block(ds: &Self::DataSource) -> (r: BlockNumber)
        ensures
            r == Self::ds_model(ds).start_block,
    ;

    fn ds_end_block(ds: &Self::DataSource) -> (r: Option<BlockNumber>)
        ensures
            r == Self::ds_model(ds).end_block,
    ;

    fn ds_creation_block(ds: &Self::DataSource) -> (r: Option<BlockNumber>)
        ensures
            r == Self::ds_model(ds).creation_block,
    ;

    fn ds_api_version(ds: &Self::DataSource) -> (r: Version)
        ensures
            r == Self::ds_model(ds).api_version,
    ;

    fn ds_min_spec_version(ds: &Self::DataSource) -> (r: Version)
        ensures
            r == Self::ds_model(ds).min_spec_version,
    ;

    fn ds_runtime(ds: &Self::DataSource) -> (r: Option<Arc<Vec<u8>>>)
        ensures
            match r {
                Some(b) => Self::ds_model(ds).runtime == Some(b@),
                None => Self::ds_model(ds).runtime is None,
            },
    ;

    fn ds_context(ds: &Self::DataSource) -> (r: Option<DataSourceContext>)
        ensures
            match r {
                Some(c) => Self::ds_model(ds).context == Some(c.model()),
                None => Self::ds_model(ds).context is None,
            },
    ;

    fn ds_handler_kinds(ds: &Self::DataSource) -> (r: Vec<String>)
        ensures
            r.deep_view() == Self::ds_model(ds).handler_kinds,
    ;

    fn ds_has_declared_calls(ds: &Self::DataSource) -> (r: bool)
        ensures
            r == Self::ds_model(ds).has_declared_calls,
    ;

    fn ds_has_expired(ds: &Self::DataSource, block: BlockNumber) -> (r: bool)
        ensures
            r == Self::ds_expired(ds, block),
    ;

    /// Matches one raw trigger against one data source at one block:
    /// no match, a handler-annotated decoded trigger, or a propagated
    /// decode failure.
    fn ds_match_and_decode(
        ds: &Self::DataSource,
        trigger: &Self::TriggerData,
        block: &Self::Block,
    ) -> (r: Result<Option<TriggerWithHandler<Self::MappingTrigger>>, TriggerError>)
        ensures
            match (r, Self::ds_match_result(ds, trigger, block)) {
                (Ok(None), Ok(None)) => true,
                (Ok(Some(t)), Ok(Some(o))) => t.outcome() == o,
                (Err(e), Err(m)) => e.model() == m,
                _ => false,
            },
    ;

    fn ds_is_duplicate_of(a: &Self::DataSource, b: &Self::DataSource) -> (r: bool)
        ensures
            r == Self::ds_duplicate_spec(a, b),
    ;

    fn ds_as_stored(ds: &Self::DataSource) -> (r: StoredDynamicDataSource)
        ensures
            r.model() == Self::ds_stored_model(ds),
    ;

    fn ds_from_stored(
        template: &Self::DataSourceTemplate,
        stored: StoredDynamicDataSource,
    ) -> (r: Result<Self::DataSource, String>)
        ensures
            (r is Ok) == Self::ds_restorable(template, &stored),
            r matches Ok(ds) ==> Self::ds_model(&ds) == Self::ds_restored_model(template, &stored),
    ;

    fn ds_validate(ds: &Self::DataSource, spec_version: &Version) -> (r: Vec<String>)
        ensures
            r.deep_view() == Self::ds_validate_spec(ds, *spec_version),
    ;

    fn ds_clone(ds: &Self::DataSource) -> (r: Self::DataSource)
        ensures
            Self::ds_model(&r) == Self::ds_model(ds),
            Self::ds_stored_model(&r) == Self::ds_stored_model(ds),
            forall|block: BlockNumber| Self::ds_expired(&r, block) == Self::ds_expired(ds, block),
    ;

    /// Whether an unresolved data source resolves once its runtime has
    /// been fetched.
    spec fn uds_resolvable(u: &Self::UnresolvedDataSource) -> bool;

    /// The model of the data source an unresolved one resolves to.
    spec fn uds_resolved_model(
        u: &Self::UnresolvedDataSource,
        runtime: Seq<u8>,
        manifest_idx: u32,
    ) -> OnchainDsModel;

    /// Reads an unresolved data source from a manifest document whose
    /// `kind` named this chain.
    fn uds_from_document(doc: &RawDocument) -> (r: Result<
        Self::UnresolvedDataSource,
        DeserializationError,
    >);

    /// The link of the runtime bytecode to fetch before resolution.
    fn uds_runtime_link(u: &Self::UnresolvedDataSource) -> (r: String);

    /// Turns an unresolved data source into a live one, given the
    /// fetched runtime bytecode.
    fn uds_resolve(
        u: Self::UnresolvedDataSource,
        runtime: Vec<u8>,
        manifest_idx: u32,
    ) -> (r: Result<Self::DataSource, String>)
        ensures
            (r is Ok) == Self::uds_resolvable(&u),
            r matches Ok(ds) ==> Self::ds_model(&ds) == Self::uds_resolved_model(
                &u,
                runtime@,
                manifest_idx,
            ),
    ;

    /// The model of a live template.
    spec fn template_model(t: &Self::DataSourceTemplate) -> OnchainTemplateModel;

    fn template_name(t: &Self::DataSourceTemplate) -> (r: &str)
        ensures
            r@ == Self::template_model(t).name,
    ;

    fn template_kind(t: &Self::DataSourceTemplate) -> (r: String)
        ensures
            r@ == Self::template_model(t).kind,
    ;

    fn template_manifest_idx(t: &Self::DataSourceTemplate) -> (r: u32)
        ensures
            r == Self::template_model(t).manifest_idx,
    ;

    fn template_api_version(t: &Self::DataSourceTemplate) -> (r: Version)
        ensures
            r == Self::template_model(t).api_version,
    ;

    fn template_runtime(t: &Self::DataSourceTemplate) -> (r: Option<Arc<Vec<u8>>>)
        ensures
            match r {
                Some(b) => Self::template_model(t).runtime == Some(b@),
                None => Self::template_model(t).runtime is None,
            },
    ;

    fn template_clone(t: &Self::DataSourceTemplate) -> (r: Self::DataSourceTemplate)
        ensures
            Self::template_model(&r) == Self::template_model(t),
            forall|stored: StoredDynamicDataSource|
                Self::ds_restorable(&r, &stored) == Self::ds_restorable(t, &stored)
                    && Self::ds_restored_model(&r, &stored) == Self::ds_restored_model(t, &stored),
    ;

    /// The model of an unresolved template: its kind and name.
    spec fn utpl_model(t: &Self::UnresolvedDataSourceTemplate) -> (Seq<char>, Seq<char>);

    /// The default unresolved template.
    fn utpl_default() -> (r: Self::UnresolvedDataSourceTemplate);

    /// Reads an unresolved template from a manifest document whose
    /// `kind` named this chain.
    fn utpl_from_document(doc: &RawDocument) -> (r: Result<
        Self::UnresolvedDataSourceTemplate,
        DeserializationError,
    >);

    /// The link of the runtime bytecode to fetch before resolution.
    fn utpl_runtime_link(t: &Self::UnresolvedDataSourceTemplate) -> (r: String);

    fn utpl_clone(t: &Self::UnresolvedDataSourceTemplate) -> (r: Self::UnresolvedDataSourceTemplate)
        ensures
            Self::utpl_model(&r) == Self::utpl_model(t),
    ;

    /// Whether an unresolved template resolves once its runtime has
    /// been fetched.
    spec fn utpl_resolvable(t: &Self::UnresolvedDataSourceTemplate) -> bool;

    /// The model of the template an unresolved one resolves to.
    spec fn utpl_resolved_model(
        t: &Self::UnresolvedDataSourceTemplate,
        runtime: Seq<u8>,
        manifest_idx: u32,
    ) -> OnchainTemplateModel;

    /// Turns an unresolved template into a live one, given the fetched
    /// runtime bytecode and its stable manifest index; the live
    /// template carries exactly that index.
    fn utpl_resolve(
        t: Self::UnresolvedDataSourceTemplate,
        runtime: Vec<u8>,
        manifest_idx: u32,
    ) -> (r: Result<Self::DataSourceTemplate, String>)
        ensures
            (r is Ok) == Self::utpl_resolvable(&t),
            r matches Ok(tpl) ==> Self::template_model(&tpl) == Self::utpl_resolved_model(
                &t,
                runtime@,
                manifest_idx,
            ),
            r matches Ok(tpl) ==> Self::template_model(&tpl).manifest_idx == manifest_idx,
    ;

    /// The number of a block.
    spec fn block_number_spec(b: &Self::Block) -> BlockNumber;

    /// The pointer of a block.
    spec fn block_ptr_model(b: &Self::Block) -> (Seq<u8>, BlockNumber);

    /// The timestamp of a block.
    spec fn block_time_spec(b: &Self::Block) -> BlockTime;

    fn block_number(b: &Self::Block) -> (r: BlockNumber)
        ensures
            r == Self::block_number_spec(b),
    ;

    fn block_ptr(b: &Self::Block) -> (r: BlockPtr)
        ensures
            r.model() == Self::block_ptr_model(b),
    ;

    fn block_timestamp(b: &Self::Block) -> (r: BlockTime)
        ensures
            r == Self::block_time_spec(b),
    ;

    /// A short description of a raw trigger for error messages.
    spec fn trigger_context_spec(t: &Self::TriggerData) -> Seq<char>;

    fn trigger_error_context(t: &Self::TriggerData) -> (r: String)
        ensures
            r@ == Self::trigger_context_spec(t),
    ;

    /// A short description of a decoded trigger for error messages.
    spec fn mt_context_spec(t: &Self::MappingTrigger) -> Seq<char>;

    fn mt_error_context(t: &Self::MappingTrigger) -> (r: String)
        ensures
            r@ == Self::mt_context_spec(t),
    ;
}

} // verus!
