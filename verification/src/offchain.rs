//! Offchain (file-based) data sources: fetched once by content address
//! and processed outside chain causal order, with their writes isolated
//! in a fresh causality region per instance.

use crate::causality_region::{CausalityRegion, CausalityRegionSeq};
use crate::common::{
    bytes_eq, clone_bytes, clone_context_opt, context_opt_eq, str_eq, BlockNumber,
    DataSourceContext, EntityType, InputSchema, Link, StoredDynamicDataSource,
};
use crate::common::arc_clone;
use crate::document::{texts_from, DeserializationError, RawDocument};
use crate::version::{spec_parse_version, Version};
use std::sync::Arc;
use vstd::prelude::*;

verus! {

/// The registered offchain kinds: the discriminators that select the
/// offchain variant.
pub open spec fn spec_offchain_kinds() -> Seq<Seq<char>> {
    seq!["file/ipfs"@, "file/arweave"@]
}

/// Whether a discriminator names a registered offchain kind.
pub open spec fn is_offchain_kind(kind: Seq<char>) -> bool {
    spec_offchain_kinds().contains(kind)
}

/// The registered offchain kinds, in registry order.
pub fn offchain_kinds() -> (r: Vec<String>)
    ensures
        r.deep_view() == spec_offchain_kinds(),
{
    let mut v: Vec<String> = Vec::new();
    v.push("file/ipfs".to_owned());
    v.push("file/arweave".to_owned());
    proof {
        assert(v.deep_view() =~= spec_offchain_kinds());
    }
    v
}

/// Tests a discriminator against the registered offchain kinds.
pub fn kind_is_offchain(kind: &str) -> (r: bool)
    ensures
        r == is_offchain_kind(kind@),
{
    let r = str_eq(kind, "file/ipfs") || str_eq(kind, "file/arweave");
    proof {
        if r {
            assert(spec_offchain_kinds()[0] == "file/ipfs"@);
            assert(spec_offchain_kinds()[1] == "file/arweave"@);
        }
        if is_offchain_kind(kind@) {
            let i = choose|i: int|
                0 <= i < spec_offchain_kinds().len() && spec_offchain_kinds()[i] == kind@;
            assert(i == 0 || i == 1);
        }
    }
    r
}

/// What an offchain mapping looks like, as plain values.
pub struct MappingModel {
    pub api_version: Version,
    pub runtime: Seq<u8>,
    pub entities: Seq<Seq<char>>,
    pub handler: Seq<char>,
}

/// The mapping an offchain data source runs: its runtime bytecode, the
/// entity types it may write, and the handler to invoke.
#[derive(Debug)]
pub struct Mapping {
    pub api_version: Version,
    pub runtime: Arc<Vec<u8>>,
    pub entities: Vec<EntityType>,
    pub handler: String,
}

impl Mapping {
    /// The mapping as plain values.
    pub open spec fn model(&self) -> MappingModel {
        MappingModel {
            api_version: self.api_version,
            runtime: self.runtime@,
            entities: self.entities@.map_values(|e: EntityType| e.model()),
            handler: self.handler@,
        }
    }
}

impl Clone for Mapping {
    fn clone(&self) -> (r: Self)
        ensures
            r.model() == self.model(),
    {
        let entities = self.entities.clone();
        proof {
            assert forall|i: int| 0 <= i < self.entities@.len() implies entities@[i].model()
                == self.entities@[i].model() by {
                assert(cloned::<EntityType>(self.entities@[i], entities@[i]));
            }
            assert(entities@.map_values(|e: EntityType| e.model()) =~= self.entities@.map_values(
                |e: EntityType| e.model(),
            ));
        }
        Mapping {
            api_version: self.api_version,
            runtime: arc_clone(&self.runtime),
            entities,
            handler: self.handler.clone(),
        }
    }
}

/// What an offchain data source looks like, as plain values.
pub struct DsModel {
    pub kind: Seq<char>,
    pub name: Seq<char>,
    pub manifest_idx: u32,
    pub source: Seq<u8>,
    pub context: Option<Seq<(Seq<char>, Seq<char>)>>,
    pub creation_block: Option<BlockNumber>,
    pub causality_region: CausalityRegion,
    pub mapping: MappingModel,
}

/// A live offchain data source: one file, fetched by content address
/// and handed to one handler.
#[derive(Debug)]
pub struct DataSource {
    pub kind: String,
    pub name: String,
    pub manifest_idx: u32,
    /// The content address of the file, as bytes.
    pub source: Vec<u8>,
    pub context: Option<DataSourceContext>,
    pub creation_block: Option<BlockNumber>,
    pub causality_region: CausalityRegion,
    pub mapping: Mapping,
}

impl DataSource {
    /// The data source as plain values.
    pub open spec fn model(&self) -> DsModel {
        DsModel {
            kind: self.kind@,
            name: self.name@,
            manifest_idx: self.manifest_idx,
            source: self.source@,
            context: match self.context {
                Some(c) => Some(c.model()),
                None => None,
            },
            creation_block: self.creation_block,
            causality_region: self.causality_region,
            mapping: self.mapping.model(),
        }
    }

    /// The single handler kind an offchain source exposes: its own
    /// kind discriminator.
    pub fn handler_kind(&self) -> (r: &str)
        ensures
            r@ == self.model().kind,
    {
        self.kind.as_str()
    }

    /// The earliest manifest spec version that supports offchain data
    /// sources.
    pub fn min_spec_version(&self) -> (r: Version)
        ensures
            r == (Version { major: 0, minor: 0, patch: 7 }),
    {
        Version::new(0, 0, 7)
    }

    /// Whether this source would match a trigger carrying `source`
    /// bytes: offchain matching is equality of content addresses.
    pub open spec fn spec_matches_source(&self, source: Seq<u8>) -> bool {
        self.source@ == source
    }

    /// Semantic duplication: same template, same file, same context.
    /// Creation block and causality region are instance identity, not
    /// duplication criteria.
    pub open spec fn spec_duplicate_of(&self, other: &DataSource) -> bool {
        &&& self.manifest_idx == other.manifest_idx
        &&& self.source@ == other.source@
        &&& self.model().context == other.model().context
    }

    /// Compares two offchain sources for semantic duplication.
    pub fn is_duplicate_of(&self, other: &DataSource) -> (r: bool)
        ensures
            r == self.spec_duplicate_of(other),
    {
        self.manifest_idx == other.manifest_idx && bytes_eq(&self.source, &other.source)
            && context_opt_eq(&self.context, &other.context)
    }

    /// The snapshot this source persists as.
    pub open spec fn spec_stored(&self) -> (
        u32,
        Option<Seq<u8>>,
        Option<Seq<(Seq<char>, Seq<char>)>>,
        Option<BlockNumber>,
        CausalityRegion,
    ) {
        (
            self.manifest_idx,
            Some(self.source@),
            self.model().context,
            self.creation_block,
            self.causality_region,
        )
    }

    /// Snapshots this source for the store.
    pub fn as_stored_dynamic_data_source(&self) -> (r: StoredDynamicDataSource)
        ensures
            r.model() == self.spec_stored(),
    {
        StoredDynamicDataSource {
            manifest_idx: self.manifest_idx,
            param: Some(clone_bytes(&self.source)),
            context: clone_context_opt(&self.context),
            creation_block: self.creation_block,
            causality_region: self.causality_region,
        }
    }

    /// Whether a stored record can be rebuilt against a template: the
    /// record must carry a file address, a region that is not the
    /// on-chain one, and the template's own manifest index.
    pub open spec fn spec_restorable(
        template: &DataSourceTemplate,
        stored: &StoredDynamicDataSource,
    ) -> bool {
        &&& stored.param is Some
        &&& !stored.causality_region.is_onchain()
        &&& stored.manifest_idx == template.manifest_idx
    }

    /// The model of the source a stored record rebuilds to.
    pub open spec fn spec_restored(
        template: &DataSourceTemplate,
        stored: &StoredDynamicDataSource,
    ) -> DsModel {
        DsModel {
            kind: template.kind@,
            name: template.name@,
            manifest_idx: stored.manifest_idx,
            source: stored.param->0@,
            context: stored.model().2,
            creation_block: stored.creation_block,
            causality_region: stored.causality_region,
            mapping: template.mapping.model(),
        }
    }

    /// Rebuilds a dynamically created source from its stored snapshot,
    /// against the same template it was instantiated from. A record
    /// whose shape does not fit an offchain source is a fatal
    /// inconsistency.
    pub fn from_stored_dynamic_data_source(
        template: &DataSourceTemplate,
        stored: StoredDynamicDataSource,
    ) -> (r: Result<DataSource, String>)
        ensures
            (r is Ok) == Self::spec_restorable(template, &stored),
            r matches Ok(ds) ==> ds.model() == Self::spec_restored(template, &stored),
    {
        let StoredDynamicDataSource { manifest_idx, param, context, creation_block, causality_region } =
            stored;
        let source = match param {
            Some(p) => p,
            None => {
                return Err("offchain stored record carries no file address".to_owned());
            },
        };
        if causality_region.id() == crate::causality_region::ONCHAIN_REGION_ID {
            return Err("offchain stored record carries the on-chain causality region".to_owned());
        }
        if manifest_idx != template.manifest_idx {
            return Err("stored record does not belong to this template".to_owned());
        }
        Ok(
            DataSource {
                kind: template.kind.clone(),
                name: template.name.clone(),
                manifest_idx,
                source,
                context,
                creation_block,
                causality_region,
                mapping: template.mapping.clone(),
            },
        )
    }

    /// Instantiates a source from a template at runtime, drawing a
    /// fresh causality region so its writes stay isolated.
    pub fn from_template(
        template: &DataSourceTemplate,
        source: Vec<u8>,
        context: Option<DataSourceContext>,
        creation_block: BlockNumber,
        regions: &mut CausalityRegionSeq,
    ) -> (r: DataSource)
        requires
            old(regions).wf(),
            old(regions).spec_next_id() < i32::MAX,
        ensures
            final(regions).wf(),
            final(regions).spec_next_id() == old(regions).spec_next_id() + 1,
            r.model() == (DsModel {
                kind: template.kind@,
                name: template.name@,
                manifest_idx: template.manifest_idx,
                source: source@,
                context: match context {
                    Some(c) => Some(c.model()),
                    None => None,
                },
                creation_block: Some(creation_block),
                causality_region: old(regions).spec_next_region(),
                mapping: template.mapping.model(),
            }),
            !r.causality_region.is_onchain(),
    {
        let causality_region = regions.next_region();
        DataSource {
            kind: template.kind.clone(),
            name: template.name.clone(),
            manifest_idx: template.manifest_idx,
            source,
            context,
            creation_block: Some(creation_block),
            causality_region,
            mapping: template.mapping.clone(),
        }
    }
}

impl Clone for DataSource {
    fn clone(&self) -> (r: Self)
        ensures
            r.model() == self.model(),
    {
        DataSource {
            kind: self.kind.clone(),
            name: self.name.clone(),
            manifest_idx: self.manifest_idx,
            source: clone_bytes(&self.source),
            context: clone_context_opt(&self.context),
            creation_block: self.creation_block,
            causality_region: self.causality_region,
            mapping: self.mapping.clone(),
        }
    }
}

/// What an offchain template looks like, as plain values.
pub struct TemplateModel {
    pub kind: Seq<char>,
    pub name: Seq<char>,
    pub manifest_idx: u32,
    pub mapping: MappingModel,
}

/// A blueprint for instantiating offchain data sources at runtime.
#[derive(Debug)]
pub struct DataSourceTemplate {
    pub kind: String,
    pub name: String,
    pub manifest_idx: u32,
    pub mapping: Mapping,
}

impl DataSourceTemplate {
    /// The template as plain values.
    pub open spec fn model(&self) -> TemplateModel {
        TemplateModel {
            kind: self.kind@,
            name: self.name@,
            manifest_idx: self.manifest_idx,
            mapping: self.mapping.model(),
        }
    }
}

impl Clone for DataSourceTemplate {
    fn clone(&self) -> (r: Self)
        ensures
            r.model() == self.model(),
    {
        DataSourceTemplate {
            kind: self.kind.clone(),
            name: self.name.clone(),
            manifest_idx: self.manifest_idx,
            mapping: self.mapping.clone(),
        }
    }
}

/// A raw offchain event: a fetched file, addressed by the content
/// address the data source declared.
#[derive(Debug)]
pub struct TriggerData {
    /// The content address of the file.
    pub source: Arc<Vec<u8>>,
    /// The fetched file contents.
    pub data: Arc<Vec<u8>>,
}

impl Clone for TriggerData {
    fn clone(&self) -> (r: Self)
        ensures
            r == *self,
    {
        TriggerData { source: arc_clone(&self.source), data: arc_clone(&self.data) }
    }
}

/// What an unresolved offchain mapping looks like, as plain values.
pub struct UnresolvedMappingModel {
    pub api_version: Version,
    pub file: Seq<char>,
    pub entities: Seq<Seq<char>>,
    pub handler: Seq<char>,
}

/// An offchain mapping before resolution: the runtime is still a link.
#[derive(Debug)]
pub struct UnresolvedMapping {
    pub api_version: Version,
    pub file: Link,
    pub entities: Vec<EntityType>,
    pub handler: String,
}

impl UnresolvedMapping {
    /// The unresolved mapping as plain values.
    pub open spec fn model(&self) -> UnresolvedMappingModel {
        UnresolvedMappingModel {
            api_version: self.api_version,
            file: self.file.model(),
            entities: self.entities@.map_values(|e: EntityType| e.model()),
            handler: self.handler@,
        }
    }
}

impl Clone for UnresolvedMapping {
    fn clone(&self) -> (r: Self)
        ensures
            r.model() == self.model(),
    {
        let entities = self.entities.clone();
        proof {
            assert forall|i: int| 0 <= i < self.entities@.len() implies entities@[i].model()
                == self.entities@[i].model() by {
                assert(cloned::<EntityType>(self.entities@[i], entities@[i]));
            }
            assert(entities@.map_values(|e: EntityType| e.model()) =~= self.entities@.map_values(
                |e: EntityType| e.model(),
            ));
        }
        UnresolvedMapping {
            api_version: self.api_version,
            file: self.file.clone(),
            entities,
            handler: self.handler.clone(),
        }
    }
}

/// What an unresolved offchain data source looks like, as plain values.
pub struct UnresolvedDsModel {
    pub kind: Seq<char>,
    pub name: Seq<char>,
    pub source_file: Seq<char>,
    pub mapping: UnresolvedMappingModel,
}

/// An offchain data source before resolution: its file and runtime are
/// still links.
#[derive(Debug)]
pub struct UnresolvedDataSource {
    pub kind: String,
    pub name: String,
    /// The link of the file the source watches.
    pub source: Link,
    pub mapping: UnresolvedMapping,
}

impl UnresolvedDataSource {
    /// The unresolved source as plain values.
    pub open spec fn model(&self) -> UnresolvedDsModel {
        UnresolvedDsModel {
            kind: self.kind@,
            name: self.name@,
            source_file: self.source.model(),
            mapping: self.mapping.model(),
        }
    }
}

/// What reading an offchain document yields: the model of the parsed
/// value, or the first offending field in reading order.
pub open spec fn spec_from_document(doc: &RawDocument) -> Result<UnresolvedDsModel, Seq<char>> {
    if doc.spec_get_str("kind"@) is None {
        Err("kind"@)
    } else if doc.spec_get_str("name"@) is None {
        Err("name"@)
    } else if doc.spec_get_object("source"@) is None {
        Err("source"@)
    } else if doc.spec_get_object("source"@)->0.spec_get_str("file"@) is None {
        Err("source.file"@)
    } else {
        match spec_mapping_from_document(doc) {
            Err(f) => Err(f),
            Ok(mapping) => Ok(
                UnresolvedDsModel {
                    kind: doc.spec_get_str("kind"@)->0,
                    name: doc.spec_get_str("name"@)->0,
                    source_file: doc.spec_get_object("source"@)->0.spec_get_str("file"@)->0,
                    mapping,
                },
            ),
        }
    }
}

/// What reading the `mapping` object of an offchain document yields.
pub open spec fn spec_mapping_from_document(doc: &RawDocument) -> Result<
    UnresolvedMappingModel,
    Seq<char>,
> {
    if doc.spec_get_object("mapping"@) is None {
        Err("mapping"@)
    } else {
        let m = doc.spec_get_object("mapping"@)->0;
        if m.spec_get_str("apiVersion"@) is None {
            Err("mapping.apiVersion"@)
        } else if spec_parse_version(m.spec_get_str("apiVersion"@)->0) is None {
            Err("mapping.apiVersion"@)
        } else if m.spec_get_str("file"@) is None {
            Err("mapping.file"@)
        } else if m.spec_get_str("handler"@) is None {
            Err("mapping.handler"@)
        } else {
            let entities = match m.spec_get_list("entities"@) {
                Some(vs) => texts_from(vs, 0),
                None => Some(Seq::<Seq<char>>::empty()),
            };
            match entities {
                None => Err("mapping.entities"@),
                Some(es) => Ok(
                    UnresolvedMappingModel {
                        api_version: spec_parse_version(m.spec_get_str("apiVersion"@)->0)->0,
                        file: m.spec_get_str("file"@)->0,
                        entities: es,
                        handler: m.spec_get_str("handler"@)->0,
                    },
                ),
            }
        }
    }
}

/// Reads the `mapping` object of an offchain document.
fn mapping_from_document(doc: &RawDocument) -> (r: Result<UnresolvedMapping, String>)
    ensures
        match (r, spec_mapping_from_document(doc)) {
            (Ok(m), Ok(model)) => m.model() == model,
            (Err(f), Err(field)) => f@ == field,
            _ => false,
        },
{
    let m = match doc.get_object("mapping") {
        Some(m) => m,
        None => {
            return Err("mapping".to_owned());
        },
    };
    let api_version_text = match m.get_str("apiVersion") {
        Some(s) => s,
        None => {
            return Err("mapping.apiVersion".to_owned());
        },
    };
    let api_version = match Version::parse(api_version_text.as_str()) {
        Some(v) => v,
        None => {
            return Err("mapping.apiVersion".to_owned());
        },
    };
    let file = match m.get_str("file") {
        Some(s) => s.clone(),
        None => {
            return Err("mapping.file".to_owned());
        },
    };
    let handler = match m.get_str("handler") {
        Some(s) => s.clone(),
        None => {
            return Err("mapping.handler".to_owned());
        },
    };
    let entities = match m.get_list("entities") {
        Some(vs) => {
            match crate::document::collect_texts(vs, 0) {
                Some(es) => es,
                None => {
                    return Err("mapping.entities".to_owned());
                },
            }
        },
        None => Vec::new(),
    };
    let r = UnresolvedMapping { api_version, file: Link { link: file }, entities, handler };
    proof {
        if m.spec_get_list("entities"@) is None {
            assert(r.model().entities =~= Seq::<Seq<char>>::empty());
        }
    }
    Ok(r)
}

impl UnresolvedDataSource {
    /// Reads an unresolved offchain data source from a manifest
    /// document whose `kind` named a registered offchain kind.
    pub fn from_document(doc: &RawDocument) -> (r: Result<UnresolvedDataSource, DeserializationError>)
        ensures
            match (r, spec_from_document(doc)) {
                (Ok(u), Ok(model)) => u.model() == model,
                (Err(e), Err(field)) => e matches DeserializationError::Variant { variant, field: f }
                    && variant@ == "offchain"@ && f@ == field,
                _ => false,
            },
    {
        let kind = match doc.get_str("kind") {
            Some(s) => s.clone(),
            None => {
                return Err(variant_error("kind"));
            },
        };
        let name = match doc.get_str("name") {
            Some(s) => s.clone(),
            None => {
                return Err(variant_error("name"));
            },
        };
        let source_doc = match doc.get_object("source") {
            Some(d) => d,
            None => {
                return Err(variant_error("source"));
            },
        };
        let source_file = match source_doc.get_str("file") {
            Some(s) => s.clone(),
            None => {
                return Err(variant_error("source.file"));
            },
        };
        let mapping = match mapping_from_document(doc) {
            Ok(m) => m,
            Err(f) => {
                return Err(DeserializationError::Variant { variant: "offchain".to_owned(), field: f });
            },
        };
        Ok(UnresolvedDataSource { kind, name, source: Link { link: source_file }, mapping })
    }
}

/// Builds the variant error for one offending offchain field.
fn variant_error(field: &str) -> (r: DeserializationError)
    ensures
        r matches DeserializationError::Variant { variant, field: f } && variant@ == "offchain"@
            && f@ == field@,
{
    DeserializationError::Variant { variant: "offchain".to_owned(), field: field.to_owned() }
}

/// An offchain template before resolution.
#[derive(Debug)]
pub struct UnresolvedDataSourceTemplate {
    pub kind: String,
    pub name: String,
    pub mapping: UnresolvedMapping,
}

/// What an unresolved offchain template looks like, as plain values.
pub struct UnresolvedTemplateModel {
    pub kind: Seq<char>,
    pub name: Seq<char>,
    pub mapping: UnresolvedMappingModel,
}

/// What reading an offchain template document yields.
pub open spec fn spec_template_from_document(doc: &RawDocument) -> Result<
    UnresolvedTemplateModel,
    Seq<char>,
> {
    if doc.spec_get_str("kind"@) is None {
        Err("kind"@)
    } else if doc.spec_get_str("name"@) is None {
        Err("name"@)
    } else {
        match spec_mapping_from_document(doc) {
            Err(f) => Err(f),
            Ok(mapping) => Ok(
                UnresolvedTemplateModel {
                    kind: doc.spec_get_str("kind"@)->0,
                    name: doc.spec_get_str("name"@)->0,
                    mapping,
                },
            ),
        }
    }
}

impl UnresolvedDataSourceTemplate {
    /// The unresolved template as plain values.
    pub open spec fn model(&self) -> UnresolvedTemplateModel {
        UnresolvedTemplateModel {
            kind: self.kind@,
            name: self.name@,
            mapping: self.mapping.model(),
        }
    }

    /// Reads an unresolved offchain template from a manifest document
    /// whose `kind` named a registered offchain kind.
    pub fn from_document(doc: &RawDocument) -> (r: Result<
        UnresolvedDataSourceTemplate,
        DeserializationError,
    >)
        ensures
            match (r, spec_template_from_document(doc)) {
                (Ok(t), Ok(model)) => t.model() == model,
                (Err(e), Err(field)) => e matches DeserializationError::Variant { variant, field: f }
                    && variant@ == "offchain"@ && f@ == field,
                _ => false,
            },
    {
        let kind = match doc.get_str("kind") {
            Some(s) => s.clone(),
            None => {
                return Err(variant_error("kind"));
            },
        };
        let name = match doc.get_str("name") {
            Some(s) => s.clone(),
            None => {
                return Err(variant_error("name"));
            },
        };
        let mapping = match mapping_from_document(doc) {
            Ok(m) => m,
            Err(f) => {
                return Err(DeserializationError::Variant { variant: "offchain".to_owned(), field: f });
            },
        };
        Ok(UnresolvedDataSourceTemplate { kind, name, mapping })
    }

    /// Whether resolution succeeds: every declared entity type must be
    /// one the schema knows.
    pub open spec fn spec_resolvable(&self, schema: &InputSchema) -> bool {
        forall|i: int|
            0 <= i < self.mapping.model().entities.len() ==> schema.spec_declares(
                #[trigger] self.mapping.model().entities[i],
            )
    }

    /// The model of the template this unresolved one resolves to,
    /// given its fetched runtime bytecode and stable manifest index.
    pub open spec fn spec_resolved(&self, runtime: Seq<u8>, manifest_idx: u32) -> TemplateModel {
        TemplateModel {
            kind: self.kind@,
            name: self.name@,
            manifest_idx,
            mapping: MappingModel {
                api_version: self.mapping.api_version,
                runtime,
                entities: self.mapping.model().entities,
                handler: self.mapping.handler@,
            },
        }
    }

    /// Turns an unresolved template into a live one: validates the
    /// declared entity types against the schema and installs the
    /// fetched runtime bytecode and the template's stable manifest
    /// index.
    pub fn resolve(
        self,
        runtime: Vec<u8>,
        schema: &InputSchema,
        manifest_idx: u32,
    ) -> (r: Result<DataSourceTemplate, String>)
        ensures
            (r is Ok) == self.spec_resolvable(schema),
            r matches Ok(t) ==> t.model() == self.spec_resolved(runtime@, manifest_idx),
    {
        let mut i: usize = 0;
        while i < self.mapping.entities.len()
            invariant
                0 <= i <= self.mapping.entities@.len(),
                forall|j: int|
                    0 <= j < i ==> schema.spec_declares(#[trigger] self.mapping.model().entities[j]),
            decreases self.mapping.entities@.len() - i,
        {
            if !schema.declares(self.mapping.entities[i].name.as_str()) {
                proof {
                    assert(!schema.spec_declares(self.mapping.model().entities[i as int]));
                }
                return Err("offchain template declares an entity type missing from the schema".to_owned());
            }
            i = i + 1;
        }
        let UnresolvedDataSourceTemplate { kind, name, mapping } = self;
        let UnresolvedMapping { api_version, file: _, entities, handler } = mapping;
        Ok(
            DataSourceTemplate {
                kind,
                name,
                manifest_idx,
                mapping: Mapping { api_version, runtime: Arc::new(runtime), entities, handler },
            },
        )
    }
}

impl Clone for UnresolvedDataSourceTemplate {
    fn clone(&self) -> (r: Self)
        ensures
            r.model() == self.model(),
    {
        UnresolvedDataSourceTemplate {
            kind: self.kind.clone(),
            name: self.name.clone(),
            mapping: self.mapping.clone(),
        }
    }
}

} // verus!
