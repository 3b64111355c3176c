//! Subgraph-derived data sources: sourced from another indexer's entity
//! output stream rather than from chain events or files.

use crate::common::{clone_context_opt, str_eq, BlockNumber, DataSourceContext, Link};
use crate::common::arc_clone;
use crate::document::{DeserializationError, RawDocument};
use crate::version::{spec_parse_version, Version};
use std::sync::Arc;
use vstd::prelude::*;

verus! {

/// The reserved discriminator that selects the subgraph-derived
/// variant.
pub open spec fn spec_subgraph_kind() -> Seq<char> {
    "subgraph"@
}

/// The reserved subgraph-derived discriminator string.
pub fn subgraph_kind() -> (r: String)
    ensures
        r@ == spec_subgraph_kind(),
{
    "subgraph".to_owned()
}

/// Tests a discriminator against the subgraph-derived kind.
pub fn kind_is_subgraph(kind: &str) -> (r: bool)
    ensures
        r == (kind@ == spec_subgraph_kind()),
{
    str_eq(kind, "subgraph")
}

/// What a subgraph-derived source declaration looks like, as plain
/// values.
pub struct SourceModel {
    pub address: Seq<char>,
    pub start_block: BlockNumber,
}

/// Which deployment a subgraph-derived data source listens to, and from
/// which block on.
#[derive(Debug)]
pub struct Source {
    /// The deployment identifier of the source subgraph.
    pub address: String,
    pub start_block: BlockNumber,
}

impl Source {
    /// The declaration as plain values.
    pub open spec fn model(&self) -> SourceModel {
        SourceModel { address: self.address@, start_block: self.start_block }
    }
}

impl Clone for Source {
    fn clone(&self) -> (r: Self)
        ensures
            r.model() == self.model(),
    {
        Source { address: self.address.clone(), start_block: self.start_block }
    }
}

/// What a subgraph-derived mapping looks like, as plain values.
pub struct MappingModel {
    pub api_version: Version,
    pub runtime: Seq<u8>,
    pub handler: Seq<char>,
}

/// The mapping a subgraph-derived data source runs.
#[derive(Debug)]
pub struct Mapping {
    pub api_version: Version,
    pub runtime: Arc<Vec<u8>>,
    pub handler: String,
}

impl Mapping {
    /// The mapping as plain values.
    pub open spec fn model(&self) -> MappingModel {
        MappingModel {
            api_version: self.api_version,
            runtime: self.runtime@,
            handler: self.handler@,
        }
    }
}

impl Clone for Mapping {
    fn clone(&self) -> (r: Self)
        ensures
            r.model() == self.model(),
    {
        Mapping {
            api_version: self.api_version,
            runtime: arc_clone(&self.runtime),
            handler: self.handler.clone(),
        }
    }
}

/// What a subgraph-derived data source looks like, as plain values.
pub struct DsModel {
    pub kind: Seq<char>,
    pub name: Seq<char>,
    pub source: SourceModel,
    pub context: Option<Seq<(Seq<char>, Seq<char>)>>,
    pub creation_block: Option<BlockNumber>,
    pub mapping: MappingModel,
}

/// A live subgraph-derived data source.
#[derive(Debug)]
pub struct DataSource {
    pub kind: String,
    pub name: String,
    pub source: Source,
    pub context: Option<DataSourceContext>,
    pub creation_block: Option<BlockNumber>,
    pub mapping: Mapping,
}

impl DataSource {
    /// The data source as plain values.
    pub open spec fn model(&self) -> DsModel {
        DsModel {
            kind: self.kind@,
            name: self.name@,
            source: self.source.model(),
            context: match self.context {
                Some(c) => Some(c.model()),
                None => None,
            },
            creation_block: self.creation_block,
            mapping: self.mapping.model(),
        }
    }

    /// The single handler kind a subgraph-derived source exposes:
    /// entity-change handlers.
    pub fn handler_kind(&self) -> (r: &str)
        ensures
            r@ == "entity"@,
    {
        "entity"
    }

    /// The earliest manifest spec version that supports
    /// subgraph-derived data sources.
    pub fn min_spec_version(&self) -> (r: Version)
        ensures
            r == (Version { major: 1, minor: 3, patch: 0 }),
    {
        Version::new(1, 3, 0)
    }

    /// Whether this source listens to the deployment a trigger came
    /// from.
    pub open spec fn spec_matches_source(&self, source: Seq<char>) -> bool {
        self.source.address@ == source
    }
}

impl Clone for DataSource {
    fn clone(&self) -> (r: Self)
        ensures
            r.model() == self.model(),
    {
        DataSource {
            kind: self.kind.clone(),
            name: self.name.clone(),
            source: self.source.clone(),
            context: clone_context_opt(&self.context),
            creation_block: self.creation_block,
            mapping: self.mapping.clone(),
        }
    }
}

/// A raw entity-change event from the source subgraph's output stream.
#[derive(Debug)]
pub struct TriggerData {
    /// The deployment the change came from.
    pub source: Arc<String>,
    /// The entity type that changed.
    pub entity_type: Arc<String>,
}

impl TriggerData {
    /// A short description of the trigger for error messages: the
    /// deployment it came from.
    pub fn error_context(&self) -> (r: String)
        ensures
            r@ == self.source@,
    {
        arc_borrow_string(&self.source)
    }
}

/// Copies the string a shared handle points at.
fn arc_borrow_string(s: &Arc<String>) -> (r: String)
    ensures
        r@ == s@,
{
    crate::common::arc_borrow(s).clone()
}

impl Clone for TriggerData {
    fn clone(&self) -> (r: Self)
        ensures
            r == *self,
    {
        TriggerData { source: arc_clone(&self.source), entity_type: arc_clone(&self.entity_type) }
    }
}

/// A matched, handler-ready entity-change trigger.
#[derive(Debug)]
pub struct MappingEntityTrigger {
    pub data: TriggerData,
}

impl Clone for MappingEntityTrigger {
    fn clone(&self) -> (r: Self)
        ensures
            r == *self,
    {
        MappingEntityTrigger { data: self.data.clone() }
    }
}

/// What an unresolved subgraph-derived mapping looks like, as plain
/// values.
pub struct UnresolvedMappingModel {
    pub api_version: Version,
    pub file: Seq<char>,
    pub handler: Seq<char>,
}

/// A subgraph-derived mapping before resolution.
#[derive(Debug)]
pub struct UnresolvedMapping {
    pub api_version: Version,
    pub file: Link,
    pub handler: String,
}

impl UnresolvedMapping {
    /// The unresolved mapping as plain values.
    pub open spec fn model(&self) -> UnresolvedMappingModel {
        UnresolvedMappingModel {
            api_version: self.api_version,
            file: self.file.model(),
            handler: self.handler@,
        }
    }
}

impl Clone for UnresolvedMapping {
    fn clone(&self) -> (r: Self)
        ensures
            r.model() == self.model(),
    {
        UnresolvedMapping {
            api_version: self.api_version,
            file: self.file.clone(),
            handler: self.handler.clone(),
        }
    }
}

/// What an unresolved subgraph-derived data source looks like, as
/// plain values.
pub struct UnresolvedDsModel {
    pub kind: Seq<char>,
    pub name: Seq<char>,
    pub source: SourceModel,
    pub mapping: UnresolvedMappingModel,
}

/// A subgraph-derived data source before resolution.
#[derive(Debug)]
pub struct UnresolvedDataSource {
    pub kind: String,
    pub name: String,
    pub source: Source,
    pub mapping: UnresolvedMapping,
}

/// What reading the `mapping` object of a subgraph-derived document
/// yields.
pub open spec fn spec_mapping_from_document(doc: &RawDocument) -> Result<
    UnresolvedMappingModel,
    Seq<char>,
> {
    if doc.spec_get_object("mapping"@) is None {
        Err("mapping"@)
    } else {
        let m = doc.spec_get_object("mapping"@)->0;
        if m.spec_get_str("apiVersion"@) is None {
            Err("mapping.apiVersion"@)
        } else if spec_parse_version(m.spec_get_str("apiVersion"@)->0) is None {
            Err("mapping.apiVersion"@)
        } else if m.spec_get_str("file"@) is None {
            Err("mapping.file"@)
        } else if m.spec_get_str("handler"@) is None {
            Err("mapping.handler"@)
        } else {
            Ok(
                UnresolvedMappingModel {
                    api_version: spec_parse_version(m.spec_get_str("apiVersion"@)->0)->0,
                    file: m.spec_get_str("file"@)->0,
                    handler: m.spec_get_str("handler"@)->0,
                },
            )
        }
    }
}

/// What reading the `source` object of a subgraph-derived document
/// yields: the deployment address, and a start block that must fit a
/// block number and defaults to zero.
pub open spec fn spec_source_from_document(doc: &RawDocument) -> Result<SourceModel, Seq<char>> {
    if doc.spec_get_object("source"@) is None {
        Err("source"@)
    } else {
        let s = doc.spec_get_object("source"@)->0;
        if s.spec_get_str("address"@) is None {
            Err("source.address"@)
        } else {
            match s.spec_get("startBlock"@) {
                Some(v) => match v {
                    crate::document::RawValue::Int(n) => if i32::MIN <= n <= i32::MAX {
                        Ok(
                            SourceModel {
                                address: s.spec_get_str("address"@)->0,
                                start_block: n as i32,
                            },
                        )
                    } else {
                        Err("source.startBlock"@)
                    },
                    _ => Err("source.startBlock"@),
                },
                None => Ok(SourceModel { address: s.spec_get_str("address"@)->0, start_block: 0 }),
            }
        }
    }
}

/// What reading a subgraph-derived document yields: the model of the
/// parsed value, or the first offending field in reading order.
pub open spec fn spec_from_document(doc: &RawDocument) -> Result<UnresolvedDsModel, Seq<char>> {
    if doc.spec_get_str("kind"@) is None {
        Err("kind"@)
    } else if doc.spec_get_str("name"@) is None {
        Err("name"@)
    } else {
        match spec_source_from_document(doc) {
            Err(f) => Err(f),
            Ok(source) => match spec_mapping_from_document(doc) {
                Err(f) => Err(f),
                Ok(mapping) => Ok(
                    UnresolvedDsModel {
                        kind: doc.spec_get_str("kind"@)->0,
                        name: doc.spec_get_str("name"@)->0,
                        source,
                        mapping,
                    },
                ),
            },
        }
    }
}

/// Builds the variant error for one offending subgraph-derived field.
fn variant_error(field: &str) -> (r: DeserializationError)
    ensures
        r matches DeserializationError::Variant { variant, field: f } && variant@ == "subgraph"@
            && f@ == field@,
{
    DeserializationError::Variant { variant: "subgraph".to_owned(), field: field.to_owned() }
}

/// Reads the `mapping` object of a subgraph-derived document.
fn mapping_from_document(doc: &RawDocument) -> (r: Result<UnresolvedMapping, String>)
    ensures
        match (r, spec_mapping_from_document(doc)) {
            (Ok(m), Ok(model)) => m.model() == model,
            (Err(f), Err(field)) => f@ == field,
            _ => false,
        },
{
    let m = match doc.get_object("mapping") {
        Some(m) => m,
        None => {
            return Err("mapping".to_owned());
        },
    };
    let api_version_text = match m.get_str("apiVersion") {
        Some(s) => s,
        None => {
            return Err("mapping.apiVersion".to_owned());
        },
    };
    let api_version = match Version::parse(api_version_text.as_str()) {
        Some(v) => v,
        None => {
            return Err("mapping.apiVersion".to_owned());
        },
    };
    let file = match m.get_str("file") {
        Some(s) => s.clone(),
        None => {
            return Err("mapping.file".to_owned());
        },
    };
    let handler = match m.get_str("handler") {
        Some(s) => s.clone(),
        None => {
            return Err("mapping.handler".to_owned());
        },
    };
    Ok(UnresolvedMapping { api_version, file: Link { link: file }, handler })
}

/// Reads the `source` object of a subgraph-derived document.
fn source_from_document(doc: &RawDocument) -> (r: Result<Source, String>)
    ensures
        match (r, spec_source_from_document(doc)) {
            (Ok(s), Ok(model)) => s.model() == model,
            (Err(f), Err(field)) => f@ == field,
            _ => false,
        },
{
    let s = match doc.get_object("source") {
        Some(s) => s,
        None => {
            return Err("source".to_owned());
        },
    };
    let address = match s.get_str("address") {
        Some(a) => a.clone(),
        None => {
            return Err("source.address".to_owned());
        },
    };
    let start_block: BlockNumber = match s.get("startBlock") {
        Some(v) => match v {
            crate::document::RawValue::Int(n) => {
                if *n < i32::MIN as i64 || *n > i32::MAX as i64 {
                    return Err("source.startBlock".to_owned());
                }
                *n as i32
            },
            _ => {
                return Err("source.startBlock".to_owned());
            },
        },
        None => 0,
    };
    Ok(Source { address, start_block })
}

impl UnresolvedDataSource {
    /// The unresolved source as plain values.
    pub open spec fn model(&self) -> UnresolvedDsModel {
        UnresolvedDsModel {
            kind: self.kind@,
            name: self.name@,
            source: self.source.model(),
            mapping: self.mapping.model(),
        }
    }

    /// Reads an unresolved subgraph-derived data source from a manifest
    /// document whose `kind` was the reserved subgraph discriminator.
    pub fn from_document(doc: &RawDocument) -> (r: Result<UnresolvedDataSource, DeserializationError>)
        ensures
            match (r, spec_from_document(doc)) {
                (Ok(u), Ok(model)) => u.model() == model,
                (Err(e), Err(field)) => e matches DeserializationError::Variant { variant, field: f }
                    && variant@ == "subgraph"@ && f@ == field,
                _ => false,
            },
    {
        let kind = match doc.get_str("kind") {
            Some(s) => s.clone(),
            None => {
                return Err(variant_error("kind"));
            },
        };
        let name = match doc.get_str("name") {
            Some(s) => s.clone(),
            None => {
                return Err(variant_error("name"));
            },
        };
        let source = match source_from_document(doc) {
            Ok(s) => s,
            Err(f) => {
                return Err(DeserializationError::Variant { variant: "subgraph".to_owned(), field: f });
            },
        };
        let mapping = match mapping_from_document(doc) {
            Ok(m) => m,
            Err(f) => {
                return Err(DeserializationError::Variant { variant: "subgraph".to_owned(), field: f });
            },
        };
        Ok(UnresolvedDataSource { kind, name, source, mapping })
    }

    /// The model of the data source this unresolved one resolves to,
    /// given its fetched runtime bytecode.
    pub open spec fn spec_resolved(&self, runtime: Seq<u8>) -> DsModel {
        DsModel {
            kind: self.kind@,
            name: self.name@,
            source: self.source.model(),
            context: None,
            creation_block: None,
            mapping: MappingModel {
                api_version: self.mapping.api_version,
                runtime,
                handler: self.mapping.handler@,
            },
        }
    }

    /// Turns an unresolved subgraph-derived data source into a live
    /// one, given its fetched runtime bytecode.
    pub fn resolve(self, runtime: Vec<u8>) -> (r: DataSource)
        ensures
            r.model() == self.spec_resolved(runtime@),
    {
        let UnresolvedDataSource { kind, name, source, mapping } = self;
        let UnresolvedMapping { api_version, file: _, handler } = mapping;
        DataSource {
            kind,
            name,
            source,
            context: None,
            creation_block: None,
            mapping: Mapping { api_version, runtime: Arc::new(runtime), handler },
        }
    }
}

/// What a subgraph-derived template looks like, as plain values.
pub struct TemplateModel {
    pub kind: Seq<char>,
    pub name: Seq<char>,
    pub manifest_idx: u32,
    pub mapping: MappingModel,
}

/// A blueprint for instantiating subgraph-derived data sources at
/// runtime.
#[derive(Debug)]
pub struct DataSourceTemplate {
    pub kind: String,
    pub name: String,
    pub manifest_idx: u32,
    pub mapping: Mapping,
}

impl DataSourceTemplate {
    /// The template as plain values.
    pub open spec fn model(&self) -> TemplateModel {
        TemplateModel {
            kind: self.kind@,
            name: self.name@,
            manifest_idx: self.manifest_idx,
            mapping: self.mapping.model(),
        }
    }
}

impl Clone for DataSourceTemplate {
    fn clone(&self) -> (r: Self)
        ensures
            r.model() == self.model(),
    {
        DataSourceTemplate {
            kind: self.kind.clone(),
            name: self.name.clone(),
            manifest_idx: self.manifest_idx,
            mapping: self.mapping.clone(),
        }
    }
}

/// What an unresolved subgraph-derived template looks like, as plain
/// values.
pub struct UnresolvedTemplateModel {
    pub kind: Seq<char>,
    pub name: Seq<char>,
    pub mapping: UnresolvedMappingModel,
}

/// A subgraph-derived template before resolution.
#[derive(Debug)]
pub struct UnresolvedDataSourceTemplate {
    pub kind: String,
    pub name: String,
    pub mapping: UnresolvedMapping,
}

/// What reading a subgraph-derived template document yields.
pub open spec fn spec_template_from_document(doc: &RawDocument) -> Result<
    UnresolvedTemplateModel,
    Seq<char>,
> {
    if doc.spec_get_str("kind"@) is None {
        Err("kind"@)
    } else if doc.spec_get_str("name"@) is None {
        Err("name"@)
    } else {
        match spec_mapping_from_document(doc) {
            Err(f) => Err(f),
            Ok(mapping) => Ok(
                UnresolvedTemplateModel {
                    kind: doc.spec_get_str("kind"@)->0,
                    name: doc.spec_get_str("name"@)->0,
                    mapping,
                },
            ),
        }
    }
}

impl UnresolvedDataSourceTemplate {
    /// The unresolved template as plain values.
    pub open spec fn model(&self) -> UnresolvedTemplateModel {
        UnresolvedTemplateModel {
            kind: self.kind@,
            name: self.name@,
            mapping: self.mapping.model(),
        }
    }

    /// Reads an unresolved subgraph-derived template from a manifest
    /// document whose `kind` was the reserved subgraph discriminator.
    pub fn from_document(doc: &RawDocument) -> (r: Result<
        UnresolvedDataSourceTemplate,
        DeserializationError,
    >)
        ensures
            match (r, spec_template_from_document(doc)) {
                (Ok(t), Ok(model)) => t.model() == model,
                (Err(e), Err(field)) => e matches DeserializationError::Variant { variant, field: f }
                    && variant@ == "subgraph"@ && f@ == field,
                _ => false,
            },
    {
        let kind = match doc.get_str("kind") {
            Some(s) => s.clone(),
            None => {
                return Err(variant_error("kind"));
            },
        };
        let name = match doc.get_str("name") {
            Some(s) => s.clone(),
            None => {
                return Err(variant_error("name"));
            },
        };
        let mapping = match mapping_from_document(doc) {
            Ok(m) => m,
            Err(f) => {
                return Err(DeserializationError::Variant { variant: "subgraph".to_owned(), field: f });
            },
        };
        Ok(UnresolvedDataSourceTemplate { kind, name, mapping })
    }

    /// The model of the template this unresolved one resolves to,
    /// given its fetched runtime bytecode and stable manifest index.
    pub open spec fn spec_resolved(&self, runtime: Seq<u8>, manifest_idx: u32) -> TemplateModel {
        TemplateModel {
            kind: self.kind@,
            name: self.name@,
            manifest_idx,
            mapping: MappingModel {
                api_version: self.mapping.api_version,
                runtime,
                handler: self.mapping.handler@,
            },
        }
    }

    /// Turns an unresolved template into a live one, given the fetched
    /// runtime bytecode and its stable manifest index.
    pub fn resolve(self, runtime: Vec<u8>, manifest_idx: u32) -> (r: DataSourceTemplate)
        ensures
            r.model() == self.spec_resolved(runtime@, manifest_idx),
    {
        let UnresolvedDataSourceTemplate { kind, name, mapping } = self;
        let UnresolvedMapping { api_version, file: _, handler } = mapping;
        DataSourceTemplate {
            kind,
            name,
            manifest_idx,
            mapping: Mapping { api_version, runtime: Arc::new(runtime), handler },
        }
    }
}

impl Clone for UnresolvedDataSourceTemplate {
    fn clone(&self) -> (r: Self)
        ensures
            r.model() == self.model(),
    {
        UnresolvedDataSourceTemplate {
            kind: self.kind.clone(),
            name: self.name.clone(),
            mapping: self.mapping.clone(),
        }
    }
}

} // verus!
