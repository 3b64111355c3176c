//! A small in-tree chain backend. It stands in for a real chain in
//! tests and shows that the `Blockchain` capability's contracts can be
//! met: data sources filter triggers by an optional address, templates
//! resolve by installing fetched runtime bytecode, and stored snapshots
//! round-trip.

use crate::causality_region::CausalityRegion;
use crate::chain::{Blockchain, OnchainDsModel, OnchainTemplateModel};
use crate::common::{
    arc_borrow, arc_clone, bytes_eq, clone_bytes, clone_bytes_opt, clone_context_opt, str_eq,
    BlockNumber, BlockPtr, BlockTime, DataSourceContext, Link, StoredDynamicDataSource,
};
use crate::document::{DeserializationError, RawDocument};
use crate::trigger::{MatchOutcome, TriggerError, TriggerWithHandler};
use crate::version::{spec_parse_version, Version};
use std::sync::Arc;
use vstd::prelude::*;

verus! {

/// The mock chain: one address-filtered data source kind under the
/// canonical kind name `ethereum/contract` with the alias `ethereum`.
pub struct MockChain;

/// A live mock data source: filters triggers by address, with an
/// optional end block after which it expires.
#[derive(Debug)]
pub struct MockDataSource {
    pub kind: String,
    pub name: String,
    pub network: Option<String>,
    /// The contract address to filter on; `None` matches every trigger.
    pub address: Option<Vec<u8>>,
    pub start_block: BlockNumber,
    pub end_block: Option<BlockNumber>,
    pub creation_block: Option<BlockNumber>,
    pub context: Option<DataSourceContext>,
    pub manifest_idx: u32,
    pub api_version: Version,
    pub runtime: Arc<Vec<u8>>,
    /// The handler invoked for every matched trigger.
    pub handler: String,
}

/// A live mock template.
#[derive(Debug)]
pub struct MockTemplate {
    pub kind: String,
    pub name: String,
    pub manifest_idx: u32,
    pub api_version: Version,
    pub runtime: Arc<Vec<u8>>,
    pub handler: String,
}

/// A mock data source before resolution.
#[derive(Debug)]
pub struct MockUnresolvedDataSource {
    pub kind: String,
    pub name: String,
    pub address: Option<Vec<u8>>,
    pub start_block: BlockNumber,
    pub end_block: Option<BlockNumber>,
    pub api_version: Version,
    pub runtime_link: Link,
    pub handler: String,
}

/// A mock template before resolution.
#[derive(Debug)]
pub struct MockUnresolvedTemplate {
    pub kind: String,
    pub name: String,
    pub api_version: Version,
    pub runtime_link: Link,
    pub handler: String,
}

/// What an unresolved mock data source looks like, as plain values.
pub struct MockUdsModel {
    pub kind: Seq<char>,
    pub name: Seq<char>,
    pub address: Option<Seq<u8>>,
    pub start_block: BlockNumber,
    pub end_block: Option<BlockNumber>,
    pub api_version: Version,
    pub runtime_link: Seq<char>,
    pub handler: Seq<char>,
}

impl MockUnresolvedDataSource {
    /// The unresolved source as plain values.
    pub open spec fn model(&self) -> MockUdsModel {
        MockUdsModel {
            kind: self.kind@,
            name: self.name@,
            address: match self.address {
                Some(a) => Some(a@),
                None => None,
            },
            start_block: self.start_block,
            end_block: self.end_block,
            api_version: self.api_version,
            runtime_link: self.runtime_link.model(),
            handler: self.handler@,
        }
    }
}

/// What an unresolved mock template looks like, as plain values.
pub struct MockUtplModel {
    pub kind: Seq<char>,
    pub name: Seq<char>,
    pub api_version: Version,
    pub runtime_link: Seq<char>,
    pub handler: Seq<char>,
}

impl MockUnresolvedTemplate {
    /// The unresolved template as plain values.
    pub open spec fn model(&self) -> MockUtplModel {
        MockUtplModel {
            kind: self.kind@,
            name: self.name@,
            api_version: self.api_version,
            runtime_link: self.runtime_link.model(),
            handler: self.handler@,
        }
    }
}

/// One mock block.
#[derive(Debug)]
pub struct MockBlock {
    pub hash: Vec<u8>,
    pub number: BlockNumber,
    pub timestamp: BlockTime,
}

/// A raw mock event: the address it touched and an opaque payload.
#[derive(Debug)]
pub struct MockTriggerData {
    pub address: Arc<Vec<u8>>,
    pub payload: u64,
}

impl Clone for MockTriggerData {
    fn clone(&self) -> (r: Self)
        ensures
            r == *self,
    {
        MockTriggerData { address: arc_clone(&self.address), payload: self.payload }
    }
}

/// A decoded mock event.
#[derive(Debug)]
pub struct MockMappingTrigger {
    pub address: Arc<Vec<u8>>,
    pub payload: u64,
}

impl Clone for MockMappingTrigger {
    fn clone(&self) -> (r: Self)
        ensures
            r == *self,
    {
        MockMappingTrigger { address: arc_clone(&self.address), payload: self.payload }
    }
}

/// Whether a mock data source's filter accepts a trigger: an absent
/// address accepts everything, a declared one accepts its own events.
pub open spec fn spec_mock_accepts(ds: &MockDataSource, t: &MockTriggerData) -> bool {
    match ds.address {
        Some(a) => a@ == t.address@,
        None => true,
    }
}

/// Builds the variant error for one offending mock document field.
fn variant_error(field: &str) -> (r: DeserializationError)
    ensures
        r matches DeserializationError::Variant { variant, field: f } && variant@ == "mock"@ && f@
            == field@,
{
    DeserializationError::Variant { variant: "mock".to_owned(), field: field.to_owned() }
}

/// An optional block number field: absent is fine (`Some(None)`), an
/// in-range integer is its value, anything else is a field error
/// (`None`).
pub open spec fn spec_optional_block_field(doc: &RawDocument, name: Seq<char>) -> Option<
    Option<BlockNumber>,
> {
    match doc.spec_get(name) {
        None => Some(None),
        Some(crate::document::RawValue::Int(n)) => if i32::MIN <= n <= i32::MAX {
            Some(Some(n as i32))
        } else {
            None
        },
        Some(_) => None,
    }
}

/// Reads an optional block number field.
fn optional_block_field(doc: &RawDocument, name: &str) -> (r: Option<Option<BlockNumber>>)
    ensures
        r == spec_optional_block_field(doc, name@),
{
    match doc.get(name) {
        None => Some(None),
        Some(crate::document::RawValue::Int(n)) => {
            if *n < i32::MIN as i64 || *n > i32::MAX as i64 {
                None
            } else {
                Some(Some(*n as i32))
            }
        },
        Some(_) => None,
    }
}

/// What reading the `mapping` object of a mock chain document yields:
/// the api version, the runtime link, and the handler name, or the
/// first offending field.
pub open spec fn spec_mock_mapping(doc: &RawDocument) -> Result<
    (Version, Seq<char>, Seq<char>),
    Seq<char>,
> {
    if doc.spec_get_object("mapping"@) is None {
        Err("mapping"@)
    } else {
        let m = doc.spec_get_object("mapping"@)->0;
        if m.spec_get_str("apiVersion"@) is None {
            Err("mapping.apiVersion"@)
        } else if spec_parse_version(m.spec_get_str("apiVersion"@)->0) is None {
            Err("mapping.apiVersion"@)
        } else if m.spec_get_str("file"@) is None {
            Err("mapping.file"@)
        } else if m.spec_get_str("handler"@) is None {
            Err("mapping.handler"@)
        } else {
            Ok(
                (
                    spec_parse_version(m.spec_get_str("apiVersion"@)->0)->0,
                    m.spec_get_str("file"@)->0,
                    m.spec_get_str("handler"@)->0,
                ),
            )
        }
    }
}

/// What reading a mock chain data source document yields: the model of
/// the parsed value, or the first offending field in reading order.
pub open spec fn spec_uds_from_document(doc: &RawDocument) -> Result<MockUdsModel, Seq<char>> {
    if doc.spec_get_str("kind"@) is None {
        Err("kind"@)
    } else if doc.spec_get_str("name"@) is None {
        Err("name"@)
    } else if doc.spec_get_object("source"@) is None {
        Err("source"@)
    } else {
        let src = doc.spec_get_object("source"@)->0;
        if spec_optional_block_field(&src, "startBlock"@) is None {
            Err("source.startBlock"@)
        } else if spec_optional_block_field(&src, "endBlock"@) is None {
            Err("source.endBlock"@)
        } else {
            match spec_mock_mapping(doc) {
                Err(f) => Err(f),
                Ok((api_version, file, handler)) => Ok(
                    MockUdsModel {
                        kind: doc.spec_get_str("kind"@)->0,
                        name: doc.spec_get_str("name"@)->0,
                        address: match src.spec_get_str("address"@) {
                            Some(a) => Some(vstd::utf8::encode_utf8(a)),
                            None => None,
                        },
                        start_block: match spec_optional_block_field(&src, "startBlock"@)->0 {
                            Some(n) => n,
                            None => 0,
                        },
                        end_block: spec_optional_block_field(&src, "endBlock"@)->0,
                        api_version,
                        runtime_link: file,
                        handler,
                    },
                ),
            }
        }
    }
}

/// What reading a mock chain template document yields.
pub open spec fn spec_utpl_from_document(doc: &RawDocument) -> Result<MockUtplModel, Seq<char>> {
    if doc.spec_get_str("kind"@) is None {
        Err("kind"@)
    } else if doc.spec_get_str("name"@) is None {
        Err("name"@)
    } else {
        match spec_mock_mapping(doc) {
            Err(f) => Err(f),
            Ok((api_version, file, handler)) => Ok(
                MockUtplModel {
                    kind: doc.spec_get_str("kind"@)->0,
                    name: doc.spec_get_str("name"@)->0,
                    api_version,
                    runtime_link: file,
                    handler,
                },
            ),
        }
    }
}

/// Reads the `mapping` object of a mock chain document.
fn mock_mapping_from_document(doc: &RawDocument) -> (r: Result<(Version, String, String), String>)
    ensures
        match (r, spec_mock_mapping(doc)) {
            (Ok((v, f, h)), Ok(m)) => v == m.0 && f@ == m.1 && h@ == m.2,
            (Err(f), Err(field)) => f@ == field,
            _ => false,
        },
{
    let m = match doc.get_object("mapping") {
        Some(m) => m,
        None => {
            return Err("mapping".to_owned());
        },
    };
    let api_version = match m.get_str("apiVersion") {
        Some(s) => match Version::parse(s.as_str()) {
            Some(v) => v,
            None => {
                return Err("mapping.apiVersion".to_owned());
            },
        },
        None => {
            return Err("mapping.apiVersion".to_owned());
        },
    };
    let file = match m.get_str("file") {
        Some(s) => s.clone(),
        None => {
            return Err("mapping.file".to_owned());
        },
    };
    let handler = match m.get_str("handler") {
        Some(s) => s.clone(),
        None => {
            return Err("mapping.handler".to_owned());
        },
    };
    Ok((api_version, file, handler))
}

impl Blockchain for MockChain {
    type DataSource = MockDataSource;

    type UnresolvedDataSource = MockUnresolvedDataSource;

    type DataSourceTemplate = MockTemplate;

    type UnresolvedDataSourceTemplate = MockUnresolvedTemplate;

    type Block = MockBlock;

    type TriggerData = MockTriggerData;

    type MappingTrigger = MockMappingTrigger;

    open spec fn spec_kind() -> Seq<char> {
        "ethereum/contract"@
    }

    open spec fn spec_aliases() -> Seq<Seq<char>> {
        seq!["ethereum"@]
    }

    fn kind_name() -> (r: String) {
        "ethereum/contract".to_owned()
    }

    fn kind_matches(kind: &str) -> (r: bool) {
        let r = str_eq(kind, "ethereum/contract") || str_eq(kind, "ethereum");
        proof {
            assert(Self::spec_aliases()[0] == "ethereum"@);
            if Self::spec_aliases().contains(kind@) {
                let i = choose|i: int|
                    0 <= i < Self::spec_aliases().len() && Self::spec_aliases()[i] == kind@;
                assert(i == 0);
            }
        }
        r
    }

    open spec fn ds_model(ds: &MockDataSource) -> OnchainDsModel {
        OnchainDsModel {
            kind: ds.kind@,
            name: ds.name@,
            network: match ds.network {
                Some(n) => Some(n@),
                None => None,
            },
            address: match ds.address {
                Some(a) => Some(a@),
                None => None,
            },
            start_block: ds.start_block,
            end_block: ds.end_block,
            creation_block: ds.creation_block,
            api_version: ds.api_version,
            min_spec_version: Version { major: 0, minor: 0, patch: 4 },
            runtime: Some(ds.runtime@),
            context: match ds.context {
                Some(c) => Some(c.model()),
                None => None,
            },
            handler_kinds: seq!["block"@],
            has_declared_calls: false,
        }
    }

    open spec fn ds_expired(ds: &MockDataSource, block: BlockNumber) -> bool {
        match ds.end_block {
            Some(end) => block > end,
            None => false,
        }
    }

    open spec fn ds_match_result(
        ds: &MockDataSource,
        trigger: &MockTriggerData,
        block: &MockBlock,
    ) -> Result<Option<MatchOutcome<MockMappingTrigger>>, Seq<char>> {
        if spec_mock_accepts(ds, trigger) {
            Ok(
                Some(
                    (MatchOutcome {
                        trigger: MockMappingTrigger {
                            address: trigger.address,
                            payload: trigger.payload,
                        },
                        handler: ds.handler@,
                        block_hash: block.hash@,
                        block_number: block.number,
                        timestamp: block.timestamp,
                        extras: Seq::<(Seq<char>, Seq<char>)>::empty(),
                    }),
                ),
            )
        } else {
            Ok(None)
        }
    }

    open spec fn ds_duplicate_spec(a: &MockDataSource, b: &MockDataSource) -> bool {
        &&& Self::ds_model(a).address == Self::ds_model(b).address
        &&& a.start_block == b.start_block
        &&& a.manifest_idx == b.manifest_idx
    }

    open spec fn ds_stored_model(ds: &MockDataSource) -> (
        u32,
        Option<Seq<u8>>,
        Option<Seq<(Seq<char>, Seq<char>)>>,
        Option<BlockNumber>,
        CausalityRegion,
    ) {
        (
            ds.manifest_idx,
            Self::ds_model(ds).address,
            Self::ds_model(ds).context,
            ds.creation_block,
            CausalityRegion::spec_onchain(),
        )
    }

    open spec fn ds_restorable(template: &MockTemplate, stored: &StoredDynamicDataSource) -> bool {
        &&& stored.manifest_idx == template.manifest_idx
        &&& stored.causality_region.is_onchain()
    }

    open spec fn ds_restored_model(
        template: &MockTemplate,
        stored: &StoredDynamicDataSource,
    ) -> OnchainDsModel {
        OnchainDsModel {
            kind: template.kind@,
            name: template.name@,
            network: None,
            address: stored.model().1,
            start_block: 0,
            end_block: None,
            creation_block: stored.creation_block,
            api_version: template.api_version,
            min_spec_version: Version { major: 0, minor: 0, patch: 4 },
            runtime: Some(template.runtime@),
            context: stored.model().2,
            handler_kinds: seq!["block"@],
            has_declared_calls: false,
        }
    }

    open spec fn ds_validate_spec(ds: &MockDataSource, spec_version: Version) -> Seq<Seq<char>> {
        Seq::<Seq<char>>::empty()
    }

    fn ds_name(ds: &MockDataSource) -> (r: &str) {
        ds.name.as_str()
    }

    fn ds_kind(ds: &MockDataSource) -> (r: String) {
        ds.kind.clone()
    }

    fn ds_network(ds: &MockDataSource) -> (r: Option<String>) {
        match &ds.network {
            Some(n) => Some(n.clone()),
            None => None,
        }
    }

    fn ds_address(ds: &MockDataSource) -> (r: Option<Vec<u8>>) {
        clone_bytes_opt(&ds.address)
    }

    fn ds_start_block(ds: &MockDataSource) -> (r: BlockNumber) {
        ds.start_block
    }

    fn ds_end_block(ds: &MockDataSource) -> (r: Option<BlockNumber>) {
        ds.end_block
    }

    fn ds_creation_block(ds: &MockDataSource) -> (r: Option<BlockNumber>) {
        ds.creation_block
    }

    fn ds_api_version(ds: &MockDataSource) -> (r: Version) {
        ds.api_version
    }

    fn ds_min_spec_version(ds: &MockDataSource) -> (r: Version) {
        Version::new(0, 0, 4)
    }

    fn ds_runtime(ds: &MockDataSource) -> (r: Option<Arc<Vec<u8>>>) {
        Some(arc_clone(&ds.runtime))
    }

    fn ds_context(ds: &MockDataSource) -> (r: Option<DataSourceContext>) {
        clone_context_opt(&ds.context)
    }

    fn ds_handler_kinds(ds: &MockDataSource) -> (r: Vec<String>) {
        let mut v: Vec<String> = Vec::new();
        v.push("block".to_owned());
        proof {
            assert(v.deep_view() =~= Self::ds_model(ds).handler_kinds);
        }
        v
    }

    fn ds_has_declared_calls(ds: &MockDataSource) -> (r: bool) {
        false
    }

    fn ds_has_expired(ds: &MockDataSource, block: BlockNumber) -> (r: bool) {
        match ds.end_block {
            Some(end) => block > end,
            None => false,
        }
    }

    fn ds_match_and_decode(ds: &MockDataSource, trigger: &MockTriggerData, block: &MockBlock) -> (r:
        Result<Option<TriggerWithHandler<MockMappingTrigger>>, TriggerError>)
    {
        let accepts = match &ds.address {
            Some(a) => bytes_eq(a, arc_borrow(&trigger.address)),
            None => true,
        };
        if accepts {
            Ok(
                Some(
                    TriggerWithHandler::new(
                        MockMappingTrigger {
                            address: arc_clone(&trigger.address),
                            payload: trigger.payload,
                        },
                        ds.handler.clone(),
                        BlockPtr { hash: clone_bytes(&block.hash), number: block.number },
                        block.timestamp,
                    ),
                ),
            )
        } else {
            Ok(None)
        }
    }

    fn ds_is_duplicate_of(a: &MockDataSource, b: &MockDataSource) -> (r: bool) {
        let addr_eq = match (&a.address, &b.address) {
            (Some(x), Some(y)) => bytes_eq(x, y),
            (None, None) => true,
            _ => false,
        };
        addr_eq && a.start_block == b.start_block && a.manifest_idx == b.manifest_idx
    }

    fn ds_as_stored(ds: &MockDataSource) -> (r: StoredDynamicDataSource) {
        StoredDynamicDataSource {
            manifest_idx: ds.manifest_idx,
            param: clone_bytes_opt(&ds.address),
            context: clone_context_opt(&ds.context),
            creation_block: ds.creation_block,
            causality_region: CausalityRegion::onchain(),
        }
    }

    fn ds_from_stored(template: &MockTemplate, stored: StoredDynamicDataSource) -> (r: Result<
        MockDataSource,
        String,
    >) {
        let StoredDynamicDataSource { manifest_idx, param, context, creation_block, causality_region } =
            stored;
        if manifest_idx != template.manifest_idx {
            return Err("stored record does not belong to this template".to_owned());
        }
        if causality_region.id() != crate::causality_region::ONCHAIN_REGION_ID {
            return Err("chain-native stored record carries an offchain causality region".to_owned());
        }
        Ok(
            MockDataSource {
                kind: template.kind.clone(),
                name: template.name.clone(),
                network: None,
                address: param,
                start_block: 0,
                end_block: None,
                creation_block,
                context,
                manifest_idx,
                api_version: template.api_version,
                runtime: arc_clone(&template.runtime),
                handler: template.handler.clone(),
            },
        )
    }

    fn ds_validate(ds: &MockDataSource, spec_version: &Version) -> (r: Vec<String>) {
        let v: Vec<String> = Vec::new();
        proof {
            assert(v.deep_view() =~= Seq::<Seq<char>>::empty());
        }
        v
    }

    fn ds_clone(ds: &MockDataSource) -> (r: MockDataSource) {
        MockDataSource {
            kind: ds.kind.clone(),
            name: ds.name.clone(),
            network: match &ds.network {
                Some(n) => Some(n.clone()),
                None => None,
            },
            address: clone_bytes_opt(&ds.address),
            start_block: ds.start_block,
            end_block: ds.end_block,
            creation_block: ds.creation_block,
            context: clone_context_opt(&ds.context),
            manifest_idx: ds.manifest_idx,
            api_version: ds.api_version,
            runtime: arc_clone(&ds.runtime),
            handler: ds.handler.clone(),
        }
    }

    open spec fn uds_resolvable(u: &MockUnresolvedDataSource) -> bool {
        true
    }

    open spec fn uds_resolved_model(
        u: &MockUnresolvedDataSource,
        runtime: Seq<u8>,
        manifest_idx: u32,
    ) -> OnchainDsModel {
        OnchainDsModel {
            kind: u.kind@,
            name: u.name@,
            network: None,
            address: match u.address {
                Some(a) => Some(a@),
                None => None,
            },
            start_block: u.start_block,
            end_block: u.end_block,
            creation_block: None,
            api_version: u.api_version,
            min_spec_version: Version { major: 0, minor: 0, patch: 4 },
            runtime: Some(runtime),
            context: None,
            handler_kinds: seq!["block"@],
            has_declared_calls: false,
        }
    }

    fn uds_from_document(doc: &RawDocument) -> (r: Result<
        MockUnresolvedDataSource,
        DeserializationError,
    >)
        ensures
            match (r, spec_uds_from_document(doc)) {
                (Ok(u), Ok(m)) => u.model() == m,
                (Err(DeserializationError::Variant { variant, field }), Err(f)) => variant@
                    == "mock"@ && field@ == f,
                _ => false,
            },
    {
        let kind = match doc.get_str("kind") {
            Some(s) => s.clone(),
            None => {
                return Err(variant_error("kind"));
            },
        };
        let name = match doc.get_str("name") {
            Some(s) => s.clone(),
            None => {
                return Err(variant_error("name"));
            },
        };
        let source = match doc.get_object("source") {
            Some(d) => d,
            None => {
                return Err(variant_error("source"));
            },
        };
        let address = match source.get_str("address") {
            Some(a) => Some(a.as_str().as_bytes_vec()),
            None => None,
        };
        let start_block = match optional_block_field(source, "startBlock") {
            Some(Some(n)) => n,
            Some(None) => 0,
            None => {
                return Err(variant_error("source.startBlock"));
            },
        };
        let end_block = match optional_block_field(source, "endBlock") {
            Some(e) => e,
            None => {
                return Err(variant_error("source.endBlock"));
            },
        };
        let (api_version, file, handler) = match mock_mapping_from_document(doc) {
            Ok(parts) => parts,
            Err(f) => {
                return Err(DeserializationError::Variant { variant: "mock".to_owned(), field: f });
            },
        };
        Ok(
            MockUnresolvedDataSource {
                kind,
                name,
                address,
                start_block,
                end_block,
                api_version,
                runtime_link: Link { link: file },
                handler,
            },
        )
    }

    fn uds_runtime_link(u: &MockUnresolvedDataSource) -> (r: String) {
        u.runtime_link.link.clone()
    }

    fn uds_resolve(u: MockUnresolvedDataSource, runtime: Vec<u8>, manifest_idx: u32) -> (r: Result<
        MockDataSource,
        String,
    >) {
        let MockUnresolvedDataSource {
            kind,
            name,
            address,
            start_block,
            end_block,
            api_version,
            runtime_link: _,
            handler,
        } = u;
        Ok(
            MockDataSource {
                kind,
                name,
                network: None,
                address,
                start_block,
                end_block,
                creation_block: None,
                context: None,
                manifest_idx,
                api_version,
                runtime: Arc::new(runtime),
                handler,
            },
        )
    }

    open spec fn template_model(t: &MockTemplate) -> OnchainTemplateModel {
        OnchainTemplateModel {
            kind: t.kind@,
            name: t.name@,
            manifest_idx: t.manifest_idx,
            api_version: t.api_version,
            runtime: Some(t.runtime@),
        }
    }

    fn template_name(t: &MockTemplate) -> (r: &str) {
        t.name.as_str()
    }

    fn template_kind(t: &MockTemplate) -> (r: String) {
        t.kind.clone()
    }

    fn template_manifest_idx(t: &MockTemplate) -> (r: u32) {
        t.manifest_idx
    }

    fn template_api_version(t: &MockTemplate) -> (r: Version) {
        t.api_version
    }

    fn template_runtime(t: &MockTemplate) -> (r: Option<Arc<Vec<u8>>>) {
        Some(arc_clone(&t.runtime))
    }

    fn template_clone(t: &MockTemplate) -> (r: MockTemplate) {
        MockTemplate {
            kind: t.kind.clone(),
            name: t.name.clone(),
            manifest_idx: t.manifest_idx,
            api_version: t.api_version,
            runtime: arc_clone(&t.runtime),
            handler: t.handler.clone(),
        }
    }

    open spec fn utpl_model(t: &MockUnresolvedTemplate) -> (Seq<char>, Seq<char>) {
        (t.kind@, t.name@)
    }

    fn utpl_default() -> (r: MockUnresolvedTemplate) {
        MockUnresolvedTemplate {
            kind: "ethereum/contract".to_owned(),
            name: String::new(),
            api_version: Version::new(0, 0, 4),
            runtime_link: Link { link: String::new() },
            handler: String::new(),
        }
    }

    fn utpl_from_document(doc: &RawDocument) -> (r: Result<
        MockUnresolvedTemplate,
        DeserializationError,
    >)
        ensures
            match (r, spec_utpl_from_document(doc)) {
                (Ok(u), Ok(m)) => u.model() == m,
                (Err(DeserializationError::Variant { variant, field }), Err(f)) => variant@
                    == "mock"@ && field@ == f,
                _ => false,
            },
    {
        let kind = match doc.get_str("kind") {
            Some(s) => s.clone(),
            None => {
                return Err(variant_error("kind"));
            },
        };
        let name = match doc.get_str("name") {
            Some(s) => s.clone(),
            None => {
                return Err(variant_error("name"));
            },
        };
        let (api_version, file, handler) = match mock_mapping_from_document(doc) {
            Ok(parts) => parts,
            Err(f) => {
                return Err(DeserializationError::Variant { variant: "mock".to_owned(), field: f });
            },
        };
        Ok(
            MockUnresolvedTemplate {
                kind,
                name,
                api_version,
                runtime_link: Link { link: file },
                handler,
            },
        )
    }

    fn utpl_runtime_link(t: &MockUnresolvedTemplate) -> (r: String) {
        t.runtime_link.link.clone()
    }

    fn utpl_clone(t: &MockUnresolvedTemplate) -> (r: MockUnresolvedTemplate) {
        MockUnresolvedTemplate {
            kind: t.kind.clone(),
            name: t.name.clone(),
            api_version: t.api_version,
            runtime_link: t.runtime_link.clone(),
            handler: t.handler.clone(),
        }
    }

    open spec fn utpl_resolvable(t: &MockUnresolvedTemplate) -> bool {
        true
    }

    open spec fn utpl_resolved_model(
        t: &MockUnresolvedTemplate,
        runtime: Seq<u8>,
        manifest_idx: u32,
    ) -> OnchainTemplateModel {
        OnchainTemplateModel {
            kind: t.kind@,
            name: t.name@,
            manifest_idx,
            api_version: t.api_version,
            runtime: Some(runtime),
        }
    }

    fn utpl_resolve(t: MockUnresolvedTemplate, runtime: Vec<u8>, manifest_idx: u32) -> (r: Result<
        MockTemplate,
        String,
    >) {
        let MockUnresolvedTemplate { kind, name, api_version, runtime_link: _, handler } = t;
        Ok(
            MockTemplate {
                kind,
                name,
                manifest_idx,
                api_version,
                runtime: Arc::new(runtime),
                handler,
            },
        )
    }

    open spec fn block_number_spec(b: &MockBlock) -> BlockNumber {
        b.number
    }

    open spec fn block_ptr_model(b: &MockBlock) -> (Seq<u8>, BlockNumber) {
        (b.hash@, b.number)
    }

    open spec fn block_time_spec(b: &MockBlock) -> BlockTime {
        b.timestamp
    }

    fn block_number(b: &MockBlock) -> (r: BlockNumber) {
        b.number
    }

    fn block_ptr(b: &MockBlock) -> (r: BlockPtr) {
        BlockPtr { hash: clone_bytes(&b.hash), number: b.number }
    }

    fn block_timestamp(b: &MockBlock) -> (r: BlockTime) {
        b.timestamp
    }

    open spec fn trigger_context_spec(t: &MockTriggerData) -> Seq<char> {
        "mock chain trigger"@
    }

    fn trigger_error_context(t: &MockTriggerData) -> (r: String) {
        "mock chain trigger".to_owned()
    }

    open spec fn mt_context_spec(t: &MockMappingTrigger) -> Seq<char> {
        "mock chain trigger"@
    }

    fn mt_error_context(t: &MockMappingTrigger) -> (r: String) {
        "mock chain trigger".to_owned()
    }
}

/// Round-trip persistence for mock chain-native data sources: a source
/// whose identity came from a template and whose chain-level fields
/// carry the instantiation defaults is rebuilt, without loss, from its
/// own stored snapshot against that template.
pub proof fn lemma_mock_stored_round_trip(
    template: &MockTemplate,
    ds: &MockDataSource,
    stored: &StoredDynamicDataSource,
)
    requires
        ds.manifest_idx == template.manifest_idx,
        ds.kind@ == template.kind@,
        ds.name@ == template.name@,
        ds.api_version == template.api_version,
        ds.runtime@ == template.runtime@,
        ds.network is None,
        ds.start_block == 0,
        ds.end_block is None,
        stored.model() == MockChain::ds_stored_model(ds),
    ensures
        MockChain::ds_restorable(template, stored),
        MockChain::ds_restored_model(template, stored) == MockChain::ds_model(ds),
{
}

} // verus!
