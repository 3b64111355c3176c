//! The dynamic data source lifecycle: causality regions, entity access,
//! version parsing, resolution, and the stored round trip.

use data_source::common::{DataSourceContext, EntityType, InputSchema};
use data_source::mock::{MockChain, MockDataSource, MockTemplate, MockUnresolvedDataSource};
use data_source::version::Version;
use data_source::{
    CausalityRegion, CausalityRegionSeq, DataSource, DataSourceTemplate, EntityTypeAccess,
    ResolveError, UnresolvedDataSource,
};
use std::sync::Arc;

type Ds = DataSource<MockChain>;

fn offchain_template() -> data_source::offchain::DataSourceTemplate {
    data_source::offchain::DataSourceTemplate {
        kind: "file/ipfs".to_string(),
        name: "Files".to_string(),
        manifest_idx: 3,
        mapping: data_source::offchain::Mapping {
            api_version: Version::new(0, 0, 7),
            runtime: Arc::new(vec![9, 9]),
            entities: vec![EntityType::new("Price".to_string())],
            handler: "handleFile".to_string(),
        },
    }
}

fn mock_template() -> MockTemplate {
    MockTemplate {
        kind: "ethereum/contract".to_string(),
        name: "PoolFactoryChild".to_string(),
        manifest_idx: 8,
        api_version: Version::new(0, 0, 5),
        runtime: Arc::new(vec![4, 4]),
        handler: "handleBlock".to_string(),
    }
}

#[test]
fn entity_access_any_allows_everything() {
    let any = EntityTypeAccess::Any;
    assert!(any.allows(&EntityType::new("Whatever".to_string())));
    assert!(any.allows(&EntityType::new(String::new())));
    assert_eq!(any.describe(), "Any");
}

#[test]
fn entity_access_restricted_allows_exactly_the_members() {
    let restricted = EntityTypeAccess::Restriced(vec![
        EntityType::new("A".to_string()),
        EntityType::new("B".to_string()),
    ]);
    assert!(restricted.allows(&EntityType::new("A".to_string())));
    assert!(restricted.allows(&EntityType::new("B".to_string())));
    assert!(!restricted.allows(&EntityType::new("C".to_string())));
}

#[test]
fn causality_region_defaults_to_onchain_for_chain_based_sources() {
    let on: Ds = DataSource::Onchain(MockDataSource {
        kind: "ethereum/contract".to_string(),
        name: "Pool".to_string(),
        network: None,
        address: None,
        start_block: 0,
        end_block: None,
        creation_block: None,
        context: None,
        manifest_idx: 0,
        api_version: Version::new(0, 0, 5),
        runtime: Arc::new(vec![]),
        handler: "h".to_string(),
    });
    assert_eq!(on.causality_region(), CausalityRegion::onchain());

    let sub: Ds = DataSource::Subgraph(data_source::subgraph::DataSource {
        kind: "subgraph".to_string(),
        name: "Derived".to_string(),
        source: data_source::subgraph::Source { address: "Qm".to_string(), start_block: 0 },
        context: None,
        creation_block: None,
        mapping: data_source::subgraph::Mapping {
            api_version: Version::new(1, 0, 0),
            runtime: Arc::new(vec![]),
            handler: "h".to_string(),
        },
    });
    assert_eq!(sub.causality_region(), CausalityRegion::onchain());
}

#[test]
fn offchain_instances_draw_distinct_fresh_regions() {
    let template = offchain_template();
    let mut regions = CausalityRegionSeq::new();
    let a = data_source::offchain::DataSource::from_template(
        &template,
        vec![1],
        None,
        10,
        &mut regions,
    );
    let b = data_source::offchain::DataSource::from_template(
        &template,
        vec![2],
        None,
        11,
        &mut regions,
    );
    assert_ne!(a.causality_region, CausalityRegion::onchain());
    assert_ne!(b.causality_region, CausalityRegion::onchain());
    assert_ne!(a.causality_region, b.causality_region);
}

#[test]
fn region_allocation_resumes_after_the_highest_stored() {
    let mut regions = CausalityRegionSeq::from_highest(41);
    let r = regions.next_region();
    assert_eq!(r.id(), 42);
    let mut fresh = CausalityRegionSeq::from_highest(-5);
    assert_eq!(fresh.next_region().id(), 1);
}

#[test]
fn offchain_stored_round_trip_is_lossless() {
    let template = offchain_template();
    let mut regions = CausalityRegionSeq::new();
    let mut ctx = DataSourceContext::new();
    ctx.push("pair".to_string(), "ETH/USD".to_string());
    let ds = data_source::offchain::DataSource::from_template(
        &template,
        vec![0xfe, 0xed],
        Some(ctx),
        123,
        &mut regions,
    );
    let original: Ds = DataSource::Offchain(ds);
    let stored = original.as_stored_dynamic_data_source();
    let rebuilt = DataSource::<MockChain>::from_stored_dynamic_data_source(
        &DataSourceTemplate::Offchain(offchain_template()),
        stored,
    )
    .expect("a snapshot of a live source must rebuild");
    assert_eq!(rebuilt.name(), original.name());
    assert_eq!(rebuilt.address(), original.address());
    assert_eq!(rebuilt.creation_block(), original.creation_block());
    assert_eq!(rebuilt.causality_region(), original.causality_region());
    let (a, b) = (rebuilt.context().unwrap(), original.context().unwrap());
    assert_eq!(a.entries.len(), b.entries.len());
    assert_eq!(a.entries[0].key, b.entries[0].key);
    assert_eq!(a.entries[0].value, b.entries[0].value);
}

#[test]
fn onchain_stored_round_trip_is_lossless() {
    let template = mock_template();
    let ds = MockDataSource {
        kind: "ethereum/contract".to_string(),
        name: "PoolFactoryChild".to_string(),
        network: None,
        address: Some(vec![0x01, 0x02]),
        start_block: 0,
        end_block: None,
        creation_block: Some(77),
        context: None,
        manifest_idx: 8,
        api_version: Version::new(0, 0, 5),
        runtime: Arc::new(vec![4, 4]),
        handler: "handleBlock".to_string(),
    };
    let original: Ds = DataSource::Onchain(ds);
    let stored = original.as_stored_dynamic_data_source();
    assert_eq!(stored.causality_region, CausalityRegion::onchain());
    let rebuilt = DataSource::<MockChain>::from_stored_dynamic_data_source(
        &DataSourceTemplate::Onchain(mock_template()),
        stored,
    )
    .expect("a snapshot of a live source must rebuild");
    assert_eq!(rebuilt.name(), original.name());
    assert_eq!(rebuilt.address(), original.address());
    assert_eq!(rebuilt.creation_block(), original.creation_block());
    assert_eq!(rebuilt.causality_region(), original.causality_region());
    assert!(rebuilt.context().is_none());
}

#[test]
fn mismatched_stored_records_are_rejected() {
    let template = offchain_template();
    let mut regions = CausalityRegionSeq::new();
    let ds = data_source::offchain::DataSource::from_template(
        &template,
        vec![1],
        None,
        5,
        &mut regions,
    );
    let mut stored = ds.as_stored_dynamic_data_source();
    stored.manifest_idx = template.manifest_idx + 1;
    let r = data_source::offchain::DataSource::from_stored_dynamic_data_source(&template, stored);
    assert!(r.is_err());

    let mut stored = ds.as_stored_dynamic_data_source();
    stored.param = None;
    let r = data_source::offchain::DataSource::from_stored_dynamic_data_source(&template, stored);
    assert!(r.is_err());

    let mut stored = ds.as_stored_dynamic_data_source();
    stored.causality_region = CausalityRegion::onchain();
    let r = data_source::offchain::DataSource::from_stored_dynamic_data_source(&template, stored);
    assert!(r.is_err());
}

#[test]
fn resolving_an_offchain_data_source_always_fails() {
    let u: UnresolvedDataSource<MockChain> =
        UnresolvedDataSource::Offchain(data_source::offchain::UnresolvedDataSource {
            kind: "file/ipfs".to_string(),
            name: "Files".to_string(),
            source: data_source::common::Link { link: "/ipfs/QmFile".to_string() },
            mapping: data_source::offchain::UnresolvedMapping {
                api_version: Version::new(0, 0, 7),
                file: data_source::common::Link { link: "/ipfs/QmWasm".to_string() },
                entities: vec![],
                handler: "handleFile".to_string(),
            },
        });
    let r = u.resolve(vec![1, 2, 3], 0);
    assert!(matches!(r, Err(ResolveError::StaticFilesUnsupported)));
}

#[test]
fn resolving_chain_and_subgraph_sources_succeeds() {
    let u: UnresolvedDataSource<MockChain> =
        UnresolvedDataSource::Onchain(MockUnresolvedDataSource {
            kind: "ethereum/contract".to_string(),
            name: "Pool".to_string(),
            address: Some(vec![1]),
            start_block: 5,
            end_block: None,
            api_version: Version::new(0, 0, 5),
            runtime_link: data_source::common::Link { link: "/ipfs/QmWasm".to_string() },
            handler: "handleBlock".to_string(),
        });
    let ds = u.resolve(vec![0xca, 0xfe], 6).expect("chain-native resolution succeeds");
    assert_eq!(ds.name(), "Pool");
    assert_eq!(*ds.runtime().unwrap(), vec![0xca, 0xfe]);

    let u: UnresolvedDataSource<MockChain> =
        UnresolvedDataSource::Subgraph(data_source::subgraph::UnresolvedDataSource {
            kind: "subgraph".to_string(),
            name: "Derived".to_string(),
            source: data_source::subgraph::Source {
                address: "QmDep".to_string(),
                start_block: 2,
            },
            mapping: data_source::subgraph::UnresolvedMapping {
                api_version: Version::new(1, 0, 0),
                file: data_source::common::Link { link: "/ipfs/QmWasm".to_string() },
                handler: "handleEntity".to_string(),
            },
        });
    let ds = u.resolve(vec![5], 7).expect("subgraph-derived resolution succeeds");
    assert_eq!(ds.name(), "Derived");
    assert_eq!(ds.start_block(), Some(2));
    assert_eq!(ds.creation_block(), None);
}

#[test]
fn template_info_flattens_the_template() {
    let t: DataSourceTemplate<MockChain> = DataSourceTemplate::Offchain(offchain_template());
    let info = t.info();
    assert_eq!(info.name, "Files");
    assert_eq!(info.kind, "file/ipfs");
    assert_eq!(info.manifest_idx, Some(3));
    assert_eq!(info.api_version, Version::new(0, 0, 7));
    assert_eq!(*info.runtime.unwrap(), vec![9, 9]);

    let t: DataSourceTemplate<MockChain> = DataSourceTemplate::Onchain(mock_template());
    assert_eq!(t.name(), "PoolFactoryChild");
    assert_eq!(t.kind(), "ethereum/contract");
    assert_eq!(t.manifest_idx(), 8);
    assert!(t.as_onchain().is_some());
    assert!(t.as_offchain().is_none());
    assert!(t.into_onchain().is_some());
}

#[test]
fn validation_reports_no_errors_for_the_fixed_variants() {
    let template = offchain_template();
    let mut regions = CausalityRegionSeq::new();
    let ds: Ds = DataSource::Offchain(data_source::offchain::DataSource::from_template(
        &template,
        vec![1],
        None,
        5,
        &mut regions,
    ));
    assert!(ds.validate(&Version::new(1, 2, 0)).is_empty());
}

#[test]
fn version_parsing_accepts_exactly_the_dotted_triple() {
    assert_eq!(Version::parse("1.2.3"), Some(Version::new(1, 2, 3)));
    assert_eq!(Version::parse("0.0.7"), Some(Version::new(0, 0, 7)));
    assert_eq!(Version::parse("10.20.30"), Some(Version::new(10, 20, 30)));
    assert_eq!(Version::parse("999999999.0.1"), Some(Version::new(999999999, 0, 1)));
    assert_eq!(Version::parse(""), None);
    assert_eq!(Version::parse("1.2"), None);
    assert_eq!(Version::parse("1.2.3.4"), None);
    assert_eq!(Version::parse("a.b.c"), None);
    assert_eq!(Version::parse("1..3"), None);
    assert_eq!(Version::parse(".2.3"), None);
    assert_eq!(Version::parse("1.2."), None);
    assert_eq!(Version::parse("1.2.3-alpha"), None);
    assert_eq!(Version::parse("1234567890.0.0"), None);
}

#[test]
fn creation_errors_tell_skippable_from_fatal() {
    let ignore = data_source::DataSourceCreationError::Ignore(
        "address".to_string(),
        "odd length".to_string(),
    );
    let unknown = data_source::DataSourceCreationError::Unknown("store gone".to_string());
    assert!(ignore.should_skip());
    assert!(!unknown.should_skip());
}

#[test]
fn clones_preserve_content() {
    let template = offchain_template();
    let mut regions = CausalityRegionSeq::new();
    let ds: Ds = DataSource::Offchain(data_source::offchain::DataSource::from_template(
        &template,
        vec![3],
        None,
        9,
        &mut regions,
    ));
    let copy = ds.clone();
    assert_eq!(copy.name(), ds.name());
    assert_eq!(copy.kind(), ds.kind());
    assert_eq!(copy.address(), ds.address());
    assert_eq!(copy.causality_region(), ds.causality_region());

    let t: DataSourceTemplate<MockChain> = DataSourceTemplate::Onchain(mock_template());
    let tc = t.clone();
    assert_eq!(tc.name(), t.name());
    assert_eq!(tc.manifest_idx(), t.manifest_idx());
}

#[test]
fn describe_joins_restricted_type_names() {
    let restricted = EntityTypeAccess::Restriced(vec![
        EntityType::new("A".to_string()),
        EntityType::new("B".to_string()),
    ]);
    assert_eq!(restricted.describe(), "A, B");
}

#[test]
fn failed_template_resolution_carries_the_cause() {
    let u = data_source::offchain::UnresolvedDataSourceTemplate {
        kind: "file/ipfs".to_string(),
        name: "Files".to_string(),
        mapping: data_source::offchain::UnresolvedMapping {
            api_version: Version::new(0, 0, 7),
            file: data_source::common::Link { link: "/ipfs/QmWasm".to_string() },
            entities: vec![EntityType::new("Unknown".to_string())],
            handler: "handleFile".to_string(),
        },
    };
    let t: data_source::UnresolvedDataSourceTemplate<MockChain> =
        data_source::UnresolvedDataSourceTemplate::Offchain(u);
    let empty_schema = InputSchema { entity_types: vec![] };
    let r = t.resolve(vec![], &empty_schema, 0);
    assert!(matches!(r, Err(data_source::ResolveError::Failed(_))));
}

#[test]
fn resolved_templates_carry_the_passed_manifest_index() {
    let u = data_source::mock::MockUnresolvedTemplate {
        kind: "ethereum/contract".to_string(),
        name: "Child".to_string(),
        api_version: Version::new(0, 0, 5),
        runtime_link: data_source::common::Link { link: "/ipfs/QmWasm".to_string() },
        handler: "handleBlock".to_string(),
    };
    let t: data_source::UnresolvedDataSourceTemplate<MockChain> =
        data_source::UnresolvedDataSourceTemplate::Onchain(u);
    let schema = InputSchema { entity_types: vec![] };
    let resolved = t.resolve(vec![1], &schema, 42).expect("chain template resolution succeeds");
    assert_eq!(resolved.manifest_idx(), 42);
}
