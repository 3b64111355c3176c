//! Trigger matching: the cross-variant guarantee, the expiration gate,
//! and per-variant filters.

use data_source::common::{BlockPtr, DataSourceContext};
use data_source::mock::{MockBlock, MockChain, MockDataSource, MockTriggerData};
use data_source::version::Version;
use data_source::{CausalityRegionSeq, DataSource, MappingTrigger, TriggerData, TriggerWithHandler};
use std::sync::Arc;

type Ds = DataSource<MockChain>;
type Trigger = TriggerData<MockChain>;

fn mock_ds(address: Option<Vec<u8>>, end_block: Option<i32>) -> MockDataSource {
    MockDataSource {
        kind: "ethereum/contract".to_string(),
        name: "Pool".to_string(),
        network: Some("mainnet".to_string()),
        address,
        start_block: 0,
        end_block,
        creation_block: None,
        context: None,
        manifest_idx: 0,
        api_version: Version::new(0, 0, 5),
        runtime: Arc::new(vec![0]),
        handler: "handleBlock".to_string(),
    }
}

fn offchain_ds(source: Vec<u8>) -> data_source::offchain::DataSource {
    let template = offchain_template();
    let mut regions = CausalityRegionSeq::new();
    data_source::offchain::DataSource::from_template(&template, source, None, 5, &mut regions)
}

fn offchain_template() -> data_source::offchain::DataSourceTemplate {
    data_source::offchain::DataSourceTemplate {
        kind: "file/ipfs".to_string(),
        name: "Files".to_string(),
        manifest_idx: 2,
        mapping: data_source::offchain::Mapping {
            api_version: Version::new(0, 0, 7),
            runtime: Arc::new(vec![9]),
            entities: vec![],
            handler: "handleFile".to_string(),
        },
    }
}

fn subgraph_ds(address: &str) -> data_source::subgraph::DataSource {
    data_source::subgraph::DataSource {
        kind: "subgraph".to_string(),
        name: "Derived".to_string(),
        source: data_source::subgraph::Source { address: address.to_string(), start_block: 1 },
        context: None,
        creation_block: None,
        mapping: data_source::subgraph::Mapping {
            api_version: Version::new(1, 0, 0),
            runtime: Arc::new(vec![7]),
            handler: "handleEntity".to_string(),
        },
    }
}

fn block(number: i32) -> MockBlock {
    MockBlock { hash: vec![0xaa, 0xbb], number, timestamp: 1700000000 }
}

fn onchain_trigger(address: Vec<u8>) -> Trigger {
    TriggerData::Onchain(MockTriggerData { address: Arc::new(address), payload: 42 })
}

fn offchain_trigger(source: Vec<u8>) -> Trigger {
    TriggerData::Offchain(data_source::offchain::TriggerData {
        source: Arc::new(source),
        data: Arc::new(vec![1, 2, 3]),
    })
}

fn subgraph_trigger(source: &str) -> Trigger {
    TriggerData::Subgraph(data_source::subgraph::TriggerData {
        source: Arc::new(source.to_string()),
        entity_type: Arc::new("Price".to_string()),
    })
}

#[test]
fn cross_variant_pairs_never_match_and_never_error() {
    let sources: Vec<Ds> = vec![
        DataSource::Onchain(mock_ds(None, None)),
        DataSource::Offchain(offchain_ds(vec![1])),
        DataSource::Subgraph(subgraph_ds("QmDep")),
    ];
    let triggers: Vec<Trigger> = vec![
        onchain_trigger(vec![1]),
        offchain_trigger(vec![1]),
        subgraph_trigger("QmDep"),
    ];
    let b = block(10);
    for (i, ds) in sources.iter().enumerate() {
        for (j, t) in triggers.iter().enumerate() {
            if i != j {
                let r = ds.match_and_decode(t, &b);
                assert!(matches!(r, Ok(None)), "cross-variant pair must yield no match");
            }
        }
    }
}

#[test]
fn expired_onchain_source_matches_nothing() {
    // The filter (no address) would match every trigger.
    let ds: Ds = DataSource::Onchain(mock_ds(None, Some(100)));
    let t = onchain_trigger(vec![1, 2]);
    assert!(matches!(ds.match_and_decode(&t, &block(101)), Ok(None)));
    // At the end block itself it still matches.
    let r = ds.match_and_decode(&t, &block(100)).unwrap().unwrap();
    assert_eq!(r.handler_name(), "handleBlock");
}

#[test]
fn onchain_address_filter_decides_the_match() {
    let ds: Ds = DataSource::Onchain(mock_ds(Some(vec![0x11]), None));
    let hit = ds.match_and_decode(&onchain_trigger(vec![0x11]), &block(5)).unwrap();
    let twh = hit.expect("matching address must match");
    assert_eq!(twh.handler_name(), "handleBlock");
    assert_eq!(twh.block_ptr().number, 5);
    assert_eq!(twh.block_ptr().hash, vec![0xaa, 0xbb]);
    assert_eq!(twh.timestamp(), 1700000000);
    assert!(matches!(twh.trigger, MappingTrigger::Onchain(_)));

    let miss = ds.match_and_decode(&onchain_trigger(vec![0x22]), &block(5)).unwrap();
    assert!(miss.is_none());
}

#[test]
fn offchain_match_is_content_address_equality() {
    let ds: Ds = DataSource::Offchain(offchain_ds(vec![7, 7]));
    let hit = ds.match_and_decode(&offchain_trigger(vec![7, 7]), &block(1)).unwrap();
    let twh = hit.expect("same content address must match");
    assert_eq!(twh.handler_name(), "handleFile");
    // Offchain triggers are outside chain causal order: zero block pointer.
    assert_eq!(twh.block_ptr().number, 0);
    assert!(twh.block_ptr().hash.is_empty());
    match &twh.trigger {
        MappingTrigger::Offchain(t) => assert_eq!(*t.data, vec![1, 2, 3]),
        _ => panic!("expected an offchain mapping trigger"),
    }

    let miss = ds.match_and_decode(&offchain_trigger(vec![7, 8]), &block(1)).unwrap();
    assert!(miss.is_none());
}

#[test]
fn subgraph_match_is_deployment_equality() {
    let ds: Ds = DataSource::Subgraph(subgraph_ds("QmDep"));
    let hit = ds.match_and_decode(&subgraph_trigger("QmDep"), &block(9)).unwrap();
    let twh = hit.expect("same deployment must match");
    assert_eq!(twh.handler_name(), "handleEntity");
    assert_eq!(twh.block_ptr().number, 9);
    assert_eq!(twh.timestamp(), 1700000000);
    match &twh.trigger {
        MappingTrigger::Subgraph(t) => assert_eq!(*t.data.entity_type, "Price"),
        _ => panic!("expected a subgraph mapping trigger"),
    }

    let miss = ds.match_and_decode(&subgraph_trigger("QmOther"), &block(9)).unwrap();
    assert!(miss.is_none());
}

#[test]
fn trigger_with_handler_keeps_its_metadata() {
    let twh = TriggerWithHandler::new(
        5u64,
        "handleFive".to_string(),
        BlockPtr { hash: vec![1], number: 3 },
        77,
    );
    assert_eq!(twh.trigger, 5);
    assert_eq!(twh.handler_name(), "handleFive");
    assert_eq!(twh.block_ptr().hash, vec![1]);
    assert_eq!(twh.block_ptr().number, 3);
    assert_eq!(twh.timestamp(), 77);
    assert!(twh.logging_extras().entries.is_empty());
}

#[test]
fn error_contexts_describe_the_trigger() {
    let t: Trigger = subgraph_trigger("QmDep");
    assert_eq!(t.error_context(), "QmDep");
    let t: Trigger = offchain_trigger(vec![1]);
    assert_eq!(t.error_context(), "offchain file trigger");
    let t: Trigger = onchain_trigger(vec![1]);
    assert_eq!(t.error_context(), "mock chain trigger");

    let m: MappingTrigger<MockChain> = MappingTrigger::Offchain(data_source::offchain::TriggerData {
        source: Arc::new(vec![]),
        data: Arc::new(vec![]),
    });
    assert!(m.error_context().is_none());
}

#[test]
fn duplicates_are_same_variant_only() {
    let a: Ds = DataSource::Offchain(offchain_ds(vec![1]));
    let b: Ds = DataSource::Offchain(offchain_ds(vec![1]));
    let c: Ds = DataSource::Offchain(offchain_ds(vec![2]));
    let on: Ds = DataSource::Onchain(mock_ds(None, None));
    // Same template, same file, same (absent) context: a duplicate,
    // even though the two instances drew different causality regions.
    assert!(a.is_duplicate_of(&b));
    assert!(!a.is_duplicate_of(&c));
    assert!(!a.is_duplicate_of(&on));
    assert!(!on.is_duplicate_of(&a));

    let on2: Ds = DataSource::Onchain(mock_ds(None, Some(9)));
    assert!(on.is_duplicate_of(&on2));
    let on3: Ds = DataSource::Onchain(mock_ds(Some(vec![1]), None));
    assert!(!on.is_duplicate_of(&on3));
}

#[test]
fn accessors_are_total_over_all_variants() {
    let mut ctx = DataSourceContext::new();
    ctx.push("k".to_string(), "v".to_string());
    let mut on = mock_ds(Some(vec![5]), Some(10));
    on.context = Some(ctx);
    on.creation_block = Some(4);
    let sources: Vec<Ds> = vec![
        DataSource::Onchain(on),
        DataSource::Offchain(offchain_ds(vec![1])),
        DataSource::Subgraph(subgraph_ds("QmDep")),
    ];
    for ds in &sources {
        // None of these may panic, whatever the variant.
        let _ = ds.name();
        let _ = ds.kind();
        let _ = ds.api_version();
        let _ = ds.context();
        let _ = ds.runtime();
        let _ = ds.address();
        let _ = ds.min_spec_version();
        let _ = ds.handler_kinds();
        let _ = ds.causality_region();
    }
    assert_eq!(sources[0].name(), "Pool");
    assert_eq!(sources[0].kind(), "ethereum/contract");
    assert_eq!(sources[0].start_block(), Some(0));
    assert_eq!(sources[0].end_block(), Some(10));
    assert_eq!(sources[0].creation_block(), Some(4));
    assert_eq!(sources[0].network(), Some("mainnet".to_string()));
    assert_eq!(sources[0].context().unwrap().entries[0].key, "k");
    assert!(sources[0].is_onchain() && !sources[0].is_offchain());
    assert!(sources[0].is_chain_based());

    // Variant-appropriate defaults for offchain sources.
    assert_eq!(sources[1].start_block(), None);
    assert_eq!(sources[1].end_block(), None);
    assert_eq!(sources[1].network(), None);
    assert_eq!(sources[1].kind(), "file/ipfs");
    assert_eq!(sources[1].api_version(), Version::new(0, 0, 7));
    assert!(!sources[1].is_chain_based());
    assert_eq!(sources[1].handler_kinds(), vec!["file/ipfs".to_string()]);
    assert!(!sources[1].has_declared_calls());

    assert_eq!(sources[2].start_block(), Some(1));
    // Only chain-native sources may report a network.
    assert_eq!(sources[2].network(), None);
    assert_eq!(sources[2].end_block(), None);
    assert!(sources[2].is_chain_based());
    assert_eq!(sources[2].handler_kinds(), vec!["entity".to_string()]);
    assert_eq!(sources[2].min_spec_version(), Version::new(1, 3, 0));
    assert_eq!(
        sources[2].address(),
        Some("QmDep".bytes().collect::<Vec<u8>>())
    );
}
