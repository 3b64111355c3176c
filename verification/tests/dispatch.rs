//! The kind-discriminated deserialization protocol, end to end.

use data_source::common::InputSchema;
use data_source::document::{DeserializationError, RawDocument, RawValue};
use data_source::mock::MockChain;
use data_source::version::Version;
use data_source::{classify_kind, KindChoice, UnresolvedDataSource, UnresolvedDataSourceTemplate};

fn text(s: &str) -> RawValue {
    RawValue::Text(s.to_string())
}

fn doc(fields: Vec<(&str, RawValue)>) -> RawDocument {
    let mut d = RawDocument::new();
    for (name, value) in fields {
        d.push_field(name.to_string(), value);
    }
    d
}

fn mapping_doc(api_version: &str) -> RawValue {
    RawValue::Object(doc(vec![
        ("apiVersion", text(api_version)),
        ("file", text("/ipfs/QmMappingWasm")),
        ("handler", text("handleThing")),
    ]))
}

fn offchain_doc() -> RawDocument {
    doc(vec![
        ("kind", text("file/ipfs")),
        ("name", text("Prices")),
        (
            "source",
            RawValue::Object(doc(vec![("file", text("/ipfs/QmPriceFile"))])),
        ),
        ("mapping", mapping_doc("0.0.7")),
    ])
}

fn onchain_doc(kind: &str) -> RawDocument {
    doc(vec![
        ("kind", text(kind)),
        ("name", text("Pool")),
        (
            "source",
            RawValue::Object(doc(vec![
                ("address", text("0xabc")),
                ("startBlock", RawValue::Int(7)),
            ])),
        ),
        ("mapping", mapping_doc("0.0.5")),
    ])
}

fn subgraph_doc() -> RawDocument {
    doc(vec![
        ("kind", text("subgraph")),
        ("name", text("Derived")),
        (
            "source",
            RawValue::Object(doc(vec![
                ("address", text("QmSourceDeployment")),
                ("startBlock", RawValue::Int(3)),
            ])),
        ),
        ("mapping", mapping_doc("1.0.0")),
    ])
}

#[test]
fn classify_every_registered_kind() {
    assert_eq!(classify_kind::<MockChain>("file/ipfs"), KindChoice::Offchain);
    assert_eq!(classify_kind::<MockChain>("file/arweave"), KindChoice::Offchain);
    assert_eq!(classify_kind::<MockChain>("subgraph"), KindChoice::Subgraph);
    assert_eq!(classify_kind::<MockChain>("ethereum/contract"), KindChoice::Onchain);
    assert_eq!(classify_kind::<MockChain>("ethereum"), KindChoice::Onchain);
    assert_eq!(classify_kind::<MockChain>("bogus"), KindChoice::Unsupported);
    assert_eq!(classify_kind::<MockChain>(""), KindChoice::Unsupported);
}

#[test]
fn onchain_document_deserializes_to_onchain() {
    let r = UnresolvedDataSource::<MockChain>::from_document(&onchain_doc("ethereum/contract"));
    match r {
        Ok(UnresolvedDataSource::Onchain(u)) => {
            assert_eq!(u.name, "Pool");
            assert_eq!(u.start_block, 7);
            assert_eq!(u.api_version, Version::new(0, 0, 5));
        }
        _ => panic!("expected the chain-native variant"),
    }
}

#[test]
fn chain_alias_also_selects_onchain() {
    let r = UnresolvedDataSource::<MockChain>::from_document(&onchain_doc("ethereum"));
    assert!(matches!(r, Ok(UnresolvedDataSource::Onchain(_))));
}

#[test]
fn offchain_document_deserializes_to_offchain() {
    let r = UnresolvedDataSource::<MockChain>::from_document(&offchain_doc());
    match r {
        Ok(UnresolvedDataSource::Offchain(u)) => {
            assert_eq!(u.name, "Prices");
            assert_eq!(u.kind, "file/ipfs");
            assert_eq!(u.source.link, "/ipfs/QmPriceFile");
            assert_eq!(u.mapping.api_version, Version::new(0, 0, 7));
            assert_eq!(u.mapping.handler, "handleThing");
        }
        _ => panic!("expected the offchain variant"),
    }
}

#[test]
fn subgraph_document_deserializes_to_subgraph() {
    let r = UnresolvedDataSource::<MockChain>::from_document(&subgraph_doc());
    match r {
        Ok(UnresolvedDataSource::Subgraph(u)) => {
            assert_eq!(u.name, "Derived");
            assert_eq!(u.source.address, "QmSourceDeployment");
            assert_eq!(u.source.start_block, 3);
        }
        _ => panic!("expected the subgraph-derived variant"),
    }
}

#[test]
fn bogus_kind_is_unsupported_and_names_the_chain_kind() {
    let r = UnresolvedDataSource::<MockChain>::from_document(&onchain_doc("bogus"));
    match r {
        Err(DeserializationError::UnsupportedKind { expected, found }) => {
            assert_eq!(expected, "ethereum/contract");
            assert_eq!(found, "bogus");
        }
        _ => panic!("expected an unsupported-kind error"),
    }
}

#[test]
fn missing_kind_is_a_missing_field_error() {
    let d = doc(vec![("name", text("NoKind"))]);
    let r = UnresolvedDataSource::<MockChain>::from_document(&d);
    assert!(matches!(r, Err(DeserializationError::MissingKind)));
}

#[test]
fn non_text_kind_is_unsupported() {
    let d = doc(vec![("kind", RawValue::Int(5)), ("name", text("N"))]);
    let r = UnresolvedDataSource::<MockChain>::from_document(&d);
    match r {
        Err(DeserializationError::UnsupportedKind { found, .. }) => assert_eq!(found, "?"),
        _ => panic!("expected an unsupported-kind error"),
    }
}

#[test]
fn offchain_variant_error_names_the_field() {
    let mut d = offchain_doc();
    // rebuild without the name field
    let mut without_name = RawDocument::new();
    for f in d.fields.drain(..) {
        if f.name != "name" {
            without_name.push_field(f.name, f.value);
        }
    }
    let r = UnresolvedDataSource::<MockChain>::from_document(&without_name);
    match r {
        Err(DeserializationError::Variant { variant, field }) => {
            assert_eq!(variant, "offchain");
            assert_eq!(field, "name");
        }
        _ => panic!("expected a variant error"),
    }
}

#[test]
fn offchain_bad_api_version_is_a_variant_error() {
    let mut d = offchain_doc();
    let mut bad = RawDocument::new();
    for f in d.fields.drain(..) {
        if f.name == "mapping" {
            bad.push_field(f.name, mapping_doc("not-a-version"));
        } else {
            bad.push_field(f.name, f.value);
        }
    }
    let r = UnresolvedDataSource::<MockChain>::from_document(&bad);
    match r {
        Err(DeserializationError::Variant { variant, field }) => {
            assert_eq!(variant, "offchain");
            assert_eq!(field, "mapping.apiVersion");
        }
        _ => panic!("expected a variant error"),
    }
}

#[test]
fn template_documents_dispatch_the_same_way() {
    let offchain_tpl = doc(vec![
        ("kind", text("file/arweave")),
        ("name", text("TplFiles")),
        ("mapping", mapping_doc("0.0.7")),
    ]);
    let r = UnresolvedDataSourceTemplate::<MockChain>::from_document(&offchain_tpl);
    assert!(matches!(r, Ok(UnresolvedDataSourceTemplate::Offchain(_))));

    let subgraph_tpl = doc(vec![
        ("kind", text("subgraph")),
        ("name", text("TplDerived")),
        ("mapping", mapping_doc("1.0.0")),
    ]);
    let r = UnresolvedDataSourceTemplate::<MockChain>::from_document(&subgraph_tpl);
    assert!(matches!(r, Ok(UnresolvedDataSourceTemplate::Subgraph(_))));

    let onchain_tpl = doc(vec![
        ("kind", text("ethereum/contract")),
        ("name", text("TplPool")),
        ("mapping", mapping_doc("0.0.5")),
    ]);
    let r = UnresolvedDataSourceTemplate::<MockChain>::from_document(&onchain_tpl);
    assert!(matches!(r, Ok(UnresolvedDataSourceTemplate::Onchain(_))));

    let bad = doc(vec![("kind", text("nope")), ("name", text("X"))]);
    let r = UnresolvedDataSourceTemplate::<MockChain>::from_document(&bad);
    match r {
        Err(DeserializationError::UnsupportedKind { expected, found }) => {
            assert_eq!(expected, "ethereum/contract");
            assert_eq!(found, "nope");
        }
        _ => panic!("expected an unsupported-kind error"),
    }

    let missing = doc(vec![("name", text("X"))]);
    let r = UnresolvedDataSourceTemplate::<MockChain>::from_document(&missing);
    assert!(matches!(r, Err(DeserializationError::MissingKind)));
}

#[test]
fn document_lookup_returns_the_first_match() {
    let mut d = RawDocument::new();
    d.push_field("k".to_string(), text("first"));
    d.push_field("k".to_string(), text("second"));
    assert_eq!(d.get_str("k").unwrap(), "first");
    assert!(d.get_str("absent").is_none());
    assert_eq!(d.get_int("k"), None);
}

#[test]
fn offchain_template_resolution_validates_entities() {
    let tpl_doc = doc(vec![
        ("kind", text("file/ipfs")),
        ("name", text("Files")),
        (
            "mapping",
            RawValue::Object(doc(vec![
                ("apiVersion", text("0.0.7")),
                ("file", text("/ipfs/QmWasm")),
                ("handler", text("handleFile")),
                (
                    "entities",
                    RawValue::List(vec![text("Price")]),
                ),
            ])),
        ),
    ]);
    let u = match UnresolvedDataSourceTemplate::<MockChain>::from_document(&tpl_doc) {
        Ok(UnresolvedDataSourceTemplate::Offchain(u)) => u,
        _ => panic!("expected the offchain variant"),
    };
    let empty_schema = InputSchema { entity_types: vec![] };
    assert!(u.clone().resolve(vec![1], &empty_schema, 4).is_err());

    let schema = InputSchema {
        entity_types: vec![data_source::common::EntityType::new("Price".to_string())],
    };
    let t = u.resolve(vec![1, 2], &schema, 4).expect("declared entities are in the schema");
    assert_eq!(t.name, "Files");
    assert_eq!(t.manifest_idx, 4);
    assert_eq!(*t.mapping.runtime, vec![1, 2]);
    assert_eq!(t.mapping.entities.len(), 1);
}

#[test]
fn parsed_onchain_document_resolves_with_its_declared_content() {
    let u = match UnresolvedDataSource::<MockChain>::from_document(&onchain_doc("ethereum/contract"))
    {
        Ok(u) => u,
        Err(_) => panic!("the scenario document is minimally valid"),
    };
    let ds = u.resolve(vec![1, 2], 0).expect("chain-native resolution succeeds");
    assert_eq!(ds.name(), "Pool");
    assert_eq!(ds.kind(), "ethereum/contract");
    assert_eq!(ds.start_block(), Some(7));
    assert_eq!(
        ds.address(),
        Some("0xabc".bytes().collect::<Vec<u8>>())
    );
}
