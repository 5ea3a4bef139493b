use image_registry::key_set::KeySet;
use image_registry::record::{ImageAction, ImageMetadata, Outcome};
use image_registry::signature::DummyVerifier;
use image_registry::state::ImageState;

fn owned(value: &str) -> String {
    value.to_string()
}

fn keys(values: &[&str]) -> Vec<String> {
    values.iter().map(|value| owned(value)).collect()
}

fn original(owner: &str, publishers: &[&str]) -> ImageMetadata {
    ImageMetadata {
        previous_image_hash: None,
        owner_pk: owned(owner),
        publishers: KeySet::from_keys(&keys(publishers)),
        is_root: true,
    }
}

fn derived(parent: &str, owner: &str) -> ImageMetadata {
    ImageMetadata {
        previous_image_hash: Some(owned(parent)),
        owner_pk: owned(owner),
        publishers: KeySet::new(),
        is_root: false,
    }
}

/// A record as plain values: parent, owner, publishers in order, flag.
type Plain = (Option<String>, String, Vec<String>, bool);

fn plain(record: &ImageMetadata) -> Plain {
    let mut publishers = record.publishers.to_vec();
    publishers.sort();
    (record.previous_image_hash.clone(), record.owner_pk.clone(), publishers, record.is_root)
}

fn sorted(records: &Vec<(String, ImageMetadata)>) -> Vec<(String, Plain)> {
    let mut records: Vec<(String, Plain)> =
        records.iter().map(|(hash, record)| (hash.clone(), plain(record))).collect();
    records.sort();
    records
}

#[test]
fn new_registry_is_empty() {
    let registry = ImageState::new();
    assert_eq!(registry.len(), 0);
    assert!(registry.records().is_empty());
    assert!(registry.get("a1").is_none());
}

#[test]
fn is_original_image_tells_roots_from_edits() {
    let registry = ImageState::from_records(&vec![
        (owned("a1"), original("K1", &[])),
        (owned("b2"), derived("a1", "K1")),
    ]);
    assert_eq!(registry.is_original_image(owned("a1")).unwrap(), true);
    assert_eq!(registry.is_original_image(owned("b2")).unwrap(), false);
    assert_eq!(registry.is_original_image(owned("missing")).unwrap(), false);
    assert_eq!(registry.is_original_image(owned("")).unwrap(), false);
}

#[test]
fn records_round_trip() {
    let records = vec![
        (owned("a1"), original("K1", &["Pa", "Pb"])),
        (owned("b2"), derived("a1", "K1")),
        (owned("x9"), original("K2", &[])),
    ];
    let registry = ImageState::from_records(&records);
    assert_eq!(registry.len(), 3);
    assert_eq!(sorted(&registry.records()), sorted(&records));
    assert_eq!(
        sorted(&registry.records()),
        vec![
            (owned("a1"), (None, owned("K1"), keys(&["Pa", "Pb"]), true)),
            (owned("b2"), (Some(owned("a1")), owned("K1"), keys(&[]), false)),
            (owned("x9"), (None, owned("K2"), keys(&[]), true)),
        ]
    );
    let again = ImageState::from_records(&registry.records());
    assert_eq!(sorted(&again.records()), sorted(&records));
}

#[test]
fn from_records_keeps_last_record_of_a_hash() {
    let registry = ImageState::from_records(&vec![
        (owned("a1"), original("K1", &[])),
        (owned("b2"), derived("a1", "K1")),
        (owned("a1"), original("K2", &["Pa"])),
    ]);
    assert_eq!(registry.len(), 2);
    assert_eq!(registry.get("a1").map(plain), Some((None, owned("K2"), keys(&["Pa"]), true)));
    assert_eq!(
        sorted(&registry.records()),
        vec![
            (owned("a1"), (None, owned("K2"), keys(&["Pa"]), true)),
            (owned("b2"), (Some(owned("a1")), owned("K1"), keys(&[]), false)),
        ]
    );
}

#[test]
fn records_lists_each_hash_once() {
    let mut registry = ImageState::new();
    for hash in ["a1", "b2", "a1", "c3", "b2"] {
        registry.execute(
            ImageAction::RegisterImage {
                image_hash: owned(hash),
                image_signature: owned(""),
                owner_pk: owned("K1"),
            },
            &DummyVerifier,
        );
    }
    let hashes: Vec<String> = sorted(&registry.records()).into_iter().map(|r| r.0).collect();
    assert_eq!(hashes, vec![owned("a1"), owned("b2"), owned("c3")]);
    assert_eq!(registry.len(), 3);
}

#[test]
fn clone_is_independent() {
    let mut registry = ImageState::new();
    registry.execute(
        ImageAction::RegisterImage {
            image_hash: owned("a1"),
            image_signature: owned(""),
            owner_pk: owned("K1"),
        },
        &DummyVerifier,
    );
    let copy = registry.clone();
    registry.execute(
        ImageAction::AddPublisher {
            original_image_hash: owned("a1"),
            original_image_signature: owned("true"),
            publisher_pk: owned("Pa"),
        },
        &DummyVerifier,
    );
    assert_eq!(copy.get("a1").map(plain), Some((None, owned("K1"), keys(&[]), true)));
    assert_eq!(registry.get("a1").map(plain), Some((None, owned("K1"), keys(&["Pa"]), true)));
    assert_eq!(copy.len(), 1);
}

#[test]
fn record_clone_copies_every_field() {
    let record = original("K1", &["Pa", "Pb"]);
    assert_eq!(plain(&record.clone()), (None, owned("K1"), keys(&["Pa", "Pb"]), true));
    let record = derived("a1", "K1");
    assert_eq!(plain(&record.clone()), (Some(owned("a1")), owned("K1"), keys(&[]), false));
}

#[test]
fn walk_ends_when_links_form_a_cycle() {
    let mut registry = ImageState::from_records(&vec![
        (owned("a1"), derived("b2", "K1")),
        (owned("b2"), derived("a1", "K1")),
        (owned("c3"), derived("c3", "K1")),
    ]);
    for hash in ["a1", "b2", "c3"] {
        let outcome =
            registry.execute(ImageAction::VerifyImage { image_hash: owned(hash) }, &DummyVerifier);
        assert_eq!(outcome, Outcome::NotFound);
    }
}

#[test]
fn walk_ends_at_missing_parent() {
    let mut registry = ImageState::from_records(&vec![
        (owned("b2"), derived("a1", "K1")),
        (owned("c3"), derived("b2", "K1")),
    ]);
    let outcome =
        registry.execute(ImageAction::VerifyImage { image_hash: owned("c3") }, &DummyVerifier);
    assert_eq!(outcome, Outcome::NotFound);
}

#[test]
fn key_set_holds_each_key_once() {
    let mut set = KeySet::new();
    assert!(set.is_empty());
    assert_eq!(set.len(), 0);
    assert!(!set.contains("Pa"));
    assert!(set.insert(owned("Pa")));
    assert!(set.insert(owned("Pb")));
    assert!(!set.insert(owned("Pa")));
    assert!(set.contains("Pa"));
    assert!(set.contains("Pb"));
    assert!(!set.contains("pa"));
    assert!(!set.contains(""));
    assert!(!set.is_empty());
    assert_eq!(set.len(), 2);
    assert_eq!(set.to_vec(), keys(&["Pa", "Pb"]));
}

#[test]
fn key_set_from_keys_drops_repetitions() {
    let set = KeySet::from_keys(&keys(&["Pa", "Pb", "Pa", "", "Pb"]));
    assert_eq!(set.len(), 3);
    assert_eq!(set.to_vec(), keys(&["Pa", "Pb", ""]));
    let copy = set.clone();
    assert_eq!(copy.to_vec(), set.to_vec());
    assert!(KeySet::from_keys(&Vec::new()).is_empty());
}

#[test]
fn publisher_given_twice_counts_once() {
    let mut registry =
        ImageState::from_records(&vec![(owned("a1"), original("K1", &["Pa", "Pa"]))]);
    assert_eq!(registry.get("a1").unwrap().publishers.len(), 1);
    let outcome = registry.execute(
        ImageAction::AddPublisher {
            original_image_hash: owned("a1"),
            original_image_signature: owned("true"),
            publisher_pk: owned("Pa"),
        },
        &DummyVerifier,
    );
    assert_eq!(outcome, Outcome::PublisherAlreadyPresent);
}
