use image_registry::record::{ImageAction, ImageMetadata, Outcome};
use image_registry::signature::DummyVerifier;
use image_registry::state::{apply, ImageState};

fn s(text: &str) -> String {
    text.to_string()
}

fn register_image(hash: &str, owner: &str) -> ImageAction {
    ImageAction::RegisterImage { image_hash: s(hash), image_signature: s(""), owner_pk: s(owner) }
}

fn register_edit(original: &str, edited: &str, signature: &str) -> ImageAction {
    ImageAction::RegisterEdit {
        original_image_hash: s(original),
        edited_image_hash: s(edited),
        original_edit_signature: s(signature),
    }
}

fn add_publisher(original: &str, signature: &str, publisher: &str) -> ImageAction {
    ImageAction::AddPublisher {
        original_image_hash: s(original),
        original_image_signature: s(signature),
        publisher_pk: s(publisher),
    }
}

fn verify_image(hash: &str) -> ImageAction {
    ImageAction::VerifyImage { image_hash: s(hash) }
}

/// A record as plain values: parent, owner, publishers in order, flag.
type Plain = (Option<String>, String, Vec<String>, bool);

fn plain(record: &ImageMetadata) -> Plain {
    let mut publishers = record.publishers.to_vec();
    publishers.sort();
    (record.previous_image_hash.clone(), record.owner_pk.clone(), publishers, record.is_root)
}

fn root(owner: &str) -> Plain {
    (None, s(owner), Vec::new(), true)
}

fn edit(parent: &str, owner: &str) -> Plain {
    (Some(s(parent)), s(owner), Vec::new(), false)
}

fn sorted_records(registry: &ImageState) -> Vec<(String, Plain)> {
    let mut records: Vec<(String, Plain)> =
        registry.records().iter().map(|(hash, record)| (hash.clone(), plain(record))).collect();
    records.sort();
    records
}

#[test]
fn register_image_on_empty_registry() {
    let mut registry = ImageState::new();
    let outcome = registry.execute(register_image("a1", "K1"), &DummyVerifier);
    assert_eq!(outcome, Outcome::Registered { image_hash: s("a1") });
    assert_eq!(outcome.message(), "registered: a1");
    assert_eq!(registry.len(), 1);
    assert_eq!(sorted_records(&registry), vec![(s("a1"), root("K1"))]);
}

#[test]
fn register_image_twice_is_refused() {
    let mut registry = ImageState::new();
    registry.execute(register_image("a1", "K1"), &DummyVerifier);
    let before = sorted_records(&registry);
    let outcome = registry.execute(register_image("a1", "K1"), &DummyVerifier);
    assert_eq!(outcome, Outcome::AlreadyExists);
    assert_eq!(outcome.message(), "already exists");
    assert_eq!(sorted_records(&registry), before);
    assert_eq!(registry.len(), 1);
}

#[test]
fn register_image_twice_keeps_first_owner() {
    let mut registry = ImageState::new();
    registry.execute(register_image("a1", "K1"), &DummyVerifier);
    let outcome = registry.execute(register_image("a1", "K2"), &DummyVerifier);
    assert_eq!(outcome, Outcome::AlreadyExists);
    assert_eq!(registry.get("a1").map(plain), Some(root("K1")));
}

#[test]
fn register_edit_with_valid_signature() {
    let mut registry = ImageState::new();
    registry.execute(register_image("a1", "K1"), &DummyVerifier);
    let outcome = registry.execute(register_edit("a1", "b2", "true"), &DummyVerifier);
    assert_eq!(outcome, Outcome::EditRegistered);
    assert_eq!(outcome.message(), "edit registered");
    assert_eq!(registry.get("b2").map(plain), Some(edit("a1", "K1")));
    assert_eq!(registry.get("a1").map(plain), Some(root("K1")));
    assert_eq!(registry.len(), 2);
}

#[test]
fn register_edit_with_invalid_signature() {
    let mut registry = ImageState::new();
    registry.execute(register_image("a1", "K1"), &DummyVerifier);
    let outcome = registry.execute(register_edit("a1", "b2", "false"), &DummyVerifier);
    assert_eq!(outcome, Outcome::InvalidSignature);
    assert_eq!(outcome.message(), "invalid signature");
    assert!(registry.get("b2").is_none());
    assert_eq!(sorted_records(&registry), vec![(s("a1"), root("K1"))]);
}

#[test]
fn verify_image_resolves_edit_to_root() {
    let mut registry = ImageState::new();
    registry.execute(register_image("a1", "K1"), &DummyVerifier);
    registry.execute(register_edit("a1", "b2", "true"), &DummyVerifier);
    let before = sorted_records(&registry);
    let outcome = registry.execute(verify_image("b2"), &DummyVerifier);
    assert_eq!(outcome, Outcome::Verified { root_hash: s("a1"), owner_pk: s("K1") });
    assert_eq!(outcome.message(), "root: a1, owner: K1");
    assert_eq!(sorted_records(&registry), before);
}

#[test]
fn add_publisher_on_edit_is_refused() {
    let mut registry = ImageState::new();
    registry.execute(register_image("a1", "K1"), &DummyVerifier);
    registry.execute(register_edit("a1", "b2", "true"), &DummyVerifier);
    let before = sorted_records(&registry);
    let outcome = registry.execute(add_publisher("b2", "true", "P1"), &DummyVerifier);
    assert_eq!(outcome, Outcome::NotRootOrInvalidSignature);
    assert_eq!(outcome.message(), "not a root image / invalid signature");
    assert_eq!(sorted_records(&registry), before);
}

#[test]
fn apply_returns_new_registry_and_outcome() {
    let (registry, outcome) = apply(ImageState::new(), register_image("a1", "K1"), &DummyVerifier);
    assert_eq!(outcome, Outcome::Registered { image_hash: s("a1") });
    assert_eq!(sorted_records(&registry), vec![(s("a1"), root("K1"))]);
    let (registry, outcome) = apply(registry, register_edit("a1", "b2", "TRUE"), &DummyVerifier);
    assert_eq!(outcome, Outcome::EditRegistered);
    assert_eq!(
        sorted_records(&registry),
        vec![(s("a1"), root("K1")), (s("b2"), edit("a1", "K1"))]
    );
    let (registry, outcome) = apply(registry, verify_image("zz"), &DummyVerifier);
    assert_eq!(outcome, Outcome::NotFound);
    assert_eq!(registry.len(), 2);
}
