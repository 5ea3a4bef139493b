//! The registry as a mathematical object: a map from image hash to record,
//! and the transition that one action makes on it.
//!
//! Hashes, keys and signatures are opaque comparable values; here they are
//! sequences of characters.

use crate::signature::SignatureVerifier;
use vstd::prelude::*;

verus! {

/// One entry of the registry.
pub struct RecordView {
    /// `None` for an original image, the parent's hash for an edit.
    pub previous_image_hash: Option<Seq<char>>,
    /// The key that approves edits of this image. An edit copies it from its
    /// parent when it is registered.
    pub owner_pk: Seq<char>,
    /// Keys that the owner has authorised to publish on their behalf.
    pub publishers: Set<Seq<char>>,
    /// Whether the record is an original image.
    pub is_root: bool,
}

/// The registry: image hash to record.
pub type RegistryView = Map<Seq<char>, RecordView>;

/// A request to the registry.
pub enum ActionView {
    RegisterImage { image_hash: Seq<char>, image_signature: Seq<char>, owner_pk: Seq<char> },
    RegisterEdit {
        original_image_hash: Seq<char>,
        edited_image_hash: Seq<char>,
        original_edit_signature: Seq<char>,
    },
    AddPublisher {
        original_image_hash: Seq<char>,
        original_image_signature: Seq<char>,
        publisher_pk: Seq<char>,
    },
    VerifyImage { image_hash: Seq<char> },
}

/// What the registry answers to an action.
pub enum OutcomeView {
    Registered { image_hash: Seq<char> },
    AlreadyExists,
    EditRegistered,
    EditedHashAlreadyExists,
    OriginalHashNotFound,
    InvalidSignature,
    PublisherAdded,
    PublisherAlreadyPresent,
    NotRootOrInvalidSignature,
    Verified { root_hash: Seq<char>, owner_pk: Seq<char> },
    NotFound,
}

impl OutcomeView {
    /// Whether the outcome reports that a business rule turned the action
    /// down.
    pub open spec fn is_rejection(self) -> bool {
        self is AlreadyExists || self is EditedHashAlreadyExists || self is OriginalHashNotFound
            || self is InvalidSignature || self is NotRootOrInvalidSignature || self is NotFound
    }
}

/// The record of a newly registered original image.
pub open spec fn root_record(owner_pk: Seq<char>) -> RecordView {
    RecordView { previous_image_hash: None, owner_pk, publishers: Set::empty(), is_root: true }
}

/// The record of a newly registered edit of `original_image_hash`.
pub open spec fn edit_record(original_image_hash: Seq<char>, owner_pk: Seq<char>) -> RecordView {
    RecordView {
        previous_image_hash: Some(original_image_hash),
        owner_pk,
        publishers: Set::empty(),
        is_root: false,
    }
}

/// The message that the owner signs to approve an edit: the original's hash
/// followed by the edit's hash.
pub open spec fn edit_message(
    original_image_hash: Seq<char>,
    edited_image_hash: Seq<char>,
) -> Seq<char> {
    original_image_hash + edited_image_hash
}

/// Registers an original image, unless its hash is taken.
pub open spec fn register_image(
    registry: RegistryView,
    image_hash: Seq<char>,
    owner_pk: Seq<char>,
) -> (RegistryView, OutcomeView) {
    if registry.contains_key(image_hash) {
        (registry, OutcomeView::AlreadyExists)
    } else {
        (registry.insert(image_hash, root_record(owner_pk)), OutcomeView::Registered { image_hash })
    }
}

/// Registers an edit. The first rule that fails decides the outcome: the
/// edit's hash must be new, the original must be registered, and the
/// original's owner must have signed the pair of hashes.
pub open spec fn register_edit<V: SignatureVerifier>(
    verifier: &V,
    registry: RegistryView,
    original_image_hash: Seq<char>,
    edited_image_hash: Seq<char>,
    signature: Seq<char>,
) -> (RegistryView, OutcomeView) {
    if registry.contains_key(edited_image_hash) {
        (registry, OutcomeView::EditedHashAlreadyExists)
    } else if !registry.contains_key(original_image_hash) {
        (registry, OutcomeView::OriginalHashNotFound)
    } else {
        let owner_pk = registry[original_image_hash].owner_pk;
        let message = edit_message(original_image_hash, edited_image_hash);
        if verifier.accepts(owner_pk, message, signature) {
            (
                registry.insert(edited_image_hash, edit_record(original_image_hash, owner_pk)),
                OutcomeView::EditRegistered,
            )
        } else {
            (registry, OutcomeView::InvalidSignature)
        }
    }
}

/// The record `record` with `publisher_pk` among its publishers.
pub open spec fn with_publisher(record: RecordView, publisher_pk: Seq<char>) -> RecordView {
    RecordView { publishers: record.publishers.insert(publisher_pk), ..record }
}

/// Grants a publisher on an original image. The image must be registered, it
/// must be an original, and its owner must have signed its hash.
pub open spec fn add_publisher<V: SignatureVerifier>(
    verifier: &V,
    registry: RegistryView,
    original_image_hash: Seq<char>,
    signature: Seq<char>,
    publisher_pk: Seq<char>,
) -> (RegistryView, OutcomeView) {
    if !registry.contains_key(original_image_hash) {
        (registry, OutcomeView::NotFound)
    } else {
        let record = registry[original_image_hash];
        if !(record.is_root && verifier.accepts(record.owner_pk, original_image_hash, signature)) {
            (registry, OutcomeView::NotRootOrInvalidSignature)
        } else if record.publishers.contains(publisher_pk) {
            (registry, OutcomeView::PublisherAlreadyPresent)
        } else {
            (
                registry.insert(original_image_hash, with_publisher(record, publisher_pk)),
                OutcomeView::PublisherAdded,
            )
        }
    }
}

/// Follows the parent links from `image_hash`, looking at no more than
/// `steps` records. `Some(root)` when the walk arrives at a record without a
/// parent; `None` when it meets a hash that is not registered or runs out of
/// steps.
pub open spec fn resolve_root(
    registry: RegistryView,
    image_hash: Seq<char>,
    steps: nat,
) -> Option<Seq<char>>
    decreases steps,
{
    if steps == 0 || !registry.contains_key(image_hash) {
        None
    } else {
        match registry[image_hash].previous_image_hash {
            None => Some(image_hash),
            Some(parent) => resolve_root(registry, parent, (steps - 1) as nat),
        }
    }
}

/// The number of records a lineage walk may look at: one more than the
/// registry holds, so that a walk in a registry whose links form a forest is
/// never cut short, and a walk in any other still ends.
pub open spec fn walk_limit(registry: RegistryView) -> nat {
    registry.len() + 1
}

/// Resolves an image to the original it derives from. The registry is left
/// as it is.
pub open spec fn verify_image(
    registry: RegistryView,
    image_hash: Seq<char>,
) -> (RegistryView, OutcomeView) {
    match resolve_root(registry, image_hash, walk_limit(registry)) {
        Some(root_hash) => (
            registry,
            OutcomeView::Verified { root_hash, owner_pk: registry[root_hash].owner_pk },
        ),
        None => (registry, OutcomeView::NotFound),
    }
}

/// The transition function: the registry after `action`, and the outcome
/// reported for it.
pub open spec fn step<V: SignatureVerifier>(
    verifier: &V,
    registry: RegistryView,
    action: ActionView,
) -> (RegistryView, OutcomeView) {
    match action {
        ActionView::RegisterImage { image_hash, image_signature, owner_pk } => register_image(
            registry,
            image_hash,
            owner_pk,
        ),
        ActionView::RegisterEdit {
            original_image_hash,
            edited_image_hash,
            original_edit_signature,
        } => register_edit(
            verifier,
            registry,
            original_image_hash,
            edited_image_hash,
            original_edit_signature,
        ),
        ActionView::AddPublisher {
            original_image_hash,
            original_image_signature,
            publisher_pk,
        } => add_publisher(
            verifier,
            registry,
            original_image_hash,
            original_image_signature,
            publisher_pk,
        ),
        ActionView::VerifyImage { image_hash } => verify_image(registry, image_hash),
    }
}

/// The registry that a sequence of actions builds, starting from the empty
/// registry.
pub open spec fn run<V: SignatureVerifier>(verifier: &V, actions: Seq<ActionView>) -> RegistryView
    decreases actions.len(),
{
    if actions.len() == 0 {
        RegistryView::empty()
    } else {
        step(verifier, run(verifier, actions.drop_last()), actions.last()).0
    }
}

/// What holds of the record under a registered `image_hash` in a registry
/// whose links form a forest: the flag `is_root` tells whether the record has
/// a parent, the parent is registered and has the same owner, only an
/// original image has publishers, and the walk along the parent links arrives
/// at an original image after looking at no more records than the registry
/// holds.
pub open spec fn record_well_formed(registry: RegistryView, image_hash: Seq<char>) -> bool {
    let record = registry[image_hash];
    &&& record.is_root <==> record.previous_image_hash is None
    &&& record.previous_image_hash matches Some(parent) ==> registry.contains_key(parent)
        && registry[parent].owner_pk == record.owner_pk
    &&& record.publishers.finite()
    &&& !record.is_root ==> record.publishers == Set::<Seq<char>>::empty()
    &&& resolve_root(registry, image_hash, registry.len()) is Some
}

/// The invariant of the registry: it is finite, and every record in it is
/// well formed.
pub open spec fn well_formed(registry: RegistryView) -> bool {
    &&& registry.dom().finite()
    &&& forall|image_hash: Seq<char>| #[trigger]
        registry.contains_key(image_hash) ==> record_well_formed(registry, image_hash)
}

} // verus!
