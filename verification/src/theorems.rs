//! What holds of the registry whatever actions are applied to it, proved
//! from the transition function for every signature verifier.

use crate::model::{
    edit_record, record_well_formed, resolve_root, root_record, run, step, verify_image,
    walk_limit, well_formed, with_publisher, ActionView, OutcomeView, RecordView, RegistryView,
};
use crate::signature::SignatureVerifier;
use vstd::prelude::*;

verus! {

/// A walk that arrives at an original image arrives there, at the same one,
/// with any larger allowance of steps.
pub proof fn lemma_resolve_with_more_steps(
    registry: RegistryView,
    image_hash: Seq<char>,
    steps: nat,
    more: nat,
)
    requires
        resolve_root(registry, image_hash, steps) is Some,
        steps <= more,
    ensures
        resolve_root(registry, image_hash, more) == resolve_root(registry, image_hash, steps),
    decreases steps,
{
    if steps > 0 && registry.contains_key(image_hash) {
        match registry[image_hash].previous_image_hash {
            None => {},
            Some(parent) => {
                lemma_resolve_with_more_steps(
                    registry,
                    parent,
                    (steps - 1) as nat,
                    (more - 1) as nat,
                );
            },
        }
    }
}

/// What a walk arrives at is a registered record without a parent.
pub proof fn lemma_resolved_is_parentless(
    registry: RegistryView,
    image_hash: Seq<char>,
    steps: nat,
)
    requires
        resolve_root(registry, image_hash, steps) is Some,
    ensures
        registry.contains_key(resolve_root(registry, image_hash, steps)->Some_0),
        registry[resolve_root(registry, image_hash, steps)->Some_0].previous_image_hash is None,
    decreases steps,
{
    if steps > 0 && registry.contains_key(image_hash) {
        match registry[image_hash].previous_image_hash {
            None => {},
            Some(parent) => {
                lemma_resolved_is_parentless(registry, parent, (steps - 1) as nat);
            },
        }
    }
}

/// Whether every parent named in `registry` is registered in it.
pub open spec fn parents_registered(registry: RegistryView) -> bool {
    forall|image_hash: Seq<char>| #[trigger]
        registry.contains_key(image_hash) ==> match registry[image_hash].previous_image_hash {
            Some(parent) => registry.contains_key(parent),
            None => true,
        }
}

/// Whether `after` holds every record of `before` with the parent link it
/// has in `before`.
pub open spec fn links_kept(before: RegistryView, after: RegistryView) -> bool {
    forall|image_hash: Seq<char>| #[trigger]
        before.contains_key(image_hash) ==> after.contains_key(image_hash)
            && after[image_hash].previous_image_hash == before[image_hash].previous_image_hash
}

/// A walk from a record of `before` goes the same way in every registry that
/// keeps the links of `before`.
pub proof fn lemma_resolve_in_extension(
    before: RegistryView,
    after: RegistryView,
    image_hash: Seq<char>,
    steps: nat,
)
    requires
        parents_registered(before),
        links_kept(before, after),
        before.contains_key(image_hash),
    ensures
        resolve_root(after, image_hash, steps) == resolve_root(before, image_hash, steps),
    decreases steps,
{
    if steps > 0 {
        match before[image_hash].previous_image_hash {
            None => {},
            Some(parent) => {
                lemma_resolve_in_extension(before, after, parent, (steps - 1) as nat);
            },
        }
    }
}

/// A well-formed registry stays well formed when a record is registered under
/// a new hash, be it an original image or an edit of a registered one.
proof fn lemma_insert_keeps_well_formed(
    registry: RegistryView,
    image_hash: Seq<char>,
    record: RecordView,
)
    requires
        well_formed(registry),
        !registry.contains_key(image_hash),
        record.is_root <==> record.previous_image_hash is None,
        record.previous_image_hash matches Some(parent) ==> registry.contains_key(parent)
            && registry[parent].owner_pk == record.owner_pk,
        record.publishers == Set::<Seq<char>>::empty(),
    ensures
        well_formed(registry.insert(image_hash, record)),
{
    let after = registry.insert(image_hash, record);
    assert(after.len() == registry.len() + 1);
    assert(parents_registered(registry));
    assert(links_kept(registry, after));
    assert forall|hash: Seq<char>| #[trigger] after.contains_key(hash) implies
        record_well_formed(after, hash) by {
        if hash == image_hash {
            match record.previous_image_hash {
                None => {},
                Some(parent) => {
                    lemma_resolve_in_extension(registry, after, parent, registry.len());
                    assert(record_well_formed(registry, parent));
                },
            }
        } else {
            assert(record_well_formed(registry, hash));
            lemma_resolve_in_extension(registry, after, hash, after.len());
            lemma_resolve_with_more_steps(registry, hash, registry.len(), after.len());
        }
    }
}

/// A well-formed registry stays well formed when an original image gets a
/// publisher.
proof fn lemma_publisher_keeps_well_formed(
    registry: RegistryView,
    image_hash: Seq<char>,
    publisher_pk: Seq<char>,
)
    requires
        well_formed(registry),
        registry.contains_key(image_hash),
        registry[image_hash].is_root,
    ensures
        well_formed(
            registry.insert(image_hash, with_publisher(registry[image_hash], publisher_pk)),
        ),
{
    let after = registry.insert(image_hash, with_publisher(registry[image_hash], publisher_pk));
    assert(after.dom() =~= registry.dom());
    assert(parents_registered(registry));
    assert(links_kept(registry, after));
    assert forall|hash: Seq<char>| #[trigger] after.contains_key(hash) implies
        record_well_formed(after, hash) by {
        assert(record_well_formed(registry, hash));
        lemma_resolve_in_extension(registry, after, hash, registry.len());
    }
}

/// The empty registry is well formed.
pub proof fn empty_is_well_formed()
    ensures
        well_formed(RegistryView::empty()),
{
}

/// No action takes a well-formed registry to one that is not: whatever the
/// action and whatever the verifier answers, the links of the registry after
/// the action still form a forest.
pub proof fn step_keeps_well_formed<V: SignatureVerifier>(
    verifier: &V,
    registry: RegistryView,
    action: ActionView,
)
    requires
        well_formed(registry),
    ensures
        well_formed(step(verifier, registry, action).0),
{
    match action {
        ActionView::RegisterImage { image_hash, image_signature, owner_pk } => {
            if !registry.contains_key(image_hash) {
                lemma_insert_keeps_well_formed(registry, image_hash, root_record(owner_pk));
            }
        },
        ActionView::RegisterEdit {
            original_image_hash,
            edited_image_hash,
            original_edit_signature,
        } => {
            if !registry.contains_key(edited_image_hash) && registry.contains_key(
                original_image_hash,
            ) {
                lemma_insert_keeps_well_formed(
                    registry,
                    edited_image_hash,
                    edit_record(original_image_hash, registry[original_image_hash].owner_pk),
                );
            }
        },
        ActionView::AddPublisher {
            original_image_hash,
            original_image_signature,
            publisher_pk,
        } => {
            if registry.contains_key(original_image_hash)
                && registry[original_image_hash].is_root {
                lemma_publisher_keeps_well_formed(registry, original_image_hash, publisher_pk);
            }
        },
        ActionView::VerifyImage { image_hash } => {},
    }
}

/// Every registry that a sequence of actions builds from the empty registry
/// is well formed.
pub proof fn reachable_is_well_formed<V: SignatureVerifier>(
    verifier: &V,
    actions: Seq<ActionView>,
)
    ensures
        well_formed(run(verifier, actions)),
    decreases actions.len(),
{
    if actions.len() == 0 {
        empty_is_well_formed();
    } else {
        reachable_is_well_formed(verifier, actions.drop_last());
        step_keeps_well_formed(verifier, run(verifier, actions.drop_last()), actions.last());
    }
}

/// In a well-formed registry the original that a walk arrives at has the
/// owner of the image that the walk set out from.
pub proof fn lemma_resolved_has_same_owner(
    registry: RegistryView,
    image_hash: Seq<char>,
    steps: nat,
)
    requires
        well_formed(registry),
        resolve_root(registry, image_hash, steps) is Some,
    ensures
        registry[resolve_root(registry, image_hash, steps)->Some_0].owner_pk
            == registry[image_hash].owner_pk,
    decreases steps,
{
    if steps > 0 && registry.contains_key(image_hash) {
        assert(record_well_formed(registry, image_hash));
        match registry[image_hash].previous_image_hash {
            None => {},
            Some(parent) => {
                lemma_resolved_has_same_owner(registry, parent, (steps - 1) as nat);
            },
        }
    }
}

/// In a well-formed registry the walk along the parent links from any
/// registered image arrives at an original image, after looking at no more
/// records than the registry holds. A query for the image is therefore
/// answered with that original and its owner, never cut short; and the owner
/// reported is the owner recorded for the image itself.
pub proof fn lineage_ends_at_original(registry: RegistryView, image_hash: Seq<char>)
    requires
        well_formed(registry),
        registry.contains_key(image_hash),
    ensures
        resolve_root(registry, image_hash, registry.len()) is Some,
        ({
            let root_hash = resolve_root(registry, image_hash, registry.len())->Some_0;
            &&& registry.contains_key(root_hash)
            &&& registry[root_hash].previous_image_hash is None
            &&& registry[root_hash].is_root
            &&& registry[root_hash].owner_pk == registry[image_hash].owner_pk
            &&& verify_image(registry, image_hash) == (
                registry,
                OutcomeView::Verified { root_hash, owner_pk: registry[image_hash].owner_pk },
            )
        }),
{
    assert(record_well_formed(registry, image_hash));
    lemma_resolved_is_parentless(registry, image_hash, registry.len());
    lemma_resolved_has_same_owner(registry, image_hash, registry.len());
    lemma_resolve_with_more_steps(registry, image_hash, registry.len(), walk_limit(registry));
    let root_hash = resolve_root(registry, image_hash, registry.len())->Some_0;
    assert(record_well_formed(registry, root_hash));
}

/// Whatever sequence of actions built the registry, the walk along the parent
/// links from any image registered in it arrives at an original image, after
/// looking at no more records than the registry holds.
pub proof fn reachable_lineage_ends_at_original<V: SignatureVerifier>(
    verifier: &V,
    actions: Seq<ActionView>,
    image_hash: Seq<char>,
)
    requires
        run(verifier, actions).contains_key(image_hash),
    ensures
        ({
            let registry = run(verifier, actions);
            &&& resolve_root(registry, image_hash, registry.len()) matches Some(root_hash)
            &&& registry.contains_key(root_hash)
            &&& registry[root_hash].previous_image_hash is None
        }),
{
    reachable_is_well_formed(verifier, actions);
    lineage_ends_at_original(run(verifier, actions), image_hash);
}

/// A hash is registered once. Registering an original image, or an edit,
/// under a hash that is registered is turned down, and the registry stays as
/// it is.
pub proof fn registered_hash_is_refused<V: SignatureVerifier>(
    verifier: &V,
    registry: RegistryView,
    image_hash: Seq<char>,
    other_hash: Seq<char>,
    signature: Seq<char>,
    owner_pk: Seq<char>,
)
    requires
        registry.contains_key(image_hash),
    ensures
        step(
            verifier,
            registry,
            ActionView::RegisterImage { image_hash, image_signature: signature, owner_pk },
        ) == (registry, OutcomeView::AlreadyExists),
        step(
            verifier,
            registry,
            ActionView::RegisterEdit {
                original_image_hash: other_hash,
                edited_image_hash: image_hash,
                original_edit_signature: signature,
            },
        ) == (registry, OutcomeView::EditedHashAlreadyExists),
{
}

/// No action removes a record or changes its parent, its owner or its flag:
/// all that can change in a registered record is that it gains a publisher.
pub proof fn records_are_kept<V: SignatureVerifier>(
    verifier: &V,
    registry: RegistryView,
    action: ActionView,
    image_hash: Seq<char>,
)
    requires
        registry.contains_key(image_hash),
    ensures
        ({
            let before = registry[image_hash];
            let after = step(verifier, registry, action).0;
            &&& after.contains_key(image_hash)
            &&& after[image_hash].previous_image_hash == before.previous_image_hash
            &&& after[image_hash].owner_pk == before.owner_pk
            &&& after[image_hash].is_root == before.is_root
            &&& before.publishers.subset_of(after[image_hash].publishers)
        }),
{
}

/// An edit under a hash that is not yet registered is accepted if and only
/// if the original is registered and its owner's signature is valid for the
/// original's hash followed by the edit's hash. The record of an accepted
/// edit names the original as its parent and has the original's owner. A
/// signature that is valid only for the two hashes in the other order is
/// turned down.
pub proof fn edit_accepted_iff_owner_signed<V: SignatureVerifier>(
    verifier: &V,
    registry: RegistryView,
    original_image_hash: Seq<char>,
    edited_image_hash: Seq<char>,
    signature: Seq<char>,
)
    requires
        !registry.contains_key(edited_image_hash),
    ensures
        ({
            let action = ActionView::RegisterEdit {
                original_image_hash,
                edited_image_hash,
                original_edit_signature: signature,
            };
            let (after, outcome) = step(verifier, registry, action);
            let owner_pk = registry[original_image_hash].owner_pk;
            let signed = verifier.accepts(
                owner_pk,
                original_image_hash + edited_image_hash,
                signature,
            );
            let signed_in_reverse = verifier.accepts(
                owner_pk,
                edited_image_hash + original_image_hash,
                signature,
            );
            &&& outcome is EditRegistered <==> registry.contains_key(original_image_hash) && signed
            &&& outcome is EditRegistered ==> after == registry.insert(
                edited_image_hash,
                edit_record(original_image_hash, owner_pk),
            )
            &&& !(outcome is EditRegistered) ==> after == registry && outcome.is_rejection()
            &&& registry.contains_key(original_image_hash) && signed_in_reverse && !signed
                ==> outcome == OutcomeView::InvalidSignature
        }),
{
}

/// A publisher is granted only on an original image. On an edit the grant is
/// turned down whatever the verifier says of the signature, and the registry
/// stays as it is.
pub proof fn publisher_only_on_original<V: SignatureVerifier>(
    verifier: &V,
    registry: RegistryView,
    original_image_hash: Seq<char>,
    signature: Seq<char>,
    publisher_pk: Seq<char>,
)
    ensures
        ({
            let action = ActionView::AddPublisher {
                original_image_hash,
                original_image_signature: signature,
                publisher_pk,
            };
            let (after, outcome) = step(verifier, registry, action);
            let record = registry[original_image_hash];
            &&& outcome is PublisherAdded || outcome is PublisherAlreadyPresent
                ==> registry.contains_key(original_image_hash) && record.is_root
                && verifier.accepts(record.owner_pk, original_image_hash, signature)
            &&& registry.contains_key(original_image_hash) && !record.is_root
                ==> outcome == OutcomeView::NotRootOrInvalidSignature && after == registry
        }),
{
}

/// An action that is turned down leaves the registry as it is, and is turned
/// down in the same way when it is applied again.
pub proof fn rejection_is_idempotent<V: SignatureVerifier>(
    verifier: &V,
    registry: RegistryView,
    action: ActionView,
)
    requires
        step(verifier, registry, action).1.is_rejection(),
    ensures
        step(verifier, registry, action).0 == registry,
        step(verifier, step(verifier, registry, action).0, action) == step(
            verifier,
            registry,
            action,
        ),
{
}

/// A query leaves the registry as it is.
pub proof fn query_changes_nothing<V: SignatureVerifier>(
    verifier: &V,
    registry: RegistryView,
    image_hash: Seq<char>,
)
    ensures
        step(verifier, registry, ActionView::VerifyImage { image_hash }).0 == registry,
{
}

} // verus!
