//! The registry itself, and the transition that applies one action to it.

use crate::key_set::{
    distinct_keys, key_set, lemma_key_set_empty, lemma_key_set_len, lemma_key_set_push,
    lemma_push_keeps_distinct, KeySet,
};
use crate::model::{
    add_publisher, register_edit, register_image, resolve_root, step, verify_image, walk_limit,
    well_formed, RegistryView,
};
use crate::record::{ImageAction, ImageMetadata, Outcome};
use crate::signature::SignatureVerifier;
use crate::theorems::step_keeps_well_formed;
use vstd::hash_map::StringHashMap;
use vstd::prelude::*;
use vstd::string::*;

verus! {

/// `std::io::Error`, the error type of [`ImageState::is_original_image`].
/// Nothing is claimed of its values.
#[verifier::external_type_specification]
#[verifier::external_body]
pub struct ExIoError(std::io::Error);

/// The registry that a list of (hash, record) pairs stands for. Where a hash
/// occurs more than once, its last record counts.
pub open spec fn records_view(records: Seq<(String, ImageMetadata)>) -> RegistryView
    decreases records.len(),
{
    if records.len() == 0 {
        RegistryView::empty()
    } else {
        records_view(records.drop_last()).insert(records.last().0@, records.last().1@)
    }
}

/// Whether no two pairs of the list have the same hash.
pub open spec fn distinct_hashes(records: Seq<(String, ImageMetadata)>) -> bool {
    forall|i: int, j: int|
        0 <= i < j < records.len() ==> (#[trigger] records[i]).0@ != (#[trigger] records[j]).0@
}

/// The registry: every registered image hash with its record.
///
/// One hash has one record. Records are added and never removed; the only
/// change ever made to a record is a new publisher on an original image. A
/// registry that starts empty and changes by [`ImageState::execute`] alone is
/// [`well_formed`] at all times.
pub struct ImageState {
    hash_map: StringHashMap<ImageMetadata>,
    /// The registered hashes, in the order of their registration.
    order: Vec<String>,
}

impl View for ImageState {
    type V = RegistryView;

    closed spec fn view(&self) -> RegistryView {
        Map::new(
            |hash: Seq<char>| self.hash_map@.contains_key(hash),
            |hash: Seq<char>| self.hash_map@[hash]@,
        )
    }
}

impl ImageState {
    #[verifier::type_invariant]
    spec fn indexed(&self) -> bool {
        &&& distinct_keys(self.order@)
        &&& self.hash_map@.dom() == key_set(self.order@)
    }

    /// The empty registry.
    pub fn new() -> (registry: ImageState)
        ensures
            registry@ == RegistryView::empty(),
            well_formed(registry@),
    {
        let hash_map: StringHashMap<ImageMetadata> = StringHashMap::new();
        let order: Vec<String> = Vec::new();
        proof {
            lemma_key_set_empty();
            assert(hash_map@.dom() =~= key_set(order@));
        }
        let registry = ImageState { hash_map, order };
        assert(registry@ =~= RegistryView::empty());
        registry
    }

    /// The number of registered images.
    pub fn len(&self) -> (count: usize)
        ensures
            count == self@.len(),
            self@.dom().finite(),
    {
        proof {
            use_type_invariant(self);
            lemma_key_set_len(self.order@);
            assert(self@.dom() =~= self.hash_map@.dom());
        }
        self.order.len()
    }

    /// The record registered under `image_hash`, if there is one.
    pub fn get(&self, image_hash: &str) -> (found: Option<&ImageMetadata>)
        ensures
            found is Some == self@.contains_key(image_hash@),
            found matches Some(record) ==> record@ == self@[image_hash@],
    {
        self.hash_map.get(image_hash)
    }

    /// Whether `img_hash` is registered as an original image. The answer is
    /// always `Ok`.
    pub fn is_original_image(&self, img_hash: String) -> (answer: Result<bool, std::io::Error>)
        ensures
            answer matches Ok(original) && original == (self@.contains_key(img_hash@)
                && self@[img_hash@].is_root),
    {
        match self.hash_map.get(img_hash.as_str()) {
            Some(record) => Ok(record.is_root),
            None => Ok(false),
        }
    }

    /// Stores `record` under `hash`, in place of what was there.
    fn put(&mut self, hash: String, record: ImageMetadata)
        ensures
            final(self)@ == old(self)@.insert(hash@, record@),
    {
        proof {
            use_type_invariant(&*self);
        }
        let mut taken = ImageState::new();
        std::mem::swap(self, &mut taken);
        let ImageState { mut hash_map, mut order } = taken;
        let ghost before = order@;
        if !hash_map.contains_key(hash.as_str()) {
            let key = hash.clone();
            order.push(key);
            proof {
                lemma_key_set_push(before, key);
                lemma_push_keeps_distinct(before, key);
            }
        }
        hash_map.insert(hash, record);
        assert(hash_map@.dom() =~= key_set(order@));
        *self = ImageState { hash_map, order };
        assert(self@ =~= old(self)@.insert(hash@, record@));
    }

    /// Registers an original image under `image_hash`, unless the hash is
    /// taken.
    fn register_image(&mut self, image_hash: String, owner_pk: String) -> (outcome: Outcome)
        ensures
            final(self)@ == register_image(old(self)@, image_hash@, owner_pk@).0,
            outcome@ == register_image(old(self)@, image_hash@, owner_pk@).1,
    {
        if self.hash_map.contains_key(image_hash.as_str()) {
            Outcome::AlreadyExists
        } else {
            let record = ImageMetadata {
                previous_image_hash: None,
                owner_pk,
                publishers: KeySet::new(),
                is_root: true,
            };
            let reported = image_hash.clone();
            self.put(image_hash, record);
            Outcome::Registered { image_hash: reported }
        }
    }

    /// Registers `edited_image_hash` as an edit of `original_image_hash`,
    /// if the hash is new, the original is registered and its owner signed
    /// the original's hash followed by the edit's.
    fn register_edit<V: SignatureVerifier>(
        &mut self,
        verifier: &V,
        original_image_hash: String,
        edited_image_hash: String,
        signature: String,
    ) -> (outcome: Outcome)
        ensures
            final(self)@ == register_edit(
                verifier,
                old(self)@,
                original_image_hash@,
                edited_image_hash@,
                signature@,
            ).0,
            outcome@ == register_edit(
                verifier,
                old(self)@,
                original_image_hash@,
                edited_image_hash@,
                signature@,
            ).1,
    {
        if self.hash_map.contains_key(edited_image_hash.as_str()) {
            return Outcome::EditedHashAlreadyExists;
        }
        let owner_pk = match self.hash_map.get(original_image_hash.as_str()) {
            None => {
                return Outcome::OriginalHashNotFound;
            },
            Some(original) => original.owner_pk.clone(),
        };
        let mut message = original_image_hash.clone();
        message.append(edited_image_hash.as_str());
        if verifier.verify(owner_pk.as_str(), message.as_str(), signature.as_str()) {
            let record = ImageMetadata {
                previous_image_hash: Some(original_image_hash),
                owner_pk,
                publishers: KeySet::new(),
                is_root: false,
            };
            self.put(edited_image_hash, record);
            Outcome::EditRegistered
        } else {
            Outcome::InvalidSignature
        }
    }

    /// Adds `publisher_pk` to the publishers of `original_image_hash`, if
    /// that image is a registered original and its owner signed its hash.
    fn add_publisher<V: SignatureVerifier>(
        &mut self,
        verifier: &V,
        original_image_hash: String,
        signature: String,
        publisher_pk: String,
    ) -> (outcome: Outcome)
        ensures
            final(self)@ == add_publisher(
                verifier,
                old(self)@,
                original_image_hash@,
                signature@,
                publisher_pk@,
            ).0,
            outcome@ == add_publisher(
                verifier,
                old(self)@,
                original_image_hash@,
                signature@,
                publisher_pk@,
            ).1,
    {
        let updated = match self.hash_map.get(original_image_hash.as_str()) {
            None => {
                return Outcome::NotFound;
            },
            Some(record) => {
                if !record.is_root {
                    return Outcome::NotRootOrInvalidSignature;
                }
                if !verifier.verify(
                    record.owner_pk.as_str(),
                    original_image_hash.as_str(),
                    signature.as_str(),
                ) {
                    return Outcome::NotRootOrInvalidSignature;
                }
                if record.publishers.contains(publisher_pk.as_str()) {
                    return Outcome::PublisherAlreadyPresent;
                }
                let mut updated = record.clone();
                updated.publishers.insert(publisher_pk);
                updated
            },
        };
        self.put(original_image_hash, updated);
        Outcome::PublisherAdded
    }

    /// Follows the parent links from `image_hash` to the original it derives
    /// from, and reports that original with its owner. The walk looks at no
    /// more records than the registry holds, and one.
    fn verify_image(&self, image_hash: String) -> (outcome: Outcome)
        ensures
            outcome@ == verify_image(self@, image_hash@).1,
    {
        let mut remaining = self.len();
        let mut current = image_hash;
        loop
            invariant
                resolve_root(self@, current@, (remaining + 1) as nat) == resolve_root(
                    self@,
                    image_hash@,
                    walk_limit(self@),
                ),
            decreases remaining,
        {
            match self.hash_map.get(current.as_str()) {
                None => {
                    return Outcome::NotFound;
                },
                Some(record) => match &record.previous_image_hash {
                    None => {
                        let owner_pk = record.owner_pk.clone();
                        return Outcome::Verified { root_hash: current, owner_pk };
                    },
                    Some(parent) => {
                        if remaining == 0 {
                            // The walk has looked at every record it may.
                            assert(resolve_root(self@, parent@, 0) is None);
                            return Outcome::NotFound;
                        }
                        remaining -= 1;
                        current = parent.clone();
                    },
                },
            }
        }
    }

    /// Applies `action` to the registry and reports the outcome.
    ///
    /// Every action is answered. An action that a rule turns down leaves the
    /// registry as it was; so does a query.
    pub fn execute<V: SignatureVerifier>(
        &mut self,
        action: ImageAction,
        verifier: &V,
    ) -> (outcome: Outcome)
        ensures
            final(self)@ == step(verifier, old(self)@, action@).0,
            outcome@ == step(verifier, old(self)@, action@).1,
            well_formed(old(self)@) ==> well_formed(final(self)@),
    {
        proof {
            if well_formed(self@) {
                step_keeps_well_formed(verifier, self@, action@);
            }
        }
        match action {
            ImageAction::RegisterImage {
                image_hash,
                image_signature: _,
                owner_pk,
            } => self.register_image(image_hash, owner_pk),
            ImageAction::RegisterEdit {
                original_image_hash,
                edited_image_hash,
                original_edit_signature,
            } => self.register_edit(
                verifier,
                original_image_hash,
                edited_image_hash,
                original_edit_signature,
            ),
            ImageAction::AddPublisher {
                original_image_hash,
                original_image_signature,
                publisher_pk,
            } => self.add_publisher(
                verifier,
                original_image_hash,
                original_image_signature,
                publisher_pk,
            ),
            ImageAction::VerifyImage { image_hash } => self.verify_image(image_hash),
        }
    }

    /// Every registered hash with a copy of its record, each hash once.
    pub fn records(&self) -> (records: Vec<(String, ImageMetadata)>)
        ensures
            records_view(records@) == self@,
            distinct_hashes(records@),
            records@.len() == self@.len(),
    {
        proof {
            use_type_invariant(self);
            lemma_key_set_len(self.order@);
            assert(self@.dom() =~= self.hash_map@.dom());
        }
        let mut records: Vec<(String, ImageMetadata)> = Vec::new();
        let mut i: usize = 0;
        while i < self.order.len()
            invariant
                i <= self.order.len(),
                distinct_keys(self.order@),
                self.hash_map@.dom() == key_set(self.order@),
                records@.len() == i,
                forall|j: int| 0 <= j < i ==> (#[trigger] records@[j]).0@ == self.order@[j]@,
                records_view(records@) == self@.restrict(key_set(self.order@.take(i as int))),
            decreases self.order.len() - i,
        {
            let hash = self.order[i].clone();
            assert(key_set(self.order@).contains(self.order@[i as int]@));
            let found = self.hash_map.get(hash.as_str());
            let record = found.unwrap().clone();
            let ghost before = records@;
            records.push((hash, record));
            proof {
                assert(records@.drop_last() =~= before);
                assert(self.order@.take(i + 1) =~= self.order@.take(i as int).push(
                    self.order@[i as int],
                ));
                lemma_key_set_push(self.order@.take(i as int), self.order@[i as int]);
                assert(records_view(records@) =~= self@.restrict(
                    key_set(self.order@.take(i + 1)),
                ));
            }
            i += 1;
        }
        proof {
            assert(self.order@.take(i as int) =~= self.order@);
            assert(self@.restrict(key_set(self.order@)) =~= self@);
        }
        records
    }

    /// The registry that holds `records`. Where a hash occurs more than once,
    /// its last record counts. The records are taken as they are: nothing
    /// here asks whether their links form a forest.
    pub fn from_records(records: &Vec<(String, ImageMetadata)>) -> (registry: ImageState)
        ensures
            registry@ == records_view(records@),
    {
        let mut registry = ImageState::new();
        let mut i: usize = 0;
        while i < records.len()
            invariant
                i <= records.len(),
                registry@ == records_view(records@.take(i as int)),
            decreases records.len() - i,
        {
            let hash = records[i].0.clone();
            let record = records[i].1.clone();
            registry.put(hash, record);
            proof {
                assert(records@.take(i + 1).drop_last() =~= records@.take(i as int));
            }
            i += 1;
        }
        assert(records@.take(i as int) =~= records@);
        registry
    }
}

impl Clone for ImageState {
    /// A registry with the same records.
    fn clone(&self) -> (copy: ImageState)
        ensures
            copy@ == self@,
    {
        let records = self.records();
        ImageState::from_records(&records)
    }
}

/// Applies `action` to `registry`: the registry that results, and the outcome
/// reported for the action.
pub fn apply<V: SignatureVerifier>(
    registry: ImageState,
    action: ImageAction,
    verifier: &V,
) -> (result: (ImageState, Outcome))
    ensures
        result.0@ == step(verifier, registry@, action@).0,
        result.1@ == step(verifier, registry@, action@).1,
        well_formed(registry@) ==> well_formed(result.0@),
{
    let mut registry = registry;
    let outcome = registry.execute(action, verifier);
    (registry, outcome)
}

} // verus!
