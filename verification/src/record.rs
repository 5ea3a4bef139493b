//! The values that callers hand to the registry and get back from it.

use crate::key_set::KeySet;
use crate::model::{ActionView, OutcomeView, RecordView};
use vstd::prelude::*;
use vstd::string::*;

verus! {

/// What the registry stores for one image.
#[derive(Debug)]
pub struct ImageMetadata {
    /// `None` for an original image, the parent's hash for an edit.
    pub previous_image_hash: Option<String>,
    /// The key that approves edits of this image.
    pub owner_pk: String,
    /// Keys authorised to publish on the owner's behalf.
    pub publishers: KeySet,
    /// Whether the image is an original.
    pub is_root: bool,
}

impl Clone for ImageMetadata {
    /// A record with the same parent, owner, publishers and flag.
    fn clone(&self) -> (copy: ImageMetadata)
        ensures
            copy@ == self@,
    {
        ImageMetadata {
            previous_image_hash: match &self.previous_image_hash {
                Some(hash) => Some(hash.clone()),
                None => None,
            },
            owner_pk: self.owner_pk.clone(),
            publishers: self.publishers.clone(),
            is_root: self.is_root,
        }
    }
}

impl View for ImageMetadata {
    type V = RecordView;

    open spec fn view(&self) -> RecordView {
        RecordView {
            previous_image_hash: match self.previous_image_hash {
                Some(hash) => Some(hash@),
                None => None,
            },
            owner_pk: self.owner_pk@,
            publishers: self.publishers@,
            is_root: self.is_root,
        }
    }
}

/// A request to the registry.
#[derive(Debug, PartialEq, Eq)]
pub enum ImageAction {
    /// Registers an original image. The signature is carried but not checked.
    RegisterImage { image_hash: String, image_signature: String, owner_pk: String },
    /// Registers an edit of a registered image, approved by the owner's
    /// signature over the original's hash followed by the edit's hash.
    RegisterEdit {
        original_image_hash: String,
        edited_image_hash: String,
        original_edit_signature: String,
    },
    /// Authorises a publisher on an original image, approved by the owner's
    /// signature over the image's hash.
    AddPublisher {
        original_image_hash: String,
        original_image_signature: String,
        publisher_pk: String,
    },
    /// Asks which original an image derives from.
    VerifyImage { image_hash: String },
}

impl View for ImageAction {
    type V = ActionView;

    open spec fn view(&self) -> ActionView {
        match self {
            ImageAction::RegisterImage {
                image_hash,
                image_signature,
                owner_pk,
            } => ActionView::RegisterImage {
                image_hash: image_hash@,
                image_signature: image_signature@,
                owner_pk: owner_pk@,
            },
            ImageAction::RegisterEdit {
                original_image_hash,
                edited_image_hash,
                original_edit_signature,
            } => ActionView::RegisterEdit {
                original_image_hash: original_image_hash@,
                edited_image_hash: edited_image_hash@,
                original_edit_signature: original_edit_signature@,
            },
            ImageAction::AddPublisher {
                original_image_hash,
                original_image_signature,
                publisher_pk,
            } => ActionView::AddPublisher {
                original_image_hash: original_image_hash@,
                original_image_signature: original_image_signature@,
                publisher_pk: publisher_pk@,
            },
            ImageAction::VerifyImage { image_hash } => ActionView::VerifyImage {
                image_hash: image_hash@,
            },
        }
    }
}

impl Clone for ImageAction {
    /// The same request.
    fn clone(&self) -> (copy: ImageAction)
        ensures
            copy@ == self@,
    {
        match self {
            ImageAction::RegisterImage {
                image_hash,
                image_signature,
                owner_pk,
            } => ImageAction::RegisterImage {
                image_hash: image_hash.clone(),
                image_signature: image_signature.clone(),
                owner_pk: owner_pk.clone(),
            },
            ImageAction::RegisterEdit {
                original_image_hash,
                edited_image_hash,
                original_edit_signature,
            } => ImageAction::RegisterEdit {
                original_image_hash: original_image_hash.clone(),
                edited_image_hash: edited_image_hash.clone(),
                original_edit_signature: original_edit_signature.clone(),
            },
            ImageAction::AddPublisher {
                original_image_hash,
                original_image_signature,
                publisher_pk,
            } => ImageAction::AddPublisher {
                original_image_hash: original_image_hash.clone(),
                original_image_signature: original_image_signature.clone(),
                publisher_pk: publisher_pk.clone(),
            },
            ImageAction::VerifyImage { image_hash } => ImageAction::VerifyImage {
                image_hash: image_hash.clone(),
            },
        }
    }
}

/// What the registry answers to an action. Every action is answered; a rule
/// that turns an action down is reported here and never raised.
#[derive(Debug, PartialEq, Eq)]
pub enum Outcome {
    /// The original image was registered under `image_hash`.
    Registered { image_hash: String },
    /// The hash of the image to register is taken.
    AlreadyExists,
    /// The edit was registered.
    EditRegistered,
    /// The hash of the edit to register is taken.
    EditedHashAlreadyExists,
    /// The image that the edit derives from is not registered.
    OriginalHashNotFound,
    /// The owner's signature does not approve the edit.
    InvalidSignature,
    /// The publisher was added to the image's publishers.
    PublisherAdded,
    /// The publisher was already among the image's publishers.
    PublisherAlreadyPresent,
    /// The image is an edit, or the owner's signature does not approve the
    /// grant.
    NotRootOrInvalidSignature,
    /// The image derives from the original `root_hash`, owned by `owner_pk`.
    Verified { root_hash: String, owner_pk: String },
    /// The image, or one of its ancestors, is not registered.
    NotFound,
}

impl View for Outcome {
    type V = OutcomeView;

    open spec fn view(&self) -> OutcomeView {
        match self {
            Outcome::Registered { image_hash } => OutcomeView::Registered {
                image_hash: image_hash@,
            },
            Outcome::AlreadyExists => OutcomeView::AlreadyExists,
            Outcome::EditRegistered => OutcomeView::EditRegistered,
            Outcome::EditedHashAlreadyExists => OutcomeView::EditedHashAlreadyExists,
            Outcome::OriginalHashNotFound => OutcomeView::OriginalHashNotFound,
            Outcome::InvalidSignature => OutcomeView::InvalidSignature,
            Outcome::PublisherAdded => OutcomeView::PublisherAdded,
            Outcome::PublisherAlreadyPresent => OutcomeView::PublisherAlreadyPresent,
            Outcome::NotRootOrInvalidSignature => OutcomeView::NotRootOrInvalidSignature,
            Outcome::Verified { root_hash, owner_pk } => OutcomeView::Verified {
                root_hash: root_hash@,
                owner_pk: owner_pk@,
            },
            Outcome::NotFound => OutcomeView::NotFound,
        }
    }
}

impl Clone for Outcome {
    /// The same outcome.
    fn clone(&self) -> (copy: Outcome)
        ensures
            copy@ == self@,
    {
        match self {
            Outcome::Registered { image_hash } => Outcome::Registered {
                image_hash: image_hash.clone(),
            },
            Outcome::AlreadyExists => Outcome::AlreadyExists,
            Outcome::EditRegistered => Outcome::EditRegistered,
            Outcome::EditedHashAlreadyExists => Outcome::EditedHashAlreadyExists,
            Outcome::OriginalHashNotFound => Outcome::OriginalHashNotFound,
            Outcome::InvalidSignature => Outcome::InvalidSignature,
            Outcome::PublisherAdded => Outcome::PublisherAdded,
            Outcome::PublisherAlreadyPresent => Outcome::PublisherAlreadyPresent,
            Outcome::NotRootOrInvalidSignature => Outcome::NotRootOrInvalidSignature,
            Outcome::Verified { root_hash, owner_pk } => Outcome::Verified {
                root_hash: root_hash.clone(),
                owner_pk: owner_pk.clone(),
            },
            Outcome::NotFound => Outcome::NotFound,
        }
    }
}

/// The text that reports an outcome.
pub open spec fn outcome_text(outcome: OutcomeView) -> Seq<char> {
    match outcome {
        OutcomeView::Registered { image_hash } => "registered: "@ + image_hash,
        OutcomeView::AlreadyExists => "already exists"@,
        OutcomeView::EditRegistered => "edit registered"@,
        OutcomeView::EditedHashAlreadyExists => "edited hash already exists"@,
        OutcomeView::OriginalHashNotFound => "original hash not found"@,
        OutcomeView::InvalidSignature => "invalid signature"@,
        OutcomeView::PublisherAdded => "publisher added"@,
        OutcomeView::PublisherAlreadyPresent => "publisher already present"@,
        OutcomeView::NotRootOrInvalidSignature => "not a root image / invalid signature"@,
        OutcomeView::Verified { root_hash, owner_pk } => "root: "@ + root_hash + ", owner: "@
            + owner_pk,
        OutcomeView::NotFound => "not found"@,
    }
}

impl Outcome {
    /// The text that reports this outcome.
    pub fn message(&self) -> (text: String)
        ensures
            text@ == outcome_text(self@),
    {
        match self {
            Outcome::Registered { image_hash } => {
                let mut text = "registered: ".to_owned();
                text.append(image_hash.as_str());
                text
            },
            Outcome::AlreadyExists => "already exists".to_owned(),
            Outcome::EditRegistered => "edit registered".to_owned(),
            Outcome::EditedHashAlreadyExists => "edited hash already exists".to_owned(),
            Outcome::OriginalHashNotFound => "original hash not found".to_owned(),
            Outcome::InvalidSignature => "invalid signature".to_owned(),
            Outcome::PublisherAdded => "publisher added".to_owned(),
            Outcome::PublisherAlreadyPresent => "publisher already present".to_owned(),
            Outcome::NotRootOrInvalidSignature => "not a root image / invalid signature".to_owned(),
            Outcome::Verified { root_hash, owner_pk } => {
                let mut text = "root: ".to_owned();
                text.append(root_hash.as_str());
                text.append(", owner: ");
                text.append(owner_pk.as_str());
                text
            },
            Outcome::NotFound => "not found".to_owned(),
        }
    }

    /// Whether this outcome reports that a rule turned the action down.
    pub fn is_rejection(&self) -> (rejected: bool)
        ensures
            rejected == self@.is_rejection(),
    {
        match self {
            Outcome::AlreadyExists => true,
            Outcome::EditedHashAlreadyExists => true,
            Outcome::OriginalHashNotFound => true,
            Outcome::InvalidSignature => true,
            Outcome::NotRootOrInvalidSignature => true,
            Outcome::NotFound => true,
            _ => false,
        }
    }
}

} // verus!
