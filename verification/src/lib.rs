//! A registry of image lineage: which image hashes are originals, which are
//! edits of which, who owns each lineage and who may publish on the owner's
//! behalf.
//!
//! The registry is a value, [`ImageState`]. [`ImageState::execute`] applies
//! one [`ImageAction`] to it and answers with an [`Outcome`]; what it does is
//! stated by the transition function [`model::step`], and what holds of every
//! registry that actions can build is proved in [`theorems`]. Signatures are
//! checked by whatever [`SignatureVerifier`] the caller hands in.

pub mod key_set;
pub mod model;
pub mod record;
pub mod signature;
pub mod state;
pub mod theorems;

pub use crate::key_set::KeySet;
pub use crate::record::{ImageAction, ImageMetadata, Outcome};
pub use crate::signature::{dummy_verify_signature, DummyVerifier, FnVerifier, SignatureVerifier};
pub use crate::state::{apply, ImageState};
