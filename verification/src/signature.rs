//! Signature verification as an injected capability.
//!
//! The registry never names a signature scheme. It asks a
//! [`SignatureVerifier`] whether a signature authenticates a message under a
//! public key, and every contract of the registry is stated for an arbitrary
//! verifier.

use vstd::prelude::*;
use vstd::string::*;

verus! {

/// A signature scheme, seen from the registry: a total, deterministic
/// predicate on (public key, message, signature).
pub trait SignatureVerifier {
    /// Whether `signature` authenticates `message` under `public_key`.
    spec fn accepts(
        &self,
        public_key: Seq<char>,
        message: Seq<char>,
        signature: Seq<char>,
    ) -> bool;

    /// Decides `accepts`. A malformed signature is answered with `false`.
    fn verify(&self, public_key: &str, message: &str, signature: &str) -> (ok: bool)
        ensures
            ok == self.accepts(public_key@, message@, signature@),
    ;
}

/// The lower-case form of a string, as `str::to_lowercase` of the standard
/// library computes it.
pub uninterp spec fn lowercase(s: Seq<char>) -> Seq<char>;

/// Calls `str::to_lowercase`. The result is the Unicode lower-case mapping of
/// the argument and depends on nothing but the argument; the contract gives it
/// the name `lowercase` and claims nothing else of it.
#[verifier::external_body]
fn to_lowercase(s: &str) -> (lowered: String)
    ensures
        lowered@ == lowercase(s@),
{
    s.to_lowercase()
}

/// Whether `lowered` is exactly the word `true`.
pub fn is_true_literal(lowered: &str) -> (b: bool)
    ensures
        b == (lowered@ == "true"@),
{
    let word: String = "true".to_owned();
    let candidate: String = lowered.to_owned();
    candidate == word
}

/// A stand-in signature check: a signature is valid iff it reads `true` once
/// lower-cased. The key and the message are ignored.
pub fn dummy_verify_signature(_pk: String, _message: String, signature: String) -> (ok: bool)
    ensures
        ok == (lowercase(signature@) == "true"@),
{
    let lowered = to_lowercase(signature.as_str());
    is_true_literal(lowered.as_str())
}

/// The verifier that [`dummy_verify_signature`] stands for.
pub struct DummyVerifier;

impl SignatureVerifier for DummyVerifier {
    open spec fn accepts(
        &self,
        public_key: Seq<char>,
        message: Seq<char>,
        signature: Seq<char>,
    ) -> bool {
        lowercase(signature) == "true"@
    }

    fn verify(&self, public_key: &str, message: &str, signature: &str) -> (ok: bool) {
        let lowered = to_lowercase(signature);
        is_true_literal(lowered.as_str())
    }
}

/// Whether `check` can stand for a signature scheme: it answers every
/// question, and its answer depends on nothing but the characters of the key,
/// the message and the signature.
pub open spec fn is_signature_check<F: Fn(String, String, String) -> bool>(check: F) -> bool {
    &&& forall|public_key: String, message: String, signature: String|
        call_requires(check, (public_key, message, signature))
    &&& forall|
        public_key: String,
        message: String,
        signature: String,
        same_key: String,
        same_message: String,
        same_signature: String,
        answer: bool,
        other_answer: bool,
    |
        #![trigger
            call_ensures(check, (public_key, message, signature), answer),
            call_ensures(check, (same_key, same_message, same_signature), other_answer),
        ]
        public_key@ == same_key@ && message@ == same_message@ && signature@ == same_signature@
            && call_ensures(check, (public_key, message, signature), answer)
            && call_ensures(check, (same_key, same_message, same_signature), other_answer)
            ==> answer == other_answer
}

/// A verifier made of a function from (public key, message, signature) to
/// `bool`.
pub struct FnVerifier<F: Fn(String, String, String) -> bool> {
    check: F,
}

impl<F: Fn(String, String, String) -> bool> FnVerifier<F> {
    #[verifier::type_invariant]
    spec fn checks(&self) -> bool {
        is_signature_check(self.check)
    }

    /// The function that this verifier asks.
    pub closed spec fn check(&self) -> F {
        self.check
    }

    /// The verifier that asks `check`.
    pub fn new(check: F) -> (verifier: FnVerifier<F>)
        requires
            is_signature_check(check),
        ensures
            verifier.check() == check,
    {
        FnVerifier { check }
    }
}

impl<F: Fn(String, String, String) -> bool> SignatureVerifier for FnVerifier<F> {
    open spec fn accepts(
        &self,
        public_key: Seq<char>,
        message: Seq<char>,
        signature: Seq<char>,
    ) -> bool {
        exists|key: String, signed: String, given: String|
            key@ == public_key && signed@ == message && given@ == signature
                && #[trigger] call_ensures(self.check(), (key, signed, given), true)
    }

    fn verify(&self, public_key: &str, message: &str, signature: &str) -> (ok: bool) {
        proof {
            use_type_invariant(self);
        }
        let key = public_key.to_owned();
        let signed = message.to_owned();
        let given = signature.to_owned();
        let ok = (self.check)(key, signed, given);
        proof {
            assert(call_ensures(self.check(), (key, signed, given), ok));
            if self.accepts(public_key@, message@, signature@) {
                let (k, m, g) = choose|k: String, m: String, g: String|
                    k@ == public_key@ && m@ == message@ && g@ == signature@
                        && #[trigger] call_ensures(self.check(), (k, m, g), true);
                assert(call_ensures(self.check(), (k, m, g), true));
            }
        }
        ok
    }
}

} // verus!
