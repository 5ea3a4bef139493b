use image_registry::signature::is_true_literal;
use image_registry::{dummy_verify_signature, DummyVerifier, SignatureVerifier};

fn s(text: &str) -> String {
    text.to_string()
}

#[test]
fn dummy_accepts_true_in_any_case() {
    assert!(dummy_verify_signature(s("K1"), s("a1b2"), s("true")));
    assert!(dummy_verify_signature(s("K1"), s("a1b2"), s("TRUE")));
    assert!(dummy_verify_signature(s("K1"), s("a1b2"), s("True")));
    assert!(dummy_verify_signature(s("K1"), s("a1b2"), s("tRuE")));
}

#[test]
fn dummy_rejects_everything_else() {
    assert!(!dummy_verify_signature(s("K1"), s("a1b2"), s("false")));
    assert!(!dummy_verify_signature(s("K1"), s("a1b2"), s("")));
    assert!(!dummy_verify_signature(s("K1"), s("a1b2"), s(" true")));
    assert!(!dummy_verify_signature(s("K1"), s("a1b2"), s("true ")));
    assert!(!dummy_verify_signature(s("K1"), s("a1b2"), s("truee")));
    assert!(!dummy_verify_signature(s("K1"), s("a1b2"), s("tru")));
    assert!(!dummy_verify_signature(s("K1"), s("a1b2"), s("yes")));
    assert!(!dummy_verify_signature(s("K1"), s("a1b2"), s("1")));
}

#[test]
fn dummy_ignores_key_and_message() {
    assert!(dummy_verify_signature(s(""), s(""), s("true")));
    assert!(dummy_verify_signature(s("K2"), s("b2a1"), s("true")));
    assert!(!dummy_verify_signature(s("true"), s("true"), s("no")));
}

#[test]
fn true_literal_is_exact() {
    assert!(is_true_literal("true"));
    assert!(!is_true_literal("TRUE"));
    assert!(!is_true_literal("True"));
    assert!(!is_true_literal(""));
    assert!(!is_true_literal("true\n"));
    assert!(!is_true_literal("false"));
}

#[test]
fn dummy_verifier_agrees_with_function() {
    let verifier = DummyVerifier;
    for signature in ["true", "TRUE", "false", "", "tRUe", "truth"] {
        assert_eq!(
            verifier.verify("K1", "a1b2", signature),
            dummy_verify_signature(s("K1"), s("a1b2"), s(signature))
        );
    }
}
