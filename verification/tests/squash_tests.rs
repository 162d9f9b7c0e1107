use std::borrow::Cow;
use neat_ai_discovery::activations::{
    approximate_inverse_squash, is_aggregate_squash, is_known_squash_name, normalise_squash_name,
    scalar_squash, squash_emit_bound, EmitBound, ScalarSquash,
};

#[test]
fn step_bipolar_case_insensitive() {
    assert!(scalar_squash("step").is_some());
    assert!(scalar_squash("Step").is_some());
    assert!(scalar_squash("STEP").is_some());
    assert!(scalar_squash("bipolar").is_some());
    assert!(scalar_squash("Bipolar").is_some());
    assert!(scalar_squash("BIPOLAR").is_some());
    assert_eq!(scalar_squash("sTeP"), Some(ScalarSquash::Step));
    assert_eq!(scalar_squash("bipolar"), Some(ScalarSquash::Bipolar));
}

#[test]
fn aggregate_squashes_return_none() {
    assert!(scalar_squash("MINIMUM").is_none());
    assert!(scalar_squash("MAXIMUM").is_none());
    assert!(scalar_squash("IF").is_none());
    assert!(scalar_squash("MEAN").is_none());
    assert!(scalar_squash("HYPOT").is_none());
}

#[test]
fn inverse_fn_exists_for_monotonic_activations() {
    let invertible = [
        "TANH",
        "LOGISTIC",
        "SOFTSIGN",
        "BIPOLAR_SIGMOID",
        "ISRU",
        "HARD_TANH",
        "CLIPPED",
        "RELU6",
        "ELU",
        "LEAKYRELU",
        "SELU",
        "SOFTPLUS",
        "ARCTAN",
        "LOGSIGMOID",
        "GELU",
        "MISH",
        "SWISH",
        "IDENTITY",
        "COMPLEMENT",
    ];
    for name in &invertible {
        assert!(approximate_inverse_squash(name).is_some(), "{name} should have an approximate inverse");
    }
}

#[test]
fn inverse_fn_none_for_non_monotonic() {
    let non_invertible = ["SINE", "COSINE", "GAUSSIAN", "SQUARE", "ABSOLUTE", "STEP"];
    for name in &non_invertible {
        assert!(approximate_inverse_squash(name).is_none(), "{name} should not have an approximate inverse");
    }
}

#[test]
fn normalisation_trims_and_upper_cases() {
    assert_eq!(normalise_squash_name("  tanh\t").as_ref(), "TANH");
    assert_eq!(normalise_squash_name("LOGISTIC").as_ref(), "LOGISTIC");
    assert_eq!(normalise_squash_name("Hard_Tanh").as_ref(), "HARD_TANH");
    assert_eq!(normalise_squash_name("   ").as_ref(), "");
}

#[test]
fn normalisation_borrows_unless_it_upper_cases() {
    assert!(matches!(normalise_squash_name(" TANH "), Cow::Borrowed("TANH")));
    assert!(matches!(normalise_squash_name(""), Cow::Borrowed("")));
    assert!(matches!(normalise_squash_name("Tanh"), Cow::Owned(_)));
    let once = normalise_squash_name(" relu6 ");
    let twice = normalise_squash_name(once.as_ref());
    assert_eq!(once, twice);
    assert!(matches!(twice, Cow::Borrowed(_)));
}

#[test]
fn known_names_include_aggregates_and_aliases() {
    assert!(is_known_squash_name("inverse"));
    assert!(is_known_squash_name(" Clipped "));
    assert!(is_known_squash_name("hypotv2"));
    assert!(!is_known_squash_name("NOT_A_SQUASH"));
    assert!(is_aggregate_squash("if"));
    assert!(!is_aggregate_squash("TANH"));
    assert_eq!(scalar_squash("INVERSE"), Some(ScalarSquash::Complement));
    assert_eq!(scalar_squash("clipped"), Some(ScalarSquash::HardTanh));
}

#[test]
fn emit_bounds_of_bounded_squashes() {
    assert_eq!(squash_emit_bound("TANH"), Some(EmitBound::Unit));
    assert_eq!(squash_emit_bound("arctan"), Some(EmitBound::HalfPi));
    assert_eq!(squash_emit_bound("RELU6"), Some(EmitBound::Six));
    assert_eq!(squash_emit_bound("IDENTITY"), None);
    assert_eq!(squash_emit_bound("MAXIMUM"), None);
}
