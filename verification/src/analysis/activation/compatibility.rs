//! Activation compatibility for neuron candidates.
//!
//! Candidate squashes that are likely to compound clipping when feeding a
//! bounded target (`HARD_TANH`, `TANH`, `LOGISTIC`, `CLIPPED`, ...) are
//! penalised. Nothing is filtered out: the score only lowers the rank of poor
//! combinations, so exploration is preserved.
//!
//! Scores are kept in tenths: a score of `t` tenths is the factor `t / 10`.
use vstd::prelude::*;

use crate::text::str_eq;

verus! {

/// Output shape of a candidate squash.
#[derive(Clone, Copy, Debug, PartialEq, Eq, Structural)]
pub enum CandidateClass {
    /// Unbounded, passes through any range (`IDENTITY`; also unknown names).
    Flexible,
    /// Symmetric bounded output: `TANH`, `HARD_TANH`, `CLIPPED`, `SOFTSIGN`, `ArcTan`.
    SymmetricBounded,
    /// Non-negative output only: `ABSOLUTE`, `Softplus`, `ReLU6`, `LOGISTIC`.
    NonNegative,
    /// Negative tail truncated or compressed unlike the positive side:
    /// `GELU`, `ELU`, `Mish`, `BENT_IDENTITY`.
    Asymmetric,
    /// Discrete or step output: `BIPOLAR`.
    Discrete,
}

/// Clipping behaviour of a target squash.
#[derive(Clone, Copy, Debug, PartialEq, Eq, Structural)]
pub enum TargetClass {
    /// Unbounded target: no clipping risk.
    Unbounded,
    /// Symmetric bounded target with a negative lower bound:
    /// `HARD_TANH`, `TANH`, `CLIPPED`, `SOFTSIGN`, `BIPOLAR`.
    SymmetricBounded,
    /// Bounded target with a non-negative lower bound: `LOGISTIC`.
    AsymmetricBounded,
}

/// The class of a candidate squash name (exact spelling).
pub open spec fn candidate_class_named(n: Seq<char>) -> CandidateClass {
    if n == "IDENTITY"@ {
        CandidateClass::Flexible
    } else if n == "TANH"@ || n == "HARD_TANH"@ || n == "CLIPPED"@ || n == "SOFTSIGN"@ || n
        == "ArcTan"@ {
        CandidateClass::SymmetricBounded
    } else if n == "ABSOLUTE"@ || n == "Softplus"@ || n == "ReLU6"@ {
        CandidateClass::NonNegative
    } else if n == "GELU"@ || n == "ELU"@ || n == "Mish"@ || n == "BENT_IDENTITY"@ {
        CandidateClass::Asymmetric
    } else if n == "BIPOLAR"@ {
        CandidateClass::Discrete
    } else if n == "LOGISTIC"@ {
        CandidateClass::NonNegative
    } else {
        CandidateClass::Flexible
    }
}

/// The class of a target squash name (exact spelling).
pub open spec fn target_class_named(n: Seq<char>) -> TargetClass {
    if n == "HARD_TANH"@ || n == "TANH"@ || n == "CLIPPED"@ || n == "SOFTSIGN"@ || n
        == "BIPOLAR"@ {
        TargetClass::SymmetricBounded
    } else if n == "LOGISTIC"@ {
        TargetClass::AsymmetricBounded
    } else {
        TargetClass::Unbounded
    }
}

/// The compatibility, in tenths, of a candidate class feeding a target class.
pub open spec fn class_compatibility_tenths(candidate: CandidateClass, target: TargetClass) -> u8 {
    match (candidate, target) {
        (_, TargetClass::Unbounded) => 10,
        (CandidateClass::Flexible, _) => 10,
        (CandidateClass::SymmetricBounded, TargetClass::SymmetricBounded) => 8,
        (CandidateClass::SymmetricBounded, TargetClass::AsymmetricBounded) => 6,
        (CandidateClass::NonNegative, TargetClass::SymmetricBounded) => 3,
        (CandidateClass::NonNegative, TargetClass::AsymmetricBounded) => 6,
        (CandidateClass::Asymmetric, TargetClass::SymmetricBounded) => 5,
        (CandidateClass::Asymmetric, TargetClass::AsymmetricBounded) => 7,
        (CandidateClass::Discrete, TargetClass::SymmetricBounded) => 7,
        (CandidateClass::Discrete, TargetClass::AsymmetricBounded) => 5,
    }
}

/// Classify a candidate squash by its output shape; unknown names count as flexible.
pub fn classify_candidate(squash: &str) -> (r: CandidateClass)
    ensures
        r == candidate_class_named(squash@),
{
    if str_eq(squash, "IDENTITY") {
        CandidateClass::Flexible
    } else if str_eq(squash, "TANH") || str_eq(squash, "HARD_TANH") || str_eq(squash, "CLIPPED")
        || str_eq(squash, "SOFTSIGN") || str_eq(squash, "ArcTan") {
        CandidateClass::SymmetricBounded
    } else if str_eq(squash, "ABSOLUTE") || str_eq(squash, "Softplus") || str_eq(squash, "ReLU6") {
        CandidateClass::NonNegative
    } else if str_eq(squash, "GELU") || str_eq(squash, "ELU") || str_eq(squash, "Mish") || str_eq(
        squash,
        "BENT_IDENTITY",
    ) {
        CandidateClass::Asymmetric
    } else if str_eq(squash, "BIPOLAR") {
        CandidateClass::Discrete
    } else if str_eq(squash, "LOGISTIC") {
        CandidateClass::NonNegative
    } else {
        CandidateClass::Flexible
    }
}

/// Classify a target squash by its clipping behaviour; unknown names are unbounded.
pub fn classify_target(squash: &str) -> (r: TargetClass)
    ensures
        r == target_class_named(squash@),
{
    if str_eq(squash, "HARD_TANH") || str_eq(squash, "TANH") || str_eq(squash, "CLIPPED") || str_eq(
        squash,
        "SOFTSIGN",
    ) || str_eq(squash, "BIPOLAR") {
        TargetClass::SymmetricBounded
    } else if str_eq(squash, "LOGISTIC") {
        TargetClass::AsymmetricBounded
    } else {
        TargetClass::Unbounded
    }
}

/// Compatibility, in tenths, of a candidate squash feeding a target squash.
///
/// 10 for fully compatible combinations (any candidate into an unbounded
/// target, or a flexible candidate into anything), 8 for similar symmetric
/// ranges, and 3 to 7 where the candidate's output range interacts poorly with
/// the target's clipping bounds.
pub fn compatibility_tenths(candidate_squash: &str, target_squash: &str) -> (r: u8)
    ensures
        r == class_compatibility_tenths(
            candidate_class_named(candidate_squash@),
            target_class_named(target_squash@),
        ),
{
    let target_class = classify_target(target_squash);
    if target_class == TargetClass::Unbounded {
        return 10;
    }
    let candidate_class = classify_candidate(candidate_squash);
    match (candidate_class, target_class) {
        (CandidateClass::Flexible, _) => 10,
        (CandidateClass::SymmetricBounded, TargetClass::SymmetricBounded) => 8,
        (CandidateClass::SymmetricBounded, TargetClass::AsymmetricBounded) => 6,
        (CandidateClass::NonNegative, TargetClass::SymmetricBounded) => 3,
        (CandidateClass::NonNegative, TargetClass::AsymmetricBounded) => 6,
        (CandidateClass::Asymmetric, TargetClass::SymmetricBounded) => 5,
        (CandidateClass::Asymmetric, TargetClass::AsymmetricBounded) => 7,
        (CandidateClass::Discrete, TargetClass::SymmetricBounded) => 7,
        (CandidateClass::Discrete, TargetClass::AsymmetricBounded) => 5,
        (_, TargetClass::Unbounded) => 10,
    }
}

/// Every compatibility score lies in `(0, 1]`; a candidate feeding an unbounded
/// target, or a flexible candidate, always scores `1`.
pub proof fn lemma_compatibility_range(candidate: Seq<char>, target: Seq<char>)
    ensures
        1 <= class_compatibility_tenths(candidate_class_named(candidate), target_class_named(target))
            <= 10,
        target_class_named(target) == TargetClass::Unbounded ==> class_compatibility_tenths(
            candidate_class_named(candidate),
            target_class_named(target),
        ) == 10,
        candidate_class_named(candidate) == CandidateClass::Flexible ==> class_compatibility_tenths(
            candidate_class_named(candidate),
            target_class_named(target),
        ) == 10,
{
}

/// The squashes a target can be bounded by: HARD_TANH, TANH, CLIPPED, SOFTSIGN
/// and BIPOLAR clip symmetrically, LOGISTIC asymmetrically; every other target
/// is unbounded.
pub proof fn lemma_target_classes(n: Seq<char>)
    ensures
        target_class_named(n) == TargetClass::SymmetricBounded <==> (n == "HARD_TANH"@ || n
            == "TANH"@ || n == "CLIPPED"@ || n == "SOFTSIGN"@ || n == "BIPOLAR"@),
        target_class_named(n) == TargetClass::AsymmetricBounded <==> n == "LOGISTIC"@,
{
    reveal_strlit("HARD_TANH");
    assert("HARD_TANH"@.len() == 9 && "HARD_TANH"@[0] == 'H' && "HARD_TANH"@[1] == 'A');
    reveal_strlit("TANH");
    assert("TANH"@.len() == 4 && "TANH"@[0] == 'T' && "TANH"@[1] == 'A');
    reveal_strlit("CLIPPED");
    assert("CLIPPED"@.len() == 7 && "CLIPPED"@[0] == 'C' && "CLIPPED"@[1] == 'L');
    reveal_strlit("SOFTSIGN");
    assert("SOFTSIGN"@.len() == 8 && "SOFTSIGN"@[0] == 'S' && "SOFTSIGN"@[1] == 'O');
    reveal_strlit("BIPOLAR");
    assert("BIPOLAR"@.len() == 7 && "BIPOLAR"@[0] == 'B' && "BIPOLAR"@[1] == 'I');
    reveal_strlit("LOGISTIC");
    assert("LOGISTIC"@.len() == 8 && "LOGISTIC"@[0] == 'L' && "LOGISTIC"@[1] == 'O');
    reveal_strlit("ABSOLUTE");
    assert("ABSOLUTE"@.len() == 8 && "ABSOLUTE"@[0] == 'A' && "ABSOLUTE"@[1] == 'B');
    reveal_strlit("Softplus");
    assert("Softplus"@.len() == 8 && "Softplus"@[0] == 'S' && "Softplus"@[1] == 'o');
    reveal_strlit("ReLU6");
    assert("ReLU6"@.len() == 5 && "ReLU6"@[0] == 'R' && "ReLU6"@[1] == 'e');
    reveal_strlit("IDENTITY");
    assert("IDENTITY"@.len() == 8 && "IDENTITY"@[0] == 'I' && "IDENTITY"@[1] == 'D');
    reveal_strlit("ArcTan");
    assert("ArcTan"@.len() == 6 && "ArcTan"@[0] == 'A' && "ArcTan"@[1] == 'r');
    reveal_strlit("GELU");
    assert("GELU"@.len() == 4 && "GELU"@[0] == 'G' && "GELU"@[1] == 'E');
    reveal_strlit("ELU");
    assert("ELU"@.len() == 3 && "ELU"@[0] == 'E' && "ELU"@[1] == 'L');
    reveal_strlit("Mish");
    assert("Mish"@.len() == 4 && "Mish"@[0] == 'M' && "Mish"@[1] == 'i');
    reveal_strlit("BENT_IDENTITY");
    assert("BENT_IDENTITY"@.len() == 13 && "BENT_IDENTITY"@[0] == 'B' && "BENT_IDENTITY"@[1] == 'E');
}

/// The candidates with non-negative output are ABSOLUTE, Softplus, ReLU6 and
/// LOGISTIC; each of them feeding any symmetrically bounded target (HARD_TANH,
/// TANH, CLIPPED, SOFTSIGN, BIPOLAR) scores 3 tenths, and LOGISTIC 6 tenths.
pub proof fn lemma_non_negative_candidates(candidate: Seq<char>, target: Seq<char>)
    ensures
        candidate_class_named(candidate) == CandidateClass::NonNegative <==> (candidate
            == "ABSOLUTE"@ || candidate == "Softplus"@ || candidate == "ReLU6"@ || candidate
            == "LOGISTIC"@),
        candidate_class_named(candidate) == CandidateClass::NonNegative && (target == "HARD_TANH"@
            || target == "TANH"@ || target == "CLIPPED"@ || target == "SOFTSIGN"@ || target
            == "BIPOLAR"@) ==> class_compatibility_tenths(
            candidate_class_named(candidate),
            target_class_named(target),
        ) == 3,
        candidate_class_named(candidate) == CandidateClass::NonNegative && target == "LOGISTIC"@
            ==> class_compatibility_tenths(
            candidate_class_named(candidate),
            target_class_named(target),
        ) == 6,
{
    lemma_target_classes(target);
    reveal_strlit("HARD_TANH");
    assert("HARD_TANH"@.len() == 9 && "HARD_TANH"@[0] == 'H' && "HARD_TANH"@[1] == 'A');
    reveal_strlit("TANH");
    assert("TANH"@.len() == 4 && "TANH"@[0] == 'T' && "TANH"@[1] == 'A');
    reveal_strlit("CLIPPED");
    assert("CLIPPED"@.len() == 7 && "CLIPPED"@[0] == 'C' && "CLIPPED"@[1] == 'L');
    reveal_strlit("SOFTSIGN");
    assert("SOFTSIGN"@.len() == 8 && "SOFTSIGN"@[0] == 'S' && "SOFTSIGN"@[1] == 'O');
    reveal_strlit("BIPOLAR");
    assert("BIPOLAR"@.len() == 7 && "BIPOLAR"@[0] == 'B' && "BIPOLAR"@[1] == 'I');
    reveal_strlit("LOGISTIC");
    assert("LOGISTIC"@.len() == 8 && "LOGISTIC"@[0] == 'L' && "LOGISTIC"@[1] == 'O');
    reveal_strlit("ABSOLUTE");
    assert("ABSOLUTE"@.len() == 8 && "ABSOLUTE"@[0] == 'A' && "ABSOLUTE"@[1] == 'B');
    reveal_strlit("Softplus");
    assert("Softplus"@.len() == 8 && "Softplus"@[0] == 'S' && "Softplus"@[1] == 'o');
    reveal_strlit("ReLU6");
    assert("ReLU6"@.len() == 5 && "ReLU6"@[0] == 'R' && "ReLU6"@[1] == 'e');
    reveal_strlit("IDENTITY");
    assert("IDENTITY"@.len() == 8 && "IDENTITY"@[0] == 'I' && "IDENTITY"@[1] == 'D');
    reveal_strlit("ArcTan");
    assert("ArcTan"@.len() == 6 && "ArcTan"@[0] == 'A' && "ArcTan"@[1] == 'r');
    reveal_strlit("GELU");
    assert("GELU"@.len() == 4 && "GELU"@[0] == 'G' && "GELU"@[1] == 'E');
    reveal_strlit("ELU");
    assert("ELU"@.len() == 3 && "ELU"@[0] == 'E' && "ELU"@[1] == 'L');
    reveal_strlit("Mish");
    assert("Mish"@.len() == 4 && "Mish"@[0] == 'M' && "Mish"@[1] == 'i');
    reveal_strlit("BENT_IDENTITY");
    assert("BENT_IDENTITY"@.len() == 13 && "BENT_IDENTITY"@[0] == 'B' && "BENT_IDENTITY"@[1] == 'E');
}

/// The candidate classes by name: TANH, HARD_TANH, CLIPPED, SOFTSIGN and ArcTan
/// are symmetric bounded; GELU, ELU, Mish and BENT_IDENTITY asymmetric;
/// BIPOLAR discrete; every other name (IDENTITY and unknown ones) flexible.
pub proof fn lemma_candidate_classes(n: Seq<char>)
    ensures
        candidate_class_named(n) == CandidateClass::SymmetricBounded <==> (n == "TANH"@ || n
            == "HARD_TANH"@ || n == "CLIPPED"@ || n == "SOFTSIGN"@ || n == "ArcTan"@),
        candidate_class_named(n) == CandidateClass::Asymmetric <==> (n == "GELU"@ || n == "ELU"@
            || n == "Mish"@ || n == "BENT_IDENTITY"@),
        candidate_class_named(n) == CandidateClass::Discrete <==> n == "BIPOLAR"@,
        candidate_class_named(n) == CandidateClass::Flexible <==> !(n == "TANH"@ || n
            == "HARD_TANH"@ || n == "CLIPPED"@ || n == "SOFTSIGN"@ || n == "ArcTan"@ || n
            == "GELU"@ || n == "ELU"@ || n == "Mish"@ || n == "BENT_IDENTITY"@ || n == "BIPOLAR"@
            || n == "ABSOLUTE"@ || n == "Softplus"@ || n == "ReLU6"@ || n == "LOGISTIC"@),
{
    reveal_strlit("HARD_TANH");
    assert("HARD_TANH"@.len() == 9 && "HARD_TANH"@[0] == 'H' && "HARD_TANH"@[1] == 'A');
    reveal_strlit("TANH");
    assert("TANH"@.len() == 4 && "TANH"@[0] == 'T' && "TANH"@[1] == 'A');
    reveal_strlit("CLIPPED");
    assert("CLIPPED"@.len() == 7 && "CLIPPED"@[0] == 'C' && "CLIPPED"@[1] == 'L');
    reveal_strlit("SOFTSIGN");
    assert("SOFTSIGN"@.len() == 8 && "SOFTSIGN"@[0] == 'S' && "SOFTSIGN"@[1] == 'O');
    reveal_strlit("BIPOLAR");
    assert("BIPOLAR"@.len() == 7 && "BIPOLAR"@[0] == 'B' && "BIPOLAR"@[1] == 'I');
    reveal_strlit("LOGISTIC");
    assert("LOGISTIC"@.len() == 8 && "LOGISTIC"@[0] == 'L' && "LOGISTIC"@[1] == 'O');
    reveal_strlit("ABSOLUTE");
    assert("ABSOLUTE"@.len() == 8 && "ABSOLUTE"@[0] == 'A' && "ABSOLUTE"@[1] == 'B');
    reveal_strlit("Softplus");
    assert("Softplus"@.len() == 8 && "Softplus"@[0] == 'S' && "Softplus"@[1] == 'o');
    reveal_strlit("ReLU6");
    assert("ReLU6"@.len() == 5 && "ReLU6"@[0] == 'R' && "ReLU6"@[1] == 'e');
    reveal_strlit("IDENTITY");
    assert("IDENTITY"@.len() == 8 && "IDENTITY"@[0] == 'I' && "IDENTITY"@[1] == 'D');
    reveal_strlit("ArcTan");
    assert("ArcTan"@.len() == 6 && "ArcTan"@[0] == 'A' && "ArcTan"@[1] == 'r');
    reveal_strlit("GELU");
    assert("GELU"@.len() == 4 && "GELU"@[0] == 'G' && "GELU"@[1] == 'E');
    reveal_strlit("ELU");
    assert("ELU"@.len() == 3 && "ELU"@[0] == 'E' && "ELU"@[1] == 'L');
    reveal_strlit("Mish");
    assert("Mish"@.len() == 4 && "Mish"@[0] == 'M' && "Mish"@[1] == 'i');
    reveal_strlit("BENT_IDENTITY");
    assert("BENT_IDENTITY"@.len() == 13 && "BENT_IDENTITY"@[0] == 'B' && "BENT_IDENTITY"@[1] == 'E');
}

} // verus!
