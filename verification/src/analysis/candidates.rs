//! The activation families the GPU neuron scan proposes, and the shader id of
//! each.
//!
//! The scan tries the families in table order, and each family's shader id is
//! its position in the table; any other name runs as IDENTITY.
use vstd::prelude::*;

use crate::analysis::activation::specs::gpu_id_named;
use crate::text::str_eq;

verus! {

/// Number of activation families the GPU neuron scan proposes.
pub const CANDIDATE_COUNT: usize = 11;

/// The activation families the GPU neuron scan proposes, in scan order.
pub const CANDIDATE_NAMES: [&'static str; 11] = [
    "GELU",
    "ELU",
    "SELU",
    "Softplus",
    "LOGISTIC",
    "TANH",
    "IDENTITY",
    "BIPOLAR",
    "CLIPPED",
    "ABSOLUTE",
    "INVERSE",
];

/// The shader id of a proposed family: its position in [`CANDIDATE_NAMES`];
/// 6 (IDENTITY) for any other name.
pub open spec fn candidate_gpu_id(n: Seq<char>) -> u32 {
    if n == "GELU"@ {
        0
    } else if n == "ELU"@ {
        1
    } else if n == "SELU"@ {
        2
    } else if n == "Softplus"@ {
        3
    } else if n == "LOGISTIC"@ {
        4
    } else if n == "TANH"@ {
        5
    } else if n == "IDENTITY"@ {
        6
    } else if n == "BIPOLAR"@ {
        7
    } else if n == "CLIPPED"@ {
        8
    } else if n == "ABSOLUTE"@ {
        9
    } else if n == "INVERSE"@ {
        10
    } else {
        6
    }
}

/// The shader id of a proposed family (exact, case-sensitive name).
pub fn activation_name_to_gpu_id(name: &str) -> (r: u32)
    ensures
        r == candidate_gpu_id(name@),
{
    if str_eq(name, "GELU") {
        0
    } else if str_eq(name, "ELU") {
        1
    } else if str_eq(name, "SELU") {
        2
    } else if str_eq(name, "Softplus") {
        3
    } else if str_eq(name, "LOGISTIC") {
        4
    } else if str_eq(name, "TANH") {
        5
    } else if str_eq(name, "IDENTITY") {
        6
    } else if str_eq(name, "BIPOLAR") {
        7
    } else if str_eq(name, "CLIPPED") {
        8
    } else if str_eq(name, "ABSOLUTE") {
        9
    } else if str_eq(name, "INVERSE") {
        10
    } else {
        6
    }
}

/// The name of the proposed family at position `i`.
pub fn candidate_name(i: usize) -> (r: &'static str)
    requires
        i < CANDIDATE_COUNT,
    ensures
        r@ == CANDIDATE_NAMES@[i as int]@,
{
    CANDIDATE_NAMES[i]
}

/// Each proposed family's shader id is its position in the scan table, and
/// the shader ids of the scan and of the activation table agree on every
/// proposed family.
pub proof fn lemma_candidate_ids_are_positions()
    ensures
        forall|i: int| 0 <= i < 11 ==> #[trigger] candidate_gpu_id(CANDIDATE_NAMES@[i]@) == i,
        forall|i: int| 0 <= i < 11 ==> #[trigger] gpu_id_named(CANDIDATE_NAMES@[i]@) == i,
{
    reveal_strlit("GELU");
    assert("GELU"@.len() == 4 && "GELU"@[0] == 'G' && "GELU"@[1] == 'E');
    reveal_strlit("ELU");
    assert("ELU"@.len() == 3 && "ELU"@[0] == 'E' && "ELU"@[1] == 'L');
    reveal_strlit("SELU");
    assert("SELU"@.len() == 4 && "SELU"@[0] == 'S' && "SELU"@[1] == 'E');
    reveal_strlit("Softplus");
    assert("Softplus"@.len() == 8 && "Softplus"@[0] == 'S' && "Softplus"@[1] == 'o');
    reveal_strlit("LOGISTIC");
    assert("LOGISTIC"@.len() == 8 && "LOGISTIC"@[0] == 'L' && "LOGISTIC"@[1] == 'O');
    reveal_strlit("TANH");
    assert("TANH"@.len() == 4 && "TANH"@[0] == 'T' && "TANH"@[1] == 'A');
    reveal_strlit("IDENTITY");
    assert("IDENTITY"@.len() == 8 && "IDENTITY"@[0] == 'I' && "IDENTITY"@[1] == 'D');
    reveal_strlit("BIPOLAR");
    assert("BIPOLAR"@.len() == 7 && "BIPOLAR"@[0] == 'B' && "BIPOLAR"@[1] == 'I');
    reveal_strlit("CLIPPED");
    assert("CLIPPED"@.len() == 7 && "CLIPPED"@[0] == 'C' && "CLIPPED"@[1] == 'L');
    reveal_strlit("ABSOLUTE");
    assert("ABSOLUTE"@.len() == 8 && "ABSOLUTE"@[0] == 'A' && "ABSOLUTE"@[1] == 'B');
    reveal_strlit("INVERSE");
    assert("INVERSE"@.len() == 7 && "INVERSE"@[0] == 'I' && "INVERSE"@[1] == 'N');
    assert(CANDIDATE_NAMES@[0]@ == "GELU"@);
    assert(CANDIDATE_NAMES@[1]@ == "ELU"@);
    assert(CANDIDATE_NAMES@[2]@ == "SELU"@);
    assert(CANDIDATE_NAMES@[3]@ == "Softplus"@);
    assert(CANDIDATE_NAMES@[4]@ == "LOGISTIC"@);
    assert(CANDIDATE_NAMES@[5]@ == "TANH"@);
    assert(CANDIDATE_NAMES@[6]@ == "IDENTITY"@);
    assert(CANDIDATE_NAMES@[7]@ == "BIPOLAR"@);
    assert(CANDIDATE_NAMES@[8]@ == "CLIPPED"@);
    assert(CANDIDATE_NAMES@[9]@ == "ABSOLUTE"@);
    assert(CANDIDATE_NAMES@[10]@ == "INVERSE"@);
}

} // verus!
