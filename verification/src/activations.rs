//! Activation (squash) names and how they are recognised.
//!
//! Discovery records store the pre-activation `value` and the post-squash
//! `activation` of every neuron. To simulate a candidate contribution for any
//! target squash, the library must recognise the squash by name, exactly as the
//! NEAT-AI activation registry spells it (including its aliases).
//!
//! Name matching ignores ASCII case and surrounding white space. Some squashes
//! are *aggregate* neurons (MINIMUM, MAXIMUM, IF, HYPOT, ...): they are
//! recognised, but they are not a function of one pre-activation value, so no
//! scalar squash stands for them.
use std::borrow::Cow;
use vstd::prelude::*;

use crate::text::{
    ascii_upper, contains_ascii_lower, has_ascii_lower, eq_ignore_ascii_case, lemma_trimmed_fixed,
    lemma_trimmed_shape, lemma_trimmed_upper, lemma_upper_char_white_space,
    lemma_upper_idempotent, lemma_upper_without_lower, str_eq, to_ascii_upper, trim, trimmed,
};

verus! {

/// A squash that is a function of one pre-activation value.
///
/// Aliases share a variant: `INVERSE` is `Complement`, `CLIPPED` is `HardTanh`
/// and `SINUSOID` is `Sine`.
#[derive(Clone, Copy, Debug, PartialEq, Eq, Structural)]
pub enum ScalarSquash {
    Absolute,
    Arctan,
    BentIdentity,
    Bipolar,
    BipolarSigmoid,
    Complement,
    Cosine,
    Cube,
    Elu,
    Exponential,
    Gaussian,
    Gelu,
    HardTanh,
    Identity,
    Isru,
    LeakyRelu,
    Logistic,
    LogSigmoid,
    Mish,
    Relu,
    Relu6,
    Selu,
    Sine,
    Softplus,
    Softsign,
    Sqrt,
    Square,
    StdInverse,
    Step,
    Swish,
    Tan,
    Tanh,
}

/// The largest absolute output a bounded squash can emit.
#[derive(Clone, Copy, Debug, PartialEq, Eq, Structural)]
pub enum EmitBound {
    /// Outputs lie in `[-1, 1]`.
    Unit,
    /// Outputs lie in `(-π/2, π/2)`.
    HalfPi,
    /// Outputs lie in `[0, 6]`.
    Six,
}

/// The canonical form of a squash name: white space trimmed, ASCII upper case.
pub open spec fn normalised(name: Seq<char>) -> Seq<char> {
    ascii_upper(trimmed(name))
}

/// The scalar squash that a normalised name denotes, if any.
pub open spec fn scalar_squash_named(n: Seq<char>) -> Option<ScalarSquash> {
    if n == "ABSOLUTE"@ {
        Some(ScalarSquash::Absolute)
    } else if n == "ARCTAN"@ {
        Some(ScalarSquash::Arctan)
    } else if n == "BENT_IDENTITY"@ {
        Some(ScalarSquash::BentIdentity)
    } else if n == "BIPOLAR"@ {
        Some(ScalarSquash::Bipolar)
    } else if n == "BIPOLAR_SIGMOID"@ {
        Some(ScalarSquash::BipolarSigmoid)
    } else if n == "COMPLEMENT"@ || n == "INVERSE"@ {
        Some(ScalarSquash::Complement)
    } else if n == "COSINE"@ {
        Some(ScalarSquash::Cosine)
    } else if n == "CUBE"@ {
        Some(ScalarSquash::Cube)
    } else if n == "ELU"@ {
        Some(ScalarSquash::Elu)
    } else if n == "EXPONENTIAL"@ {
        Some(ScalarSquash::Exponential)
    } else if n == "GAUSSIAN"@ {
        Some(ScalarSquash::Gaussian)
    } else if n == "GELU"@ {
        Some(ScalarSquash::Gelu)
    } else if n == "HARD_TANH"@ || n == "CLIPPED"@ {
        Some(ScalarSquash::HardTanh)
    } else if n == "IDENTITY"@ {
        Some(ScalarSquash::Identity)
    } else if n == "ISRU"@ {
        Some(ScalarSquash::Isru)
    } else if n == "LEAKYRELU"@ {
        Some(ScalarSquash::LeakyRelu)
    } else if n == "LOGISTIC"@ {
        Some(ScalarSquash::Logistic)
    } else if n == "LOGSIGMOID"@ {
        Some(ScalarSquash::LogSigmoid)
    } else if n == "MISH"@ {
        Some(ScalarSquash::Mish)
    } else if n == "RELU"@ {
        Some(ScalarSquash::Relu)
    } else if n == "RELU6"@ {
        Some(ScalarSquash::Relu6)
    } else if n == "SELU"@ {
        Some(ScalarSquash::Selu)
    } else if n == "SINE"@ || n == "SINUSOID"@ {
        Some(ScalarSquash::Sine)
    } else if n == "SOFTPLUS"@ {
        Some(ScalarSquash::Softplus)
    } else if n == "SOFTSIGN"@ {
        Some(ScalarSquash::Softsign)
    } else if n == "SQRT"@ {
        Some(ScalarSquash::Sqrt)
    } else if n == "SQUARE"@ {
        Some(ScalarSquash::Square)
    } else if n == "STDINVERSE"@ {
        Some(ScalarSquash::StdInverse)
    } else if n == "STEP"@ {
        Some(ScalarSquash::Step)
    } else if n == "SWISH"@ {
        Some(ScalarSquash::Swish)
    } else if n == "TAN"@ {
        Some(ScalarSquash::Tan)
    } else if n == "TANH"@ {
        Some(ScalarSquash::Tanh)
    } else {
        None
    }
}

/// Whether a normalised name is one of the aggregate squashes.
pub open spec fn is_aggregate_named(n: Seq<char>) -> bool {
    ||| n == "IF"@
    ||| n == "MAXIMUM"@
    ||| n == "MINIMUM"@
    ||| n == "MEAN"@
    ||| n == "HYPOT"@
    ||| n == "HYPOTV2"@
}

/// Whether a normalised name is recognised at all (scalar or aggregate).
pub open spec fn is_known_named(n: Seq<char>) -> bool {
    scalar_squash_named(n) is Some || is_aggregate_named(n)
}

impl ScalarSquash {
    /// The emit bound of a bounded squash; `None` for unbounded ones.
    pub open spec fn spec_emit_bound(self) -> Option<EmitBound> {
        match self {
            ScalarSquash::Tanh | ScalarSquash::Logistic | ScalarSquash::HardTanh
            | ScalarSquash::Softsign | ScalarSquash::BipolarSigmoid | ScalarSquash::Isru
            | ScalarSquash::Step | ScalarSquash::Bipolar | ScalarSquash::Gaussian => Some(
                EmitBound::Unit,
            ),
            ScalarSquash::Arctan => Some(EmitBound::HalfPi),
            ScalarSquash::Relu6 => Some(EmitBound::Six),
            _ => None,
        }
    }

    /// Whether an approximate inverse exists: the squash is monotonic (or
    /// piecewise invertible) on the range the simulation uses.
    pub open spec fn spec_has_inverse(self) -> bool {
        match self {
            ScalarSquash::HardTanh | ScalarSquash::Relu6 | ScalarSquash::Tanh
            | ScalarSquash::Logistic | ScalarSquash::Softsign | ScalarSquash::BipolarSigmoid
            | ScalarSquash::Isru | ScalarSquash::Arctan | ScalarSquash::LogSigmoid
            | ScalarSquash::Elu | ScalarSquash::LeakyRelu | ScalarSquash::Selu
            | ScalarSquash::Softplus | ScalarSquash::Gelu | ScalarSquash::Mish
            | ScalarSquash::Swish | ScalarSquash::Identity | ScalarSquash::Complement => true,
            _ => false,
        }
    }

    /// The emit bound of a bounded squash; `None` for unbounded ones.
    pub fn emit_bound(self) -> (r: Option<EmitBound>)
        ensures
            r == self.spec_emit_bound(),
    {
        match self {
            ScalarSquash::Tanh | ScalarSquash::Logistic | ScalarSquash::HardTanh
            | ScalarSquash::Softsign | ScalarSquash::BipolarSigmoid | ScalarSquash::Isru
            | ScalarSquash::Step | ScalarSquash::Bipolar | ScalarSquash::Gaussian => Some(
                EmitBound::Unit,
            ),
            ScalarSquash::Arctan => Some(EmitBound::HalfPi),
            ScalarSquash::Relu6 => Some(EmitBound::Six),
            _ => None,
        }
    }

    /// Whether an approximate inverse exists for this squash.
    pub fn has_approximate_inverse(self) -> (r: bool)
        ensures
            r == self.spec_has_inverse(),
    {
        match self {
            ScalarSquash::HardTanh | ScalarSquash::Relu6 | ScalarSquash::Tanh
            | ScalarSquash::Logistic | ScalarSquash::Softsign | ScalarSquash::BipolarSigmoid
            | ScalarSquash::Isru | ScalarSquash::Arctan | ScalarSquash::LogSigmoid
            | ScalarSquash::Elu | ScalarSquash::LeakyRelu | ScalarSquash::Selu
            | ScalarSquash::Softplus | ScalarSquash::Gelu | ScalarSquash::Mish
            | ScalarSquash::Swish | ScalarSquash::Identity | ScalarSquash::Complement => true,
            _ => false,
        }
    }
}

/// The view of a `Cow<str>` as a plain `&str`.
fn cow_as_str<'a>(c: &'a Cow<'a, str>) -> (r: &'a str)
    ensures
        r@ == c@,
{
    match c {
        Cow::Borrowed(b) => *b,
        Cow::Owned(o) => o.as_str(),
    }
}

/// Uppercase, canonical name for an activation: surrounding white space is
/// trimmed and ASCII letters are upper-cased, so matching ignores case.
///
/// The input is borrowed back whenever it needs no upper-casing.
pub fn normalise_squash_name(name: &str) -> (r: Cow<'_, str>)
    ensures
        r@ == normalised(name@),
        (r matches Cow::Borrowed(_)) <==> !has_ascii_lower(trimmed(name@)),
{
    let trimmed_name = trim(name);
    if trimmed_name.unicode_len() == 0 {
        proof {
            reveal_strlit("");
            assert(ascii_upper(trimmed(name@)) =~= ""@);
            assert(!has_ascii_lower(trimmed(name@)));
        }
        return Cow::Borrowed("");
    }
    if !contains_ascii_lower(trimmed_name) {
        proof {
            lemma_upper_without_lower(trimmed_name@);
        }
        return Cow::Borrowed(trimmed_name);
    }
    Cow::Owned(to_ascii_upper(trimmed_name))
}

/// The scalar squash that a normalised name denotes.
fn scalar_squash_of_normalised(n: &str) -> (r: Option<ScalarSquash>)
    ensures
        r == scalar_squash_named(n@),
{
    if str_eq(n, "ABSOLUTE") {
        Some(ScalarSquash::Absolute)
    } else if str_eq(n, "ARCTAN") {
        Some(ScalarSquash::Arctan)
    } else if str_eq(n, "BENT_IDENTITY") {
        Some(ScalarSquash::BentIdentity)
    } else if str_eq(n, "BIPOLAR") {
        Some(ScalarSquash::Bipolar)
    } else if str_eq(n, "BIPOLAR_SIGMOID") {
        Some(ScalarSquash::BipolarSigmoid)
    } else if str_eq(n, "COMPLEMENT") || str_eq(n, "INVERSE") {
        Some(ScalarSquash::Complement)
    } else if str_eq(n, "COSINE") {
        Some(ScalarSquash::Cosine)
    } else if str_eq(n, "CUBE") {
        Some(ScalarSquash::Cube)
    } else if str_eq(n, "ELU") {
        Some(ScalarSquash::Elu)
    } else if str_eq(n, "EXPONENTIAL") {
        Some(ScalarSquash::Exponential)
    } else if str_eq(n, "GAUSSIAN") {
        Some(ScalarSquash::Gaussian)
    } else if str_eq(n, "GELU") {
        Some(ScalarSquash::Gelu)
    } else if str_eq(n, "HARD_TANH") || str_eq(n, "CLIPPED") {
        Some(ScalarSquash::HardTanh)
    } else if str_eq(n, "IDENTITY") {
        Some(ScalarSquash::Identity)
    } else if str_eq(n, "ISRU") {
        Some(ScalarSquash::Isru)
    } else if str_eq(n, "LEAKYRELU") {
        Some(ScalarSquash::LeakyRelu)
    } else if str_eq(n, "LOGISTIC") {
        Some(ScalarSquash::Logistic)
    } else if str_eq(n, "LOGSIGMOID") {
        Some(ScalarSquash::LogSigmoid)
    } else if str_eq(n, "MISH") {
        Some(ScalarSquash::Mish)
    } else if str_eq(n, "RELU") {
        Some(ScalarSquash::Relu)
    } else if str_eq(n, "RELU6") {
        Some(ScalarSquash::Relu6)
    } else if str_eq(n, "SELU") {
        Some(ScalarSquash::Selu)
    } else if str_eq(n, "SINE") || str_eq(n, "SINUSOID") {
        Some(ScalarSquash::Sine)
    } else if str_eq(n, "SOFTPLUS") {
        Some(ScalarSquash::Softplus)
    } else if str_eq(n, "SOFTSIGN") {
        Some(ScalarSquash::Softsign)
    } else if str_eq(n, "SQRT") {
        Some(ScalarSquash::Sqrt)
    } else if str_eq(n, "SQUARE") {
        Some(ScalarSquash::Square)
    } else if str_eq(n, "STDINVERSE") {
        Some(ScalarSquash::StdInverse)
    } else if str_eq(n, "STEP") {
        Some(ScalarSquash::Step)
    } else if str_eq(n, "SWISH") {
        Some(ScalarSquash::Swish)
    } else if str_eq(n, "TAN") {
        Some(ScalarSquash::Tan)
    } else if str_eq(n, "TANH") {
        Some(ScalarSquash::Tanh)
    } else {
        None
    }
}

/// Whether a normalised name is one of the aggregate squashes.
fn is_aggregate_normalised(n: &str) -> (r: bool)
    ensures
        r == is_aggregate_named(n@),
{
    str_eq(n, "IF") || str_eq(n, "MAXIMUM") || str_eq(n, "MINIMUM") || str_eq(n, "MEAN")
        || str_eq(n, "HYPOT") || str_eq(n, "HYPOTV2")
}

/// The scalar squash a name denotes, matched case-insensitively.
///
/// `None` for aggregate and unknown squashes, which have no `f(value)` form;
/// this is the dispatch behind applying or simulating a target squash.
pub fn scalar_squash(name: &str) -> (r: Option<ScalarSquash>)
    ensures
        r == scalar_squash_named(normalised(name@)),
{
    let n = normalise_squash_name(name);
    scalar_squash_of_normalised(cow_as_str(&n))
}

/// Returns true if this library explicitly recognises the squash name (including aliases).
///
/// This does **not** mean it can be simulated as `f(value)`: aggregate squashes
/// are recognised but not scalar.
pub fn is_known_squash_name(name: &str) -> (r: bool)
    ensures
        r == is_known_named(normalised(name@)),
{
    let n = normalise_squash_name(name);
    let s = cow_as_str(&n);
    scalar_squash_of_normalised(s).is_some() || is_aggregate_normalised(s)
}

/// Returns true if the squash is an *aggregate* neuron (not a pure `f(value)`).
pub fn is_aggregate_squash(name: &str) -> (r: bool)
    ensures
        r == is_aggregate_named(normalised(name@)),
{
    let n = normalise_squash_name(name);
    is_aggregate_normalised(cow_as_str(&n))
}

/// The emit bound of a named squash: the largest `|f(x)|` it can produce.
///
/// `None` for unbounded scalar squashes and for aggregate or unknown names; the
/// impact calculation then applies no saturation ceiling.
pub fn squash_emit_bound(name: &str) -> (r: Option<EmitBound>)
    ensures
        r == (match scalar_squash_named(normalised(name@)) {
            Some(s) => s.spec_emit_bound(),
            None => None,
        }),
{
    match scalar_squash(name) {
        Some(s) => s.emit_bound(),
        None => None,
    }
}

/// The squash whose approximate inverse reconstructs a pre-activation value
/// from an observed activation; `None` where no reasonable inverse exists
/// (non-monotonic squashes such as SINE, GAUSSIAN, SQUARE, ABSOLUTE, STEP).
pub fn approximate_inverse_squash(name: &str) -> (r: Option<ScalarSquash>)
    ensures
        r == (match scalar_squash_named(normalised(name@)) {
            Some(s) => if s.spec_has_inverse() {
                Some(s)
            } else {
                None
            },
            None => None,
        }),
{
    match scalar_squash(name) {
        Some(s) => if s.has_approximate_inverse() {
            Some(s)
        } else {
            None
        },
        None => None,
    }
}

/// The length and first two characters of every squash literal, which tell
/// them apart.
proof fn lemma_squash_literals()
    ensures
        "ABSOLUTE"@.len() == 8 && "ABSOLUTE"@[0] == 'A' && "ABSOLUTE"@[1] == 'B',
        "ARCTAN"@.len() == 6 && "ARCTAN"@[0] == 'A' && "ARCTAN"@[1] == 'R',
        "BENT_IDENTITY"@.len() == 13 && "BENT_IDENTITY"@[0] == 'B' && "BENT_IDENTITY"@[1] == 'E',
        "BIPOLAR"@.len() == 7 && "BIPOLAR"@[0] == 'B' && "BIPOLAR"@[1] == 'I',
        "BIPOLAR_SIGMOID"@.len() == 15 && "BIPOLAR_SIGMOID"@[0] == 'B' && "BIPOLAR_SIGMOID"@[1] == 'I',
        "COMPLEMENT"@.len() == 10 && "COMPLEMENT"@[0] == 'C' && "COMPLEMENT"@[1] == 'O',
        "INVERSE"@.len() == 7 && "INVERSE"@[0] == 'I' && "INVERSE"@[1] == 'N',
        "COSINE"@.len() == 6 && "COSINE"@[0] == 'C' && "COSINE"@[1] == 'O',
        "CUBE"@.len() == 4 && "CUBE"@[0] == 'C' && "CUBE"@[1] == 'U',
        "ELU"@.len() == 3 && "ELU"@[0] == 'E' && "ELU"@[1] == 'L',
        "EXPONENTIAL"@.len() == 11 && "EXPONENTIAL"@[0] == 'E' && "EXPONENTIAL"@[1] == 'X',
        "GAUSSIAN"@.len() == 8 && "GAUSSIAN"@[0] == 'G' && "GAUSSIAN"@[1] == 'A',
        "GELU"@.len() == 4 && "GELU"@[0] == 'G' && "GELU"@[1] == 'E',
        "HARD_TANH"@.len() == 9 && "HARD_TANH"@[0] == 'H' && "HARD_TANH"@[1] == 'A',
        "CLIPPED"@.len() == 7 && "CLIPPED"@[0] == 'C' && "CLIPPED"@[1] == 'L',
        "IDENTITY"@.len() == 8 && "IDENTITY"@[0] == 'I' && "IDENTITY"@[1] == 'D',
        "ISRU"@.len() == 4 && "ISRU"@[0] == 'I' && "ISRU"@[1] == 'S',
        "LEAKYRELU"@.len() == 9 && "LEAKYRELU"@[0] == 'L' && "LEAKYRELU"@[1] == 'E',
        "LOGISTIC"@.len() == 8 && "LOGISTIC"@[0] == 'L' && "LOGISTIC"@[1] == 'O',
        "LOGSIGMOID"@.len() == 10 && "LOGSIGMOID"@[0] == 'L' && "LOGSIGMOID"@[1] == 'O',
        "MISH"@.len() == 4 && "MISH"@[0] == 'M' && "MISH"@[1] == 'I',
        "RELU"@.len() == 4 && "RELU"@[0] == 'R' && "RELU"@[1] == 'E',
        "RELU6"@.len() == 5 && "RELU6"@[0] == 'R' && "RELU6"@[1] == 'E',
        "SELU"@.len() == 4 && "SELU"@[0] == 'S' && "SELU"@[1] == 'E',
        "SINE"@.len() == 4 && "SINE"@[0] == 'S' && "SINE"@[1] == 'I',
        "SINUSOID"@.len() == 8 && "SINUSOID"@[0] == 'S' && "SINUSOID"@[1] == 'I',
        "SOFTPLUS"@.len() == 8 && "SOFTPLUS"@[0] == 'S' && "SOFTPLUS"@[1] == 'O' && "SOFTPLUS"@[4] == 'P',
        "SOFTSIGN"@.len() == 8 && "SOFTSIGN"@[0] == 'S' && "SOFTSIGN"@[1] == 'O' && "SOFTSIGN"@[4] == 'S',
        "SQRT"@.len() == 4 && "SQRT"@[0] == 'S' && "SQRT"@[1] == 'Q',
        "SQUARE"@.len() == 6 && "SQUARE"@[0] == 'S' && "SQUARE"@[1] == 'Q',
        "STDINVERSE"@.len() == 10 && "STDINVERSE"@[0] == 'S' && "STDINVERSE"@[1] == 'T',
        "STEP"@.len() == 4 && "STEP"@[0] == 'S' && "STEP"@[1] == 'T',
        "SWISH"@.len() == 5 && "SWISH"@[0] == 'S' && "SWISH"@[1] == 'W',
        "TAN"@.len() == 3 && "TAN"@[0] == 'T' && "TAN"@[1] == 'A',
        "TANH"@.len() == 4 && "TANH"@[0] == 'T' && "TANH"@[1] == 'A',
        "IF"@.len() == 2 && "IF"@[0] == 'I' && "IF"@[1] == 'F',
        "MAXIMUM"@.len() == 7 && "MAXIMUM"@[0] == 'M' && "MAXIMUM"@[1] == 'A',
        "MINIMUM"@.len() == 7 && "MINIMUM"@[0] == 'M' && "MINIMUM"@[1] == 'I',
        "MEAN"@.len() == 4 && "MEAN"@[0] == 'M' && "MEAN"@[1] == 'E',
        "HYPOT"@.len() == 5 && "HYPOT"@[0] == 'H' && "HYPOT"@[1] == 'Y',
        "HYPOTV2"@.len() == 7 && "HYPOTV2"@[0] == 'H' && "HYPOTV2"@[1] == 'Y',
{
    reveal_strlit("ABSOLUTE");
    reveal_strlit("ARCTAN");
    reveal_strlit("BENT_IDENTITY");
    reveal_strlit("BIPOLAR");
    reveal_strlit("BIPOLAR_SIGMOID");
    reveal_strlit("COMPLEMENT");
    reveal_strlit("INVERSE");
    reveal_strlit("COSINE");
    reveal_strlit("CUBE");
    reveal_strlit("ELU");
    reveal_strlit("EXPONENTIAL");
    reveal_strlit("GAUSSIAN");
    reveal_strlit("GELU");
    reveal_strlit("HARD_TANH");
    reveal_strlit("CLIPPED");
    reveal_strlit("IDENTITY");
    reveal_strlit("ISRU");
    reveal_strlit("LEAKYRELU");
    reveal_strlit("LOGISTIC");
    reveal_strlit("LOGSIGMOID");
    reveal_strlit("MISH");
    reveal_strlit("RELU");
    reveal_strlit("RELU6");
    reveal_strlit("SELU");
    reveal_strlit("SINE");
    reveal_strlit("SINUSOID");
    reveal_strlit("SOFTPLUS");
    reveal_strlit("SOFTSIGN");
    reveal_strlit("SQRT");
    reveal_strlit("SQUARE");
    reveal_strlit("STDINVERSE");
    reveal_strlit("STEP");
    reveal_strlit("SWISH");
    reveal_strlit("TAN");
    reveal_strlit("TANH");
    reveal_strlit("IF");
    reveal_strlit("MAXIMUM");
    reveal_strlit("MINIMUM");
    reveal_strlit("MEAN");
    reveal_strlit("HYPOT");
    reveal_strlit("HYPOTV2");
}

proof fn lemma_aggregate_names_are_not_scalar()
    ensures
        scalar_squash_named("IF"@) is None,
        scalar_squash_named("MAXIMUM"@) is None,
        scalar_squash_named("MINIMUM"@) is None,
        scalar_squash_named("MEAN"@) is None,
        scalar_squash_named("HYPOT"@) is None,
        scalar_squash_named("HYPOTV2"@) is None,
{
    lemma_squash_literals();
}

/// The registry spelling of each scalar squash.
pub open spec fn registry_name(k: ScalarSquash) -> Seq<char> {
    match k {
        ScalarSquash::Absolute => "ABSOLUTE"@,
        ScalarSquash::Arctan => "ARCTAN"@,
        ScalarSquash::BentIdentity => "BENT_IDENTITY"@,
        ScalarSquash::Bipolar => "BIPOLAR"@,
        ScalarSquash::BipolarSigmoid => "BIPOLAR_SIGMOID"@,
        ScalarSquash::Complement => "COMPLEMENT"@,
        ScalarSquash::Cosine => "COSINE"@,
        ScalarSquash::Cube => "CUBE"@,
        ScalarSquash::Elu => "ELU"@,
        ScalarSquash::Exponential => "EXPONENTIAL"@,
        ScalarSquash::Gaussian => "GAUSSIAN"@,
        ScalarSquash::Gelu => "GELU"@,
        ScalarSquash::HardTanh => "HARD_TANH"@,
        ScalarSquash::Identity => "IDENTITY"@,
        ScalarSquash::Isru => "ISRU"@,
        ScalarSquash::LeakyRelu => "LEAKYRELU"@,
        ScalarSquash::Logistic => "LOGISTIC"@,
        ScalarSquash::LogSigmoid => "LOGSIGMOID"@,
        ScalarSquash::Mish => "MISH"@,
        ScalarSquash::Relu => "RELU"@,
        ScalarSquash::Relu6 => "RELU6"@,
        ScalarSquash::Selu => "SELU"@,
        ScalarSquash::Sine => "SINE"@,
        ScalarSquash::Softplus => "SOFTPLUS"@,
        ScalarSquash::Softsign => "SOFTSIGN"@,
        ScalarSquash::Sqrt => "SQRT"@,
        ScalarSquash::Square => "SQUARE"@,
        ScalarSquash::StdInverse => "STDINVERSE"@,
        ScalarSquash::Step => "STEP"@,
        ScalarSquash::Swish => "SWISH"@,
        ScalarSquash::Tan => "TAN"@,
        ScalarSquash::Tanh => "TANH"@,
    }
}

/// The second registry spelling of the squashes that have one.
pub open spec fn registry_alias(k: ScalarSquash) -> Option<Seq<char>> {
    match k {
        ScalarSquash::Complement => Some("INVERSE"@),
        ScalarSquash::HardTanh => Some("CLIPPED"@),
        ScalarSquash::Sine => Some("SINUSOID"@),
        _ => None,
    }
}

/// Every registry spelling denotes the squash it spells, and no other name
/// does: a name denotes `k` only when it is `k`'s spelling or its alias. So
/// two names that are not spellings of one squash denote different squashes.
pub proof fn lemma_registry_names_are_exact(n: Seq<char>, k: ScalarSquash)
    ensures
        scalar_squash_named(registry_name(k)) == Some(k),
        registry_alias(k) matches Some(a) ==> scalar_squash_named(a) == Some(k),
        scalar_squash_named(n) == Some(k) ==> (n == registry_name(k) || registry_alias(k) == Some(n)),
{
    lemma_squash_literals();
}

/// Aggregate squashes are recognised, yet no scalar squash stands for them:
/// a name denotes a scalar squash exactly when it is recognised and not aggregate.
pub proof fn lemma_scalar_iff_known_not_aggregate(n: Seq<char>)
    ensures
        scalar_squash_named(n) is Some <==> (is_known_named(n) && !is_aggregate_named(n)),
        is_aggregate_named(n) ==> is_known_named(n),
{
    lemma_aggregate_names_are_not_scalar();
}


/// Names that differ only in ASCII case normalise alike, so every classifier
/// in this module (and every one built on it) matches names case-insensitively.
pub proof fn lemma_normalised_ignores_ascii_case(a: Seq<char>, b: Seq<char>)
    requires
        eq_ignore_ascii_case(a, b),
    ensures
        normalised(a) == normalised(b),
{
    lemma_trimmed_upper(a);
    lemma_trimmed_upper(b);
}

/// Normalising a normalised name changes nothing.
pub proof fn lemma_normalised_idempotent(name: Seq<char>)
    ensures
        normalised(normalised(name)) == normalised(name),
{
    let t = trimmed(name);
    let u = ascii_upper(t);
    lemma_trimmed_shape(name);
    if t.len() > 0 {
        lemma_upper_char_white_space(t[0]);
        lemma_upper_char_white_space(t.last());
        assert(u[0] == crate::text::upper_char(t[0]));
        assert(u.last() == crate::text::upper_char(t.last()));
    }
    lemma_trimmed_fixed(u);
    lemma_upper_idempotent(t);
}


/// The threshold, clamp and TANH squash names denote the squashes they spell.
pub proof fn lemma_threshold_and_clamp_names()
    ensures
        scalar_squash_named("STEP"@) == Some(ScalarSquash::Step),
        scalar_squash_named("BIPOLAR"@) == Some(ScalarSquash::Bipolar),
        scalar_squash_named("HARD_TANH"@) == Some(ScalarSquash::HardTanh),
        scalar_squash_named("CLIPPED"@) == Some(ScalarSquash::HardTanh),
        scalar_squash_named("TANH"@) == Some(ScalarSquash::Tanh),
{
    lemma_squash_literals();
}

/// A name equal, up to ASCII case, to an upper-case literal without
/// surrounding white space normalises to that literal.
pub proof fn lemma_normalised_literal(name: Seq<char>, literal: Seq<char>)
    requires
        eq_ignore_ascii_case(name, literal),
        !has_ascii_lower(literal),
        literal.len() == 0 || (!crate::text::is_white_space(literal[0])
            && !crate::text::is_white_space(literal.last())),
    ensures
        normalised(name) == literal,
{
    lemma_trimmed_upper(name);
    lemma_upper_without_lower(literal);
    lemma_trimmed_fixed(literal);
}

} // verus!
