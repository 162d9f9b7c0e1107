//! Recognising threshold squashes (STEP and BIPOLAR) by their Unicode
//! upper-case form.
//!
//! A target whose squash is a threshold function is not served by the linear
//! error model: synapse analysis skips it and neuron analysis switches to a
//! threshold-crossing model for it.
use vstd::prelude::*;

use crate::text::str_eq;

verus! {

/// What `str::to_uppercase` makes of a string: its upper-case equivalent by
/// the Unicode case tables of the standard library.
pub uninterp spec fn unicode_upper(s: Seq<char>) -> Seq<char>;

/// The Unicode upper-case form of `s`.
///
/// Calls `str::to_uppercase`, whose result depends on its argument alone; the
/// contract names that result [`unicode_upper`] and claims nothing more of it.
#[verifier::external_body]
fn to_uppercase(s: &str) -> (r: String)
    ensures
        r@ == unicode_upper(s@),
{
    s.to_uppercase()
}

/// The two threshold squashes, by their upper-case names.
#[derive(Clone, Copy, Debug, PartialEq, Eq, Structural)]
pub enum ThresholdType {
    /// Output 1 above zero, 0 otherwise.
    Step,
    /// Output 1 above zero, -1 otherwise.
    Bipolar,
}

/// The threshold type named by an already upper-cased squash name.
pub open spec fn threshold_of_upper(upper: Seq<char>) -> Option<ThresholdType> {
    if upper == "STEP"@ {
        Some(ThresholdType::Step)
    } else if upper == "BIPOLAR"@ {
        Some(ThresholdType::Bipolar)
    } else {
        None
    }
}

/// The threshold type of a squash name: that of its Unicode upper-case form.
pub open spec fn threshold_of_squash(squash: Seq<char>) -> Option<ThresholdType> {
    threshold_of_upper(unicode_upper(squash))
}

/// The threshold type named by `upper`, a squash name already in upper case.
pub fn threshold_of_upper_name(upper: &str) -> (r: Option<ThresholdType>)
    ensures
        r == threshold_of_upper(upper@),
{
    if str_eq(upper, "STEP") {
        Some(ThresholdType::Step)
    } else if str_eq(upper, "BIPOLAR") {
        Some(ThresholdType::Bipolar)
    } else {
        None
    }
}

impl ThresholdType {
    /// The threshold type of a squash name, compared in Unicode upper case.
    pub fn from_squash(squash: &str) -> (r: Option<ThresholdType>)
        ensures
            r == threshold_of_squash(squash@),
    {
        let upper = to_uppercase(squash);
        threshold_of_upper_name(upper.as_str())
    }
}

/// Whether a squash name is a threshold squash (STEP or BIPOLAR in any case
/// that upper-cases to them).
pub fn is_threshold_activation(squash: &str) -> (r: bool)
    ensures
        r == threshold_of_squash(squash@).is_some(),
{
    ThresholdType::from_squash(squash).is_some()
}

} // verus!
