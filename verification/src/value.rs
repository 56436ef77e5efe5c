//! Tagged values: the closed set of payloads a handle can refer to, and the
//! operations that compare and coerce them.

use crate::pattern::{pattern_is_match, pattern_matches, Pattern, PatternModel};
use vstd::prelude::*;

verus! {

/// Mask that clears the sign bit of a binary64 bit pattern.
pub const FLOAT_MAGNITUDE_MASK: u64 = 0x7fff_ffff_ffff_ffff;

/// Magnitude of the two infinities; every larger magnitude is a NaN.
pub const FLOAT_INFINITY_BITS: u64 = 0x7ff0_0000_0000_0000;

/// Whether the binary64 bit pattern encodes a NaN.
pub open spec fn float_is_nan(bits: u64) -> bool {
    bits & FLOAT_MAGNITUDE_MASK > FLOAT_INFINITY_BITS
}

/// Whether the binary64 bit pattern encodes positive or negative zero.
pub open spec fn float_is_zero(bits: u64) -> bool {
    bits & FLOAT_MAGNITUDE_MASK == 0
}

/// Numeric equality of two binary64 bit patterns: a NaN equals nothing, the
/// two zeros equal each other, and any other number equals only itself.
pub open spec fn float_eq(left: u64, right: u64) -> bool {
    &&& !float_is_nan(left)
    &&& !float_is_nan(right)
    &&& (left == right || (float_is_zero(left) && float_is_zero(right)))
}

/// Numeric equality of two binary64 bit patterns.
pub fn float_bits_equal(left: u64, right: u64) -> (equal: bool)
    ensures
        equal == float_eq(left, right),
{
    let left_magnitude: u64 = left & FLOAT_MAGNITUDE_MASK;
    let right_magnitude: u64 = right & FLOAT_MAGNITUDE_MASK;
    if left_magnitude > FLOAT_INFINITY_BITS || right_magnitude > FLOAT_INFINITY_BITS {
        false
    } else {
        left == right || (left_magnitude == 0 && right_magnitude == 0)
    }
}

/// A tagged value. Floats are held as their binary64 bit pattern.
pub enum RtlValue {
    RtlInt(i64),
    RtlFloat(u64),
    RtlBool(bool),
    RtlString(String),
    RtlRegex(Pattern),
    /// Stands for a missing value; never stored on purpose.
    RtlNone,
}

/// The mathematical content of a tagged value.
pub enum ValueModel {
    Int(i64),
    Float(u64),
    Bool(bool),
    Text(Seq<char>),
    Matcher(PatternModel),
    Absent,
}

impl ValueModel {
    /// The stable numeric tag of the variant.
    pub open spec fn type_id(self) -> u32 {
        match self {
            ValueModel::Int(_) => 0,
            ValueModel::Float(_) => 1,
            ValueModel::Bool(_) => 2,
            ValueModel::Text(_) => 3,
            ValueModel::Matcher(_) => 4,
            ValueModel::Absent => 5,
        }
    }

    /// True for the boolean `true` and for nothing else.
    pub open spec fn as_boolean(self) -> bool {
        match self {
            ValueModel::Bool(b) => b,
            _ => false,
        }
    }

    /// The comparison of `self` (left) with `other` (right): equality within
    /// the scalar and text variants, a match test for text against a
    /// pattern, and `false` for every other pair.
    pub open spec fn compare_to(self, other: ValueModel) -> bool {
        match (self, other) {
            (ValueModel::Int(l), ValueModel::Int(r)) => l == r,
            (ValueModel::Float(l), ValueModel::Float(r)) => float_eq(l, r),
            (ValueModel::Bool(l), ValueModel::Bool(r)) => l == r,
            (ValueModel::Text(l), ValueModel::Text(r)) => l == r,
            (ValueModel::Text(l), ValueModel::Matcher(r)) => pattern_matches(
                r.source,
                r.options,
                l,
            ),
            _ => false,
        }
    }
}

impl View for RtlValue {
    type V = ValueModel;

    open spec fn view(&self) -> ValueModel {
        match self {
            RtlValue::RtlInt(i) => ValueModel::Int(*i),
            RtlValue::RtlFloat(bits) => ValueModel::Float(*bits),
            RtlValue::RtlBool(b) => ValueModel::Bool(*b),
            RtlValue::RtlString(s) => ValueModel::Text(s@),
            RtlValue::RtlRegex(p) => ValueModel::Matcher(p@),
            RtlValue::RtlNone => ValueModel::Absent,
        }
    }
}

impl RtlValue {
    /// Compares `self` (left) with `other` (right).
    pub fn compare_to(&self, other: &RtlValue) -> (equal: bool)
        ensures
            equal == self@.compare_to(other@),
    {
        match self {
            RtlValue::RtlInt(l) => match other {
                RtlValue::RtlInt(r) => *l == *r,
                _ => false,
            },
            RtlValue::RtlFloat(l) => match other {
                RtlValue::RtlFloat(r) => float_bits_equal(*l, *r),
                _ => false,
            },
            RtlValue::RtlBool(l) => match other {
                RtlValue::RtlBool(r) => *l == *r,
                _ => false,
            },
            RtlValue::RtlString(l) => match other {
                RtlValue::RtlString(r) => *l == *r,
                RtlValue::RtlRegex(r) => pattern_is_match(r, l.as_str()),
                _ => false,
            },
            RtlValue::RtlRegex(_) => false,
            RtlValue::RtlNone => false,
        }
    }

    /// The stable numeric tag of the variant.
    pub fn type_id(&self) -> (tag: u32)
        ensures
            tag == self@.type_id(),
    {
        match self {
            RtlValue::RtlInt(_) => 0,
            RtlValue::RtlFloat(_) => 1,
            RtlValue::RtlBool(_) => 2,
            RtlValue::RtlString(_) => 3,
            RtlValue::RtlRegex(_) => 4,
            RtlValue::RtlNone => 5,
        }
    }

    /// Coerces to a boolean: `true` only for the boolean `true`.
    pub fn as_boolean(&self) -> (truth: bool)
        ensures
            truth == self@.as_boolean(),
    {
        match self {
            RtlValue::RtlBool(b) => *b,
            _ => false,
        }
    }
}

} // verus!
