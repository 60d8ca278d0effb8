//! The arithmetic or logical operator applied to every pixel.

use vstd::prelude::*;

verus! {

/// The arithmetic or logical operator applied to every pixel.
///
/// The native library numbers these options consecutively from zero, in the
/// order declared here, so the declaration order is part of the contract.
#[derive(Clone, Copy, Debug, PartialEq, Eq, Structural)]
pub enum MagickEvaluateOperator {
    Undefined,
    Abs,
    Add,
    AddModulus,
    And,
    Cosine,
    Divide,
    Exponential,
    GaussianNoise,
    ImpulseNoise,
    LaplacianNoise,
    LeftShift,
    Log,
    Max,
    Mean,
    Median,
    Min,
    MultiplicativeNoise,
    Multiply,
    Or,
    PoissonNoise,
    Pow,
    RightShift,
    RootMeanSquare,
    SetValue,
    Sine,
    Subtract,
    Sum,
    ThresholdBlack,
    Threshold,
    ThresholdWhite,
    UniformNoise,
    Xor,
    InverseLog,
}

impl MagickEvaluateOperator {
    /// The native tag a variant maps to.
    pub open spec fn as_native(self) -> u32 {
        match self {
            MagickEvaluateOperator::Undefined => 0,
            MagickEvaluateOperator::Abs => 1,
            MagickEvaluateOperator::Add => 2,
            MagickEvaluateOperator::AddModulus => 3,
            MagickEvaluateOperator::And => 4,
            MagickEvaluateOperator::Cosine => 5,
            MagickEvaluateOperator::Divide => 6,
            MagickEvaluateOperator::Exponential => 7,
            MagickEvaluateOperator::GaussianNoise => 8,
            MagickEvaluateOperator::ImpulseNoise => 9,
            MagickEvaluateOperator::LaplacianNoise => 10,
            MagickEvaluateOperator::LeftShift => 11,
            MagickEvaluateOperator::Log => 12,
            MagickEvaluateOperator::Max => 13,
            MagickEvaluateOperator::Mean => 14,
            MagickEvaluateOperator::Median => 15,
            MagickEvaluateOperator::Min => 16,
            MagickEvaluateOperator::MultiplicativeNoise => 17,
            MagickEvaluateOperator::Multiply => 18,
            MagickEvaluateOperator::Or => 19,
            MagickEvaluateOperator::PoissonNoise => 20,
            MagickEvaluateOperator::Pow => 21,
            MagickEvaluateOperator::RightShift => 22,
            MagickEvaluateOperator::RootMeanSquare => 23,
            MagickEvaluateOperator::SetValue => 24,
            MagickEvaluateOperator::Sine => 25,
            MagickEvaluateOperator::Subtract => 26,
            MagickEvaluateOperator::Sum => 27,
            MagickEvaluateOperator::ThresholdBlack => 28,
            MagickEvaluateOperator::Threshold => 29,
            MagickEvaluateOperator::ThresholdWhite => 30,
            MagickEvaluateOperator::UniformNoise => 31,
            MagickEvaluateOperator::Xor => 32,
            MagickEvaluateOperator::InverseLog => 33,
        }
    }

    /// The greatest native tag with a defined meaning for this option.
    pub open spec fn max_native() -> u32 {
        33
    }

    /// The variant a native tag maps back to.  A newer native library may
    /// define tags beyond the declared ones, so a tag above the greatest
    /// declared one falls back to `MagickEvaluateOperator::Undefined`.
    pub open spec fn of_native(v: u32) -> MagickEvaluateOperator {
        if v == 0 {
            MagickEvaluateOperator::Undefined
        } else if v == 1 {
            MagickEvaluateOperator::Abs
        } else if v == 2 {
            MagickEvaluateOperator::Add
        } else if v == 3 {
            MagickEvaluateOperator::AddModulus
        } else if v == 4 {
            MagickEvaluateOperator::And
        } else if v == 5 {
            MagickEvaluateOperator::Cosine
        } else if v == 6 {
            MagickEvaluateOperator::Divide
        } else if v == 7 {
            MagickEvaluateOperator::Exponential
        } else if v == 8 {
            MagickEvaluateOperator::GaussianNoise
        } else if v == 9 {
            MagickEvaluateOperator::ImpulseNoise
        } else if v == 10 {
            MagickEvaluateOperator::LaplacianNoise
        } else if v == 11 {
            MagickEvaluateOperator::LeftShift
        } else if v == 12 {
            MagickEvaluateOperator::Log
        } else if v == 13 {
            MagickEvaluateOperator::Max
        } else if v == 14 {
            MagickEvaluateOperator::Mean
        } else if v == 15 {
            MagickEvaluateOperator::Median
        } else if v == 16 {
            MagickEvaluateOperator::Min
        } else if v == 17 {
            MagickEvaluateOperator::MultiplicativeNoise
        } else if v == 18 {
            MagickEvaluateOperator::Multiply
        } else if v == 19 {
            MagickEvaluateOperator::Or
        } else if v == 20 {
            MagickEvaluateOperator::PoissonNoise
        } else if v == 21 {
            MagickEvaluateOperator::Pow
        } else if v == 22 {
            MagickEvaluateOperator::RightShift
        } else if v == 23 {
            MagickEvaluateOperator::RootMeanSquare
        } else if v == 24 {
            MagickEvaluateOperator::SetValue
        } else if v == 25 {
            MagickEvaluateOperator::Sine
        } else if v == 26 {
            MagickEvaluateOperator::Subtract
        } else if v == 27 {
            MagickEvaluateOperator::Sum
        } else if v == 28 {
            MagickEvaluateOperator::ThresholdBlack
        } else if v == 29 {
            MagickEvaluateOperator::Threshold
        } else if v == 30 {
            MagickEvaluateOperator::ThresholdWhite
        } else if v == 31 {
            MagickEvaluateOperator::UniformNoise
        } else if v == 32 {
            MagickEvaluateOperator::Xor
        } else if v == 33 {
            MagickEvaluateOperator::InverseLog
        } else {
            MagickEvaluateOperator::Undefined
        }
    }

    /// Safe-to-native conversion: total and infallible.
    pub fn to_native(self) -> (r: u32)
        ensures
            r == self.as_native(),
    {
        match self {
            MagickEvaluateOperator::Undefined => 0,
            MagickEvaluateOperator::Abs => 1,
            MagickEvaluateOperator::Add => 2,
            MagickEvaluateOperator::AddModulus => 3,
            MagickEvaluateOperator::And => 4,
            MagickEvaluateOperator::Cosine => 5,
            MagickEvaluateOperator::Divide => 6,
            MagickEvaluateOperator::Exponential => 7,
            MagickEvaluateOperator::GaussianNoise => 8,
            MagickEvaluateOperator::ImpulseNoise => 9,
            MagickEvaluateOperator::LaplacianNoise => 10,
            MagickEvaluateOperator::LeftShift => 11,
            MagickEvaluateOperator::Log => 12,
            MagickEvaluateOperator::Max => 13,
            MagickEvaluateOperator::Mean => 14,
            MagickEvaluateOperator::Median => 15,
            MagickEvaluateOperator::Min => 16,
            MagickEvaluateOperator::MultiplicativeNoise => 17,
            MagickEvaluateOperator::Multiply => 18,
            MagickEvaluateOperator::Or => 19,
            MagickEvaluateOperator::PoissonNoise => 20,
            MagickEvaluateOperator::Pow => 21,
            MagickEvaluateOperator::RightShift => 22,
            MagickEvaluateOperator::RootMeanSquare => 23,
            MagickEvaluateOperator::SetValue => 24,
            MagickEvaluateOperator::Sine => 25,
            MagickEvaluateOperator::Subtract => 26,
            MagickEvaluateOperator::Sum => 27,
            MagickEvaluateOperator::ThresholdBlack => 28,
            MagickEvaluateOperator::Threshold => 29,
            MagickEvaluateOperator::ThresholdWhite => 30,
            MagickEvaluateOperator::UniformNoise => 31,
            MagickEvaluateOperator::Xor => 32,
            MagickEvaluateOperator::InverseLog => 33,
        }
    }

    /// Native-to-safe conversion: total, with the fallback described at
    /// [`MagickEvaluateOperator::of_native`] for unrecognized tags.
    pub fn from_native(v: u32) -> (r: MagickEvaluateOperator)
        ensures
            r == MagickEvaluateOperator::of_native(v),
    {
        if v == 0 {
            MagickEvaluateOperator::Undefined
        } else if v == 1 {
            MagickEvaluateOperator::Abs
        } else if v == 2 {
            MagickEvaluateOperator::Add
        } else if v == 3 {
            MagickEvaluateOperator::AddModulus
        } else if v == 4 {
            MagickEvaluateOperator::And
        } else if v == 5 {
            MagickEvaluateOperator::Cosine
        } else if v == 6 {
            MagickEvaluateOperator::Divide
        } else if v == 7 {
            MagickEvaluateOperator::Exponential
        } else if v == 8 {
            MagickEvaluateOperator::GaussianNoise
        } else if v == 9 {
            MagickEvaluateOperator::ImpulseNoise
        } else if v == 10 {
            MagickEvaluateOperator::LaplacianNoise
        } else if v == 11 {
            MagickEvaluateOperator::LeftShift
        } else if v == 12 {
            MagickEvaluateOperator::Log
        } else if v == 13 {
            MagickEvaluateOperator::Max
        } else if v == 14 {
            MagickEvaluateOperator::Mean
        } else if v == 15 {
            MagickEvaluateOperator::Median
        } else if v == 16 {
            MagickEvaluateOperator::Min
        } else if v == 17 {
            MagickEvaluateOperator::MultiplicativeNoise
        } else if v == 18 {
            MagickEvaluateOperator::Multiply
        } else if v == 19 {
            MagickEvaluateOperator::Or
        } else if v == 20 {
            MagickEvaluateOperator::PoissonNoise
        } else if v == 21 {
            MagickEvaluateOperator::Pow
        } else if v == 22 {
            MagickEvaluateOperator::RightShift
        } else if v == 23 {
            MagickEvaluateOperator::RootMeanSquare
        } else if v == 24 {
            MagickEvaluateOperator::SetValue
        } else if v == 25 {
            MagickEvaluateOperator::Sine
        } else if v == 26 {
            MagickEvaluateOperator::Subtract
        } else if v == 27 {
            MagickEvaluateOperator::Sum
        } else if v == 28 {
            MagickEvaluateOperator::ThresholdBlack
        } else if v == 29 {
            MagickEvaluateOperator::Threshold
        } else if v == 30 {
            MagickEvaluateOperator::ThresholdWhite
        } else if v == 31 {
            MagickEvaluateOperator::UniformNoise
        } else if v == 32 {
            MagickEvaluateOperator::Xor
        } else if v == 33 {
            MagickEvaluateOperator::InverseLog
        } else {
            MagickEvaluateOperator::Undefined
        }
    }

    /// Law: mapping a variant to its native tag and back returns the variant.
    pub proof fn lemma_native_roundtrip(self)
        ensures
            MagickEvaluateOperator::of_native(self.as_native()) == self,
    {
    }

    /// Law: every tag above the greatest defined one, not just the next,
    /// falls back to the default variant rather than failing.
    pub proof fn lemma_unknown_tag_default(v: u32)
        requires
            v > MagickEvaluateOperator::max_native(),
        ensures
            MagickEvaluateOperator::of_native(v) == MagickEvaluateOperator::Undefined,
    {
    }
}

impl Default for MagickEvaluateOperator {
    /// The documented default variant, also the fallback of [`MagickEvaluateOperator::of_native`].
    fn default() -> (r: Self)
        ensures
            r == MagickEvaluateOperator::Undefined,
    {
        MagickEvaluateOperator::Undefined
    }
}

} // verus!
