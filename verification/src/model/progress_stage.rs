//! Stages of multi-stage operations.
//!
//! A stage may carry a relative weight. The weight is an IEEE 754 binary64
//! value, held here by its bit pattern, and must be finite and not below zero.

use vstd::prelude::*;

verus! {

/// Error produced when a progress stage has an invalid relative weight.
#[derive(Debug, Clone, Copy, PartialEq, Eq, Structural)]
pub enum ProgressStageError {
    /// The supplied weight is NaN or infinite.
    NonFiniteWeight,
    /// The supplied finite weight is negative.
    NegativeWeight,
}

/// Whether a binary64 bit pattern encodes a finite value: its exponent field
/// is not all ones.
pub open spec fn finite_bits(bits: u64) -> bool {
    (bits >> 52u64) & 0x7ffu64 != 0x7ffu64
}

/// Whether a binary64 bit pattern encodes a value below zero: its sign bit is
/// set and its magnitude is not zero (negative zero is not below zero).
pub open spec fn negative_bits(bits: u64) -> bool {
    (bits >> 63u64) == 1u64 && (bits & 0x7fff_ffff_ffff_ffffu64) != 0u64
}

/// Whether a weight, by its bit pattern, is acceptable.
pub open spec fn weight_ok(bits: u64) -> bool {
    finite_bits(bits) && !negative_bits(bits)
}

/// Abstract content of a [`ProgressStage`].
pub struct ProgressStageView {
    /// Stable machine-readable stage identifier.
    pub id: Seq<char>,
    /// Human-readable stage name.
    pub name: Seq<char>,
    /// Zero-based stage index when known.
    pub index: Option<usize>,
    /// Total number of stages when known.
    pub total_stages: Option<usize>,
    /// Bit pattern of the relative stage weight when known.
    pub weight_bits: Option<u64>,
}

/// Describes the current stage of a multi-stage operation.
#[derive(Debug, PartialEq, Eq)]
pub struct ProgressStage {
    id: String,
    name: String,
    index: Option<usize>,
    total_stages: Option<usize>,
    weight_bits: Option<u64>,
}

impl View for ProgressStage {
    type V = ProgressStageView;

    closed spec fn view(&self) -> ProgressStageView {
        ProgressStageView {
            id: self.id@,
            name: self.name@,
            index: self.index,
            total_stages: self.total_stages,
            weight_bits: self.weight_bits,
        }
    }
}

impl ProgressStage {
    /// A recorded weight is finite and not below zero.
    #[verifier::type_invariant]
    closed spec fn weight_valid(&self) -> bool {
        self.weight_bits matches Some(b) ==> weight_ok(b)
    }

    /// Creates a stage with a stable ID and display name.
    pub fn new(id: &str, name: &str) -> (s: Self)
        ensures
            s@ == (ProgressStageView {
                id: id@,
                name: name@,
                index: None,
                total_stages: None,
                weight_bits: None,
            }),
    {
        ProgressStage {
            id: id.to_owned(),
            name: name.to_owned(),
            index: None,
            total_stages: None,
            weight_bits: None,
        }
    }

    /// Returns a copy configured with a zero-based stage index.
    pub fn with_index(self, index: usize) -> (s: Self)
        ensures
            s@ == (ProgressStageView { index: Some(index), ..self@ }),
    {
        proof {
            use_type_invariant(&self);
        }
        ProgressStage { index: Some(index), ..self }
    }

    /// Returns a copy configured with the total stage count.
    pub fn with_total_stages(self, total_stages: usize) -> (s: Self)
        ensures
            s@ == (ProgressStageView { total_stages: Some(total_stages), ..self@ }),
    {
        proof {
            use_type_invariant(&self);
        }
        ProgressStage { total_stages: Some(total_stages), ..self }
    }

    /// Tries to configure a relative stage weight given by its bit pattern.
    ///
    /// Fails with [`ProgressStageError::NonFiniteWeight`] for NaN or infinity,
    /// and with [`ProgressStageError::NegativeWeight`] for a finite value
    /// below zero.
    pub fn try_with_weight_bits(self, bits: u64) -> (r: Result<Self, ProgressStageError>)
        ensures
            !finite_bits(bits) ==> r == Err::<Self, ProgressStageError>(
                ProgressStageError::NonFiniteWeight,
            ),
            finite_bits(bits) && negative_bits(bits) ==> r == Err::<Self, ProgressStageError>(
                ProgressStageError::NegativeWeight,
            ),
            weight_ok(bits) ==> r is Ok && r->Ok_0@ == (ProgressStageView {
                weight_bits: Some(bits),
                ..self@
            }),
    {
        proof {
            use_type_invariant(&self);
        }
        if (bits >> 52u64) & 0x7ffu64 == 0x7ffu64 {
            return Err(ProgressStageError::NonFiniteWeight);
        }
        if (bits >> 63u64) == 1u64 && (bits & 0x7fff_ffff_ffff_ffffu64) != 0u64 {
            return Err(ProgressStageError::NegativeWeight);
        }
        Ok(ProgressStage { weight_bits: Some(bits), ..self })
    }

    /// Returns a copy configured with a valid relative stage weight given by
    /// its bit pattern.
    pub fn with_weight_bits(self, bits: u64) -> (s: Self)
        requires
            weight_ok(bits),
        ensures
            s@ == (ProgressStageView { weight_bits: Some(bits), ..self@ }),
    {
        proof {
            use_type_invariant(&self);
        }
        ProgressStage { weight_bits: Some(bits), ..self }
    }

    /// Returns the stable stage identifier.
    pub fn id(&self) -> (id: &str)
        ensures
            id@ == self@.id,
    {
        self.id.as_str()
    }

    /// Returns the human-readable stage name.
    pub fn name(&self) -> (name: &str)
        ensures
            name@ == self@.name,
    {
        self.name.as_str()
    }

    /// Returns the stage index when known.
    pub fn index(&self) -> (i: Option<usize>)
        ensures
            i == self@.index,
    {
        self.index
    }

    /// Returns the total stage count when known.
    pub fn total_stages(&self) -> (n: Option<usize>)
        ensures
            n == self@.total_stages,
    {
        self.total_stages
    }

    /// Returns the bit pattern of the relative stage weight when known; a
    /// returned pattern is always finite and not below zero.
    pub fn weight_bits(&self) -> (b: Option<u64>)
        ensures
            b == self@.weight_bits,
            b matches Some(bits) ==> weight_ok(bits),
    {
        proof {
            use_type_invariant(self);
        }
        self.weight_bits
    }
}

impl Clone for ProgressStage {
    fn clone(&self) -> (s: Self)
        ensures
            s@ == self@,
    {
        proof {
            use_type_invariant(self);
        }
        ProgressStage {
            id: self.id.clone(),
            name: self.name.clone(),
            index: self.index,
            total_stages: self.total_stages,
            weight_bits: self.weight_bits,
        }
    }
}

impl ProgressStageError {
    /// Explains the invalid weight.
    pub fn message(&self) -> (m: &'static str)
        ensures
            self is NonFiniteWeight ==> m@ == "progress stage weight must be finite"@,
            self is NegativeWeight ==> m@ == "progress stage weight must be non-negative"@,
    {
        match self {
            ProgressStageError::NonFiniteWeight => "progress stage weight must be finite",
            ProgressStageError::NegativeWeight => "progress stage weight must be non-negative",
        }
    }
}

} // verus!
