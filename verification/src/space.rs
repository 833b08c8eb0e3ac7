//! Action spaces, the values drawn from them, and environment states.

use vstd::prelude::*;
use crate::float_bits::FloatBits;

verus! {

/// The value of one dimension.
#[derive(Clone, Copy, Debug, PartialEq, Eq, Structural)]
pub enum DimensionValue {
    /// A value of a discrete dimension.
    Integer(i64),
    /// A value of a continuous dimension.
    Float(FloatBits),
}

/// The kind of one dimension and its inclusive bounds.
#[allow(inconsistent_fields)]
#[derive(Clone, Copy, Debug, PartialEq, Eq, Structural)]
pub enum DimensionBoundaries {
    /// The integers from `minimum` to `maximum`.
    Discrete { minimum: i64, maximum: i64 },
    /// The numbers from `minimum` to `maximum`.
    Continuous { minimum: FloatBits, maximum: FloatBits },
}

impl DimensionBoundaries {
    /// The lower bound is at most the upper bound. For a continuous dimension
    /// this also says that both bounds are numbers.
    pub open spec fn well_formed(self) -> bool {
        match self {
            DimensionBoundaries::Discrete { minimum, maximum } => minimum <= maximum,
            DimensionBoundaries::Continuous { minimum, maximum } => minimum.spec_le(maximum),
        }
    }

    /// `value` is of this dimension's kind and lies within its bounds.
    pub open spec fn admits(self, value: DimensionValue) -> bool {
        match (self, value) {
            (
                DimensionBoundaries::Discrete { minimum, maximum },
                DimensionValue::Integer(v),
            ) => minimum <= v <= maximum,
            (
                DimensionBoundaries::Continuous { minimum, maximum },
                DimensionValue::Float(v),
            ) => minimum.spec_le(v) && v.spec_le(maximum),
            _ => false,
        }
    }

    /// `value` is of this dimension's kind and is its lower bound: the one
    /// number that a dimension with equal bounds admits.
    pub open spec fn pins(self, value: DimensionValue) -> bool {
        match (self, value) {
            (
                DimensionBoundaries::Discrete { minimum, maximum },
                DimensionValue::Integer(v),
            ) => v == minimum,
            (
                DimensionBoundaries::Continuous { minimum, maximum },
                DimensionValue::Float(v),
            ) => v.same_number(minimum),
            _ => false,
        }
    }

    /// Whether both bounds are equal.
    pub open spec fn degenerate(self) -> bool {
        match self {
            DimensionBoundaries::Discrete { minimum, maximum } => minimum == maximum,
            DimensionBoundaries::Continuous { minimum, maximum } => minimum.same_number(maximum),
        }
    }

    /// Tests [`DimensionBoundaries::well_formed`].
    pub fn is_well_formed(&self) -> (result: bool)
        ensures
            result == self.well_formed(),
    {
        match self {
            DimensionBoundaries::Discrete { minimum, maximum } => *minimum <= *maximum,
            DimensionBoundaries::Continuous { minimum, maximum } => minimum.le(*maximum),
        }
    }
}

/// Every dimension is well formed.
pub open spec fn space_well_formed(space: Seq<DimensionBoundaries>) -> bool {
    forall|i: int| 0 <= i < space.len() ==> (#[trigger] space[i]).well_formed()
}

/// `values` are admitted, one by one and in order, by the first dimensions of
/// `space`.
pub open spec fn conforms_so_far(space: Seq<DimensionBoundaries>, values: Seq<DimensionValue>) -> bool {
    &&& values.len() <= space.len()
    &&& forall|i: int| 0 <= i < values.len() ==> (#[trigger] space[i]).admits(values[i])
}

/// `values` holds one admitted value for each dimension of `space`, in the
/// order of the dimensions.
pub open spec fn conforms(space: Seq<DimensionBoundaries>, values: Seq<DimensionValue>) -> bool {
    &&& values.len() == space.len()
    &&& conforms_so_far(space, values)
}

/// An ordered list of dimensions, each of them well formed.
#[derive(Debug, PartialEq, Eq)]
pub struct ActionSpace {
    boundaries: Vec<DimensionBoundaries>,
}

impl View for ActionSpace {
    type V = Seq<DimensionBoundaries>;

    /// The dimensions in their order.
    closed spec fn view(&self) -> Seq<DimensionBoundaries> {
        self.boundaries@
    }
}

impl ActionSpace {
    /// What holds of every action space: each of its dimensions is well
    /// formed.
    #[verifier::type_invariant]
    pub open spec fn inv(self) -> bool {
        space_well_formed(self@)
    }

    /// The space with the given dimensions, where each of them is well formed.
    pub fn simple(boundaries: Vec<DimensionBoundaries>) -> (space: Option<ActionSpace>)
        ensures
            space is Some <==> space_well_formed(boundaries@),
            space matches Some(s) ==> s@ == boundaries@,
    {
        let mut i: usize = 0;
        while i < boundaries.len()
            invariant
                i <= boundaries.len(),
                forall|j: int| 0 <= j < i ==> (#[trigger] boundaries@[j]).well_formed(),
            decreases boundaries.len() - i,
        {
            if !boundaries[i].is_well_formed() {
                return None;
            }
            i += 1;
        }
        Some(ActionSpace { boundaries })
    }

    /// The number of dimensions.
    pub fn len(&self) -> (len: usize)
        ensures
            len == self@.len(),
    {
        self.boundaries.len()
    }

    /// The dimension at `index`.
    pub fn boundary(&self, index: usize) -> (boundaries: DimensionBoundaries)
        requires
            index < self@.len(),
        ensures
            boundaries == self@[index as int],
    {
        self.boundaries[index]
    }
}

impl Clone for ActionSpace {
    /// A space with the same dimensions.
    fn clone(&self) -> (space: ActionSpace)
        ensures
            space@ == self@,
    {
        proof {
            use_type_invariant(self);
        }
        let mut boundaries: Vec<DimensionBoundaries> = Vec::new();
        let mut i: usize = 0;
        while i < self.boundaries.len()
            invariant
                i <= self.boundaries@.len(),
                boundaries@ == self.boundaries@.subrange(0, i as int),
            decreases self.boundaries@.len() - i,
        {
            boundaries.push(self.boundaries[i]);
            i += 1;
        }
        assert(boundaries@ == self.boundaries@);
        ActionSpace { boundaries }
    }
}

/// What an agent chooses: one value for each dimension of its action space.
#[derive(Clone, Debug, PartialEq, Eq)]
pub struct AgentAction {
    pub values: Vec<DimensionValue>,
}

impl View for AgentAction {
    type V = Seq<DimensionValue>;

    open spec fn view(&self) -> Seq<DimensionValue> {
        self.values@
    }
}

/// What an agent is shown of its environment.
#[derive(Clone, Debug, PartialEq, Eq)]
pub struct EnvironmentState {
    pub values: Vec<DimensionValue>,
}

impl View for EnvironmentState {
    type V = Seq<DimensionValue>;

    open spec fn view(&self) -> Seq<DimensionValue> {
        self.values@
    }
}

impl Default for EnvironmentState {
    /// The state without any value.
    fn default() -> (state: EnvironmentState)
        ensures
            state@ == Seq::<DimensionValue>::empty(),
    {
        EnvironmentState { values: Vec::new() }
    }
}

} // verus!
