//! The agent: it draws one value for each dimension of its action space, in
//! the order of the dimensions, from a stream that a seed and a cursor fix.
//!
//! The library draws for the discrete dimensions itself. A continuous dimension
//! needs arithmetic on real numbers, which is left to the caller:
//! [`RandomAgent::choose_action`] stops at such a dimension and says where the
//! stream stands, and [`RandomAgent::supply_continuous`] takes the number that
//! the caller drew there and goes on.

use vstd::prelude::*;
use std::convert::Infallible;
use std::marker::PhantomData;
use crate::float_bits::FloatBits;
use crate::seed::Seed;
use crate::space::{
    conforms, conforms_so_far, space_well_formed, ActionSpace, AgentAction, DimensionBoundaries,
    DimensionValue, EnvironmentState,
};
use crate::stream::{integer_draw, DeterministicStream, CURSOR_LIMIT};

verus! {

/// The errors of this library: there is none. The operations still return a
/// `Result`, as those of other agents do.
///
/// No value of this type exists: its one variant holds a value of a type that
/// has none.
#[derive(Debug)]
pub enum RandomAgentError {
    /// Stands for the errors that a later version may have.
    Never(Infallible),
}

impl RandomAgentError {
    /// The text of the error, which is empty.
    pub fn message(&self) -> (text: String)
        ensures
            text@ == Seq::<char>::empty(),
    {
        String::new()
    }
}

/// What an agent keeps when it is stored: the seed of its stream and the
/// cursor in it.
#[derive(Clone, Copy, Debug, PartialEq, Eq)]
pub struct RandomAgentStorage {
    pub last_seed: Seed,
    pub rng_word_pos: u128,
}

/// A stored agent, as plain values.
pub struct StorageView {
    pub seed: Seq<u8>,
    pub cursor: u128,
}

impl View for RandomAgentStorage {
    type V = StorageView;

    open spec fn view(&self) -> StorageView {
        StorageView { seed: self.last_seed@, cursor: self.rng_word_pos }
    }
}

/// How far the sampling of one action has come.
pub enum SamplingStep {
    /// Every dimension has its value: this is the action.
    Finished(AgentAction),
    /// The next dimension is continuous. The caller draws a number from
    /// `minimum` to `maximum`, both included, on the stream of `seed` at
    /// `cursor`, and hands it to [`RandomAgent::supply_continuous`] with the
    /// cursor after the draw.
    Continuous { seed: Seed, cursor: u128, minimum: FloatBits, maximum: FloatBits },
}

/// A [`SamplingStep`], as plain values.
pub enum SamplingStepView {
    Finished(Seq<DimensionValue>),
    Continuous { seed: Seq<u8>, cursor: u128, minimum: FloatBits, maximum: FloatBits },
}

impl View for SamplingStep {
    type V = SamplingStepView;

    open spec fn view(&self) -> SamplingStepView {
        match self {
            SamplingStep::Finished(action) => SamplingStepView::Finished(action@),
            SamplingStep::Continuous { seed, cursor, minimum, maximum } => {
                SamplingStepView::Continuous {
                    seed: seed@,
                    cursor: *cursor,
                    minimum: *minimum,
                    maximum: *maximum,
                }
            },
        }
    }
}

/// The values drawn so far for one action, and the cursor after them.
pub struct Progress {
    pub values: Seq<DimensionValue>,
    pub cursor: u128,
}

/// Draws for the dimensions that follow `values`, in order, as long as they are
/// discrete: it ends before the first continuous dimension, or with a value
/// for every dimension.
pub open spec fn draw_discrete(
    space: Seq<DimensionBoundaries>,
    seed: Seq<u8>,
    values: Seq<DimensionValue>,
    cursor: u128,
) -> Progress
    decreases space.len() - values.len(),
{
    if values.len() < space.len() {
        match space[values.len() as int] {
            DimensionBoundaries::Discrete { minimum, maximum } => {
                let drawn = integer_draw(seed, cursor, minimum, maximum);
                draw_discrete(space, seed, values.push(DimensionValue::Integer(drawn.0)), drawn.1)
            },
            DimensionBoundaries::Continuous { .. } => Progress { values, cursor },
        }
    } else {
        Progress { values, cursor }
    }
}

/// What an agent is, as plain values.
pub struct AgentView {
    /// The dimensions of the action space.
    pub space: Seq<DimensionBoundaries>,
    /// The seed of the stream.
    pub seed: Seq<u8>,
    /// The word of the stream at which the next draw starts.
    pub cursor: u128,
    /// The values of the action in progress, while the agent waits for the
    /// number of a continuous dimension.
    pub pending: Option<Seq<DimensionValue>>,
}

impl AgentView {
    /// What holds of every agent: its space is well formed, its seed has 32
    /// bytes, its cursor lies within the stream, and where it waits for a
    /// number, the dimension after the pending values is continuous and each
    /// pending value is admitted by its dimension.
    pub open spec fn wf(self) -> bool {
        &&& space_well_formed(self.space)
        &&& self.seed.len() == 32
        &&& self.cursor < CURSOR_LIMIT
        &&& self.pending matches Some(values) ==> {
            &&& values.len() < self.space.len()
            &&& self.space[values.len() as int] is Continuous
            &&& conforms_so_far(self.space, values)
        }
    }

    /// The agent where sampling has come to `progress`.
    pub open spec fn at(self, progress: Progress) -> AgentView {
        AgentView {
            space: self.space,
            seed: self.seed,
            cursor: progress.cursor,
            pending: if progress.values.len() < self.space.len() {
                Some(progress.values)
            } else {
                None
            },
        }
    }

    /// What the agent says where sampling has come to `progress`.
    pub open spec fn step_at(self, progress: Progress) -> SamplingStepView {
        if progress.values.len() < self.space.len() {
            match self.space[progress.values.len() as int] {
                DimensionBoundaries::Continuous { minimum, maximum } => {
                    SamplingStepView::Continuous {
                        seed: self.seed,
                        cursor: progress.cursor,
                        minimum,
                        maximum,
                    }
                },
                DimensionBoundaries::Discrete { .. } => SamplingStepView::Finished(progress.values),
            }
        } else {
            SamplingStepView::Finished(progress.values)
        }
    }

    /// The agent with the stream of `seed` at its start.
    pub open spec fn reseeded(self, seed: Seq<u8>) -> AgentView {
        AgentView { space: self.space, seed, cursor: 0, pending: None }
    }

    /// What `store` writes down.
    pub open spec fn stored(self) -> StorageView {
        StorageView { seed: self.seed, cursor: self.cursor }
    }

    /// The agent after `load`: the stored stream, at the stored cursor.
    pub open spec fn loaded(self, data: StorageView) -> AgentView {
        AgentView {
            space: self.space,
            seed: data.seed,
            cursor: data.cursor % CURSOR_LIMIT,
            pending: None,
        }
    }

    /// How far `choose_action` comes: a new action, from the cursor on.
    pub open spec fn chosen(self) -> Progress {
        draw_discrete(self.space, self.seed, Seq::empty(), self.cursor)
    }

    /// Whether the agent waits for a number and `value` lies within the bounds
    /// of the dimension that it waits for.
    pub open spec fn accepts(self, value: FloatBits) -> bool {
        self.pending matches Some(values) && self.space[values.len() as int].admits(
            DimensionValue::Float(value),
        )
    }

    /// How far `supply_continuous` comes with an accepted `value`, drawn up to
    /// `cursor`.
    pub open spec fn supplied(self, value: FloatBits, cursor: u128) -> Progress {
        draw_discrete(
            self.space,
            self.seed,
            self.pending->0.push(DimensionValue::Float(value)),
            cursor % CURSOR_LIMIT,
        )
    }
}

/// An agent that chooses each action by uniform draws from its action space.
///
/// `R` is the kind of reward that the agent is given. It never looks at one.
pub struct RandomAgent<R> {
    action_spaces: ActionSpace,
    rng: DeterministicStream,
    pending: Vec<DimensionValue>,
    awaiting: bool,
    _phantom_data: PhantomData<R>,
}

impl<R> View for RandomAgent<R> {
    type V = AgentView;

    closed spec fn view(&self) -> AgentView {
        AgentView {
            space: self.action_spaces@,
            seed: self.rng.seed_bytes(),
            cursor: self.rng.position(),
            pending: if self.awaiting {
                Some(self.pending@)
            } else {
                None
            },
        }
    }
}

impl<R> RandomAgent<R> {
    /// What holds of every agent: see [`AgentView::wf`].
    #[verifier::type_invariant]
    pub open spec fn inv(self) -> bool {
        self@.wf()
    }

    /// Creates an agent for `action_spaces`, with a stream of a seed taken from
    /// the entropy of the operating system.
    pub fn with(action_spaces: ActionSpace) -> (agent: Self)
        ensures
            agent@.wf(),
            agent@.space == action_spaces@,
            agent@.cursor == 0,
            agent@.pending is None,
    {
        let last_seed = Seed::new_random();
        let rng = DeterministicStream::construct(last_seed);
        proof {
            use_type_invariant(&action_spaces);
            use_type_invariant(&rng);
        }
        RandomAgent {
            action_spaces,
            rng,
            pending: Vec::new(),
            awaiting: false,
            _phantom_data: PhantomData,
        }
    }

    /// Gives the agent a new stream, at its start: that of `random_seed`, or,
    /// without one, that of a seed taken from the entropy of the operating
    /// system. An action in progress is dropped.
    pub fn reseed(&mut self, random_seed: Option<Seed>) -> (result: Result<(), RandomAgentError>)
        ensures
            result is Ok,
            final(self)@.wf(),
            final(self)@ == old(self)@.reseeded(final(self)@.seed),
            random_seed matches Some(seed) ==> final(self)@.seed == seed@,
    {
        let last_seed = match random_seed {
            Some(seed) => seed,
            None => Seed::new_random(),
        };
        let rng = DeterministicStream::construct(last_seed);
        proof {
            use_type_invariant(&*self);
            use_type_invariant(&rng);
        }
        self.awaiting = false;
        self.pending = Vec::new();
        self.rng = rng;
        Ok(())
    }

    /// Does nothing: between two actions the agent keeps its stream and
    /// nothing else.
    pub fn reset(&mut self) -> (result: Result<(), RandomAgentError>)
        ensures
            result is Ok,
            *final(self) == *old(self),
    {
        Ok(())
    }

    /// Starts a new action and draws, from the cursor on, for each dimension in
    /// order until the action is finished or a continuous dimension is reached.
    /// The state of the environment is not looked at. An action that was in
    /// progress is dropped.
    pub fn choose_action(&mut self, _state: &EnvironmentState) -> (result: Result<
        SamplingStep,
        RandomAgentError,
    >)
        ensures
            final(self)@.wf(),
            final(self)@ == old(self)@.at(old(self)@.chosen()),
            result matches Ok(step) && step@ == old(self)@.step_at(old(self)@.chosen()),
            result matches Ok(SamplingStep::Finished(action)) ==> conforms(old(self)@.space, action@),
    {
        proof {
            use_type_invariant(&*self);
        }
        self.awaiting = false;
        self.pending = Vec::new();
        Ok(self.sample_after(Vec::new()))
    }

    /// Takes `value` as the number of the continuous dimension that the agent
    /// waits for, moves the stream to `cursor`, and goes on drawing as
    /// [`RandomAgent::choose_action`] does.
    ///
    /// Where the agent waits for no number, or `value` lies outside the
    /// bounds of the dimension, nothing changes and the result is `None`.
    pub fn supply_continuous(&mut self, value: FloatBits, cursor: u128) -> (result: Option<
        SamplingStep,
    >)
        ensures
            final(self)@.wf(),
            result is Some <==> old(self)@.accepts(value),
            result is None ==> final(self)@ == old(self)@,
            result matches Some(step) ==> {
                &&& final(self)@ == old(self)@.at(old(self)@.supplied(value, cursor))
                &&& step@ == old(self)@.step_at(old(self)@.supplied(value, cursor))
            },
            result matches Some(SamplingStep::Finished(action)) ==> conforms(
                old(self)@.space,
                action@,
            ),
    {
        proof {
            use_type_invariant(&*self);
        }
        if !self.awaiting {
            return None;
        }
        let admitted = match self.action_spaces.boundary(self.pending.len()) {
            DimensionBoundaries::Continuous { minimum, maximum } => {
                minimum.le(value) && value.le(maximum)
            },
            DimensionBoundaries::Discrete { .. } => false,
        };
        if !admitted {
            return None;
        }
        self.awaiting = false;
        let mut values: Vec<DimensionValue> = Vec::new();
        std::mem::swap(&mut values, &mut self.pending);
        values.push(DimensionValue::Float(value));
        let mut rng = self.rng;
        rng.advance_to(cursor);
        proof {
            use_type_invariant(&rng);
        }
        self.rng = rng;
        Some(self.sample_after(values))
    }

    /// Draws for the dimensions that follow those of `drawn`, up to the first
    /// continuous one.
    fn sample_after(&mut self, drawn: Vec<DimensionValue>) -> (step: SamplingStep)
        requires
            !old(self).awaiting,
            conforms_so_far(old(self)@.space, drawn@),
        ensures
            final(self)@.wf(),
            final(self)@ == old(self)@.at(
                draw_discrete(old(self)@.space, old(self)@.seed, drawn@, old(self)@.cursor),
            ),
            step@ == old(self)@.step_at(
                draw_discrete(old(self)@.space, old(self)@.seed, drawn@, old(self)@.cursor),
            ),
            step matches SamplingStep::Finished(action) ==> conforms(old(self)@.space, action@),
    {
        proof {
            use_type_invariant(&*self);
        }
        let mut values = drawn;
        let ghost goal = draw_discrete(self@.space, self@.seed, values@, self@.cursor);
        while values.len() < self.action_spaces.len()
            invariant
                self@.space == old(self)@.space,
                self@.seed == old(self)@.seed,
                self@.wf(),
                !self.awaiting,
                conforms_so_far(self@.space, values@),
                draw_discrete(self@.space, self@.seed, values@, self@.cursor) == goal,
                goal == draw_discrete(
                    old(self)@.space,
                    old(self)@.seed,
                    drawn@,
                    old(self)@.cursor,
                ),
            decreases self@.space.len() - values.len(),
        {
            match self.action_spaces.boundary(values.len()) {
                DimensionBoundaries::Discrete { minimum, maximum } => {
                    let mut rng = self.rng;
                    let value = rng.draw_uniform_integer(minimum, maximum);
                    proof {
                        use_type_invariant(&rng);
                    }
                    self.rng = rng;
                    values.push(DimensionValue::Integer(value));
                },
                DimensionBoundaries::Continuous { minimum, maximum } => {
                    let step = SamplingStep::Continuous {
                        seed: self.rng.seed(),
                        cursor: self.rng.cursor(),
                        minimum,
                        maximum,
                    };
                    self.pending = values;
                    self.awaiting = true;
                    return step;
                },
            }
        }
        SamplingStep::Finished(AgentAction { values })
    }

    /// Does nothing: the agent does not learn from a reward.
    pub fn process_reward(
        &mut self,
        _previous_state: &EnvironmentState,
        _action: &AgentAction,
        _next_state: &EnvironmentState,
        _reward: R,
        _done: bool,
    ) -> (result: Result<(), RandomAgentError>)
        ensures
            result is Ok,
            *final(self) == *old(self),
    {
        Ok(())
    }

    /// Moves the agent to the stream of the stored seed, at the stored cursor.
    /// The stream cycles after 2^68 words, so only the low 68 bits of the
    /// cursor count. An action in progress is dropped.
    pub fn load(&mut self, data: RandomAgentStorage) -> (result: Result<(), RandomAgentError>)
        ensures
            result is Ok,
            final(self)@.wf(),
            final(self)@ == old(self)@.loaded(data@),
    {
        let mut rng = DeterministicStream::construct(data.last_seed);
        rng.advance_to(data.rng_word_pos);
        proof {
            use_type_invariant(&*self);
            use_type_invariant(&rng);
        }
        self.awaiting = false;
        self.pending = Vec::new();
        self.rng = rng;
        Ok(())
    }

    /// The seed of the stream and the cursor in it.
    pub fn store(&self) -> (data: RandomAgentStorage)
        ensures
            data@ == self@.stored(),
    {
        RandomAgentStorage { last_seed: self.rng.seed(), rng_word_pos: self.rng.cursor() }
    }

    /// Does nothing: the agent holds nothing that has to be released.
    pub fn close(&mut self) -> (result: Result<(), RandomAgentError>)
        ensures
            result is Ok,
            *final(self) == *old(self),
    {
        Ok(())
    }
}

} // verus!
