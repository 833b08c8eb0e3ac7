//! What holds of an agent over any sequence of calls.
//!
//! The laws speak of agents as plain values, through the functions by which
//! the contracts of [`crate::agent::RandomAgent`] say what each call returns
//! and what it leaves behind.

use vstd::prelude::*;
use crate::agent::{draw_discrete, AgentView, SamplingStepView};
use crate::float_bits::FloatBits;
use crate::space::{conforms, DimensionBoundaries, DimensionValue};
use crate::stream::integer_draw;

verus! {

/// One call of those that draw.
pub enum Call {
    /// `choose_action`.
    ChooseAction,
    /// `supply_continuous` with these arguments.
    SupplyContinuous { value: FloatBits, cursor: u128 },
}

/// What `call` returns on `agent`: the step, or nothing where
/// `supply_continuous` refuses.
pub open spec fn answer(agent: AgentView, call: Call) -> Option<SamplingStepView> {
    match call {
        Call::ChooseAction => Some(agent.step_at(agent.chosen())),
        Call::SupplyContinuous { value, cursor } => if agent.accepts(value) {
            Some(agent.step_at(agent.supplied(value, cursor)))
        } else {
            None
        },
    }
}

/// The agent after `call`.
pub open spec fn after(agent: AgentView, call: Call) -> AgentView {
    match call {
        Call::ChooseAction => agent.at(agent.chosen()),
        Call::SupplyContinuous { value, cursor } => if agent.accepts(value) {
            agent.at(agent.supplied(value, cursor))
        } else {
            agent
        },
    }
}

/// What the calls return, made one after the other on `agent`.
pub open spec fn answers(agent: AgentView, calls: Seq<Call>) -> Seq<Option<SamplingStepView>>
    decreases calls.len(),
{
    if calls.len() == 0 {
        Seq::empty()
    } else {
        seq![answer(agent, calls[0])] + answers(after(agent, calls[0]), calls.drop_first())
    }
}

/// Two agents for one action space that are reseeded with one seed return the
/// same on every sequence of calls, whatever they did before.
pub proof fn lemma_same_seed_same_answers(
    first: AgentView,
    second: AgentView,
    seed: Seq<u8>,
    calls: Seq<Call>,
)
    requires
        first.space == second.space,
    ensures
        answers(first.reseeded(seed), calls) == answers(second.reseeded(seed), calls),
{
    assert(first.reseeded(seed) == second.reseeded(seed));
}

/// An agent that loads what another one for the same action space stored is
/// that other agent, where that one was between two actions: it returns on
/// every sequence of calls what the other would have returned.
pub proof fn lemma_store_load(stored: AgentView, fresh: AgentView, calls: Seq<Call>)
    requires
        stored.wf(),
        stored.pending is None,
        fresh.space == stored.space,
    ensures
        fresh.loaded(stored.stored()) == stored,
        answers(fresh.loaded(stored.stored()), calls) == answers(stored, calls),
{
    assert(fresh.loaded(stored.stored()) == stored);
}

/// Drawing goes through the dimensions in their order: it keeps the values
/// that it is given, adds an integer for each discrete dimension that follows
/// them, and ends at a continuous dimension or at the end of the space.
pub proof fn lemma_draw_discrete(
    space: Seq<DimensionBoundaries>,
    seed: Seq<u8>,
    values: Seq<DimensionValue>,
    cursor: u128,
)
    requires
        values.len() <= space.len(),
    ensures
        ({
            let progress = draw_discrete(space, seed, values, cursor);
            &&& values.len() <= progress.values.len() <= space.len()
            &&& forall|i: int|
                0 <= i < values.len() ==> (#[trigger] progress.values[i]) == values[i]
            &&& forall|i: int|
                values.len() <= i < progress.values.len() ==> (#[trigger] space[i]) is Discrete
                    && progress.values[i] is Integer
            &&& progress.values.len() < space.len() ==> space[progress.values.len() as int]
                is Continuous
        }),
    decreases space.len() - values.len(),
{
    if values.len() < space.len() {
        match space[values.len() as int] {
            DimensionBoundaries::Discrete { minimum, maximum } => {
                let drawn = integer_draw(seed, cursor, minimum, maximum);
                let next = values.push(DimensionValue::Integer(drawn.0));
                lemma_draw_discrete(space, seed, next, drawn.1);
                let progress = draw_discrete(space, seed, values, cursor);
                assert(progress.values[values.len() as int] == next[values.len() as int]);
            },
            DimensionBoundaries::Continuous { .. } => {},
        }
    }
}

/// In a space without a continuous dimension every call of `choose_action`
/// finishes an action, and leaves the agent between two actions.
pub proof fn lemma_discrete_space_finishes(agent: AgentView)
    requires
        forall|i: int| 0 <= i < agent.space.len() ==> (#[trigger] agent.space[i]) is Discrete,
    ensures
        agent.step_at(agent.chosen()) is Finished,
        agent.chosen().values.len() == agent.space.len(),
        agent.at(agent.chosen()).pending is None,
{
    lemma_draw_discrete(agent.space, agent.seed, Seq::empty(), agent.cursor);
}

/// An action that conforms to a space has one value for each dimension. Each
/// value is of the kind of its dimension and within its bounds, and where the
/// bounds are equal it is that one number.
pub proof fn lemma_conforming_action(
    space: Seq<DimensionBoundaries>,
    values: Seq<DimensionValue>,
    index: int,
)
    requires
        conforms(space, values),
        0 <= index < space.len(),
    ensures
        values.len() == space.len(),
        space[index] is Discrete <==> values[index] is Integer,
        space[index] is Continuous <==> values[index] is Float,
        space[index].admits(values[index]),
        space[index].degenerate() ==> space[index].pins(values[index]),
{
}

} // verus!
