//! Agents that choose their actions by uniform random sampling.
//!
//! The generator is a ChaCha20 stream addressed by a seed and a word cursor, so
//! that a stored agent resumes the very sequence it would have produced.
//!
//! An action has one value for each dimension of the action space, drawn in
//! the order of the dimensions. The integers of the discrete dimensions are
//! drawn here. The numbers of the continuous dimensions are drawn by the
//! caller, at the place in the stream that the agent names, and are held here
//! as bit patterns.

pub mod agent;
pub mod float_bits;
pub mod laws;
pub mod seed;
pub mod space;
pub mod stream;

pub use agent::{RandomAgent, RandomAgentError, RandomAgentStorage, SamplingStep};
pub use float_bits::FloatBits;
pub use seed::Seed;
pub use stream::DeterministicStream;
pub use space::{ActionSpace, AgentAction, DimensionBoundaries, DimensionValue, EnvironmentState};
