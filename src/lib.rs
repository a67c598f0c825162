//! Single-use jump checkpoints with a closure API.
//!
//! A checkpoint is established around an ordinary computation, which receives a
//! [`JumpPoint`] for it. The computation either returns normally, or ends early by
//! a jump to the checkpoint that carries one machine-word payload; the checkpoint
//! then reports which of the two happened. Handles are branded by an invariant
//! lifetime, so a jump can only be aimed at a checkpoint that is still live, and
//! nested checkpoints are told apart by the type system.

mod checkpoint;
mod laws;
mod point;

pub use checkpoint::{caught, catch_long_jump, establish_checkpoint, landing, route_outcome, settled};
pub use laws::{law_no_jump_passes_through, law_outer_jump_skips_inner, law_payload_round_trip};
pub use point::{long_jump, JumpPoint, LongJump};
