//! Verified core of a thin game-engine scaffold.
//!
//! The crate owns the decision logic of a windowed, GPU-driven game loop:
//! the input model (classification of raw key and pointer input into
//! semantic actions, and persistence of user rebindings), the lock-free
//! surface-resize state machine, the per-tick command drain of the game
//! state machine, the capability-limits algebra, and the adapter ranking
//! used to pick the most capable GPU. Everything that talks to the GPU,
//! the window system, the file system or another thread lives in the
//! embedding program, which feeds plain values in and carries the
//! returned decisions out.

pub mod adapter_query;
pub mod game;
pub mod limits;
pub mod local_storage;

pub use game::ExitFlag;
pub use game::GameCommand;
pub use game::InputMode;

use vstd::prelude::*;

verus! {

/// Buffer sizes handed to the GPU are rounded up to a multiple of this
/// power of two, so that alignment constraints never have to be checked
/// at each call site.
pub const BUFFER_PADDING: u64 = 256;

/// Rounds `value` up to the next multiple of `multiple`.
pub fn next_multiple_of(value: u64, multiple: u64) -> (r: u64)
    requires
        multiple > 0,
        value + multiple <= u64::MAX,
    ensures
        r % multiple == 0,
        value <= r < value + multiple,
{
    let rem = value % multiple;
    if rem == 0 {
        value
    } else {
        proof {
            let m = multiple as int;
            let q = value as int / m;
            vstd::arithmetic::div_mod::lemma_fundamental_div_mod(value as int, m);
            assert((q + 1) * m == m * q + m) by (nonlinear_arith);
            vstd::arithmetic::div_mod::lemma_mod_multiples_basic(q + 1, m);
            assert((value + (multiple - rem)) as int == (q + 1) * m);
        }
        value + (multiple - rem)
    }
}

} // verus!
