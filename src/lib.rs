//! Decision logic of a transparent TCP relay.
//!
//! The library holds no sockets. Each component is a state machine: the
//! caller performs the I/O that the machine asks for and hands back what
//! happened. `copier` moves bytes one way between two connections, `relay`
//! pairs two copiers running in opposite directions, and `listener` decides
//! what the accept loop does after each of its events.

mod copier;
mod relay;
mod listener;

pub use copier::{
    BUF_SIZE, CopyAction, CopyEvent, CopyFailure, CopyResult, Copier, CopierView, Phase, Side,
    action_of, bytes_read, count_of, result_of, lemma_byte_exact, lemma_next_inv,
    lemma_received_is_bytes_read, lemma_run_inv, lemma_terminal_absorbs,
};
pub use relay::{
    Direction, Relay, RelayOutcome, RelayView, events_of, outcome_of, other,
    lemma_directions_independent, lemma_half_close, lemma_join_not_race, lemma_relay_byte_exact,
};
pub use listener::{
    AcceptLoop, AcceptPolicy, Fatal, LoopAction, LoopEvent, LoopPhase, loop_action, loop_next,
    loop_run, lemma_keeps_listening,
};
