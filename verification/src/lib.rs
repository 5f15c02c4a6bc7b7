//! The decisions of a layer-shell overlay client, kept apart from its I/O.
//!
//! A caller owns the connection to the display server, the shared memory and
//! the renderer. It hands each event it receives to the state machines here
//! and carries out the [`wire::Action`]s they answer with, in their order.
//!
//! The bootstrap runs through five phases, one way only. Each failure on the
//! way is an [`Error`] and ends it.
//!
//! 1. Discovering: [`gate::InitialGateState`] hears the registry and the
//!    shared-memory factory.
//! 2. Binding: [`gate::InitialGateState::forward`] checks what was found, and
//!    the outputs are bound as [`gate::PrepareGateState::binds`] says.
//! 3. Preparing: [`gate::PrepareGateState`] hears the mode of each output.
//! 4. Ready: [`gate::PrepareGateState::forward`] gives one [`window::Window`]
//!    for each output, and each is created, configured and given its buffer.
//! 5. Running: each window is ticked in turn.
//!
//! [`mem`] holds the buffer pool, [`out`] the controller of a surface pair,
//! [`window`] the two of them together,
//! [`reg`] and [`init`] a registry that binds every global as it is
//! announced, and [`timer`] the pacing of what is done once in a while.

pub mod error;
pub mod gate;
pub mod init;
pub mod mem;
pub mod out;
pub mod reg;
pub mod timer;
pub mod window;
pub mod wire;

pub use error::Error;
pub use error::MissingError;
pub use error::Violation;
pub use timer::Transition;
