//! A bridge between poll-driven futures and foreign suspend/resume
//! coroutines: a oneshot result channel with three terminal outcomes, the
//! resumption handle that resumes or destroys a coroutine frame exactly once,
//! and the adapter that runs a future on a thread pool and exposes its result
//! through such a channel.

pub mod exception;
pub mod handle;
pub mod outcome;
pub mod channel;
pub mod spawn;
pub mod vectors;

pub use channel::{channel, RustOneshotChannel, RustOneshotChannelF64, RustOneshotReceiver, RustOneshotSender, RustOneshotType};
pub use exception::CxxAsyncException;
pub use handle::{CoroutineCall, CxxCoroutineAddress, HandleEvent};
pub use outcome::Received;
pub use spawn::SpawnRejected;
pub use vectors::Xorshift;
