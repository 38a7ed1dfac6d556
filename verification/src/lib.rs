//! A coroutine scheduler over mio's event loop: processors that run
//! coroutines from work-stealing queues, park the ones that wait for I/O under
//! event-loop tokens, and give sockets whose reads, writes and accepts suspend
//! only the coroutine, never the thread.
//!
//! The library holds the decisions: the token table of waiting coroutines,
//! the scheduling loops as state machines, the socket operations' machines,
//! the work count and the processor registry. The queues, channels, event
//! loop and coroutine switches are driven by the caller, command by command.
use vstd::prelude::*;

pub mod net;
pub mod processor;
pub mod scheduler;
pub mod standalone;
pub mod stdio;
pub mod token_table;
pub mod transfer;

verus! {

} // verus!
