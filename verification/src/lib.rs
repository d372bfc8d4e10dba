//! Decision logic behind the relay's foreign-function callbacks, its
//! subscriber dispatcher and its JavaScript promise bridge.
//!
//! The modules decide: which text crosses a C boundary, how a reply is read,
//! when a completion settles, in which order queued work runs. The program
//! around the library owns the pointers, the threads and the channels, performs
//! what these functions ask for, and hands back what came of it.

pub mod async_callable;
pub mod callable;
pub mod codec;
pub mod completion;
pub mod delivery;
pub mod dispatcher;
pub mod error;
pub mod flush;
pub mod json;
pub mod llm;
pub mod next;
pub mod promise;
pub mod sanitize;
pub mod text;
pub mod trampoline;
pub mod worker;
