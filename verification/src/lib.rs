//! A queue-driven worker that runs one shell command per job inside a
//! freshly booted virtual machine, synchronizing with the VM purely by
//! watching its console for a prompt marker.
//!
//! The verified core models the four load-bearing pieces:
//! - the status codec between the closed status set and its stored text,
//! - the job store's atomic claim and field-scoped persist operations,
//! - the prompt-synchronized channel protocol (readiness wait, single
//!   command execution, timeout and stream-exhaustion outcomes), and
//! - the per-cycle job state machine that turns session outcomes into
//!   terminal job states.
//!
//! Process spawning, database connections and the async event loop live
//! outside the library and hand it plain values.

pub mod channel;
pub mod clock;
pub mod job;
pub mod runner;
pub mod session;
pub mod status;
pub mod store;
pub mod text;
