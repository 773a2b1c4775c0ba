//! A mutex that backs off and reports, with rising severity, how long a
//! thread has been waiting for it.

pub mod backoff;
pub mod ident;
pub mod mutex;
pub mod primitive;

pub use crate::backoff::{Severity, Wait};
pub use crate::ident::print_id;
pub use crate::mutex::{Attempt, Mutex, MutexGuard, Poisoned, TryLockError};
pub use crate::primitive::Probe;
