//! The readiness core of an asynchronous I/O runtime: event masks, pollees
//! that publish readiness edges to subscribed pollers, the three-state
//! waiter that turns an edge into a task wake-up, and the fast-path /
//! slow-path decisions of awaitable reads and writes over non-blocking
//! files. Every step here is a sequential transition; the caller takes each
//! one under the lock that guards the state it changes.
pub mod errno;
pub mod events;
pub mod file_io;
pub mod pollee;
pub mod poller;
pub mod socket;
pub mod waiter;
