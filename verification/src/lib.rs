//! A readiness-based I/O event queue core.
//!
//! Callers register interest in read or write readiness on file-like
//! sources and later drain the events the kernel reported. The crate
//! holds the portable value types (`Interest`, `Token`), the two
//! kernel event-record formats (epoll and kqueue) with their readiness
//! semantics, the growable event collection, and the pure construction
//! of every record handed to a kernel call. The kernel calls
//! themselves, and the descriptors they need, live with the embedding
//! program.

pub mod epoll;
pub mod event;
pub mod events;
pub mod interests;
pub mod kqueue;
pub mod sysevent;
pub mod token;
