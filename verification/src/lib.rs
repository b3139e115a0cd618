//! Safe, ownership-typed wrappers around resources that a foreign,
//! memory-unsafe runtime owns and lifecycle-manages, together with a
//! domain-scoped error value that follows the same runtime's conventional
//! error-passing protocol.
//!
//! The crate has three parts:
//!
//! * [`wrapper`] holds the ownership-model dispatcher: given the few
//!   primitive lifecycle operations a foreign type supplies, it yields a
//!   wrapper value whose construction, duplication, release and raw-handle
//!   access are proved correct for that type's ownership discipline
//!   (value copy, shared refcount, or shared refcount with type identity).
//! * [`runtime`] holds small in-process runtimes that implement those
//!   primitive operations, so the wrappers can be exercised end to end.
//! * [`error`] holds the structured error value: a namespaced domain, a
//!   code and a message, with the runtime's first-error-wins assignment
//!   and propagation rules.

pub mod error;
pub mod runtime;
pub mod wrapper;
