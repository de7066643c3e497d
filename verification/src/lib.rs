//! A thread-safe pool of reusable null-terminated byte buffers ("C strings").
//!
//! Code that repeatedly hands text across a foreign-function boundary needs a
//! null-terminated buffer for every call, and allocating and freeing a fresh
//! one each time is wasteful. The pool recycles buffers instead: a caller
//! acquires a buffer through a scoped handle, the buffer is repopulated in
//! place from the caller's input, and dropping the handle returns the buffer
//! to the pool. Every buffer the pool ever stores holds exactly one null
//! byte, at the end — the invariant that makes the recycled bytes safe to
//! hand to foreign code.

mod buffer;
mod error;
mod pool;
mod scan;

pub use error::NulError;
pub use pool::CStrHandle;
pub use pool::CStringPool;
