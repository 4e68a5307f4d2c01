//! A verified bridge between an interpreter's single pending-error slot and a
//! strongly-typed exception record.
//!
//! `host` models the interpreter: an append-only table of objects, the
//! built-in exception classes and the global error slot. Holding a
//! `&mut Interpreter` is the proof that the caller owns the interpreter lock.
//! `err` holds the exception record and the fetch / restore / normalize /
//! clone protocol, `foreign` the table that turns local error kinds into
//! exceptions, `module` the namespace helpers, and `laws` the properties
//! that relate several operations.

pub mod host;
pub mod err;
pub mod foreign;
pub mod laws;
pub mod module;

pub use err::{error_on_minusone, Fetched, PyDowncastError, PyErr, PyErrArguments, PyErrValue, ToPyValue};
pub use foreign::{ForeignError, ForeignErrorKind, IoErrorKind};
pub use host::{ExcKind, HostObject, Interpreter, PyObject, Triple};
pub use module::PyModule;
