//! Local error kinds and the table that turns each into an exception.
//!
//! A local error is carried as its kind and its human-readable description.
//! `target_kind` is the one table from kind to exception class; every
//! conversion goes through it.

use vstd::prelude::*;
use crate::err::{PyErr, PyErrArguments, PyErrValue};
use crate::host::{ExcKind, HostObject, Interpreter, PyObject};

verus! {

/// The kinds of I/O error that have an exception class of their own.
#[derive(Clone, Copy, PartialEq, Eq, Structural, Debug)]
pub enum IoErrorKind {
    NotFound,
    BrokenPipe,
    ConnectionRefused,
    ConnectionAborted,
    ConnectionReset,
    Interrupted,
    WouldBlock,
    TimedOut,
    /// Every other I/O error kind.
    Other,
}

/// The local error kinds that convert into exceptions.
#[derive(Clone, Copy, PartialEq, Eq, Structural, Debug)]
pub enum ForeignErrorKind {
    /// An I/O error.
    Io(IoErrorKind),
    /// A buffered writer that could not flush on being taken apart.
    IntoInner,
    /// An integer that did not parse.
    ParseInt,
    /// A float that did not parse.
    ParseFloat,
    /// A bool that did not parse.
    ParseBool,
    /// An integer conversion that overflowed.
    TryFromInt,
    /// A slice whose length did not fit an array.
    TryFromSlice,
    /// A network address that did not parse.
    AddrParse,
    /// A string with an interior nul byte.
    Nul,
    /// A C string that was not UTF-8.
    IntoString,
    /// Bytes that were not UTF-8.
    Utf8,
    /// An owned byte vector that was not UTF-8.
    FromUtf8,
    /// Code units that were not UTF-16.
    FromUtf16,
    /// A lone surrogate met while decoding UTF-16.
    DecodeUtf16,
    /// The error that cannot occur.
    Infallible,
}

/// A local error: its kind and its description.
#[derive(Debug)]
pub struct ForeignError {
    pub kind: ForeignErrorKind,
    pub description: String,
}

/// The message of the error that cannot occur.
pub open spec fn infallible_text() -> Seq<char> {
    "Infalliable!"@
}

/// The exception class of each local error kind.
pub open spec fn target_kind(k: ForeignErrorKind) -> ExcKind {
    match k {
        ForeignErrorKind::Io(io) => match io {
            IoErrorKind::NotFound => ExcKind::FileNotFoundError,
            IoErrorKind::BrokenPipe => ExcKind::BrokenPipeError,
            IoErrorKind::ConnectionRefused => ExcKind::ConnectionRefusedError,
            IoErrorKind::ConnectionAborted => ExcKind::ConnectionAbortedError,
            IoErrorKind::ConnectionReset => ExcKind::ConnectionResetError,
            IoErrorKind::Interrupted => ExcKind::InterruptedError,
            IoErrorKind::WouldBlock => ExcKind::BlockingIOError,
            IoErrorKind::TimedOut => ExcKind::TimeoutError,
            IoErrorKind::Other => ExcKind::OSError,
        },
        ForeignErrorKind::IntoInner => ExcKind::OSError,
        ForeignErrorKind::IntoString
        | ForeignErrorKind::Utf8
        | ForeignErrorKind::FromUtf8
        | ForeignErrorKind::FromUtf16
        | ForeignErrorKind::DecodeUtf16 => ExcKind::UnicodeDecodeError,
        _ => ExcKind::ValueError,
    }
}

/// The record a local error converts into: the class of its kind, with the
/// error itself as the producer of the constructor's arguments.
pub open spec fn foreign_record(err: ForeignError) -> PyErr {
    PyErr {
        ptype: target_kind(err.kind).spec_type_object(),
        pvalue: PyErrValue::ToArgs(err),
        ptraceback: None,
    }
}

impl ForeignErrorKind {
    /// The exception class that errors of this kind become.
    pub fn target(self) -> (r: ExcKind)
        ensures
            r == target_kind(self),
    {
        match self {
            ForeignErrorKind::Io(io) => match io {
                IoErrorKind::NotFound => ExcKind::FileNotFoundError,
                IoErrorKind::BrokenPipe => ExcKind::BrokenPipeError,
                IoErrorKind::ConnectionRefused => ExcKind::ConnectionRefusedError,
                IoErrorKind::ConnectionAborted => ExcKind::ConnectionAbortedError,
                IoErrorKind::ConnectionReset => ExcKind::ConnectionResetError,
                IoErrorKind::Interrupted => ExcKind::InterruptedError,
                IoErrorKind::WouldBlock => ExcKind::BlockingIOError,
                IoErrorKind::TimedOut => ExcKind::TimeoutError,
                IoErrorKind::Other => ExcKind::OSError,
            },
            ForeignErrorKind::IntoInner => ExcKind::OSError,
            ForeignErrorKind::IntoString
            | ForeignErrorKind::Utf8
            | ForeignErrorKind::FromUtf8
            | ForeignErrorKind::FromUtf16
            | ForeignErrorKind::DecodeUtf16 => ExcKind::UnicodeDecodeError,
            _ => ExcKind::ValueError,
        }
    }
}

impl ForeignError {
    /// The message an error of this kind carries: its description, or the
    /// fixed text of the error that cannot occur.
    pub open spec fn message(&self) -> Seq<char> {
        if self.kind == ForeignErrorKind::Infallible {
            infallible_text()
        } else {
            self.description@
        }
    }
}

impl PyErrArguments for ForeignError {
    open spec fn arguments_text(&self) -> Seq<char> {
        self.message()
    }

    fn arguments(&self, py: &mut Interpreter) -> (r: PyObject) {
        let text = if self.kind == ForeignErrorKind::Infallible {
            proof {
                reveal_strlit("Infalliable!");
            }
            "Infalliable!".to_owned()
        } else {
            self.description.clone()
        };
        py.add_object(HostObject::Text(text))
    }
}

impl From<ForeignError> for PyErr {
    fn from(err: ForeignError) -> PyErr {
        PyErr::from_value(err.kind.target(), PyErrValue::from_err_args(err))
    }
}

impl vstd::std_specs::convert::FromSpecImpl<ForeignError> for PyErr {
    open spec fn obeys_from_spec() -> bool {
        true
    }

    open spec fn from_spec(err: ForeignError) -> PyErr {
        foreign_record(err)
    }
}

} // verus!
