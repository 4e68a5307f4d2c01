//! The exception record and the protocol that moves it in and out of the
//! interpreter's error slot.

use vstd::prelude::*;
use vstd::string::StringSliceAdditionalSpecFns;
use crate::foreign::ForeignError;
use crate::host::{
    bad_category_text, ctor_args, extends, find_byte, given_matches, holds_byte, instance_of,
    is_exc_class, is_exc_instance, lemma_builtin_exc_class, lemma_extends_index,
    lemma_extends_trans, lemma_subclass_extends, subclass, text_of, ExcKind, HostObject,
    Interpreter, PyObject, Triple, NONE_ID,
};

verus! {

/// A single value to hand to an exception class's constructor, converted to
/// an object only when the exception is realized.
#[derive(Debug)]
pub enum ToPyValue {
    Text(String),
    Object(PyObject),
}

/// The value of an exception record.
#[derive(Debug)]
pub enum PyErrValue {
    /// No value: the instance is built from the type alone.
    Empty,
    /// A realized object.
    Value(PyObject),
    /// A producer of the constructor's arguments.
    ToArgs(ForeignError),
    /// A value to convert into the constructor's single argument.
    ToObject(ToPyValue),
}

/// An exception: its type, its value and its traceback.
#[derive(Debug)]
pub struct PyErr {
    /// The exception class.
    pub ptype: PyObject,
    /// The value, possibly not realized yet.
    pub pvalue: PyErrValue,
    /// The traceback, if any.
    pub ptraceback: Option<PyObject>,
}

/// Marker type for a failed downcast; it converts into a `TypeError`.
#[derive(Debug)]
pub struct PyDowncastError;

/// What `PyErr::fetch` found in the slot: an ordinary error, or a local panic
/// that went through the interpreter and must resume, with its message.
#[derive(Debug)]
pub enum Fetched {
    Error(PyErr),
    Panic(String),
}

/// A producer of an exception's constructor arguments: one new text object.
pub trait PyErrArguments {
    /// The text that the produced object holds.
    spec fn arguments_text(&self) -> Seq<char>;

    fn arguments(&self, py: &mut Interpreter) -> (r: PyObject)
        requires
            old(py).wf(),
        ensures
            final(py).wf(),
            final(py).grows_from(*old(py)),
            final(py).lists@ == old(py).lists@,
            final(py).dicts@ == old(py).dicts@,
            final(py).objs().len() == old(py).objs().len() + 1,
            r.id == old(py).objs().len(),
            text_of(final(py).objs(), Some(r)) == Some(self.arguments_text()),
    ;
}

/// The message a panic carries when its value is not text.
pub open spec fn default_panic_text() -> Seq<char> {
    "Unwrapped panic from Python code"@
}

/// The message that resumes a panic whose value is `v`.
pub open spec fn panic_message(objs: Seq<HostObject>, v: Option<PyObject>) -> Seq<char> {
    match text_of(objs, v) {
        Some(s) => s,
        None => default_panic_text(),
    }
}

/// The realized object of a value, if it has one already.
pub open spec fn value_handle(v: PyErrValue) -> Option<PyObject> {
    match v {
        PyErrValue::Value(o) => Some(o),
        PyErrValue::ToObject(ToPyValue::Object(o)) => Some(o),
        _ => None,
    }
}

/// The object a value stands for, where it is one.
pub open spec fn value_opt(v: PyErrValue) -> Option<PyObject> {
    match v {
        PyErrValue::Value(o) => Some(o),
        _ => None,
    }
}

/// The text that a lazy value produces when realized.
pub open spec fn lazy_text(v: PyErrValue) -> Option<Seq<char>> {
    match v {
        PyErrValue::ToArgs(e) => Some(e.arguments_text()),
        PyErrValue::ToObject(ToPyValue::Text(s)) => Some(s@),
        _ => None,
    }
}

/// Realizing `v` in table `before` gives table `after` and object `r`: a
/// lazy text becomes one new text object; anything else creates nothing.
pub open spec fn realize_post(
    before: Seq<HostObject>,
    v: PyErrValue,
    after: Seq<HostObject>,
    r: Option<PyObject>,
) -> bool {
    match lazy_text(v) {
        Some(s) => {
            &&& after.len() == before.len() + 1
            &&& extends(before, after)
            &&& r is Some
            &&& r.unwrap().id == before.len()
            &&& text_of(after, r) == Some(s)
        },
        None => after == before && r == (match v {
            PyErrValue::Empty => None,
            _ => value_handle(v),
        }),
    }
}

/// The record built from a triple taken out of the slot: an absent type
/// becomes `SystemError`, an absent value stays absent.
pub open spec fn from_triple(t: Triple) -> PyErr {
    PyErr {
        ptype: match t.ptype {
            Some(ty) => ty,
            None => ExcKind::SystemError.spec_type_object(),
        },
        pvalue: match t.pvalue {
            Some(v) => PyErrValue::Value(v),
            None => PyErrValue::Empty,
        },
        ptraceback: t.ptraceback,
    }
}

/// `after` is `before` once `e` was written into the slot.
pub open spec fn restore_post(before: Interpreter, e: PyErr, after: Interpreter) -> bool {
    &&& after.wf()
    &&& realize_post(before.objs(), e.pvalue, after.objs(), after.slot.pvalue)
    &&& after.slot.ptype == Some(e.ptype)
    &&& after.slot.ptraceback == e.ptraceback
    &&& after.lists@ == before.lists@
    &&& after.dicts@ == before.dicts@
    &&& after.printed@ == before.printed@
    &&& after.last_vars == before.last_vars
    &&& after.warnings@ == before.warnings@
}

/// `after` and `r` are what `fetch` leaves and returns in state `before`.
pub open spec fn fetch_post(before: Interpreter, after: Interpreter, r: Fetched) -> bool {
    &&& after.wf()
    &&& after.slot == Triple::spec_empty()
    &&& after.objs() == before.objs()
    &&& after.lists@ == before.lists@
    &&& after.dicts@ == before.dicts@
    &&& after.warnings@ == before.warnings@
    &&& if before.slot.ptype == Some(ExcKind::PanicException.spec_type_object()) {
        &&& r matches Fetched::Panic(m) && m@ == panic_message(before.objs(), before.slot.pvalue)
        &&& after.printed@ == before.printed@.push(before.slot)
        &&& after.last_vars == before.last_vars
    } else {
        &&& r == Fetched::Error(from_triple(before.slot))
        &&& after.printed@ == before.printed@
        &&& after.last_vars == before.last_vars
    }
}

/// `t` is the triple printed for `e`, which was realized from state `before`
/// to state `after`.
pub open spec fn printed_as(before: Interpreter, e: PyErr, after: Interpreter, t: Triple) -> bool {
    &&& realize_post(before.objs(), e.pvalue, after.objs(), t.pvalue)
    &&& t.ptype == Some(e.ptype)
    &&& t.ptraceback == e.ptraceback
}

/// `after` and `r` are what copying `e` in state `before` gives: the same
/// type and traceback, and the value realized into an object.
pub open spec fn clone_post(before: Interpreter, e: PyErr, after: Interpreter, r: PyErr) -> bool {
    &&& after.wf()
    &&& after.grows_from(before)
    &&& after.lists@ == before.lists@
    &&& after.dicts@ == before.dicts@
    &&& r.wf(after)
    &&& r.ptype == e.ptype
    &&& r.ptraceback == e.ptraceback
    &&& (e.pvalue is Empty <==> r.pvalue is Empty)
    &&& (!(e.pvalue is Empty) ==> r.pvalue is Value)
    &&& realize_post(before.objs(), e.pvalue, after.objs(), value_opt(r.pvalue))
}

/// The message of a normalized error: the text of its instance's only
/// constructor argument.
pub open spec fn instance_message(objs: Seq<HostObject>, e: PyErr) -> Option<Seq<char>> {
    match e.pvalue {
        PyErrValue::Value(x) => if 0 <= x.id < objs.len() && objs[x.id as int] is Instance
            && objs[x.id as int]->args@.len() == 1 {
            text_of(objs, Some(objs[x.id as int]->args@[0]))
        } else {
            None
        },
        _ => None,
    }
}

/// Is `e` normalized in `objs`: its value an instance whose class is its type?
pub open spec fn is_normalized(objs: Seq<HostObject>, e: PyErr) -> bool {
    &&& e.pvalue is Value
    &&& is_exc_instance(objs, e.pvalue->Value_0.id as int)
    &&& objs[e.pvalue->Value_0.id as int]->class == e.ptype
}

/// `after` and `r` are what normalizing `e` in state `before` gives. A value
/// that is already an instance of the type (or of a class derived from it)
/// is kept, and the type becomes its class; otherwise a new instance of the
/// type is built from the realized value.
pub open spec fn normalize_post(before: Interpreter, e: PyErr, after: Interpreter, r: PyErr) -> bool {
    &&& after.wf()
    &&& after.grows_from(before)
    &&& after.lists@ == before.lists@
    &&& after.dicts@ == before.dicts@
    &&& r.ptraceback == e.ptraceback
    &&& is_normalized(after.objs(), r)
    &&& r.wf(after)
    &&& if instance_of(before.objs(), value_handle(e.pvalue), e.ptype.id as int) {
        &&& after.objs() == before.objs()
        &&& r.pvalue == PyErrValue::Value(value_handle(e.pvalue).unwrap())
        &&& r.ptype == before.objs()[value_handle(e.pvalue).unwrap().id as int]->class
    } else {
        &&& r.ptype == e.ptype
        &&& r.pvalue is Value
        &&& r.pvalue->Value_0.id == after.objs().len() - 1
        &&& match lazy_text(e.pvalue) {
            Some(s) => {
                let a = after.objs().last()->args@;
                &&& a.len() == 1
                &&& a[0].id == before.objs().len()
                &&& text_of(after.objs(), Some(a[0])) == Some(s)
            },
            None => after.objs().last()->args@ == ctor_args(before.objs(), value_handle(e.pvalue)),
        }
    }
}

impl PyErrValue {
    /// A value whose constructor arguments `value` produces.
    pub fn from_err_args(value: ForeignError) -> (r: PyErrValue)
        ensures
            r == PyErrValue::ToArgs(value),
    {
        PyErrValue::ToArgs(value)
    }
}

impl PyErr {
    /// The type is an exception class of `py`.
    pub open spec fn wf(&self, py: Interpreter) -> bool {
        is_exc_class(py.objs(), self.ptype.id as int)
    }

    /// Realizes a value: a lazy text becomes a new text object.
    fn realize(value: PyErrValue, py: &mut Interpreter) -> (r: Option<PyObject>)
        requires
            old(py).wf(),
        ensures
            final(py).wf(),
            final(py).grows_from(*old(py)),
            final(py).lists@ == old(py).lists@,
            final(py).dicts@ == old(py).dicts@,
            realize_post(old(py).objs(), value, final(py).objs(), r),
    {
        proof {
            assert(py.objs().subrange(0, py.objs().len() as int) == py.objs());
        }
        match value {
            PyErrValue::Empty => None,
            PyErrValue::Value(ob) => Some(ob),
            PyErrValue::ToArgs(ob) => Some(ob.arguments(py)),
            PyErrValue::ToObject(ToPyValue::Object(ob)) => Some(ob),
            PyErrValue::ToObject(ToPyValue::Text(s)) => Some(py.add_object(HostObject::Text(s))),
        }
    }
}

impl PyErr {
    /// An error of the built-in class `kind`, whose instance will be built
    /// from `value`.
    pub fn new(kind: ExcKind, value: ToPyValue) -> (r: PyErr)
        ensures
            r == (PyErr {
                ptype: kind.spec_type_object(),
                pvalue: PyErrValue::ToObject(value),
                ptraceback: None,
            }),
    {
        PyErr { ptype: kind.type_object(), pvalue: PyErrValue::ToObject(value), ptraceback: None }
    }

    /// An error of class `exc`, whose instance will be built from `args`.
    pub fn from_type(py: &Interpreter, exc: PyObject, args: ToPyValue) -> (r: PyErr)
        requires
            is_exc_class(py.objs(), exc.id as int),
        ensures
            r == (PyErr { ptype: exc, pvalue: PyErrValue::ToObject(args), ptraceback: None }),
            r.wf(*py),
    {
        PyErr { ptype: exc, pvalue: PyErrValue::ToObject(args), ptraceback: None }
    }

    /// An error of the built-in class `kind` with the given value.
    pub fn from_value(kind: ExcKind, value: PyErrValue) -> (r: PyErr)
        ensures
            r == (PyErr { ptype: kind.spec_type_object(), pvalue: value, ptraceback: None }),
    {
        PyErr { ptype: kind.type_object(), pvalue: value, ptraceback: None }
    }

    /// The error that `obj` stands for: an exception instance as it is, an
    /// exception class with no value, or else a `TypeError`.
    pub fn from_instance(py: &Interpreter, obj: PyObject) -> (r: PyErr)
        requires
            py.wf(),
        ensures
            r.wf(*py),
            is_exc_instance(py.objs(), obj.id as int) ==> r == (PyErr {
                ptype: py.objs()[obj.id as int]->class,
                pvalue: PyErrValue::Value(obj),
                ptraceback: None,
            }),
            !is_exc_instance(py.objs(), obj.id as int) && is_exc_class(py.objs(), obj.id as int)
                ==> r == (PyErr { ptype: obj, pvalue: PyErrValue::Empty, ptraceback: None }),
            !is_exc_instance(py.objs(), obj.id as int) && !is_exc_class(py.objs(), obj.id as int)
                ==> {
                &&& r.ptype == ExcKind::TypeError.spec_type_object()
                &&& r.pvalue matches PyErrValue::ToObject(ToPyValue::Text(m))
                &&& m@ == "exceptions must derive from BaseException"@
                &&& r.ptraceback is None
            },
    {
        if py.is_exception_instance(obj) {
            let class = match &py.objects[obj.id] {
                HostObject::Instance { class, .. } => *class,
                _ => obj,
            };
            PyErr { ptype: class, pvalue: PyErrValue::Value(obj), ptraceback: None }
        } else if py.is_exception_class(obj) {
            PyErr { ptype: obj, pvalue: PyErrValue::Empty, ptraceback: None }
        } else {
            proof {
                lemma_builtin_exc_class(*py, ExcKind::TypeError);
                reveal_strlit("exceptions must derive from BaseException");
            }
            PyErr::new(
                ExcKind::TypeError,
                ToPyValue::Text("exceptions must derive from BaseException".to_owned()),
            )
        }
    }

    /// Is an error pending in the interpreter?
    pub fn occurred(py: &Interpreter) -> (r: bool)
        ensures
            r == (py.slot.ptype is Some),
    {
        py.slot.ptype.is_some()
    }

    /// The record for a triple taken out of the slot. It cannot fail: an
    /// absent type becomes `SystemError`.
    fn new_from_ffi_tuple(py: &Interpreter, t: Triple) -> (r: PyErr)
        requires
            py.wf(),
            t.ptype matches Some(ty) ==> is_exc_class(py.objs(), ty.id as int),
        ensures
            r == from_triple(t),
            r.wf(*py),
    {
        let pvalue = match t.pvalue {
            Some(v) => PyErrValue::Value(v),
            None => PyErrValue::Empty,
        };
        let ptype = match t.ptype {
            Some(ty) => ty,
            None => {
                proof {
                    lemma_builtin_exc_class(*py, ExcKind::SystemError);
                }
                ExcKind::SystemError.type_object()
            },
        };
        PyErr { ptype, pvalue, ptraceback: t.ptraceback }
    }

    /// Takes the pending error out of the interpreter, leaving the slot empty.
    /// With nothing pending the result is a `SystemError`. A pending
    /// `PanicException` is printed and handed back as the panic to resume,
    /// with its text, or a fixed message when its value is not text.
    pub fn fetch(py: &mut Interpreter) -> (r: Fetched)
        requires
            old(py).wf(),
        ensures
            fetch_post(*old(py), *final(py), r),
            old(py).slot.ptype is None ==> (r matches Fetched::Error(e) && e.ptype
                == ExcKind::SystemError.spec_type_object()),
            r matches Fetched::Error(e) ==> e.wf(*final(py)),
    {
        let t = py.fetch_triple();
        let err = PyErr::new_from_ffi_tuple(py, t);
        let is_panic = match t.ptype {
            Some(ty) => ty.id == ExcKind::PanicException.type_object().id,
            None => false,
        };
        if is_panic {
            let msg = match py.text_of(t.pvalue) {
                Some(s) => s,
                None => {
                    proof {
                        reveal_strlit("Unwrapped panic from Python code");
                    }
                    "Unwrapped panic from Python code".to_owned()
                },
            };
            proof {
                lemma_builtin_exc_class(*py, ExcKind::PanicException);
            }
            err.print(py);
            assert(py.printed@.last() == t);
            assert(py.printed@ =~= old(py).printed@.push(t));
            return Fetched::Panic(msg);
        }
        Fetched::Error(err)
    }

    /// Writes the error into the interpreter's slot, realizing its value.
    pub fn restore(self, py: &mut Interpreter)
        requires
            old(py).wf(),
            self.wf(*old(py)),
        ensures
            restore_post(*old(py), self, *final(py)),
    {
        let ghost before = *py;
        let PyErr { ptype, pvalue, ptraceback } = self;
        let v = PyErr::realize(pvalue, py);
        proof {
            lemma_subclass_extends(before.objs(), py.objs(), ptype.id as int, 0);
        }
        py.restore_triple(Triple { ptype: Some(ptype), pvalue: v, ptraceback });
    }

    /// Prints the error with its traceback to the diagnostic stream.
    pub fn print(self, py: &mut Interpreter)
        requires
            old(py).wf(),
            self.wf(*old(py)),
        ensures
            final(py).wf(),
            final(py).slot == Triple::spec_empty(),
            final(py).lists@ == old(py).lists@,
            final(py).dicts@ == old(py).dicts@,
            final(py).warnings@ == old(py).warnings@,
            final(py).printed@.len() == old(py).printed@.len() + 1,
            final(py).printed@.drop_last() == old(py).printed@,
            printed_as(*old(py), self, *final(py), final(py).printed@.last()),
            final(py).last_vars == old(py).last_vars,
    {
        self.restore(py);
        py.print_traceback(false);
        assert(py.printed@.drop_last() =~= old(py).printed@);
    }

    /// Prints the error like `print`, and records it as the last error.
    pub fn print_and_set_sys_last_vars(self, py: &mut Interpreter)
        requires
            old(py).wf(),
            self.wf(*old(py)),
        ensures
            final(py).wf(),
            final(py).slot == Triple::spec_empty(),
            final(py).lists@ == old(py).lists@,
            final(py).dicts@ == old(py).dicts@,
            final(py).warnings@ == old(py).warnings@,
            final(py).printed@.len() == old(py).printed@.len() + 1,
            final(py).printed@.drop_last() == old(py).printed@,
            printed_as(*old(py), self, *final(py), final(py).printed@.last()),
            final(py).last_vars == Some(final(py).printed@.last()),
    {
        self.restore(py);
        py.print_traceback(true);
        assert(py.printed@.drop_last() =~= old(py).printed@);
    }

    /// Does this error match `exc`: a class it derives from, or a tuple of
    /// such classes?
    pub fn matches(&self, py: &Interpreter, exc: PyObject) -> (r: bool)
        ensures
            r == given_matches(py.objs(), self.ptype.id as int, exc.id as int),
    {
        py.given_exception_matches(self.ptype, exc)
    }

    /// Is this error an instance of the built-in class `kind`?
    pub fn is_instance(&self, py: &Interpreter, kind: ExcKind) -> (r: bool)
        ensures
            r == given_matches(py.objs(), self.ptype.id as int, kind.spec_id() as int),
    {
        py.given_exception_matches(self.ptype, kind.type_object())
    }
}

impl PyErr {
    /// Makes the value an instance of the type, in place. The record is read
    /// out into locals, normalized there, and written back in one assignment.
    pub fn normalize(&mut self, py: &mut Interpreter)
        requires
            old(py).wf(),
            old(self).wf(*old(py)),
        ensures
            normalize_post(*old(py), *old(self), *final(py), *final(self)),
    {
        let mut taken = PyErr { ptype: ExcKind::BaseException.type_object(), pvalue: PyErrValue::Empty, ptraceback: None };
        std::mem::swap(self, &mut taken);
        let normalized = taken.into_normalized(py);
        *self = normalized;
    }

    /// The normalized record: the value realized, then handed with the type
    /// and traceback to the interpreter, whose answer is taken as it is.
    fn into_normalized(self, py: &mut Interpreter) -> (r: PyErr)
        requires
            old(py).wf(),
            self.wf(*old(py)),
        ensures
            normalize_post(*old(py), self, *final(py), r),
    {
        let ghost before = *py;
        let PyErr { ptype, pvalue, ptraceback } = self;
        let ghost e = PyErr { ptype, pvalue, ptraceback };
        let ghost lazy = lazy_text(pvalue);
        let ghost handle = value_handle(pvalue);
        let v = PyErr::realize(pvalue, py);
        let ghost mid = *py;
        proof {
            lemma_subclass_extends(before.objs(), mid.objs(), ptype.id as int, 0);
            if lazy is Some {
                let x = v.unwrap().id as int;
                assert(mid.objs()[x] is Text);
                assert(!instance_of(mid.objs(), v, ptype.id as int));
                assert(ctor_args(mid.objs(), v) == seq![v.unwrap()]);
            } else {
                if instance_of(before.objs(), handle, ptype.id as int) {
                    assert(v == handle);
                } else {
                    assert(ctor_args(mid.objs(), v) == ctor_args(before.objs(), handle));
                }
            }
        }
        let t = py.normalize_triple(Triple { ptype: Some(ptype), pvalue: v, ptraceback });
        proof {
            let after = py.objs();
            assert(mid.objs().subrange(0, before.objs().len() as int) == before.objs()) by {
                assert(mid.objs().subrange(0, before.objs().len() as int) =~= before.objs());
            }
            assert(extends(before.objs(), after)) by {
                assert(after.subrange(0, before.objs().len() as int) =~= mid.objs().subrange(
                    0,
                    before.objs().len() as int,
                ));
            }
            lemma_subclass_extends(mid.objs(), after, ptype.id as int, 0);
            if instance_of(mid.objs(), v, ptype.id as int) {
                let x = v.unwrap().id as int;
                assert(is_exc_instance(after, x));
                assert(t.pvalue == v);
                assert(after[x]->class == t.ptype.unwrap());
                assert(is_normalized(after, from_triple(t)));
            } else {
                let x = after.len() - 1;
                assert(after[x] == after.last());
                assert(is_exc_class(after, ptype.id as int));
                assert(is_exc_instance(after, x));
                assert(t.pvalue.unwrap().id == x);
                assert(t.ptype == Some(ptype));
                assert(after[x]->class == ptype);
                assert(is_normalized(after, from_triple(t)));
                if lazy is Some {
                    lemma_extends_index(mid.objs(), after, before.objs().len() as int);
                }
            }
        }
        let r = PyErr::new_from_ffi_tuple(py, t);
        proof {
            let after = *py;
            assert(after.wf());
            assert(after.grows_from(before));
            assert(r.ptraceback == e.ptraceback);
            assert(is_normalized(after.objs(), r));
            assert(r.wf(after));
            if instance_of(before.objs(), value_handle(e.pvalue), e.ptype.id as int) {
                assert(after.objs() == before.objs());
                assert(r.pvalue == PyErrValue::Value(value_handle(e.pvalue).unwrap()));
                assert(r.ptype == before.objs()[value_handle(e.pvalue).unwrap().id as int]->class);
            } else {
                assert(r.ptype == e.ptype);

            }
        }
        r
    }

    /// The exception instance of this error, normalizing it first.
    pub fn instance(self, py: &mut Interpreter) -> (r: PyObject)
        requires
            old(py).wf(),
            self.wf(*old(py)),
        ensures
            final(py).wf(),
            final(py).grows_from(*old(py)),
            final(py).lists@ == old(py).lists@,
            final(py).dicts@ == old(py).dicts@,
            is_exc_instance(final(py).objs(), r.id as int),
            subclass(final(py).objs(), final(py).objs()[r.id as int]->class.id as int, self.ptype.id as int),
            exists|n: PyErr|
                normalize_post(*old(py), self, *final(py), n) && n.pvalue == PyErrValue::Value(r),
    {
        let ghost before = *py;
        let ghost e0 = self;
        let mut e = self;
        e.normalize(py);
        proof {
            let x = e.pvalue->Value_0;
            let c = py.objs()[x.id as int]->class;
            assert(py.objs()[c.id as int] is Class);
            if instance_of(before.objs(), value_handle(e0.pvalue), e0.ptype.id as int) {
                assert(py.objs() == before.objs());
            } else {
                assert(subclass(py.objs(), c.id as int, e0.ptype.id as int));
            }
        }
        match e.pvalue {
            PyErrValue::Value(instance) => instance,
            _ => PyObject { id: NONE_ID },
        }
    }

    /// The exception instance of a copy of this error; the error itself is
    /// left as it is.
    pub fn to_object(&self, py: &mut Interpreter) -> (r: PyObject)
        requires
            old(py).wf(),
            self.wf(*old(py)),
        ensures
            final(py).wf(),
            final(py).grows_from(*old(py)),
            is_exc_instance(final(py).objs(), r.id as int),
            subclass(final(py).objs(), final(py).objs()[r.id as int]->class.id as int, self.ptype.id as int),
    {
        let err = self.clone_ref(py);
        let ghost mid = *py;
        let r = err.instance(py);
        proof {
            lemma_extends_trans(old(py).objs(), mid.objs(), py.objs());
        }
        r
    }

    /// Writes the error into the slot; the null object handle for callers
    /// that signal failure that way.
    pub fn restore_and_null(self, py: &mut Interpreter) -> (r: Option<PyObject>)
        requires
            old(py).wf(),
            self.wf(*old(py)),
        ensures
            restore_post(*old(py), self, *final(py)),
            r is None,
    {
        self.restore(py);
        None
    }

    /// Writes the error into the slot; -1 for callers that signal failure
    /// that way.
    pub fn restore_and_minus1(self, py: &mut Interpreter) -> (r: libc::c_int)
        requires
            old(py).wf(),
            self.wf(*old(py)),
        ensures
            restore_post(*old(py), self, *final(py)),
            r == -1,
    {
        self.restore(py);
        -1
    }

    /// A copy of this error. The type and traceback are shared; a lazy value
    /// is realized now rather than shared, so the copy holds its object.
    /// A producer of arguments and a single convertible value are realized
    /// alike, as one object.
    pub fn clone_ref(&self, py: &mut Interpreter) -> (r: PyErr)
        requires
            old(py).wf(),
            self.wf(*old(py)),
        ensures
            clone_post(*old(py), *self, *final(py), r),
    {
        let ghost before = *py;
        let v = match &self.pvalue {
            PyErrValue::Empty => PyErrValue::Empty,
            PyErrValue::Value(ob) => PyErrValue::Value(*ob),
            PyErrValue::ToArgs(ob) => PyErrValue::Value(ob.arguments(py)),
            PyErrValue::ToObject(ToPyValue::Object(ob)) => PyErrValue::Value(*ob),
            PyErrValue::ToObject(ToPyValue::Text(t)) => PyErrValue::Value(
                py.add_object(HostObject::Text(t.clone())),
            ),
        };
        proof {
            assert(before.objs().subrange(0, before.objs().len() as int) == before.objs());
            lemma_subclass_extends(before.objs(), py.objs(), self.ptype.id as int, 0);
        }
        let t = match self.ptraceback {
            Some(val) => Some(val),
            None => None,
        };
        PyErr { ptype: self.ptype, pvalue: v, ptraceback: t }
    }
}

impl From<PyDowncastError> for PyErr {
    fn from(_err: PyDowncastError) -> PyErr {
        PyErr::from_value(ExcKind::TypeError, PyErrValue::Empty)
    }
}

impl vstd::std_specs::convert::FromSpecImpl<PyDowncastError> for PyErr {
    open spec fn obeys_from_spec() -> bool {
        true
    }

    open spec fn from_spec(err: PyDowncastError) -> PyErr {
        PyErr {
            ptype: ExcKind::TypeError.spec_type_object(),
            pvalue: PyErrValue::Empty,
            ptraceback: None,
        }
    }
}

/// The message of the error for text with an interior nul byte.
pub open spec fn nul_text() -> Seq<char> {
    "nul byte found in provided data"@
}

/// The message of the error for a class name without a module part.
pub open spec fn dotless_name_text() -> Seq<char> {
    "PyErr_NewException: name must be module.class"@
}

/// The message of the error for a base that is not an exception class.
pub open spec fn bad_base_text() -> Seq<char> {
    "base must be an exception class"@
}

/// The message of the error for a class namespace that is not a dictionary.
pub open spec fn bad_dict_text() -> Seq<char> {
    "dict must be a dictionary"@
}

/// Is `e` an error of class `kind` whose value is the lazy text `msg`?
pub open spec fn is_error_with_text(e: PyErr, kind: ExcKind, msg: Seq<char>) -> bool {
    &&& e.ptype == kind.spec_type_object()
    &&& e.pvalue matches PyErrValue::ToObject(ToPyValue::Text(m))
    &&& m@ == msg
    &&& e.ptraceback is None
}

/// Is `b` absent or an exception class of `py`?
pub open spec fn base_ok(py: Interpreter, b: Option<PyObject>) -> bool {
    match b {
        Some(x) => is_exc_class(py.objs(), x.id as int),
        None => true,
    }
}

/// Is `d` absent or a dictionary of `py`?
pub open spec fn dict_ok(py: Interpreter, d: Option<PyObject>) -> bool {
    match d {
        Some(x) => 0 <= x.id < py.objs().len() && py.objs()[x.id as int] is Dict,
        None => true,
    }
}

/// An error of class `kind` with the lazy text `msg`.
fn error_with_text(kind: ExcKind, msg: &str) -> (r: PyErr)
    ensures
        is_error_with_text(r, kind, msg@),
{
    PyErr::new(kind, ToPyValue::Text(msg.to_owned()))
}

impl PyErr {
    /// Creates an exception class named `name`, which must be of the form
    /// `module.Class`, deriving from `base` (from `Exception` when absent).
    /// `dict`, when given, must be a dictionary; this interpreter's classes
    /// keep no namespace of their own, so its entries are not carried over.
    pub fn new_type(
        py: &mut Interpreter,
        name: &str,
        base: Option<PyObject>,
        dict: Option<PyObject>,
    ) -> (r: Result<PyObject, PyErr>)
        requires
            old(py).wf(),
        ensures
            final(py).wf(),
            final(py).grows_from(*old(py)),
            holds_byte(name.spec_bytes(), 0) ==> (r matches Err(e) && is_error_with_text(
                e,
                ExcKind::ValueError,
                nul_text(),
            )),
            !holds_byte(name.spec_bytes(), 0) && !holds_byte(name.spec_bytes(), 46) ==> (r matches Err(
                e,
            ) && is_error_with_text(e, ExcKind::SystemError, dotless_name_text())),
            !holds_byte(name.spec_bytes(), 0) && holds_byte(name.spec_bytes(), 46) && !base_ok(
                *old(py),
                base,
            ) ==> (r matches Err(e) && is_error_with_text(
                e,
                ExcKind::TypeError,
                bad_base_text(),
            )),
            !holds_byte(name.spec_bytes(), 0) && holds_byte(name.spec_bytes(), 46) && base_ok(
                *old(py),
                base,
            ) && !dict_ok(*old(py), dict) ==> (r matches Err(
                e,
            ) && is_error_with_text(e, ExcKind::TypeError, bad_dict_text())),
            r is Err ==> final(py).objs() == old(py).objs(),
            r matches Ok(c) ==> {
                &&& !holds_byte(name.spec_bytes(), 0)
                &&& holds_byte(name.spec_bytes(), 46)
                &&& dict_ok(*old(py), dict)
                &&& final(py).objs().len() == old(py).objs().len() + 1
                &&& c.id == old(py).objs().len()
                &&& final(py).objs()[c.id as int] is Class
                &&& final(py).objs()[c.id as int]->name@ == name@
                &&& final(py).objs()[c.id as int]->base == Some(
                    match base {
                        Some(b) => b,
                        None => ExcKind::Exception.spec_type_object(),
                    },
                )
                &&& is_exc_class(final(py).objs(), c.id as int)
            },
            !holds_byte(name.spec_bytes(), 0) && holds_byte(name.spec_bytes(), 46) && base_ok(
                *old(py),
                base,
            ) && dict_ok(*old(py), dict) ==> r is Ok,
    {
        proof {
            assert(py.objs().subrange(0, py.objs().len() as int) == py.objs());
            reveal_strlit("nul byte found in provided data");
            reveal_strlit("PyErr_NewException: name must be module.class");
            reveal_strlit("base must be an exception class");
            reveal_strlit("dict must be a dictionary");
        }
        let bytes = name.as_bytes();
        if find_byte(bytes, 0) {
            return Err(error_with_text(ExcKind::ValueError, "nul byte found in provided data"));
        }
        if !find_byte(bytes, 46) {
            return Err(
                error_with_text(
                    ExcKind::SystemError,
                    "PyErr_NewException: name must be module.class",
                ),
            );
        }
        let base = match base {
            Some(b) => {
                if !py.is_exception_class(b) {
                    return Err(error_with_text(ExcKind::TypeError, "base must be an exception class"));
                }
                b
            },
            None => {
                proof {
                    lemma_builtin_exc_class(*py, ExcKind::Exception);
                }
                ExcKind::Exception.type_object()
            },
        };
        if let Some(d) = dict {
            let is_dict = d.id < py.objects.len() && match &py.objects[d.id] {
                HostObject::Dict { .. } => true,
                _ => false,
            };
            if !is_dict {
                return Err(error_with_text(ExcKind::TypeError, "dict must be a dictionary"));
            }
        }
        Ok(py.new_class(name, base))
    }

    /// Issues a warning of class `category` with `message`. A message with
    /// an interior nul byte is a `ValueError`; a category that is not a
    /// `Warning` class is the interpreter's `TypeError`, taken out of the
    /// slot.
    pub fn warn(py: &mut Interpreter, category: PyObject, message: &str, stacklevel: i32) -> (r:
        Result<(), PyErr>)
        requires
            old(py).wf(),
        ensures
            final(py).wf(),
            extends(old(py).objs(), final(py).objs()),
            r is Ok ==> final(py).slot == old(py).slot,
            r is Err ==> final(py).slot == old(py).slot || final(py).slot == Triple::spec_empty(),
            holds_byte(message.spec_bytes(), 0) ==> (r matches Err(e) && is_error_with_text(
                e,
                ExcKind::ValueError,
                nul_text(),
            )) && final(py).warnings@ == old(py).warnings@,
            !holds_byte(message.spec_bytes(), 0) && subclass(
                old(py).objs(),
                category.id as int,
                ExcKind::Warning.spec_id() as int,
            ) ==> {
                &&& r is Ok
                &&& final(py).warnings@ == old(py).warnings@.push(final(py).warnings@.last())
                &&& final(py).warnings@.last().0 == category
                &&& final(py).warnings@.last().1@ == message@
            },
            !holds_byte(message.spec_bytes(), 0) && !subclass(
                old(py).objs(),
                category.id as int,
                ExcKind::Warning.spec_id() as int,
            ) ==> (r matches Err(e) && e.ptype == ExcKind::TypeError.spec_type_object()
                && text_of(final(py).objs(), value_opt(e.pvalue)) == Some(
                bad_category_text(),
            )) && final(py).warnings@ == old(py).warnings@,
    {
        proof {
            assert(py.objs().subrange(0, py.objs().len() as int) == py.objs());
            reveal_strlit("nul byte found in provided data");
        }
        if find_byte(message.as_bytes(), 0) {
            return Err(error_with_text(ExcKind::ValueError, "nul byte found in provided data"));
        }
        let code = py.warn(category, message, stacklevel as isize);
        let r = if code != -1 {
            Ok(())
        } else {
            match PyErr::fetch(py) {
                Fetched::Error(e) => Err(e),
                Fetched::Panic(_) => Err(PyErr::from_value(ExcKind::SystemError, PyErrValue::Empty)),
            }
        };
        r
    }
}

/// `Ok` unless the result code is -1; then what `PyErr::fetch` takes out of
/// the slot.
pub fn error_on_minusone(py: &mut Interpreter, result: libc::c_int) -> (r: Result<(), Fetched>)
    requires
        old(py).wf(),
    ensures
        result != -1 ==> r is Ok && *final(py) == *old(py),
        result == -1 ==> (r matches Err(f) && fetch_post(*old(py), *final(py), f)),
{
    if result != -1 {
        Ok(())
    } else {
        Err(PyErr::fetch(py))
    }
}

} // verus!
