//! A module object and the helpers that read and fill its namespace.

use vstd::prelude::*;
use crate::err::{is_error_with_text, PyDowncastError, PyErr, PyErrValue, ToPyValue};
use crate::host::{
    attr_of, callable_result, extends, lemma_attr_kept, lemma_extends_index, lemma_extends_trans,
    list_slot, lookup, module_dict, text_of, ExcKind, HostObject, Interpreter, PyObject,
};

verus! {

/// A handle to a module object.
#[derive(Clone, Copy, PartialEq, Eq, Structural, Debug)]
pub struct PyModule {
    pub obj: PyObject,
}

/// The message of the error for calling what cannot be called.
pub open spec fn not_callable_text() -> Seq<char> {
    "object is not callable"@
}

/// What calling `f` gives as a result: the object the call returned, or a
/// `TypeError` when the call failed.
pub open spec fn call_outcome(
    before: Interpreter,
    f: PyObject,
    args: Seq<PyObject>,
    kwargs: Option<PyObject>,
    after: Interpreter,
    r: Result<PyObject, PyErr>,
) -> bool {
    match r {
        Ok(x) => callable_result(before, f, args, kwargs, after.objs(), Some(x)),
        Err(e) => callable_result(before, f, args, kwargs, after.objs(), None)
            && is_error_with_text(e, ExcKind::TypeError, not_callable_text()),
    }
}

/// `after` keeps every object of `before` and its error slot.
pub open spec fn keeps(before: Interpreter, after: Interpreter) -> bool {
    &&& after.wf()
    &&& extends(before.objs(), after.objs())
    &&& after.slot == before.slot
}

fn attribute_error_for(name: &str) -> (r: PyErr)
    ensures
        is_error_with_text(r, ExcKind::AttributeError, name@),
{
    PyErr::new(ExcKind::AttributeError, ToPyValue::Text(name.to_owned()))
}

impl PyModule {
    /// Is this handle a module of `py`?
    pub open spec fn is_module(&self, py: Interpreter) -> bool {
        module_dict(py, self.obj.id as int) is Some
    }

    /// A new module whose `__name__` is `name`.
    pub fn new(py: &mut Interpreter, name: &str) -> (r: PyModule)
        requires
            old(py).wf(),
        ensures
            keeps(*old(py), *final(py)),
            r.is_module(*final(py)),
            text_of(final(py).objs(), attr_of(*final(py), r.obj.id as int, "__name__"@)) == Some(
                name@,
            ),
    {
        PyModule { obj: py.new_module(name) }
    }

    /// The dictionary that holds the module's namespace.
    pub fn dict(&self, py: &Interpreter) -> (r: PyObject)
        requires
            py.wf(),
            self.is_module(*py),
        ensures
            py.objs()[r.id as int] is Dict,
            py.objs()[r.id as int]->dict == module_dict(*py, self.obj.id as int).unwrap(),
    {
        match &py.objects[self.obj.id] {
            HostObject::Module { namespace } => *namespace,
            _ => self.obj,
        }
    }

    /// A member of the module.
    pub fn get(&self, py: &Interpreter, name: &str) -> (r: Result<PyObject, PyErr>)
        requires
            py.wf(),
        ensures
            attr_of(*py, self.obj.id as int, name@) matches Some(a) ==> r == Ok::<PyObject, PyErr>(a),
            attr_of(*py, self.obj.id as int, name@) is None ==> (r matches Err(e)
                && is_error_with_text(e, ExcKind::AttributeError, name@)),
    {
        match py.getattr(self.obj, name) {
            Some(a) => Ok(a),
            None => Err(attribute_error_for(name)),
        }
    }

    /// The module's `__all__` list, created empty when the module has none.
    /// A `__all__` that is not a list is a `TypeError`.
    pub fn index(&self, py: &mut Interpreter) -> (r: Result<PyObject, PyErr>)
        requires
            old(py).wf(),
            self.is_module(*old(py)),
        ensures
            keeps(*old(py), *final(py)),
            self.is_module(*final(py)),
            match attr_of(*old(py), self.obj.id as int, "__all__"@) {
                Some(a) => if list_slot(*old(py), a.id as int) is Some {
                    r == Ok::<PyObject, PyErr>(a) && *final(py) == *old(py)
                } else {
                    r matches Err(e) && e.ptype == ExcKind::TypeError.spec_type_object()
                        && e.pvalue is Empty
                },
                None => r matches Ok(l) && {
                    &&& list_slot(*final(py), l.id as int) matches Some(s)
                    &&& final(py).lists@[s]@.len() == 0
                    &&& attr_of(*final(py), self.obj.id as int, "__all__"@) == Some(l)
                },
            },
    {
        proof {
            reveal_strlit("__all__");
            assert(py.objs().subrange(0, py.objs().len() as int) == py.objs());
        }
        match py.getattr(self.obj, "__all__") {
            Some(idx) => {
                if py.list_items(idx).is_some() {
                    Ok(idx)
                } else {
                    Err(PyErr::from(PyDowncastError))
                }
            },
            None => {
                let ghost before = *py;
                let l = py.new_list();
                let ghost mid = *py;
                proof {
                    assert(self.is_module(mid)) by {
                        let ns = mid.objs()[self.obj.id as int]->namespace.id as int;
                        assert(mid.objs()[self.obj.id as int] == before.objs()[self.obj.id as int]);
                        assert(mid.objs()[ns] == before.objs()[ns]);
                    }
                }
                py.setattr(self.obj, "__all__", l);
                Ok(l)
            },
        }
    }

    /// Calls the module's member `name` with positional arguments and, when
    /// given, a dictionary of keyword arguments.
    pub fn call(
        &self,
        py: &mut Interpreter,
        name: &str,
        args: Vec<PyObject>,
        kwargs: Option<PyObject>,
    ) -> (r: Result<PyObject, PyErr>)
        requires
            old(py).wf(),
        ensures
            keeps(*old(py), *final(py)),
            attr_of(*old(py), self.obj.id as int, name@) is None ==> (r matches Err(e)
                && is_error_with_text(e, ExcKind::AttributeError, name@)),
            attr_of(*old(py), self.obj.id as int, name@) matches Some(f) ==> call_outcome(
                *old(py),
                f,
                args@,
                kwargs,
                *final(py),
                r,
            ),
    {
        let f = match py.getattr(self.obj, name) {
            Some(f) => f,
            None => {
                proof {
                    assert(py.objs().subrange(0, py.objs().len() as int) == py.objs());
                }
                return Err(attribute_error_for(name));
            },
        };
        match py.call_object(f, args, kwargs) {
            Some(x) => Ok(x),
            None => {
                proof {
                    reveal_strlit("object is not callable");
                }
                Err(PyErr::new(ExcKind::TypeError, ToPyValue::Text("object is not callable".to_owned())))
            },
        }
    }
}

/// Is `name` among the texts of the module's `__all__` list?
pub open spec fn listed_in_index(py: Interpreter, m: PyModule, name: Seq<char>) -> bool {
    &&& attr_of(py, m.obj.id as int, "__all__"@) matches Some(l)
    &&& list_slot(py, l.id as int) matches Some(s)
    &&& exists|j: int|
        0 <= j < py.lists@[s]@.len() && text_of(py.objs(), Some(#[trigger] py.lists@[s]@[j])) == Some(
            name,
        )
}

/// The module has no `__all__`, or one that is a list.
pub open spec fn index_ok(py: Interpreter, m: PyModule) -> bool {
    match attr_of(py, m.obj.id as int, "__all__"@) {
        Some(a) => list_slot(py, a.id as int) is Some,
        None => true,
    }
}

impl PyModule {
    /// Calls the module's member `name` with positional arguments only.
    pub fn call1(&self, py: &mut Interpreter, name: &str, args: Vec<PyObject>) -> (r: Result<
        PyObject,
        PyErr,
    >)
        requires
            old(py).wf(),
        ensures
            keeps(*old(py), *final(py)),
            attr_of(*old(py), self.obj.id as int, name@) is None ==> (r matches Err(e)
                && is_error_with_text(e, ExcKind::AttributeError, name@)),
            attr_of(*old(py), self.obj.id as int, name@) matches Some(f) ==> call_outcome(
                *old(py),
                f,
                args@,
                None,
                *final(py),
                r,
            ),
    {
        self.call(py, name, args, None)
    }

    /// Calls the module's member `name` without arguments.
    pub fn call0(&self, py: &mut Interpreter, name: &str) -> (r: Result<PyObject, PyErr>)
        requires
            old(py).wf(),
        ensures
            keeps(*old(py), *final(py)),
            attr_of(*old(py), self.obj.id as int, name@) is None ==> (r matches Err(e)
                && is_error_with_text(e, ExcKind::AttributeError, name@)),
            attr_of(*old(py), self.obj.id as int, name@) matches Some(f) ==> call_outcome(
                *old(py),
                f,
                Seq::empty(),
                None,
                *final(py),
                r,
            ),
    {
        let args: Vec<PyObject> = Vec::new();
        proof {
            assert(args@ =~= Seq::<PyObject>::empty());
        }
        self.call(py, name, args, None)
    }

    /// Adds a member: lists `name` in `__all__` and binds `name` to `value`.
    /// A `__all__` that is not a list is a `TypeError`.
    pub fn add(&self, py: &mut Interpreter, name: &str, value: PyObject) -> (r: Result<(), PyErr>)
        requires
            old(py).wf(),
            self.is_module(*old(py)),
        ensures
            keeps(*old(py), *final(py)),
            self.is_module(*final(py)),
            r is Ok == index_ok(*old(py), *self),
            r is Ok ==> attr_of(*final(py), self.obj.id as int, name@) == Some(value),
            r is Ok && name@ != "__all__"@ ==> listed_in_index(*final(py), *self, name@),
            r matches Err(e) ==> e.ptype == ExcKind::TypeError.spec_type_object() && e.pvalue is Empty,
    {
        let ghost before = *py;
        let idx = match self.index(py) {
            Ok(idx) => idx,
            Err(e) => {
                return Err(e);
            },
        };
        let ghost s1 = *py;
        let text = py.new_text(name);
        let ghost s2 = *py;
        proof {
            reveal_strlit("__all__");
            lemma_attr_kept(s1, s2, self.obj.id as int, "__all__"@);
            lemma_extends_index(s1.objs(), s2.objs(), idx.id as int);
            assert(list_slot(s2, idx.id as int) == list_slot(s1, idx.id as int));
        }
        py.list_append(idx, text);
        let ghost s3 = *py;
        proof {
            assert(attr_of(s3, self.obj.id as int, "__all__"@) == Some(idx));
            assert(self.is_module(s3));
        }
        py.setattr(self.obj, name, value);
        proof {
            let sl = list_slot(s3, idx.id as int).unwrap();
            assert(py.lists@[sl]@.last() == text);
            assert(text_of(py.objs(), Some(py.lists@[sl]@[py.lists@[sl]@.len() - 1])) == Some(name@));
            assert(extends(before.objs(), py.objs())) by {
                lemma_extends_trans(before.objs(), s1.objs(), s2.objs());
            }
        }
        Ok(())
    }
}

/// The name of class `c`.
pub open spec fn class_name(py: Interpreter, c: PyObject) -> Seq<char> {
    py.objs()[c.id as int]->name@
}

impl PyModule {
    /// Adds class `class` under its own name.
    pub fn add_class(&self, py: &mut Interpreter, class: PyObject) -> (r: Result<(), PyErr>)
        requires
            old(py).wf(),
            self.is_module(*old(py)),
            class.id < old(py).objs().len(),
            old(py).objs()[class.id as int] is Class,
        ensures
            keeps(*old(py), *final(py)),
            self.is_module(*final(py)),
            r is Ok == index_ok(*old(py), *self),
            r is Ok ==> attr_of(*final(py), self.obj.id as int, class_name(*old(py), class))
                == Some(class),
            r is Ok && class_name(*old(py), class) != "__all__"@ ==> listed_in_index(
                *final(py),
                *self,
                class_name(*old(py), class),
            ),
            r matches Err(e) ==> e.ptype == ExcKind::TypeError.spec_type_object() && e.pvalue is Empty,
    {
        let name = match &py.objects[class.id] {
            HostObject::Class { name, .. } => name.clone(),
            _ => String::new(),
        };
        self.add(py, name.as_str(), class)
    }

    /// Adds a function or a module under its own `__name__`. An object with
    /// no `__name__` is an `AttributeError`, one whose `__name__` is not text
    /// a `TypeError`.
    pub fn add_wrapped(&self, py: &mut Interpreter, function: PyObject) -> (r: Result<(), PyErr>)
        requires
            old(py).wf(),
            self.is_module(*old(py)),
        ensures
            keeps(*old(py), *final(py)),
            self.is_module(*final(py)),
            attr_of(*old(py), function.id as int, "__name__"@) is None ==> (r matches Err(e)
                && is_error_with_text(e, ExcKind::AttributeError, "__name__"@)),
            attr_of(*old(py), function.id as int, "__name__"@) matches Some(n) ==> match text_of(
                old(py).objs(),
                Some(n),
            ) {
                None => r matches Err(e) && is_error_with_text(
                    e,
                    ExcKind::TypeError,
                    "__name__ must be text"@,
                ),
                Some(t) => {
                    &&& r is Ok == index_ok(*old(py), *self)
                    &&& r is Ok ==> attr_of(*final(py), self.obj.id as int, t) == Some(function)
                    &&& r is Ok && t != "__all__"@ ==> listed_in_index(*final(py), *self, t)
                },
            },
    {
        proof {
            reveal_strlit("__name__");
            reveal_strlit("__name__ must be text");
            assert(py.objs().subrange(0, py.objs().len() as int) == py.objs());
        }
        let name_obj = match py.getattr(function, "__name__") {
            Some(n) => n,
            None => {
                return Err(attribute_error_for("__name__"));
            },
        };
        let name = match py.text_of(Some(name_obj)) {
            Some(t) => t,
            None => {
                return Err(
                    PyErr::new(ExcKind::TypeError, ToPyValue::Text("__name__ must be text".to_owned())),
                );
            },
        };
        self.add(py, name.as_str(), function)
    }

    /// The text of the module's attribute `attr`, or a `SystemError` with
    /// message `missing`.
    fn text_attr(&self, py: &Interpreter, attr: &str, missing: &str) -> (r: Result<String, PyErr>)
        requires
            py.wf(),
        ensures
            text_of(py.objs(), attr_of(*py, self.obj.id as int, attr@)) matches Some(t) ==> (r matches Ok(
                s,
            ) && s@ == t),
            text_of(py.objs(), attr_of(*py, self.obj.id as int, attr@)) is None ==> (r matches Err(e)
                && is_error_with_text(e, ExcKind::SystemError, missing@)),
    {
        match py.text_of(py.getattr(self.obj, attr)) {
            Some(t) => Ok(t),
            None => Err(PyErr::new(ExcKind::SystemError, ToPyValue::Text(missing.to_owned()))),
        }
    }

    /// The module's name; a `SystemError` when it has no text `__name__`.
    pub fn name(&self, py: &Interpreter) -> (r: Result<String, PyErr>)
        requires
            py.wf(),
        ensures
            text_of(py.objs(), attr_of(*py, self.obj.id as int, "__name__"@)) matches Some(t) ==> (r matches Ok(
                s,
            ) && s@ == t),
            text_of(py.objs(), attr_of(*py, self.obj.id as int, "__name__"@)) is None ==> (r matches Err(e)
                && is_error_with_text(e, ExcKind::SystemError, "nameless module"@)),
    {
        proof {
            reveal_strlit("__name__");
            reveal_strlit("nameless module");
        }
        self.text_attr(py, "__name__", "nameless module")
    }

    /// The module's file name; a `SystemError` when it has no text `__file__`.
    pub fn filename(&self, py: &Interpreter) -> (r: Result<String, PyErr>)
        requires
            py.wf(),
        ensures
            text_of(py.objs(), attr_of(*py, self.obj.id as int, "__file__"@)) matches Some(t) ==> (r matches Ok(
                s,
            ) && s@ == t),
            text_of(py.objs(), attr_of(*py, self.obj.id as int, "__file__"@)) is None ==> (r matches Err(e)
                && is_error_with_text(e, ExcKind::SystemError, "module filename missing"@)),
    {
        proof {
            reveal_strlit("__file__");
            reveal_strlit("module filename missing");
        }
        self.text_attr(py, "__file__", "module filename missing")
    }
}

impl PyModule {
    /// The module loaded under `name`; a `ModuleNotFoundError` naming it
    /// when there is none.
    pub fn import(py: &Interpreter, name: &str) -> (r: Result<PyModule, PyErr>)
        requires
            py.wf(),
        ensures
            lookup(py.modules@, name@) matches Some(m) ==> r == Ok::<PyModule, PyErr>(
                PyModule { obj: m },
            ),
            lookup(py.modules@, name@) is None ==> (r matches Err(e) && is_error_with_text(
                e,
                ExcKind::ModuleNotFoundError,
                name@,
            )),
    {
        match py.find_module(name) {
            Some(m) => Ok(PyModule { obj: m }),
            None => Err(PyErr::new(ExcKind::ModuleNotFoundError, ToPyValue::Text(name.to_owned()))),
        }
    }
}

} // verus!
