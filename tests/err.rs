use pyerr::{
    error_on_minusone, ExcKind, Fetched, ForeignError, ForeignErrorKind, HostObject, Interpreter, IoErrorKind,
    PyDowncastError, PyErr, PyErrValue, PyObject, ToPyValue, Triple,
};

fn text(py: &Interpreter, o: PyObject) -> Option<String> {
    py.text_of(Some(o))
}

fn instance_message(py: &Interpreter, e: &PyErr) -> Option<String> {
    match &e.pvalue {
        PyErrValue::Value(x) => match &py.objects[x.id] {
            HostObject::Instance { args, .. } if args.len() == 1 => text(py, args[0]),
            _ => None,
        },
        _ => None,
    }
}

fn fetch_error(py: &mut Interpreter) -> PyErr {
    match PyErr::fetch(py) {
        Fetched::Error(e) => e,
        Fetched::Panic(m) => panic!("unexpected panic {}", m),
    }
}

fn foreign(kind: ForeignErrorKind, description: &str) -> ForeignError {
    ForeignError { kind, description: description.to_string() }
}

#[test]
fn set_typeerror() {
    let mut py = Interpreter::new();
    let err: PyErr = PyErr::from(PyDowncastError);
    err.restore(&mut py);
    assert!(PyErr::occurred(&py));
    drop(PyErr::fetch(&mut py));
}

#[test]
fn fetching_panic_exception_panics() {
    let mut py = Interpreter::new();
    let err = PyErr::new(ExcKind::PanicException, ToPyValue::Text("new panic".to_string()));
    err.restore(&mut py);
    assert!(PyErr::occurred(&py));
    match PyErr::fetch(&mut py) {
        Fetched::Panic(m) => assert_eq!(m, "new panic"),
        Fetched::Error(_) => panic!("expected a panic to resume"),
    }
    assert!(!PyErr::occurred(&py));
    assert_eq!(py.printed.len(), 1);
}

#[test]
fn panic_without_text_has_default_message() {
    let mut py = Interpreter::new();
    let err = PyErr::from_value(ExcKind::PanicException, PyErrValue::Empty);
    err.restore(&mut py);
    match PyErr::fetch(&mut py) {
        Fetched::Panic(m) => assert_eq!(m, "Unwrapped panic from Python code"),
        Fetched::Error(_) => panic!("expected a panic to resume"),
    }
}

#[test]
fn panic_with_instance_value_has_default_message() {
    let mut py = Interpreter::new();
    let mut err = PyErr::new(ExcKind::PanicException, ToPyValue::Text("boom".to_string()));
    err.normalize(&mut py);
    err.restore(&mut py);
    match PyErr::fetch(&mut py) {
        Fetched::Panic(m) => assert_eq!(m, "Unwrapped panic from Python code"),
        Fetched::Error(_) => panic!("expected a panic to resume"),
    }
}

#[test]
fn restore_then_fetch_round_trip() {
    let mut py = Interpreter::new();
    drop(PyErr::fetch(&mut py));
    let err = PyErr::new(ExcKind::ValueError, ToPyValue::Text("bad value".to_string()));
    err.restore(&mut py);
    let back = fetch_error(&mut py);
    assert_eq!(back.ptype, ExcKind::ValueError.type_object());
    assert!(back.ptraceback.is_none());
    match back.pvalue {
        PyErrValue::Value(v) => assert_eq!(text(&py, v).as_deref(), Some("bad value")),
        _ => panic!("expected a realized value"),
    }
    assert!(!PyErr::occurred(&py));
}

#[test]
fn restore_then_fetch_keeps_empty_value_and_traceback() {
    let mut py = Interpreter::new();
    let tb = py.add_object(HostObject::Traceback);
    let err = PyErr {
        ptype: ExcKind::OSError.type_object(),
        pvalue: PyErrValue::Empty,
        ptraceback: Some(tb),
    };
    err.restore(&mut py);
    let back = fetch_error(&mut py);
    assert_eq!(back.ptype, ExcKind::OSError.type_object());
    assert!(matches!(back.pvalue, PyErrValue::Empty));
    assert_eq!(back.ptraceback, Some(tb));
}

#[test]
fn fetch_with_nothing_pending_is_system_error() {
    let mut py = Interpreter::new();
    let e = fetch_error(&mut py);
    assert_eq!(e.ptype, ExcKind::SystemError.type_object());
    assert!(matches!(e.pvalue, PyErrValue::Empty));
    assert!(e.is_instance(&py, ExcKind::SystemError));
    assert!(e.is_instance(&py, ExcKind::Exception));
    assert!(!e.is_instance(&py, ExcKind::TypeError));
}

#[test]
fn normalize_builds_instance_and_is_idempotent() {
    let mut py = Interpreter::new();
    let mut e = PyErr::new(ExcKind::TypeError, ToPyValue::Text("oops".to_string()));
    e.normalize(&mut py);
    let n = py.objects.len();
    let first = match e.pvalue {
        PyErrValue::Value(v) => v,
        _ => panic!("expected an instance"),
    };
    assert!(py.is_exception_instance(first));
    assert_eq!(instance_message(&py, &e).as_deref(), Some("oops"));
    e.normalize(&mut py);
    assert_eq!(py.objects.len(), n);
    assert_eq!(e.ptype, ExcKind::TypeError.type_object());
    assert!(matches!(e.pvalue, PyErrValue::Value(v) if v == first));
}

#[test]
fn normalize_takes_the_more_specific_class() {
    let mut py = Interpreter::new();
    let mut inner = PyErr::from_value(ExcKind::FileNotFoundError, PyErrValue::Empty);
    inner.normalize(&mut py);
    let inst = match inner.pvalue {
        PyErrValue::Value(v) => v,
        _ => panic!("expected an instance"),
    };
    let mut outer = PyErr::from_value(ExcKind::OSError, PyErrValue::Value(inst));
    outer.normalize(&mut py);
    assert_eq!(outer.ptype, ExcKind::FileNotFoundError.type_object());
    assert!(matches!(outer.pvalue, PyErrValue::Value(v) if v == inst));
}

#[test]
fn normalize_spreads_a_tuple_into_arguments() {
    let mut py = Interpreter::new();
    let a = py.new_text("a");
    let b = py.new_text("b");
    let t = py.add_object(HostObject::Tuple(vec![a, b]));
    let mut e = PyErr::new(ExcKind::ValueError, ToPyValue::Object(t));
    e.normalize(&mut py);
    match e.pvalue {
        PyErrValue::Value(v) => match &py.objects[v.id] {
            HostObject::Instance { class, args } => {
                assert_eq!(*class, ExcKind::ValueError.type_object());
                assert_eq!(args, &vec![a, b]);
            }
            _ => panic!("expected an instance"),
        },
        _ => panic!("expected an instance"),
    }
}

#[test]
fn clone_ref_realizes_lazy_value_and_matches() {
    let mut py = Interpreter::new();
    let e = PyErr::new(ExcKind::ValueError, ToPyValue::Text("x".to_string()));
    let c = e.clone_ref(&mut py);
    assert_eq!(c.ptype, e.ptype);
    match c.pvalue {
        PyErrValue::Value(v) => assert_eq!(text(&py, v).as_deref(), Some("x")),
        _ => panic!("expected a realized value"),
    }
    assert!(c.matches(&py, e.ptype));
    assert!(c.matches(&py, ExcKind::Exception.type_object()));
    assert!(!c.matches(&py, ExcKind::TypeError.type_object()));
    let empty = PyErr::from_value(ExcKind::TypeError, PyErrValue::Empty);
    let c2 = empty.clone_ref(&mut py);
    assert!(matches!(c2.pvalue, PyErrValue::Empty));
}

#[test]
fn matches_searches_nested_tuples() {
    let mut py = Interpreter::new();
    let e = PyErr::from_value(ExcKind::BrokenPipeError, PyErrValue::Empty);
    let inner = py.add_object(HostObject::Tuple(vec![
        ExcKind::TypeError.type_object(),
        ExcKind::ConnectionError.type_object(),
    ]));
    let outer = py.add_object(HostObject::Tuple(vec![ExcKind::ValueError.type_object(), inner]));
    assert!(e.matches(&py, outer));
    let none = py.add_object(HostObject::Tuple(vec![ExcKind::ValueError.type_object()]));
    assert!(!e.matches(&py, none));
}

#[test]
fn from_instance_three_ways() {
    let mut py = Interpreter::new();
    let mut n = PyErr::new(ExcKind::ValueError, ToPyValue::Text("v".to_string()));
    n.normalize(&mut py);
    let inst = match n.pvalue {
        PyErrValue::Value(v) => v,
        _ => panic!("expected an instance"),
    };
    let a = PyErr::from_instance(&py, inst);
    assert_eq!(a.ptype, ExcKind::ValueError.type_object());
    assert!(matches!(a.pvalue, PyErrValue::Value(v) if v == inst));

    let b = PyErr::from_instance(&py, ExcKind::TimeoutError.type_object());
    assert_eq!(b.ptype, ExcKind::TimeoutError.type_object());
    assert!(matches!(b.pvalue, PyErrValue::Empty));

    let t = py.new_text("not an exception");
    let c = PyErr::from_instance(&py, t);
    assert_eq!(c.ptype, ExcKind::TypeError.type_object());
    match &c.pvalue {
        PyErrValue::ToObject(ToPyValue::Text(m)) => {
            assert_eq!(m, "exceptions must derive from BaseException")
        }
        _ => panic!("expected a lazy message"),
    }
}

#[test]
fn foreign_errors_follow_the_table() {
    let cases = [
        (ForeignErrorKind::Io(IoErrorKind::NotFound), ExcKind::FileNotFoundError),
        (ForeignErrorKind::Io(IoErrorKind::BrokenPipe), ExcKind::BrokenPipeError),
        (ForeignErrorKind::Io(IoErrorKind::ConnectionRefused), ExcKind::ConnectionRefusedError),
        (ForeignErrorKind::Io(IoErrorKind::ConnectionAborted), ExcKind::ConnectionAbortedError),
        (ForeignErrorKind::Io(IoErrorKind::ConnectionReset), ExcKind::ConnectionResetError),
        (ForeignErrorKind::Io(IoErrorKind::Interrupted), ExcKind::InterruptedError),
        (ForeignErrorKind::Io(IoErrorKind::WouldBlock), ExcKind::BlockingIOError),
        (ForeignErrorKind::Io(IoErrorKind::TimedOut), ExcKind::TimeoutError),
        (ForeignErrorKind::Io(IoErrorKind::Other), ExcKind::OSError),
        (ForeignErrorKind::IntoInner, ExcKind::OSError),
        (ForeignErrorKind::ParseInt, ExcKind::ValueError),
        (ForeignErrorKind::ParseFloat, ExcKind::ValueError),
        (ForeignErrorKind::ParseBool, ExcKind::ValueError),
        (ForeignErrorKind::TryFromInt, ExcKind::ValueError),
        (ForeignErrorKind::TryFromSlice, ExcKind::ValueError),
        (ForeignErrorKind::AddrParse, ExcKind::ValueError),
        (ForeignErrorKind::Nul, ExcKind::ValueError),
        (ForeignErrorKind::IntoString, ExcKind::UnicodeDecodeError),
        (ForeignErrorKind::Utf8, ExcKind::UnicodeDecodeError),
        (ForeignErrorKind::FromUtf8, ExcKind::UnicodeDecodeError),
        (ForeignErrorKind::FromUtf16, ExcKind::UnicodeDecodeError),
        (ForeignErrorKind::DecodeUtf16, ExcKind::UnicodeDecodeError),
        (ForeignErrorKind::Infallible, ExcKind::ValueError),
    ];
    for (kind, target) in cases {
        let mut py = Interpreter::new();
        let mut e = PyErr::from(foreign(kind, "some failure"));
        assert_eq!(e.ptype, target.type_object());
        e.normalize(&mut py);
        assert!(e.is_instance(&py, target));
        assert!(e.is_instance(&py, ExcKind::Exception));
    }
}

#[test]
fn not_found_end_to_end() {
    let mut py = Interpreter::new();
    let description = "No such file or directory (os error 2)";
    let mut e = PyErr::from(foreign(ForeignErrorKind::Io(IoErrorKind::NotFound), description));
    e.normalize(&mut py);
    assert!(e.is_instance(&py, ExcKind::FileNotFoundError));
    assert!(e.is_instance(&py, ExcKind::OSError));
    assert_eq!(instance_message(&py, &e).as_deref(), Some(description));
}

#[test]
fn unicode_decode_error_is_a_value_error() {
    let mut py = Interpreter::new();
    let mut e = PyErr::from(foreign(ForeignErrorKind::Utf8, "invalid utf-8 sequence"));
    e.normalize(&mut py);
    assert!(e.is_instance(&py, ExcKind::UnicodeDecodeError));
    assert!(e.is_instance(&py, ExcKind::ValueError));
    assert!(!e.is_instance(&py, ExcKind::OSError));
}

#[test]
fn infallible_has_fixed_message() {
    let mut py = Interpreter::new();
    let mut e = PyErr::from(foreign(ForeignErrorKind::Infallible, "ignored"));
    e.normalize(&mut py);
    assert!(e.is_instance(&py, ExcKind::ValueError));
    assert_eq!(instance_message(&py, &e).as_deref(), Some("Infalliable!"));
}

#[test]
fn foreign_error_survives_restore_and_fetch() {
    let mut py = Interpreter::new();
    let e = PyErr::from(foreign(ForeignErrorKind::ParseInt, "invalid digit found in string"));
    e.restore(&mut py);
    let back = fetch_error(&mut py);
    assert_eq!(back.ptype, ExcKind::ValueError.type_object());
    match back.pvalue {
        PyErrValue::Value(v) => {
            assert_eq!(text(&py, v).as_deref(), Some("invalid digit found in string"))
        }
        _ => panic!("expected a realized value"),
    }
}

#[test]
fn print_records_and_clears() {
    let mut py = Interpreter::new();
    let e = PyErr::new(ExcKind::TypeError, ToPyValue::Text("t".to_string()));
    e.print(&mut py);
    assert!(!PyErr::occurred(&py));
    assert_eq!(py.printed.len(), 1);
    assert_eq!(py.printed[0].ptype, Some(ExcKind::TypeError.type_object()));
    assert!(py.last_vars.is_none());
    let e2 = PyErr::from_value(ExcKind::ValueError, PyErrValue::Empty);
    e2.print_and_set_sys_last_vars(&mut py);
    assert_eq!(py.printed.len(), 2);
    assert_eq!(
        py.last_vars,
        Some(Triple { ptype: Some(ExcKind::ValueError.type_object()), pvalue: None, ptraceback: None })
    );
}

#[test]
fn restore_helpers_return_failure_markers() {
    let mut py = Interpreter::new();
    let e = PyErr::from_value(ExcKind::ValueError, PyErrValue::Empty);
    assert_eq!(e.restore_and_minus1(&mut py), -1);
    assert!(PyErr::occurred(&py));
    let e2 = PyErr::from_value(ExcKind::TypeError, PyErrValue::Empty);
    assert!(e2.restore_and_null(&mut py).is_none());
    assert_eq!(fetch_error(&mut py).ptype, ExcKind::TypeError.type_object());
}

#[test]
fn instance_of_empty_value_has_no_arguments() {
    let mut py = Interpreter::new();
    let e = PyErr::from_value(ExcKind::AttributeError, PyErrValue::Empty);
    let inst = e.instance(&mut py);
    match &py.objects[inst.id] {
        HostObject::Instance { class, args } => {
            assert_eq!(*class, ExcKind::AttributeError.type_object());
            assert!(args.is_empty());
        }
        _ => panic!("expected an instance"),
    }
}

#[test]
fn from_type_uses_the_given_class() {
    let py = Interpreter::new();
    let e = PyErr::from_type(&py, ExcKind::TimeoutError.type_object(), ToPyValue::Text("late".to_string()));
    assert_eq!(e.ptype, ExcKind::TimeoutError.type_object());
    assert!(e.is_instance(&py, ExcKind::OSError));
}

#[test]
fn new_type_creates_a_subclass() {
    let mut py = Interpreter::new();
    let c = PyErr::new_type(&mut py, "mymod.MyError", Some(ExcKind::ValueError.type_object()), None)
        .ok()
        .unwrap();
    assert!(py.is_exception_class(c));
    assert!(py.is_subclass(c, ExcKind::ValueError.type_object()));
    let mut e = PyErr::from_type(&py, c, ToPyValue::Text("mine".to_string()));
    e.normalize(&mut py);
    assert!(e.is_instance(&py, ExcKind::ValueError));
    assert!(e.matches(&py, c));

    let d = PyErr::new_type(&mut py, "mymod.Plain", None, None).ok().unwrap();
    assert!(py.is_subclass(d, ExcKind::Exception.type_object()));
}

#[test]
fn new_type_rejects_bad_input() {
    let mut py = Interpreter::new();
    let n = py.objects.len();
    let e = PyErr::new_type(&mut py, "NoModule", None, None).err().unwrap();
    assert_eq!(e.ptype, ExcKind::SystemError.type_object());
    let e = PyErr::new_type(&mut py, "a.b\0c", None, None).err().unwrap();
    assert_eq!(e.ptype, ExcKind::ValueError.type_object());
    let t = py.new_text("not a class");
    let e = PyErr::new_type(&mut py, "m.E", Some(t), None).err().unwrap();
    assert_eq!(e.ptype, ExcKind::TypeError.type_object());
    let e = PyErr::new_type(&mut py, "m.E", None, Some(t)).err().unwrap();
    assert_eq!(e.ptype, ExcKind::TypeError.type_object());
    assert_eq!(py.objects.len(), n + 1);
}

#[test]
fn warn_records_or_fails() {
    let mut py = Interpreter::new();
    assert!(PyErr::warn(&mut py, ExcKind::UserWarning.type_object(), "careful", 1).is_ok());
    assert_eq!(py.warnings.len(), 1);
    assert_eq!(py.warnings[0].0, ExcKind::UserWarning.type_object());
    assert_eq!(py.warnings[0].1, "careful");

    let e = PyErr::warn(&mut py, ExcKind::ValueError.type_object(), "careful", 1).err().unwrap();
    assert_eq!(e.ptype, ExcKind::TypeError.type_object());
    match e.pvalue {
        PyErrValue::Value(v) => {
            assert_eq!(text(&py, v).as_deref(), Some("category must be a Warning subclass"))
        }
        _ => panic!("expected a realized value"),
    }
    assert!(!PyErr::occurred(&py));

    let e = PyErr::warn(&mut py, ExcKind::UserWarning.type_object(), "a\0b", 1).err().unwrap();
    assert_eq!(e.ptype, ExcKind::ValueError.type_object());
    assert_eq!(py.warnings.len(), 1);
}

#[test]
fn error_on_minusone_fetches_only_on_failure() {
    let mut py = Interpreter::new();
    assert!(error_on_minusone(&mut py, 0).is_ok());
    let e = PyErr::from_value(ExcKind::ValueError, PyErrValue::Empty);
    e.restore(&mut py);
    assert!(error_on_minusone(&mut py, 5).is_ok());
    assert!(PyErr::occurred(&py));
    match error_on_minusone(&mut py, -1) {
        Err(Fetched::Error(e)) => assert_eq!(e.ptype, ExcKind::ValueError.type_object()),
        _ => panic!("expected the pending error"),
    }
    assert!(!PyErr::occurred(&py));
}

#[test]
fn to_object_leaves_the_error_lazy() {
    let mut py = Interpreter::new();
    let e = PyErr::new(ExcKind::ConnectionResetError, ToPyValue::Text("reset".to_string()));
    let o = e.to_object(&mut py);
    assert!(py.is_exception_instance(o));
    assert!(matches!(e.pvalue, PyErrValue::ToObject(_)));
    match &py.objects[o.id] {
        HostObject::Instance { class, args } => {
            assert_eq!(*class, ExcKind::ConnectionResetError.type_object());
            assert_eq!(args.len(), 1);
            assert_eq!(text(&py, args[0]).as_deref(), Some("reset"));
        }
        _ => panic!("expected an instance"),
    }
}
