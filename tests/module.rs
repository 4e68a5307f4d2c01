use pyerr::{ExcKind, HostObject, Interpreter, PyErrValue, PyModule, PyObject, ToPyValue};

fn texts(py: &Interpreter, list: PyObject) -> Vec<String> {
    py.list_items(list)
        .unwrap()
        .iter()
        .map(|o| py.text_of(Some(*o)).unwrap())
        .collect()
}

#[test]
fn new_module_has_its_name() {
    let mut py = Interpreter::new();
    let m = PyModule::new(&mut py, "spam");
    assert_eq!(m.name(&py).ok().as_deref(), Some("spam"));
    let e = m.filename(&py).err().unwrap();
    assert_eq!(e.ptype, ExcKind::SystemError.type_object());
}

#[test]
fn index_is_created_once() {
    let mut py = Interpreter::new();
    let m = PyModule::new(&mut py, "spam");
    let l = m.index(&mut py).ok().unwrap();
    assert!(texts(&py, l).is_empty());
    let again = m.index(&mut py).ok().unwrap();
    assert_eq!(l, again);
}

#[test]
fn index_that_is_not_a_list_is_type_error() {
    let mut py = Interpreter::new();
    let m = PyModule::new(&mut py, "spam");
    let t = py.new_text("oops");
    assert!(py.setattr(m.obj, "__all__", t));
    let e = m.index(&mut py).err().unwrap();
    assert_eq!(e.ptype, ExcKind::TypeError.type_object());
    assert!(m.add(&mut py, "x", t).is_err());
}

#[test]
fn add_binds_and_lists() {
    let mut py = Interpreter::new();
    let m = PyModule::new(&mut py, "spam");
    let v = py.new_text("value");
    assert!(m.add(&mut py, "x", v).is_ok());
    assert_eq!(m.get(&py, "x").ok(), Some(v));
    let l = m.index(&mut py).ok().unwrap();
    assert_eq!(texts(&py, l), vec!["x".to_string()]);
}

#[test]
fn get_missing_is_attribute_error() {
    let mut py = Interpreter::new();
    let m = PyModule::new(&mut py, "spam");
    let e = m.get(&py, "nothing").err().unwrap();
    assert_eq!(e.ptype, ExcKind::AttributeError.type_object());
    assert!(matches!(&e.pvalue, PyErrValue::ToObject(ToPyValue::Text(n)) if n == "nothing"));
}

#[test]
fn add_class_uses_the_class_name() {
    let mut py = Interpreter::new();
    let m = PyModule::new(&mut py, "spam");
    assert!(m.add_class(&mut py, ExcKind::ValueError.type_object()).is_ok());
    assert_eq!(m.get(&py, "ValueError").ok(), Some(ExcKind::ValueError.type_object()));
}

#[test]
fn add_wrapped_uses_dunder_name() {
    let mut py = Interpreter::new();
    let m = PyModule::new(&mut py, "spam");
    let name = py.new_text("double");
    let result = py.new_text("four");
    let f = py.add_object(HostObject::Function { name_obj: name, result });
    assert!(m.add_wrapped(&mut py, f).is_ok());
    assert_eq!(m.get(&py, "double").ok(), Some(f));
    assert_eq!(m.call0(&mut py, "double").ok(), Some(result));
    let l = m.index(&mut py).ok().unwrap();
    assert_eq!(texts(&py, l), vec!["double".to_string()]);

    let t = py.new_text("no name");
    let e = m.add_wrapped(&mut py, t).err().unwrap();
    assert_eq!(e.ptype, ExcKind::AttributeError.type_object());
}

#[test]
fn call_builds_instances_and_rejects_non_callables() {
    let mut py = Interpreter::new();
    let m = PyModule::new(&mut py, "spam");
    assert!(m.add_class(&mut py, ExcKind::TypeError.type_object()).is_ok());
    let arg = py.new_text("bad");
    let inst = m.call1(&mut py, "TypeError", vec![arg]).ok().unwrap();
    match &py.objects[inst.id] {
        HostObject::Instance { class, args } => {
            assert_eq!(*class, ExcKind::TypeError.type_object());
            assert_eq!(args, &vec![arg]);
        }
        _ => panic!("expected an instance"),
    }

    let kwargs = py.new_dict();
    assert!(m.call(&mut py, "TypeError", vec![], Some(kwargs)).is_ok());
    let key = py.new_text("k");
    let kw_module = PyModule::new(&mut py, "kw");
    let filled = kw_module.dict(&py);
    assert!(py.setattr(kw_module.obj, "k", key));
    let e = m.call(&mut py, "TypeError", vec![], Some(filled)).err().unwrap();
    assert_eq!(e.ptype, ExcKind::TypeError.type_object());

    let e = m.call0(&mut py, "__name__").err().unwrap();
    assert_eq!(e.ptype, ExcKind::TypeError.type_object());
    assert!(matches!(&e.pvalue, PyErrValue::ToObject(ToPyValue::Text(t)) if t == "object is not callable"));

    let e = m.call0(&mut py, "missing").err().unwrap();
    assert_eq!(e.ptype, ExcKind::AttributeError.type_object());
}

#[test]
fn import_finds_registered_modules() {
    let mut py = Interpreter::new();
    let m = PyModule::new(&mut py, "spam");
    py.register_module("spam", m.obj);
    let found = PyModule::import(&py, "spam").ok().unwrap();
    assert_eq!(found, m);
    assert_eq!(found.name(&py).ok().as_deref(), Some("spam"));

    let mut e = PyModule::import(&py, "eggs").err().unwrap();
    assert_eq!(e.ptype, ExcKind::ModuleNotFoundError.type_object());
    e.normalize(&mut py);
    assert!(e.is_instance(&py, ExcKind::ImportError));
}
