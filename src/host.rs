//! The interpreter that owns the global error slot.
//!
//! Objects live in an append-only table and are named by their position in it
//! (`PyObject`). Lists and dictionaries are the only mutable objects: their
//! contents sit in side tables, so an object entry never changes once written.
//! The first entries are the built-in exception classes, in the order of
//! `ExcKind`, followed by the `None` object.

use vstd::prelude::*;

verus! {

/// A handle to an object of the interpreter: its position in the object table.
#[derive(Clone, Copy, PartialEq, Eq, Structural, Debug)]
pub struct PyObject {
    pub id: usize,
}

/// The built-in exception classes, in the order in which the interpreter creates them.
#[derive(Clone, Copy, PartialEq, Eq, Structural, Debug)]
pub enum ExcKind {
    BaseException,
    Exception,
    SystemError,
    TypeError,
    ValueError,
    AttributeError,
    UnicodeError,
    UnicodeDecodeError,
    OSError,
    FileNotFoundError,
    BlockingIOError,
    InterruptedError,
    TimeoutError,
    ConnectionError,
    BrokenPipeError,
    ConnectionAbortedError,
    ConnectionRefusedError,
    ConnectionResetError,
    Warning,
    UserWarning,
    PanicException,
    ImportError,
    ModuleNotFoundError,
}

/// Position of the `None` object; every built-in class comes before it.
pub const NONE_ID: usize = 23;

/// Number of objects that a fresh interpreter holds.
pub const NUM_BUILTINS: usize = 24;

impl ExcKind {
    pub open spec fn spec_id(self) -> usize {
        match self {
            ExcKind::BaseException => 0,
            ExcKind::Exception => 1,
            ExcKind::SystemError => 2,
            ExcKind::TypeError => 3,
            ExcKind::ValueError => 4,
            ExcKind::AttributeError => 5,
            ExcKind::UnicodeError => 6,
            ExcKind::UnicodeDecodeError => 7,
            ExcKind::OSError => 8,
            ExcKind::FileNotFoundError => 9,
            ExcKind::BlockingIOError => 10,
            ExcKind::InterruptedError => 11,
            ExcKind::TimeoutError => 12,
            ExcKind::ConnectionError => 13,
            ExcKind::BrokenPipeError => 14,
            ExcKind::ConnectionAbortedError => 15,
            ExcKind::ConnectionRefusedError => 16,
            ExcKind::ConnectionResetError => 17,
            ExcKind::Warning => 18,
            ExcKind::UserWarning => 19,
            ExcKind::PanicException => 20,
            ExcKind::ImportError => 21,
            ExcKind::ModuleNotFoundError => 22,
        }
    }

    /// The handle of this class in every well-formed interpreter.
    pub open spec fn spec_type_object(self) -> PyObject {
        PyObject { id: self.spec_id() }
    }

    #[verifier::when_used_as_spec(spec_type_object)]
    pub fn type_object(self) -> (r: PyObject)
        ensures
            r == self.spec_type_object(),
    {
        let id: usize = match self {
            ExcKind::BaseException => 0,
            ExcKind::Exception => 1,
            ExcKind::SystemError => 2,
            ExcKind::TypeError => 3,
            ExcKind::ValueError => 4,
            ExcKind::AttributeError => 5,
            ExcKind::UnicodeError => 6,
            ExcKind::UnicodeDecodeError => 7,
            ExcKind::OSError => 8,
            ExcKind::FileNotFoundError => 9,
            ExcKind::BlockingIOError => 10,
            ExcKind::InterruptedError => 11,
            ExcKind::TimeoutError => 12,
            ExcKind::ConnectionError => 13,
            ExcKind::BrokenPipeError => 14,
            ExcKind::ConnectionAbortedError => 15,
            ExcKind::ConnectionRefusedError => 16,
            ExcKind::ConnectionResetError => 17,
            ExcKind::Warning => 18,
            ExcKind::UserWarning => 19,
            ExcKind::PanicException => 20,
            ExcKind::ImportError => 21,
            ExcKind::ModuleNotFoundError => 22,
        };
        PyObject { id }
    }
}

/// The base class of the built-in class at position `i`.
pub open spec fn builtin_base(i: int) -> Option<PyObject> {
    if i == 0 {
        None
    } else if i == 1 || i == 20 {
        Some(PyObject { id: 0 })
    } else if i == 2 || i == 3 || i == 4 || i == 5 || i == 8 || i == 18 || i == 21 {
        Some(PyObject { id: 1 })
    } else if i == 6 {
        Some(PyObject { id: 4 })
    } else if i == 7 {
        Some(PyObject { id: 6 })
    } else if 9 <= i <= 13 {
        Some(PyObject { id: 8 })
    } else if 14 <= i <= 17 {
        Some(PyObject { id: 13 })
    } else if i == 22 {
        Some(PyObject { id: 21 })
    } else {
        Some(PyObject { id: 18 })
    }
}

/// One entry of a dictionary.
pub struct DictEntry {
    pub key: String,
    pub value: PyObject,
}

/// An object of the interpreter.
pub enum HostObject {
    NoneValue,
    Text(String),
    Tuple(Vec<PyObject>),
    /// A list; its items are `Interpreter::lists[list]`.
    List { list: usize },
    /// A dictionary; its entries are `Interpreter::dicts[dict]`.
    Dict { dict: usize },
    /// A class, with its qualified name and its base class.
    Class { name: String, base: Option<PyObject> },
    /// An exception instance, with its class and its constructor arguments.
    Instance { class: PyObject, args: Vec<PyObject> },
    /// A module, whose namespace is a dictionary object.
    Module { namespace: PyObject },
    /// A native function: its `__name__` (a text object) and the object a call returns.
    Function { name_obj: PyObject, result: PyObject },
    Traceback,
}

/// The content of the global error slot: type, value and traceback, each
/// possibly absent. No type means that no error is pending.
#[derive(Clone, Copy, PartialEq, Eq, Structural, Debug)]
pub struct Triple {
    pub ptype: Option<PyObject>,
    pub pvalue: Option<PyObject>,
    pub ptraceback: Option<PyObject>,
}

impl Triple {
    pub open spec fn spec_empty() -> Triple {
        Triple { ptype: None, pvalue: None, ptraceback: None }
    }

    #[verifier::when_used_as_spec(spec_empty)]
    pub fn empty() -> (r: Triple)
        ensures
            r == Triple::spec_empty(),
    {
        Triple { ptype: None, pvalue: None, ptraceback: None }
    }
}

/// Does class `c` have `t` among its ancestors (itself included)?
pub open spec fn subclass(objs: Seq<HostObject>, c: int, t: int) -> bool
    decreases c,
{
    if 0 <= c < objs.len() {
        match objs[c] {
            HostObject::Class { base, .. } => {
                if c == t {
                    true
                } else {
                    match base {
                        Some(b) => if b.id < c {
                            subclass(objs, b.id as int, t)
                        } else {
                            false
                        },
                        None => false,
                    }
                }
            },
            _ => false,
        }
    } else {
        false
    }
}

/// Is `t` a class derived from `BaseException`?
pub open spec fn is_exc_class(objs: Seq<HostObject>, t: int) -> bool {
    subclass(objs, t, 0)
}

/// Is `o` an instance of a class derived from `BaseException`?
pub open spec fn is_exc_instance(objs: Seq<HostObject>, o: int) -> bool {
    &&& 0 <= o < objs.len()
    &&& objs[o] is Instance
    &&& is_exc_class(objs, objs[o]->class.id as int)
}

/// The class of an exception instance, or the object itself otherwise.
pub open spec fn class_or_self(objs: Seq<HostObject>, o: int) -> int {
    if is_exc_instance(objs, o) {
        objs[o]->class.id as int
    } else {
        o
    }
}

/// Does the error `err` match `exc`: a class it derives from, or a tuple
/// (nested to any depth) holding one?
pub open spec fn given_matches(objs: Seq<HostObject>, err: int, exc: int) -> bool
    decreases exc, 1int, 0int,
{
    if 0 <= exc < objs.len() {
        match objs[exc] {
            HostObject::Tuple(items) => any_item_matches(objs, err, exc, items@, items@.len() as int),
            _ => {
                let e = class_or_self(objs, err);
                if is_exc_class(objs, e) && is_exc_class(objs, exc) {
                    subclass(objs, e, exc)
                } else {
                    e == exc
                }
            },
        }
    } else {
        false
    }
}

/// Does `err` match one of the first `k` items of the tuple `exc`?
pub open spec fn any_item_matches(
    objs: Seq<HostObject>,
    err: int,
    exc: int,
    items: Seq<PyObject>,
    k: int,
) -> bool
    decreases exc, 0int, k,
{
    if k <= 0 || k > items.len() {
        false
    } else {
        any_item_matches(objs, err, exc, items, k - 1) || (items[k - 1].id < exc
            && given_matches(objs, err, items[k - 1].id as int))
    }
}

/// A match among the first `k` items is a match among the first `m >= k`.
pub proof fn lemma_any_item_monotone(
    objs: Seq<HostObject>,
    err: int,
    exc: int,
    items: Seq<PyObject>,
    k: int,
    m: int,
)
    requires
        0 <= k <= m <= items.len(),
        any_item_matches(objs, err, exc, items, k),
    ensures
        any_item_matches(objs, err, exc, items, m),
    decreases m - k,
{
    if k < m {
        lemma_any_item_monotone(objs, err, exc, items, k, m - 1);
    }
}

/// The text that object `o` holds, if it is a text object.
pub open spec fn text_of(objs: Seq<HostObject>, o: Option<PyObject>) -> Option<Seq<char>> {
    match o {
        Some(x) => if 0 <= x.id < objs.len() && objs[x.id as int] is Text {
            Some(objs[x.id as int]->Text_0@)
        } else {
            None
        },
        None => None,
    }
}

/// `after` holds every object of `before` at the same place, and maybe more.
pub open spec fn extends(before: Seq<HostObject>, after: Seq<HostObject>) -> bool {
    before.len() <= after.len() && after.subrange(0, before.len() as int) == before
}

/// The constructor arguments that normalization passes for an initial value.
pub open spec fn ctor_args(objs: Seq<HostObject>, v: Option<PyObject>) -> Seq<PyObject> {
    match v {
        None => Seq::empty(),
        Some(x) => if x.id == NONE_ID {
            Seq::empty()
        } else if 0 <= x.id < objs.len() && objs[x.id as int] is Tuple {
            objs[x.id as int]->Tuple_0@
        } else {
            seq![x]
        },
    }
}

/// Is `v` already an instance of a class derived from `t`?
pub open spec fn instance_of(objs: Seq<HostObject>, v: Option<PyObject>, t: int) -> bool {
    match v {
        Some(x) => is_exc_instance(objs, x.id as int) && subclass(
            objs,
            objs[x.id as int]->class.id as int,
            t,
        ),
        None => false,
    }
}

/// What normalizing the triple `t` in table `before` gives: `after` and `r`.
/// When the value is already an instance of the type (or of a class derived
/// from it), the type becomes the instance's class and nothing is created.
/// Otherwise a new instance of the type is appended, built from the value.
pub open spec fn normalize_triple_post(
    before: Seq<HostObject>,
    t: Triple,
    after: Seq<HostObject>,
    r: Triple,
) -> bool {
    &&& r.ptraceback == t.ptraceback
    &&& match t.ptype {
        None => after == before && r == t,
        Some(ty) => if !is_exc_class(before, ty.id as int) {
            &&& after == before
            &&& r.ptype == t.ptype
            &&& r.pvalue == (match t.pvalue {
                Some(v) => Some(v),
                None => Some(PyObject { id: NONE_ID }),
            })
        } else if instance_of(before, t.pvalue, ty.id as int) {
            &&& after == before
            &&& r.pvalue == t.pvalue
            &&& r.ptype == Some(before[t.pvalue.unwrap().id as int]->class)
        } else {
            &&& after.len() == before.len() + 1
            &&& after.subrange(0, before.len() as int) == before
            &&& r.ptype == t.ptype
            &&& r.pvalue is Some
            &&& r.pvalue.unwrap().id == before.len()
            &&& after.last() is Instance
            &&& after.last()->class == ty
            &&& after.last()->args@ == ctor_args(before, t.pvalue)
        },
    }
}

/// The built-in classes and `None` are in place.
pub open spec fn builtins_ok(objs: Seq<HostObject>) -> bool {
    &&& objs.len() >= NUM_BUILTINS
    &&& forall|i: int|
        0 <= i < NONE_ID ==> (#[trigger] objs[i] is Class && objs[i]->base == builtin_base(i))
    &&& objs[NONE_ID as int] is NoneValue
}

/// The interpreter: its objects, the global error slot, and what it printed.
pub struct Interpreter {
    pub objects: Vec<HostObject>,
    pub lists: Vec<Vec<PyObject>>,
    pub dicts: Vec<Vec<DictEntry>>,
    /// The single pending error.
    pub slot: Triple,
    /// Every error printed to the diagnostic stream, oldest first.
    pub printed: Vec<Triple>,
    /// The error last printed with its `sys.last_*` variables set.
    pub last_vars: Option<Triple>,
    /// Every warning issued: its category and its message.
    pub warnings: Vec<(PyObject, String)>,
    /// The loaded modules, by name; the latest entry for a name wins.
    pub modules: Vec<DictEntry>,
}

impl Interpreter {
    pub open spec fn objs(&self) -> Seq<HostObject> {
        self.objects@
    }

    /// The built-in classes and `None` are in place, each container object
    /// has its contents, and a pending error has an exception class as type.
    pub open spec fn wf(&self) -> bool {
        &&& builtins_ok(self.objs())
        &&& forall|k: ExcKind| #[trigger] is_exc_class(self.objs(), k.spec_id() as int)
        &&& self.containers_ok()
        &&& match self.slot.ptype {
            Some(t) => is_exc_class(self.objs(), t.id as int),
            None => true,
        }
    }

    /// Each list or dictionary object has its contents.
    pub open spec fn containers_ok(&self) -> bool {
        &&& forall|i: int|
            0 <= i < self.objs().len() && #[trigger] self.objs()[i] is List ==> self.objs()[i]->list
                < self.lists@.len()
        &&& forall|i: int|
            0 <= i < self.objs().len() && #[trigger] self.objs()[i] is Dict ==> self.objs()[i]->dict
                < self.dicts@.len()
    }

    /// Growing keeps the built-in classes and the pending error's class.
    pub proof fn lemma_grown_wf(&self, before: Interpreter)
        requires
            before.wf(),
            self.grows_from(before),
            self.containers_ok(),
        ensures
            self.wf(),
    {
        assert forall|i: int| 0 <= i < NONE_ID implies (#[trigger] self.objs()[i] is Class
            && self.objs()[i]->base == builtin_base(i)) by {
            lemma_extends_index(before.objs(), self.objs(), i);
        }
        lemma_extends_index(before.objs(), self.objs(), NONE_ID as int);
        assert forall|k: ExcKind| #[trigger] is_exc_class(self.objs(), k.spec_id() as int) by {
            assert(is_exc_class(before.objs(), k.spec_id() as int));
            lemma_subclass_extends(before.objs(), self.objs(), k.spec_id() as int, 0);
        }
        if let Some(t) = self.slot.ptype {
            lemma_subclass_extends(before.objs(), self.objs(), t.id as int, 0);
        }
    }

    /// `self` is `before` with objects appended and list or dictionary contents
    /// changed, and the same error slot.
    pub open spec fn grows_from(&self, before: Interpreter) -> bool {
        &&& extends(before.objs(), self.objs())
        &&& before.lists@.len() <= self.lists@.len()
        &&& before.dicts@.len() <= self.dicts@.len()
        &&& self.slot == before.slot
        &&& self.printed@ == before.printed@
        &&& self.last_vars == before.last_vars
        &&& self.warnings@ == before.warnings@
    }
}

/// Classes keep their ancestors when objects are appended.
pub proof fn lemma_subclass_extends(a: Seq<HostObject>, b: Seq<HostObject>, c: int, t: int)
    requires
        extends(a, b),
    ensures
        subclass(a, c, t) ==> subclass(b, c, t),
    decreases c,
{
    if 0 <= c < a.len() {
        assert(b[c] == a[c]) by {
            assert(b.subrange(0, a.len() as int)[c] == b[c]);
        }
        match a[c] {
            HostObject::Class { base, .. } => {
                if c != t {
                    if let Some(bs) = base {
                        if bs.id < c {
                            lemma_subclass_extends(a, b, bs.id as int, t);
                        }
                    }
                }
            },
            _ => {},
        }
    }
}

/// Extending is transitive.
pub proof fn lemma_extends_trans(a: Seq<HostObject>, b: Seq<HostObject>, c: Seq<HostObject>)
    requires
        extends(a, b),
        extends(b, c),
    ensures
        extends(a, c),
{
    assert(c.subrange(0, a.len() as int) =~= b.subrange(0, a.len() as int));
}

/// Appending objects keeps an object in place.
pub proof fn lemma_extends_index(a: Seq<HostObject>, b: Seq<HostObject>, i: int)
    requires
        extends(a, b),
        0 <= i < a.len(),
    ensures
        b[i] == a[i],
{
    assert(b.subrange(0, a.len() as int)[i] == b[i]);
}

/// Every built-in class derives from `BaseException`.
pub proof fn lemma_builtin_exc_class(py: Interpreter, k: ExcKind)
    requires
        py.wf(),
    ensures
        is_exc_class(py.objs(), k.spec_id() as int),
{
}

proof fn lemma_builtin_chain(objs: Seq<HostObject>, i: int)
    requires
        builtins_ok(objs),
        0 <= i < NONE_ID,
    ensures
        subclass(objs, i, 0),
    decreases i,
{
    assert(objs[i] is Class);
    if i != 0 {
        let b = builtin_base(i).unwrap().id as int;
        assert(0 <= b < i);
        lemma_builtin_chain(objs, b);
    }
}


/// The value bound to `key` in a dictionary's entries: the latest entry wins.
pub open spec fn lookup(entries: Seq<DictEntry>, key: Seq<char>) -> Option<PyObject>
    decreases entries.len(),
{
    if entries.len() == 0 {
        None
    } else if entries.last().key@ == key {
        Some(entries.last().value)
    } else {
        lookup(entries.drop_last(), key)
    }
}

/// The attribute `name` of object `o`: a module's namespace entry, or a
/// function's `__name__`.
pub open spec fn attr_of(py: Interpreter, o: int, name: Seq<char>) -> Option<PyObject> {
    if 0 <= o < py.objs().len() {
        match py.objs()[o] {
            HostObject::Module { namespace } => if 0 <= namespace.id < py.objs().len()
                && py.objs()[namespace.id as int] is Dict {
                lookup(py.dicts@[py.objs()[namespace.id as int]->dict as int]@, name)
            } else {
                None
            },
            HostObject::Function { name_obj, .. } => if name == "__name__"@ {
                Some(name_obj)
            } else {
                None
            },
            _ => None,
        }
    } else {
        None
    }
}

/// The base class of the built-in class at position `i`.
fn base_of_builtin(i: usize) -> (r: Option<PyObject>)
    ensures
        r == builtin_base(i as int),
{
    let id: usize = if i == 0 {
        return None;
    } else if i == 1 || i == 20 {
        0
    } else if i == 2 || i == 3 || i == 4 || i == 5 || i == 8 || i == 18 || i == 21 {
        1
    } else if i == 6 {
        4
    } else if i == 7 {
        6
    } else if 9 <= i && i <= 13 {
        8
    } else if 14 <= i && i <= 17 {
        13
    } else if i == 22 {
        21
    } else {
        18
    };
    Some(PyObject { id })
}

/// Copies a sequence of handles.
fn copy_handles(v: &Vec<PyObject>) -> (r: Vec<PyObject>)
    ensures
        r@ == v@,
{
    let mut r: Vec<PyObject> = Vec::new();
    let mut i: usize = 0;
    while i < v.len()
        invariant
            0 <= i <= v@.len(),
            r@ == v@.subrange(0, i as int),
        decreases v@.len() - i,
    {
        r.push(v[i]);
        i += 1;
    }
    assert(r@ == v@);
    r
}

impl Interpreter {
    /// A fresh interpreter: the built-in classes, `None`, and no pending error.
    pub fn new() -> (r: Interpreter)
        ensures
            r.wf(),
            r.objs().len() == NUM_BUILTINS,
            r.slot == Triple::spec_empty(),
            r.printed@.len() == 0,
            r.last_vars is None,
            r.warnings@.len() == 0,
            r.modules@.len() == 0,
    {
        let mut objects: Vec<HostObject> = Vec::new();
        let names = [
            "BaseException", "Exception", "SystemError", "TypeError", "ValueError",
            "AttributeError", "UnicodeError", "UnicodeDecodeError", "OSError",
            "FileNotFoundError", "BlockingIOError", "InterruptedError", "TimeoutError",
            "ConnectionError", "BrokenPipeError", "ConnectionAbortedError",
            "ConnectionRefusedError", "ConnectionResetError", "Warning", "UserWarning",
            "PanicException", "ImportError", "ModuleNotFoundError",
        ];
        let mut i: usize = 0;
        while i < 23
            invariant
                0 <= i <= 23,
                objects@.len() == i,
                forall|j: int|
                    0 <= j < i ==> (#[trigger] objects@[j] is Class && objects@[j]->base
                        == builtin_base(j)),
            decreases 23 - i,
        {
            let base = base_of_builtin(i);
            objects.push(HostObject::Class { name: names[i].to_owned(), base });
            i += 1;
        }
        objects.push(HostObject::NoneValue);
        proof {
            assert(builtins_ok(objects@));
            assert forall|k: ExcKind| #[trigger] is_exc_class(objects@, k.spec_id() as int) by {
                lemma_builtin_chain(objects@, k.spec_id() as int);
            }
        }
        Interpreter {
            objects,
            lists: Vec::new(),
            dicts: Vec::new(),
            slot: Triple::empty(),
            printed: Vec::new(),
            last_vars: None,
            warnings: Vec::new(),
            modules: Vec::new(),
        }
    }

    /// Appends an object and returns its handle. Lists and dictionaries have
    /// their own constructors.
    pub fn add_object(&mut self, o: HostObject) -> (r: PyObject)
        requires
            old(self).wf(),
            !(o is List),
            !(o is Dict),
        ensures
            final(self).wf(),
            final(self).grows_from(*old(self)),
            final(self).objs() == old(self).objs().push(o),
            final(self).lists@ == old(self).lists@,
            final(self).dicts@ == old(self).dicts@,
            r.id == old(self).objs().len(),
    {
        let ghost before = *self;
        let id = self.objects.len();
        self.objects.push(o);
        proof {
            assert(self.objs().subrange(0, before.objs().len() as int) == before.objs());
            assert forall|i: int|
                0 <= i < self.objs().len() && #[trigger] self.objs()[i] is List implies self.objs()[i]->list
                < self.lists@.len() by {
                if i < before.objs().len() {
                    assert(self.objs()[i] == before.objs()[i]);
                }
            }
            assert forall|i: int|
                0 <= i < self.objs().len() && #[trigger] self.objs()[i] is Dict implies self.objs()[i]->dict
                < self.dicts@.len() by {
                if i < before.objs().len() {
                    assert(self.objs()[i] == before.objs()[i]);
                }
            }
            self.lemma_grown_wf(before);
        }
        PyObject { id }
    }
}

impl Interpreter {
    /// Takes the pending error out of the slot, leaving it empty.
    pub fn fetch_triple(&mut self) -> (r: Triple)
        requires
            old(self).wf(),
        ensures
            final(self).wf(),
            r == old(self).slot,
            final(self).slot == Triple::spec_empty(),
            final(self).objs() == old(self).objs(),
            final(self).lists@ == old(self).lists@,
            final(self).dicts@ == old(self).dicts@,
            final(self).printed@ == old(self).printed@,
            final(self).last_vars == old(self).last_vars,
            final(self).warnings@ == old(self).warnings@,
    {
        let r = self.slot;
        self.slot = Triple::empty();
        r
    }

    /// Sets the pending error, replacing whatever was there.
    pub fn restore_triple(&mut self, t: Triple)
        requires
            old(self).wf(),
            t.ptype matches Some(ty) ==> is_exc_class(old(self).objs(), ty.id as int),
        ensures
            final(self).wf(),
            final(self).slot == t,
            final(self).objs() == old(self).objs(),
            final(self).lists@ == old(self).lists@,
            final(self).dicts@ == old(self).dicts@,
            final(self).printed@ == old(self).printed@,
            final(self).last_vars == old(self).last_vars,
            final(self).warnings@ == old(self).warnings@,
    {
        self.slot = t;
    }

    /// Is class `c` derived from `t` (or `t` itself)?
    pub fn is_subclass(&self, c: PyObject, t: PyObject) -> (r: bool)
        ensures
            r == subclass(self.objs(), c.id as int, t.id as int),
    {
        let mut cur = c.id;
        loop
            invariant
                subclass(self.objs(), c.id as int, t.id as int) == subclass(
                    self.objs(),
                    cur as int,
                    t.id as int,
                ),
            decreases cur,
        {
            if cur >= self.objects.len() {
                return false;
            }
            match &self.objects[cur] {
                HostObject::Class { base, .. } => {
                    if cur == t.id {
                        return true;
                    }
                    match base {
                        Some(b) => {
                            if b.id < cur {
                                cur = b.id;
                            } else {
                                return false;
                            }
                        },
                        None => {
                            return false;
                        },
                    }
                },
                _ => {
                    return false;
                },
            }
        }
    }

    /// Is `t` a class derived from `BaseException`?
    pub fn is_exception_class(&self, t: PyObject) -> (r: bool)
        ensures
            r == is_exc_class(self.objs(), t.id as int),
    {
        self.is_subclass(t, PyObject { id: 0 })
    }

    /// Is `o` an instance of an exception class?
    pub fn is_exception_instance(&self, o: PyObject) -> (r: bool)
        ensures
            r == is_exc_instance(self.objs(), o.id as int),
    {
        if o.id >= self.objects.len() {
            return false;
        }
        match &self.objects[o.id] {
            HostObject::Instance { class, .. } => self.is_exception_class(*class),
            _ => false,
        }
    }

    /// The class of an exception instance, or `o` itself otherwise.
    pub fn class_or_self(&self, o: PyObject) -> (r: PyObject)
        ensures
            r.id == class_or_self(self.objs(), o.id as int),
    {
        if self.is_exception_instance(o) {
            match &self.objects[o.id] {
                HostObject::Instance { class, .. } => *class,
                _ => o,
            }
        } else {
            o
        }
    }

    /// Does the error `err` match `exc`: a class it derives from, or a tuple
    /// (nested to any depth) that holds one?
    pub fn given_exception_matches(&self, err: PyObject, exc: PyObject) -> (r: bool)
        ensures
            r == given_matches(self.objs(), err.id as int, exc.id as int),
        decreases exc.id,
    {
        if exc.id >= self.objects.len() {
            return false;
        }
        match &self.objects[exc.id] {
            HostObject::Tuple(items) => {
                let mut j: usize = 0;
                while j < items.len()
                    invariant
                        exc.id < self.objs().len(),
                        self.objs()[exc.id as int] == HostObject::Tuple(*items),
                        0 <= j <= items@.len(),
                        !any_item_matches(self.objs(), err.id as int, exc.id as int, items@, j as int),
                    decreases items@.len() - j,
                {
                    let it = items[j];
                    if it.id < exc.id && self.given_exception_matches(err, it) {
                        proof {
                            lemma_any_item_monotone(
                                self.objs(),
                                err.id as int,
                                exc.id as int,
                                items@,
                                j + 1,
                                items@.len() as int,
                            );
                        }
                        return true;
                    }
                    j += 1;
                }
                false
            },
            _ => {
                let e = self.class_or_self(err);
                if self.is_exception_class(e) && self.is_exception_class(exc) {
                    self.is_subclass(e, exc)
                } else {
                    e.id == exc.id
                }
            },
        }
    }

    /// The text held by `o`, if it is a text object.
    pub fn text_of(&self, o: Option<PyObject>) -> (r: Option<String>)
        ensures
            r matches Some(t) ==> text_of(self.objs(), o) == Some(t@),
            r is None ==> text_of(self.objs(), o) is None,
    {
        match o {
            Some(x) => {
                if x.id < self.objects.len() {
                    match &self.objects[x.id] {
                        HostObject::Text(t) => Some(t.clone()),
                        _ => None,
                    }
                } else {
                    None
                }
            },
            None => None,
        }
    }

    /// Makes sure that the value of an error is an instance of its type.
    pub fn normalize_triple(&mut self, t: Triple) -> (r: Triple)
        requires
            old(self).wf(),
        ensures
            final(self).wf(),
            final(self).grows_from(*old(self)),
            final(self).lists@ == old(self).lists@,
            final(self).dicts@ == old(self).dicts@,
            normalize_triple_post(old(self).objs(), t, final(self).objs(), r),
    {
        proof {
            assert(self.objs().subrange(0, self.objs().len() as int) == self.objs());
        }
        let ty = match t.ptype {
            Some(ty) => ty,
            None => {
                return t;
            },
        };
        if !self.is_exception_class(ty) {
            let v = match t.pvalue {
                Some(v) => v,
                None => PyObject { id: NONE_ID },
            };
            return Triple { ptype: t.ptype, pvalue: Some(v), ptraceback: t.ptraceback };
        }
        if let Some(v) = t.pvalue {
            if self.is_exception_instance(v) {
                let c = match &self.objects[v.id] {
                    HostObject::Instance { class, .. } => *class,
                    _ => ty,
                };
                if self.is_subclass(c, ty) {
                    return Triple { ptype: Some(c), pvalue: t.pvalue, ptraceback: t.ptraceback };
                }
            }
        }
        let args = self.ctor_args(t.pvalue);
        let inst = self.add_object(HostObject::Instance { class: ty, args });
        Triple { ptype: t.ptype, pvalue: Some(inst), ptraceback: t.ptraceback }
    }

    /// The constructor arguments for an initial value: none for `None`, the
    /// items of a tuple, or the value alone.
    fn ctor_args(&self, v: Option<PyObject>) -> (r: Vec<PyObject>)
        ensures
            r@ == ctor_args(self.objs(), v),
    {
        match v {
            None => Vec::new(),
            Some(x) => {
                if x.id == NONE_ID {
                    Vec::new()
                } else if x.id < self.objects.len() {
                    match &self.objects[x.id] {
                        HostObject::Tuple(items) => copy_handles(items),
                        _ => vec![x],
                    }
                } else {
                    vec![x]
                }
            },
        }
    }

    /// Prints the pending error to the diagnostic stream and clears it; with
    /// `set_last_vars` also records it as the last error.
    pub fn print_traceback(&mut self, set_last_vars: bool)
        requires
            old(self).wf(),
        ensures
            final(self).wf(),
            final(self).slot == Triple::spec_empty(),
            final(self).objs() == old(self).objs(),
            final(self).lists@ == old(self).lists@,
            final(self).dicts@ == old(self).dicts@,
            final(self).warnings@ == old(self).warnings@,
            old(self).slot.ptype is None ==> final(self).printed@ == old(self).printed@
                && final(self).last_vars == old(self).last_vars,
            old(self).slot.ptype is Some ==> final(self).printed@ == old(self).printed@.push(
                old(self).slot,
            ) && final(self).last_vars == (if set_last_vars {
                Some(old(self).slot)
            } else {
                old(self).last_vars
            }),
    {
        let t = self.fetch_triple();
        if t.ptype.is_some() {
            self.printed.push(t);
            if set_last_vars {
                self.last_vars = Some(t);
            }
        }
    }
}

/// The dictionary slot of module `o`'s namespace, if `o` is a module.
pub open spec fn module_dict(py: Interpreter, o: int) -> Option<int> {
    if 0 <= o < py.objs().len() && py.objs()[o] is Module {
        let ns = py.objs()[o]->namespace.id as int;
        if 0 <= ns < py.objs().len() && py.objs()[ns] is Dict {
            Some(py.objs()[ns]->dict as int)
        } else {
            None
        }
    } else {
        None
    }
}

/// Attributes of a module stay as they are while objects are appended and
/// lists change.
pub proof fn lemma_attr_kept(a: Interpreter, b: Interpreter, o: int, n: Seq<char>)
    requires
        extends(a.objs(), b.objs()),
        a.dicts@ == b.dicts@,
        module_dict(a, o) is Some,
    ensures
        attr_of(b, o, n) == attr_of(a, o, n),
        module_dict(b, o) == module_dict(a, o),
{
    lemma_extends_index(a.objs(), b.objs(), o);
    lemma_extends_index(a.objs(), b.objs(), a.objs()[o]->namespace.id as int);
}

/// The list slot of object `o`, if it is a list.
pub open spec fn list_slot(py: Interpreter, o: int) -> Option<int> {
    if 0 <= o < py.objs().len() && py.objs()[o] is List {
        Some(py.objs()[o]->list as int)
    } else {
        None
    }
}

impl Interpreter {
    /// A new text object.
    pub fn new_text(&mut self, s: &str) -> (r: PyObject)
        requires
            old(self).wf(),
        ensures
            final(self).wf(),
            final(self).grows_from(*old(self)),
            final(self).objs().len() == old(self).objs().len() + 1,
            final(self).lists@ == old(self).lists@,
            final(self).dicts@ == old(self).dicts@,
            r.id == old(self).objs().len(),
            text_of(final(self).objs(), Some(r)) == Some(s@),
    {
        self.add_object(HostObject::Text(s.to_owned()))
    }

    /// A new, empty list.
    pub fn new_list(&mut self) -> (r: PyObject)
        requires
            old(self).wf(),
        ensures
            final(self).wf(),
            final(self).grows_from(*old(self)),
            final(self).objs().len() == old(self).objs().len() + 1,
            r.id == old(self).objs().len(),
            list_slot(*final(self), r.id as int) == Some(old(self).lists@.len() as int),
            final(self).lists@.len() == old(self).lists@.len() + 1,
            final(self).lists@.drop_last() == old(self).lists@,
            final(self).lists@.last()@.len() == 0,
            final(self).dicts@ == old(self).dicts@,
    {
        let ghost before = *self;
        let slot = self.lists.len();
        self.lists.push(Vec::new());
        let id = self.objects.len();
        self.objects.push(HostObject::List { list: slot });
        proof {
            assert(self.objs().subrange(0, before.objs().len() as int) == before.objs());
            assert(self.lists@.drop_last() == before.lists@);
            assert forall|i: int|
                0 <= i < self.objs().len() && #[trigger] self.objs()[i] is List implies self.objs()[i]->list
                < self.lists@.len() by {
                if i < before.objs().len() {
                    assert(self.objs()[i] == before.objs()[i]);
                }
            }
            assert forall|i: int|
                0 <= i < self.objs().len() && #[trigger] self.objs()[i] is Dict implies self.objs()[i]->dict
                < self.dicts@.len() by {
                if i < before.objs().len() {
                    assert(self.objs()[i] == before.objs()[i]);
                }
            }
            self.lemma_grown_wf(before);
        }
        PyObject { id }
    }

    /// A new, empty dictionary.
    pub fn new_dict(&mut self) -> (r: PyObject)
        requires
            old(self).wf(),
        ensures
            final(self).wf(),
            final(self).grows_from(*old(self)),
            final(self).objs().len() == old(self).objs().len() + 1,
            r.id == old(self).objs().len(),
            final(self).objs()[r.id as int] is Dict,
            final(self).objs()[r.id as int]->dict == old(self).dicts@.len(),
            final(self).dicts@.len() == old(self).dicts@.len() + 1,
            final(self).dicts@.drop_last() == old(self).dicts@,
            final(self).dicts@.last()@.len() == 0,
            final(self).lists@ == old(self).lists@,
    {
        let ghost before = *self;
        let slot = self.dicts.len();
        self.dicts.push(Vec::new());
        let id = self.objects.len();
        self.objects.push(HostObject::Dict { dict: slot });
        proof {
            assert(self.objs().subrange(0, before.objs().len() as int) == before.objs());
            assert(self.dicts@.drop_last() == before.dicts@);
            assert forall|i: int|
                0 <= i < self.objs().len() && #[trigger] self.objs()[i] is List implies self.objs()[i]->list
                < self.lists@.len() by {
                if i < before.objs().len() {
                    assert(self.objs()[i] == before.objs()[i]);
                }
            }
            assert forall|i: int|
                0 <= i < self.objs().len() && #[trigger] self.objs()[i] is Dict implies self.objs()[i]->dict
                < self.dicts@.len() by {
                if i < before.objs().len() {
                    assert(self.objs()[i] == before.objs()[i]);
                }
            }
            self.lemma_grown_wf(before);
        }
        PyObject { id }
    }

    /// Binds `key` to `value` in dictionary slot `d`, after its other entries.
    fn dict_push(&mut self, d: usize, key: &str, value: PyObject)
        requires
            old(self).wf(),
            d < old(self).dicts@.len(),
        ensures
            final(self).wf(),
            final(self).objs() == old(self).objs(),
            final(self).lists@ == old(self).lists@,
            final(self).slot == old(self).slot,
            final(self).printed@ == old(self).printed@,
            final(self).last_vars == old(self).last_vars,
            final(self).warnings@ == old(self).warnings@,
            final(self).dicts@.len() == old(self).dicts@.len(),
            forall|j: int| 0 <= j < old(self).dicts@.len() && j != d ==> final(self).dicts@[j] == old(self).dicts@[j],
            final(self).dicts@[d as int]@.len() == old(self).dicts@[d as int]@.len() + 1,
            final(self).dicts@[d as int]@.drop_last() == old(self).dicts@[d as int]@,
            final(self).dicts@[d as int]@.last().key@ == key@,
            final(self).dicts@[d as int]@.last().value == value,
    {
        let mut entries = self.dicts.remove(d);
        let ghost old_entries = entries@;
        entries.push(DictEntry { key: key.to_owned(), value });
        self.dicts.insert(d, entries);
        proof {
            assert(entries@.drop_last() == old_entries);
        }
    }

    /// The value bound to `key` in dictionary slot `d`; the latest entry wins.
    fn dict_lookup(&self, d: usize, key: &str) -> (r: Option<PyObject>)
        requires
            d < self.dicts@.len(),
        ensures
            r == lookup(self.dicts@[d as int]@, key@),
    {
        let entries = &self.dicts[d];
        let k = key.to_owned();
        let mut i: usize = entries.len();
        proof {
            assert(entries@.subrange(0, entries@.len() as int) =~= entries@);
        }
        while i > 0
            invariant
                d < self.dicts@.len(),
                i <= entries@.len(),
                *entries == self.dicts@[d as int],
                k@ == key@,
                lookup(entries@, key@) == lookup(entries@.subrange(0, i as int), key@),
            decreases i,
        {
            let ghost prefix = entries@.subrange(0, i as int);
            assert(prefix.drop_last() == entries@.subrange(0, i - 1));
            if entries[i - 1].key == k {
                return Some(entries[i - 1].value);
            }
            i -= 1;
        }
        None
    }

    /// The attribute `name` of object `o`: a module's namespace entry, or a
    /// function's `__name__`.
    pub fn getattr(&self, o: PyObject, name: &str) -> (r: Option<PyObject>)
        requires
            self.wf(),
        ensures
            r == attr_of(*self, o.id as int, name@),
    {
        if o.id >= self.objects.len() {
            return None;
        }
        match &self.objects[o.id] {
            HostObject::Module { namespace } => {
                if namespace.id < self.objects.len() {
                    match &self.objects[namespace.id] {
                        HostObject::Dict { dict } => self.dict_lookup(*dict, name),
                        _ => None,
                    }
                } else {
                    None
                }
            },
            HostObject::Function { name_obj, .. } => {
                proof {
                    reveal_strlit("__name__");
                }
                if name.to_owned() == "__name__".to_owned() {
                    Some(*name_obj)
                } else {
                    None
                }
            },
            _ => None,
        }
    }

    /// Binds attribute `name` of module `o` to `value`; false when `o` is
    /// not a module.
    pub fn setattr(&mut self, o: PyObject, name: &str, value: PyObject) -> (r: bool)
        requires
            old(self).wf(),
        ensures
            final(self).wf(),
            final(self).objs() == old(self).objs(),
            final(self).lists@ == old(self).lists@,
            final(self).slot == old(self).slot,
            final(self).printed@ == old(self).printed@,
            final(self).last_vars == old(self).last_vars,
            final(self).warnings@ == old(self).warnings@,
            r == module_dict(*old(self), o.id as int) is Some,
            !r ==> final(self).dicts@ == old(self).dicts@,
            r ==> attr_of(*final(self), o.id as int, name@) == Some(value),
            r ==> forall|n: Seq<char>|
                n != name@ ==> #[trigger] attr_of(*final(self), o.id as int, n) == attr_of(
                    *old(self),
                    o.id as int,
                    n,
                ),
            r ==> module_dict(*final(self), o.id as int) == module_dict(*old(self), o.id as int),
    {
        let ghost before = *self;
        if o.id >= self.objects.len() {
            return false;
        }
        let d = match &self.objects[o.id] {
            HostObject::Module { namespace } => {
                if namespace.id < self.objects.len() {
                    match &self.objects[namespace.id] {
                        HostObject::Dict { dict } => *dict,
                        _ => {
                            return false;
                        },
                    }
                } else {
                    return false;
                }
            },
            _ => {
                return false;
            },
        };
        proof {
            let ns = self.objs()[o.id as int]->namespace.id as int;
            assert(self.objs()[ns] is Dict);
        }
        self.dict_push(d, name, value);
        proof {
            let entries = self.dicts@[d as int]@;
            assert(entries.len() > 0);
            assert(lookup(entries, name@) == Some(value));
            assert forall|n: Seq<char>|
                n != name@ implies #[trigger] attr_of(*self, o.id as int, n) == attr_of(
                    before,
                    o.id as int,
                    n,
                ) by {
                assert(lookup(entries, n) == lookup(entries.drop_last(), n));
            }
        }
        true
    }

    /// A new module whose `__name__` is `name`.
    pub fn new_module(&mut self, name: &str) -> (r: PyObject)
        requires
            old(self).wf(),
        ensures
            final(self).wf(),
            final(self).grows_from(*old(self)),
            module_dict(*final(self), r.id as int) is Some,
            text_of(final(self).objs(), attr_of(*final(self), r.id as int, "__name__"@)) == Some(
                name@,
            ),
    {
        let ghost before = *self;
        let text = self.new_text(name);
        let ns = self.new_dict();
        let m = self.add_object(HostObject::Module { namespace: ns });
        proof {
            reveal_strlit("__name__");
            assert(self.objs().subrange(0, before.objs().len() as int) =~= before.objs());
        }
        let ghost mid = *self;
        self.setattr(m, "__name__", text);
        proof {
            lemma_extends_index(before.objs(), self.objs(), 0);
            assert(self.objs().subrange(0, before.objs().len() as int) =~= before.objs());
            assert(mid.objs()[text.id as int] == self.objs()[text.id as int]);
        }
        m
    }

    /// The items of list `l`, if it is a list.
    pub fn list_items(&self, l: PyObject) -> (r: Option<Vec<PyObject>>)
        requires
            self.wf(),
        ensures
            r is Some == list_slot(*self, l.id as int) is Some,
            r matches Some(v) ==> v@ == self.lists@[list_slot(*self, l.id as int).unwrap()]@,
    {
        if l.id >= self.objects.len() {
            return None;
        }
        match &self.objects[l.id] {
            HostObject::List { list } => Some(copy_handles(&self.lists[*list])),
            _ => None,
        }
    }

    /// Appends `v` to list `l`; false when `l` is not a list.
    pub fn list_append(&mut self, l: PyObject, v: PyObject) -> (r: bool)
        requires
            old(self).wf(),
        ensures
            final(self).wf(),
            final(self).objs() == old(self).objs(),
            final(self).dicts@ == old(self).dicts@,
            final(self).slot == old(self).slot,
            final(self).printed@ == old(self).printed@,
            final(self).last_vars == old(self).last_vars,
            final(self).warnings@ == old(self).warnings@,
            r == list_slot(*old(self), l.id as int) is Some,
            !r ==> final(self).lists@ == old(self).lists@,
            r ==> {
                let s = list_slot(*old(self), l.id as int).unwrap();
                &&& final(self).lists@.len() == old(self).lists@.len()
                &&& final(self).lists@[s]@ == old(self).lists@[s]@.push(v)
                &&& forall|j: int|
                    0 <= j < old(self).lists@.len() && j != s ==> final(self).lists@[j]
                        == old(self).lists@[j]
            },
    {
        if l.id >= self.objects.len() {
            return false;
        }
        let s = match &self.objects[l.id] {
            HostObject::List { list } => *list,
            _ => {
                return false;
            },
        };
        let mut items = self.lists.remove(s);
        items.push(v);
        self.lists.insert(s, items);
        true
    }

    /// Calls `callable`: a class builds an instance from the positional
    /// arguments and takes no keyword arguments; a native function returns
    /// its result. `None` when the call fails.
    pub fn call_object(&mut self, callable: PyObject, args: Vec<PyObject>, kwargs: Option<PyObject>) -> (r: Option<PyObject>)
        requires
            old(self).wf(),
        ensures
            final(self).wf(),
            final(self).grows_from(*old(self)),
            final(self).lists@ == old(self).lists@,
            final(self).dicts@ == old(self).dicts@,
            callable_result(*old(self), callable, args@, kwargs, final(self).objs(), r),
    {
        let ghost before = *self;
        proof {
            assert(self.objs().subrange(0, self.objs().len() as int) == self.objs());
        }
        if callable.id >= self.objects.len() {
            return None;
        }
        match &self.objects[callable.id] {
            HostObject::Class { .. } => {},
            HostObject::Function { result, .. } => {
                return Some(*result);
            },
            _ => {
                return None;
            },
        }
        if !self.no_keywords(kwargs) {
            return None;
        }
        Some(self.add_object(HostObject::Instance { class: callable, args }))
    }

    /// Are there no keyword arguments: none given, or an empty dictionary?
    fn no_keywords(&self, kwargs: Option<PyObject>) -> (r: bool)
        requires
            self.wf(),
        ensures
            r == no_keywords(*self, kwargs),
    {
        match kwargs {
            None => true,
            Some(k) => {
                if k.id >= self.objects.len() {
                    return false;
                }
                match &self.objects[k.id] {
                    HostObject::Dict { dict } => self.dicts[*dict].len() == 0,
                    _ => false,
                }
            },
        }
    }
}

/// No keyword arguments: none given, or an empty dictionary.
pub open spec fn no_keywords(py: Interpreter, kwargs: Option<PyObject>) -> bool {
    match kwargs {
        None => true,
        Some(k) => 0 <= k.id < py.objs().len() && py.objs()[k.id as int] is Dict
            && py.dicts@[py.objs()[k.id as int]->dict as int]@.len() == 0,
    }
}

/// What calling `callable` with `args` and `kwargs` in state `py` gives.
pub open spec fn callable_result(
    py: Interpreter,
    callable: PyObject,
    args: Seq<PyObject>,
    kwargs: Option<PyObject>,
    after: Seq<HostObject>,
    r: Option<PyObject>,
) -> bool {
    let before = py.objs();
    if 0 <= callable.id < before.len() && before[callable.id as int] is Class && no_keywords(
        py,
        kwargs,
    ) {
        &&& after.len() == before.len() + 1
        &&& r is Some
        &&& r.unwrap().id == before.len()
        &&& after.last() is Instance
        &&& after.last()->class == callable
        &&& after.last()->args@ == args
    } else if 0 <= callable.id < before.len() && before[callable.id as int] is Function {
        after == before && r == Some(before[callable.id as int]->result)
    } else {
        after == before && r is None
    }
}

/// Does `bytes` hold the byte `b`?
pub open spec fn holds_byte(bytes: Seq<u8>, b: u8) -> bool {
    exists|i: int| 0 <= i < bytes.len() && bytes[i] == b
}

/// Does `bytes` hold the byte `b`?
pub fn find_byte(bytes: &[u8], b: u8) -> (r: bool)
    ensures
        r == holds_byte(bytes@, b),
{
    let mut i: usize = 0;
    while i < bytes.len()
        invariant
            0 <= i <= bytes@.len(),
            forall|j: int| 0 <= j < i ==> bytes@[j] != b,
        decreases bytes@.len() - i,
    {
        if bytes[i] == b {
            return true;
        }
        i += 1;
    }
    false
}

/// The message of the error for a warning category that is not a `Warning`.
pub open spec fn bad_category_text() -> Seq<char> {
    "category must be a Warning subclass"@
}

impl Interpreter {
    /// Issues a warning of class `category`. Returns 0 and records the
    /// warning when `category` derives from `Warning`; otherwise sets a
    /// `TypeError` as the pending error and returns -1. `stack_level` picks
    /// the frame a warning is reported against; this interpreter keeps no
    /// frames, so it changes nothing here.
    pub fn warn(&mut self, category: PyObject, message: &str, stack_level: isize) -> (r: i32)
        requires
            old(self).wf(),
        ensures
            final(self).wf(),
            extends(old(self).objs(), final(self).objs()),
            final(self).printed@ == old(self).printed@,
            subclass(old(self).objs(), category.id as int, ExcKind::Warning.spec_id() as int) ==> {
                &&& r == 0
                &&& final(self).objs() == old(self).objs()
                &&& final(self).slot == old(self).slot
                &&& final(self).warnings@.len() == old(self).warnings@.len() + 1
                &&& final(self).warnings@.drop_last() == old(self).warnings@
                &&& final(self).warnings@.last().0 == category
                &&& final(self).warnings@.last().1@ == message@
            },
            !subclass(old(self).objs(), category.id as int, ExcKind::Warning.spec_id() as int) ==> {
                &&& r == -1
                &&& final(self).warnings@ == old(self).warnings@
                &&& final(self).slot.ptype == Some(ExcKind::TypeError.spec_type_object())
                &&& text_of(final(self).objs(), final(self).slot.pvalue) == Some(bad_category_text())
                &&& final(self).slot.ptraceback is None
            },
    {
        proof {
            assert(self.objs().subrange(0, self.objs().len() as int) == self.objs());
        }
        if self.is_subclass(category, ExcKind::Warning.type_object()) {
            self.warnings.push((category, message.to_owned()));
            return 0;
        }
        let ghost before = *self;
        proof {
            reveal_strlit("category must be a Warning subclass");
        }
        let text = self.new_text("category must be a Warning subclass");
        proof {
            lemma_builtin_exc_class(*self, ExcKind::TypeError);
        }
        self.restore_triple(
            Triple { ptype: Some(ExcKind::TypeError.type_object()), pvalue: Some(text), ptraceback: None },
        );
        -1
    }

    /// Appends a new exception class named `name` (qualified, as
    /// `module.Class`) with base class `base`.
    pub fn new_class(&mut self, name: &str, base: PyObject) -> (r: PyObject)
        requires
            old(self).wf(),
            is_exc_class(old(self).objs(), base.id as int),
        ensures
            final(self).wf(),
            final(self).grows_from(*old(self)),
            final(self).lists@ == old(self).lists@,
            final(self).dicts@ == old(self).dicts@,
            final(self).objs().len() == old(self).objs().len() + 1,
            r.id == old(self).objs().len(),
            final(self).objs()[r.id as int] is Class,
            final(self).objs()[r.id as int]->name@ == name@,
            final(self).objs()[r.id as int]->base == Some(base),
            is_exc_class(final(self).objs(), r.id as int),
    {
        let ghost before = *self;
        let r = self.add_object(HostObject::Class { name: name.to_owned(), base: Some(base) });
        proof {
            lemma_subclass_extends(before.objs(), self.objs(), base.id as int, 0);
            assert(self.objs()[base.id as int] == before.objs()[base.id as int]) by {
                lemma_extends_index(before.objs(), self.objs(), base.id as int);
            }
        }
        r
    }
}

impl Interpreter {
    /// Records module `m` as loaded under `name`.
    pub fn register_module(&mut self, name: &str, m: PyObject)
        requires
            old(self).wf(),
        ensures
            final(self).wf(),
            final(self).objs() == old(self).objs(),
            final(self).lists@ == old(self).lists@,
            final(self).dicts@ == old(self).dicts@,
            final(self).slot == old(self).slot,
            final(self).modules@.len() == old(self).modules@.len() + 1,
            final(self).modules@.drop_last() == old(self).modules@,
            final(self).modules@.last().key@ == name@,
            final(self).modules@.last().value == m,
    {
        self.modules.push(DictEntry { key: name.to_owned(), value: m });
        proof {
            assert(self.modules@.drop_last() =~= old(self).modules@);
        }
    }

    /// The module loaded under `name`, if any.
    pub fn find_module(&self, name: &str) -> (r: Option<PyObject>)
        ensures
            r == lookup(self.modules@, name@),
    {
        let k = name.to_owned();
        let mut i: usize = self.modules.len();
        proof {
            assert(self.modules@.subrange(0, self.modules@.len() as int) =~= self.modules@);
        }
        while i > 0
            invariant
                i <= self.modules@.len(),
                k@ == name@,
                lookup(self.modules@, name@) == lookup(self.modules@.subrange(0, i as int), name@),
            decreases i,
        {
            let ghost prefix = self.modules@.subrange(0, i as int);
            assert(prefix.drop_last() == self.modules@.subrange(0, i - 1));
            if self.modules[i - 1].key == k {
                return Some(self.modules[i - 1].value);
            }
            i -= 1;
        }
        None
    }
}

} // verus!
