//! Laws that relate several operations of the bridge.

use vstd::prelude::*;
use crate::err::{
    clone_post, fetch_post, instance_message, lazy_text, normalize_post,
    panic_message, realize_post, restore_post, value_handle, value_opt, Fetched, PyErr,
};
use crate::foreign::{foreign_record, target_kind, ForeignError, ForeignErrorKind, IoErrorKind};
use crate::host::{
    given_matches, instance_of, is_exc_class, lemma_builtin_exc_class, subclass, text_of, ExcKind,
    Interpreter,
};

verus! {

/// A class matches itself.
pub proof fn lemma_class_matches_itself(py: Interpreter, t: int)
    requires
        is_exc_class(py.objs(), t),
    ensures
        given_matches(py.objs(), t, t),
{
    assert(py.objs()[t] is Class);
}

/// Taking out whatever is pending, writing an error `e` in, and taking it out
/// again gives back an equivalent error: the same type and traceback, and the
/// value realized, with the same text where the value was a lazy text.
/// (A `PanicException` comes back as a panic to resume instead.)
pub proof fn law_restore_then_fetch(
    s0: Interpreter,
    f0: Fetched,
    s1: Interpreter,
    e: PyErr,
    s2: Interpreter,
    s3: Interpreter,
    f: Fetched,
)
    requires
        s0.wf(),
        fetch_post(s0, s1, f0),
        e.wf(s1),
        e.ptype != ExcKind::PanicException.spec_type_object(),
        restore_post(s1, e, s2),
        fetch_post(s2, s3, f),
    ensures
        f matches Fetched::Error(g) && {
            &&& g.ptype == e.ptype
            &&& g.ptraceback == e.ptraceback
            &&& (g.pvalue is Empty <==> e.pvalue is Empty)
            &&& realize_post(s1.objs(), e.pvalue, s3.objs(), value_opt(g.pvalue))
            &&& lazy_text(e.pvalue) matches Some(s) ==> text_of(s3.objs(), value_opt(g.pvalue))
                == Some(s)
        },
{
}

/// Normalizing twice is normalizing once.
pub proof fn law_normalize_idempotent(
    s0: Interpreter,
    e0: PyErr,
    s1: Interpreter,
    e1: PyErr,
    s2: Interpreter,
    e2: PyErr,
)
    requires
        s0.wf(),
        e0.wf(s0),
        normalize_post(s0, e0, s1, e1),
        normalize_post(s1, e1, s2, e2),
    ensures
        e2 == e1,
        s2.objs() == s1.objs(),
{
    let x = e1.pvalue->Value_0;
    let c = s1.objs()[x.id as int]->class;
    assert(s1.objs()[c.id as int] is Class);
    assert(subclass(s1.objs(), c.id as int, e1.ptype.id as int));
    assert(instance_of(s1.objs(), value_handle(e1.pvalue), e1.ptype.id as int));
}

/// A copy of an error matches the type of the error it was copied from.
pub proof fn law_clone_matches_type(s0: Interpreter, e: PyErr, s1: Interpreter, c: PyErr)
    requires
        s0.wf(),
        e.wf(s0),
        clone_post(s0, e, s1, c),
    ensures
        given_matches(s1.objs(), c.ptype.id as int, e.ptype.id as int),
{
    lemma_class_matches_itself(s1, e.ptype.id as int);
}

/// A local error, converted and normalized, is an instance of the class that
/// the table gives for its kind.
pub proof fn law_foreign_error_is_instance_of_target(
    err: ForeignError,
    s0: Interpreter,
    s1: Interpreter,
    e1: PyErr,
)
    requires
        s0.wf(),
        normalize_post(s0, foreign_record(err), s1, e1),
    ensures
        given_matches(s1.objs(), e1.ptype.id as int, target_kind(err.kind).spec_id() as int),
        e1.ptype == target_kind(err.kind).spec_type_object(),
{
    lemma_builtin_exc_class(s1, target_kind(err.kind));
    lemma_class_matches_itself(s1, target_kind(err.kind).spec_id() as int);
}

/// An error taken out of an empty slot is a `SystemError`.
pub proof fn law_fetch_empty_is_system_error(s0: Interpreter, s1: Interpreter, f: Fetched)
    requires
        s0.wf(),
        s0.slot.ptype is None,
        fetch_post(s0, s1, f),
    ensures
        f matches Fetched::Error(e) && e.ptype == ExcKind::SystemError.spec_type_object(),
{
}

/// A `PanicException` written into the slot comes back out as a panic to
/// resume, carrying its text, or the fixed message when its value is not text.
pub proof fn law_panic_resumes(s1: Interpreter, e: PyErr, s2: Interpreter, s3: Interpreter, f: Fetched)
    requires
        s1.wf(),
        e.wf(s1),
        e.ptype == ExcKind::PanicException.spec_type_object(),
        restore_post(s1, e, s2),
        fetch_post(s2, s3, f),
    ensures
        f matches Fetched::Panic(m) && m@ == (match lazy_text(e.pvalue) {
            Some(s) => s,
            None => panic_message(s1.objs(), value_handle(e.pvalue)),
        }),
{
}

/// A "not found" I/O error, converted and normalized, is a
/// `FileNotFoundError` whose message is the error's description.
pub proof fn law_not_found_end_to_end(err: ForeignError, s0: Interpreter, s1: Interpreter, e1: PyErr)
    requires
        s0.wf(),
        err.kind == ForeignErrorKind::Io(IoErrorKind::NotFound),
        normalize_post(s0, foreign_record(err), s1, e1),
    ensures
        given_matches(s1.objs(), e1.ptype.id as int, ExcKind::FileNotFoundError.spec_id() as int),
        instance_message(s1.objs(), e1) == Some(err.description@),
{
    law_foreign_error_is_instance_of_target(err, s0, s1, e1);
}

} // verus!
