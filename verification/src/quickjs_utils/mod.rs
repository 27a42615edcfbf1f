//! Helpers that make value handles and judge what the engine returned.

pub mod modules;

use vstd::prelude::*;
use vstd::string::*;
use crate::eserror::EsError;
use crate::quickjs_utils::modules::other_error;
use crate::valueref::has_ref_count;
use crate::valueref::HandleOp;
use crate::valueref::JSValue;
use crate::valueref::JSValueRef;
use crate::valueref::JSValueRefView;
use crate::valueref::TAG_NULL;
use crate::valueref::TAG_UNDEFINED;

verus! {

/// A handle to the value `undefined`. It belongs to no context and owns no reference.
pub fn new_undefined_ref() -> (r: JSValueRef)
    ensures
        r@ == (JSValueRefView {
            context: None,
            value: JSValue { tag: TAG_UNDEFINED, int32: 0, ptr: 0 },
            ref_ct_decr_on_drop: false,
            label: "new_undefined_ref"@,
        }),
{
    JSValueRef::new_no_context(JSValue { tag: TAG_UNDEFINED, int32: 0, ptr: 0 }, "new_undefined_ref")
}

/// The value `null`.
pub fn new_null() -> (value: JSValue)
    ensures
        value == (JSValue { tag: TAG_NULL, int32: 0, ptr: 0 }),
{
    JSValue { tag: TAG_NULL, int32: 0, ptr: 0 }
}

/// A handle to the value `null`. It belongs to no context and owns no reference.
pub fn new_null_ref() -> (r: JSValueRef)
    ensures
        r@ == (JSValueRefView {
            context: None,
            value: JSValue { tag: TAG_NULL, int32: 0, ptr: 0 },
            ref_ct_decr_on_drop: false,
            label: "null_ref"@,
        }),
{
    JSValueRef::new_no_context(new_null(), "null_ref")
}

/// Judges the property of the global object that was read under the name
/// of a constructor: `null` and `undefined` mean that there is no such
/// constructor.
pub fn get_constructor(constructor_ref: JSValueRef, constructor_name: &str) -> (r: Result<
    JSValueRef,
    EsError,
>)
    ensures
        constructor_ref@.value.tag == TAG_NULL || constructor_ref@.value.tag == TAG_UNDEFINED ==> (
        r matches Err(e) && e@ == other_error("not found: "@ + constructor_name@)),
        constructor_ref@.value.tag != TAG_NULL && constructor_ref@.value.tag != TAG_UNDEFINED ==> (
        r matches Ok(found) && found == constructor_ref),
{
    if constructor_ref.is_null_or_undefined() {
        Err(EsError::new_string(String::from_str("not found: ").concat(constructor_name)))
    } else {
        Ok(constructor_ref)
    }
}

/// The handle that [`parse_args`] makes of one argument.
pub open spec fn arg_view(context: Seq<char>, raw: JSValue) -> JSValueRefView {
    JSValueRefView {
        context: Some(context),
        value: raw,
        ref_ct_decr_on_drop: true,
        label: "quickjs_utils::parse_args"@,
    }
}

/// The step that a handle counts when it is made of a value that the
/// engine keeps its own references to: a value with a reference count is
/// cloned, an immediate value is not counted.
pub open spec fn borrow_step(raw: JSValue) -> Option<HandleOp> {
    if has_ref_count(raw.tag) {
        Some(HandleOp::Clone)
    } else {
        None
    }
}

/// Makes handles of the arguments that the engine passed to a native
/// function, and says for each which step its lineage is to count. The
/// engine keeps its own references to the arguments, so every handle to a
/// reference-counted value takes a reference of its own, one
/// [`HandleOp::Clone`] each, which it gives back when it is dropped.
/// Immediate values are not counted.
pub fn parse_args(context: &str, argv: &Vec<JSValue>) -> (r: (Vec<JSValueRef>, Vec<Option<HandleOp>>))
    ensures
        r.0@.len() == argv@.len(),
        r.1@.len() == argv@.len(),
        forall|i: int| 0 <= i < argv@.len() ==> (#[trigger] r.0@[i])@ == arg_view(context@, argv@[i]),
        forall|i: int| 0 <= i < argv@.len() ==> #[trigger] r.1@[i] == borrow_step(argv@[i]),
{
    let mut args: Vec<JSValueRef> = Vec::new();
    let mut steps: Vec<Option<HandleOp>> = Vec::new();
    let mut i: usize = 0;
    while i < argv.len()
        invariant
            i <= argv@.len(),
            args@.len() == i,
            steps@.len() == i,
            forall|j: int| 0 <= j < i ==> (#[trigger] args@[j])@ == arg_view(context@, argv@[j]),
            forall|j: int| 0 <= j < i ==> #[trigger] steps@[j] == borrow_step(argv@[j]),
        decreases argv@.len() - i,
    {
        args.push(JSValueRef::new(Some(context), argv[i], true, "quickjs_utils::parse_args"));
        if argv[i].tag < 0 {
            steps.push(Some(HandleOp::Clone));
        } else {
            steps.push(None);
        }
        i = i + 1;
    }
    (args, steps)
}

} // verus!
