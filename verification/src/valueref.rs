//! Handles to engine-owned values and the accounting of the references they
//! hold.
//!
//! The engine counts the references to every value that lives on its heap. A
//! handle that owns a reference must give it back exactly once. The handles
//! to one engine value form a lineage; [`HandleLineage`] keeps the three
//! counters from which the lineage's share of the engine's count follows, and
//! refuses the operation that would give back more than was taken.

use vstd::prelude::*;
use vstd::string::*;
use crate::eserror::EsError;
use crate::eserror::EsErrorView;
use crate::eserror::ErrorKind;

verus! {

pub const TAG_BIG_INT: i64 = -10;

pub const TAG_STRING: i64 = -7;

pub const TAG_MODULE: i64 = -3;

pub const TAG_OBJECT: i64 = -1;

pub const TAG_INT: i64 = 0;

pub const TAG_BOOL: i64 = 1;

pub const TAG_NULL: i64 = 2;

pub const TAG_UNDEFINED: i64 = 3;

pub const TAG_EXCEPTION: i64 = 6;

pub const TAG_FLOAT64: i64 = 7;

/// An engine value as the engine hands it over: the type tag, the integer
/// payload of an immediate value, and the address of a heap value.
#[derive(Clone, Copy, Debug, PartialEq, Eq, Structural)]
pub struct JSValue {
    pub tag: i64,
    pub int32: i32,
    pub ptr: u64,
}

/// Values with a negative tag live on the engine's heap and are reference
/// counted; all others are immediate and freely copyable.
pub open spec fn has_ref_count(tag: i64) -> bool {
    tag < 0
}

/// A tagged value together with the id of the context it belongs to, if any,
/// and the obligation to give its reference back when it is dropped.
#[derive(Debug)]
pub struct JSValueRef {
    context: Option<String>,
    value: JSValue,
    ref_ct_decr_on_drop: bool,
    label: String,
}

/// The mathematical content of a [`JSValueRef`].
pub struct JSValueRefView {
    pub context: Option<Seq<char>>,
    pub value: JSValue,
    pub ref_ct_decr_on_drop: bool,
    pub label: Seq<char>,
}

/// The view of an optional text.
pub open spec fn opt_text(text: Option<String>) -> Option<Seq<char>> {
    match text {
        Some(t) => Some(t@),
        None => None,
    }
}

/// The view of an optional string slice.
pub open spec fn opt_str(text: Option<&str>) -> Option<Seq<char>> {
    match text {
        Some(t) => Some(t@),
        None => None,
    }
}

impl View for JSValueRef {
    type V = JSValueRefView;

    closed spec fn view(&self) -> JSValueRefView {
        JSValueRefView {
            context: opt_text(self.context),
            value: self.value,
            ref_ct_decr_on_drop: self.ref_ct_decr_on_drop,
            label: self.label@,
        }
    }
}

impl JSValueRefView {
    /// Whether dropping the handle gives a reference back to the engine.
    pub open spec fn owns_reference(self) -> bool {
        self.ref_ct_decr_on_drop && has_ref_count(self.value.tag)
    }
}

impl JSValueRef {
    /// A handle to `value` in the context `context`.
    pub fn new(context: Option<&str>, value: JSValue, ref_ct_decr_on_drop: bool, label: &str) -> (r:
        JSValueRef)
        ensures
            r@ == (JSValueRefView {
                context: opt_str(context),
                value,
                ref_ct_decr_on_drop,
                label: label@,
            }),
    {
        let context = match context {
            Some(id) => Some(String::from_str(id)),
            None => None,
        };
        JSValueRef { context, value, ref_ct_decr_on_drop, label: String::from_str(label) }
    }

    /// A handle that belongs to no context and owns no reference.
    pub fn new_no_context(value: JSValue, label: &str) -> (r: JSValueRef)
        ensures
            r@ == (JSValueRefView {
                context: None,
                value,
                ref_ct_decr_on_drop: false,
                label: label@,
            }),
    {
        JSValueRef { context: None, value, ref_ct_decr_on_drop: false, label: String::from_str(label) }
    }

    pub fn borrow_value(&self) -> (value: &JSValue)
        ensures
            *value == self@.value,
    {
        &self.value
    }

    pub fn get_tag(&self) -> (tag: i64)
        ensures
            tag == self@.value.tag,
    {
        self.value.tag
    }

    pub fn get_label(&self) -> (label: &str)
        ensures
            label@ == self@.label,
    {
        self.label.as_str()
    }

    pub fn get_context_id(&self) -> (context: Option<&str>)
        ensures
            opt_str(context) == self@.context,
    {
        match &self.context {
            Some(id) => Some(id.as_str()),
            None => None,
        }
    }

    /// Whether dropping this handle gives a reference back to the engine.
    pub fn owns_reference(&self) -> (b: bool)
        ensures
            b == self@.owns_reference(),
    {
        self.ref_ct_decr_on_drop && self.value.tag < 0
    }

    pub fn is_null(&self) -> (b: bool)
        ensures
            b == (self@.value.tag == TAG_NULL),
    {
        self.value.tag == TAG_NULL
    }

    pub fn is_undefined(&self) -> (b: bool)
        ensures
            b == (self@.value.tag == TAG_UNDEFINED),
    {
        self.value.tag == TAG_UNDEFINED
    }

    pub fn is_null_or_undefined(&self) -> (b: bool)
        ensures
            b == (self@.value.tag == TAG_NULL || self@.value.tag == TAG_UNDEFINED),
    {
        self.is_null() || self.is_undefined()
    }

    pub fn is_exception(&self) -> (b: bool)
        ensures
            b == (self@.value.tag == TAG_EXCEPTION),
    {
        self.value.tag == TAG_EXCEPTION
    }

    pub fn is_module(&self) -> (b: bool)
        ensures
            b == (self@.value.tag == TAG_MODULE),
    {
        self.value.tag == TAG_MODULE
    }

    pub fn is_object(&self) -> (b: bool)
        ensures
            b == (self@.value.tag == TAG_OBJECT),
    {
        self.value.tag == TAG_OBJECT
    }

    pub fn is_i32(&self) -> (b: bool)
        ensures
            b == (self@.value.tag == TAG_INT),
    {
        self.value.tag == TAG_INT
    }

    /// The integer that an immediate integer value holds.
    pub fn get_i32(&self) -> (n: i32)
        requires
            self@.value.tag == TAG_INT,
        ensures
            n == self@.value.int32,
    {
        self.value.int32
    }
}

/// One step in the life of a lineage of handles.
#[derive(Clone, Copy, Debug, PartialEq, Eq, Structural)]
pub enum HandleOp {
    /// A handle takes over a reference that the engine had already counted.
    Adopt,
    /// A handle takes a new reference to a live value.
    Clone,
    /// A handle gives its reference back.
    Drop,
}

/// How often each step has happened in a lineage.
pub struct LineageCounts {
    pub adopts: nat,
    pub clones: nat,
    pub drops: nat,
}

impl LineageCounts {
    pub open spec fn zero() -> LineageCounts {
        LineageCounts { adopts: 0, clones: 0, drops: 0 }
    }

    /// The references that the lineage holds: what it took minus what it gave back.
    pub open spec fn live(self) -> int {
        self.adopts + self.clones - self.drops
    }

    /// A reference can only be given back while one is held.
    pub open spec fn permits(self, op: HandleOp) -> bool {
        op == HandleOp::Drop ==> self.live() > 0
    }

    pub open spec fn step(self, op: HandleOp) -> LineageCounts {
        match op {
            HandleOp::Adopt => LineageCounts { adopts: self.adopts + 1, ..self },
            HandleOp::Clone => LineageCounts { clones: self.clones + 1, ..self },
            HandleOp::Drop => LineageCounts { drops: self.drops + 1, ..self },
        }
    }
}

/// The counters after the steps `ops` in turn, starting from nothing; `None`
/// if one of them gives back a reference that is not held.
pub open spec fn replay(ops: Seq<HandleOp>) -> Option<LineageCounts>
    decreases ops.len(),
{
    if ops.len() == 0 {
        Some(LineageCounts::zero())
    } else {
        match replay(ops.drop_last()) {
            Some(counts) => if counts.permits(ops.last()) {
                Some(counts.step(ops.last()))
            } else {
                None
            },
            None => None,
        }
    }
}

/// How often `op` occurs in `ops`.
pub open spec fn occurrences(ops: Seq<HandleOp>, op: HandleOp) -> nat
    decreases ops.len(),
{
    if ops.len() == 0 {
        0
    } else {
        occurrences(ops.drop_last(), op) + if ops.last() == op {
            1nat
        } else {
            0nat
        }
    }
}

/// For every sequence of steps that a lineage accepts, the references it
/// holds are the adopts plus the clones minus the drops of the sequence, and
/// that number is not negative.
pub proof fn lemma_refcount_delta(ops: Seq<HandleOp>)
    requires
        replay(ops) is Some,
    ensures
        replay(ops)->0.adopts == occurrences(ops, HandleOp::Adopt),
        replay(ops)->0.clones == occurrences(ops, HandleOp::Clone),
        replay(ops)->0.drops == occurrences(ops, HandleOp::Drop),
        replay(ops)->0.live() == occurrences(ops, HandleOp::Adopt) + occurrences(
            ops,
            HandleOp::Clone,
        ) - occurrences(ops, HandleOp::Drop),
        replay(ops)->0.live() >= 0,
    decreases ops.len(),
{
    if ops.len() > 0 {
        lemma_refcount_delta(ops.drop_last());
    }
}

/// A sequence of steps is accepted exactly if none of its prefixes has more
/// drops than adopts and clones together.
pub proof fn lemma_replay_accepts(ops: Seq<HandleOp>)
    ensures
        replay(ops) is Some <==> forall|n: int|
            0 <= n <= ops.len() ==> #[trigger] occurrences(ops.take(n), HandleOp::Drop)
                <= occurrences(ops.take(n), HandleOp::Adopt) + occurrences(
                ops.take(n),
                HandleOp::Clone,
            ),
    decreases ops.len(),
{
    let balanced = |s: Seq<HandleOp>|
        occurrences(s, HandleOp::Drop) <= occurrences(s, HandleOp::Adopt) + occurrences(
            s,
            HandleOp::Clone,
        );
    assert(ops.take(ops.len() as int) =~= ops);
    if ops.len() == 0 {
        assert forall|n: int| 0 <= n <= ops.len() implies balanced(#[trigger] ops.take(n)) by {
            assert(ops.take(n) =~= ops);
        }
    } else {
        let init = ops.drop_last();
        lemma_replay_accepts(init);
        assert forall|n: int| 0 <= n <= init.len() implies #[trigger] init.take(n) == ops.take(
            n,
        ) by {
            assert(init.take(n) =~= ops.take(n));
        }
        assert(ops.take(ops.len() - 1) =~= init);
        if replay(init) is Some {
            lemma_refcount_delta(init);
        }
        if replay(ops) is Some {
            lemma_refcount_delta(ops);
            assert forall|n: int| 0 <= n <= ops.len() implies balanced(#[trigger] ops.take(n)) by {
                if n < ops.len() {
                    assert(init.take(n) == ops.take(n));
                    assert(balanced(init.take(n)));
                }
            }
        }
        if forall|n: int| 0 <= n <= ops.len() ==> balanced(#[trigger] ops.take(n)) {
            assert forall|n: int| 0 <= n <= init.len() implies balanced(#[trigger] init.take(n)) by {
                assert(init.take(n) == ops.take(n));
                assert(balanced(ops.take(n)));
            }
            assert(replay(init) is Some);
            assert(balanced(ops.take(ops.len() as int)));
        }
    }
}

/// The reference accounting of the handles to one engine value.
pub struct HandleLineage {
    value: JSValue,
    adopts: u64,
    clones: u64,
    drops: u64,
    history: Ghost<Seq<HandleOp>>,
}

impl View for HandleLineage {
    type V = LineageCounts;

    closed spec fn view(&self) -> LineageCounts {
        LineageCounts {
            adopts: self.adopts as nat,
            clones: self.clones as nat,
            drops: self.drops as nat,
        }
    }
}

impl HandleLineage {
    /// The counters are those of the steps that were counted, and the
    /// references taken fit a `u64`.
    #[verifier::type_invariant]
    spec fn counts_its_history(self) -> bool {
        &&& replay(self.history@) == Some(self@)
        &&& self.adopts + self.clones <= u64::MAX
    }

    /// The steps that were counted, in their order. Steps on immediate
    /// values, which have no reference count, are not among them.
    pub closed spec fn history(&self) -> Seq<HandleOp> {
        self.history@
    }

    /// The engine value that the handles of this lineage refer to.
    pub closed spec fn value(&self) -> JSValue {
        self.value
    }

    /// Whether `counts` can take one more step `op`: the references taken
    /// over the whole life of a lineage are counted in a `u64`.
    pub open spec fn in_range(counts: LineageCounts, op: HandleOp) -> bool {
        op != HandleOp::Drop ==> counts.adopts + counts.clones < u64::MAX
    }

    /// A lineage for `value` in which nothing has happened yet.
    pub fn new(value: JSValue) -> (lineage: HandleLineage)
        ensures
            lineage.value() == value,
            lineage@ == LineageCounts::zero(),
            lineage.history() == Seq::<HandleOp>::empty(),
    {
        HandleLineage { value, adopts: 0, clones: 0, drops: 0, history: Ghost(Seq::empty()) }
    }

    pub fn get_value(&self) -> (value: JSValue)
        ensures
            value == self.value(),
    {
        self.value
    }

    /// The references that the handles of this lineage hold at the moment:
    /// the adopts plus the clones minus the drops of its history.
    pub fn get_ref_count(&self) -> (count: u64)
        ensures
            count == self@.live(),
            count == occurrences(self.history(), HandleOp::Adopt) + occurrences(
                self.history(),
                HandleOp::Clone,
            ) - occurrences(self.history(), HandleOp::Drop),
            replay(self.history()) == Some(self@),
    {
        proof {
            use_type_invariant(self);
            lemma_refcount_delta(self.history@);
        }
        self.adopts + self.clones - self.drops
    }

    /// Counts one step that takes a reference, if the value is reference
    /// counted at all.
    fn take(&mut self, op: HandleOp) -> (r: Result<(), EsError>)
        requires
            op != HandleOp::Drop,
        ensures
            final(self).value() == old(self).value(),
            !has_ref_count(old(self).value().tag) ==> r is Ok && final(self)@ == old(self)@
                && final(self).history() == old(self).history(),
            has_ref_count(old(self).value().tag) && Self::in_range(old(self)@, op) ==> r is Ok
                && final(self)@ == old(self)@.step(op) && final(self).history() == old(
                self,
            ).history().push(op),
            has_ref_count(old(self).value().tag) && !Self::in_range(old(self)@, op) ==> r is Err
                && final(self)@ == old(self)@ && final(self).history() == old(self).history(),
            r matches Err(e) ==> e@ == refcount_violation("reference count out of range"@),
    {
        proof {
            use_type_invariant(&*self);
            lemma_refcount_delta(self.history@);
        }
        if self.value.tag >= 0 {
            return Ok(());
        }
        if self.adopts + self.clones == u64::MAX {
            return Err(out_of_range());
        }
        let ghost steps = self.history@.push(op);
        proof {
            assert(steps.drop_last() =~= self.history@);
        }
        match op {
            HandleOp::Adopt => {
                *self = HandleLineage {
                    value: self.value,
                    adopts: self.adopts + 1,
                    clones: self.clones,
                    drops: self.drops,
                    history: Ghost(steps),
                };
            },
            _ => {
                *self = HandleLineage {
                    value: self.value,
                    adopts: self.adopts,
                    clones: self.clones + 1,
                    drops: self.drops,
                    history: Ghost(steps),
                };
            },
        }
        Ok(())
    }

    /// Makes the handle that takes over a reference which the engine has
    /// already counted for it, as for a freshly constructed value.
    ///
    /// No call to the engine goes with this step. An immediate value has no
    /// reference count: its handle is made and the counters stay.
    pub fn adopt(&mut self, context: Option<&str>, label: &str) -> (r: Result<JSValueRef, EsError>)
        ensures
            final(self).value() == old(self).value(),
            r is Ok <==> (has_ref_count(old(self).value().tag) ==> Self::in_range(
                old(self)@,
                HandleOp::Adopt,
            )),
            r matches Ok(handle) ==> handle@ == (JSValueRefView {
                context: opt_str(context),
                value: old(self).value(),
                ref_ct_decr_on_drop: true,
                label: label@,
            }),
            r is Ok && has_ref_count(old(self).value().tag) ==> final(self)@ == old(self)@.step(
                HandleOp::Adopt,
            ) && final(self).history() == old(self).history().push(HandleOp::Adopt),
            r is Err || !has_ref_count(old(self).value().tag) ==> final(self)@ == old(self)@
                && final(self).history() == old(self).history(),
            r matches Err(e) ==> e@ == refcount_violation("reference count out of range"@),
    {
        match self.take(HandleOp::Adopt) {
            Ok(()) => Ok(JSValueRef::new(context, self.value, true, label)),
            Err(e) => Err(e),
        }
    }

    /// Makes a handle to a value that someone else owns, as when a property
    /// is read. The handle takes a reference of its own, which the caller
    /// has the engine count.
    pub fn borrow_and_clone(&mut self, context: Option<&str>, label: &str) -> (r: Result<
        JSValueRef,
        EsError,
    >)
        ensures
            final(self).value() == old(self).value(),
            r is Ok <==> (has_ref_count(old(self).value().tag) ==> Self::in_range(
                old(self)@,
                HandleOp::Clone,
            )),
            r matches Ok(handle) ==> handle@ == (JSValueRefView {
                context: opt_str(context),
                value: old(self).value(),
                ref_ct_decr_on_drop: true,
                label: label@,
            }),
            r is Ok && has_ref_count(old(self).value().tag) ==> final(self)@ == old(self)@.step(
                HandleOp::Clone,
            ) && final(self).history() == old(self).history().push(HandleOp::Clone),
            r is Err || !has_ref_count(old(self).value().tag) ==> final(self)@ == old(self)@
                && final(self).history() == old(self).history(),
            r matches Err(e) ==> e@ == refcount_violation("reference count out of range"@),
    {
        match self.take(HandleOp::Clone) {
            Ok(()) => Ok(JSValueRef::new(context, self.value, true, label)),
            Err(e) => Err(e),
        }
    }

    /// Makes a second handle from `handle`. The new handle takes a reference
    /// of its own, which the caller has the engine count. Equality tests and
    /// moves of a handle are no step of the lineage.
    ///
    /// A handle to another value than the lineage's is refused.
    pub fn clone_handle(&mut self, handle: &JSValueRef) -> (r: Result<JSValueRef, EsError>)
        ensures
            final(self).value() == old(self).value(),
            r is Ok <==> handle@.value == old(self).value() && (has_ref_count(
                old(self).value().tag,
            ) ==> Self::in_range(old(self)@, HandleOp::Clone)),
            r matches Ok(copy) ==> copy@ == (JSValueRefView {
                ref_ct_decr_on_drop: true,
                ..handle@
            }),
            r is Ok && has_ref_count(old(self).value().tag) ==> final(self)@ == old(self)@.step(
                HandleOp::Clone,
            ) && final(self).history() == old(self).history().push(HandleOp::Clone),
            r is Err || !has_ref_count(old(self).value().tag) ==> final(self)@ == old(self)@
                && final(self).history() == old(self).history(),
            r matches Err(e) ==> e@ == refcount_violation(
                if handle@.value == old(self).value() {
                    "reference count out of range"@
                } else {
                    "handle of another lineage"@
                },
            ),
    {
        if !same_value(handle.borrow_value(), &self.value) {
            return Err(foreign_handle());
        }
        match self.take(HandleOp::Clone) {
            Ok(()) => Ok(
                JSValueRef::new(handle.get_context_id(), self.value, true, handle.get_label()),
            ),
            Err(e) => Err(e),
        }
    }

    /// Drops `handle`. If the handle owns a reference, the lineage gives it
    /// back, and the caller has the engine count that; the result says
    /// whether it was the last reference that the lineage held, so that the
    /// engine frees the value unless others hold it too.
    ///
    /// Giving back a reference while the lineage holds none is refused: the
    /// count never goes below zero.
    pub fn drop_handle(&mut self, handle: JSValueRef) -> (r: Result<bool, EsError>)
        ensures
            final(self).value() == old(self).value(),
            r is Ok <==> handle@.value == old(self).value() && (handle@.owns_reference()
                ==> old(self)@.live() > 0),
            r is Ok && handle@.owns_reference() ==> final(self)@ == old(self)@.step(HandleOp::Drop)
                && final(self).history() == old(self).history().push(HandleOp::Drop),
            r is Err || !handle@.owns_reference() ==> final(self)@ == old(self)@ && final(self).history() == old(self).history(),
            r matches Ok(last) ==> last == (handle@.owns_reference() && final(self)@.live() == 0),
            r matches Err(e) ==> e@ == refcount_violation(
                if handle@.value == old(self).value() {
                    "reference count would drop below zero"@
                } else {
                    "handle of another lineage"@
                },
            ),
    {
        proof {
            use_type_invariant(&*self);
            lemma_refcount_delta(self.history@);
        }
        if !same_value(handle.borrow_value(), &self.value) {
            return Err(foreign_handle());
        }
        if !handle.owns_reference() {
            return Ok(false);
        }
        let taken: u64 = self.adopts + self.clones;
        if taken == self.drops {
            return Err(
                EsError::new(
                    ErrorKind::RefcountViolation,
                    String::from_str("reference count would drop below zero"),
                ),
            );
        }
        let ghost steps = self.history@.push(HandleOp::Drop);
        proof {
            assert(steps.drop_last() =~= self.history@);
        }
        *self = HandleLineage {
            value: self.value,
            adopts: self.adopts,
            clones: self.clones,
            drops: self.drops + 1,
            history: Ghost(steps),
        };
        Ok(taken == self.drops)
    }
}

/// The error of a step that the accounting refuses.
pub open spec fn refcount_violation(message: Seq<char>) -> EsErrorView {
    EsErrorView { kind: ErrorKind::RefcountViolation, message, stack: Seq::<char>::empty() }
}

fn out_of_range() -> (e: EsError)
    ensures
        e@ == refcount_violation("reference count out of range"@),
{
    EsError::new(ErrorKind::RefcountViolation, String::from_str("reference count out of range"))
}

fn foreign_handle() -> (e: EsError)
    ensures
        e@ == refcount_violation("handle of another lineage"@),
{
    EsError::new(ErrorKind::RefcountViolation, String::from_str("handle of another lineage"))
}

fn same_value(a: &JSValue, b: &JSValue) -> (same: bool)
    ensures
        same == (*a == *b),
{
    a.tag == b.tag && a.int32 == b.int32 && a.ptr == b.ptr
}

} // verus!
