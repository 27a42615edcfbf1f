//! The engine as the host sees it: the registry of contexts, the chain of
//! module loaders, and the hooks that initialise every context.
//!
//! Loaders and hooks are supplied by the host. What a call of one of them may
//! return is described by a relation that the implementation chooses (the
//! `.._outcome` functions of the traits); the contracts of this module state
//! their results over those relations, so they hold of every
//! implementation, also of one that answers differently from call to call.
//!
//! The engine itself is out of reach of this module. Where the engine has
//! work to do in the middle of an operation, the operation is cut there: a
//! function returns what the engine is to do next, and takes what the
//! engine answered as an argument of the call that follows.

pub mod hooks;
pub mod imports;
pub mod jobs;
pub mod loaders;

pub use self::hooks::ContextInitHook;
pub use self::hooks::ContextInitHookAdapter;
pub use self::imports::ImportStep;
pub use self::jobs::DrainEvent;
pub use self::jobs::DrainStep;
pub use self::jobs::JobOutcome;
pub use self::loaders::ModuleLoader;
pub use self::loaders::ModuleLoaderEntry;
pub use self::loaders::NativeModuleLoader;
pub use self::loaders::NativeModuleLoaderAdapter;
pub use self::loaders::ScriptModuleLoader;
pub use self::loaders::ScriptModuleLoaderAdapter;

use vstd::prelude::*;
use vstd::string::*;
use crate::eserror::EsError;
use crate::eserror::EsErrorView;
use crate::eserror::ErrorKind;
use crate::esscript::EsScript;
use crate::quickjs_utils::modules::compiled_result_view;
use crate::quickjs_utils::modules::has_nul;
use crate::quickjs_utils::modules::script_loaded_result;
use crate::quickjs_utils::modules::script_module_loaded;
use crate::quickjs_utils::modules::js_module_loader;
use crate::quickjs_utils::modules::js_module_normalize;
use crate::quickjs_utils::modules::loaded_view;
use crate::quickjs_utils::modules::other_error;
use crate::quickjs_utils::modules::path_view;
use crate::quickjs_utils::modules::ModuleDef;
use crate::quickjs_utils::modules::ModuleDefView;
use crate::quickjs_utils::modules::NativeModuleDef;
use crate::quickjscontext::lemma_with_module_well_formed;
use crate::quickjscontext::QuickJsContext;
use crate::quickjscontext::QuickJsContextView;
use crate::valueref::JSValueRef;
use self::hooks::hook_outcome;
use self::hooks::hooks_outcome;
use self::imports::compiled_into;
use self::imports::first_claim;
use self::imports::import_outcome;
use self::imports::import_view;
use self::imports::init_outcome;
use self::imports::initialised_into;
use self::imports::loaded_into;
use self::imports::native_initialised_into;
use self::imports::normalized_into;
use self::imports::position_view;
use self::imports::ImportStepView;
use self::loaders::unit_view;

verus! {

/// The decimal digit `d` as text.
pub open spec fn digit_text(d: nat) -> Seq<char> {
    if d == 0 {
        "0"@
    } else if d == 1 {
        "1"@
    } else if d == 2 {
        "2"@
    } else if d == 3 {
        "3"@
    } else if d == 4 {
        "4"@
    } else if d == 5 {
        "5"@
    } else if d == 6 {
        "6"@
    } else if d == 7 {
        "7"@
    } else if d == 8 {
        "8"@
    } else {
        "9"@
    }
}

/// The number `n` in decimal notation.
pub open spec fn decimal_text(n: nat) -> Seq<char>
    decreases n,
{
    if n < 10 {
        digit_text(n)
    } else {
        decimal_text(n / 10) + digit_text(n % 10)
    }
}

/// The id of the engine that the thread with the given number owns.
pub open spec fn runtime_id(thread_number: nat) -> Seq<char> {
    "q_"@ + decimal_text(thread_number)
}

fn digit_str(d: usize) -> (text: &'static str)
    requires
        d < 10,
    ensures
        text@ == digit_text(d as nat),
{
    if d == 0 {
        "0"
    } else if d == 1 {
        "1"
    } else if d == 2 {
        "2"
    } else if d == 3 {
        "3"
    } else if d == 4 {
        "4"
    } else if d == 5 {
        "5"
    } else if d == 6 {
        "6"
    } else if d == 7 {
        "7"
    } else if d == 8 {
        "8"
    } else {
        "9"
    }
}

/// Appends `n` in decimal notation to `text`.
fn append_decimal(text: String, n: usize) -> (r: String)
    ensures
        r@ == text@ + decimal_text(n as nat),
    decreases n,
{
    if n < 10 {
        text.concat(digit_str(n))
    } else {
        let head = append_decimal(text, n / 10);
        let r = head.concat(digit_str(n % 10));
        assert(r@ =~= text@ + decimal_text(n as nat));
        r
    }
}

/// Asks `thread_id::get` for the number of the calling thread. The number
/// depends on the thread and on the platform; nothing is claimed of it.
#[verifier::external_body]
fn current_thread_number() -> (n: usize) {
    thread_id::get()
}

/// What the embedding program has to do to the engine, in the given order,
/// when a context is dropped or the engine ends.
#[derive(Debug)]
pub enum EngineStep {
    /// Run a full collection pass.
    RunGc,
    /// Free the native resources of the context with this id.
    FreeContext(String),
    /// Release the engine's native handle. No context is left by then.
    FreeRuntime,
}

/// The mathematical content of an [`EngineStep`].
pub enum EngineStepView {
    RunGc,
    FreeContext(Seq<char>),
    FreeRuntime,
}

impl View for EngineStep {
    type V = EngineStepView;

    open spec fn view(&self) -> EngineStepView {
        match self {
            EngineStep::RunGc => EngineStepView::RunGc,
            EngineStep::FreeContext(id) => EngineStepView::FreeContext(id@),
            EngineStep::FreeRuntime => EngineStepView::FreeRuntime,
        }
    }
}

/// The views of a list of steps.
pub open spec fn steps_view(steps: Seq<EngineStep>) -> Seq<EngineStepView> {
    Seq::new(steps.len(), |i: int| steps[i]@)
}

/// The releases of the contexts of `contexts` whose drop has not begun, in
/// the order of the contexts.
pub open spec fn release_steps(contexts: Seq<QuickJsContext>) -> Seq<EngineStepView>
    decreases contexts.len(),
{
    if contexts.len() == 0 {
        Seq::empty()
    } else {
        let before = release_steps(contexts.drop_last());
        if contexts.last()@.dropping {
            before
        } else {
            before.push(EngineStepView::FreeContext(contexts.last()@.id))
        }
    }
}

/// The error of [`QuickJsRuntime::create_context`] for an id in use.
pub open spec fn context_exists_error(id: Seq<char>) -> EsErrorView {
    EsErrorView {
        kind: ErrorKind::ContextExists,
        message: "context already exists: "@ + id,
        stack: Seq::<char>::empty(),
    }
}

/// The error of an operation on an id that the registry does not hold.
pub open spec fn context_not_found_error(id: Seq<char>) -> EsErrorView {
    EsErrorView {
        kind: ErrorKind::ContextNotFound,
        message: "no such context: "@ + id,
        stack: Seq::<char>::empty(),
    }
}

/// The ids of a list of contexts.
pub open spec fn ids_of(contexts: Seq<QuickJsContext>) -> Seq<Seq<char>> {
    Seq::new(contexts.len(), |i: int| contexts[i]@.id)
}

/// `i` is the first place in `ids` that holds `id`.
pub open spec fn first_index(ids: Seq<Seq<char>>, id: Seq<char>, i: int) -> bool {
    &&& 0 <= i < ids.len()
    &&& ids[i] == id
    &&& forall|j: int| 0 <= j < i ==> ids[j] != id
}

/// The engine's state on the host's side, as hooks see it: its id, its
/// contexts in the order of their creation, and the chain of module loaders
/// in the order of their registration.
pub struct QuickJsEngine {
    id: String,
    contexts: Vec<QuickJsContext>,
    pub(crate) module_loaders: Vec<ModuleLoaderEntry>,
}

impl QuickJsEngine {
    pub closed spec fn id(&self) -> Seq<char> {
        self.id@
    }

    /// The contexts in the order of their creation.
    pub closed spec fn contexts(&self) -> Seq<QuickJsContext> {
        self.contexts@
    }

    /// The module loaders in the order of their registration.
    pub closed spec fn loaders(&self) -> Seq<ModuleLoaderEntry> {
        self.module_loaders@
    }

    pub fn get_id(&self) -> (id: &str)
        ensures
            id@ == self.id(),
    {
        self.id.as_str()
    }

    /// The contexts in the order of their creation.
    pub fn get_contexts(&self) -> (contexts: &Vec<QuickJsContext>)
        ensures
            contexts@ == self.contexts(),
    {
        &self.contexts
    }

    /// The chain of module loaders in the order of their registration.
    pub fn get_module_loaders(&self) -> (loaders: &Vec<ModuleLoaderEntry>)
        ensures
            loaders@ == self.loaders(),
    {
        &self.module_loaders
    }
}

/// The engine's state together with the hooks that initialise its
/// contexts, in the order of their registration.
pub struct QuickJsRuntime {
    engine: QuickJsEngine,
    context_init_hooks: Vec<ContextInitHookAdapter>,
}

impl QuickJsRuntime {
    /// The engine's state, which the hooks are handed.
    pub closed spec fn engine(&self) -> QuickJsEngine {
        self.engine
    }

    pub open spec fn id(&self) -> Seq<char> {
        self.engine().id()
    }

    /// The contexts in the order of their creation.
    pub open spec fn contexts(&self) -> Seq<QuickJsContext> {
        self.engine().contexts()
    }

    /// The hooks in the order of their registration.
    pub closed spec fn hooks(&self) -> Seq<ContextInitHookAdapter> {
        self.context_init_hooks@
    }

    /// The module loaders in the order of their registration.
    pub open spec fn loaders(&self) -> Seq<ModuleLoaderEntry> {
        self.engine().loaders()
    }

    pub open spec fn context_ids(&self) -> Seq<Seq<char>> {
        ids_of(self.contexts())
    }

    pub open spec fn has_context_id(&self, id: Seq<char>) -> bool {
        self.context_ids().contains(id)
    }

    /// No two contexts have the same id, and no module table holds a path twice.
    pub open spec fn wf(&self) -> bool {
        &&& self.context_ids().no_duplicates()
        &&& forall|i: int|
            0 <= i < self.contexts().len() ==> (#[trigger] self.contexts()[i])@.well_formed()
    }

    /// The engine state of the thread with the given number: one context,
    /// `__main__`, no hooks and no loaders.
    pub fn new_for_thread(thread_number: usize) -> (q_js_rt: QuickJsRuntime)
        ensures
            q_js_rt.id() == runtime_id(thread_number as nat),
            q_js_rt.context_ids() == seq!["__main__"@],
            q_js_rt.contexts()[0]@.modules.len() == 0,
            !q_js_rt.contexts()[0]@.dropping,
            q_js_rt.hooks().len() == 0,
            q_js_rt.loaders().len() == 0,
            q_js_rt.wf(),
    {
        let id = append_decimal(String::from_str("q_"), thread_number);
        let mut contexts: Vec<QuickJsContext> = Vec::new();
        contexts.push(QuickJsContext::new(String::from_str("__main__")));
        let q_js_rt = QuickJsRuntime {
            engine: QuickJsEngine { id, contexts, module_loaders: Vec::new() },
            context_init_hooks: Vec::new(),
        };
        assert(q_js_rt.context_ids() =~= seq!["__main__"@]);
        q_js_rt
    }

    /// The engine state of the calling thread, see [`Self::new_for_thread`].
    pub fn new() -> (q_js_rt: QuickJsRuntime)
        ensures
            exists|thread_number: nat| q_js_rt.id() == #[trigger] runtime_id(thread_number),
            q_js_rt.context_ids() == seq!["__main__"@],
            q_js_rt.contexts()[0]@.modules.len() == 0,
            !q_js_rt.contexts()[0]@.dropping,
            q_js_rt.hooks().len() == 0,
            q_js_rt.loaders().len() == 0,
            q_js_rt.wf(),
    {
        let thread_number = current_thread_number();
        let q_js_rt = Self::new_for_thread(thread_number);
        assert(q_js_rt.id() == runtime_id(thread_number as nat));
        q_js_rt
    }

    pub fn get_id(&self) -> (id: &str)
        ensures
            id@ == self.id(),
    {
        self.engine.id.as_str()
    }

    /// The chain of module loaders in the order of their registration.
    pub fn get_module_loaders(&self) -> (loaders: &Vec<ModuleLoaderEntry>)
        ensures
            loaders@ == self.loaders(),
    {
        &self.engine.module_loaders
    }

    /// Adds a loader to the end of the chain.
    pub fn add_module_loader(&mut self, loader: ModuleLoaderEntry)
        ensures
            final(self).id() == old(self).id(),
            final(self).contexts() == old(self).contexts(),
            final(self).hooks() == old(self).hooks(),
            final(self).loaders() == old(self).loaders().push(loader),
    {
        self.engine.module_loaders.push(loader);
    }

    /// The position of the first context with the given id.
    fn find_context(&self, id: &str) -> (found: Option<usize>)
        ensures
            found is Some <==> self.has_context_id(id@),
            found matches Some(i) ==> first_index(self.context_ids(), id@, i as int),
    {
        let wanted = String::from_str(id);
        let mut i: usize = 0;
        while i < self.engine.contexts.len()
            invariant
                i <= self.contexts().len(),
                wanted@ == id@,
                forall|j: int| 0 <= j < i ==> self.context_ids()[j] != id@,
            decreases self.contexts().len() - i,
        {
            if String::from_str(self.engine.contexts[i].get_id()) == wanted {
                assert(self.context_ids()[i as int] == id@);
                return Some(i);
            }
            i = i + 1;
        }
        None
    }

    pub fn has_context(&self, id: &str) -> (found: bool)
        ensures
            found == self.has_context_id(id@),
    {
        self.find_context(id).is_some()
    }

    /// The context with the given id, if the registry holds one.
    pub fn opt_context(&self, id: &str) -> (q_ctx: Option<&QuickJsContext>)
        ensures
            q_ctx is Some <==> self.has_context_id(id@),
            q_ctx matches Some(c) ==> exists|i: int|
                first_index(self.context_ids(), id@, i) && *c == #[trigger] self.contexts()[i],
    {
        match self.find_context(id) {
            Some(i) => {
                assert(self.contexts()[i as int] == self.engine.contexts[i as int]);
                Some(&self.engine.contexts[i])
            },
            None => None,
        }
    }

    /// The context with the given id, which the registry must hold.
    pub fn get_context(&self, id: &str) -> (q_ctx: &QuickJsContext)
        requires
            self.has_context_id(id@),
        ensures
            exists|i: int|
                first_index(self.context_ids(), id@, i) && *q_ctx == #[trigger] self.contexts()[i],
    {
        match self.opt_context(id) {
            Some(q_ctx) => q_ctx,
            None => unreached(),
        }
    }

    /// The context that every engine starts with, unless it was dropped.
    pub fn get_main_context(&self) -> (q_ctx: &QuickJsContext)
        requires
            self.has_context_id("__main__"@),
        ensures
            exists|i: int|
                first_index(self.context_ids(), "__main__"@, i) && *q_ctx
                    == #[trigger] self.contexts()[i],
    {
        self.get_context("__main__")
    }

    /// The ids of the contexts in the order of their creation.
    pub fn get_context_ids(&self) -> (ids: Vec<String>)
        ensures
            crate::quickjs_utils::modules::names_view(ids@) == self.context_ids(),
    {
        let mut ids: Vec<String> = Vec::new();
        let mut i: usize = 0;
        while i < self.engine.contexts.len()
            invariant
                i <= self.contexts().len(),
                ids@.len() == i,
                forall|j: int| 0 <= j < i ==> ids@[j]@ == self.context_ids()[j],
            decreases self.contexts().len() - i,
        {
            ids.push(String::from_str(self.engine.contexts[i].get_id()));
            i = i + 1;
        }
        assert(crate::quickjs_utils::modules::names_view(ids@) =~= self.context_ids());
        ids
    }

    /// Runs `hook` against every context in the order of their creation and
    /// then registers it for the contexts to come.
    ///
    /// Where the hook fails for a context, the error is returned at once: the
    /// contexts after that one are not visited and the hook is not
    /// registered, while the contexts before it keep what the hook did to
    /// them.
    pub fn add_context_init_hook(&mut self, hook: ContextInitHookAdapter) -> (r: Result<(), EsError>)
        ensures
            final(self).id() == old(self).id(),
            final(self).contexts() == old(self).contexts(),
            final(self).loaders() == old(self).loaders(),
            final(self).engine() == old(self).engine(),
            hook_outcome(hook, &old(self).engine(), old(self).contexts(), unit_view(r)),
            r is Ok ==> final(self).hooks() == old(self).hooks().push(hook),
            r is Err ==> final(self).hooks() == old(self).hooks(),
    {
        let mut i: usize = 0;
        while i < self.engine.contexts.len()
            invariant
                *self == *old(self),
                i <= self.contexts().len(),
                forall|j: int|
                    0 <= j < i ==> hook.outcome(
                        &self.engine(),
                        #[trigger] &self.contexts()[j],
                        Ok(()),
                    ),
            decreases self.contexts().len() - i,
        {
            match hook.run(&self.engine, &self.engine.contexts[i]) {
                Ok(()) => {},
                Err(e) => {
                    assert(hook.outcome(&self.engine(), &self.contexts()[i as int], Err(e@)));
                    return Err(e);
                },
            }
            i = i + 1;
        }
        self.context_init_hooks.push(hook);
        Ok(())
    }

    /// Creates a context under a new id and runs every registered hook
    /// against it, in the order of registration.
    ///
    /// An id in use is refused and nothing changes. The first hook that
    /// fails ends the run and its error is returned; the context stays
    /// registered even then. The hooks are handed the engine's state as it
    /// is with the new context in the registry.
    pub fn create_context(&mut self, id: &str) -> (r: Result<(), EsError>)
        ensures
            final(self).id() == old(self).id(),
            final(self).hooks() == old(self).hooks(),
            final(self).loaders() == old(self).loaders(),
            old(self).wf() ==> final(self).wf(),
            old(self).has_context_id(id@) ==> final(self).contexts() == old(self).contexts() && (
            r matches Err(e) && e@ == context_exists_error(id@)),
            !old(self).has_context_id(id@) ==> {
                &&& final(self).contexts().len() == old(self).contexts().len() + 1
                &&& final(self).contexts().drop_last() == old(self).contexts()
                &&& final(self).contexts().last()@.id == id@
                &&& final(self).contexts().last()@.modules.len() == 0
                &&& !final(self).contexts().last()@.dropping
                &&& hooks_outcome(
                    old(self).hooks(),
                    &final(self).engine(),
                    &final(self).contexts().last(),
                    unit_view(r),
                )
            },
    {
        if self.has_context(id) {
            let message = String::from_str("context already exists: ").concat(id);
            return Err(EsError::new(ErrorKind::ContextExists, message));
        }
        let ghost before = self.contexts();
        self.engine.contexts.push(QuickJsContext::new(String::from_str(id)));
        let last: usize = self.engine.contexts.len() - 1;
        assert(self.contexts().drop_last() =~= before);
        proof {
            let ids = self.context_ids();
            assert(ids.drop_last() =~= ids_of(before));
            if old(self).wf() {
                assert forall|i: int, j: int| 0 <= i < j < ids.len() implies ids[i] != ids[j] by {
                    if j < before.len() {
                        assert(ids_of(before)[i] != ids_of(before)[j]);
                    } else {
                        assert(ids_of(before)[i] != id@);
                    }
                }
                assert forall|i: int| 0 <= i < self.contexts().len() implies (
                #[trigger] self.contexts()[i])@.well_formed() by {
                    if i < before.len() {
                        assert(self.contexts()[i] == before[i]);
                    }
                }
            }
        }
        let ghost pushed = self.engine();
        let mut j: usize = 0;
        while j < self.context_init_hooks.len()
            invariant
                j <= self.hooks().len(),
                last == self.contexts().len() - 1,
                self.engine() == pushed,
                self.id() == old(self).id(),
                self.hooks() == old(self).hooks(),
                self.loaders() == old(self).loaders(),
                old(self).wf() ==> self.wf(),
                !old(self).has_context_id(id@),
                self.contexts().len() == old(self).contexts().len() + 1,
                self.contexts().drop_last() == old(self).contexts(),
                self.contexts().last()@.id == id@,
                self.contexts().last()@.modules.len() == 0,
                !self.contexts().last()@.dropping,
                forall|k: int|
                    0 <= k < j ==> (#[trigger] self.hooks()[k]).outcome(
                        &self.engine(),
                        &self.contexts().last(),
                        Ok(()),
                    ),
            decreases self.hooks().len() - j,
        {
            match self.context_init_hooks[j].run(&self.engine, &self.engine.contexts[last]) {
                Ok(()) => {},
                Err(e) => {
                    assert(self.hooks()[j as int].outcome(
                        &self.engine(),
                        &self.contexts().last(),
                        Err(e@),
                    ));
                    return Err(e);
                },
            }
            j = j + 1;
        }
        Ok(())
    }

    /// Ends the engine: the steps come back that release the contexts, in
    /// the order of their creation, and then the engine's native handle. A
    /// context whose drop has begun is left out: its release was ordered
    /// when the drop began.
    pub fn free(self) -> (steps: Vec<EngineStep>)
        ensures
            steps_view(steps@) == release_steps(self.contexts()).push(EngineStepView::FreeRuntime),
    {
        let mut steps: Vec<EngineStep> = Vec::new();
        let mut i: usize = 0;
        assert(self.contexts().take(0) =~= Seq::<QuickJsContext>::empty());
        assert(steps_view(steps@) =~= release_steps(self.contexts().take(0)));
        while i < self.engine.contexts.len()
            invariant
                i <= self.contexts().len(),
                steps_view(steps@) == release_steps(self.contexts().take(i as int)),
            decreases self.contexts().len() - i,
        {
            let ghost before = steps_view(steps@);
            let ghost prefix = self.contexts().take(i + 1);
            proof {
                assert(prefix.drop_last() =~= self.contexts().take(i as int));
                assert(prefix.last() == self.contexts()[i as int]);
            }
            if !self.engine.contexts[i].is_dropping() {
                steps.push(EngineStep::FreeContext(String::from_str(self.engine.contexts[i].get_id())));
                assert(steps_view(steps@) =~= before.push(
                    EngineStepView::FreeContext(self.contexts()[i as int]@.id),
                ));
            }
            i = i + 1;
        }
        assert(self.contexts().take(i as int) =~= self.contexts());
        let ghost before = steps_view(steps@);
        steps.push(EngineStep::FreeRuntime);
        assert(steps_view(steps@) =~= before.push(EngineStepView::FreeRuntime));
        steps
    }

    /// Drops the context with the given id, which the registry must hold.
    ///
    /// A drop takes two calls, with the engine's work between them. The
    /// first call marks the context as dropping and returns the steps that
    /// come before its removal: a collection pass, then the release of the
    /// context's native resources. The context is still in the registry
    /// while these steps are performed. The second call finds the context
    /// dropping, removes it from the registry and returns the step that
    /// comes after the removal: a second collection pass, which collects
    /// the cycles that only the context kept alive.
    pub fn drop_context(&mut self, id: &str) -> (steps: Vec<EngineStep>)
        requires
            old(self).has_context_id(id@),
        ensures
            final(self).id() == old(self).id(),
            final(self).hooks() == old(self).hooks(),
            final(self).loaders() == old(self).loaders(),
            old(self).wf() ==> final(self).wf(),
            exists|i: int|
                {
                    &&& #[trigger] first_index(old(self).context_ids(), id@, i)
                    &&& !old(self).contexts()[i]@.dropping ==> {
                        &&& final(self).contexts().len() == old(self).contexts().len()
                        &&& forall|j: int|
                            0 <= j < old(self).contexts().len() && j != i ==> final(self).contexts()[j] == old(self).contexts()[j]
                        &&& final(self).contexts()[i]@ == (QuickJsContextView {
                            dropping: true,
                            ..old(self).contexts()[i]@
                        })
                        &&& steps_view(steps@) == seq![
                            EngineStepView::RunGc,
                            EngineStepView::FreeContext(id@),
                        ]
                    }
                    &&& old(self).contexts()[i]@.dropping ==> {
                        &&& final(self).contexts() == old(self).contexts().remove(i)
                        &&& steps_view(steps@) == seq![EngineStepView::RunGc]
                        &&& old(self).wf() ==> !final(self).has_context_id(id@)
                    }
                },
    {
        let i = match self.find_context(id) {
            Some(i) => i,
            None => unreached(),
        };
        let ghost before = self.contexts();
        let mut steps: Vec<EngineStep> = Vec::new();
        steps.push(EngineStep::RunGc);
        if self.engine.contexts[i].is_dropping() {
            let _ = self.engine.contexts.remove(i);
            proof {
                let ids = self.context_ids();
                assert(ids =~= ids_of(before).remove(i as int));
                if old(self).wf() {
                    assert forall|a: int, b: int| 0 <= a < b < ids.len() implies ids[a]
                        != ids[b] by {
                        let a0 = if a < i { a } else { a + 1 };
                        let b0 = if b < i { b } else { b + 1 };
                        assert(ids_of(before)[a0] != ids_of(before)[b0]);
                    }
                    assert forall|k: int| 0 <= k < ids.len() implies ids[k] != id@ by {
                        let k0 = if k < i { k } else { k + 1 };
                        assert(ids_of(before)[k0] != ids_of(before)[i as int]);
                    }
                    assert forall|k: int| 0 <= k < self.contexts().len() implies (
                    #[trigger] self.contexts()[k])@.well_formed() by {
                        let k0 = if k < i { k } else { k + 1 };
                        assert(self.contexts()[k] == before[k0]);
                    }
                }
                assert(steps_view(steps@) =~= seq![EngineStepView::RunGc]);
            }
        } else {
            let mut q_ctx = self.engine.contexts.remove(i);
            q_ctx.begin_drop();
            self.engine.contexts.insert(i, q_ctx);
            steps.push(EngineStep::FreeContext(String::from_str(id)));
            proof {
                let after = self.contexts();
                assert(after[i as int] == q_ctx);
                assert forall|j: int| 0 <= j < before.len() && j != i implies after[j]
                    == before[j] by {}
                assert(self.context_ids() =~= old(self).context_ids());
                if old(self).wf() {
                    assert forall|k: int| 0 <= k < after.len() implies (#[trigger] after[k])@
                        .well_formed() by {
                        if k != i {
                            assert(after[k] == before[k]);
                        } else {
                            assert(after[k]@.modules == before[k]@.modules);
                        }
                    }
                }
                assert(steps_view(steps@) =~= seq![
                    EngineStepView::RunGc,
                    EngineStepView::FreeContext(id@),
                ]);
            }
        }
        steps
    }
}

/// The third phase of an import: the engine has made the module object of a
/// native module and asks for its export values.
///
/// The loaders are asked in order whether they have the module; the first
/// that does assigns the values. Its error comes back as the error to report
/// into the context, worded with the module's name and the cause.
pub fn native_module_init(
    q_js_rt: &QuickJsRuntime,
    q_ctx: &QuickJsContext,
    module: &mut NativeModuleDef,
) -> (r: Result<(), EsError>)
    ensures
        init_outcome(q_js_rt.loaders(), q_ctx, old(module)@, final(module)@, unit_view(r)),
{
    let module_name = String::from_str(module.get_name());
    let loaders = q_js_rt.get_module_loaders();
    let mut i: usize = 0;
    while i < loaders.len()
        invariant
            i <= loaders@.len(),
            loaders@ == q_js_rt.loaders(),
            *module == *old(module),
            module_name@ == module@.name,
            forall|j: int|
                0 <= j < i ==> (#[trigger] loaders@[j]).has_module_outcome(
                    q_ctx,
                    module_name@,
                    false,
                ),
        decreases loaders@.len() - i,
    {
        if loaders[i].has_module(q_ctx, module_name.as_str()) {
            assert(first_claim(loaders@, q_ctx, module_name@, i as int));
            return match loaders[i].init_module(q_ctx, module) {
                Ok(()) => {
                    assert(loaders@[i as int].init_module_outcome(
                        q_ctx,
                        old(module)@,
                        module@,
                        Ok(()),
                    ));
                    Ok(())
                },
                Err(e) => {
                    assert(loaders@[i as int].init_module_outcome(
                        q_ctx,
                        old(module)@,
                        module@,
                        Err(e@),
                    ));
                    let text = e.to_text();
                    let message = String::from_str("Failed to init native module: ").concat(
                        module_name.as_str(),
                    ).concat(" caused by ").concat(text.as_str());
                    Err(EsError::new(ErrorKind::ModuleInitFailed, message))
                },
            };
        }
        i = i + 1;
    }
    Ok(())
}

/// What an import found for a request.
enum Resolution {
    /// The module is in the table, at this position.
    Cached(usize),
    /// The native module was supplied under this absolute path and
    /// initialised, and is to be added.
    Fresh(String, ModuleDef),
    /// The source of the script module was supplied under this absolute
    /// path and is to be compiled.
    Compile(String, EsScript),
}

impl QuickJsRuntime {
    /// Runs the three phases of an import against a context, without
    /// touching the context.
    fn resolve_import(&self, q_ctx: &QuickJsContext, ref_path: &str, path: &str) -> (r: Result<
        Resolution,
        EsError,
    >)
        ensures
            match r {
                Ok(Resolution::Cached(position)) => import_outcome(
                    self.loaders(),
                    q_ctx,
                    ref_path@,
                    path@,
                    q_ctx@,
                    Ok(ImportStepView::Module(position as int)),
                ),
                Ok(Resolution::Fresh(absolute_path, def)) => !q_ctx@.has_module(absolute_path@)
                    && import_outcome(
                    self.loaders(),
                    q_ctx,
                    ref_path@,
                    path@,
                    q_ctx@.with_module(absolute_path@, def@),
                    Ok(ImportStepView::Module(q_ctx@.modules.len() as int)),
                ),
                Ok(Resolution::Compile(absolute_path, script)) => import_outcome(
                    self.loaders(),
                    q_ctx,
                    ref_path@,
                    path@,
                    q_ctx@,
                    Ok(ImportStepView::Compile(absolute_path@, script@)),
                ),
                Err(e) => import_outcome(self.loaders(), q_ctx, ref_path@, path@, q_ctx@, Err(e@)),
            },
    {
        let normalized = js_module_normalize(self, q_ctx, ref_path, path);
        let ghost normalized_view = path_view(normalized);
        let absolute_path = match normalized {
            Ok(absolute_path) => absolute_path,
            Err(e) => {
                assert(normalized_into(self.loaders(), q_ctx, normalized_view, q_ctx@, Err(e@)));
                return Err(e);
            },
        };
        if let Some(position) = q_ctx.find_module(absolute_path.as_str()) {
            assert(normalized_into(
                self.loaders(),
                q_ctx,
                normalized_view,
                q_ctx@,
                Ok(ImportStepView::Module(position as int)),
            ));
            return Ok(Resolution::Cached(position));
        }
        let loaded = js_module_loader(self, q_ctx, absolute_path.as_str());
        let ghost loaded_result = loaded_view(loaded);
        match loaded {
            Err(e) => {
                assert(loaded_into(self.loaders(), q_ctx, absolute_path@, q_ctx@, Err(e@)));
                assert(normalized_into(self.loaders(), q_ctx, normalized_view, q_ctx@, Err(e@)));
                Err(e)
            },
            Ok(None) => {
                let message = String::from_str("Module ").concat(absolute_path.as_str()).concat(
                    " was not found",
                );
                let e = EsError::new(ErrorKind::ModuleNotFound, message);
                assert(initialised_into(
                    self.loaders(),
                    q_ctx,
                    absolute_path@,
                    None,
                    q_ctx@,
                    Err(e@),
                ));
                assert(loaded_into(self.loaders(), q_ctx, absolute_path@, q_ctx@, Err(e@)));
                assert(normalized_into(self.loaders(), q_ctx, normalized_view, q_ctx@, Err(e@)));
                Err(e)
            },
            Ok(Some(ModuleDef::Script(script))) => {
                let ghost step = Ok::<ImportStepView, EsErrorView>(
                    ImportStepView::Compile(absolute_path@, script@),
                );
                assert(initialised_into(
                    self.loaders(),
                    q_ctx,
                    absolute_path@,
                    Some(ModuleDefView::Script(script@)),
                    q_ctx@,
                    step,
                ));
                assert(loaded_into(self.loaders(), q_ctx, absolute_path@, q_ctx@, step));
                assert(normalized_into(self.loaders(), q_ctx, normalized_view, q_ctx@, step));
                Ok(Resolution::Compile(absolute_path, script))
            },
            Ok(Some(ModuleDef::Native(module))) => {
                let mut module = module;
                let ghost declared = module@;
                match native_module_init(self, q_ctx, &mut module) {
                    Ok(()) => {
                        let ghost after = q_ctx@.with_module(
                            absolute_path@,
                            ModuleDefView::Native(module@),
                        );
                        let ghost step = Ok::<ImportStepView, EsErrorView>(
                            ImportStepView::Module(q_ctx@.modules.len() as int),
                        );
                        assert(init_outcome(self.loaders(), q_ctx, declared, module@, Ok(())));
                        assert(native_initialised_into(
                            self.loaders(),
                            q_ctx,
                            absolute_path@,
                            declared,
                            after,
                            step,
                        ));
                        assert(initialised_into(
                            self.loaders(),
                            q_ctx,
                            absolute_path@,
                            Some(ModuleDefView::Native(declared)),
                            after,
                            step,
                        ));
                        assert(loaded_into(self.loaders(), q_ctx, absolute_path@, after, step));
                        assert(normalized_into(
                            self.loaders(),
                            q_ctx,
                            normalized_view,
                            after,
                            step,
                        ));
                        Ok(Resolution::Fresh(absolute_path, ModuleDef::Native(module)))
                    },
                    Err(e) => {
                        assert(init_outcome(self.loaders(), q_ctx, declared, module@, Err(e@)));
                        assert(native_initialised_into(
                            self.loaders(),
                            q_ctx,
                            absolute_path@,
                            declared,
                            q_ctx@,
                            Err(e@),
                        ));
                        assert(initialised_into(
                            self.loaders(),
                            q_ctx,
                            absolute_path@,
                            Some(ModuleDefView::Native(declared)),
                            q_ctx@,
                            Err(e@),
                        ));
                        assert(loaded_into(self.loaders(), q_ctx, absolute_path@, q_ctx@, Err(e@)));
                        assert(normalized_into(
                            self.loaders(),
                            q_ctx,
                            normalized_view,
                            q_ctx@,
                            Err(e@),
                        ));
                        Err(e)
                    },
                }
            },
        }
    }

    /// Puts a module at the end of the table of the context at place `i`.
    fn add_module_at(&mut self, i: usize, absolute_path: String, def: ModuleDef) -> (position: usize)
        requires
            i < old(self).contexts().len(),
            !old(self).contexts()[i as int]@.has_module(absolute_path@),
        ensures
            final(self).id() == old(self).id(),
            final(self).hooks() == old(self).hooks(),
            final(self).loaders() == old(self).loaders(),
            final(self).context_ids() == old(self).context_ids(),
            old(self).wf() ==> final(self).wf(),
            final(self).contexts().len() == old(self).contexts().len(),
            forall|j: int|
                0 <= j < old(self).contexts().len() && j != i ==> final(self).contexts()[j] == old(self).contexts()[j],
            final(self).contexts()[i as int]@ == old(self).contexts()[i as int]@.with_module(
                absolute_path@,
                def@,
            ),
            position == old(self).contexts()[i as int]@.modules.len(),
    {
        let ghost before = self.contexts();
        let mut q_ctx = self.engine.contexts.remove(i);
        let position = q_ctx.count_modules();
        q_ctx.add_module(absolute_path, def);
        self.engine.contexts.insert(i, q_ctx);
        proof {
            let after = self.contexts();
            assert(after.len() == before.len());
            assert(after[i as int] == q_ctx);
            assert forall|j: int| 0 <= j < before.len() && j != i implies after[j]
                == before[j] by {}
            assert(self.context_ids() =~= old(self).context_ids());
            if old(self).wf() {
                lemma_with_module_well_formed(before[i as int]@, absolute_path@, def@);
                assert forall|k: int| 0 <= k < after.len() implies (#[trigger] after[k])@
                    .well_formed() by {
                    if k != i {
                        assert(after[k] == before[k]);
                    }
                }
            }
        }
        position
    }

    /// Imports the module that the request `path`, made from the module
    /// `ref_path`, means in the context `context_id`, the way the engine
    /// does it with the three phases of the loader chain.
    ///
    /// The request is normalized every time. Where the context's table
    /// holds the normalized path, that module is the result and no loader
    /// is asked to load or initialise. Otherwise the module is loaded. A
    /// native module is initialised and added to the end of the table, and
    /// its position is the result. For a script module the source comes
    /// back, to be compiled by the engine; the table takes the module
    /// when the result of that is handed to [`Self::script_compiled`].
    /// Every failure leaves all contexts as they were. No other context is
    /// touched in any case.
    pub fn import_module(&mut self, context_id: &str, ref_path: &str, path: &str) -> (r: Result<
        ImportStep,
        EsError,
    >)
        ensures
            final(self).id() == old(self).id(),
            final(self).hooks() == old(self).hooks(),
            final(self).loaders() == old(self).loaders(),
            final(self).context_ids() == old(self).context_ids(),
            old(self).wf() ==> final(self).wf(),
            !old(self).has_context_id(context_id@) ==> final(self).contexts() == old(
                self,
            ).contexts() && (r matches Err(e) && e@ == context_not_found_error(context_id@)),
            old(self).has_context_id(context_id@) ==> exists|i: int|
                {
                    &&& #[trigger] first_index(old(self).context_ids(), context_id@, i)
                    &&& final(self).contexts().len() == old(self).contexts().len()
                    &&& forall|j: int|
                        0 <= j < old(self).contexts().len() && j != i ==> final(self).contexts()[j]
                            == old(self).contexts()[j]
                    &&& import_outcome(
                        old(self).loaders(),
                        &old(self).contexts()[i],
                        ref_path@,
                        path@,
                        final(self).contexts()[i]@,
                        import_view(r),
                    )
                },
    {
        let i = match self.find_context(context_id) {
            Some(i) => i,
            None => {
                let message = String::from_str("no such context: ").concat(context_id);
                return Err(EsError::new(ErrorKind::ContextNotFound, message));
            },
        };
        match self.resolve_import(&self.engine.contexts[i], ref_path, path) {
            Err(e) => Err(e),
            Ok(Resolution::Cached(position)) => Ok(ImportStep::Module(position)),
            Ok(Resolution::Compile(absolute_path, script)) => Ok(
                ImportStep::Compile(absolute_path, script),
            ),
            Ok(Resolution::Fresh(absolute_path, def)) => {
                let position = self.add_module_at(i, absolute_path, def);
                Ok(ImportStep::Module(position))
            },
        }
    }

    /// Ends the import of a script module: `compiled` is what
    /// [`compile_module`](crate::quickjs_utils::modules::compile_module)
    /// made of the source `script` that an import returned for
    /// `absolute_path`.
    ///
    /// A source that does not compile to a module is a load failure, see
    /// [`script_module_loaded`], and the context stays as it was. A module
    /// enters the context's table under its absolute path, and its
    /// position is the result.
    pub fn script_compiled(
        &mut self,
        context_id: &str,
        absolute_path: &str,
        script: EsScript,
        compiled: Result<JSValueRef, EsError>,
    ) -> (r: Result<usize, EsError>)
        ensures
            final(self).id() == old(self).id(),
            final(self).hooks() == old(self).hooks(),
            final(self).loaders() == old(self).loaders(),
            final(self).context_ids() == old(self).context_ids(),
            old(self).wf() ==> final(self).wf(),
            !old(self).has_context_id(context_id@) ==> final(self).contexts() == old(
                self,
            ).contexts() && (r matches Err(e) && e@ == context_not_found_error(context_id@)),
            old(self).has_context_id(context_id@) ==> exists|i: int|
                {
                    &&& #[trigger] first_index(old(self).context_ids(), context_id@, i)
                    &&& final(self).contexts().len() == old(self).contexts().len()
                    &&& forall|j: int|
                        0 <= j < old(self).contexts().len() && j != i ==> final(self).contexts()[j]
                            == old(self).contexts()[j]
                    &&& compiled_into(
                        old(self).contexts()[i]@,
                        absolute_path@,
                        script@,
                        script_loaded_result(absolute_path@, compiled_result_view(compiled)),
                        final(self).contexts()[i]@,
                        position_view(r),
                    )
                },
    {
        let i = match self.find_context(context_id) {
            Some(i) => i,
            None => {
                let message = String::from_str("no such context: ").concat(context_id);
                return Err(EsError::new(ErrorKind::ContextNotFound, message));
            },
        };
        match script_module_loaded(absolute_path, compiled) {
            Err(e) => Err(e),
            Ok(_) => {
                if let Some(position) = self.engine.contexts[i].find_module(absolute_path) {
                    return Ok(position);
                }
                let position = self.add_module_at(
                    i,
                    String::from_str(absolute_path),
                    ModuleDef::Script(script),
                );
                Ok(position)
            },
        }
    }
}

/// Makes the bytes of a C string: the UTF-8 encoding of `value` and the
/// terminating NUL. A value that holds a NUL itself cannot be one.
pub fn make_cstring(value: &str) -> (r: Result<Vec<u8>, EsError>)
    ensures
        has_nul(value@) ==> (r matches Err(e) && e@ == other_error(
            "could not create cstring from "@ + value@,
        )),
        !has_nul(value@) ==> (r matches Ok(bytes) && bytes@ == vstd::utf8::encode_utf8(value@).push(
            0u8,
        )),
{
    if crate::quickjs_utils::modules::contains_nul(value) {
        return Err(
            EsError::new_string(String::from_str("could not create cstring from ").concat(value)),
        );
    }
    let mut bytes = value.as_bytes_vec();
    bytes.push(0u8);
    Ok(bytes)
}

} // verus!
