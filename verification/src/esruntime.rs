//! The handle that the application holds: the engine state together with
//! the limits it was built with and the state of the worker that owns it.

use vstd::prelude::*;
use vstd::string::*;
use crate::eserror::EsError;
use crate::eserror::EsErrorView;
use crate::eserror::ErrorKind;
use crate::esruntimebuilder::EsRuntimeBuilder;
use crate::esruntimebuilder::EsRuntimeBuilderView;
use crate::esruntimebuilder::ResourceLimits;
use crate::features::fetch::FetchResponseProviderAdapter;
use crate::quickjsruntime::hooks::hook_outcome;
use crate::quickjsruntime::loaders::unit_view;
use crate::quickjsruntime::ContextInitHookAdapter;
use crate::quickjsruntime::ModuleLoaderEntry;
use crate::quickjsruntime::NativeModuleLoaderAdapter;
use crate::quickjsruntime::QuickJsRuntime;
use crate::quickjsruntime::ScriptModuleLoaderAdapter;

verus! {

/// The chain of loaders of a runtime: the script loaders in the order in
/// which they were added, then the native loaders in theirs.
pub open spec fn loader_chain(
    script: Seq<ScriptModuleLoaderAdapter>,
    native: Seq<NativeModuleLoaderAdapter>,
) -> Seq<ModuleLoaderEntry> {
    Seq::new(
        script.len() + native.len(),
        |i: int|
            if i < script.len() {
                ModuleLoaderEntry::Script(script[i])
            } else {
                ModuleLoaderEntry::Native(native[i - script.len()])
            },
    )
}

/// The error of a submission to a worker that has terminated.
pub open spec fn engine_unavailable_error() -> EsErrorView {
    EsErrorView {
        kind: ErrorKind::EngineUnavailable,
        message: "the worker of this runtime has terminated"@,
        stack: Seq::<char>::empty(),
    }
}

fn unavailable() -> (e: EsError)
    ensures
        e@ == engine_unavailable_error(),
{
    EsError::new(
        ErrorKind::EngineUnavailable,
        String::from_str("the worker of this runtime has terminated"),
    )
}

/// A runtime.
pub struct EsRuntime {
    q_js_rt: QuickJsRuntime,
    alive: bool,
    opt_fetch_response_provider: Option<FetchResponseProviderAdapter>,
    limits: ResourceLimits,
}

impl EsRuntime {
    /// The engine state.
    pub closed spec fn inner(&self) -> QuickJsRuntime {
        self.q_js_rt
    }

    /// Whether the worker that owns the engine is still running.
    pub closed spec fn alive(&self) -> bool {
        self.alive
    }

    pub closed spec fn fetch_response_provider(&self) -> Option<FetchResponseProviderAdapter> {
        self.opt_fetch_response_provider
    }

    pub closed spec fn limits(&self) -> ResourceLimits {
        self.limits
    }

    /// Whether this is the runtime that is built from `builder`: a running
    /// worker, the single context `__main__`, no hooks, the builder's
    /// loaders as one chain, its provider and its limits.
    pub open spec fn built_from(&self, builder: EsRuntimeBuilderView) -> bool {
        &&& self.alive()
        &&& exists|thread_number: nat|
            self.inner().id() == #[trigger] crate::quickjsruntime::runtime_id(thread_number)
        &&& self.inner().context_ids() == seq!["__main__"@]
        &&& self.inner().contexts()[0]@.modules.len() == 0
        &&& !self.inner().contexts()[0]@.dropping
        &&& self.inner().wf()
        &&& self.inner().hooks().len() == 0
        &&& self.inner().loaders() == loader_chain(
            builder.script_module_loaders,
            builder.native_module_loaders,
        )
        &&& self.fetch_response_provider() == builder.fetch_response_provider
        &&& self.limits() == builder.limits
    }

    /// Builds the runtime of the calling thread from a builder.
    pub fn new(builder: EsRuntimeBuilder) -> (rt: EsRuntime)
        ensures
            rt.built_from(builder@),
    {
        let (script_module_loaders, native_module_loaders, opt_fetch_response_provider, limits) =
            builder.into_parts();
        let mut script_module_loaders = script_module_loaders;
        let mut native_module_loaders = native_module_loaders;
        let ghost script = script_module_loaders@;
        let ghost native = native_module_loaders@;
        let mut q_js_rt = QuickJsRuntime::new();
        let ghost fresh = q_js_rt;
        while script_module_loaders.len() > 0
            invariant
                q_js_rt.id() == fresh.id(),
                q_js_rt.contexts() == fresh.contexts(),
                q_js_rt.hooks() == fresh.hooks(),
                q_js_rt.loaders().len() + script_module_loaders@.len() == script.len(),
                forall|i: int|
                    0 <= i < q_js_rt.loaders().len() ==> q_js_rt.loaders()[i]
                        == ModuleLoaderEntry::Script(script[i]),
                forall|i: int|
                    0 <= i < script_module_loaders@.len() ==> script_module_loaders@[i]
                        == script[q_js_rt.loaders().len() + i],
            decreases script_module_loaders@.len(),
        {
            let loader = script_module_loaders.remove(0);
            q_js_rt.add_module_loader(ModuleLoaderEntry::Script(loader));
        }
        while native_module_loaders.len() > 0
            invariant
                q_js_rt.id() == fresh.id(),
                q_js_rt.contexts() == fresh.contexts(),
                q_js_rt.hooks() == fresh.hooks(),
                script.len() <= q_js_rt.loaders().len(),
                q_js_rt.loaders().len() + native_module_loaders@.len() == script.len()
                    + native.len(),
                forall|i: int|
                    0 <= i < script.len() ==> q_js_rt.loaders()[i] == ModuleLoaderEntry::Script(
                        script[i],
                    ),
                forall|i: int|
                    script.len() <= i < q_js_rt.loaders().len() ==> q_js_rt.loaders()[i]
                        == ModuleLoaderEntry::Native(native[i - script.len()]),
                forall|i: int|
                    0 <= i < native_module_loaders@.len() ==> native_module_loaders@[i]
                        == native[q_js_rt.loaders().len() - script.len() + i],
            decreases native_module_loaders@.len(),
        {
            let loader = native_module_loaders.remove(0);
            q_js_rt.add_module_loader(ModuleLoaderEntry::Native(loader));
        }
        assert(q_js_rt.loaders() =~= loader_chain(script, native));
        EsRuntime { q_js_rt, alive: true, opt_fetch_response_provider, limits }
    }

    /// The engine state, for reading.
    pub fn get_q_js_rt(&self) -> (q_js_rt: &QuickJsRuntime)
        ensures
            *q_js_rt == self.inner(),
    {
        &self.q_js_rt
    }

    /// Gives the engine state up, as the worker does when it ends.
    pub fn into_q_js_rt(self) -> (q_js_rt: QuickJsRuntime)
        ensures
            q_js_rt == self.inner(),
    {
        self.q_js_rt
    }

    /// The engine state for changing it, which only a running worker grants.
    pub fn get_q_js_rt_mut(&mut self) -> (r: Result<&mut QuickJsRuntime, EsError>)
        ensures
            final(self).alive() == old(self).alive(),
            final(self).limits() == old(self).limits(),
            final(self).fetch_response_provider() == old(self).fetch_response_provider(),
            old(self).alive() ==> (r matches Ok(q_js_rt) && *q_js_rt == old(self).inner()
                && final(self).inner() == *final(q_js_rt)),
            !old(self).alive() ==> (r matches Err(e) && e@ == engine_unavailable_error()
                && final(self).inner() == old(self).inner()),
    {
        if !self.alive {
            return Err(unavailable());
        }
        Ok(&mut self.q_js_rt)
    }

    /// Runs a task with the engine state and returns what it returned, the
    /// way a submission that waits for its result does. A runtime whose
    /// worker has terminated runs no task.
    pub fn add_to_event_queue_sync<C, R>(&self, task: C) -> (r: Result<R, EsError>) where
        C: FnOnce(&QuickJsRuntime) -> R,

        requires
            self.alive() ==> call_requires(task, (&self.inner(),)),
        ensures
            self.alive() ==> (r matches Ok(value) && call_ensures(task, (&self.inner(),), value)),
            !self.alive() ==> (r matches Err(e) && e@ == engine_unavailable_error()),
    {
        if !self.alive {
            return Err(unavailable());
        }
        Ok(task(&self.q_js_rt))
    }

    /// The limits that the engine was made with.
    pub fn get_limits(&self) -> (limits: &ResourceLimits)
        ensures
            *limits == self.limits(),
    {
        &self.limits
    }

    /// The provider that answers the requests of scripts, if one was set.
    pub fn get_fetch_response_provider(&self) -> (provider: Option<&FetchResponseProviderAdapter>)
        ensures
            provider is Some <==> self.fetch_response_provider() is Some,
            provider matches Some(p) ==> Some(*p) == self.fetch_response_provider(),
    {
        self.opt_fetch_response_provider.as_ref()
    }

    pub fn is_alive(&self) -> (alive: bool)
        ensures
            alive == self.alive(),
    {
        self.alive
    }

    /// Records that the worker has terminated. From then on every
    /// submission fails; the engine state is out of reach for good.
    pub fn terminate(&mut self)
        ensures
            !final(self).alive(),
            final(self).inner() == old(self).inner(),
            final(self).limits() == old(self).limits(),
            final(self).fetch_response_provider() == old(self).fetch_response_provider(),
    {
        self.alive = false;
    }

    /// Has the worker register a hook, see
    /// [`QuickJsRuntime::add_context_init_hook`].
    pub fn add_context_init_hook(&mut self, hook: ContextInitHookAdapter) -> (r: Result<(), EsError>)
        ensures
            final(self).alive() == old(self).alive(),
            final(self).limits() == old(self).limits(),
            final(self).fetch_response_provider() == old(self).fetch_response_provider(),
            final(self).inner().id() == old(self).inner().id(),
            final(self).inner().contexts() == old(self).inner().contexts(),
            final(self).inner().loaders() == old(self).inner().loaders(),
            !old(self).alive() ==> final(self).inner().hooks() == old(self).inner().hooks() && (
            r matches Err(e) && e@ == engine_unavailable_error()),
            old(self).alive() ==> {
                &&& final(self).inner().engine() == old(self).inner().engine()
                &&& hook_outcome(
                    hook,
                    &old(self).inner().engine(),
                    old(self).inner().contexts(),
                    unit_view(r),
                )
                &&& r is Ok ==> final(self).inner().hooks() == old(self).inner().hooks().push(hook)
                &&& r is Err ==> final(self).inner().hooks() == old(self).inner().hooks()
            },
    {
        if !self.alive {
            return Err(unavailable());
        }
        self.q_js_rt.add_context_init_hook(hook)
    }
}

} // verus!
