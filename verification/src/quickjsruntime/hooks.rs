//! Hooks that initialise contexts: what the host implements, and what
//! running them in turn gives.

use vstd::prelude::*;
use crate::eserror::EsError;
use crate::eserror::EsErrorView;
use crate::quickjscontext::QuickJsContext;
use crate::quickjsruntime::QuickJsEngine;
use crate::quickjsruntime::loaders::unit_view;

verus! {

/// Work that is run against every context, once: console, timers and the
/// like are installed this way. The host implements it. A hook is handed
/// the engine's state and the context to initialise.
pub trait ContextInitHook {
    /// Holds of every `result` that `init_context` may return.
    open spec fn init_context_outcome(
        &self,
        q_js_rt: &QuickJsEngine,
        q_ctx: &QuickJsContext,
        result: Result<(), EsErrorView>,
    ) -> bool {
        true
    }

    fn init_context(&self, q_js_rt: &QuickJsEngine, q_ctx: &QuickJsContext) -> (result: Result<(), EsError>)
        ensures
            self.init_context_outcome(q_js_rt, q_ctx, unit_view(result)),
    ;
}

/// A hook as the registry holds it.
pub struct ContextInitHookAdapter {
    pub inner: Box<dyn ContextInitHook>,
}

impl ContextInitHookAdapter {
    pub fn new(hook: Box<dyn ContextInitHook>) -> (adapter: Self)
        ensures
            adapter == (ContextInitHookAdapter { inner: hook }),
    {
        Self { inner: hook }
    }

    /// Holds of every `result` that running the hook may give.
    pub open spec fn outcome(
        &self,
        q_js_rt: &QuickJsEngine,
        q_ctx: &QuickJsContext,
        result: Result<(), EsErrorView>,
    ) -> bool {
        self.inner.init_context_outcome(q_js_rt, q_ctx, result)
    }

    /// Runs the hook against one context.
    pub fn run(&self, q_js_rt: &QuickJsEngine, q_ctx: &QuickJsContext) -> (result: Result<(), EsError>)
        ensures
            self.outcome(q_js_rt, q_ctx, unit_view(result)),
    {
        self.inner.init_context(q_js_rt, q_ctx)
    }
}

/// Holds of what running `hooks` in turn against one context may give: `Ok`
/// where every hook returned `Ok`, and the first error otherwise, the hooks
/// after it not having run.
pub open spec fn hooks_outcome(
    hooks: Seq<ContextInitHookAdapter>,
    q_js_rt: &QuickJsEngine,
    q_ctx: &QuickJsContext,
    result: Result<(), EsErrorView>,
) -> bool {
    match result {
        Ok(_) => forall|j: int|
            0 <= j < hooks.len() ==> (#[trigger] hooks[j]).outcome(q_js_rt, q_ctx, Ok(())),
        Err(e) => exists|k: int|
            0 <= k < hooks.len() && (#[trigger] hooks[k]).outcome(q_js_rt, q_ctx, Err(e))
                && forall|j: int|
                0 <= j < k ==> (#[trigger] hooks[j]).outcome(q_js_rt, q_ctx, Ok(())),
    }
}

/// Holds of what running one hook against `contexts` in turn may give: `Ok`
/// where it returned `Ok` for every context, and the first error otherwise,
/// the contexts after it not having been visited.
pub open spec fn hook_outcome(
    hook: ContextInitHookAdapter,
    q_js_rt: &QuickJsEngine,
    contexts: Seq<QuickJsContext>,
    result: Result<(), EsErrorView>,
) -> bool {
    match result {
        Ok(_) => forall|j: int|
            0 <= j < contexts.len() ==> hook.outcome(q_js_rt, #[trigger] &contexts[j], Ok(())),
        Err(e) => exists|k: int|
            0 <= k < contexts.len() && hook.outcome(q_js_rt, #[trigger] &contexts[k], Err(e))
                && forall|j: int|
                0 <= j < k ==> hook.outcome(q_js_rt, #[trigger] &contexts[j], Ok(())),
    }
}

/// A hook that is registered when a context is created is run against the
/// context, after the hooks that were registered before it: where the
/// creation succeeds, the hook returned `Ok` for the context, and where it
/// fails, either the hook did, or one before it.
pub proof fn lemma_registered_hook_reaches_new_context(
    hooks: Seq<ContextInitHookAdapter>,
    hook: ContextInitHookAdapter,
    q_js_rt: &QuickJsEngine,
    q_ctx: &QuickJsContext,
    result: Result<(), EsErrorView>,
)
    requires
        hooks_outcome(hooks.push(hook), q_js_rt, q_ctx, result),
    ensures
        result is Ok ==> hook.outcome(q_js_rt, q_ctx, Ok(())),
        result is Ok ==> hooks_outcome(hooks, q_js_rt, q_ctx, result),
        result is Err ==> hooks_outcome(hooks, q_js_rt, q_ctx, result) || (hooks_outcome(
            hooks,
            q_js_rt,
            q_ctx,
            Ok(()),
        ) && hook.outcome(q_js_rt, q_ctx, result)),
{
    let all = hooks.push(hook);
    match result {
        Ok(_) => {
            assert(all[hooks.len() as int].outcome(q_js_rt, q_ctx, Ok(())));
            assert forall|j: int| 0 <= j < hooks.len() implies (#[trigger] hooks[j]).outcome(
                q_js_rt,
                q_ctx,
                Ok(()),
            ) by {
                assert(all[j].outcome(q_js_rt, q_ctx, Ok(())));
            }
        },
        Err(e) => {
            let k = choose|k: int|
                0 <= k < all.len() && (#[trigger] all[k]).outcome(q_js_rt, q_ctx, Err(e))
                    && forall|j: int|
                    0 <= j < k ==> (#[trigger] all[j]).outcome(q_js_rt, q_ctx, Ok(()));
            assert forall|j: int| 0 <= j < k && j < hooks.len() implies (#[trigger] hooks[j]).outcome(
                q_js_rt,
                q_ctx,
                Ok(()),
            ) by {
                assert(all[j].outcome(q_js_rt, q_ctx, Ok(())));
            }
            if k < hooks.len() {
                assert(hooks[k].outcome(q_js_rt, q_ctx, Err(e)));
            }
        },
    }
}

/// A hook applies to every context that is created after its
/// registration: where the hooks that were registered before it cannot
/// fail for the new context, the hook is run against the context, and
/// what it returns is what the creation returns.
pub proof fn lemma_hook_applies_to_later_context(
    hooks: Seq<ContextInitHookAdapter>,
    hook: ContextInitHookAdapter,
    q_js_rt: &QuickJsEngine,
    q_ctx: &QuickJsContext,
    result: Result<(), EsErrorView>,
)
    requires
        forall|j: int, earlier: Result<(), EsErrorView>|
            0 <= j < hooks.len() && #[trigger] hooks[j].outcome(q_js_rt, q_ctx, earlier)
                ==> earlier is Ok,
        hooks_outcome(hooks.push(hook), q_js_rt, q_ctx, result),
    ensures
        hook.outcome(q_js_rt, q_ctx, result),
{
    let all = hooks.push(hook);
    match result {
        Ok(unit) => {
            assert(all[hooks.len() as int].outcome(q_js_rt, q_ctx, Ok(())));
            assert(unit == ());
            assert(result == Ok::<(), EsErrorView>(()));
        },
        Err(e) => {
            let k = choose|k: int|
                0 <= k < all.len() && (#[trigger] all[k]).outcome(q_js_rt, q_ctx, Err(e))
                    && forall|j: int|
                    0 <= j < k ==> (#[trigger] all[j]).outcome(q_js_rt, q_ctx, Ok(()));
            if k < hooks.len() {
                assert(hooks[k].outcome(q_js_rt, q_ctx, Err(e)));
            }
            assert(all[k] == hook);
        },
    }
}

} // verus!
