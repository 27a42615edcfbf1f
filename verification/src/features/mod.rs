//! The features that every context of a runtime gets.

pub mod fetch;

use vstd::prelude::*;
use crate::eserror::EsError;
use crate::eserror::EsErrorView;
use crate::esruntime::engine_unavailable_error;
use crate::esruntime::EsRuntime;
use crate::quickjscontext::QuickJsContext;
use crate::quickjsruntime::QuickJsEngine;
use crate::quickjsruntime::hooks::hook_outcome;
use crate::quickjsruntime::loaders::unit_view;
use crate::quickjsruntime::ContextInitHookAdapter;

verus! {

/// Holds of what registering `added` in turn may give, starting from the
/// hooks `hooks`: every hook is run against all of `contexts` and joins the
/// registered ones, up to the first that fails for a context. That one and
/// those after it are not registered, and its error is the result.
pub open spec fn registered(
    q_js_rt: &QuickJsEngine,
    contexts: Seq<QuickJsContext>,
    hooks: Seq<ContextInitHookAdapter>,
    added: Seq<ContextInitHookAdapter>,
    hooks_after: Seq<ContextInitHookAdapter>,
    result: Result<(), EsErrorView>,
) -> bool
    decreases added.len(),
{
    if added.len() == 0 {
        hooks_after == hooks && result is Ok
    } else {
        exists|first: Result<(), EsErrorView>| #[trigger]
            hook_outcome(added[0], q_js_rt, contexts, first) && match first {
                Ok(_) => registered(
                    q_js_rt,
                    contexts,
                    hooks.push(added[0]),
                    added.drop_first(),
                    hooks_after,
                    result,
                ),
                Err(e) => hooks_after == hooks && result == Err::<(), EsErrorView>(e),
            }
    }
}

/// Installs the features of a runtime: the hooks for the console, for
/// fetch, for `setImmediate` and for the timers are registered in this
/// order, which runs each against every context there is. The first
/// failure ends the installation.
///
/// A runtime whose worker has terminated takes no hooks.
pub fn init(
    es_rt: &mut EsRuntime,
    console: ContextInitHookAdapter,
    fetch: ContextInitHookAdapter,
    setimmediate: ContextInitHookAdapter,
    set_timeout: ContextInitHookAdapter,
) -> (r: Result<(), EsError>)
    ensures
        final(es_rt).alive() == old(es_rt).alive(),
        final(es_rt).limits() == old(es_rt).limits(),
        final(es_rt).fetch_response_provider() == old(es_rt).fetch_response_provider(),
        final(es_rt).inner().id() == old(es_rt).inner().id(),
        final(es_rt).inner().contexts() == old(es_rt).inner().contexts(),
        final(es_rt).inner().loaders() == old(es_rt).inner().loaders(),
        !old(es_rt).alive() ==> final(es_rt).inner().hooks() == old(es_rt).inner().hooks() && (
        r matches Err(e) && e@ == engine_unavailable_error()),
        old(es_rt).alive() ==> registered(
            &old(es_rt).inner().engine(),
            old(es_rt).inner().contexts(),
            old(es_rt).inner().hooks(),
            seq![console, fetch, setimmediate, set_timeout],
            final(es_rt).inner().hooks(),
            unit_view(r),
        ),
{
    let ghost engine = es_rt.inner().engine();
    let ghost state = &engine;
    let ghost contexts = es_rt.inner().contexts();
    let ghost hooks = es_rt.inner().hooks();
    let ghost all = seq![console, fetch, setimmediate, set_timeout];
    let ghost three = seq![fetch, setimmediate, set_timeout];
    let ghost two = seq![setimmediate, set_timeout];
    let ghost one = seq![set_timeout];
    proof {
        assert(all.drop_first() =~= three);
        assert(three.drop_first() =~= two);
        assert(two.drop_first() =~= one);
        assert(one.drop_first() =~= Seq::<ContextInitHookAdapter>::empty());
    }
    if !es_rt.is_alive() {
        return es_rt.add_context_init_hook(console);
    }
    match es_rt.add_context_init_hook(console) {
        Ok(()) => {},
        Err(e) => {
            assert(hook_outcome(all[0], state, contexts, Err(e@)));
            return Err(e);
        },
    }
    let ghost hooks1 = hooks.push(console);
    match es_rt.add_context_init_hook(fetch) {
        Ok(()) => {},
        Err(e) => {
            assert(hook_outcome(three[0], state, contexts, Err(e@)));
            assert(registered(state, contexts, hooks1, three, es_rt.inner().hooks(), Err(e@)));
            assert(hook_outcome(all[0], state, contexts, Ok(())));
            return Err(e);
        },
    }
    let ghost hooks2 = hooks1.push(fetch);
    match es_rt.add_context_init_hook(setimmediate) {
        Ok(()) => {},
        Err(e) => {
            assert(hook_outcome(two[0], state, contexts, Err(e@)));
            assert(registered(state, contexts, hooks2, two, es_rt.inner().hooks(), Err(e@)));
            assert(hook_outcome(three[0], state, contexts, Ok(())));
            assert(registered(state, contexts, hooks1, three, es_rt.inner().hooks(), Err(e@)));
            assert(hook_outcome(all[0], state, contexts, Ok(())));
            return Err(e);
        },
    }
    let ghost hooks3 = hooks2.push(setimmediate);
    let r = es_rt.add_context_init_hook(set_timeout);
    proof {
        let after = es_rt.inner().hooks();
        let result = unit_view(r);
        assert(hook_outcome(one[0], state, contexts, result));
        assert(result is Ok ==> registered(
            state,
            contexts,
            hooks3.push(set_timeout),
            one.drop_first(),
            after,
            result,
        ));
        assert(registered(state, contexts, hooks3, one, after, result));
        assert(hook_outcome(two[0], state, contexts, Ok(())));
        assert(registered(state, contexts, hooks2, two, after, result));
        assert(hook_outcome(three[0], state, contexts, Ok(())));
        assert(registered(state, contexts, hooks1, three, after, result));
        assert(hook_outcome(all[0], state, contexts, Ok(())));
    }
    r
}

} // verus!
