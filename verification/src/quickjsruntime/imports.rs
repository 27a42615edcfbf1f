//! What the three phases of an import may give, and the laws of the
//! module table.

use vstd::prelude::*;
use crate::eserror::error_text;
use crate::eserror::EsError;
use crate::eserror::EsErrorView;
use crate::eserror::ErrorKind;
use crate::esscript::EsScript;
use crate::esscript::EsScriptView;
use crate::quickjs_utils::modules::load_outcome;
use crate::quickjs_utils::modules::module_not_found_error;
use crate::quickjs_utils::modules::normalize_outcome;
use crate::quickjs_utils::modules::ModuleDefView;
use crate::quickjs_utils::modules::NativeModuleDefView;
use crate::quickjscontext::lemma_with_module_well_formed;
use crate::quickjscontext::QuickJsContext;
use crate::quickjscontext::QuickJsContextView;
use crate::quickjsruntime::loaders::ModuleLoader;
use crate::quickjsruntime::loaders::ModuleLoaderEntry;

verus! {

/// Loader `i` is the first of the chain that says it has the module `name`.
pub open spec fn first_claim(
    loaders: Seq<ModuleLoaderEntry>,
    q_ctx: &QuickJsContext,
    name: Seq<char>,
    i: int,
) -> bool {
    &&& 0 <= i < loaders.len()
    &&& loaders[i].has_module_outcome(q_ctx, name, true)
    &&& forall|j: int| 0 <= j < i ==> (#[trigger] loaders[j]).has_module_outcome(q_ctx, name, false)
}

/// Every loader of the chain says it does not have the module `name`.
pub open spec fn no_claim(loaders: Seq<ModuleLoaderEntry>, q_ctx: &QuickJsContext, name: Seq<char>) -> bool {
    forall|j: int|
        0 <= j < loaders.len() ==> (#[trigger] loaders[j]).has_module_outcome(q_ctx, name, false)
}

/// The error that is reported into a context when a native module could not
/// be initialised.
pub open spec fn module_init_failed_error(name: Seq<char>, cause: EsErrorView) -> EsErrorView {
    EsErrorView {
        kind: ErrorKind::ModuleInitFailed,
        message: "Failed to init native module: "@ + name + " caused by "@ + error_text(cause),
        stack: Seq::<char>::empty(),
    }
}

/// What an initialisation made of its inner loader's answer.
pub open spec fn init_report(name: Seq<char>, inner: Result<(), EsErrorView>) -> Result<
    (),
    EsErrorView,
> {
    match inner {
        Ok(_) => Ok(()),
        Err(e) => Err(module_init_failed_error(name, e)),
    }
}

/// Holds of what [`native_module_init`] may make of a module and return:
/// the first loader that says it has the module initialises it, and where
/// none does the module stays as it is.
pub open spec fn init_outcome(
    loaders: Seq<ModuleLoaderEntry>,
    q_ctx: &QuickJsContext,
    before: NativeModuleDefView,
    after: NativeModuleDefView,
    result: Result<(), EsErrorView>,
) -> bool {
    ||| no_claim(loaders, q_ctx, before.name) && after == before && result is Ok
    ||| exists|i: int, inner: Result<(), EsErrorView>|
        first_claim(loaders, q_ctx, before.name, i) && (#[trigger] loaders[i].init_module_outcome(
            q_ctx,
            before,
            after,
            inner,
        )) && result == init_report(before.name, inner)
}

/// `position` is the first place in the module table that holds `path`.
pub open spec fn first_position(q_ctx: QuickJsContextView, path: Seq<char>, position: int) -> bool {
    &&& 0 <= position < q_ctx.modules.len()
    &&& q_ctx.modules[position].path == path
    &&& forall|j: int| 0 <= j < position ==> q_ctx.modules[j].path != path
}

/// What an import asks of its caller next.
#[derive(Debug)]
pub enum ImportStep {
    /// Nothing: the module is in the context's table at this position.
    Module(usize),
    /// To have the engine compile the source that was supplied for this
    /// absolute path and to hand the result to
    /// [`QuickJsRuntime::script_compiled`](crate::quickjsruntime::QuickJsRuntime::script_compiled).
    Compile(String, EsScript),
}

/// The mathematical content of an [`ImportStep`].
pub enum ImportStepView {
    Module(int),
    Compile(Seq<char>, EsScriptView),
}

impl View for ImportStep {
    type V = ImportStepView;

    open spec fn view(&self) -> ImportStepView {
        match self {
            ImportStep::Module(position) => ImportStepView::Module(*position as int),
            ImportStep::Compile(absolute_path, script) => ImportStepView::Compile(
                absolute_path@,
                script@,
            ),
        }
    }
}

/// The view of what an import returned.
pub open spec fn import_view(result: Result<ImportStep, EsError>) -> Result<
    ImportStepView,
    EsErrorView,
> {
    match result {
        Ok(step) => Ok(step@),
        Err(e) => Err(e@),
    }
}

/// The view of a position in a module table, or of the error in its place.
pub open spec fn position_view(result: Result<usize, EsError>) -> Result<int, EsErrorView> {
    match result {
        Ok(position) => Ok(position as int),
        Err(e) => Err(e@),
    }
}

/// Holds of what an import may make of a context and return once a
/// native module was supplied for the absolute path: the module is
/// initialised and enters the table only if that succeeds.
pub open spec fn native_initialised_into(
    loaders: Seq<ModuleLoaderEntry>,
    q_ctx: &QuickJsContext,
    absolute_path: Seq<char>,
    module: NativeModuleDefView,
    after: QuickJsContextView,
    result: Result<ImportStepView, EsErrorView>,
) -> bool {
    exists|exported: NativeModuleDefView, inited: Result<(), EsErrorView>|
        (#[trigger] init_outcome(loaders, q_ctx, module, exported, inited)) && if inited is Ok {
            after == q_ctx@.with_module(absolute_path, ModuleDefView::Native(exported)) && result
                == Ok::<ImportStepView, EsErrorView>(
                ImportStepView::Module(q_ctx@.modules.len() as int),
            )
        } else {
            after == q_ctx@ && result == Err::<ImportStepView, EsErrorView>(inited->Err_0)
        }
}

/// Holds of what an import may make of a context and return once the load
/// has answered `loaded` for the absolute path. A native module is
/// initialised and enters the table. The source of a script module goes
/// back to the caller to be compiled, and the table stays as it is: only a
/// source that compiles enters it.
pub open spec fn initialised_into(
    loaders: Seq<ModuleLoaderEntry>,
    q_ctx: &QuickJsContext,
    absolute_path: Seq<char>,
    loaded: Option<ModuleDefView>,
    after: QuickJsContextView,
    result: Result<ImportStepView, EsErrorView>,
) -> bool {
    match loaded {
        None => after == q_ctx@ && result == Err::<ImportStepView, EsErrorView>(
            module_not_found_error(absolute_path),
        ),
        Some(ModuleDefView::Script(script)) => after == q_ctx@ && result == Ok::<
            ImportStepView,
            EsErrorView,
        >(ImportStepView::Compile(absolute_path, script)),
        Some(ModuleDefView::Native(module)) => native_initialised_into(
            loaders,
            q_ctx,
            absolute_path,
            module,
            after,
            result,
        ),
    }
}

/// Holds of what an import may make of a context and return when the
/// absolute path is not in the context's table yet.
pub open spec fn loaded_into(
    loaders: Seq<ModuleLoaderEntry>,
    q_ctx: &QuickJsContext,
    absolute_path: Seq<char>,
    after: QuickJsContextView,
    result: Result<ImportStepView, EsErrorView>,
) -> bool {
    exists|loaded: Result<Option<ModuleDefView>, EsErrorView>|
        (#[trigger] load_outcome(loaders, q_ctx, absolute_path, loaded)) && match loaded {
            Ok(def) => initialised_into(loaders, q_ctx, absolute_path, def, after, result),
            Err(e) => after == q_ctx@ && result == Err::<ImportStepView, EsErrorView>(e),
        }
}

/// Holds of what an import may make of a context and return once the
/// request was normalized. A path that the table holds gives that module
/// again and changes nothing; any other path is loaded.
pub open spec fn normalized_into(
    loaders: Seq<ModuleLoaderEntry>,
    q_ctx: &QuickJsContext,
    normalized: Result<Seq<char>, EsErrorView>,
    after: QuickJsContextView,
    result: Result<ImportStepView, EsErrorView>,
) -> bool {
    match normalized {
        Ok(absolute_path) => if q_ctx@.has_module(absolute_path) {
            after == q_ctx@ && (result matches Ok(ImportStepView::Module(position))
                && first_position(q_ctx@, absolute_path, position))
        } else {
            loaded_into(loaders, q_ctx, absolute_path, after, result)
        },
        Err(e) => after == q_ctx@ && result == Err::<ImportStepView, EsErrorView>(e),
    }
}

/// Holds of what [`QuickJsRuntime::import_module`](crate::quickjsruntime::QuickJsRuntime::import_module)
/// may make of the context and return. The request is normalized every
/// time. A failure leaves the context as it was.
pub open spec fn import_outcome(
    loaders: Seq<ModuleLoaderEntry>,
    q_ctx: &QuickJsContext,
    ref_path: Seq<char>,
    path: Seq<char>,
    after: QuickJsContextView,
    result: Result<ImportStepView, EsErrorView>,
) -> bool {
    exists|normalized: Result<Seq<char>, EsErrorView>|
        (#[trigger] normalize_outcome(loaders, q_ctx, ref_path, path, normalized))
            && normalized_into(loaders, q_ctx, normalized, after, result)
}

/// What [`QuickJsRuntime::script_compiled`](crate::quickjsruntime::QuickJsRuntime::script_compiled)
/// makes of a context and returns, given what the load of the script
/// module has come to. A failed load leaves the table as it is. A
/// loaded module enters the table under its absolute path, unless an
/// import that ran in between has put the path there already; the result
/// is the position of the path in the table.
pub open spec fn compiled_into(
    q_ctx: QuickJsContextView,
    absolute_path: Seq<char>,
    script: EsScriptView,
    loaded: Result<u64, EsErrorView>,
    after: QuickJsContextView,
    result: Result<int, EsErrorView>,
) -> bool {
    match loaded {
        Ok(_) => if q_ctx.has_module(absolute_path) {
            after == q_ctx && (result matches Ok(position) && first_position(
                q_ctx,
                absolute_path,
                position,
            ))
        } else {
            after == q_ctx.with_module(absolute_path, ModuleDefView::Script(script)) && result
                == Ok::<int, EsErrorView>(q_ctx.modules.len() as int)
        },
        Err(e) => after == q_ctx && result == Err::<int, EsErrorView>(e),
    }
}

/// Every answer that a loader of the chain may give to the request is
/// `None` or the path `absolute_path`.
pub open spec fn request_means(
    loaders: Seq<ModuleLoaderEntry>,
    q_ctx: &QuickJsContext,
    ref_path: Seq<char>,
    path: Seq<char>,
    absolute_path: Seq<char>,
) -> bool {
    forall|i: int, answer: Option<Seq<char>>|
        0 <= i < loaders.len() && #[trigger] loaders[i].normalize_path_outcome(
            q_ctx,
            ref_path,
            path,
            answer,
        ) ==> answer is None || answer == Some(absolute_path)
}

/// What an import came to after its first phase, for a request that can
/// only mean `absolute_path`: the path, or the error that no loader knows
/// the request.
proof fn lemma_import_normalized(
    loaders: Seq<ModuleLoaderEntry>,
    q_ctx: &QuickJsContext,
    ref_path: Seq<char>,
    path: Seq<char>,
    absolute_path: Seq<char>,
    after: QuickJsContextView,
    result: Result<ImportStepView, EsErrorView>,
) -> (normalized: Result<Seq<char>, EsErrorView>)
    requires
        request_means(loaders, q_ctx, ref_path, path, absolute_path),
        import_outcome(loaders, q_ctx, ref_path, path, after, result),
    ensures
        normalized_into(loaders, q_ctx, normalized, after, result),
        normalized == Ok::<Seq<char>, EsErrorView>(absolute_path) || normalized == Err::<
            Seq<char>,
            EsErrorView,
        >(module_not_found_error(path)),
{
    let normalized = choose|normalized: Result<Seq<char>, EsErrorView>|
        (#[trigger] normalize_outcome(loaders, q_ctx, ref_path, path, normalized))
            && normalized_into(loaders, q_ctx, normalized, after, result);
    if let Ok(found) = normalized {
        let i = choose|i: int|
            0 <= i < loaders.len() && (#[trigger] loaders[i]).normalize_path_outcome(
                q_ctx,
                ref_path,
                path,
                Some(found),
            ) && forall|j: int|
                0 <= j < i ==> (#[trigger] loaders[j]).normalize_path_outcome(
                    q_ctx,
                    ref_path,
                    path,
                    None,
                );
        assert(loaders[i].normalize_path_outcome(q_ctx, ref_path, path, Some(found)));
    }
    normalized
}

/// An import of a path that the context's table holds changes nothing,
/// so that no module is loaded, compiled or initialised for it, and gives
/// the module of the table; it can only fail where no loader normalizes
/// the request.
pub proof fn lemma_import_of_loaded_module(
    loaders: Seq<ModuleLoaderEntry>,
    q_ctx: &QuickJsContext,
    ref_path: Seq<char>,
    path: Seq<char>,
    absolute_path: Seq<char>,
    after: QuickJsContextView,
    result: Result<ImportStepView, EsErrorView>,
)
    requires
        request_means(loaders, q_ctx, ref_path, path, absolute_path),
        q_ctx@.has_module(absolute_path),
        import_outcome(loaders, q_ctx, ref_path, path, after, result),
    ensures
        after == q_ctx@,
        result matches Ok(step) ==> (step matches ImportStepView::Module(position)
            && first_position(q_ctx@, absolute_path, position)),
        result matches Err(e) ==> e == module_not_found_error(path),
{
    let normalized = lemma_import_normalized(
        loaders,
        q_ctx,
        ref_path,
        path,
        absolute_path,
        after,
        result,
    );
}

/// An import that ends with a module has put it under its absolute path
/// into the context's table, or has found it there; the result is the
/// first position that holds the path.
pub proof fn lemma_import_loads_module(
    loaders: Seq<ModuleLoaderEntry>,
    q_ctx: &QuickJsContext,
    ref_path: Seq<char>,
    path: Seq<char>,
    absolute_path: Seq<char>,
    after: QuickJsContextView,
    position: int,
)
    requires
        request_means(loaders, q_ctx, ref_path, path, absolute_path),
        import_outcome(
            loaders,
            q_ctx,
            ref_path,
            path,
            after,
            Ok(ImportStepView::Module(position)),
        ),
    ensures
        first_position(after, absolute_path, position),
        after.id == q_ctx@.id,
        q_ctx@.well_formed() ==> after.well_formed(),
{
    let result = Ok::<ImportStepView, EsErrorView>(ImportStepView::Module(position));
    let normalized = lemma_import_normalized(
        loaders,
        q_ctx,
        ref_path,
        path,
        absolute_path,
        after,
        result,
    );
    if !q_ctx@.has_module(absolute_path) {
        let loaded = choose|loaded: Result<Option<ModuleDefView>, EsErrorView>|
            (#[trigger] load_outcome(loaders, q_ctx, absolute_path, loaded)) && match loaded {
                Ok(def) => initialised_into(loaders, q_ctx, absolute_path, def, after, result),
                Err(e) => after == q_ctx@ && result == Err::<ImportStepView, EsErrorView>(e),
            };
        let added: ModuleDefView = after.modules[position].def;
        assert(after == q_ctx@.with_module(absolute_path, added) && position
            == q_ctx@.modules.len());
        lemma_module_added(q_ctx@, absolute_path, added);
    }
}

/// A module that is added under a path which the table does not hold
/// stands at the first position of that path, and the table stays free of
/// duplicates.
proof fn lemma_module_added(q_ctx: QuickJsContextView, absolute_path: Seq<char>, def: ModuleDefView)
    requires
        !q_ctx.has_module(absolute_path),
    ensures
        first_position(
            q_ctx.with_module(absolute_path, def),
            absolute_path,
            q_ctx.modules.len() as int,
        ),
        q_ctx.well_formed() ==> q_ctx.with_module(absolute_path, def).well_formed(),
{
    let after = q_ctx.with_module(absolute_path, def);
    let position = q_ctx.modules.len() as int;
    assert(after.modules[position].path == absolute_path);
    assert forall|j: int| 0 <= j < position implies after.modules[j].path != absolute_path by {
        assert(after.modules[j] == q_ctx.modules[j]);
    }
    if q_ctx.well_formed() {
        lemma_with_module_well_formed(q_ctx, absolute_path, def);
    }
}

/// A script module whose source compiled stands in the context's table
/// under its absolute path, at the first position that holds the path;
/// one that failed to load is not in the table on that account.
pub proof fn lemma_compiled_script_is_loaded(
    q_ctx: QuickJsContextView,
    absolute_path: Seq<char>,
    script: EsScriptView,
    loaded: Result<u64, EsErrorView>,
    after: QuickJsContextView,
    result: Result<int, EsErrorView>,
)
    requires
        compiled_into(q_ctx, absolute_path, script, loaded, after, result),
    ensures
        result is Ok <==> loaded is Ok,
        result matches Ok(position) ==> first_position(after, absolute_path, position),
        result is Err ==> after == q_ctx && result->Err_0 == loaded->Err_0,
        after.id == q_ctx.id,
        q_ctx.well_formed() ==> after.well_formed(),
{
    if loaded is Ok && !q_ctx.has_module(absolute_path) {
        lemma_module_added(q_ctx, absolute_path, ModuleDefView::Script(script));
    }
}

/// Importing the same path twice into a context loads it once: where the
/// table holds the path at `position`, as it does after the first import,
/// another import of a request that means this path leaves the table as
/// it is and gives the module at `position` again.
pub proof fn lemma_import_twice(
    loaders: Seq<ModuleLoaderEntry>,
    q_ctx: &QuickJsContext,
    ref_path: Seq<char>,
    path: Seq<char>,
    absolute_path: Seq<char>,
    position: int,
    after: QuickJsContextView,
    result: Result<ImportStepView, EsErrorView>,
)
    requires
        request_means(loaders, q_ctx, ref_path, path, absolute_path),
        first_position(q_ctx@, absolute_path, position),
        import_outcome(loaders, q_ctx, ref_path, path, after, result),
    ensures
        after == q_ctx@,
        result matches Ok(step) ==> step == ImportStepView::Module(position),
        result matches Err(e) ==> e == module_not_found_error(path),
{
    assert(q_ctx@.modules[position].path == absolute_path);
    lemma_import_of_loaded_module(loaders, q_ctx, ref_path, path, absolute_path, after, result);
    if let Ok(ImportStepView::Module(again)) = result {
        if again < position {
            assert(q_ctx@.modules[again].path != absolute_path);
        } else if position < again {
            assert(q_ctx@.modules[position].path != absolute_path);
        }
    }
}

} // verus!
