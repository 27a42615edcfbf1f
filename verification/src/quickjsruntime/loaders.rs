//! Module loaders: what the host implements, and the adapters that make
//! loaders of the chain of them.
//!
//! What a call of a loader may return is described by a relation that the
//! implementation chooses, the `.._outcome` function that goes with the
//! method. An implementation that defines none leaves the relation at
//! `true`: anything may come back.

use vstd::prelude::*;
use vstd::string::*;
use crate::eserror::EsError;
use crate::eserror::EsErrorView;
use crate::esscript::EsScript;
use crate::esscript::EsScriptView;
use crate::quickjs_utils::modules::add_export_result;
use crate::quickjs_utils::modules::add_module_export;
use crate::quickjs_utils::modules::get_module_name;
use crate::quickjs_utils::modules::has_nul;
use crate::quickjs_utils::modules::new_module;
use crate::quickjs_utils::modules::other_error;
use crate::quickjs_utils::modules::set_export_result;
use crate::quickjs_utils::modules::set_module_export;
use crate::quickjs_utils::modules::ModuleDef;
use crate::quickjs_utils::modules::ModuleDefView;
use crate::quickjs_utils::modules::NativeModuleDef;
use crate::quickjs_utils::modules::NativeModuleDefView;
use crate::quickjscontext::QuickJsContext;
use crate::valueref::opt_text;
use crate::valueref::JSValueRef;
use crate::valueref::JSValueRefView;

verus! {

/// The view of what a load returned.
pub open spec fn load_view(result: Result<ModuleDef, EsError>) -> Result<ModuleDefView, EsErrorView> {
    match result {
        Ok(def) => Ok(def@),
        Err(e) => Err(e@),
    }
}

/// The view of a result without a value.
pub open spec fn unit_view(result: Result<(), EsError>) -> Result<(), EsErrorView> {
    match result {
        Ok(_) => Ok(()),
        Err(e) => Err(e@),
    }
}

/// The views of a list of string slices.
pub open spec fn strs_view(names: Seq<&str>) -> Seq<Seq<char>> {
    Seq::new(names.len(), |i: int| names[i]@)
}

/// The views of a list of named values.
pub open spec fn named_view(exports: Seq<(&str, JSValueRef)>) -> Seq<(Seq<char>, JSValueRefView)> {
    Seq::new(exports.len(), |i: int| (exports[i].0@, exports[i].1@))
}

/// The loader that the loader chain works with. It answers the three
/// questions of an import: which absolute path a request means, what stands
/// behind an absolute path, and which values a native module exports.
pub trait ModuleLoader {
    /// Holds of every `result` that `normalize_path` may return.
    spec fn normalize_path_outcome(
        &self,
        q_ctx: &QuickJsContext,
        ref_path: Seq<char>,
        path: Seq<char>,
        result: Option<Seq<char>>,
    ) -> bool;

    /// Holds of every `result` that `load_module` may return.
    spec fn load_module_outcome(
        &self,
        q_ctx: &QuickJsContext,
        absolute_path: Seq<char>,
        result: Result<ModuleDefView, EsErrorView>,
    ) -> bool;

    /// Holds of every `result` that `has_module` may return.
    spec fn has_module_outcome(
        &self,
        q_ctx: &QuickJsContext,
        absolute_path: Seq<char>,
        result: bool,
    ) -> bool;

    /// Holds of every `result` that `init_module` may return and of the
    /// module as it may leave it.
    spec fn init_module_outcome(
        &self,
        q_ctx: &QuickJsContext,
        before: NativeModuleDefView,
        after: NativeModuleDefView,
        result: Result<(), EsErrorView>,
    ) -> bool;

    /// Turns a possibly relative path into an absolute one. `None`
    /// means that this loader cannot serve the path.
    fn normalize_path(&self, q_ctx: &QuickJsContext, ref_path: &str, path: &str) -> (result: Option<
        String,
    >)
        ensures
            self.normalize_path_outcome(q_ctx, ref_path@, path@, opt_text(result)),
    ;

    /// Supplies the module behind an absolute path.
    fn load_module(&self, q_ctx: &QuickJsContext, absolute_path: &str) -> (result: Result<
        ModuleDef,
        EsError,
    >)
        ensures
            self.load_module_outcome(q_ctx, absolute_path@, load_view(result)),
    ;

    /// Tells whether this loader can supply the module behind an absolute path.
    fn has_module(&self, q_ctx: &QuickJsContext, absolute_path: &str) -> (result: bool)
        ensures
            self.has_module_outcome(q_ctx, absolute_path@, result),
    ;

    /// Assigns the export values of a native module that this loader supplied.
    fn init_module(&self, q_ctx: &QuickJsContext, module: &mut NativeModuleDef) -> (result: Result<
        (),
        EsError,
    >)
        ensures
            self.init_module_outcome(q_ctx, old(module)@, final(module)@, unit_view(result)),
    ;
}

/// A loader of script modules, as the host implements it.
pub trait ScriptModuleLoader {
    /// Holds of every `result` that `normalize_path` may return.
    open spec fn normalize_path_outcome(
        &self,
        ref_path: Seq<char>,
        path: Seq<char>,
        result: Option<Seq<char>>,
    ) -> bool {
        true
    }

    /// Holds of every source text that `load_module` may return.
    open spec fn load_module_outcome(&self, absolute_path: Seq<char>, code: Seq<char>) -> bool {
        true
    }

    fn normalize_path(&self, ref_path: &str, path: &str) -> (result: Option<String>)
        ensures
            self.normalize_path_outcome(ref_path@, path@, opt_text(result)),
    ;

    fn load_module(&self, absolute_path: &str) -> (code: String)
        ensures
            self.load_module_outcome(absolute_path@, code@),
    ;
}

/// A loader of native modules, as the host implements it.
pub trait NativeModuleLoader {
    /// Holds of every `result` that `has_module` may return.
    open spec fn has_module_outcome(
        &self,
        q_ctx: &QuickJsContext,
        module_name: Seq<char>,
        result: bool,
    ) -> bool {
        true
    }

    /// Holds of every list of names that `get_module_export_names` may return.
    open spec fn get_module_export_names_outcome(
        &self,
        q_ctx: &QuickJsContext,
        module_name: Seq<char>,
        names: Seq<Seq<char>>,
    ) -> bool {
        true
    }

    /// Holds of every list of named values that `get_module_exports` may return.
    open spec fn get_module_exports_outcome(
        &self,
        q_ctx: &QuickJsContext,
        module_name: Seq<char>,
        exports: Seq<(Seq<char>, JSValueRefView)>,
    ) -> bool {
        true
    }

    fn has_module(&self, q_ctx: &QuickJsContext, module_name: &str) -> (result: bool)
        ensures
            self.has_module_outcome(q_ctx, module_name@, result),
    ;

    fn get_module_export_names(&self, q_ctx: &QuickJsContext, module_name: &str) -> (names: Vec<
        &str,
    >)
        ensures
            self.get_module_export_names_outcome(q_ctx, module_name@, strs_view(names@)),
    ;

    fn get_module_exports(&self, q_ctx: &QuickJsContext, module_name: &str) -> (exports: Vec<
        (&str, JSValueRef),
    >)
        ensures
            self.get_module_exports_outcome(q_ctx, module_name@, named_view(exports@)),
    ;
}

/// Makes a [`ModuleLoader`] of a [`ScriptModuleLoader`].
pub struct ScriptModuleLoaderAdapter {
    pub inner: Box<dyn ScriptModuleLoader>,
}

impl ScriptModuleLoaderAdapter {
    pub fn new(loader: Box<dyn ScriptModuleLoader>) -> (adapter: Self)
        ensures
            adapter == (ScriptModuleLoaderAdapter { inner: loader }),
    {
        Self { inner: loader }
    }
}

impl ModuleLoader for ScriptModuleLoaderAdapter {
    open spec fn normalize_path_outcome(
        &self,
        q_ctx: &QuickJsContext,
        ref_path: Seq<char>,
        path: Seq<char>,
        result: Option<Seq<char>>,
    ) -> bool {
        self.inner.normalize_path_outcome(ref_path, path, result)
    }

    /// The source text that the inner loader returned, under the path it was
    /// asked for. The engine has yet to compile it: whether the load has
    /// succeeded is decided by
    /// [`script_module_loaded`](crate::quickjs_utils::modules::script_module_loaded)
    /// once the result of that is there.
    open spec fn load_module_outcome(
        &self,
        q_ctx: &QuickJsContext,
        absolute_path: Seq<char>,
        result: Result<ModuleDefView, EsErrorView>,
    ) -> bool {
        exists|code: Seq<char>| #[trigger]
            self.inner.load_module_outcome(absolute_path, code) && result == Ok::<
                ModuleDefView,
                EsErrorView,
            >(ModuleDefView::Script(EsScriptView { path: absolute_path, code }))
    }

    /// A script loader has a module if it normalizes the module's path,
    /// taken relative to itself.
    open spec fn has_module_outcome(
        &self,
        q_ctx: &QuickJsContext,
        absolute_path: Seq<char>,
        result: bool,
    ) -> bool {
        exists|normalized: Option<Seq<char>>| #[trigger]
            self.inner.normalize_path_outcome(absolute_path, absolute_path, normalized) && result
                == normalized is Some
    }

    /// Script modules have nothing to initialise.
    open spec fn init_module_outcome(
        &self,
        q_ctx: &QuickJsContext,
        before: NativeModuleDefView,
        after: NativeModuleDefView,
        result: Result<(), EsErrorView>,
    ) -> bool {
        after == before && result is Ok
    }

    fn normalize_path(&self, _q_ctx: &QuickJsContext, ref_path: &str, path: &str) -> (result: Option<
        String,
    >) {
        self.inner.normalize_path(ref_path, path)
    }

    fn load_module(&self, q_ctx: &QuickJsContext, absolute_path: &str) -> (result: Result<
        ModuleDef,
        EsError,
    >) {
        let code = self.inner.load_module(absolute_path);
        Ok(ModuleDef::Script(EsScript::new(absolute_path, code.as_str())))
    }

    fn has_module(&self, q_ctx: &QuickJsContext, absolute_path: &str) -> (result: bool) {
        self.normalize_path(q_ctx, absolute_path, absolute_path).is_some()
    }

    fn init_module(&self, _q_ctx: &QuickJsContext, _module: &mut NativeModuleDef) -> (result: Result<
        (),
        EsError,
    >) {
        Ok(())
    }
}

/// A module after the names of `names` were declared in turn, or the error
/// of the first declaration that fails.
pub open spec fn declare_all(module: NativeModuleDefView, names: Seq<Seq<char>>) -> Result<
    NativeModuleDefView,
    EsErrorView,
>
    decreases names.len(),
{
    if names.len() == 0 {
        Ok(module)
    } else {
        match add_export_result(module, names[0]) {
            Ok(declared) => declare_all(declared, names.drop_first()),
            Err(e) => Err(e),
        }
    }
}

/// A module after the values of `exports` were assigned in turn, together
/// with the error of the first assignment that fails, after which no more
/// are made.
pub open spec fn assign_all(
    module: NativeModuleDefView,
    exports: Seq<(Seq<char>, JSValueRefView)>,
) -> (NativeModuleDefView, Result<(), EsErrorView>)
    decreases exports.len(),
{
    if exports.len() == 0 {
        (module, Ok(()))
    } else {
        match set_export_result(module, exports[0].0, exports[0].1) {
            Ok(assigned) => assign_all(assigned, exports.drop_first()),
            Err(e) => (module, Err(e)),
        }
    }
}

/// What a native loader's module is when it is loaded: all export names
/// declared, no value assigned.
pub open spec fn native_load_result(absolute_path: Seq<char>, names: Seq<Seq<char>>) -> Result<
    ModuleDefView,
    EsErrorView,
> {
    match declare_all(NativeModuleDefView::empty(absolute_path), names) {
        Ok(module) => Ok(ModuleDefView::Native(module)),
        Err(e) => Err(e),
    }
}

/// Makes a [`ModuleLoader`] of a [`NativeModuleLoader`].
pub struct NativeModuleLoaderAdapter {
    pub inner: Box<dyn NativeModuleLoader>,
}

impl NativeModuleLoaderAdapter {
    pub fn new(loader: Box<dyn NativeModuleLoader>) -> (adapter: Self)
        ensures
            adapter == (NativeModuleLoaderAdapter { inner: loader }),
    {
        Self { inner: loader }
    }
}

impl ModuleLoader for NativeModuleLoaderAdapter {
    /// A native module's name is its absolute path: the loader normalizes
    /// the names of the modules it has to themselves, and no others.
    open spec fn normalize_path_outcome(
        &self,
        q_ctx: &QuickJsContext,
        ref_path: Seq<char>,
        path: Seq<char>,
        result: Option<Seq<char>>,
    ) -> bool {
        &&& self.inner.has_module_outcome(q_ctx, path, result is Some)
        &&& result matches Some(normalized) ==> normalized == path
    }

    /// The module with the export names that the inner loader returned, all
    /// declared and none assigned. A NUL in the module's name or in an export
    /// name is an error.
    open spec fn load_module_outcome(
        &self,
        q_ctx: &QuickJsContext,
        absolute_path: Seq<char>,
        result: Result<ModuleDefView, EsErrorView>,
    ) -> bool {
        if has_nul(absolute_path) {
            result == Err::<ModuleDefView, EsErrorView>(other_error("CString failed"@))
        } else {
            exists|names: Seq<Seq<char>>| #[trigger]
                self.inner.get_module_export_names_outcome(q_ctx, absolute_path, names) && result
                    == native_load_result(absolute_path, names)
        }
    }

    open spec fn has_module_outcome(
        &self,
        q_ctx: &QuickJsContext,
        absolute_path: Seq<char>,
        result: bool,
    ) -> bool {
        self.inner.has_module_outcome(q_ctx, absolute_path, result)
    }

    /// The values that the inner loader returned for the module's name are
    /// assigned in turn, up to the first one that cannot be.
    open spec fn init_module_outcome(
        &self,
        q_ctx: &QuickJsContext,
        before: NativeModuleDefView,
        after: NativeModuleDefView,
        result: Result<(), EsErrorView>,
    ) -> bool {
        exists|exports: Seq<(Seq<char>, JSValueRefView)>| #[trigger]
            self.inner.get_module_exports_outcome(q_ctx, before.name, exports) && assign_all(
                before,
                exports,
            ) == (after, result)
    }

    fn normalize_path(&self, q_ctx: &QuickJsContext, _ref_path: &str, path: &str) -> (result: Option<
        String,
    >) {
        if self.inner.has_module(q_ctx, path) {
            Some(String::from_str(path))
        } else {
            None
        }
    }

    fn load_module(&self, q_ctx: &QuickJsContext, absolute_path: &str) -> (result: Result<
        ModuleDef,
        EsError,
    >) {
        let mut module = match new_module(absolute_path) {
            Ok(module) => module,
            Err(e) => {
                return Err(e);
            },
        };
        let names = self.inner.get_module_export_names(q_ctx, absolute_path);
        let ghost all = strs_view(names@);
        let ghost start = module@;
        let mut i: usize = 0;
        assert(all.skip(0) =~= all);
        while i < names.len()
            invariant
                i <= names@.len(),
                all == strs_view(names@),
                !has_nul(absolute_path@),
                start == NativeModuleDefView::empty(absolute_path@),
                self.inner.get_module_export_names_outcome(q_ctx, absolute_path@, all),
                declare_all(module@, all.skip(i as int)) == declare_all(start, all),
            decreases names@.len() - i,
        {
            let ghost rest = all.skip(i as int);
            let ghost before = module@;
            assert(rest[0] == names@[i as int]@);
            assert(rest.drop_first() =~= all.skip(i + 1));
            match add_module_export(&mut module, names[i]) {
                Ok(()) => {
                    assert(declare_all(before, rest) == declare_all(module@, rest.drop_first()));
                },
                Err(e) => {
                    assert(declare_all(before, rest) == Err::<NativeModuleDefView, EsErrorView>(e@));
                    return Err(e);
                },
            }
            i = i + 1;
        }
        assert(all.skip(i as int).len() == 0);
        Ok(ModuleDef::Native(module))
    }

    fn has_module(&self, q_ctx: &QuickJsContext, absolute_path: &str) -> (result: bool) {
        self.inner.has_module(q_ctx, absolute_path)
    }

    fn init_module(&self, q_ctx: &QuickJsContext, module: &mut NativeModuleDef) -> (result: Result<
        (),
        EsError,
    >) {
        let module_name = match get_module_name(module) {
            Ok(name) => name,
            Err(e) => {
                return Err(e);
            },
        };
        let mut exports = self.inner.get_module_exports(q_ctx, module_name.as_str());
        let ghost all = named_view(exports@);
        while exports.len() > 0
            invariant
                self.inner.get_module_exports_outcome(q_ctx, old(module)@.name, all),
                assign_all(module@, named_view(exports@)) == assign_all(old(module)@, all),
            decreases exports@.len(),
        {
            let ghost rest = named_view(exports@);
            let ghost before = module@;
            let (name, value) = exports.remove(0);
            assert(rest[0] == (name@, value@));
            assert(named_view(exports@) =~= rest.drop_first());
            match set_module_export(module, name, value) {
                Ok(()) => {
                    assert(assign_all(before, rest) == assign_all(module@, rest.drop_first()));
                },
                Err(e) => {
                    assert(assign_all(before, rest) == (
                        before,
                        Err::<(), EsErrorView>(e@),
                    ));
                    return Err(e);
                },
            }
        }
        Ok(())
    }
}

/// One loader of the chain: the adapter of a script loader or of a native one.
pub enum ModuleLoaderEntry {
    Script(ScriptModuleLoaderAdapter),
    Native(NativeModuleLoaderAdapter),
}

impl ModuleLoader for ModuleLoaderEntry {
    open spec fn normalize_path_outcome(
        &self,
        q_ctx: &QuickJsContext,
        ref_path: Seq<char>,
        path: Seq<char>,
        result: Option<Seq<char>>,
    ) -> bool {
        match self {
            ModuleLoaderEntry::Script(loader) => loader.normalize_path_outcome(
                q_ctx,
                ref_path,
                path,
                result,
            ),
            ModuleLoaderEntry::Native(loader) => loader.normalize_path_outcome(
                q_ctx,
                ref_path,
                path,
                result,
            ),
        }
    }

    open spec fn load_module_outcome(
        &self,
        q_ctx: &QuickJsContext,
        absolute_path: Seq<char>,
        result: Result<ModuleDefView, EsErrorView>,
    ) -> bool {
        match self {
            ModuleLoaderEntry::Script(loader) => loader.load_module_outcome(
                q_ctx,
                absolute_path,
                result,
            ),
            ModuleLoaderEntry::Native(loader) => loader.load_module_outcome(
                q_ctx,
                absolute_path,
                result,
            ),
        }
    }

    open spec fn has_module_outcome(
        &self,
        q_ctx: &QuickJsContext,
        absolute_path: Seq<char>,
        result: bool,
    ) -> bool {
        match self {
            ModuleLoaderEntry::Script(loader) => loader.has_module_outcome(
                q_ctx,
                absolute_path,
                result,
            ),
            ModuleLoaderEntry::Native(loader) => loader.has_module_outcome(
                q_ctx,
                absolute_path,
                result,
            ),
        }
    }

    open spec fn init_module_outcome(
        &self,
        q_ctx: &QuickJsContext,
        before: NativeModuleDefView,
        after: NativeModuleDefView,
        result: Result<(), EsErrorView>,
    ) -> bool {
        match self {
            ModuleLoaderEntry::Script(loader) => loader.init_module_outcome(
                q_ctx,
                before,
                after,
                result,
            ),
            ModuleLoaderEntry::Native(loader) => loader.init_module_outcome(
                q_ctx,
                before,
                after,
                result,
            ),
        }
    }

    fn normalize_path(&self, q_ctx: &QuickJsContext, ref_path: &str, path: &str) -> (result: Option<
        String,
    >) {
        match self {
            ModuleLoaderEntry::Script(loader) => loader.normalize_path(q_ctx, ref_path, path),
            ModuleLoaderEntry::Native(loader) => loader.normalize_path(q_ctx, ref_path, path),
        }
    }

    fn load_module(&self, q_ctx: &QuickJsContext, absolute_path: &str) -> (result: Result<
        ModuleDef,
        EsError,
    >) {
        match self {
            ModuleLoaderEntry::Script(loader) => loader.load_module(q_ctx, absolute_path),
            ModuleLoaderEntry::Native(loader) => loader.load_module(q_ctx, absolute_path),
        }
    }

    fn has_module(&self, q_ctx: &QuickJsContext, absolute_path: &str) -> (result: bool) {
        match self {
            ModuleLoaderEntry::Script(loader) => loader.has_module(q_ctx, absolute_path),
            ModuleLoaderEntry::Native(loader) => loader.has_module(q_ctx, absolute_path),
        }
    }

    fn init_module(&self, q_ctx: &QuickJsContext, module: &mut NativeModuleDef) -> (result: Result<
        (),
        EsError,
    >) {
        match self {
            ModuleLoaderEntry::Script(loader) => loader.init_module(q_ctx, module),
            ModuleLoaderEntry::Native(loader) => loader.init_module(q_ctx, module),
        }
    }
}

} // verus!
