//! One isolated global scope of the engine, with the table of the modules
//! that were loaded into it.

use vstd::prelude::*;
use vstd::string::*;
use crate::quickjs_utils::modules::ModuleDef;
use crate::quickjs_utils::modules::ModuleDefView;

verus! {

/// A module of a context's table: the normalized path it was loaded under,
/// and its definition.
#[derive(Debug)]
pub struct LoadedModule {
    path: String,
    def: ModuleDef,
}

/// The mathematical content of a [`LoadedModule`].
pub struct LoadedModuleView {
    pub path: Seq<char>,
    pub def: ModuleDefView,
}

impl View for LoadedModule {
    type V = LoadedModuleView;

    closed spec fn view(&self) -> LoadedModuleView {
        LoadedModuleView { path: self.path@, def: self.def@ }
    }
}

impl LoadedModule {
    pub fn get_path(&self) -> (path: &str)
        ensures
            path@ == self@.path,
    {
        self.path.as_str()
    }

    pub fn get_def(&self) -> (def: &ModuleDef)
        ensures
            def@ == self@.def,
    {
        &self.def
    }
}

/// A context: its id, which is unique within the engine and never changes,
/// its module table in the order of loading, and whether its drop has
/// begun.
#[derive(Debug)]
pub struct QuickJsContext {
    id: String,
    modules: Vec<LoadedModule>,
    dropping: bool,
}

/// The mathematical content of a [`QuickJsContext`].
pub struct QuickJsContextView {
    pub id: Seq<char>,
    pub modules: Seq<LoadedModuleView>,
    /// The release of the context's native resources has been ordered; the
    /// context is still in the registry.
    pub dropping: bool,
}

/// The views of the modules of a table.
pub open spec fn modules_view(modules: Seq<LoadedModule>) -> Seq<LoadedModuleView> {
    Seq::new(modules.len(), |i: int| modules[i]@)
}

impl QuickJsContextView {
    /// Whether a module was loaded under `path`.
    pub open spec fn has_module(self, path: Seq<char>) -> bool {
        exists|i: int| 0 <= i < self.modules.len() && self.modules[i].path == path
    }

    /// No path occurs twice in the table.
    pub open spec fn well_formed(self) -> bool {
        forall|i: int, j: int|
            0 <= i < j < self.modules.len() ==> self.modules[i].path != self.modules[j].path
    }

    /// The context with one more module at the end of its table.
    pub open spec fn with_module(self, path: Seq<char>, def: ModuleDefView) -> QuickJsContextView {
        QuickJsContextView {
            modules: self.modules.push(LoadedModuleView { path, def }),
            ..self
        }
    }
}

impl View for QuickJsContext {
    type V = QuickJsContextView;

    closed spec fn view(&self) -> QuickJsContextView {
        QuickJsContextView {
            id: self.id@,
            modules: modules_view(self.modules@),
            dropping: self.dropping,
        }
    }
}

impl QuickJsContext {
    /// A context with the given id and an empty module table.
    pub fn new(id: String) -> (q_ctx: QuickJsContext)
        ensures
            q_ctx@.id == id@,
            q_ctx@.modules.len() == 0,
            !q_ctx@.dropping,
            q_ctx@.well_formed(),
    {
        QuickJsContext { id, modules: Vec::new(), dropping: false }
    }

    /// Whether the drop of this context has begun.
    pub fn is_dropping(&self) -> (dropping: bool)
        ensures
            dropping == self@.dropping,
    {
        self.dropping
    }

    /// Records that the drop of this context has begun.
    pub(crate) fn begin_drop(&mut self)
        ensures
            final(self)@ == (QuickJsContextView { dropping: true, ..old(self)@ }),
    {
        self.dropping = true;
    }

    pub fn get_id(&self) -> (id: &str)
        ensures
            id@ == self@.id,
    {
        self.id.as_str()
    }

    /// The number of modules in the table.
    pub fn count_modules(&self) -> (n: usize)
        ensures
            n == self@.modules.len(),
    {
        self.modules.len()
    }

    /// The module at position `index` of the table.
    pub fn get_module(&self, index: usize) -> (module: &LoadedModule)
        requires
            index < self@.modules.len(),
        ensures
            module@ == self@.modules[index as int],
    {
        &self.modules[index]
    }

    /// The position of the first module that was loaded under `path`.
    pub fn find_module(&self, path: &str) -> (found: Option<usize>)
        ensures
            found is Some <==> self@.has_module(path@),
            found matches Some(i) ==> i < self@.modules.len() && self@.modules[i as int].path
                == path@ && forall|j: int| 0 <= j < i ==> self@.modules[j].path != path@,
    {
        let wanted = String::from_str(path);
        let mut i: usize = 0;
        while i < self.modules.len()
            invariant
                i <= self.modules@.len(),
                wanted@ == path@,
                forall|j: int| 0 <= j < i ==> self@.modules[j].path != path@,
            decreases self.modules@.len() - i,
        {
            if self.modules[i].path == wanted {
                assert(self@.modules[i as int].path == path@);
                return Some(i);
            }
            i = i + 1;
        }
        None
    }

    /// Adds a module to the end of the table.
    pub(crate) fn add_module(&mut self, path: String, def: ModuleDef)
        ensures
            final(self)@ == old(self)@.with_module(path@, def@),
    {
        let ghost before = self@;
        self.modules.push(LoadedModule { path, def });
        assert(self@.modules =~= before.modules.push(LoadedModuleView { path: path@, def: def@ }));
    }
}

/// Adding a module under a path that the table does not hold keeps the
/// table free of duplicates.
pub proof fn lemma_with_module_well_formed(
    q_ctx: QuickJsContextView,
    path: Seq<char>,
    def: ModuleDefView,
)
    requires
        q_ctx.well_formed(),
        !q_ctx.has_module(path),
    ensures
        q_ctx.with_module(path, def).well_formed(),
        q_ctx.with_module(path, def).has_module(path),
{
    let after = q_ctx.with_module(path, def);
    assert(after.modules[q_ctx.modules.len() as int].path == path);
    assert forall|i: int, j: int| 0 <= i < j < after.modules.len() implies after.modules[i].path
        != after.modules[j].path by {
        assert(after.modules[i] == q_ctx.modules[i]);
        if j < q_ctx.modules.len() {
            assert(after.modules[j] == q_ctx.modules[j]);
        }
    }
}

} // verus!
