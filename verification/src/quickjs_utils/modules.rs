//! Module definitions and the two entry points through which the engine asks
//! for a module: to normalize a requested path, and to load what stands
//! behind a normalized path.

use vstd::prelude::*;
use vstd::string::*;
use crate::eserror::error_text;
use crate::eserror::EsError;
use crate::eserror::EsErrorView;
use crate::eserror::ErrorKind;
use crate::esscript::EsScript;
use crate::esscript::EsScriptView;
use crate::quickjscontext::QuickJsContext;
use crate::quickjsruntime::imports::first_claim;
use crate::quickjsruntime::imports::no_claim;
use crate::quickjsruntime::ModuleLoader;
use crate::quickjsruntime::ModuleLoaderEntry;
use crate::quickjsruntime::QuickJsRuntime;
use crate::valueref::JSValue;
use crate::valueref::JSValueRef;
use crate::valueref::JSValueRefView;
use crate::valueref::TAG_EXCEPTION;
use crate::valueref::TAG_MODULE;

verus! {

/// Whether `text` holds the character NUL. The engine takes names as
/// NUL-terminated strings, so such a text cannot be handed to it.
pub open spec fn has_nul(text: Seq<char>) -> bool {
    text.contains('\0')
}

/// The UTF-8 encoding of a scalar value holds a zero byte only if the
/// value is zero.
proof fn lemma_scalar_encoding_nul(scalar: u32)
    requires
        vstd::utf8::is_scalar(scalar),
    ensures
        vstd::utf8::encode_scalar(scalar).contains(0u8) <==> scalar == 0,
{
    let bytes = vstd::utf8::encode_scalar(scalar);
    assert(scalar <= 0x7F ==> ((scalar & 0x7F) as u8 == 0u8 <==> scalar == 0)) by (bit_vector);
    assert(0xC0u8 | ((scalar >> 6) & 0x1F) as u8 != 0u8) by (bit_vector);
    assert(0xE0u8 | ((scalar >> 12) & 0x0F) as u8 != 0u8) by (bit_vector);
    assert(0xF0u8 | ((scalar >> 18) & 0x7) as u8 != 0u8) by (bit_vector);
    assert(0x80u8 | (scalar & 0x3F) as u8 != 0u8) by (bit_vector);
    assert(0x80u8 | ((scalar >> 6) & 0x3F) as u8 != 0u8) by (bit_vector);
    assert(0x80u8 | ((scalar >> 12) & 0x3F) as u8 != 0u8) by (bit_vector);
    if scalar == 0 {
        assert(bytes[0] == 0u8);
    }
    if bytes.contains(0u8) {
        let i = choose|i: int| 0 <= i < bytes.len() && bytes[i] == 0u8;
        assert(bytes[i] == 0u8);
    }
}

/// A text holds the character NUL exactly if its UTF-8 encoding holds a
/// zero byte.
pub proof fn lemma_encoding_nul(text: Seq<char>)
    ensures
        vstd::utf8::encode_utf8(text).contains(0u8) <==> has_nul(text),
    decreases text.len(),
{
    let bytes = vstd::utf8::encode_utf8(text);
    if text.len() == 0 {
        assert(bytes.len() == 0);
    } else {
        let head = vstd::utf8::encode_scalar(text[0] as u32);
        let tail = vstd::utf8::encode_utf8(text.drop_first());
        vstd::utf8::char_is_scalar(text[0]);
        lemma_scalar_encoding_nul(text[0] as u32);
        lemma_encoding_nul(text.drop_first());
        assert(bytes == head + tail);
        assert(text[0] as u32 == 0 <==> text[0] == '\0') by {
            vstd::utf8::char_u32_cast(text[0], text[0] as u32);
            vstd::utf8::char_u32_cast('\0', 0u32);
        }
        if bytes.contains(0u8) {
            let i = choose|i: int| 0 <= i < bytes.len() && bytes[i] == 0u8;
            if i < head.len() {
                assert(head[i] == 0u8);
                assert(text[0] == '\0');
            } else {
                assert(tail[i - head.len()] == 0u8);
                let k = choose|k: int|
                    0 <= k < text.drop_first().len() && text.drop_first()[k] == '\0';
                assert(text[k + 1] == '\0');
            }
        }
        if text.contains('\0') {
            let k = choose|k: int| 0 <= k < text.len() && text[k] == '\0';
            if k == 0 {
                let j = choose|j: int| 0 <= j < head.len() && head[j] == 0u8;
                assert(bytes[j] == 0u8);
            } else {
                assert(text.drop_first()[k - 1] == '\0');
                let j = choose|j: int| 0 <= j < tail.len() && tail[j] == 0u8;
                assert(bytes[head.len() + j] == 0u8);
            }
        }
    }
}

/// An error of kind [`ErrorKind::Other`] with the given message and no stack.
pub open spec fn other_error(message: Seq<char>) -> EsErrorView {
    EsErrorView { kind: ErrorKind::Other, message, stack: Seq::<char>::empty() }
}

/// Tells whether `text` holds a zero byte.
pub fn contains_nul(text: &str) -> (found: bool)
    ensures
        found == has_nul(text@),
{
    let bytes = text.as_bytes();
    let mut i: usize = 0;
    proof {
        lemma_encoding_nul(text@);
    }
    while i < bytes.len()
        invariant
            i <= bytes@.len(),
            bytes@ == vstd::utf8::encode_utf8(text@),
            bytes@.contains(0u8) <==> has_nul(text@),
            forall|j: int| 0 <= j < i ==> bytes@[j] != 0u8,
        decreases bytes@.len() - i,
    {
        if bytes[i] == 0u8 {
            return true;
        }
        i = i + 1;
    }
    false
}

/// The definition of a native module: its name, the export names it has
/// declared, and the values that were assigned to them so far, in the order
/// of assignment.
#[derive(Debug)]
pub struct NativeModuleDef {
    name: String,
    export_names: Vec<String>,
    exports: Vec<(String, JSValueRef)>,
}

/// The mathematical content of a [`NativeModuleDef`].
pub struct NativeModuleDefView {
    pub name: Seq<char>,
    pub export_names: Seq<Seq<char>>,
    pub exports: Seq<(Seq<char>, JSValueRefView)>,
}

impl NativeModuleDefView {
    /// A module of this name with nothing declared.
    pub open spec fn empty(name: Seq<char>) -> NativeModuleDefView {
        NativeModuleDefView { name, export_names: Seq::empty(), exports: Seq::empty() }
    }

    /// Every name that has a value was declared.
    pub open spec fn well_formed(self) -> bool {
        forall|i: int|
            0 <= i < self.exports.len() ==> self.export_names.contains(#[trigger] self.exports[i].0)
    }

    pub open spec fn declare(self, export_name: Seq<char>) -> NativeModuleDefView {
        NativeModuleDefView { export_names: self.export_names.push(export_name), ..self }
    }

    pub open spec fn assign(self, export_name: Seq<char>, value: JSValueRefView) -> NativeModuleDefView {
        NativeModuleDefView { exports: self.exports.push((export_name, value)), ..self }
    }

    /// The position of the latest assignment to `export_name` among the first
    /// `n` assignments, if there is one.
    pub open spec fn latest(self, export_name: Seq<char>, n: int) -> Option<int>
        decreases n,
    {
        if n <= 0 {
            None
        } else if self.exports[n - 1].0 == export_name {
            Some(n - 1)
        } else {
            self.latest(export_name, n - 1)
        }
    }
}

/// The views of a list of names.
pub open spec fn names_view(names: Seq<String>) -> Seq<Seq<char>> {
    Seq::new(names.len(), |i: int| names[i]@)
}

/// The views of a list of named values.
pub open spec fn exports_view(exports: Seq<(String, JSValueRef)>) -> Seq<(Seq<char>, JSValueRefView)> {
    Seq::new(exports.len(), |i: int| (exports[i].0@, exports[i].1@))
}

impl View for NativeModuleDef {
    type V = NativeModuleDefView;

    closed spec fn view(&self) -> NativeModuleDefView {
        NativeModuleDefView {
            name: self.name@,
            export_names: names_view(self.export_names@),
            exports: exports_view(self.exports@),
        }
    }
}

/// What [`new_module`] returns for a name.
pub open spec fn new_module_result(name: Seq<char>) -> Result<NativeModuleDefView, EsErrorView> {
    if has_nul(name) {
        Err(other_error("CString failed"@))
    } else {
        Ok(NativeModuleDefView::empty(name))
    }
}

/// What [`add_module_export`] makes of a module, or the error it returns.
pub open spec fn add_export_result(module: NativeModuleDefView, export_name: Seq<char>) -> Result<
    NativeModuleDefView,
    EsErrorView,
> {
    if has_nul(export_name) {
        Err(other_error("CString failed"@))
    } else {
        Ok(module.declare(export_name))
    }
}

/// What [`set_module_export`] makes of a module, or the error it returns.
pub open spec fn set_export_result(
    module: NativeModuleDefView,
    export_name: Seq<char>,
    value: JSValueRefView,
) -> Result<NativeModuleDefView, EsErrorView> {
    if has_nul(export_name) {
        Err(other_error("CString failed"@))
    } else if !module.export_names.contains(export_name) {
        Err(other_error("JS_SetModuleExport failed"@))
    } else {
        Ok(module.assign(export_name, value))
    }
}

/// A module in which every assigned name was declared stays so under
/// [`add_module_export`] and [`set_module_export`], whatever they are given.
pub proof fn lemma_exports_stay_declared(
    module: NativeModuleDefView,
    export_name: Seq<char>,
    value: JSValueRefView,
)
    requires
        module.well_formed(),
    ensures
        NativeModuleDefView::empty(module.name).well_formed(),
        add_export_result(module, export_name) matches Ok(after) ==> after.well_formed(),
        set_export_result(module, export_name, value) matches Ok(after) ==> after.well_formed(),
{
    if let Ok(after) = add_export_result(module, export_name) {
        assert forall|i: int| 0 <= i < after.exports.len() implies after.export_names.contains(
            #[trigger] after.exports[i].0,
        ) by {
            let k = choose|k: int|
                0 <= k < module.export_names.len() && module.export_names[k] == module.exports[i].0;
            assert(after.export_names[k] == after.exports[i].0);
        }
    }
    if let Ok(after) = set_export_result(module, export_name, value) {
        assert forall|i: int| 0 <= i < after.exports.len() implies after.export_names.contains(
            #[trigger] after.exports[i].0,
        ) by {
            if i < module.exports.len() {
                assert(after.exports[i] == module.exports[i]);
            }
        }
    }
}

impl NativeModuleDef {
    pub fn get_name(&self) -> (name: &str)
        ensures
            name@ == self@.name,
    {
        self.name.as_str()
    }

    /// The declared export names, in the order of declaration.
    pub fn get_export_names(&self) -> (names: &Vec<String>)
        ensures
            names_view(names@) == self@.export_names,
    {
        &self.export_names
    }

    /// Tells whether `export_name` was declared.
    pub fn has_export_name(&self, export_name: &str) -> (declared: bool)
        ensures
            declared == self@.export_names.contains(export_name@),
    {
        let wanted = String::from_str(export_name);
        let mut i: usize = 0;
        while i < self.export_names.len()
            invariant
                i <= self.export_names@.len(),
                wanted@ == export_name@,
                forall|j: int| 0 <= j < i ==> self@.export_names[j] != export_name@,
            decreases self.export_names@.len() - i,
        {
            if self.export_names[i] == wanted {
                assert(self@.export_names[i as int] == export_name@);
                return true;
            }
            i = i + 1;
        }
        false
    }

    /// The number of assignments made so far.
    pub fn count_exports(&self) -> (n: usize)
        ensures
            n == self@.exports.len(),
    {
        self.exports.len()
    }

    /// The value that was assigned to `export_name` last, if any was.
    pub fn get_export(&self, export_name: &str) -> (value: Option<&JSValueRef>)
        ensures
            match self@.latest(export_name@, self@.exports.len() as int) {
                Some(i) => value matches Some(v) && v@ == self@.exports[i].1,
                None => value is None,
            },
    {
        let wanted = String::from_str(export_name);
        let mut n: usize = self.exports.len();
        while n > 0
            invariant
                n <= self.exports@.len(),
                wanted@ == export_name@,
                self@.latest(export_name@, self@.exports.len() as int) == self@.latest(
                    export_name@,
                    n as int,
                ),
            decreases n,
        {
            if self.exports[n - 1].0 == wanted {
                return Some(&self.exports[n - 1].1);
            }
            n = n - 1;
        }
        None
    }
}

/// Makes the definition of a native module that has declared no export yet.
pub fn new_module(name: &str) -> (r: Result<NativeModuleDef, EsError>)
    ensures
        match new_module_result(name@) {
            Ok(module) => r matches Ok(m) && m@ == module,
            Err(error) => r matches Err(e) && e@ == error,
        },
{
    if contains_nul(name) {
        return Err(EsError::new_str("CString failed"));
    }
    let module = NativeModuleDef {
        name: String::from_str(name),
        export_names: Vec::new(),
        exports: Vec::new(),
    };
    assert(module@.export_names =~= Seq::empty());
    assert(module@.exports =~= Seq::empty());
    Ok(module)
}

/// Declares an export name. To be called before the module is initialised.
pub fn add_module_export(module: &mut NativeModuleDef, export_name: &str) -> (r: Result<(), EsError>)
    ensures
        match add_export_result(old(module)@, export_name@) {
            Ok(after) => r is Ok && final(module)@ == after,
            Err(error) => r matches Err(e) && e@ == error && final(module)@ == old(module)@,
        },
{
    if contains_nul(export_name) {
        return Err(EsError::new_str("CString failed"));
    }
    let ghost before = module@;
    module.export_names.push(String::from_str(export_name));
    proof {
        assert(module@.export_names =~= before.export_names.push(export_name@));
        assert(module@.exports == before.exports);
    }
    Ok(())
}

/// Assigns a value to an export name that was declared before. The module
/// takes the handle over; no reference is counted for the move.
pub fn set_module_export(module: &mut NativeModuleDef, export_name: &str, js_val: JSValueRef) -> (r:
    Result<(), EsError>)
    ensures
        match set_export_result(old(module)@, export_name@, js_val@) {
            Ok(after) => r is Ok && final(module)@ == after,
            Err(error) => r matches Err(e) && e@ == error && final(module)@ == old(module)@,
        },
{
    if contains_nul(export_name) {
        return Err(EsError::new_str("CString failed"));
    }
    if !module.has_export_name(export_name) {
        return Err(EsError::new_str("JS_SetModuleExport failed"));
    }
    let ghost before = module@;
    module.exports.push((String::from_str(export_name), js_val));
    proof {
        assert(module@.exports =~= before.exports.push((export_name@, js_val@)));
        assert(module@.export_names == before.export_names);
    }
    Ok(())
}

/// The name under which a native module was made.
pub fn get_module_name(module: &NativeModuleDef) -> (r: Result<String, EsError>)
    ensures
        r matches Ok(name) && name@ == module@.name,
{
    Ok(String::from_str(module.get_name()))
}

/// What a loader supplies for a path: the source text of a script module,
/// which the engine compiles, or the definition of a native module.
#[derive(Debug)]
pub enum ModuleDef {
    Script(EsScript),
    Native(NativeModuleDef),
}

/// The mathematical content of a [`ModuleDef`].
pub enum ModuleDefView {
    Script(EsScriptView),
    Native(NativeModuleDefView),
}

impl View for ModuleDef {
    type V = ModuleDefView;

    open spec fn view(&self) -> ModuleDefView {
        match self {
            ModuleDef::Script(script) => ModuleDefView::Script(script@),
            ModuleDef::Native(module) => ModuleDefView::Native(module@),
        }
    }
}

/// The error that is reported into a context when no loader normalizes a
/// requested path.
pub open spec fn module_not_found_error(name: Seq<char>) -> EsErrorView {
    EsErrorView {
        kind: ErrorKind::ModuleNotFound,
        message: "Module "@ + name + " was not found"@,
        stack: Seq::<char>::empty(),
    }
}

/// The error that is reported into a context when the loader that has a
/// module cannot supply it, or when its source does not compile.
pub open spec fn module_load_failed_error(name: Seq<char>, cause: EsErrorView) -> EsErrorView {
    EsErrorView {
        kind: ErrorKind::ModuleLoadFailed,
        message: "Module load failed for "@ + name + " because of: "@ + error_text(cause),
        stack: Seq::<char>::empty(),
    }
}

/// Words the failure to load the module `name` for the importing script.
pub fn module_load_failed(name: &str, cause: &EsError) -> (e: EsError)
    ensures
        e@ == module_load_failed_error(name@, cause@),
{
    let text = cause.to_text();
    let message = String::from_str("Module load failed for ").concat(name).concat(
        " because of: ",
    ).concat(text.as_str());
    EsError::new(ErrorKind::ModuleLoadFailed, message)
}

/// Holds of what [`js_module_normalize`] may return: the path of the first
/// loader that does not answer `None`, and the error for the importing
/// script where all answer `None`.
pub open spec fn normalize_outcome(
    loaders: Seq<ModuleLoaderEntry>,
    q_ctx: &QuickJsContext,
    base: Seq<char>,
    name: Seq<char>,
    result: Result<Seq<char>, EsErrorView>,
) -> bool {
    match result {
        Ok(path) => exists|i: int|
            0 <= i < loaders.len() && (#[trigger] loaders[i]).normalize_path_outcome(
                q_ctx,
                base,
                name,
                Some(path),
            ) && forall|j: int|
                0 <= j < i ==> (#[trigger] loaders[j]).normalize_path_outcome(
                    q_ctx,
                    base,
                    name,
                    None,
                ),
        Err(e) => e == module_not_found_error(name) && forall|j: int|
            0 <= j < loaders.len() ==> (#[trigger] loaders[j]).normalize_path_outcome(
                q_ctx,
                base,
                name,
                None,
            ),
    }
}

/// The view of what a normalization returned.
pub open spec fn path_view(result: Result<String, EsError>) -> Result<Seq<char>, EsErrorView> {
    match result {
        Ok(path) => Ok(path@),
        Err(e) => Err(e@),
    }
}

/// The first phase of an import: the engine asks which absolute path the
/// request `name` means when it is made from the module `base`.
///
/// The loaders are asked in the order of their registration and the first
/// path wins. Where no loader knows the request, the error comes back that
/// is to be reported into the context.
pub fn js_module_normalize(
    q_js_rt: &QuickJsRuntime,
    q_ctx: &QuickJsContext,
    base: &str,
    name: &str,
) -> (r: Result<String, EsError>)
    ensures
        normalize_outcome(q_js_rt.loaders(), q_ctx, base@, name@, path_view(r)),
{
    let loaders = q_js_rt.get_module_loaders();
    let mut i: usize = 0;
    while i < loaders.len()
        invariant
            i <= loaders@.len(),
            loaders@ == q_js_rt.loaders(),
            forall|j: int|
                0 <= j < i ==> (#[trigger] loaders@[j]).normalize_path_outcome(
                    q_ctx,
                    base@,
                    name@,
                    None,
                ),
        decreases loaders@.len() - i,
    {
        if let Some(normalized_path) = loaders[i].normalize_path(q_ctx, base, name) {
            assert(loaders@[i as int].normalize_path_outcome(
                q_ctx,
                base@,
                name@,
                Some(normalized_path@),
            ));
            return Ok(normalized_path);
        }
        i = i + 1;
    }
    let message = String::from_str("Module ").concat(name).concat(" was not found");
    Err(EsError::new(ErrorKind::ModuleNotFound, message))
}

/// What a load made of its loader's answer.
pub open spec fn load_report(name: Seq<char>, loaded: Result<ModuleDefView, EsErrorView>) -> Result<
    Option<ModuleDefView>,
    EsErrorView,
> {
    match loaded {
        Ok(def) => Ok(Some(def)),
        Err(e) => Err(module_load_failed_error(name, e)),
    }
}

/// Holds of what [`js_module_loader`] may return: what the first loader
/// that says it has the module supplies, and `None` where none says so.
pub open spec fn load_outcome(
    loaders: Seq<ModuleLoaderEntry>,
    q_ctx: &QuickJsContext,
    name: Seq<char>,
    result: Result<Option<ModuleDefView>, EsErrorView>,
) -> bool {
    ||| no_claim(loaders, q_ctx, name) && result == Ok::<Option<ModuleDefView>, EsErrorView>(None)
    ||| exists|i: int, loaded: Result<ModuleDefView, EsErrorView>|
        first_claim(loaders, q_ctx, name, i) && (#[trigger] loaders[i].load_module_outcome(
            q_ctx,
            name,
            loaded,
        )) && result == load_report(name, loaded)
}

/// The view of what a load returned.
pub open spec fn loaded_view(result: Result<Option<ModuleDef>, EsError>) -> Result<
    Option<ModuleDefView>,
    EsErrorView,
> {
    match result {
        Ok(Some(def)) => Ok(Some(def@)),
        Ok(None) => Ok(None),
        Err(e) => Err(e@),
    }
}

/// The second phase of an import: the engine asks for the module behind an
/// absolute path that it has not loaded into the context yet.
///
/// A script module comes back as its source, which the engine has yet to
/// compile; [`script_module_loaded`] then decides whether the load has
/// succeeded.
///
/// The loaders are asked in order whether they have the module, and the
/// first that does loads it; no other loader is tried after that one, also
/// where it fails. Its error comes back as the error to report into the
/// context, worded with the path and the cause. Where no loader has the
/// module, `None` comes back and nothing is to be reported.
pub fn js_module_loader(q_js_rt: &QuickJsRuntime, q_ctx: &QuickJsContext, module_name: &str) -> (r:
    Result<Option<ModuleDef>, EsError>)
    ensures
        load_outcome(q_js_rt.loaders(), q_ctx, module_name@, loaded_view(r)),
{
    let loaders = q_js_rt.get_module_loaders();
    let mut i: usize = 0;
    while i < loaders.len()
        invariant
            i <= loaders@.len(),
            loaders@ == q_js_rt.loaders(),
            forall|j: int|
                0 <= j < i ==> (#[trigger] loaders@[j]).has_module_outcome(
                    q_ctx,
                    module_name@,
                    false,
                ),
        decreases loaders@.len() - i,
    {
        if loaders[i].has_module(q_ctx, module_name) {
            assert(first_claim(loaders@, q_ctx, module_name@, i as int));
            let mod_val_res = loaders[i].load_module(q_ctx, module_name);
            return match mod_val_res {
                Ok(mod_val) => {
                    assert(loaders@[i as int].load_module_outcome(
                        q_ctx,
                        module_name@,
                        Ok(mod_val@),
                    ));
                    Ok(Some(mod_val))
                },
                Err(e) => {
                    assert(loaders@[i as int].load_module_outcome(
                        q_ctx,
                        module_name@,
                        Err(e@),
                    ));
                    Err(module_load_failed(module_name, &e))
                },
            };
        }
        i = i + 1;
    }
    Ok(None)
}

/// The loaders are tried in the order of their registration: where the
/// loaders before `winner` can only answer `None` to a request and `winner`
/// can only answer `path`, the normalization gives `path`.
pub proof fn lemma_normalize_first_match(
    loaders: Seq<ModuleLoaderEntry>,
    q_ctx: &QuickJsContext,
    base: Seq<char>,
    name: Seq<char>,
    winner: int,
    path: Seq<char>,
    result: Result<Seq<char>, EsErrorView>,
)
    requires
        0 <= winner < loaders.len(),
        forall|j: int, answer: Option<Seq<char>>|
            0 <= j < winner && #[trigger] loaders[j].normalize_path_outcome(
                q_ctx,
                base,
                name,
                answer,
            ) ==> answer is None,
        forall|answer: Option<Seq<char>>| #[trigger]
            loaders[winner].normalize_path_outcome(q_ctx, base, name, answer) ==> answer == Some(
                path,
            ),
        normalize_outcome(loaders, q_ctx, base, name, result),
    ensures
        result == Ok::<Seq<char>, EsErrorView>(path),
{
    match result {
        Ok(found) => {
            let i = choose|i: int|
                0 <= i < loaders.len() && (#[trigger] loaders[i]).normalize_path_outcome(
                    q_ctx,
                    base,
                    name,
                    Some(found),
                ) && forall|j: int|
                    0 <= j < i ==> (#[trigger] loaders[j]).normalize_path_outcome(
                        q_ctx,
                        base,
                        name,
                        None,
                    );
            if i < winner {
                assert(loaders[i].normalize_path_outcome(q_ctx, base, name, Some(found)));
            } else if i > winner {
                assert(loaders[winner].normalize_path_outcome(q_ctx, base, name, None));
            }
        },
        Err(e) => {
            assert(loaders[winner].normalize_path_outcome(q_ctx, base, name, None));
        },
    }
}

/// The module comes from the first loader that has it: where the loaders
/// before `winner` can only deny having the module and `winner` can only
/// affirm it, what the load returns is what `winner` supplied, and no other
/// loader's answer.
pub proof fn lemma_load_first_match(
    loaders: Seq<ModuleLoaderEntry>,
    q_ctx: &QuickJsContext,
    name: Seq<char>,
    winner: int,
    result: Result<Option<ModuleDefView>, EsErrorView>,
)
    requires
        0 <= winner < loaders.len(),
        forall|j: int, answer: bool|
            0 <= j < winner && #[trigger] loaders[j].has_module_outcome(q_ctx, name, answer)
                ==> !answer,
        forall|answer: bool| #[trigger]
            loaders[winner].has_module_outcome(q_ctx, name, answer) ==> answer,
        load_outcome(loaders, q_ctx, name, result),
    ensures
        exists|loaded: Result<ModuleDefView, EsErrorView>| #[trigger]
            loaders[winner].load_module_outcome(q_ctx, name, loaded) && result == load_report(
                name,
                loaded,
            ),
{
    if no_claim(loaders, q_ctx, name) {
        assert(loaders[winner].has_module_outcome(q_ctx, name, false));
    } else {
        let (i, loaded) = choose|i: int, loaded: Result<ModuleDefView, EsErrorView>|
            first_claim(loaders, q_ctx, name, i) && (#[trigger] loaders[i].load_module_outcome(
                q_ctx,
                name,
                loaded,
            )) && result == load_report(name, loaded);
        if i < winner {
            assert(loaders[i].has_module_outcome(q_ctx, name, true));
        } else if i > winner {
            assert(loaders[winner].has_module_outcome(q_ctx, name, false));
        }
        assert(loaders[winner].load_module_outcome(q_ctx, name, loaded));
    }
}

/// Reads the engine's constant `JS_EVAL_TYPE_MODULE`, which is 1: the
/// evaluation mode in which source text is a module.
#[verifier::external_body]
fn eval_type_module() -> (flag: u32)
    ensures
        flag == 1,
{
    libquickjs_sys::JS_EVAL_TYPE_MODULE
}

/// Reads the engine's constant `JS_EVAL_FLAG_COMPILE_ONLY`, which is 32:
/// the flag that has source text compiled and not run.
#[verifier::external_body]
fn eval_flag_compile_only() -> (flag: u32)
    ensures
        flag == 32,
{
    libquickjs_sys::JS_EVAL_FLAG_COMPILE_ONLY
}

/// The flags with which the engine compiles the source of a module: module
/// mode, compile only.
pub fn module_compile_flags() -> (flags: i32)
    ensures
        flags == 33,
{
    let module_type = eval_type_module();
    let compile_only = eval_flag_compile_only();
    assert(1u32 | 32u32 == 33u32) by (bit_vector);
    (module_type | compile_only) as i32
}

/// The handle that [`compile_module`] makes of the compiled module.
pub open spec fn compiled_view(context: Seq<char>, path: Seq<char>, value: JSValue) -> JSValueRefView {
    JSValueRefView {
        context: Some(context),
        value,
        ref_ct_decr_on_drop: true,
        label: "compile_module result of "@ + path,
    }
}

/// Judges what the engine returned when it compiled `script` as a module
/// in the context `context`: `value_raw` is the value that came back, and
/// `exception` the exception that is pending in the context, if there is
/// one.
///
/// Any value but the exception marker is the compiled module; the handle
/// adopts the reference that the engine counted for it. The exception
/// marker means that the compilation failed, with the pending exception
/// as the error.
///
/// Code and path go to the engine as NUL-terminated strings, so neither
/// may hold a NUL.
pub fn compile_module(
    context: &str,
    script: &EsScript,
    value_raw: JSValue,
    exception: Option<EsError>,
) -> (r: Result<JSValueRef, EsError>)
    requires
        !has_nul(script@.code),
        !has_nul(script@.path),
    ensures
        value_raw.tag != TAG_EXCEPTION ==> (r matches Ok(compiled) && compiled@ == compiled_view(
            context@,
            script@.path,
            value_raw,
        )),
        value_raw.tag == TAG_EXCEPTION ==> (r matches Err(e) && e@ == match exception {
            Some(pending) => pending@,
            None => other_error("compile_module failed and could not get exception"@),
        }),
{
    let label = String::from_str("compile_module result of ").concat(script.get_path());
    let ret = JSValueRef::new(Some(context), value_raw, true, label.as_str());
    if ret.is_exception() {
        if let Some(ex) = exception {
            Err(ex)
        } else {
            Err(EsError::new_str("compile_module failed and could not get exception"))
        }
    } else {
        Ok(ret)
    }
}

/// The address of the module definition that a module value points to.
pub fn get_module_def(value: &JSValueRef) -> (address: u64)
    requires
        value@.value.tag == TAG_MODULE,
    ensures
        address == value@.value.ptr,
{
    value.borrow_value().ptr
}

/// The view of what a compilation returned.
pub open spec fn compiled_result_view(compiled: Result<JSValueRef, EsError>) -> Result<
    JSValueRefView,
    EsErrorView,
> {
    match compiled {
        Ok(value) => Ok(value@),
        Err(e) => Err(e@),
    }
}

/// The view of an address, or of the error in its place.
pub open spec fn address_view(result: Result<u64, EsError>) -> Result<u64, EsErrorView> {
    match result {
        Ok(address) => Ok(address),
        Err(e) => Err(e@),
    }
}

/// What [`script_module_loaded`] returns: the address of the module
/// definition where the source compiled to a module, and the load failure
/// otherwise, caused by the compile error or by the value being no module.
pub open spec fn script_loaded_result(
    module_name: Seq<char>,
    compiled: Result<JSValueRefView, EsErrorView>,
) -> Result<u64, EsErrorView> {
    match compiled {
        Ok(value) => if value.value.tag == TAG_MODULE {
            Ok(value.value.ptr)
        } else {
            Err(module_load_failed_error(module_name, other_error("the source is no module"@)))
        },
        Err(e) => Err(module_load_failed_error(module_name, e)),
    }
}

/// Ends the load of a script module: `compiled` is what [`compile_module`]
/// made of the source that the loader supplied for `module_name`.
///
/// A source that does not compile is a load failure, worded with the
/// module's name and the compile error, and so is a source that compiles
/// to anything but a module. Otherwise the result is the address of the
/// module definition, which goes back to the engine.
pub fn script_module_loaded(module_name: &str, compiled: Result<JSValueRef, EsError>) -> (r: Result<
    u64,
    EsError,
>)
    ensures
        address_view(r) == script_loaded_result(module_name@, compiled_result_view(compiled)),
        compiled matches Err(e) ==> (r matches Err(f) && f@ == module_load_failed_error(
            module_name@,
            e@,
        )),
        compiled matches Ok(v) ==> (v@.value.tag == TAG_MODULE ==> r == Ok::<u64, EsError>(
            v@.value.ptr,
        )),
        compiled matches Ok(v) ==> (v@.value.tag != TAG_MODULE ==> (r matches Err(f) && f@
            == module_load_failed_error(module_name@, other_error("the source is no module"@)))),
{
    match compiled {
        Ok(value) => {
            if value.is_module() {
                Ok(get_module_def(&value))
            } else {
                Err(module_load_failed(module_name, &EsError::new_str("the source is no module")))
            }
        },
        Err(e) => Err(module_load_failed(module_name, &e)),
    }
}

} // verus!
