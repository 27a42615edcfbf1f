use quickjs_runtime::eserror::{ErrorKind, EsError};
use quickjs_runtime::esruntime::EsRuntime;
use quickjs_runtime::esruntimebuilder::EsRuntimeBuilder;
use quickjs_runtime::esscript::EsScript;
use quickjs_runtime::quickjs_utils::modules::{
    add_module_export, compile_module, contains_nul, get_module_def, get_module_name,
    js_module_loader, js_module_normalize, module_compile_flags, module_load_failed, new_module,
    script_module_loaded, set_module_export, ModuleDef, NativeModuleDef,
};
use quickjs_runtime::quickjscontext::QuickJsContext;
use quickjs_runtime::quickjsruntime::{
    make_cstring, native_module_init, ImportStep, ModuleLoaderEntry, NativeModuleLoader,
    NativeModuleLoaderAdapter, QuickJsRuntime, ScriptModuleLoader, ScriptModuleLoaderAdapter,
};
use quickjs_runtime::valueref::{
    HandleLineage, JSValue, JSValueRef, TAG_EXCEPTION, TAG_INT, TAG_MODULE, TAG_OBJECT,
};
use std::cell::RefCell;
use std::rc::Rc;

fn from_i32(n: i32) -> JSValueRef {
    JSValueRef::new_no_context(JSValue { tag: TAG_INT, int32: n, ptr: 0 }, "from_i32")
}

struct TestNativeModuleLoader {}

struct TestScriptModuleLoader {}

impl NativeModuleLoader for TestNativeModuleLoader {
    fn has_module(&self, _q_ctx: &QuickJsContext, module_name: &str) -> bool {
        module_name.starts_with("greco://")
    }

    fn get_module_export_names(&self, _q_ctx: &QuickJsContext, _module_name: &str) -> Vec<&str> {
        vec!["a", "b", "c"]
    }

    fn get_module_exports(
        &self,
        _q_ctx: &QuickJsContext,
        _module_name: &str,
    ) -> Vec<(&str, JSValueRef)> {
        vec![("a", from_i32(1234)), ("b", from_i32(64834)), ("c", from_i32(333))]
    }
}

impl ScriptModuleLoader for TestScriptModuleLoader {
    fn normalize_path(&self, _ref_path: &str, path: &str) -> Option<String> {
        if path.eq("notfound.mes") || path.starts_with("greco://") {
            None
        } else {
            Some(path.to_string())
        }
    }

    fn load_module(&self, absolute_path: &str) -> String {
        if absolute_path.eq("notfound.mes") || absolute_path.starts_with("greco://") {
            panic!("tht realy should not happen");
        } else if absolute_path.eq("invalid.mes") {
            "I am the great cornholio! thou'gh shalt&s not p4arse mie!".to_string()
        } else {
            "export const foo = 'bar';\nexport const mltpl = function(a, b){return a*b;}; export default class {};".to_string()
        }
    }
}

fn init_test_rt() -> EsRuntime {
    EsRuntimeBuilder::new()
        .gc_interval(std::time::Duration::from_secs(1))
        .max_stack_size(u64::MAX)
        .script_module_loader(ScriptModuleLoaderAdapter::new(Box::new(TestScriptModuleLoader {})))
        .native_module_loader(NativeModuleLoaderAdapter::new(Box::new(TestNativeModuleLoader {})))
        .build()
}

/// Stands in for the engine where it compiles the source of a script
/// module: the one source of the test loader that is no script fails.
fn engine_compiles(context_id: &str, script: &EsScript) -> Result<JSValueRef, EsError> {
    assert!(!contains_nul(script.get_code()));
    assert!(!contains_nul(script.get_path()));
    if script.get_code().starts_with("I am the great cornholio") {
        let exception = EsError::new_exception(
            "SyntaxError: unexpected token in expression".to_string(),
            "    at invalid.mes:1\n".to_string(),
        );
        compile_module(
            context_id,
            script,
            JSValue { tag: TAG_EXCEPTION, int32: 0, ptr: 0 },
            Some(exception),
        )
    } else {
        compile_module(context_id, script, JSValue { tag: TAG_MODULE, int32: 0, ptr: 4096 }, None)
    }
}

/// Stands in for the engine where it imports a module: the request runs
/// through the loader chain, and where the chain answers with the source of
/// a script module, the engine compiles it and hands the result back.
fn import(
    q_js_rt: &mut QuickJsRuntime,
    context_id: &str,
    ref_path: &str,
    requested: &str,
) -> Result<usize, EsError> {
    match q_js_rt.import_module(context_id, ref_path, requested)? {
        ImportStep::Module(position) => Ok(position),
        ImportStep::Compile(absolute_path, script) => {
            let compiled = engine_compiles(context_id, &script);
            q_js_rt.script_compiled(context_id, absolute_path.as_str(), script, compiled)
        }
    }
}

/// Stands in for the engine where it evaluates a module that imports
/// `requested`.
fn eval_module_importing(
    rt: &mut EsRuntime,
    script: &EsScript,
    requested: &str,
) -> Result<usize, EsError> {
    let q_js_rt = rt.get_q_js_rt_mut()?;
    import(q_js_rt, "__main__", script.get_path(), requested)
}

/// The object that the script of `test_native_modules` makes of a module:
/// a fresh engine object, which its handle adopts, with the module's
/// exports as its fields.
struct ResultObject<'a> {
    handle: JSValueRef,
    module: &'a NativeModuleDef,
}

impl<'a> ResultObject<'a> {
    fn of(module: &'a NativeModuleDef) -> ResultObject<'a> {
        let mut lineage = HandleLineage::new(JSValue { tag: TAG_OBJECT, int32: 0, ptr: 8192 });
        let handle = lineage.adopt(Some("__main__"), "promise result").ok().expect("prom failed");
        ResultObject { handle, module }
    }

    fn is_object(&self) -> bool {
        self.handle.is_object()
    }

    fn get(&self, name: &str) -> Option<&JSValueRef> {
        self.module.get_export(name)
    }
}

#[test]
fn test_native_modules() {
    let mut rt = init_test_rt();
    let mres = eval_module_importing(
        &mut rt,
        &EsScript::new(
            "test.mes",
            "import {a, b, c} from 'greco://testmodule1';\nconsole.log('testmodule1.a = %s, testmodule1.b = %s, testmodule1.c = %s', a, b, c);",
        ),
        "greco://testmodule1",
    );
    match mres {
        Ok(_module_res) => {}
        Err(e) => panic!("test_native_modules failed: {}", e.to_text()),
    }

    let res_prom = eval_module_importing(
        &mut rt,
        &EsScript::new("test_mod_nat_async.es", "(import('greco://someMod').then((module) => {return {a: module.a, b: module.b, c: module.c};}));"),
        "greco://someMod",
    );
    let position = res_prom.ok().expect("prom failed");
    let q_js_rt = rt.get_q_js_rt();
    let obj = match q_js_rt.get_main_context().get_module(position).get_def() {
        ModuleDef::Native(module) => ResultObject::of(module),
        ModuleDef::Script(_) => panic!("prom failed"),
    };
    assert!(obj.is_object());
    let a = obj.get("a").expect("obj did not have a");
    assert_eq!(a.get_i32(), 1234);
    let b = obj.get("b").expect("obj did not have b");
    assert_eq!(b.get_i32(), 64834);
}

#[test]
fn test_module_loader() {
    struct MyModuleLoader {}
    impl ScriptModuleLoader for MyModuleLoader {
        fn normalize_path(&self, _ref_path: &str, path: &str) -> Option<String> {
            Some(path.to_string())
        }

        fn load_module(&self, _absolute_path: &str) -> String {
            "export const foo = 12;".to_string()
        }
    }

    let mut rt = EsRuntimeBuilder::new()
        .script_module_loader(ScriptModuleLoaderAdapter::new(Box::new(MyModuleLoader {})))
        .build();
    match eval_module_importing(
        &mut rt,
        &EsScript::new(
            "test_module.es",
            "import {foo} from 'some_module.mes';\nconsole.log('foo = %s', foo);",
        ),
        "some_module.mes",
    ) {
        Ok(position) => {
            let q_js_rt = rt.get_q_js_rt();
            let module = q_js_rt.get_main_context().get_module(position);
            assert_eq!(module.get_path(), "some_module.mes");
            match module.get_def() {
                ModuleDef::Script(script) => {
                    assert_eq!(script.get_path(), "some_module.mes");
                    assert_eq!(script.get_code(), "export const foo = 12;");
                }
                ModuleDef::Native(_) => panic!("script failed"),
            }
        }
        Err(e) => panic!("script failed {}", e.to_text()),
    }
}

#[test]
fn test_module_sandbox() {
    let mut rt = init_test_rt();

    let test1 = EsScript::new(
        "test1.mes",
        "export const name = 'foobar';\nconsole.log('evalling module');",
    );
    assert!(engine_compiles("__main__", &test1).is_ok());

    let res = eval_module_importing(
        &mut rt,
        &EsScript::new(
            "test2.mes",
            "import {name} from 'test1.mes';\n\nconsole.log('imported name: ' + name);",
        ),
        "test1.mes",
    );
    if res.is_err() {
        panic!("parse module2 failed: {}", res.err().unwrap().to_text())
    }
    let first = res.ok().expect("parse module2 failed");

    let res = eval_module_importing(
        &mut rt,
        &EsScript::new(
            "test3.mes",
            "import {name} from 'notfound.mes';\n\nconsole.log('imported name: ' + name);",
        ),
        "notfound.mes",
    );
    assert!(res.is_err());
    let e = res.err().unwrap();
    assert_eq!(e.get_kind(), ErrorKind::ModuleNotFound);
    assert!(e.get_message().contains("Module notfound.mes was not found"));

    let res = eval_module_importing(
        &mut rt,
        &EsScript::new(
            "test4.mes",
            "import {name} from 'invalid.mes';\n\nconsole.log('imported name: ' + name);",
        ),
        "invalid.mes",
    );
    assert!(res.is_err());
    let e = res.err().unwrap();
    assert_eq!(e.get_kind(), ErrorKind::ModuleLoadFailed);
    assert!(e.get_message().contains("Module load failed for invalid.mes"));

    let res = eval_module_importing(
        &mut rt,
        &EsScript::new(
            "test2.mes",
            "import {name} from 'test1.mes';\n\nconsole.log('imported name: ' + name);",
        ),
        "test1.mes",
    );
    if res.is_err() {
        panic!("parse module2 failed: {}", res.err().unwrap().to_text())
    }
    assert_eq!(res.ok().expect("parse module2 failed"), first);
}

/// A script loader that counts what it is asked.
struct CountingLoader {
    prefix: &'static str,
    code: &'static str,
    normalized: Rc<RefCell<u32>>,
    loaded: Rc<RefCell<Vec<String>>>,
}

impl ScriptModuleLoader for CountingLoader {
    fn normalize_path(&self, _ref_path: &str, path: &str) -> Option<String> {
        *self.normalized.borrow_mut() += 1;
        if path.starts_with("/abs/") && path[5..].starts_with(self.prefix) {
            Some(path.to_string())
        } else if path.starts_with(self.prefix) {
            Some(format!("/abs/{}", path))
        } else {
            None
        }
    }

    fn load_module(&self, absolute_path: &str) -> String {
        self.loaded.borrow_mut().push(absolute_path.to_string());
        self.code.to_string()
    }
}

/// A native loader that counts what it is asked.
struct CountingNativeLoader {
    name: &'static str,
    names: Vec<&'static str>,
    values: Vec<(&'static str, i32)>,
    loads: Rc<RefCell<u32>>,
    inits: Rc<RefCell<u32>>,
}

impl NativeModuleLoader for CountingNativeLoader {
    fn has_module(&self, _q_ctx: &QuickJsContext, module_name: &str) -> bool {
        module_name == self.name
    }

    fn get_module_export_names(&self, _q_ctx: &QuickJsContext, _module_name: &str) -> Vec<&str> {
        *self.loads.borrow_mut() += 1;
        self.names.clone()
    }

    fn get_module_exports(
        &self,
        _q_ctx: &QuickJsContext,
        _module_name: &str,
    ) -> Vec<(&str, JSValueRef)> {
        *self.inits.borrow_mut() += 1;
        self.values.iter().map(|(name, n)| (*name, from_i32(*n))).collect()
    }
}

fn counting(
    prefix: &'static str,
    code: &'static str,
) -> (ModuleLoaderEntry, Rc<RefCell<u32>>, Rc<RefCell<Vec<String>>>) {
    let normalized = Rc::new(RefCell::new(0));
    let loaded = Rc::new(RefCell::new(vec![]));
    let loader = CountingLoader {
        prefix,
        code,
        normalized: normalized.clone(),
        loaded: loaded.clone(),
    };
    (
        ModuleLoaderEntry::Script(ScriptModuleLoaderAdapter::new(Box::new(loader))),
        normalized,
        loaded,
    )
}

fn counting_native(
    name: &'static str,
    names: Vec<&'static str>,
    values: Vec<(&'static str, i32)>,
) -> (ModuleLoaderEntry, Rc<RefCell<u32>>, Rc<RefCell<u32>>) {
    let loads = Rc::new(RefCell::new(0));
    let inits = Rc::new(RefCell::new(0));
    let loader =
        CountingNativeLoader { name, names, values, loads: loads.clone(), inits: inits.clone() };
    (
        ModuleLoaderEntry::Native(NativeModuleLoaderAdapter::new(Box::new(loader))),
        loads,
        inits,
    )
}

#[test]
fn second_resolver_wins_when_first_declines() {
    let mut q_js_rt = QuickJsRuntime::new_for_thread(1);
    let (first, first_normalized, first_loaded) = counting("one:", "export const from = 1;");
    let (second, second_normalized, second_loaded) = counting("two:", "export const from = 2;");
    q_js_rt.add_module_loader(first);
    q_js_rt.add_module_loader(second);

    let q_ctx = q_js_rt.get_main_context();
    let path = js_module_normalize(&q_js_rt, q_ctx, "main.es", "two:mod").ok().unwrap();
    assert_eq!(path, "/abs/two:mod");
    assert_eq!(*first_normalized.borrow(), 1);
    assert_eq!(*second_normalized.borrow(), 1);

    let position = import(&mut q_js_rt, "__main__", "main.es", "two:mod").ok().unwrap();
    assert_eq!(position, 0);
    assert!(first_loaded.borrow().is_empty());
    assert_eq!(*second_loaded.borrow(), vec!["/abs/two:mod".to_string()]);
    match q_js_rt.get_main_context().get_module(0).get_def() {
        ModuleDef::Script(script) => assert_eq!(script.get_code(), "export const from = 2;"),
        ModuleDef::Native(_) => panic!("not a script module"),
    }
}

#[test]
fn first_resolver_wins_when_both_accept() {
    let mut q_js_rt = QuickJsRuntime::new_for_thread(1);
    let (first, _, first_loaded) = counting("m", "export const from = 1;");
    let (second, second_normalized, second_loaded) = counting("m", "export const from = 2;");
    q_js_rt.add_module_loader(first);
    q_js_rt.add_module_loader(second);
    import(&mut q_js_rt, "__main__", "main.es", "mod").ok().unwrap();
    assert_eq!(first_loaded.borrow().len(), 1);
    assert!(second_loaded.borrow().is_empty());
    assert_eq!(*second_normalized.borrow(), 0);
}

#[test]
fn same_path_is_loaded_and_initialised_once() {
    let mut q_js_rt = QuickJsRuntime::new_for_thread(1);
    let (script, normalized, loaded) = counting("lib", "export const x = 1;");
    let (native, loads, inits) = counting_native("native:mod", vec!["v"], vec![("v", 7)]);
    q_js_rt.add_module_loader(script);
    q_js_rt.add_module_loader(native);

    let first = import(&mut q_js_rt, "__main__", "a.es", "lib.es").ok().unwrap();
    let second = import(&mut q_js_rt, "__main__", "b.es", "lib.es").ok().unwrap();
    assert_eq!(first, second);
    assert_eq!(loaded.borrow().len(), 1);
    // once to normalize and once to claim the path, then once more to
    // normalize the request of the second import
    assert_eq!(*normalized.borrow(), 3);
    assert_eq!(q_js_rt.get_main_context().count_modules(), 1);

    let third = import(&mut q_js_rt, "__main__", "a.es", "native:mod").ok().unwrap();
    let fourth = import(&mut q_js_rt, "__main__", "a.es", "native:mod").ok().unwrap();
    assert_eq!(third, 1);
    assert_eq!(fourth, 1);
    assert_eq!(*loads.borrow(), 1);
    assert_eq!(*inits.borrow(), 1);
    assert_eq!(q_js_rt.get_main_context().count_modules(), 2);
    assert_eq!(q_js_rt.get_main_context().find_module("native:mod"), Some(1));
    assert_eq!(q_js_rt.get_main_context().find_module("/abs/lib.es"), Some(0));
    assert_eq!(q_js_rt.get_main_context().find_module("lib.es"), None);
}

#[test]
fn module_tables_are_per_context() {
    let mut q_js_rt = QuickJsRuntime::new_for_thread(1);
    let (script, _, loaded) = counting("lib", "export const x = 1;");
    q_js_rt.add_module_loader(script);
    q_js_rt.create_context("other").ok().unwrap();
    assert_eq!(import(&mut q_js_rt, "__main__", "a.es", "lib.es").ok(), Some(0));
    assert_eq!(import(&mut q_js_rt, "other", "a.es", "lib.es").ok(), Some(0));
    assert_eq!(loaded.borrow().len(), 2);
    assert_eq!(q_js_rt.get_context("other").count_modules(), 1);
    let e = import(&mut q_js_rt, "nowhere", "a.es", "lib.es").err().unwrap();
    assert_eq!(e.get_kind(), ErrorKind::ContextNotFound);
    assert_eq!(e.get_message(), "no such context: nowhere");
}

#[test]
fn failing_load_names_the_module() {
    let mut q_js_rt = QuickJsRuntime::new_for_thread(1);
    let (native, _, inits) = counting_native("bad.mod", vec!["ok", "not\0ok"], vec![]);
    q_js_rt.add_module_loader(native);
    let e = import(&mut q_js_rt, "__main__", "main.es", "bad.mod").err().unwrap();
    assert_eq!(e.get_kind(), ErrorKind::ModuleLoadFailed);
    assert!(e.get_message().contains("bad.mod"));
    assert_eq!(e.get_message(), "Module load failed for bad.mod because of: CString failed");
    assert_eq!(*inits.borrow(), 0);
    assert_eq!(q_js_rt.get_main_context().count_modules(), 0);

    let q_ctx = q_js_rt.get_main_context();
    let e = js_module_loader(&q_js_rt, q_ctx, "bad.mod").err().unwrap();
    assert_eq!(e.get_message(), "Module load failed for bad.mod because of: CString failed");
}

#[test]
fn unresolvable_path_is_not_found() {
    let mut q_js_rt = QuickJsRuntime::new_for_thread(1);
    let (script, _, _) = counting("lib", "export const x = 1;");
    q_js_rt.add_module_loader(script);
    let e = import(&mut q_js_rt, "__main__", "main.es", "missing.mod").err().unwrap();
    assert_eq!(e.get_kind(), ErrorKind::ModuleNotFound);
    assert!(e.get_message().contains("missing.mod"));
    assert!(e.get_message().contains("not found"));
    assert_eq!(e.get_message(), "Module missing.mod was not found");
    assert_eq!(e.to_text(), "Module missing.mod was not found");

    let empty = QuickJsRuntime::new_for_thread(1);
    let e = js_module_normalize(&empty, empty.get_main_context(), "a", "b").err().unwrap();
    assert_eq!(e.get_message(), "Module b was not found");
    assert!(js_module_loader(&empty, empty.get_main_context(), "b").ok().unwrap().is_none());
}

#[test]
fn failing_init_names_module_and_cause() {
    let mut q_js_rt = QuickJsRuntime::new_for_thread(1);
    let (native, loads, inits) =
        counting_native("native:mod", vec!["a"], vec![("a", 1), ("undeclared", 2), ("a", 3)]);
    q_js_rt.add_module_loader(native);
    let e = import(&mut q_js_rt, "__main__", "main.es", "native:mod").err().unwrap();
    assert_eq!(e.get_kind(), ErrorKind::ModuleInitFailed);
    assert_eq!(
        e.get_message(),
        "Failed to init native module: native:mod caused by JS_SetModuleExport failed"
    );
    assert_eq!(*loads.borrow(), 1);
    assert_eq!(*inits.borrow(), 1);
    assert_eq!(q_js_rt.get_main_context().count_modules(), 0);

    let mut module = new_module("native:mod").ok().unwrap();
    add_module_export(&mut module, "a").ok().unwrap();
    let q_ctx = q_js_rt.get_main_context();
    assert!(native_module_init(&q_js_rt, q_ctx, &mut module).is_err());
    assert_eq!(module.count_exports(), 1);
    assert_eq!(module.get_export("a").unwrap().get_i32(), 1);

    let mut unknown = new_module("nobody:has:this").ok().unwrap();
    assert!(native_module_init(&q_js_rt, q_ctx, &mut unknown).is_ok());
    assert_eq!(unknown.count_exports(), 0);
}

#[test]
fn native_module_definition() {
    let mut module = new_module("my_module").ok().unwrap();
    assert_eq!(get_module_name(&module).ok().unwrap(), "my_module");
    assert!(module.get_export_names().is_empty());
    add_module_export(&mut module, "someVal").ok().unwrap();
    add_module_export(&mut module, "someFunc").ok().unwrap();
    assert_eq!(module.get_export_names().len(), 2);
    assert!(module.has_export_name("someFunc"));
    assert!(!module.has_export_name("SomeClass"));
    assert!(module.get_export("someVal").is_none());

    set_module_export(&mut module, "someVal", from_i32(1470)).ok().unwrap();
    assert_eq!(module.get_export("someVal").unwrap().get_i32(), 1470);
    set_module_export(&mut module, "someVal", from_i32(432)).ok().unwrap();
    assert_eq!(module.get_export("someVal").unwrap().get_i32(), 432);
    assert_eq!(module.count_exports(), 2);

    let e = set_module_export(&mut module, "SomeClass", from_i32(185)).err().unwrap();
    assert_eq!(e.get_kind(), ErrorKind::Other);
    assert_eq!(e.get_message(), "JS_SetModuleExport failed");
    assert_eq!(module.count_exports(), 2);

    let e = set_module_export(&mut module, "some\0Val", from_i32(1)).err().unwrap();
    assert_eq!(e.get_message(), "CString failed");
    let e = add_module_export(&mut module, "\0").err().unwrap();
    assert_eq!(e.get_message(), "CString failed");
    assert_eq!(module.get_export_names().len(), 2);
    let e = new_module("my\0module").err().unwrap();
    assert_eq!(e.get_message(), "CString failed");
}

#[test]
fn nul_detection_and_cstrings() {
    assert!(!contains_nul(""));
    assert!(!contains_nul("module.mes"));
    assert!(contains_nul("\0"));
    assert!(contains_nul("mod\0ule"));
    assert!(!contains_nul("m\u{f6}d\u{fc}l\u{20ac}"));

    assert_eq!(make_cstring("").ok().unwrap(), vec![0u8]);
    assert_eq!(make_cstring("ab").ok().unwrap(), vec![97u8, 98u8, 0u8]);
    assert_eq!(make_cstring("\u{e9}").ok().unwrap(), vec![0xc3u8, 0xa9u8, 0u8]);
    let e = make_cstring("a\0b").err().unwrap();
    assert_eq!(e.get_kind(), ErrorKind::Other);
    assert_eq!(e.get_message(), "could not create cstring from a\0b");
}

#[test]
fn compile_judgement() {
    let script = EsScript::new("test1.mes", "export const name = 'foobar';");
    let compiled =
        compile_module("ctx", &script, JSValue { tag: TAG_MODULE, int32: 0, ptr: 77 }, None)
            .ok()
            .unwrap();
    assert!(compiled.is_module());
    assert!(compiled.owns_reference());
    assert_eq!(compiled.get_label(), "compile_module result of test1.mes");
    assert_eq!(compiled.get_context_id(), Some("ctx"));
    assert_eq!(get_module_def(&compiled), 77);

    let pending = EsError::new_exception("SyntaxError: boom".to_string(), " line 1".to_string());
    let e = compile_module(
        "ctx",
        &script,
        JSValue { tag: TAG_EXCEPTION, int32: 0, ptr: 0 },
        Some(pending),
    )
    .err()
    .unwrap();
    assert_eq!(e.get_kind(), ErrorKind::Script);
    assert_eq!(e.get_message(), "SyntaxError: boom");
    assert_eq!(e.get_stack(), " line 1");
    assert_eq!(e.to_text(), "SyntaxError: boom at line 1");

    let e = compile_module("ctx", &script, JSValue { tag: TAG_EXCEPTION, int32: 0, ptr: 0 }, None)
        .err()
        .unwrap();
    assert_eq!(e.get_message(), "compile_module failed and could not get exception");

    let object = compile_module(
        "ctx",
        &script,
        JSValue { tag: TAG_OBJECT, int32: 0, ptr: 5 },
        Some(EsError::new_str("stale")),
    );
    assert!(object.is_ok());

    let failed = module_load_failed("invalid.mes", &e);
    assert_eq!(failed.get_kind(), ErrorKind::ModuleLoadFailed);
    assert_eq!(
        failed.get_message(),
        "Module load failed for invalid.mes because of: compile_module failed and could not get exception"
    );
}

#[test]
fn compile_flags_are_the_engines() {
    assert_eq!(module_compile_flags(), 33);
    assert_eq!(
        module_compile_flags(),
        (libquickjs_sys::JS_EVAL_TYPE_MODULE | libquickjs_sys::JS_EVAL_FLAG_COMPILE_ONLY) as i32
    );
}

#[test]
fn chain_holds_script_loaders_before_native_loaders() {
    let rt = EsRuntimeBuilder::new()
        .native_module_loader(NativeModuleLoaderAdapter::new(Box::new(TestNativeModuleLoader {})))
        .script_module_loader(ScriptModuleLoaderAdapter::new(Box::new(TestScriptModuleLoader {})))
        .native_module_loader(NativeModuleLoaderAdapter::new(Box::new(TestNativeModuleLoader {})))
        .build();
    let loaders = rt.get_q_js_rt().get_module_loaders();
    assert_eq!(loaders.len(), 3);
    assert!(matches!(loaders[0], ModuleLoaderEntry::Script(_)));
    assert!(matches!(loaders[1], ModuleLoaderEntry::Native(_)));
    assert!(matches!(loaders[2], ModuleLoaderEntry::Native(_)));
}

#[test]
fn source_that_does_not_compile_is_a_load_failure() {
    let mut q_js_rt = QuickJsRuntime::new_for_thread(1);
    q_js_rt.add_module_loader(ModuleLoaderEntry::Script(ScriptModuleLoaderAdapter::new(Box::new(
        TestScriptModuleLoader {},
    ))));

    // the chain answers with the source and the table waits for the engine
    let (absolute_path, script) =
        match q_js_rt.import_module("__main__", "test4.mes", "invalid.mes").ok().unwrap() {
            ImportStep::Compile(absolute_path, script) => (absolute_path, script),
            ImportStep::Module(_) => panic!("a source is to be compiled first"),
        };
    assert_eq!(absolute_path, "invalid.mes");
    assert_eq!(script.get_path(), "invalid.mes");
    assert_eq!(q_js_rt.get_main_context().count_modules(), 0);

    let compiled = engine_compiles("__main__", &script);
    let e = q_js_rt.script_compiled("__main__", "invalid.mes", script, compiled).err().unwrap();
    assert_eq!(e.get_kind(), ErrorKind::ModuleLoadFailed);
    assert_eq!(
        e.get_message(),
        "Module load failed for invalid.mes because of: SyntaxError: unexpected token in expression at    at invalid.mes:1\n"
    );
    assert_eq!(q_js_rt.get_main_context().count_modules(), 0);

    // a source that compiles enters the table, once
    let (absolute_path, script) =
        match q_js_rt.import_module("__main__", "test2.mes", "test1.mes").ok().unwrap() {
            ImportStep::Compile(absolute_path, script) => (absolute_path, script),
            ImportStep::Module(_) => panic!("a source is to be compiled first"),
        };
    let compiled = engine_compiles("__main__", &script);
    let position =
        q_js_rt.script_compiled("__main__", absolute_path.as_str(), script, compiled).ok();
    assert_eq!(position, Some(0));
    assert!(matches!(
        q_js_rt.import_module("__main__", "test2.mes", "test1.mes").ok().unwrap(),
        ImportStep::Module(0)
    ));

    let gone = EsScript::new("x.mes", "export const x = 1;");
    let compiled = engine_compiles("nowhere", &gone);
    let e = q_js_rt.script_compiled("nowhere", "x.mes", gone, compiled).err().unwrap();
    assert_eq!(e.get_kind(), ErrorKind::ContextNotFound);
}

#[test]
fn script_load_judgement() {
    let compiled = JSValueRef::new(
        Some("ctx"),
        JSValue { tag: TAG_MODULE, int32: 0, ptr: 77 },
        true,
        "compile_module result of a.mes",
    );
    assert_eq!(script_module_loaded("a.mes", Ok(compiled)).ok(), Some(77));

    let e = script_module_loaded("a.mes", Err(EsError::new_str("SyntaxError"))).err().unwrap();
    assert_eq!(e.get_kind(), ErrorKind::ModuleLoadFailed);
    assert_eq!(e.get_message(), "Module load failed for a.mes because of: SyntaxError");

    let object =
        JSValueRef::new(Some("ctx"), JSValue { tag: TAG_OBJECT, int32: 0, ptr: 5 }, true, "object");
    let e = script_module_loaded("a.mes", Ok(object)).err().unwrap();
    assert_eq!(e.get_kind(), ErrorKind::ModuleLoadFailed);
    assert_eq!(
        e.get_message(),
        "Module load failed for a.mes because of: the source is no module"
    );
}
