use quickjs_runtime::eserror::{ErrorKind, EsError};
use quickjs_runtime::esruntimebuilder::EsRuntimeBuilder;
use quickjs_runtime::features::fetch::{
    FetchRequest, FetchResponse, FetchResponseAdapter, FetchResponseProvider,
    FetchResponseProviderAdapter,
};
use quickjs_runtime::features::init;
use quickjs_runtime::quickjscontext::QuickJsContext;
use quickjs_runtime::quickjsruntime::{
    ContextInitHook, ContextInitHookAdapter, DrainEvent, DrainStep, EngineStep, JobOutcome,
    QuickJsEngine, QuickJsRuntime,
};
use std::cell::RefCell;
use std::rc::Rc;

/// A hook that writes down the contexts it was run against and fails for
/// the context of a given id.
struct RecordingHook {
    name: &'static str,
    fails_for: Option<&'static str>,
    seen: Rc<RefCell<Vec<String>>>,
}

impl ContextInitHook for RecordingHook {
    fn init_context(&self, q_js_rt: &QuickJsEngine, q_ctx: &QuickJsContext) -> Result<(), EsError> {
        assert!(q_js_rt.get_id().starts_with("q_"));
        // the context is in the registry when its hooks run
        assert!(q_js_rt.get_contexts().iter().any(|known| known.get_id() == q_ctx.get_id()));
        assert!(q_js_rt.get_module_loaders().is_empty());
        self.seen.borrow_mut().push(format!("{}@{}", self.name, q_ctx.get_id()));
        if self.fails_for == Some(q_ctx.get_id()) {
            Err(EsError::new_string(format!("{} failed for {}", self.name, q_ctx.get_id())))
        } else {
            Ok(())
        }
    }
}

fn hook(
    name: &'static str,
    fails_for: Option<&'static str>,
    seen: &Rc<RefCell<Vec<String>>>,
) -> ContextInitHookAdapter {
    ContextInitHookAdapter::new(Box::new(RecordingHook { name, fails_for, seen: seen.clone() }))
}

fn seen_is(seen: &Rc<RefCell<Vec<String>>>, expected: &[&str]) -> bool {
    let seen = seen.borrow();
    seen.len() == expected.len() && seen.iter().zip(expected.iter()).all(|(a, b)| a == b)
}

#[test]
fn new_runtime_has_main_context_and_thread_id() {
    let q_js_rt = QuickJsRuntime::new();
    assert_eq!(q_js_rt.get_id(), format!("q_{}", thread_id::get()));
    assert_eq!(q_js_rt.get_context_ids(), vec!["__main__".to_string()]);
    assert!(q_js_rt.has_context("__main__"));
    assert_eq!(q_js_rt.get_main_context().get_id(), "__main__");
    assert_eq!(q_js_rt.get_main_context().count_modules(), 0);
    assert!(q_js_rt.get_module_loaders().is_empty());
}

#[test]
fn runtime_id_is_decimal_thread_number() {
    assert_eq!(QuickJsRuntime::new_for_thread(0).get_id(), "q_0");
    assert_eq!(QuickJsRuntime::new_for_thread(7).get_id(), "q_7");
    assert_eq!(QuickJsRuntime::new_for_thread(10).get_id(), "q_10");
    assert_eq!(QuickJsRuntime::new_for_thread(140737353975616).get_id(), "q_140737353975616");
    assert_eq!(
        QuickJsRuntime::new_for_thread(usize::MAX).get_id(),
        format!("q_{}", usize::MAX)
    );
}

#[test]
fn create_context_twice_fails_without_change() {
    let mut q_js_rt = QuickJsRuntime::new_for_thread(1);
    let seen = Rc::new(RefCell::new(vec![]));
    q_js_rt.add_context_init_hook(hook("h", None, &seen)).ok().unwrap();
    assert!(q_js_rt.create_context("a").is_ok());
    let ids = q_js_rt.get_context_ids();
    let runs = seen.borrow().len();

    let e = q_js_rt.create_context("a").err().unwrap();
    assert_eq!(e.get_kind(), ErrorKind::ContextExists);
    assert_eq!(e.get_message(), "context already exists: a");
    assert_eq!(q_js_rt.get_context_ids(), ids);
    assert_eq!(seen.borrow().len(), runs);

    let e = q_js_rt.create_context("__main__").err().unwrap();
    assert_eq!(e.get_kind(), ErrorKind::ContextExists);
    assert_eq!(q_js_rt.get_context_ids(), vec!["__main__".to_string(), "a".to_string()]);
}

/// Drops a context the way the embedding program does: the first call,
/// the engine's work, the second call, the engine's work.
fn drop_context_fully(q_js_rt: &mut QuickJsRuntime, id: &str) -> Vec<EngineStep> {
    assert!(q_js_rt.has_context(id), "no such context");
    let mut performed = q_js_rt.drop_context(id);
    assert!(q_js_rt.has_context(id));
    performed.extend(q_js_rt.drop_context(id));
    performed
}

#[test]
fn drop_context_is_for_known_ids_only() {
    let mut q_js_rt = QuickJsRuntime::new_for_thread(1);
    q_js_rt.create_context("a").ok().unwrap();
    // an unknown id is outside of what drop_context takes: the caller
    // tests for it and fails, and nothing has changed then
    assert!(!q_js_rt.has_context("b"));
    assert!(q_js_rt.opt_context("b").is_none());
    assert_eq!(q_js_rt.get_context_ids(), vec!["__main__".to_string(), "a".to_string()]);

    drop_context_fully(&mut q_js_rt, "a");
    assert!(!q_js_rt.has_context("a"));
    assert_eq!(q_js_rt.get_context_ids(), vec!["__main__".to_string()]);
}

#[test]
fn drop_context_removes_between_release_and_second_pass() {
    let mut q_js_rt = QuickJsRuntime::new_for_thread(1);
    q_js_rt.create_context("a").ok().unwrap();
    q_js_rt.create_context("b").ok().unwrap();
    assert!(!q_js_rt.get_context("a").is_dropping());

    let before_removal = q_js_rt.drop_context("a");
    assert_eq!(before_removal.len(), 2);
    assert!(matches!(before_removal[0], EngineStep::RunGc));
    match &before_removal[1] {
        EngineStep::FreeContext(id) => assert_eq!(id, "a"),
        _ => panic!("the context is to be freed after the first pass"),
    }
    // the context is in the registry while the pass and the release run
    assert!(q_js_rt.has_context("a"));
    assert!(q_js_rt.get_context("a").is_dropping());
    assert!(!q_js_rt.get_context("b").is_dropping());
    assert_eq!(q_js_rt.get_context_ids().len(), 3);

    let after_removal = q_js_rt.drop_context("a");
    assert_eq!(after_removal.len(), 1);
    assert!(matches!(after_removal[0], EngineStep::RunGc));
    assert!(!q_js_rt.has_context("a"));
    assert!(q_js_rt.opt_context("a").is_none());
    assert_eq!(q_js_rt.opt_context("b").unwrap().get_id(), "b");
    assert_eq!(q_js_rt.get_context_ids(), vec!["__main__".to_string(), "b".to_string()]);

    let steps = drop_context_fully(&mut q_js_rt, "__main__");
    assert_eq!(steps.len(), 3);
    assert_eq!(q_js_rt.get_context_ids(), vec!["b".to_string()]);
    assert!(q_js_rt.create_context("a").is_ok());
    assert!(!q_js_rt.get_context("a").is_dropping());
    assert_eq!(q_js_rt.get_context_ids(), vec!["b".to_string(), "a".to_string()]);
}

#[test]
fn freeing_the_engine_releases_contexts_first() {
    let mut q_js_rt = QuickJsRuntime::new_for_thread(1);
    q_js_rt.create_context("a").ok().unwrap();
    let steps = q_js_rt.free();
    assert_eq!(steps.len(), 3);
    match &steps[0] {
        EngineStep::FreeContext(id) => assert_eq!(id, "__main__"),
        _ => panic!("contexts are released first"),
    }
    match &steps[1] {
        EngineStep::FreeContext(id) => assert_eq!(id, "a"),
        _ => panic!("contexts are released first"),
    }
    assert!(matches!(steps[2], EngineStep::FreeRuntime));

    // a context whose release was ordered already is not released again
    let mut q_js_rt = QuickJsRuntime::new_for_thread(1);
    q_js_rt.create_context("a").ok().unwrap();
    q_js_rt.drop_context("__main__");
    let steps = q_js_rt.free();
    assert_eq!(steps.len(), 2);
    match &steps[0] {
        EngineStep::FreeContext(id) => assert_eq!(id, "a"),
        _ => panic!("contexts are released first"),
    }
    assert!(matches!(steps[1], EngineStep::FreeRuntime));
}

#[test]
fn hook_applies_to_existing_and_future_contexts_only() {
    let mut q_js_rt = QuickJsRuntime::new_for_thread(1);
    let seen = Rc::new(RefCell::new(vec![]));
    q_js_rt.create_context("gone").ok().unwrap();
    drop_context_fully(&mut q_js_rt, "gone");
    q_js_rt.create_context("A").ok().unwrap();

    q_js_rt.add_context_init_hook(hook("h", None, &seen)).ok().unwrap();
    assert!(seen_is(&seen, &["h@__main__", "h@A"]));

    q_js_rt.create_context("B").ok().unwrap();
    assert!(seen_is(&seen, &["h@__main__", "h@A", "h@B"]));
}

#[test]
fn hooks_run_in_registration_order_and_stop_at_first_error() {
    let mut q_js_rt = QuickJsRuntime::new_for_thread(1);
    let seen = Rc::new(RefCell::new(vec![]));
    q_js_rt.add_context_init_hook(hook("one", None, &seen)).ok().unwrap();
    q_js_rt.add_context_init_hook(hook("two", Some("bad"), &seen)).ok().unwrap();
    q_js_rt.add_context_init_hook(hook("three", None, &seen)).ok().unwrap();
    seen.borrow_mut().clear();

    assert!(q_js_rt.create_context("good").is_ok());
    assert!(seen_is(&seen, &["one@good", "two@good", "three@good"]));
    seen.borrow_mut().clear();

    let e = q_js_rt.create_context("bad").err().unwrap();
    assert_eq!(e.get_message(), "two failed for bad");
    assert!(seen_is(&seen, &["one@bad", "two@bad"]));
    assert!(q_js_rt.has_context("bad"));
    assert_eq!(q_js_rt.get_context("bad").get_id(), "bad");
}

#[test]
fn failing_hook_is_not_registered() {
    let mut q_js_rt = QuickJsRuntime::new_for_thread(1);
    let seen = Rc::new(RefCell::new(vec![]));
    q_js_rt.create_context("a").ok().unwrap();
    q_js_rt.create_context("b").ok().unwrap();
    let e = q_js_rt.add_context_init_hook(hook("h", Some("a"), &seen)).err().unwrap();
    assert_eq!(e.get_message(), "h failed for a");
    assert!(seen_is(&seen, &["h@__main__", "h@a"]));
    q_js_rt.create_context("c").ok().unwrap();
    assert!(seen_is(&seen, &["h@__main__", "h@a"]));
}

#[test]
fn features_are_installed_in_order() {
    let seen = Rc::new(RefCell::new(vec![]));
    let mut rt = EsRuntimeBuilder::new().build();
    rt.get_q_js_rt_mut().ok().unwrap().create_context("second").ok().unwrap();
    let r = init(
        &mut rt,
        hook("console", None, &seen),
        hook("fetch", None, &seen),
        hook("setimmediate", None, &seen),
        hook("set_timeout", None, &seen),
    );
    assert!(r.is_ok());
    assert!(seen_is(
        &seen,
        &[
            "console@__main__",
            "console@second",
            "fetch@__main__",
            "fetch@second",
            "setimmediate@__main__",
            "setimmediate@second",
            "set_timeout@__main__",
            "set_timeout@second",
        ]
    ));
    seen.borrow_mut().clear();
    rt.get_q_js_rt_mut().ok().unwrap().create_context("third").ok().unwrap();
    assert!(seen_is(
        &seen,
        &["console@third", "fetch@third", "setimmediate@third", "set_timeout@third"]
    ));
}

#[test]
fn failing_feature_ends_the_installation() {
    let seen = Rc::new(RefCell::new(vec![]));
    let mut rt = EsRuntimeBuilder::new().build();
    let r = init(
        &mut rt,
        hook("console", None, &seen),
        hook("fetch", Some("__main__"), &seen),
        hook("setimmediate", None, &seen),
        hook("set_timeout", None, &seen),
    );
    assert_eq!(r.err().unwrap().get_message(), "fetch failed for __main__");
    assert!(seen_is(&seen, &["console@__main__", "fetch@__main__"]));
    seen.borrow_mut().clear();
    rt.get_q_js_rt_mut().ok().unwrap().create_context("next").ok().unwrap();
    assert!(seen_is(&seen, &["console@next"]));
}

#[test]
fn terminated_worker_is_unavailable() {
    let seen = Rc::new(RefCell::new(vec![]));
    let mut rt = EsRuntimeBuilder::new().build();
    assert!(rt.is_alive());
    assert_eq!(rt.add_to_event_queue_sync(|q_js_rt| q_js_rt.get_context_ids().len()).ok(), Some(1));
    rt.terminate();
    assert!(!rt.is_alive());

    let e = rt.add_to_event_queue_sync(|q_js_rt| q_js_rt.get_context_ids().len()).err().unwrap();
    assert_eq!(e.get_kind(), ErrorKind::EngineUnavailable);
    assert_eq!(e.get_message(), "the worker of this runtime has terminated");
    assert_eq!(rt.get_q_js_rt_mut().err().unwrap().get_kind(), ErrorKind::EngineUnavailable);
    let e = rt.add_context_init_hook(hook("h", None, &seen)).err().unwrap();
    assert_eq!(e.get_kind(), ErrorKind::EngineUnavailable);
    let e = init(
        &mut rt,
        hook("console", None, &seen),
        hook("fetch", None, &seen),
        hook("setimmediate", None, &seen),
        hook("set_timeout", None, &seen),
    )
    .err()
    .unwrap();
    assert_eq!(e.get_kind(), ErrorKind::EngineUnavailable);
    assert!(seen.borrow().is_empty());
}

#[test]
fn failing_job_does_not_stop_the_drain() {
    let q_js_rt = QuickJsRuntime::new_for_thread(1);
    assert!(q_js_rt.has_pending_jobs(1));
    assert!(!q_js_rt.has_pending_jobs(0));
    assert!(!q_js_rt.has_pending_jobs(-1));

    let first = q_js_rt.run_pending_job(
        -1,
        Some(EsError::new_exception("TypeError: x is not a function".to_string(), " at a.es:3".to_string())),
    );
    let e = first.err().unwrap();
    assert_eq!(e.get_kind(), ErrorKind::PendingJobFailed);
    assert_eq!(e.get_message(), "TypeError: x is not a function");
    assert_eq!(e.get_stack(), " at a.es:3");
    // the failure of the first job changes nothing for the next
    assert!(q_js_rt.has_pending_jobs(1));
    assert!(q_js_rt.run_pending_job(1, None).is_ok());
    assert!(q_js_rt.run_pending_job(0, None).is_ok());

    let e = q_js_rt.run_pending_job(-1, None).err().unwrap();
    assert_eq!(e.get_kind(), ErrorKind::PendingJobFailed);
    assert_eq!(e.get_message(), "Unknown exception while running pending job");

    // a drain in which the first job fails and the second succeeds
    let mut failures = vec![];
    let mut steps = vec![];
    let events = vec![
        DrainEvent::Pending(1),
        DrainEvent::Executed(JobOutcome {
            flag: -1,
            exception: Some(EsError::new_str("job 1 failed")),
        }),
        DrainEvent::Pending(1),
        DrainEvent::Executed(JobOutcome { flag: 1, exception: None }),
        DrainEvent::Pending(1),
        DrainEvent::Executed(JobOutcome { flag: -1, exception: None }),
        DrainEvent::Pending(1),
        DrainEvent::Executed(JobOutcome { flag: 1, exception: Some(EsError::new_str("stale")) }),
        DrainEvent::Pending(0),
    ];
    for event in events {
        steps.push(q_js_rt.run_pending_jobs_if_any(&mut failures, event));
    }
    assert_eq!(
        steps,
        vec![
            DrainStep::ExecuteJob,
            DrainStep::AskPending,
            DrainStep::ExecuteJob,
            DrainStep::AskPending,
            DrainStep::ExecuteJob,
            DrainStep::AskPending,
            DrainStep::ExecuteJob,
            DrainStep::AskPending,
            DrainStep::Done,
        ]
    );
    assert_eq!(failures.len(), 2);
    assert_eq!(failures[0].get_message(), "job 1 failed");
    assert_eq!(failures[0].get_kind(), ErrorKind::PendingJobFailed);
    assert_eq!(failures[1].get_message(), "Unknown exception while running pending job");

    let mut none = vec![];
    assert_eq!(
        q_js_rt.run_pending_jobs_if_any(&mut none, DrainEvent::Pending(-1)),
        DrainStep::Done
    );
    assert!(none.is_empty());
}

struct SimpleResponse {
    read_done: bool,
}

impl FetchResponse for SimpleResponse {
    fn get_http_status(&self) -> u16 {
        200
    }

    fn get_header(&self, _name: &str) -> Option<&str> {
        None
    }

    fn read(&mut self) -> Option<Vec<u8>> {
        if self.read_done {
            None
        } else {
            self.read_done = true;
            Some("Hello world".as_bytes().to_vec())
        }
    }
}

struct SimpleProvider {}

impl FetchResponseProvider for SimpleProvider {
    fn provide(&self, request: &FetchRequest) -> FetchResponseAdapter {
        assert_eq!(request.get_url(), "something");
        FetchResponseAdapter::new(Box::new(SimpleResponse { read_done: false }))
    }
}

#[test]
fn builder_settings_reach_the_runtime() {
    let rt = EsRuntimeBuilder::new()
        .memory_limit(1024 * 1024 * 16)
        .gc_threshold(5000)
        .max_stack_size(65536)
        .gc_interval(std::time::Duration::from_secs(5))
        .fetch_response_provider(FetchResponseProviderAdapter::new(Box::new(SimpleProvider {})))
        .build();
    let limits = rt.get_limits();
    assert_eq!(limits.memory_limit_bytes, Some(1024 * 1024 * 16));
    assert_eq!(limits.gc_threshold, Some(5000));
    assert_eq!(limits.max_stack_size, Some(65536));
    assert_eq!(limits.gc_interval, Some(std::time::Duration::from_secs(5)));
    let provider = rt.get_fetch_response_provider().unwrap();
    let mut response = provider.inner.provide(&FetchRequest::new("something"));
    assert_eq!(response.inner.get_http_status(), 200);
    assert_eq!(response.inner.read(), Some("Hello world".as_bytes().to_vec()));
    assert_eq!(response.inner.read(), None);

    let plain = EsRuntimeBuilder::default().build();
    assert_eq!(plain.get_limits().memory_limit_bytes, None);
    assert_eq!(plain.get_limits().gc_interval, None);
    assert!(plain.get_fetch_response_provider().is_none());
    assert!(plain.get_q_js_rt().get_module_loaders().is_empty());
    assert_eq!(plain.get_q_js_rt().get_context_ids(), vec!["__main__".to_string()]);
}
