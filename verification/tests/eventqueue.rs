use quickjs_runtime::eserror::ErrorKind;
use quickjs_runtime::eseventqueue::EsEventQueue;

#[test]
fn tasks_are_taken_in_submission_order() {
    let mut queue = EsEventQueue::new();
    assert!(queue.is_alive());
    assert_eq!(queue.take_next(), None);
    assert_eq!(queue.submit().ok(), Some(0));
    assert_eq!(queue.submit().ok(), Some(1));
    assert_eq!(queue.len(), 2);
    assert_eq!(queue.take_next(), Some(0));
    assert_eq!(queue.submit().ok(), Some(2));
    assert_eq!(queue.take_next(), Some(1));
    assert_eq!(queue.take_next(), Some(2));
    assert_eq!(queue.take_next(), None);
    assert_eq!(queue.len(), 0);
}

#[test]
fn submissions_fail_after_the_worker_terminated() {
    let mut queue = EsEventQueue::new();
    queue.submit().ok().unwrap();
    queue.submit().ok().unwrap();
    queue.submit().ok().unwrap();
    assert_eq!(queue.take_next(), Some(0));
    assert_eq!(queue.terminate(), vec![1, 2]);
    assert!(!queue.is_alive());
    assert_eq!(queue.take_next(), None);
    let e = queue.submit().err().unwrap();
    assert_eq!(e.get_kind(), ErrorKind::EngineUnavailable);
    assert_eq!(e.get_message(), "the worker has terminated");
    assert_eq!(queue.len(), 0);
    assert!(queue.terminate().is_empty());
}

#[test]
fn only_a_fatal_fault_ends_the_worker() {
    let mut queue = EsEventQueue::new();
    queue.submit().ok().unwrap();
    queue.submit().ok().unwrap();
    assert_eq!(queue.take_next(), Some(0));
    assert!(queue.task_failed(false).is_empty());
    assert!(queue.is_alive());
    assert_eq!(queue.submit().ok(), Some(2));
    assert_eq!(queue.take_next(), Some(1));
    assert_eq!(queue.task_failed(true), vec![2]);
    assert!(!queue.is_alive());
    assert!(queue.submit().is_err());
}
