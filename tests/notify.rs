use freertos::config::Error;
use freertos::hooks::FreeRtosHooks;
use freertos::notify::{
    semaphore_give, semaphore_wait_ms, task_wait_outcome, task_wait_request, SemaphoreGive, TaskNotify,
    TaskSlot, TaskWait, NOTIFIED,
};

#[test]
fn notify_before_any_wait_is_dropped() {
    let slot = TaskSlot::new();
    assert_eq!(slot.task(), None);
    for in_isr in [false, true] {
        let n = slot.notify(in_isr);
        assert_eq!(n, TaskNotify::Dropped);
        assert!(!n.delivered(true));
        assert!(!n.delivered(false));
    }
}

#[test]
fn first_wait_binds_the_slot() {
    let mut slot = TaskSlot::new();
    assert_eq!(slot.bind(Some(17)), Some(17));
    assert_eq!(slot.task(), Some(17));
    assert_eq!(slot.bind(Some(17)), Some(17));
    assert_eq!(slot.bind(None), Some(17));
    assert_eq!(slot.bind(Some(4)), None);
    assert_eq!(slot.task(), Some(17));
}

#[test]
fn wait_without_a_task_stays_unbound() {
    let mut slot = TaskSlot::new();
    assert_eq!(slot.bind(None), None);
    assert_eq!(slot.task(), None);
}

#[test]
fn notify_after_binding_reaches_the_task() {
    let mut slot = TaskSlot::new();
    slot.bind(Some(3));
    let n = slot.notify(false);
    assert_eq!(n, TaskNotify::SetValue { task: 3, value: NOTIFIED });
    assert!(n.delivered(false));
    let n = slot.notify(true);
    assert_eq!(n, TaskNotify::OverwriteFromIsr { task: 3, value: 1 });
    assert!(n.delivered(true));
    assert!(!n.delivered(false));
}

#[test]
fn task_wait_request_clears_the_value_on_exit() {
    assert_eq!(
        task_wait_request(3, 250),
        TaskWait { task: 3, clear_on_entry: 0, clear_on_exit: u32::MAX, timeout_ms: 250 }
    );
}

#[test]
fn wait_on_never_notified_pair_times_out() {
    assert!(!task_wait_outcome(Some(0)));
    assert!(!task_wait_outcome(None));
    assert!(task_wait_outcome(Some(NOTIFIED)));
}

#[test]
fn semaphore_wait_is_at_least_one_ms() {
    assert_eq!(semaphore_wait_ms(0), 1);
    assert_eq!(semaphore_wait_ms(1), 1);
    assert_eq!(semaphore_wait_ms(40), 40);
    assert_eq!(semaphore_wait_ms(u32::MAX), u32::MAX);
}

#[test]
fn semaphore_give_follows_the_context() {
    assert_eq!(semaphore_give(true), SemaphoreGive::GiveFromIsr);
    assert_eq!(semaphore_give(false), SemaphoreGive::Give);
}

fn on_assert() {}

fn other_assert() {}

#[test]
fn assert_hook_is_set_once() {
    let mut hooks: FreeRtosHooks<fn()> = FreeRtosHooks::new();
    assert!(hooks.set_on_assert(on_assert).is_ok());
    assert!(hooks.set_on_assert(other_assert).is_err());
    hooks.do_on_assert();
}

#[test]
fn assert_hook_runs_the_callback() {
    let hits = std::cell::Cell::new(0u32);
    let mut hooks = FreeRtosHooks::new();
    assert!(hooks.set_on_assert(|| hits.set(hits.get() + 1)).is_ok());
    hooks.do_on_assert();
    hooks.do_on_assert();
    assert_eq!(hits.get(), 2);
}

#[test]
fn error_keeps_its_message() {
    match Error::new("no heap file") {
        Error::Message(m) => assert_eq!(m, "no heap file"),
    }
}
