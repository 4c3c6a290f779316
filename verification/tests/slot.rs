use riscv_irq::handler::IrqHandler;
use riscv_irq::slot::HandlerSlot;
use std::sync::atomic::{AtomicUsize, Ordering};

static FIRST_RUNS: AtomicUsize = AtomicUsize::new(0);
static SECOND_RUNS: AtomicUsize = AtomicUsize::new(0);
static ONCE_RUNS: AtomicUsize = AtomicUsize::new(0);

fn first() {
    FIRST_RUNS.fetch_add(1, Ordering::SeqCst);
}

fn second() {
    SECOND_RUNS.fetch_add(1, Ordering::SeqCst);
}

fn once() {
    ONCE_RUNS.fetch_add(1, Ordering::SeqCst);
}

fn quiet() {}

fn other_quiet() {
    let _ = 1usize;
}

fn address(handler: Option<IrqHandler>) -> Option<usize> {
    handler.map(|h| h.0 as usize)
}

#[test]
fn new_slot_is_empty() {
    let slot = HandlerSlot::new();
    assert!(!slot.is_occupied());
    assert!(!slot.invoke_if_present());
}

#[test]
fn install_into_empty_slot_succeeds() {
    let mut slot = HandlerSlot::new();
    assert!(slot.install(IrqHandler(quiet)));
    assert!(slot.is_occupied());
}

#[test]
fn second_install_fails_and_first_handler_stays() {
    let mut slot = HandlerSlot::new();
    assert!(slot.install(IrqHandler(first)));
    assert!(!slot.install(IrqHandler(second)));
    assert!(slot.invoke_if_present());
    assert_eq!(FIRST_RUNS.load(Ordering::SeqCst), 1);
    assert_eq!(SECOND_RUNS.load(Ordering::SeqCst), 0);
    assert_eq!(address(slot.remove()), Some(first as usize));
}

#[test]
fn invoke_calls_the_handler_once_per_call() {
    let mut slot = HandlerSlot::new();
    assert!(slot.install(IrqHandler(once)));
    assert_eq!(ONCE_RUNS.load(Ordering::SeqCst), 0);
    assert!(slot.invoke_if_present());
    assert_eq!(ONCE_RUNS.load(Ordering::SeqCst), 1);
    assert!(slot.invoke_if_present());
    assert_eq!(ONCE_RUNS.load(Ordering::SeqCst), 2);
}

#[test]
fn remove_on_empty_slot_returns_none_and_changes_nothing() {
    let mut slot = HandlerSlot::new();
    assert!(slot.remove().is_none());
    assert!(!slot.is_occupied());
    assert!(slot.remove().is_none());
    assert!(slot.install(IrqHandler(quiet)));
}

#[test]
fn remove_returns_the_installed_handler() {
    let mut slot = HandlerSlot::new();
    assert!(slot.install(IrqHandler(quiet)));
    assert_eq!(address(slot.remove()), Some(quiet as usize));
    assert!(!slot.is_occupied());
    assert!(!slot.invoke_if_present());
}

#[test]
fn slot_can_be_reused_after_removal() {
    let mut slot = HandlerSlot::new();
    assert!(slot.install(IrqHandler(quiet)));
    assert!(slot.remove().is_some());
    assert!(slot.install(IrqHandler(other_quiet)));
    assert_eq!(address(slot.remove()), Some(other_quiet as usize));
}
