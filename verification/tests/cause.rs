use riscv_irq::cause::{
    classify, recognizes, Cause, INTC_IRQ_BASE, MAX_IRQ_COUNT, S_EXT, S_SOFT, S_TIMER,
};

#[test]
fn interrupt_bit_is_the_top_bit_of_a_word() {
    assert_eq!(INTC_IRQ_BASE, 1usize << (usize::BITS - 1));
    assert_eq!(INTC_IRQ_BASE.count_ones(), 1);
    assert_eq!(INTC_IRQ_BASE.leading_zeros(), 0);
}

#[test]
fn cause_words_of_the_hart_side_classes() {
    assert_eq!(S_SOFT, INTC_IRQ_BASE + 1);
    assert_eq!(S_TIMER, INTC_IRQ_BASE + 5);
    assert_eq!(S_EXT, INTC_IRQ_BASE + 9);
}

#[test]
fn table_capacity_is_1024() {
    assert_eq!(MAX_IRQ_COUNT, 1024);
}

#[test]
fn classify_timer() {
    assert!(recognizes(S_TIMER));
    assert_eq!(classify(S_TIMER), Cause::Timer);
}

#[test]
fn classify_software_interrupt_as_inter_processor() {
    assert!(recognizes(S_SOFT));
    assert_eq!(classify(S_SOFT), Cause::InterProcessor);
}

#[test]
fn classify_external_sentinel() {
    assert!(recognizes(S_EXT));
    assert_eq!(classify(S_EXT), Cause::ExternalEvent);
}

#[test]
fn classify_device_irq_keeps_the_number() {
    for irq in [0usize, 1, 5, 9, 1023, 1024, 70_000, INTC_IRQ_BASE - 1] {
        assert!(recognizes(irq));
        assert_eq!(classify(irq), Cause::DeviceIrq(irq));
    }
}

#[test]
fn unknown_hart_side_causes_are_not_recognized() {
    for sub_kind in [0usize, 2, 3, 4, 6, 7, 8, 10, 11, 12, 13] {
        assert!(!recognizes(INTC_IRQ_BASE + sub_kind));
    }
    assert!(!recognizes(usize::MAX));
}

#[test]
fn every_other_word_with_the_bit_clear_is_recognized() {
    let mut irq: usize = 0;
    while irq < 5000 {
        assert!(recognizes(irq));
        irq += 1;
    }
}
