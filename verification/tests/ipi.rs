use riscv_irq::ipi::{can_address, send_ipi, single_hart_mask, IpiTarget};

fn harts_of(masks: &[sbi_rt::HartMask]) -> Vec<Vec<usize>> {
    masks
        .iter()
        .map(|mask| (0..256usize).filter(|hart| mask.has_bit(*hart)).collect())
        .collect()
}

#[test]
fn single_hart_mask_has_one_bit_and_base_zero() {
    assert_eq!(single_hart_mask(0).into_inner(), (1, 0));
    assert_eq!(single_hart_mask(3).into_inner(), (8, 0));
    assert_eq!(single_hart_mask(31).into_inner(), (1usize << 31, 0));
    let top = (usize::BITS - 1) as usize;
    assert_eq!(single_hart_mask(top).into_inner(), (1usize << top, 0));
}

#[test]
fn single_hart_mask_selects_that_hart_alone() {
    let mut hart: usize = 0;
    while hart < usize::BITS as usize {
        let mask = single_hart_mask(hart);
        let mut other: usize = 0;
        while other < 200 {
            assert_eq!(mask.has_bit(other), other == hart);
            other += 1;
        }
        hart += 1;
    }
}

#[test]
fn send_to_all_except_current_of_four() {
    let masks = send_ipi(IpiTarget::AllExceptCurrent { cpu_id: 1, cpu_num: 4 });
    assert_eq!(harts_of(&masks), vec![vec![0], vec![2], vec![3]]);
    for mask in &masks {
        assert!(!mask.has_bit(1));
    }
    let parts: Vec<(usize, usize)> = masks.iter().map(|mask| mask.into_inner()).collect();
    assert_eq!(parts, vec![(0b0001, 0), (0b0100, 0), (0b1000, 0)]);
}

#[test]
fn send_to_current_hart() {
    let masks = send_ipi(IpiTarget::Current { cpu_id: 2 });
    assert_eq!(harts_of(&masks), vec![vec![2]]);
    assert_eq!(masks[0].into_inner(), (0b100, 0));
}

#[test]
fn send_to_one_other_hart() {
    let masks = send_ipi(IpiTarget::Other { cpu_id: 5 });
    assert_eq!(harts_of(&masks), vec![vec![5]]);
    assert_eq!(masks[0].into_inner(), (0b10_0000, 0));
}

#[test]
fn all_except_current_with_one_hart_sends_nothing() {
    assert!(send_ipi(IpiTarget::AllExceptCurrent { cpu_id: 0, cpu_num: 1 }).is_empty());
}

#[test]
fn all_except_current_with_no_harts_sends_nothing() {
    assert!(send_ipi(IpiTarget::AllExceptCurrent { cpu_id: 0, cpu_num: 0 }).is_empty());
}

#[test]
fn all_except_current_first_and_last_hart() {
    let skip_first = send_ipi(IpiTarget::AllExceptCurrent { cpu_id: 0, cpu_num: 3 });
    assert_eq!(harts_of(&skip_first), vec![vec![1], vec![2]]);
    let skip_last = send_ipi(IpiTarget::AllExceptCurrent { cpu_id: 2, cpu_num: 3 });
    assert_eq!(harts_of(&skip_last), vec![vec![0], vec![1]]);
}

#[test]
fn current_hart_outside_the_range_skips_nobody() {
    let masks = send_ipi(IpiTarget::AllExceptCurrent { cpu_id: 9, cpu_num: 3 });
    assert_eq!(harts_of(&masks), vec![vec![0], vec![1], vec![2]]);
}

#[test]
fn all_except_current_with_a_full_word_of_harts() {
    let cpu_num = usize::BITS as usize;
    let masks = send_ipi(IpiTarget::AllExceptCurrent { cpu_id: 7, cpu_num });
    assert_eq!(masks.len(), cpu_num - 1);
    let mut expected: usize = 0;
    for mask in &masks {
        if expected == 7 {
            expected += 1;
        }
        assert_eq!(mask.into_inner(), (1usize << expected, 0));
        expected += 1;
    }
    assert_eq!(expected, cpu_num);
}

#[test]
fn addressable_targets() {
    let bits = usize::BITS as usize;
    assert!(can_address(IpiTarget::Current { cpu_id: 0 }));
    assert!(can_address(IpiTarget::Other { cpu_id: bits - 1 }));
    assert!(!can_address(IpiTarget::Other { cpu_id: bits }));
    assert!(!can_address(IpiTarget::Current { cpu_id: bits }));
    assert!(can_address(IpiTarget::AllExceptCurrent { cpu_id: 0, cpu_num: bits }));
    assert!(!can_address(IpiTarget::AllExceptCurrent { cpu_id: 0, cpu_num: bits + 1 }));
    assert!(!can_address(IpiTarget::AllExceptCurrent { cpu_id: bits - 1, cpu_num: bits + 1 }));
    assert!(can_address(IpiTarget::AllExceptCurrent { cpu_id: bits, cpu_num: bits + 1 }));
    assert!(!can_address(IpiTarget::AllExceptCurrent { cpu_id: bits, cpu_num: bits + 2 }));
    assert!(!can_address(IpiTarget::AllExceptCurrent { cpu_id: bits + 1, cpu_num: bits + 2 }));
    assert!(!can_address(IpiTarget::AllExceptCurrent { cpu_id: 0, cpu_num: usize::MAX }));
    assert!(can_address(IpiTarget::AllExceptCurrent { cpu_id: 1000, cpu_num: 4 }));
    assert!(can_address(IpiTarget::AllExceptCurrent { cpu_id: usize::MAX, cpu_num: 0 }));
}

#[test]
fn one_hart_more_than_a_word_with_the_sender_last() {
    let bits = usize::BITS as usize;
    let masks = send_ipi(IpiTarget::AllExceptCurrent { cpu_id: bits, cpu_num: bits + 1 });
    assert_eq!(masks.len(), bits);
    let mut hart: usize = 0;
    for mask in &masks {
        assert_eq!(mask.into_inner(), (1usize << hart, 0));
        hart += 1;
    }
    assert_eq!(hart, bits);
}
