use riscv_irq::context::{context, try_context};

#[test]
fn context_of_the_first_harts() {
    assert_eq!(context(0), 2);
    assert_eq!(context(1), 4);
    assert_eq!(context(2), 6);
    assert_eq!(context(3), 8);
    assert_eq!(context(7), 16);
}

#[test]
fn no_hart_maps_to_context_zero() {
    let mut hart: usize = 0;
    while hart < 4096 {
        assert_ne!(context(hart), 0);
        hart += 1;
    }
}

#[test]
fn distinct_harts_have_distinct_contexts() {
    let harts: usize = 64;
    let mut a: usize = 0;
    while a < harts {
        let mut b: usize = a + 1;
        while b < harts {
            assert_ne!(context(a), context(b));
            b += 1;
        }
        a += 1;
    }
}

#[test]
fn contexts_are_the_even_numbers_from_two() {
    let mut hart: usize = 0;
    while hart < 1000 {
        assert_eq!(context(hart) % 2, 0);
        assert_eq!(context(hart), 2 * hart + 2);
        hart += 1;
    }
}

#[test]
fn try_context_agrees_with_context() {
    assert_eq!(try_context(0), Some(2));
    assert_eq!(try_context(41), Some(84));
    assert_eq!(try_context(41), Some(context(41)));
}

#[test]
fn try_context_at_the_edge_of_the_word() {
    let last = usize::MAX / 2 - 1;
    assert_eq!(try_context(last), Some(usize::MAX - 1));
    assert_eq!(try_context(last + 1), None);
    assert_eq!(try_context(usize::MAX), None);
}
