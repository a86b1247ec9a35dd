use retype::adapter::UncheckedFn1;
use retype::adapter::UncheckedFn2;
use retype::adapter::UncheckedFn3;
use retype::adapter::UncheckedFn4;
use retype::adapter::UncheckedFn5;
use retype::adapter::UncheckedFn6;
use retype::adapter::UncheckedFn7;
use retype::adapter::UncheckedFn8;
use retype::adapter::UncheckedFn9;
use retype::adapter::UncheckedFn10;
use retype::adapter::unsafe_fn_to_safe_fn;

#[test]
fn test_adapter_identity1() {
    let f = |a1: u64| a1 + 1;
    let s = unsafe_fn_to_safe_fn(UncheckedFn1::<_, u64, u64>::new(f));
    assert_eq!(s(41), f(41));
}

#[test]
fn test_adapter_identity2() {
    let f = |a1: u64, a2: u64| a1 * 10 + a2;
    let s = unsafe_fn_to_safe_fn(UncheckedFn2::<_, u64, u64, u64>::new(f));
    assert_eq!(s(4, 2), f(4, 2));
}

#[test]
fn test_adapter_identity3() {
    let f = |a1: u64, a2: u64, a3: u64| a1 + a2 + a3;
    let s = unsafe_fn_to_safe_fn(UncheckedFn3::<_, u64, u64, u64, u64>::new(f));
    assert_eq!(s(1, 2, 3), f(1, 2, 3));
}

#[test]
fn test_adapter_identity4() {
    let f = |a1: u64, a2: u64, a3: u64, a4: u64| a1 + a2 + a3 + a4;
    let s = unsafe_fn_to_safe_fn(UncheckedFn4::<_, u64, u64, u64, u64, u64>::new(f));
    assert_eq!(s(1, 2, 3, 4), f(1, 2, 3, 4));
}

#[test]
fn test_adapter_identity5() {
    let f = |a1: u64, a2: u64, a3: u64, a4: u64, a5: u64| a1 + a2 + a3 + a4 + a5;
    let s = unsafe_fn_to_safe_fn(UncheckedFn5::<_, u64, u64, u64, u64, u64, u64>::new(f));
    assert_eq!(s(1, 2, 3, 4, 5), f(1, 2, 3, 4, 5));
}

#[test]
fn test_adapter_identity6() {
    let f = |a1: u64, a2: u64, a3: u64, a4: u64, a5: u64, a6: u64| a1 + a2 + a3 + a4 + a5 + a6;
    let s = unsafe_fn_to_safe_fn(UncheckedFn6::<_, u64, u64, u64, u64, u64, u64, u64>::new(f));
    assert_eq!(s(1, 2, 3, 4, 5, 6), f(1, 2, 3, 4, 5, 6));
}

#[test]
fn test_adapter_identity7() {
    let f = |a1: u64, a2: u64, a3: u64, a4: u64, a5: u64, a6: u64, a7: u64| {
        a1 + a2 + a3 + a4 + a5 + a6 + a7
    };
    let s = unsafe_fn_to_safe_fn(UncheckedFn7::<_, u64, u64, u64, u64, u64, u64, u64, u64>::new(f));
    assert_eq!(s(1, 2, 3, 4, 5, 6, 7), f(1, 2, 3, 4, 5, 6, 7));
}

#[test]
fn test_adapter_identity8() {
    let f = |a1: u64, a2: u64, a3: u64, a4: u64, a5: u64, a6: u64, a7: u64, a8: u64| {
        a1 + a2 + a3 + a4 + a5 + a6 + a7 + a8
    };
    let s = unsafe_fn_to_safe_fn(
        UncheckedFn8::<_, u64, u64, u64, u64, u64, u64, u64, u64, u64>::new(f),
    );
    assert_eq!(s(1, 2, 3, 4, 5, 6, 7, 8), f(1, 2, 3, 4, 5, 6, 7, 8));
}

#[test]
fn test_adapter_identity9() {
    let f = |a1: u64, a2: u64, a3: u64, a4: u64, a5: u64, a6: u64, a7: u64, a8: u64, a9: u64| {
        a1 + a2 + a3 + a4 + a5 + a6 + a7 + a8 + a9
    };
    let s = unsafe_fn_to_safe_fn(
        UncheckedFn9::<_, u64, u64, u64, u64, u64, u64, u64, u64, u64, u64>::new(f),
    );
    assert_eq!(s(1, 2, 3, 4, 5, 6, 7, 8, 9), f(1, 2, 3, 4, 5, 6, 7, 8, 9));
}

#[test]
fn test_adapter_identity10() {
    let f = |a1: u64,
             a2: u64,
             a3: u64,
             a4: u64,
             a5: u64,
             a6: u64,
             a7: u64,
             a8: u64,
             a9: u64,
             a10: u64| a1 + a2 + a3 + a4 + a5 + a6 + a7 + a8 + a9 + a10;
    let s = unsafe_fn_to_safe_fn(
        UncheckedFn10::<_, u64, u64, u64, u64, u64, u64, u64, u64, u64, u64, u64>::new(f),
    );
    assert_eq!(s(1, 2, 3, 4, 5, 6, 7, 8, 9, 10), f(1, 2, 3, 4, 5, 6, 7, 8, 9, 10));
}

#[test]
fn test_adapter_on_differing_argument_kinds() {
    let f = |flag: bool, n: u32| if flag { n } else { 0 };
    let s = unsafe_fn_to_safe_fn(UncheckedFn2::<_, bool, u32, u32>::new(f));
    assert_eq!(s(true, 9), 9);
    assert_eq!(s(false, 9), 0);
}
