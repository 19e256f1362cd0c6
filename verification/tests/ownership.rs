use vecadd_bench::ownership::add_and_multiply;
use vecadd_bench::ownership::is_five;
use vecadd_bench::ownership::swap;

#[test]
fn test_is_five() {
    assert!(is_five(&5), "Expected true when the value is 5");
    assert!(!is_five(&6), "Expected false when the value is not 5");
}

#[test]
fn test_swap() {
    let mut x: i32 = 5;
    let mut y: i32 = 10;
    swap(&mut x, &mut y);
    assert_eq!(x, 10);
    assert_eq!(y, 5);
}

#[test]
fn test_add_and_multiply() {
    let a: i32 = 10;
    let mut b: i32 = 20;
    add_and_multiply(&a, &mut b);
    assert_eq!(b, 60); // (20 + 10) * 2
}
