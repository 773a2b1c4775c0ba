use log_mutex::print_id;

#[test]
fn print_id_of_zero() {
    assert_eq!(print_id(0), "Mutex id: 0");
}

#[test]
fn print_id_of_one_digit() {
    assert_eq!(print_id(7), "Mutex id: 7");
    assert_eq!(print_id(9), "Mutex id: 9");
}

#[test]
fn print_id_of_several_digits() {
    assert_eq!(print_id(10), "Mutex id: 10");
    assert_eq!(print_id(42), "Mutex id: 42");
    assert_eq!(print_id(1_234_567_890), "Mutex id: 1234567890");
    assert_eq!(print_id(1_000_000), "Mutex id: 1000000");
}

#[test]
fn print_id_agrees_with_std_formatting() {
    for id in [0, 5, 10, 99, 100, 101, 65_535, 4_294_967_295, usize::MAX - 1, usize::MAX] {
        assert_eq!(print_id(id), format!("Mutex id: {}", id));
    }
}
