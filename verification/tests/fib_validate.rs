use katey::digits::decimal_bytes;
use katey::fib::{FibEmitter, fib_fits};
use katey::validate::{validate_delay, validate_n};

fn lines_of(count: u32) -> Vec<String> {
    assert!(fib_fits(count));
    let mut emitter = FibEmitter::new(count);
    let mut lines = Vec::new();
    while let Some(line) = emitter.next_line() {
        lines.push(String::from_utf8(line).expect("ascii line"));
    }
    lines
}

#[test]
fn fib_single() {
    let expected: Vec<String> = [0u64, 1, 1, 2, 3, 5, 8, 13, 21, 34]
        .iter()
        .map(|i| format!("{}\n", i))
        .collect();
    assert_eq!(expected, lines_of(10));
}

#[test]
fn fib_interleaved() {
    // two emitters serve two clients independently and identically
    let mut one = FibEmitter::new(10);
    let mut two = FibEmitter::new(10);
    for i in &[0u64, 1, 1, 2, 3, 5, 8, 13, 21, 34] {
        let expect = format!("{}\n", i).into_bytes();
        assert_eq!(expect, one.next_line().expect("line"));
        assert_eq!(expect, two.next_line().expect("line"));
    }
    assert_eq!(None, one.next_line());
    assert_eq!(None, two.next_line());
}

#[test]
fn fib_zero_lines() {
    assert_eq!(Vec::<String>::new(), lines_of(0));
}

#[test]
fn fib_fits_bounds() {
    assert!(fib_fits(0));
    assert!(fib_fits(1));
    assert!(fib_fits(93));
    assert!(!fib_fits(94));
    assert!(!fib_fits(1000));
}

#[test]
fn fib_largest_run_ends_in_range() {
    let lines = lines_of(93);
    assert_eq!(93, lines.len());
    assert_eq!("7540113804746346429\n", lines[92]);
}

#[test]
fn decimal_bytes_exact() {
    assert_eq!(b"0".to_vec(), decimal_bytes(0));
    assert_eq!(b"7".to_vec(), decimal_bytes(7));
    assert_eq!(b"10".to_vec(), decimal_bytes(10));
    assert_eq!(b"1729".to_vec(), decimal_bytes(1729));
    assert_eq!(b"18446744073709551615".to_vec(), decimal_bytes(u64::MAX));
}

#[test]
fn validate_n_accepts_u32_texts() {
    assert!(validate_n("0".to_string()).is_ok());
    assert!(validate_n("10".to_string()).is_ok());
    assert!(validate_n("+10".to_string()).is_ok());
    assert!(validate_n("4294967295".to_string()).is_ok());
}

#[test]
fn validate_n_rejects_other_texts() {
    assert!(validate_n(String::new()).is_err());
    assert!(validate_n("+".to_string()).is_err());
    assert!(validate_n("-1".to_string()).is_err());
    assert!(validate_n("12a".to_string()).is_err());
    assert!(validate_n("1.5".to_string()).is_err());
    // one past u32::MAX
    assert!(validate_n("4294967296".to_string()).is_err());
}

#[test]
fn validate_delay_accepts_what_float_parsing_accepts() {
    assert!(validate_delay("1".to_string()).is_ok());
    assert!(validate_delay("0.01".to_string()).is_ok());
    assert!(validate_delay("0.001".to_string()).is_ok());
    assert!(validate_delay("5.".to_string()).is_ok());
    assert!(validate_delay(".5".to_string()).is_ok());
    assert!(validate_delay("123456789123456789".to_string()).is_ok());
    assert!(validate_delay("1e3".to_string()).is_ok());
    assert!(validate_delay("2.5E-3".to_string()).is_ok());
    assert!(validate_delay("1.e2".to_string()).is_ok());
    // parse-only, exactly like the original: a negative delay passes here
    assert!(validate_delay("-1".to_string()).is_ok());
    assert!(validate_delay("+1".to_string()).is_ok());
    assert!(validate_delay("inf".to_string()).is_ok());
    assert!(validate_delay("-Infinity".to_string()).is_ok());
    assert!(validate_delay("NaN".to_string()).is_ok());
}

#[test]
fn validate_delay_rejects_other_texts() {
    assert!(validate_delay(String::new()).is_err());
    assert!(validate_delay("+".to_string()).is_err());
    assert!(validate_delay(".".to_string()).is_err());
    assert!(validate_delay("..".to_string()).is_err());
    assert!(validate_delay("1.2.3".to_string()).is_err());
    assert!(validate_delay("e3".to_string()).is_err());
    assert!(validate_delay("1e".to_string()).is_err());
    assert!(validate_delay("1e+".to_string()).is_err());
    assert!(validate_delay("1e2.5".to_string()).is_err());
    assert!(validate_delay("infx".to_string()).is_err());
    assert!(validate_delay("na".to_string()).is_err());
    assert!(validate_delay("fast".to_string()).is_err());
}
