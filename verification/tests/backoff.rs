use obscur_native::backoff::{bump_backoff_exp, compute_backoff_delay};

#[test]
fn backoff_doubles_from_one_second() {
    assert_eq!(compute_backoff_delay(0), 1000);
    assert_eq!(compute_backoff_delay(1), 2000);
    assert_eq!(compute_backoff_delay(2), 4000);
    assert_eq!(compute_backoff_delay(3), 8000);
    assert_eq!(compute_backoff_delay(4), 16000);
    assert_eq!(compute_backoff_delay(5), 32000);
}

#[test]
fn backoff_is_capped_at_a_minute() {
    assert_eq!(compute_backoff_delay(6), 60000);
    assert_eq!(compute_backoff_delay(7), 60000);
    assert_eq!(compute_backoff_delay(u32::MAX), 60000);
}

#[test]
fn backoff_exponent_stops_at_six() {
    let mut exp: u32 = 0;
    let mut seen: Vec<u64> = Vec::new();
    for _ in 0..9 {
        seen.push(compute_backoff_delay(exp) / 1000);
        exp = bump_backoff_exp(exp);
    }
    assert_eq!(seen, vec![1, 2, 4, 8, 16, 32, 60, 60, 60]);
    assert_eq!(exp, 6);
}
