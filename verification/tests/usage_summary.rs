use neolink::text::push_decimal;
use neolink::usage::fd_usage_summary;

#[test]
fn summary_with_count_and_limit() {
    assert_eq!(fd_usage_summary(Some(37), Some(1024)), "37 open of a limit of 1024");
}

#[test]
fn summary_with_limit_only() {
    assert_eq!(fd_usage_summary(None, Some(1048576)), "limit is 1048576");
}

#[test]
fn summary_unknown_without_limit() {
    assert_eq!(fd_usage_summary(Some(12), None), "unknown");
    assert_eq!(fd_usage_summary(None, None), "unknown");
}

#[test]
fn summary_zero_values() {
    assert_eq!(fd_usage_summary(Some(0), Some(0)), "0 open of a limit of 0");
}

#[test]
fn decimal_rendering_matches_std() {
    for n in [0u64, 1, 9, 10, 99, 100, 101, 4096, 123456789, u64::MAX] {
        let mut s = String::from("x");
        push_decimal(&mut s, n);
        assert_eq!(s, format!("x{}", n));
    }
}
