use neolink::limits::{fd_limit_raise_target, fd_limits_after_raise, FdLimits};

#[test]
fn raise_requested_below_hard() {
    let cur = FdLimits { soft: 1024, hard: 1048576 };
    assert_eq!(fd_limit_raise_target(cur), Some(FdLimits { soft: 1048576, hard: 1048576 }));
}

#[test]
fn no_raise_at_hard() {
    assert_eq!(fd_limit_raise_target(FdLimits { soft: 4096, hard: 4096 }), None);
    assert_eq!(fd_limit_raise_target(FdLimits { soft: 5000, hard: 4096 }), None);
}

#[test]
fn limits_after_granted_raise() {
    let cur = FdLimits { soft: 1024, hard: 524288 };
    assert_eq!(fd_limits_after_raise(cur, true), (524288, 524288));
}

#[test]
fn limits_after_refused_raise() {
    let cur = FdLimits { soft: 1024, hard: 524288 };
    assert_eq!(fd_limits_after_raise(cur, false), (1024, 524288));
}

#[test]
fn limits_unchanged_without_request() {
    let cur = FdLimits { soft: 4096, hard: 4096 };
    assert_eq!(fd_limits_after_raise(cur, true), (4096, 4096));
    assert_eq!(fd_limits_after_raise(cur, false), (4096, 4096));
}

#[test]
fn infinite_hard_limit() {
    let cur = FdLimits { soft: 1024, hard: u64::MAX };
    assert_eq!(fd_limits_after_raise(cur, true), (u64::MAX, u64::MAX));
}
