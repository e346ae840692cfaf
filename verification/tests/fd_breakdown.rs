use neolink::breakdown::{classify_fd_target, fd_breakdown, FdBreakdown, FdKind};

fn t(s: &str) -> Option<String> {
    Some(s.to_string())
}

#[test]
fn classify_each_kind() {
    assert_eq!(classify_fd_target(&t("socket:[12345]")), FdKind::Socket);
    assert_eq!(classify_fd_target(&t("pipe:[678]")), FdKind::Pipe);
    assert_eq!(classify_fd_target(&t("anon_inode:[eventpoll]")), FdKind::AnonInode);
    assert_eq!(classify_fd_target(&t("/dev/null")), FdKind::File);
    assert_eq!(classify_fd_target(&t("/proc/1/fd")), FdKind::File);
    assert_eq!(classify_fd_target(&t("net:[4026531840]")), FdKind::Other);
    assert_eq!(classify_fd_target(&t("")), FdKind::Other);
    assert_eq!(classify_fd_target(&None), FdKind::Other);
}

#[test]
fn classify_is_by_prefix_only() {
    assert_eq!(classify_fd_target(&t("socket")), FdKind::Other);
    assert_eq!(classify_fd_target(&t("a/socket:")), FdKind::Other);
    assert_eq!(classify_fd_target(&t("/socket:")), FdKind::File);
}

#[test]
fn breakdown_counts_and_total() {
    let targets = vec![
        t("socket:[1]"),
        t("socket:[2]"),
        t("pipe:[3]"),
        None,
        t("anon_inode:[eventfd]"),
        t("/var/log/x"),
        t("/dev/null"),
        t("mnt:[9]"),
    ];
    let b = fd_breakdown(&targets);
    assert_eq!(b, FdBreakdown { sockets: 2, pipes: 1, anon: 1, files: 2, other: 2 });
    assert_eq!(b.sockets + b.pipes + b.anon + b.files + b.other, targets.len() as u64);
}

#[test]
fn breakdown_of_nothing() {
    let b = fd_breakdown(&vec![]);
    assert_eq!(b, FdBreakdown { sockets: 0, pipes: 0, anon: 0, files: 0, other: 0 });
    assert_eq!(b.summary(), "sockets: 0, pipes: 0, anon: 0, files: 0, other: 0");
}

#[test]
fn breakdown_summary_text() {
    let b = FdBreakdown { sockets: 120, pipes: 4, anon: 7, files: 31, other: 1 };
    assert_eq!(b.summary(), "sockets: 120, pipes: 4, anon: 7, files: 31, other: 1");
}
