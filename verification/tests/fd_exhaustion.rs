use neolink::exhaustion::{is_fd_exhaustion, is_fd_exhaustion_code};

const EMFILE: i32 = libc::EMFILE;
const ENFILE: i32 = libc::ENFILE;

#[test]
fn exhaustion_codes() {
    assert!(is_fd_exhaustion_code(libc::EMFILE, EMFILE, ENFILE));
    assert!(is_fd_exhaustion_code(libc::ENFILE, EMFILE, ENFILE));
    assert!(!is_fd_exhaustion_code(libc::ECONNREFUSED, EMFILE, ENFILE));
    assert!(!is_fd_exhaustion_code(0, EMFILE, ENFILE));
}

#[test]
fn exhaustion_codes_of_another_platform() {
    assert!(is_fd_exhaustion_code(33, 33, 41));
    assert!(is_fd_exhaustion_code(41, 33, 41));
    assert!(!is_fd_exhaustion_code(24, 33, 41));
}

#[test]
fn exhaustion_anywhere_in_chain() {
    assert!(is_fd_exhaustion(&vec![None, Some(libc::EMFILE)], EMFILE, ENFILE));
    assert!(is_fd_exhaustion(&vec![Some(libc::ENFILE), None, Some(110)], EMFILE, ENFILE));
}

#[test]
fn no_exhaustion_in_chain() {
    assert!(!is_fd_exhaustion(&vec![], EMFILE, ENFILE));
    assert!(!is_fd_exhaustion(&vec![None, None], EMFILE, ENFILE));
    assert!(!is_fd_exhaustion(&vec![Some(libc::ECONNRESET), None], EMFILE, ENFILE));
}

#[test]
fn chain_from_anyhow_error_with_context() {
    let err = anyhow::Error::from(std::io::Error::from_raw_os_error(libc::EMFILE))
        .context("connecting to camera");
    let codes: Vec<Option<i32>> = err
        .chain()
        .map(|c| c.downcast_ref::<std::io::Error>().and_then(|io| io.raw_os_error()))
        .collect();
    assert_eq!(codes.len(), 2);
    assert!(is_fd_exhaustion(&codes, EMFILE, ENFILE));
}

#[test]
fn chain_from_plain_error() {
    let err = std::io::Error::new(std::io::ErrorKind::Other, "boom");
    assert!(!is_fd_exhaustion(&vec![err.raw_os_error()], EMFILE, ENFILE));
}
