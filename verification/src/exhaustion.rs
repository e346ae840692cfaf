//! Recognising errors caused by running out of file descriptors.
//!
//! Descriptor exhaustion presents as an ordinary connection failure
//! everywhere, while actually being a process-wide condition that no amount
//! of reconnecting fixes. An error is known here by its chain of causes, each
//! reduced to the raw OS error code it carries, if any. The two error codes
//! that mean descriptors ran out (`EMFILE` for this process, `ENFILE` for the
//! whole system) differ between platforms, so the caller supplies the values
//! of its platform.

use vstd::prelude::*;

verus! {

/// Whether one cause carries one of the two exhaustion codes.
pub open spec fn cause_is_exhaustion(cause: Option<i32>, emfile: i32, enfile: i32) -> bool {
    cause == Some(emfile) || cause == Some(enfile)
}

/// Whether some cause in an error chain carries an exhaustion code.
pub open spec fn chain_is_exhaustion(chain: Seq<Option<i32>>, emfile: i32, enfile: i32) -> bool {
    exists|i: int| 0 <= i < chain.len() && cause_is_exhaustion(#[trigger] chain[i], emfile, enfile)
}

/// Exhaustion in plain terms: a chain is an exhaustion error exactly when
/// one of its causes carries `emfile` or `enfile`; a chain with no such
/// cause (causes without an OS code included) is not.
pub proof fn lemma_exhaustion_in_plain_terms(chain: Seq<Option<i32>>, emfile: i32, enfile: i32)
    ensures
        forall|i: int|
            0 <= i < chain.len() && (chain[i] == Some(emfile) || chain[i] == Some(enfile))
                ==> chain_is_exhaustion(chain, emfile, enfile),
        (forall|i: int|
            0 <= i < chain.len() ==> chain[i] != Some(emfile) && chain[i] != Some(enfile))
            ==> !chain_is_exhaustion(chain, emfile, enfile),
{
    assert forall|i: int|
        0 <= i < chain.len() && (chain[i] == Some(emfile) || chain[i] == Some(enfile))
            implies chain_is_exhaustion(chain, emfile, enfile) by {
        assert(cause_is_exhaustion(chain[i], emfile, enfile));
    }
}

/// Whether the OS error code `code` means descriptors ran out: it is the
/// platform's `EMFILE` or `ENFILE`.
pub fn is_fd_exhaustion_code(code: i32, emfile: i32, enfile: i32) -> (r: bool)
    ensures
        r == (code == emfile || code == enfile),
{
    code == emfile || code == enfile
}

/// Whether an error was caused by running out of file descriptors: some
/// cause in its chain, given here by the raw OS error code each cause
/// carries (`None` for a cause that is not an OS error), is the platform's
/// `EMFILE` or `ENFILE`.
pub fn is_fd_exhaustion(chain: &Vec<Option<i32>>, emfile: i32, enfile: i32) -> (r: bool)
    ensures
        r == chain_is_exhaustion(chain@, emfile, enfile),
{
    let n = chain.len();
    for i in 0..n
        invariant
            n == chain.len(),
            forall|j: int| 0 <= j < i ==> !cause_is_exhaustion(#[trigger] chain@[j], emfile, enfile),
    {
        match chain[i] {
            Some(code) => {
                if is_fd_exhaustion_code(code, emfile, enfile) {
                    return true;
                }
            },
            None => {},
        }
    }
    false
}

} // verus!
