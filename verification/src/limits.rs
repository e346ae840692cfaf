//! Raising the open file descriptor soft limit to the hard limit.
//!
//! Containers often start processes with a low soft limit on open
//! descriptors although the hard limit is far higher. At startup the soft
//! limit is raised to the hard limit when it is below it; the limits in
//! effect afterwards are reported.

use vstd::prelude::*;

verus! {

/// A soft and a hard limit on open descriptors.
#[derive(PartialEq, Eq, Structural, Clone, Copy, Debug)]
pub struct FdLimits {
    pub soft: u64,
    pub hard: u64,
}

/// The limits to ask for: the soft limit raised to the hard one, when it is
/// below it; nothing when it is not.
pub open spec fn raise_target(current: FdLimits) -> Option<FdLimits> {
    if current.soft < current.hard {
        Some(FdLimits { soft: current.hard, hard: current.hard })
    } else {
        None
    }
}

/// The limits in effect after asking for `raise_target(current)`, where
/// `applied` tells whether the request was granted.
pub open spec fn limits_after(current: FdLimits, applied: bool) -> FdLimits {
    match raise_target(current) {
        Some(wanted) => if applied {
            wanted
        } else {
            current
        },
        None => current,
    }
}

/// The raise in plain terms: a request is made exactly when the soft limit
/// is below the hard one, and asks for both limits at the hard limit; a
/// refused (or unmade) request leaves the limits read as the limits in
/// effect, and a granted one leaves both at the hard limit.
pub proof fn lemma_raise_in_plain_terms(current: FdLimits, applied: bool)
    ensures
        raise_target(current) is Some <==> current.soft < current.hard,
        raise_target(current) matches Some(w) ==> w.soft == current.hard && w.hard
            == current.hard,
        limits_after(current, false) == current,
        current.soft >= current.hard ==> limits_after(current, applied) == current,
        current.soft < current.hard ==> limits_after(current, true) == (FdLimits {
            soft: current.hard,
            hard: current.hard,
        }),
{
}

/// Decides which limits to request, given the limits now in effect.
pub fn fd_limit_raise_target(current: FdLimits) -> (wanted: Option<FdLimits>)
    ensures
        wanted == raise_target(current),
        wanted is Some <==> current.soft < current.hard,
        wanted matches Some(w) ==> w.soft == current.hard && w.hard == current.hard,
{
    proof {
        lemma_raise_in_plain_terms(current, true);
    }
    if current.soft < current.hard {
        Some(FdLimits { soft: current.hard, hard: current.hard })
    } else {
        None
    }
}

/// The (soft, hard) limits in effect after the raise: the requested limits
/// when the request was granted, the limits read before otherwise (also when
/// nothing was requested). `applied` is ignored when nothing was requested.
pub fn fd_limits_after_raise(current: FdLimits, applied: bool) -> (limits: (u64, u64))
    ensures
        limits == (limits_after(current, applied).soft, limits_after(current, applied).hard),
        !applied ==> limits == (current.soft, current.hard),
        applied && current.soft < current.hard ==> limits == (current.hard, current.hard),
        current.soft >= current.hard ==> limits == (current.soft, current.hard),
{
    proof {
        lemma_raise_in_plain_terms(current, applied);
    }
    match fd_limit_raise_target(current) {
        Some(wanted) => if applied {
            (wanted.soft, wanted.hard)
        } else {
            (current.soft, current.hard)
        },
        None => (current.soft, current.hard),
    }
}

/// Raising never lowers a limit nor changes the hard limit; a granted raise
/// leaves the soft limit at the hard one, and the soft limit ends no lower
/// than before.
pub proof fn lemma_raise_never_lowers(current: FdLimits, applied: bool)
    ensures
        limits_after(current, applied).hard == current.hard,
        limits_after(current, applied).soft >= current.soft,
        applied && current.soft < current.hard ==> limits_after(current, applied).soft
            == current.hard,
        current.soft <= current.hard ==> limits_after(current, applied).soft <= limits_after(
            current,
            applied,
        ).hard,
{
}

/// A soft limit already at or above the hard limit is left alone: nothing is
/// requested and the limits read are the limits reported.
pub proof fn lemma_no_request_when_at_hard(current: FdLimits, applied: bool)
    requires
        current.soft >= current.hard,
    ensures
        raise_target(current) is None,
        limits_after(current, applied) == current,
{
}

} // verus!
