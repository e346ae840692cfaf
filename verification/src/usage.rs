//! A one-line description of the process's descriptor usage.

use vstd::prelude::*;
use vstd::string::*;
use crate::text::{decimal, push_decimal};

verus! {

/// What `fd_usage_summary` says for a count of open descriptors and a soft
/// limit, each of which may be unknown.
pub open spec fn usage_summary_text(open_fds: Option<u64>, limit: Option<u64>) -> Seq<char> {
    match (open_fds, limit) {
        (Some(open), Some(limit)) => decimal(open as nat) + " open of a limit of "@ + decimal(
            limit as nat,
        ),
        (None, Some(limit)) => "limit is "@ + decimal(limit as nat),
        _ => "unknown"@,
    }
}

/// The summary in plain terms: with both numbers known it reads
/// `<open> open of a limit of <limit>`, with only the limit known
/// `limit is <limit>`, and with the limit unknown `unknown`, the numbers in
/// decimal.
pub proof fn lemma_summary_text(open_fds: u64, limit: u64)
    ensures
        usage_summary_text(Some(open_fds), Some(limit)) == decimal(open_fds as nat)
            + " open of a limit of "@ + decimal(limit as nat),
        usage_summary_text(None, Some(limit)) == "limit is "@ + decimal(limit as nat),
        usage_summary_text(Some(open_fds), None) == "unknown"@,
        usage_summary_text(None, None) == "unknown"@,
{
}

/// A short human readable description of descriptor usage: both numbers
/// when both are known, only the limit when the count is not, and
/// `unknown` when the limit is not.
pub fn fd_usage_summary(open_fds: Option<u64>, limit: Option<u64>) -> (summary: String)
    ensures
        summary@ == usage_summary_text(open_fds, limit),
{
    match (open_fds, limit) {
        (Some(open), Some(limit)) => {
            let mut s = String::new();
            push_decimal(&mut s, open);
            s.append(" open of a limit of ");
            push_decimal(&mut s, limit);
            s
        },
        (None, Some(limit)) => {
            let mut s = String::from_str("limit is ");
            push_decimal(&mut s, limit);
            s
        },
        _ => String::from_str("unknown"),
    }
}

} // verus!
