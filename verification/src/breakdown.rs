//! Classifying a process's open descriptors by what they point at.
//!
//! Each descriptor is known by the target of its `/proc/self/fd` link, or not
//! at all when the link could not be read. Sockets point at connection
//! handling, pipes at GStreamer/GLib internals, anonymous inodes at event
//! loops, and paths at ordinary files.

use vstd::prelude::*;
use vstd::string::*;
use crate::text::{decimal, push_decimal, starts_with, has_prefix};

verus! {

/// What a descriptor points at.
#[derive(PartialEq, Eq, Structural, Clone, Copy, Debug)]
pub enum FdKind {
    Socket,
    Pipe,
    AnonInode,
    File,
    Other,
}

/// The kind of a descriptor whose link target is `target` (`None` when the
/// link could not be read). The first matching prefix decides.
pub open spec fn kind_of(target: Option<Seq<char>>) -> FdKind {
    match target {
        None => FdKind::Other,
        Some(t) => if starts_with(t, "socket:"@) {
            FdKind::Socket
        } else if starts_with(t, "pipe:"@) {
            FdKind::Pipe
        } else if starts_with(t, "anon_inode:"@) {
            FdKind::AnonInode
        } else if starts_with(t, "/"@) {
            FdKind::File
        } else {
            FdKind::Other
        },
    }
}

/// The kind of a descriptor is fixed by the prefix of its link target:
/// `socket:` makes a socket, `pipe:` a pipe, `anon_inode:` an anonymous
/// inode, `/` a file; a target with none of these prefixes, or an unknown
/// target, is of another kind. (The four prefixes begin with different
/// characters, so at most one applies.)
pub proof fn lemma_kind_by_prefix(t: Seq<char>)
    ensures
        starts_with(t, "socket:"@) ==> kind_of(Some(t)) == FdKind::Socket,
        starts_with(t, "pipe:"@) ==> kind_of(Some(t)) == FdKind::Pipe,
        starts_with(t, "anon_inode:"@) ==> kind_of(Some(t)) == FdKind::AnonInode,
        starts_with(t, "/"@) ==> kind_of(Some(t)) == FdKind::File,
        !starts_with(t, "socket:"@) && !starts_with(t, "pipe:"@) && !starts_with(
            t,
            "anon_inode:"@,
        ) && !starts_with(t, "/"@) ==> kind_of(Some(t)) == FdKind::Other,
        kind_of(None) == FdKind::Other,
{
    reveal_strlit("socket:");
    reveal_strlit("pipe:");
    reveal_strlit("anon_inode:");
    reveal_strlit("/");
    if starts_with(t, "socket:"@) {
        assert(t[0] == 's') by {
            assert(t.subrange(0, 7)[0] == "socket:"@[0]);
        }
    }
    if starts_with(t, "pipe:"@) {
        assert(t[0] == 'p') by {
            assert(t.subrange(0, 5)[0] == "pipe:"@[0]);
        }
    }
    if starts_with(t, "anon_inode:"@) {
        assert(t[0] == 'a') by {
            assert(t.subrange(0, 11)[0] == "anon_inode:"@[0]);
        }
    }
    if starts_with(t, "/"@) {
        assert(t[0] == '/') by {
            assert(t.subrange(0, 1)[0] == "/"@[0]);
        }
    }
}

/// The view of a link target that may be unknown.
pub open spec fn target_view(target: Option<String>) -> Option<Seq<char>> {
    match target {
        Some(t) => Some(t@),
        None => None,
    }
}

/// The views of a list of link targets.
pub open spec fn targets_view(targets: Seq<Option<String>>) -> Seq<Option<Seq<char>>> {
    targets.map_values(|t: Option<String>| target_view(t))
}

/// How many of `targets` are of kind `kind`.
pub open spec fn count_kind(targets: Seq<Option<Seq<char>>>, kind: FdKind) -> nat
    decreases targets.len(),
{
    if targets.len() == 0 {
        0
    } else {
        count_kind(targets.drop_last(), kind) + if kind_of(targets.last()) == kind {
            1nat
        } else {
            0nat
        }
    }
}

/// Classifies one descriptor by its link target.
pub fn classify_fd_target(target: &Option<String>) -> (kind: FdKind)
    ensures
        kind == kind_of(target_view(*target)),
        *target is None ==> kind == FdKind::Other,
        *target matches Some(t) && starts_with(t@, "socket:"@) ==> kind == FdKind::Socket,
        *target matches Some(t) && starts_with(t@, "pipe:"@) ==> kind == FdKind::Pipe,
        *target matches Some(t) && starts_with(t@, "anon_inode:"@) ==> kind == FdKind::AnonInode,
        *target matches Some(t) && starts_with(t@, "/"@) ==> kind == FdKind::File,
{
    proof {
        if let Some(t) = target {
            lemma_kind_by_prefix(t@);
        }
    }
    match target {
        None => FdKind::Other,
        Some(t) => {
            let t = t.as_str();
            if has_prefix(t, "socket:") {
                FdKind::Socket
            } else if has_prefix(t, "pipe:") {
                FdKind::Pipe
            } else if has_prefix(t, "anon_inode:") {
                FdKind::AnonInode
            } else if has_prefix(t, "/") {
                FdKind::File
            } else {
                FdKind::Other
            }
        },
    }
}

/// Counts of open descriptors by kind.
#[derive(PartialEq, Eq, Structural, Clone, Copy, Debug)]
pub struct FdBreakdown {
    pub sockets: u64,
    pub pipes: u64,
    pub anon: u64,
    pub files: u64,
    pub other: u64,
}

/// The sum of the five counts.
pub open spec fn total_of(b: FdBreakdown) -> int {
    b.sockets + b.pipes + b.anon + b.files + b.other
}

/// Every descriptor is of exactly one kind: the counts add up to the
/// number of descriptors.
pub proof fn lemma_counts_partition(targets: Seq<Option<Seq<char>>>)
    ensures
        count_kind(targets, FdKind::Socket) + count_kind(targets, FdKind::Pipe) + count_kind(
            targets,
            FdKind::AnonInode,
        ) + count_kind(targets, FdKind::File) + count_kind(targets, FdKind::Other)
            == targets.len(),
    decreases targets.len(),
{
    if targets.len() > 0 {
        lemma_counts_partition(targets.drop_last());
    }
}

/// Each count is at most the number of descriptors.
proof fn lemma_count_bounded(targets: Seq<Option<Seq<char>>>, kind: FdKind)
    ensures
        count_kind(targets, kind) <= targets.len(),
    decreases targets.len(),
{
    if targets.len() > 0 {
        lemma_count_bounded(targets.drop_last(), kind);
    }
}

/// Counts the descriptors whose link targets are `targets` by kind.
pub fn fd_breakdown(targets: &Vec<Option<String>>) -> (b: FdBreakdown)
    ensures
        b.sockets as nat == count_kind(targets_view(targets@), FdKind::Socket),
        b.pipes as nat == count_kind(targets_view(targets@), FdKind::Pipe),
        b.anon as nat == count_kind(targets_view(targets@), FdKind::AnonInode),
        b.files as nat == count_kind(targets_view(targets@), FdKind::File),
        b.other as nat == count_kind(targets_view(targets@), FdKind::Other),
        total_of(b) == targets.len(),
{
    let ghost tv = targets_view(targets@);
    let mut b = FdBreakdown { sockets: 0, pipes: 0, anon: 0, files: 0, other: 0 };
    let n = targets.len();
    for i in 0..n
        invariant
            n == targets.len(),
            tv == targets_view(targets@),
            b.sockets == count_kind(tv.take(i as int), FdKind::Socket),
            b.pipes == count_kind(tv.take(i as int), FdKind::Pipe),
            b.anon == count_kind(tv.take(i as int), FdKind::AnonInode),
            b.files == count_kind(tv.take(i as int), FdKind::File),
            b.other == count_kind(tv.take(i as int), FdKind::Other),
    {
        proof {
            assert(tv.take(i + 1).drop_last() =~= tv.take(i as int));
            lemma_count_bounded(tv.take(i as int), FdKind::Socket);
            lemma_count_bounded(tv.take(i as int), FdKind::Pipe);
            lemma_count_bounded(tv.take(i as int), FdKind::AnonInode);
            lemma_count_bounded(tv.take(i as int), FdKind::File);
            lemma_count_bounded(tv.take(i as int), FdKind::Other);
        }
        let kind = classify_fd_target(&targets[i]);
        match kind {
            FdKind::Socket => b.sockets = b.sockets + 1,
            FdKind::Pipe => b.pipes = b.pipes + 1,
            FdKind::AnonInode => b.anon = b.anon + 1,
            FdKind::File => b.files = b.files + 1,
            FdKind::Other => b.other = b.other + 1,
        }
    }
    proof {
        assert(tv.take(n as int) =~= tv);
        lemma_counts_partition(tv);
    }
    b
}

/// The one-line rendering of a breakdown.
pub open spec fn breakdown_text(b: FdBreakdown) -> Seq<char> {
    "sockets: "@ + decimal(b.sockets as nat) + ", pipes: "@ + decimal(b.pipes as nat)
        + ", anon: "@ + decimal(b.anon as nat) + ", files: "@ + decimal(b.files as nat)
        + ", other: "@ + decimal(b.other as nat)
}

/// The breakdown line in plain terms: the five counts in decimal, in the
/// order sockets, pipes, anon, files, other, each after its label.
pub proof fn lemma_breakdown_text(b: FdBreakdown)
    ensures
        breakdown_text(b) == "sockets: "@ + decimal(b.sockets as nat) + ", pipes: "@ + decimal(
            b.pipes as nat,
        ) + ", anon: "@ + decimal(b.anon as nat) + ", files: "@ + decimal(b.files as nat)
            + ", other: "@ + decimal(b.other as nat),
{
}

impl FdBreakdown {
    /// Renders the counts as
    /// `sockets: S, pipes: P, anon: A, files: F, other: O`.
    pub fn summary(&self) -> (s: String)
        ensures
            s@ == breakdown_text(*self),
    {
        let mut s = String::from_str("sockets: ");
        push_decimal(&mut s, self.sockets);
        s.append(", pipes: ");
        push_decimal(&mut s, self.pipes);
        s.append(", anon: ");
        push_decimal(&mut s, self.anon);
        s.append(", files: ");
        push_decimal(&mut s, self.files);
        s.append(", other: ");
        push_decimal(&mut s, self.other);
        s
    }
}

} // verus!
