//! The guarantees of the atomic-write protocol, stated over the filesystem
//! model and proved once and for all.
//!
//! `AtomicFile::write` promises (in its contract) that the filesystem after
//! a call is either `write_success_post(before, path, data)` or `before`
//! itself, and that the call succeeds exactly when `write_succeeds` says
//! so. The lemmas here spell out what those two facts give every caller.

use vstd::prelude::*;

use crate::memfs::{file_data, is_file_at, NodeView};
use crate::{write_succeeds, write_success_post};
use crate::OverwriteBehavior;

verus! {

/// Atomicity: a `write` call leaves the target either holding exactly the
/// new bytes or exactly as it was — never a mixture, never a truncated or
/// empty intermediate file — and touches no other path at all.
pub proof fn lemma_write_atomic(
    m0: Map<Seq<char>, NodeView>,
    m1: Map<Seq<char>, NodeView>,
    path: Seq<char>,
    data: Seq<u8>,
)
    requires
        m1 == write_success_post(m0, path, data) || m1 == m0,
    ensures
        m1.contains_key(path) ==> (m1[path] == (NodeView::File { data, synced: true }) || (
        m0.contains_key(path) && m1[path] == m0[path])),
        forall|q: Seq<char>|
            q != path ==> #[trigger] m1.contains_key(q) == m0.contains_key(q) && (m1.contains_key(
                q,
            ) ==> m1[q] == m0[q]),
{
}

/// Create-once under `DisallowOverwrite`: a write that created the target
/// leaves it present with exactly the written bytes, so once one
/// create-only write has landed, no later create-only write of the same
/// path can succeed. Two racing callers are serialized by the atomic
/// primitive itself: whichever commit runs second finds the path taken.
pub proof fn lemma_create_once(m0: Map<Seq<char>, NodeView>, path: Seq<char>, data: Seq<u8>)
    requires
        !m0.contains_key(path),
    ensures
        is_file_at(write_success_post(m0, path, data), path),
        file_data(write_success_post(m0, path, data), path) == data,
        !write_succeeds(
            write_success_post(m0, path, data),
            OverwriteBehavior::DisallowOverwrite,
            path,
        ),
{
}

/// Round trip with durability: whatever bytes a successful write carried,
/// the target afterwards is a file holding exactly those bytes, marked
/// durably synced — the commit step never ran on unsynced data.
pub proof fn lemma_round_trip(m0: Map<Seq<char>, NodeView>, path: Seq<char>, data: Seq<u8>)
    ensures
        write_success_post(m0, path, data)[path] == (NodeView::File { data, synced: true }),
        is_file_at(write_success_post(m0, path, data), path),
        file_data(write_success_post(m0, path, data), path) == data,
{
}

/// Scratch cleanup: no outcome of a `write` call leaves any path behind
/// except possibly the target itself — in particular, neither the scratch
/// directory nor the scratch file survives the call, whether it succeeded
/// or failed.
pub proof fn lemma_no_stray_paths(
    m0: Map<Seq<char>, NodeView>,
    m1: Map<Seq<char>, NodeView>,
    path: Seq<char>,
    data: Seq<u8>,
)
    requires
        m1 == write_success_post(m0, path, data) || m1 == m0,
    ensures
        forall|q: Seq<char>| #[trigger] m1.contains_key(q) ==> m0.contains_key(q) || q == path,
{
}

} // verus!
