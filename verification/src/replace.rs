//! Safe replace: the decision core of the write-temp / compare / rename
//! protocol. A freshly encoded candidate replaces the target only if the
//! target is missing or not smaller than the candidate; a read-only target
//! has its write protection cleared before the rename. The caller performs
//! the filesystem steps; every decision is made here.

use vstd::prelude::*;

verus! {

/// What the caller knows about the current target file.
#[derive(Clone, Copy, PartialEq, Eq, Structural, Debug)]
pub struct TargetInfo {
    /// Size of the target file in bytes.
    pub size: u64,
    /// Whether the target file is write-protected.
    pub readonly: bool,
}

/// What to do with the temporary file holding a new encoding.
#[derive(Clone, Copy, PartialEq, Eq, Structural, Debug)]
pub enum ReplaceDecision {
    /// The existing target is strictly smaller: discard the temporary file.
    Skip,
    /// Rename the temporary file over the target; when `clear_readonly`
    /// holds, clear the target's write protection first.
    Replace { clear_readonly: bool },
}

/// Decide whether a candidate encoding of `temp_size` bytes replaces the
/// target (`None` when no file exists at the target path yet).
pub fn decide_replace(target: Option<TargetInfo>, temp_size: u64) -> (d: ReplaceDecision)
    ensures
        (d is Skip) <==> (target is Some && target->Some_0.size < temp_size),
        d is Replace ==> d->clear_readonly == (target is Some && target->Some_0.readonly),
{
    match target {
        Option::None => ReplaceDecision::Replace { clear_readonly: false },
        Option::Some(info) => {
            if info.size < temp_size {
                ReplaceDecision::Skip
            } else {
                ReplaceDecision::Replace { clear_readonly: info.readonly }
            }
        },
    }
}

/// The size of the file at the target path after one safe-replace step:
/// unchanged when the decision is to skip, the candidate's size otherwise.
pub open spec fn size_after_replace(cur: Option<nat>, temp: nat) -> Option<nat> {
    if cur is Some && cur->Some_0 < temp {
        cur
    } else {
        Some(temp)
    }
}

/// The size of the file at the target path after the candidates in `cands`
/// have been offered to safe replace one by one, in order.
pub open spec fn size_after_run(cur: Option<nat>, cands: Seq<nat>) -> Option<nat>
    decreases cands.len(),
{
    if cands.len() == 0 {
        cur
    } else {
        size_after_run(size_after_replace(cur, cands[0]), cands.skip(1))
    }
}

/// A unit that fails before any candidate reaches safe replace (a decode or
/// an encode error) leaves the target exactly as it was.
pub proof fn lemma_failed_unit_leaves_target(cur: Option<nat>)
    ensures
        size_after_run(cur, Seq::empty()) == cur,
{
}

/// Never-grow invariant: when a file exists at the target path, a run never
/// leaves a larger file there, whatever the candidates are.
pub proof fn lemma_never_grow(cur: nat, cands: Seq<nat>)
    ensures
        size_after_run(Some(cur), cands) is Some,
        size_after_run(Some(cur), cands)->Some_0 <= cur,
    decreases cands.len(),
{
    if cands.len() > 0 {
        let next = size_after_replace(Some(cur), cands[0]);
        lemma_never_grow(next->Some_0, cands.skip(1));
    }
}

/// Offering the candidates one by one keeps exactly the smallest of the
/// original size and all candidate sizes.
pub proof fn lemma_keeps_smallest(cur: nat, cands: Seq<nat>)
    ensures
        ({
            let r = size_after_run(Some(cur), cands);
            &&& r is Some
            &&& r->Some_0 <= cur
            &&& forall|i: int| 0 <= i < cands.len() ==> r->Some_0 <= #[trigger] cands[i]
            &&& r->Some_0 == cur || exists|i: int|
                0 <= i < cands.len() && r->Some_0 == #[trigger] cands[i]
        }),
    decreases cands.len(),
{
    if cands.len() > 0 {
        let next = size_after_replace(Some(cur), cands[0]);
        lemma_keeps_smallest(next->Some_0, cands.skip(1));
        let r = size_after_run(Some(cur), cands);
        assert forall|i: int| 0 <= i < cands.len() implies r->Some_0 <= #[trigger] cands[i] by {
            if i > 0 {
                assert(cands.skip(1)[i - 1] == cands[i]);
            }
        }
        if r->Some_0 != cur {
            if r->Some_0 == next->Some_0 && next->Some_0 == cands[0] {
                assert(0 <= 0 < cands.len() && r->Some_0 == cands[0]);
            } else {
                let j = choose|j: int|
                    0 <= j < cands.skip(1).len() && r->Some_0 == #[trigger] cands.skip(1)[j];
                assert(cands.skip(1)[j] == cands[j + 1]);
            }
        }
    }
}

/// Idempotence: a second run with the same candidates changes nothing; the
/// size left by one run is a fixed point of the protocol.
pub proof fn lemma_run_idempotent(cur: nat, cands: Seq<nat>)
    ensures
        size_after_run(size_after_run(Some(cur), cands), cands) == size_after_run(
            Some(cur),
            cands,
        ),
{
    lemma_keeps_smallest(cur, cands);
    let r = size_after_run(Some(cur), cands);
    lemma_keeps_smallest(r->Some_0, cands);
    let r2 = size_after_run(r, cands);
    lemma_run_le(r->Some_0, cands);
}

/// A run beginning at a size no larger than every candidate keeps that size.
proof fn lemma_run_le(cur: nat, cands: Seq<nat>)
    requires
        forall|i: int| 0 <= i < cands.len() ==> cur <= #[trigger] cands[i],
    ensures
        size_after_run(Some(cur), cands) == Some(cur),
    decreases cands.len(),
{
    if cands.len() > 0 {
        assert(cur <= cands[0]);
        let next = size_after_replace(Some(cur), cands[0]);
        assert forall|i: int| 0 <= i < cands.skip(1).len() implies next->Some_0 <= #[trigger] cands.skip(1)[i] by {
            assert(cands.skip(1)[i] == cands[i + 1]);
        }
        lemma_run_le(next->Some_0, cands.skip(1));
    }
}

} // verus!
