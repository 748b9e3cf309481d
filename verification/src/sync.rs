//! The block windows in which a synchronization pass asks for events.
//!
//! A pass covers every block from the checkpoint to the chain's head, both
//! included, in windows of at most [`LOG_BLOCK_RANGE`] blocks that follow
//! one another without gap or overlap.

use vstd::prelude::*;

verus! {

/// The widest range of blocks asked for in one query.
pub const LOG_BLOCK_RANGE: u64 = 1024;

/// A range of blocks, both ends included.
#[derive(Clone, Copy, Debug, PartialEq, Eq, Structural)]
pub struct BlockWindow {
    pub from_block: u64,
    pub to_block: u64,
}

/// How many windows a pass from `checkpoint` to `head` takes: none where
/// the head is not beyond the checkpoint.
pub open spec fn window_count(checkpoint: u64, head: u64) -> nat {
    if head <= checkpoint {
        0
    } else {
        ((head - checkpoint) / 1024 + 1) as nat
    }
}

/// The first block of the window at position `i`.
pub open spec fn window_start(checkpoint: u64, i: int) -> int {
    checkpoint + 1024 * i
}

/// The last block of the window at position `i`: a full window's, or the
/// head where the window would pass it.
pub open spec fn window_end(checkpoint: u64, head: u64, i: int) -> int {
    if window_start(checkpoint, i) + 1023 <= head {
        window_start(checkpoint, i) + 1023
    } else {
        head as int
    }
}

/// The windows of a pass from `checkpoint` to `head`.
pub fn block_windows(checkpoint: u64, head: u64) -> (r: Vec<BlockWindow>)
    ensures
        r@.len() == window_count(checkpoint, head),
        forall|i: int|
            0 <= i < r@.len() ==> (#[trigger] r@[i]).from_block == window_start(checkpoint, i)
                && r@[i].to_block == window_end(checkpoint, head, i),
{
    let mut out: Vec<BlockWindow> = Vec::new();
    if head <= checkpoint {
        return out;
    }
    let mut start: u64 = checkpoint;
    loop
        invariant_except_break
            start == window_start(checkpoint, out@.len() as int),
            out@.len() == (start - checkpoint) / 1024,
        invariant
            checkpoint < head,
            checkpoint <= start <= head,
            forall|i: int|
                0 <= i < out@.len() ==> (#[trigger] out@[i]).from_block == window_start(
                    checkpoint,
                    i,
                ) && out@[i].to_block == window_end(checkpoint, head, i),
        ensures
            out@.len() == window_count(checkpoint, head),
            forall|i: int|
                0 <= i < out@.len() ==> (#[trigger] out@[i]).from_block == window_start(
                    checkpoint,
                    i,
                ) && out@[i].to_block == window_end(checkpoint, head, i),
        decreases head - start,
    {
        if head - start >= LOG_BLOCK_RANGE {
            out.push(BlockWindow { from_block: start, to_block: start + (LOG_BLOCK_RANGE - 1) });
            start = start + LOG_BLOCK_RANGE;
        } else {
            out.push(BlockWindow { from_block: start, to_block: head });
            break;
        }
    }
    out
}

/// The windows of a pass leave no block out and take none twice: a block
/// between checkpoint and head lies in the window at position
/// `(block - checkpoint) / 1024`, and in no other.
pub proof fn lemma_windows_partition(checkpoint: u64, head: u64, block: u64, i: int)
    requires
        checkpoint < head,
        checkpoint <= block <= head,
        0 <= i < window_count(checkpoint, head),
    ensures
        (window_start(checkpoint, i) <= block <= window_end(checkpoint, head, i)) <==> i == (block
            - checkpoint) / 1024,
{
}

/// The windows of a pass start at the checkpoint, end at the head, follow
/// one another without gap, and hold at most `LOG_BLOCK_RANGE` blocks each.
pub proof fn lemma_windows_contiguous(checkpoint: u64, head: u64, i: int)
    requires
        checkpoint < head,
        0 <= i < window_count(checkpoint, head),
    ensures
        window_start(checkpoint, 0) == checkpoint,
        window_end(checkpoint, head, window_count(checkpoint, head) - 1) == head,
        window_start(checkpoint, i) <= window_end(checkpoint, head, i),
        window_end(checkpoint, head, i) - window_start(checkpoint, i) < LOG_BLOCK_RANGE,
        i + 1 < window_count(checkpoint, head) ==> window_start(checkpoint, i + 1) == window_end(
            checkpoint,
            head,
            i,
        ) + 1,
{
}

} // verus!
