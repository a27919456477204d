//! Normalization of a lowered control-flow graph: a trailing jump to the next
//! block becomes a fallthrough.

use vstd::prelude::*;

verus! {

/// Index of a block in its function's block list.
#[derive(Clone, Copy, Debug, PartialEq, Eq, Structural)]
pub struct BlockId(pub usize);

/// Pairs of variables, destination first, that a jump assigns.
#[derive(Debug, PartialEq, Eq)]
pub struct VarRemapping {
    pub remapping: Vec<(usize, usize)>,
}

/// How a block ends.
#[derive(Debug, PartialEq, Eq)]
pub enum FlatBlockEnd {
    /// Control continues in the block that follows.
    Fallthrough(BlockId, VarRemapping),
    /// An explicit jump.
    Goto(BlockId, VarRemapping),
    /// Returns the given variables.
    Return(Vec<usize>),
    Unreachable,
    NotSet,
}

/// A basic block: its statements and its end.
#[derive(Debug, PartialEq, Eq)]
pub struct FlatBlock {
    pub statements: Vec<usize>,
    pub end: FlatBlockEnd,
}

/// A function's blocks, in topological order.
#[derive(Debug, PartialEq, Eq)]
pub struct FlatLowered {
    pub blocks: Vec<FlatBlock>,
}

/// The block that an end passes control to, if it names one.
pub open spec fn jump_target(end: FlatBlockEnd) -> Option<int> {
    match end {
        FlatBlockEnd::Fallthrough(t, _) => Some(t.0 as int),
        FlatBlockEnd::Goto(t, _) => Some(t.0 as int),
        _ => None,
    }
}

/// The blocks that have a fallthrough predecessor once the backward walk has
/// handled the blocks from index `i` on: the targets of their jumps.
pub open spec fn marked_from(blocks: Seq<FlatBlock>, i: int) -> Set<int>
    decreases blocks.len() - i,
{
    if i < 0 || i >= blocks.len() {
        Set::empty()
    } else {
        match jump_target(blocks[i].end) {
            Some(t) => marked_from(blocks, i + 1).insert(t),
            None => marked_from(blocks, i + 1),
        }
    }
}

/// What the walk demands when it reaches block `i`: a jump must name a block
/// of the list; into a block that has its fallthrough already only a `Goto`
/// may lead; any other target must be the very next block.
pub open spec fn step_allowed(blocks: Seq<FlatBlock>, i: int) -> bool {
    match jump_target(blocks[i].end) {
        None => true,
        Some(t) => {
            &&& 0 <= t < blocks.len()
            &&& if marked_from(blocks, i + 1).contains(t) {
                !(blocks[i].end is Fallthrough)
            } else {
                i + 1 == t
            }
        },
    }
}

/// The block lists that the pass accepts: the backward walk meets its
/// demands at every block.
pub open spec fn can_normalize(blocks: Seq<FlatBlock>) -> bool {
    forall|i: int| 0 <= i < blocks.len() ==> #[trigger] step_allowed(blocks, i)
}

/// The same in closed form, for block `i`: its target is a later block of
/// the list, the block right before that target passes control to it too, and
/// only that block may already be a fallthrough.
pub open spec fn block_is_regular(blocks: Seq<FlatBlock>, i: int) -> bool {
    match jump_target(blocks[i].end) {
        None => true,
        Some(t) => {
            &&& i < t < blocks.len()
            &&& jump_target(blocks[t - 1].end) == Some(t)
            &&& (i + 1 != t ==> blocks[i].end is Goto)
        },
    }
}

/// The accepted block lists in closed form.
pub open spec fn all_regular(blocks: Seq<FlatBlock>) -> bool {
    forall|i: int| 0 <= i < blocks.len() ==> #[trigger] block_is_regular(blocks, i)
}

/// A block is marked from `i` on exactly when a block from `i` on jumps to it.
pub proof fn lemma_marked_iff_targeted(blocks: Seq<FlatBlock>, i: int, t: int)
    requires
        0 <= i <= blocks.len(),
    ensures
        marked_from(blocks, i).contains(t) <==> exists|j: int|
            i <= j < blocks.len() && jump_target(#[trigger] blocks[j].end) == Some(t),
    decreases blocks.len() - i,
{
    if i < blocks.len() {
        lemma_marked_iff_targeted(blocks, i + 1, t);
        if marked_from(blocks, i).contains(t) {
            if jump_target(blocks[i].end) == Some(t) {
                assert(i <= i < blocks.len() && jump_target(blocks[i].end) == Some(t));
            } else {
                assert(marked_from(blocks, i + 1).contains(t));
                let j = choose|j: int|
                    i + 1 <= j < blocks.len() && jump_target(#[trigger] blocks[j].end) == Some(t);
                assert(i <= j < blocks.len() && jump_target(blocks[j].end) == Some(t));
            }
        }
        if exists|j: int| i <= j < blocks.len() && jump_target(#[trigger] blocks[j].end) == Some(t) {
            let j = choose|j: int|
                i <= j < blocks.len() && jump_target(#[trigger] blocks[j].end) == Some(t);
            if j > i {
                assert(i + 1 <= j < blocks.len() && jump_target(blocks[j].end) == Some(t));
            }
        }
    }
}

/// Where the walk's demands are met from `i` on, every marked block is
/// entered by the block right before it, which lies at `i` or later.
pub proof fn lemma_marked_by_predecessor(blocks: Seq<FlatBlock>, i: int, t: int)
    requires
        0 <= i <= blocks.len(),
        forall|k: int| i <= k < blocks.len() ==> #[trigger] step_allowed(blocks, k),
        marked_from(blocks, i).contains(t),
    ensures
        i <= t - 1 < blocks.len(),
        jump_target(blocks[t - 1].end) == Some(t),
    decreases blocks.len() - i,
{
    if i < blocks.len() {
        assert(step_allowed(blocks, i));
        if marked_from(blocks, i + 1).contains(t) {
            lemma_marked_by_predecessor(blocks, i + 1, t);
        }
    }
}

/// The walk's demands and the closed form accept the same block lists.
pub proof fn lemma_can_normalize_closed_form(blocks: Seq<FlatBlock>)
    ensures
        can_normalize(blocks) <==> all_regular(blocks),
{
    if can_normalize(blocks) {
        assert forall|i: int| 0 <= i < blocks.len() implies #[trigger] block_is_regular(
            blocks,
            i,
        ) by {
            assert(step_allowed(blocks, i));
            match jump_target(blocks[i].end) {
                None => {},
                Some(t) => {
                    if marked_from(blocks, i + 1).contains(t) {
                        lemma_marked_by_predecessor(blocks, i + 1, t);
                    }
                },
            }
        }
    }
    if all_regular(blocks) {
        assert forall|i: int| 0 <= i < blocks.len() implies #[trigger] step_allowed(blocks, i) by {
            assert(block_is_regular(blocks, i));
            match jump_target(blocks[i].end) {
                None => {},
                Some(t) => {
                    lemma_marked_iff_targeted(blocks, i + 1, t);
                    if marked_from(blocks, i + 1).contains(t) {
                        let j = choose|j: int|
                            i + 1 <= j < blocks.len() && jump_target(#[trigger] blocks[j].end)
                                == Some(t);
                        assert(block_is_regular(blocks, j));
                    } else if i + 1 != t {
                        assert(i + 1 <= t - 1 < blocks.len() && jump_target(blocks[t - 1].end)
                            == Some(t));
                    }
                },
            }
        }
    }
}

/// The end of block `i` after the pass: a jump to block `i + 1` is a
/// fallthrough with the same remapping; every other end is unchanged.
pub open spec fn normalized_end(i: int, end: FlatBlockEnd) -> FlatBlockEnd {
    match end {
        FlatBlockEnd::Goto(t, remapping) => if t.0 == i + 1 {
            FlatBlockEnd::Fallthrough(t, remapping)
        } else {
            end
        },
        _ => end,
    }
}

/// Block `i` after the pass.
pub open spec fn normalized_block(i: int, block: FlatBlock) -> FlatBlock {
    FlatBlock { statements: block.statements, end: normalized_end(i, block.end) }
}

/// The block list after the pass.
pub open spec fn normalized(blocks: Seq<FlatBlock>) -> Seq<FlatBlock> {
    Seq::new(blocks.len(), |i: int| normalized_block(i, blocks[i]))
}

/// Every fallthrough enters the block right after its own.
pub open spec fn fallthroughs_consecutive(blocks: Seq<FlatBlock>) -> bool {
    forall|i: int|
        0 <= i < blocks.len() && (#[trigger] blocks[i]).end is Fallthrough ==> jump_target(
            blocks[i].end,
        ) == Some(i + 1)
}

/// No block is entered by two fallthroughs.
pub open spec fn fallthroughs_unique(blocks: Seq<FlatBlock>) -> bool {
    forall|i: int, j: int|
        0 <= i < blocks.len() && 0 <= j < blocks.len() && (#[trigger] blocks[i]).end is Fallthrough
            && (#[trigger] blocks[j]).end is Fallthrough && jump_target(blocks[i].end)
            == jump_target(blocks[j].end) ==> i == j
}

/// After the pass, every fallthrough enters the block right after its own, so
/// each block has at most one fallthrough predecessor; and every block that a
/// jump enters has one.
pub proof fn lemma_normalized_fallthroughs(blocks: Seq<FlatBlock>)
    requires
        can_normalize(blocks),
    ensures
        fallthroughs_consecutive(normalized(blocks)),
        fallthroughs_unique(normalized(blocks)),
        forall|i: int|
            0 <= i < blocks.len() && jump_target(#[trigger] blocks[i].end) is Some ==> {
                let t = jump_target(blocks[i].end)->Some_0;
                normalized(blocks)[t - 1].end is Fallthrough && jump_target(
                    normalized(blocks)[t - 1].end,
                ) == Some(t)
            },
{
    lemma_can_normalize_closed_form(blocks);
    let after = normalized(blocks);
    assert forall|i: int| 0 <= i < after.len() && (#[trigger] after[i]).end is Fallthrough implies
        jump_target(after[i].end) == Some(i + 1) by {
        assert(block_is_regular(blocks, i));
    }
    assert forall|i: int|
        0 <= i < blocks.len() && jump_target(#[trigger] blocks[i].end) is Some implies {
        let t = jump_target(blocks[i].end)->Some_0;
        after[t - 1].end is Fallthrough && jump_target(after[t - 1].end) == Some(t)
    } by {
        assert(block_is_regular(blocks, i));
        let t = jump_target(blocks[i].end)->Some_0;
        assert(block_is_regular(blocks, t - 1));
    }
}

/// Whether the pass accepts the block list.
pub fn can_add_fallthroughs(flat_lowered: &FlatLowered) -> (r: bool)
    ensures
        r == can_normalize(flat_lowered.blocks@),
{
    proof {
        lemma_can_normalize_closed_form(flat_lowered.blocks@);
    }
    let n = flat_lowered.blocks.len();
    let mut i: usize = 0;
    while i < n
        invariant
            i <= n,
            n == flat_lowered.blocks@.len(),
            can_normalize(flat_lowered.blocks@) <==> all_regular(flat_lowered.blocks@),
            forall|k: int| 0 <= k < i ==> #[trigger] block_is_regular(flat_lowered.blocks@, k),
        decreases n - i,
    {
        let (target, is_goto): (usize, bool) = match &flat_lowered.blocks[i].end {
            FlatBlockEnd::Fallthrough(t, _) => (t.0, false),
            FlatBlockEnd::Goto(t, _) => (t.0, true),
            _ => {
                i += 1;
                continue ;
            },
        };
        if target <= i || target >= n {
            assert(!block_is_regular(flat_lowered.blocks@, i as int));
            return false;
        }
        let before_enters = match &flat_lowered.blocks[target - 1].end {
            FlatBlockEnd::Fallthrough(t, _) => t.0 == target,
            FlatBlockEnd::Goto(t, _) => t.0 == target,
            _ => false,
        };
        if !before_enters || (i + 1 != target && !is_goto) {
            assert(!block_is_regular(flat_lowered.blocks@, i as int));
            return false;
        }
        assert(block_is_regular(flat_lowered.blocks@, i as int));
        i += 1;
    }
    true
}

/// Makes every block that a jump enters the fallthrough successor of the block
/// before it: walking from the last block to the first, the first jump met
/// into a block becomes a fallthrough.
pub fn add_fallthroughs(flat_lowered: &mut FlatLowered)
    requires
        can_normalize(old(flat_lowered).blocks@),
    ensures
        final(flat_lowered).blocks@ == normalized(old(flat_lowered).blocks@),
        fallthroughs_consecutive(final(flat_lowered).blocks@),
        fallthroughs_unique(final(flat_lowered).blocks@),
{
    let ghost before = flat_lowered.blocks@;
    proof {
        lemma_can_normalize_closed_form(before);
    }
    let n_blocks = flat_lowered.blocks.len();
    let mut has_fallthrough: Vec<bool> = Vec::new();
    let mut k: usize = 0;
    while k < n_blocks
        invariant
            k <= n_blocks,
            has_fallthrough@.len() == k,
            forall|t: int| 0 <= t < k ==> !has_fallthrough@[t],
        decreases n_blocks - k,
    {
        has_fallthrough.push(false);
        k += 1;
    }
    let mut pending: Vec<FlatBlock> = Vec::new();
    core::mem::swap(&mut flat_lowered.blocks, &mut pending);
    let mut done: Vec<FlatBlock> = Vec::new();
    while pending.len() > 0
        invariant
            all_regular(before),
            before.len() == n_blocks,
            pending@ == before.subrange(0, pending@.len() as int),
            pending@.len() + done@.len() == n_blocks,
            has_fallthrough@.len() == n_blocks,
            forall|d: int|
                0 <= d < done@.len() ==> #[trigger] done@[d] == normalized_block(
                    n_blocks - 1 - d,
                    before[n_blocks - 1 - d],
                ),
            forall|t: int|
                0 <= t < n_blocks ==> (#[trigger] has_fallthrough@[t] <==> (t - 1 >= pending@.len()
                    && jump_target(before[t - 1].end) == Some(t))),
        decreases pending@.len(),
    {
        let block_id: usize = pending.len() - 1;
        let block = pending.pop().unwrap();
        assert(block == before[block_id as int]);
        assert(block_is_regular(before, block_id as int));
        let FlatBlock { statements, end } = block;
        let end = match end {
            FlatBlockEnd::Fallthrough(target, remapping) => {
                if !has_fallthrough[target.0] {
                    has_fallthrough.set(target.0, true);
                }
                FlatBlockEnd::Fallthrough(target, remapping)
            },
            FlatBlockEnd::Goto(target, remapping) => {
                if has_fallthrough[target.0] {
                    FlatBlockEnd::Goto(target, remapping)
                } else {
                    has_fallthrough.set(target.0, true);
                    FlatBlockEnd::Fallthrough(target, remapping)
                }
            },
            FlatBlockEnd::Return(values) => FlatBlockEnd::Return(values),
            FlatBlockEnd::Unreachable => FlatBlockEnd::Unreachable,
            FlatBlockEnd::NotSet => FlatBlockEnd::NotSet,
        };
        done.push(FlatBlock { statements, end });
        assert(pending@ == before.subrange(0, pending@.len() as int));
    }
    let mut blocks: Vec<FlatBlock> = Vec::new();
    while done.len() > 0
        invariant
            done@.len() + blocks@.len() == n_blocks,
            before.len() == n_blocks,
            forall|d: int|
                0 <= d < done@.len() ==> #[trigger] done@[d] == normalized_block(
                    n_blocks - 1 - d,
                    before[n_blocks - 1 - d],
                ),
            forall|i: int|
                0 <= i < blocks@.len() ==> #[trigger] blocks@[i] == normalized_block(i, before[i]),
        decreases done@.len(),
    {
        let block = done.pop().unwrap();
        blocks.push(block);
    }
    flat_lowered.blocks = blocks;
    proof {
        assert(flat_lowered.blocks@ =~= normalized(before));
        lemma_normalized_fallthroughs(before);
    }
}

} // verus!
