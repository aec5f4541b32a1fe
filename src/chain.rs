use crate::block::Block;
use vstd::prelude::*;

verus! {

/// Why a block or a sequence of blocks was refused.
#[derive(PartialEq, Eq, Debug, Clone, Copy)]
pub enum ChainError {
    /// The block does not follow the tail: its previous hash is not the
    /// tail's hash, or its index is not one past the tail's.
    LinkageMismatch,
    /// The block's hash lacks the leading zeros that proof of work requires.
    ProofOfWorkUnmet,
    /// The block's stored hash is not the hash of its fields.
    HashMismatch,
    /// A chain must hold at least its genesis block.
    EmptyChain,
}

/// `next` points back at `prev` and carries the following index.
pub open spec fn links(prev: Block, next: Block) -> bool {
    next.prev_hash@ == prev.hash@ && next.index == prev.index + 1
}

/// The outcome of offering `block` as the successor of `tail`; the checks
/// run in the order linkage, proof of work, hash.
pub open spec fn append_check(tail: Block, block: Block) -> Result<(), ChainError> {
    if !links(tail, block) {
        Err(ChainError::LinkageMismatch)
    } else if !block.is_mined() {
        Err(ChainError::ProofOfWorkUnmet)
    } else if !block.is_sealed() {
        Err(ChainError::HashMismatch)
    } else {
        Ok(())
    }
}

/// A valid chain: not empty, every block sealed, every block after the first
/// mined, and each block linked to the one before it.
pub open spec fn chain_valid(s: Seq<Block>) -> bool {
    &&& s.len() > 0
    &&& forall|i: int| 0 <= i < s.len() ==> (#[trigger] s[i]).is_sealed()
    &&& forall|i: int| 0 < i < s.len() ==> (#[trigger] s[i]).is_mined()
    &&& forall|i: int| 0 < i < s.len() ==> links(s[i - 1], #[trigger] s[i])
}

/// An append-only, hash-linked sequence of blocks.
pub struct Chain {
    blocks: Vec<Block>,
}

/// Clones a sequence of blocks, block by block.
pub fn clone_blocks(blocks: &Vec<Block>) -> (r: Vec<Block>)
    ensures
        r@ == blocks@,
{
    let mut out: Vec<Block> = Vec::new();
    let mut i: usize = 0;
    while i < blocks.len()
        invariant
            i <= blocks@.len(),
            out@ == blocks@.subrange(0, i as int),
        decreases blocks@.len() - i,
    {
        out.push(blocks[i].clone());
        i = i + 1;
        assert(out@ =~= blocks@.subrange(0, i as int));
    }
    assert(blocks@.subrange(0, i as int) =~= blocks@);
    out
}

impl View for Chain {
    type V = Seq<Block>;

    closed spec fn view(&self) -> Seq<Block> {
        self.blocks@
    }
}

impl Chain {
    pub open spec fn wf(&self) -> bool {
        chain_valid(self@)
    }

    /// A chain holding only `genesis`, which must be sealed.
    pub fn new(genesis: Block) -> (r: Result<Chain, ChainError>)
        ensures
            r is Ok <==> genesis.is_sealed(),
            r matches Ok(c) ==> c.wf() && c@ == seq![genesis],
            r matches Err(e) ==> e == ChainError::HashMismatch,
    {
        let h = genesis.hash_block();
        if h != genesis.hash {
            return Err(ChainError::HashMismatch);
        }
        let mut blocks: Vec<Block> = Vec::new();
        blocks.push(genesis);
        let c = Chain { blocks };
        assert(c@ =~= seq![genesis]);
        Ok(c)
    }

    /// Checks `block` as the successor of the tail and appends it; on
    /// refusal the chain is left as it was.
    pub fn add_block(&mut self, block: Block) -> (r: Result<(), ChainError>)
        requires
            old(self).wf(),
        ensures
            final(self).wf(),
            r == append_check(old(self)@.last(), block),
            r is Ok ==> final(self)@ == old(self)@.push(block),
            r is Err ==> final(self)@ == old(self)@,
    {
        let n = self.blocks.len();
        let tail = &self.blocks[n - 1];
        if block.prev_hash != tail.hash || tail.index == u64::MAX || block.index != tail.index + 1 {
            return Err(ChainError::LinkageMismatch);
        }
        if !has_leading_zeros_of(&block) {
            return Err(ChainError::ProofOfWorkUnmet);
        }
        let h = block.hash_block();
        if h != block.hash {
            return Err(ChainError::HashMismatch);
        }
        let ghost before = self@;
        self.blocks.push(block);
        proof {
            lemma_append_valid(before, block);
        }
        Ok(())
    }

    /// Validates a whole sequence of blocks and makes a chain of it.
    pub fn from_blocks(blocks: Vec<Block>) -> (r: Result<Chain, ChainError>)
        ensures
            r is Ok <==> chain_valid(blocks@),
            r matches Ok(c) ==> c@ == blocks@,
            r == Err::<Chain, ChainError>(ChainError::EmptyChain) <==> blocks@.len() == 0,
    {
        if blocks.len() == 0 {
            return Err(ChainError::EmptyChain);
        }
        let mut i: usize = 0;
        while i < blocks.len()
            invariant
                0 < blocks@.len(),
                i <= blocks@.len(),
                forall|j: int| 0 <= j < i ==> (#[trigger] blocks@[j]).is_sealed(),
                forall|j: int| 0 < j < i ==> (#[trigger] blocks@[j]).is_mined(),
                forall|j: int| 0 < j < i ==> links(blocks@[j - 1], #[trigger] blocks@[j]),
            decreases blocks@.len() - i,
        {
            let b = &blocks[i];
            if i > 0 {
                let prev = &blocks[i - 1];
                if b.prev_hash != prev.hash || prev.index == u64::MAX || b.index != prev.index + 1 {
                    return Err(ChainError::LinkageMismatch);
                }
                if !has_leading_zeros_of(b) {
                    return Err(ChainError::ProofOfWorkUnmet);
                }
            }
            let h = b.hash_block();
            if h != b.hash {
                return Err(ChainError::HashMismatch);
            }
            i = i + 1;
        }
        Ok(Chain { blocks })
    }

    /// The last block.
    pub fn latest_block(&self) -> (r: &Block)
        requires
            self.wf(),
        ensures
            *r == self@.last(),
    {
        &self.blocks[self.blocks.len() - 1]
    }

    /// The number of blocks.
    pub fn len(&self) -> (r: usize)
        ensures
            r == self@.len(),
    {
        self.blocks.len()
    }

    /// The blocks, genesis first.
    pub fn blocks(&self) -> (r: &Vec<Block>)
        ensures
            r@ == self@,
    {
        &self.blocks
    }

    /// A copy of the blocks, genesis first.
    pub fn to_vec(&self) -> (r: Vec<Block>)
        ensures
            r@ == self@,
    {
        clone_blocks(&self.blocks)
    }
}

/// Whether the block's hash meets the proof-of-work target.
fn has_leading_zeros_of(block: &Block) -> (r: bool)
    ensures
        r == block.is_mined(),
{
    crate::block::has_leading_zeros(&block.hash, block.difficulty())
}

/// A valid chain stays valid when a block that passes the append checks
/// against its tail is appended.
pub proof fn lemma_append_valid(s: Seq<Block>, b: Block)
    requires
        chain_valid(s),
        append_check(s.last(), b) is Ok,
    ensures
        chain_valid(s.push(b)),
{
    let t = s.push(b);
    assert forall|i: int| 0 < i < t.len() implies links(t[i - 1], #[trigger] t[i]) by {
        if i < s.len() {
            assert(t[i - 1] == s[i - 1]);
            assert(t[i] == s[i]);
        }
    }
    assert forall|i: int| 0 <= i < t.len() implies (#[trigger] t[i]).is_sealed() by {
        if i < s.len() {
            assert(t[i] == s[i]);
        }
    }
    assert forall|i: int| 0 < i < t.len() implies (#[trigger] t[i]).is_mined() by {
        if i < s.len() {
            assert(t[i] == s[i]);
        }
    }
}

/// In a valid chain every block after the first names its predecessor's
/// hash and carries the index one past the predecessor's.
pub proof fn lemma_valid_chain_linked(s: Seq<Block>)
    requires
        chain_valid(s),
    ensures
        forall|i: int|
            0 < i < s.len() ==> (#[trigger] s[i]).prev_hash@ == s[i - 1].hash@ && s[i].index
                == s[i - 1].index + 1,
{
    assert forall|i: int| 0 < i < s.len() implies (#[trigger] s[i]).prev_hash@ == s[i - 1].hash@
        && s[i].index == s[i - 1].index + 1 by {
        assert(links(s[i - 1], s[i]));
    }
}

/// Two blocks built on the same tail: once one is appended, the other no
/// longer follows the tail and is refused as a linkage mismatch.
pub proof fn lemma_same_tail_race(s: Seq<Block>, first: Block, second: Block)
    requires
        chain_valid(s),
        append_check(s.last(), first) is Ok,
        second.prev_hash@ == s.last().hash@,
        second.index == s.last().index + 1,
    ensures
        append_check(s.push(first).last(), second) == Err::<(), ChainError>(
            ChainError::LinkageMismatch,
        ),
{
    assert(s.push(first).last() == first);
}

} // verus!
