//! The append-only chain of blocks and its linkage check.
use vstd::prelude::*;
use crate::block::{Block, BlockView};

verus! {

/// The one way verification fails: the block at `position` carries a link
/// that differs from the digest recomputed from its predecessor.
#[derive(Debug, Clone, Copy, PartialEq, Eq, Structural)]
pub enum ChainError {
    TamperedLink { position: usize },
}

/// An ordered sequence of blocks, in insertion order.
pub struct Chain {
    pub blocks: Vec<Block>,
}

/// The digest of each block, in order.
pub open spec fn digests_of(blocks: Seq<BlockView>) -> Seq<Seq<char>> {
    blocks.map_values(|b: BlockView| b.digest())
}

/// The check at position `j`, where `digests[k]` stands for the digest of
/// block `k`: an absent link always passes; a present one must equal the
/// digest of the block before it, and there is none before the first.
pub open spec fn link_accepted(blocks: Seq<BlockView>, digests: Seq<Seq<char>>, j: int) -> bool {
    match blocks[j].link {
        None => true,
        Some(l) => j > 0 && l == digests[j - 1],
    }
}

/// Every position passes its check.
pub open spec fn all_links_accepted(blocks: Seq<BlockView>, digests: Seq<Seq<char>>) -> bool {
    forall|j: int| 0 <= j < blocks.len() ==> link_accepted(blocks, digests, j)
}

/// `p` is the first position that fails its check.
pub open spec fn first_rejected(blocks: Seq<BlockView>, digests: Seq<Seq<char>>, p: int) -> bool {
    &&& 0 <= p < blocks.len()
    &&& !link_accepted(blocks, digests, p)
    &&& forall|j: int| 0 <= j < p ==> link_accepted(blocks, digests, j)
}

/// The outcome of a scan from the first block to the last, stopping at the
/// first failing position.
pub open spec fn scan_outcome(
    r: Result<(), ChainError>,
    blocks: Seq<BlockView>,
    digests: Seq<Seq<char>>,
) -> bool {
    match r {
        Ok(()) => all_links_accepted(blocks, digests),
        Err(ChainError::TamperedLink { position }) => first_rejected(blocks, digests, position as int),
    }
}

/// Every link matches the recomputed digest of its predecessor.
pub open spec fn chain_verifies(blocks: Seq<BlockView>) -> bool {
    all_links_accepted(blocks, digests_of(blocks))
}

/// Verification of `blocks` fails first at position `p`.
pub open spec fn chain_rejected_at(blocks: Seq<BlockView>, p: int) -> bool {
    first_rejected(blocks, digests_of(blocks), p)
}

/// `blocks` with one more block at the tail that links to the digest of
/// the current last block and carries the next sequence number.
pub open spec fn appended(blocks: Seq<BlockView>, value: Seq<char>) -> Seq<BlockView> {
    blocks.push(
        BlockView { link: Some(blocks.last().digest()), sequence: blocks.len() + 1, value },
    )
}

/// The chain made from a genesis payload followed by appends of `payloads`.
pub open spec fn built(genesis: Seq<char>, payloads: Seq<Seq<char>>) -> Seq<BlockView>
    decreases payloads.len(),
{
    if payloads.len() == 0 {
        seq![BlockView { link: None, sequence: 1, value: genesis }]
    } else {
        appended(built(genesis, payloads.drop_last()), payloads.last())
    }
}

impl View for Chain {
    type V = Seq<BlockView>;

    open spec fn view(&self) -> Seq<BlockView> {
        self.blocks@.map_values(|b: Block| b@)
    }
}

impl Chain {
    /// A chain holding only the genesis block: no link, sequence 1, `value`.
    pub fn new(value: &str) -> (r: Chain)
        ensures
            r@ == built(value@, seq![]),
    {
        let genesis = Block { link: None, sequence: 1, value: value.to_owned() };
        let r = Chain { blocks: vec![genesis] };
        assert(r@ =~= built(value@, seq![]));
        r
    }

    /// Adds a block at the tail whose link is the digest of the current last
    /// block and whose sequence is the new length.
    pub fn add_block(&mut self, value: &str)
        requires
            old(self).blocks.len() > 0,
            old(self).blocks.len() < usize::MAX,
        ensures
            final(self)@ == appended(old(self)@, value@),
    {
        let n = self.blocks.len();
        let link = self.blocks[n - 1].hash();
        self.blocks.push(Block { link: Some(link), sequence: n + 1, value: value.to_owned() });
        assert(self@ =~= appended(old(self)@, value@));
    }

    /// The linkage check against given digests, `digests[k]` standing for
    /// the digest of block `k`.
    pub fn verify_with_digests(&self, digests: &Vec<String>) -> (r: Result<(), ChainError>)
        requires
            digests.len() == self.blocks.len(),
        ensures
            scan_outcome(r, self@, digests@.map_values(|d: String| d@)),
    {
        let ghost ds = digests@.map_values(|d: String| d@);
        let n = self.blocks.len();
        let mut j: usize = 0;
        while j < n
            invariant
                n == self.blocks.len(),
                n == digests.len(),
                ds == digests@.map_values(|d: String| d@),
                j <= n,
                forall|k: int| 0 <= k < j ==> link_accepted(self@, ds, k),
            decreases n - j,
        {
            let accepted = match &self.blocks[j].link {
                None => true,
                Some(l) => j > 0 && *l == digests[j - 1],
            };
            if !accepted {
                return Err(ChainError::TamperedLink { position: j });
            }
            j = j + 1;
        }
        Ok(())
    }

    /// Recomputes every block's digest and checks each present link against
    /// the digest of the block before it; fails at the first mismatch.
    pub fn verify(&self) -> (r: Result<(), ChainError>)
        ensures
            scan_outcome(r, self@, digests_of(self@)),
    {
        let n = self.blocks.len();
        let mut digests: Vec<String> = Vec::new();
        let mut j: usize = 0;
        while j < n
            invariant
                n == self.blocks.len(),
                j <= n,
                digests.len() == j,
                forall|k: int| 0 <= k < j ==> digests@[k]@ == self@[k].digest(),
            decreases n - j,
        {
            let d = self.blocks[j].hash();
            digests.push(d);
            j = j + 1;
        }
        assert(digests@.map_values(|d: String| d@) =~= digests_of(self@));
        self.verify_with_digests(&digests)
    }
}

} // verus!
