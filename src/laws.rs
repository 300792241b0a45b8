//! Properties of chains built by `Chain::new` followed by `Chain::add_block`.
use vstd::prelude::*;
use crate::block::BlockView;
use crate::chain::{appended, built, chain_rejected_at, chain_verifies, digests_of, link_accepted};

verus! {

/// A built chain has one block per payload after the genesis block, the
/// genesis block has no link, and every later block links to the digest of
/// the block before it.
pub proof fn lemma_built_linked(genesis: Seq<char>, payloads: Seq<Seq<char>>)
    ensures
        built(genesis, payloads).len() == payloads.len() + 1,
        built(genesis, payloads)[0] == (BlockView { link: None, sequence: 1, value: genesis }),
        forall|j: int|
            1 <= j < built(genesis, payloads).len() ==> #[trigger] built(genesis, payloads)[j].link
                == Some(built(genesis, payloads)[j - 1].digest()),
    decreases payloads.len(),
{
    if payloads.len() > 0 {
        lemma_built_linked(genesis, payloads.drop_last());
    }
}

/// Appending `value` to the chain built from `payloads` gives the chain
/// built from `payloads` followed by `value`.
pub proof fn lemma_built_push(genesis: Seq<char>, payloads: Seq<Seq<char>>, value: Seq<char>)
    ensures
        appended(built(genesis, payloads), value) == built(genesis, payloads.push(value)),
{
    assert(payloads.push(value).drop_last() =~= payloads);
}

/// A chain made by one construction followed by any number of appends, with
/// any payloads, passes verification.
pub proof fn lemma_built_chain_verifies(genesis: Seq<char>, payloads: Seq<Seq<char>>)
    ensures
        chain_verifies(built(genesis, payloads)),
{
    let b = built(genesis, payloads);
    lemma_built_linked(genesis, payloads);
    assert forall|j: int| 0 <= j < b.len() implies link_accepted(b, digests_of(b), j) by {
        if j > 0 {
            assert(b[j].link == Some(b[j - 1].digest()));
        }
    }
}

/// A chain holding only its genesis block passes verification, whatever its
/// payload.
pub proof fn lemma_genesis_verifies(genesis: Seq<char>)
    ensures
        chain_verifies(built(genesis, seq![])),
{
    lemma_built_chain_verifies(genesis, seq![]);
}

/// Two blocks with the same fields have the same digest, so recomputing a
/// block's hash without changing it gives the same text.
pub proof fn lemma_digest_deterministic(a: BlockView, b: BlockView)
    requires
        a == b,
    ensures
        a.digest() == b.digest(),
{
}

/// In a built chain of at least two blocks, replacing the block at `i`
/// (not the last) by one with the same link but another value or sequence
/// makes verification fail first at `i + 1`, provided the replacement's
/// digest differs from that of the block it replaces.
pub proof fn lemma_tamper_detected(
    genesis: Seq<char>,
    payloads: Seq<Seq<char>>,
    i: int,
    forged: BlockView,
)
    requires
        0 <= i < payloads.len(),
        forged.link == built(genesis, payloads)[i].link,
        forged.digest() != built(genesis, payloads)[i].digest(),
    ensures
        chain_rejected_at(built(genesis, payloads).update(i, forged), i + 1),
{
    let b = built(genesis, payloads);
    let t = b.update(i, forged);
    lemma_built_linked(genesis, payloads);
    let ds = digests_of(t);
    assert forall|j: int| 0 <= j < i + 1 implies link_accepted(t, ds, j) by {
        if j > 0 {
            assert(b[j].link == Some(b[j - 1].digest()));
        }
    }
    assert(t[i + 1].link == Some(b[i].digest()));
    assert(ds[i] == forged.digest());
}

/// In a built chain, swapping the blocks at `i` and `i + 1`, neither of
/// them the genesis block, without touching their links makes verification
/// fail first at `i`, provided the blocks at `i - 1` and `i` have different
/// digests.
pub proof fn lemma_swap_detected(genesis: Seq<char>, payloads: Seq<Seq<char>>, i: int)
    requires
        1 <= i < payloads.len(),
        built(genesis, payloads)[i].digest() != built(genesis, payloads)[i - 1].digest(),
    ensures
        chain_rejected_at(
            built(genesis, payloads).update(i, built(genesis, payloads)[i + 1]).update(
                i + 1,
                built(genesis, payloads)[i],
            ),
            i,
        ),
{
    let b = built(genesis, payloads);
    let t = b.update(i, b[i + 1]).update(i + 1, b[i]);
    lemma_built_linked(genesis, payloads);
    let ds = digests_of(t);
    assert forall|j: int| 0 <= j < i implies link_accepted(t, ds, j) by {
        if j > 0 {
            assert(b[j].link == Some(b[j - 1].digest()));
        }
    }
    assert(t[i].link == Some(b[i].digest()));
    assert(ds[i - 1] == b[i - 1].digest());
}

} // verus!
