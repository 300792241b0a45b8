//! One record of the chain and its digest.
use vstd::prelude::*;
use crate::decimal::{decimal, push_decimal};
use crate::digest::{sha256_hex, sha256_digest};

verus! {

/// A record: the digest of its predecessor (absent for the first block), a
/// sequence counter, and the payload text.
pub struct Block {
    pub link: Option<String>,
    pub sequence: usize,
    pub value: String,
}

/// What a block holds, as mathematical values.
pub struct BlockView {
    pub link: Option<Seq<char>>,
    pub sequence: nat,
    pub value: Seq<char>,
}

/// The text of a link: the digest, or nothing when it is absent.
pub open spec fn link_text(link: Option<Seq<char>>) -> Seq<char> {
    match link {
        Some(l) => l,
        None => Seq::empty(),
    }
}

impl BlockView {
    /// The text that is digested: link, decimal sequence and value, with no
    /// separators.
    pub open spec fn hash_input(self) -> Seq<char> {
        link_text(self.link) + decimal(self.sequence) + self.value
    }

    /// The block's digest, recomputed from its fields.
    pub open spec fn digest(self) -> Seq<char> {
        sha256_hex(self.hash_input())
    }
}

impl View for Block {
    type V = BlockView;

    open spec fn view(&self) -> BlockView {
        BlockView {
            link: match self.link {
                Some(l) => Some(l@),
                None => None,
            },
            sequence: self.sequence as nat,
            value: self.value@,
        }
    }
}

impl Block {
    /// The text whose digest is the block's hash.
    pub fn hash_input(&self) -> (r: String)
        ensures
            r@ == self@.hash_input(),
    {
        let mut text = String::new();
        match &self.link {
            Some(l) => text.append(l.as_str()),
            None => {},
        }
        push_decimal(&mut text, self.sequence);
        text.append(self.value.as_str());
        assert(text@ =~= self@.hash_input());
        text
    }

    /// The block's digest in lowercase hexadecimal, recomputed on each call.
    pub fn hash(&self) -> (r: String)
        ensures
            r@ == self@.digest(),
    {
        let text = self.hash_input();
        sha256_digest(&text)
    }
}

} // verus!
