//! The SHA-256 digest that links blocks together.
use vstd::prelude::*;

verus! {

/// The lowercase hexadecimal SHA-256 digest of the UTF-8 encoding of `s`.
pub uninterp spec fn sha256_hex(s: Seq<char>) -> Seq<char>;

/// Relies on `sha256::digest`: the hex digest of the text's bytes, which
/// depends on the text alone.
#[verifier::external_body]
pub(crate) fn sha256_digest(input: &String) -> (r: String)
    ensures
        r@ == sha256_hex(input@),
{
    sha256::digest(input)
}

} // verus!
