//! A reference chain configuration over plain in-memory types.

use crate::types::traits::Substrate;
use vstd::prelude::*;

verus! {

/// A header of the plain chain: a parent hash and a block number.
pub struct PlainHeader {
    pub parent_hash: u64,
    pub number: u32,
}

/// A chain configuration over plain integer and byte types. Its extrinsics
/// are byte strings that already carry their wire form, so the codec is the
/// identity, and its header-hashing rule folds the header fields into one
/// word. It gives the record types a concrete, fully specified chain to be
/// exercised against.
pub struct PlainChain;

impl Substrate for PlainChain {
    type Hash = u64;

    type Header = PlainHeader;

    type Extrinsic = Vec<u8>;

    type BlockNumber = u32;

    type AccountId = u64;

    type Balance = u128;

    /// The plain hashing rule: the block number, shifted clear of the low
    /// word, folded into the parent hash.
    open spec fn header_hash(header: PlainHeader) -> u64 {
        header.parent_hash ^ ((header.number as u64) << 32)
    }

    open spec fn encoded(ext: Vec<u8>) -> Seq<u8> {
        ext@
    }

    fn hash_header(header: &PlainHeader) -> u64 {
        header.parent_hash ^ ((header.number as u64) << 32)
    }

    fn encode_extrinsic(ext: &Vec<u8>) -> (r: Vec<u8>) {
        let r = ext.clone();
        proof {
            assert(r@ =~= ext@);
        }
        r
    }
}

} // verus!
