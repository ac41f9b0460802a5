use vstd::prelude::*;

verus! {

/// Consolidation of the chain-specific facts that every record type is
/// generic over: one implementing type stands for one chain configuration and
/// fixes the chain's concrete hash, header, extrinsic, block-number and
/// account/balance types, together with the two operations this layer
/// delegates to the chain — the header-hashing rule and the extrinsic wire
/// codec. Records built for one configuration are statically tied to it.
pub trait Substrate {
    /// The chain's block-hash type.
    type Hash: Copy;

    /// The chain's block-header type.
    type Header;

    /// The chain's transaction (extrinsic) type.
    type Extrinsic;

    /// The chain's block-number type.
    type BlockNumber;

    /// The chain's account-identifier type.
    type AccountId;

    /// The chain's balance type.
    type Balance;

    /// The hash of a header under the chain's own hashing rule. The default
    /// leaves the rule unspecified; a configuration whose records verified
    /// code reasons about overrides it with the chain's actual rule.
    open spec fn header_hash(header: Self::Header) -> Self::Hash {
        arbitrary()
    }

    /// The binary wire form of an extrinsic under the chain's codec. The
    /// default leaves the codec unspecified; a configuration whose records
    /// verified code reasons about overrides it with the chain's actual
    /// codec.
    open spec fn encoded(ext: Self::Extrinsic) -> Seq<u8> {
        arbitrary()
    }

    /// Computes a header's hash, delegated to the chain configuration.
    fn hash_header(header: &Self::Header) -> (r: Self::Hash)
        ensures
            r == Self::header_hash(*header),
    ;

    /// Encodes one extrinsic into its wire bytes, delegated to the chain's
    /// codec.
    fn encode_extrinsic(ext: &Self::Extrinsic) -> (r: Vec<u8>)
        ensures
            r@ == Self::encoded(*ext),
    ;
}

/// Something that can report the chain hash it is associated with.
pub trait ChainInfo<T: Substrate> {
    fn get_hash(&self) -> T::Hash;
}

} // verus!
