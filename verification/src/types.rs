//! The record and batch-container types, and the extraction conversions that
//! derive per-transaction extrinsic records from blocks.

mod plain;
mod traits;

use core::marker::PhantomData;
use vstd::prelude::*;

pub use plain::{PlainChain, PlainHeader};
pub use traits::{ChainInfo, Substrate};

verus! {

/// A signed block as this layer sees it: the header plus the ordered list of
/// the block's transactions.
pub struct SubstrateBlock<T: Substrate> {
    pub header: T::Header,
    pub extrinsics: Vec<T::Extrinsic>,
}

/// One transaction extracted from a block: the transaction's wire encoding,
/// its position within the source block, and the runtime spec version the
/// block was produced under.
pub struct Extrinsic<T: Substrate> {
    /// The encoded extrinsic.
    inner: Vec<u8>,
    /// Spec version the extrinsic is from.
    spec_version: u32,
    index: u32,
    _marker: PhantomData<T>,
}

/// The observable content of an extrinsic record.
#[verifier::ext_equal]
pub struct ExtrinsicView {
    pub payload: Seq<u8>,
    pub index: u32,
    pub spec_version: u32,
}

impl<T: Substrate> View for Extrinsic<T> {
    type V = ExtrinsicView;

    closed spec fn view(&self) -> ExtrinsicView {
        ExtrinsicView { payload: self.inner@, index: self.index, spec_version: self.spec_version }
    }
}

impl<T: Substrate> Extrinsic<T> {
    /// Encodes `ext` into its wire bytes — exactly once, at construction —
    /// and records its position in the source block and the spec version it
    /// was encoded under.
    pub fn new(ext: &T::Extrinsic, index: u32, spec_version: u32) -> (r: Self)
        ensures
            r@.payload == T::encoded(*ext),
            r@.index == index,
            r@.spec_version == spec_version,
    {
        Extrinsic { inner: T::encode_extrinsic(ext), spec_version, index, _marker: PhantomData }
    }

    /// A read-only view of the stored wire encoding.
    pub fn inner(&self) -> (r: &Vec<u8>)
        ensures
            r@ == self@.payload,
    {
        &self.inner
    }

    /// The record's position within its source block.
    pub fn index(&self) -> (r: u32)
        ensures
            r == self@.index,
    {
        self.index
    }

    /// The spec version the extrinsic was encoded under.
    pub fn spec_version(&self) -> (r: u32)
        ensures
            r == self@.spec_version,
    {
        self.spec_version
    }
}

/// A header record: owns one chain header and exposes its hash.
pub struct Header<T: Substrate> {
    inner: T::Header,
}

impl<T: Substrate> View for Header<T> {
    type V = T::Header;

    /// A header record is observed as the header it wraps.
    closed spec fn view(&self) -> T::Header {
        self.inner
    }
}

impl<T: Substrate> Header<T> {
    /// Wraps a header value; no validation is performed.
    pub fn new(header: T::Header) -> (r: Self)
        ensures
            r@ == header,
    {
        Header { inner: header }
    }

    /// A read-only view of the wrapped header.
    pub fn inner(&self) -> (r: &T::Header)
        ensures
            *r == self@,
    {
        &self.inner
    }

    /// The hash of the wrapped header, computed by the chain's own hashing
    /// rule.
    pub fn hash(&self) -> (r: T::Hash)
        ensures
            r == T::header_hash(self@),
    {
        T::hash_header(&self.inner)
    }
}

/// A block record: owns one signed block together with the runtime spec
/// version active when the block was produced.
pub struct Block<T: Substrate> {
    pub inner: SubstrateBlock<T>,
    pub spec_version: u32,
}

impl<T: Substrate> Block<T> {
    /// Wraps a signed block with its production-time spec version.
    pub fn new(block: SubstrateBlock<T>, spec_version: u32) -> (r: Self)
        ensures
            r.inner == block,
            r.spec_version == spec_version,
    {
        Block { inner: block, spec_version }
    }

    /// A read-only view of the wrapped signed block.
    pub fn inner(&self) -> (r: &SubstrateBlock<T>)
        ensures
            *r == self.inner,
    {
        &self.inner
    }

    /// The stored spec version, by value.
    pub fn spec_version(&self) -> (r: u32)
        ensures
            r == self.spec_version,
    {
        self.spec_version
    }
}

/// A batch-block container: owns an ordered sequence of block records for
/// bulk submission. Order is preserved; empty batches are legal.
pub struct BatchBlock<T: Substrate> {
    inner: Vec<Block<T>>,
}

impl<T: Substrate> View for BatchBlock<T> {
    type V = Seq<Block<T>>;

    /// A batch is observed as the sequence of block records it owns.
    closed spec fn view(&self) -> Seq<Block<T>> {
        self.inner@
    }
}

impl<T: Substrate> BatchBlock<T> {
    /// Takes ownership of the given block records, preserving their order and
    /// performing no validation.
    pub fn new(blocks: Vec<Block<T>>) -> (r: Self)
        ensures
            r@ == blocks@,
    {
        BatchBlock { inner: blocks }
    }

    /// A read-only view of the owned sequence.
    pub fn inner(&self) -> (r: &Vec<Block<T>>)
        ensures
            r@ == self@,
    {
        &self.inner
    }
}

/// An owned storage key.
pub struct StorageKey(pub Vec<u8>);

/// An owned storage value payload.
pub struct StorageData(pub Vec<u8>);

/// One storage mutation: the key written, and the value it now holds — or
/// nothing, for a deletion.
pub struct StorageChange {
    pub key: StorageKey,
    pub value: Option<StorageData>,
}

/// A bundle of storage mutations belonging to one block, as delivered by a
/// subscription feed; `block` names the block the changes came from.
pub struct StorageChangeSet<H> {
    pub block: H,
    pub changes: Vec<StorageChange>,
}

/// A storage record: one key/value storage payload together with the hash of
/// the block that produced it. That the hash matches the originating block is
/// the caller's responsibility, not checked here.
pub struct Storage<T: Substrate> {
    data: StorageData,
    hash: T::Hash,
}

impl<T: Substrate> Storage<T> {
    /// The stored payload.
    pub closed spec fn spec_data(&self) -> StorageData {
        self.data
    }

    /// The stored block hash.
    pub closed spec fn spec_hash(&self) -> T::Hash {
        self.hash
    }

    /// Wraps a storage payload with the hash of its block.
    pub fn new(data: StorageData, hash: T::Hash) -> (r: Self)
        ensures
            r.spec_data() == data,
            r.spec_hash() == hash,
    {
        Storage { data, hash }
    }

    /// A read-only view of the payload.
    pub fn data(&self) -> (r: &StorageData)
        ensures
            *r == self.spec_data(),
    {
        &self.data
    }

    /// A read-only view of the block hash.
    pub fn hash(&self) -> (r: &T::Hash)
        ensures
            *r == self.spec_hash(),
    {
        &self.hash
    }
}

/// A batch-storage container: owns an ordered sequence of storage records and
/// hands it to exactly one downstream consumer via [`BatchStorage::consume`].
pub struct BatchStorage<T: Substrate> {
    inner: Vec<Storage<T>>,
}

impl<T: Substrate> View for BatchStorage<T> {
    type V = Seq<Storage<T>>;

    /// A batch is observed as the sequence of storage records it owns.
    closed spec fn view(&self) -> Seq<Storage<T>> {
        self.inner@
    }
}

impl<T: Substrate> BatchStorage<T> {
    /// Takes ownership of the given storage records, preserving their order.
    pub fn new(data: Vec<Storage<T>>) -> (r: Self)
        ensures
            r@ == data@,
    {
        BatchStorage { inner: data }
    }

    /// A read-only view of the owned sequence.
    pub fn inner(&self) -> (r: &Vec<Storage<T>>)
        ensures
            r@ == self@,
    {
        &self.inner
    }

    /// One-shot ownership transfer: returns the owned records exactly as they
    /// were supplied, in order. The container is moved from, so a second use
    /// is impossible by construction.
    pub fn consume(self) -> (r: Vec<Storage<T>>)
        ensures
            r@ == self@,
    {
        self.inner
    }
}

/// An event record: owns a storage change-set; the hash of the block it
/// belongs to is read from the change-set itself, so the two cannot diverge.
pub struct Event<T: Substrate> {
    change_set: StorageChangeSet<T::Hash>,
}

impl<T: Substrate> View for Event<T> {
    type V = StorageChangeSet<T::Hash>;

    /// An event record is observed as the change-set it wraps.
    closed spec fn view(&self) -> StorageChangeSet<T::Hash> {
        self.change_set
    }
}

impl<T: Substrate> Event<T> {
    /// Wraps a change-set as received from a subscription feed.
    pub fn new(change_set: StorageChangeSet<T::Hash>) -> (r: Self)
        ensures
            r@ == change_set,
    {
        Event { change_set }
    }

    /// A read-only view of the wrapped change-set.
    pub fn change_set(&self) -> (r: &StorageChangeSet<T::Hash>)
        ensures
            *r == self@,
    {
        &self.change_set
    }

    /// The hash of the block this change-set belongs to, read from the
    /// change-set itself.
    pub fn hash(&self) -> (r: T::Hash)
        ensures
            r == self@.block,
    {
        self.change_set.block
    }
}

/// The extraction contract: `exts` holds one extrinsic record per transaction
/// of `block`, in original order, each carrying its zero-based position, the
/// block's spec version, and the transaction's wire encoding.
pub open spec fn extraction_ok<T: Substrate>(block: Block<T>, exts: Seq<Extrinsic<T>>) -> bool {
    &&& exts.len() == block.inner.extrinsics@.len()
    &&& forall|i: int|
        0 <= i < exts.len() ==> {
            &&& (#[trigger] exts[i])@.payload == T::encoded(block.inner.extrinsics@[i])
            &&& exts[i]@.index as int == i
            &&& exts[i]@.spec_version == block.spec_version
        }
}

/// Derives one extrinsic record per transaction of `block`, in original
/// order: the i-th record carries index `i`, the block's spec version, and
/// the wire encoding of the block's i-th transaction. Total: a block with no
/// transactions yields the empty sequence.
pub fn block_to_extrinsics<T: Substrate>(block: &Block<T>) -> (r: Vec<Extrinsic<T>>)
    requires
        block.inner.extrinsics@.len() <= u32::MAX,
    ensures
        extraction_ok(*block, r@),
{
    let exts = &block.inner.extrinsics;
    let mut out: Vec<Extrinsic<T>> = Vec::new();
    let mut i: usize = 0;
    while i < exts.len()
        invariant
            exts@ == block.inner.extrinsics@,
            exts@.len() <= u32::MAX,
            i <= exts@.len(),
            out@.len() == i as int,
            forall|j: int|
                0 <= j < i ==> {
                    &&& (#[trigger] out@[j])@.payload == T::encoded(exts@[j])
                    &&& out@[j]@.index as int == j
                    &&& out@[j]@.spec_version == block.spec_version
                },
        decreases exts@.len() - i,
    {
        let e = Extrinsic::new(&exts[i], i as u32, block.spec_version);
        out.push(e);
        i += 1;
    }
    out
}

/// Applies [`block_to_extrinsics`] to every block record of the batch,
/// preserving block order: the result has one inner sequence per block, the
/// i-th being a correct extraction of the i-th block.
pub fn batch_to_extrinsics<T: Substrate>(batch: BatchBlock<T>) -> (r: Vec<Vec<Extrinsic<T>>>)
    requires
        forall|i: int|
            0 <= i < batch@.len() ==> (#[trigger] batch@[i]).inner.extrinsics@.len() <= u32::MAX,
    ensures
        r@.len() == batch@.len(),
        forall|i: int| 0 <= i < r@.len() ==> extraction_ok(batch@[i], (#[trigger] r@[i])@),
{
    let blocks = batch.inner();
    let mut out: Vec<Vec<Extrinsic<T>>> = Vec::new();
    let mut i: usize = 0;
    while i < blocks.len()
        invariant
            blocks@ == batch@,
            forall|k: int|
                0 <= k < batch@.len() ==> (#[trigger] batch@[k]).inner.extrinsics@.len()
                    <= u32::MAX,
            i <= blocks@.len(),
            out@.len() == i as int,
            forall|j: int| 0 <= j < i ==> extraction_ok(batch@[j], (#[trigger] out@[j])@),
        decreases blocks@.len() - i,
    {
        let exts = block_to_extrinsics(&blocks[i]);
        out.push(exts);
        i += 1;
    }
    out
}

/// A block with no transactions extracts to the empty sequence of records —
/// extraction is total, not an error path.
pub proof fn lemma_empty_block_extraction<T: Substrate>(block: Block<T>, exts: Seq<Extrinsic<T>>)
    requires
        block.inner.extrinsics@.len() == 0,
        extraction_ok(block, exts),
    ensures
        exts == Seq::<Extrinsic<T>>::empty(),
{
    assert(exts =~= Seq::<Extrinsic<T>>::empty());
}

/// Extraction is observably deterministic: any two sequences that are correct
/// extractions of the same block agree pointwise on payload, position and
/// spec version. In particular, each inner sequence produced by
/// [`batch_to_extrinsics`] matches what [`block_to_extrinsics`] returns for
/// the corresponding block.
pub proof fn lemma_extraction_deterministic<T: Substrate>(
    block: Block<T>,
    a: Seq<Extrinsic<T>>,
    b: Seq<Extrinsic<T>>,
)
    requires
        extraction_ok(block, a),
        extraction_ok(block, b),
    ensures
        a.len() == b.len(),
        forall|i: int| 0 <= i < a.len() ==> #[trigger] a[i]@ == b[i]@,
{
    assert forall|i: int| 0 <= i < a.len() implies #[trigger] a[i]@ == b[i]@ by {
        assert(a[i]@ =~= b[i]@);
    }
}

} // verus!
