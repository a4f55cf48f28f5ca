//! The chain: an ordered, append-only container that owns every record it
//! holds. Insertion order is chain order; each appended record commits to the
//! hash of the record that was last before it.

use vstd::prelude::*;

use crate::block::{opt_view, Block, ClockError};

verus! {

/// The owning, ordered, append-only collection of records.
pub struct Blockchain {
    blocks: Vec<Block>,
}

impl Blockchain {
    /// The records, in chain order.
    pub closed spec fn spec_blocks(self) -> Seq<Block> {
        self.blocks@
    }

    /// A well-formed chain: every record is well formed, the first record has
    /// no predecessor reference, and every later record's `prev_hash` is the
    /// hash of the record just before it.
    pub open spec fn wf(self) -> bool {
        &&& forall|i: int|
            0 <= i < self.spec_blocks().len() ==> (#[trigger] self.spec_blocks()[i]).wf()
        &&& self.spec_blocks().len() > 0 ==> self.spec_blocks()[0].prev_hash is None
        &&& forall|i: int|
            1 <= i < self.spec_blocks().len() ==> opt_view(
                (#[trigger] self.spec_blocks()[i]).prev_hash,
            ) == Option::Some(self.spec_blocks()[i - 1].hash@)
    }

    /// Creates an empty chain.
    pub fn new() -> (c: Blockchain)
        ensures
            c.spec_blocks() == Seq::<Block>::empty(),
            c.wf(),
    {
        Blockchain { blocks: Vec::new() }
    }

    /// The number of records in the chain.
    pub fn len(&self) -> (n: usize)
        ensures
            n == self.spec_blocks().len(),
    {
        self.blocks.len()
    }

    /// The record at position `i`.
    pub fn get(&self, i: usize) -> (b: &Block)
        requires
            i < self.spec_blocks().len(),
        ensures
            *b == self.spec_blocks()[i as int],
    {
        &self.blocks[i]
    }

    /// The records, in chain order, for read-only traversal.
    pub fn blocks(&self) -> (r: &Vec<Block>)
        ensures
            r@ == self.spec_blocks(),
    {
        &self.blocks
    }

    /// Appends a record carrying `data` with a caller-supplied timestamp. The
    /// new record lands at the end; every record already in the chain stays
    /// where it was, untouched. Its predecessor reference is the hash of the
    /// record that was last, or absent when the chain was empty.
    pub fn add_block_with_timestamp(&mut self, data: String, timestamp: u64)
        requires
            old(self).wf(),
        ensures
            final(self).wf(),
            final(self).spec_blocks().len() == old(self).spec_blocks().len() + 1,
            final(self).spec_blocks().subrange(0, old(self).spec_blocks().len() as int) == old(
                self,
            ).spec_blocks(),
            final(self).spec_blocks().last().data@ == data@,
            final(self).spec_blocks().last().timestamp == timestamp,
            opt_view(final(self).spec_blocks().last().prev_hash) == (if old(
                self,
            ).spec_blocks().len() == 0 {
                Option::<Seq<char>>::None
            } else {
                Option::Some(old(self).spec_blocks().last().hash@)
            }),
    {
        let prev_hash: Option<String> = if self.blocks.len() == 0 {
            None
        } else {
            Some(self.blocks[self.blocks.len() - 1].hash.clone())
        };
        let b = Block::create(data, prev_hash, timestamp);
        self.blocks.push(b);
        proof {
            assert(self.spec_blocks().subrange(0, old(self).spec_blocks().len() as int)
                =~= old(self).spec_blocks());
        }
    }

    /// Appends a record carrying `data`, stamped with the current system
    /// time. On `Ok` the chain has grown by exactly the new record, as in
    /// `add_block_with_timestamp`; on `Err` (the clock read a time before the
    /// Unix epoch) the chain is unchanged.
    pub fn add_block(&mut self, data: String) -> (r: Result<(), ClockError>)
        requires
            old(self).wf(),
        ensures
            final(self).wf(),
            r matches Ok(()) ==> {
                &&& final(self).spec_blocks().len() == old(self).spec_blocks().len() + 1
                &&& final(self).spec_blocks().subrange(
                    0,
                    old(self).spec_blocks().len() as int,
                ) == old(self).spec_blocks()
                &&& final(self).spec_blocks().last().data@ == data@
                &&& opt_view(final(self).spec_blocks().last().prev_hash) == (if old(
                    self,
                ).spec_blocks().len() == 0 {
                    Option::<Seq<char>>::None
                } else {
                    Option::Some(old(self).spec_blocks().last().hash@)
                })
            },
            r matches Err(_) ==> final(self).spec_blocks() == old(self).spec_blocks(),
    {
        match Block::get_current_timestamp() {
            Ok(ts) => {
                self.add_block_with_timestamp(data, ts);
                Ok(())
            },
            Err(e) => Err(e),
        }
    }
}

/// Chain linkage law: in a well-formed chain, the record at every position
/// `i >= 1` carries exactly the hash of the record at position `i - 1` as its
/// predecessor reference.
pub proof fn lemma_chain_linkage(c: Blockchain, i: int)
    requires
        c.wf(),
        1 <= i < c.spec_blocks().len(),
    ensures
        opt_view(c.spec_blocks()[i].prev_hash) == Option::Some(c.spec_blocks()[i - 1].hash@),
{
}

/// Genesis uniqueness law: in a well-formed chain, the record at a position
/// has no predecessor reference exactly when it is the first.
pub proof fn lemma_genesis_uniqueness(c: Blockchain, i: int)
    requires
        c.wf(),
        0 <= i < c.spec_blocks().len(),
    ensures
        c.spec_blocks()[i].prev_hash is None <==> i == 0,
{
}

} // verus!
