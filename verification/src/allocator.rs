//! The per-frame bump allocator: equal blocks of one staging buffer, handed
//! out in order and taken back all at once when the next frame begins.

use vstd::prelude::*;
use crate::error::SlotError;

verus! {

/// A block of the staging buffer. It is good until the next `reset`.
#[derive(Clone, Copy, Debug, PartialEq, Eq, Structural)]
pub struct TransientAllocation {
    pub offset: u32,
    pub size: u32,
}

impl TransientAllocation {
    /// The first byte after the block.
    pub open spec fn end(&self) -> int {
        self.offset + self.size
    }

    /// Two blocks overlap when some byte belongs to both.
    pub open spec fn overlaps(&self, other: TransientAllocation) -> bool {
        self.offset < other.end() && other.offset < self.end()
    }
}

pub struct TransientAllocator {
    byte_size: u32,
    block_size: u32,
    blocks: u32,
    issued: u32,
}

impl TransientAllocator {
    /// The blocks handed out so far all lie inside the buffer.
    pub closed spec fn wf(&self) -> bool {
        &&& self.issued <= self.blocks
        &&& self.blocks * self.block_size <= self.byte_size
        &&& self.blocks > 0 ==> self.block_size == self.byte_size / self.blocks
        &&& self.blocks == 0 ==> self.block_size == 0
    }

    /// The size of the staging buffer in bytes.
    pub closed spec fn byte_size(&self) -> nat {
        self.byte_size as nat
    }

    /// The size of every block.
    pub closed spec fn block_size(&self) -> nat {
        self.block_size as nat
    }

    /// How many blocks one frame may take.
    pub closed spec fn blocks(&self) -> nat {
        self.blocks as nat
    }

    /// How many blocks were taken since the last `reset`.
    pub closed spec fn issued(&self) -> nat {
        self.issued as nat
    }

    /// The block that the call of `bump` number `k` after a `reset` returns,
    /// counted from 0.
    pub open spec fn region(&self, k: nat) -> TransientAllocation {
        TransientAllocation {
            offset: (k * self.block_size()) as u32,
            size: self.block_size() as u32,
        }
    }

    /// An allocator over `byte_size` bytes, cut into `blocks` equal blocks.
    /// With no blocks every `bump` fails.
    pub fn new(byte_size: u32, blocks: u32) -> (allocator: TransientAllocator)
        ensures
            allocator.wf(),
            allocator.byte_size() == byte_size,
            allocator.blocks() == blocks,
            blocks > 0 ==> allocator.block_size() == byte_size as nat / blocks as nat,
            blocks == 0 ==> allocator.block_size() == 0,
            allocator.issued() == 0,
    {
        let block_size: u32 = if blocks == 0 {
            0
        } else {
            byte_size / blocks
        };
        proof {
            if blocks > 0 {
                vstd::arithmetic::div_mod::lemma_fundamental_div_mod(
                    byte_size as int,
                    blocks as int,
                );
                vstd::arithmetic::div_mod::lemma_mod_bound(byte_size as int, blocks as int);
            }
        }
        TransientAllocator { byte_size, block_size, blocks, issued: 0 }
    }

    /// Takes back every block at once.
    pub fn reset(&mut self)
        requires
            old(self).wf(),
        ensures
            final(self).wf(),
            final(self).issued() == 0,
            final(self).byte_size() == old(self).byte_size(),
            final(self).block_size() == old(self).block_size(),
            final(self).blocks() == old(self).blocks(),
    {
        self.issued = 0;
    }

    /// Hands out the next block. Fails, and changes nothing, when the frame
    /// has used up its blocks.
    pub fn bump(&mut self) -> (result: Result<TransientAllocation, SlotError>)
        requires
            old(self).wf(),
        ensures
            final(self).wf(),
            final(self).byte_size() == old(self).byte_size(),
            final(self).block_size() == old(self).block_size(),
            final(self).blocks() == old(self).blocks(),
            old(self).issued() < old(self).blocks() ==> {
                &&& result == Ok::<TransientAllocation, SlotError>(
                    old(self).region(old(self).issued()),
                )
                &&& final(self).issued() == old(self).issued() + 1
            },
            old(self).issued() >= old(self).blocks() ==> {
                &&& result is Err
                &&& final(self).issued() == old(self).issued()
            },
    {
        if self.issued < self.blocks {
            proof {
                self.lemma_region_fits(self.issued as nat);
            }
            let offset: u32 = self.issued * self.block_size;
            self.issued = self.issued + 1;
            Ok(TransientAllocation { offset, size: self.block_size })
        } else {
            Err(SlotError {  })
        }
    }

    /// How many blocks are left in this frame.
    pub fn remaining(&self) -> (left: u32)
        requires
            self.wf(),
        ensures
            left == self.blocks() - self.issued(),
    {
        self.blocks - self.issued
    }

    /// No frame takes more blocks than there are.
    pub proof fn lemma_issued_within(self)
        requires
            self.wf(),
        ensures
            self.issued() <= self.blocks(),
    {
    }

    /// Every block of a frame lies inside the staging buffer, and so the
    /// blocks of one frame together take no more than the buffer holds.
    pub proof fn lemma_region_fits(self, k: nat)
        requires
            self.wf(),
            k < self.blocks(),
        ensures
            self.region(k).offset == k * self.block_size(),
            self.region(k).size == self.block_size(),
            self.region(k).end() == (k + 1) * self.block_size(),
            self.region(k).end() <= self.byte_size(),
    {
        assert((k + 1) * self.block_size() <= self.blocks() * self.block_size())
            by (nonlinear_arith)
            requires
                k + 1 <= self.blocks(),
        ;
        assert((k + 1) * self.block_size() == k * self.block_size() + self.block_size())
            by (nonlinear_arith);
    }

    /// Two different blocks of one frame share no byte.
    pub proof fn lemma_regions_disjoint(self, j: nat, k: nat)
        requires
            self.wf(),
            j < k < self.blocks(),
        ensures
            !self.region(j).overlaps(self.region(k)),
            self.region(j).end() <= self.region(k).offset,
    {
        self.lemma_region_fits(j);
        self.lemma_region_fits(k);
        assert((j + 1) * self.block_size() <= k * self.block_size()) by (nonlinear_arith)
            requires
                j + 1 <= k,
        ;
    }

    /// The `n` blocks that `n` calls of `bump` hand out after a `reset`
    /// share no byte and together take no more than the buffer holds. The
    /// first of them begins at offset 0, after every `reset` as after
    /// `new`.
    pub proof fn lemma_frame_blocks(self, n: nat)
        requires
            self.wf(),
            n <= self.blocks(),
        ensures
            forall|j: nat, k: nat|
                j < k < n ==> !(#[trigger] self.region(j)).overlaps(#[trigger] self.region(k)),
            forall|k: nat| k < n ==> (#[trigger] self.region(k)).end() <= self.byte_size(),
            n * self.block_size() <= self.byte_size(),
            self.region(0).offset == 0,
    {
        assert forall|j: nat, k: nat| j < k < n implies !(#[trigger] self.region(j)).overlaps(
            #[trigger] self.region(k),
        ) by {
            self.lemma_regions_disjoint(j, k);
        }
        assert forall|k: nat| k < n implies (#[trigger] self.region(k)).end()
            <= self.byte_size() by {
            self.lemma_region_fits(k);
        }
        if n > 0 {
            self.lemma_region_fits((n - 1) as nat);
        }
        assert(0 * self.block_size() == 0) by (nonlinear_arith);
    }
}

} // verus!
