//! How a block of sound samples is written to its file.

use vstd::prelude::*;

verus! {

/// The samples of one block that are still to be written, by their index.
#[derive(Debug)]
pub struct SampleBlock {
    next: usize,
    len: usize,
}

impl View for SampleBlock {
    type V = Seq<nat>;

    closed spec fn view(&self) -> Seq<nat> {
        Seq::new((self.len - self.next) as nat, |i: int| (self.next + i) as nat)
    }
}

/// What is left of a block after writing was tried a number of times, whatever
/// came of it.
pub open spec fn left_after(block: Seq<nat>, tries: Seq<bool>) -> Seq<nat>
    decreases tries.len(),
{
    if tries.len() == 0 {
        block
    } else {
        let left = left_after(block, tries.drop_last());
        if left.len() == 0 {
            left
        } else {
            left.drop_first()
        }
    }
}

impl SampleBlock {
    #[verifier::type_invariant]
    spec fn within_block(self) -> bool {
        self.next <= self.len
    }

    /// Takes on a block of `len` samples. It is written only if the file's lock
    /// could be had and the file is still open; otherwise it is dropped.
    pub fn new(locked: bool, open: bool, len: usize) -> (block: SampleBlock)
        ensures
            block@ == (if locked && open {
                Seq::new(len as nat, |i: int| i as nat)
            } else {
                Seq::empty()
            }),
    {
        let len = if locked && open {
            len
        } else {
            0
        };
        let block = SampleBlock { next: 0, len };
        proof {
            assert(block@ =~= Seq::new(len as nat, |i: int| i as nat));
        }
        block
    }

    /// The sample to write next.
    pub fn current(&self) -> (index: Option<usize>)
        ensures
            match index {
                Some(index) => self@.len() > 0 && index == self@.first(),
                None => self@.len() == 0,
            },
    {
        proof {
            use_type_invariant(self);
        }
        if self.next < self.len {
            Some(self.next)
        } else {
            None
        }
    }

    /// Takes note that writing the current sample was tried. Whether it was
    /// written makes no difference: a sample that could not be written is
    /// skipped.
    pub fn tried(&mut self, written: bool)
        ensures
            final(self)@ == left_after(old(self)@, seq![written]),
            old(self)@.len() > 0 ==> final(self)@ == old(self)@.drop_first(),
            old(self)@.len() == 0 ==> final(self)@.len() == 0,
    {
        proof {
            use_type_invariant(&*self);
            assert(seq![written].drop_last() =~= Seq::<bool>::empty());
            assert(left_after(old(self)@, Seq::<bool>::empty()) == old(self)@);
        }
        if self.next < self.len {
            self.next = self.next + 1;
            assert(self@ =~= old(self)@.drop_first());
        }
    }
}

/// Every sample of a block is tried once and in its order: after `k` tries,
/// whatever came of them, just the first `k` samples are done with.
pub proof fn law_every_sample_is_tried_in_order(block: Seq<nat>, tries: Seq<bool>)
    requires
        tries.len() <= block.len(),
    ensures
        left_after(block, tries) == block.skip(tries.len() as int),
    decreases tries.len(),
{
    if tries.len() > 0 {
        law_every_sample_is_tried_in_order(block, tries.drop_last());
        assert(block.skip(tries.len() - 1).drop_first() =~= block.skip(tries.len() as int));
    }
}

/// Once every sample was tried, none is left, however often writing is tried
/// again.
pub proof fn law_nothing_is_left_in_the_end(block: Seq<nat>, tries: Seq<bool>)
    requires
        tries.len() >= block.len(),
    ensures
        left_after(block, tries).len() == 0,
    decreases tries.len(),
{
    if tries.len() > block.len() {
        law_nothing_is_left_in_the_end(block, tries.drop_last());
    } else {
        law_every_sample_is_tried_in_order(block, tries);
    }
}

} // verus!
