//! The read cursor: the index of the next line to serve.
use vstd::prelude::*;

verus! {

/// Index of the next frame to serve. One cursor is shared by all readers.
#[derive(Clone, Copy, Debug, PartialEq, Eq, Structural)]
pub struct ReadCursor {
    index: u8,
}

/// Where a cursor standing at `index` stands after one read: one further,
/// wrapping first at the width of the counter and then at the table's end.
pub open spec fn next_index(index: int) -> int {
    ((index + 1) % 256) % 10
}

impl View for ReadCursor {
    type V = int;

    closed spec fn view(&self) -> int {
        self.index as int
    }
}

impl ReadCursor {
    /// Every cursor that exists at run time is a valid index into the
    /// frame table.
    #[verifier::type_invariant]
    spec fn in_table(self) -> bool {
        self.index < 10
    }

    /// The cursor is a valid index into the frame table.
    pub open spec fn wf(self) -> bool {
        0 <= self@ < 10
    }

    /// The cursor at the first frame.
    pub closed spec fn first() -> ReadCursor {
        ReadCursor { index: 0 }
    }

    /// The cursor after one read.
    pub closed spec fn stepped(self) -> ReadCursor {
        ReadCursor { index: next_index(self.index as int) as u8 }
    }

    /// The cursor after `reads` reads in a row.
    pub open spec fn turned(self, reads: nat) -> ReadCursor
        decreases reads,
    {
        if reads == 0 {
            self
        } else {
            self.turned((reads - 1) as nat).stepped()
        }
    }

    /// A cursor at the first frame.
    pub fn new() -> (cursor: ReadCursor)
        ensures
            cursor == Self::first(),
            cursor@ == 0,
            cursor.wf(),
    {
        ReadCursor { index: 0 }
    }

    /// The index the cursor stands at.
    pub fn index(&self) -> (index: usize)
        ensures
            index == self@,
            index < 10,
            self.wf(),
    {
        proof {
            use_type_invariant(self);
        }
        self.index as usize
    }

    /// Moves the cursor on by one frame, back to the first after the last.
    pub fn advance(&mut self)
        ensures
            *final(self) == old(self).stepped(),
            final(self)@ == next_index(old(self)@),
            final(self).wf(),
    {
        self.index = self.index.wrapping_add(1) % 10;
    }

    /// The first frame is frame zero.
    pub proof fn lemma_first()
        ensures
            Self::first()@ == 0,
            Self::first().wf(),
    {
    }

    /// What one read does to the position.
    pub proof fn lemma_stepped(self)
        ensures
            self.stepped()@ == next_index(self@),
            self.stepped().wf(),
            self.wf() ==> self.stepped()@ == (self@ + 1) % 10,
    {
    }

    /// Two cursors at the same position are the same cursor.
    pub proof fn lemma_position_decides(self, other: ReadCursor)
        ensures
            self@ == other@ <==> self == other,
    {
    }

    /// After `reads` reads a cursor that started at `self` stands `reads`
    /// frames further on, counted around the table.
    pub proof fn lemma_turned(self, reads: nat)
        requires
            self.wf(),
        ensures
            self.turned(reads)@ == (self@ + reads) % 10,
            self.turned(reads).wf(),
        decreases reads,
    {
        if reads > 0 {
            let before = self.turned((reads - 1) as nat);
            self.lemma_turned((reads - 1) as nat);
            before.lemma_stepped();
            assert(((self@ + reads - 1) % 10 + 1) % 10 == (self@ + reads) % 10);
        }
    }

    /// The `k`-th read after a fresh start, counted from zero, finds the
    /// cursor at `k mod 10`.
    pub proof fn lemma_kth_read(self, k: nat)
        requires
            self@ == 0,
        ensures
            self.turned(k)@ == k % 10,
    {
        self.lemma_turned(k);
    }

    /// Ten reads bring the cursor back to where it stood.
    pub proof fn lemma_full_cycle(self)
        requires
            self.wf(),
        ensures
            self.turned(10) == self,
    {
        self.lemma_turned(10);
        self.turned(10).lemma_position_decides(self);
    }
}

} // verus!
