//! A fixed-size record of the last few cycles' press states, kept in a
//! circular buffer over a preallocated vector.
use vstd::prelude::*;

verus! {

/// The number of `true` entries.
pub open spec fn count_true(s: Seq<bool>) -> nat
    decreases s.len(),
{
    if s.len() == 0 {
        0
    } else {
        count_true(s.drop_last()) + if s.last() { 1nat } else { 0nat }
    }
}

/// `s` with `flag` added as the newest entry and the oldest one dropped; an
/// empty record stays empty.
pub open spec fn pushed_out(s: Seq<bool>, flag: bool) -> Seq<bool> {
    if s.len() == 0 {
        s
    } else {
        s.drop_first().push(flag)
    }
}

pub struct DetectionBuffer {
    data: Vec<bool>,
    oldest: usize,
}

/// The storage index of the `i`-th oldest entry.
spec fn slot(oldest: int, i: int, n: int) -> int {
    if oldest + i < n {
        oldest + i
    } else {
        oldest + i - n
    }
}

impl View for DetectionBuffer {
    type V = Seq<bool>;

    /// The entries from the oldest to the newest.
    closed spec fn view(&self) -> Seq<bool> {
        Seq::new(
            self.data@.len(),
            |i: int| self.data@[slot(self.oldest as int, i, self.data@.len() as int)],
        )
    }
}

impl DetectionBuffer {
    pub closed spec fn wf(&self) -> bool {
        self.oldest == 0 || self.oldest < self.data@.len()
    }

    /// A record of `size` entries, all `false`.
    pub fn new(size: usize) -> (r: DetectionBuffer)
        ensures
            r.wf(),
            r@ == Seq::new(size as nat, |i: int| false),
    {
        let mut data: Vec<bool> = Vec::new();
        let mut i: usize = 0;
        while i < size
            invariant
                0 <= i <= size,
                data@ == Seq::new(i as nat, |j: int| false),
            decreases size - i,
        {
            data.push(false);
            assert(data@ =~= Seq::new((i + 1) as nat, |j: int| false));
            i = i + 1;
        }
        let r = DetectionBuffer { data, oldest: 0 };
        assert(r@ =~= Seq::new(size as nat, |i: int| false));
        r
    }

    /// Records `flag` as the newest entry, evicting the oldest one.
    pub fn push(&mut self, flag: bool)
        requires
            old(self).wf(),
        ensures
            final(self).wf(),
            final(self)@ == pushed_out(old(self)@, flag),
    {
        let n = self.data.len();
        if n == 0 {
            return;
        }
        let ghost before = self@;
        let oldest = self.oldest;
        self.data.set(oldest, flag);
        self.oldest = if oldest + 1 < n {
            oldest + 1
        } else {
            0
        };
        assert(self@ =~= pushed_out(before, flag));
    }

    /// The number of `true` entries.
    pub fn count_true(&self) -> (r: usize)
        requires
            self.wf(),
        ensures
            r == count_true(self@),
    {
        let n = self.data.len();
        let ghost entries = self@;
        let mut r: usize = 0;
        let mut i: usize = 0;
        while i < n
            invariant
                0 <= i <= n,
                n == self.data@.len(),
                self.wf(),
                entries == self@,
                r <= i,
                r == count_true(entries.subrange(0, i as int)),
            decreases n - i,
        {
            assert(entries.subrange(0, i + 1).drop_last() =~= entries.subrange(0, i as int));
            let at = if i < n - self.oldest {
                self.oldest + i
            } else {
                i - (n - self.oldest)
            };
            if self.data[at] {
                r = r + 1;
            }
            i = i + 1;
        }
        assert(entries.subrange(0, n as int) =~= entries);
        r
    }
}

} // verus!
