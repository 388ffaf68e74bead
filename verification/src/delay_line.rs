//! The circular buffer behind the chorus, the delay and the reverb's comb
//! and all-pass filters: one write position, reads a given number of
//! samples behind it.

use vstd::prelude::*;
use crate::wrap::lemma_wrap;

verus! {

/// Where a read `delay` samples behind `write_pos` falls in a buffer of
/// `len` samples. The delay is capped at `len - 1`.
pub open spec fn spec_read_position(write_pos: int, delay: int, len: int) -> int {
    let d = if delay < len - 1 { delay } else { len - 1 };
    (write_pos - d) % len
}

/// The position of a read `delay` samples behind `write_pos` (the delay
/// capped at `len - 1`), wrapped round the buffer.
pub fn read_position(write_pos: usize, delay: usize, len: usize) -> (pos: usize)
    requires
        0 < len,
        write_pos < len,
    ensures
        pos == spec_read_position(write_pos as int, delay as int, len as int),
        pos < len,
{
    let d = if delay < len - 1 { delay } else { len - 1 };
    proof {
        lemma_wrap(write_pos - d, len as int);
    }
    if write_pos >= d {
        write_pos - d
    } else {
        len - (d - write_pos)
    }
}

/// A buffer of `len` samples with a write position.
pub struct DelayLine<T> {
    buffer: Vec<T>,
    write_pos: usize,
}

impl<T: Copy> DelayLine<T> {
    /// The samples, by position.
    pub closed spec fn contents(&self) -> Seq<T> {
        self.buffer@
    }

    /// The position the next write goes to.
    pub closed spec fn pos(&self) -> nat {
        self.write_pos as nat
    }

    pub open spec fn wf(&self) -> bool {
        &&& self.contents().len() > 0
        &&& self.pos() < self.contents().len()
    }

    /// A buffer of `len` copies of `fill`, writing at position 0.
    pub fn new(len: usize, fill: T) -> (d: DelayLine<T>)
        requires
            len > 0,
        ensures
            d.wf(),
            d.contents() == Seq::new(len as nat, |i: int| fill),
            d.pos() == 0,
    {
        let mut buffer: Vec<T> = Vec::new();
        let mut i: usize = 0;
        while i < len
            invariant
                i <= len,
                buffer@ == Seq::new(i as nat, |k: int| fill),
            decreases len - i,
        {
            buffer.push(fill);
            i = i + 1;
        }
        DelayLine { buffer, write_pos: 0 }
    }

    /// Fills the buffer with `fill` and moves the write position back to 0.
    pub fn clear(&mut self, fill: T)
        requires
            old(self).wf(),
        ensures
            final(self).wf(),
            final(self).contents() == Seq::new(old(self).contents().len(), |i: int| fill),
            final(self).pos() == 0,
    {
        let len = self.buffer.len();
        let mut i: usize = 0;
        while i < len
            invariant
                i <= len,
                len == self.buffer@.len(),
                len > 0,
                forall|k: int| 0 <= k < i ==> self.buffer@[k] == fill,
            decreases len - i,
        {
            self.buffer.set(i, fill);
            i = i + 1;
        }
        self.write_pos = 0;
        assert(self.buffer@ =~= Seq::new(len as nat, |k: int| fill));
    }

    /// Number of samples the buffer holds.
    pub fn len(&self) -> (n: usize)
        ensures
            n == self.contents().len(),
    {
        self.buffer.len()
    }

    /// The position the next write goes to.
    pub fn write_pos(&self) -> (p: usize)
        ensures
            p == self.pos(),
    {
        self.write_pos
    }

    /// The sample at the write position: the oldest one, about to be
    /// overwritten.
    pub fn current(&self) -> (v: T)
        requires
            self.wf(),
        ensures
            v == self.contents()[self.pos() as int],
    {
        self.buffer[self.write_pos]
    }

    /// Stores a sample at the write position.
    pub fn write(&mut self, v: T)
        requires
            old(self).wf(),
        ensures
            final(self).wf(),
            final(self).contents() == old(self).contents().update(old(self).pos() as int, v),
            final(self).pos() == old(self).pos(),
    {
        let p = self.write_pos;
        self.buffer.set(p, v);
    }

    /// Moves the write position one sample on, round the buffer.
    pub fn advance(&mut self)
        requires
            old(self).wf(),
        ensures
            final(self).wf(),
            final(self).contents() == old(self).contents(),
            final(self).pos() == (old(self).pos() + 1) % old(self).contents().len(),
    {
        let len = self.buffer.len();
        self.write_pos = (self.write_pos + 1) % len;
    }

    /// The sample `delay` positions behind the write position (the delay
    /// capped at the buffer's length less one).
    pub fn read_delayed(&self, delay: usize) -> (v: T)
        requires
            self.wf(),
        ensures
            v == self.contents()[spec_read_position(
                self.pos() as int,
                delay as int,
                self.contents().len() as int,
            )],
    {
        let pos = read_position(self.write_pos, delay, self.buffer.len());
        self.buffer[pos]
    }
}

/// The buffer after writing `values` one after the other, each at the write
/// position, which moves on one sample after each.
pub open spec fn after_writes<T>(contents: Seq<T>, pos: int, values: Seq<T>) -> Seq<T>
    decreases values.len(),
{
    if values.len() == 0 {
        contents
    } else {
        after_writes(
            contents.update(pos, values[0]),
            (pos + 1) % (contents.len() as int),
            values.drop_first(),
        )
    }
}

/// Writes leave untouched every position they do not reach: a run of
/// `values.len()` writes from `pos` reaches the positions whose distance
/// ahead of `pos`, round the buffer, is below that count.
proof fn lemma_after_writes_frame<T>(contents: Seq<T>, pos: int, values: Seq<T>, q: int)
    requires
        0 < contents.len(),
        0 <= pos < contents.len(),
        0 <= q < contents.len(),
        (q - pos) % (contents.len() as int) >= values.len(),
    ensures
        after_writes(contents, pos, values).len() == contents.len(),
        after_writes(contents, pos, values)[q] == contents[q],
    decreases values.len(),
{
    if values.len() > 0 {
        let n = contents.len() as int;
        let p1 = (pos + 1) % n;
        lemma_wrap(pos + 1, n);
        lemma_wrap(q - pos, n);
        lemma_wrap(q - p1, n);
        lemma_after_writes_frame(contents.update(pos, values[0]), p1, values.drop_first(), q);
    }
}

/// Read-back of a delay line: a sample written and followed by `k` more
/// writes (each write followed by a step of the write position) is what a
/// read `k + 1` samples behind the write position returns, as long as the
/// line is longer than `k + 1` samples.
pub proof fn lemma_delayed_read_returns_write<T>(contents: Seq<T>, pos: int, v: T, later: Seq<T>)
    requires
        0 <= pos < contents.len(),
        later.len() + 1 < contents.len(),
    ensures
        ({
            let n = contents.len() as int;
            let k = later.len() as int;
            let final_pos = (pos + 1 + k) % n;
            after_writes(contents, pos, seq![v] + later)[spec_read_position(final_pos, k + 1, n)]
                == v
        }),
{
    let n = contents.len() as int;
    let k = later.len() as int;
    let all = seq![v] + later;
    assert(all.drop_first() =~= later);
    let s1 = contents.update(pos, v);
    let p1 = (pos + 1) % n;
    assert(after_writes(contents, pos, all) == after_writes(s1, p1, later));
    lemma_wrap(pos + 1, n);
    lemma_wrap(pos - p1, n);
    lemma_after_writes_frame(s1, p1, later, pos);
    let final_pos = (pos + 1 + k) % n;
    lemma_wrap(pos + 1 + k, n);
    lemma_wrap(final_pos - (k + 1), n);
}
} // verus!
