//! The strided cursor over one channel's samples in a buffer's region.

use vstd::prelude::*;
use core::marker::PhantomData;
use crate::buffer::{max_region, window, BufferView};
use crate::sample::Sample;

verus! {

/// What a cursor is, as mathematics: offsets in bytes into a region.
pub struct IterView {
    /// The region that is read.
    pub mem: Seq<u8>,
    /// Where the next sample starts.
    pub pos: nat,
    /// Where the data ends; nothing is read at or beyond it.
    pub end: nat,
    /// How far the cursor moves after each sample.
    pub step: nat,
}

impl IterView {
    /// The invariant of every cursor: the data lies in the region, and a
    /// move from inside the data cannot overflow.
    pub open spec fn wf(self) -> bool {
        &&& self.end <= self.mem.len() <= max_region()
        &&& self.step <= max_region()
    }

    /// Whether a sample of `width` bytes can be read: the cursor has not
    /// reached the end, and the whole sample lies before it.
    pub open spec fn has_next(self, width: nat) -> bool {
        self.pos < self.end && self.pos + width <= self.end
    }

    /// The bytes of the sample under the cursor.
    pub open spec fn current(self, width: nat) -> Seq<u8> {
        window(self.mem, self.pos, width)
    }

    /// The cursor moved on by `k` samples.
    pub open spec fn after(self, k: nat) -> IterView {
        IterView { pos: self.pos + k * self.step, ..self }
    }

    /// The cursor after one request for a sample of `width` bytes: moved by
    /// one step if there was a sample, as before if there was none.
    pub open spec fn next(self, width: nat) -> IterView {
        if self.has_next(width) {
            IterView { pos: self.pos + self.step, ..self }
        } else {
            self
        }
    }
}

/// A single pass over the samples of one channel in a buffer.
#[derive(Debug)]
pub struct IntoIter<'a, T> {
    mem: &'a [u8],
    pos: usize,
    end: usize,
    step: usize,
    phantom: PhantomData<T>,
}

impl<'a, T> View for IntoIter<'a, T> {
    type V = IterView;

    closed spec fn view(&self) -> IterView {
        IterView {
            mem: self.mem@,
            pos: self.pos as nat,
            end: self.end as nat,
            step: self.step as nat,
        }
    }
}

impl<'a, T: Sample> IntoIter<'a, T> {
    /// The invariant of every cursor.
    pub open spec fn wf(&self) -> bool {
        self@.wf()
    }

    /// A cursor over `mem` that starts at byte `first`, stops at byte `end`
    /// and moves by `step` bytes.
    pub(crate) fn over(mem: &'a [u8], first: usize, end: usize, step: usize) -> (it: Self)
        requires
            end <= mem@.len() <= max_region(),
            step <= max_region(),
        ensures
            it.wf(),
            it@ == (IterView { mem: mem@, pos: first as nat, end: end as nat, step: step as nat }),
    {
        IntoIter { mem, pos: first, end, step, phantom: PhantomData }
    }

    /// Whether another sample can be read.
    pub fn has_next(&self) -> (b: bool)
        requires
            self.wf(),
        ensures
            b == self@.has_next(T::width()),
    {
        self.pos < self.end && self.end - self.pos >= T::size()
    }

    /// Reads the sample under the cursor and moves on by one step. Once the
    /// cursor has reached the end, or what is left is shorter than a sample,
    /// there is none, and the cursor stays where it is.
    pub fn next(&mut self) -> (r: Option<T>)
        requires
            old(self).wf(),
        ensures
            final(self).wf(),
            final(self)@ == old(self)@.next(T::width()),
            old(self)@.has_next(T::width()) ==> r == Some(
                T::decode_spec(old(self)@.current(T::width())),
            ),
            !old(self)@.has_next(T::width()) ==> r.is_none(),
    {
        let width: usize = T::size();
        if self.pos >= self.end || self.end - self.pos < width {
            return None;
        }
        let bytes = vstd::slice::slice_subrange(self.mem, self.pos, self.pos + width);
        let value = T::decode(bytes);
        self.pos = self.pos + self.step;
        Some(value)
    }
}

/// Over data of `n` whole frames, a channel whose samples of `width` bytes
/// lie inside the frame, with a stride that is a multiple of `width`, gives
/// exactly `n` samples: the cursor moves by one stride; it starts on the
/// channel's first sample; after `k < n` reads
/// it stands on the channel's sample in frame `k`, which lies wholly inside
/// the data, and the next read takes it to frame `k + 1`; after `n` reads,
/// or more, there is nothing left and the cursor no longer moves.
pub proof fn channel_has_one_sample_per_frame(
    b: BufferView,
    first: nat,
    width: nat,
    n: nat,
    k: nat,
)
    requires
        b.wf(),
        0 < width,
        b.stride % width == 0,
        first + width <= b.stride,
        b.filled == n * b.stride,
    ensures
        b.channel_iter(first, width).wf(),
        b.channel_iter(first, width).step == b.stride,
        b.channel_iter(first, width).after(0) == b.channel_iter(first, width),
        b.channel_iter(first, width).after(k).pos == first + k * b.stride,
        k < n ==> b.channel_iter(first, width).after(k).has_next(width),
        k < n ==> b.channel_iter(first, width).after(k).pos + width <= b.filled,
        k < n ==> b.channel_iter(first, width).after(k).next(width) == b.channel_iter(
            first,
            width,
        ).after(k + 1),
        k >= n ==> !b.channel_iter(first, width).after(k).has_next(width),
        k >= n ==> b.channel_iter(first, width).after(k).next(width) == b.channel_iter(
            first,
            width,
        ).after(k),
{
    let s = b.stride;
    assert((s / width) * width == s) by (nonlinear_arith)
        requires
            0 < width,
            s % width == 0,
    ;
    assert(k < n ==> (k + 1) * s <= n * s) by (nonlinear_arith);
    assert(k >= n ==> k * s >= n * s) by (nonlinear_arith);
    assert((k + 1) * s == k * s + s) by (nonlinear_arith);
}

/// Two channels whose samples occupy separate parts of the frame never read
/// a byte of each other: whichever sample of the one and whichever of the
/// other are taken, their bytes do not overlap.
pub proof fn channels_never_overlap(
    b: BufferView,
    first_a: nat,
    width_a: nat,
    first_b: nat,
    width_b: nat,
    i: nat,
    j: nat,
)
    requires
        b.wf(),
        0 < width_a,
        0 < width_b,
        b.stride % width_a == 0,
        b.stride % width_b == 0,
        first_a + width_a <= b.stride,
        first_b + width_b <= b.stride,
        first_a + width_a <= first_b || first_b + width_b <= first_a,
    ensures
        ({
            let a = b.channel_iter(first_a, width_a).after(i);
            let c = b.channel_iter(first_b, width_b).after(j);
            a.pos + width_a <= c.pos || c.pos + width_b <= a.pos
        }),
{
    let s = b.stride;
    assert((s / width_a) * width_a == s) by (nonlinear_arith)
        requires
            0 < width_a,
            s % width_a == 0,
    ;
    assert((s / width_b) * width_b == s) by (nonlinear_arith)
        requires
            0 < width_b,
            s % width_b == 0,
    ;
    assert(i < j ==> (i + 1) * s <= j * s) by (nonlinear_arith);
    assert(j < i ==> (j + 1) * s <= i * s) by (nonlinear_arith);
    assert((i + 1) * s == i * s + s) by (nonlinear_arith);
    assert((j + 1) * s == j * s + s) by (nonlinear_arith);
}

} // verus!
