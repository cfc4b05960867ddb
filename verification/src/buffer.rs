//! The buffer: its memory region, its transfer state, and what each driver
//! call amounts to.
//!
//! The transport itself lies outside this library. Whoever drives it makes
//! the call and hands the status word that came back to the operation of
//! the same name here, which decides the result and the buffer's next state.

use vstd::prelude::*;
use crate::error::{status_result, sys_result, Error};
use crate::iter::{IntoIter, IterView};
use crate::sample::Sample;

verus! {

/// The largest region, in bytes, that a buffer can own.
pub open spec fn max_region() -> nat {
    isize::MAX as nat
}

/// Whether a region of `capacity` frames of `stride` bytes can be had: a
/// frame is not empty, and neither a frame nor the region exceeds
/// `max_region()`.
pub open spec fn layout_fits(capacity: nat, stride: nat) -> bool {
    0 < stride <= max_region() && capacity * stride <= max_region()
}

/// `mem` with `src` written over it from byte `at` on.
pub open spec fn overlay(mem: Seq<u8>, at: int, src: Seq<u8>) -> Seq<u8> {
    mem.subrange(0, at) + src + mem.subrange(at + src.len(), mem.len() as int)
}

/// The `len` bytes of `mem` from byte `at` on.
pub open spec fn window(mem: Seq<u8>, at: nat, len: nat) -> Seq<u8> {
    mem.subrange(at as int, (at + len) as int)
}

/// The smaller of two numbers.
pub open spec fn least(a: int, b: int) -> int {
    if a <= b {
        a
    } else {
        b
    }
}

/// An enabled channel as a buffer sees it: the byte offset of the channel's
/// first sample in the buffer's region.
#[derive(Debug, Clone, Copy, PartialEq, Eq)]
pub struct Channel {
    pub first: usize,
}

/// What a buffer is, as mathematics.
pub struct BufferView {
    /// The bytes of the region, frame after frame.
    pub mem: Seq<u8>,
    /// The number of frames that the region holds.
    pub capacity: nat,
    /// The number of bytes from one sample of a channel to its next.
    pub stride: nat,
    /// The number of bytes, from the start of the region, that hold data.
    pub filled: nat,
    /// Whether transfers have been cancelled for good.
    pub cancelled: bool,
    /// Whether transfers wait for completion.
    pub blocking: bool,
}

impl BufferView {
    /// The invariant of every buffer.
    pub open spec fn wf(self) -> bool {
        &&& layout_fits(self.capacity, self.stride)
        &&& self.mem.len() == self.capacity * self.stride
        &&& self.filled <= self.mem.len()
    }

    /// The buffer as it is created: zeroed, wholly valid, active, blocking.
    pub open spec fn fresh(capacity: nat, stride: nat) -> BufferView {
        BufferView {
            mem: Seq::new(capacity * stride, |i: int| 0u8),
            capacity,
            stride,
            filled: capacity * stride,
            cancelled: false,
            blocking: true,
        }
    }

    /// The buffer after a cancellation.
    pub open spec fn cancel(self) -> BufferView {
        BufferView { cancelled: true, ..self }
    }

    /// The buffer after `times` cancellations in a row.
    pub open spec fn cancel_times(self, times: nat) -> BufferView
        decreases times,
    {
        if times == 0 {
            self
        } else {
            self.cancel_times((times - 1) as nat).cancel()
        }
    }

    /// The number of bytes that a refill takes in, when the driver reports
    /// `ret` bytes and `fresh` is what it delivered.
    pub open spec fn taken(self, ret: int, fresh: Seq<u8>) -> int {
        least(ret, least(fresh.len() as int, self.mem.len() as int))
    }

    /// Whether a transfer that the driver answered with `ret` went through.
    pub open spec fn transfers(self, ret: int) -> bool {
        !self.cancelled && ret >= 0
    }

    /// The buffer after a refill that the driver answered with `ret`,
    /// delivering `fresh`.
    pub open spec fn refill(self, ret: int, fresh: Seq<u8>) -> BufferView {
        if self.transfers(ret) {
            let n = self.taken(ret, fresh);
            BufferView {
                mem: overlay(self.mem, 0, fresh.subrange(0, n)),
                filled: n as nat,
                ..self
            }
        } else {
            self
        }
    }

    /// The result of a refill that the driver answered with `ret`,
    /// delivering `fresh`.
    pub open spec fn refill_result(self, ret: int, fresh: Seq<u8>) -> Result<usize, Error> {
        if self.cancelled {
            Err(Error::Cancelled)
        } else {
            status_result(ret, self.taken(ret, fresh) as usize)
        }
    }

    /// The result of a push that the driver answered with `ret`.
    pub open spec fn push_result(self, ret: int) -> Result<usize, Error> {
        if self.cancelled {
            Err(Error::Cancelled)
        } else {
            status_result(ret, ret as usize)
        }
    }

    /// The buffer after an attempt to set the blocking mode that the driver
    /// answered with `ret`.
    pub open spec fn set_blocking_mode(self, blocking: bool, ret: int) -> BufferView {
        if ret < 0 {
            self
        } else {
            BufferView { blocking, ..self }
        }
    }

    /// The buffer after `bytes` were written into its region at `offset`;
    /// unchanged where they do not fit.
    pub open spec fn store(self, offset: nat, bytes: Seq<u8>) -> BufferView {
        if offset + bytes.len() <= self.mem.len() {
            BufferView { mem: overlay(self.mem, offset as int, bytes), ..self }
        } else {
            self
        }
    }

    /// The bytes that hold data: what a push hands to the hardware.
    pub open spec fn data(self) -> Seq<u8> {
        self.mem.subrange(0, self.filled as int)
    }

    /// The first `num_samples` frames of the region, or all of them where
    /// there are fewer: what a partial push hands to the hardware.
    pub open spec fn frames(self, num_samples: nat) -> Seq<u8> {
        self.mem.subrange(0, least(num_samples as int, self.capacity as int) * self.stride)
    }

    /// The cursor over the samples of a channel whose first sample lies at
    /// byte `first`, for samples of `width` bytes. It moves by whole
    /// samples: by as many as fit into the stride.
    pub open spec fn channel_iter(self, first: nat, width: nat) -> IterView {
        IterView {
            mem: self.mem,
            pos: first,
            end: self.filled,
            step: (self.stride / width) * width,
        }
    }
}

/// A sample buffer of one device.
#[derive(Debug)]
pub struct Buffer {
    mem: Vec<u8>,
    cap: usize,
    stride: usize,
    filled: usize,
    cancelled: bool,
    blocking: bool,
}

impl View for Buffer {
    type V = BufferView;

    closed spec fn view(&self) -> BufferView {
        BufferView {
            mem: self.mem@,
            capacity: self.cap as nat,
            stride: self.stride as nat,
            filled: self.filled as nat,
            cancelled: self.cancelled,
            blocking: self.blocking,
        }
    }
}

/// Writes `src` over `mem` from byte `at` on.
fn copy_into(mem: &mut Vec<u8>, at: usize, src: &[u8])
    requires
        at + src@.len() <= old(mem)@.len(),
    ensures
        final(mem)@ == overlay(old(mem)@, at as int, src@),
{
    let n: usize = src.len();
    let total: usize = mem.len();
    let mut i: usize = 0;
    while i < n
        invariant
            0 <= i <= n,
            n == src@.len(),
            total == mem@.len(),
            at + n <= total,
            mem@.len() == old(mem)@.len(),
            forall|j: int| 0 <= j < at ==> mem@[j] == old(mem)@[j],
            forall|j: int| at <= j < at + i ==> mem@[j] == src@[j - at],
            forall|j: int| at + i <= j < mem@.len() ==> mem@[j] == old(mem)@[j],
        decreases n - i,
    {
        mem.set(at + i, src[i]);
        i += 1;
    }
    assert(mem@ =~= overlay(old(mem)@, at as int, src@));
}

impl Buffer {
    /// The invariant of every buffer.
    pub open spec fn wf(&self) -> bool {
        self@.wf()
    }

    /// Creates the buffer of a device whose enabled channels make frames of
    /// `stride` bytes, with room for `capacity` frames. There is none where
    /// no channel is enabled, so that a frame is empty, or where the region
    /// would be too large.
    pub fn new(capacity: usize, stride: usize) -> (r: Option<Buffer>)
        ensures
            r.is_some() <==> layout_fits(capacity as nat, stride as nat),
            r matches Some(b) ==> b.wf() && b@ == BufferView::fresh(capacity as nat, stride as nat),
    {
        if stride == 0 || stride > isize::MAX as usize {
            return None;
        }
        match capacity.checked_mul(stride) {
            None => None,
            Some(len) => {
                if len > isize::MAX as usize {
                    None
                } else {
                    let mem: Vec<u8> = vec![0u8; len];
                    let b = Buffer { mem, cap: capacity, stride, filled: len, cancelled: false, blocking: true };
                    assert(b@.mem =~= BufferView::fresh(capacity as nat, stride as nat).mem);
                    Some(b)
                }
            },
        }
    }

    /// The number of samples of each channel that the buffer can hold: the
    /// value it was created with.
    pub fn capacity(&self) -> (c: usize)
        ensures
            c == self@.capacity,
    {
        self.cap
    }

    /// The number of bytes from one sample of a channel to its next.
    pub fn step(&self) -> (s: usize)
        ensures
            s == self@.stride,
    {
        self.stride
    }

    /// Whether transfers have been cancelled.
    pub fn is_cancelled(&self) -> (c: bool)
        ensures
            c == self@.cancelled,
    {
        self.cancelled
    }

    /// Whether transfers wait for completion.
    pub fn is_blocking(&self) -> (b: bool)
        ensures
            b == self@.blocking,
    {
        self.blocking
    }

    /// What a request for a pollable descriptor amounts to, given the
    /// driver's answer `ret`: the descriptor, or the driver's error.
    pub fn poll_fd(&mut self, ret: i32) -> (r: Result<i32, Error>)
        ensures
            r == status_result(ret as int, ret),
            *final(self) == *old(self),
    {
        sys_result(ret as isize, ret)
    }

    /// Records the blocking mode, given the driver's answer `ret` to the
    /// request: the mode changes only where the driver accepted it.
    pub fn set_blocking_mode(&mut self, blocking: bool, ret: i32) -> (r: Result<(), Error>)
        ensures
            r == status_result(ret as int, ()),
            final(self)@ == old(self)@.set_blocking_mode(blocking, ret as int),
    {
        let r = sys_result(ret as isize, ());
        if r.is_ok() {
            self.blocking = blocking;
        }
        r
    }

    /// Takes in what a refill brought: `ret` is the driver's answer, `fresh`
    /// the bytes it delivered. A cancelled buffer fails with the
    /// cancellation error whatever the driver said; a negative answer is the
    /// driver's error; otherwise the bytes taken in, from the start of the
    /// region, become the buffer's data, and their number is returned.
    pub fn refill(&mut self, ret: isize, fresh: &[u8]) -> (r: Result<usize, Error>)
        requires
            old(self).wf(),
        ensures
            final(self).wf(),
            r == old(self)@.refill_result(ret as int, fresh@),
            final(self)@ == old(self)@.refill(ret as int, fresh@),
    {
        if self.cancelled {
            return Err(Error::Cancelled);
        }
        if ret < 0 {
            return sys_result(ret, 0);
        }
        let mut n: usize = ret as usize;
        if fresh.len() < n {
            n = fresh.len();
        }
        if self.mem.len() < n {
            n = self.mem.len();
        }
        copy_into(&mut self.mem, 0, vstd::slice::slice_subrange(fresh, 0, n));
        self.filled = n;
        sys_result(ret, n)
    }

    /// What a push amounts to, given the driver's answer `ret`: the number
    /// of bytes sent, the driver's error, or the cancellation error on a
    /// cancelled buffer whatever the driver said. The bytes to hand to the
    /// hardware are those of `data`.
    pub fn push(&mut self, ret: isize) -> (r: Result<usize, Error>)
        ensures
            r == old(self)@.push_result(ret as int),
            *final(self) == *old(self),
    {
        if self.cancelled {
            return Err(Error::Cancelled);
        }
        sys_result(ret, ret as usize)
    }

    /// What a push of the first `num_samples` samples of each channel
    /// amounts to, given the driver's answer `ret`; as `push`. The bytes to
    /// hand to the hardware are those of `frames`.
    pub fn push_partial(&mut self, num_samples: usize, ret: isize) -> (r: Result<usize, Error>)
        ensures
            r == old(self)@.push_result(ret as int),
            *final(self) == *old(self),
    {
        if self.cancelled {
            return Err(Error::Cancelled);
        }
        sys_result(ret, ret as usize)
    }

    /// Cancels all transfers, for good: from now on every refill and push
    /// fails with the cancellation error.
    pub fn cancel(&mut self)
        ensures
            final(self)@ == old(self)@.cancel(),
    {
        self.cancelled = true;
    }

    /// Writes `bytes` into the region at byte `offset`. Where they do not
    /// fit, nothing is written and the answer is `false`.
    pub fn store(&mut self, offset: usize, bytes: &[u8]) -> (done: bool)
        requires
            old(self).wf(),
        ensures
            final(self).wf(),
            done <==> offset + bytes@.len() <= old(self)@.mem.len(),
            final(self)@ == old(self)@.store(offset as nat, bytes@),
    {
        if offset > self.mem.len() || bytes.len() > self.mem.len() - offset {
            return false;
        }
        copy_into(&mut self.mem, offset, bytes);
        true
    }

    /// A single pass over the samples of `chan` that the buffer holds, read
    /// as values of `T`. The cursor starts at the channel's first sample,
    /// stops at the end of the data, and moves by as many whole samples of
    /// `T` as fit into the stride. That `T` is the channel's own sample type
    /// is left to the caller: nothing here can tell.
    pub fn channel_iter<T: Sample>(&self, chan: &Channel) -> (it: IntoIter<'_, T>)
        requires
            self.wf(),
        ensures
            it.wf(),
            it@ == self@.channel_iter(chan.first as nat, T::width()),
    {
        let width: usize = T::size();
        let per: usize = self.stride / width;
        assert(per * width <= self.stride) by (nonlinear_arith)
            requires
                0 < width,
                per == self.stride / width,
        ;
        IntoIter::over(self.mem.as_slice(), chan.first, self.filled, per * width)
    }

    /// The bytes that hold data: what a push hands to the hardware.
    pub fn data(&self) -> (out: &[u8])
        requires
            self.wf(),
        ensures
            out@ == self@.data(),
    {
        vstd::slice::slice_subrange(self.mem.as_slice(), 0, self.filled)
    }

    /// The first `num_samples` frames of the region, or all of them where
    /// there are fewer: what a partial push hands to the hardware.
    pub fn frames(&self, num_samples: usize) -> (out: &[u8])
        requires
            self.wf(),
        ensures
            out@ == self@.frames(num_samples as nat),
    {
        let n: usize = if num_samples < self.cap { num_samples } else { self.cap };
        assert(n * self.stride <= self.cap * self.stride) by (nonlinear_arith)
            requires
                n <= self.cap,
        ;
        vstd::slice::slice_subrange(self.mem.as_slice(), 0, n * self.stride)
    }
}

/// The capacity is the one that the buffer was created with, and no
/// operation changes it.
pub proof fn capacity_is_fixed(
    b: BufferView,
    capacity: nat,
    stride: nat,
    ret: int,
    fresh: Seq<u8>,
    blocking: bool,
    offset: nat,
    bytes: Seq<u8>,
)
    ensures
        BufferView::fresh(capacity, stride).capacity == capacity,
        b.cancel().capacity == b.capacity,
        b.refill(ret, fresh).capacity == b.capacity,
        b.set_blocking_mode(blocking, ret).capacity == b.capacity,
        b.store(offset, bytes).capacity == b.capacity,
{
}

/// Once cancelled, a buffer stays cancelled: every refill and every push
/// fails with the cancellation error, whatever the driver answers, and
/// leaves the buffer as it is; so does a further cancellation, however many
/// follow; and neither a change of mode nor a write brings transfers back.
pub proof fn cancel_is_final(
    b: BufferView,
    times: nat,
    ret: int,
    fresh: Seq<u8>,
    blocking: bool,
    offset: nat,
    bytes: Seq<u8>,
)
    requires
        times >= 1,
    ensures
        b.cancel_times(times) == b.cancel(),
        b.cancel().cancelled,
        b.cancel().refill_result(ret, fresh) == Err::<usize, Error>(Error::Cancelled),
        b.cancel().push_result(ret) == Err::<usize, Error>(Error::Cancelled),
        b.cancel().refill(ret, fresh) == b.cancel(),
        b.cancel().cancel() == b.cancel(),
        b.cancel().set_blocking_mode(blocking, ret).cancelled,
        b.cancel().store(offset, bytes).cancelled,
    decreases times,
{
    reveal_with_fuel(BufferView::cancel_times, 2);
    if times > 1 {
        cancel_is_final(b, (times - 1) as nat, ret, fresh, blocking, offset, bytes);
    }
}

/// A partial push of `num_samples` samples sends that many whole frames, so
/// that many samples of every channel, whatever the width of its samples:
/// of a channel whose samples lie inside the frame, sample `k` is sent
/// whole and as it stands in the region if `k < num_samples`, and no byte of
/// it is sent otherwise.
pub proof fn partial_push_sends_whole_frames(
    b: BufferView,
    num_samples: nat,
    first: nat,
    width: nat,
    k: nat,
)
    requires
        b.wf(),
        num_samples <= b.capacity,
        first + width <= b.stride,
    ensures
        b.frames(num_samples).len() == num_samples * b.stride,
        k < num_samples ==> first + k * b.stride + width <= b.frames(num_samples).len(),
        k < num_samples ==> window(b.frames(num_samples), first + k * b.stride, width) == window(
            b.mem,
            first + k * b.stride,
            width,
        ),
        k >= num_samples ==> first + k * b.stride >= b.frames(num_samples).len(),
{
    let s = b.stride;
    assert(num_samples * s <= b.capacity * s) by (nonlinear_arith)
        requires
            num_samples <= b.capacity,
    ;
    assert(k < num_samples ==> (k + 1) * s <= num_samples * s) by (nonlinear_arith);
    assert(k >= num_samples ==> k * s >= num_samples * s) by (nonlinear_arith);
    assert((k + 1) * s == k * s + s) by (nonlinear_arith);
    if k < num_samples {
        assert(window(b.frames(num_samples), first + k * s, width) =~= window(
            b.mem,
            first + k * s,
            width,
        ));
    }
}

/// What is written into the region is what is read back from it and what a
/// push sends: bytes stored inside the first `num_samples` frames stand in
/// the region at their offset, and in the frames sent at the same offset.
pub proof fn stored_bytes_are_sent(b: BufferView, offset: nat, bytes: Seq<u8>, num_samples: nat)
    requires
        b.wf(),
        num_samples <= b.capacity,
        offset + bytes.len() <= num_samples * b.stride,
    ensures
        b.store(offset, bytes).wf(),
        window(b.store(offset, bytes).mem, offset, bytes.len()) == bytes,
        window(b.store(offset, bytes).frames(num_samples), offset, bytes.len()) == bytes,
{
    let s = b.stride;
    assert(num_samples * s <= b.capacity * s) by (nonlinear_arith)
        requires
            num_samples <= b.capacity,
    ;
    let after = b.store(offset, bytes);
    assert(window(after.mem, offset, bytes.len()) =~= bytes);
    assert(window(after.frames(num_samples), offset, bytes.len()) =~= bytes);
}

} // verus!
