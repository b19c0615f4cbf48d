//! A bounded, kernel-pipe-backed byte buffer for one transfer direction.
use vstd::prelude::*;

verus! {

/// The result of a system call: its value, or the error number it set.
pub type SysResult<T> = Result<T, i32>;

/// What one non-blocking splice call reported.
#[derive(Clone, Copy, Debug, PartialEq, Eq, Structural)]
pub enum Outcome {
    /// This many bytes were moved; zero from a socket means the peer closed
    /// its write side.
    Moved(usize),
    /// The call would have blocked.
    WouldBlock,
    /// Any other failure, with its error number.
    Failed(i32),
}

/// Whether a fill or drain loop goes on after one splice call.
#[derive(Clone, Copy, Debug, PartialEq, Eq, Structural)]
pub enum Progress {
    /// Splice again.
    Continue,
    /// Stop for now: the buffer is full or empty, or the socket would block.
    Stop,
    /// The source reported a zero-length read: its stream has ended.
    End,
    /// The splice failed; the connection cannot go on.
    Fail(i32),
}

/// The abstract state of a buffer: how much it holds, how much it can hold,
/// and how many bytes have gone in and come out over its life.
pub ghost struct PipeView {
    pub buffered: nat,
    pub capacity: nat,
    pub taken: nat,
    pub delivered: nat,
}

impl PipeView {
    /// Never more than the capacity is held, and what is held is exactly what
    /// went in and has not yet come out.
    pub open spec fn wf(self) -> bool {
        &&& self.buffered <= self.capacity
        &&& self.taken == self.delivered + self.buffered
    }

    /// The state after `n` bytes were spliced in.
    pub open spec fn fill(self, n: nat) -> PipeView {
        PipeView { buffered: self.buffered + n, taken: self.taken + n, ..self }
    }

    /// The state after `n` bytes were spliced out.
    pub open spec fn drain(self, n: nat) -> PipeView {
        PipeView { buffered: (self.buffered - n) as nat, delivered: self.delivered + n, ..self }
    }
}

/// A zero-copy buffer: the two ends of a kernel pipe and the count of bytes
/// staged in it.
#[derive(Clone, Copy)]
pub struct PipeBuf {
    buffered: usize,
    capacity: usize,
    pfd_r: i32,
    pfd_w: i32,
    taken: Ghost<nat>,
    delivered: Ghost<nat>,
}

impl View for PipeBuf {
    type V = PipeView;

    closed spec fn view(&self) -> PipeView {
        PipeView {
            buffered: self.buffered as nat,
            capacity: self.capacity as nat,
            taken: self.taken@,
            delivered: self.delivered@,
        }
    }
}

impl PipeBuf {
    /// The pipe's read end.
    pub closed spec fn read_end(&self) -> i32 {
        self.pfd_r
    }

    /// The pipe's write end.
    pub closed spec fn write_end(&self) -> i32 {
        self.pfd_w
    }

    pub open spec fn wf(&self) -> bool {
        self@.wf()
    }

    /// An empty buffer over the pipe whose ends are `pfd_r` and `pfd_w`,
    /// holding at most `capacity` bytes.
    pub fn new(pfd_r: i32, pfd_w: i32, capacity: usize) -> (r: PipeBuf)
        ensures
            r.wf(),
            r@ == (PipeView { buffered: 0, capacity: capacity as nat, taken: 0, delivered: 0 }),
            r.read_end() == pfd_r,
            r.write_end() == pfd_w,
    {
        PipeBuf { buffered: 0, capacity, pfd_r, pfd_w, taken: Ghost(0), delivered: Ghost(0) }
    }

    pub fn is_empty(&self) -> (r: bool)
        ensures
            r == (self@.buffered == 0),
    {
        self.buffered == 0
    }

    pub fn is_full(&self) -> (r: bool)
        requires
            self.wf(),
        ensures
            r == (self@.buffered == self@.capacity),
    {
        self.buffered == self.capacity
    }

    /// The bytes staged now.
    pub fn buffered(&self) -> (r: usize)
        ensures
            r == self@.buffered,
    {
        self.buffered
    }

    pub fn capacity(&self) -> (r: usize)
        ensures
            r == self@.capacity,
    {
        self.capacity
    }

    pub fn read_fd(&self) -> (r: i32)
        ensures
            r == self.read_end(),
    {
        self.pfd_r
    }

    pub fn write_fd(&self) -> (r: i32)
        ensures
            r == self.write_end(),
    {
        self.pfd_w
    }

    /// How many bytes the next splice into the pipe may ask for: the room left.
    pub fn room(&self) -> (r: usize)
        requires
            self.wf(),
        ensures
            r == self@.capacity - self@.buffered,
    {
        self.capacity - self.buffered
    }

    /// Records the outcome of one splice from the source socket into the pipe,
    /// for which `room()` bytes were asked.
    ///
    /// Bytes moved are added; the loop goes on while there is room. A
    /// zero-length read ends the source's stream; "would block" stops the loop;
    /// any other failure is fatal to the connection.
    pub fn splice_in(&mut self, r: Outcome) -> (p: Progress)
        requires
            old(self).wf(),
            r matches Outcome::Moved(n) ==> n <= old(self)@.capacity - old(self)@.buffered,
        ensures
            final(self).wf(),
            final(self).read_end() == old(self).read_end(),
            final(self).write_end() == old(self).write_end(),
            match r {
                Outcome::Moved(n) => {
                    &&& final(self)@ == old(self)@.fill(n as nat)
                    &&& p == if n == 0 {
                        Progress::End
                    } else if final(self)@.buffered < final(self)@.capacity {
                        Progress::Continue
                    } else {
                        Progress::Stop
                    }
                },
                Outcome::WouldBlock => final(self)@ == old(self)@ && p == Progress::Stop,
                Outcome::Failed(e) => final(self)@ == old(self)@ && p == Progress::Fail(e),
            },
    {
        match r {
            Outcome::Moved(n) => {
                self.buffered = self.buffered + n;
                self.taken = Ghost((self.taken@ + n) as nat);
                if n == 0 {
                    Progress::End
                } else if self.buffered < self.capacity {
                    Progress::Continue
                } else {
                    Progress::Stop
                }
            },
            Outcome::WouldBlock => Progress::Stop,
            Outcome::Failed(e) => Progress::Fail(e),
        }
    }

    /// Records the outcome of one splice from the pipe to the destination
    /// socket, for which `buffered()` bytes were asked.
    ///
    /// Bytes moved are taken off; the loop goes on while bytes remain, until
    /// the buffer is empty or the destination would block. Any other failure
    /// is fatal to the connection.
    pub fn splice_out(&mut self, r: Outcome) -> (p: Progress)
        requires
            old(self).wf(),
            r matches Outcome::Moved(n) ==> n <= old(self)@.buffered,
        ensures
            final(self).wf(),
            final(self).read_end() == old(self).read_end(),
            final(self).write_end() == old(self).write_end(),
            match r {
                Outcome::Moved(n) => {
                    &&& final(self)@ == old(self)@.drain(n as nat)
                    &&& p == if final(self)@.buffered > 0 {
                        Progress::Continue
                    } else {
                        Progress::Stop
                    }
                },
                Outcome::WouldBlock => final(self)@ == old(self)@ && p == Progress::Stop,
                Outcome::Failed(e) => final(self)@ == old(self)@ && p == Progress::Fail(e),
            },
    {
        match r {
            Outcome::Moved(n) => {
                self.buffered = self.buffered - n;
                self.delivered = Ghost((self.delivered@ + n) as nat);
                if self.buffered > 0 {
                    Progress::Continue
                } else {
                    Progress::Stop
                }
            },
            Outcome::WouldBlock => Progress::Stop,
            Outcome::Failed(e) => Progress::Fail(e),
        }
    }
}

/// One splice that a buffer takes part in.
pub ghost enum Move {
    /// `n` bytes spliced in from the source.
    Fill(nat),
    /// `n` bytes spliced out to the destination.
    Drain(nat),
}

/// Whether the kernel can report move `m` on state `v`: a fill moves at most
/// the room left, a drain at most what is staged.
pub open spec fn fits(v: PipeView, m: Move) -> bool {
    match m {
        Move::Fill(n) => v.buffered + n <= v.capacity,
        Move::Drain(n) => n <= v.buffered,
    }
}

pub open spec fn apply(v: PipeView, m: Move) -> PipeView {
    match m {
        Move::Fill(n) => v.fill(n),
        Move::Drain(n) => v.drain(n),
    }
}

/// The state after the moves `ms`, in order.
pub open spec fn replay(v: PipeView, ms: Seq<Move>) -> PipeView
    decreases ms.len(),
{
    if ms.len() == 0 {
        v
    } else {
        replay(apply(v, ms[0]), ms.drop_first())
    }
}

/// Whether each of the moves `ms` can be reported where it comes.
pub open spec fn admissible(v: PipeView, ms: Seq<Move>) -> bool
    decreases ms.len(),
{
    ms.len() == 0 || (fits(v, ms[0]) && admissible(apply(v, ms[0]), ms.drop_first()))
}

/// The bytes that the moves `ms` hand to the destination, in order, where
/// the source's stream is `s` and the pipe passes bytes on first in, first
/// out.
pub open spec fn sent(v: PipeView, ms: Seq<Move>, s: Seq<u8>) -> Seq<u8>
    decreases ms.len(),
{
    if ms.len() == 0 {
        Seq::empty()
    } else {
        let here = match ms[0] {
            Move::Fill(_) => Seq::<u8>::empty(),
            Move::Drain(n) => s.subrange(v.delivered as int, (v.delivered + n) as int),
        };
        here + sent(apply(v, ms[0]), ms.drop_first(), s)
    }
}

/// Whatever interleaving of partial fills and drains the kernel reports, a
/// buffer never holds more than its capacity, and what it holds is exactly
/// what came in and has not gone out.
pub proof fn lemma_bounded(v: PipeView, ms: Seq<Move>)
    requires
        v.wf(),
        admissible(v, ms),
    ensures
        replay(v, ms).wf(),
        replay(v, ms).capacity == v.capacity,
    decreases ms.len(),
{
    if ms.len() > 0 {
        lemma_bounded(apply(v, ms[0]), ms.drop_first());
    }
}

/// Whatever interleaving of partial fills, partial drains and "would block"
/// answers the kernel gives, the destination receives the source's bytes in
/// the same order, byte for byte, none repeated and none dropped: what the
/// moves hand on is exactly the stretch of the stream between the counts of
/// bytes delivered before and after, and every byte taken in and not yet
/// handed on is still staged.
pub proof fn lemma_in_order(v: PipeView, ms: Seq<Move>, s: Seq<u8>)
    requires
        v.wf(),
        admissible(v, ms),
        replay(v, ms).taken <= s.len(),
    ensures
        v.delivered <= replay(v, ms).delivered,
        v.taken <= replay(v, ms).taken,
        replay(v, ms).delivered + replay(v, ms).buffered == replay(v, ms).taken,
        sent(v, ms, s) == s.subrange(v.delivered as int, replay(v, ms).delivered as int),
    decreases ms.len(),
{
    if ms.len() == 0 {
        assert(s.subrange(v.delivered as int, v.delivered as int) =~= Seq::<u8>::empty());
    } else {
        let w = apply(v, ms[0]);
        lemma_in_order(w, ms.drop_first(), s);
        lemma_bounded(v, ms);
        let end = replay(v, ms).delivered as int;
        match ms[0] {
            Move::Fill(_) => {
                assert(sent(v, ms, s) =~= sent(w, ms.drop_first(), s));
            },
            Move::Drain(n) => {
                assert(s.subrange(v.delivered as int, (v.delivered + n) as int) + s.subrange(w.delivered as int, end)
                    =~= s.subrange(v.delivered as int, end));
            },
        }
    }
}

} // verus!
