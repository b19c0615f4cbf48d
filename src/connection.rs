//! A proxied connection: a client socket, a backend socket and one zero-copy
//! buffer per direction, with the transfer step that moves bytes through them.
use vstd::prelude::*;
use crate::pipe_buf::{apply, fits, Move, Outcome, PipeBuf, PipeView, Progress};

verus! {

/// Why a transfer step reports that its connection is finished.
#[derive(Clone, Copy, Debug, PartialEq, Eq, Structural)]
pub enum Terminal {
    /// The connection was already torn down.
    Closed,
    /// The source ended its stream and every byte of it has been passed on.
    Complete,
    /// A splice failed with this error number.
    Fatal(i32),
}

/// One of the two directions in which a connection carries bytes.
#[derive(Clone, Copy, Debug, PartialEq, Eq, Structural)]
pub enum Direction {
    /// From the client to the backend, through the inbound buffer.
    Inbound,
    /// From the backend to the client, through the outbound buffer.
    Outbound,
}

/// Where a transfer step stands.
#[derive(Clone, Copy, Debug, PartialEq, Eq, Structural)]
pub enum Phase {
    /// Moving bytes from the source socket into the buffer.
    Filling,
    /// Moving bytes from the buffer to the destination socket.
    Flushing,
    /// The step is over.
    Finished,
}

/// What the caller must do next for a transfer step.
#[derive(Clone, Copy, Debug, PartialEq, Eq)]
pub enum Action {
    /// Splice at most `len` bytes from socket `from` into the pipe end `into`,
    /// without blocking, and report the outcome.
    SpliceIn { from: i32, into: i32, len: usize },
    /// Splice at most `len` bytes from the pipe end `from` into socket `into`,
    /// without blocking, and report the outcome.
    SpliceOut { from: i32, into: i32, len: usize },
    /// The step is over, with this result.
    Done(Result<(), Terminal>),
}

/// The phase in which a step waits after handing out `a`.
pub open spec fn phase_of(a: Action) -> Phase {
    match a {
        Action::SpliceIn { .. } => Phase::Filling,
        Action::SpliceOut { .. } => Phase::Flushing,
        Action::Done(_) => Phase::Finished,
    }
}

/// How a step ends once nothing more can be moved: the stream is complete
/// when the source has ended and the buffer is empty.
pub open spec fn settle(v: PipeView, eof: bool) -> Result<(), Terminal> {
    if eof && v.buffered == 0 {
        Err(Terminal::Complete)
    } else {
        Ok(())
    }
}

/// What follows the fill loop: flush what is staged, else settle.
pub open spec fn after_fill(buf: PipeBuf, eof: bool, to_fd: i32) -> Action {
    if buf@.buffered > 0 {
        Action::SpliceOut { from: buf.read_end(), into: to_fd, len: buf@.buffered as usize }
    } else {
        Action::Done(settle(buf@, eof))
    }
}

/// The first action of a step: fill while there is room.
pub open spec fn first_action(buf: PipeBuf, from_fd: i32, to_fd: i32) -> Action {
    if buf@.buffered < buf@.capacity {
        Action::SpliceIn {
            from: from_fd,
            into: buf.write_end(),
            len: (buf@.capacity - buf@.buffered) as usize,
        }
    } else {
        after_fill(buf, false, to_fd)
    }
}

/// The bytes that an outcome reports as moved.
pub open spec fn moved(r: Outcome) -> nat {
    match r {
        Outcome::Moved(n) => n as nat,
        _ => 0,
    }
}

/// The action that follows outcome `r` while filling; `buf` is the buffer
/// after `r` was recorded and `eof` whether the source has ended.
pub open spec fn next_filling(buf: PipeBuf, r: Outcome, eof: bool, from_fd: i32, to_fd: i32) -> Action {
    match r {
        Outcome::Failed(e) => Action::Done(Err(Terminal::Fatal(e))),
        _ => if moved(r) > 0 && buf@.buffered < buf@.capacity {
            Action::SpliceIn {
                from: from_fd,
                into: buf.write_end(),
                len: (buf@.capacity - buf@.buffered) as usize,
            }
        } else {
            after_fill(buf, eof, to_fd)
        },
    }
}

/// The action that follows outcome `r` while flushing; `buf` is the buffer
/// after `r` was recorded.
pub open spec fn next_flushing(buf: PipeBuf, r: Outcome, eof: bool, to_fd: i32) -> Action {
    match r {
        Outcome::Failed(e) => Action::Done(Err(Terminal::Fatal(e))),
        Outcome::WouldBlock => Action::Done(settle(buf@, eof)),
        Outcome::Moved(_) => if buf@.buffered > 0 {
            Action::SpliceOut { from: buf.read_end(), into: to_fd, len: buf@.buffered as usize }
        } else {
            Action::Done(settle(buf@, eof))
        },
    }
}

/// Whether outcome `r` answers action `a`: it moved no more than was asked.
pub open spec fn answers(a: Action, r: Outcome) -> bool {
    match a {
        Action::SpliceIn { len, .. } => moved(r) <= len,
        Action::SpliceOut { len, .. } => moved(r) <= len,
        Action::Done(_) => false,
    }
}

/// How one outcome `r` moves a step from `(c, t)` to `(c2, t2)` with next
/// action `a`: only the buffer of the step's direction changes, by the bytes
/// moved, and the action follows from the buffer as it now stands.
pub open spec fn advanced(c: Context, c2: Context, t: Transfer, t2: Transfer, r: Outcome, a: Action) -> bool {
    let d = t.direction;
    let before = c.buf_of(d);
    let after = c2.buf_of(d);
    &&& c2 == c.with_buf(d, after)
    &&& after.read_end() == before.read_end()
    &&& after.write_end() == before.write_end()
    &&& t.phase == Phase::Filling ==> {
        &&& after@ == before@.fill(moved(r))
        &&& t2.eof == (t.eof || r == Outcome::Moved(0))
        &&& a == next_filling(after, r, t2.eof, c.source_of(d), c.dest_of(d))
    }
    &&& t.phase == Phase::Flushing ==> {
        &&& after@ == before@.drain(moved(r))
        &&& t2.eof == t.eof
        &&& a == next_flushing(after, r, t2.eof, c.dest_of(d))
    }
    &&& t2.direction == t.direction
    &&& t2.phase == phase_of(a)
    &&& t2.pending == a
    &&& a != Action::Done(Err(Terminal::Closed))
}

/// A transfer step in progress over one direction of a connection.
#[derive(Clone, Copy, Debug, PartialEq, Eq)]
pub struct Transfer {
    pub direction: Direction,
    pub phase: Phase,
    /// Whether the source has reported the end of its stream in this step.
    pub eof: bool,
    /// The action last handed out.
    pub pending: Action,
}

/// A proxied connection.
#[derive(Clone, Copy)]
pub struct Context {
    /// Set once the connection has been torn down.
    pub bad: bool,
    pub client_fd: i32,
    pub backend_fd: i32,
    /// Carries bytes from the client to the backend.
    pub in_buf: PipeBuf,
    /// Carries bytes from the backend to the client.
    pub out_buf: PipeBuf,
}

impl Context {
    pub open spec fn wf(&self) -> bool {
        self.in_buf.wf() && self.out_buf.wf()
    }

    pub open spec fn new_spec(client_fd: i32, backend_fd: i32, in_buf: PipeBuf, out_buf: PipeBuf) -> Context {
        Context { bad: false, client_fd, backend_fd, in_buf, out_buf }
    }

    /// A live connection between `client_fd` and `backend_fd` over the two
    /// given empty buffers.
    pub fn new(client_fd: i32, backend_fd: i32, in_buf: PipeBuf, out_buf: PipeBuf) -> (r: Context)
        ensures
            r == Context::new_spec(client_fd, backend_fd, in_buf, out_buf),
    {
        Context { bad: false, client_fd, backend_fd, in_buf, out_buf }
    }

    /// The buffer that carries direction `d`.
    pub open spec fn buf_of(&self, d: Direction) -> PipeBuf {
        match d {
            Direction::Inbound => self.in_buf,
            Direction::Outbound => self.out_buf,
        }
    }

    /// The socket that direction `d` reads from.
    pub open spec fn source_of(&self, d: Direction) -> i32 {
        match d {
            Direction::Inbound => self.client_fd,
            Direction::Outbound => self.backend_fd,
        }
    }

    /// The socket that direction `d` writes to.
    pub open spec fn dest_of(&self, d: Direction) -> i32 {
        match d {
            Direction::Inbound => self.backend_fd,
            Direction::Outbound => self.client_fd,
        }
    }

    /// `self` with the buffer of direction `d` replaced by `b`.
    pub open spec fn with_buf(&self, d: Direction, b: PipeBuf) -> Context {
        match d {
            Direction::Inbound => Context { in_buf: b, ..*self },
            Direction::Outbound => Context { out_buf: b, ..*self },
        }
    }

    /// Records outcome `r` of the action that `t` last handed out, on buffer
    /// `buf` which carries bytes from `from_fd` to `to_fd`, and says what to
    /// do next.
    pub fn copy(buf: &mut PipeBuf, t: &mut Transfer, from_fd: i32, to_fd: i32, r: Outcome) -> (a: Action)
        requires
            old(buf).wf(),
            old(t).phase != Phase::Finished,
            old(t).phase == phase_of(old(t).pending),
            answers(old(t).pending, r),
            old(t).phase == Phase::Filling ==> old(t).pending == (Action::SpliceIn {
                from: from_fd,
                into: old(buf).write_end(),
                len: (old(buf)@.capacity - old(buf)@.buffered) as usize,
            }),
            old(t).phase == Phase::Flushing ==> old(t).pending == (Action::SpliceOut {
                from: old(buf).read_end(),
                into: to_fd,
                len: old(buf)@.buffered as usize,
            }),
        ensures
            final(buf).wf(),
            final(buf).read_end() == old(buf).read_end(),
            final(buf).write_end() == old(buf).write_end(),
            old(t).phase == Phase::Filling ==> {
                &&& final(buf)@ == old(buf)@.fill(moved(r))
                &&& final(t).eof == (old(t).eof || r == Outcome::Moved(0))
                &&& a == next_filling(*final(buf), r, final(t).eof, from_fd, to_fd)
            },
            old(t).phase == Phase::Flushing ==> {
                &&& final(buf)@ == old(buf)@.drain(moved(r))
                &&& final(t).eof == old(t).eof
                &&& a == next_flushing(*final(buf), r, final(t).eof, to_fd)
            },
            final(t).direction == old(t).direction,
            final(t).phase == phase_of(a),
            final(t).pending == a,
    {
        let a = if t.phase == Phase::Filling {
            match buf.splice_in(r) {
                Progress::Fail(e) => Action::Done(Err(Terminal::Fatal(e))),
                Progress::Continue => Action::SpliceIn { from: from_fd, into: buf.write_fd(), len: buf.room() },
                p => {
                    if p == Progress::End {
                        t.eof = true;
                    }
                    Context::after_fill(buf, t.eof, to_fd)
                },
            }
        } else {
            match buf.splice_out(r) {
                Progress::Fail(e) => Action::Done(Err(Terminal::Fatal(e))),
                Progress::Continue => Action::SpliceOut { from: buf.read_fd(), into: to_fd, len: buf.buffered() },
                _ => Action::Done(Context::settle(buf, t.eof)),
            }
        };
        t.phase = match a {
            Action::SpliceIn { .. } => Phase::Filling,
            Action::SpliceOut { .. } => Phase::Flushing,
            Action::Done(_) => Phase::Finished,
        };
        t.pending = a;
        a
    }

    fn settle(buf: &PipeBuf, eof: bool) -> (r: Result<(), Terminal>)
        ensures
            r == settle(buf@, eof),
    {
        if eof && buf.is_empty() {
            Err(Terminal::Complete)
        } else {
            Ok(())
        }
    }

    fn after_fill(buf: &PipeBuf, eof: bool, to_fd: i32) -> (a: Action)
        ensures
            a == after_fill(*buf, eof, to_fd),
    {
        if !buf.is_empty() {
            Action::SpliceOut { from: buf.read_fd(), into: to_fd, len: buf.buffered() }
        } else {
            Action::Done(Context::settle(buf, eof))
        }
    }

    /// Begins a transfer step in direction `d`: a torn-down connection reports
    /// `Closed` at once; otherwise the step fills the direction's buffer from
    /// its source while there is room.
    pub fn begin(&self, d: Direction) -> (r: (Transfer, Action))
        requires
            self.wf(),
        ensures
            r.1 == (if self.bad {
                Action::Done(Err(Terminal::Closed))
            } else {
                first_action(self.buf_of(d), self.source_of(d), self.dest_of(d))
            }),
            r.0 == (Transfer { direction: d, phase: phase_of(r.1), eof: false, pending: r.1 }),
    {
        let a = if self.bad {
            Action::Done(Err(Terminal::Closed))
        } else {
            let (buf, from_fd, to_fd) = match d {
                Direction::Inbound => (&self.in_buf, self.client_fd, self.backend_fd),
                Direction::Outbound => (&self.out_buf, self.backend_fd, self.client_fd),
            };
            if buf.buffered() < buf.capacity() {
                Action::SpliceIn { from: from_fd, into: buf.write_fd(), len: buf.room() }
            } else {
                Context::after_fill(buf, false, to_fd)
            }
        };
        let phase = match a {
            Action::SpliceIn { .. } => Phase::Filling,
            Action::SpliceOut { .. } => Phase::Flushing,
            Action::Done(_) => Phase::Finished,
        };
        (Transfer { direction: d, phase, eof: false, pending: a }, a)
    }

    /// Begins the client-to-backend transfer step.
    pub fn copy_from(&self) -> (r: (Transfer, Action))
        requires
            self.wf(),
        ensures
            r == self.begin_spec(Direction::Inbound),
    {
        self.begin(Direction::Inbound)
    }

    /// Begins the backend-to-client transfer step.
    pub fn copy_to(&self) -> (r: (Transfer, Action))
        requires
            self.wf(),
        ensures
            r == self.begin_spec(Direction::Outbound),
    {
        self.begin(Direction::Outbound)
    }

    /// What `begin(d)` returns.
    pub open spec fn begin_spec(&self, d: Direction) -> (Transfer, Action) {
        let a = if self.bad {
            Action::Done(Err(Terminal::Closed))
        } else {
            first_action(self.buf_of(d), self.source_of(d), self.dest_of(d))
        };
        (Transfer { direction: d, phase: phase_of(a), eof: false, pending: a }, a)
    }

    /// Whether `t` is a step in progress over this connection whose last
    /// action was handed out for its buffer as it stands.
    pub open spec fn in_step(&self, t: Transfer) -> bool {
        let buf = self.buf_of(t.direction);
        &&& !self.bad
        &&& t.phase != Phase::Finished
        &&& t.phase == phase_of(t.pending)
        &&& t.phase == Phase::Filling ==> t.pending == (Action::SpliceIn {
            from: self.source_of(t.direction),
            into: buf.write_end(),
            len: (buf@.capacity - buf@.buffered) as usize,
        })
        &&& t.phase == Phase::Flushing ==> t.pending == (Action::SpliceOut {
            from: buf.read_end(),
            into: self.dest_of(t.direction),
            len: buf@.buffered as usize,
        })
    }

    /// Records outcome `r` of the action that step `t` last handed out, and
    /// says what to do next. Only the buffer of the step's direction changes.
    /// The step never reports `Closed`: a step in progress is on a live
    /// connection.
    pub fn advance(&mut self, t: &mut Transfer, r: Outcome) -> (a: Action)
        requires
            old(self).wf(),
            old(self).in_step(*old(t)),
            answers(old(t).pending, r),
        ensures
            final(self).wf(),
            advanced(*old(self), *final(self), *old(t), *final(t), r, a),
            final(self).in_step(*final(t)) || final(t).phase == Phase::Finished,
    {
        match t.direction {
            Direction::Inbound => Context::copy(&mut self.in_buf, t, self.client_fd, self.backend_fd, r),
            Direction::Outbound => Context::copy(&mut self.out_buf, t, self.backend_fd, self.client_fd, r),
        }
    }

    /// The connection after it was torn down.
    pub open spec fn shut(self) -> Context {
        Context { bad: true, ..self }
    }

    /// Tears the connection down. Only the first call does anything: it marks
    /// the connection closed and returns `true`, telling the caller to
    /// deregister and release its descriptors. Later calls return `false`.
    pub fn shutdown(&mut self) -> (first: bool)
        ensures
            first == !old(self).bad,
            *final(self) == old(self).shut(),
    {
        if !self.bad {
            self.bad = true;
            true
        } else {
            false
        }
    }
}

/// Tearing a connection down is idempotent: a second teardown leaves it as
/// the first did and reports that nothing is left to release, so no
/// descriptor is closed twice.
pub proof fn lemma_shutdown_idempotent(c: Context)
    ensures
        c.shut().shut() == c.shut(),
        c.shut().bad,
{
}

/// Once the source has ended and the buffer has drained, the step reports the
/// stream complete, whether the last outcome came while filling (the
/// zero-length read) or while flushing (the last bytes passed on).
pub proof fn lemma_drained_end_completes(buf: PipeBuf, r: Outcome, from_fd: i32, to_fd: i32)
    requires
        buf@.buffered == 0,
        !(r is Failed),
    ensures
        next_flushing(buf, r, true, to_fd) == Action::Done(Err(Terminal::Complete)),
        r == Outcome::Moved(0) ==> next_filling(buf, r, true, from_fd, to_fd) == Action::Done(
            Err(Terminal::Complete),
        ),
{
}

/// The move that outcome `r` makes on the buffer of step `t`.
pub open spec fn step_move(t: Transfer, r: Outcome) -> Move {
    if t.phase == Phase::Filling {
        Move::Fill(moved(r))
    } else {
        Move::Drain(moved(r))
    }
}

/// One outcome of a step changes its buffer by a single move that the kernel
/// can make, so any run of steps is a sequence that `lemma_bounded` and
/// `lemma_in_order` cover: the buffer stays within its capacity and bytes
/// pass on in order. A step ends only when nothing more can be moved: a
/// flush ends when the buffer is empty or the destination would block, a
/// fill when the buffer is empty afterwards. Without a failure, it reports
/// the stream complete exactly when the source has ended and the buffer is
/// empty, and `Ok` otherwise; a failure ends it as fatal with that error.
pub proof fn lemma_step(c: Context, c2: Context, t: Transfer, t2: Transfer, r: Outcome, a: Action)
    requires
        c.wf(),
        c.in_step(t),
        answers(t.pending, r),
        advanced(c, c2, t, t2, r, a),
    ensures
        ({
            let before = c.buf_of(t.direction)@;
            let after = c2.buf_of(t.direction)@;
            &&& fits(before, step_move(t, r))
            &&& after == apply(before, step_move(t, r))
            &&& after.wf()
            &&& (a is Done && !(r is Failed)) ==> {
                &&& a == Action::Done(settle(after, t2.eof))
                &&& t.phase == Phase::Flushing ==> after.buffered == 0 || r == Outcome::WouldBlock
                &&& t.phase == Phase::Filling ==> after.buffered == 0
            }
            &&& r matches Outcome::Failed(e) ==> a == Action::Done(Err(Terminal::Fatal(e)))
        }),
{
}

} // verus!
