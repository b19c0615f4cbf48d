//! The event loop's state: an arena of live connections addressed by stable
//! slots, the poll descriptors that readiness events carry, and the teardown
//! that waits for the end of each batch.
use vstd::prelude::*;
use crate::connection::{advanced, answers, Action, Context, Direction, Phase, Transfer};
use crate::pipe_buf::{Outcome, PipeBuf};

verus! {

/// The token of the listening socket's registration.
pub const LISTEN_TOKEN: u64 = 0;

/// The most slots the arena holds; no process has more descriptors.
pub const MAX_SLOTS: usize = 0x7fff_ffff;

/// Which endpoint of a connection a registration stands for.
#[derive(Clone, Copy, Debug, PartialEq, Eq, Structural)]
pub enum Owner {
    Client,
    Backend,
}

/// A poll descriptor: a role and the slot of the connection it belongs to.
#[derive(Clone, Copy, Debug, PartialEq, Eq, Structural)]
pub struct PollDesp {
    pub who: Owner,
    pub slot: usize,
}

/// The readiness flags of one event.
#[derive(Clone, Copy, Debug, PartialEq, Eq, Structural)]
pub struct Readiness {
    pub readable: bool,
    pub writable: bool,
    pub error: bool,
    /// The peer closed its write side.
    pub read_hup: bool,
    pub hangup: bool,
}

/// The token of poll descriptor `pd`: never the listening socket's.
pub open spec fn token_spec(pd: PollDesp) -> int {
    pd.slot * 2 + 1 + if pd.who == Owner::Backend { 1int } else { 0int }
}

/// The correlation token under which `pd` is registered.
pub fn token_of(pd: PollDesp) -> (t: u64)
    requires
        pd.slot < MAX_SLOTS,
    ensures
        t == token_spec(pd),
        t != LISTEN_TOKEN,
{
    let base: u64 = pd.slot as u64 * 2 + 1;
    match pd.who {
        Owner::Client => base,
        Owner::Backend => base + 1,
    }
}

/// The poll descriptor that token `t` stands for: `None` for the listening
/// socket's token and for tokens that no slot can have.
pub open spec fn poll_desp_spec(t: u64) -> Option<PollDesp> {
    if t == LISTEN_TOKEN || (t - 1) / 2 >= MAX_SLOTS {
        None
    } else {
        Some(PollDesp {
            who: if (t - 1) % 2 == 0 { Owner::Client } else { Owner::Backend },
            slot: ((t - 1) / 2) as usize,
        })
    }
}

/// Decodes a correlation token.
pub fn poll_desp(t: u64) -> (r: Option<PollDesp>)
    ensures
        r == poll_desp_spec(t),
        r matches Some(pd) ==> pd.slot < MAX_SLOTS && token_spec(pd) == t,
{
    if t == LISTEN_TOKEN {
        return None;
    }
    let slot = (t - 1) / 2;
    if slot >= MAX_SLOTS as u64 {
        return None;
    }
    let who = if (t - 1) % 2 == 0 { Owner::Client } else { Owner::Backend };
    Some(PollDesp { who, slot: slot as usize })
}

/// The direction whose source is `who`'s socket.
pub open spec fn source_dir(who: Owner) -> Direction {
    match who {
        Owner::Client => Direction::Inbound,
        Owner::Backend => Direction::Outbound,
    }
}

/// The direction whose destination is `who`'s socket.
pub open spec fn dest_dir(who: Owner) -> Direction {
    match who {
        Owner::Client => Direction::Outbound,
        Owner::Backend => Direction::Inbound,
    }
}

/// What `transfers(who, ev)` returns.
pub open spec fn transfers_spec(who: Owner, ev: Readiness) -> (Option<Direction>, Option<Direction>) {
    (
        if ev.readable || ev.error || ev.read_hup { Some(source_dir(who)) } else { None },
        if ev.writable || ev.error || ev.hangup { Some(dest_dir(who)) } else { None },
    )
}

/// The transfer steps that an event on `who`'s socket asks for, in order:
/// first the one reading from that socket, when it is readable, in error or
/// its peer closed its write side; then the one writing to it, when it is
/// writable, in error or hung up.
pub fn transfers(who: Owner, ev: Readiness) -> (r: (Option<Direction>, Option<Direction>))
    ensures
        r == transfers_spec(who, ev),
{
    let (src, dst) = match who {
        Owner::Client => (Direction::Inbound, Direction::Outbound),
        Owner::Backend => (Direction::Outbound, Direction::Inbound),
    };
    let first = if ev.readable || ev.error || ev.read_hup { Some(src) } else { None };
    let second = if ev.writable || ev.error || ev.hangup { Some(dst) } else { None };
    (first, second)
}

/// The slots of the arena after the connections in `pending` were taken out.
pub open spec fn cleared(slots: Seq<Option<Context>>, pending: Seq<usize>) -> Seq<Option<Context>> {
    Seq::new(slots.len(), |i: int| if pending.contains(i as usize) { None } else { slots[i] })
}

/// The connections that the end of a batch tears down, in the order in which
/// they were found finished, each marked closed.
pub open spec fn released(slots: Seq<Option<Context>>, pending: Seq<usize>) -> Seq<Context> {
    pending.map_values(|i: usize| slots[i as int]->Some_0.shut())
}

/// The connections being proxied.
pub struct Proxy {
    slots: Vec<Option<Context>>,
    pending: Vec<usize>,
}

impl Proxy {
    /// The arena: each slot holds a live connection or nothing.
    pub closed spec fn slots(&self) -> Seq<Option<Context>> {
        self.slots@
    }

    /// The slots of the connections found finished in this batch, each once.
    pub closed spec fn pending(&self) -> Seq<usize> {
        self.pending@
    }

    /// Whether slot `i` holds a connection.
    pub open spec fn live(&self, i: usize) -> bool {
        i < self.slots().len() && self.slots()[i as int] is Some
    }

    /// The connection in slot `i`.
    pub open spec fn ctx(&self, i: usize) -> Context {
        self.slots()[i as int]->Some_0
    }

    pub open spec fn wf(&self) -> bool {
        &&& self.slots().len() <= MAX_SLOTS
        &&& forall|i: int| 0 <= i < self.slots().len() && (#[trigger] self.slots()[i]) is Some
            ==> self.slots()[i]->Some_0.wf() && !self.slots()[i]->Some_0.bad
        &&& self.pending().no_duplicates()
        &&& forall|k: int| 0 <= k < self.pending().len() ==> self.live(#[trigger] self.pending()[k])
    }

    /// An empty arena.
    pub fn new() -> (r: Proxy)
        ensures
            r.wf(),
            r.slots() == Seq::<Option<Context>>::empty(),
            r.pending() == Seq::<usize>::empty(),
    {
        Proxy { slots: Vec::new(), pending: Vec::new() }
    }

    /// Places a new connection in the first free slot, or in a new one. When
    /// every slot is taken and no more can be made, the connection is refused
    /// and nothing changes.
    pub fn open(&mut self, ctx: Context) -> (r: Option<usize>)
        requires
            old(self).wf(),
            ctx.wf(),
            !ctx.bad,
        ensures
            final(self).wf(),
            final(self).pending() == old(self).pending(),
            match r {
                Some(i) => {
                    &&& !old(self).live(i)
                    &&& i <= old(self).slots().len()
                    &&& forall|j: usize| j < i ==> old(self).live(j)
                    &&& final(self).slots() == if i < old(self).slots().len() {
                        old(self).slots().update(i as int, Some(ctx))
                    } else {
                        old(self).slots().push(Some(ctx))
                    }
                },
                None => {
                    &&& final(self).slots() == old(self).slots()
                    &&& old(self).slots().len() == MAX_SLOTS
                    &&& forall|j: usize| j < MAX_SLOTS ==> old(self).live(j)
                },
            },
    {
        let mut i: usize = 0;
        while i < self.slots.len()
            invariant
                i <= self.slots@.len(),
                forall|j: usize| j < i ==> self.live(j),
                *self == *old(self),
                self.wf(),
                ctx.wf(),
                !ctx.bad,
            decreases self.slots@.len() - i,
        {
            if self.slots[i].is_none() {
                self.slots.set(i, Some(ctx));
                proof {
                    assert forall|k: int| 0 <= k < self.pending().len() implies self.live(#[trigger] self.pending()[k]) by {
                        assert(old(self).live(old(self).pending()[k]));
                    }
                }
                return Some(i);
            }
            i = i + 1;
        }
        if self.slots.len() < MAX_SLOTS {
            self.slots.push(Some(ctx));
            proof {
                assert forall|k: int| 0 <= k < self.pending().len() implies self.live(#[trigger] self.pending()[k]) by {
                    assert(old(self).live(old(self).pending()[k]));
                }
            }
            Some(i)
        } else {
            None
        }
    }

    /// Wires up a new connection between `client_fd` and `backend_fd` over two
    /// empty buffers: places it in the first free slot and returns that slot
    /// with the tokens under which the client and the backend socket are to
    /// be registered. When the arena is full nothing changes.
    pub fn register(&mut self, client_fd: i32, backend_fd: i32, in_buf: PipeBuf, out_buf: PipeBuf) -> (r: Option<(usize, u64, u64)>)
        requires
            old(self).wf(),
            in_buf.wf(),
            out_buf.wf(),
        ensures
            final(self).wf(),
            final(self).pending() == old(self).pending(),
            match r {
                Some((i, tc, tb)) => {
                    let ctx = Context::new_spec(client_fd, backend_fd, in_buf, out_buf);
                    &&& !old(self).live(i)
                    &&& forall|j: usize| j < i ==> old(self).live(j)
                    &&& final(self).slots() == if i < old(self).slots().len() {
                        old(self).slots().update(i as int, Some(ctx))
                    } else {
                        old(self).slots().push(Some(ctx))
                    }
                    &&& tc == token_spec(PollDesp { who: Owner::Client, slot: i })
                    &&& tb == token_spec(PollDesp { who: Owner::Backend, slot: i })
                },
                None => {
                    &&& final(self).slots() == old(self).slots()
                    &&& forall|j: usize| j < MAX_SLOTS ==> old(self).live(j)
                },
            },
    {
        let ctx = Context::new(client_fd, backend_fd, in_buf, out_buf);
        match self.open(ctx) {
            Some(i) => {
                let tc = token_of(PollDesp { who: Owner::Client, slot: i });
                let tb = token_of(PollDesp { who: Owner::Backend, slot: i });
                Some((i, tc, tb))
            },
            None => None,
        }
    }

    /// The poll descriptor behind token `t`, when it names a live connection
    /// that has not been found finished in this batch.
    pub open spec fn resolve_spec(&self, t: u64) -> Option<PollDesp> {
        match poll_desp_spec(t) {
            Some(pd) => if self.live(pd.slot) && !self.pending().contains(pd.slot) {
                Some(pd)
            } else {
                None
            },
            None => None,
        }
    }

    /// The poll descriptor behind token `t`, when it names a live connection
    /// that has not been found finished in this batch.
    pub fn resolve(&self, t: u64) -> (r: Option<PollDesp>)
        requires
            self.wf(),
        ensures
            r == self.resolve_spec(t),
    {
        match poll_desp(t) {
            Some(pd) => {
                if pd.slot < self.slots.len() && self.slots[pd.slot].is_some() && !self.is_pending(pd.slot) {
                    Some(pd)
                } else {
                    None
                }
            },
            None => None,
        }
    }

    /// Whether the connection in slot `i` was found finished in this batch.
    pub fn is_pending(&self, i: usize) -> (r: bool)
        ensures
            r == self.pending().contains(i),
    {
        let mut k: usize = 0;
        while k < self.pending.len()
            invariant
                k <= self.pending@.len(),
                forall|m: int| 0 <= m < k ==> self.pending@[m] != i,
            decreases self.pending@.len() - k,
        {
            if self.pending[k] == i {
                return true;
            }
            k = k + 1;
        }
        false
    }

    /// The connection in slot `i`, if any.
    pub fn get(&self, i: usize) -> (r: Option<Context>)
        ensures
            r == (if i < self.slots().len() { self.slots()[i as int] } else { None }),
    {
        if i < self.slots.len() {
            self.slots[i]
        } else {
            None
        }
    }

    /// The number of slots, free or taken.
    pub fn len(&self) -> (r: usize)
        ensures
            r == self.slots().len(),
    {
        self.slots.len()
    }

    /// Records that the connection in slot `i` is finished, once.
    fn mark(&mut self, i: usize)
        requires
            old(self).wf(),
            old(self).live(i),
        ensures
            final(self).wf(),
            final(self).slots() == old(self).slots(),
            final(self).pending() == if old(self).pending().contains(i) {
                old(self).pending()
            } else {
                old(self).pending().push(i)
            },
    {
        if !self.is_pending(i) {
            self.pending.push(i);
        }
    }

    /// Records the result of a transfer step on slot `i`: a terminal one
    /// schedules the connection for teardown at the end of the batch.
    fn settle(&mut self, i: usize, a: Action)
        requires
            old(self).wf(),
            old(self).live(i),
        ensures
            final(self).wf(),
            final(self).slots() == old(self).slots(),
            final(self).pending() == if a matches Action::Done(Err(_)) && !old(self).pending().contains(i) {
                old(self).pending().push(i)
            } else {
                old(self).pending()
            },
    {
        if let Action::Done(Err(_)) = a {
            self.mark(i);
        }
    }

    /// Begins the transfer step in direction `d` on the connection in slot `i`.
    /// A connection already found finished in this batch is not touched
    /// again: the step reports `Closed` at once.
    pub fn begin(&mut self, i: usize, d: Direction) -> (r: (Transfer, Action))
        requires
            old(self).wf(),
            old(self).live(i),
        ensures
            final(self).wf(),
            r == (if old(self).pending().contains(i) {
                old(self).ctx(i).shut().begin_spec(d)
            } else {
                old(self).ctx(i).begin_spec(d)
            }),
            final(self).slots() == old(self).slots(),
            final(self).pending() == if r.1 matches Action::Done(Err(_)) && !old(self).pending().contains(i) {
                old(self).pending().push(i)
            } else {
                old(self).pending()
            },
    {
        let mut ctx = self.slots[i].unwrap();
        if self.is_pending(i) {
            ctx.shutdown();
        }
        let r = ctx.begin(d);
        self.settle(i, r.1);
        r
    }

    /// Routes a readiness event with token `t`: the slot of the connection it
    /// belongs to and the transfer steps it asks for, in order; `None` for
    /// the listening socket's token and for a token of no live connection,
    /// or of one already found finished in this batch.
    pub fn route(&self, t: u64, ev: Readiness) -> (r: Option<(usize, Option<Direction>, Option<Direction>)>)
        requires
            self.wf(),
        ensures
            r == (match self.resolve_spec(t) {
                Some(pd) => {
                    let ask = transfers_spec(pd.who, ev);
                    Some((pd.slot, ask.0, ask.1))
                },
                None => None,
            }),
    {
        match self.resolve(t) {
            Some(pd) => {
                let (first, second) = transfers(pd.who, ev);
                Some((pd.slot, first, second))
            },
            None => None,
        }
    }

    /// Records outcome `r` of the action that step `t` on slot `i` last handed
    /// out, and says what to do next. Only that connection's buffer in the
    /// step's direction changes; a terminal result schedules the connection
    /// for teardown at the end of the batch.
    pub fn advance(&mut self, i: usize, t: &mut Transfer, r: Outcome) -> (a: Action)
        requires
            old(self).wf(),
            old(self).live(i),
            old(self).ctx(i).in_step(*old(t)),
            answers(old(t).pending, r),
        ensures
            final(self).wf(),
            final(self).live(i),
            final(self).slots() == old(self).slots().update(i as int, Some(final(self).ctx(i))),
            advanced(old(self).ctx(i), final(self).ctx(i), *old(t), *final(t), r, a),
            final(self).ctx(i).in_step(*final(t)) || final(t).phase == Phase::Finished,
            final(self).pending() == if a matches Action::Done(Err(_)) && !old(self).pending().contains(i) {
                old(self).pending().push(i)
            } else {
                old(self).pending()
            },
    {
        let mut ctx = self.slots[i].unwrap();
        let a = ctx.advance(t, r);
        self.slots.set(i, Some(ctx));
        self.settle(i, a);
        a
    }

    /// Ends a batch: tears down every connection found finished in it, once
    /// each and in the order found, frees their slots, and hands them back so
    /// that the caller deregisters and closes their descriptors.
    pub fn finish_batch(&mut self) -> (r: Vec<Context>)
        requires
            old(self).wf(),
        ensures
            final(self).wf(),
            final(self).pending() == Seq::<usize>::empty(),
            final(self).slots() == cleared(old(self).slots(), old(self).pending()),
            r@ == released(old(self).slots(), old(self).pending()),
    {
        let ghost slots0 = self.slots@;
        let ghost pending0 = self.pending@;
        let mut out: Vec<Context> = Vec::new();
        let mut k: usize = 0;
        while k < self.pending.len()
            invariant
                self.pending@ == pending0,
                pending0.no_duplicates(),
                k <= pending0.len(),
                self.slots@.len() == slots0.len(),
                slots0.len() <= MAX_SLOTS,
                forall|m: int| 0 <= m < pending0.len() ==> (pending0[m] as int) < slots0.len()
                    && (#[trigger] slots0[pending0[m] as int]) is Some,
                forall|j: int| 0 <= j < slots0.len() ==> (#[trigger] self.slots@[j]) == if pending0.subrange(0, k as int).contains(j as usize) {
                    None
                } else {
                    slots0[j]
                },
                out@ == released(slots0, pending0.subrange(0, k as int)),
            decreases pending0.len() - k,
        {
            let i = self.pending[k];
            proof {
                assert(pending0[k as int] == i);
                assert(!pending0.subrange(0, k as int).contains(i)) by {
                    if pending0.subrange(0, k as int).contains(i) {
                        let m = choose|m: int| 0 <= m < k && pending0.subrange(0, k as int)[m] == i;
                        assert(pending0[m] == pending0[k as int]);
                    }
                }
                assert(slots0[i as int] is Some);
            }
            let mut ctx = self.slots[i].unwrap();
            ctx.shutdown();
            self.slots.set(i, None);
            out.push(ctx);
            proof {
                let pre = pending0.subrange(0, k as int);
                let post = pending0.subrange(0, k as int + 1);
                assert(post == pre.push(i));
                assert forall|j: int| 0 <= j < slots0.len() implies (#[trigger] self.slots@[j]) == if post.contains(j as usize) {
                    None
                } else {
                    slots0[j]
                } by {
                    if j == i as int {
                        assert(post[k as int] == i);
                    } else {
                        if post.contains(j as usize) {
                            let m = choose|m: int| 0 <= m < post.len() && post[m] == j as usize;
                            assert(pre[m] == j as usize);
                        }
                        if pre.contains(j as usize) {
                            let m = choose|m: int| 0 <= m < pre.len() && pre[m] == j as usize;
                            assert(post[m] == j as usize);
                        }
                    }
                }
                assert(released(slots0, post) =~= released(slots0, pre).push(ctx));
            }
            k = k + 1;
        }
        self.pending = Vec::new();
        proof {
            assert(pending0.subrange(0, pending0.len() as int) == pending0);
            assert(self.slots@ =~= cleared(slots0, pending0));
        }
        out
    }
}

/// A connection found finished in a batch is torn down by the batch's end:
/// its slot is freed, it is handed back once, marked closed, and no later
/// event can reach it; the other slots are left as they were.
pub proof fn lemma_pending_torn_down(slots: Seq<Option<Context>>, pending: Seq<usize>, i: usize)
    requires
        pending.no_duplicates(),
        forall|k: int| 0 <= k < pending.len() ==> (pending[k] as int) < slots.len() && (#[trigger] slots[pending[k] as int]) is Some,
        pending.contains(i),
    ensures
        cleared(slots, pending)[i as int] is None,
        exists|k: int|
            0 <= k < pending.len() && released(slots, pending)[k] == (#[trigger] slots[i as int]->Some_0.shut())
                && forall|m: int| 0 <= m < pending.len() && m != k ==> (#[trigger] pending[m]) != i,
        forall|j: int| 0 <= j < slots.len() && !pending.contains(j as usize) ==> #[trigger] cleared(slots, pending)[j] == slots[j],
{
    let k = choose|k: int| 0 <= k < pending.len() && pending[k] == i;
    assert(released(slots, pending)[k] == slots[i as int]->Some_0.shut());
}

/// A token handed out for a poll descriptor decodes to that descriptor, and
/// never to the listening socket's token.
pub proof fn lemma_token_round_trip(pd: PollDesp)
    requires
        pd.slot < MAX_SLOTS,
    ensures
        token_spec(pd) != LISTEN_TOKEN,
        poll_desp_spec(token_spec(pd) as u64) == Some(pd),
{
}

} // verus!
