//! The channel as it looks when its operations take effect one at a time.
//!
//! The model holds what the handles share: the queued items, oldest first,
//! the number of live senders and the generation. Each operation is one
//! step of it, decided by the same functions that the handles call. The
//! laws of the channel are stated and proved here, for a queue that hands
//! out its items first in, first out.

use crate::protocol::{absorbed, is_last, kept, settled, target_of, wants_more, Attempt};
use vstd::prelude::*;

verus! {

/// The shared state of one channel.
pub struct Core<T> {
    /// The queued items, oldest first.
    pub queue: Seq<T>,
    /// The number of live sender handles.
    pub senders: nat,
    /// The counter on which consumers sleep.
    pub generation: u32,
}

/// One operation of a handle.
pub enum Event<T> {
    Send(T),
    SendMany(Seq<T>),
    CloneSender,
    DropSender,
    Recv,
    RecvExact(nat),
    RecvAll,
}

/// The generation after one more change, wrapping round.
pub open spec fn bumped(generation: u32) -> u32 {
    if generation == u32::MAX {
        0
    } else {
        (generation + 1) as u32
    }
}

/// What a pop answers on a queue.
pub open spec fn front<T>(queue: Seq<T>) -> Option<T> {
    if queue.len() == 0 {
        None
    } else {
        Some(queue[0])
    }
}

/// The batch that a drain ends with, which starts with `batch`, aims at
/// `num` items and pops from `queue`.
pub open spec fn drained<T>(queue: Seq<T>, batch: Seq<T>, num: nat) -> Seq<T>
    decreases queue.len(),
{
    if queue.len() > 0 && wants_more(batch, front(queue), num) {
        drained(queue.drop_first(), absorbed(batch, front(queue)), num)
    } else {
        absorbed(batch, front(queue))
    }
}

/// The items of an attempt that delivered a batch; none otherwise.
pub open spec fn items_of<T>(attempt: Attempt<Seq<T>>) -> Seq<T> {
    match attempt {
        Attempt::Ready(batch) => batch,
        _ => Seq::empty(),
    }
}

/// The item of an attempt that delivered one; none otherwise.
pub open spec fn item_of<T>(attempt: Attempt<T>) -> Seq<T> {
    match attempt {
        Attempt::Ready(item) => seq![item],
        _ => Seq::empty(),
    }
}

impl<T> Core<T> {
    /// The state of a channel that was just made.
    pub open spec fn fresh() -> Self {
        Core { queue: Seq::empty(), senders: 1, generation: 0 }
    }

    /// No sender is left and nothing is queued.
    pub open spec fn is_finished(self) -> bool {
        self.senders == 0 && self.queue.len() == 0
    }

    pub open spec fn send(self, item: T) -> Self {
        Core { queue: self.queue.push(item), generation: bumped(self.generation), ..self }
    }

    pub open spec fn send_many(self, items: Seq<T>) -> Self {
        Core { queue: self.queue + items, generation: bumped(self.generation), ..self }
    }

    pub open spec fn clone_sender(self) -> Self {
        Core { senders: self.senders + 1, ..self }
    }

    pub open spec fn drop_sender(self) -> Self {
        if self.senders == 0 {
            self
        } else if is_last(self.senders) {
            Core { senders: 0, generation: bumped(self.generation), ..self }
        } else {
            Core { senders: (self.senders - 1) as nat, ..self }
        }
    }

    /// How a round of `recv` ends.
    pub open spec fn recv(self) -> Attempt<T> {
        settled(front(self.queue), self.senders, self.generation)
    }

    /// How a round of `recv_exact` ends.
    pub open spec fn recv_exact(self, num: nat) -> Attempt<Seq<T>> {
        let batch = drained(self.queue, Seq::empty(), num);
        settled(kept(batch, batch.len()), self.senders, self.generation)
    }

    /// How a round of `recv_all` ends.
    pub open spec fn recv_all(self) -> Attempt<Seq<T>> {
        self.recv_exact(target_of(self.queue.len()))
    }

    /// The items that `event` puts into the queue.
    pub open spec fn accepts(event: Event<T>) -> Seq<T> {
        match event {
            Event::Send(item) => seq![item],
            Event::SendMany(items) => items,
            _ => Seq::empty(),
        }
    }

    /// The items that `event` hands to its caller.
    pub open spec fn delivers(self, event: Event<T>) -> Seq<T> {
        match event {
            Event::Recv => item_of(self.recv()),
            Event::RecvExact(num) => items_of(self.recv_exact(num)),
            Event::RecvAll => items_of(self.recv_all()),
            _ => Seq::empty(),
        }
    }

    /// Whether a handle can make this call: a sender's operation needs a
    /// live sender, and a batch asks for at least one item.
    pub open spec fn enabled(self, event: Event<T>) -> bool {
        match event {
            Event::Send(_) | Event::SendMany(_) | Event::CloneSender | Event::DropSender => self.senders > 0,
            Event::RecvExact(num) => num >= 1,
            _ => true,
        }
    }

    /// The state after `event`.
    pub open spec fn step(self, event: Event<T>) -> Self {
        match event {
            Event::Send(item) => self.send(item),
            Event::SendMany(items) => self.send_many(items),
            Event::CloneSender => self.clone_sender(),
            Event::DropSender => self.drop_sender(),
            _ => Core { queue: self.queue.skip(self.delivers(event).len() as int), ..self },
        }
    }

    /// The state after the events of `trace`, in their order.
    pub open spec fn run(self, trace: Seq<Event<T>>) -> Self
        decreases trace.len(),
    {
        if trace.len() == 0 {
            self
        } else {
            self.run(trace.drop_last()).step(trace.last())
        }
    }

    /// Every event of `trace` is enabled when its turn comes.
    pub open spec fn admits(self, trace: Seq<Event<T>>) -> bool
        decreases trace.len(),
    {
        trace.len() == 0 || (self.admits(trace.drop_last()) && self.run(trace.drop_last()).enabled(
            trace.last(),
        ))
    }

    /// All that the receive calls of `trace` handed out, in the order of
    /// the calls.
    pub open spec fn received(self, trace: Seq<Event<T>>) -> Seq<T>
        decreases trace.len(),
    {
        if trace.len() == 0 {
            Seq::empty()
        } else {
            self.received(trace.drop_last()) + self.run(trace.drop_last()).delivers(trace.last())
        }
    }

    /// All that the send calls of `trace` queued, in the order of the calls.
    pub open spec fn sent(trace: Seq<Event<T>>) -> Seq<T>
        decreases trace.len(),
    {
        if trace.len() == 0 {
            Seq::empty()
        } else {
            Self::sent(trace.drop_last()) + Self::accepts(trace.last())
        }
    }
}

/// The calls that send `values` one by one, in their order.
pub open spec fn sends<T>(values: Seq<T>) -> Seq<Event<T>> {
    Seq::new(values.len(), |i: int| Event::Send(values[i]))
}

/// `count` calls of `recv`.
pub open spec fn recvs<T>(count: nat) -> Seq<Event<T>> {
    Seq::new(count, |i: int| Event::Recv)
}

/// The number of items that a drain adds to a batch of `have` items when it
/// aims at `num` and the queue holds `queued`.
pub open spec fn share_of(queued: nat, have: nat, num: nat) -> nat {
    let room: nat = if have + 1 < num {
        (num - have) as nat
    } else {
        1
    };
    if queued < room {
        queued
    } else {
        room
    }
}

/// A drain appends to its batch the oldest items of the queue, as many as
/// it has room for, and at least one if the queue holds any.
pub proof fn lemma_drained<T>(queue: Seq<T>, batch: Seq<T>, num: nat)
    ensures
        drained(queue, batch, num) == batch + queue.take(
            share_of(queue.len(), batch.len(), num) as int,
        ),
    decreases queue.len(),
{
    let count = share_of(queue.len(), batch.len(), num);
    if queue.len() == 0 {
        assert(batch + queue.take(0) =~= batch);
    } else if wants_more(batch, front(queue), num) {
        let rest = queue.drop_first();
        let next = batch.push(queue[0]);
        lemma_drained(rest, next, num);
        let inner = share_of(rest.len(), next.len(), num);
        assert(count == inner + 1);
        assert(next + rest.take(inner as int) =~= batch + queue.take(count as int));
    } else {
        assert(batch.push(queue[0]) =~= batch + queue.take(1));
    }
}

/// A round of `recv_exact` that aims at one item or more delivers the
/// oldest items of the queue, as many as are asked for or as there are; on
/// an empty queue it is closed if no sender lives and idle otherwise.
pub proof fn law_recv_exact_takes_the_oldest<T>(core: Core<T>, num: nat)
    requires
        num >= 1,
    ensures
        core.queue.len() > 0 ==> core.recv_exact(num) == Attempt::Ready(
            core.queue.take(if core.queue.len() < num { core.queue.len() as int } else { num as int }),
        ),
        core.queue.len() == 0 && core.senders == 0 ==> core.recv_exact(num) == Attempt::<Seq<T>>::Closed,
        core.queue.len() == 0 && core.senders > 0 ==> core.recv_exact(num) == Attempt::<Seq<T>>::Idle(
            core.generation,
        ),
{
    lemma_drained(core.queue, Seq::empty(), num);
    let count = share_of(core.queue.len(), 0, num);
    assert(Seq::<T>::empty() + core.queue.take(count as int) =~= core.queue.take(count as int));
}

/// A round of `recv_all` delivers the whole queue; on an empty queue it is
/// closed if no sender lives and idle otherwise.
pub proof fn law_recv_all_takes_everything<T>(core: Core<T>)
    ensures
        core.queue.len() > 0 ==> core.recv_all() == Attempt::Ready(core.queue),
        core.queue.len() == 0 && core.senders == 0 ==> core.recv_all() == Attempt::<Seq<T>>::Closed,
        core.queue.len() == 0 && core.senders > 0 ==> core.recv_all() == Attempt::<Seq<T>>::Idle(
            core.generation,
        ),
{
    law_recv_exact_takes_the_oldest(core, target_of(core.queue.len()));
    assert(core.queue.take(core.queue.len() as int) =~= core.queue);
}

/// One step neither loses nor makes up an item: what it hands out and what
/// it leaves queued is what was queued and what it took in, in that order.
pub proof fn law_step_conserves<T>(core: Core<T>, event: Event<T>)
    ensures
        core.delivers(event) + core.step(event).queue == core.queue + Core::accepts(event),
{
    let out = core.delivers(event);
    match event {
        Event::Recv => {},
        Event::RecvExact(num) => {
            lemma_drained(core.queue, Seq::empty(), num);
            let count = share_of(core.queue.len(), 0, num);
            assert(Seq::<T>::empty() + core.queue.take(count as int) =~= core.queue.take(count as int));
        },
        Event::RecvAll => {
            let num = target_of(core.queue.len());
            lemma_drained(core.queue, Seq::empty(), num);
            let count = share_of(core.queue.len(), 0, num);
            assert(Seq::<T>::empty() + core.queue.take(count as int) =~= core.queue.take(count as int));
        },
        _ => {},
    }
    assert(out + core.step(event).queue =~= core.queue + Core::accepts(event));
}

/// No loss and no duplication: after any run of operations, in whatever
/// order the handles made them, the items handed out followed by the items
/// still queued are the items queued at the start followed by the items
/// sent, each once and in the order of sending.
pub proof fn law_run_conserves<T>(core: Core<T>, trace: Seq<Event<T>>)
    ensures
        core.received(trace) + core.run(trace).queue == core.queue + Core::sent(trace),
    decreases trace.len(),
{
    if trace.len() == 0 {
        assert(core.received(trace) + core.run(trace).queue =~= core.queue + Core::sent(trace));
    } else {
        let before = trace.drop_last();
        let event = trace.last();
        let middle = core.run(before);
        law_run_conserves(core, before);
        law_step_conserves(middle, event);
        assert(core.received(trace) + core.run(trace).queue =~= (core.received(before)
            + middle.queue) + Core::accepts(event)) by {
            assert(core.received(trace) + core.run(trace).queue =~= core.received(before) + (
            middle.delivers(event) + middle.step(event).queue));
            assert(core.received(before) + (middle.queue + Core::accepts(event)) =~= (
            core.received(before) + middle.queue) + Core::accepts(event));
        }
        assert((core.queue + Core::sent(before)) + Core::accepts(event) =~= core.queue
            + Core::sent(trace));
    }
}

/// First in, first out: on a channel that starts empty, whatever the
/// order of the calls, the receive calls hand out the items in the order in
/// which they were sent, and the item that comes out at a place is the item
/// that was sent at that place.
pub proof fn law_delivery_follows_sending<T>(core: Core<T>, trace: Seq<Event<T>>)
    requires
        core.queue.len() == 0,
    ensures
        core.received(trace).len() <= Core::<T>::sent(trace).len(),
        core.received(trace) == Core::<T>::sent(trace).take(core.received(trace).len() as int),
        forall|i: int|
            0 <= i < core.received(trace).len() ==> core.received(trace)[i] == Core::<T>::sent(
                trace,
            )[i],
{
    law_run_conserves(core, trace);
    let got = core.received(trace);
    let left = core.run(trace).queue;
    assert(core.queue + Core::sent(trace) =~= Core::sent(trace));
    assert((got + left).take(got.len() as int) =~= got);
    assert forall|i: int| 0 <= i < got.len() implies got[i] == Core::<T>::sent(trace)[i] by {
        assert((got + left)[i] == got[i]);
    }
}

/// On a channel that starts empty and ends drained, the items handed out
/// are the items sent: none is lost and none comes twice.
pub proof fn law_drained_run_delivers_all<T>(core: Core<T>, trace: Seq<Event<T>>)
    requires
        core.queue.len() == 0,
        core.run(trace).queue.len() == 0,
    ensures
        core.received(trace) == Core::<T>::sent(trace),
        core.received(trace).to_multiset() == Core::<T>::sent(trace).to_multiset(),
{
    law_run_conserves(core, trace);
    assert(core.received(trace) + core.run(trace).queue =~= core.received(trace));
    assert(core.queue + Core::sent(trace) =~= Core::sent(trace));
}

/// Sending values one by one appends them to the queue in their order and
/// leaves the number of senders as it is.
pub proof fn lemma_run_sends<T>(core: Core<T>, values: Seq<T>)
    ensures
        core.run(sends(values)).queue == core.queue + values,
        core.run(sends(values)).senders == core.senders,
    decreases values.len(),
{
    if values.len() == 0 {
        assert(core.queue + values =~= core.queue);
    } else {
        let head = values.drop_last();
        lemma_run_sends(core, head);
        assert(sends(values).drop_last() =~= sends(head));
        assert(sends(values).last() == Event::Send(values.last()));
        assert((core.queue + head).push(values.last()) =~= core.queue + values);
    }
}

/// Calls of `recv`, no more of them than items are queued, take that many
/// items from the head of the queue and change nothing else.
pub proof fn lemma_run_recvs<T>(core: Core<T>, before: Seq<Event<T>>, count: nat)
    requires
        count <= core.run(before).queue.len(),
    ensures
        core.run(before + recvs(count)).queue == core.run(before).queue.skip(count as int),
        core.run(before + recvs(count)).senders == core.run(before).senders,
        core.run(before + recvs(count)).generation == core.run(before).generation,
    decreases count,
{
    let queue = core.run(before).queue;
    if count == 0 {
        assert(before + recvs::<T>(0) =~= before);
        assert(queue.skip(0) =~= queue);
    } else {
        let fewer = (count - 1) as nat;
        lemma_run_recvs(core, before, fewer);
        let trace = before + recvs(count);
        assert(trace.drop_last() =~= before + recvs(fewer));
        assert(trace.last() == Event::<T>::Recv);
        assert(queue.skip(fewer as int).skip(1) =~= queue.skip(count as int));
    }
}

/// The order of one sender is kept: when values are sent one by one into
/// an empty channel, the calls of `recv` that follow deliver them one by
/// one in the order of sending, and the queue is empty after the last.
pub proof fn law_single_sender_order<T>(core: Core<T>, values: Seq<T>)
    requires
        core.queue.len() == 0,
    ensures
        forall|i: int|
            0 <= i < values.len() ==> (#[trigger] core.run(sends(values) + recvs(i as nat))).recv()
                == Attempt::Ready(values[i]),
        core.run(sends(values) + recvs(values.len())).queue.len() == 0,
{
    lemma_run_sends(core, values);
    assert(core.queue + values =~= values);
    assert forall|i: int| 0 <= i < values.len() implies (#[trigger] core.run(
        sends(values) + recvs(i as nat),
    )).recv() == Attempt::Ready(values[i]) by {
        lemma_run_recvs(core, sends(values), i as nat);
    }
    lemma_run_recvs(core, sends(values), values.len());
}

/// A round of `recv` delivers the oldest item and leaves the others in
/// their order. It ends closed exactly when nothing is queued and no sender
/// lives, and idle exactly when nothing is queued and one does; either way
/// the state stays as it is.
pub proof fn law_recv_takes_the_oldest<T>(core: Core<T>)
    ensures
        core.queue.len() > 0 ==> core.recv() == Attempt::Ready(core.queue[0]) && core.step(
            Event::Recv,
        ).queue == core.queue.drop_first(),
        core.recv() is Closed <==> core.is_finished(),
        core.recv() is Idle <==> core.queue.len() == 0 && core.senders > 0,
        core.queue.len() == 0 ==> core.step(Event::Recv) == core,
{
    if core.queue.len() > 0 {
        assert(core.queue.skip(1) =~= core.queue.drop_first());
    } else {
        assert(core.queue.skip(0) =~= core.queue);
    }
}

/// The close is final: once no sender lives, no call that a handle can
/// still make brings one back, queues an item or changes the generation.
pub proof fn law_close_is_final<T>(core: Core<T>, trace: Seq<Event<T>>)
    requires
        core.senders == 0,
        core.admits(trace),
    ensures
        core.run(trace).senders == 0,
        core.run(trace).generation == core.generation,
        Core::<T>::sent(trace).len() == 0,
    decreases trace.len(),
{
    if trace.len() > 0 {
        law_close_is_final(core, trace.drop_last());
    }
}

/// Closed and empty is permanent: from then on every receive call ends
/// closed, hands out nothing and leaves the state as it is.
pub proof fn law_finished_is_permanent<T>(core: Core<T>, trace: Seq<Event<T>>)
    requires
        core.is_finished(),
        core.admits(trace),
    ensures
        core.run(trace) == core,
        core.received(trace).len() == 0,
        core.recv() is Closed,
        core.recv_all() is Closed,
        forall|num: nat| num >= 1 ==> #[trigger] core.recv_exact(num) is Closed,
    decreases trace.len(),
{
    law_recv_all_takes_everything(core);
    assert forall|num: nat| num >= 1 implies #[trigger] core.recv_exact(num) is Closed by {
        law_recv_exact_takes_the_oldest(core, num);
    }
    if trace.len() > 0 {
        let before = trace.drop_last();
        let event = trace.last();
        law_finished_is_permanent(core, before);
        law_close_is_final(core, before);
        match event {
            Event::RecvExact(num) => {
                law_recv_exact_takes_the_oldest(core, num);
            },
            _ => {},
        }
        assert(core.delivers(event).len() == 0);
        assert(core.queue.skip(0) =~= core.queue);
    }
}

/// A send, a batch and the drop of the last sender each change the
/// generation: the number that a consumer read just before is outdated
/// afterwards.
pub proof fn law_changes_outdate_the_generation<T>(core: Core<T>, event: Event<T>)
    requires
        event is Send || event is SendMany || (event is DropSender && core.senders == 1),
    ensures
        core.step(event).generation != core.generation,
{
}

} // verus!
