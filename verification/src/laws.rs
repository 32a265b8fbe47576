//! What holds of the exchange over whole runs of events: the order of what
//! goes out, the reassembly of what comes in, the moves of the subscription
//! flag, and the order in which callers receive.

use crate::assembler::{AssemblerView, ReadOutcomeView};
use crate::engine::{
    ActionView,
    ControlEvent,
    EngineModel,
    EventView,
    LoopView,
    SharedView,
    WriteOutcome,
};
use crate::message::MessageView;
use crate::peripheral::{PeripheralView, RegistrationOutcome};
use vstd::prelude::*;

verus! {

/// The payloads of `msgs`, in order.
pub open spec fn payloads(msgs: Seq<MessageView>) -> Seq<Seq<u8>> {
    msgs.map_values(|m: MessageView| m.payload())
}

/// The byte runs that `actions` ask to be written, in order.
pub open spec fn written(actions: Seq<ActionView>) -> Seq<Seq<u8>>
    decreases actions.len(),
{
    if actions.len() == 0 {
        Seq::empty()
    } else {
        match actions.last() {
            ActionView::Write(bytes) => written(actions.drop_last()).push(bytes),
            _ => written(actions.drop_last()),
        }
    }
}

/// `k` rounds of a drain trigger followed by the report that the write went
/// through.
pub open spec fn drain_rounds(k: nat) -> Seq<EventView>
    decreases k,
{
    if k == 0 {
        Seq::empty()
    } else {
        drain_rounds((k - 1) as nat).push(EventView::DrainTrigger).push(
            EventView::WriteCompleted(WriteOutcome::Sent),
        )
    }
}

/// An accepted write request followed by one read for each of `chunks`.
pub open spec fn gather_events(mtu: usize, chunks: Seq<Seq<u8>>) -> Seq<EventView>
    decreases chunks.len(),
{
    if chunks.len() == 0 {
        seq![EventView::Control(ControlEvent::WriteAccepted { mtu })]
    } else {
        gather_events(mtu, chunks.drop_last()).push(
            EventView::ReadCompleted(ReadOutcomeView::Bytes(chunks.last())),
        )
    }
}

/// Whether `event` reports an accepted notify subscription.
pub open spec fn is_subscription(event: EventView) -> bool {
    event matches EventView::Control(ControlEvent::NotifySubscribed { .. })
}

/// The peripheral after `msgs` were handed over for sending, one by one.
pub open spec fn send_all(p: PeripheralView, msgs: Seq<MessageView>) -> PeripheralView
    decreases msgs.len(),
{
    if msgs.len() == 0 {
        p
    } else {
        send_all(p, msgs.drop_last()).send(msgs.last())
    }
}

/// The peripheral after a receiver took a message `k` times.
pub open spec fn receive_times(p: PeripheralView, k: nat) -> PeripheralView
    decreases k,
{
    if k == 0 {
        p
    } else {
        receive_times(p, (k - 1) as nat).receive()
    }
}

/// A run over one more event is the run so far and one step.
pub proof fn lemma_run_push(m: EngineModel, events: Seq<EventView>, event: EventView)
    ensures
        m.run(events.push(event)) == m.run(events).step(event),
        m.actions(events.push(event)) == m.actions(events).push(m.run(events).action(event)),
{
    assert(events.push(event).drop_last() =~= events);
}

/// A step keeps a well-formed exchange well-formed.
pub proof fn lemma_step_keeps_wf(m: EngineModel, event: EventView)
    requires
        m.wf(),
    ensures
        m.step(event).wf(),
{
}

/// A run keeps a well-formed exchange well-formed: after any events the
/// subscription flag stands exactly while a writer is bound.
pub proof fn lemma_run_keeps_wf(m: EngineModel, events: Seq<EventView>)
    requires
        m.wf(),
    ensures
        m.run(events).wf(),
    decreases events.len(),
{
    if events.len() > 0 {
        lemma_run_keeps_wf(m, events.drop_last());
        lemma_step_keeps_wf(m.run(events.drop_last()), events.last());
    }
}

/// Every operation of the public API keeps a well-formed peripheral
/// well-formed.
pub proof fn lemma_api_keeps_wf(p: PeripheralView)
    requires
        p.wf(),
    ensures
        forall|outcome| (#[trigger] p.start(outcome)).wf(),
        p.stop().wf(),
        forall|msg| (#[trigger] p.send(msg)).wf(),
        p.receive().wf(),
        forall|event| (#[trigger] p.step(event)).wf(),
{
    assert forall|event| (#[trigger] p.step(event)).wf() by {
        if p.running() {
            lemma_step_keeps_wf(p.exchange, event);
        }
    }
}

/// Outbound order. With a writer bound, `k` messages waiting and every
/// write going through, `k` drain triggers write the payloads of the first
/// `k` messages in the order in which they were queued: one per trigger,
/// none twice, none out of turn. The rest of the queue is untouched.
pub proof fn lemma_outbound_order(m: EngineModel, k: nat)
    requires
        !m.engine.ended,
        m.engine.writer is Some,
        k <= m.shared.outbound.len(),
    ensures
        m.run(drain_rounds(k)) == (EngineModel {
            shared: SharedView { outbound: m.shared.outbound.skip(k as int), ..m.shared },
            ..m
        }),
        m.actions(drain_rounds(k)).len() == 2 * k,
        forall|i: int|
            0 <= i < k ==> #[trigger] m.actions(drain_rounds(k))[2 * i] == ActionView::Write(
                m.shared.outbound[i].payload(),
            ),
        forall|i: int| 0 <= i < k ==> #[trigger] m.actions(drain_rounds(k))[2 * i + 1] == ActionView::Idle,
        written(m.actions(drain_rounds(k))) == payloads(m.shared.outbound.take(k as int)),
    decreases k,
{
    let queue = m.shared.outbound;
    if k == 0 {
        assert(queue.skip(0) =~= queue);
        assert(payloads(queue.take(0)) =~= Seq::<Seq<u8>>::empty());
    } else {
        let j = (k - 1) as nat;
        lemma_outbound_order(m, j);
        let before = drain_rounds(j);
        let drained = before.push(EventView::DrainTrigger);
        let sent = EventView::WriteCompleted(WriteOutcome::Sent);
        lemma_run_push(m, before, EventView::DrainTrigger);
        lemma_run_push(m, drained, sent);
        let s0 = m.run(before);
        assert(s0.can_drain());
        assert(queue.skip(j as int).first() == queue[j as int]);
        assert(queue.skip(j as int).drop_first() =~= queue.skip(k as int));
        let a0 = m.actions(before);
        let a1 = a0.push(ActionView::Write(queue[j as int].payload()));
        let a2 = a1.push(ActionView::Idle);
        assert(m.actions(drained) == a1);
        assert(m.actions(drain_rounds(k)) == a2);
        assert(a2.drop_last() =~= a1);
        assert(a1.drop_last() =~= a0);
        assert(written(a1) == written(a0).push(queue[j as int].payload()));
        assert(written(a2) == written(a1));
        assert(payloads(queue.take(k as int)) =~= payloads(queue.take(j as int)).push(
            queue[j as int].payload(),
        ));
        assert forall|i: int| 0 <= i < k implies #[trigger] a2[2 * i] == ActionView::Write(
            queue[i].payload(),
        ) by {
            if i < j {
                assert(a2[2 * i] == a0[2 * i]);
            }
        }
        assert forall|i: int| 0 <= i < k implies #[trigger] a2[2 * i + 1] == ActionView::Idle by {
            if i < j {
                assert(a2[2 * i + 1] == a0[2 * i + 1]);
            }
        }
    }
}

/// Whatever happens, and in whatever order, the writes that the engine asks
/// for are the payloads of a prefix of the outbound queue, in queue order,
/// and the queue that remains is what follows that prefix: nothing is
/// written twice and nothing overtakes.
pub proof fn lemma_writes_follow_queue(m: EngineModel, events: Seq<EventView>)
    ensures
        written(m.actions(events)).len() <= m.shared.outbound.len(),
        written(m.actions(events)) == payloads(
            m.shared.outbound.take(written(m.actions(events)).len() as int),
        ),
        m.run(events).shared.outbound == m.shared.outbound.skip(
            written(m.actions(events)).len() as int,
        ),
    decreases events.len(),
{
    let queue = m.shared.outbound;
    if events.len() == 0 {
        assert(queue.skip(0) =~= queue);
        assert(payloads(queue.take(0)) =~= Seq::<Seq<u8>>::empty());
    } else {
        let before = events.drop_last();
        lemma_writes_follow_queue(m, before);
        let s0 = m.run(before);
        let a0 = m.actions(before);
        let n = written(a0).len() as int;
        let act = s0.action(events.last());
        let a1 = a0.push(act);
        assert(a1.drop_last() =~= a0);
        if act is Write {
            assert(s0.can_drain());
            assert(queue.skip(n).first() == queue[n]);
            assert(queue.skip(n).drop_first() =~= queue.skip(n + 1));
            assert(payloads(queue.take(n + 1)) =~= payloads(queue.take(n)).push(
                queue[n].payload(),
            ));
        }
    }
}

/// A write request that is accepted, followed by reads that yield `chunks`,
/// leaves exactly the concatenation of the chunks gathered, and nothing else
/// changed.
pub proof fn lemma_gathering(m: EngineModel, mtu: usize, chunks: Seq<Seq<u8>>)
    requires
        !m.engine.ended,
        forall|i: int| 0 <= i < chunks.len() ==> (#[trigger] chunks[i]).len() > 0,
    ensures
        m.run(gather_events(mtu, chunks)) == (EngineModel {
            engine: LoopView {
                reader: AssemblerView { bound: true, mtu, gathered: chunks.flatten() },
                ..m.engine
            },
            ..m
        }),
    decreases chunks.len(),
{
    if chunks.len() == 0 {
        lemma_run_push(m, Seq::empty(), EventView::Control(ControlEvent::WriteAccepted { mtu }));
        assert(gather_events(mtu, chunks) =~= Seq::<EventView>::empty().push(
            EventView::Control(ControlEvent::WriteAccepted { mtu }),
        ));
        assert(chunks.flatten() =~= Seq::<u8>::empty());
    } else {
        let before = chunks.drop_last();
        lemma_gathering(m, mtu, before);
        lemma_run_push(
            m,
            gather_events(mtu, before),
            EventView::ReadCompleted(ReadOutcomeView::Bytes(chunks.last())),
        );
        before.lemma_flatten_push(chunks.last());
        assert(before.push(chunks.last()) =~= chunks);
    }
}

/// Inbound reassembly. A write request that is accepted, reads that yield
/// the non-empty chunks `chunks`, and then a read of no bytes put exactly
/// one message at the tail of the inbound queue: the raw bytes of the
/// chunks, concatenated. The reader is unbound and nothing is carried over:
/// the next accepted write request starts from nothing.
pub proof fn lemma_inbound_reassembly(
    m: EngineModel,
    mtu: usize,
    chunks: Seq<Seq<u8>>,
    next_mtu: usize,
)
    requires
        !m.engine.ended,
        forall|i: int| 0 <= i < chunks.len() ==> (#[trigger] chunks[i]).len() > 0,
    ensures
        ({
            let events = gather_events(mtu, chunks).push(
                EventView::ReadCompleted(ReadOutcomeView::Bytes(Seq::empty())),
            );
            let after = m.run(events);
            &&& after == (EngineModel {
                engine: LoopView { reader: AssemblerView::idle(), ..m.engine },
                shared: SharedView {
                    inbound: m.shared.inbound.push(MessageView::Raw(chunks.flatten())),
                    ..m.shared
                },
            })
            &&& m.actions(events).last() == ActionView::Deliver
            &&& after.step(
                EventView::Control(ControlEvent::WriteAccepted { mtu: next_mtu }),
            ).engine.reader == AssemblerView::bind(next_mtu)
        }),
{
    lemma_gathering(m, mtu, chunks);
    lemma_run_push(
        m,
        gather_events(mtu, chunks),
        EventView::ReadCompleted(ReadOutcomeView::Bytes(Seq::empty())),
    );
}

/// Partial-read discard. A write request that is accepted, reads that yield
/// chunks, and then a read that fails produce no inbound message: what was
/// gathered is gone, the reader is unbound, and nothing else changed.
pub proof fn lemma_partial_read_discarded(m: EngineModel, mtu: usize, chunks: Seq<Seq<u8>>)
    requires
        !m.engine.ended,
        forall|i: int| 0 <= i < chunks.len() ==> (#[trigger] chunks[i]).len() > 0,
    ensures
        ({
            let events = gather_events(mtu, chunks).push(
                EventView::ReadCompleted(ReadOutcomeView::Failed),
            );
            &&& m.run(events) == (EngineModel {
                engine: LoopView { reader: AssemblerView::idle(), ..m.engine },
                ..m
            })
            &&& m.run(events).shared.inbound == m.shared.inbound
            &&& m.actions(events).last() == ActionView::DropReader
        }),
{
    lemma_gathering(m, mtu, chunks);
    lemma_run_push(
        m,
        gather_events(mtu, chunks),
        EventView::ReadCompleted(ReadOutcomeView::Failed),
    );
}

/// An exchange that is not subscribed stays so over any events among which
/// no notify subscription is accepted.
pub proof fn lemma_unsubscribed_until_notify(m: EngineModel, events: Seq<EventView>)
    requires
        !m.shared.subscribed,
        forall|i: int| 0 <= i < events.len() ==> !is_subscription(#[trigger] events[i]),
    ensures
        !m.run(events).shared.subscribed,
    decreases events.len(),
{
    if events.len() > 0 {
        lemma_unsubscribed_until_notify(m, events.drop_last());
        assert(!is_subscription(events[events.len() - 1]));
    }
}

/// A peripheral whose engine was just started is not subscribed, and stays
/// so over any events among which no notify subscription is accepted.
pub proof fn lemma_started_unsubscribed(before: PeripheralView, events: Seq<EventView>)
    requires
        !before.running(),
        forall|i: int| 0 <= i < events.len() ==> !is_subscription(#[trigger] events[i]),
    ensures
        before.start(RegistrationOutcome::Registered).running(),
        !before.start(RegistrationOutcome::Registered).subscribed(),
        !before.start(RegistrationOutcome::Registered).exchange.run(events).shared.subscribed,
{
    lemma_unsubscribed_until_notify(EngineModel::fresh(), events);
}

/// Subscription transitions. While the engine runs, an accepted notify
/// subscription makes the peripheral subscribed at once, and a failed write
/// on the notify stream makes it unsubscribed again.
pub proof fn lemma_subscription_transitions(p: PeripheralView, mtu: usize)
    requires
        p.running(),
        !p.exchange.engine.ended,
    ensures
        ({
            let notify = EventView::Control(ControlEvent::NotifySubscribed { mtu });
            let failure = EventView::WriteCompleted(WriteOutcome::Failed);
            &&& p.step(notify).subscribed()
            &&& !p.step(failure).subscribed()
            &&& !p.step(notify).step(failure).subscribed()
        }),
{
}

/// Handing messages over for sending while the engine runs appends them to
/// the outbound queue in the order of the calls and changes nothing else.
pub proof fn lemma_send_all_appends(p: PeripheralView, msgs: Seq<MessageView>)
    requires
        p.running(),
    ensures
        send_all(p, msgs) == (PeripheralView {
            exchange: EngineModel {
                shared: SharedView {
                    outbound: p.exchange.shared.outbound + msgs,
                    ..p.exchange.shared
                },
                ..p.exchange
            },
            ..p
        }),
    decreases msgs.len(),
{
    if msgs.len() == 0 {
        assert(p.exchange.shared.outbound + msgs =~= p.exchange.shared.outbound);
    } else {
        lemma_send_all_appends(p, msgs.drop_last());
        assert((p.exchange.shared.outbound + msgs.drop_last()).push(msgs.last())
            =~= p.exchange.shared.outbound + msgs);
    }
}

/// Outbound order, from the calls to the stream. Messages handed over for
/// sending while the engine runs with a writer bound and an empty queue are
/// written by as many drain triggers, each payload once, in the order of the
/// calls, and the queue is empty again afterwards.
pub proof fn lemma_sent_messages_written_in_order(p: PeripheralView, msgs: Seq<MessageView>)
    requires
        p.running(),
        !p.exchange.engine.ended,
        p.exchange.engine.writer is Some,
        p.exchange.shared.outbound.len() == 0,
    ensures
        written(send_all(p, msgs).exchange.actions(drain_rounds(msgs.len()))) == payloads(msgs),
        send_all(p, msgs).exchange.run(drain_rounds(msgs.len())).shared.outbound.len() == 0,
{
    lemma_send_all_appends(p, msgs);
    let queued = send_all(p, msgs).exchange;
    assert(queued.shared.outbound =~= msgs);
    lemma_outbound_order(queued, msgs.len());
    assert(msgs.take(msgs.len() as int) =~= msgs);
}

/// FIFO receive. With the engine running and messages waiting in the
/// inbound queue, sequential receives return them oldest first: the
/// receive that follows `k` earlier ones returns the message at position
/// `k`.
pub proof fn lemma_fifo_receive(p: PeripheralView, k: nat)
    requires
        p.running(),
        k <= p.exchange.shared.inbound.len(),
    ensures
        receive_times(p, k) == (PeripheralView {
            exchange: EngineModel {
                shared: SharedView {
                    inbound: p.exchange.shared.inbound.skip(k as int),
                    ..p.exchange.shared
                },
                ..p.exchange
            },
            ..p
        }),
        k < p.exchange.shared.inbound.len() ==> receive_times(p, k).received() == Some(
            p.exchange.shared.inbound[k as int],
        ),
        k == p.exchange.shared.inbound.len() ==> receive_times(p, k).received() is None,
    decreases k,
{
    let queue = p.exchange.shared.inbound;
    if k == 0 {
        assert(queue.skip(0) =~= queue);
    } else {
        let j = (k - 1) as nat;
        lemma_fifo_receive(p, j);
        assert(queue.skip(j as int).drop_first() =~= queue.skip(k as int));
        assert(queue.skip(j as int).first() == queue[j as int]);
    }
}

} // verus!
