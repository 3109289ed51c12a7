use vstd::prelude::*;

verus! {

/// Routes events to the program's callback. The callback may itself cause
/// new events; those arrive while it is in use and wait in an overflow
/// queue until it returns, then reach it in the order they were sent.
pub struct EventReceiver<E> {
    callback_in_use: bool,
    overflow_events: Vec<E>,
}

/// What a receiver holds: whether the callback is running, and the events
/// waiting for it, oldest first.
pub struct ReceiverState<E> {
    pub in_use: bool,
    pub pending: Seq<E>,
}

/// A send: to an idle callback the event is handed at once and the
/// callback is in use; to a running one the event joins the end of the
/// queue.
pub open spec fn after_send<E>(s: ReceiverState<E>, event: E) -> (ReceiverState<E>, Option<E>) {
    if !s.in_use {
        (ReceiverState { in_use: true, pending: s.pending }, Some(event))
    } else {
        (ReceiverState { in_use: true, pending: s.pending.push(event) }, None)
    }
}

/// After a callback call returns: the oldest waiting event is handed out
/// next; when nothing waits, the callback is idle again.
pub open spec fn after_return<E>(s: ReceiverState<E>) -> (ReceiverState<E>, Option<E>) {
    if s.pending.len() > 0 {
        (ReceiverState { in_use: s.in_use, pending: s.pending.drop_first() }, Some(s.pending[0]))
    } else {
        (ReceiverState { in_use: false, pending: s.pending }, None)
    }
}

impl<E> View for EventReceiver<E> {
    type V = ReceiverState<E>;

    closed spec fn view(&self) -> ReceiverState<E> {
        ReceiverState { in_use: self.callback_in_use, pending: self.overflow_events@ }
    }
}

impl<E> EventReceiver<E> {
    /// A receiver whose callback is idle, with nothing waiting.
    pub fn new() -> (r: EventReceiver<E>)
        ensures
            !r@.in_use,
            r@.pending == Seq::<E>::empty(),
    {
        EventReceiver { callback_in_use: false, overflow_events: Vec::new() }
    }

    /// Sends an event. When the callback is idle it is now in use and the
    /// event is returned, to be handed to it at once; afterwards
    /// `next_overflow_event` must be called after each callback call until
    /// it returns `None`. When the callback is in use the event waits at the
    /// end of the overflow queue.
    pub fn send_event(&mut self, event: E) -> (deliver: Option<E>)
        ensures
            (final(self)@, deliver) == after_send(old(self)@, event),
    {
        if !self.callback_in_use {
            self.callback_in_use = true;
            Some(event)
        } else {
            self.overflow_events.push(event);
            None
        }
    }

    /// After the callback returns: the next waiting event to hand to it,
    /// the oldest first; `None` when nothing waits, and then the callback is
    /// idle again.
    pub fn next_overflow_event(&mut self) -> (next: Option<E>)
        ensures
            (final(self)@, next) == after_return(old(self)@),
    {
        if self.overflow_events.len() > 0 {
            let e = self.overflow_events.remove(0);
            assert(self.overflow_events@ =~= old(self).overflow_events@.drop_first());
            Some(e)
        } else {
            self.callback_in_use = false;
            None
        }
    }
}

/// The state after sending each event of `events` in turn, ignoring what
/// the sends return.
pub open spec fn send_all<E>(s: ReceiverState<E>, events: Seq<E>) -> ReceiverState<E>
    decreases events.len(),
{
    if events.len() == 0 {
        s
    } else {
        send_all(after_send(s, events[0]).0, events.drop_first())
    }
}

/// The batches of events, one after another.
pub open spec fn concat<E>(batches: Seq<Seq<E>>) -> Seq<E>
    decreases batches.len(),
{
    if batches.len() == 0 {
        seq![]
    } else {
        batches[0] + concat(batches.drop_first())
    }
}

/// A callback call is running and the `k`-th call sends `batches[k]`; each
/// time a call returns the next waiting event is handed out. The final state
/// and the events handed out, in order.
pub open spec fn run_callbacks<E>(s: ReceiverState<E>, batches: Seq<Seq<E>>) -> (
    ReceiverState<E>,
    Seq<E>,
)
    decreases batches.len(),
{
    if batches.len() == 0 {
        (s, seq![])
    } else {
        let (s2, next) = after_return(send_all(s, batches[0]));
        match next {
            None => (s2, seq![]),
            Some(e) => {
                let (s3, rest) = run_callbacks(s2, batches.drop_first());
                (s3, seq![e] + rest)
            },
        }
    }
}

/// Sending `first` from outside the callback, then handing out waiting
/// events until none is left, while the callback call for the `k`-th event
/// handed out sends `batches[k]`. The final state and every event the
/// callback receives, in order.
pub open spec fn deliver_from<E>(s: ReceiverState<E>, first: E, batches: Seq<Seq<E>>) -> (
    ReceiverState<E>,
    Seq<E>,
) {
    let (s1, d) = after_send(s, first);
    match d {
        None => (s1, seq![]),
        Some(e) => {
            let (s2, rest) = run_callbacks(s1, batches);
            (s2, seq![e] + rest)
        },
    }
}

proof fn lemma_send_all<E>(s: ReceiverState<E>, events: Seq<E>)
    requires
        s.in_use,
    ensures
        send_all(s, events) == (ReceiverState { in_use: true, pending: s.pending + events }),
    decreases events.len(),
{
    if events.len() == 0 {
        assert(s.pending + events =~= s.pending);
    } else {
        let s1 = after_send(s, events[0]).0;
        lemma_send_all(s1, events.drop_first());
        assert(s.pending.push(events[0]) + events.drop_first() =~= s.pending + events);
    }
}

proof fn lemma_concat_split<E>(batches: Seq<Seq<E>>, k: int)
    requires
        0 < k <= batches.len(),
    ensures
        concat(batches.take(k)) == batches[0] + concat(batches.drop_first().take(k - 1)),
{
    assert(batches.take(k)[0] == batches[0]);
    assert(batches.take(k).drop_first() =~= batches.drop_first().take(k - 1));
}

/// Whether, with `queued` events waiting while the first call runs, the
/// calls that `batches` describes all take place and hand out exactly the
/// events sent: before the `k`-th call ends at least `k` further events
/// were sent or waiting, and there is one call per event.
pub open spec fn schedule_fits<E>(queued: nat, batches: Seq<Seq<E>>) -> bool {
    &&& forall|k: int| 0 < k < batches.len() ==> queued + #[trigger] concat(batches.take(k)).len() >= k
    &&& queued + concat(batches).len() + 1 == batches.len()
}

proof fn lemma_run_callbacks<E>(s: ReceiverState<E>, batches: Seq<Seq<E>>)
    requires
        s.in_use,
        schedule_fits(s.pending.len(), batches),
    ensures
        run_callbacks(s, batches) == (
        ReceiverState { in_use: false, pending: Seq::<E>::empty() },
        s.pending + concat(batches),
        ),
    decreases batches.len(),
{
    let b0 = batches[0];
    lemma_send_all(s, b0);
    let p = s.pending + b0;
    let rest = batches.drop_first();
    assert(concat(batches) == b0 + concat(rest));
    if p.len() == 0 {
        if batches.len() > 1 {
            lemma_concat_split(batches, 1);
            assert(rest.take(0) =~= Seq::<Seq<E>>::empty());
            assert(concat(batches.take(1)).len() == b0.len());
        }
        assert(concat(rest).len() == 0);
        assert(s.pending + concat(batches) =~= Seq::<E>::empty());
    } else {
        let q = p.drop_first();
        let s2 = ReceiverState { in_use: true, pending: q };
        assert(batches.len() >= 2);
        assert forall|k: int| 0 < k < rest.len() implies q.len() + #[trigger] concat(rest.take(k)).len()
            >= k by {
            lemma_concat_split(batches, k + 1);
            assert(s.pending.len() + concat(batches.take(k + 1)).len() >= k + 1);
        }
        lemma_run_callbacks(s2, rest);
        assert(seq![p[0]] + (q + concat(rest)) =~= s.pending + concat(batches));
    }
}

/// Delivery of an event from outside the callback: starting from an idle
/// receiver with nothing waiting, the callback receives the event first,
/// then every event sent while it runs, each exactly once and in the order
/// they were sent; afterwards the callback is idle and nothing waits.
/// `batches[k]` are the events sent during the `k`-th callback call, and
/// the schedule describes every call that takes place.
pub proof fn law_delivery_in_send_order<E>(first: E, batches: Seq<Seq<E>>)
    requires
        schedule_fits(0, batches),
    ensures
        deliver_from(ReceiverState { in_use: false, pending: Seq::<E>::empty() }, first, batches) == (
        ReceiverState { in_use: false, pending: Seq::<E>::empty() },
        seq![first] + concat(batches),
        ),
{
    let s1 = ReceiverState { in_use: true, pending: Seq::<E>::empty() };
    lemma_run_callbacks(s1, batches);
    assert(Seq::<E>::empty() + concat(batches) =~= concat(batches));
}

/// An idle callback never leaves events waiting: if nothing waits while the
/// callback is idle, the same holds after a send or after a call returns.
pub proof fn law_idle_means_empty<E>(s: ReceiverState<E>, event: E)
    requires
        !s.in_use ==> s.pending.len() == 0,
    ensures
        !after_send(s, event).0.in_use ==> after_send(s, event).0.pending.len() == 0,
        !after_return(s).0.in_use ==> after_return(s).0.pending.len() == 0,
{
}

} // verus!
