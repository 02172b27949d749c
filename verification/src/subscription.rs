//! Receiving from a subscription, a group subscription or a stream: the
//! end-of-stream rule, the batch size and the batch itself.
use vstd::prelude::*;

verus! {

/// Most messages that one batch receive returns.
pub const BATCH_CAP: usize = 256;

/// The batch size for the caller's `max_count`, computed as
/// `(max_count as usize).min(BATCH_CAP).max(1)`.
pub open spec fn batch_limit_of(max_count: i32) -> usize {
    let wide = max_count as usize;
    if wide > BATCH_CAP {
        BATCH_CAP
    } else if wide < 1 {
        1
    } else {
        wide
    }
}

/// The batch size for the caller's `max_count`.
pub fn batch_limit(max_count: i32) -> (limit: usize)
    ensures
        limit == batch_limit_of(max_count),
        1 <= limit <= BATCH_CAP,
        max_count < 0 ==> limit == 256,
        max_count == 0 ==> limit == 1,
        1 <= max_count <= 256 ==> limit == max_count,
        max_count > 256 ==> limit == 256,
{
    proof {
        law_batch_limit_cases(max_count);
    }
    let wide = max_count as usize;
    if wide > BATCH_CAP {
        BATCH_CAP
    } else if wide < 1 {
        1
    } else {
        wide
    }
}

/// Law: a negative `max_count` asks for a full batch, `0` for one message,
/// and a count from `1` to `BATCH_CAP` for exactly that many at most.
pub proof fn law_batch_limit_cases(max_count: i32)
    ensures
        max_count < 0 ==> batch_limit_of(max_count) == BATCH_CAP,
        max_count == 0 ==> batch_limit_of(max_count) == 1,
        1 <= max_count <= BATCH_CAP ==> batch_limit_of(max_count) == max_count,
        max_count > BATCH_CAP ==> batch_limit_of(max_count) == BATCH_CAP,
{
    if max_count < 0 {
        assert((max_count as usize) > 256usize) by (bit_vector)
            requires
                max_count < 0i32,
        ;
    }
}

/// Whether a receiver is still open after one receive: it stays open
/// exactly while receives deliver messages.
pub open spec fn still_open(open: bool, delivered: bool) -> bool {
    open && delivered
}

/// Settles one receive on `source`, the receiver slot: a delivered message
/// is passed on; the end of the stream empties the slot, so that every later
/// receive reports it closed. A slot that was already empty delivers
/// nothing.
pub fn settle_recv<S, M>(source: &mut Option<S>, received: Option<M>) -> (delivered: Option<M>)
    ensures
        delivered == (if *old(source) is Some { received } else { None::<M> }),
        (*final(source) is Some) == still_open(*old(source) is Some, received is Some),
        *final(source) is Some ==> *final(source) == *old(source),
        *old(source) is Some && received is Some ==> delivered == received && *final(source)
            == *old(source),
        received is None ==> delivered is None && *final(source) is None,
        *old(source) is None ==> delivered is None && *final(source) is None,
{
    if source.is_none() {
        return None;
    }
    match received {
        Some(m) => Some(m),
        None => {
            *source = None;
            None
        },
    }
}

/// Whether a receiver is still open after a run of receives, each entry of
/// `deliveries` telling whether that receive delivered a message.
pub open spec fn open_after(open: bool, deliveries: Seq<bool>) -> bool
    decreases deliveries.len(),
{
    if deliveries.len() == 0 {
        open
    } else {
        open_after(still_open(open, deliveries[0]), deliveries.drop_first())
    }
}

/// Law: once a receiver has reported the end of its stream it stays
/// closed, whatever follows.
pub proof fn law_closed_receiver_stays_closed(deliveries: Seq<bool>)
    ensures
        !open_after(false, deliveries),
    decreases deliveries.len(),
{
    if deliveries.len() > 0 {
        law_closed_receiver_stays_closed(deliveries.drop_first());
    }
}

/// Return code of a single receive: `0` with a message, `1` once closed.
pub fn recv_status<M>(delivered: &Option<M>) -> (code: i32)
    ensures
        code == (if delivered is Some { 0i32 } else { 1i32 }),
{
    match delivered {
        Some(_) => 0,
        None => 1,
    }
}

/// Return code of a batch receive: `1` for an empty batch (closed), else
/// `0`.
pub fn batch_status(count: usize) -> (code: i32)
    ensures
        code == (if count == 0 { 1i32 } else { 0i32 }),
{
    if count == 0 {
        1
    } else {
        0
    }
}

/// One step of draining waiting messages into `batch` of size `limit`: a
/// message is appended and draining goes on while the batch is not full;
/// no message leaves the batch as it is and stops.
pub open spec fn drain_step<M>(batch: Seq<M>, limit: int, next: Option<M>) -> (Seq<M>, bool) {
    match next {
        Some(m) => (batch.push(m), batch.len() + 1 < limit),
        None => (batch, false),
    }
}

/// The batch after draining with the checks `outcomes`, one step per
/// outcome, as long as draining goes on.
pub open spec fn drained<M>(batch: Seq<M>, limit: int, outcomes: Seq<Option<M>>) -> Seq<M>
    decreases outcomes.len(),
{
    if outcomes.len() == 0 || batch.len() >= limit {
        batch
    } else {
        let (next_batch, more) = drain_step(batch, limit, outcomes[0]);
        if more {
            drained(next_batch, limit, outcomes.drop_first())
        } else {
            next_batch
        }
    }
}

/// The outcomes of checking a source that holds `waiting` messages: each
/// of them, then nothing.
pub open spec fn waiting_outcomes<M>(waiting: Seq<M>) -> Seq<Option<M>> {
    Seq::new(waiting.len(), |i: int| Some(waiting[i])).push(None)
}

proof fn lemma_drain_waiting<M>(batch: Seq<M>, limit: int, waiting: Seq<M>)
    requires
        1 <= batch.len() <= limit,
    ensures
        drained(batch, limit, waiting_outcomes(waiting)) == batch + waiting.take(
            if limit - batch.len() < waiting.len() { limit - batch.len() } else { waiting.len() as int },
        ),
    decreases waiting.len(),
{
    let outcomes = waiting_outcomes(waiting);
    if batch.len() >= limit {
        assert(batch + waiting.take(0) =~= batch);
    } else if waiting.len() == 0 {
        assert(outcomes[0] is None);
        assert(batch + waiting.take(0) =~= batch);
    } else {
        assert(outcomes[0] == Some(waiting[0]));
        let rest = waiting.drop_first();
        assert(outcomes.drop_first() =~= waiting_outcomes(rest));
        let next_batch = batch.push(waiting[0]);
        if batch.len() + 1 < limit {
            lemma_drain_waiting(next_batch, limit, rest);
            let n = if limit - next_batch.len() < rest.len() { limit - next_batch.len() } else { rest.len() as int };
            assert(next_batch + rest.take(n) =~= batch + waiting.take(n + 1));
        } else {
            assert(next_batch =~= batch + waiting.take(1));
        }
    }
}

/// Law: a batch started with `first` and drained from a source holding
/// `waiting` messages is `first` followed by the waiting messages in
/// order, as many as fit: `min(limit, 1 + waiting.len())` messages in all.
/// The messages past that stay with the source.
pub proof fn law_batch_is_first_then_waiting<M>(first: M, limit: int, waiting: Seq<M>)
    requires
        limit >= 1,
    ensures
        drained(seq![first], limit, waiting_outcomes(waiting)) == seq![first] + waiting.take(
            if limit - 1 < waiting.len() { limit - 1 } else { waiting.len() as int },
        ),
        drained(seq![first], limit, waiting_outcomes(waiting)).len() == if limit < 1 + waiting.len() {
            limit
        } else {
            1 + waiting.len() as int
        },
{
    lemma_drain_waiting(seq![first], limit, waiting);
}

/// The messages of one batch: the message that the blocking receive
/// delivered, followed by those that were already waiting, up to the limit.
pub struct BatchCollector<M> {
    messages: Vec<M>,
    limit: usize,
}

impl<M> View for BatchCollector<M> {
    type V = Seq<M>;

    closed spec fn view(&self) -> Seq<M> {
        self.messages@
    }
}

impl<M> BatchCollector<M> {
    /// The batch size.
    pub closed spec fn limit(&self) -> usize {
        self.limit
    }

    /// A batch is never empty and never over its limit.
    pub closed spec fn wf(&self) -> bool {
        1 <= self.messages@.len() <= self.limit
    }

    /// Starts a batch with the first message.
    pub fn start(first: M, limit: usize) -> (batch: Self)
        requires
            limit >= 1,
        ensures
            batch.wf(),
            batch@ == seq![first],
            batch.limit() == limit,
    {
        let mut messages = Vec::new();
        messages.push(first);
        BatchCollector { messages, limit }
    }

    /// Whether the batch takes another message.
    pub fn wants_more(&self) -> (more: bool)
        requires
            self.wf(),
        ensures
            more == (self@.len() < self.limit()),
    {
        self.messages.len() < self.limit
    }

    /// Appends a waiting message.
    pub fn push(&mut self, message: M)
        requires
            old(self).wf(),
            old(self)@.len() < old(self).limit(),
        ensures
            final(self).wf(),
            final(self)@ == old(self)@.push(message),
            final(self).limit() == old(self).limit(),
    {
        self.messages.push(message);
    }

    /// Takes the outcome of one check for a waiting message: a waiting
    /// message joins the batch, and the answer says whether to check again
    /// (the batch is not full yet); no waiting message ends the batch.
    pub fn take_waiting(&mut self, next: Option<M>) -> (more: bool)
        requires
            old(self).wf(),
            old(self)@.len() < old(self).limit(),
        ensures
            final(self).wf(),
            final(self).limit() == old(self).limit(),
            (final(self)@, more) == drain_step(old(self)@, old(self).limit() as int, next),
            next is None ==> !more && final(self)@ == old(self)@,
            next is Some ==> final(self)@ == old(self)@.push(next->0),
            next is Some ==> more == (final(self)@.len() < final(self).limit()),
    {
        match next {
            Some(m) => {
                self.messages.push(m);
                self.messages.len() < self.limit
            },
            None => false,
        }
    }

    /// The messages, in the order they arrived.
    pub fn into_messages(self) -> (messages: Vec<M>)
        requires
            self.wf(),
        ensures
            messages@ == self@,
            1 <= messages@.len() <= self.limit(),
    {
        self.messages
    }
}

/// Keeps the receive module linked for the C ABI; does nothing.
pub fn _ensure_link(_h: isize) {
}

} // verus!

verus! {

/// The stream to publish on: the one in `slot`, or none once the slot was
/// emptied by the end of the stream (publishing then fails as not
/// connected).
pub fn publish_target<S>(slot: &Option<S>) -> (target: Option<&S>)
    ensures
        target is None <==> slot is None,
        target matches Some(s) ==> *slot == Some(*s),
{
    match slot {
        Some(s) => Some(s),
        None => None,
    }
}

/// Law: once any receive on a stream has reported the end of the stream,
/// its slot stays empty, so every later publish on it is refused.
pub proof fn law_ended_stream_refuses_publish(deliveries: Seq<bool>, ended_at: int)
    requires
        0 <= ended_at < deliveries.len(),
        !deliveries[ended_at],
    ensures
        !open_after(true, deliveries),
    decreases deliveries.len(),
{
    if ended_at == 0 {
        law_closed_receiver_stays_closed(deliveries.drop_first());
    } else if deliveries[0] {
        assert(deliveries.drop_first()[ended_at - 1] == deliveries[ended_at]);
        law_ended_stream_refuses_publish(deliveries.drop_first(), ended_at - 1);
    } else {
        law_closed_receiver_stays_closed(deliveries.drop_first());
    }
}

} // verus!
