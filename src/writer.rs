//! The buffered background writer.
//!
//! Producers hold a [`WriterHandle`] and enqueue messages on a bounded
//! channel without ever blocking; one [`Worker`] takes them in channel order,
//! appends data to its [`Buffer`] and decides when the buffered bytes go to
//! the output stream. The [`LifetimeGuard`] sends the final `Shutdown`.
use vstd::prelude::*;

use std::sync::mpsc::{Receiver, SyncSender, TryRecvError};

verus! {

/// What a producer hands to the worker.
pub enum Message {
    Data(Vec<u8>),
    Flush,
    Shutdown,
}

/// A message as a mathematical value.
pub enum Msg {
    Data(Seq<u8>),
    Flush,
    Shutdown,
}

impl View for Message {
    type V = Msg;

    open spec fn view(&self) -> Msg {
        match self {
            Message::Data(b) => Msg::Data(b@),
            Message::Flush => Msg::Flush,
            Message::Shutdown => Msg::Shutdown,
        }
    }
}

/// What wakes the worker.
pub enum WorkerEvent {
    /// A message came off the channel.
    Received(Message),
    /// The flush interval passed.
    Tick,
    /// Every sending end is gone.
    Disconnected,
}

/// A worker event as a mathematical value.
pub enum EventView {
    Received(Msg),
    Tick,
    Disconnected,
}

impl View for WorkerEvent {
    type V = EventView;

    open spec fn view(&self) -> EventView {
        match self {
            WorkerEvent::Received(m) => EventView::Received(m@),
            WorkerEvent::Tick => EventView::Tick,
            WorkerEvent::Disconnected => EventView::Disconnected,
        }
    }
}

/// The channel is full, or the worker is gone.
#[derive(Clone, Copy, Debug, PartialEq, Eq, Structural)]
pub struct Closed;

/// The state of a worker, as mathematical values.
pub struct WorkerModel {
    pub buffer: Seq<u8>,
    pub capacity: nat,
    pub finished: bool,
}

/// A fresh worker whose buffer flushes at `capacity` bytes.
pub open spec fn initial(capacity: nat) -> WorkerModel {
    WorkerModel { buffer: seq![], capacity, finished: false }
}

/// One event handled: the next state, and the bytes that go to the output
/// stream. Data is appended and the whole buffer goes out once it holds
/// `capacity` bytes or more; a flush request or a tick empties the buffer;
/// `Shutdown` or a closed channel empties it and ends the worker. A finished
/// worker takes nothing more.
pub open spec fn next(w: WorkerModel, ev: EventView) -> (WorkerModel, Seq<u8>) {
    if w.finished {
        (w, seq![])
    } else {
        match ev {
            EventView::Received(Msg::Data(b)) => {
                let joined = w.buffer + b;
                if joined.len() >= w.capacity {
                    (WorkerModel { buffer: seq![], ..w }, joined)
                } else {
                    (WorkerModel { buffer: joined, ..w }, seq![])
                }
            },
            EventView::Received(Msg::Flush) | EventView::Tick => (
                WorkerModel { buffer: seq![], ..w },
                w.buffer,
            ),
            EventView::Received(Msg::Shutdown) | EventView::Disconnected => (
                WorkerModel { buffer: seq![], finished: true, ..w },
                w.buffer,
            ),
        }
    }
}

/// A run of events handled in order: the final state and all output.
pub open spec fn run(w: WorkerModel, evs: Seq<EventView>) -> (WorkerModel, Seq<u8>)
    decreases evs.len(),
{
    if evs.len() == 0 {
        (w, seq![])
    } else {
        let (w1, out1) = run(w, evs.drop_last());
        let (w2, out2) = next(w1, evs.last());
        (w2, out1 + out2)
    }
}

/// The data bytes of a run of messages, concatenated in order.
pub open spec fn data_of(msgs: Seq<Msg>) -> Seq<u8>
    decreases msgs.len(),
{
    if msgs.len() == 0 {
        seq![]
    } else {
        data_of(msgs.drop_last()) + match msgs.last() {
            Msg::Data(b) => b,
            _ => seq![],
        }
    }
}

/// The messages among a run of events.
pub open spec fn messages_of(evs: Seq<EventView>) -> Seq<Msg>
    decreases evs.len(),
{
    if evs.len() == 0 {
        seq![]
    } else {
        messages_of(evs.drop_last()) + match evs.last() {
            EventView::Received(m) => seq![m],
            _ => seq![],
        }
    }
}

/// The event ends the worker.
pub open spec fn is_final(ev: EventView) -> bool {
    ev == EventView::Received(Msg::Shutdown) || ev == EventView::Disconnected
}

/// An append buffer that flushes once it holds `capacity` bytes.
pub struct Buffer {
    data: Vec<u8>,
    capacity: usize,
}

impl Buffer {
    /// The bytes held.
    pub closed spec fn contents(&self) -> Seq<u8> {
        self.data@
    }

    /// The flush threshold.
    pub closed spec fn threshold(&self) -> nat {
        self.capacity as nat
    }

    /// An empty buffer with the given threshold.
    pub fn new(capacity: usize) -> (r: Self)
        ensures
            r.contents() == Seq::<u8>::empty(),
            r.threshold() == capacity,
    {
        Buffer { data: Vec::new(), capacity }
    }

    /// Takes all bytes held, leaving the buffer empty; nothing where it was
    /// empty already.
    pub fn flush(&mut self) -> (out: Vec<u8>)
        ensures
            out@ == old(self).contents(),
            final(self).contents() == Seq::<u8>::empty(),
            final(self).threshold() == old(self).threshold(),
    {
        let mut out: Vec<u8> = Vec::new();
        std::mem::swap(&mut out, &mut self.data);
        out
    }

    /// Appends `bytes`, then takes everything held where that reaches the
    /// threshold.
    pub fn push(&mut self, bytes: Vec<u8>) -> (out: Vec<u8>)
        ensures
            final(self).threshold() == old(self).threshold(),
            (old(self).contents() + bytes@).len() >= old(self).threshold() ==> out@ == old(
                self,
            ).contents() + bytes@ && final(self).contents() == Seq::<u8>::empty(),
            (old(self).contents() + bytes@).len() < old(self).threshold() ==> out@
                == Seq::<u8>::empty() && final(self).contents() == old(self).contents() + bytes@,
    {
        let mut bytes = bytes;
        self.data.append(&mut bytes);
        if self.data.len() >= self.capacity {
            self.flush()
        } else {
            Vec::new()
        }
    }
}

/// The single consumer of the channel: owns the buffer and decides what is
/// written to the output stream.
pub struct Worker {
    buffer: Buffer,
    finished: bool,
    received: Ghost<Seq<Msg>>,
    written: Ghost<Seq<u8>>,
}

impl Worker {
    /// The worker as mathematical values.
    pub closed spec fn model(&self) -> WorkerModel {
        WorkerModel {
            buffer: self.buffer.contents(),
            capacity: self.buffer.threshold(),
            finished: self.finished,
        }
    }

    /// The messages taken so far, in order.
    pub closed spec fn received(&self) -> Seq<Msg> {
        self.received@
    }

    /// All bytes handed out for writing so far, in order.
    pub closed spec fn written(&self) -> Seq<u8> {
        self.written@
    }

    /// What was written and what is still buffered are together exactly the
    /// data received, in order; a finished worker holds nothing.
    pub open spec fn wf(&self) -> bool {
        &&& self.written() + self.model().buffer == data_of(self.received())
        &&& self.model().finished ==> self.model().buffer.len() == 0
    }

    #[verifier::type_invariant]
    spec fn always_wf(self) -> bool {
        self.wf()
    }

    /// A worker whose buffer flushes at `capacity` bytes.
    pub fn new(capacity: usize) -> (r: Self)
        ensures
            r.wf(),
            r.model() == initial(capacity as nat),
            r.received() == Seq::<Msg>::empty(),
            r.written() == Seq::<u8>::empty(),
    {
        let r = Worker {
            buffer: Buffer::new(capacity),
            finished: false,
            received: Ghost(Seq::empty()),
            written: Ghost(Seq::empty()),
        };
        assert(r.written() + r.model().buffer =~= data_of(r.received()));
        r
    }

    /// The worker has ended.
    pub fn is_finished(&self) -> (r: bool)
        ensures
            r == self.model().finished,
    {
        self.finished
    }

    /// Handles one event and returns the bytes to write to the output stream.
    pub fn handle(&mut self, ev: WorkerEvent) -> (out: Vec<u8>)
        ensures
            final(self).wf(),
            (final(self).model(), out@) == next(old(self).model(), ev@),
            final(self).received() == old(self).received() + match ev@ {
                EventView::Received(m) => if old(self).model().finished {
                    seq![]
                } else {
                    seq![m]
                },
                _ => seq![],
            },
            final(self).written() == old(self).written() + out@,
    {
        proof {
            use_type_invariant(&*self);
        }
        if self.finished {
            return Vec::new();
        }
        let ghost msg_seq: Seq<Msg> = match ev@ {
            EventView::Received(m) => seq![m],
            _ => seq![],
        };
        let mut current = Worker::new(0);
        std::mem::swap(self, &mut current);
        proof {
            use_type_invariant(&current);
        }
        let Worker { mut buffer, finished: _, received, written } = current;
        let mut finished = false;
        let out = match ev {
            WorkerEvent::Received(Message::Data(bytes)) => buffer.push(bytes),
            WorkerEvent::Received(Message::Flush) | WorkerEvent::Tick => buffer.flush(),
            WorkerEvent::Received(Message::Shutdown) | WorkerEvent::Disconnected => {
                finished = true;
                buffer.flush()
            },
        };
        let ghost all = received@ + msg_seq;
        proof {
            if msg_seq.len() > 0 {
                assert(all.drop_last() =~= received@);
                assert(all.last() == msg_seq[0]);
            } else {
                assert(all =~= received@);
            }
            assert(written@ + out@ + buffer.contents() =~= data_of(all));
        }
        *self = Worker { buffer, finished, received: Ghost(all), written: Ghost(written@ + out@) };
        out
    }

    /// Handles one result of a non-blocking receive: a message or a closed
    /// channel is handled as an event; an empty channel changes nothing.
    /// Returns the bytes to write, and whether to stop receiving: the
    /// channel was empty or closed, or the worker has ended.
    pub fn on_receive(&mut self, got: Result<Message, Idle>) -> (r: (Vec<u8>, bool))
        ensures
            final(self).wf(),
            final(self).written() == old(self).written() + r.0@,
            match event_of(got) {
                Some(ev) => {
                    &&& (final(self).model(), r.0@) == next(old(self).model(), ev)
                    &&& final(self).received() == old(self).received() + if old(
                        self,
                    ).model().finished {
                        Seq::<Msg>::empty()
                    } else {
                        messages_of(seq![ev])
                    }
                    &&& r.1 == (got is Err || final(self).model().finished)
                },
                None => {
                    &&& final(self).model() == old(self).model()
                    &&& final(self).received() == old(self).received()
                    &&& r.0@.len() == 0
                    &&& r.1
                },
            },
    {
        proof {
            use_type_invariant(&*self);
        }
        let ghost e = event_of(got);
        let ev = match got {
            Ok(msg) => WorkerEvent::Received(msg),
            Err(Idle::Disconnected) => WorkerEvent::Disconnected,
            Err(Idle::Empty) => {
                assert(self.written() + Seq::<u8>::empty() =~= self.written());
                return (Vec::new(), true);
            },
        };
        let stop = match ev {
            WorkerEvent::Disconnected => true,
            _ => false,
        };
        assert(ev@ == e->0);
        let out = self.handle(ev);
        proof {
            lemma_messages_of_one(e->0);
        }
        (out, stop || self.finished)
    }

    /// Handles up to `limit` messages that are already waiting, without
    /// blocking, and returns the bytes to write. Stops early when the
    /// channel is empty or the worker ends. The effect is that of handling,
    /// in order, the events that were taken, at most `limit` of them: none
    /// where the worker had ended or `limit` is 0.
    pub fn drain(&mut self, rx: &Receiver<Message>, limit: usize) -> (out: Vec<u8>)
        ensures
            final(self).wf(),
            final(self).written() == old(self).written() + out@,
            exists|evs: Seq<EventView>|
                {
                    &&& evs.len() <= limit
                    &&& (old(self).model().finished ==> evs.len() == 0)
                    &&& (final(self).model(), out@) == #[trigger] run(old(self).model(), evs)
                    &&& final(self).received() == old(self).received() + messages_of(evs)
                },
    {
        let mut out: Vec<u8> = Vec::new();
        let mut n: usize = 0;
        let ghost start = self.written();
        let ghost mut evs: Seq<EventView> = Seq::empty();
        proof {
            use_type_invariant(&*self);
            assert(self.received() + messages_of(evs) =~= self.received());
        }
        while n < limit && !self.finished
            invariant
                self.wf(),
                self.written() == start + out@,
                evs.len() <= n <= limit,
                old(self).model().finished ==> evs.len() == 0,
                (self.model(), out@) == run(old(self).model(), evs),
                self.received() == old(self).received() + messages_of(evs),
            decreases limit - n,
        {
            let got = receive_now(rx);
            let ghost e = event_of(got);
            let ghost before = self.received();
            let ghost before_model = self.model();
            let ghost before_out = out@;
            let (mut more, stop) = self.on_receive(got);
            let ghost step = more@;
            out.append(&mut more);
            proof {
                if e is Some {
                    let evs2 = evs.push(e->0);
                    assert(evs2.drop_last() =~= evs);
                    assert(evs2.last() == e->0);
                    assert(out@ =~= before_out + step);
                    lemma_messages_of_one(e->0);
                    assert(messages_of(evs2) =~= messages_of(evs) + messages_of(seq![e->0]));
                    assert(self.received() =~= old(self).received() + messages_of(evs2));
                    evs = evs2;
                } else {
                    assert(out@ =~= before_out);
                }
            }
            n = n + 1;
            if stop {
                break;
            }
        }
        out
    }
}

/// The messages of a single event.
pub proof fn lemma_messages_of_one(ev: EventView)
    ensures
        messages_of(seq![ev]) == match ev {
            EventView::Received(m) => seq![m],
            _ => Seq::<Msg>::empty(),
        },
{
    let one = seq![ev];
    assert(one.drop_last() =~= Seq::<EventView>::empty());
    assert(messages_of(one.drop_last()) == Seq::<Msg>::empty());
    assert(one.last() == ev);
    if let EventView::Received(m) = ev {
        assert(messages_of(one) =~= seq![m]);
    } else {
        assert(messages_of(one) =~= Seq::<Msg>::empty());
    }
}

/// The event that a receive result stands for; none where the channel was
/// empty.
pub open spec fn event_of(got: Result<Message, Idle>) -> Option<EventView> {
    match got {
        Ok(m) => Some(EventView::Received(m@)),
        Err(Idle::Disconnected) => Some(EventView::Disconnected),
        Err(Idle::Empty) => None,
    }
}

/// Why nothing could be taken from the channel.
pub enum Idle {
    Empty,
    Disconnected,
}

/// Relies on `Receiver::try_recv`: a waiting message, or why there is none,
/// without blocking.
#[verifier::external_body]
fn receive_now(rx: &Receiver<Message>) -> (r: Result<Message, Idle>) {
    rx.try_recv().map_err(|e| match e {
        TryRecvError::Empty => Idle::Empty,
        TryRecvError::Disconnected => Idle::Disconnected,
    })
}

#[verifier::external_type_specification]
#[verifier::external_body]
#[verifier::reject_recursive_types(T)]
pub struct ExSyncSender<T>(SyncSender<T>);

#[verifier::external_type_specification]
#[verifier::external_body]
#[verifier::reject_recursive_types(T)]
pub struct ExReceiver<T>(Receiver<T>);

/// Relies on `std::sync::mpsc::sync_channel`: a bounded channel that holds
/// up to `capacity` messages.
#[verifier::external_body]
fn bounded_channel(capacity: usize) -> (r: (SyncSender<Message>, Receiver<Message>)) {
    std::sync::mpsc::sync_channel(capacity)
}

/// Relies on `SyncSender::try_send`: queues the message without blocking,
/// or fails where the channel is full or its receiver is gone.
#[verifier::external_body]
fn send_now(tx: &SyncSender<Message>, msg: Message) -> (r: Result<(), Closed>) {
    tx.try_send(msg).map_err(|_| Closed)
}

/// Relies on `SyncSender::send`: waits for room, and fails only where the
/// receiver is gone; it never panics.
#[verifier::external_body]
fn send_waiting(tx: &SyncSender<Message>, msg: Message) -> (r: Result<(), Closed>)
    opens_invariants none
    no_unwind
{
    tx.send(msg).map_err(|_| Closed)
}

/// Relies on `SyncSender::clone`: another sending end of the same channel.
#[verifier::external_body]
fn clone_sender(tx: &SyncSender<Message>) -> (r: SyncSender<Message>) {
    tx.clone()
}

/// The producer side: cheap to clone, never blocks.
pub struct WriterHandle {
    tx: SyncSender<Message>,
    sent: Ghost<Seq<Msg>>,
}

impl WriterHandle {
    /// The messages this handle has queued, in order.
    pub closed spec fn sent(&self) -> Seq<Msg> {
        self.sent@
    }

    /// Queues `bytes` for the output stream; fails at once where the channel
    /// is full or the worker is gone.
    pub fn enqueue_data(&mut self, bytes: Vec<u8>) -> (r: Result<(), Closed>)
        ensures
            r is Ok ==> final(self).sent() == old(self).sent().push(Msg::Data(bytes@)),
            r is Err ==> final(self).sent() == old(self).sent(),
    {
        let ghost m = Msg::Data(bytes@);
        let r = send_now(&self.tx, Message::Data(bytes));
        if r.is_ok() {
            self.sent = Ghost(self.sent@.push(m));
        }
        r
    }

    /// Asks the worker to flush; fails at once where the channel is full or
    /// the worker is gone.
    pub fn enqueue_flush(&mut self) -> (r: Result<(), Closed>)
        ensures
            r is Ok ==> final(self).sent() == old(self).sent().push(Msg::Flush),
            r is Err ==> final(self).sent() == old(self).sent(),
    {
        let r = send_now(&self.tx, Message::Flush);
        if r.is_ok() {
            self.sent = Ghost(self.sent@.push(Msg::Flush));
        }
        r
    }

    /// Another handle on the same channel, with nothing sent yet.
    pub fn duplicate(&self) -> (r: Self)
        ensures
            r.sent() == Seq::<Msg>::empty(),
    {
        WriterHandle { tx: clone_sender(&self.tx), sent: Ghost(Seq::empty()) }
    }
}

impl Clone for WriterHandle {
    /// Another sending end of the same channel; the worker and its buffer
    /// are shared, not copied.
    fn clone(&self) -> Self {
        self.duplicate()
    }
}

/// Held by the top-level owner; dropping it sends `Shutdown`, so the worker
/// flushes and ends.
pub struct LifetimeGuard {
    tx: SyncSender<Message>,
}

impl Drop for LifetimeGuard {
    fn drop(&mut self)
        opens_invariants none
        no_unwind
    {
        let _ = send_waiting(&self.tx, Message::Shutdown);
    }
}

/// A pipeline's channel of `capacity` message slots: the producer handle,
/// the guard, and the receiving end for the worker.
pub fn channel(capacity: usize) -> (r: (WriterHandle, LifetimeGuard, Receiver<Message>))
    ensures
        r.0.sent() == Seq::<Msg>::empty(),
{
    let (tx, rx) = bounded_channel(capacity);
    let guard = LifetimeGuard { tx: clone_sender(&tx) };
    (WriterHandle { tx, sent: Ghost(Seq::empty()) }, guard, rx)
}


/// No event of the run before its last one ends the worker.
pub open spec fn runs_to_end(evs: Seq<EventView>) -> bool {
    forall|k: int| 0 <= k < evs.len() - 1 ==> !is_final(#[trigger] evs[k])
}

/// Ordering: from a fresh worker, over any run of events in which the
/// worker does not end early, the bytes written so far followed by those
/// still buffered are exactly the data of the messages taken, in the order
/// they were taken. Nothing is lost, repeated or reordered.
pub proof fn law_output_in_enqueue_order(capacity: nat, evs: Seq<EventView>)
    requires
        runs_to_end(evs),
    ensures
        run(initial(capacity), evs).1 + run(initial(capacity), evs).0.buffer == data_of(
            messages_of(evs),
        ),
        run(initial(capacity), evs).0.capacity == capacity,
    decreases evs.len(),
{
    if evs.len() > 0 {
        let prefix = evs.drop_last();
        assert(runs_to_end(prefix)) by {
            assert forall|k: int| 0 <= k < prefix.len() - 1 implies !is_final(#[trigger] prefix[k]) by {
                assert(prefix[k] == evs[k]);
            }
        }
        law_output_in_enqueue_order(capacity, prefix);
        lemma_run_not_finished(capacity, prefix);
        let (w1, out1) = run(initial(capacity), prefix);
        let (w2, out2) = next(w1, evs.last());
        assert(out1 + out2 + w2.buffer =~= data_of(messages_of(evs))) by {
            let ms = messages_of(evs);
            if let EventView::Received(m) = evs.last() {
                assert(ms.drop_last() =~= messages_of(prefix));
            } else {
                assert(ms =~= messages_of(prefix));
            }
        }
    }
}

/// A run in which no event ends the worker leaves it running.
pub proof fn lemma_run_not_finished(capacity: nat, evs: Seq<EventView>)
    requires
        forall|k: int| 0 <= k < evs.len() ==> !is_final(#[trigger] evs[k]),
    ensures
        !run(initial(capacity), evs).0.finished,
    decreases evs.len(),
{
    if evs.len() > 0 {
        let prefix = evs.drop_last();
        assert forall|k: int| 0 <= k < prefix.len() implies !is_final(#[trigger] prefix[k]) by {
            assert(prefix[k] == evs[k]);
        }
        lemma_run_not_finished(capacity, prefix);
        assert(!is_final(evs[evs.len() - 1]));
    }
}

/// Exactly once at shutdown: when a run of events ends with `Shutdown` (or
/// the channel closing) and nothing ended the worker before, the output is
/// exactly the data of the messages taken, in order, and nothing is left
/// buffered.
pub proof fn law_shutdown_writes_everything_once(capacity: nat, evs: Seq<EventView>)
    requires
        runs_to_end(evs),
        evs.len() > 0,
        is_final(evs.last()),
    ensures
        run(initial(capacity), evs).1 == data_of(messages_of(evs)),
        run(initial(capacity), evs).0.buffer.len() == 0,
        run(initial(capacity), evs).0.finished,
{
    law_output_in_enqueue_order(capacity, evs);
    let prefix = evs.drop_last();
    assert forall|k: int| 0 <= k < prefix.len() implies !is_final(#[trigger] prefix[k]) by {
        assert(prefix[k] == evs[k]);
    }
    lemma_run_not_finished(capacity, prefix);
    let w = run(initial(capacity), evs).0;
    assert(run(initial(capacity), evs).1 =~= run(initial(capacity), evs).1 + w.buffer);
}

/// No unbounded growth: a single write of at least the buffer's capacity
/// goes out at once, after what was buffered, and leaves the buffer empty.
pub proof fn law_large_write_flushes(w: WorkerModel, bytes: Seq<u8>)
    requires
        !w.finished,
        bytes.len() >= w.capacity,
    ensures
        next(w, EventView::Received(Msg::Data(bytes))).1 == w.buffer + bytes,
        next(w, EventView::Received(Msg::Data(bytes))).0.buffer.len() == 0,
{
}

/// A flush request on an empty buffer writes nothing and changes nothing.
pub proof fn law_flush_of_empty_buffer_is_silent(w: WorkerModel)
    requires
        w.buffer.len() == 0,
    ensures
        next(w, EventView::Received(Msg::Flush)).1.len() == 0,
        next(w, EventView::Received(Msg::Flush)).0 == w,
{
    assert(w.buffer =~= seq![]);
}

} // verus!
