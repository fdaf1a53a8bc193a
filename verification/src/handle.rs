//! The two queues between the orchestrator and the worker.
//!
//! Both are unbounded channels: sending never blocks, and the orchestrator
//! only ever polls for results. What the other thread has put into a channel
//! by the time it is polled cannot be known here, so the functions that poll
//! state what follows from whatever came back.

use crossbeam_channel::{Receiver, Sender};
use vstd::prelude::*;
use crate::worker::{flush, step, Batch, Directive, ProcessingCommand, ProcessingResult, Worker};

verus! {

/// `crossbeam_channel::Sender`: the sending end of a channel. Nothing of its
/// contents is visible here.
#[verifier::external_type_specification]
#[verifier::external_body]
#[verifier::reject_recursive_types(T)]
pub struct ExSender<T>(Sender<T>);

/// `crossbeam_channel::Receiver`: the receiving end of a channel. Nothing of
/// its contents is visible here.
#[verifier::external_type_specification]
#[verifier::external_body]
#[verifier::reject_recursive_types(T)]
pub struct ExReceiver<T>(Receiver<T>);

/// `crossbeam_channel::Sender::send`. Returns whether the message was
/// queued; it is not when every receiver is gone. On an unbounded channel the
/// call does not block. Nothing is claimed about the outcome.
#[verifier::external_body]
fn channel_send<T>(tx: &Sender<T>, msg: T) -> (queued: bool) {
    tx.send(msg).is_ok()
}

/// `crossbeam_channel::Receiver::try_recv`. Returns the oldest queued
/// message, or `None` when the channel is empty or disconnected, without
/// blocking. Nothing is claimed about the outcome.
#[verifier::external_body]
fn channel_try_recv<T>(rx: &Receiver<T>) -> (msg: Option<T>) {
    rx.try_recv().ok()
}

/// The orchestrator's end of the two queues.
#[verifier::reject_recursive_types(A)]
#[verifier::reject_recursive_types(W)]
#[verifier::reject_recursive_types(F)]
pub struct ProcessingHandle<A, W, F> {
    cmd_tx: Sender<ProcessingCommand<A, W, F>>,
    result_rx: Receiver<ProcessingResult<A>>,
}

impl<A, W, F> ProcessingHandle<A, W, F> {
    /// The end of the command queue that the handle sends into.
    pub closed spec fn command_end(self) -> Sender<ProcessingCommand<A, W, F>> {
        self.cmd_tx
    }

    /// The end of the result queue that the handle polls.
    pub closed spec fn result_end(self) -> Receiver<ProcessingResult<A>> {
        self.result_rx
    }

    /// A handle on the sending end of the command queue and the receiving
    /// end of the result queue: it sends into `cmd_tx` and polls `result_rx`,
    /// and holds nothing else.
    pub fn new(cmd_tx: Sender<ProcessingCommand<A, W, F>>, result_rx: Receiver<ProcessingResult<A>>)
        -> (handle: Self)
        ensures
            handle.command_end() == cmd_tx,
            handle.result_end() == result_rx,
    {
        ProcessingHandle { cmd_tx, result_rx }
    }

    /// Queues a command for the worker. A command sent after the worker is
    /// gone is dropped.
    pub fn send(&self, cmd: ProcessingCommand<A, W, F>) {
        let _queued = channel_send(&self.cmd_tx, cmd);
    }

    /// Takes the next result, if one is queued, without blocking.
    pub fn try_recv(&self) -> Option<ProcessingResult<A>> {
        channel_try_recv(&self.result_rx)
    }
}

/// The effect of one poll of the command queue while a batch is pending: a
/// command is taken as any other, and an empty queue makes the batch due.
pub open spec fn react<A, W, F>(
    pending: Option<Batch<W, F>>,
    event: Option<ProcessingCommand<A, W, F>>,
    ready: bool,
) -> (Option<Batch<W, F>>, Directive<A, W, F>) {
    match event {
        Some(cmd) => step(pending, cmd, ready),
        None => (None, flush::<A, W, F>(pending, ready)),
    }
}

/// The effect of a series of polls: they are taken in turn up to the first
/// that yields something to do.
pub open spec fn replay<A, W, F>(
    pending: Option<Batch<W, F>>,
    events: Seq<Option<ProcessingCommand<A, W, F>>>,
    ready: bool,
) -> (Option<Batch<W, F>>, Directive<A, W, F>)
    decreases events.len(),
{
    if events.len() == 0 {
        (pending, Directive::Continue)
    } else {
        let (next, directive) = react(pending, events[0], ready);
        if directive is Continue {
            replay(next, events.drop_first(), ready)
        } else {
            (next, directive)
        }
    }
}

/// One more poll after a series that yielded nothing to do.
pub proof fn lemma_replay_push<A, W, F>(
    pending: Option<Batch<W, F>>,
    events: Seq<Option<ProcessingCommand<A, W, F>>>,
    event: Option<ProcessingCommand<A, W, F>>,
    ready: bool,
)
    requires
        replay(pending, events, ready).1 is Continue,
    ensures
        replay(pending, events.push(event), ready) == react(
            replay(pending, events, ready).0,
            event,
            ready,
        ),
    decreases events.len(),
{
    let longer = events.push(event);
    if events.len() == 0 {
        assert(longer.drop_first() =~= events);
        assert(longer[0] == event);
        let (next, directive) = react(pending, event, ready);
        if directive is Continue {
            assert(replay(next, events, ready) == (next, Directive::<A, W, F>::Continue));
        }
    } else {
        let (next, directive) = react(pending, events[0], ready);
        assert(longer[0] == events[0]);
        assert(longer.drop_first() =~= events.drop_first().push(event));
        assert(directive is Continue);
        lemma_replay_push(next, events.drop_first(), event, ready);
    }
}

/// Drains the command queue while a batch is pending: polls it, at most
/// `budget` times, until there is something to do or nothing is pending any
/// more. The outcome is that of the polls taken in turn, whatever they
/// returned. A `Continue` that leaves a batch pending means that the budget
/// ran out; the caller then calls again.
pub fn pump<A, W, F>(
    worker: &mut Worker<W, F>,
    rx: &Receiver<ProcessingCommand<A, W, F>>,
    ready: bool,
    budget: usize,
) -> (directive: Directive<A, W, F>)
    ensures
        exists|events: Seq<Option<ProcessingCommand<A, W, F>>>|
            events.len() <= budget && #[trigger] replay(old(worker).pending, events, ready) == (
                final(worker).pending,
                directive,
            ) && (directive is Continue && final(worker).pending is Some ==> events.len()
                == budget),
{
    let ghost start = worker.pending;
    let ghost mut events: Seq<Option<ProcessingCommand<A, W, F>>> = Seq::empty();
    let mut polls: usize = 0;
    while polls < budget && worker.is_draining()
        invariant
            polls <= budget,
            events.len() == polls,
            start == old(worker).pending,
            replay(start, events, ready) == (worker.pending, Directive::<A, W, F>::Continue),
        decreases budget - polls,
    {
        let event = channel_try_recv(rx);
        proof {
            lemma_replay_push(start, events, event, ready);
            events = events.push(event);
        }
        polls = polls + 1;
        let directive = match event {
            Some(cmd) => worker.on_command(cmd, ready),
            None => worker.on_queue_empty(ready),
        };
        match directive {
            Directive::Continue => {},
            other => {
                proof {
                    assert(replay(start, events, ready) == (worker.pending, other));
                }
                return other;
            },
        }
    }
    Directive::Continue
}

} // verus!
