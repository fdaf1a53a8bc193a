//! The processing worker's protocol: which queued commands are merged, which
//! run at once, and which end a batch.
//!
//! The worker serves one command at a time. A resynthesis or an effects pass
//! is expensive, so before starting one the worker drains whatever else is
//! already queued and keeps only the most recent parameters of each class.
//! The types are generic in their payloads: `A` is an audio buffer, `W` a set
//! of vocoder slider values and `F` a set of effects parameters.

use vstd::prelude::*;

verus! {

/// Commands sent to the worker.
#[derive(Debug, Clone, PartialEq)]
pub enum ProcessingCommand<A, W, F> {
    /// Decode the file at this path, then analyze it.
    Load(String),
    /// Analyze this buffer.
    Analyze(A),
    /// Resynthesize with these slider values, then apply these effects.
    Resynthesize(W, F),
    /// Apply these effects to the cached vocoder output.
    ReapplyEffects(F),
    /// List the directory entries that match this prefix.
    ScanDirectory(String),
    /// Check that the file at this path looks like audio.
    PrecheckAudio(String),
    /// Stop the worker.
    Shutdown,
}

/// Results sent back by the worker.
#[derive(Debug, Clone, PartialEq)]
pub enum ProcessingResult<A> {
    /// A file was decoded: the audio and the path it came from.
    AudioReady(A, String),
    /// Analysis finished: the mono baseline.
    AnalysisDone(A),
    /// A resynthesis or effects pass finished.
    SynthesisDone(A),
    /// Progress or an error, as text.
    Status(String),
    /// The prefix that was scanned and the entries found.
    DirectoryListing(String, Vec<String>),
    /// The path holds recognizable audio.
    AudioPrecheckDone(String),
    /// The path and why it was rejected.
    AudioPrecheckFailed(String, String),
}

/// A unit of work that the worker thread carries out.
#[derive(Debug, Clone, PartialEq)]
pub enum Job<A, W, F> {
    Load(String),
    Analyze(A),
    ScanDirectory(String),
    PrecheckAudio(String),
    Resynthesize(W, F),
    ReapplyEffects(F),
}

/// The expensive job that is being coalesced.
#[derive(Debug, Clone, PartialEq)]
pub enum Batch<W, F> {
    /// A full resynthesis with the latest slider values and effects.
    Resynth(W, F),
    /// An effects-only pass with the latest effects.
    Effects(F),
}

/// What the worker thread does next.
#[derive(Debug, Clone, PartialEq)]
pub enum Directive<A, W, F> {
    /// Nothing to run: take the next command.
    Continue,
    /// Carry out this job, then take the next command.
    Run(Job<A, W, F>),
    /// Leave the worker loop.
    Exit,
}

/// The worker's coalescing state: the batch that is collecting newer
/// parameters, if any. While a batch is pending the worker polls its queue
/// without blocking; otherwise it waits for a command.
#[derive(Debug, Clone, PartialEq)]
pub struct Worker<W, F> {
    pub pending: Option<Batch<W, F>>,
}

/// The effect of one command on the pending batch, and what to do about it.
///
/// `ready` says whether vocoder parameters are cached. A resynthesis request
/// that arrives while nothing is pending and nothing is cached is dropped.
/// Newer parameters replace older ones of the same class, and an effects
/// request met while a resynthesis is pending only replaces its effects. A
/// load abandons the batch. Analysis, directory scans and prechecks run at
/// once and leave the batch as it is.
pub open spec fn step<A, W, F>(
    pending: Option<Batch<W, F>>,
    cmd: ProcessingCommand<A, W, F>,
    ready: bool,
) -> (Option<Batch<W, F>>, Directive<A, W, F>) {
    match cmd {
        ProcessingCommand::Shutdown => (None, Directive::Exit),
        ProcessingCommand::Load(path) => (None, Directive::Run(Job::Load(path))),
        ProcessingCommand::Analyze(audio) => (pending, Directive::Run(Job::Analyze(audio))),
        ProcessingCommand::ScanDirectory(prefix) => (
            pending,
            Directive::Run(Job::ScanDirectory(prefix)),
        ),
        ProcessingCommand::PrecheckAudio(path) => (
            pending,
            Directive::Run(Job::PrecheckAudio(path)),
        ),
        ProcessingCommand::Resynthesize(w, f) => if pending is None && !ready {
            (None, Directive::Continue)
        } else {
            (Some(Batch::Resynth(w, f)), Directive::Continue)
        },
        ProcessingCommand::ReapplyEffects(f) => match pending {
            Some(Batch::Resynth(w, _)) => (Some(Batch::Resynth(w, f)), Directive::Continue),
            _ => (Some(Batch::Effects(f)), Directive::Continue),
        },
    }
}

/// What happens to the pending batch once the queue is found empty: it runs,
/// except that a resynthesis without cached vocoder parameters is dropped.
pub open spec fn flush<A, W, F>(pending: Option<Batch<W, F>>, ready: bool) -> Directive<A, W, F> {
    match pending {
        None => Directive::Continue,
        Some(Batch::Resynth(w, f)) => if ready {
            Directive::Run(Job::Resynthesize(w, f))
        } else {
            Directive::Continue
        },
        Some(Batch::Effects(f)) => Directive::Run(Job::ReapplyEffects(f)),
    }
}

impl<W, F> Worker<W, F> {
    /// A worker with nothing pending.
    pub fn new() -> (w: Self)
        ensures
            w.pending is None,
    {
        Worker { pending: None }
    }

    /// Whether a batch is collecting parameters. While it is, the queue is
    /// polled without blocking.
    pub fn is_draining(&self) -> (b: bool)
        ensures
            b == (self.pending is Some),
    {
        self.pending.is_some()
    }

    /// Takes one command from the queue.
    pub fn on_command<A>(&mut self, cmd: ProcessingCommand<A, W, F>, ready: bool) -> (d: Directive<
        A,
        W,
        F,
    >)
        ensures
            (final(self).pending, d) == step(old(self).pending, cmd, ready),
    {
        match cmd {
            ProcessingCommand::Shutdown => {
                self.pending = None;
                Directive::Exit
            },
            ProcessingCommand::Load(path) => {
                self.pending = None;
                Directive::Run(Job::Load(path))
            },
            ProcessingCommand::Analyze(audio) => Directive::Run(Job::Analyze(audio)),
            ProcessingCommand::ScanDirectory(prefix) => Directive::Run(Job::ScanDirectory(prefix)),
            ProcessingCommand::PrecheckAudio(path) => Directive::Run(Job::PrecheckAudio(path)),
            ProcessingCommand::Resynthesize(w, f) => {
                if self.pending.is_some() || ready {
                    self.pending = Some(Batch::Resynth(w, f));
                }
                Directive::Continue
            },
            ProcessingCommand::ReapplyEffects(f) => {
                let before = self.pending.take();
                match before {
                    Some(Batch::Resynth(w, _)) => {
                        self.pending = Some(Batch::Resynth(w, f));
                    },
                    _ => {
                        self.pending = Some(Batch::Effects(f));
                    },
                }
                Directive::Continue
            },
        }
    }

    /// The queue was polled and found empty: the pending batch, if any, is
    /// due.
    pub fn on_queue_empty<A>(&mut self, ready: bool) -> (d: Directive<A, W, F>)
        ensures
            final(self).pending is None,
            d == flush::<A, W, F>(old(self).pending, ready),
    {
        let before = self.pending.take();
        match before {
            None => Directive::Continue,
            Some(Batch::Resynth(w, f)) => {
                if ready {
                    Directive::Run(Job::Resynthesize(w, f))
                } else {
                    Directive::Continue
                }
            },
            Some(Batch::Effects(f)) => Directive::Run(Job::ReapplyEffects(f)),
        }
    }

    /// A job panicked: the batch in progress is abandoned, so that the next
    /// command is served from a clean state.
    pub fn recover(&mut self)
        ensures
            final(self).pending is None,
    {
        self.pending = None;
    }
}

/// What one coalescing pass runs, given the batch that is pending and the
/// commands already queued: the jobs in the order they run, whether the
/// worker exits, and the commands that are left in the queue.
///
/// The pass takes commands from the front of the queue. It ends when the
/// queue is empty, and the pending batch then runs; or at a load, which runs
/// in place of the batch; or at a shutdown. `ready` says whether vocoder
/// parameters are cached during the pass.
pub open spec fn drain<A, W, F>(
    pending: Option<Batch<W, F>>,
    queue: Seq<ProcessingCommand<A, W, F>>,
    ready: bool,
) -> (Seq<Job<A, W, F>>, bool, Seq<ProcessingCommand<A, W, F>>)
    decreases queue.len(),
{
    if queue.len() == 0 {
        match flush::<A, W, F>(pending, ready) {
            Directive::Run(job) => (seq![job], false, queue),
            _ => (Seq::empty(), false, queue),
        }
    } else {
        let (next, directive) = step(pending, queue[0], ready);
        let tail = queue.drop_first();
        match directive {
            Directive::Exit => (Seq::empty(), true, tail),
            Directive::Run(Job::Load(path)) => (seq![Job::Load(path)], false, tail),
            Directive::Run(job) => {
                let (jobs, exited, rest) = drain(next, tail, ready);
                (seq![job] + jobs, exited, rest)
            },
            Directive::Continue => drain(next, tail, ready),
        }
    }
}

/// The outcome of one coalescing pass.
#[derive(Debug, Clone, PartialEq)]
pub struct Burst<A, W, F> {
    /// The jobs to carry out, in order.
    pub jobs: Vec<Job<A, W, F>>,
    /// Whether the worker exits after the jobs.
    pub exited: bool,
    /// The commands that the pass left in the queue.
    pub rest: Vec<ProcessingCommand<A, W, F>>,
}

impl<W, F> Worker<W, F> {
    /// Runs one coalescing pass over the commands that are already queued,
    /// oldest first.
    pub fn drain_queue<A>(&mut self, commands: Vec<ProcessingCommand<A, W, F>>, ready: bool) -> (b:
        Burst<A, W, F>)
        ensures
            final(self).pending is None,
            (b.jobs@, b.exited, b.rest@) == drain(old(self).pending, commands@, ready),
    {
        let ghost goal = drain(self.pending, commands@, ready);
        let mut queue = commands;
        let mut jobs: Vec<Job<A, W, F>> = Vec::new();
        while queue.len() > 0
            invariant
                goal == drain(old(self).pending, commands@, ready),
                goal == ({
                    let (j, e, r) = drain(self.pending, queue@, ready);
                    (jobs@ + j, e, r)
                }),
            decreases queue.len(),
        {
            let ghost before = queue@;
            let ghost held = self.pending;
            let ghost done = jobs@;
            let cmd = queue.remove(0);
            let directive = self.on_command(cmd, ready);
            proof {
                assert(queue@ =~= before.drop_first());
                assert(step(held, before[0], ready) == (self.pending, directive));
            }
            match directive {
                Directive::Exit => {
                    proof {
                        assert(done + Seq::<Job<A, W, F>>::empty() =~= done);
                    }
                    return Burst { jobs, exited: true, rest: queue };
                },
                Directive::Run(job) => {
                    let stop = matches!(job, Job::Load(_));
                    jobs.push(job);
                    if stop {
                        proof {
                            assert(done + seq![job] =~= jobs@);
                        }
                        self.pending = None;
                        return Burst { jobs, exited: false, rest: queue };
                    }
                    proof {
                        let (j, e, r) = drain(self.pending, queue@, ready);
                        assert(done + (seq![job] + j) =~= jobs@ + j);
                    }
                },
                Directive::Continue => {},
            }
        }
        let ghost done = jobs@;
        let last = self.on_queue_empty(ready);
        match last {
            Directive::Run(job) => {
                jobs.push(job);
                proof {
                    assert(done + seq![job] =~= jobs@);
                }
            },
            _ => {
                proof {
                    assert(done + Seq::<Job<A, W, F>>::empty() =~= done);
                }
            },
        }
        Burst { jobs, exited: false, rest: queue }
    }
}

/// Coalescing: however many resynthesis requests are queued, with vocoder
/// parameters cached, one pass runs exactly one resynthesis, with the slider
/// values and effects of the last request.
pub proof fn lemma_resynthesis_burst_runs_last<A, W, F>(
    pending: Option<Batch<W, F>>,
    queue: Seq<ProcessingCommand<A, W, F>>,
    w: W,
    f: F,
)
    requires
        queue.len() > 0,
        forall|i: int| 0 <= i < queue.len() ==> queue[i] is Resynthesize,
        queue.last() == ProcessingCommand::<A, W, F>::Resynthesize(w, f),
    ensures
        drain(pending, queue, true) == (
            seq![Job::<A, W, F>::Resynthesize(w, f)],
            false,
            Seq::<ProcessingCommand<A, W, F>>::empty(),
        ),
    decreases queue.len(),
{
    let (next, directive) = step(pending, queue[0], true);
    let tail = queue.drop_first();
    assert(directive == Directive::<A, W, F>::Continue);
    if tail.len() == 0 {
        assert(queue[0] == queue.last());
        assert(next == Some(Batch::Resynth(w, f)));
        assert(tail =~= Seq::<ProcessingCommand<A, W, F>>::empty());
        assert(drain(next, tail, true) == (seq![Job::<A, W, F>::Resynthesize(w, f)], false, tail));
    } else {
        assert(tail.last() == queue.last());
        lemma_resynthesis_burst_runs_last(next, tail, w, f);
    }
}

/// Analysis is kept: a resynthesis request, an analysis request and a second
/// resynthesis request, queued together, run the analysis and then one
/// resynthesis with the second request's parameters.
pub proof fn lemma_analysis_between_resyntheses<A, W, F>(w1: W, f1: F, audio: A, w2: W, f2: F)
    ensures
        drain(
            None,
            seq![
                ProcessingCommand::Resynthesize(w1, f1),
                ProcessingCommand::Analyze(audio),
                ProcessingCommand::Resynthesize(w2, f2),
            ],
            true,
        ) == (
            seq![Job::<A, W, F>::Analyze(audio), Job::Resynthesize(w2, f2)],
            false,
            Seq::<ProcessingCommand<A, W, F>>::empty(),
        ),
{
    let q3 = seq![
        ProcessingCommand::<A, W, F>::Resynthesize(w1, f1),
        ProcessingCommand::Analyze(audio),
        ProcessingCommand::Resynthesize(w2, f2),
    ];
    let q2 = seq![
        ProcessingCommand::<A, W, F>::Analyze(audio),
        ProcessingCommand::Resynthesize(w2, f2),
    ];
    let q1 = seq![ProcessingCommand::<A, W, F>::Resynthesize(w2, f2)];
    assert(q3.drop_first() =~= q2);
    assert(q2.drop_first() =~= q1);
    let first = Some(Batch::Resynth(w1, f1));
    lemma_resynthesis_burst_runs_last(first, q1, w2, f2);
    assert(step(first, q2[0], true) == (first, Directive::Run(Job::<A, W, F>::Analyze(audio))));
    assert(drain(first, q2, true).0 =~= seq![
        Job::<A, W, F>::Analyze(audio),
        Job::Resynthesize(w2, f2),
    ]);
    assert(step(None, q3[0], true) == (first, Directive::<A, W, F>::Continue));
}

/// The analysis requests among queued commands, oldest first.
pub open spec fn analyses_requested<A, W, F>(queue: Seq<ProcessingCommand<A, W, F>>) -> Seq<A>
    decreases queue.len(),
{
    if queue.len() == 0 {
        Seq::empty()
    } else {
        let later = analyses_requested(queue.drop_first());
        match queue[0] {
            ProcessingCommand::Analyze(audio) => seq![audio] + later,
            _ => later,
        }
    }
}

/// The analyses among jobs, in the order they run.
pub open spec fn analyses_run<A, W, F>(jobs: Seq<Job<A, W, F>>) -> Seq<A>
    decreases jobs.len(),
{
    if jobs.len() == 0 {
        Seq::empty()
    } else {
        let later = analyses_run(jobs.drop_first());
        match jobs[0] {
            Job::Analyze(audio) => seq![audio] + later,
            _ => later,
        }
    }
}

/// No analysis is ever dropped: after a coalescing pass, each analysis
/// request that was queued has either run, in the order it was queued, or is
/// still in the queue.
pub proof fn lemma_analysis_never_dropped<A, W, F>(
    pending: Option<Batch<W, F>>,
    queue: Seq<ProcessingCommand<A, W, F>>,
    ready: bool,
)
    ensures
        ({
            let (jobs, exited, rest) = drain(pending, queue, ready);
            analyses_run(jobs) + analyses_requested(rest) == analyses_requested(queue)
        }),
    decreases queue.len(),
{
    let (jobs, exited, rest) = drain(pending, queue, ready);
    let none = Seq::<A>::empty();
    if queue.len() == 0 {
        assert(analyses_run(jobs) =~= none) by {
            if jobs.len() > 0 {
                assert(jobs.drop_first().len() == 0);
                assert(analyses_run(jobs.drop_first()) =~= none);
            }
        }
        assert(analyses_run(jobs) + analyses_requested(rest) =~= analyses_requested(queue));
    } else {
        let (next, directive) = step(pending, queue[0], ready);
        let tail = queue.drop_first();
        match directive {
            Directive::Exit => {
                assert(analyses_run(jobs) =~= none);
                assert(none + analyses_requested(tail) =~= analyses_requested(tail));
            },
            Directive::Run(Job::Load(path)) => {
                assert(jobs.drop_first().len() == 0);
                assert(analyses_run(jobs.drop_first()) =~= none);
                assert(analyses_run(jobs) =~= none);
                assert(none + analyses_requested(tail) =~= analyses_requested(tail));
            },
            Directive::Run(job) => {
                lemma_analysis_never_dropped(next, tail, ready);
                let (j, e, r) = drain(next, tail, ready);
                assert(jobs == seq![job] + j);
                assert(jobs.drop_first() =~= j);
                assert(jobs[0] == job);
                match job {
                    Job::Analyze(audio) => {
                        assert(analyses_run(jobs) == seq![audio] + analyses_run(j));
                        assert((seq![audio] + analyses_run(j)) + analyses_requested(r) =~= seq![
                            audio,
                        ] + (analyses_run(j) + analyses_requested(r)));
                    },
                    _ => {
                        assert(analyses_run(jobs) == analyses_run(j));
                    },
                }
            },
            Directive::Continue => {
                lemma_analysis_never_dropped(next, tail, ready);
            },
        }
    }
}

} // verus!
