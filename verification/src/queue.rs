//! The dispatch queue: when the executor is asked to process a job.
//!
//! The executor works on one job at a time. The queue asks it for a job
//! when it is kicked, notes a kick that arrives while a job is in work, and
//! asks again when the executor is done if there may be more to do. With
//! nothing to do it has itself kicked again after a while, in case the
//! store changed without a kick. Once stopped it asks for no further job; a
//! job in work is left to end, and only then is the executor told to stop.

use vstd::prelude::*;

verus! {

/// The seconds after which an idle queue looks at the store again.
pub const POLL_DELAY: u64 = 10;

/// What the caller of the queue does next.
#[derive(Debug, Clone, Copy, PartialEq, Eq, Structural)]
pub enum QueueAction {
    /// Nothing.
    Nothing,
    /// Ask the executor to process one job, and report its answer with
    /// `job_finished`.
    ProcessOneJob,
    /// Kick the queue after this many seconds.
    PollLater(u64),
    /// Tell the executor to stop; with its answer the stop is complete.
    StopExecutor,
}

/// What can happen to the queue.
#[derive(Debug, Clone, Copy, PartialEq, Eq, Structural)]
pub enum QueueEvent {
    /// There may be work: a job was queued, the queue has started, or the
    /// delay of `PollLater` is over.
    Kick,
    /// The executor has answered: whether it processed a job, or `None`
    /// where it gave no proper answer.
    Finished(Option<bool>),
    /// The queue is to stop.
    Stop,
}

/// The state of the dispatch queue.
#[derive(Debug, Clone, Copy, PartialEq, Eq, Structural)]
pub struct JobQueue {
    /// Whether the queue still asks for jobs.
    pub running: bool,
    /// Whether the executor is at work on the queue's last request.
    pub processing_job: bool,
    /// Whether a kick arrived while the executor was at work.
    pub jobs_queued: bool,
    /// Whether a stop waits for the executor to end its work.
    pub stopping: bool,
}

impl JobQueue {
    /// The queue at its start: running, with nothing in work.
    pub open spec fn initial() -> JobQueue {
        JobQueue { running: true, processing_job: false, jobs_queued: false, stopping: false }
    }

    /// The queue after a kick, and what to do. A stopped queue ignores the
    /// kick; a busy one notes it; an idle one becomes busy and asks the
    /// executor for a job.
    pub open spec fn kicked(self) -> (JobQueue, QueueAction) {
        if !self.running {
            (self, QueueAction::Nothing)
        } else if self.processing_job {
            (JobQueue { jobs_queued: true, ..self }, QueueAction::Nothing)
        } else {
            (
                JobQueue { processing_job: true, jobs_queued: false, ..self },
                QueueAction::ProcessOneJob,
            )
        }
    }

    /// The queue after the executor's answer, and what to do. A running
    /// queue asks again at once if a kick was noted or a job was
    /// processed, and else has itself kicked later. A stopped queue asks
    /// for nothing; if a stop was waiting, the executor is now told to
    /// stop.
    pub open spec fn completed(self, reply: Option<bool>) -> (JobQueue, QueueAction) {
        let idle = JobQueue { processing_job: false, ..self };
        if idle.running {
            if idle.jobs_queued || reply == Some(true) {
                idle.kicked()
            } else {
                (idle, QueueAction::PollLater(POLL_DELAY))
            }
        } else if idle.stopping {
            (JobQueue { stopping: false, ..idle }, QueueAction::StopExecutor)
        } else {
            (idle, QueueAction::Nothing)
        }
    }

    /// The queue after a request to stop, and what to do. The queue stops
    /// running. While the executor is at work the stop waits for its
    /// answer; else the executor is told to stop at once.
    pub open spec fn stopped(self) -> (JobQueue, QueueAction) {
        if self.processing_job {
            (JobQueue { running: false, stopping: true, ..self }, QueueAction::Nothing)
        } else {
            (JobQueue { running: false, ..self }, QueueAction::StopExecutor)
        }
    }

    /// The queue after `event`, and what to do.
    pub open spec fn step(self, event: QueueEvent) -> (JobQueue, QueueAction) {
        match event {
            QueueEvent::Kick => self.kicked(),
            QueueEvent::Finished(reply) => self.completed(reply),
            QueueEvent::Stop => self.stopped(),
        }
    }

    /// The queue after a run of events, and what was to be done after each.
    pub open spec fn run(self, events: Seq<QueueEvent>) -> (JobQueue, Seq<QueueAction>)
        decreases events.len(),
    {
        if events.len() == 0 {
            (self, Seq::empty())
        } else {
            let before = self.run(events.drop_last());
            let next = before.0.step(events.last());
            (next.0, before.1.push(next.1))
        }
    }

    /// A queue that runs and has nothing in work.
    pub fn new() -> (q: JobQueue)
        ensures
            q == JobQueue::initial(),
    {
        JobQueue { running: true, processing_job: false, jobs_queued: false, stopping: false }
    }

    /// Tells the queue that there may be work.
    pub fn kick(&mut self) -> (action: QueueAction)
        ensures
            (*final(self), action) == old(self).kicked(),
    {
        if !self.running {
            return QueueAction::Nothing;
        }
        if self.processing_job {
            self.jobs_queued = true;
            QueueAction::Nothing
        } else {
            self.processing_job = true;
            self.jobs_queued = false;
            QueueAction::ProcessOneJob
        }
    }

    /// Tells the queue what the executor answered to `ProcessOneJob`:
    /// whether it processed a job, or `None` where it gave no proper
    /// answer.
    pub fn job_finished(&mut self, reply: Option<bool>) -> (action: QueueAction)
        ensures
            (*final(self), action) == old(self).completed(reply),
    {
        self.processing_job = false;
        if self.running {
            let processed_job = match reply {
                Some(done) => done,
                None => false,
            };
            if self.jobs_queued || processed_job {
                self.kick()
            } else {
                QueueAction::PollLater(POLL_DELAY)
            }
        } else if self.stopping {
            self.stopping = false;
            QueueAction::StopExecutor
        } else {
            QueueAction::Nothing
        }
    }

    /// Stops the queue.
    pub fn stop(&mut self) -> (action: QueueAction)
        ensures
            (*final(self), action) == old(self).stopped(),
    {
        self.running = false;
        if self.processing_job {
            self.stopping = true;
            QueueAction::Nothing
        } else {
            QueueAction::StopExecutor
        }
    }

    /// Takes one event.
    pub fn handle(&mut self, event: QueueEvent) -> (action: QueueAction)
        ensures
            (*final(self), action) == old(self).step(event),
    {
        match event {
            QueueEvent::Kick => self.kick(),
            QueueEvent::Finished(reply) => self.job_finished(reply),
            QueueEvent::Stop => self.stop(),
        }
    }
}

/// What is to be done after the event at place `k` of a run is what the
/// queue that the earlier events left says of that event.
pub proof fn lemma_run_at(q: JobQueue, events: Seq<QueueEvent>, k: int)
    requires
        0 <= k < events.len(),
    ensures
        q.run(events).1.len() == events.len(),
        q.run(events).1[k] == q.run(events.take(k)).0.step(events[k]).1,
    decreases events.len(),
{
    let shorter = events.drop_last();
    lemma_run_len(q, shorter);
    if k < events.len() - 1 {
        lemma_run_at(q, shorter, k);
        assert(shorter.take(k) =~= events.take(k));
    }
}

proof fn lemma_run_len(q: JobQueue, events: Seq<QueueEvent>)
    ensures
        q.run(events).1.len() == events.len(),
    decreases events.len(),
{
    if events.len() > 0 {
        lemma_run_len(q, events.drop_last());
    }
}

/// Whether the executor answers somewhere in `events`.
pub open spec fn answered(events: Seq<QueueEvent>) -> bool {
    exists|j: int| 0 <= j < events.len() && #[trigger] events[j] is Finished
}

/// A stopped queue stays stopped, and a stop that waits goes on waiting
/// until the executor answers.
proof fn lemma_stays_stopped(q: JobQueue, events: Seq<QueueEvent>)
    requires
        !q.running,
    ensures
        !q.run(events).0.running,
        q.processing_job && q.stopping && !answered(events) ==> q.run(events).0.processing_job
            && q.run(events).0.stopping,
    decreases events.len(),
{
    if events.len() > 0 {
        let shorter = events.drop_last();
        lemma_stays_stopped(q, shorter);
        if !answered(events) {
            assert forall|j: int| 0 <= j < shorter.len() implies !(#[trigger] shorter[j]
                is Finished) by {}
        }
    }
}

/// A queue that is not running never asks the executor for a job, whatever
/// happens to it.
pub proof fn lemma_no_job_after_stop(q: JobQueue, events: Seq<QueueEvent>, k: int)
    requires
        !q.running,
        0 <= k < events.len(),
    ensures
        q.run(events).1[k] != QueueAction::ProcessOneJob,
{
    lemma_run_at(q, events, k);
    lemma_stays_stopped(q, events.take(k));
}

/// A stop that is requested while the executor is at work is complete only
/// after the executor has answered, and no job is asked for afterwards,
/// even if the queue is kicked. In the events that follow the request: the
/// executor is never asked for a job; it is not told to stop before it has
/// answered; and it is told to stop with its first answer.
pub proof fn lemma_stop_while_busy(q: JobQueue, events: Seq<QueueEvent>, k: int)
    requires
        q.processing_job,
        0 <= k < events.len(),
    ensures
        q.stopped().1 == QueueAction::Nothing,
        !q.stopped().0.running,
        q.stopped().0.run(events).1[k] != QueueAction::ProcessOneJob,
        !answered(events.take(k + 1)) ==> q.stopped().0.run(events).1[k]
            != QueueAction::StopExecutor,
        events[k] is Finished && !answered(events.take(k)) ==> q.stopped().0.run(events).1[k]
            == QueueAction::StopExecutor,
{
    let halted = q.stopped().0;
    lemma_run_at(halted, events, k);
    lemma_stays_stopped(halted, events.take(k));
    if !answered(events.take(k + 1)) {
        assert(events.take(k + 1)[k] == events[k]);
        assert forall|j: int| 0 <= j < k implies !(#[trigger] events.take(k)[j] is Finished) by {}
    }
}

/// The executor is asked for one job at a time: a request goes out only
/// from a queue that runs and has nothing in work, or with the answer to
/// the request before; and after a request the queue has a job in work.
pub proof fn lemma_single_flight(q: JobQueue, event: QueueEvent)
    requires
        q.step(event).1 == QueueAction::ProcessOneJob,
    ensures
        q.running,
        !q.processing_job || event is Finished,
        q.step(event).0.processing_job,
{
}

} // verus!
