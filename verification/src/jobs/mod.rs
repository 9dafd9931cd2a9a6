//! Job management: a stable priority queue of jobs, one active job with a
//! cursor to resume from, and the list of finished jobs.

use vstd::prelude::*;
use crate::text::{trim, lines, join, views, chars_of, string_of, trimmed, split_lines, joined, slice};
use crate::stamps::{fresh_id, now_rfc3339};

verus! {

/// Priority of a job, from 1 to 10; 10 is served first.
#[derive(Debug, Clone, Copy, PartialEq, Eq, Structural, PartialOrd, Ord)]
pub struct Priority(pub u32);

impl Priority {
    /// The priority nearest to `level` within 1 to 10.
    pub fn new(level: u32) -> (r: Priority)
        ensures
            r.0 == if level < 1 {
                1
            } else if level > 10 {
                10
            } else {
                level
            },
    {
        if level < 1 {
            Priority(1)
        } else if level > 10 {
            Priority(10)
        } else {
            Priority(level)
        }
    }

    /// Normal priority (5).
    pub fn normal() -> (r: Priority)
        ensures
            r.0 == 5,
    {
        Priority(5)
    }

    /// High priority (8).
    pub fn high() -> (r: Priority)
        ensures
            r.0 == 8,
    {
        Priority(8)
    }

    /// Low priority (2).
    pub fn low() -> (r: Priority)
        ensures
            r.0 == 2,
    {
        Priority(2)
    }
}

/// State of a job.
#[derive(Debug, Clone, Copy, PartialEq, Eq, Structural)]
pub enum JobState {
    Pending,
    Running,
    Paused,
    Completed,
    Failed,
    Cancelled,
}

/// Progress of a job as the fraction `completed / total`; `total` is never 0.
#[derive(Debug, Clone, Copy, PartialEq, Eq, Structural)]
pub struct Progress {
    pub completed: usize,
    pub total: usize,
}

/// The progress after `lines_completed` of `total_lines` lines: their
/// quotient, and the whole when there are no lines at all.
pub open spec fn progress_of(lines_completed: usize, total_lines: usize) -> Progress {
    if total_lines > 0 {
        Progress { completed: lines_completed, total: total_lines }
    } else {
        Progress { completed: 1, total: 1 }
    }
}

/// Whether a line counts as a line of the program: it is neither blank nor
/// a comment.
pub open spec fn is_code_line(line: Seq<char>) -> bool {
    trim(line).len() > 0 && trim(line)[0] != ';'
}

/// The program lines among the first `k` lines.
pub open spec fn code_lines_upto(ls: Seq<Seq<char>>, k: int) -> Seq<Seq<char>>
    decreases k,
{
    if k <= 0 || k > ls.len() {
        Seq::empty()
    } else if is_code_line(ls[k - 1]) {
        code_lines_upto(ls, k - 1).push(ls[k - 1])
    } else {
        code_lines_upto(ls, k - 1)
    }
}

/// The program lines of a G-code text, in order.
pub open spec fn code_lines(gcode: Seq<char>) -> Seq<Seq<char>> {
    code_lines_upto(lines(gcode), lines(gcode).len() as int)
}

/// The program lines from the cursor on.
pub open spec fn lines_from_cursor(gcode: Seq<char>, current_line: usize) -> Seq<Seq<char>> {
    let all = code_lines(gcode);
    if current_line <= all.len() {
        all.subrange(current_line as int, all.len() as int)
    } else {
        Seq::empty()
    }
}

/// What is left of a program: its lines from the cursor on, joined by line
/// feeds.
pub open spec fn remaining_gcode(gcode: Seq<char>, current_line: usize) -> Seq<char> {
    join(lines_from_cursor(gcode, current_line), seq!['\n'])
}

/// The program lines of a G-code text.
pub fn code_lines_of(gcode: &str) -> (r: Vec<Vec<char>>)
    ensures
        views(r@) == code_lines(gcode@),
{
    let text = chars_of(gcode);
    let all = split_lines(&text);
    assert(views(all@).len() == all@.len());
    let ghost ls = lines(gcode@);
    let mut r: Vec<Vec<char>> = Vec::new();
    let mut i: usize = 0;
    assert(views(r@) =~= code_lines_upto(ls, 0));
    while i < all.len()
        invariant
            i <= all@.len(),
            views(all@) == ls,
            views(r@) == code_lines_upto(ls, i as int),
        decreases all@.len() - i,
    {
        assert(ls[i as int] == all@[i as int]@);
        let t = trimmed(&all[i]);
        if t.len() > 0 && t[0] != ';' {
            let ghost before = views(r@);
            let line = slice(&all[i], 0, all[i].len());
            assert(line@ == all@[i as int]@);
            r.push(line);
            assert(views(r@) =~= before.push(line@));
        }
        i += 1;
    }
    r
}

/// A machining job.
#[derive(Debug)]
pub struct Job {
    pub id: String,
    pub name: String,
    pub gcode: String,
    pub state: JobState,
    pub priority: Priority,
    pub progress: Progress,
    /// The cursor to resume from: the number of program lines done.
    pub current_line: usize,
    pub total_lines: usize,
    pub created_at: String,
    pub started_at: Option<String>,
    pub completed_at: Option<String>,
    pub error_message: Option<String>,
}

fn clone_text(s: &Option<String>) -> (r: Option<String>)
    ensures
        r == *s,
{
    match s {
        Some(t) => Some(t.clone()),
        None => None,
    }
}

impl Clone for Job {
    fn clone(&self) -> (r: Job)
        ensures
            r == *self,
    {
        Job {
            id: self.id.clone(),
            name: self.name.clone(),
            gcode: self.gcode.clone(),
            state: self.state,
            priority: self.priority,
            progress: self.progress,
            current_line: self.current_line,
            total_lines: self.total_lines,
            created_at: self.created_at.clone(),
            started_at: clone_text(&self.started_at),
            completed_at: clone_text(&self.completed_at),
            error_message: clone_text(&self.error_message),
        }
    }
}

impl Job {
    /// A pending job with a fresh identifier, created now.
    pub fn new(name: String, gcode: String, priority: Priority) -> (r: Job)
        ensures
            r == Job::pending(r.id, r.created_at, name, gcode, priority),
    {
        Job::with_identity(fresh_id(), now_rfc3339(), name, gcode, priority)
    }

    /// The pending job of the given identifier, time of creation, name,
    /// program and priority: nothing is done yet, and the total is the number
    /// of program lines.
    pub open spec fn pending(
        id: String,
        created_at: String,
        name: String,
        gcode: String,
        priority: Priority,
    ) -> Job {
        Job {
            id,
            name,
            gcode,
            state: JobState::Pending,
            priority,
            progress: Progress { completed: 0, total: 1 },
            current_line: 0,
            total_lines: code_lines(gcode@).len() as usize,
            created_at,
            started_at: None,
            completed_at: None,
            error_message: None,
        }
    }

    /// A pending job with the given identifier and time of creation. Its
    /// total is the number of program lines.
    pub fn with_identity(
        id: String,
        created_at: String,
        name: String,
        gcode: String,
        priority: Priority,
    ) -> (r: Job)
        ensures
            r == Job::pending(id, created_at, name, gcode, priority),
    {
        let found = code_lines_of(gcode.as_str());
        assert(views(found@).len() == found@.len());
        let total_lines = found.len();
        Job {
            id,
            name,
            gcode,
            state: JobState::Pending,
            priority,
            progress: Progress { completed: 0, total: 1 },
            current_line: 0,
            total_lines,
            created_at,
            started_at: None,
            completed_at: None,
            error_message: None,
        }
    }

    /// Moves the cursor to `lines_completed` and recomputes the progress;
    /// a job without lines is done whatever the cursor.
    pub fn update_progress(&mut self, lines_completed: usize)
        ensures
            *final(self) == (Job {
                current_line: lines_completed,
                progress: progress_of(lines_completed, old(self).total_lines),
                ..*old(self)
            }),
            old(self).total_lines == 0 ==> final(self).progress == (Progress {
                completed: 1,
                total: 1,
            }),
    {
        self.current_line = lines_completed;
        self.progress = if self.total_lines > 0 {
            Progress { completed: lines_completed, total: self.total_lines }
        } else {
            Progress { completed: 1, total: 1 }
        };
    }

    /// Marks the job as started now.
    pub fn start(&mut self)
        ensures
            final(self).started_at is Some,
            *final(self) == (Job {
                state: JobState::Running,
                started_at: final(self).started_at,
                ..*old(self)
            }),
    {
        self.start_at(now_rfc3339());
    }

    /// Marks the job as started at the given time.
    pub fn start_at(&mut self, now: String)
        ensures
            *final(self) == (Job { state: JobState::Running, started_at: Some(now), ..*old(self) }),
    {
        self.state = JobState::Running;
        self.started_at = Some(now);
    }

    /// Marks the job as completed now.
    pub fn complete(&mut self)
        ensures
            final(self).completed_at is Some,
            *final(self) == (Job {
                state: JobState::Completed,
                completed_at: final(self).completed_at,
                progress: Progress { completed: 1, total: 1 },
                ..*old(self)
            }),
    {
        self.complete_at(now_rfc3339());
    }

    /// Marks the job as completed at the given time; its progress is whole.
    pub fn complete_at(&mut self, now: String)
        ensures
            *final(self) == (Job {
                state: JobState::Completed,
                completed_at: Some(now),
                progress: Progress { completed: 1, total: 1 },
                ..*old(self)
            }),
    {
        self.state = JobState::Completed;
        self.completed_at = Some(now);
        self.progress = Progress { completed: 1, total: 1 };
    }

    /// Marks the job as failed now, with the reason.
    pub fn fail(&mut self, error: String)
        ensures
            final(self).completed_at is Some,
            *final(self) == (Job {
                state: JobState::Failed,
                error_message: Some(error),
                completed_at: final(self).completed_at,
                ..*old(self)
            }),
    {
        self.fail_at(error, now_rfc3339());
    }

    /// Marks the job as failed at the given time, with the reason.
    pub fn fail_at(&mut self, error: String, now: String)
        ensures
            *final(self) == (Job {
                state: JobState::Failed,
                error_message: Some(error),
                completed_at: Some(now),
                ..*old(self)
            }),
    {
        self.state = JobState::Failed;
        self.error_message = Some(error);
        self.completed_at = Some(now);
    }

    /// Pauses a running job; any other job stays as it is.
    pub fn pause(&mut self)
        ensures
            *final(self) == (Job {
                state: if old(self).state == JobState::Running {
                    JobState::Paused
                } else {
                    old(self).state
                },
                ..*old(self)
            }),
    {
        if self.state == JobState::Running {
            self.state = JobState::Paused;
        }
    }

    /// Resumes a paused job; any other job stays as it is.
    pub fn resume(&mut self)
        ensures
            *final(self) == (Job {
                state: if old(self).state == JobState::Paused {
                    JobState::Running
                } else {
                    old(self).state
                },
                ..*old(self)
            }),
    {
        if self.state == JobState::Paused {
            self.state = JobState::Running;
        }
    }

    /// The program line under the cursor, if the cursor stands on one.
    pub fn get_current_line(&self) -> (r: Option<String>)
        ensures
            self.current_line < code_lines(self.gcode@).len() ==> r is Some && r->0@ == code_lines(
                self.gcode@,
            )[self.current_line as int],
            self.current_line >= code_lines(self.gcode@).len() ==> r is None,
    {
        let all = code_lines_of(self.gcode.as_str());
        assert(views(all@).len() == all@.len());
        if self.current_line < all.len() {
            assert(views(all@)[self.current_line as int] == all@[self.current_line as int]@);
            Some(string_of(&all[self.current_line]))
        } else {
            None
        }
    }

    /// What is left of the program: its lines from the cursor on, joined by
    /// line feeds. Blank lines and comments are no part of it.
    pub fn get_remaining_gcode(&self) -> (r: String)
        ensures
            r@ == remaining_gcode(self.gcode@, self.current_line),
    {
        let all = code_lines_of(self.gcode.as_str());
        assert(views(all@).len() == all@.len());
        if self.current_line > all.len() {
            return String::new();
        }
        let mut rest: Vec<Vec<char>> = Vec::new();
        let mut i: usize = self.current_line;
        let ghost want = lines_from_cursor(self.gcode@, self.current_line);
        assert(views(rest@) =~= want.take(0));
        while i < all.len()
            invariant
                self.current_line <= i <= all@.len(),
                views(all@) == code_lines(self.gcode@),
                want == lines_from_cursor(self.gcode@, self.current_line),
                views(rest@) == want.take(i - self.current_line),
            decreases all@.len() - i,
        {
            let ghost before = views(rest@);
            let line = slice(&all[i], 0, all[i].len());
            assert(line@ == views(all@)[i as int]);
            rest.push(line);
            assert(views(rest@) =~= before.push(line@));
            assert(want.take(i + 1 - self.current_line) =~= want.take(i - self.current_line).push(
                line@,
            ));
            i += 1;
        }
        assert(want.take(want.len() as int) =~= want);
        let mut feed: Vec<char> = Vec::new();
        feed.push('\n');
        assert(feed@ == seq!['\n']);
        let text = joined(&rest, &feed);
        string_of(&text)
    }
}

/// A job in the queue, with the number it was queued under.
#[derive(Debug)]
pub struct QueuedJob {
    pub priority: Priority,
    pub sequence: u64,
    pub job: Job,
}

/// Whether `a` is served before `b`: the higher priority first, and at equal
/// priority the one queued earlier.
pub open spec fn served_before(a: QueuedJob, b: QueuedJob) -> bool {
    a.priority.0 > b.priority.0 || (a.priority.0 == b.priority.0 && a.sequence < b.sequence)
}

/// Whether a queue stands in the order of service, with every number given
/// out below `next`.
pub open spec fn in_service_order(q: Seq<QueuedJob>, next: u64) -> bool {
    &&& forall|i: int, j: int| 0 <= i < j < q.len() ==> served_before(#[trigger] q[i], #[trigger] q[j])
    &&& forall|i: int| 0 <= i < q.len() ==> (#[trigger] q[i]).sequence < next
}

/// The place of a new job of the given priority: behind every job of that
/// priority or a higher one, at or after `i`.
pub open spec fn place_for(q: Seq<QueuedJob>, priority: u32, i: int) -> int
    decreases q.len() - i,
{
    if 0 <= i < q.len() && q[i].priority.0 >= priority {
        place_for(q, priority, i + 1)
    } else {
        i
    }
}

/// Everything the manager holds.
pub ghost struct ManagerModel {
    /// The queued jobs, the next to be served first.
    pub queue: Seq<QueuedJob>,
    /// The number that the next queued job gets.
    pub next_sequence: u64,
    pub active: Option<Job>,
    pub completed: Seq<Job>,
}

/// The queue after a job was added.
pub open spec fn enqueued(q: Seq<QueuedJob>, next: u64, job: Job) -> Seq<QueuedJob> {
    q.insert(
        place_for(q, job.priority.0, 0),
        QueuedJob { priority: job.priority, sequence: next, job },
    )
}

/// The place of a new job lies within the queue, behind jobs of its priority or a higher one only, and before a job of a lower one.
pub proof fn lemma_place_for(q: Seq<QueuedJob>, priority: u32, i: int)
    requires
        0 <= i <= q.len(),
    ensures
        i <= place_for(q, priority, i) <= q.len(),
        forall|k: int| i <= k < place_for(q, priority, i) ==> (#[trigger] q[k]).priority.0 >= priority,
        place_for(q, priority, i) < q.len() ==> q[place_for(q, priority, i)].priority.0 < priority,
    decreases q.len() - i,
{
    if i < q.len() && q[i].priority.0 >= priority {
        lemma_place_for(q, priority, i + 1);
    }
}

/// Queuing keeps the order of service: the new job stands behind every job
/// of its priority or a higher one and before every job of a lower one, and
/// the jobs that were queued keep their order among themselves.
pub proof fn lemma_enqueue_keeps_order(q: Seq<QueuedJob>, next: u64, job: Job)
    requires
        in_service_order(q, next),
        next < u64::MAX,
    ensures
        in_service_order(enqueued(q, next, job), (next + 1) as u64),
        enqueued(q, next, job).len() == q.len() + 1,
        enqueued(q, next, job).remove(place_for(q, job.priority.0, 0)) == q,
{
    let p = place_for(q, job.priority.0, 0);
    lemma_place_for(q, job.priority.0, 0);
    let e = QueuedJob { priority: job.priority, sequence: next, job };
    let r = enqueued(q, next, job);
    assert(r.remove(p) =~= q);
    assert forall|i: int, j: int| 0 <= i < j < r.len() implies served_before(
        #[trigger] r[i],
        #[trigger] r[j],
    ) by {
        if j == p {
            assert(r[i] == q[i]);
        } else if i == p {
            assert(r[j] == q[j - 1]);
            if p < q.len() {
                if j - 1 > p {
                    assert(served_before(q[p], q[j - 1]));
                }
            }
        } else {
            let a = if i < p {
                i
            } else {
                i - 1
            };
            let b = if j < p {
                j
            } else {
                j - 1
            };
            assert(r[i] == q[a]);
            assert(r[j] == q[b]);
            assert(served_before(q[a], q[b]));
        }
    }
    assert forall|i: int| 0 <= i < r.len() implies (#[trigger] r[i]).sequence < next + 1 by {
        if i < p {
            assert(r[i] == q[i]);
        } else if i > p {
            assert(r[i] == q[i - 1]);
        }
    }
}

/// In a queue that stands in the order of service, no job is served before
/// the first: none has a higher priority, and none of the same priority was
/// queued earlier.
pub proof fn lemma_first_is_served_first(q: Seq<QueuedJob>, next: u64)
    requires
        in_service_order(q, next),
        q.len() > 0,
    ensures
        forall|j: int| 0 < j < q.len() ==> served_before(q[0], #[trigger] q[j]),
        forall|j: int| 0 <= j < q.len() ==> (#[trigger] q[j]).priority.0 <= q[0].priority.0,
        in_service_order(q.subrange(1, q.len() as int), next),
{
    let rest = q.subrange(1, q.len() as int);
    assert forall|i: int, j: int| 0 <= i < j < rest.len() implies served_before(
        #[trigger] rest[i],
        #[trigger] rest[j],
    ) by {
        assert(rest[i] == q[i + 1]);
        assert(rest[j] == q[j + 1]);
    }
    assert forall|j: int| 0 <= j < q.len() implies (#[trigger] q[j]).priority.0
        <= q[0].priority.0 by {
        if j > 0 {
            assert(served_before(q[0], q[j]));
        }
    }
}

/// Job manager: queues jobs and keeps track of the one being run.
pub struct JobManager {
    queue: Vec<QueuedJob>,
    sequence: u64,
    active_job: Option<Job>,
    completed_jobs: Vec<Job>,
}

impl View for JobManager {
    type V = ManagerModel;

    closed spec fn view(&self) -> ManagerModel {
        ManagerModel {
            queue: self.queue@,
            next_sequence: self.sequence,
            active: self.active_job,
            completed: self.completed_jobs@,
        }
    }
}

impl JobManager {
    /// An empty manager.
    pub fn new() -> (r: JobManager)
        ensures
            r@.queue == Seq::<QueuedJob>::empty(),
            r@.next_sequence == 0,
            r@.active is None,
            r@.completed == Seq::<Job>::empty(),
            in_service_order(r@.queue, r@.next_sequence),
    {
        JobManager { queue: Vec::new(), sequence: 0, active_job: None, completed_jobs: Vec::new() }
    }

    /// Whether another job can be queued: the numbers that queued jobs are
    /// given have not run out.
    pub fn can_queue(&self) -> (r: bool)
        ensures
            r == (self@.next_sequence < u64::MAX),
    {
        self.sequence < u64::MAX
    }

    /// Adds a job to the queue, behind every queued job of its priority or a
    /// higher one.
    pub fn queue_job(&mut self, job: Job)
        requires
            old(self)@.next_sequence < u64::MAX,
        ensures
            final(self)@ == (ManagerModel {
                queue: enqueued(old(self)@.queue, old(self)@.next_sequence, job),
                next_sequence: (old(self)@.next_sequence + 1) as u64,
                ..old(self)@
            }),
            in_service_order(old(self)@.queue, old(self)@.next_sequence) ==> in_service_order(
                final(self)@.queue,
                final(self)@.next_sequence,
            ),
    {
        let priority = job.priority;
        let mut p: usize = 0;
        while p < self.queue.len() && self.queue[p].priority.0 >= priority.0
            invariant
                p <= self.queue@.len(),
                self.queue@ == old(self).queue@,
                place_for(self.queue@, priority.0, p as int) == place_for(
                    self.queue@,
                    priority.0,
                    0,
                ),
            decreases self.queue@.len() - p,
        {
            p += 1;
        }
        let entry = QueuedJob { priority, sequence: self.sequence, job };
        self.queue.insert(p, entry);
        self.sequence = self.sequence + 1;
        proof {
            if in_service_order(old(self)@.queue, old(self)@.next_sequence) {
                lemma_enqueue_keeps_order(old(self)@.queue, old(self)@.next_sequence, job);
            }
        }
    }

    /// Takes the next job off the queue: the one of the highest priority,
    /// and among those of one priority the one queued first.
    pub fn get_next_job(&mut self) -> (r: Option<Job>)
        ensures
            old(self)@.queue.len() == 0 ==> r is None && final(self)@ == old(self)@,
            old(self)@.queue.len() > 0 ==> r == Some(old(self)@.queue[0].job) && final(self)@ == (
            ManagerModel {
                queue: old(self)@.queue.subrange(1, old(self)@.queue.len() as int),
                ..old(self)@
            }),
            in_service_order(old(self)@.queue, old(self)@.next_sequence) ==> in_service_order(
                final(self)@.queue,
                final(self)@.next_sequence,
            ),
    {
        if self.queue.len() == 0 {
            return None;
        }
        proof {
            if in_service_order(old(self)@.queue, old(self)@.next_sequence) {
                lemma_first_is_served_first(old(self)@.queue, old(self)@.next_sequence);
            }
        }
        let entry = self.queue.remove(0);
        assert(self.queue@ =~= old(self)@.queue.subrange(1, old(self)@.queue.len() as int));
        Some(entry.job)
    }

    /// Makes `job` the active job; a job that was active is dropped.
    pub fn set_active_job(&mut self, job: Job)
        ensures
            final(self)@ == (ManagerModel { active: Some(job), ..old(self)@ }),
    {
        self.active_job = Some(job);
    }

    /// The active job, for reading and changing.
    pub fn get_active_job(&mut self) -> (r: Option<&mut Job>)
        ensures
            match r {
                Some(j) => old(self)@.active == Some(*j) && final(self)@ == (ManagerModel {
                    active: Some(*final(j)),
                    ..old(self)@
                }),
                None => old(self)@.active is None && final(self)@ == old(self)@,
            },
    {
        self.active_job.as_mut()
    }

    /// Completes the active job now and moves it to the completed jobs;
    /// without an active job nothing changes.
    pub fn complete_active_job(&mut self)
        ensures
            old(self)@.active is None ==> final(self)@ == old(self)@,
            old(self)@.active is Some ==> final(self)@.completed.len() == old(self)@.completed.len()
                + 1 && final(self)@.completed.last().completed_at is Some && final(self)@ == (
            ManagerModel {
                active: None,
                completed: old(self)@.completed.push(
                    Job {
                        state: JobState::Completed,
                        completed_at: final(self)@.completed.last().completed_at,
                        progress: Progress { completed: 1, total: 1 },
                        ..old(self)@.active->0
                    },
                ),
                ..old(self)@
            }),
    {
        match self.active_job.take() {
            Some(job) => {
                let mut j = job;
                j.complete();
                self.completed_jobs.push(j);
            },
            None => {},
        }
    }

    /// Fails the active job now, with the reason, and moves it to the
    /// completed jobs; without an active job nothing changes.
    pub fn fail_active_job(&mut self, error: String)
        ensures
            old(self)@.active is None ==> final(self)@ == old(self)@,
            old(self)@.active is Some ==> final(self)@.completed.len() == old(self)@.completed.len()
                + 1 && final(self)@.completed.last().completed_at is Some && final(self)@ == (
            ManagerModel {
                active: None,
                completed: old(self)@.completed.push(
                    Job {
                        state: JobState::Failed,
                        error_message: Some(error),
                        completed_at: final(self)@.completed.last().completed_at,
                        ..old(self)@.active->0
                    },
                ),
                ..old(self)@
            }),
    {
        match self.active_job.take() {
            Some(job) => {
                let mut j = job;
                j.fail(error);
                self.completed_jobs.push(j);
            },
            None => {},
        }
    }

    /// The number of queued jobs.
    pub fn queue_length(&self) -> (r: usize)
        ensures
            r == self@.queue.len(),
    {
        self.queue.len()
    }

    /// The number of completed jobs.
    pub fn completed_count(&self) -> (r: usize)
        ensures
            r == self@.completed.len(),
    {
        self.completed_jobs.len()
    }

    /// The completed jobs, oldest first.
    pub fn get_completed_jobs(&self) -> (r: &[Job])
        ensures
            r@ == self@.completed,
    {
        self.completed_jobs.as_slice()
    }

    /// Forgets the completed jobs.
    pub fn clear_completed(&mut self)
        ensures
            final(self)@ == (ManagerModel { completed: Seq::empty(), ..old(self)@ }),
    {
        self.completed_jobs.clear();
    }

    /// Resumes the active job if it is paused. Tells whether there is an
    /// active job.
    pub fn resume_active_job(&mut self) -> (r: bool)
        ensures
            r == old(self)@.active is Some,
            !r ==> final(self)@ == old(self)@,
            r ==> final(self)@ == (ManagerModel {
                active: Some(
                    Job {
                        state: if old(self)@.active->0.state == JobState::Paused {
                            JobState::Running
                        } else {
                            old(self)@.active->0.state
                        },
                        ..old(self)@.active->0
                    },
                ),
                ..old(self)@
            }),
    {
        match self.active_job.take() {
            Some(job) => {
                let mut j = job;
                j.resume();
                self.active_job = Some(j);
                true
            },
            None => false,
        }
    }
}

impl Default for JobManager {
    fn default() -> (r: JobManager)
        ensures
            r@.queue == Seq::<QueuedJob>::empty(),
            r@.next_sequence == 0,
            r@.active is None,
            r@.completed == Seq::<Job>::empty(),
    {
        JobManager::new()
    }
}

} // verus!
