//! Background tasks: their states, the bounded output buffer, the
//! notifications sent when they finish, and the registry that tracks them.
//!
//! Spawning and cancelling the work itself is left to the caller; the
//! registry records what happened and decides what is reported.
use vstd::prelude::*;

use crate::text::{
    byte_len, chars_of, decimal_i32, lemma_utf8_len_take, push_hex_byte, hex_byte, push_str,
    signed_decimal, str_eq, sub_string, utf8_len, char_len_utf8,
};

verus! {

/// Maximum output buffer size per task (100 KB). Older output is dropped.
pub const MAX_OUTPUT_BYTES: usize = 102400;

/// A notification about a completed background task, ready for injection
/// into the conversation.
#[derive(Debug, Clone)]
pub struct TaskNotification {
    pub task_id: String,
    pub description: String,
    pub status: String,
    pub summary: String,
}

/// The XML text of a notification.
pub open spec fn notification_message(id: Seq<char>, status: Seq<char>, summary: Seq<char>) -> Seq<char> {
    "<task-notification>\n<task-id>"@ + id + "</task-id>\n<status>"@ + status
        + "</status>\n<summary>"@ + summary + "</summary>\n</task-notification>"@
}

impl TaskNotification {
    /// Format as the XML structure the model expects.
    pub fn to_message(&self) -> (r: String)
        ensures
            r@ == notification_message(self.task_id@, self.status@, self.summary@),
    {
        let mut r = "<task-notification>\n<task-id>".to_string();
        push_str(&mut r, self.task_id.as_str());
        push_str(&mut r, "</task-id>\n<status>");
        push_str(&mut r, self.status.as_str());
        push_str(&mut r, "</status>\n<summary>");
        push_str(&mut r, self.summary.as_str());
        push_str(&mut r, "</summary>\n</task-notification>");
        r
    }

    /// A copy with equal contents.
    pub fn duplicate(&self) -> (r: Self)
        ensures
            r.task_id@ == self.task_id@,
            r.description@ == self.description@,
            r.status@ == self.status@,
            r.summary@ == self.summary@,
    {
        TaskNotification {
            task_id: self.task_id.clone(),
            description: self.description.clone(),
            status: self.status.clone(),
            summary: self.summary.clone(),
        }
    }
}

/// What kind of background task this is.
#[derive(Debug, Clone)]
pub enum BackgroundTaskKind {
    Shell { command: String },
    Agent { prompt: String, agent_type: Option<String> },
}

/// Current status of a background task.
#[derive(Debug, Clone, PartialEq, Eq)]
pub enum BackgroundTaskStatus {
    Running,
    Completed { exit_code: Option<i32> },
    Failed { error: String },
    Killed,
}

/// The label of a status.
pub open spec fn status_label(s: BackgroundTaskStatus) -> Seq<char> {
    match s {
        BackgroundTaskStatus::Running => "running"@,
        BackgroundTaskStatus::Completed { .. } => "completed"@,
        BackgroundTaskStatus::Failed { .. } => "failed"@,
        BackgroundTaskStatus::Killed => "killed"@,
    }
}

/// The contents of a status.
pub open spec fn status_view(s: BackgroundTaskStatus) -> (int, Option<int>, Seq<char>) {
    match s {
        BackgroundTaskStatus::Running => (0, None, seq![]),
        BackgroundTaskStatus::Completed { exit_code } => (1, match exit_code {
            Some(c) => Some(c as int),
            None => None,
        }, seq![]),
        BackgroundTaskStatus::Failed { error } => (2, None, error@),
        BackgroundTaskStatus::Killed => (3, None, seq![]),
    }
}

impl BackgroundTaskStatus {
    /// Whether the task has finished, one way or another.
    pub fn is_terminal(&self) -> (b: bool)
        ensures
            b == !(*self is Running),
    {
        match self {
            BackgroundTaskStatus::Running => false,
            _ => true,
        }
    }

    /// The status word.
    pub fn label(&self) -> (r: &'static str)
        ensures
            r@ == status_label(*self),
    {
        match self {
            BackgroundTaskStatus::Running => "running",
            BackgroundTaskStatus::Completed { .. } => "completed",
            BackgroundTaskStatus::Failed { .. } => "failed",
            BackgroundTaskStatus::Killed => "killed",
        }
    }

    /// A copy with equal contents.
    pub fn duplicate(&self) -> (r: Self)
        ensures
            status_view(r) == status_view(*self),
    {
        match self {
            BackgroundTaskStatus::Running => BackgroundTaskStatus::Running,
            BackgroundTaskStatus::Completed { exit_code } => BackgroundTaskStatus::Completed {
                exit_code: *exit_code,
            },
            BackgroundTaskStatus::Failed { error } => BackgroundTaskStatus::Failed {
                error: error.clone(),
            },
            BackgroundTaskStatus::Killed => BackgroundTaskStatus::Killed,
        }
    }
}

/// The smallest character index at or after `k` where the prefix of `s`
/// holds at least `b` bytes, or the length of `s` (`ceil_char_boundary`).
pub open spec fn ceil_from(s: Seq<char>, b: int, k: int) -> int
    decreases s.len() - k,
{
    if k >= s.len() || utf8_len(s.take(k)) >= b {
        k
    } else {
        ceil_from(s, b, k + 1)
    }
}

/// The marker put in front of a buffer whose start was dropped.
pub open spec fn truncation_marker() -> Seq<char> {
    "[...output truncated...]\n"@
}

/// The buffer after appending `text` to `buf`: when it holds more than
/// `MAX_OUTPUT_BYTES` bytes, its front is dropped up to the first character
/// boundary at or after `len - MAX_OUTPUT_BYTES + 64`, and the marker put
/// in front.
pub open spec fn appended_output(buf: Seq<char>, text: Seq<char>) -> Seq<char> {
    let s = buf + text;
    let n = utf8_len(s) as int;
    if n > MAX_OUTPUT_BYTES {
        truncation_marker() + s.skip(ceil_from(s, n - MAX_OUTPUT_BYTES + 64, 0))
    } else {
        s
    }
}

/// Append text to a bounded output buffer. If it exceeds
/// `MAX_OUTPUT_BYTES`, the front is dropped and a marker put in its place.
pub fn append_output(buf: &mut String, text: &str)
    ensures
        final(buf)@ == appended_output(old(buf)@, text@),
{
    push_str(buf, text);
    let n = byte_len(buf.as_str());
    if n > MAX_OUTPUT_BYTES {
        let trim_to = n - MAX_OUTPUT_BYTES + 64;
        let v = chars_of(buf.as_str());
        let len = v.len();
        let ghost s = v@;
        let mut k: usize = 0;
        let mut bytes: usize = 0;
        proof {
            assert(s.take(0) == Seq::<char>::empty());
        }
        while k < len && bytes < trim_to
            invariant
                len == s.len(),
                v@ == s,
                k <= len,
                bytes == utf8_len(s.take(k as int)),
                bytes <= n,
                n == utf8_len(s),
                ceil_from(s, trim_to as int, 0) == ceil_from(s, trim_to as int, k as int),
            decreases len - k,
        {
            proof {
                lemma_utf8_len_take(s, k as int);
                crate::text::lemma_utf8_len_prefix_le(s, k + 1);
            }
            bytes = bytes + char_len_utf8(v[k]);
            k = k + 1;
        }
        let rest = sub_string(v.as_slice(), k, len);
        let mut out = "[...output truncated...]\n".to_string();
        push_str(&mut out, rest.as_str());
        proof {
            assert(s.subrange(k as int, len as int) == s.skip(k as int));
        }
        *buf = out;
    }
}

/// Two lower-case hexadecimal digits per byte.
pub open spec fn hex_bytes(b: Seq<u8>) -> Seq<char>
    decreases b.len(),
{
    if b.len() == 0 {
        seq![]
    } else {
        hex_bytes(b.drop_last()) + hex_byte(b.last())
    }
}

/// The id of a background task made from four bytes: `bg_` and eight
/// hexadecimal digits.
pub fn format_task_id(bytes: [u8; 4]) -> (id: String)
    ensures
        id@ == "bg_"@ + hex_bytes(bytes@),
{
    let mut id = "bg_".to_string();
    let mut i: usize = 0;
    while i < 4
        invariant
            i <= 4,
            bytes@.len() == 4,
            id@ == "bg_"@ + hex_bytes(bytes@.take(i as int)),
        decreases 4 - i,
    {
        push_hex_byte(&mut id, bytes[i]);
        assert(bytes@.take(i + 1).drop_last() == bytes@.take(i as int));
        i = i + 1;
    }
    assert(bytes@.take(4) == bytes@);
    id
}

/// A single background task being tracked.
#[derive(Debug)]
pub struct BackgroundTask {
    pub id: String,
    pub kind: BackgroundTaskKind,
    pub description: String,
    pub status: BackgroundTaskStatus,
    /// When the task started, in seconds.
    pub started_at: u64,
    /// When the task finished, in seconds.
    pub completed_at: Option<u64>,
    /// Captured output (stdout and stderr interleaved), bounded to
    /// `MAX_OUTPUT_BYTES`.
    pub output: String,
    /// Set once the end of the task is reported.
    pub notified: bool,
}

/// Lightweight summary for listing and display.
#[derive(Debug, Clone)]
pub struct TaskSummary {
    pub id: String,
    pub description: String,
    pub status: String,
    pub elapsed_secs: u64,
}

/// Session-scoped registry of background tasks.
pub struct BackgroundTaskManager {
    tasks: Vec<BackgroundTask>,
    notifications: Vec<TaskNotification>,
}

/// The index of the task with id `id`.
pub open spec fn task_index(tasks: Seq<BackgroundTask>, id: Seq<char>) -> Option<int> {
    if exists|i: int| 0 <= i < tasks.len() && tasks[i].id@ == id {
        Some(choose|i: int| 0 <= i < tasks.len() && tasks[i].id@ == id)
    } else {
        None
    }
}

/// The word for the kind of task in a summary.
pub open spec fn kind_word(k: BackgroundTaskKind) -> Seq<char> {
    match k {
        BackgroundTaskKind::Shell { .. } => "command"@,
        BackgroundTaskKind::Agent { .. } => "agent"@,
    }
}

/// The summary of a finished task.
pub open spec fn completion_summary(kind: BackgroundTaskKind, desc: Seq<char>, status: BackgroundTaskStatus) -> Seq<char> {
    match status {
        BackgroundTaskStatus::Completed { exit_code } => "Background "@ + kind_word(kind) + " \""@ + desc
            + "\""@ + match exit_code {
            Some(c) => " (exit code "@ + signed_decimal(c as int) + ")"@,
            None => seq![],
        },
        BackgroundTaskStatus::Failed { error } => "Background task \""@ + desc + "\" failed: "@ + error@,
        BackgroundTaskStatus::Killed => "Background task \""@ + desc + "\" was stopped"@,
        BackgroundTaskStatus::Running => seq![],
    }
}

impl View for BackgroundTaskManager {
    type V = (Seq<BackgroundTask>, Seq<TaskNotification>);

    closed spec fn view(&self) -> (Seq<BackgroundTask>, Seq<TaskNotification>) {
        (self.tasks@, self.notifications@)
    }
}

proof fn lemma_task_index_unique(tasks: Seq<BackgroundTask>, id: Seq<char>, k: int)
    requires
        forall|i: int, j: int| 0 <= i < j < tasks.len() ==> tasks[i].id@ != tasks[j].id@,
        0 <= k < tasks.len(),
        tasks[k].id@ == id,
    ensures
        task_index(tasks, id) == Some(k),
{
}

impl BackgroundTaskManager {
    /// No two tasks share an id.
    pub open spec fn wf(&self) -> bool {
        forall|i: int, j: int| 0 <= i < j < self@.0.len() ==> self@.0[i].id@ != self@.0[j].id@
    }

    pub fn new() -> (r: Self)
        ensures
            r@.0.len() == 0,
            r@.1.len() == 0,
            r.wf(),
    {
        BackgroundTaskManager { tasks: Vec::new(), notifications: Vec::new() }
    }

    fn position(&self, id: &str) -> (r: Option<usize>)
        requires
            self.wf(),
        ensures
            r matches Some(i) ==> task_index(self@.0, id@) == Some(i as int) && i < self@.0.len(),
            r is None ==> task_index(self@.0, id@) is None,
    {
        let mut i: usize = 0;
        while i < self.tasks.len()
            invariant
                self.wf(),
                i <= self.tasks@.len(),
                forall|j: int| 0 <= j < i ==> self.tasks@[j].id@ != id@,
            decreases self.tasks.len() - i,
        {
            if str_eq(self.tasks[i].id.as_str(), id) {
                proof {
                    lemma_task_index_unique(self@.0, id@, i as int);
                }
                return Some(i);
            }
            i = i + 1;
        }
        None
    }

    /// Register a new running task under a fresh id, started at `now`.
    /// Returns `false`, changing nothing, if the id is taken.
    pub fn register(&mut self, id: String, kind: BackgroundTaskKind, description: String, now: u64) -> (added: bool)
        requires
            old(self).wf(),
        ensures
            final(self).wf(),
            final(self)@.1 == old(self)@.1,
            added == (task_index(old(self)@.0, id@) is None),
            added ==> final(self)@.0.len() == old(self)@.0.len() + 1
                && final(self)@.0.drop_last() == old(self)@.0
                && final(self)@.0.last().id == id && final(self)@.0.last().kind == kind
                && final(self)@.0.last().description == description
                && final(self)@.0.last().status is Running && final(self)@.0.last().started_at == now
                && final(self)@.0.last().completed_at is None && final(self)@.0.last().output@.len() == 0
                && !final(self)@.0.last().notified,
            !added ==> final(self)@.0 == old(self)@.0,
    {
        match self.position(id.as_str()) {
            Some(_) => false,
            None => {
                let task = BackgroundTask {
                    id,
                    kind,
                    description,
                    status: BackgroundTaskStatus::Running,
                    started_at: now,
                    completed_at: None,
                    output: String::new(),
                    notified: false,
                };
                self.tasks.push(task);
                true
            },
        }
    }

    /// Mark a task as finished at `now` and, the first time, queue a
    /// notification. An unknown id changes nothing.
    pub fn complete(&mut self, task_id: &str, status: BackgroundTaskStatus, now: u64)
        requires
            old(self).wf(),
            task_index(old(self)@.0, task_id@) is Some ==> !(status is Running),
        ensures
            final(self).wf(),
            final(self)@.0.len() == old(self)@.0.len(),
            match task_index(old(self)@.0, task_id@) {
                None => final(self)@ == old(self)@,
                Some(i) => {
                    let t = old(self)@.0[i];
                    let u = final(self)@.0[i];
                    &&& forall|j: int| 0 <= j < old(self)@.0.len() && j != i ==> final(self)@.0[j] == old(self)@.0[j]
                    &&& u.id == t.id && u.kind == t.kind && u.description == t.description
                    &&& u.output == t.output && u.started_at == t.started_at
                    &&& u.status == status && u.completed_at == Some(now) && u.notified
                    &&& t.notified ==> final(self)@.1 == old(self)@.1
                    &&& !t.notified ==> final(self)@.1.len() == old(self)@.1.len() + 1
                        && final(self)@.1.take(old(self)@.1.len() as int) == old(self)@.1
                        && final(self)@.1.last().task_id@ == task_id@
                        && final(self)@.1.last().description@ == t.description@
                        && final(self)@.1.last().status@ == status_label(status)
                        && final(self)@.1.last().summary@ == completion_summary(t.kind, t.description@, status)
                },
            },
    {
        match self.position(task_id) {
            None => {},
            Some(i) => {
                let summary = summary_of(&self.tasks[i].kind, self.tasks[i].description.as_str(), &status);
                let label = status.label();
                let was_notified = self.tasks[i].notified;
                let description = self.tasks[i].description.clone();
                let ghost old_tasks = self.tasks@;
                let mut task = self.tasks.remove(i);
                task.status = status;
                task.completed_at = Some(now);
                task.notified = true;
                self.tasks.insert(i, task);
                proof {
                    assert forall|j: int| 0 <= j < old_tasks.len() && j != i implies self.tasks@[j] == old_tasks[j] by {
                        if j < i {
                        } else {
                        }
                    }
                    assert forall|a: int, b: int| 0 <= a < b < self.tasks@.len() implies self.tasks@[a].id@ != self.tasks@[b].id@ by {
                        assert(self.tasks@[a].id == old_tasks[a].id);
                        assert(self.tasks@[b].id == old_tasks[b].id);
                    }
                }
                if !was_notified {
                    let notification = TaskNotification {
                        task_id: task_id.to_string(),
                        description,
                        status: label.to_string(),
                        summary,
                    };
                    self.notifications.push(notification);
                }
            },
        }
    }

    /// Append captured output to a task's bounded buffer. Returns `false`
    /// for an unknown id.
    pub fn append_task_output(&mut self, task_id: &str, text: &str) -> (found: bool)
        requires
            old(self).wf(),
        ensures
            final(self).wf(),
            final(self)@.1 == old(self)@.1,
            final(self)@.0.len() == old(self)@.0.len(),
            found == (task_index(old(self)@.0, task_id@) is Some),
            match task_index(old(self)@.0, task_id@) {
                None => final(self)@ == old(self)@,
                Some(i) => {
                    &&& forall|j: int| 0 <= j < old(self)@.0.len() && j != i ==> final(self)@.0[j] == old(self)@.0[j]
                    &&& final(self)@.0[i].output@ == appended_output(old(self)@.0[i].output@, text@)
                    &&& final(self)@.0[i].id == old(self)@.0[i].id
                    &&& final(self)@.0[i].status == old(self)@.0[i].status
                    &&& final(self)@.0[i].description == old(self)@.0[i].description
                },
            },
    {
        match self.position(task_id) {
            None => false,
            Some(i) => {
                let ghost old_tasks = self.tasks@;
                let mut task = self.tasks.remove(i);
                append_output(&mut task.output, text);
                self.tasks.insert(i, task);
                proof {
                    assert forall|j: int| 0 <= j < old_tasks.len() && j != i implies self.tasks@[j] == old_tasks[j] by {
                        if j < i {
                        } else {
                        }
                    }
                    assert forall|a: int, b: int| 0 <= a < b < self.tasks@.len() implies self.tasks@[a].id@ != self.tasks@[b].id@ by {
                        assert(self.tasks@[a].id == old_tasks[a].id);
                        assert(self.tasks@[b].id == old_tasks[b].id);
                    }
                }
                true
            },
        }
    }

    /// Take all pending notifications, oldest first.
    pub fn drain_notifications(&mut self) -> (r: Vec<TaskNotification>)
        ensures
            r@ == old(self)@.1,
            final(self)@.0 == old(self)@.0,
            final(self)@.1.len() == 0,
    {
        let mut out: Vec<TaskNotification> = Vec::new();
        std::mem::swap(&mut out, &mut self.notifications);
        out
    }

    /// A task's current status.
    pub fn status(&self, task_id: &str) -> (r: Option<BackgroundTaskStatus>)
        requires
            self.wf(),
        ensures
            match task_index(self@.0, task_id@) {
                None => r is None,
                Some(i) => r matches Some(s) && status_view(s) == status_view(self@.0[i].status),
            },
    {
        match self.position(task_id) {
            None => None,
            Some(i) => Some(self.tasks[i].status.duplicate()),
        }
    }

    /// A task's captured output.
    pub fn read_output(&self, task_id: &str) -> (r: Option<String>)
        requires
            self.wf(),
        ensures
            match task_index(self@.0, task_id@) {
                None => r is None,
                Some(i) => r matches Some(s) && s@ == self@.0[i].output@,
            },
    {
        match self.position(task_id) {
            None => None,
            Some(i) => Some(self.tasks[i].output.clone()),
        }
    }

    /// Whether a task can be cancelled: it exists and is still running.
    pub fn cancel(&self, task_id: &str) -> (b: bool)
        requires
            self.wf(),
        ensures
            b == (task_index(self@.0, task_id@) matches Some(i) && self@.0[i].status is Running),
    {
        match self.position(task_id) {
            None => false,
            Some(i) => match self.tasks[i].status {
                BackgroundTaskStatus::Running => true,
                _ => false,
            },
        }
    }

    /// All tasks, in registration order, with their time since start at `now`.
    pub fn list(&self, now: u64) -> (r: Vec<TaskSummary>)
        ensures
            r@.len() == self@.0.len(),
            forall|i: int| 0 <= i < r@.len() ==> {
                let t = #[trigger] self@.0[i];
                &&& r@[i].id@ == t.id@
                &&& r@[i].description@ == t.description@
                &&& r@[i].status@ == status_label(t.status)
                &&& r@[i].elapsed_secs == if now >= t.started_at { now - t.started_at } else { 0 }
            },
    {
        let mut out: Vec<TaskSummary> = Vec::new();
        let mut i: usize = 0;
        while i < self.tasks.len()
            invariant
                i <= self.tasks@.len(),
                out@.len() == i,
                forall|j: int| 0 <= j < i ==> {
                    let t = #[trigger] self.tasks@[j];
                    &&& out@[j].id@ == t.id@
                    &&& out@[j].description@ == t.description@
                    &&& out@[j].status@ == status_label(t.status)
                    &&& out@[j].elapsed_secs == if now >= t.started_at { now - t.started_at } else { 0 }
                },
            decreases self.tasks.len() - i,
        {
            let t = &self.tasks[i];
            let elapsed = if now >= t.started_at { now - t.started_at } else { 0 };
            out.push(TaskSummary {
                id: t.id.clone(),
                description: t.description.clone(),
                status: t.status.label().to_string(),
                elapsed_secs: elapsed,
            });
            i = i + 1;
        }
        out
    }

    /// Number of tasks still running.
    pub fn running_count(&self) -> (n: usize)
        ensures
            n == running_in(self@.0, self@.0.len() as int),
    {
        let mut n: usize = 0;
        let mut i: usize = 0;
        while i < self.tasks.len()
            invariant
                i <= self.tasks@.len(),
                n == running_in(self.tasks@, i as int),
                n <= i,
            decreases self.tasks.len() - i,
        {
            match self.tasks[i].status {
                BackgroundTaskStatus::Running => {
                    n = n + 1;
                },
                _ => {},
            }
            i = i + 1;
        }
        n
    }
}

/// How many of `tasks[..n]` are running.
pub open spec fn running_in(tasks: Seq<BackgroundTask>, n: int) -> nat
    decreases n,
{
    if n <= 0 {
        0
    } else {
        running_in(tasks, n - 1) + if tasks[n - 1].status is Running { 1nat } else { 0nat }
    }
}

fn summary_of(kind: &BackgroundTaskKind, description: &str, status: &BackgroundTaskStatus) -> (r: String)
    ensures
        r@ == completion_summary(*kind, description@, *status),
{
    match status {
        BackgroundTaskStatus::Completed { exit_code } => {
            let mut r = "Background ".to_string();
            match kind {
                BackgroundTaskKind::Shell { .. } => push_str(&mut r, "command"),
                BackgroundTaskKind::Agent { .. } => push_str(&mut r, "agent"),
            }
            push_str(&mut r, " \"");
            push_str(&mut r, description);
            push_str(&mut r, "\"");
            match exit_code {
                Some(c) => {
                    push_str(&mut r, " (exit code ");
                    let d = decimal_i32(*c);
                    push_str(&mut r, d.as_str());
                    push_str(&mut r, ")");
                },
                None => {},
            }
            r
        },
        BackgroundTaskStatus::Failed { error } => {
            let mut r = "Background task \"".to_string();
            push_str(&mut r, description);
            push_str(&mut r, "\" failed: ");
            push_str(&mut r, error.as_str());
            r
        },
        BackgroundTaskStatus::Killed => {
            let mut r = "Background task \"".to_string();
            push_str(&mut r, description);
            push_str(&mut r, "\" was stopped");
            r
        },
        BackgroundTaskStatus::Running => String::new(),
    }
}

/// A task registered under a fresh id is found under that id, and the
/// tasks registered before it are found where they were.
pub proof fn law_register_then_find(tasks: Seq<BackgroundTask>, t: BackgroundTask, other: Seq<char>)
    requires
        forall|i: int, j: int| 0 <= i < j < tasks.len() ==> tasks[i].id@ != tasks[j].id@,
        task_index(tasks, t.id@) is None,
    ensures
        task_index(tasks.push(t), t.id@) == Some(tasks.len() as int),
        other != t.id@ ==> task_index(tasks.push(t), other) == task_index(tasks, other),
{
    let u = tasks.push(t);
    assert forall|i: int, j: int| 0 <= i < j < u.len() implies u[i].id@ != u[j].id@ by {
        if j == tasks.len() {
            assert(!(0 <= i < tasks.len() && tasks[i].id@ == t.id@));
        }
    }
    lemma_task_index_unique(u, t.id@, tasks.len() as int);
    if other != t.id@ {
        match task_index(tasks, other) {
            Some(k) => {
                lemma_task_index_unique(u, other, k);
            },
            None => {
                assert(!(exists|i: int| 0 <= i < u.len() && u[i].id@ == other)) by {
                    if exists|i: int| 0 <= i < u.len() && u[i].id@ == other {
                        let i = choose|i: int| 0 <= i < u.len() && u[i].id@ == other;
                        assert(u[i] == tasks[i]);
                    }
                }
            },
        }
    }
}

} // verus!
