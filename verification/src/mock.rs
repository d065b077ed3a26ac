//! The mock generator: answers the generator protocol from a table of
//! simulated tasks, for development without a real generator.
//!
//! The shell drives the simulated progress of an accepted task by calling
//! `advance` five times (half a second apart) and then `complete`.
use vstd::prelude::*;

use crate::error::AppError;
use crate::generator::{
    CancelResponse, ExecuteResponse, GeneratedSkill, GeneratorTaskStatus, ListSkillsResponse,
    SkillInfo, StatusResponse, TaskResult,
};
use crate::generator::generator_task_status_name;
use crate::json::{
    get_member_str, json_array_value, json_bool, json_bool_value, json_empty_object, json_insert,
    json_is_object, json_items, json_str, json_member, json_null, json_opt_string, json_string_array,
    json_string_value, json_text, json_u64, json_u64_value, member_str, str_or_null,
};
use crate::models::opt_view;
use crate::text::{concat2, decimal, owned, push_decimal, str_eq};
use crate::workhub::{has_str, is_string_array};

verus! {

/// The state of one simulated task. `result_ready` tells whether the
/// task holds the mock result (it does once completed).
#[derive(Debug, Clone, PartialEq, Eq)]
pub struct MockTask {
    pub status: GeneratorTaskStatus,
    pub progress: u8,
    pub current_step: Option<String>,
    pub result_ready: bool,
    pub error: Option<String>,
}

/// The methods the mock answers.
#[derive(Debug, Clone, Copy, PartialEq, Eq, Structural)]
pub enum MockMethod {
    Execute,
    Status,
    Cancel,
    ListSkills,
    GatewayInfo,
}

/// What `gateway.info` reports.
#[derive(Debug, Clone, PartialEq, Eq)]
pub struct MockGatewayInfo {
    pub version: String,
    pub features: Vec<String>,
}

/// A transport that simulates the generator.
pub struct MockTransport {
    tasks: Vec<(String, MockTask)>,
    connected: bool,
}

/// No two entries of a task table share a key.
pub open spec fn keys_unique(s: Seq<(String, MockTask)>) -> bool {
    forall|i: int, j: int| 0 <= i < s.len() && 0 <= j < s.len() && i != j ==> s[i].0@ != s[j].0@
}

/// The task stored under `key`, if any.
pub open spec fn lookup(s: Seq<(String, MockTask)>, key: Seq<char>) -> Option<MockTask> {
    if exists|i: int| 0 <= i < s.len() && s[i].0@ == key {
        Some(s[choose|i: int| 0 <= i < s.len() && s[i].0@ == key].1)
    } else {
        None
    }
}

/// The key under which a request's task is kept: its `task_id`, or
/// `unknown` where the request names none.
pub open spec fn task_key(task_id: Option<&str>) -> Seq<char> {
    match task_id {
        Some(s) => s@,
        None => "unknown"@,
    }
}

/// A task as `generator.execute` creates it.
pub open spec fn is_fresh_task(t: MockTask) -> bool {
    &&& t.status == GeneratorTaskStatus::Running
    &&& t.progress == 0
    &&& t.current_step matches Some(s) && s@ == "Initializing..."@
    &&& !t.result_ready
    &&& t.error is None
}

/// The step text shown during simulated step `step` of five.
pub open spec fn step_text(step: nat) -> Seq<char> {
    "Processing step "@ + decimal(step) + "/5..."@
}

/// `r` is a transport error with message `m`.
pub open spec fn is_transport_error<T>(r: Result<T, AppError>, m: Seq<char>) -> bool {
    r matches Err(AppError::Transport(e)) && e@ == m
}

/// `u` is task `t` after simulated step `step`.
pub open spec fn is_advanced(t: MockTask, u: Option<MockTask>, step: nat) -> bool {
    &&& u is Some
    &&& u->0.status == t.status
    &&& u->0.progress == step * 20
    &&& u->0.current_step matches Some(s) && s@ == step_text(step)
    &&& u->0.result_ready == t.result_ready
    &&& u->0.error == t.error
}

/// `u` is task `t` after completion.
pub open spec fn is_completed(t: MockTask, u: Option<MockTask>) -> bool {
    &&& u is Some
    &&& u->0.status == GeneratorTaskStatus::Completed
    &&& u->0.progress == 100
    &&& u->0.current_step matches Some(s) && s@ == "Done"@
    &&& u->0.result_ready
    &&& u->0.error == t.error
}

/// `r` is the status reply for the task kept under `key`, if any: the
/// task's state, with the mock result once it is ready; for an unknown
/// task, a pending reply with the error `Task not found`.
pub open spec fn status_reply(task: Option<MockTask>, key: Seq<char>, r: StatusResponse) -> bool {
    &&& r.task_id@ == key
    &&& match task {
        Some(t) => {
            &&& r.status == t.status
            &&& r.progress == t.progress
            &&& r.current_step == t.current_step
            &&& (r.result is Some <==> t.result_ready)
            &&& (r.result matches Some(res) ==> is_mock_result(res))
            &&& r.error == t.error
        },
        None => {
            &&& r.status == GeneratorTaskStatus::Pending
            &&& r.progress == 0
            &&& r.current_step is None
            &&& r.result is None
            &&& r.error matches Some(e) && e@ == "Task not found"@
        },
    }
}

/// How many steps a simulated run takes: five of progress, then the
/// completion.
pub const SIMULATION_STEPS: u8 = 6;

/// `u` is task `t` after simulated step `step` (of six).
pub open spec fn simulated_step(t: MockTask, u: Option<MockTask>, step: nat) -> bool {
    if step <= 5 {
        is_advanced(t, u, step)
    } else {
        is_completed(t, u)
    }
}

/// `ts` is an accepted task through its simulated run: freshly accepted,
/// then after each of the six steps in turn.
pub open spec fn simulated_run(ts: Seq<MockTask>) -> bool {
    &&& ts.len() == SIMULATION_STEPS + 1
    &&& is_fresh_task(ts[0])
    &&& forall|i: int| 1 <= i <= SIMULATION_STEPS ==> simulated_step(ts[i - 1], Some(#[trigger] ts[i]), i as nat)
}

/// Over the simulated run of an accepted task, its progress never
/// decreases and stays within 0 to 100; it runs through 20, 40, 60, 80,
/// 100 while the task is running, and the run ends with the task
/// completed at 100, with the mock result.
pub proof fn law_simulated_progress(ts: Seq<MockTask>)
    requires
        simulated_run(ts),
    ensures
        forall|i: int, j: int| 0 <= i <= j < ts.len() ==> #[trigger] ts[i].progress <= #[trigger] ts[j].progress,
        forall|i: int| 0 <= i < ts.len() ==> #[trigger] ts[i].progress <= 100,
        forall|i: int| 0 <= i < ts.len() - 1 ==> #[trigger] ts[i].status == GeneratorTaskStatus::Running
            && ts[i].progress == 20 * i,
        ts.last().status == GeneratorTaskStatus::Completed,
        ts.last().progress == 100,
        ts.last().result_ready,
{
    assert forall|i: int| 0 <= i < ts.len() - 1 implies #[trigger] ts[i].status == GeneratorTaskStatus::Running
        && ts[i].progress == 20 * i by {
        if i >= 1 {
            assert(simulated_step(ts[0], Some(ts[1]), 1));
            assert(simulated_step(ts[1], Some(ts[2]), 2));
            assert(simulated_step(ts[2], Some(ts[3]), 3));
            assert(simulated_step(ts[3], Some(ts[4]), 4));
            assert(simulated_step(ts[4], Some(ts[5]), 5));
        }
    }
    assert(simulated_step(ts[5], Some(ts[6]), 6));
}

/// A status query right after a task was accepted reports it running at
/// step zero, initializing, with no result and no error.
pub proof fn law_status_after_execute(task: Option<MockTask>, key: Seq<char>, r: StatusResponse)
    requires
        task matches Some(t) && is_fresh_task(t),
        status_reply(task, key, r),
    ensures
        r.task_id@ == key,
        r.status == GeneratorTaskStatus::Running,
        r.progress == 0,
        r.current_step matches Some(s) && s@ == "Initializing..."@,
        r.result is None,
        r.error is None,
{
}

/// A status query after a task completed reports it completed at full
/// progress, done, with the mock result.
pub proof fn law_status_after_completion(before: MockTask, task: Option<MockTask>, key: Seq<char>, r: StatusResponse)
    requires
        is_completed(before, task),
        status_reply(task, key, r),
    ensures
        r.status == GeneratorTaskStatus::Completed,
        r.progress == 100,
        r.current_step matches Some(s) && s@ == "Done"@,
        r.result matches Some(res) && is_mock_result(res),
        r.error == before.error,
{
}

/// The fixed result of a completed mock task.
pub open spec fn is_mock_result(r: TaskResult) -> bool {
    &&& r.summary@ == "Mock generation completed successfully"@
    &&& r.user_manual matches Some(m) && m@ == mock_manual()
    &&& r.skills@.len() == 1
    &&& r.skills@[0].name@ == "mock_skill"@
    &&& r.skills@[0].description@ == "A mock skill for testing"@
    &&& r.skills@[0].path is None
    &&& r.files_modified@.len() == 2
    &&& r.files_modified@[0]@ == "src/main.rs"@
    &&& r.files_modified@[1]@ == "README.md"@
}

/// The user manual of the mock result.
pub open spec fn mock_manual() -> Seq<char> {
    "# User Manual\n\nThis is a mock user manual generated for testing purposes.\n\n## Usage\n\n1. Step one\n2. Step two\n3. Step three\n"@
}

fn clone_opt_string(o: &Option<String>) -> (r: Option<String>)
    ensures
        r == *o,
{
    match o {
        Some(s) => Some(s.clone()),
        None => None,
    }
}

fn key_of(task_id: Option<&str>) -> (k: String)
    ensures
        k@ == task_key(task_id),
{
    match task_id {
        Some(s) => owned(s),
        None => owned("unknown"),
    }
}

/// The result that a completed mock task reports.
pub fn mock_task_result() -> (r: TaskResult)
    ensures
        is_mock_result(r),
{
    let mut skills: Vec<GeneratedSkill> = Vec::new();
    skills.push(
        GeneratedSkill {
            name: owned("mock_skill"),
            description: owned("A mock skill for testing"),
            path: None,
        },
    );
    let mut files: Vec<String> = Vec::new();
    files.push(owned("src/main.rs"));
    files.push(owned("README.md"));
    TaskResult {
        summary: owned("Mock generation completed successfully"),
        user_manual: Some(
            owned(
                "# User Manual\n\nThis is a mock user manual generated for testing purposes.\n\n## Usage\n\n1. Step one\n2. Step two\n3. Step three\n",
            ),
        ),
        skills,
        files_modified: files,
    }
}

impl MockTransport {
    #[verifier::type_invariant]
    spec fn unique_keys(self) -> bool {
        keys_unique(self.tasks@)
    }

    /// The task the mock keeps under `key`.
    pub closed spec fn task(self, key: Seq<char>) -> Option<MockTask> {
        lookup(self.tasks@, key)
    }

    /// Whether the mock reports itself connected.
    pub closed spec fn is_connected_spec(self) -> bool {
        self.connected
    }

    /// A connected mock with no tasks.
    pub fn new() -> (m: MockTransport)
        ensures
            m.is_connected_spec(),
            forall|k: Seq<char>| m.task(k) is None,
    {
        MockTransport { tasks: Vec::new(), connected: true }
    }

    /// Whether the mock is connected (it always is).
    pub fn is_connected(&self) -> (b: bool)
        ensures
            b == self.is_connected_spec(),
    {
        self.connected
    }

    fn find(&self, key: &str) -> (r: Option<usize>)
        ensures
            r matches Some(i) ==> i < self.tasks@.len() && self.tasks@[i as int].0@ == key@
                && self.task(key@) == Some(self.tasks@[i as int].1),
            r is None ==> self.task(key@) is None,
    {
        proof {
            use_type_invariant(self);
        }
        let mut i: usize = 0;
        while i < self.tasks.len()
            invariant
                i <= self.tasks@.len(),
                keys_unique(self.tasks@),
                forall|j: int| 0 <= j < i ==> self.tasks@[j].0@ != key@,
            decreases self.tasks@.len() - i,
        {
            if str_eq(self.tasks[i].0.as_str(), key) {
                proof {
                    assert(self.tasks@[i as int].0@ == key@);
                    let c = choose|j: int| 0 <= j < self.tasks@.len() && self.tasks@[j].0@ == key@;
                    assert(c == i as int);
                }
                return Some(i);
            }
            i = i + 1;
        }
        None
    }

    /// Replaces the task at position `i`, keeping its key.
    fn replace_at(&mut self, i: usize, t: MockTask)
        requires
            i < old(self).tasks@.len(),
        ensures
            final(self).connected == old(self).connected,
            final(self).task(old(self).tasks@[i as int].0@) == Some(t),
            forall|k: Seq<char>| k != old(self).tasks@[i as int].0@ ==> final(self).task(k) == old(self).task(k),
    {
        proof {
            use_type_invariant(&*self);
        }
        let ghost before = self.tasks@;
        let key = self.tasks[i].0.clone();
        let mut tasks: Vec<(String, MockTask)> = Vec::new();
        std::mem::swap(&mut tasks, &mut self.tasks);
        tasks.set(i, (key, t));
        proof {
            let after = tasks@;
            assert(keys_unique(after)) by {
                assert forall|a: int, b: int|
                    0 <= a < after.len() && 0 <= b < after.len() && a != b implies after[a].0@
                    != after[b].0@ by {
                    if a != i as int {
                        assert(after[a] == before[a]);
                    }
                    if b != i as int {
                        assert(after[b] == before[b]);
                    }
                }
            }
        }
        self.tasks = tasks;
        proof {
            let after = self.tasks@;
            assert(keys_unique(after));
            let k0 = before[i as int].0@;
            assert(after[i as int].0@ == k0);
            let c = choose|j: int| 0 <= j < after.len() && after[j].0@ == k0;
            assert(c == i as int);
            assert forall|k: Seq<char>| k != k0 implies lookup(after, k) == lookup(before, k) by {
                if exists|j: int| 0 <= j < before.len() && before[j].0@ == k {
                    let jb = choose|j: int| 0 <= j < before.len() && before[j].0@ == k;
                    assert(after[jb].0@ == k);
                    let ja = choose|j: int| 0 <= j < after.len() && after[j].0@ == k;
                    assert(ja == jb);
                } else {
                    assert forall|j: int| 0 <= j < after.len() implies after[j].0@ != k by {
                        if j == i as int {
                        } else {
                            assert(after[j] == before[j]);
                        }
                    }
                }
            }
        }
    }

    /// Stores `t` under `key`, replacing any task already there.
    fn insert(&mut self, key: String, t: MockTask)
        ensures
            final(self).connected == old(self).connected,
            final(self).task(key@) == Some(t),
            forall|k: Seq<char>| k != key@ ==> final(self).task(k) == old(self).task(k),
    {
        proof {
            use_type_invariant(&*self);
        }
        match self.find(key.as_str()) {
            Some(i) => {
                self.replace_at(i, t);
            },
            None => {
                let ghost before = self.tasks@;
                let ghost kv = key@;
                let mut tasks: Vec<(String, MockTask)> = Vec::new();
                std::mem::swap(&mut tasks, &mut self.tasks);
                tasks.push((key, t));
                proof {
                    let after = tasks@;
                    let n = before.len() as int;
                    assert(keys_unique(after)) by {
                        assert forall|a: int, b: int|
                            0 <= a < after.len() && 0 <= b < after.len() && a != b implies after[a].0@
                            != after[b].0@ by {
                            if a < n && b < n {
                                assert(after[a] == before[a]);
                                assert(after[b] == before[b]);
                            } else if a == n {
                                assert(after[b] == before[b]);
                            } else {
                                assert(after[a] == before[a]);
                            }
                        }
                    }
                }
                self.tasks = tasks;
                proof {
                    let after = self.tasks@;
                    let n = before.len() as int;
                    assert(after[n].0@ == kv);
                    assert(keys_unique(after)) by {
                        assert forall|a: int, b: int|
                            0 <= a < after.len() && 0 <= b < after.len() && a != b implies after[a].0@
                            != after[b].0@ by {
                            if a < n && b < n {
                                assert(after[a] == before[a]);
                                assert(after[b] == before[b]);
                            } else if a == n {
                                assert(after[b] == before[b]);
                            } else {
                                assert(after[a] == before[a]);
                            }
                        }
                    }
                    let c = choose|j: int| 0 <= j < after.len() && after[j].0@ == kv;
                    assert(c == n);
                    assert forall|k: Seq<char>| k != kv implies lookup(after, k) == lookup(before, k) by {
                        if exists|j: int| 0 <= j < before.len() && before[j].0@ == k {
                            let jb = choose|j: int| 0 <= j < before.len() && before[j].0@ == k;
                            assert(after[jb] == before[jb]);
                            let ja = choose|j: int| 0 <= j < after.len() && after[j].0@ == k;
                            assert(ja == jb);
                        } else {
                            assert forall|j: int| 0 <= j < after.len() implies after[j].0@ != k by {
                                if j < n {
                                    assert(after[j] == before[j]);
                                }
                            }
                        }
                    }
                }
            },
        }
    }

    /// Which method a request names. A disconnected mock refuses every
    /// request with `Not connected`; an unknown method is refused with
    /// `Unknown method: <method>`.
    pub fn route(&self, method: &str) -> (r: Result<MockMethod, AppError>)
        ensures
            !self.is_connected_spec() ==> is_transport_error(r, "Not connected"@),
            self.is_connected_spec() ==> match r {
                Ok(MockMethod::Execute) => method@ == "generator.execute"@,
                Ok(MockMethod::Status) => method@ == "generator.status"@,
                Ok(MockMethod::Cancel) => method@ == "generator.cancel"@,
                Ok(MockMethod::ListSkills) => method@ == "generator.listSkills"@,
                Ok(MockMethod::GatewayInfo) => method@ == "gateway.info"@,
                Err(AppError::Transport(m)) => {
                    &&& method@ != "generator.execute"@
                    &&& method@ != "generator.status"@
                    &&& method@ != "generator.cancel"@
                    &&& method@ != "generator.listSkills"@
                    &&& method@ != "gateway.info"@
                    &&& m@ == "Unknown method: "@ + method@
                },
                Err(_) => false,
            },
    {
        if !self.connected {
            return Err(AppError::Transport(owned("Not connected")));
        }
        if str_eq(method, "generator.execute") {
            Ok(MockMethod::Execute)
        } else if str_eq(method, "generator.status") {
            Ok(MockMethod::Status)
        } else if str_eq(method, "generator.cancel") {
            Ok(MockMethod::Cancel)
        } else if str_eq(method, "generator.listSkills") {
            Ok(MockMethod::ListSkills)
        } else if str_eq(method, "gateway.info") {
            Ok(MockMethod::GatewayInfo)
        } else {
            Err(AppError::Transport(concat2("Unknown method: ", method)))
        }
    }

    /// `generator.execute`: accepts the task and starts it as running
    /// with no progress; other tasks are untouched.
    pub fn handle_execute(&mut self, task_id: Option<&str>) -> (r: ExecuteResponse)
        ensures
            final(self).is_connected_spec() == old(self).is_connected_spec(),
            final(self).task(task_key(task_id)) matches Some(t) && is_fresh_task(t),
            forall|k: Seq<char>| k != task_key(task_id) ==> final(self).task(k) == old(self).task(k),
            r.task_id@ == task_key(task_id),
            r.accepted,
            r.message matches Some(m) && m@ == "Task accepted by mock generator"@,
    {
        let key = key_of(task_id);
        let t = MockTask {
            status: GeneratorTaskStatus::Running,
            progress: 0,
            current_step: Some(owned("Initializing...")),
            result_ready: false,
            error: None,
        };
        let reply_id = key.clone();
        self.insert(key, t);
        ExecuteResponse {
            task_id: reply_id,
            accepted: true,
            message: Some(owned("Task accepted by mock generator")),
        }
    }

    /// One simulated step (of five) of a task's progress: progress becomes
    /// twenty percent per step. A task that is not kept is left alone.
    pub fn advance(&mut self, task_id: &str, step: u8)
        requires
            1 <= step <= 5,
        ensures
            final(self).is_connected_spec() == old(self).is_connected_spec(),
            forall|k: Seq<char>| k != task_id@ ==> final(self).task(k) == old(self).task(k),
            old(self).task(task_id@) is None ==> final(self).task(task_id@) is None,
            old(self).task(task_id@) matches Some(t) ==> is_advanced(t, final(self).task(task_id@), step as nat),
    {
        match self.find(task_id) {
            Some(i) => {
                let old_task = &self.tasks[i].1;
                let mut text = owned("Processing step ");
                push_decimal(&mut text, step as u64);
                text.append("/5...");
                let t = MockTask {
                    status: old_task.status,
                    progress: step * 20,
                    current_step: Some(text),
                    result_ready: old_task.result_ready,
                    error: clone_opt_string(&old_task.error),
                };
                self.replace_at(i, t);
            },
            None => {},
        }
    }

    /// Completes a simulated task: it reports completion, full progress,
    /// the step `Done` and the mock result.
    pub fn complete(&mut self, task_id: &str)
        ensures
            final(self).is_connected_spec() == old(self).is_connected_spec(),
            forall|k: Seq<char>| k != task_id@ ==> final(self).task(k) == old(self).task(k),
            old(self).task(task_id@) is None ==> final(self).task(task_id@) is None,
            old(self).task(task_id@) matches Some(t) ==> is_completed(t, final(self).task(task_id@)),
    {
        match self.find(task_id) {
            Some(i) => {
                let old_task = &self.tasks[i].1;
                let t = MockTask {
                    status: GeneratorTaskStatus::Completed,
                    progress: 100,
                    current_step: Some(owned("Done")),
                    result_ready: true,
                    error: clone_opt_string(&old_task.error),
                };
                self.replace_at(i, t);
            },
            None => {},
        }
    }

    /// Step `step` of the simulated run of an accepted task: steps one to
    /// five advance its progress by twenty percent each, step six
    /// completes it. A task that is not kept is left alone.
    pub fn simulation_step(&mut self, task_id: &str, step: u8)
        requires
            1 <= step <= SIMULATION_STEPS,
        ensures
            final(self).is_connected_spec() == old(self).is_connected_spec(),
            forall|k: Seq<char>| k != task_id@ ==> final(self).task(k) == old(self).task(k),
            old(self).task(task_id@) is None ==> final(self).task(task_id@) is None,
            old(self).task(task_id@) matches Some(t) ==> simulated_step(t, final(self).task(task_id@), step as nat),
    {
        if step <= 5 {
            self.advance(task_id, step);
        } else {
            self.complete(task_id);
        }
    }

    /// `generator.status`: the task's state, or a pending task with the
    /// error `Task not found` where no task is kept under the key.
    pub fn handle_status(&self, task_id: Option<&str>) -> (r: StatusResponse)
        ensures
            status_reply(self.task(task_key(task_id)), task_key(task_id), r),
    {
        let key = key_of(task_id);
        match self.find(key.as_str()) {
            Some(i) => {
                let t = &self.tasks[i].1;
                StatusResponse {
                    task_id: key,
                    status: t.status,
                    progress: t.progress,
                    current_step: clone_opt_string(&t.current_step),
                    result: if t.result_ready {
                        Some(mock_task_result())
                    } else {
                        None
                    },
                    error: clone_opt_string(&t.error),
                }
            },
            None => StatusResponse {
                task_id: key,
                status: GeneratorTaskStatus::Pending,
                progress: 0,
                current_step: None,
                result: None,
                error: Some(owned("Task not found")),
            },
        }
    }

    /// `generator.cancel`: marks the task cancelled (if kept) and always
    /// answers that it was cancelled.
    pub fn handle_cancel(&mut self, task_id: Option<&str>) -> (r: CancelResponse)
        ensures
            final(self).is_connected_spec() == old(self).is_connected_spec(),
            forall|k: Seq<char>| k != task_key(task_id) ==> final(self).task(k) == old(self).task(k),
            old(self).task(task_key(task_id)) is None ==> final(self).task(task_key(task_id)) is None,
            old(self).task(task_key(task_id)) matches Some(t) ==> final(self).task(task_key(task_id))
                == Some(MockTask { status: GeneratorTaskStatus::Cancelled, ..t }),
            r.cancelled,
            r.message matches Some(m) && m@ == "Task cancelled"@,
    {
        let key = key_of(task_id);
        match self.find(key.as_str()) {
            Some(i) => {
                let old_task = &self.tasks[i].1;
                let t = MockTask {
                    status: GeneratorTaskStatus::Cancelled,
                    progress: old_task.progress,
                    current_step: clone_opt_string(&old_task.current_step),
                    result_ready: old_task.result_ready,
                    error: clone_opt_string(&old_task.error),
                };
                self.replace_at(i, t);
            },
            None => {},
        }
        CancelResponse { cancelled: true, message: Some(owned("Task cancelled")) }
    }

    /// `generator.listSkills`: two file skills without parameter schemas.
    pub fn handle_list_skills(&self) -> (r: ListSkillsResponse)
        ensures
            r.skills@.len() == 2,
            r.skills@[0].name@ == "create_file"@,
            r.skills@[0].description@ == "Create a new file"@,
            r.skills@[0].parameters_schema is None,
            r.skills@[1].name@ == "edit_file"@,
            r.skills@[1].description@ == "Edit an existing file"@,
            r.skills@[1].parameters_schema is None,
    {
        let mut skills: Vec<SkillInfo> = Vec::new();
        skills.push(
            SkillInfo {
                name: owned("create_file"),
                description: owned("Create a new file"),
                parameters_schema: None,
            },
        );
        skills.push(
            SkillInfo {
                name: owned("edit_file"),
                description: owned("Edit an existing file"),
                parameters_schema: None,
            },
        );
        ListSkillsResponse { skills }
    }

    /// `gateway.info`: the mock's version and features.
    pub fn gateway_info(&self) -> (r: MockGatewayInfo)
        ensures
            r.version@ == "1.0.0-mock"@,
            r.features@.len() == 2,
            r.features@[0]@ == "generator"@,
            r.features@[1]@ == "skills"@,
    {
        let mut features: Vec<String> = Vec::new();
        features.push(owned("generator"));
        features.push(owned("skills"));
        MockGatewayInfo { version: owned("1.0.0-mock"), features }
    }
}

// ---------------------------------------------------------------------
// Replies as JSON
// ---------------------------------------------------------------------

/// The member `k` of `v` is the boolean `b`.
pub open spec fn has_bool(v: serde_json::Value, k: Seq<char>, b: bool) -> bool {
    json_member(v, k) matches Some(m) && json_bool(m) == Some(b)
}

/// The member `k` of `v` is the string `s`, or null where there is none.
pub open spec fn has_str_or_null(v: serde_json::Value, k: Seq<char>, s: Option<Seq<char>>) -> bool {
    json_member(v, k) matches Some(m) && str_or_null(m, s)
}

/// The reply to `generator.execute`: `task_id`, `accepted`, `message`.
pub fn execute_reply_value(r: &ExecuteResponse) -> (v: serde_json::Value)
    ensures
        json_is_object(v),
        has_str(v, "task_id"@, r.task_id@),
        has_bool(v, "accepted"@, r.accepted),
        has_str_or_null(v, "message"@, opt_view(r.message)),
{
    proof {
        reveal_strlit("task_id");
        reveal_strlit("accepted");
        reveal_strlit("message");
        assert("task_id"@.len() != "accepted"@.len());
        assert("task_id"@[0] != "message"@[0]);
        assert("accepted"@.len() != "message"@.len());
    }
    let mut v = json_empty_object();
    json_insert(&mut v, "task_id", json_string_value(r.task_id.as_str()));
    json_insert(&mut v, "accepted", json_bool_value(r.accepted));
    json_insert(&mut v, "message", json_opt_string(&r.message));
    v
}

/// `v` is the mock result as JSON: its summary and manual, one skill
/// object with the mock skill's name and description, and the two
/// modified files, in order.
pub open spec fn is_mock_result_value(v: serde_json::Value) -> bool {
    &&& json_is_object(v)
    &&& has_str(v, "summary"@, "Mock generation completed successfully"@)
    &&& has_str(v, "user_manual"@, mock_manual())
    &&& json_member(v, "skills"@) matches Some(a) && json_items(a) matches Some(items) && items.len() == 1
        && json_is_object(items[0])
        && has_str(items[0], "name"@, "mock_skill"@)
        && has_str(items[0], "description"@, "A mock skill for testing"@)
    &&& json_member(v, "files_modified"@) matches Some(a) && json_items(a) matches Some(items) && items.len() == 2
        && json_str(items[0]) == Some("src/main.rs"@) && json_str(items[1]) == Some("README.md"@)
}

/// The result a completed mock task reports, as JSON: `summary`,
/// `user_manual`, `skills` (name and description) and `files_modified`.
pub fn mock_result_value() -> (v: serde_json::Value)
    ensures
        is_mock_result_value(v),
{
    proof {
        reveal_strlit("summary");
        reveal_strlit("user_manual");
        reveal_strlit("skills");
        reveal_strlit("files_modified");
        assert("summary"@.len() != "user_manual"@.len());
        assert("summary"@.len() != "skills"@.len());
        assert("summary"@.len() != "files_modified"@.len());
        assert("user_manual"@.len() != "skills"@.len());
        assert("user_manual"@.len() != "files_modified"@.len());
        assert("skills"@.len() != "files_modified"@.len());
    }
    let r = mock_task_result();
    let mut skill = json_empty_object();
    proof {
        reveal_strlit("name");
        reveal_strlit("description");
        assert("name"@.len() != "description"@.len());
    }
    json_insert(&mut skill, "name", json_string_value(r.skills[0].name.as_str()));
    json_insert(&mut skill, "description", json_string_value(r.skills[0].description.as_str()));
    let mut skills: Vec<serde_json::Value> = Vec::new();
    skills.push(skill);
    let mut v = json_empty_object();
    json_insert(&mut v, "summary", json_string_value(r.summary.as_str()));
    json_insert(&mut v, "user_manual", json_opt_string(&r.user_manual));
    json_insert(&mut v, "skills", json_array_value(skills));
    json_insert(&mut v, "files_modified", json_string_array(&r.files_modified));
    v
}

/// `v` is the status reply `r` as JSON: its `task_id`, `status` (text
/// form), `progress`, `current_step`, `result` (the mock result, or null)
/// and `error`.
pub open spec fn is_status_value(v: serde_json::Value, r: StatusResponse) -> bool {
    &&& json_is_object(v)
    &&& has_str(v, "task_id"@, r.task_id@)
    &&& has_str(v, "status"@, generator_task_status_name(r.status))
    &&& json_member(v, "progress"@) matches Some(p) && json_u64(p) == Some(r.progress as u64)
    &&& has_str_or_null(v, "current_step"@, opt_view(r.current_step))
    &&& match json_member(v, "result"@) {
        Some(m) => match r.result {
            Some(_) => is_mock_result_value(m),
            None => json_text(m) == "null"@,
        },
        None => false,
    }
    &&& has_str_or_null(v, "error"@, opt_view(r.error))
}

/// `v` is the status reply for the task kept under `key` (or its
/// absence), as JSON.
pub open spec fn status_reply_for(v: serde_json::Value, task: Option<MockTask>, key: Seq<char>) -> bool {
    exists|r: StatusResponse| #[trigger] status_reply(task, key, r) && is_status_value(v, r)
}

/// The reply to `generator.status`: `task_id`, `status` (its text form),
/// `progress`, `current_step`, `result` (the mock result, or null) and
/// `error`.
pub fn status_reply_value(r: &StatusResponse) -> (v: serde_json::Value)
    ensures
        is_status_value(v, *r),
{
    proof {
        reveal_strlit("task_id");
        reveal_strlit("status");
        reveal_strlit("progress");
        reveal_strlit("current_step");
        reveal_strlit("result");
        reveal_strlit("error");
        assert("task_id"@.len() != "status"@.len());
        assert("task_id"@.len() != "progress"@.len());
        assert("task_id"@.len() != "current_step"@.len());
        assert("task_id"@.len() != "result"@.len());
        assert("task_id"@.len() != "error"@.len());
        assert("status"@.len() != "progress"@.len());
        assert("status"@.len() != "current_step"@.len());
        assert("status"@[0] != "result"@[0]);
        assert("status"@.len() != "error"@.len());
        assert("progress"@.len() != "current_step"@.len());
        assert("progress"@.len() != "result"@.len());
        assert("progress"@.len() != "error"@.len());
        assert("current_step"@.len() != "result"@.len());
        assert("current_step"@.len() != "error"@.len());
        assert("result"@.len() != "error"@.len());
    }
    let mut v = json_empty_object();
    json_insert(&mut v, "task_id", json_string_value(r.task_id.as_str()));
    json_insert(&mut v, "status", json_string_value(r.status.as_str()));
    json_insert(&mut v, "progress", json_u64_value(r.progress as u64));
    json_insert(&mut v, "current_step", json_opt_string(&r.current_step));
    let result = match &r.result {
        Some(_) => mock_result_value(),
        None => json_null(),
    };
    json_insert(&mut v, "result", result);
    json_insert(&mut v, "error", json_opt_string(&r.error));
    v
}

/// The reply to `generator.cancel`: `cancelled` and `message`.
pub fn cancel_reply_value(r: &CancelResponse) -> (v: serde_json::Value)
    ensures
        json_is_object(v),
        has_bool(v, "cancelled"@, r.cancelled),
        has_str_or_null(v, "message"@, opt_view(r.message)),
{
    proof {
        reveal_strlit("cancelled");
        reveal_strlit("message");
        assert("cancelled"@.len() != "message"@.len());
    }
    let mut v = json_empty_object();
    json_insert(&mut v, "cancelled", json_bool_value(r.cancelled));
    json_insert(&mut v, "message", json_opt_string(&r.message));
    v
}

/// `v` is the JSON object of a listed skill: its `name`, its
/// `description` and a null `parameters_schema`.
pub open spec fn listed_skill_value(v: serde_json::Value, s: SkillInfo) -> bool {
    is_listed_skill(v, s.name@, s.description@)
}

/// `v` is the JSON object of a listed skill named `name`, described by
/// `description`, with a null `parameters_schema`.
pub open spec fn is_listed_skill(v: serde_json::Value, name: Seq<char>, description: Seq<char>) -> bool {
    &&& json_is_object(v)
    &&& has_str(v, "name"@, name)
    &&& has_str(v, "description"@, description)
    &&& json_member(v, "parameters_schema"@) matches Some(n) && json_text(n) == "null"@
}

/// `v` is the mock's skill list as JSON: `create_file` and `edit_file`.
pub open spec fn is_mock_skill_list(v: serde_json::Value) -> bool {
    &&& json_is_object(v)
    &&& json_member(v, "skills"@) matches Some(a) && json_items(a) matches Some(items) && items.len() == 2
        && is_listed_skill(items[0], "create_file"@, "Create a new file"@)
        && is_listed_skill(items[1], "edit_file"@, "Edit an existing file"@)
}

/// `v` is the mock's gateway information as JSON: version `1.0.0-mock`,
/// features `generator` and `skills`.
pub open spec fn is_mock_gateway_info(v: serde_json::Value) -> bool {
    &&& json_is_object(v)
    &&& has_str(v, "version"@, "1.0.0-mock"@)
    &&& json_member(v, "features"@) matches Some(a) && json_items(a) matches Some(items) && items.len() == 2
        && json_str(items[0]) == Some("generator"@) && json_str(items[1]) == Some("skills"@)
}

/// The reply to `generator.listSkills`: `skills`, one object each with
/// `name`, `description` and a null `parameters_schema`.
pub fn list_skills_value(r: &ListSkillsResponse) -> (v: serde_json::Value)
    ensures
        json_is_object(v),
        json_member(v, "skills"@) matches Some(a) && json_items(a) matches Some(items)
            && items.len() == r.skills@.len()
            && forall|i: int| 0 <= i < items.len() ==> listed_skill_value(#[trigger] items[i], r.skills@[i]),
{
    proof {
        reveal_strlit("name");
        reveal_strlit("description");
        reveal_strlit("parameters_schema");
        assert("name"@.len() != "description"@.len());
        assert("name"@.len() != "parameters_schema"@.len());
        assert("description"@.len() != "parameters_schema"@.len());
    }
    let mut items: Vec<serde_json::Value> = Vec::new();
    let mut i: usize = 0;
    while i < r.skills.len()
        invariant
            i <= r.skills@.len(),
            items@.len() == i,
            "name"@ != "description"@,
            "name"@ != "parameters_schema"@,
            "description"@ != "parameters_schema"@,
            forall|j: int| 0 <= j < i ==> listed_skill_value(#[trigger] items@[j], r.skills@[j]),
        decreases r.skills@.len() - i,
    {
        let sk = &r.skills[i];
        let mut o = json_empty_object();
        json_insert(&mut o, "name", json_string_value(sk.name.as_str()));
        json_insert(&mut o, "description", json_string_value(sk.description.as_str()));
        json_insert(&mut o, "parameters_schema", json_null());
        items.push(o);
        i = i + 1;
    }
    let mut v = json_empty_object();
    json_insert(&mut v, "skills", json_array_value(items));
    v
}

/// The reply to `gateway.info`: `version` and `features`.
pub fn gateway_info_value(r: &MockGatewayInfo) -> (v: serde_json::Value)
    ensures
        json_is_object(v),
        has_str(v, "version"@, r.version@),
        json_member(v, "features"@) matches Some(a) && is_string_array(a, r.features@),
{
    proof {
        reveal_strlit("version");
        reveal_strlit("features");
        assert("version"@.len() != "features"@.len());
    }
    let mut v = json_empty_object();
    json_insert(&mut v, "version", json_string_value(r.version.as_str()));
    json_insert(&mut v, "features", json_string_array(&r.features));
    v
}

/// The task key a request's parameters name: their `task_id` string, or
/// `unknown`.
pub open spec fn params_key(params: serde_json::Value) -> Seq<char> {
    match member_str(params, "task_id"@) {
        Some(s) => s,
        None => "unknown"@,
    }
}

/// The status text `generator.status` reports for a key.
pub open spec fn reported_status(m: MockTransport, key: Seq<char>) -> Seq<char> {
    match m.task(key) {
        Some(t) => generator_task_status_name(t.status),
        None => "pending"@,
    }
}

/// The mock keeps a freshly started task under `key`.
pub open spec fn fresh_under(m: MockTransport, key: Seq<char>) -> bool {
    m.task(key) matches Some(t) && is_fresh_task(t)
}

/// The reply is a JSON value for which `pred` holds.
pub open spec fn replied(r: Result<serde_json::Value, AppError>, pred: spec_fn(serde_json::Value) -> bool) -> bool {
    match r {
        Ok(v) => pred(v),
        Err(_) => false,
    }
}

impl MockTransport {
    /// Answers a request, as the generator would: the method is routed,
    /// the task it names (its `task_id`, or `unknown`) is handled, and the
    /// reply is given as JSON.
    pub fn send_request(&mut self, method: &str, params: &serde_json::Value) -> (r: Result<serde_json::Value, AppError>)
        ensures
            final(self).is_connected_spec() == old(self).is_connected_spec(),
            !old(self).is_connected_spec() ==> is_transport_error(r, "Not connected"@),
            old(self).is_connected_spec() && method@ == "generator.execute"@ ==> {
                &&& fresh_under(*final(self), params_key(*params))
                &&& forall|k: Seq<char>| k != params_key(*params) ==> #[trigger] final(self).task(k) == old(self).task(k)
                &&& replied(r, |v: serde_json::Value| has_str(v, "task_id"@, params_key(*params)) && has_bool(v, "accepted"@, true)
                    && has_str_or_null(v, "message"@, Some("Task accepted by mock generator"@)))
            },
            old(self).is_connected_spec() && method@ == "generator.status"@ ==> {
                &&& forall|k: Seq<char>| #[trigger] final(self).task(k) == old(self).task(k)
                &&& replied(r, |v: serde_json::Value| status_reply_for(v, old(self).task(params_key(*params)), params_key(*params))
                    && has_str(v, "status"@, reported_status(*old(self), params_key(*params))))
            },
            old(self).is_connected_spec() && method@ == "generator.cancel"@ ==> {
                &&& forall|k: Seq<char>| k != params_key(*params) ==> #[trigger] final(self).task(k) == old(self).task(k)
                &&& old(self).task(params_key(*params)) is None ==> final(self).task(params_key(*params)) is None
                &&& old(self).task(params_key(*params)) matches Some(t) ==> final(self).task(params_key(*params))
                    == Some(MockTask { status: GeneratorTaskStatus::Cancelled, ..t })
                &&& replied(r, |v: serde_json::Value| has_bool(v, "cancelled"@, true)
                    && has_str_or_null(v, "message"@, Some("Task cancelled"@)))
            },
            old(self).is_connected_spec() && method@ == "generator.listSkills"@ ==> {
                &&& forall|k: Seq<char>| #[trigger] final(self).task(k) == old(self).task(k)
                &&& replied(r, |v: serde_json::Value| is_mock_skill_list(v))
            },
            old(self).is_connected_spec() && method@ == "gateway.info"@ ==> {
                &&& forall|k: Seq<char>| #[trigger] final(self).task(k) == old(self).task(k)
                &&& replied(r, |v: serde_json::Value| is_mock_gateway_info(v))
            },
            old(self).is_connected_spec() && method@ != "generator.execute"@ && method@ != "generator.status"@
                && method@ != "generator.cancel"@ && method@ != "generator.listSkills"@ && method@ != "gateway.info"@
                ==> is_transport_error(r, "Unknown method: "@ + method@),
            r is Err ==> forall|k: Seq<char>| #[trigger] final(self).task(k) == old(self).task(k),
    {
        proof {
            reveal_strlit("generator.execute");
            reveal_strlit("generator.status");
            reveal_strlit("generator.cancel");
            reveal_strlit("generator.listSkills");
            reveal_strlit("gateway.info");
            assert("generator.execute"@.len() != "generator.status"@.len());
            assert("generator.execute"@.len() != "generator.cancel"@.len());
            assert("generator.execute"@.len() != "generator.listSkills"@.len());
            assert("generator.execute"@.len() != "gateway.info"@.len());
            assert("generator.status"@[10] != "generator.cancel"@[10]);
            assert("generator.status"@.len() != "generator.listSkills"@.len());
            assert("generator.status"@.len() != "gateway.info"@.len());
            assert("generator.cancel"@.len() != "generator.listSkills"@.len());
            assert("generator.cancel"@.len() != "gateway.info"@.len());
            assert("generator.listSkills"@.len() != "gateway.info"@.len());
        }
        let m = self.route(method)?;
        let id = get_member_str(params, "task_id");
        let id_ref: Option<&str> = match &id {
            Some(s) => Some(s.as_str()),
            None => None,
        };
        proof {
            assert(task_key(id_ref) == params_key(*params));
        }
        match m {
            MockMethod::Execute => {
                let resp = self.handle_execute(id_ref);
                Ok(execute_reply_value(&resp))
            },
            MockMethod::Status => {
                let resp = self.handle_status(id_ref);
                let v = status_reply_value(&resp);
                proof {
                    assert(status_reply(self.task(params_key(*params)), params_key(*params), resp));
                    assert(status_reply_for(v, self.task(params_key(*params)), params_key(*params)));
                }
                Ok(v)
            },
            MockMethod::Cancel => {
                let resp = self.handle_cancel(id_ref);
                Ok(cancel_reply_value(&resp))
            },
            MockMethod::ListSkills => {
                let resp = self.handle_list_skills();
                let v = list_skills_value(&resp);
                proof {
                    let items = json_items(json_member(v, "skills"@)->0)->0;
                    assert(listed_skill_value(items[0], resp.skills@[0]));
                    assert(listed_skill_value(items[1], resp.skills@[1]));
                }
                Ok(v)
            },
            MockMethod::GatewayInfo => {
                let resp = self.gateway_info();
                let v = gateway_info_value(&resp);
                proof {
                    let items = json_items(json_member(v, "features"@)->0)->0;
                    assert(json_str(items[0]) == Some(resp.features@[0]@));
                    assert(json_str(items[1]) == Some(resp.features@[1]@));
                }
                Ok(v)
            },
        }
    }
}

impl Default for MockTransport {
    fn default() -> (m: MockTransport)
        ensures
            m.is_connected_spec(),
            forall|k: Seq<char>| m.task(k) is None,
    {
        MockTransport::new()
    }
}

} // verus!
