//! The executor agent: it runs a goal's skills and reports what worked,
//! without changing any skill.
use vstd::prelude::*;

use crate::agents::{cancel_token, AgentOutput, BugInfo};
use crate::models::{opt_view, AgentType};
use crate::text::{decimal, owned, push_decimal};
use crate::workhub::BugEntry;

verus! {

/// How many steps one execution may take at most.
pub const MAX_ITERATIONS: u32 = 50;

/// The executor agent.
pub struct ExecutorAgent {
    pub cancel_token: tokio_util::sync::CancellationToken,
    pub max_iterations: u32,
}

impl ExecutorAgent {
    /// An executor that stops when `cancel_token` is cancelled.
    pub fn new(cancel_token: tokio_util::sync::CancellationToken) -> (a: ExecutorAgent)
        ensures
            a.max_iterations == MAX_ITERATIONS,
            a.cancel_token == cancel_token,
    {
        ExecutorAgent { cancel_token, max_iterations: MAX_ITERATIONS }
    }

    /// The executor reports as the executor agent type.
    pub fn agent_type(&self) -> (t: AgentType)
        ensures
            t == AgentType::Executor,
    {
        AgentType::Executor
    }

    /// Asks the running execution to stop.
    pub fn cancel(&self) {
        cancel_token(&self.cancel_token);
    }
}

/// The user manual an execution follows: the goal's summary, or a note
/// that there is none.
pub fn get_user_manual(summary: Option<String>) -> (m: String)
    ensures
        m@ == match summary {
            Some(s) => s@,
            None => "No user manual available"@,
        },
{
    match summary {
        Some(s) => s,
        None => owned("No user manual available"),
    }
}

/// The result of one execution.
#[derive(Debug, Clone)]
pub struct ExecutionResult {
    pub success: bool,
    pub message: String,
    pub bugs: Vec<BugEntry>,
}

/// The streamed note of an execution that finds no skills to run.
pub fn skipping_note() -> (s: &'static str)
    ensures
        s@ == "No skills available for execution \u{2014} skipping\n"@,
{
    "No skills available for execution \u{2014} skipping\n"
}

/// An execution with no skills to run succeeds, skipping verification.
pub fn execute() -> (r: ExecutionResult)
    ensures
        r.success,
        r.message@ == "No skills to execute - verification skipped"@,
        r.bugs@.len() == 0,
{
    ExecutionResult {
        success: true,
        message: owned("No skills to execute - verification skipped"),
        bugs: Vec::new(),
    }
}

/// `Logged <n> bugs\n`.
pub open spec fn bugs_logged_text(n: nat) -> Seq<char> {
    "Logged "@ + decimal(n) + " bugs\n"@
}

/// The streamed note of a failed execution that found bugs:
/// `Logged <n> bugs\n`; none otherwise.
pub fn bugs_logged_note(result: &ExecutionResult) -> (s: Option<String>)
    ensures
        !result.success && result.bugs@.len() > 0 ==> opt_view(s) == Some(
            bugs_logged_text(result.bugs@.len()),
        ),
        result.success || result.bugs@.len() == 0 ==> s is None,
{
    if !result.success && result.bugs.len() > 0 {
        let mut t = owned("Logged ");
        push_decimal(&mut t, result.bugs.len() as u64);
        t.append(" bugs\n");
        Some(t)
    } else {
        None
    }
}

/// The bug information reported for a bug entry.
pub open spec fn bug_info_of(b: BugEntry) -> BugInfo {
    BugInfo { description: b.description, error_output: b.error_output }
}

/// The output of an execution: no milestone, plan or skills; the failure
/// reason is the result's message where it failed; each bug is reported
/// with its description and error output, in order.
pub fn execution_output(result: ExecutionResult) -> (o: AgentOutput)
    ensures
        o matches AgentOutput::ExecutionResult {
            milestone_id,
            plan,
            skills_used,
            success,
            failure_reason,
            bugs_found,
        } && milestone_id@.len() == 0 && plan is None && skills_used@.len() == 0
            && success == result.success
            && failure_reason == (if result.success { None } else { Some(result.message) })
            && bugs_found@ == result.bugs@.map_values(|b: BugEntry| bug_info_of(b)),
{
    let ExecutionResult { success, message, bugs } = result;
    let mut found: Vec<BugInfo> = Vec::new();
    let mut i: usize = 0;
    while i < bugs.len()
        invariant
            i <= bugs@.len(),
            found@ == bugs@.subrange(0, i as int).map_values(|b: BugEntry| bug_info_of(b)),
        decreases bugs@.len() - i,
    {
        let b = &bugs[i];
        found.push(BugInfo { description: b.description.clone(), error_output: b.error_output.clone() });
        proof {
            assert(bugs@.subrange(0, i + 1) =~= bugs@.subrange(0, i as int).push(bugs@[i as int]));
        }
        i = i + 1;
    }
    proof {
        assert(bugs@.subrange(0, bugs@.len() as int) =~= bugs@);
    }
    AgentOutput::ExecutionResult {
        milestone_id: String::new(),
        plan: None,
        skills_used: Vec::new(),
        success,
        failure_reason: if success { None } else { Some(message) },
        bugs_found: found,
    }
}

// ---------------------------------------------------------------------
// Execution state
// ---------------------------------------------------------------------

/// What an execution has run so far: the skills that succeeded with their
/// output, and those that failed with their error, in order.
#[derive(Debug)]
pub struct ExecutionState {
    successes: Vec<(String, String)>,
    failures: Vec<(String, String)>,
}

/// The texts of a list of pairs.
pub open spec fn pair_views(s: Seq<(String, String)>) -> Seq<(Seq<char>, Seq<char>)> {
    s.map_values(|p: (String, String)| (p.0@, p.1@))
}

/// The line that reports one failure: `- <skill>: <error>\n`.
pub open spec fn failure_line(f: (Seq<char>, Seq<char>)) -> Seq<char> {
    "- "@ + f.0 + ": "@ + f.1 + "\n"@
}

/// The lines that report a list of failures, in order.
pub open spec fn failure_lines(fs: Seq<(Seq<char>, Seq<char>)>) -> Seq<char>
    decreases fs.len(),
{
    if fs.len() == 0 {
        seq![]
    } else {
        failure_lines(fs.drop_last()) + failure_line(fs.last())
    }
}

/// The first five entries of a list, or all where there are fewer.
pub open spec fn first_five<A>(s: Seq<A>) -> Seq<A> {
    if s.len() <= 5 {
        s
    } else {
        s.take(5)
    }
}

/// The summary of an execution: the number of successes and of failures,
/// then, where there are failures, the first five of them.
pub open spec fn summary_text(successes: nat, failures: Seq<(Seq<char>, Seq<char>)>) -> Seq<char> {
    "Successes: "@ + decimal(successes) + "\n"@ + "Failures: "@ + decimal(failures.len()) + "\n"@
        + if failures.len() == 0 {
        Seq::<char>::empty()
    } else {
        "Recent failures:\n"@ + failure_lines(first_five(failures))
    }
}

impl ExecutionState {
    /// The successes recorded, as (skill, output) texts.
    pub closed spec fn successes(&self) -> Seq<(Seq<char>, Seq<char>)> {
        pair_views(self.successes@)
    }

    /// The failures recorded, as (skill, error) texts.
    pub closed spec fn failures(&self) -> Seq<(Seq<char>, Seq<char>)> {
        pair_views(self.failures@)
    }

    /// A state with nothing recorded.
    pub fn new() -> (s: ExecutionState)
        ensures
            s.successes().len() == 0,
            s.failures().len() == 0,
    {
        ExecutionState { successes: Vec::new(), failures: Vec::new() }
    }

    /// Records that a skill succeeded with some output.
    pub fn record_success(&mut self, skill_name: &str, output: &str)
        ensures
            final(self).successes() == old(self).successes().push((skill_name@, output@)),
            final(self).failures() == old(self).failures(),
    {
        self.successes.push((owned(skill_name), owned(output)));
        proof {
            assert(pair_views(self.successes@) =~= pair_views(old(self).successes@).push((skill_name@, output@)));
        }
    }

    /// Records that a skill failed with some error.
    pub fn record_failure(&mut self, skill_name: &str, error: &str)
        ensures
            final(self).failures() == old(self).failures().push((skill_name@, error@)),
            final(self).successes() == old(self).successes(),
    {
        self.failures.push((owned(skill_name), owned(error)));
        proof {
            assert(pair_views(self.failures@) =~= pair_views(old(self).failures@).push((skill_name@, error@)));
        }
    }

    /// The summary of what was recorded.
    pub fn summary(&self) -> (s: String)
        ensures
            s@ == summary_text(self.successes().len(), self.failures()),
    {
        let mut s = owned("Successes: ");
        push_decimal(&mut s, self.successes.len() as u64);
        s.append("\n");
        s.append("Failures: ");
        push_decimal(&mut s, self.failures.len() as u64);
        s.append("\n");
        let ghost fs = self.failures();
        if self.failures.len() > 0 {
            s.append("Recent failures:\n");
            let ghost base = s@;
            let n: usize = if self.failures.len() < 5 { self.failures.len() } else { 5 };
            let mut i: usize = 0;
            while i < n
                invariant
                    n <= self.failures@.len(),
                    n == first_five(fs).len(),
                    fs == pair_views(self.failures@),
                    i <= n,
                    s@ == base + failure_lines(first_five(fs).take(i as int)),
                decreases n - i,
            {
                let (skill, error) = &self.failures[i];
                let ghost before = s@;
                s.append("- ");
                s.append(skill.as_str());
                s.append(": ");
                s.append(error.as_str());
                s.append("\n");
                proof {
                    let t = first_five(fs);
                    assert(fs[i as int] == (skill@, error@));
                    assert(t[i as int] == fs[i as int]);
                    assert(t.take(i + 1).drop_last() =~= t.take(i as int));
                    assert(t.take(i + 1).last() == (skill@, error@));
                    assert(s@ =~= before + failure_line((skill@, error@)));
                }
                i = i + 1;
            }
            proof {
                assert(first_five(fs).take(n as int) =~= first_five(fs));
            }
        }
        s
    }
}

/// A call that records an outcome: `(true, skill, output)` for a success,
/// `(false, skill, error)` for a failure.
pub type Record = (bool, Seq<char>, Seq<char>);

/// `s2` is `s` after recording `rec`.
pub open spec fn record_step(s: ExecutionState, rec: Record, s2: ExecutionState) -> bool {
    if rec.0 {
        &&& s2.successes() == s.successes().push((rec.1, rec.2))
        &&& s2.failures() == s.failures()
    } else {
        &&& s2.failures() == s.failures().push((rec.1, rec.2))
        &&& s2.successes() == s.successes()
    }
}

/// How many successes a sequence of records holds.
pub open spec fn success_count(rs: Seq<Record>) -> nat
    decreases rs.len(),
{
    if rs.len() == 0 {
        0
    } else {
        success_count(rs.drop_last()) + if rs.last().0 { 1nat } else { 0nat }
    }
}

/// The failures of a sequence of records, as (skill, error), in call
/// order.
pub open spec fn failures_of(rs: Seq<Record>) -> Seq<(Seq<char>, Seq<char>)>
    decreases rs.len(),
{
    if rs.len() == 0 {
        seq![]
    } else if rs.last().0 {
        failures_of(rs.drop_last())
    } else {
        failures_of(rs.drop_last()).push((rs.last().1, rs.last().2))
    }
}

/// Whatever successes and failures are recorded on a new state, in any
/// interleaving, its summary counts the successes and the failures and
/// lists the first five failures in the order they were recorded.
pub proof fn law_summary_of_records(ss: Seq<ExecutionState>, rs: Seq<Record>)
    requires
        ss.len() == rs.len() + 1,
        ss[0].successes().len() == 0,
        ss[0].failures().len() == 0,
        forall|i: int| 0 <= i < rs.len() ==> record_step(#[trigger] ss[i], rs[i], ss[i + 1]),
    ensures
        ss.last().successes().len() == success_count(rs),
        ss.last().failures() == failures_of(rs),
        summary_text(ss.last().successes().len(), ss.last().failures()) == summary_text(
            success_count(rs),
            failures_of(rs),
        ),
    decreases rs.len(),
{
    if rs.len() == 0 {
        assert(ss[0].failures() =~= Seq::<(Seq<char>, Seq<char>)>::empty());
    } else {
        let n = rs.len() - 1;
        let ss2 = ss.drop_last();
        let rs2 = rs.drop_last();
        assert forall|i: int| 0 <= i < rs2.len() implies record_step(#[trigger] ss2[i], rs2[i], ss2[i + 1]) by {
            assert(record_step(ss[i], rs[i], ss[i + 1]));
        }
        law_summary_of_records(ss2, rs2);
        assert(record_step(ss[n], rs[n], ss[n + 1]));
        assert(ss2.last() == ss[n]);
    }
}

} // verus!
