//! The builder agent: it plans a goal, has the generator build it,
//! checks the result and concludes, retrying up to a limit.
//!
//! Each phase's decisions are functions here; the shell performs the
//! model and generator calls between them.
use vstd::prelude::*;

use crate::agents::{cancel_token, AgentOutput, StreamNote};
use crate::error::AppError;
use crate::generator::{ExecuteResponse, GeneratorTaskStatus, StatusResponse};
use crate::json::{
    get_member_items, get_member_str, json_parse, member_items, member_str, object_span,
    object_span_defined, object_span_of, parse_json_value, str_items, string_items,
};
use crate::models::{opt_view, AgentType};
use crate::text::{decimal, join_seq, join_strings, owned, push_decimal, views};
use crate::workhub::{ModuleSpec, SkillRequirement, Specification};

verus! {

/// How many attempts the builder makes at most.
pub const MAX_RETRIES: u32 = 10;

/// How many times the generator's status is polled at most (once a
/// second, ten minutes).
pub const MAX_POLL_ATTEMPTS: u32 = 600;

/// The system prompt of the planning call.
pub const PLANNER_SYSTEM: &'static str = "You are a goal planning agent that creates detailed plans.";

/// The head of the planning prompt, before the goal's title.
pub const ANALYSIS_HEAD: &'static str = "You are a goal planning agent. Analyze the following goal and create a detailed plan.\n\nGoal: ";

/// The instructions that end the planning prompt.
pub const ANALYSIS_TAIL: &'static str = "Create a plan with:\n1. Key requirements analysis\n2. Module breakdown (list each module)\n3. Dependencies between modules\n4. Acceptance criteria\n\nFormat your response as JSON:\n{\n  \"analysis\": \"...\",\n  \"modules\": [\n    {\"name\": \"...\", \"description\": \"...\", \"dependencies\": [...]}\n  ],\n  \"acceptance_criteria\": [...]\n}";

/// The head of the generator prompt, before the project background.
pub const SPEC_HEAD: &'static str = "You are a code generation agent. Here is your task:\n\nProject Background:\n";

/// The instructions that end the generator prompt.
pub const SPEC_TAIL: &'static str = "\n\nPlease generate the required code and provide a user manual.\nAfter generation, respond with:\n1. A summary of what was created\n2. A user manual (USER_MANUAL.md format)\n3. Any skills that should be saved for future use";

/// The builder agent.
pub struct BuilderAgent {
    pub cancel_token: tokio_util::sync::CancellationToken,
    pub max_retries: u32,
}

/// A module of a plan.
#[derive(Debug, Clone)]
pub struct ModuleInfo {
    pub name: String,
    pub description: String,
    pub dependencies: Vec<String>,
}

/// The plan the model made for a goal.
#[derive(Debug, Clone)]
pub struct PlanResult {
    pub analysis: String,
    pub modules: Vec<ModuleInfo>,
    pub acceptance_criteria: Vec<String>,
}

/// What a generator task came back with.
#[derive(Debug, Clone)]
pub struct GeneratorTaskResult {
    pub success: bool,
    pub result: String,
    pub user_manual: Option<String>,
    pub skills: Vec<SkillRequirement>,
}

/// Whether the generator's work passed verification, and why.
#[derive(Debug, Clone, PartialEq, Eq)]
pub struct VerificationResult {
    pub passed: bool,
    pub reason: String,
}

/// How an attempt ended.
#[derive(Debug, Clone, PartialEq, Eq)]
pub struct ConclusionResult {
    pub achieved: bool,
    pub message: String,
    pub new_node_id: Option<String>,
}

// ---------------------------------------------------------------------
// Reading the plan
// ---------------------------------------------------------------------

/// The text, or the default where there is none.
pub open spec fn or_text(o: Option<Seq<char>>, d: Seq<char>) -> Seq<char> {
    match o {
        Some(t) => t,
        None => d,
    }
}

/// The items, or none where there are none.
pub open spec fn or_items(o: Option<Seq<serde_json::Value>>) -> Seq<serde_json::Value> {
    match o {
        Some(a) => a,
        None => seq![],
    }
}

/// A module read from a JSON item: its `name` (default `unknown`), its
/// `description` (default empty) and the string items of its
/// `dependencies`.
pub open spec fn module_matches(m: ModuleInfo, v: serde_json::Value) -> bool {
    &&& m.name@ == or_text(member_str(v, "name"@), "unknown"@)
    &&& m.description@ == or_text(member_str(v, "description"@), Seq::<char>::empty())
    &&& views(m.dependencies@) == str_items(or_items(member_items(v, "dependencies"@)))
}

/// The modules read from a list of JSON items, one for each, in order.
pub open spec fn modules_match(ms: Seq<ModuleInfo>, vs: Seq<serde_json::Value>) -> bool {
    &&& ms.len() == vs.len()
    &&& forall|i: int| 0 <= i < ms.len() ==> module_matches(#[trigger] ms[i], vs[i])
}

/// The plan read from the parsed reply: its `analysis` (default empty),
/// its `modules` and the string items of its `acceptance_criteria`. Where
/// the reply held no JSON, the whole reply is the analysis and the plan
/// has no modules and no criteria.
pub open spec fn plan_matches(p: PlanResult, parsed: Option<serde_json::Value>, response: Seq<char>) -> bool {
    match parsed {
        None => {
            &&& p.analysis@ == response
            &&& p.modules@.len() == 0
            &&& p.acceptance_criteria@.len() == 0
        },
        Some(v) => {
            &&& p.analysis@ == or_text(member_str(v, "analysis"@), Seq::<char>::empty())
            &&& modules_match(p.modules@, or_items(member_items(v, "modules"@)))
            &&& views(p.acceptance_criteria@) == str_items(or_items(member_items(v, "acceptance_criteria"@)))
        },
    }
}

/// Reads a module from a JSON item.
pub fn module_from_json(v: &serde_json::Value) -> (m: ModuleInfo)
    ensures
        module_matches(m, *v),
{
    let name = match get_member_str(v, "name") {
        Some(s) => s,
        None => owned("unknown"),
    };
    let description = match get_member_str(v, "description") {
        Some(s) => s,
        None => String::new(),
    };
    let dependencies = match get_member_items(v, "dependencies") {
        Some(items) => string_items(&items),
        None => {
            let empty: Vec<serde_json::Value> = Vec::new();
            string_items(&empty)
        },
    };
    ModuleInfo { name, description, dependencies }
}

/// Reads the plan from the parsed reply (none where the reply held no
/// JSON); `response` is the whole reply.
pub fn plan_from_parsed(parsed: Option<serde_json::Value>, response: &str) -> (p: PlanResult)
    ensures
        plan_matches(p, parsed, response@),
{
    match parsed {
        None => PlanResult {
            analysis: owned(response),
            modules: Vec::new(),
            acceptance_criteria: Vec::new(),
        },
        Some(v) => {
            let analysis = match get_member_str(&v, "analysis") {
                Some(s) => s,
                None => String::new(),
            };
            let items = match get_member_items(&v, "modules") {
                Some(a) => a,
                None => Vec::new(),
            };
            let mut modules: Vec<ModuleInfo> = Vec::new();
            let mut i: usize = 0;
            while i < items.len()
                invariant
                    i <= items@.len(),
                    modules@.len() == i,
                    forall|j: int| 0 <= j < i ==> module_matches(#[trigger] modules@[j], items@[j]),
                decreases items@.len() - i,
            {
                modules.push(module_from_json(&items[i]));
                i = i + 1;
            }
            let criteria = match get_member_items(&v, "acceptance_criteria") {
                Some(a) => string_items(&a),
                None => {
                    let empty: Vec<serde_json::Value> = Vec::new();
                    string_items(&empty)
                },
            };
            PlanResult { analysis, modules, acceptance_criteria: criteria }
        },
    }
}

// ---------------------------------------------------------------------
// Prompts and the specification
// ---------------------------------------------------------------------

/// The planning prompt for a goal, with the previous conclusion where
/// there is one.
pub open spec fn analysis_prompt(title: Seq<char>, raw_input: Seq<char>, existing: Option<Seq<char>>) -> Seq<char> {
    ANALYSIS_HEAD@ + title + "\nRaw Input: "@ + raw_input + "\n\n"@ + match existing {
        Some(c) => "Previous Conclusion:\n"@ + c + "\n\n"@,
        None => Seq::<char>::empty(),
    } + ANALYSIS_TAIL@
}

/// The line that presents a module to the generator.
pub open spec fn module_line(m: ModuleSpec) -> Seq<char> {
    "- "@ + m.name@ + ": "@ + m.description@
}

/// The generator prompt for a specification: its background, one line
/// per module and one line per acceptance criterion.
pub open spec fn specification_prompt(spec: Specification) -> Seq<char> {
    SPEC_HEAD@ + spec.project_background@ + "\n\nModule Breakdown:\n"@ + join_seq(
        spec.module_breakdown@.map_values(|m: ModuleSpec| module_line(m)),
        "\n"@,
    ) + "\n\nAcceptance Criteria:\n"@ + join_seq(views(spec.acceptance_criteria@), "\n"@)
        + SPEC_TAIL@
}

/// Copies a list of strings.
pub fn copy_strings(v: &Vec<String>) -> (r: Vec<String>)
    ensures
        r@ == v@,
{
    let r = v.clone();
    assert(r@ =~= v@);
    r
}

// ---------------------------------------------------------------------
// Polling the generator
// ---------------------------------------------------------------------

/// What one status reply means for the wait.
#[derive(Debug)]
pub enum PollStep {
    /// The wait is over, with the task's result or an error.
    Finished(Result<GeneratorTaskResult, AppError>),
    /// Poll again; this many polls have been made.
    Continue(u32),
}

/// The requirements of a list of skills: names and descriptions, no
/// parameter schema.
pub open spec fn requirements_match(r: Seq<SkillRequirement>, s: Seq<crate::generator::GeneratedSkill>) -> bool {
    &&& r.len() == s.len()
    &&& forall|i: int| 0 <= i < r.len() ==> {
        &&& (#[trigger] r[i]).name@ == s[i].name@
        &&& r[i].description@ == s[i].description@
        &&& r[i].parameters_schema is None
    }
}

/// What a completed task's result gives: success, its summary, its
/// manual and its skills.
pub open spec fn completed_result(g: GeneratorTaskResult, t: crate::generator::TaskResult) -> bool {
    &&& g.success
    &&& g.result == t.summary
    &&& g.user_manual == t.user_manual
    &&& requirements_match(g.skills@, t.skills@)
}

/// `r` is the transport error with message `m`.
pub open spec fn is_transport_error<T>(r: Result<T, AppError>, m: Seq<char>) -> bool {
    r matches Err(AppError::Transport(x)) && x@ == m
}

/// The wait ends with the transport error `m`.
pub open spec fn ends_in_transport_error(step: PollStep, m: Seq<char>) -> bool {
    step matches PollStep::Finished(x) && is_transport_error(x, m)
}

/// A failed verification with the given reason.
pub open spec fn fails_verification(r: Option<VerificationResult>, reason: Seq<char>) -> bool {
    r matches Some(v) && !v.passed && v.reason@ == reason
}

/// `r` is the cancellation error with message `m`.
pub open spec fn is_cancel_error<T>(r: Result<T, AppError>, m: Seq<char>) -> bool {
    r matches Err(AppError::Cancelled(x)) && x@ == m
}

/// The progress note of a running task: `[<progress>%] <step>\n`.
pub open spec fn progress_note(progress: u8, step: Seq<char>) -> Seq<char> {
    "["@ + decimal(progress as nat) + "%] "@ + step + "\n"@
}

/// What a status reply means, after `attempts` earlier polls, and the
/// note to stream:
/// - completed: the task's result, or a transport error where it has
///   none; note `Generator task completed successfully`;
/// - failed: an unsuccessful result whose text is the task's error
///   (`Unknown error` where it has none); note `Generator task failed: ..`;
/// - cancelled: `Cancelled("Task was cancelled")`;
/// - running or pending: poll again (a running task with a current step
///   notes its progress), unless this was the last allowed poll, which
///   ends the wait with `Transport("Generator task timed out")`.
pub fn poll_step(status: StatusResponse, attempts: u32) -> (r: (PollStep, Option<String>))
    requires
        attempts < u32::MAX,
    ensures
        status.status == GeneratorTaskStatus::Completed ==> {
            &&& opt_view(r.1) == Some("Generator task completed successfully\n"@)
            &&& match status.result {
                Some(t) => r.0 matches PollStep::Finished(Ok(g)) && completed_result(g, t),
                None => ends_in_transport_error(r.0, "Generator completed but no result provided"@),
            }
        },
        status.status == GeneratorTaskStatus::Failed ==> {
            let error = or_text(opt_view(status.error), "Unknown error"@);
            &&& opt_view(r.1) == Some("Generator task failed: "@ + error + "\n"@)
            &&& r.0 matches PollStep::Finished(Ok(g)) && !g.success && g.result@ == error
                && g.user_manual is None && g.skills@.len() == 0
        },
        status.status == GeneratorTaskStatus::Cancelled ==> {
            &&& r.1 is None
            &&& r.0 matches PollStep::Finished(x) && is_cancel_error(x, "Task was cancelled"@)
        },
        status.status == GeneratorTaskStatus::Running || status.status == GeneratorTaskStatus::Pending ==> {
            &&& (status.status == GeneratorTaskStatus::Running && status.current_step is Some) ==> opt_view(r.1)
                == Some(progress_note(status.progress, status.current_step->0@))
            &&& !(status.status == GeneratorTaskStatus::Running && status.current_step is Some) ==> r.1 is None
            &&& attempts + 1 >= MAX_POLL_ATTEMPTS ==> ends_in_transport_error(r.0, "Generator task timed out"@)
            &&& attempts + 1 < MAX_POLL_ATTEMPTS ==> r.0 == PollStep::Continue((attempts + 1) as u32)
        },
{
    match status.status {
        GeneratorTaskStatus::Completed => {
            let note = owned("Generator task completed successfully\n");
            match status.result {
                Some(t) => {
                    let mut skills: Vec<SkillRequirement> = Vec::new();
                    let mut i: usize = 0;
                    while i < t.skills.len()
                        invariant
                            i <= t.skills@.len(),
                            skills@.len() == i,
                            forall|j: int| 0 <= j < i ==> {
                                &&& (#[trigger] skills@[j]).name@ == t.skills@[j].name@
                                &&& skills@[j].description@ == t.skills@[j].description@
                                &&& skills@[j].parameters_schema is None
                            },
                        decreases t.skills@.len() - i,
                    {
                        let s = &t.skills[i];
                        skills.push(SkillRequirement {
                            name: s.name.clone(),
                            description: s.description.clone(),
                            parameters_schema: None,
                        });
                        i = i + 1;
                    }
                    let g = GeneratorTaskResult {
                        success: true,
                        result: t.summary,
                        user_manual: t.user_manual,
                        skills,
                    };
                    (PollStep::Finished(Ok(g)), Some(note))
                },
                None => (
                    PollStep::Finished(Err(AppError::Transport(owned("Generator completed but no result provided")))),
                    Some(note),
                ),
            }
        },
        GeneratorTaskStatus::Failed => {
            let error = match status.error {
                Some(e) => e,
                None => owned("Unknown error"),
            };
            let mut note = owned("Generator task failed: ");
            note.append(error.as_str());
            note.append("\n");
            let g = GeneratorTaskResult { success: false, result: error, user_manual: None, skills: Vec::new() };
            (PollStep::Finished(Ok(g)), Some(note))
        },
        GeneratorTaskStatus::Cancelled => {
            (PollStep::Finished(Err(AppError::Cancelled(owned("Task was cancelled")))), None)
        },
        _ => {
            let note = if status.status == GeneratorTaskStatus::Running {
                match &status.current_step {
                    Some(step) => {
                        let mut n = owned("[");
                        push_decimal(&mut n, status.progress as u64);
                        n.append("%] ");
                        n.append(step.as_str());
                        n.append("\n");
                        Some(n)
                    },
                    None => None,
                }
            } else {
                None
            };
            let next = attempts + 1;
            if next >= MAX_POLL_ATTEMPTS {
                (PollStep::Finished(Err(AppError::Transport(owned("Generator task timed out")))), note)
            } else {
                (PollStep::Continue(next), note)
            }
        },
    }
}

/// The error a wait ends with when the agent is cancelled.
pub fn poll_cancelled() -> (e: AppError)
    ensures
        e matches AppError::Cancelled(m) && m@ == "Task cancelled by user"@,
{
    AppError::Cancelled(owned("Task cancelled by user"))
}

/// Checks the generator's reply to a task: a refused task is a transport
/// error carrying the generator's message, or `Generator rejected task`.
pub fn check_execute_response(resp: &ExecuteResponse) -> (r: Result<(), AppError>)
    ensures
        resp.accepted ==> r is Ok,
        !resp.accepted ==> is_transport_error(r, or_text(opt_view(resp.message), "Generator rejected task"@)),
{
    if resp.accepted {
        Ok(())
    } else {
        let m = match &resp.message {
            Some(m) => m.clone(),
            None => owned("Generator rejected task"),
        };
        Err(AppError::Transport(m))
    }
}

/// The note streamed once the generator accepted a task.
pub fn accepted_note(task_id: &str) -> (s: String)
    ensures
        s@ == "Task "@ + task_id@ + " accepted, waiting for completion...\n"@,
{
    let mut s = owned("Task ");
    s.append(task_id);
    s.append(" accepted, waiting for completion...\n");
    s
}

impl GeneratorTaskResult {
    /// The prompt that asks the model to review the user manual, where
    /// the task succeeded and produced one.
    pub fn enhance_prompt(&self) -> (p: Option<String>)
        ensures
            self.success && self.user_manual is Some ==> opt_view(p) == Some(
                "Review and improve this user manual. Make it clearer and more actionable:\n\n"@
                    + self.user_manual->0@,
            ),
            !(self.success && self.user_manual is Some) ==> p is None,
    {
        if !self.success {
            return None;
        }
        match &self.user_manual {
            Some(manual) => {
                let mut p = owned("Review and improve this user manual. Make it clearer and more actionable:\n\n");
                p.append(manual.as_str());
                Some(p)
            },
            None => None,
        }
    }
}

// ---------------------------------------------------------------------
// The agent
// ---------------------------------------------------------------------

/// The output of an attempt that ends the run: the goal's milestone (or
/// empty), the plan, the names of the skills the generator reported, and
/// the failure reason where the goal was not achieved.
pub open spec fn final_output_matches(
    o: AgentOutput,
    milestone_id: Option<String>,
    plan: Option<serde_json::Value>,
    skills: Seq<SkillRequirement>,
    conclusion: ConclusionResult,
) -> bool {
    o matches AgentOutput::BuilderResult {
        milestone_id: m,
        plan: p,
        skills_used,
        success,
        failure_reason,
        new_node_id,
    } && m@ == or_text(opt_view(milestone_id), Seq::<char>::empty()) && p == plan
        && views(skills_used@) == skills.map_values(|s: SkillRequirement| s.name@)
        && success == conclusion.achieved
        && failure_reason == (if conclusion.achieved { None } else { Some(conclusion.message) })
        && new_node_id == conclusion.new_node_id
}

impl BuilderAgent {
    /// A builder that stops when `cancel_token` is cancelled.
    pub fn new(cancel_token: tokio_util::sync::CancellationToken) -> (a: BuilderAgent)
        ensures
            a.max_retries == MAX_RETRIES,
            a.cancel_token == cancel_token,
    {
        BuilderAgent { cancel_token, max_retries: MAX_RETRIES }
    }

    /// The builder reports as a kind of executor.
    pub fn agent_type(&self) -> (t: AgentType)
        ensures
            t == AgentType::Executor,
    {
        AgentType::Executor
    }

    /// Asks the running build to stop.
    pub fn cancel(&self) {
        cancel_token(&self.cancel_token);
    }

    /// The planning prompt for a goal.
    pub fn build_analysis_prompt(&self, title: &str, raw_input: &str, existing: &Option<String>) -> (p: String)
        ensures
            p@ == analysis_prompt(title@, raw_input@, opt_view(*existing)),
    {
        let mut p = owned(ANALYSIS_HEAD);
        p.append(title);
        p.append("\nRaw Input: ");
        p.append(raw_input);
        p.append("\n\n");
        match existing {
            Some(c) => {
                p.append("Previous Conclusion:\n");
                p.append(c.as_str());
                p.append("\n\n");
            },
            None => {},
        }
        p.append(ANALYSIS_TAIL);
        p
    }

    /// The JSON part of a reply: from its first `{` to its last `}`.
    pub fn extract_json(&self, text: &str) -> (r: String)
        requires
            object_span_defined(text@),
        ensures
            r@ == object_span(text@),
    {
        object_span_of(text)
    }

    /// Reads the plan from the model's reply.
    pub fn parse_plan(&self, response: &str) -> (r: Result<PlanResult, AppError>)
        requires
            object_span_defined(response@),
        ensures
            r matches Ok(p) && plan_matches(p, json_parse(object_span(response@)), response@),
    {
        let json_str = self.extract_json(response);
        let parsed = parse_json_value(json_str.as_str());
        Ok(plan_from_parsed(parsed, response))
    }

    /// The note streamed once the plan is made.
    pub fn plan_note(&self, plan: &PlanResult) -> (s: String)
        ensures
            s@ == "Plan created with "@ + decimal(plan.modules@.len()) + " modules\n"@,
    {
        let mut s = owned("Plan created with ");
        push_decimal(&mut s, plan.modules.len() as u64);
        s.append(" modules\n");
        s
    }

    /// The specification handed to the generator: the goal's title and
    /// the analysis as background, one module per planned module (no skill
    /// requirements yet) and the plan's acceptance criteria.
    pub fn transform_to_specification(&self, plan: &PlanResult, title: &str) -> (s: Specification)
        ensures
            s.project_background@ == "Project: "@ + title@ + "\n\n"@ + plan.analysis@,
            s.module_breakdown@.len() == plan.modules@.len(),
            forall|i: int| 0 <= i < plan.modules@.len() ==> {
                &&& (#[trigger] s.module_breakdown@[i]).name@ == plan.modules@[i].name@
                &&& s.module_breakdown@[i].description@ == plan.modules@[i].description@
                &&& s.module_breakdown@[i].skill_requirements@.len() == 0
            },
            s.acceptance_criteria@ == plan.acceptance_criteria@,
    {
        let mut bg = owned("Project: ");
        bg.append(title);
        bg.append("\n\n");
        bg.append(plan.analysis.as_str());
        let mut modules: Vec<ModuleSpec> = Vec::new();
        let mut i: usize = 0;
        while i < plan.modules.len()
            invariant
                i <= plan.modules@.len(),
                modules@.len() == i,
                forall|j: int| 0 <= j < i ==> {
                    &&& (#[trigger] modules@[j]).name@ == plan.modules@[j].name@
                    &&& modules@[j].description@ == plan.modules@[j].description@
                    &&& modules@[j].skill_requirements@.len() == 0
                },
            decreases plan.modules@.len() - i,
        {
            let m = &plan.modules[i];
            modules.push(ModuleSpec {
                name: m.name.clone(),
                description: m.description.clone(),
                skill_requirements: Vec::new(),
            });
            i = i + 1;
        }
        Specification {
            project_background: bg,
            module_breakdown: modules,
            acceptance_criteria: copy_strings(&plan.acceptance_criteria),
        }
    }

    /// The generator prompt for a specification.
    pub fn build_specification_prompt(&self, spec: &Specification) -> (p: String)
        ensures
            p@ == specification_prompt(*spec),
    {
        let mut lines: Vec<String> = Vec::new();
        let mut i: usize = 0;
        while i < spec.module_breakdown.len()
            invariant
                i <= spec.module_breakdown@.len(),
                views(lines@) == spec.module_breakdown@.subrange(0, i as int).map_values(
                    |m: ModuleSpec| module_line(m),
                ),
            decreases spec.module_breakdown@.len() - i,
        {
            let m = &spec.module_breakdown[i];
            let mut line = owned("- ");
            line.append(m.name.as_str());
            line.append(": ");
            line.append(m.description.as_str());
            let ghost before = lines@;
            lines.push(line);
            proof {
                assert(views(lines@) =~= views(before).push(module_line(*m)));
                assert(spec.module_breakdown@.subrange(0, i + 1) =~= spec.module_breakdown@.subrange(0, i as int).push(*m));
                assert(spec.module_breakdown@.subrange(0, i + 1).map_values(|m: ModuleSpec| module_line(m))
                    =~= spec.module_breakdown@.subrange(0, i as int).map_values(|m: ModuleSpec| module_line(m)).push(module_line(*m)));
            }
            i = i + 1;
        }
        proof {
            assert(spec.module_breakdown@.subrange(0, spec.module_breakdown@.len() as int) =~= spec.module_breakdown@);
        }
        let modules = join_strings(&lines, "\n");
        let criteria = join_strings(&spec.acceptance_criteria, "\n");
        let mut p = owned(SPEC_HEAD);
        p.append(spec.project_background.as_str());
        p.append("\n\nModule Breakdown:\n");
        p.append(modules.as_str());
        p.append("\n\nAcceptance Criteria:\n");
        p.append(criteria.as_str());
        p.append(SPEC_TAIL);
        p
    }

    /// Checks the generator's result before the model reviews it: a
    /// failed task fails verification with `Generator reported failure`.
    pub fn verify_precheck(&self, result: &GeneratorTaskResult) -> (r: Option<VerificationResult>)
        ensures
            !result.success ==> fails_verification(r, "Generator reported failure"@),
            result.success ==> r is None,
    {
        if !result.success {
            Some(VerificationResult { passed: false, reason: owned("Generator reported failure") })
        } else {
            None
        }
    }

    /// The prompt that asks the model to verify the generator's output.
    pub fn verify_prompt(&self, result: &GeneratorTaskResult) -> (p: String)
        ensures
            p@ == "Verify the following output from a generator agent. Is it complete and correct?\n\n"@
                + result.result@,
    {
        let mut p = owned("Verify the following output from a generator agent. Is it complete and correct?\n\n");
        p.append(result.result.as_str());
        p
    }

    /// The verification of a successful task, once the model reviewed it.
    pub fn verification_passed(&self) -> (v: VerificationResult)
        ensures
            v.passed,
            v.reason@ == "Verification passed"@,
    {
        VerificationResult { passed: true, reason: owned("Verification passed") }
    }

    /// Concludes an attempt. A verified result achieves the goal; a failed
    /// attempt at the limit gives up; an earlier one is retried. The note
    /// says which, and is the run's last unless a retry follows.
    pub fn conclude(&self, verification: &VerificationResult, attempt: u32) -> (r: (ConclusionResult, StreamNote))
        ensures
            r.0.new_node_id is None,
            verification.passed ==> {
                &&& r.0.achieved
                &&& r.0.message@ == "Goal successfully achieved"@
                &&& r.1.text@ == "Goal achieved! Creating conclusion...\n"@
                &&& r.1.finished
            },
            !verification.passed && attempt >= self.max_retries ==> {
                &&& !r.0.achieved
                &&& r.0.message@ == "Failed after "@ + decimal(self.max_retries as nat) + " attempts"@
                &&& r.1.text@ == "Max retries ("@ + decimal(self.max_retries as nat)
                    + ") reached, marking as failed\n"@
                &&& r.1.finished
            },
            !verification.passed && attempt < self.max_retries ==> {
                &&& !r.0.achieved
                &&& r.0.message@ == "Retrying..."@
                &&& r.1.text@ == "Attempt "@ + decimal(attempt as nat) + "/"@ + decimal(
                    self.max_retries as nat,
                ) + " failed, will retry\n"@
                &&& !r.1.finished
            },
    {
        if verification.passed {
            return (
                ConclusionResult { achieved: true, message: owned("Goal successfully achieved"), new_node_id: None },
                StreamNote { text: owned("Goal achieved! Creating conclusion...\n"), finished: true },
            );
        }
        if attempt >= self.max_retries {
            let mut note = owned("Max retries (");
            push_decimal(&mut note, self.max_retries as u64);
            note.append(") reached, marking as failed\n");
            let mut message = owned("Failed after ");
            push_decimal(&mut message, self.max_retries as u64);
            message.append(" attempts");
            return (
                ConclusionResult { achieved: false, message, new_node_id: None },
                StreamNote { text: note, finished: true },
            );
        }
        let mut note = owned("Attempt ");
        push_decimal(&mut note, attempt as u64);
        note.append("/");
        push_decimal(&mut note, self.max_retries as u64);
        note.append(" failed, will retry\n");
        (
            ConclusionResult { achieved: false, message: owned("Retrying..."), new_node_id: None },
            StreamNote { text: note, finished: false },
        )
    }

    /// Whether the run ends after this attempt: the goal was achieved or
    /// the attempts are used up.
    pub fn run_finished(&self, conclusion: &ConclusionResult, attempt: u32) -> (b: bool)
        ensures
            b == (conclusion.achieved || attempt >= self.max_retries),
    {
        conclusion.achieved || attempt >= self.max_retries
    }

    /// The output of a run cancelled before an attempt.
    pub fn cancelled_output(&self, milestone_id: Option<String>) -> (o: AgentOutput)
        ensures
            o matches AgentOutput::BuilderResult {
                milestone_id: m,
                plan,
                skills_used,
                success,
                failure_reason,
                new_node_id,
            } && m@ == or_text(opt_view(milestone_id), Seq::<char>::empty()) && plan is None && skills_used@.len() == 0
                && !success && opt_view(failure_reason) == Some("Cancelled by user"@) && new_node_id is None,
    {
        AgentOutput::BuilderResult {
            milestone_id: match milestone_id {
                Some(m) => m,
                None => String::new(),
            },
            plan: None,
            skills_used: Vec::new(),
            success: false,
            failure_reason: Some(owned("Cancelled by user")),
            new_node_id: None,
        }
    }

    /// The output of the attempt that ends the run.
    pub fn final_output(
        &self,
        milestone_id: Option<String>,
        plan: Option<serde_json::Value>,
        skills: &Vec<SkillRequirement>,
        conclusion: ConclusionResult,
    ) -> (o: AgentOutput)
        ensures
            final_output_matches(o, milestone_id, plan, skills@, conclusion),
    {
        let mut names: Vec<String> = Vec::new();
        let mut i: usize = 0;
        while i < skills.len()
            invariant
                i <= skills@.len(),
                views(names@) == skills@.subrange(0, i as int).map_values(|s: SkillRequirement| s.name@),
            decreases skills@.len() - i,
        {
            let ghost before = names@;
            names.push(skills[i].name.clone());
            proof {
                assert(views(names@) =~= views(before).push(skills@[i as int].name@));
                assert(skills@.subrange(0, i + 1) =~= skills@.subrange(0, i as int).push(skills@[i as int]));
                assert(skills@.subrange(0, i + 1).map_values(|s: SkillRequirement| s.name@)
                    =~= skills@.subrange(0, i as int).map_values(|s: SkillRequirement| s.name@).push(skills@[i as int].name@));
            }
            i = i + 1;
        }
        proof {
            assert(skills@.subrange(0, skills@.len() as int) =~= skills@);
        }
        let achieved = conclusion.achieved;
        AgentOutput::BuilderResult {
            milestone_id: match milestone_id {
                Some(m) => m,
                None => String::new(),
            },
            plan,
            skills_used: names,
            success: achieved,
            failure_reason: if achieved { None } else { Some(conclusion.message) },
            new_node_id: conclusion.new_node_id,
        }
    }
}

} // verus!
