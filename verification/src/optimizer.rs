//! The optimiser agent: once a goal is reached it plans improvements
//! (unresolved bugs first), has them applied, checks them and concludes,
//! retrying up to a limit; a goal with nothing left to improve is
//! solidified.
//!
//! Each phase's decisions are functions here; the shell performs the
//! model calls between them.
use vstd::prelude::*;

use crate::agents::{cancel_token, AgentOutput, Optimization, StreamNote};
use crate::builder::{or_items, or_text, VerificationResult};
use crate::error::AppError;
use crate::json::{
    get_member_items, get_member_str, get_member_u64, json_parse, member_items, member_str,
    member_u64, object_span, object_span_defined, object_span_of, parse_json_value,
};
use crate::models::{opt_view, AgentType};
use crate::text::{decimal, join_seq, join_strings, owned, push_decimal, views};
use crate::workhub::{BugEntry, TodoItem, TodoList};

verus! {

/// How many attempts the optimiser makes at most.
pub const MAX_RETRIES: u32 = 10;

/// The head of the analysis prompt, before the goal's title.
pub const ANALYSIS_HEAD: &'static str = "You are an optimization agent. Analyze the achieved goal and identify optimization opportunities.\n\nGoal: ";

/// The instructions that end the analysis prompt.
pub const ANALYSIS_TAIL: &'static str = "Based on the above, create a todo list for optimization:\n1. Bug fixes (if any unresolved bugs)\n2. Performance improvements\n3. Code quality improvements\n4. Documentation updates\n\nFormat your response as JSON:\n{\n  \"direction_summary\": \"...\",\n  \"todos\": [\n    {\"description\": \"...\", \"priority\": 1-5}\n  ]\n}";

/// The head of the specification prompt, before the goal's title.
pub const SPEC_HEAD: &'static str = "You are an optimization agent. Apply the following optimizations:\n\nGoal: ";

/// The instructions that end the specification prompt.
pub const SPEC_TAIL: &'static str = "\n\nPlease apply these optimizations and provide:\n1. Summary of changes made\n2. Updated user manual\n3. List of specific optimizations (area, description, before, after)";

/// The optimiser agent.
pub struct OptimizerAgent {
    pub cancel_token: tokio_util::sync::CancellationToken,
    pub max_retries: u32,
}

/// One item of an optimisation specification.
#[derive(Debug, Clone, PartialEq, Eq)]
pub struct OptimizationItem {
    pub description: String,
    pub priority: u32,
}

/// What the optimiser asks to have applied.
#[derive(Debug, Clone, PartialEq, Eq)]
pub struct OptimizationSpec {
    pub goal_title: String,
    pub direction: String,
    pub items: Vec<OptimizationItem>,
}

/// What applying the optimisations came back with.
#[derive(Debug, Clone)]
pub struct GeneratorTaskResult {
    pub success: bool,
    pub result: String,
    pub user_manual: Option<String>,
    pub optimizations: Vec<Optimization>,
}

/// How an attempt ended.
#[derive(Debug, Clone)]
pub struct ConclusionResult {
    pub achieved: bool,
    pub solidified: bool,
    pub message: String,
    pub optimizations: Vec<Optimization>,
    pub new_node_id: Option<String>,
}

// ---------------------------------------------------------------------
// The todo list
// ---------------------------------------------------------------------

/// The items of a todo list as (description, priority).
pub open spec fn todo_view(items: Seq<TodoItem>) -> Seq<(Seq<char>, u32)> {
    items.map_values(|t: TodoItem| (t.description@, t.priority))
}

/// One item per unresolved bug, `Fix bug: <description>` at priority 1,
/// in order.
pub open spec fn bug_todos(bugs: Seq<BugEntry>) -> Seq<(Seq<char>, u32)>
    decreases bugs.len(),
{
    if bugs.len() == 0 {
        seq![]
    } else {
        let rest = bug_todos(bugs.drop_last());
        if bugs.last().resolved {
            rest
        } else {
            rest.push(("Fix bug: "@ + bugs.last().description@, 1u32))
        }
    }
}

/// One item per JSON todo with a non-empty `description`, at its
/// `priority` (3 where it has none that fits in `u64`), cut to 32 bits,
/// in order.
pub open spec fn json_todos(todos: Seq<serde_json::Value>) -> Seq<(Seq<char>, u32)>
    decreases todos.len(),
{
    if todos.len() == 0 {
        seq![]
    } else {
        let rest = json_todos(todos.drop_last());
        let t = todos.last();
        let d = or_text(member_str(t, "description"@), Seq::<char>::empty());
        let p = match member_u64(t, "priority"@) {
            Some(n) => n,
            None => 3u64,
        };
        if d.len() == 0 {
            rest
        } else {
            rest.push((d, p as u32))
        }
    }
}

/// The todo list read from the parsed reply: its `direction_summary`
/// (`Optimization` where it has none; `Continue optimization` where the
/// reply held no JSON), the unresolved bugs, then its `todos`.
pub open spec fn todo_list_matches(t: TodoList, parsed: Option<serde_json::Value>, bugs: Seq<BugEntry>) -> bool {
    match parsed {
        None => {
            &&& t.direction_summary@ == "Continue optimization"@
            &&& todo_view(t.items@) == bug_todos(bugs)
        },
        Some(v) => {
            &&& t.direction_summary@ == or_text(member_str(v, "direction_summary"@), "Optimization"@)
            &&& todo_view(t.items@) == bug_todos(bugs) + json_todos(or_items(member_items(v, "todos"@)))
        },
    }
}

/// Adds one item per unresolved bug.
fn add_bug_todos(list: &mut TodoList, bugs: &Vec<BugEntry>)
    ensures
        final(list).direction_summary == old(list).direction_summary,
        todo_view(final(list).items@) == todo_view(old(list).items@) + bug_todos(bugs@),
{
    let ghost base = todo_view(list.items@);
    let mut i: usize = 0;
    while i < bugs.len()
        invariant
            i <= bugs@.len(),
            list.direction_summary == old(list).direction_summary,
            base == todo_view(old(list).items@),
            todo_view(list.items@) == base + bug_todos(bugs@.subrange(0, i as int)),
        decreases bugs@.len() - i,
    {
        let ghost before = list.items@;
        proof {
            assert(bugs@.subrange(0, i + 1).drop_last() =~= bugs@.subrange(0, i as int));
            assert(bugs@.subrange(0, i + 1).last() == bugs@[i as int]);
        }
        if !bugs[i].resolved {
            let mut d = owned("Fix bug: ");
            d.append(bugs[i].description.as_str());
            list.add_item(d, 1);
            proof {
                assert(todo_view(list.items@) =~= todo_view(before).push(("Fix bug: "@ + bugs@[i as int].description@, 1u32)));
            }
        }
        i = i + 1;
    }
    proof {
        assert(bugs@.subrange(0, bugs@.len() as int) =~= bugs@);
    }
}

/// Adds one item per JSON todo with a description.
fn add_json_todos(list: &mut TodoList, todos: &Vec<serde_json::Value>)
    ensures
        final(list).direction_summary == old(list).direction_summary,
        todo_view(final(list).items@) == todo_view(old(list).items@) + json_todos(todos@),
{
    let ghost base = todo_view(list.items@);
    let mut i: usize = 0;
    while i < todos.len()
        invariant
            i <= todos@.len(),
            list.direction_summary == old(list).direction_summary,
            base == todo_view(old(list).items@),
            todo_view(list.items@) == base + json_todos(todos@.subrange(0, i as int)),
        decreases todos@.len() - i,
    {
        let ghost before = list.items@;
        proof {
            assert(todos@.subrange(0, i + 1).drop_last() =~= todos@.subrange(0, i as int));
            assert(todos@.subrange(0, i + 1).last() == todos@[i as int]);
        }
        let t = &todos[i];
        let d = match get_member_str(t, "description") {
            Some(s) => s,
            None => String::new(),
        };
        let p: u64 = match get_member_u64(t, "priority") {
            Some(n) => n,
            None => 3,
        };
        if d.as_str().unicode_len() > 0 {
            let ghost dv = d@;
            list.add_item(d, p as u32);
            proof {
                assert(todo_view(list.items@) =~= todo_view(before).push((dv, p as u32)));
            }
        }
        i = i + 1;
    }
    proof {
        assert(todos@.subrange(0, todos@.len() as int) =~= todos@);
    }
}

/// Reads the todo list from the parsed reply (none where the reply held
/// no JSON), putting the unresolved bugs first.
pub fn todo_list_from_parsed(parsed: Option<serde_json::Value>, bugs: &Vec<BugEntry>) -> (t: TodoList)
    ensures
        todo_list_matches(t, parsed, bugs@),
{
    match parsed {
        None => {
            let mut list = TodoList::new(owned("Continue optimization"));
            add_bug_todos(&mut list, bugs);
            proof {
                assert(todo_view(list.items@) =~= bug_todos(bugs@));
            }
            list
        },
        Some(v) => {
            let direction = match get_member_str(&v, "direction_summary") {
                Some(s) => s,
                None => owned("Optimization"),
            };
            let mut list = TodoList::new(direction);
            add_bug_todos(&mut list, bugs);
            let todos = match get_member_items(&v, "todos") {
                Some(a) => a,
                None => Vec::new(),
            };
            add_json_todos(&mut list, &todos);
            proof {
                assert(todo_view(list.items@) =~= bug_todos(bugs@) + json_todos(or_items(member_items(v, "todos"@))));
            }
            list
        },
    }
}

// ---------------------------------------------------------------------
// Prompts
// ---------------------------------------------------------------------

/// The line that lists a known bug.
pub open spec fn bug_line(b: BugEntry) -> Seq<char> {
    "- "@ + b.description@ + " (resolved: "@ + (if b.resolved {
        "true"@
    } else {
        "false"@
    }) + ")\n"@
}

/// The lines that list known bugs, in order.
pub open spec fn bug_lines(bugs: Seq<BugEntry>) -> Seq<char>
    decreases bugs.len(),
{
    if bugs.len() == 0 {
        seq![]
    } else {
        bug_lines(bugs.drop_last()) + bug_line(bugs.last())
    }
}

/// The analysis prompt: the goal and its status, then the plan, the known
/// bugs and the previous conclusion where there are any.
pub open spec fn analysis_prompt(
    title: Seq<char>,
    status: Seq<char>,
    plan: Option<Seq<char>>,
    bugs: Seq<BugEntry>,
    conclusion: Option<Seq<char>>,
) -> Seq<char> {
    ANALYSIS_HEAD@ + title + "\nStatus: "@ + status + "\n\n"@ + match plan {
        Some(p) => "Current Plan:\n"@ + p + "\n\n"@,
        None => Seq::<char>::empty(),
    } + (if bugs.len() == 0 {
        Seq::<char>::empty()
    } else {
        "Known Bugs:\n"@ + bug_lines(bugs) + "\n"@
    }) + match conclusion {
        Some(c) => "Previous Conclusion:\n"@ + c + "\n\n"@,
        None => Seq::<char>::empty(),
    } + ANALYSIS_TAIL@
}

/// The line that presents an item: `- [P<priority>] <description>`.
pub open spec fn item_line(i: OptimizationItem) -> Seq<char> {
    "- [P"@ + decimal(i.priority as nat) + "] "@ + i.description@
}

/// The specification prompt.
pub open spec fn specification_prompt(spec: OptimizationSpec) -> Seq<char> {
    SPEC_HEAD@ + spec.goal_title@ + "\nDirection: "@ + spec.direction@ + "\n\nTodo Items:\n"@ + join_seq(
        spec.items@.map_values(|i: OptimizationItem| item_line(i)),
        "\n"@,
    ) + SPEC_TAIL@
}

/// The line that presents an applied optimisation:
/// `- <area>: <description> (<before> -> <after>)`.
pub open spec fn optimization_line(o: Optimization) -> Seq<char> {
    "- "@ + o.area@ + ": "@ + o.description@ + " ("@ + o.before@ + " -> "@ + o.after@ + ")"@
}

/// Copies a list of optimisations.
pub fn copy_optimizations(v: &Vec<Optimization>) -> (r: Vec<Optimization>)
    ensures
        r@ == v@,
{
    let mut r: Vec<Optimization> = Vec::new();
    let mut i: usize = 0;
    while i < v.len()
        invariant
            i <= v@.len(),
            r@ == v@.subrange(0, i as int),
        decreases v@.len() - i,
    {
        let o = &v[i];
        r.push(Optimization {
            area: o.area.clone(),
            description: o.description.clone(),
            before: o.before.clone(),
            after: o.after.clone(),
        });
        proof {
            assert(v@.subrange(0, i + 1) =~= v@.subrange(0, i as int).push(v@[i as int]));
        }
        i = i + 1;
    }
    proof {
        assert(v@.subrange(0, v@.len() as int) =~= v@);
    }
    r
}

// ---------------------------------------------------------------------
// The agent
// ---------------------------------------------------------------------

/// The output of a run: the goal's milestone (or empty) with the given
/// optimisations, solidification and new node.
pub open spec fn optimization_output(
    o: AgentOutput,
    milestone_id: Option<String>,
    optimizations: Seq<Optimization>,
    solidified: bool,
    new_node_id: Option<String>,
) -> bool {
    o matches AgentOutput::OptimizationResult { milestone_id: m, optimizations: os, solidified: s, new_node_id: n }
        && m@ == or_text(opt_view(milestone_id), Seq::<char>::empty()) && os@ == optimizations
        && s == solidified && n == new_node_id
}

/// The run ends with the goal solidified and the note that says so.
pub open spec fn solidified_end(r: Option<(AgentOutput, StreamNote)>, milestone_id: Option<String>) -> bool {
    r matches Some(x) && optimization_output(x.0, milestone_id, Seq::empty(), true, None)
        && x.1.text@ == "No optimization tasks found, goal is solidified\n"@ && x.1.finished
}

fn milestone_or_empty(milestone_id: Option<String>) -> (m: String)
    ensures
        m@ == or_text(opt_view(milestone_id), Seq::<char>::empty()),
{
    match milestone_id {
        Some(m) => m,
        None => String::new(),
    }
}

impl OptimizerAgent {
    /// An optimiser that stops when `cancel_token` is cancelled.
    pub fn new(cancel_token: tokio_util::sync::CancellationToken) -> (a: OptimizerAgent)
        ensures
            a.max_retries == MAX_RETRIES,
            a.cancel_token == cancel_token,
    {
        OptimizerAgent { cancel_token, max_retries: MAX_RETRIES }
    }

    /// The optimiser's agent type.
    pub fn agent_type(&self) -> (t: AgentType)
        ensures
            t == AgentType::Optimizer,
    {
        AgentType::Optimizer
    }

    /// Asks the running optimisation to stop.
    pub fn cancel(&self) {
        cancel_token(&self.cancel_token);
    }

    /// The analysis prompt for a goal with the given status text.
    pub fn build_analysis_prompt(
        &self,
        title: &str,
        status: &str,
        plan: &Option<String>,
        bugs: &Vec<BugEntry>,
        conclusion: &Option<String>,
    ) -> (p: String)
        ensures
            p@ == analysis_prompt(title@, status@, opt_view(*plan), bugs@, opt_view(*conclusion)),
    {
        let mut p = owned(ANALYSIS_HEAD);
        p.append(title);
        p.append("\nStatus: ");
        p.append(status);
        p.append("\n\n");
        match plan {
            Some(x) => {
                p.append("Current Plan:\n");
                p.append(x.as_str());
                p.append("\n\n");
            },
            None => {},
        }
        if bugs.len() > 0 {
            p.append("Known Bugs:\n");
            let ghost base = p@;
            let mut i: usize = 0;
            while i < bugs.len()
                invariant
                    i <= bugs@.len(),
                    p@ == base + bug_lines(bugs@.subrange(0, i as int)),
                decreases bugs@.len() - i,
            {
                let ghost before = p@;
                let b = &bugs[i];
                p.append("- ");
                p.append(b.description.as_str());
                p.append(" (resolved: ");
                if b.resolved {
                    p.append("true");
                } else {
                    p.append("false");
                }
                p.append(")\n");
                proof {
                    assert(bugs@.subrange(0, i + 1).drop_last() =~= bugs@.subrange(0, i as int));
                    assert(bugs@.subrange(0, i + 1).last() == bugs@[i as int]);
                    assert(p@ =~= before + bug_line(bugs@[i as int]));
                }
                i = i + 1;
            }
            proof {
                assert(bugs@.subrange(0, bugs@.len() as int) =~= bugs@);
            }
            p.append("\n");
        }
        match conclusion {
            Some(c) => {
                p.append("Previous Conclusion:\n");
                p.append(c.as_str());
                p.append("\n\n");
            },
            None => {},
        }
        p.append(ANALYSIS_TAIL);
        p
    }

    /// The JSON part of a reply: from its first `{` to its last `}`.
    pub fn extract_json(&self, text: &str) -> (r: String)
        requires
            object_span_defined(text@),
        ensures
            r@ == object_span(text@),
    {
        object_span_of(text)
    }

    /// Reads the todo list from the model's reply, with the unresolved
    /// bugs first.
    pub fn parse_todo_list(&self, response: &str, bugs: &Vec<BugEntry>) -> (r: Result<TodoList, AppError>)
        requires
            object_span_defined(response@),
        ensures
            r matches Ok(t) && todo_list_matches(t, json_parse(object_span(response@)), bugs@),
    {
        let json_str = self.extract_json(response);
        let parsed = parse_json_value(json_str.as_str());
        Ok(todo_list_from_parsed(parsed, bugs))
    }

    /// The note streamed once the todo list is made.
    pub fn todo_note(&self, list: &TodoList) -> (s: String)
        ensures
            s@ == "Created todo list with "@ + decimal(list.items@.len()) + " items\n"@,
    {
        let mut s = owned("Created todo list with ");
        push_decimal(&mut s, list.items.len() as u64);
        s.append(" items\n");
        s
    }

    /// The specification for a todo list: the goal's title, the list's
    /// direction and its items.
    pub fn transform_to_specification(&self, list: &TodoList, title: &str) -> (s: OptimizationSpec)
        ensures
            s.goal_title@ == title@,
            s.direction@ == list.direction_summary@,
            s.items@.len() == list.items@.len(),
            forall|i: int| 0 <= i < list.items@.len() ==> {
                &&& (#[trigger] s.items@[i]).description@ == list.items@[i].description@
                &&& s.items@[i].priority == list.items@[i].priority
            },
    {
        let mut items: Vec<OptimizationItem> = Vec::new();
        let mut i: usize = 0;
        while i < list.items.len()
            invariant
                i <= list.items@.len(),
                items@.len() == i,
                forall|j: int| 0 <= j < i ==> {
                    &&& (#[trigger] items@[j]).description@ == list.items@[j].description@
                    &&& items@[j].priority == list.items@[j].priority
                },
            decreases list.items@.len() - i,
        {
            let it = &list.items[i];
            items.push(OptimizationItem { description: it.description.clone(), priority: it.priority });
            i = i + 1;
        }
        OptimizationSpec { goal_title: owned(title), direction: list.direction_summary.clone(), items }
    }

    /// The specification prompt.
    pub fn build_specification_prompt(&self, spec: &OptimizationSpec) -> (p: String)
        ensures
            p@ == specification_prompt(*spec),
    {
        let mut lines: Vec<String> = Vec::new();
        let mut i: usize = 0;
        while i < spec.items.len()
            invariant
                i <= spec.items@.len(),
                views(lines@) == spec.items@.subrange(0, i as int).map_values(|x: OptimizationItem| item_line(x)),
            decreases spec.items@.len() - i,
        {
            let it = &spec.items[i];
            let mut line = owned("- [P");
            push_decimal(&mut line, it.priority as u64);
            line.append("] ");
            line.append(it.description.as_str());
            let ghost before = lines@;
            lines.push(line);
            proof {
                assert(views(lines@) =~= views(before).push(item_line(*it)));
                assert(spec.items@.subrange(0, i + 1) =~= spec.items@.subrange(0, i as int).push(*it));
                assert(spec.items@.subrange(0, i + 1).map_values(|x: OptimizationItem| item_line(x))
                    =~= spec.items@.subrange(0, i as int).map_values(|x: OptimizationItem| item_line(x)).push(item_line(*it)));
            }
            i = i + 1;
        }
        proof {
            assert(spec.items@.subrange(0, spec.items@.len() as int) =~= spec.items@);
        }
        let joined = join_strings(&lines, "\n");
        let mut p = owned(SPEC_HEAD);
        p.append(spec.goal_title.as_str());
        p.append("\nDirection: ");
        p.append(spec.direction.as_str());
        p.append("\n\nTodo Items:\n");
        p.append(joined.as_str());
        p.append(SPEC_TAIL);
        p
    }

    /// What applying the optimisations currently comes back with: a
    /// successful result with an updated manual and one performance
    /// optimisation.
    pub fn applied_result(&self) -> (g: GeneratorTaskResult)
        ensures
            g.success,
            g.result@ == "Optimization completed"@,
            opt_view(g.user_manual) == Some("# Updated User Manual\n\nOptimized version..."@),
            g.optimizations@.len() == 1,
            g.optimizations@[0].area@ == "performance"@,
            g.optimizations@[0].description@ == "Improved algorithm efficiency"@,
            g.optimizations@[0].before@ == "O(n^2)"@,
            g.optimizations@[0].after@ == "O(n log n)"@,
    {
        let mut optimizations: Vec<Optimization> = Vec::new();
        optimizations.push(Optimization {
            area: owned("performance"),
            description: owned("Improved algorithm efficiency"),
            before: owned("O(n^2)"),
            after: owned("O(n log n)"),
        });
        GeneratorTaskResult {
            success: true,
            result: owned("Optimization completed"),
            user_manual: Some(owned("# Updated User Manual\n\nOptimized version...")),
            optimizations,
        }
    }

    /// Checks the result before the model reviews it: a failed result
    /// fails verification with `Generator reported failure`.
    pub fn verify_precheck(&self, result: &GeneratorTaskResult) -> (r: Option<VerificationResult>)
        ensures
            !result.success ==> crate::builder::fails_verification(r, "Generator reported failure"@),
            result.success ==> r is None,
    {
        if !result.success {
            Some(VerificationResult { passed: false, reason: owned("Generator reported failure") })
        } else {
            None
        }
    }

    /// The prompt that asks the model to verify the optimisations, one
    /// line each.
    pub fn verify_prompt(&self, result: &GeneratorTaskResult) -> (p: String)
        ensures
            p@ == "Verify the following optimizations are correct and complete:\n\n"@ + join_seq(
                result.optimizations@.map_values(|o: Optimization| optimization_line(o)),
                "\n"@,
            ),
    {
        let mut lines: Vec<String> = Vec::new();
        let mut i: usize = 0;
        while i < result.optimizations.len()
            invariant
                i <= result.optimizations@.len(),
                views(lines@) == result.optimizations@.subrange(0, i as int).map_values(
                    |o: Optimization| optimization_line(o),
                ),
            decreases result.optimizations@.len() - i,
        {
            let o = &result.optimizations[i];
            let mut line = owned("- ");
            line.append(o.area.as_str());
            line.append(": ");
            line.append(o.description.as_str());
            line.append(" (");
            line.append(o.before.as_str());
            line.append(" -> ");
            line.append(o.after.as_str());
            line.append(")");
            let ghost before = lines@;
            lines.push(line);
            proof {
                assert(views(lines@) =~= views(before).push(optimization_line(*o)));
                assert(result.optimizations@.subrange(0, i + 1) =~= result.optimizations@.subrange(0, i as int).push(*o));
                assert(result.optimizations@.subrange(0, i + 1).map_values(|o: Optimization| optimization_line(o))
                    =~= result.optimizations@.subrange(0, i as int).map_values(|o: Optimization| optimization_line(o)).push(optimization_line(*o)));
            }
            i = i + 1;
        }
        proof {
            assert(result.optimizations@.subrange(0, result.optimizations@.len() as int) =~= result.optimizations@);
        }
        let joined = join_strings(&lines, "\n");
        let mut p = owned("Verify the following optimizations are correct and complete:\n\n");
        p.append(joined.as_str());
        p
    }

    /// The verification of a successful result, once the model reviewed it.
    pub fn verification_passed(&self) -> (v: VerificationResult)
        ensures
            v.passed,
            v.reason@ == "Optimization verification passed"@,
    {
        VerificationResult { passed: true, reason: owned("Optimization verification passed") }
    }

    /// Concludes an attempt. A verified result succeeds, and solidifies
    /// the goal where it applied no optimisation; a failed attempt at the
    /// limit gives up; an earlier one is retried.
    pub fn conclude(&self, verification: &VerificationResult, result: &GeneratorTaskResult, attempt: u32) -> (r: (ConclusionResult, StreamNote))
        ensures
            r.0.new_node_id is None,
            verification.passed ==> {
                &&& r.0.achieved
                &&& r.0.solidified == (result.optimizations@.len() == 0)
                &&& r.0.message@ == "Optimization successful"@
                &&& r.0.optimizations@ == result.optimizations@
                &&& r.1.text@ == "Optimization complete! Creating conclusion...\n"@
                &&& r.1.finished
            },
            !verification.passed && attempt >= self.max_retries ==> {
                &&& !r.0.achieved
                &&& !r.0.solidified
                &&& r.0.message@ == "Failed after "@ + decimal(self.max_retries as nat) + " attempts"@
                &&& r.0.optimizations@.len() == 0
                &&& r.1.text@ == "Max retries ("@ + decimal(self.max_retries as nat) + ") reached for optimization\n"@
                &&& r.1.finished
            },
            !verification.passed && attempt < self.max_retries ==> {
                &&& !r.0.achieved
                &&& !r.0.solidified
                &&& r.0.message@ == "Retrying..."@
                &&& r.0.optimizations@.len() == 0
                &&& r.1.text@ == "Optimization attempt "@ + decimal(attempt as nat) + "/"@ + decimal(
                    self.max_retries as nat,
                ) + " failed, retrying\n"@
                &&& !r.1.finished
            },
    {
        if verification.passed {
            return (
                ConclusionResult {
                    achieved: true,
                    solidified: result.optimizations.len() == 0,
                    message: owned("Optimization successful"),
                    optimizations: copy_optimizations(&result.optimizations),
                    new_node_id: None,
                },
                StreamNote { text: owned("Optimization complete! Creating conclusion...\n"), finished: true },
            );
        }
        if attempt >= self.max_retries {
            let mut note = owned("Max retries (");
            push_decimal(&mut note, self.max_retries as u64);
            note.append(") reached for optimization\n");
            let mut message = owned("Failed after ");
            push_decimal(&mut message, self.max_retries as u64);
            message.append(" attempts");
            return (
                ConclusionResult {
                    achieved: false,
                    solidified: false,
                    message,
                    optimizations: Vec::new(),
                    new_node_id: None,
                },
                StreamNote { text: note, finished: true },
            );
        }
        let mut note = owned("Optimization attempt ");
        push_decimal(&mut note, attempt as u64);
        note.append("/");
        push_decimal(&mut note, self.max_retries as u64);
        note.append(" failed, retrying\n");
        (
            ConclusionResult {
                achieved: false,
                solidified: false,
                message: owned("Retrying..."),
                optimizations: Vec::new(),
                new_node_id: None,
            },
            StreamNote { text: note, finished: false },
        )
    }

    /// Whether the run ends after this attempt.
    pub fn run_finished(&self, conclusion: &ConclusionResult, attempt: u32) -> (b: bool)
        ensures
            b == (conclusion.achieved || attempt >= self.max_retries),
    {
        conclusion.achieved || attempt >= self.max_retries
    }

    /// The output of a run cancelled before an attempt: nothing optimised,
    /// not solidified.
    pub fn cancelled_output(&self, milestone_id: Option<String>) -> (o: AgentOutput)
        ensures
            optimization_output(o, milestone_id, Seq::empty(), false, None),
    {
        AgentOutput::OptimizationResult {
            milestone_id: milestone_or_empty(milestone_id),
            optimizations: Vec::new(),
            solidified: false,
            new_node_id: None,
        }
    }

    /// Where the todo list is empty the goal is solidified: the run ends
    /// with that output and a last note.
    pub fn nothing_to_do(&self, list: &TodoList, milestone_id: Option<String>) -> (r: Option<(AgentOutput, StreamNote)>)
        ensures
            list.items@.len() == 0 ==> solidified_end(r, milestone_id),
            list.items@.len() > 0 ==> r is None,
    {
        if list.items.len() == 0 {
            Some((
                AgentOutput::OptimizationResult {
                    milestone_id: milestone_or_empty(milestone_id),
                    optimizations: Vec::new(),
                    solidified: true,
                    new_node_id: None,
                },
                StreamNote { text: owned("No optimization tasks found, goal is solidified\n"), finished: true },
            ))
        } else {
            None
        }
    }

    /// The output of the attempt that ends the run.
    pub fn final_output(&self, milestone_id: Option<String>, conclusion: ConclusionResult) -> (o: AgentOutput)
        ensures
            optimization_output(
                o,
                milestone_id,
                conclusion.optimizations@,
                conclusion.solidified,
                conclusion.new_node_id,
            ),
    {
        AgentOutput::OptimizationResult {
            milestone_id: milestone_or_empty(milestone_id),
            optimizations: conclusion.optimizations,
            solidified: conclusion.solidified,
            new_node_id: conclusion.new_node_id,
        }
    }
}

} // verus!
