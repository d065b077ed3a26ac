//! The work hub: a goal's workflow status, the specification handed to
//! the generator, bug entries and optimisation todo lists.
use vstd::prelude::*;

use crate::json::{
    json_array_value, json_empty_object, json_insert, json_is_object, json_items, json_member,
    json_null, json_str, json_string_array, json_string_value, json_text, member_str,
};

verus! {

/// The status of a goal as the agent workflow tracks it.
#[derive(Debug, Clone, Copy, PartialEq, Eq, Structural)]
pub enum GoalStatus {
    Draft,
    Pinned,
    Building,
    Reached,
    Optimizing,
    Failed,
    Archived,
}

/// The text form of a workflow status.
pub open spec fn workflow_status_name(t: GoalStatus) -> Seq<char> {
    match t {
        GoalStatus::Draft => "draft"@,
        GoalStatus::Pinned => "pinned"@,
        GoalStatus::Building => "building"@,
        GoalStatus::Reached => "reached"@,
        GoalStatus::Optimizing => "optimizing"@,
        GoalStatus::Failed => "failed"@,
        GoalStatus::Archived => "archived"@,
    }
}

/// The workflow status whose text form is `s`, if any.
pub open spec fn parse_workflow_status(s: Seq<char>) -> Option<GoalStatus> {
    if s == "draft"@ {
        Some(GoalStatus::Draft)
    } else if s == "pinned"@ {
        Some(GoalStatus::Pinned)
    } else if s == "building"@ {
        Some(GoalStatus::Building)
    } else if s == "reached"@ {
        Some(GoalStatus::Reached)
    } else if s == "optimizing"@ {
        Some(GoalStatus::Optimizing)
    } else if s == "failed"@ {
        Some(GoalStatus::Failed)
    } else if s == "archived"@ {
        Some(GoalStatus::Archived)
    } else {
        None
    }
}

impl GoalStatus {
    /// Reads a workflow status from its text form.
    pub fn parse(s: &str) -> (r: Option<GoalStatus>)
        ensures
            r == parse_workflow_status(s@),
    {
        if crate::text::str_eq(s, "draft") {
            Some(GoalStatus::Draft)
        } else if crate::text::str_eq(s, "pinned") {
            Some(GoalStatus::Pinned)
        } else if crate::text::str_eq(s, "building") {
            Some(GoalStatus::Building)
        } else if crate::text::str_eq(s, "reached") {
            Some(GoalStatus::Reached)
        } else if crate::text::str_eq(s, "optimizing") {
            Some(GoalStatus::Optimizing)
        } else if crate::text::str_eq(s, "failed") {
            Some(GoalStatus::Failed)
        } else if crate::text::str_eq(s, "archived") {
            Some(GoalStatus::Archived)
        } else {
            None
        }
    }

    /// The text form of this value.
    pub fn as_str(&self) -> (r: &'static str)
        ensures
            r@ == workflow_status_name(*self),
    {
        match self {
            GoalStatus::Draft => "draft",
            GoalStatus::Pinned => "pinned",
            GoalStatus::Building => "building",
            GoalStatus::Reached => "reached",
            GoalStatus::Optimizing => "optimizing",
            GoalStatus::Failed => "failed",
            GoalStatus::Archived => "archived",
        }
    }
}

/// Reading back the text form of a workflow status gives that status, and
/// it is the only text that reads as that status.
pub proof fn lemma_workflow_status_text_roundtrip(t: GoalStatus)
    ensures
        parse_workflow_status(workflow_status_name(t)) == Some(t),
        forall|s: Seq<char>| parse_workflow_status(s) == Some(t) ==> s == workflow_status_name(t),
{
    reveal_strlit("draft");
    reveal_strlit("pinned");
    reveal_strlit("building");
    reveal_strlit("reached");
    reveal_strlit("optimizing");
    reveal_strlit("failed");
    reveal_strlit("archived");
    assert("draft"@.len() != "pinned"@.len());
    assert("draft"@.len() != "building"@.len());
    assert("draft"@.len() != "reached"@.len());
    assert("draft"@.len() != "optimizing"@.len());
    assert("draft"@.len() != "failed"@.len());
    assert("draft"@.len() != "archived"@.len());
    assert("pinned"@.len() != "building"@.len());
    assert("pinned"@.len() != "reached"@.len());
    assert("pinned"@.len() != "optimizing"@.len());
    assert("pinned"@[0] != "failed"@[0]);
    assert("pinned"@.len() != "archived"@.len());
    assert("building"@.len() != "reached"@.len());
    assert("building"@.len() != "optimizing"@.len());
    assert("building"@.len() != "failed"@.len());
    assert("building"@[0] != "archived"@[0]);
    assert("reached"@.len() != "optimizing"@.len());
    assert("reached"@.len() != "failed"@.len());
    assert("reached"@.len() != "archived"@.len());
    assert("optimizing"@.len() != "failed"@.len());
    assert("optimizing"@.len() != "archived"@.len());
    assert("failed"@.len() != "archived"@.len());
}


/// The text forms of the workflow statuses are those the database and
/// the front end use: a text reads as `Draft` exactly when it is `draft`,
/// as `Pinned` exactly when it is `pinned`, and so on for `building`,
/// `reached`, `optimizing`, `failed` and `archived`; any other text reads
/// as no status. Each status is written as its own text.
pub proof fn law_workflow_status_texts(s: Seq<char>, t: GoalStatus)
    ensures
        parse_workflow_status(s) == Some(GoalStatus::Draft) <==> s == "draft"@,
        parse_workflow_status(s) == Some(GoalStatus::Pinned) <==> s == "pinned"@,
        parse_workflow_status(s) == Some(GoalStatus::Building) <==> s == "building"@,
        parse_workflow_status(s) == Some(GoalStatus::Reached) <==> s == "reached"@,
        parse_workflow_status(s) == Some(GoalStatus::Optimizing) <==> s == "optimizing"@,
        parse_workflow_status(s) == Some(GoalStatus::Failed) <==> s == "failed"@,
        parse_workflow_status(s) == Some(GoalStatus::Archived) <==> s == "archived"@,
        parse_workflow_status(s) is None <==> (s != "draft"@ && s != "pinned"@ && s != "building"@
            && s != "reached"@ && s != "optimizing"@ && s != "failed"@ && s != "archived"@),
        t == GoalStatus::Draft ==> workflow_status_name(t) == "draft"@,
        t == GoalStatus::Pinned ==> workflow_status_name(t) == "pinned"@,
        t == GoalStatus::Building ==> workflow_status_name(t) == "building"@,
        t == GoalStatus::Reached ==> workflow_status_name(t) == "reached"@,
        t == GoalStatus::Optimizing ==> workflow_status_name(t) == "optimizing"@,
        t == GoalStatus::Failed ==> workflow_status_name(t) == "failed"@,
        t == GoalStatus::Archived ==> workflow_status_name(t) == "archived"@,
{
    lemma_workflow_status_text_roundtrip(t);
    lemma_workflow_status_text_roundtrip(GoalStatus::Draft);
    lemma_workflow_status_text_roundtrip(GoalStatus::Pinned);
    lemma_workflow_status_text_roundtrip(GoalStatus::Building);
    lemma_workflow_status_text_roundtrip(GoalStatus::Reached);
    lemma_workflow_status_text_roundtrip(GoalStatus::Optimizing);
    lemma_workflow_status_text_roundtrip(GoalStatus::Failed);
    lemma_workflow_status_text_roundtrip(GoalStatus::Archived);
}

/// A skill that a module needs.
#[derive(Debug, Clone)]
pub struct SkillRequirement {
    pub name: String,
    pub description: String,
    pub parameters_schema: Option<serde_json::Value>,
}

/// One module of a specification.
#[derive(Debug, Clone)]
pub struct ModuleSpec {
    pub name: String,
    pub description: String,
    pub skill_requirements: Vec<SkillRequirement>,
}

/// What the generator is asked to build.
#[derive(Debug, Clone)]
pub struct Specification {
    pub project_background: String,
    pub module_breakdown: Vec<ModuleSpec>,
    pub acceptance_criteria: Vec<String>,
}

/// A bug recorded on a work node.
#[derive(Debug, Clone, PartialEq, Eq)]
pub struct BugEntry {
    pub description: String,
    pub error_output: Option<String>,
    pub resolved: bool,
}

impl BugEntry {
    /// A new, unresolved bug.
    pub fn new(description: String, error_output: Option<String>) -> (b: BugEntry)
        ensures
            b.description == description,
            b.error_output == error_output,
            !b.resolved,
    {
        BugEntry { description, error_output, resolved: false }
    }
}

/// One item of an optimisation todo list; priority 1 is the most urgent.
#[derive(Debug, Clone, PartialEq, Eq)]
pub struct TodoItem {
    pub description: String,
    pub priority: u32,
}

/// The todo list an optimisation round works through.
#[derive(Debug, Clone, PartialEq, Eq)]
pub struct TodoList {
    pub direction_summary: String,
    pub items: Vec<TodoItem>,
}

impl TodoList {
    /// An empty list with the given direction.
    pub fn new(direction_summary: String) -> (t: TodoList)
        ensures
            t.direction_summary == direction_summary,
            t.items@.len() == 0,
    {
        TodoList { direction_summary, items: Vec::new() }
    }

    /// Appends an item.
    pub fn add_item(&mut self, description: String, priority: u32)
        ensures
            final(self).direction_summary == old(self).direction_summary,
            final(self).items@ == old(self).items@.push(TodoItem { description, priority }),
    {
        self.items.push(TodoItem { description, priority });
    }
}

/// `v` is a JSON object whose members `k` are the strings `s`.
pub open spec fn has_str(v: serde_json::Value, k: Seq<char>, s: Seq<char>) -> bool {
    member_str(v, k) == Some(s)
}

/// `v` is an array of the strings of `items`, in order.
pub open spec fn is_string_array(v: serde_json::Value, items: Seq<String>) -> bool {
    json_items(v) matches Some(a) && a.len() == items.len()
        && forall|i: int| 0 <= i < a.len() ==> json_str(#[trigger] a[i]) == Some(items[i]@)
}

/// `v` is the JSON object of a skill requirement: `name`, `description`
/// and `parameters_schema` (null where there is none).
pub open spec fn requirement_value(v: serde_json::Value, r: SkillRequirement) -> bool {
    &&& json_is_object(v)
    &&& has_str(v, "name"@, r.name@)
    &&& has_str(v, "description"@, r.description@)
    &&& match r.parameters_schema {
        Some(x) => json_member(v, "parameters_schema"@) == Some(x),
        None => json_member(v, "parameters_schema"@) matches Some(n) && json_text(n) == "null"@,
    }
}

/// `v` is the JSON object of a module: `name`, `description` and its
/// `skill_requirements`, one object each, in order.
pub open spec fn module_value(v: serde_json::Value, m: ModuleSpec) -> bool {
    &&& json_is_object(v)
    &&& has_str(v, "name"@, m.name@)
    &&& has_str(v, "description"@, m.description@)
    &&& json_member(v, "skill_requirements"@) matches Some(a) && json_items(a) matches Some(items)
        && items.len() == m.skill_requirements@.len()
        && forall|i: int| 0 <= i < items.len() ==> requirement_value(#[trigger] items[i], m.skill_requirements@[i])
}

impl SkillRequirement {
    /// The JSON object of this requirement: `name`, `description` and
    /// `parameters_schema` (null where there is none).
    pub fn to_value(&self) -> (v: serde_json::Value)
        ensures
            requirement_value(v, *self),
    {
        proof {
            reveal_strlit("name");
            reveal_strlit("description");
            reveal_strlit("parameters_schema");
            assert("name"@.len() != "description"@.len());
            assert("name"@.len() != "parameters_schema"@.len());
            assert("description"@.len() != "parameters_schema"@.len());
        }
        let mut v = json_empty_object();
        json_insert(&mut v, "name", json_string_value(self.name.as_str()));
        json_insert(&mut v, "description", json_string_value(self.description.as_str()));
        let schema = match &self.parameters_schema {
            Some(x) => x.clone(),
            None => json_null(),
        };
        json_insert(&mut v, "parameters_schema", schema);
        v
    }
}

impl ModuleSpec {
    /// The JSON object of this module: `name`, `description` and its
    /// `skill_requirements`, one object each.
    pub fn to_value(&self) -> (v: serde_json::Value)
        ensures
            module_value(v, *self),
    {
        proof {
            reveal_strlit("name");
            reveal_strlit("description");
            reveal_strlit("skill_requirements");
            assert("name"@.len() != "description"@.len());
            assert("name"@.len() != "skill_requirements"@.len());
            assert("description"@.len() != "skill_requirements"@.len());
        }
        let mut reqs: Vec<serde_json::Value> = Vec::new();
        let mut i: usize = 0;
        while i < self.skill_requirements.len()
            invariant
                i <= self.skill_requirements@.len(),
                reqs@.len() == i,
                forall|j: int| 0 <= j < i ==> requirement_value(#[trigger] reqs@[j], self.skill_requirements@[j]),
            decreases self.skill_requirements@.len() - i,
        {
            reqs.push(self.skill_requirements[i].to_value());
            i = i + 1;
        }
        let mut v = json_empty_object();
        json_insert(&mut v, "name", json_string_value(self.name.as_str()));
        json_insert(&mut v, "description", json_string_value(self.description.as_str()));
        json_insert(&mut v, "skill_requirements", json_array_value(reqs));
        v
    }
}

impl Specification {
    /// The JSON object of this specification: `project_background`, its
    /// `module_breakdown` (one object per module) and its
    /// `acceptance_criteria`.
    pub fn to_value(&self) -> (v: serde_json::Value)
        ensures
            json_is_object(v),
            has_str(v, "project_background"@, self.project_background@),
            json_member(v, "module_breakdown"@) matches Some(a) && json_items(a) matches Some(items)
                && items.len() == self.module_breakdown@.len()
                && forall|i: int| 0 <= i < items.len() ==> module_value(#[trigger] items[i], self.module_breakdown@[i]),
            json_member(v, "acceptance_criteria"@) matches Some(a) && is_string_array(a, self.acceptance_criteria@),
    {
        proof {
            reveal_strlit("project_background");
            reveal_strlit("module_breakdown");
            reveal_strlit("acceptance_criteria");
            assert("project_background"@.len() != "module_breakdown"@.len());
            assert("project_background"@.len() != "acceptance_criteria"@.len());
            assert("module_breakdown"@.len() != "acceptance_criteria"@.len());
        }
        let mut mods: Vec<serde_json::Value> = Vec::new();
        let mut i: usize = 0;
        while i < self.module_breakdown.len()
            invariant
                i <= self.module_breakdown@.len(),
                mods@.len() == i,
                forall|j: int| 0 <= j < i ==> module_value(#[trigger] mods@[j], self.module_breakdown@[j]),
            decreases self.module_breakdown@.len() - i,
        {
            mods.push(self.module_breakdown[i].to_value());
            i = i + 1;
        }
        let mut v = json_empty_object();
        json_insert(&mut v, "project_background", json_string_value(self.project_background.as_str()));
        json_insert(&mut v, "module_breakdown", json_array_value(mods));
        json_insert(&mut v, "acceptance_criteria", json_string_array(&self.acceptance_criteria));
        v
    }
}

} // verus!
