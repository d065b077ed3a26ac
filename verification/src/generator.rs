//! The generator protocol: the JSON-RPC methods the agents call on the
//! generator and the records those methods carry.
use vstd::prelude::*;

use crate::json::{
    json_empty_object, json_insert, json_is_object, json_member, json_null, json_opt_string,
    json_string_value, json_text, str_or_null,
};
use crate::models::opt_view;
use crate::workhub::has_str;
use crate::workhub::Specification;

verus! {

/// Starts a generation task.
pub const METHOD_EXECUTE: &'static str = "generator.execute";

/// Asks for the status of a task.
pub const METHOD_STATUS: &'static str = "generator.status";

/// Cancels a running task.
pub const METHOD_CANCEL: &'static str = "generator.cancel";

/// Lists the skills the generator offers.
pub const METHOD_LIST_SKILLS: &'static str = "generator.listSkills";

/// The parameters of `generator.execute`.
#[derive(Debug, Clone)]
pub struct ExecuteParams {
    pub task_id: String,
    pub workspace_id: String,
    pub worknode_id: Option<String>,
    pub specification: Specification,
    pub context: serde_json::Value,
}

impl ExecuteParams {
    /// Parameters for a task with no additional context (a JSON `null`).
    pub fn new(
        task_id: String,
        workspace_id: String,
        worknode_id: Option<String>,
        specification: Specification,
    ) -> (p: ExecuteParams)
        ensures
            p.task_id == task_id,
            p.workspace_id == workspace_id,
            p.worknode_id == worknode_id,
            p.specification == specification,
            json_text(p.context) == "null"@,
    {
        ExecuteParams { task_id, workspace_id, worknode_id, specification, context: json_null() }
    }

    /// The JSON object of these parameters: `task_id`, `workspace_id`,
    /// `worknode_id` (null where there is none), the `specification`
    /// object and the `context`.
    pub fn to_value(&self) -> (v: serde_json::Value)
        ensures
            json_is_object(v),
            has_str(v, "task_id"@, self.task_id@),
            has_str(v, "workspace_id"@, self.workspace_id@),
            json_member(v, "worknode_id"@) matches Some(w) && str_or_null(w, opt_view(self.worknode_id)),
            json_member(v, "specification"@) matches Some(sp) && has_str(
                sp,
                "project_background"@,
                self.specification.project_background@,
            ),
            json_member(v, "context"@) == Some(self.context),
    {
        proof {
            reveal_strlit("task_id");
            reveal_strlit("workspace_id");
            reveal_strlit("worknode_id");
            reveal_strlit("specification");
            reveal_strlit("context");
            assert("task_id"@.len() != "workspace_id"@.len());
            assert("task_id"@.len() != "worknode_id"@.len());
            assert("task_id"@.len() != "specification"@.len());
            assert("task_id"@[0] != "context"@[0]);
            assert("workspace_id"@.len() != "worknode_id"@.len());
            assert("workspace_id"@.len() != "specification"@.len());
            assert("workspace_id"@.len() != "context"@.len());
            assert("worknode_id"@.len() != "specification"@.len());
            assert("worknode_id"@.len() != "context"@.len());
            assert("specification"@.len() != "context"@.len());
        }
        let mut v = json_empty_object();
        json_insert(&mut v, "task_id", json_string_value(self.task_id.as_str()));
        json_insert(&mut v, "workspace_id", json_string_value(self.workspace_id.as_str()));
        json_insert(&mut v, "worknode_id", json_opt_string(&self.worknode_id));
        json_insert(&mut v, "specification", self.specification.to_value());
        json_insert(&mut v, "context", self.context.clone());
        v
    }
}

/// The reply to `generator.execute`.
#[derive(Debug, Clone, PartialEq, Eq)]
pub struct ExecuteResponse {
    pub task_id: String,
    pub accepted: bool,
    pub message: Option<String>,
}

/// The parameters of `generator.status`.
#[derive(Debug, Clone, PartialEq, Eq)]
pub struct StatusParams {
    pub task_id: String,
}

/// The reply to `generator.status`; `progress` is a percentage.
#[derive(Debug, Clone, PartialEq, Eq)]
pub struct StatusResponse {
    pub task_id: String,
    pub status: GeneratorTaskStatus,
    pub progress: u8,
    pub current_step: Option<String>,
    pub result: Option<TaskResult>,
    pub error: Option<String>,
}

/// The status of a generator task.
#[derive(Debug, Clone, Copy, PartialEq, Eq, Structural)]
pub enum GeneratorTaskStatus {
    Pending,
    Running,
    Completed,
    Failed,
    Cancelled,
}

/// The text form of a GeneratorTaskStatus.
pub open spec fn generator_task_status_name(t: GeneratorTaskStatus) -> Seq<char> {
    match t {
        GeneratorTaskStatus::Pending => "pending"@,
        GeneratorTaskStatus::Running => "running"@,
        GeneratorTaskStatus::Completed => "completed"@,
        GeneratorTaskStatus::Failed => "failed"@,
        GeneratorTaskStatus::Cancelled => "cancelled"@,
    }
}

/// The text forms of the generator task statuses are fixed: `pending`,
/// `running`, `completed`, `failed`, `cancelled`, in the order of the
/// variants.
pub proof fn law_generator_task_status_texts(t: GeneratorTaskStatus)
    ensures
        t == GeneratorTaskStatus::Pending ==> generator_task_status_name(t) == "pending"@,
        t == GeneratorTaskStatus::Running ==> generator_task_status_name(t) == "running"@,
        t == GeneratorTaskStatus::Completed ==> generator_task_status_name(t) == "completed"@,
        t == GeneratorTaskStatus::Failed ==> generator_task_status_name(t) == "failed"@,
        t == GeneratorTaskStatus::Cancelled ==> generator_task_status_name(t) == "cancelled"@,
{
}

impl GeneratorTaskStatus {
    /// The text form of this value.
    pub fn as_str(&self) -> (r: &'static str)
        ensures
            r@ == generator_task_status_name(*self),
    {
        match self {
            GeneratorTaskStatus::Pending => "pending",
            GeneratorTaskStatus::Running => "running",
            GeneratorTaskStatus::Completed => "completed",
            GeneratorTaskStatus::Failed => "failed",
            GeneratorTaskStatus::Cancelled => "cancelled",
        }
    }
}


/// What a finished generator task produced.
#[derive(Debug, Clone, PartialEq, Eq)]
pub struct TaskResult {
    pub summary: String,
    pub user_manual: Option<String>,
    pub skills: Vec<GeneratedSkill>,
    pub files_modified: Vec<String>,
}

/// A skill that a generator task created or used.
#[derive(Debug, Clone, PartialEq, Eq)]
pub struct GeneratedSkill {
    pub name: String,
    pub description: String,
    pub path: Option<String>,
}

/// The parameters of `generator.cancel`.
#[derive(Debug, Clone, PartialEq, Eq)]
pub struct CancelParams {
    pub task_id: String,
}

/// The reply to `generator.cancel`.
#[derive(Debug, Clone, PartialEq, Eq)]
pub struct CancelResponse {
    pub cancelled: bool,
    pub message: Option<String>,
}

/// The reply to `generator.listSkills`.
#[derive(Debug, Clone)]
pub struct ListSkillsResponse {
    pub skills: Vec<SkillInfo>,
}

/// A skill the generator offers.
#[derive(Debug, Clone)]
pub struct SkillInfo {
    pub name: String,
    pub description: String,
    pub parameters_schema: Option<serde_json::Value>,
}

} // verus!
