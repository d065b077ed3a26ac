use rig_your_goal::generator::{ExecuteParams, GeneratorTaskStatus};
use rig_your_goal::mock::MockTransport;
use rig_your_goal::workhub::Specification;
use serde_json::Value;

fn object(pairs: Vec<(&str, Value)>) -> Value {
    let mut m = serde_json::Map::new();
    for (k, v) in pairs {
        m.insert(k.to_string(), v);
    }
    Value::Object(m)
}

fn execute_params(task_id: &str) -> Value {
    let spec = object(vec![
        ("project_background", Value::String("Test".to_string())),
        ("module_breakdown", Value::Array(vec![])),
        ("acceptance_criteria", Value::Array(vec![])),
    ]);
    object(vec![
        ("task_id", Value::String(task_id.to_string())),
        ("nodespace_id", Value::String("ns-1".to_string())),
        ("specification", spec),
    ])
}

#[test]
fn test_execute_params_serialization() {
    let spec = Specification {
        project_background: "Test project".to_string(),
        module_breakdown: vec![],
        acceptance_criteria: vec!["Works".to_string()],
    };
    let params = ExecuteParams::new("task-1".to_string(), "ns-1".to_string(), None, spec);

    let json = serde_json::to_string(&params.to_value()).unwrap();
    assert!(json.contains("task-1"));
    assert!(json.contains("ns-1"));
}

#[test]
fn test_mock_transport_execute() {
    let mut transport = MockTransport::new();
    let result = transport.send_request("generator.execute", &execute_params("test-1")).unwrap();
    assert_eq!(result["accepted"], true);
}

#[test]
fn test_mock_transport_status() {
    let mut transport = MockTransport::new();
    let _ = transport.send_request("generator.execute", &execute_params("test-2")).unwrap();
    let status = transport
        .send_request("generator.status", &object(vec![("task_id", Value::String("test-2".to_string()))]))
        .unwrap();
    assert_eq!(status["status"], "running");
}

#[test]
fn execute_params_value_has_every_field() {
    let spec = Specification {
        project_background: "bg".to_string(),
        module_breakdown: vec![],
        acceptance_criteria: vec!["a".to_string(), "b".to_string()],
    };
    let params = ExecuteParams::new("t".to_string(), "w".to_string(), Some("n".to_string()), spec);
    let v = params.to_value();
    assert_eq!(v["task_id"], "t");
    assert_eq!(v["workspace_id"], "w");
    assert_eq!(v["worknode_id"], "n");
    assert_eq!(v["context"], Value::Null);
    assert_eq!(v["specification"]["project_background"], "bg");
    assert_eq!(v["specification"]["acceptance_criteria"][1], "b");
    assert_eq!(v["specification"]["module_breakdown"].as_array().unwrap().len(), 0);
}

#[test]
fn mock_status_of_unknown_task_is_pending_with_error() {
    let mut transport = MockTransport::new();
    let status = transport
        .send_request("generator.status", &object(vec![("task_id", Value::String("nope".to_string()))]))
        .unwrap();
    assert_eq!(status["status"], "pending");
    assert_eq!(status["error"], "Task not found");
    assert_eq!(status["result"], Value::Null);
    assert_eq!(status["progress"], 0);
}

#[test]
fn mock_task_progresses_and_completes() {
    let mut transport = MockTransport::new();
    let _ = transport.send_request("generator.execute", &execute_params("t3")).unwrap();
    transport.advance("t3", 2);
    let s = transport.handle_status(Some("t3"));
    assert_eq!(s.progress, 40);
    assert_eq!(s.current_step.as_deref(), Some("Processing step 2/5..."));
    transport.complete("t3");
    let v = transport
        .send_request("generator.status", &object(vec![("task_id", Value::String("t3".to_string()))]))
        .unwrap();
    assert_eq!(v["status"], "completed");
    assert_eq!(v["progress"], 100);
    assert_eq!(v["current_step"], "Done");
    assert_eq!(v["result"]["summary"], "Mock generation completed successfully");
    assert_eq!(v["result"]["skills"][0]["name"], "mock_skill");
    assert_eq!(v["result"]["files_modified"][1], "README.md");
}

#[test]
fn mock_execute_without_task_id_uses_unknown() {
    let mut transport = MockTransport::new();
    let v = transport.send_request("generator.execute", &object(vec![])).unwrap();
    assert_eq!(v["task_id"], "unknown");
    assert_eq!(v["message"], "Task accepted by mock generator");
}

#[test]
fn mock_cancel_marks_task_cancelled() {
    let mut transport = MockTransport::new();
    let _ = transport.send_request("generator.execute", &execute_params("c1")).unwrap();
    let v = transport
        .send_request("generator.cancel", &object(vec![("task_id", Value::String("c1".to_string()))]))
        .unwrap();
    assert_eq!(v["cancelled"], true);
    assert_eq!(v["message"], "Task cancelled");
    assert_eq!(transport.handle_status(Some("c1")).status, GeneratorTaskStatus::Cancelled);
}

#[test]
fn mock_lists_skills_and_reports_info() {
    let mut transport = MockTransport::new();
    let v = transport.send_request("generator.listSkills", &Value::Null).unwrap();
    assert_eq!(v["skills"][0]["name"], "create_file");
    assert_eq!(v["skills"][1]["description"], "Edit an existing file");
    assert_eq!(v["skills"][1]["parameters_schema"], Value::Null);
    let info = transport.send_request("gateway.info", &Value::Null).unwrap();
    assert_eq!(info["version"], "1.0.0-mock");
    assert_eq!(info["features"][1], "skills");
}

#[test]
fn mock_refuses_unknown_method() {
    let mut transport = MockTransport::new();
    let e = transport.send_request("generator.nope", &Value::Null).unwrap_err();
    assert_eq!(e.message(), "Transport error: Unknown method: generator.nope");
}

#[test]
fn generator_status_text_forms() {
    assert_eq!(GeneratorTaskStatus::Pending.as_str(), "pending");
    assert_eq!(GeneratorTaskStatus::Cancelled.as_str(), "cancelled");
}

#[test]
fn mock_simulated_run_progresses_to_completion() {
    let mut transport = MockTransport::new();
    let _ = transport.send_request("generator.execute", &execute_params("sim")).unwrap();
    let mut last = transport.handle_status(Some("sim")).progress;
    assert_eq!(last, 0);
    for step in 1..=rig_your_goal::mock::SIMULATION_STEPS {
        transport.simulation_step("sim", step);
        let s = transport.handle_status(Some("sim"));
        assert!(s.progress >= last);
        assert!(s.progress <= 100);
        if step < rig_your_goal::mock::SIMULATION_STEPS {
            assert_eq!(s.progress, step * 20);
            assert_eq!(s.status, GeneratorTaskStatus::Running);
        }
        last = s.progress;
    }
    let s = transport.handle_status(Some("sim"));
    assert_eq!(s.status, GeneratorTaskStatus::Completed);
    assert_eq!(s.progress, 100);
    assert!(s.result.is_some());
}

#[test]
fn mock_status_reply_carries_every_member() {
    let mut transport = MockTransport::new();
    let _ = transport.send_request("generator.execute", &execute_params("m1")).unwrap();
    let v = transport
        .send_request("generator.status", &object(vec![("task_id", Value::String("m1".to_string()))]))
        .unwrap();
    assert_eq!(v["task_id"], "m1");
    assert_eq!(v["status"], "running");
    assert_eq!(v["progress"], 0);
    assert_eq!(v["current_step"], "Initializing...");
    assert_eq!(v["result"], Value::Null);
    assert_eq!(v["error"], Value::Null);
}

#[test]
fn mock_unknown_method_leaves_tasks_alone() {
    let mut transport = MockTransport::new();
    let e = transport.send_request("foo.bar", &object(vec![])).unwrap_err();
    assert_eq!(e.message(), "Transport error: Unknown method: foo.bar");
    let s = transport.handle_status(None);
    assert_eq!(s.status, GeneratorTaskStatus::Pending);
    assert_eq!(s.error.as_deref(), Some("Task not found"));
}

#[test]
fn mock_gateway_info_lists_both_features() {
    let mut transport = MockTransport::new();
    let info = transport.send_request("gateway.info", &Value::Null).unwrap();
    assert_eq!(info["features"][0], "generator");
    assert_eq!(info["features"][1], "skills");
    assert_eq!(info["features"].as_array().unwrap().len(), 2);
    let v = transport.send_request("generator.listSkills", &Value::Null).unwrap();
    assert_eq!(v["skills"].as_array().unwrap().len(), 2);
    assert_eq!(v["skills"][0]["description"], "Create a new file");
    assert_eq!(v["skills"][1]["name"], "edit_file");
}
