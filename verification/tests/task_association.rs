use acepe_reconciler::semantic::ToolArguments;
use acepe_reconciler::task_reconciler::{
    ReconcilerOutput, TaskReconciler, TaskReconciliationPolicy, ToolCallData, ToolCallStatus,
};
use acepe_reconciler::tool_kind::ToolKind;

fn read_child(id: &str, parent: &str) -> ToolCallData {
    ToolCallData {
        id: id.to_string(),
        name: "Read".to_string(),
        arguments: ToolArguments::Read {
            file_path: Some("/x.rs".to_string()),
            source_context: None,
        },
        raw_input: None,
        status: ToolCallStatus::Pending,
        result: None,
        kind: Some(ToolKind::Read),
        title: None,
        locations: None,
        skill_meta: None,
        normalized_questions: None,
        normalized_todos: None,
        normalized_todo_update: None,
        parent_tool_use_id: Some(parent.to_string()),
        task_children: None,
        question_answer: None,
        awaiting_plan_approval: false,
        plan_approval_request_id: None,
    }
}

#[test]
fn task_reconciler_buffers_child_until_parent_with_projected_kinds() {
    let mut tr = TaskReconciler::new();
    let child = read_child("c1", "p1");
    let outs = tr.handle_tool_call_with_policy(child, TaskReconciliationPolicy::ExplicitParentIds);
    assert!(
        outs.iter().all(|o| matches!(o, ReconcilerOutput::Buffered)),
        "child should buffer until parent exists"
    );

    let parent = ToolCallData {
        id: "p1".to_string(),
        name: "Task".to_string(),
        arguments: ToolArguments::Think {
            description: Some("t".to_string()),
            prompt: None,
            subagent_type: None,
            skill: None,
            skill_args: None,
            raw: None,
        },
        raw_input: None,
        status: ToolCallStatus::Pending,
        result: None,
        kind: Some(ToolKind::Task),
        title: None,
        locations: None,
        skill_meta: None,
        normalized_questions: None,
        normalized_todos: None,
        normalized_todo_update: None,
        parent_tool_use_id: None,
        task_children: None,
        question_answer: None,
        awaiting_plan_approval: false,
        plan_approval_request_id: None,
    };

    let outs = tr.handle_tool_call_with_policy(parent, TaskReconciliationPolicy::ExplicitParentIds);
    let emitted: Vec<&ToolCallData> = outs
        .iter()
        .filter_map(|o| match o {
            ReconcilerOutput::EmitToolCall(tc) => Some(tc),
            _ => None,
        })
        .collect();
    assert_eq!(emitted.len(), 1);
    assert_eq!(emitted[0].id, "p1");
    let children = emitted[0].task_children.as_ref().expect("child attached");
    assert_eq!(children.len(), 1);
    assert_eq!(children[0].id, "c1");
    assert_eq!(children[0].kind, Some(ToolKind::Read));
}

fn plain_call(id: &str, parent: Option<&str>) -> ToolCallData {
    let mut c = read_child(id, "unused");
    c.parent_tool_use_id = parent.map(str::to_string);
    c
}

#[test]
fn child_of_a_known_task_is_emitted_at_once() {
    let mut tr = TaskReconciler::new();
    let outs = tr.handle_tool_call_with_policy(plain_call("p1", None), TaskReconciliationPolicy::ExplicitParentIds);
    assert!(matches!(&outs[..], [ReconcilerOutput::EmitToolCall(tc)] if tc.id == "p1" && tc.task_children.is_none()));
    let outs = tr.handle_tool_call_with_policy(plain_call("c1", Some("p1")), TaskReconciliationPolicy::ExplicitParentIds);
    assert!(matches!(&outs[..], [ReconcilerOutput::EmitToolCall(tc)] if tc.id == "c1"));
}

#[test]
fn waiting_children_attach_in_arrival_order_after_carried_ones() {
    let mut tr = TaskReconciler::new();
    for (id, parent) in [("c1", "p1"), ("x1", "q1"), ("c2", "p1")] {
        let outs = tr.handle_tool_call_with_policy(plain_call(id, Some(parent)), TaskReconciliationPolicy::ExplicitParentIds);
        assert!(matches!(&outs[..], [ReconcilerOutput::Buffered]));
    }
    let mut parent = plain_call("p1", None);
    parent.task_children = Some(vec![plain_call("c0", Some("p1"))]);
    let outs = tr.handle_tool_call_with_policy(parent, TaskReconciliationPolicy::ExplicitParentIds);
    match &outs[..] {
        [ReconcilerOutput::EmitToolCall(tc)] => {
            let ids: Vec<&str> = tc.task_children.as_ref().unwrap().iter().map(|c| c.id.as_str()).collect();
            assert_eq!(ids, vec!["c0", "c1", "c2"]);
        }
        _ => panic!("expected one emitted call"),
    }
    // The child of the other task is still waiting.
    let outs = tr.handle_tool_call_with_policy(plain_call("q1", None), TaskReconciliationPolicy::ExplicitParentIds);
    match &outs[..] {
        [ReconcilerOutput::EmitToolCall(tc)] => {
            let ids: Vec<&str> = tc.task_children.as_ref().unwrap().iter().map(|c| c.id.as_str()).collect();
            assert_eq!(ids, vec!["x1"]);
        }
        _ => panic!("expected one emitted call"),
    }
}

#[test]
fn task_without_waiting_children_keeps_its_children_field() {
    let mut tr = TaskReconciler::new();
    let outs = tr.handle_tool_call_with_policy(plain_call("p9", None), TaskReconciliationPolicy::ExplicitParentIds);
    assert!(matches!(&outs[..], [ReconcilerOutput::EmitToolCall(tc)] if tc.task_children.is_none()));
}
