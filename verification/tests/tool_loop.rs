use ahreumcode::llm::{
    text_arg, Activity, ChangePreview, LlmMessage, LlmMessageRole, LlmMessageVisibility, MessageHistory,
    PatchOperation, RuntimeDecision,
};
use ahreumcode::runtime_request::{
    ActivePlainRequest, ToolLoopExecutionRecord, ToolLoopLimitDiagnosis, ToolLoopObservation, ToolLoopRepeatRedirect,
};
use ahreumcode::runtime_request::apply_change_evidence_boundary;
use ahreumcode::tool_loop::{
    change_approval_signature, hex_digits, stable_signature_hash, validate_runtime_decision, ApprovalCandidateStep,
    ApprovedChangeAction, PlainRequestAction, PlainRequestEvent, ToolCandidateStep,
};
use ahreumcode::tool_loop::{
    approval_signature, decision_change_preview, external_path_denial_reason,
    persona_event_for_runtime_response_parse_error, persona_event_for_tool_observation, repair_or_report, tool_signature,
    RepairDecision,
};
use ahreumcode::llm::{number_arg, RuntimeResponseParseError};
use ahreumcode::persona::PersonaRuntimeEvent;

fn message(content: &str) -> LlmMessage {
    LlmMessage {
        turn_id: "turn-1".to_owned(),
        role: LlmMessageRole::System,
        visibility: LlmMessageVisibility::Internal,
        content: content.to_owned(),
    }
}

fn active_request() -> ActivePlainRequest {
    ActivePlainRequest::new(
        "run-0001".to_owned(),
        "turn-1".to_owned(),
        "prompt".to_owned(),
        message("schema"),
        message("user"),
        MessageHistory::new("run-0001"),
        0,
    )
}

fn observation(tool: &str, target: &str, status: &'static str, error_kind: Option<&'static str>) -> ToolLoopObservation {
    ToolLoopObservation {
        tool_name: tool.to_owned(),
        target_raw: Some(target.to_owned()),
        status,
        error_kind,
        truncated: false,
        source_truncated: false,
        preview_truncated: false,
        has_next_range_hint: false,
        preview: vec!["line".to_owned()],
    }
}

#[test]
fn signature_hash_is_fnv1a() {
    assert_eq!(stable_signature_hash(""), 0xcbf29ce484222325);
    assert_eq!(stable_signature_hash("a"), 0xaf63dc4c8601ec8c);
    assert_eq!(hex_digits(0xaf63dc4c8601ec8c, 16), "af63dc4c8601ec8c");
    assert_eq!(hex_digits(255, 4), "00ff");
}

#[test]
fn change_approval_signature_names_target_operation_and_payload_hash() {
    let preview = ChangePreview {
        payload_id: "patch_001".to_owned(),
        target_path: "fixture.txt".to_owned(),
        operation: PatchOperation::Update,
        additions: 1,
        deletions: 1,
        payload_body: "a".to_owned(),
    };
    assert_eq!(change_approval_signature(&preview), "apply_patch:target=fixture.txt:operation=update:payload_hash=af63dc4c8601ec8c");
}

#[test]
fn tool_candidate_stops_at_the_call_limit() {
    let mut active = active_request();
    active.tool_call_count = 3;
    let step = active.tool_candidate_step("read_file:{}", "read_file", None, 3, 2);
    assert!(matches!(
        step,
        ToolCandidateStep::LimitReached {
            reason: "max_tool_calls",
            diagnosis: ToolLoopLimitDiagnosis::MaxToolCallsWithoutPendingObservationSignal
        }
    ));
    assert_eq!(active.tool_call_count, 3);
}

#[test]
fn new_tool_candidate_is_executed_and_counted() {
    let mut active = active_request();
    let step = active.tool_candidate_step("read_file:{\"path\":\"a\"}", "read_file", Some("a"), 8, 2);
    assert!(matches!(step, ToolCandidateStep::Execute));
    assert_eq!(active.tool_call_count, 1);
    assert_eq!(active.same_tool_repeat_count, 1);
    assert_eq!(active.last_tool_signature.as_deref(), Some("read_file:{\"path\":\"a\"}"));
}

#[test]
fn settled_duplicate_redirects_once_then_finalizes() {
    let mut active = active_request();
    let signature = "read_file:{\"path\":\"a\"}";
    active.record_tool_execution(
        signature.to_owned(),
        observation("read_file", "a", "succeeded", None),
        message("<AHREUM_TOOL_OBSERVATION>read a</AHREUM_TOOL_OBSERVATION>"),
    );

    let step = active.tool_candidate_step(signature, "read_file", Some("a"), 8, 4);
    assert!(matches!(step, ToolCandidateStep::Redirect { redirect: ToolLoopRepeatRedirect::SettledDuplicate, .. }));
    assert_eq!(active.duplicate_redirect_count, 1);

    let step = active.tool_candidate_step(signature, "read_file", Some("a"), 8, 4);
    let ToolCandidateStep::Finalize { decision: RuntimeDecision::Answer { payload_body, .. } } = step else {
        panic!("second settled duplicate should finalize");
    };
    assert!(payload_body.expect("payload").contains("tool: read_file"));
}

#[test]
fn failed_duplicate_stops_at_the_repeat_limit() {
    let mut active = active_request();
    let signature = "read_file:{\"path\":\"missing\"}";
    active.record_tool_execution(
        signature.to_owned(),
        observation("read_file", "missing", "failed", Some("path_not_found")),
        message("failed"),
    );
    let first = active.tool_candidate_step(signature, "read_file", Some("missing"), 8, 1);
    assert!(matches!(first, ToolCandidateStep::Redirect { redirect: ToolLoopRepeatRedirect::FailedDuplicate, .. }));
    let second = active.tool_candidate_step(signature, "read_file", Some("missing"), 8, 1);
    assert!(matches!(
        second,
        ToolCandidateStep::LimitReached { reason: "max_same_tool_repeats", diagnosis: ToolLoopLimitDiagnosis::SameToolSignatureRepeat }
    ));
}

fn update_decision(target: &str) -> RuntimeDecision {
    RuntimeDecision::ApprovalNeeded {
        activity: Activity::Change,
        tool_name: "apply_patch".to_owned(),
        arguments: vec![text_arg("payload_id", "patch_001")],
        change_preview: Some(ChangePreview {
            payload_id: "patch_001".to_owned(),
            target_path: target.to_owned(),
            operation: PatchOperation::Update,
            additions: 1,
            deletions: 1,
            payload_body: "*** Begin Patch\n*** Update File: x\n*** End Patch".to_owned(),
        }),
        summary: "change".to_owned(),
    }
}

#[test]
fn validated_update_without_read_becomes_a_read_and_is_remembered() {
    let mut active = active_request();
    let decision = validate_runtime_decision(&mut active, update_decision("notes.md"));
    let RuntimeDecision::ToolCandidatePending { tool_name, .. } = decision else {
        panic!("update without read should read first");
    };
    assert_eq!(tool_name, "read_file");
    assert_eq!(active.pending_change_after_read_target.as_deref(), Some("notes.md"));
}

#[test]
fn approval_candidate_proceeds_when_new_and_redirects_a_failed_repeat() {
    let mut active = active_request();
    let decision = update_decision("notes.md");
    let signature = "apply_patch:target=notes.md:operation=update:payload_hash=1";
    assert!(matches!(active.approval_candidate_step(&decision, signature, 8), ApprovalCandidateStep::Proceed));

    active.executed_tool_records.push(ToolLoopExecutionRecord {
        signature: signature.to_owned(),
        observation: observation("apply_patch", "notes.md", "failed", Some("invalid_arguments")),
        observation_message: message("failed change"),
    });
    let step = active.approval_candidate_step(&decision, signature, 8);
    assert!(matches!(step, ApprovalCandidateStep::Redirect { redirect: ToolLoopRepeatRedirect::FailedDuplicate, .. }));
    assert_eq!(active.duplicate_redirect_count, 1);

    let step = active.approval_candidate_step(&decision, signature, 8);
    let ApprovalCandidateStep::Finalize { decision: RuntimeDecision::Blocked { reason, .. } } = step else {
        panic!("failed repeat after a redirect should be blocked");
    };
    assert_eq!(reason, "duplicate_approval_failed_observation");
}

#[test]
fn failures_close_the_request_only_from_finished_observations() {
    let mut active = active_request();
    let action = active.plain_request_step(PlainRequestEvent::TimedOut, 8);
    assert!(matches!(action, PlainRequestAction::Unresolved { kind } if kind == "timeout"));
    let action = active.plain_request_step(PlainRequestEvent::ChannelClosed, 8);
    assert!(matches!(action, PlainRequestAction::Unresolved { kind } if kind == "runtime_channel_disconnected"));

    let mut read = observation("read_file", "notes.md", "succeeded", None);
    read.preview = vec!["alpha".to_owned()];
    active.record_tool_execution("read_file:{\"path\":\"notes.md\"}".to_owned(), read, message("read notes"));
    let action = active.plain_request_step(PlainRequestEvent::RequestFailed { kind: "timeout".to_owned() }, 8);
    let PlainRequestAction::Finish { decision: RuntimeDecision::Answer { payload_body, .. } } = action else {
        panic!("a finished read should close the request");
    };
    assert!(payload_body.expect("payload").contains("alpha"));
    assert!(active.final_response_text.is_some());
}

#[test]
fn decided_replies_are_validated_before_they_proceed() {
    let mut active = active_request();
    let action = active.plain_request_step(
        PlainRequestEvent::Decided {
            decision: RuntimeDecision::Answer { summary: "guess".to_owned(), payload_body: None },
            approval_signature: "non-approval".to_owned(),
        },
        8,
    );
    assert!(matches!(action, PlainRequestAction::Proceed { decision: RuntimeDecision::Answer { .. } }));

    let action = active.plain_request_step(
        PlainRequestEvent::Decided {
            decision: update_decision("notes.md"),
            approval_signature: "apply_patch:target=notes.md:operation=update:payload_hash=1".to_owned(),
        },
        8,
    );
    assert!(matches!(
        action,
        PlainRequestAction::Proceed { decision: RuntimeDecision::ToolCandidatePending { .. } }
    ));
    assert_eq!(active.pending_change_after_read_target.as_deref(), Some("notes.md"));
}

#[test]
fn approved_change_that_succeeded_goes_on_to_diagnostics() {
    let mut active = active_request();
    active.tool_call_count = 2;
    active.same_tool_repeat_count = 3;
    let action = active.approved_change_step(
        "apply_patch:target=a.txt".to_owned(),
        observation("apply_patch", "a.txt", "succeeded", None),
        message("patched"),
        Some("a.txt".to_owned()),
    );
    assert!(matches!(action, ApprovedChangeAction::RunDiagnostics { target_path } if target_path == "a.txt"));
    assert_eq!(active.tool_call_count, 3);
    assert_eq!(active.last_tool_signature.as_deref(), Some("apply_patch:target=a.txt"));
    assert_eq!(active.same_tool_repeat_count, 1);
    assert_eq!(active.executed_tool_records.len(), 1);
    assert_eq!(active.executed_tool_records[0].signature, "apply_patch:target=a.txt");
    assert_eq!(active.history.messages.len(), 1);
    assert_eq!(active.history.messages[0].content, "patched");
    assert_eq!(active.executed_tool_signatures, vec!["apply_patch:target=a.txt".to_owned()]);
}

#[test]
fn approved_change_that_failed_or_has_no_target_asks_the_model_again() {
    let mut active = active_request();
    active.tool_call_count = u16::MAX;
    let failed = active.approved_change_step(
        "sig-a".to_owned(),
        observation("apply_patch", "a.txt", "failed", Some("patch_failed")),
        message("failed"),
        Some("a.txt".to_owned()),
    );
    assert!(matches!(failed, ApprovedChangeAction::RequestFollowUp));
    assert_eq!(active.tool_call_count, u16::MAX);
    let untargeted = active.approved_change_step(
        "sig-b".to_owned(),
        observation("apply_patch", "a.txt", "succeeded", None),
        message("done"),
        None,
    );
    assert!(matches!(untargeted, ApprovedChangeAction::RequestFollowUp));
    assert_eq!(active.executed_tool_records.len(), 2);
    assert_eq!(active.history.messages.len(), 2);
}

#[test]
fn diagnostics_are_recorded_as_an_execution_with_their_message() {
    let mut active = active_request();
    active.tool_call_count = 1;
    active.record_diagnostic_observation(
        "post_edit_diagnostics:a.txt".to_owned(),
        observation("post_edit_diagnostics", "a.txt", "succeeded", None),
        message("diagnostics"),
    );
    assert_eq!(active.tool_call_count, 1);
    assert_eq!(active.executed_tool_records.len(), 1);
    assert_eq!(active.executed_tool_records[0].observation_message.content, "diagnostics");
    assert_eq!(active.history.messages[0].content, "diagnostics");
    assert!(active.last_tool_observation.is_some());
}

#[test]
fn change_boundary_keeps_the_patch_it_lets_through() {
    let active = active_request();
    let decision = RuntimeDecision::ApprovalNeeded {
        activity: Activity::Change,
        tool_name: "apply_patch".to_owned(),
        arguments: vec![text_arg("patch", "*** Begin Patch")],
        change_preview: Some(ChangePreview {
            payload_id: "patch_007".to_owned(),
            target_path: "new.txt".to_owned(),
            operation: PatchOperation::Add,
            additions: 4,
            deletions: 0,
            payload_body: "+line".to_owned(),
        }),
        summary: "add a file".to_owned(),
    };
    let expected = RuntimeDecision::ApprovalNeeded {
        activity: Activity::Change,
        tool_name: "apply_patch".to_owned(),
        arguments: vec![text_arg("patch", "*** Begin Patch")],
        change_preview: Some(ChangePreview {
            payload_id: "patch_007".to_owned(),
            target_path: "new.txt".to_owned(),
            operation: PatchOperation::Add,
            additions: 4,
            deletions: 0,
            payload_body: "+line".to_owned(),
        }),
        summary: "add a file".to_owned(),
    };
    assert_eq!(apply_change_evidence_boundary(&active, decision), expected);
}

fn preview(operation: PatchOperation) -> ChangePreview {
    ChangePreview {
        payload_id: "patch_001".to_owned(),
        target_path: "fixture.txt".to_owned(),
        operation,
        additions: 1,
        deletions: 1,
        payload_body: "a".to_owned(),
    }
}

#[test]
fn tool_signature_is_the_name_and_the_arguments_as_json() {
    assert_eq!(tool_signature("read_file", &vec![text_arg("path", "a.txt")]), r#"read_file:{"path":"a.txt"}"#);
    assert_eq!(
        tool_signature("read_file", &vec![text_arg("path", "a \"b\".txt"), number_arg("start_line", 3)]),
        r#"read_file:{"path":"a \"b\".txt","start_line":3}"#
    );
    assert_eq!(tool_signature("list_files", &vec![]), "list_files:{}");
}

#[test]
fn approval_signature_follows_the_kind_of_approval() {
    let change = RuntimeDecision::ApprovalNeeded {
        activity: Activity::Change,
        tool_name: "apply_patch".to_owned(),
        arguments: vec![text_arg("patch", "p")],
        change_preview: Some(preview(PatchOperation::Update)),
        summary: "s".to_owned(),
    };
    let command = RuntimeDecision::ApprovalNeeded {
        activity: Activity::Execute,
        tool_name: "run_command".to_owned(),
        arguments: vec![text_arg("command", "cargo test")],
        change_preview: None,
        summary: "s".to_owned(),
    };
    let answer = RuntimeDecision::Answer { summary: "done".to_owned(), payload_body: None };
    assert_eq!(
        approval_signature(&change),
        "apply_patch:target=fixture.txt:operation=update:payload_hash=af63dc4c8601ec8c"
    );
    assert_eq!(approval_signature(&command), r#"run_command:{"command":"cargo test"}"#);
    assert_eq!(approval_signature(&answer), "non-approval");
    assert_eq!(decision_change_preview(&change), Some(preview(PatchOperation::Update)));
    assert_eq!(decision_change_preview(&command), None);
    assert_eq!(decision_change_preview(&answer), None);
}

#[test]
fn persona_hears_tool_and_parse_outcomes() {
    assert_eq!(
        persona_event_for_tool_observation(&observation("read_file", "a", "succeeded", None)),
        PersonaRuntimeEvent::ToolExecutionSucceeded
    );
    assert_eq!(
        persona_event_for_tool_observation(&observation("read_file", "a", "failed", Some("not_found"))),
        PersonaRuntimeEvent::ToolExecutionFailed
    );
    let json = RuntimeResponseParseError { kind: "json_parse_failed".to_owned(), message: "m".to_owned() };
    let schema = RuntimeResponseParseError { kind: "schema_validation_failed".to_owned(), message: "m".to_owned() };
    assert_eq!(persona_event_for_runtime_response_parse_error(&json), PersonaRuntimeEvent::RuntimeResponseParseFailed);
    assert_eq!(persona_event_for_runtime_response_parse_error(&schema), PersonaRuntimeEvent::SchemaValidationFailed);
    assert!(external_path_denial_reason("external_path_manual_only"));
    assert!(external_path_denial_reason("sensitive_external_path"));
    assert!(!external_path_denial_reason("outside_workspace"));
}

#[test]
fn repairs_run_until_the_limit_then_the_failure_is_reported() {
    assert!(matches!(repair_or_report(0, 2), RepairDecision::Repair { attempt: 1 }));
    assert!(matches!(repair_or_report(1, 2), RepairDecision::Repair { attempt: 2 }));
    assert!(matches!(repair_or_report(2, 2), RepairDecision::Report { attempts: 2, max_attempts: 2 }));
    assert!(matches!(repair_or_report(0, 0), RepairDecision::Report { attempts: 0, max_attempts: 0 }));
}

#[test]
fn starting_a_repair_records_its_prompt_and_source() {
    let mut active = active_request();
    active.history.push(LlmMessage {
        turn_id: "turn-1".to_owned(),
        role: LlmMessageRole::Assistant,
        visibility: LlmMessageVisibility::UserVisible,
        content: "broken".to_owned(),
    });
    let messages = active.start_repair("response_parse", 1, "fix the JSON".to_owned());
    assert_eq!(active.repair_attempts, 1);
    assert_eq!(active.repair_source, Some("response_parse"));
    assert_eq!(active.history.messages.len(), 2);
    assert_eq!(active.history.messages[1].content, "fix the JSON");
    assert_eq!(active.history.messages[1].turn_id, "turn-1");
    assert_eq!(messages.len(), 1);
    assert_eq!(messages[0].content, "fix the JSON");
    assert_eq!(active.repair_attempts_for_source("response_parse"), 1);
}
