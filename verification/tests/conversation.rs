use ahreumcode::conversation::{
    conversation_context_message, persona_follow_up_task_state_summary, persona_task_state_summary,
    should_finalize_duplicate_approval_redirect, ConversationTaskFrame,
};
use ahreumcode::llm::{LlmMessage, LlmMessageRole, LlmMessageVisibility, MessageHistory};
use ahreumcode::runtime_request::{ActivePlainRequest, ToolLoopObservation, ToolLoopRepeatRedirect};

fn request() -> ActivePlainRequest {
    ActivePlainRequest::new(
        "run-0001".to_owned(),
        "turn-0001".to_owned(),
        "USER_REQUEST_MARKER".to_owned(),
        LlmMessage {
            turn_id: "turn-0001".to_owned(),
            role: LlmMessageRole::System,
            visibility: LlmMessageVisibility::Internal,
            content: "schema".to_owned(),
        },
        LlmMessage {
            turn_id: "turn-0001".to_owned(),
            role: LlmMessageRole::User,
            visibility: LlmMessageVisibility::UserVisible,
            content: "USER_REQUEST_MARKER".to_owned(),
        },
        MessageHistory::new("run-0001"),
        0,
    )
}

#[test]
fn persona_request_state_marks_literal_values_as_main_answer_only() {
    let active = request();

    let summary = persona_task_state_summary(&active, "completed", "done");

    assert!(summary.contains("literal paths"));
    assert!(summary.contains("filenames"));
    assert!(summary.contains("last_observation: none"));
}

#[test]
fn failed_duplicate_approval_finalizes_after_one_redirect() {
    assert!(!should_finalize_duplicate_approval_redirect(ToolLoopRepeatRedirect::FailedDuplicate, 0, 8));
    assert!(should_finalize_duplicate_approval_redirect(ToolLoopRepeatRedirect::FailedDuplicate, 1, 8));
}

#[test]
fn conversation_context_message_keeps_previous_task_separate_from_current_prompt() {
    let frame = ConversationTaskFrame {
        user_prompt: "이전 HTML 작업".to_owned(),
        task_state_summary: "main_runtime_status: tool_loop_limited".to_owned(),
        runtime_context_summary: "previous_final_response: none".to_owned(),
    };

    let message = conversation_context_message(&frame);

    assert!(message.contains("<AHREUM_CONVERSATION_CONTEXT>"));
    assert!(message.contains("previous_task_user_request"));
    assert!(message.contains("이전 HTML 작업"));
    assert!(message.contains("Use previous_task only when the current message depends on it"));
    assert!(message.contains("otherwise ignore it"));
    assert!(message.contains("previous_runtime_context"));
    assert!(!message.contains("중간에 끊겼는데"));
}

#[test]
fn persona_follow_up_summary_contains_prior_frame_and_current_message_without_deciding_relation() {
    let frame = ConversationTaskFrame {
        user_prompt: "이전 설정 분석".to_owned(),
        task_state_summary: "main_runtime_status: completed\nlast_observation: none".to_owned(),
        runtime_context_summary: "previous_final_response: config path noted".to_owned(),
    };

    let summary = persona_follow_up_task_state_summary(&frame, "아까 하던 것만 이어서 봐줘");

    assert!(summary.contains("previous_user_request: 이전 설정 분석"));
    assert!(summary.contains("current_user_message: 아까 하던 것만 이어서 봐줘"));
    assert!(summary.contains("relate it to the previous task only when the message depends on it"));
    assert!(summary.contains("fact_boundary"));
}

#[test]
fn persona_request_state_lists_the_last_failed_observation() {
    let mut active = request();
    active.tool_call_count = 2;
    active.last_tool_observation = Some(ToolLoopObservation {
        tool_name: "read_file".to_owned(),
        target_raw: None,
        status: "failed",
        error_kind: Some("path_not_found"),
        truncated: false,
        source_truncated: false,
        preview_truncated: false,
        has_next_range_hint: false,
        preview: Vec::new(),
    });

    let summary = persona_task_state_summary(&active, "running", "reading");

    let lines: Vec<&str> = summary.lines().collect();
    assert_eq!(lines[0], "main_runtime_status: running");
    assert_eq!(lines[1], "detail: reading");
    assert_eq!(lines[2], "tool_call_count: 2");
    assert_eq!(lines[3], "last_observation: tool_name=read_file status=failed target_raw=- error_kind=path_not_found");
    assert_eq!(lines.len(), 6);
    assert!(lines[5].contains("not successful evidence"));
}

#[test]
fn settled_duplicate_finalizes_only_after_a_redirect_and_truncation_waits_for_the_limit() {
    assert!(!should_finalize_duplicate_approval_redirect(ToolLoopRepeatRedirect::SettledDuplicate, 0, 8));
    assert!(should_finalize_duplicate_approval_redirect(ToolLoopRepeatRedirect::SettledDuplicate, 1, 8));
    assert!(!should_finalize_duplicate_approval_redirect(ToolLoopRepeatRedirect::TruncatedContinuation, 7, 8));
    assert!(should_finalize_duplicate_approval_redirect(ToolLoopRepeatRedirect::TruncatedContinuation, 8, 8));
}
