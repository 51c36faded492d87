use ahreumcode::config::{ConfigLoadSource, RuntimeConfig};
use ahreumcode::llm::{
    text_arg, Activity, LlmChatReport, LlmChatStatus, LlmFailure, LlmHealthReport, LlmHealthStatus, RuntimeDecision,
    RuntimeDecisionError, RuntimeResponseParseError,
};
use ahreumcode::runtime_workspace::{
    answer_display_text, record_health_report, record_llm_diagnostics, record_plain_chat_failure,
    record_runtime_decision, record_runtime_decision_error, record_runtime_response_parse_error, record_tool_loop_limit,
};
use ahreumcode::state::TuiState;
use ahreumcode::workspace::{WorkspaceEvent, WorkspaceItem};

#[test]
fn answer_display_keeps_summary_and_payload_separate() {
    assert_eq!(answer_display_text("summary", Some("body")), "summary\n\nbody");
    assert_eq!(answer_display_text("", Some("body")), "body");
    assert_eq!(answer_display_text("summary", None), "summary");
}

#[test]
fn answer_display_treats_a_blank_summary_as_missing() {
    assert_eq!(answer_display_text("  \n", Some("body")), "body");
}

fn state() -> TuiState {
    TuiState::main("/workspace".to_owned(), &RuntimeConfig::defaults(), ConfigLoadSource::Defaults, None)
}

fn texts(state: &TuiState) -> Vec<String> {
    state
        .workspace
        .items()
        .iter()
        .map(|item| match item {
            WorkspaceItem::SystemNotice { text } => format!("notice:{text}"),
            WorkspaceItem::AssistantAnswer { text } => format!("answer:{text}"),
            WorkspaceItem::Result { text } => format!("result:{text}"),
            WorkspaceItem::UserPrompt { text } => format!("prompt:{text}"),
            WorkspaceItem::ManagerMessage { text } => format!("manager:{text}"),
            _ => "other".to_owned(),
        })
        .collect()
}

#[test]
fn blocked_decision_leaves_two_notices() {
    let mut s = state();
    record_runtime_decision(
        &mut s,
        &RuntimeDecision::Blocked { message: "no evidence".to_owned(), reason: "r".to_owned() },
    );
    assert_eq!(texts(&s), vec!["notice:response blocked".to_owned(), "notice:no evidence".to_owned()]);
}

#[test]
fn plan_and_tool_decisions_are_announced() {
    let mut s = state();
    record_runtime_decision(
        &mut s,
        &RuntimeDecision::PlanCandidate { message: "plan".to_owned(), items: vec!["a".to_owned(), "b".to_owned()] },
    );
    record_runtime_decision(
        &mut s,
        &RuntimeDecision::ToolCandidatePending {
            activity: Activity::Explore,
            tool_name: "read_file".to_owned(),
            arguments: vec![text_arg("path", "Cargo.toml")],
            summary: "read".to_owned(),
        },
    );
    record_runtime_decision(
        &mut s,
        &RuntimeDecision::ApprovalNeeded {
            activity: Activity::Change,
            tool_name: "apply_patch".to_owned(),
            arguments: Vec::new(),
            change_preview: None,
            summary: "change".to_owned(),
        },
    );
    record_runtime_decision(
        &mut s,
        &RuntimeDecision::Answer { summary: "done".to_owned(), payload_body: Some("details".to_owned()) },
    );
    assert_eq!(
        texts(&s),
        vec![
            "notice:task plan accepted: plan (2 items)".to_owned(),
            "notice:tool candidate pending: read_file (Explore)".to_owned(),
            "notice:approval needed: apply_patch (Change)".to_owned(),
            "answer:done\n\ndetails".to_owned(),
        ]
    );
}

#[test]
fn tool_loop_limit_leaves_reason_stop_notice_and_diagnosis() {
    let mut s = state();
    record_tool_loop_limit(&mut s, "max_tool_calls", "path_failure_recovery");
    assert_eq!(
        texts(&s),
        vec![
            "notice:tool loop stopped: max_tool_calls".to_owned(),
            "notice:도구 반복 제한에 도달해 추가 LLM 요청을 보내지 않습니다.".to_owned(),
            "notice:tool loop diagnosis: path_failure_recovery".to_owned(),
        ]
    );
}

#[test]
fn health_reports_leave_status_lines() {
    let mut s = state();
    record_health_report(
        &mut s,
        &LlmHealthReport {
            provider: "lmstudio".to_owned(),
            model: "m".to_owned(),
            models_url: "http://h/v1/models".to_owned(),
            latency_ms: 12,
            status: LlmHealthStatus::Succeeded { available_models: 3 },
        },
    );
    record_health_report(
        &mut s,
        &LlmHealthReport {
            provider: "lmstudio".to_owned(),
            model: "m".to_owned(),
            models_url: "http://h/v1/models".to_owned(),
            latency_ms: 5,
            status: LlmHealthStatus::Failed(LlmFailure { kind: "timeout".to_owned(), message: "slow".to_owned() }),
        },
    );
    assert_eq!(
        texts(&s),
        vec![
            "notice:health ok".to_owned(),
            "notice:provider lmstudio | model m".to_owned(),
            "notice:latency 12 ms | models 3 | endpoint http://h/v1/models".to_owned(),
            "notice:health failed: timeout".to_owned(),
            "notice:provider lmstudio | model m".to_owned(),
            "notice:endpoint http://h/v1/models".to_owned(),
            "notice:message slow".to_owned(),
        ]
    );
}

#[test]
fn chat_failures_and_errors_leave_notices_and_success_leaves_none() {
    let mut s = state();
    record_plain_chat_failure(
        &mut s,
        &LlmChatReport {
            provider: "p".to_owned(),
            model: "m".to_owned(),
            chat_url: "u".to_owned(),
            status: LlmChatStatus::Succeeded { answer: "a".to_owned() },
        },
    );
    assert!(texts(&s).is_empty());
    record_plain_chat_failure(
        &mut s,
        &LlmChatReport {
            provider: "p".to_owned(),
            model: "m".to_owned(),
            chat_url: "u".to_owned(),
            status: LlmChatStatus::Failed(LlmFailure { kind: "connect".to_owned(), message: "refused".to_owned() }),
        },
    );
    record_runtime_decision_error(&mut s, &RuntimeDecisionError { kind: "k".to_owned(), message: "bad".to_owned() });
    record_runtime_response_parse_error(
        &mut s,
        &RuntimeResponseParseError { kind: "invalid_json".to_owned(), message: "oops".to_owned() },
    );
    record_llm_diagnostics(&mut s, &vec!["diag a".to_owned(), "diag b".to_owned()]);
    assert_eq!(
        texts(&s),
        vec![
            "notice:request failed: connect".to_owned(),
            "notice:provider p | model m".to_owned(),
            "notice:endpoint u".to_owned(),
            "notice:message refused".to_owned(),
            "notice:runtime decision failed: k".to_owned(),
            "notice:bad".to_owned(),
            "notice:response parse failed: invalid_json".to_owned(),
            "notice:oops".to_owned(),
            "notice:diag a".to_owned(),
            "notice:diag b".to_owned(),
        ]
    );
}

fn all_outputs_of(events: &[WorkspaceEvent], kind: &str) -> bool {
    events.iter().all(|e| matches!(e, WorkspaceEvent::OutputAdded { item_type } if *item_type == kind))
}

#[test]
fn recording_only_appends_to_the_log_and_announces_each_item() {
    let mut state = TuiState::main("/workspace".to_owned(), &RuntimeConfig::defaults(), ConfigLoadSource::Defaults, None);
    state.main_input = "draft".to_owned();
    let scroll_before = state.workspace.scroll_offset();

    let answer = record_runtime_decision(&mut state, &RuntimeDecision::Answer { summary: "done".to_owned(), payload_body: None });
    assert_eq!(answer.events.len(), 1);
    assert!(all_outputs_of(&answer.events, "assistant_answer"));

    let blocked = record_runtime_decision(
        &mut state,
        &RuntimeDecision::Blocked { message: "no".to_owned(), reason: "r".to_owned() },
    );
    assert_eq!(blocked.events.len(), 2);
    assert!(all_outputs_of(&blocked.events, "system_notice"));

    let limit = record_tool_loop_limit(&mut state, "max_tool_calls", "diagnosis");
    assert_eq!(limit.events.len(), 3);
    assert!(all_outputs_of(&limit.events, "system_notice"));

    let notice = state.record_system_notice("hello".to_owned());
    assert!(all_outputs_of(&notice.events, "system_notice") && notice.events.len() == 1);

    assert_eq!(state.main_input, "draft");
    assert!(!state.should_quit);
    assert_eq!(state.workspace.scroll_offset(), scroll_before);
    assert_eq!(state.workspace.items().len(), 7);
}
