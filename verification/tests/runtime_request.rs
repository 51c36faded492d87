use ahreumcode::llm::{
    text_arg, text_argument, Activity, ChangePreview, LlmMessage, LlmMessageRole, LlmMessageVisibility,
    MessageHistory, PatchOperation, RuntimeDecision,
};
use ahreumcode::runtime_request::{
    apply_change_evidence_boundary, apply_final_answer_evidence_boundary, completed_tool_fallback_final_decision,
    diagnose_tool_loop_limit, duplicate_approval_final_decision, duplicate_approval_repeat_redirect,
    read_file_candidate_paths_from_observation_message, repeated_completed_add_change_final_decision,
    settled_duplicate_final_decision, tool_loop_request_messages, tool_repeat_answer_request_messages,
    tool_repeat_continuation_request_messages, tool_repeat_failure_request_messages, ActivePlainRequest,
    ResponseContractLines, ToolLoopExecutionRecord, ToolLoopLimitDiagnosis, ToolLoopObservation,
    ToolLoopRepeatRedirect,
};

fn response_boundary_contract_lines() -> Vec<&'static str> {
    vec![
        "Return exactly one JSON response object and no prose outside it.",
        "Use answer only when the observations already hold the evidence.",
    ]
}

fn payload_ordering_contract_lines() -> Vec<&'static str> {
    vec!["Put the payload block after the JSON response object."]
}

fn tool_path_selection_contract_lines() -> Vec<&'static str> {
    vec!["Choose paths from observed candidates before guessing new ones."]
}

fn contract() -> ResponseContractLines {
    ResponseContractLines {
        response_boundary: response_boundary_contract_lines().into_iter().map(str::to_owned).collect(),
        payload_ordering: payload_ordering_contract_lines().into_iter().map(str::to_owned).collect(),
        tool_path_selection: tool_path_selection_contract_lines().into_iter().map(str::to_owned).collect(),
    }
}

fn message(
    role: LlmMessageRole,
    visibility: LlmMessageVisibility,
    content: &str,
) -> LlmMessage {
    LlmMessage {
        turn_id: "turn-1".to_owned(),
        role,
        visibility,
        content: content.to_owned(),
    }
}

#[test]
fn tool_loop_request_uses_schema_user_observation_and_final_instruction() {
    let schema = message(
        LlmMessageRole::System,
        LlmMessageVisibility::Internal,
        "schema",
    );
    let user = message(
        LlmMessageRole::User,
        LlmMessageVisibility::UserVisible,
        "user goal",
    );
    let observation = message(
        LlmMessageRole::System,
        LlmMessageVisibility::Internal,
        "<AHREUM_TOOL_OBSERVATION>latest</AHREUM_TOOL_OBSERVATION>",
    );

    let executed = vec![
        r#"read_file:{"max_lines":120,"path":"Cargo.toml","start_line":1}"#.to_owned(),
        r#"search_text:{"max_results":20,"path":"src","query":"RuntimeDecision"}"#.to_owned(),
    ];
    let messages =
        tool_loop_request_messages(&schema, &user, &observation, &vec![], &executed, "turn-2", &contract());

    assert_eq!(messages.len(), 4);
    assert_eq!(messages[0].content, "schema");
    assert_eq!(messages[1].content, "user goal");
    assert_eq!(
        messages[2].content,
        "<AHREUM_TOOL_OBSERVATION>latest</AHREUM_TOOL_OBSERVATION>"
    );
    assert_eq!(messages[3].turn_id, "turn-2");
    assert_eq!(messages[3].role, LlmMessageRole::System);
    assert!(messages[3].content.contains("return exactly one answer"));
    assert!(messages[3]
        .content
        .contains("latest observation is a succeeded Change or Execute"));
    assert!(messages[3]
        .content
        .contains("do not request another Add File for the same target"));
    assert!(messages[3]
        .content
        .contains("After a succeeded read_file observation"));
    for boundary_line in response_boundary_contract_lines() {
        assert!(messages[3].content.contains(boundary_line));
    }
    for payload_line in payload_ordering_contract_lines() {
        assert!(messages[3].content.contains(payload_line));
    }
    for path_line in tool_path_selection_contract_lines() {
        assert!(messages[3].content.contains(path_line));
    }
    assert!(messages[3].content.contains("Use search_text"));
    assert!(messages[3].content.contains("Use read_file"));
    assert!(messages[3].content.contains("Use list_files"));
    assert!(messages[3]
        .content
        .contains("filename/path candidate after a direct path failed"));
    assert!(messages[3]
        .content
        .contains("Empty path strings are invalid"));
    assert!(messages[3]
        .content
        .contains("do not treat its target as read or analyzed evidence"));
    assert!(messages[3]
        .content
        .contains("error_kind target_already_exists"));
    assert!(messages[3]
        .content
        .contains("request read_file for target_raw"));
    assert!(messages[3].content.contains("<AHREUM_TOOL_LOOP_STATE>"));
    assert!(messages[3]
        .content
        .contains("executed_tool_candidate_count: 2"));
    assert!(messages[3].content.contains(&executed[0]));
    assert!(messages[3].content.contains(&executed[1]));
    assert!(messages[3].content.contains("already spent"));
    assert!(messages
        .iter()
        .all(|message| !message.content.contains("assistant tool candidate")));
    assert!(messages
        .iter()
        .all(|message| !message.content.contains("repair request")));
}

#[test]
fn tool_loop_request_lists_read_candidates_from_discovery_observation() {
    let schema = message(
        LlmMessageRole::System,
        LlmMessageVisibility::Internal,
        "schema",
    );
    let user = message(
        LlmMessageRole::User,
        LlmMessageVisibility::UserVisible,
        "프로젝트 설정 후보를 확인해줘.",
    );
    let observation = message(
        LlmMessageRole::System,
        LlmMessageVisibility::Internal,
        "<AHREUM_TOOL_OBSERVATION>\ntool_name: list_files\nstatus: succeeded\npreview:\ndocs/\n.ahreumcode/config.toml\nCargo.toml\n</AHREUM_TOOL_OBSERVATION>",
    );

    let messages = tool_loop_request_messages(&schema, &user, &observation, &vec![], &vec![], "turn-2", &contract());

    assert!(messages[3]
        .content
        .contains("<AHREUM_READ_FILE_CANDIDATES>"));
    assert!(messages[3].content.contains("- .ahreumcode/config.toml"));
    assert!(messages[3].content.contains("- Cargo.toml"));
    assert!(messages[3]
        .content
        .contains("If the user goal requires file contents or values"));
    assert!(!messages[3].content.contains("- docs/"));
}

#[test]
fn tool_loop_request_keeps_recent_observations_for_repair_context() {
    let schema = message(
        LlmMessageRole::System,
        LlmMessageVisibility::Internal,
        "schema",
    );
    let user = message(
        LlmMessageRole::User,
        LlmMessageVisibility::UserVisible,
        "user goal",
    );
    let read_record = ToolLoopExecutionRecord {
        signature: r#"read_file:{"path":"file.md"}"#.to_owned(),
        observation: loop_observation(Some("file.md"), None, false, false),
        observation_message: message(
            LlmMessageRole::System,
            LlmMessageVisibility::Internal,
            "<AHREUM_TOOL_OBSERVATION>current file contents</AHREUM_TOOL_OBSERVATION>",
        ),
    };
    let failed_patch = message(
        LlmMessageRole::System,
        LlmMessageVisibility::Internal,
        "<AHREUM_TOOL_OBSERVATION>failed patch diagnostic</AHREUM_TOOL_OBSERVATION>",
    );

    let messages = tool_loop_request_messages(
        &schema,
        &user,
        &failed_patch,
        &vec![read_record],
        &vec!["apply_patch:target=file.md:operation=update".to_owned()],
        "turn-2",
        &contract(),
    );

    assert!(messages
        .iter()
        .any(|message| message.content.contains("current file contents")));
    assert!(messages
        .iter()
        .any(|message| message.content.contains("failed patch diagnostic")));
    assert!(messages
        .last()
        .expect("instruction message")
        .content
        .contains("request a repaired Change candidate"));
}

#[test]
fn read_candidates_extract_unique_paths_from_search_matches() {
    let observation = "<AHREUM_TOOL_OBSERVATION>\ntool_name: search_text\nstatus: succeeded\npreview:\nsrc/config/mod.rs:5: pub const CONFIG_RELATIVE_PATH\nsrc/config/mod.rs:9: more config\nsrc/main.rs:2: mod config;\n</AHREUM_TOOL_OBSERVATION>";

    let candidates = read_file_candidate_paths_from_observation_message(observation);

    assert_eq!(
        candidates,
        vec!["src/config/mod.rs".to_owned(), "src/main.rs".to_owned()]
    );
}

#[test]
fn read_candidates_extract_paths_from_failed_read_candidates() {
    let observation = "<AHREUM_TOOL_OBSERVATION>\ntool_name: read_file\nstatus: failed\nerror_kind: path_not_found\npreview:\ncandidate_path: nested/settings.local\n</AHREUM_TOOL_OBSERVATION>";

    let candidates = read_file_candidate_paths_from_observation_message(observation);

    assert_eq!(candidates, vec!["nested/settings.local".to_owned()]);
}

#[test]
fn active_request_detects_only_settled_duplicate_tool_candidates() {
    let mut active = active_request();
    let signature = r#"read_file:{"path":"Cargo.toml"}"#.to_owned();
    let observation = ToolLoopObservation {
        tool_name: "read_file".to_owned(),
        target_raw: Some("Cargo.toml".to_owned()),
        status: "succeeded",
        error_kind: None,
        truncated: false,
        source_truncated: false,
        preview_truncated: false,
        has_next_range_hint: false,
        preview: vec!["[package]".to_owned()],
    };

    active.record_tool_execution(
        signature.clone(),
        observation,
        message(
            LlmMessageRole::System,
            LlmMessageVisibility::Internal,
            "<AHREUM_TOOL_OBSERVATION>read Cargo.toml</AHREUM_TOOL_OBSERVATION>",
        ),
    );

    let (redirect, _) = active
        .repeat_redirect_for_tool_candidate(&signature, "read_file", Some("Cargo.toml"))
        .expect("settled duplicate should redirect");
    assert_eq!(redirect, ToolLoopRepeatRedirect::SettledDuplicate);
    assert!(active
        .repeat_redirect_for_tool_candidate(
            r#"read_file:{"path":"src/main.rs"}"#,
            "read_file",
            Some("src/main.rs"),
        )
        .is_none());
}

#[test]
fn duplicate_redirect_count_is_scoped_to_last_signature() {
    let mut active = active_request();
    active.last_tool_signature = Some("apply_patch:old".to_owned());
    active.duplicate_redirect_count = 1;

    assert_eq!(
        active.duplicate_redirect_count_for_signature("apply_patch:old"),
        1
    );
    assert_eq!(
        active.duplicate_redirect_count_for_signature("read_file:new"),
        0
    );
}

#[test]
fn settled_duplicate_final_decision_uses_existing_observation() {
    let mut active = active_request();
    active.executed_tool_records.push(ToolLoopExecutionRecord {
        signature: r#"search_text:{"path":"src","query":"needle"}"#.to_owned(),
        observation: ToolLoopObservation {
            tool_name: "search_text".to_owned(),
            target_raw: Some("src".to_owned()),
            status: "succeeded",
            error_kind: None,
            truncated: true,
            source_truncated: true,
            preview_truncated: false,
            has_next_range_hint: false,
            preview: vec!["src/config/mod.rs:5 needle".to_owned()],
        },
        observation_message: message(
            LlmMessageRole::System,
            LlmMessageVisibility::Internal,
            "observation",
        ),
    });

    let record = ToolLoopExecutionRecord {
        signature: r#"search_text:{"path":"src","query":"missing needle"}"#.to_owned(),
        observation: ToolLoopObservation {
            tool_name: "search_text".to_owned(),
            target_raw: Some("src".to_owned()),
            status: "succeeded",
            error_kind: None,
            truncated: false,
            source_truncated: false,
            preview_truncated: false,
            has_next_range_hint: false,
            preview: Vec::new(),
        },
        observation_message: message(
            LlmMessageRole::System,
            LlmMessageVisibility::Internal,
            "observation",
        ),
    };

    let decision = settled_duplicate_final_decision(&active, &record);

    let RuntimeDecision::Answer {
        summary,
        payload_body,
    } = decision
    else {
        panic!("settled duplicate should finalize as answer");
    };
    let payload = payload_body.expect("payload");
    assert!(summary.contains("추가 도구 호출 없이"));
    assert!(payload.contains("tool: search_text"));
    assert!(payload.contains("target: src"));
    assert!(payload.contains("src/config/mod.rs:5 needle"));
}

#[test]
fn settled_duplicate_final_decision_blocks_without_evidence() {
    let active = active_request();
    let record = ToolLoopExecutionRecord {
        signature: r#"search_text:{"path":"src","query":"missing"}"#.to_owned(),
        observation: ToolLoopObservation {
            tool_name: "search_text".to_owned(),
            target_raw: Some("src".to_owned()),
            status: "succeeded",
            error_kind: None,
            truncated: false,
            source_truncated: false,
            preview_truncated: false,
            has_next_range_hint: false,
            preview: Vec::new(),
        },
        observation_message: message(
            LlmMessageRole::System,
            LlmMessageVisibility::Internal,
            "observation",
        ),
    };

    let decision = settled_duplicate_final_decision(&active, &record);

    let RuntimeDecision::Blocked { message, reason } = decision else {
        panic!("empty settled duplicate should not become an answer");
    };
    assert_eq!(reason, "settled_duplicate_without_evidence");
    assert!(message.contains("답변 근거가 없습니다"));
    assert!(message.contains("tool: search_text"));
}

#[test]
fn settled_duplicate_final_decision_blocks_discovery_only_after_failed_read_recovery() {
    let mut active = active_request();
    active.executed_tool_records.push(ToolLoopExecutionRecord {
        signature: r#"read_file:{"path":"settings.local"}"#.to_owned(),
        observation: loop_observation(
            Some("settings.local"),
            Some("path_not_found"),
            false,
            false,
        ),
        observation_message: message(
            LlmMessageRole::System,
            LlmMessageVisibility::Internal,
            "failed read",
        ),
    });
    let record = ToolLoopExecutionRecord {
        signature: r#"list_files:{"path":"."}"#.to_owned(),
        observation: ToolLoopObservation {
            tool_name: "list_files".to_owned(),
            target_raw: Some(".".to_owned()),
            status: "succeeded",
            error_kind: None,
            truncated: false,
            source_truncated: false,
            preview_truncated: false,
            has_next_range_hint: false,
            preview: vec!["nested/settings.local".to_owned()],
        },
        observation_message: message(
            LlmMessageRole::System,
            LlmMessageVisibility::Internal,
            "discovery",
        ),
    };
    active.executed_tool_records.push(record.clone());

    let decision = settled_duplicate_final_decision(&active, &record);

    let RuntimeDecision::Blocked { message, reason } = decision else {
        panic!("discovery-only read recovery must not finalize as answer");
    };
    assert_eq!(reason, "answer_without_file_content_after_read_recovery");
    assert!(message.contains("next_required_tool: read_file"));
    assert!(message.contains("last_tool: list_files"));
}

#[test]
fn final_answer_evidence_boundary_blocks_empty_tool_observations() {
    let mut active = active_request();
    active.tool_call_count = 1;
    active.last_tool_observation = Some(ToolLoopObservation {
        tool_name: "search_text".to_owned(),
        target_raw: Some("src".to_owned()),
        status: "succeeded",
        error_kind: None,
        truncated: false,
        source_truncated: false,
        preview_truncated: false,
        has_next_range_hint: false,
        preview: Vec::new(),
    });
    active.executed_tool_records.push(ToolLoopExecutionRecord {
        signature: r#"search_text:{"path":"src","query":"missing"}"#.to_owned(),
        observation: active.last_tool_observation.clone().expect("observation"),
        observation_message: message(
            LlmMessageRole::System,
            LlmMessageVisibility::Internal,
            "observation",
        ),
    });

    let decision = apply_final_answer_evidence_boundary(
        &active,
        RuntimeDecision::Answer {
            summary: "not found".to_owned(),
            payload_body: None,
        },
    );

    let RuntimeDecision::Blocked { message, reason } = decision else {
        panic!("answer without observation evidence should be blocked");
    };
    assert_eq!(reason, "answer_without_observation_evidence");
    assert!(message.contains("답변 근거"));
    assert!(message.contains("last_tool: search_text"));
}

#[test]
fn final_answer_evidence_boundary_blocks_discovery_only_after_failed_read_recovery() {
    let mut active = active_request();
    active.executed_tool_records.push(ToolLoopExecutionRecord {
        signature: r#"read_file:{"path":"settings.local"}"#.to_owned(),
        observation: loop_observation(
            Some("settings.local"),
            Some("path_not_found"),
            false,
            false,
        ),
        observation_message: message(
            LlmMessageRole::System,
            LlmMessageVisibility::Internal,
            "failed read",
        ),
    });
    active.executed_tool_records.push(ToolLoopExecutionRecord {
        signature: r#"search_text:{"path":".","query":"settings.local"}"#.to_owned(),
        observation: ToolLoopObservation {
            tool_name: "search_text".to_owned(),
            target_raw: Some(".".to_owned()),
            status: "succeeded",
            error_kind: None,
            truncated: false,
            source_truncated: false,
            preview_truncated: false,
            has_next_range_hint: false,
            preview: vec!["nested/settings.local".to_owned()],
        },
        observation_message: message(
            LlmMessageRole::System,
            LlmMessageVisibility::Internal,
            "discovery",
        ),
    });
    active.last_tool_observation = Some(
        active
            .executed_tool_records
            .last()
            .expect("record")
            .observation
            .clone(),
    );

    let decision = apply_final_answer_evidence_boundary(
        &active,
        RuntimeDecision::Answer {
            summary: "setting is enabled".to_owned(),
            payload_body: None,
        },
    );

    let RuntimeDecision::Blocked { message, reason } = decision else {
        panic!("answer from discovery-only evidence should be blocked");
    };
    assert_eq!(reason, "answer_without_file_content_after_read_recovery");
    assert!(message.contains("파일 내용을 아직 읽지 않았습니다"));
}

#[test]
fn final_answer_evidence_boundary_redirects_failed_read_candidate_to_read_file() {
    let mut active = active_request();
    let observation = ToolLoopObservation {
        tool_name: "read_file".to_owned(),
        target_raw: Some("settings.local".to_owned()),
        status: "failed",
        error_kind: Some("path_not_found"),
        truncated: false,
        source_truncated: false,
        preview_truncated: false,
        has_next_range_hint: false,
        preview: vec!["candidate_path: nested/settings.local".to_owned()],
    };
    active.last_tool_observation = Some(observation.clone());
    active.executed_tool_records.push(ToolLoopExecutionRecord {
        signature: r#"read_file:{"path":"settings.local"}"#.to_owned(),
        observation,
        observation_message: message(
            LlmMessageRole::System,
            LlmMessageVisibility::Internal,
            "failed read with candidate",
        ),
    });

    let decision = apply_final_answer_evidence_boundary(
        &active,
        RuntimeDecision::Answer {
            summary: "candidate exists".to_owned(),
            payload_body: None,
        },
    );

    let RuntimeDecision::ToolCandidatePending {
        tool_name,
        arguments,
        ..
    } = decision
    else {
        panic!("failed read candidate should force a read_file candidate");
    };
    assert_eq!(tool_name, "read_file");
    assert_eq!(text_argument(&arguments, "path"), Some("nested/settings.local"));
}

#[test]
fn final_answer_evidence_boundary_clarifies_multiple_failed_read_candidates() {
    let mut active = active_request();
    let observation = ToolLoopObservation {
        tool_name: "read_file".to_owned(),
        target_raw: Some("settings.local".to_owned()),
        status: "failed",
        error_kind: Some("path_not_found"),
        truncated: false,
        source_truncated: false,
        preview_truncated: false,
        has_next_range_hint: false,
        preview: vec![
            "candidate_path: alpha/settings.local".to_owned(),
            "candidate_path: beta/settings.local".to_owned(),
        ],
    };
    active.last_tool_observation = Some(observation.clone());
    active.executed_tool_records.push(ToolLoopExecutionRecord {
        signature: r#"read_file:{"path":"settings.local"}"#.to_owned(),
        observation,
        observation_message: message(
            LlmMessageRole::System,
            LlmMessageVisibility::Internal,
            "failed read with multiple candidates",
        ),
    });

    let decision = apply_final_answer_evidence_boundary(
        &active,
        RuntimeDecision::Answer {
            summary: "candidate exists".to_owned(),
            payload_body: None,
        },
    );

    let RuntimeDecision::Clarify { message, reason } = decision else {
        panic!("multiple read candidates should ask for clarification");
    };
    assert_eq!(reason, "multiple_read_file_candidates");
    assert!(message.contains("alpha/settings.local"));
    assert!(message.contains("beta/settings.local"));
}

#[test]
fn final_answer_evidence_boundary_allows_successful_read_after_recovery() {
    let mut active = active_request();
    active.executed_tool_records.push(ToolLoopExecutionRecord {
        signature: r#"read_file:{"path":"settings.local"}"#.to_owned(),
        observation: loop_observation(
            Some("settings.local"),
            Some("path_not_found"),
            false,
            false,
        ),
        observation_message: message(
            LlmMessageRole::System,
            LlmMessageVisibility::Internal,
            "failed read",
        ),
    });
    active.executed_tool_records.push(ToolLoopExecutionRecord {
        signature: r#"list_files:{"path":"."}"#.to_owned(),
        observation: ToolLoopObservation {
            tool_name: "list_files".to_owned(),
            target_raw: Some(".".to_owned()),
            status: "succeeded",
            error_kind: None,
            truncated: false,
            source_truncated: false,
            preview_truncated: false,
            has_next_range_hint: false,
            preview: vec!["nested/settings.local".to_owned()],
        },
        observation_message: message(
            LlmMessageRole::System,
            LlmMessageVisibility::Internal,
            "discovery",
        ),
    });
    active.executed_tool_records.push(ToolLoopExecutionRecord {
        signature: r#"read_file:{"path":"nested/settings.local"}"#.to_owned(),
        observation: ToolLoopObservation {
            tool_name: "read_file".to_owned(),
            target_raw: Some("nested/settings.local".to_owned()),
            status: "succeeded",
            error_kind: None,
            truncated: false,
            source_truncated: false,
            preview_truncated: false,
            has_next_range_hint: false,
            preview: vec!["setting = \"enabled\"".to_owned()],
        },
        observation_message: message(
            LlmMessageRole::System,
            LlmMessageVisibility::Internal,
            "read",
        ),
    });

    let decision = apply_final_answer_evidence_boundary(
        &active,
        RuntimeDecision::Answer {
            summary: "setting is enabled".to_owned(),
            payload_body: None,
        },
    );

    let RuntimeDecision::Answer { summary, .. } = decision else {
        panic!("successful read after recovery should allow answer");
    };
    assert_eq!(summary, "setting is enabled");
}

#[test]
fn final_answer_evidence_boundary_blocks_answer_after_failed_change() {
    let mut active = active_request();
    active.executed_tool_records.push(ToolLoopExecutionRecord {
        signature: r#"read_file:{"path":"fixture-target.txt"}"#.to_owned(),
        observation: ToolLoopObservation {
            tool_name: "read_file".to_owned(),
            target_raw: Some("fixture-target.txt".to_owned()),
            status: "succeeded",
            error_kind: None,
            truncated: false,
            source_truncated: false,
            preview_truncated: false,
            has_next_range_hint: false,
            preview: vec!["old value".to_owned()],
        },
        observation_message: message(
            LlmMessageRole::System,
            LlmMessageVisibility::Internal,
            "read",
        ),
    });
    active.executed_tool_records.push(ToolLoopExecutionRecord {
        signature: r#"apply_patch:{"patch":"*** Begin Patch..."}"#.to_owned(),
        observation: ToolLoopObservation {
            tool_name: "apply_patch".to_owned(),
            target_raw: Some("fixture-target.txt".to_owned()),
            status: "failed",
            error_kind: Some("invalid_arguments"),
            truncated: false,
            source_truncated: false,
            preview_truncated: false,
            has_next_range_hint: false,
            preview: vec!["add patch target already exists".to_owned()],
        },
        observation_message: message(
            LlmMessageRole::System,
            LlmMessageVisibility::Internal,
            "failed change",
        ),
    });

    let decision = apply_final_answer_evidence_boundary(
        &active,
        RuntimeDecision::Answer {
            summary: "updated".to_owned(),
            payload_body: None,
        },
    );

    let RuntimeDecision::Blocked { message, reason } = decision else {
        panic!("answer after failed change should be blocked");
    };
    assert_eq!(reason, "answer_after_failed_change_without_success");
    assert!(message.contains("next_required_tool: apply_patch"));
    assert!(message.contains("target: fixture-target.txt"));
}

#[test]
fn final_answer_evidence_boundary_blocks_answer_after_prerequisite_read_without_change() {
    let mut active = active_request();
    active.pending_change_after_read_target = Some("fixture-target.txt".to_owned());
    active.executed_tool_records.push(ToolLoopExecutionRecord {
        signature: r#"read_file:{"path":"fixture-target.txt"}"#.to_owned(),
        observation: ToolLoopObservation {
            tool_name: "read_file".to_owned(),
            target_raw: Some("fixture-target.txt".to_owned()),
            status: "succeeded",
            error_kind: None,
            truncated: false,
            source_truncated: false,
            preview_truncated: false,
            has_next_range_hint: false,
            preview: vec!["old value".to_owned()],
        },
        observation_message: message(
            LlmMessageRole::System,
            LlmMessageVisibility::Internal,
            "read",
        ),
    });

    let decision = apply_final_answer_evidence_boundary(
        &active,
        RuntimeDecision::Answer {
            summary: "updated".to_owned(),
            payload_body: None,
        },
    );

    let RuntimeDecision::Blocked { message, reason } = decision else {
        panic!("answer after prerequisite read should be blocked until change succeeds");
    };
    assert_eq!(reason, "answer_after_prerequisite_read_without_change");
    assert!(message.contains("next_required_tool: apply_patch"));
    assert!(message.contains("target: fixture-target.txt"));
}

#[test]
fn completed_tool_fallback_does_not_finish_prerequisite_read_without_change() {
    let mut active = active_request();
    active.pending_change_after_read_target = Some("fixture-target.txt".to_owned());
    active.last_successful_tool_observation = Some(ToolLoopObservation {
        tool_name: "read_file".to_owned(),
        target_raw: Some("fixture-target.txt".to_owned()),
        status: "succeeded",
        error_kind: None,
        truncated: false,
        source_truncated: false,
        preview_truncated: false,
        has_next_range_hint: false,
        preview: vec!["old value".to_owned()],
    });
    active.executed_tool_records.push(ToolLoopExecutionRecord {
        signature: r#"read_file:{"path":"fixture-target.txt"}"#.to_owned(),
        observation: active
            .last_successful_tool_observation
            .clone()
            .expect("observation"),
        observation_message: message(
            LlmMessageRole::System,
            LlmMessageVisibility::Internal,
            "read",
        ),
    });

    let decision = completed_tool_fallback_final_decision(&active, "schema_validation_failed");

    assert!(decision.is_none());
}

#[test]
fn completed_tool_fallback_does_not_finish_payload_validation_failure() {
    let mut active = active_request();
    active.last_successful_tool_observation = Some(ToolLoopObservation {
        tool_name: "read_file".to_owned(),
        target_raw: Some("fixture-target.txt".to_owned()),
        status: "succeeded",
        error_kind: None,
        truncated: false,
        source_truncated: false,
        preview_truncated: false,
        has_next_range_hint: false,
        preview: vec!["old value".to_owned()],
    });
    active.executed_tool_records.push(ToolLoopExecutionRecord {
        signature: r#"read_file:{"path":"fixture-target.txt"}"#.to_owned(),
        observation: active
            .last_successful_tool_observation
            .clone()
            .expect("observation"),
        observation_message: message(
            LlmMessageRole::System,
            LlmMessageVisibility::Internal,
            "read",
        ),
    });

    let decision = completed_tool_fallback_final_decision(&active, "payload_validation_failed");

    assert!(decision.is_none());
}

#[test]
fn final_answer_evidence_boundary_allows_answer_after_failed_change_is_resolved() {
    let mut active = active_request();
    active.executed_tool_records.push(ToolLoopExecutionRecord {
        signature: r#"apply_patch:{"patch":"*** Begin Patch...Add File"}"#.to_owned(),
        observation: ToolLoopObservation {
            tool_name: "apply_patch".to_owned(),
            target_raw: Some("fixture-target.txt".to_owned()),
            status: "failed",
            error_kind: Some("invalid_arguments"),
            truncated: false,
            source_truncated: false,
            preview_truncated: false,
            has_next_range_hint: false,
            preview: vec!["add patch target already exists".to_owned()],
        },
        observation_message: message(
            LlmMessageRole::System,
            LlmMessageVisibility::Internal,
            "failed change",
        ),
    });
    active.executed_tool_records.push(ToolLoopExecutionRecord {
        signature: r#"apply_patch:{"patch":"*** Begin Patch...Update File"}"#.to_owned(),
        observation: ToolLoopObservation {
            tool_name: "apply_patch".to_owned(),
            target_raw: Some("fixture-target.txt".to_owned()),
            status: "succeeded",
            error_kind: None,
            truncated: false,
            source_truncated: false,
            preview_truncated: false,
            has_next_range_hint: false,
            preview: vec!["updated fixture-target.txt".to_owned()],
        },
        observation_message: message(
            LlmMessageRole::System,
            LlmMessageVisibility::Internal,
            "successful change",
        ),
    });

    let decision = apply_final_answer_evidence_boundary(
        &active,
        RuntimeDecision::Answer {
            summary: "updated".to_owned(),
            payload_body: None,
        },
    );

    let RuntimeDecision::Answer { summary, .. } = decision else {
        panic!("resolved failed change should allow answer");
    };
    assert_eq!(summary, "updated");
}

#[test]
fn final_answer_evidence_boundary_keeps_failed_change_when_other_target_succeeds() {
    let mut active = active_request();
    active.executed_tool_records.push(ToolLoopExecutionRecord {
        signature: "apply_patch:target=fixture-a.txt:operation=update:payload_hash=bad"
            .to_owned(),
        observation: ToolLoopObservation {
            tool_name: "apply_patch".to_owned(),
            target_raw: Some("fixture-a.txt".to_owned()),
            status: "failed",
            error_kind: Some("invalid_arguments"),
            truncated: false,
            source_truncated: false,
            preview_truncated: false,
            has_next_range_hint: false,
            preview: vec!["update hunk did not match".to_owned()],
        },
        observation_message: message(
            LlmMessageRole::System,
            LlmMessageVisibility::Internal,
            "failed change",
        ),
    });
    active.executed_tool_records.push(ToolLoopExecutionRecord {
        signature: "apply_patch:target=fixture-b.txt:operation=add:payload_hash=ok".to_owned(),
        observation: ToolLoopObservation {
            tool_name: "apply_patch".to_owned(),
            target_raw: Some("fixture-b.txt".to_owned()),
            status: "succeeded",
            error_kind: None,
            truncated: false,
            source_truncated: false,
            preview_truncated: false,
            has_next_range_hint: false,
            preview: vec!["added fixture-b.txt".to_owned()],
        },
        observation_message: message(
            LlmMessageRole::System,
            LlmMessageVisibility::Internal,
            "successful other-target change",
        ),
    });

    let decision = apply_final_answer_evidence_boundary(
        &active,
        RuntimeDecision::Answer {
            summary: "done".to_owned(),
            payload_body: None,
        },
    );

    let RuntimeDecision::Blocked { message, reason } = decision else {
        panic!("other target success must not resolve failed change");
    };
    assert_eq!(reason, "answer_after_failed_change_without_success");
    assert!(message.contains("target: fixture-a.txt"));
}

#[test]
fn change_evidence_boundary_reads_before_update_patch() {
    let active = active_request();
    let decision = RuntimeDecision::ApprovalNeeded {
        activity: Activity::Change,
        tool_name: "apply_patch".to_owned(),
        arguments: vec![text_arg("payload_id", "patch_001")],
        change_preview: Some(ChangePreview {
            payload_id: "patch_001".to_owned(),
            target_path: ".ahreumcode/check.md".to_owned(),
            operation: PatchOperation::Update,
            additions: 1,
            deletions: 1,
            payload_body: "*** Begin Patch\n*** Update File: .ahreumcode/check.md\n@@\n-old\n+new\n*** End Patch".to_owned(),
        }),
        summary: "change existing file".to_owned(),
    };

    let decision = apply_change_evidence_boundary(&active, decision);

    let RuntimeDecision::ToolCandidatePending {
        activity,
        tool_name,
        arguments,
        ..
    } = decision
    else {
        panic!("update without read should be redirected to read_file");
    };
    assert_eq!(activity, Activity::Explore);
    assert_eq!(tool_name, "read_file");
    assert_eq!(text_argument(&arguments, "path"), Some(".ahreumcode/check.md"));
}

#[test]
fn change_evidence_boundary_allows_update_after_successful_read() {
    let mut active = active_request();
    active.executed_tool_records.push(ToolLoopExecutionRecord {
        signature: r#"read_file:{"path":".ahreumcode/check.md"}"#.to_owned(),
        observation: ToolLoopObservation {
            tool_name: "read_file".to_owned(),
            target_raw: Some(".ahreumcode/check.md".to_owned()),
            status: "succeeded",
            error_kind: None,
            truncated: false,
            source_truncated: false,
            preview_truncated: false,
            has_next_range_hint: false,
            preview: vec!["old".to_owned()],
        },
        observation_message: message(
            LlmMessageRole::System,
            LlmMessageVisibility::Internal,
            "<AHREUM_TOOL_OBSERVATION>read</AHREUM_TOOL_OBSERVATION>",
        ),
    });
    let decision = RuntimeDecision::ApprovalNeeded {
        activity: Activity::Change,
        tool_name: "apply_patch".to_owned(),
        arguments: vec![text_arg("payload_id", "patch_001")],
        change_preview: Some(ChangePreview {
            payload_id: "patch_001".to_owned(),
            target_path: ".ahreumcode/check.md".to_owned(),
            operation: PatchOperation::Update,
            additions: 1,
            deletions: 1,
            payload_body: "*** Begin Patch\n*** Update File: .ahreumcode/check.md\n@@\n-old\n+new\n*** End Patch".to_owned(),
        }),
        summary: "change existing file".to_owned(),
    };

    let decision = apply_change_evidence_boundary(&active, decision);

    assert!(matches!(decision, RuntimeDecision::ApprovalNeeded { .. }));
}

#[test]
fn change_evidence_boundary_requires_fresh_read_after_failed_change() {
    let mut active = active_request();
    active.executed_tool_records.push(ToolLoopExecutionRecord {
        signature: r#"read_file:{"path":"fixture-target.txt"}"#.to_owned(),
        observation: ToolLoopObservation {
            tool_name: "read_file".to_owned(),
            target_raw: Some("fixture-target.txt".to_owned()),
            status: "succeeded",
            error_kind: None,
            truncated: false,
            source_truncated: false,
            preview_truncated: false,
            has_next_range_hint: false,
            preview: vec!["alpha".to_owned()],
        },
        observation_message: message(
            LlmMessageRole::System,
            LlmMessageVisibility::Internal,
            "<AHREUM_TOOL_OBSERVATION>read</AHREUM_TOOL_OBSERVATION>",
        ),
    });
    active.executed_tool_records.push(ToolLoopExecutionRecord {
        signature: "apply_patch:target=fixture-target.txt:operation=update:payload_hash=bad"
            .to_owned(),
        observation: ToolLoopObservation {
            tool_name: "apply_patch".to_owned(),
            target_raw: Some("fixture-target.txt".to_owned()),
            status: "failed",
            error_kind: Some("invalid_arguments"),
            truncated: false,
            source_truncated: false,
            preview_truncated: false,
            has_next_range_hint: false,
            preview: vec!["update hunk did not match".to_owned()],
        },
        observation_message: message(
            LlmMessageRole::System,
            LlmMessageVisibility::Internal,
            "<AHREUM_TOOL_OBSERVATION>failed change</AHREUM_TOOL_OBSERVATION>",
        ),
    });
    let decision = RuntimeDecision::ApprovalNeeded {
        activity: Activity::Change,
        tool_name: "apply_patch".to_owned(),
        arguments: vec![text_arg("payload_id", "patch_001")],
        change_preview: Some(ChangePreview {
            payload_id: "patch_001".to_owned(),
            target_path: "fixture-target.txt".to_owned(),
            operation: PatchOperation::Update,
            additions: 1,
            deletions: 1,
            payload_body:
                "*** Begin Patch\n*** Update File: fixture-target.txt\n@@\n-alpha\n+beta\n*** End Patch"
                    .to_owned(),
        }),
        summary: "retry update".to_owned(),
    };

    let decision = apply_change_evidence_boundary(&active, decision);

    let RuntimeDecision::ToolCandidatePending {
        tool_name,
        arguments,
        ..
    } = decision
    else {
        panic!("failed change should invalidate older read evidence");
    };
    assert_eq!(tool_name, "read_file");
    assert_eq!(text_argument(&arguments, "path"), Some("fixture-target.txt"));
}

#[test]
fn change_evidence_boundary_allows_update_after_failed_change_and_fresh_read() {
    let mut active = active_request();
    active.executed_tool_records.push(ToolLoopExecutionRecord {
        signature: "apply_patch:target=fixture-target.txt:operation=update:payload_hash=bad"
            .to_owned(),
        observation: ToolLoopObservation {
            tool_name: "apply_patch".to_owned(),
            target_raw: Some("fixture-target.txt".to_owned()),
            status: "failed",
            error_kind: Some("invalid_arguments"),
            truncated: false,
            source_truncated: false,
            preview_truncated: false,
            has_next_range_hint: false,
            preview: vec!["update hunk did not match".to_owned()],
        },
        observation_message: message(
            LlmMessageRole::System,
            LlmMessageVisibility::Internal,
            "<AHREUM_TOOL_OBSERVATION>failed change</AHREUM_TOOL_OBSERVATION>",
        ),
    });
    active.executed_tool_records.push(ToolLoopExecutionRecord {
        signature: r#"read_file:{"path":"fixture-target.txt"}"#.to_owned(),
        observation: ToolLoopObservation {
            tool_name: "read_file".to_owned(),
            target_raw: Some("fixture-target.txt".to_owned()),
            status: "succeeded",
            error_kind: None,
            truncated: false,
            source_truncated: false,
            preview_truncated: false,
            has_next_range_hint: false,
            preview: vec!["alpha".to_owned()],
        },
        observation_message: message(
            LlmMessageRole::System,
            LlmMessageVisibility::Internal,
            "<AHREUM_TOOL_OBSERVATION>fresh read</AHREUM_TOOL_OBSERVATION>",
        ),
    });
    let decision = RuntimeDecision::ApprovalNeeded {
        activity: Activity::Change,
        tool_name: "apply_patch".to_owned(),
        arguments: vec![text_arg("payload_id", "patch_001")],
        change_preview: Some(ChangePreview {
            payload_id: "patch_001".to_owned(),
            target_path: "fixture-target.txt".to_owned(),
            operation: PatchOperation::Update,
            additions: 1,
            deletions: 1,
            payload_body:
                "*** Begin Patch\n*** Update File: fixture-target.txt\n@@\n-alpha\n+beta\n*** End Patch"
                    .to_owned(),
        }),
        summary: "retry update".to_owned(),
    };

    let decision = apply_change_evidence_boundary(&active, decision);

    assert!(matches!(decision, RuntimeDecision::ApprovalNeeded { .. }));
}

#[test]
fn duplicate_approval_final_decision_uses_existing_command_observation() {
    let mut active = active_request();
    let signature = r#"run_command:{"argv":["tool","verify"]}"#.to_owned();
    active.executed_tool_records.push(ToolLoopExecutionRecord {
        signature: signature.clone(),
        observation: ToolLoopObservation {
            tool_name: "run_command".to_owned(),
            target_raw: Some("tool verify".to_owned()),
            status: "succeeded",
            error_kind: None,
            truncated: false,
            source_truncated: false,
            preview_truncated: false,
            has_next_range_hint: false,
            preview: vec!["verification succeeded".to_owned()],
        },
        observation_message: message(
            LlmMessageRole::System,
            LlmMessageVisibility::Internal,
            "command",
        ),
    });

    let decision = duplicate_approval_final_decision(&active, &signature)
        .expect("duplicate approval should finalize");

    let RuntimeDecision::Answer {
        summary,
        payload_body,
    } = decision
    else {
        panic!("duplicate approval should become answer");
    };
    assert!(summary.contains("추가 승인 없이"));
    assert!(payload_body
        .expect("payload")
        .contains("verification succeeded"));
}

#[test]
fn duplicate_approval_final_decision_blocks_failed_observation() {
    let mut active = active_request();
    let signature = r#"apply_patch:{"patch":"*** Begin Patch...Add File"}"#.to_owned();
    active.executed_tool_records.push(ToolLoopExecutionRecord {
        signature: signature.clone(),
        observation: ToolLoopObservation {
            tool_name: "apply_patch".to_owned(),
            target_raw: Some("fixture-target.txt".to_owned()),
            status: "failed",
            error_kind: Some("target_already_exists"),
            truncated: false,
            source_truncated: false,
            preview_truncated: false,
            has_next_range_hint: false,
            preview: vec!["add patch target already exists".to_owned()],
        },
        observation_message: message(
            LlmMessageRole::System,
            LlmMessageVisibility::Internal,
            "failed change",
        ),
    });

    let decision = duplicate_approval_final_decision(&active, &signature)
        .expect("duplicate failed approval should be blocked");

    let RuntimeDecision::Blocked { message, reason } = decision else {
        panic!("duplicate failed approval should not become answer");
    };
    assert_eq!(reason, "duplicate_approval_failed_observation");
    assert!(message.contains("different_tool_candidate"));
    assert!(message.contains("target_already_exists"));
}

#[test]
fn duplicate_approval_repeat_redirect_reports_failed_duplicate() {
    let mut active = active_request();
    let signature = "apply_patch:target=fixture.txt:operation=update:payload_hash=1".to_owned();
    active.executed_tool_records.push(ToolLoopExecutionRecord {
        signature: signature.clone(),
        observation: ToolLoopObservation {
            tool_name: "apply_patch".to_owned(),
            target_raw: Some("fixture.txt".to_owned()),
            status: "failed",
            error_kind: Some("invalid_arguments"),
            truncated: false,
            source_truncated: false,
            preview_truncated: false,
            has_next_range_hint: false,
            preview: vec!["attempted_old_lines:".to_owned()],
        },
        observation_message: message(
            LlmMessageRole::System,
            LlmMessageVisibility::Internal,
            "failed change",
        ),
    });

    let (redirect, record) = duplicate_approval_repeat_redirect(&active, &signature)
        .expect("duplicate failed approval should redirect");

    assert_eq!(redirect, ToolLoopRepeatRedirect::FailedDuplicate);
    assert_eq!(record.observation.error_kind, Some("invalid_arguments"));
}

#[test]
fn duplicate_approval_repeat_redirect_reports_settled_duplicate() {
    let mut active = active_request();
    let signature = "apply_patch:target=fixture.txt:operation=update:payload_hash=2".to_owned();
    active.executed_tool_records.push(ToolLoopExecutionRecord {
        signature: signature.clone(),
        observation: ToolLoopObservation {
            tool_name: "apply_patch".to_owned(),
            target_raw: Some("fixture.txt".to_owned()),
            status: "succeeded",
            error_kind: None,
            truncated: false,
            source_truncated: false,
            preview_truncated: false,
            has_next_range_hint: false,
            preview: vec!["updated fixture.txt".to_owned()],
        },
        observation_message: message(
            LlmMessageRole::System,
            LlmMessageVisibility::Internal,
            "successful change",
        ),
    });

    let (redirect, record) = duplicate_approval_repeat_redirect(&active, &signature)
        .expect("duplicate successful approval should redirect before finalizing");

    assert_eq!(redirect, ToolLoopRepeatRedirect::SettledDuplicate);
    assert_eq!(record.observation.status, "succeeded");
}

#[test]
fn repeated_completed_add_change_final_decision_uses_existing_observation() {
    let mut active = active_request();
    active.executed_tool_records.push(ToolLoopExecutionRecord {
        signature: r#"apply_patch:{"payload_id":"patch_001"}"#.to_owned(),
        observation: ToolLoopObservation {
            tool_name: "apply_patch".to_owned(),
            target_raw: Some(".ahreumcode/check.md".to_owned()),
            status: "succeeded",
            error_kind: None,
            truncated: false,
            source_truncated: false,
            preview_truncated: false,
            has_next_range_hint: false,
            preview: vec!["apply_patch ok: .ahreumcode/check.md".to_owned()],
        },
        observation_message: message(
            LlmMessageRole::System,
            LlmMessageVisibility::Internal,
            "change",
        ),
    });
    let decision = RuntimeDecision::ApprovalNeeded {
        activity: Activity::Change,
        tool_name: "apply_patch".to_owned(),
        arguments: vec![text_arg("payload_id", "patch_002")],
        change_preview: Some(ChangePreview {
            payload_id: "patch_002".to_owned(),
            target_path: ".ahreumcode/check.md".to_owned(),
            operation: PatchOperation::Add,
            additions: 1,
            deletions: 0,
            payload_body:
                "*** Begin Patch\n*** Add File: .ahreumcode/check.md\n+again\n*** End Patch\n"
                    .to_owned(),
        }),
        summary: "repeat add".to_owned(),
    };

    let final_decision = repeated_completed_add_change_final_decision(&active, &decision)
        .expect("same target Add File after success should finalize");

    let RuntimeDecision::Answer {
        summary,
        payload_body,
    } = final_decision
    else {
        panic!("repeated add should become answer");
    };
    assert!(summary.contains("파일 생성이 완료되었습니다"));
    assert!(summary.contains(".ahreumcode/check.md"));
    assert!(payload_body
        .expect("payload")
        .contains("apply_patch ok: .ahreumcode/check.md"));
}

#[test]
fn repeated_completed_add_change_final_decision_allows_update_on_same_target() {
    let mut active = active_request();
    active.executed_tool_records.push(ToolLoopExecutionRecord {
        signature: r#"apply_patch:{"payload_id":"patch_001"}"#.to_owned(),
        observation: ToolLoopObservation {
            tool_name: "apply_patch".to_owned(),
            target_raw: Some(".ahreumcode/check.md".to_owned()),
            status: "succeeded",
            error_kind: None,
            truncated: false,
            source_truncated: false,
            preview_truncated: false,
            has_next_range_hint: false,
            preview: vec!["apply_patch ok: .ahreumcode/check.md".to_owned()],
        },
        observation_message: message(
            LlmMessageRole::System,
            LlmMessageVisibility::Internal,
            "change",
        ),
    });
    let decision = RuntimeDecision::ApprovalNeeded {
        activity: Activity::Change,
        tool_name: "apply_patch".to_owned(),
        arguments: vec![text_arg("payload_id", "patch_002")],
        change_preview: Some(ChangePreview {
            payload_id: "patch_002".to_owned(),
            target_path: ".ahreumcode/check.md".to_owned(),
            operation: PatchOperation::Update,
            additions: 1,
            deletions: 1,
            payload_body: "*** Begin Patch\n*** Update File: .ahreumcode/check.md\n@@\n-old\n+new\n*** End Patch\n"
                .to_owned(),
        }),
        summary: "follow-up update".to_owned(),
    };

    assert!(repeated_completed_add_change_final_decision(&active, &decision).is_none());
}

#[test]
fn active_request_classifies_failed_and_truncated_duplicates_separately() {
    let mut active = active_request();
    let failed_signature = r#"read_file:{"path":"missing.rs"}"#.to_owned();
    active.executed_tool_records.push(ToolLoopExecutionRecord {
        signature: failed_signature.clone(),
        observation: loop_observation(Some("missing.rs"), Some("path_not_found"), false, false),
        observation_message: message(
            LlmMessageRole::System,
            LlmMessageVisibility::Internal,
            "failed observation",
        ),
    });

    let truncated_signature = r#"read_file:{"path":"large.rs"}"#.to_owned();
    active.executed_tool_records.push(ToolLoopExecutionRecord {
        signature: truncated_signature.clone(),
        observation: loop_observation(Some("large.rs"), None, true, true),
        observation_message: message(
            LlmMessageRole::System,
            LlmMessageVisibility::Internal,
            "truncated observation",
        ),
    });

    let (redirect, _) = active
        .repeat_redirect_for_tool_candidate(&failed_signature, "read_file", Some("missing.rs"))
        .expect("failed duplicate should redirect without execution");
    assert_eq!(redirect, ToolLoopRepeatRedirect::FailedDuplicate);
    let (redirect, _) = active
        .repeat_redirect_for_tool_candidate(
            &truncated_signature,
            "read_file",
            Some("large.rs"),
        )
        .expect("truncated duplicate should redirect");
    assert_eq!(redirect, ToolLoopRepeatRedirect::TruncatedContinuation);
}

#[test]
fn active_request_redirects_truncated_duplicate_without_marking_it_settled() {
    let mut active = active_request();
    let signature =
        r#"read_file:{"max_lines":120,"path":"src/tool/path.rs","start_line":1}"#.to_owned();
    active.executed_tool_records.push(ToolLoopExecutionRecord {
        signature: signature.clone(),
        observation: loop_observation(Some("src/tool/path.rs"), None, true, true),
        observation_message: message(
            LlmMessageRole::System,
            LlmMessageVisibility::Internal,
            "truncated observation with next_range_hint",
        ),
    });

    let (redirect, _) = active
        .repeat_redirect_for_tool_candidate(&signature, "read_file", Some("src/tool/path.rs"))
        .expect("truncated duplicate should redirect");
    assert_eq!(redirect, ToolLoopRepeatRedirect::TruncatedContinuation);
    assert_eq!(redirect.as_str(), "truncated_duplicate_tool_candidate");
}

#[test]
fn active_request_redirects_failed_duplicate_without_executing_again() {
    let mut active = active_request();
    let signature = r#"read_file:{"path":"missing.rs"}"#.to_owned();
    active.executed_tool_records.push(ToolLoopExecutionRecord {
        signature: signature.clone(),
        observation: loop_observation(Some("missing.rs"), Some("path_not_found"), false, false),
        observation_message: message(
            LlmMessageRole::System,
            LlmMessageVisibility::Internal,
            "failed observation",
        ),
    });

    let (redirect, _) = active
        .repeat_redirect_for_tool_candidate(&signature, "read_file", Some("missing.rs"))
        .expect("failed duplicate should redirect");
    assert_eq!(redirect, ToolLoopRepeatRedirect::FailedDuplicate);
    assert_eq!(redirect.as_str(), "failed_duplicate_tool_candidate");
}

#[test]
fn active_request_redirects_same_failed_target_even_when_bounds_change() {
    let mut active = active_request();
    active.executed_tool_records.push(ToolLoopExecutionRecord {
        signature: r#"read_file:{"max_lines":120,"path":"missing.rs","start_line":1}"#
            .to_owned(),
        observation: loop_observation(Some("missing.rs"), Some("path_not_found"), false, false),
        observation_message: message(
            LlmMessageRole::System,
            LlmMessageVisibility::Internal,
            "failed observation",
        ),
    });

    let (redirect, _) = active
        .repeat_redirect_for_tool_candidate(
            r#"read_file:{"max_lines":20,"path":"missing.rs","start_line":1}"#,
            "read_file",
            Some("missing.rs"),
        )
        .expect("same target and target-invariant failure should redirect");

    assert_eq!(redirect, ToolLoopRepeatRedirect::FailedDuplicate);
}

#[test]
fn tool_repeat_answer_request_uses_existing_observation_and_blocks_duplicate() {
    let schema = message(
        LlmMessageRole::System,
        LlmMessageVisibility::Internal,
        "schema",
    );
    let user = message(
        LlmMessageRole::User,
        LlmMessageVisibility::UserVisible,
        "user goal",
    );
    let observation = message(
        LlmMessageRole::System,
        LlmMessageVisibility::Internal,
        "<AHREUM_TOOL_OBSERVATION>existing evidence</AHREUM_TOOL_OBSERVATION>",
    );
    let signature = r#"search_text:{"path":"src","query":"RuntimeDecision"}"#.to_owned();
    let record = ToolLoopExecutionRecord {
        signature: signature.clone(),
        observation: loop_observation(Some("src"), None, false, false),
        observation_message: observation,
    };
    let executed = vec![signature.clone()];
    let executed_records = vec![record.clone()];

    let messages = tool_repeat_answer_request_messages(
        &schema,
        &user,
        &record,
        &executed_records,
        &executed,
        "turn-2",
        &contract(),
    );

    assert_eq!(messages.len(), 4);
    assert_eq!(messages[0].content, "schema");
    assert_eq!(messages[1].content, "user goal");
    assert!(messages[2].content.contains("existing evidence"));
    assert_eq!(messages[3].turn_id, "turn-2");
    assert!(messages[3]
        .content
        .contains("already been executed successfully"));
    assert!(messages[3].content.contains(&signature));
    assert!(messages[3]
        .content
        .contains("Do not call the duplicate tool candidate again"));
    assert!(messages[3]
        .content
        .contains("Return exactly one answer response"));
    assert!(messages[3]
        .content
        .contains("duplicate successful observation is read_file"));
    assert!(messages[3].content.contains("<AHREUM_TOOL_LOOP_STATE>"));
}

#[test]
fn tool_repeat_answer_request_keeps_recent_failed_observation_context() {
    let schema = message(
        LlmMessageRole::System,
        LlmMessageVisibility::Internal,
        "schema",
    );
    let user = message(
        LlmMessageRole::User,
        LlmMessageVisibility::UserVisible,
        "user goal",
    );
    let failed_record = ToolLoopExecutionRecord {
        signature: "apply_patch:target=file.md:operation=update:payload_hash=bad".to_owned(),
        observation: loop_observation(Some("file.md"), Some("invalid_arguments"), false, false),
        observation_message: message(
            LlmMessageRole::System,
            LlmMessageVisibility::Internal,
            "<AHREUM_TOOL_OBSERVATION>failed change diagnostic</AHREUM_TOOL_OBSERVATION>",
        ),
    };
    let read_signature =
        r#"read_file:{"max_lines":120,"path":"file.md","start_line":1}"#.to_owned();
    let read_record = ToolLoopExecutionRecord {
        signature: read_signature.clone(),
        observation: loop_observation(Some("file.md"), None, false, false),
        observation_message: message(
            LlmMessageRole::System,
            LlmMessageVisibility::Internal,
            "<AHREUM_TOOL_OBSERVATION>current file contents</AHREUM_TOOL_OBSERVATION>",
        ),
    };
    let executed_records = vec![failed_record, read_record.clone()];
    let executed = executed_records
        .iter()
        .map(|record| record.signature.clone())
        .collect::<Vec<_>>();

    let messages = tool_repeat_answer_request_messages(
        &schema,
        &user,
        &read_record,
        &executed_records,
        &executed,
        "turn-2",
        &contract(),
    );

    assert!(messages
        .iter()
        .any(|message| message.content.contains("failed change diagnostic")));
    assert!(messages
        .iter()
        .any(|message| message.content.contains("current file contents")));
}

#[test]
fn tool_repeat_continuation_request_requires_next_range_or_different_candidate() {
    let schema = message(
        LlmMessageRole::System,
        LlmMessageVisibility::Internal,
        "schema",
    );
    let user = message(
        LlmMessageRole::User,
        LlmMessageVisibility::UserVisible,
        "user goal",
    );
    let signature =
        r#"read_file:{"max_lines":120,"path":"src/tool/path.rs","start_line":1}"#.to_owned();
    let record = ToolLoopExecutionRecord {
        signature: signature.clone(),
        observation: loop_observation(Some("src/tool/path.rs"), None, true, true),
        observation_message: message(
            LlmMessageRole::System,
            LlmMessageVisibility::Internal,
            "<AHREUM_TOOL_OBSERVATION>next_range_hint: start_line=121</AHREUM_TOOL_OBSERVATION>",
        ),
    };
    let executed = vec![signature.clone()];
    let executed_records = vec![record.clone()];

    let messages = tool_repeat_continuation_request_messages(
        &schema,
        &user,
        &record,
        &executed_records,
        &executed,
        "turn-2",
        &contract(),
    );

    assert_eq!(messages.len(), 4);
    assert_eq!(messages[0].content, "schema");
    assert_eq!(messages[1].content, "user goal");
    assert!(messages[2].content.contains("next_range_hint"));
    assert!(messages[3]
        .content
        .contains("previous observation was truncated"));
    assert!(messages[3].content.contains(&signature));
    assert!(messages[3].content.contains(
        "Repeating the same tool_name and arguments cannot provide new workspace evidence"
    ));
    assert!(messages[3]
        .content
        .contains("request read_file with that next range"));
    assert!(messages[3].content.contains("narrower path or search_text"));
    assert!(messages[3].content.contains("different tool candidate"));
}

#[test]
fn tool_repeat_failure_request_blocks_failed_duplicate() {
    let schema = message(
        LlmMessageRole::System,
        LlmMessageVisibility::Internal,
        "schema",
    );
    let user = message(
        LlmMessageRole::User,
        LlmMessageVisibility::UserVisible,
        "user goal",
    );
    let signature = r#"read_file:{"path":"missing.rs"}"#.to_owned();
    let record = ToolLoopExecutionRecord {
        signature: signature.clone(),
        observation: loop_observation(Some("missing.rs"), Some("path_not_found"), false, false),
        observation_message: message(
            LlmMessageRole::System,
            LlmMessageVisibility::Internal,
            "<AHREUM_TOOL_OBSERVATION>path_not_found</AHREUM_TOOL_OBSERVATION>",
        ),
    };
    let executed = vec![signature.clone()];
    let executed_records = vec![record.clone()];

    let messages = tool_repeat_failure_request_messages(
        &schema,
        &user,
        &record,
        &executed_records,
        &executed,
        "turn-2",
        &contract(),
    );

    assert_eq!(messages.len(), 4);
    assert_eq!(messages[0].content, "schema");
    assert_eq!(messages[1].content, "user goal");
    assert!(messages[2].content.contains("path_not_found"));
    assert!(messages[3].content.contains("previous observation failed"));
    assert!(messages[3]
        .content
        .contains("previous_failure_kind: path_not_found"));
    assert!(messages[3].content.contains(&signature));
    assert!(messages[3]
        .content
        .contains("Do not call the duplicate failed tool candidate again"));
    assert!(messages[3]
        .content
        .contains("Return exactly one blocked response"));
}

#[test]
fn diagnoses_same_tool_signature_repeat_limit() {
    let diagnosis = diagnose_tool_loop_limit("max_same_tool_repeats", None);

    assert_eq!(diagnosis, ToolLoopLimitDiagnosis::SameToolSignatureRepeat);
    assert_eq!(diagnosis.as_str(), "same_tool_signature_repeat");
}

#[test]
fn diagnoses_truncated_observation_continuation_limit() {
    let observation = loop_observation(Some("src/main.rs"), None, true, true);

    let diagnosis = diagnose_tool_loop_limit("max_tool_calls", Some(&observation));

    assert_eq!(
        diagnosis,
        ToolLoopLimitDiagnosis::TruncatedObservationContinuation
    );
}

#[test]
fn diagnoses_path_failure_recovery_limit() {
    let observation =
        loop_observation(Some("src/missing.rs"), Some("path_not_found"), false, false);

    let diagnosis = diagnose_tool_loop_limit("max_tool_calls", Some(&observation));

    assert_eq!(diagnosis, ToolLoopLimitDiagnosis::PathFailureRecovery);
}

fn loop_observation(
    target_raw: Option<&str>,
    error_kind: Option<&'static str>,
    truncated: bool,
    has_next_range_hint: bool,
) -> ToolLoopObservation {
    ToolLoopObservation {
        tool_name: "read_file".to_owned(),
        target_raw: target_raw.map(str::to_owned),
        status: if error_kind.is_some() { "failed" } else { "succeeded" },
        error_kind,
        truncated,
        source_truncated: truncated,
        preview_truncated: false,
        has_next_range_hint,
        preview: Vec::new(),
    }
}

fn active_request() -> ActivePlainRequest {
    ActivePlainRequest::new(
        "run-0001".to_owned(),
        "turn-1".to_owned(),
        "prompt".to_owned(),
        message(LlmMessageRole::System, LlmMessageVisibility::Internal, "schema"),
        message(LlmMessageRole::User, LlmMessageVisibility::UserVisible, "user"),
        MessageHistory::new("run-0001"),
        0,
    )
}
