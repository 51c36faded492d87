use ahreumcode::persona::{
    persona_runtime_events, persona_turn_from_payload, runtime_event_catalog_is_complete,
    runtime_event_route, PersonaBuffer, PersonaMessage, PersonaRuntimeEvent,
    PersonaRuntimeExclusion, PersonaRuntimeRoute, PersonaSpeaker, PersonaTurnError,
    MAX_PERSONA_MESSAGES,
};

#[test]
fn catalog_keeps_runtime_events_left_log_only() {
    for event in [
        PersonaRuntimeEvent::LlmRequestStarted,
        PersonaRuntimeEvent::RuntimeResponseParsed,
        PersonaRuntimeEvent::RepairRequestStarted,
        PersonaRuntimeEvent::ToolExecutionSucceeded,
        PersonaRuntimeEvent::ToolPermissionApprovalNeeded,
        PersonaRuntimeEvent::SchemaValidationFailed,
    ] {
        assert_eq!(
            runtime_event_route(event),
            PersonaRuntimeRoute::LeftLogOnly(PersonaRuntimeExclusion::RuntimeEvent)
        );
    }
}

#[test]
fn catalog_keeps_raw_or_user_facing_bodies_out_of_persona() {
    assert_eq!(
        runtime_event_route(PersonaRuntimeEvent::RawResponseReceived),
        PersonaRuntimeRoute::LeftLogOnly(PersonaRuntimeExclusion::RawModelText)
    );
    assert_eq!(
        runtime_event_route(PersonaRuntimeEvent::MessageRecorded),
        PersonaRuntimeRoute::LeftLogOnly(PersonaRuntimeExclusion::InternalHistory)
    );
    assert_eq!(
        runtime_event_route(PersonaRuntimeEvent::ToolObservationAttached),
        PersonaRuntimeRoute::LeftLogOnly(PersonaRuntimeExclusion::ToolOutputBody)
    );
    assert_eq!(
        runtime_event_route(PersonaRuntimeEvent::ToolWorkspaceSummaryRendered),
        PersonaRuntimeRoute::LeftLogOnly(PersonaRuntimeExclusion::ToolOutputBody)
    );
    assert_eq!(
        runtime_event_route(PersonaRuntimeEvent::FinalAnswerRecorded),
        PersonaRuntimeRoute::LeftLogOnly(PersonaRuntimeExclusion::FinalAnswer)
    );
    assert_eq!(
        runtime_event_route(PersonaRuntimeEvent::WorkspaceSystemNotice),
        PersonaRuntimeRoute::LeftLogOnly(PersonaRuntimeExclusion::SystemNotice)
    );
}

#[test]
fn catalog_event_names_are_stable_for_later_log_mapping() {
    assert_eq!(
        PersonaRuntimeEvent::ToolLoopDuplicateRedirected.as_str(),
        "tool_loop_duplicate_redirected"
    );
    assert_eq!(PersonaRuntimeEvent::RepairLimitReached.as_str(), "repair_limit_reached");
    assert_eq!(PersonaRuntimeEvent::FinalAnswerRecorded.as_str(), "final_answer_recorded");
}

#[test]
fn catalog_has_a_route_for_every_declared_runtime_event() {
    for event in persona_runtime_events() {
        let route = runtime_event_route(event);
        assert_eq!(route, runtime_event_route(event));
    }
}

#[test]
fn catalog_is_complete_and_lists_every_event_once() {
    assert!(runtime_event_catalog_is_complete());
    let events = persona_runtime_events();
    assert_eq!(events.len(), 26);
    for (index, event) in events.iter().enumerate() {
        assert!(!events.iter().skip(index + 1).any(|other| other == event));
        assert!(!event.as_str().is_empty());
    }
}

#[test]
fn buffer_coalesces_consecutive_duplicate_messages() {
    let mut buffer = PersonaBuffer::default();

    buffer.push_message(PersonaMessage::from_speaker(PersonaSpeaker::Implementation, "body-a"));
    buffer.push_message(PersonaMessage::from_speaker(PersonaSpeaker::Implementation, "body-a"));

    assert_eq!(buffer.messages().len(), 1);
    assert_eq!(buffer.messages()[0].repeat_count, 2);
    assert!(buffer.take_render_event().is_some());
}

#[test]
fn buffer_keeps_latest_messages_with_fixed_retention_limit() {
    let mut buffer = PersonaBuffer::default();

    for index in 0..(MAX_PERSONA_MESSAGES + 5) {
        buffer.push_message(PersonaMessage::from_speaker(
            PersonaSpeaker::Verification,
            &format!("message {index}"),
        ));
    }

    assert_eq!(buffer.messages().len(), MAX_PERSONA_MESSAGES);
    assert_eq!(buffer.messages()[0].body, "message 5");
}

#[test]
fn buffer_does_not_coalesce_other_speaker_or_body() {
    let mut buffer = PersonaBuffer::new();
    buffer.push_message(PersonaMessage::from_speaker(PersonaSpeaker::Lead, "body-a"));
    buffer.push_message(PersonaMessage::from_speaker(PersonaSpeaker::Planning, "body-a"));
    buffer.push_message(PersonaMessage::from_speaker(PersonaSpeaker::Planning, "body-b"));
    assert_eq!(buffer.message_count(), 3);
    assert!(buffer.messages().iter().all(|m| m.repeat_count == 1));
}

#[test]
fn buffer_scroll_is_clamped_to_three_lines_per_message() {
    let mut buffer = PersonaBuffer::new();
    buffer.scroll(5);
    assert_eq!(buffer.scroll_offset(), 0);
    assert!(buffer.take_render_event().is_none());
    buffer.push_message(PersonaMessage::from_speaker(PersonaSpeaker::Lead, "a"));
    buffer.push_message(PersonaMessage::from_speaker(PersonaSpeaker::Lead, "b"));
    buffer.take_render_event();
    buffer.scroll(100);
    assert_eq!(buffer.scroll_offset(), 5);
    assert!(buffer.take_render_event().is_some());
    buffer.scroll(-2);
    assert_eq!(buffer.scroll_offset(), 3);
    buffer.push_message(PersonaMessage::from_speaker(PersonaSpeaker::Lead, "c"));
    assert_eq!(buffer.scroll_offset(), 0);
}

#[test]
fn message_time_label_is_a_clock_time() {
    let message = PersonaMessage::from_speaker(PersonaSpeaker::Lead, "body");
    let label = message.time_label.as_bytes();
    assert_eq!(label.len(), 5);
    assert_eq!(label[2], b':');
    let hour = (label[0] - b'0') * 10 + (label[1] - b'0');
    let minute = (label[3] - b'0') * 10 + (label[4] - b'0');
    assert!(hour < 24 && minute < 60);
}

#[test]
fn speaker_labels_and_ids() {
    assert_eq!(PersonaSpeaker::Lead.name(), "팀장");
    assert_eq!(PersonaSpeaker::Lead.role_label(), None);
    assert_eq!(PersonaSpeaker::Planning.role_label(), Some("기획/설계"));
    assert_eq!(PersonaSpeaker::from_id("documentation"), Some(PersonaSpeaker::Documentation));
    assert_eq!(PersonaSpeaker::from_id(" lead"), None);
}

#[test]
fn persona_turn_payload_accepts_only_the_expected_speaker() {
    let message = persona_turn_from_payload(" implementation ", " body-a ", PersonaSpeaker::Implementation)
        .expect("single speaker turn should parse");
    assert_eq!(message.speaker, PersonaSpeaker::Implementation);
    assert_eq!(message.body, "body-a");

    assert_eq!(
        persona_turn_from_payload("planning", "body-a", PersonaSpeaker::Lead),
        Err(PersonaTurnError::UnexpectedSpeaker {
            expected: PersonaSpeaker::Lead,
            actual: PersonaSpeaker::Planning,
        })
    );
    assert_eq!(
        persona_turn_from_payload("backend", "body-a", PersonaSpeaker::Lead),
        Err(PersonaTurnError::UnknownSpeaker("backend".to_owned()))
    );
    assert_eq!(
        persona_turn_from_payload("lead", "   ", PersonaSpeaker::Lead),
        Err(PersonaTurnError::EmptyBody)
    );
    let long = "가".repeat(181);
    assert_eq!(
        persona_turn_from_payload("lead", &long, PersonaSpeaker::Lead),
        Err(PersonaTurnError::BodyTooLong)
    );
    let limit = "가".repeat(180);
    assert!(persona_turn_from_payload("lead", &limit, PersonaSpeaker::Lead).is_ok());
}

#[test]
fn persona_turn_accepts_only_one_expected_speaker_message() {
    let message = persona_turn_from_payload("implementation", "body-a", PersonaSpeaker::Implementation)
        .expect("single speaker turn should parse");

    assert_eq!(message.speaker, PersonaSpeaker::Implementation);
    assert_eq!(message.body, "body-a");
}

#[test]
fn persona_turn_rejects_unexpected_speaker() {
    let error = persona_turn_from_payload("planning", "body-a", PersonaSpeaker::Lead)
        .expect_err("speaker must match the requested turn");

    assert_eq!(
        error,
        PersonaTurnError::UnexpectedSpeaker { expected: PersonaSpeaker::Lead, actual: PersonaSpeaker::Planning }
    );
}
