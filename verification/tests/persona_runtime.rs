use ahreumcode::persona::{PersonaMessage, PersonaSpeaker};
use ahreumcode::persona_prompt::fixed_persona_role_profiles;
use ahreumcode::persona_runtime::{
    parse_persona_turn_result_for_turn, persona_turn_outcome_from_payload, PersonaPeerMessageDraft,
    PersonaPeerMessagePayload, PersonaRuntime, PersonaRuntimeMode, PersonaRuntimeStage,
    PersonaSessionStatus, PersonaTeamTaskStatus, PersonaTurn, PersonaTurnKind, PersonaTurnOutcome,
    PersonaTurnOutcomeError, PersonaTurnOutcomePayload, PersonaTurnResult, persona_reply_result,
};

fn message(speaker: PersonaSpeaker, body: &str) -> PersonaMessage {
    PersonaMessage::from_speaker(speaker, body)
}

fn outcome_with_peers(
    speaker: PersonaSpeaker,
    body: &str,
    peers: &[(PersonaSpeaker, &str)],
) -> PersonaTurnResult {
    PersonaTurnResult::new(
        PersonaTurnOutcome::Spoken(message(speaker, body)),
        peers
            .iter()
            .map(|(to, body)| PersonaPeerMessageDraft { to: *to, body: (*body).to_owned() })
            .collect(),
    )
}

fn outcome(o: PersonaTurnOutcome) -> PersonaTurnResult {
    PersonaTurnResult::from_outcome(o)
}

fn payload(speaker: &str, decision: &str, body: &str, peers: &[(&str, &str)]) -> PersonaTurnOutcomePayload {
    PersonaTurnOutcomePayload {
        speaker: speaker.to_owned(),
        decision: decision.to_owned(),
        body: body.to_owned(),
        peer_messages: peers
            .iter()
            .map(|(to, body)| PersonaPeerMessagePayload { to: (*to).to_owned(), body: (*body).to_owned() })
            .collect(),
    }
}

#[test]
fn runtime_starts_with_fixed_independent_sessions() {
    let runtime = PersonaRuntime::new();

    let speakers = runtime.sessions().iter().map(|session| session.speaker).collect::<Vec<_>>();

    assert_eq!(
        speakers,
        vec![
            PersonaSpeaker::Lead,
            PersonaSpeaker::Planning,
            PersonaSpeaker::Implementation,
            PersonaSpeaker::Verification,
            PersonaSpeaker::Documentation,
        ]
    );
    assert!(runtime.sessions().iter().all(|session| session.status == PersonaSessionStatus::Idle));
}

#[test]
fn role_profiles_cover_fixed_team_with_distinct_missions() {
    let profiles = fixed_persona_role_profiles();
    let speakers = profiles.iter().map(|profile| profile.speaker).collect::<Vec<_>>();
    let speaker_ids = profiles.iter().map(|profile| profile.speaker_id).collect::<Vec<_>>();
    let missions = profiles.iter().map(|profile| profile.mission).collect::<Vec<_>>();

    assert_eq!(
        speakers,
        vec![
            PersonaSpeaker::Lead,
            PersonaSpeaker::Planning,
            PersonaSpeaker::Implementation,
            PersonaSpeaker::Verification,
            PersonaSpeaker::Documentation,
        ]
    );
    assert_eq!(speaker_ids, vec!["lead", "planning", "implementation", "verification", "documentation"]);
    assert_eq!(missions.len(), 5);
    for (index, mission) in missions.iter().enumerate() {
        assert!(!mission.is_empty());
        assert!(!missions.iter().skip(index + 1).any(|other| other == mission));
    }
    assert!(profiles.iter().all(|profile| !profile.speak_when.is_empty()));
    assert!(profiles.iter().all(|profile| !profile.pass_when.is_empty()));
}

#[test]
fn lead_turn_prompt_requires_visible_single_speaker_message() {
    let mut runtime = PersonaRuntime::new();
    let turn = runtime.start_kickoff_for_mode(PersonaRuntimeMode::Full, "task-a").expect("kickoff turn");
    let prompt = runtime.build_turn_prompt(&turn, &[]);

    assert_eq!(prompt.turn_id, turn.id);
    assert_eq!(prompt.speaker, PersonaSpeaker::Lead);
    assert_eq!(prompt.output_contract.speaker, PersonaSpeaker::Lead);
    assert!(!prompt.output_contract.allow_pass);
    assert_eq!(prompt.output_contract.speaker_id(), "lead");
    assert!(prompt.system_prompt.contains(r#""decision":"speak""#));
    assert!(prompt.system_prompt.contains("not pass"));
    assert!(prompt.system_prompt.contains("do not return decision=\"pass\""));
    assert!(prompt.system_prompt.contains(r#""speaker":"lead""#));
    assert!(prompt.system_prompt.contains(r#""to":"지윤""#));
    assert!(prompt.system_prompt.contains("peer_messages"));
    assert!(prompt.system_prompt.contains(
        "Allowed peer message recipients for peer_messages.to: 팀장, 지윤(기획/설계), 민호(구현), 서연(검증), 하준(문서)"
    ));
    assert!(!prompt.system_prompt.contains("Allowed peer message recipients: lead"));
    assert!(prompt.system_prompt.contains("under 140 Korean characters"));
    assert!(prompt.system_prompt.contains("The main runtime owns tools, evidence"));
    assert!(prompt.system_prompt.contains("The team task list is the persona collaboration state"));
    assert!(prompt.system_prompt.contains("advisory team tasks"));
    assert!(prompt.system_prompt.contains("Do not mention tool names"));
    assert!(prompt.system_prompt.contains("Do not expose internal speaker ids"));
    assert!(prompt.system_prompt.contains("Do not return a messages array"));
}

#[test]
fn member_turn_prompt_allows_pass_without_visible_message() {
    let mut runtime = PersonaRuntime::new();
    let lead = runtime.start_kickoff_for_mode(PersonaRuntimeMode::Full, "task-a").expect("kickoff turn");
    assert_eq!(runtime.pop_next_turn(), Some(lead.clone()));
    runtime.record_turn_result(
        &lead,
        outcome_with_peers(PersonaSpeaker::Lead, "body-a", &[(PersonaSpeaker::Planning, "peer-a")]),
    );
    let member = runtime.pop_next_turn().expect("member turn");
    let prompt = runtime.build_turn_prompt(&member, &[]);

    assert_eq!(member.kind, PersonaTurnKind::MemberResponse);
    assert!(prompt.output_contract.allow_pass);
    assert!(prompt.system_prompt.contains(r#""decision":"speak""#));
    assert!(prompt.system_prompt.contains(r#""decision":"pass""#));
    assert!(prompt.system_prompt.contains("return pass"));
}

#[test]
fn required_lead_pass_does_not_schedule_member_turns() {
    let mut runtime = PersonaRuntime::new();
    let lead = runtime.start_kickoff_for_mode(PersonaRuntimeMode::Full, "task-a").expect("lead turn");
    assert_eq!(runtime.pop_next_turn(), Some(lead.clone()));

    runtime.record_turn_result(&lead, outcome(PersonaTurnOutcome::Passed { speaker: PersonaSpeaker::Lead }));

    assert!(runtime.pop_next_turn().is_none());
}

#[test]
fn turn_parser_rejects_pass_for_required_visible_turn() {
    let mut runtime = PersonaRuntime::new();
    let lead = runtime.start_kickoff_for_mode(PersonaRuntimeMode::Full, "task-a").expect("lead turn");

    let result = parse_persona_turn_result_for_turn(&payload("lead", "pass", "", &[]), &lead);

    assert_eq!(result, Err(PersonaTurnOutcomeError::RequiredSpeakerPassed));
}

#[test]
fn turn_outcome_parser_accepts_speak_and_pass_for_expected_speaker() {
    let spoken = persona_turn_outcome_from_payload(&payload("planning", "speak", "body-a", &[]), PersonaSpeaker::Planning)
        .expect("spoken outcome");
    let passed = persona_turn_outcome_from_payload(&payload("verification", "pass", "", &[]), PersonaSpeaker::Verification)
        .expect("pass outcome");

    assert!(matches!(spoken.outcome, PersonaTurnOutcome::Spoken(message) if message.speaker == PersonaSpeaker::Planning));
    assert_eq!(passed.outcome, PersonaTurnOutcome::Passed { speaker: PersonaSpeaker::Verification });
    assert!(spoken.peer_messages.is_empty());
    assert!(passed.peer_messages.is_empty());
}

#[test]
fn turn_outcome_parser_accepts_display_label_speaker_values() {
    let lead = persona_turn_outcome_from_payload(
        &payload("팀장", "speak", "body-a", &[("지윤(기획/설계)", "peer-a")]),
        PersonaSpeaker::Lead,
    )
    .expect("display label speaker");
    let member = persona_turn_outcome_from_payload(&payload("지윤(기획/설계)", "speak", "body-b", &[]), PersonaSpeaker::Planning)
        .expect("display label member");

    assert!(matches!(lead.outcome, PersonaTurnOutcome::Spoken(message) if message.speaker == PersonaSpeaker::Lead));
    assert_eq!(
        lead.peer_messages,
        vec![PersonaPeerMessageDraft { to: PersonaSpeaker::Planning, body: "peer-a".to_owned() }]
    );
    assert!(matches!(member.outcome, PersonaTurnOutcome::Spoken(message) if message.speaker == PersonaSpeaker::Planning));
}

#[test]
fn turn_outcome_payload_rejects_wrong_speaker_and_pass_with_body() {
    let wrong_speaker =
        persona_turn_outcome_from_payload(&payload("implementation", "speak", "body-a", &[]), PersonaSpeaker::Planning);
    let pass_with_body = persona_turn_outcome_from_payload(&payload("planning", "pass", "body-a", &[]), PersonaSpeaker::Planning);
    let unknown_decision = persona_turn_outcome_from_payload(&payload("planning", " later ", "", &[]), PersonaSpeaker::Planning);

    assert!(matches!(
        wrong_speaker,
        Err(PersonaTurnOutcomeError::UnexpectedSpeaker {
            expected: PersonaSpeaker::Planning,
            actual: PersonaSpeaker::Implementation,
        })
    ));
    assert_eq!(pass_with_body, Err(PersonaTurnOutcomeError::EmptyBody));
    assert_eq!(unknown_decision, Err(PersonaTurnOutcomeError::UnknownDecision("later".to_owned())));
}

#[test]
fn turn_outcome_parser_accepts_structured_peer_messages() {
    let result = persona_turn_outcome_from_payload(
        &payload("lead", "speak", "body-a", &[("지윤", "peer-a"), ("민호(구현)", "peer-b")]),
        PersonaSpeaker::Lead,
    )
    .expect("peer message outcome");

    assert!(matches!(result.outcome, PersonaTurnOutcome::Spoken(message) if message.speaker == PersonaSpeaker::Lead));
    assert_eq!(
        result.peer_messages,
        vec![
            PersonaPeerMessageDraft { to: PersonaSpeaker::Planning, body: "peer-a".to_owned() },
            PersonaPeerMessageDraft { to: PersonaSpeaker::Implementation, body: "peer-b".to_owned() },
        ]
    );
}

#[test]
fn turn_outcome_parser_rejects_invalid_peer_messages() {
    let unknown = persona_turn_outcome_from_payload(&payload("lead", "speak", "body-a", &[("backend", "peer-a")]), PersonaSpeaker::Lead);
    let self_message =
        persona_turn_outcome_from_payload(&payload("planning", "speak", "body-a", &[("planning", "peer-a")]), PersonaSpeaker::Planning);
    let pass_message =
        persona_turn_outcome_from_payload(&payload("verification", "pass", "", &[("lead", "peer-a")]), PersonaSpeaker::Verification);

    assert_eq!(unknown, Err(PersonaTurnOutcomeError::UnknownPeerRecipient("backend".to_owned())));
    assert_eq!(self_message, Err(PersonaTurnOutcomeError::PeerMessageToSelf));
    assert_eq!(pass_message, Err(PersonaTurnOutcomeError::PeerMessageOnPass));
}

#[test]
fn peer_payload_body_limits() {
    let empty = persona_turn_outcome_from_payload(&payload("lead", "speak", "body-a", &[("planning", "  ")]), PersonaSpeaker::Lead);
    let long_body = "가".repeat(181);
    let long = persona_turn_outcome_from_payload(&payload("lead", "speak", "body-a", &[("planning", &long_body)]), PersonaSpeaker::Lead);
    let long_turn = persona_turn_outcome_from_payload(&payload("lead", "speak", &long_body, &[]), PersonaSpeaker::Lead);
    let empty_turn = persona_turn_outcome_from_payload(&payload("lead", "speak", " ", &[]), PersonaSpeaker::Lead);
    let unknown = persona_turn_outcome_from_payload(&payload("backend", "speak", "b", &[]), PersonaSpeaker::Lead);
    assert_eq!(empty, Err(PersonaTurnOutcomeError::EmptyPeerMessageBody));
    assert_eq!(long, Err(PersonaTurnOutcomeError::PeerMessageBodyTooLong));
    assert_eq!(long_turn, Err(PersonaTurnOutcomeError::BodyTooLong));
    assert_eq!(empty_turn, Err(PersonaTurnOutcomeError::EmptyBody));
    assert_eq!(unknown, Err(PersonaTurnOutcomeError::UnknownSpeaker("backend".to_owned())));
}

#[test]
fn turn_prompt_uses_only_requested_speaker_history_and_addressed_peer_messages() {
    let mut runtime = PersonaRuntime::new();
    let lead = runtime.start_kickoff("task-a");
    assert_eq!(runtime.pop_next_turn(), Some(lead.clone()));
    runtime.record_turn_result(
        &lead,
        outcome_with_peers(
            PersonaSpeaker::Lead,
            "body-a",
            &[(PersonaSpeaker::Planning, "peer-a"), (PersonaSpeaker::Implementation, "peer-b")],
        ),
    );
    let planning_turn = runtime.pop_next_turn().expect("planning turn");
    let planning_history = vec![message(PersonaSpeaker::Planning, "history-a")];
    let prompt = runtime.build_turn_prompt(&planning_turn, &planning_history);

    assert_eq!(planning_turn.speaker, PersonaSpeaker::Planning);
    assert!(prompt.user_prompt.contains("peer-a"));
    assert!(!prompt.user_prompt.contains("peer-b"));
    assert!(prompt.user_prompt.contains("history-a"));
    assert!(prompt.user_prompt.contains("speaker: 지윤(기획/설계)"));
    assert!(!prompt.user_prompt.contains("speaker: planning"));
}

#[test]
fn parsed_peer_messages_are_delivered_to_later_speaker_turns() {
    let mut runtime = PersonaRuntime::new();
    let lead = runtime.start_kickoff_for_mode(PersonaRuntimeMode::Full, "task-a").expect("lead turn");
    runtime.pop_next_turn();
    let result = persona_turn_outcome_from_payload(
        &payload("lead", "speak", "body-a", &[("planning", "peer-a"), ("implementation", "peer-b")]),
        PersonaSpeaker::Lead,
    )
    .expect("lead result with peer messages");

    runtime.record_turn_result(&lead, result);
    let planning = runtime.pop_next_turn().expect("planning turn");
    let planning_prompt = runtime.build_turn_prompt(&planning, &[]);

    assert_eq!(planning.speaker, PersonaSpeaker::Planning);
    assert!(planning_prompt.user_prompt.contains("peer-a"));
    assert!(!planning_prompt.user_prompt.contains("peer-b"));
}

#[test]
fn lead_peer_messages_create_claimed_team_tasks_for_addressed_members() {
    let mut runtime = PersonaRuntime::new();
    let lead = runtime.start_kickoff("task-a");
    assert_eq!(runtime.pop_next_turn(), Some(lead.clone()));

    runtime.record_turn_result(
        &lead,
        outcome_with_peers(
            PersonaSpeaker::Lead,
            "body-a",
            &[(PersonaSpeaker::Planning, "peer-a"), (PersonaSpeaker::Verification, "peer-b")],
        ),
    );

    assert_eq!(runtime.team_tasks().len(), 2);
    assert_eq!(runtime.team_tasks()[0].owner, PersonaSpeaker::Planning);
    assert_eq!(runtime.team_tasks()[0].title, "peer-a");
    assert_eq!(runtime.team_tasks()[0].status, PersonaTeamTaskStatus::Claimed);
    assert_eq!(runtime.team_tasks()[1].owner, PersonaSpeaker::Verification);
    assert_eq!(runtime.team_tasks()[1].status, PersonaTeamTaskStatus::Claimed);

    let planning = runtime.pop_next_turn().expect("planning turn");
    assert_eq!(planning.speaker, PersonaSpeaker::Planning);
    assert_eq!(planning.team_tasks.len(), 2);
    let prompt = runtime.build_turn_prompt(&planning, &[]);
    assert!(prompt.user_prompt.contains("persona-team-task-0001"));
    assert!(prompt.user_prompt.contains("claimed"));
    assert!(prompt.user_prompt.contains("peer-a"));
}

#[test]
fn member_reports_team_task_and_lead_summary_closes_it() {
    let mut runtime = PersonaRuntime::new();
    runtime.start_kickoff("task-a");
    runtime.pop_next_turn();
    let progress = runtime
        .enqueue_progress_for_mode(PersonaRuntimeMode::Full, "main_runtime_status: progress")
        .expect("progress turn");
    assert_eq!(runtime.pop_next_turn(), Some(progress.clone()));

    runtime.record_turn_result(
        &progress,
        outcome_with_peers(PersonaSpeaker::Lead, "body-a", &[(PersonaSpeaker::Documentation, "peer-a")]),
    );
    assert_eq!(runtime.team_tasks()[0].status, PersonaTeamTaskStatus::Claimed);

    let documentation = runtime.pop_next_turn().expect("documentation turn");
    assert_eq!(documentation.speaker, PersonaSpeaker::Documentation);
    runtime.record_turn_result(
        &documentation,
        outcome(PersonaTurnOutcome::Spoken(message(PersonaSpeaker::Documentation, "body-b"))),
    );
    assert_eq!(runtime.team_tasks()[0].status, PersonaTeamTaskStatus::Reported);
    assert_eq!(runtime.team_tasks()[0].report.as_deref(), Some("body-b"));

    let summary = runtime.pop_next_turn().expect("lead summary");
    assert_eq!(summary.kind, PersonaTurnKind::LeadSummary);
    runtime.record_turn_result(&summary, outcome(PersonaTurnOutcome::Spoken(message(PersonaSpeaker::Lead, "body-c"))));
    assert_eq!(runtime.team_tasks()[0].status, PersonaTeamTaskStatus::Closed);
}

#[test]
fn member_pass_marks_team_task_as_passed_not_reported() {
    let mut runtime = PersonaRuntime::new();
    let lead = runtime.start_kickoff("task-a");
    runtime.pop_next_turn();
    runtime.record_turn_result(
        &lead,
        outcome_with_peers(PersonaSpeaker::Lead, "body-a", &[(PersonaSpeaker::Planning, "peer-a")]),
    );

    let planning = runtime.pop_next_turn().expect("planning turn");
    runtime.record_turn_result(&planning, outcome(PersonaTurnOutcome::Passed { speaker: PersonaSpeaker::Planning }));

    assert_eq!(runtime.team_tasks()[0].status, PersonaTeamTaskStatus::Passed);
    assert_eq!(runtime.team_tasks()[0].report, None);
    let summary = runtime.pop_next_turn().expect("kickoff summary");
    assert_eq!(summary.speaker, PersonaSpeaker::Lead);
    assert_eq!(summary.kind, PersonaTurnKind::LeadSummary);
    assert!(runtime.pop_next_turn().is_none());
}

#[test]
fn completion_turn_keeps_task_state_summary_without_creating_new_task() {
    let mut runtime = PersonaRuntime::new();
    let kickoff = runtime.start_kickoff_for_mode(PersonaRuntimeMode::Full, "task-a").expect("kickoff");
    runtime.pop_next_turn();

    let completion = runtime.enqueue_completion_for_mode(
        PersonaRuntimeMode::Full,
        "main_runtime_status: completed\nlast_observation: succeeded",
    );

    let completion = completion.expect("completion turn");
    assert_eq!(completion.stage, PersonaRuntimeStage::Completion);
    assert_eq!(completion.kind, PersonaTurnKind::Completion);
    assert_eq!(completion.speaker, PersonaSpeaker::Lead);
    assert_eq!(runtime.current_task().map(|task| task.task_id.as_str()), Some(kickoff.task_id.as_str()));
    assert!(runtime
        .current_task()
        .expect("current task")
        .task_state_summary
        .contains("main_runtime_status: completed"));
}

#[test]
fn completion_replaces_stale_remaining_kickoff_turns_with_final_closure() {
    let mut runtime = PersonaRuntime::new();
    let lead = runtime.start_kickoff_for_mode(PersonaRuntimeMode::Full, "task-a").expect("lead turn");
    assert_eq!(runtime.pop_next_turn(), Some(lead.clone()));

    let completion = runtime
        .enqueue_completion_for_mode(PersonaRuntimeMode::Full, "main_runtime_status: completed")
        .expect("completion turn");
    runtime.record_turn_result(
        &lead,
        outcome_with_peers(PersonaSpeaker::Lead, "body-a", &[(PersonaSpeaker::Planning, "peer-a")]),
    );

    let next = runtime.pop_next_turn().expect("completion before stale kickoff");
    assert_eq!(next, completion);
    assert_eq!(next.stage, PersonaRuntimeStage::Completion);
    assert!(runtime.pending_turns().is_empty());
}

#[test]
fn completion_removes_pending_lead_summary_and_adds_final_closure() {
    let mut runtime = PersonaRuntime::new();
    let lead = runtime.start_kickoff_for_mode(PersonaRuntimeMode::Full, "task-a").expect("lead turn");
    assert_eq!(runtime.pop_next_turn(), Some(lead.clone()));
    let pending_summary = runtime.build_turn(PersonaSpeaker::Lead, PersonaRuntimeStage::FollowUp, PersonaTurnKind::LeadSummary);
    runtime.push_pending_turn(pending_summary.clone());

    let completion = runtime
        .enqueue_completion_for_mode(PersonaRuntimeMode::Full, "main_runtime_status: completed")
        .expect("completion turn");
    assert_eq!(runtime.pop_next_turn(), Some(completion));
    assert!(runtime.pop_next_turn().is_none());
    assert!(runtime.current_task().expect("current task").task_state_summary.contains("completed"));
}

#[test]
fn later_member_result_does_not_create_lead_summary_after_completion_closure() {
    let mut runtime = PersonaRuntime::new();
    let lead = runtime.start_kickoff_for_mode(PersonaRuntimeMode::Full, "task-a").expect("lead turn");
    assert_eq!(runtime.pop_next_turn(), Some(lead.clone()));
    runtime.record_turn_result(
        &lead,
        outcome_with_peers(PersonaSpeaker::Lead, "body-a", &[(PersonaSpeaker::Planning, "peer-a")]),
    );

    let completion = runtime
        .enqueue_completion_for_mode(PersonaRuntimeMode::Full, "main_runtime_status: completed")
        .expect("completion turn");
    assert_eq!(runtime.pop_next_turn(), Some(completion.clone()));

    let speaker = PersonaSpeaker::Planning;
    let stale_member = PersonaTurn {
        id: "stale-member".to_owned(),
        task_id: completion.task_id.clone(),
        speaker,
        stage: PersonaRuntimeStage::Kickoff,
        kind: PersonaTurnKind::MemberResponse,
        user_prompt: "task-a".to_owned(),
        task_state_summary: "main_runtime_status: completed".to_owned(),
        peer_messages: Vec::new(),
        team_tasks: Vec::new(),
    };
    runtime.record_turn_result(&stale_member, outcome(PersonaTurnOutcome::Passed { speaker }));

    assert!(runtime.pop_next_turn().is_none());
    assert!(runtime.current_task().expect("current task").task_state_summary.contains("completed"));
    assert!(!runtime.pending_turns().iter().any(|turn| turn.kind == PersonaTurnKind::LeadSummary));
}

#[test]
fn active_lead_summary_absorbs_completion_without_extra_turn() {
    let mut runtime = PersonaRuntime::new();
    runtime.start_kickoff_for_mode(PersonaRuntimeMode::Full, "task-a").expect("lead turn");
    runtime.pop_next_turn();
    let active_summary = runtime.build_turn(PersonaSpeaker::Lead, PersonaRuntimeStage::FollowUp, PersonaTurnKind::LeadSummary);
    assert_eq!(active_summary.kind, PersonaTurnKind::LeadSummary);

    assert!(runtime.absorb_completion_into_active_closure(Some(&active_summary), "main_runtime_status: completed"));
    assert!(runtime.pop_next_turn().is_none());
    assert!(runtime.current_task().expect("current task").task_state_summary.contains("completed"));
}

#[test]
fn active_member_turn_does_not_absorb_completion() {
    let mut runtime = PersonaRuntime::new();
    let lead = runtime.start_kickoff_for_mode(PersonaRuntimeMode::Full, "task-a").expect("lead turn");
    assert_eq!(runtime.pop_next_turn(), Some(lead.clone()));
    runtime.record_turn_result(
        &lead,
        outcome_with_peers(PersonaSpeaker::Lead, "body-a", &[(PersonaSpeaker::Planning, "peer-a")]),
    );

    let active_member = runtime.pop_next_turn().expect("active member turn");
    assert_eq!(active_member.kind, PersonaTurnKind::MemberResponse);

    assert!(!runtime.absorb_completion_into_active_closure(Some(&active_member), "main_runtime_status: completed"));
    let completion = runtime
        .enqueue_completion_for_mode(PersonaRuntimeMode::Full, "main_runtime_status: completed")
        .expect("completion turn");
    assert!(runtime.pending_turns().iter().all(|turn| turn.stage == PersonaRuntimeStage::Completion));
    assert_eq!(runtime.pop_next_turn(), Some(completion));
}

#[test]
fn progress_update_enqueues_lead_lifecycle_turn_inside_current_task() {
    let mut runtime = PersonaRuntime::new();
    let kickoff = runtime.start_kickoff_for_mode(PersonaRuntimeMode::Full, "task-a").expect("kickoff");
    runtime.pop_next_turn();

    let progress = runtime
        .enqueue_progress_for_mode(PersonaRuntimeMode::Full, "main_runtime_status: tool_observation_recorded")
        .expect("progress turn");

    assert_eq!(progress.task_id, kickoff.task_id);
    assert_eq!(progress.stage, PersonaRuntimeStage::Progress);
    assert_eq!(progress.kind, PersonaTurnKind::ProgressLead);
    assert_eq!(progress.speaker, PersonaSpeaker::Lead);
    assert!(progress.task_state_summary.contains("tool_observation_recorded"));
}

#[test]
fn progress_lead_can_wake_requested_members_and_close_with_summary() {
    let mut runtime = PersonaRuntime::new();
    runtime.start_kickoff_for_mode(PersonaRuntimeMode::Full, "task-a").expect("kickoff");
    runtime.pop_next_turn();
    let progress = runtime
        .enqueue_progress_for_mode(PersonaRuntimeMode::Full, "main_runtime_status: repair")
        .expect("progress turn");
    assert_eq!(runtime.pop_next_turn(), Some(progress.clone()));

    runtime.record_turn_result(
        &progress,
        outcome_with_peers(PersonaSpeaker::Lead, "body-a", &[(PersonaSpeaker::Verification, "peer-a")]),
    );
    let member = runtime.pop_next_turn().expect("member");
    assert_eq!(member.stage, PersonaRuntimeStage::Progress);
    assert_eq!(member.kind, PersonaTurnKind::MemberResponse);
    assert_eq!(member.speaker, PersonaSpeaker::Verification);

    runtime.record_turn_result(&member, outcome_with_peers(PersonaSpeaker::Verification, "body-b", &[]));
    let summary = runtime.pop_next_turn().expect("summary");
    assert_eq!(summary.stage, PersonaRuntimeStage::Progress);
    assert_eq!(summary.kind, PersonaTurnKind::LeadSummary);
    assert_eq!(summary.speaker, PersonaSpeaker::Lead);
}

#[test]
fn completion_clears_pending_progress_turns_and_runs_final_closure() {
    let mut runtime = PersonaRuntime::new();
    runtime.start_kickoff_for_mode(PersonaRuntimeMode::Full, "task-a").expect("kickoff");
    runtime.pop_next_turn();
    runtime.enqueue_progress_for_mode(PersonaRuntimeMode::Full, "main_runtime_status: repair").expect("progress turn");

    let completion = runtime
        .enqueue_completion_for_mode(PersonaRuntimeMode::Full, "main_runtime_status: completed")
        .expect("completion turn");

    assert_eq!(runtime.pop_next_turn(), Some(completion));
    assert!(runtime.pop_next_turn().is_none());
}

#[test]
fn progress_is_refused_after_completion_and_refreshes_a_queued_progress_turn() {
    let mut runtime = PersonaRuntime::new();
    runtime.start_kickoff("task-a");
    runtime.pop_next_turn();
    let first = runtime.enqueue_progress_for_mode(PersonaRuntimeMode::Full, "status-1").expect("progress");
    let second = runtime.enqueue_progress_for_mode(PersonaRuntimeMode::Full, "status-2").expect("progress");
    assert_eq!(first.id, second.id);
    assert_eq!(second.task_state_summary, "status-2");
    assert_eq!(runtime.pending_turns().len(), 1);
    runtime.enqueue_completion_for_mode(PersonaRuntimeMode::Full, "done").expect("completion");
    assert!(runtime.is_task_completed());
    assert!(runtime.enqueue_progress_for_mode(PersonaRuntimeMode::Full, "status-3").is_none());
    assert!(runtime.enqueue_progress_for_mode(PersonaRuntimeMode::Off, "status-3").is_none());
}

#[test]
fn kickoff_uses_separate_turn_queue_instead_of_batch_script() {
    let mut runtime = PersonaRuntime::new();

    let first = runtime.start_kickoff("task-a");

    assert_eq!(first.speaker, PersonaSpeaker::Lead);
    assert_eq!(first.kind, PersonaTurnKind::LeadSummon);
    assert_eq!(runtime.pop_next_turn(), Some(first.clone()));

    let expected = [
        (PersonaSpeaker::Planning, PersonaTurnKind::MemberResponse),
        (PersonaSpeaker::Implementation, PersonaTurnKind::MemberResponse),
    ];

    runtime.record_turn_result(
        &first,
        outcome_with_peers(
            PersonaSpeaker::Lead,
            "body-a",
            &[(PersonaSpeaker::Planning, "peer-a"), (PersonaSpeaker::Implementation, "peer-b")],
        ),
    );
    for (speaker, kind) in expected {
        let next = runtime.pop_next_turn().expect("next kickoff turn");
        assert_eq!(next.speaker, speaker);
        assert_eq!(next.kind, kind);
        runtime.record_turn_result(&next, outcome(PersonaTurnOutcome::Passed { speaker }));
    }

    let summary = runtime.pop_next_turn().expect("kickoff summary");
    assert_eq!(summary.speaker, PersonaSpeaker::Lead);
    assert_eq!(summary.kind, PersonaTurnKind::LeadSummary);
    assert_eq!(summary.stage, PersonaRuntimeStage::Kickoff);

    assert!(runtime.pop_next_turn().is_none());
}

#[test]
fn kickoff_without_member_requests_still_closes_with_lead_summary() {
    let mut runtime = PersonaRuntime::new();

    let lead = runtime.start_kickoff("task-a");
    runtime.pop_next_turn();
    runtime.record_turn_result(&lead, outcome(PersonaTurnOutcome::Spoken(message(PersonaSpeaker::Lead, "body-a"))));

    let summary = runtime.pop_next_turn().expect("kickoff summary");
    assert_eq!(summary.speaker, PersonaSpeaker::Lead);
    assert_eq!(summary.kind, PersonaTurnKind::LeadSummary);
    assert_eq!(summary.stage, PersonaRuntimeStage::Kickoff);
    assert!(!runtime.has_pending_turns());
}

#[test]
fn turn_response_is_stored_in_speaker_history_only() {
    let mut runtime = PersonaRuntime::new();
    let lead_turn = runtime.start_kickoff("task-a");
    assert_eq!(runtime.pop_next_turn(), Some(lead_turn.clone()));

    runtime.record_turn_result(&lead_turn, outcome(PersonaTurnOutcome::Spoken(message(PersonaSpeaker::Lead, "body-a"))));

    let lead = runtime.sessions().iter().find(|session| session.speaker == PersonaSpeaker::Lead).expect("lead session");
    let planning = runtime
        .sessions()
        .iter()
        .find(|session| session.speaker == PersonaSpeaker::Planning)
        .expect("planning session");

    assert_eq!(lead.history.len(), 1);
    assert!(planning.history.is_empty());
}

#[test]
fn peer_messages_are_carried_into_later_turns() {
    let mut runtime = PersonaRuntime::new();
    let lead = runtime.start_kickoff("task-a");
    assert_eq!(runtime.pop_next_turn(), Some(lead.clone()));

    runtime.record_turn_result(
        &lead,
        outcome_with_peers(PersonaSpeaker::Lead, "body-a", &[(PersonaSpeaker::Planning, "peer-a")]),
    );
    let peer_message = runtime.peer_messages()[0].clone();
    let next = runtime.pop_next_turn().expect("planning turn");

    assert_eq!(runtime.peer_messages(), &[peer_message.clone()]);
    assert_eq!(next.peer_messages, vec![peer_message]);
    assert_eq!(next.speaker, PersonaSpeaker::Planning);
}

#[test]
fn mixed_spoken_and_passed_turns_store_only_visible_speaker_messages() {
    let mut runtime = PersonaRuntime::new();
    let lead = runtime.start_kickoff("task-a");
    assert_eq!(runtime.pop_next_turn(), Some(lead.clone()));

    runtime.record_turn_result(
        &lead,
        outcome_with_peers(
            PersonaSpeaker::Lead,
            "body-a",
            &[(PersonaSpeaker::Planning, "peer-a"), (PersonaSpeaker::Implementation, "peer-b")],
        ),
    );
    let planning = runtime.pop_next_turn().expect("planning turn");
    assert_eq!(planning.speaker, PersonaSpeaker::Planning);

    runtime.record_turn_result(&planning, outcome(PersonaTurnOutcome::Passed { speaker: PersonaSpeaker::Planning }));
    let implementation = runtime.pop_next_turn().expect("implementation turn");
    assert_eq!(implementation.speaker, PersonaSpeaker::Implementation);

    runtime.record_turn_result(
        &implementation,
        outcome(PersonaTurnOutcome::Spoken(message(PersonaSpeaker::Implementation, "body-b"))),
    );

    let lead = runtime.session_history(PersonaSpeaker::Lead).expect("lead history");
    let planning = runtime.session_history(PersonaSpeaker::Planning).expect("planning history");
    let implementation = runtime.session_history(PersonaSpeaker::Implementation).expect("implementation history");

    assert_eq!(lead.len(), 1);
    assert!(planning.is_empty());
    assert_eq!(implementation.len(), 1);
    assert!(runtime.sessions().iter().all(|session| {
        session.speaker != PersonaSpeaker::Planning || session.status == PersonaSessionStatus::Idle
    }));
}

#[test]
fn runtime_mode_off_clears_inflight_task_without_synthesizing_turns() {
    let mut runtime = PersonaRuntime::new();
    let first = runtime.start_kickoff_for_mode(PersonaRuntimeMode::Full, "task-a").expect("full mode kickoff");
    assert_eq!(runtime.pop_next_turn(), Some(first.clone()));
    runtime.record_turn_result(
        &first,
        outcome_with_peers(PersonaSpeaker::Lead, "body-a", &[(PersonaSpeaker::Planning, "peer-a")]),
    );
    let peer_message = runtime.peer_messages()[0].clone();
    assert_eq!(runtime.peer_messages(), &[peer_message]);

    let turn = runtime.start_kickoff_for_mode(PersonaRuntimeMode::Off, "task-b");

    assert!(turn.is_none());
    assert!(runtime.current_task().is_none());
    assert!(runtime.pop_next_turn().is_none());
    assert!(runtime.peer_messages().is_empty());
    assert!(runtime
        .sessions()
        .iter()
        .all(|session| { session.status == PersonaSessionStatus::Idle && session.history.is_empty() }));
}

#[test]
fn starting_new_task_resets_old_session_history_peer_messages_and_pending_turns() {
    let mut runtime = PersonaRuntime::new();
    let first = runtime.start_kickoff_for_mode(PersonaRuntimeMode::Full, "task-a").expect("first kickoff");
    runtime.pop_next_turn();
    runtime.record_turn_result(
        &first,
        outcome_with_peers(PersonaSpeaker::Lead, "body-a", &[(PersonaSpeaker::Planning, "peer-a")]),
    );
    assert!(runtime.pop_next_turn().is_some());

    assert_eq!(first.task_id, "persona-task-0001");
    assert_eq!(runtime.session_history(PersonaSpeaker::Lead).expect("lead history").len(), 1);

    let second = runtime.start_kickoff_for_mode(PersonaRuntimeMode::Full, "task-b").expect("second kickoff");

    assert_eq!(second.task_id, "persona-task-0002");
    assert_eq!(runtime.current_task().map(|task| task.user_prompt.as_str()), Some("task-b"));
    assert!(runtime.peer_messages().is_empty());
    assert!(runtime.sessions().iter().all(|session| session.history.is_empty()));
    assert_eq!(runtime.pop_next_turn(), Some(second));
    assert!(runtime.pop_next_turn().is_none());
}

#[test]
fn follow_up_keeps_task_history_and_starts_with_lead_only() {
    let mut runtime = PersonaRuntime::new();
    let kickoff = runtime.start_kickoff_for_mode(PersonaRuntimeMode::Full, "task-a").expect("kickoff");
    runtime.pop_next_turn();
    runtime.record_turn_result(&kickoff, outcome(PersonaTurnOutcome::Spoken(message(PersonaSpeaker::Lead, "body-a"))));

    let follow_up = runtime
        .start_follow_up_for_mode(PersonaRuntimeMode::Full, "task-b", "status-a")
        .expect("follow-up lead");

    assert_eq!(follow_up.stage, PersonaRuntimeStage::FollowUp);
    assert_eq!(follow_up.kind, PersonaTurnKind::FollowUpLead);
    assert_eq!(follow_up.speaker, PersonaSpeaker::Lead);
    assert_eq!(follow_up.task_id, kickoff.task_id);
    assert_eq!(runtime.pop_next_turn(), Some(follow_up));
    assert_eq!(runtime.session_history(PersonaSpeaker::Lead).expect("lead history").len(), 1);
}

#[test]
fn follow_up_schedules_only_teammates_requested_by_peer_messages() {
    let mut runtime = PersonaRuntime::new();
    runtime.start_kickoff_for_mode(PersonaRuntimeMode::Full, "task-a");
    runtime.pop_next_turn();
    let follow_up = runtime
        .start_follow_up_for_mode(PersonaRuntimeMode::Full, "task-b", "status-a")
        .expect("follow-up lead");
    runtime.pop_next_turn();
    let result = persona_turn_outcome_from_payload(
        &payload("lead", "speak", "body-a", &[("verification", "peer-a"), ("documentation", "peer-b")]),
        PersonaSpeaker::Lead,
    )
    .expect("lead follow-up");

    runtime.record_turn_result(&follow_up, result);

    let verification = runtime.pop_next_turn().expect("verification turn");
    let documentation = runtime.pop_next_turn().expect("documentation turn");
    assert_eq!(verification.speaker, PersonaSpeaker::Verification);
    assert_eq!(verification.stage, PersonaRuntimeStage::FollowUp);
    assert_eq!(documentation.speaker, PersonaSpeaker::Documentation);
    assert_eq!(documentation.stage, PersonaRuntimeStage::FollowUp);
    assert!(runtime.pop_next_turn().is_none());
}

#[test]
fn follow_up_member_responses_end_with_lead_summary() {
    let mut runtime = PersonaRuntime::new();
    runtime.start_kickoff_for_mode(PersonaRuntimeMode::Full, "task-a");
    runtime.pop_next_turn();
    let follow_up = runtime
        .start_follow_up_for_mode(PersonaRuntimeMode::Full, "task-b", "status-a")
        .expect("follow-up lead");
    runtime.pop_next_turn();
    let result = persona_turn_outcome_from_payload(
        &payload("lead", "speak", "body-a", &[("documentation", "peer-a")]),
        PersonaSpeaker::Lead,
    )
    .expect("lead follow-up");
    runtime.record_turn_result(&follow_up, result);
    let documentation = runtime.pop_next_turn().expect("documentation turn");

    runtime.record_turn_result(
        &documentation,
        outcome(PersonaTurnOutcome::Spoken(message(PersonaSpeaker::Documentation, "body-b"))),
    );
    let summary = runtime.pop_next_turn().expect("lead summary");

    assert_eq!(summary.speaker, PersonaSpeaker::Lead);
    assert_eq!(summary.kind, PersonaTurnKind::LeadSummary);
    assert_eq!(summary.stage, PersonaRuntimeStage::FollowUp);
}

#[test]
fn runtime_labels_reserve_follow_up_and_completion_turns() {
    assert_eq!(PersonaRuntimeStage::FollowUp, PersonaRuntimeStage::FollowUp);
    assert_eq!(PersonaTurnKind::FollowUpLead, PersonaTurnKind::FollowUpLead);
    assert_eq!(PersonaRuntimeStage::Completion, PersonaRuntimeStage::Completion);
    assert_eq!(PersonaTurnKind::Completion, PersonaTurnKind::Completion);
}

#[test]
fn follow_up_without_task_starts_kickoff_and_off_clears() {
    let mut runtime = PersonaRuntime::new();
    let first = runtime
        .start_follow_up_for_mode(PersonaRuntimeMode::Full, "task-a", "status")
        .expect("kickoff");
    assert_eq!(first.kind, PersonaTurnKind::LeadSummon);
    assert_eq!(first.id, "persona-turn-0001");
    assert_eq!(first.task_state_summary, "main_runtime_status: not_started");
    assert!(runtime.start_follow_up_for_mode(PersonaRuntimeMode::Off, "task-b", "status").is_none());
    assert!(runtime.current_task().is_none());
    assert!(!runtime.has_pending_turns());
}

#[test]
fn completion_prompt_uses_task_state_only() {
    let mut runtime = PersonaRuntime::new();
    runtime.start_kickoff("task-a");
    runtime.pop_next_turn();
    let completion = runtime.enqueue_completion_for_mode(PersonaRuntimeMode::Full, "done").expect("completion");
    let history = vec![message(PersonaSpeaker::Lead, "history-a")];
    let prompt = runtime.build_turn_prompt(&completion, &history);
    assert!(prompt.user_prompt.contains("omitted: completion closure uses task state only"));
    assert!(!prompt.user_prompt.contains("history-a"));
    assert!(!prompt.user_prompt.contains("task-a"));
    assert!(prompt.user_prompt.contains("stage: Completion\nkind: Completion"));
    assert!(prompt.system_prompt.starts_with("You are one AhreumCode persona session.\n"));
    assert!(prompt.system_prompt.ends_with("Requested speaker label: 팀장"));
    assert!(runtime.enqueue_completion_for_mode(PersonaRuntimeMode::Off, "x").is_none());
}

#[test]
fn unreadable_or_failed_reply_counts_as_a_pass_and_stale_messages_are_not_shown() {
    let mut runtime = PersonaRuntime::new();
    let turn = runtime.start_kickoff_for_mode(PersonaRuntimeMode::Full, "prompt").expect("kickoff turn");

    let (failed, shown) = persona_reply_result(&turn, None, false);
    assert!(matches!(failed.outcome, PersonaTurnOutcome::Passed { speaker: PersonaSpeaker::Lead }));
    assert!(shown.is_none());

    let (unreadable, _) = persona_reply_result(&turn, Some(Err(PersonaTurnOutcomeError::InvalidJson)), false);
    assert!(matches!(unreadable.outcome, PersonaTurnOutcome::Passed { .. }));

    let spoken = outcome(PersonaTurnOutcome::Spoken(message(PersonaSpeaker::Lead, "hello")));
    let (_, shown) = persona_reply_result(&turn, Some(Ok(spoken)), false);
    assert_eq!(shown.map(|m| m.body), Some("hello".to_owned()));

    let spoken = outcome(PersonaTurnOutcome::Spoken(message(PersonaSpeaker::Lead, "late")));
    let (result, shown) = persona_reply_result(&turn, Some(Ok(spoken)), true);
    assert!(shown.is_none());
    assert!(matches!(result.outcome, PersonaTurnOutcome::Spoken(_)));
}

#[test]
fn completion_reply_after_the_task_was_cleared_is_still_recorded() {
    let mut runtime = PersonaRuntime::new();
    runtime.start_kickoff_for_mode(PersonaRuntimeMode::Full, "task-a").expect("lead turn");
    let completion = runtime
        .enqueue_completion_for_mode(PersonaRuntimeMode::Full, "main_runtime_status: completed")
        .expect("completion turn");
    runtime.clear();
    assert!(runtime.current_task().is_none());

    runtime.record_turn_result(&completion, outcome(PersonaTurnOutcome::Spoken(message(PersonaSpeaker::Lead, "closing"))));

    let history = runtime.session_history(PersonaSpeaker::Lead).expect("lead history");
    assert_eq!(history.last().map(|m| m.body.as_str()), Some("closing"));
    assert!(!runtime.has_pending_turns());
}

fn json_text(object: &serde_json::Map<String, serde_json::Value>, key: &str) -> Result<String, PersonaTurnOutcomeError> {
    object.get(key).and_then(|v| v.as_str()).map(str::to_owned).ok_or(PersonaTurnOutcomeError::InvalidJson)
}

/// Reads a reply with exactly the fields the reply format names.
fn read_outcome_json(raw: &str) -> Result<PersonaTurnOutcomePayload, PersonaTurnOutcomeError> {
    let value: serde_json::Value = serde_json::from_str(raw).map_err(|_| PersonaTurnOutcomeError::InvalidJson)?;
    let object = value.as_object().ok_or(PersonaTurnOutcomeError::InvalidJson)?;
    if object.len() != 4 {
        return Err(PersonaTurnOutcomeError::InvalidJson);
    }
    let peers = object.get("peer_messages").and_then(|v| v.as_array()).ok_or(PersonaTurnOutcomeError::InvalidJson)?;
    let mut peer_messages = Vec::new();
    for peer in peers {
        let peer = peer.as_object().ok_or(PersonaTurnOutcomeError::InvalidJson)?;
        if peer.len() != 2 {
            return Err(PersonaTurnOutcomeError::InvalidJson);
        }
        peer_messages.push(PersonaPeerMessagePayload { to: json_text(peer, "to")?, body: json_text(peer, "body")? });
    }
    Ok(PersonaTurnOutcomePayload {
        speaker: json_text(object, "speaker")?,
        decision: json_text(object, "decision")?,
        body: json_text(object, "body")?,
        peer_messages,
    })
}

fn parse_persona_turn_outcome(raw: &str, expected: PersonaSpeaker) -> Result<PersonaTurnResult, PersonaTurnOutcomeError> {
    let payload = read_outcome_json(raw)?;
    persona_turn_outcome_from_payload(&payload, expected)
}

#[test]
fn turn_outcome_parser_rejects_batch_or_wrong_speaker_shapes() {
    let batch = parse_persona_turn_outcome(
        r#"{"messages":[{"speaker":"lead","decision":"speak","body":"body-a"}]}"#,
        PersonaSpeaker::Lead,
    );
    let wrong_speaker = parse_persona_turn_outcome(
        r#"{"speaker":"implementation","decision":"speak","body":"body-a","peer_messages":[]}"#,
        PersonaSpeaker::Planning,
    );
    let pass_with_body = parse_persona_turn_outcome(
        r#"{"speaker":"planning","decision":"pass","body":"body-a","peer_messages":[]}"#,
        PersonaSpeaker::Planning,
    );
    let missing_peer_messages = parse_persona_turn_outcome(
        r#"{"speaker":"planning","decision":"speak","body":"body-a"}"#,
        PersonaSpeaker::Planning,
    );

    assert_eq!(batch, Err(PersonaTurnOutcomeError::InvalidJson));
    assert!(matches!(
        wrong_speaker,
        Err(PersonaTurnOutcomeError::UnexpectedSpeaker {
            expected: PersonaSpeaker::Planning,
            actual: PersonaSpeaker::Implementation,
        })
    ));
    assert_eq!(pass_with_body, Err(PersonaTurnOutcomeError::EmptyBody));
    assert_eq!(missing_peer_messages, Err(PersonaTurnOutcomeError::InvalidJson));
}
