use ahreumcode::expanded_form::{ExpandedFormField, ExpandedFormKind, ExpandedFormState};
use ahreumcode::form_lines::{display_value, expanded_form_lines, form_fit};
use ahreumcode::approval::{open_approval_surface, ApprovalInputEvent, ApprovalSurfaceState};
use ahreumcode::command::{CommandId, CommandSurfaceState};
use ahreumcode::config::{ConfigLoadSource, RuntimeConfig};
use ahreumcode::persona::PersonaSpeaker;
use ahreumcode::persona_prompt::{speaker_display_label, speaker_from_peer_recipient, speaker_id};
use ahreumcode::state::{Scene, TuiState};
use ahreumcode::workspace::{ActivityGroup, WorkspaceItem};
use ahreumcode::workspace_lines::{pad_right, workspace_line_texts, SpanStyle};

fn texts(items: &[WorkspaceItem], width: usize) -> Vec<Vec<(String, SpanStyle)>> {
    workspace_line_texts(items, width)
        .into_iter()
        .map(|line| line.into_iter().map(|span| (span.text, span.style)).collect())
        .collect()
}

fn spans(parts: &[(&str, SpanStyle)]) -> Vec<(String, SpanStyle)> {
    parts.iter().map(|(text, style)| ((*text).to_owned(), *style)).collect()
}

#[test]
fn prompt_is_drawn_as_three_lines_padded_to_the_width() {
    let lines = texts(&[WorkspaceItem::UserPrompt { text: "hi".to_owned() }], 8);
    assert_eq!(
        lines,
        vec![
            spans(&[("        ", SpanStyle::PromptBackground)]),
            spans(&[("  > hi  ", SpanStyle::PromptBackground)]),
            spans(&[("        ", SpanStyle::PromptBackground)]),
        ]
    );
    assert_eq!(pad_right("longer than four", 4), "longer than four");
    assert_eq!(pad_right("한글", 4), "한글  ");
}

#[test]
fn answer_evidence_and_diff_lines_follow_their_items() {
    let items = vec![
        WorkspaceItem::AssistantAnswer { text: "a\nb".to_owned() },
        WorkspaceItem::EvidenceBlock { title: "read_file".to_owned(), body: "x\ny\nz".to_owned() },
        WorkspaceItem::DiffSummary { path: "a.txt".to_owned(), additions: 12, deletions: 3, expanded: true },
        WorkspaceItem::ActivityOutput { group: ActivityGroup::Change, summary: "patched".to_owned() },
        WorkspaceItem::Result { text: "done".to_owned() },
    ];
    let lines = texts(&items, 20);
    assert_eq!(lines.len(), 3 + 4 + 3 + 1 + 1);
    assert_eq!(lines[0], spans(&[("Answer", SpanStyle::Cyan)]));
    assert_eq!(lines[2], spans(&[("  ", SpanStyle::Muted), ("b", SpanStyle::Panel)]));
    assert_eq!(lines[3], spans(&[("Evidence  ", SpanStyle::Cyan), ("read_file", SpanStyle::PanelBold)]));
    assert_eq!(lines[6], spans(&[("  ", SpanStyle::Muted), ("z", SpanStyle::Muted)]));
    assert_eq!(
        lines[7],
        spans(&[
            ("Change  ", SpanStyle::Cyan),
            ("v", SpanStyle::Muted),
            (" ", SpanStyle::Muted),
            ("a.txt", SpanStyle::Panel),
            (" (+12 -3)", SpanStyle::Muted),
        ])
    );
    assert_eq!(lines[8], spans(&[("+ ", SpanStyle::Cyan), ("inline diff added lines", SpanStyle::Panel)]));
    assert_eq!(lines[9], spans(&[("- ", SpanStyle::Muted), ("inline diff removed lines", SpanStyle::Muted)]));
    assert_eq!(
        lines[10],
        spans(&[("Change", SpanStyle::Cyan), ("  ", SpanStyle::Muted), ("patched", SpanStyle::Panel)])
    );
    assert_eq!(lines[11], spans(&[("Result  ", SpanStyle::Cyan), ("done", SpanStyle::Panel)]));
}

#[test]
fn collapsed_diff_and_empty_answer_take_one_line_each() {
    let items = vec![
        WorkspaceItem::DiffSummary { path: "a.txt".to_owned(), additions: 0, deletions: 0, expanded: false },
        WorkspaceItem::AssistantAnswer { text: String::new() },
        WorkspaceItem::ManagerMessage { text: "m".to_owned() },
        WorkspaceItem::SystemNotice { text: "s".to_owned() },
    ];
    let lines = texts(&items, 10);
    assert_eq!(lines.len(), 4);
    assert_eq!(lines[0][1], (">".to_owned(), SpanStyle::Muted));
    assert_eq!(lines[2], spans(&[("[Manager] ", SpanStyle::Cyan), ("m", SpanStyle::Panel)]));
    assert_eq!(lines[3], spans(&[("[system] ", SpanStyle::Muted), ("s", SpanStyle::Panel)]));
}

#[test]
fn moving_the_selection_keeps_the_stepped_picker() {
    let mut surface = CommandSurfaceState::new();
    surface.open_stepped_picker(CommandId::Mode);
    surface.move_selection(2, 5);
    assert_eq!(surface.selected, 2);
    assert!(surface.open);
    assert_eq!(surface.stepped_picker.as_ref().map(|p| p.command()), Some(CommandId::Mode));
}

#[test]
fn approval_surface_opens_on_the_placeholder_request() {
    let mut surface = ApprovalSurfaceState::new();
    let outcome = open_approval_surface(&mut surface);
    assert!(matches!(outcome.events.as_slice(), [ApprovalInputEvent::SurfaceOpened]));
    assert!(outcome.workspace_line.is_none());
    let request = surface.request.expect("request");
    assert_eq!(request.title, "Approval required");
    assert_eq!(request.reason, "Permission shell is waiting for user decision.");
    assert_eq!(request.action, "pending tool action");
    assert_eq!(request.details, "This shell is the TUI approval surface before the policy engine is connected.");
}

#[test]
fn exit_keeps_the_inputs_and_summarizes_the_status() {
    let mut state = TuiState::main("/workspace".to_owned(), &RuntimeConfig::defaults(), ConfigLoadSource::Defaults, None);
    state.main_input = "draft".to_owned();
    state.intro_input = "intro".to_owned();
    state.request_exit();
    assert_eq!(state.scene, Scene::Epilogue);
    assert!(state.should_quit);
    assert_eq!(state.main_input, "draft");
    assert_eq!(state.intro_input, "intro");
    let summary = state.epilogue_summary.expect("summary");
    assert_eq!(summary.workspace, "/workspace");
    assert_eq!(summary.tools_executed, 0);
}

#[test]
fn every_speaker_is_found_from_its_id_label_and_name() {
    for speaker in [
        PersonaSpeaker::Lead,
        PersonaSpeaker::Planning,
        PersonaSpeaker::Implementation,
        PersonaSpeaker::Verification,
        PersonaSpeaker::Documentation,
    ] {
        assert_eq!(speaker_from_peer_recipient(speaker_id(speaker)), Some(speaker));
        assert_eq!(speaker_from_peer_recipient(&speaker_display_label(speaker)), Some(speaker));
        assert_eq!(speaker_from_peer_recipient(speaker.name()), Some(speaker));
    }
    assert_eq!(speaker_from_peer_recipient("지윤(기획/설계)"), Some(PersonaSpeaker::Planning));
    assert_eq!(speaker_from_peer_recipient("민호(구현)"), Some(PersonaSpeaker::Implementation));
    assert_eq!(speaker_from_peer_recipient("backend"), None);
}

#[test]
fn expanded_form_draws_title_fields_and_validation() {

    let mut form = ExpandedFormState::new();
    form.open(ExpandedFormKind::LocalProvider);
    form.fields = vec![
        ExpandedFormField { key: "name", label: "Name", value: "local".to_owned(), required: true, secret: false },
        ExpandedFormField { key: "key", label: "API key", value: "abcd".to_owned(), required: false, secret: true },
    ];
    form.focused = 1;
    form.validation_message = Some("name is required".to_owned());
    let lines: Vec<Vec<(String, SpanStyle)>> = expanded_form_lines(&form, 40)
        .into_iter()
        .map(|line| line.into_iter().map(|span| (span.text, span.style)).collect())
        .collect();
    assert_eq!(lines.len(), 4);
    assert_eq!(
        lines[0],
        spans(&[
            ("Add Local LLM Provider", SpanStyle::PanelBold),
            ("  tab next  shift+tab prev  enter submit  esc cancel", SpanStyle::Muted),
        ])
    );
    assert_eq!(
        lines[1],
        spans(&[("  ", SpanStyle::Muted), ("Name           ", SpanStyle::Muted), ("local", SpanStyle::Muted)])
    );
    assert_eq!(
        lines[2],
        spans(&[("> ", SpanStyle::Cyan), ("API key        ", SpanStyle::Cyan), ("****", SpanStyle::Panel)])
    );
    assert_eq!(lines[3], spans(&[("validation  ", SpanStyle::Muted), ("name is required", SpanStyle::Panel)]));

    let secret = ExpandedFormField { key: "k", label: "K", value: "가나".to_owned(), required: false, secret: true };
    assert_eq!(display_value(&secret), "****");
    assert_eq!(form_fit("abcdefgh", 0), "abcdefgh");
    assert_eq!(form_fit("abcdefgh", 6), "abc...");
}
