use ahreumcode::command::CommandDispatch;
use ahreumcode::config::{ConfigLoadSource, RuntimeConfig, DEFAULT_MODEL, DEFAULT_PROVIDER};
use ahreumcode::expanded_form::ExpandedFormKind;
use ahreumcode::persona::{PersonaEvent, MIN_PERSONA_TERMINAL_WIDTH};
use ahreumcode::state::{PersonaPanelState, Scene, TuiState};
use ahreumcode::workspace::WorkspaceItem;

fn state() -> TuiState {
    TuiState::main("/workspace".to_owned(), &RuntimeConfig::defaults(), ConfigLoadSource::Defaults, Some("bad key"))
}

fn notices(state: &TuiState) -> Vec<String> {
    state
        .workspace
        .items()
        .iter()
        .filter_map(|item| match item {
            WorkspaceItem::SystemNotice { text } => Some(text.clone()),
            _ => None,
        })
        .collect()
}

#[test]
fn scene_names_are_stable() {
    assert_eq!(Scene::Intro.as_str(), "intro");
    assert_eq!(Scene::Main.as_str(), "workspace");
    assert_eq!(Scene::Epilogue.as_str(), "epilogue");
}

#[test]
fn status_shell_lists_the_runtime_status_and_warning() {
    let mut s = state();
    let outcome = s.apply_command_dispatch(CommandDispatch::StatusShell, 200);

    assert!(s.status_shell_open);
    assert_eq!(outcome.workspace_events.events.len(), 4);
    assert_eq!(
        notices(&s),
        vec![
            "mode Crew | config defaults".to_owned(),
            format!("provider {DEFAULT_PROVIDER} | model {DEFAULT_MODEL}"),
            "base_url http://127.0.0.1:1234/v1 | context 8192".to_owned(),
            "config warning bad key".to_owned(),
        ]
    );
}

#[test]
fn mode_provider_and_model_dispatches_update_status_with_a_notice() {
    let mut s = state();
    s.apply_command_dispatch(CommandDispatch::ModePilot, 200);
    s.apply_command_dispatch(CommandDispatch::ProviderLmStudio, 200);
    s.apply_command_dispatch(CommandDispatch::ModelGemma, 200);

    assert_eq!(s.runtime_status.mode, "Pilot");
    assert_eq!(s.runtime_status.provider, DEFAULT_PROVIDER);
    assert_eq!(s.runtime_status.provider_display, DEFAULT_PROVIDER);
    assert_eq!(s.runtime_status.model, DEFAULT_MODEL);
    assert_eq!(
        notices(&s),
        vec![
            "mode set to Pilot".to_owned(),
            format!("provider set to {DEFAULT_PROVIDER}"),
            format!("model set to {DEFAULT_MODEL}"),
        ]
    );
}

#[test]
fn narrow_terminal_rejects_the_persona_panel() {
    let mut s = state();
    let outcome = s.apply_command_dispatch(CommandDispatch::PersonaFull, 100);

    assert_eq!(s.persona_panel, PersonaPanelState::Off);
    assert_eq!(notices(&s), vec!["페르소나 메시지는 터미널 가로폭 140 이상에서만 동작합니다.".to_owned()]);
    assert!(matches!(
        outcome.persona_events.events.as_slice(),
        [PersonaEvent::WidthRejected { width: 100, min_width }] if *min_width == MIN_PERSONA_TERMINAL_WIDTH
    ));
}

#[test]
fn persona_panel_opens_once_and_closes_once() {
    let mut s = state();
    let opened = s.apply_command_dispatch(CommandDispatch::PersonaFull, 160);
    let again = s.apply_command_dispatch(CommandDispatch::PersonaFull, 160);
    assert!(s.persona_panel.is_full());
    assert!(matches!(opened.persona_events.events.as_slice(), [PersonaEvent::PanelOpened]));
    assert!(again.persona_events.events.is_empty());

    let closed = s.apply_command_dispatch(CommandDispatch::PersonaClose, 160);
    let again = s.apply_command_dispatch(CommandDispatch::PersonaOff, 160);
    assert_eq!(s.persona_panel, PersonaPanelState::Off);
    assert!(matches!(closed.persona_events.events.as_slice(), [PersonaEvent::PanelClosed]));
    assert!(again.persona_events.events.is_empty());
}

#[test]
fn form_dispatches_open_the_matching_form() {
    let mut s = state();
    s.apply_command_dispatch(CommandDispatch::OpenLocalModelForm, 160);
    assert!(s.expanded_form.open);
    assert_eq!(s.expanded_form.kind, ExpandedFormKind::LocalModel);
    s.apply_command_dispatch(CommandDispatch::InitPrepare, 160);
    assert_eq!(s.expanded_form.kind, ExpandedFormKind::InitInstructions);
}

#[test]
fn approval_shell_opens_the_approval_surface() {
    let mut s = state();
    let outcome = s.apply_command_dispatch(CommandDispatch::ApprovalShell, 160);
    assert!(s.approval_surface.open);
    assert_eq!(outcome.approval_outcome.events.len(), 1);
}

#[test]
fn exit_dispatch_ends_in_the_epilogue() {
    let mut s = state();
    s.apply_command_dispatch(CommandDispatch::ExitRequested, 160);
    assert!(matches!(s.scene, Scene::Epilogue));
    assert!(s.should_quit);
    let summary = s.epilogue_summary.as_ref().expect("summary");
    assert_eq!(summary.workspace, "/workspace");
    assert_eq!(summary.tools_executed, 0);
}

#[test]
fn blank_prompt_does_not_start_work_and_a_prompt_does() {
    let mut s = TuiState::intro("/workspace".to_owned(), &RuntimeConfig::defaults(), ConfigLoadSource::Defaults, None);
    s.intro_input = "   ".to_owned();
    let outcome = s.enter_main_with_prompt();
    assert!(outcome.workspace_events.events.is_empty());
    assert!(matches!(s.scene, Scene::Intro));

    s.intro_input = "  fix the build ".to_owned();
    s.enter_main_with_prompt();
    assert!(matches!(s.scene, Scene::Main));
    assert_eq!(s.pending_prompt.as_deref(), Some("fix the build"));
    assert!(matches!(&s.workspace.items()[0], WorkspaceItem::UserPrompt { text } if text == "fix the build"));
    assert_eq!(s.workspace.items().len(), 2);
}
