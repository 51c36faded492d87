use ahreumcode::command::CommandRegistry;
use ahreumcode::config::{ConfigLoadSource, RuntimeConfig};
use ahreumcode::expanded_form::ExpandedFormKind;
use ahreumcode::key_input::{KeyCode, KeyEvent};
use ahreumcode::scenes::{handle_intro_event, handle_main_event};
use ahreumcode::state::{Scene, TuiState};
use ahreumcode::workspace::WorkspaceItem;

fn key(code: KeyCode) -> KeyEvent {
    KeyEvent { code, control: false }
}

fn main_state() -> TuiState {
    TuiState::main("/ws".to_owned(), &RuntimeConfig::defaults(), ConfigLoadSource::Defaults, None)
}

fn type_text(state: &mut TuiState, registry: &CommandRegistry, text: &str) {
    for c in text.chars() {
        handle_main_event(key(KeyCode::Char(c)), state, registry, 160);
    }
}

#[test]
fn enter_starts_work_and_escape_cancels_it() {
    let registry = CommandRegistry::new();
    let mut state = main_state();
    type_text(&mut state, &registry, "build it");
    handle_main_event(key(KeyCode::Enter), &mut state, &registry, 160);
    assert!(state.working_process.is_active());
    assert_eq!(state.pending_prompt.as_deref(), Some("build it"));
    assert!(state.main_input.is_empty());

    handle_main_event(key(KeyCode::Esc), &mut state, &registry, 160);
    assert!(!state.working_process.is_active());
    assert!(!state.should_quit);
    assert!(matches!(state.workspace.items().last(), Some(WorkspaceItem::Result { text }) if text == "Working process canceled."));

    handle_main_event(key(KeyCode::Esc), &mut state, &registry, 160);
    assert!(state.should_quit);
}

#[test]
fn slash_command_picks_and_applies_a_command() {
    let registry = CommandRegistry::new();
    let mut state = main_state();
    type_text(&mut state, &registry, "/status");
    assert!(state.command_surface.open);
    let action = handle_main_event(key(KeyCode::Enter), &mut state, &registry, 160);
    assert!(state.status_shell_open);
    assert!(state.main_input.is_empty());
    assert!(!state.command_surface.open);
    assert!(!action.workspace_events.events.is_empty());
}

#[test]
fn form_keys_edit_the_open_form() {
    let registry = CommandRegistry::new();
    let mut state = main_state();
    state.expanded_form.open(ExpandedFormKind::LocalModel);
    handle_main_event(key(KeyCode::Char('x')), &mut state, &registry, 160);
    assert_eq!(state.expanded_form.fields[0].value, "lmstudiox");
    handle_main_event(key(KeyCode::Backspace), &mut state, &registry, 160);
    assert_eq!(state.expanded_form.fields[0].value, "lmstudio");
    handle_main_event(key(KeyCode::Tab), &mut state, &registry, 160);
    assert_eq!(state.expanded_form.focused, 1);
    handle_main_event(key(KeyCode::Esc), &mut state, &registry, 160);
    assert!(!state.expanded_form.open);
}

#[test]
fn intro_enter_moves_to_the_main_scene() {
    let registry = CommandRegistry::new();
    let mut state = TuiState::intro("/ws".to_owned(), &RuntimeConfig::defaults(), ConfigLoadSource::Defaults, None);
    for c in "hello".chars() {
        handle_intro_event(key(KeyCode::Char(c)), &mut state, &registry, 160);
    }
    assert_eq!(state.intro_input, "hello");
    handle_intro_event(key(KeyCode::Enter), &mut state, &registry, 160);
    assert!(matches!(state.scene, Scene::Main));
    assert!(state.intro_input.is_empty());
    handle_intro_event(KeyEvent { code: KeyCode::Char('c'), control: true }, &mut state, &registry, 160);
    assert!(state.should_quit);
}
