//! Key handling of the intro and main scenes: which surface a key goes to,
//! and what the state and the reported events become.
use vstd::prelude::*;
use crate::approval::{ApprovalInputOutcome, ApprovalSurfaceState, APPROVAL_OPTION_COUNT};
use crate::command::{CommandInputOutcome, CommandRegistry};
use crate::expanded_form::{ExpandedFormEvents, ExpandedFormState};
use crate::key_input::{handle_approval_event, handle_prompt_event, spec_approval_key, spec_prompt_effect, KeyCode, KeyEvent};
use crate::persona::PersonaEvents;
use crate::state::{CommandDispatchOutcome, ExpandedFormOutcome, TuiState};
use crate::text::{spec_trim, trim};
use crate::working_process::WorkingProcessEvents;
use crate::workspace::{WorkspaceEvents, WorkspaceItem};

verus! {

/// What a key on the intro scene reported.
pub struct IntroAction {
    pub command_outcome: CommandInputOutcome,
    pub working_process_events: WorkingProcessEvents,
    pub workspace_events: WorkspaceEvents,
}

/// What a key on the main scene reported.
pub struct MainAction {
    pub command_outcome: CommandInputOutcome,
    pub approval_outcome: ApprovalInputOutcome,
    pub working_process_events: WorkingProcessEvents,
    pub workspace_events: WorkspaceEvents,
    pub persona_events: PersonaEvents,
    pub expanded_form_events: ExpandedFormEvents,
}

impl MainAction {
    pub open spec fn is_none(&self) -> bool {
        &&& self.command_outcome.is_none()
        &&& self.approval_outcome.is_none()
        &&& self.working_process_events.is_none()
        &&& self.workspace_events.events@.len() == 0
        &&& self.persona_events.events@.len() == 0
        &&& self.expanded_form_events.events@.len() == 0
    }

    fn none() -> (r: Self)
        ensures
            r.is_none(),
    {
        MainAction {
            command_outcome: CommandInputOutcome::none(),
            approval_outcome: ApprovalInputOutcome::none(),
            working_process_events: WorkingProcessEvents::none(),
            workspace_events: WorkspaceEvents::none(),
            persona_events: PersonaEvents::none(),
            expanded_form_events: ExpandedFormEvents::none(),
        }
    }

    /// The dispatch part of the action.
    pub open spec fn dispatch_part(&self) -> CommandDispatchOutcome {
        CommandDispatchOutcome {
            approval_outcome: self.approval_outcome,
            workspace_events: self.workspace_events,
            persona_events: self.persona_events,
            expanded_form_events: self.expanded_form_events,
        }
    }
}

/// A key the main prompt handled, then the command it picked applied:
/// `mid` is the state between the two.
pub open spec fn spec_main_prompt_step(
    old_s: TuiState,
    mid: TuiState,
    new_s: TuiState,
    event: KeyEvent,
    registry: CommandRegistry,
    width: u16,
    r: MainAction,
) -> bool {
    &&& mid == (TuiState { main_input: mid.main_input, command_surface: mid.command_surface, ..old_s })
    &&& spec_prompt_effect(
        event,
        old_s.main_input@,
        mid.main_input@,
        old_s.command_surface,
        mid.command_surface,
        registry,
        old_s.scene.spec_as_str(),
        old_s.working_process.spec_active(),
        r.command_outcome,
    )
    &&& TuiState::spec_dispatch(mid, new_s, r.command_outcome.dispatch, width, r.dispatch_part())
    &&& r.working_process_events.is_none()
}

/// A key on the open expanded form.
pub open spec fn spec_form_key(old_s: TuiState, new_s: TuiState, event: KeyEvent, r: MainAction) -> bool {
    let before = old_s.expanded_form;
    let after = new_s.expanded_form;
    let form_only = new_s == (TuiState { expanded_form: after, ..old_s }) && r.workspace_events.events@.len() == 0;
    &&& r.command_outcome.is_none()
    &&& r.approval_outcome.is_none()
    &&& r.working_process_events.is_none()
    &&& r.persona_events.events@.len() == 0
    &&& match event.code {
        KeyCode::Esc => form_only && ExpandedFormState::spec_cancelled(before, after, r.expanded_form_events),
        KeyCode::Tab => form_only && ExpandedFormState::spec_focused_next(before, after)
            && r.expanded_form_events.events@.len() == 0,
        KeyCode::BackTab => form_only && ExpandedFormState::spec_focused_previous(before, after)
            && r.expanded_form_events.events@.len() == 0,
        KeyCode::Enter => TuiState::spec_form_submitted(
            old_s,
            new_s,
            ExpandedFormOutcome { workspace_events: r.workspace_events, expanded_form_events: r.expanded_form_events },
        ),
        KeyCode::Backspace => form_only && ExpandedFormState::spec_backspaced(before, after, r.expanded_form_events),
        KeyCode::Char(c) => form_only && ExpandedFormState::spec_char_pushed(before, after, c, r.expanded_form_events),
        _ => new_s == old_s && r.workspace_events.events@.len() == 0 && r.expanded_form_events.events@.len() == 0,
    }
}

/// A key on the open approval surface: the surface handles it, and a
/// recorded result leaves its line in the log.
pub open spec fn spec_approval_step(old_s: TuiState, new_s: TuiState, event: KeyEvent, r: MainAction) -> bool {
    &&& spec_approval_key(event, old_s.approval_surface, new_s.approval_surface, r.approval_outcome)
    &&& new_s == (TuiState { approval_surface: new_s.approval_surface, workspace: new_s.workspace, ..old_s })
    &&& match r.approval_outcome.workspace_line {
        Some(line) => new_s.workspace.spec_items() == old_s.workspace.spec_items().push(
            WorkspaceItem::Result { text: line },
        ),
        None => new_s.workspace == old_s.workspace,
    }
    &&& r.command_outcome.is_none()
    &&& r.working_process_events.is_none()
    &&& r.persona_events.events@.len() == 0
    &&& r.expanded_form_events.events@.len() == 0
}

/// What a key does on the main scene. Escape cancels running work first;
/// otherwise, unless Control is held, an open form, approval surface or
/// command surface takes the key. Then Control-C and Escape quit, Enter
/// submits a non-blank prompt, Up and Down scroll the log, and any other key
/// goes to the prompt, whose picked command is applied.
pub open spec fn spec_main_event(
    old_s: TuiState,
    new_s: TuiState,
    event: KeyEvent,
    registry: CommandRegistry,
    width: u16,
    r: MainAction,
) -> bool {
    let through_prompt = exists|mid: TuiState| #[trigger]
        spec_main_prompt_step(old_s, mid, new_s, event, registry, width, r);
    if old_s.working_process.spec_active() && event.code is Esc {
        let before = old_s.workspace.spec_items();
        let after = new_s.workspace.spec_items();
        &&& !new_s.working_process.spec_active()
        &&& after.len() == before.len() + 1
        &&& after.subrange(0, before.len() as int) == before
        &&& crate::state::is_result_with(after.last(), "Working process canceled."@)
        &&& new_s == (TuiState { working_process: new_s.working_process, workspace: new_s.workspace, ..old_s })
        &&& r.command_outcome.is_none()
        &&& r.approval_outcome.is_none()
        &&& r.persona_events.events@.len() == 0
        &&& r.expanded_form_events.events@.len() == 0
    } else if old_s.expanded_form.open && !event.control {
        spec_form_key(old_s, new_s, event, r)
    } else if old_s.approval_surface.open && !event.control {
        spec_approval_step(old_s, new_s, event, r)
    } else if old_s.command_surface.open && !event.control {
        through_prompt
    } else {
        match event.code {
            KeyCode::Char(c) => if c == 'c' && event.control {
                r.is_none() && new_s == (TuiState { should_quit: true, ..old_s })
            } else {
                through_prompt
            },
            KeyCode::Esc => r.is_none() && new_s == (TuiState { should_quit: true, ..old_s }),
            KeyCode::Enter => if spec_trim(old_s.main_input@).len() == 0 {
                r.is_none() && new_s == old_s
            } else {
                &&& TuiState::spec_work_started(old_s, new_s, spec_trim(old_s.main_input@))
                &&& r.command_outcome.is_none()
                &&& r.approval_outcome.is_none()
                &&& r.persona_events.events@.len() == 0
                &&& r.expanded_form_events.events@.len() == 0
            },
            KeyCode::Up | KeyCode::Down => {
                let total = crate::workspace::spec_total_lines(old_s.workspace.spec_items());
                let max = if total == 0 { 0 } else { total - 1 };
                &&& new_s == (TuiState { workspace: new_s.workspace, ..old_s })
                &&& new_s.workspace.spec_items() == old_s.workspace.spec_items()
                &&& new_s.workspace.spec_scroll() == crate::approval::spec_clamp(
                    old_s.workspace.spec_scroll() as int,
                    if event.code is Up { -1 } else { 1 },
                    max as int,
                )
                &&& r.command_outcome.is_none()
                &&& r.approval_outcome.is_none()
                &&& r.working_process_events.is_none()
                &&& r.persona_events.events@.len() == 0
                &&& r.expanded_form_events.events@.len() == 0
            },
            _ => through_prompt,
        }
    }
}

/// Handles a key on the main scene; `terminal_width` is the width a
/// persona panel request is judged against.
pub fn handle_main_event(event: KeyEvent, state: &mut TuiState, registry: &CommandRegistry, terminal_width: u16) -> (r:
    MainAction)
    requires
        registry.well_formed(),
        old(state).approval_surface.open ==> old(state).approval_surface.selected < APPROVAL_OPTION_COUNT,
    ensures
        spec_main_event(*old(state), *final(state), event, *registry, terminal_width, r),
{
    if state.working_process.is_active() && event.code == KeyCode::Esc {
        let runtime_outcome = state.cancel_working_process();
        return MainAction {
            command_outcome: CommandInputOutcome::none(),
            approval_outcome: ApprovalInputOutcome::none(),
            working_process_events: runtime_outcome.working_process_events,
            workspace_events: runtime_outcome.workspace_events,
            persona_events: PersonaEvents::none(),
            expanded_form_events: ExpandedFormEvents::none(),
        };
    }
    if state.expanded_form.open && !event.control {
        return handle_expanded_form_event(event, state);
    }
    if state.approval_surface.open && !event.control {
        let approval_outcome = handle_approval_event(event, &mut state.approval_surface);
        let mut workspace_events = WorkspaceEvents::none();
        if let Some(workspace_line) = &approval_outcome.workspace_line {
            workspace_events.extend(state.record_workspace_line(workspace_line.clone()));
        }
        return MainAction {
            command_outcome: CommandInputOutcome::none(),
            approval_outcome,
            working_process_events: WorkingProcessEvents::none(),
            workspace_events,
            persona_events: PersonaEvents::none(),
            expanded_form_events: ExpandedFormEvents::none(),
        };
    }
    if state.command_surface.open && !event.control {
        return main_prompt_event(event, state, registry, terminal_width);
    }
    match event.code {
        KeyCode::Char(c) => {
            if c == 'c' && event.control {
                state.should_quit = true;
                MainAction::none()
            } else {
                main_prompt_event(event, state, registry, terminal_width)
            }
        },
        KeyCode::Esc => {
            state.should_quit = true;
            MainAction::none()
        },
        KeyCode::Enter => {
            let prompt = trim(state.main_input.as_str());
            if prompt.as_str().unicode_len() == 0 {
                MainAction::none()
            } else {
                let prompt_outcome = state.start_working_process();
                MainAction {
                    command_outcome: CommandInputOutcome::none(),
                    approval_outcome: ApprovalInputOutcome::none(),
                    working_process_events: prompt_outcome.working_process_events,
                    workspace_events: prompt_outcome.workspace_events,
                    persona_events: PersonaEvents::none(),
                    expanded_form_events: ExpandedFormEvents::none(),
                }
            }
        },
        KeyCode::Up => MainAction {
            command_outcome: CommandInputOutcome::none(),
            approval_outcome: ApprovalInputOutcome::none(),
            working_process_events: WorkingProcessEvents::none(),
            workspace_events: state.scroll_workspace(-1),
            persona_events: PersonaEvents::none(),
            expanded_form_events: ExpandedFormEvents::none(),
        },
        KeyCode::Down => MainAction {
            command_outcome: CommandInputOutcome::none(),
            approval_outcome: ApprovalInputOutcome::none(),
            working_process_events: WorkingProcessEvents::none(),
            workspace_events: state.scroll_workspace(1),
            persona_events: PersonaEvents::none(),
            expanded_form_events: ExpandedFormEvents::none(),
        },
        _ => main_prompt_event(event, state, registry, terminal_width),
    }
}

fn main_prompt_event(event: KeyEvent, state: &mut TuiState, registry: &CommandRegistry, terminal_width: u16) -> (r:
    MainAction)
    requires
        registry.well_formed(),
    ensures
        exists|mid: TuiState| #[trigger]
            spec_main_prompt_step(*old(state), mid, *final(state), event, *registry, terminal_width, r),
{
    let ghost old_state = *state;
    let scene = state.scene.as_str();
    let busy = state.working_process.is_active();
    let command_outcome = handle_prompt_event(
        event,
        &mut state.main_input,
        &mut state.command_surface,
        registry,
        scene,
        busy,
    );
    let ghost mid = *state;
    assert(mid == (TuiState { main_input: mid.main_input, command_surface: mid.command_surface, ..old_state }));
    let dispatch_outcome = state.apply_command_dispatch(command_outcome.dispatch, terminal_width);
    let r = MainAction {
        command_outcome,
        approval_outcome: dispatch_outcome.approval_outcome,
        working_process_events: WorkingProcessEvents::none(),
        workspace_events: dispatch_outcome.workspace_events,
        persona_events: dispatch_outcome.persona_events,
        expanded_form_events: dispatch_outcome.expanded_form_events,
    };
    assert(r.dispatch_part() == dispatch_outcome);
    assert(spec_main_prompt_step(old_state, mid, *state, event, *registry, terminal_width, r));
    r
}

fn handle_expanded_form_event(event: KeyEvent, state: &mut TuiState) -> (r: MainAction)
    ensures
        spec_form_key(*old(state), *final(state), event, r),
{
    let outcome = match event.code {
        KeyCode::Esc => state.cancel_expanded_form(),
        KeyCode::Tab => {
            state.focus_next_expanded_form_field();
            ExpandedFormOutcome { workspace_events: WorkspaceEvents::none(), expanded_form_events: ExpandedFormEvents::none() }
        },
        KeyCode::BackTab => {
            state.focus_previous_expanded_form_field();
            ExpandedFormOutcome { workspace_events: WorkspaceEvents::none(), expanded_form_events: ExpandedFormEvents::none() }
        },
        KeyCode::Enter => state.submit_expanded_form(),
        KeyCode::Backspace => state.backspace_expanded_form(),
        KeyCode::Char(value) => state.update_expanded_form_char(value),
        _ => ExpandedFormOutcome { workspace_events: WorkspaceEvents::none(), expanded_form_events: ExpandedFormEvents::none() },
    };
    MainAction {
        command_outcome: CommandInputOutcome::none(),
        approval_outcome: ApprovalInputOutcome::none(),
        working_process_events: WorkingProcessEvents::none(),
        workspace_events: outcome.workspace_events,
        persona_events: PersonaEvents::none(),
        expanded_form_events: outcome.expanded_form_events,
    }
}

/// A key the intro prompt handled, then the command it picked applied, its
/// outcome `d` being dropped: `mid` is the state between the two.
pub open spec fn spec_intro_prompt_step(
    old_s: TuiState,
    mid: TuiState,
    new_s: TuiState,
    d: CommandDispatchOutcome,
    event: KeyEvent,
    registry: CommandRegistry,
    width: u16,
    r: IntroAction,
) -> bool {
    &&& mid == (TuiState { intro_input: mid.intro_input, command_surface: mid.command_surface, ..old_s })
    &&& spec_prompt_effect(
        event,
        old_s.intro_input@,
        mid.intro_input@,
        old_s.command_surface,
        mid.command_surface,
        registry,
        old_s.scene.spec_as_str(),
        false,
        r.command_outcome,
    )
    &&& TuiState::spec_dispatch(mid, new_s, r.command_outcome.dispatch, width, d)
    &&& r.working_process_events.is_none()
    &&& r.workspace_events.events@.len() == 0
}

/// What a key does on the intro scene: an open command surface takes it
/// unless Control is held; Control-C quits, Escape does nothing, Enter
/// submits the prompt, and any other key goes to the prompt, whose picked
/// command is applied.
pub open spec fn spec_intro_event(
    old_s: TuiState,
    new_s: TuiState,
    event: KeyEvent,
    registry: CommandRegistry,
    width: u16,
    r: IntroAction,
) -> bool {
    let through_prompt = exists|mid: TuiState, d: CommandDispatchOutcome| #[trigger]
        spec_intro_prompt_step(old_s, mid, new_s, d, event, registry, width, r);
    let nothing = r.command_outcome.is_none() && r.working_process_events.is_none() && r.workspace_events.events@.len()
        == 0;
    if old_s.command_surface.open && !event.control {
        through_prompt
    } else {
        match event.code {
            KeyCode::Char(c) => if c == 'c' && event.control {
                nothing && new_s == (TuiState { should_quit: true, ..old_s })
            } else {
                through_prompt
            },
            KeyCode::Esc => nothing && new_s == old_s,
            KeyCode::Enter => r.command_outcome.is_none() && TuiState::spec_intro_submitted(
                old_s,
                new_s,
                crate::state::PromptSubmitOutcome {
                    working_process_events: r.working_process_events,
                    workspace_events: r.workspace_events,
                },
            ),
            _ => through_prompt,
        }
    }
}

/// Handles a key on the intro scene; `terminal_width` is the width a
/// persona panel request is judged against.
pub fn handle_intro_event(event: KeyEvent, state: &mut TuiState, registry: &CommandRegistry, terminal_width: u16) -> (r:
    IntroAction)
    requires
        registry.well_formed(),
    ensures
        spec_intro_event(*old(state), *final(state), event, *registry, terminal_width, r),
{
    if state.command_surface.open && !event.control {
        return intro_prompt_event(event, state, registry, terminal_width);
    }
    match event.code {
        KeyCode::Char(c) => {
            if c == 'c' && event.control {
                state.should_quit = true;
                IntroAction {
                    command_outcome: CommandInputOutcome::none(),
                    working_process_events: WorkingProcessEvents::none(),
                    workspace_events: WorkspaceEvents::none(),
                }
            } else {
                intro_prompt_event(event, state, registry, terminal_width)
            }
        },
        KeyCode::Esc => IntroAction {
            command_outcome: CommandInputOutcome::none(),
            working_process_events: WorkingProcessEvents::none(),
            workspace_events: WorkspaceEvents::none(),
        },
        KeyCode::Enter => {
            let prompt_outcome = state.enter_main_with_prompt();
            IntroAction {
                command_outcome: CommandInputOutcome::none(),
                working_process_events: prompt_outcome.working_process_events,
                workspace_events: prompt_outcome.workspace_events,
            }
        },
        _ => intro_prompt_event(event, state, registry, terminal_width),
    }
}

fn intro_prompt_event(event: KeyEvent, state: &mut TuiState, registry: &CommandRegistry, terminal_width: u16) -> (r:
    IntroAction)
    requires
        registry.well_formed(),
    ensures
        exists|mid: TuiState, d: CommandDispatchOutcome| #[trigger]
            spec_intro_prompt_step(*old(state), mid, *final(state), d, event, *registry, terminal_width, r),
{
    let ghost old_state = *state;
    let scene = state.scene.as_str();
    let command_outcome = handle_prompt_event(
        event,
        &mut state.intro_input,
        &mut state.command_surface,
        registry,
        scene,
        false,
    );
    let ghost mid = *state;
    assert(mid == (TuiState { intro_input: mid.intro_input, command_surface: mid.command_surface, ..old_state }));
    let dispatch_outcome = state.apply_command_dispatch(command_outcome.dispatch, terminal_width);
    let r = IntroAction {
        command_outcome,
        working_process_events: WorkingProcessEvents::none(),
        workspace_events: WorkspaceEvents::none(),
    };
    assert(spec_intro_prompt_step(old_state, mid, *state, dispatch_outcome, event, *registry, terminal_width, r));
    r
}

} // verus!
