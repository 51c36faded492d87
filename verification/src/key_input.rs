//! What a key press does to the prompt, the command surface and the approval
//! surface.
use vstd::prelude::*;
use crate::approval::{
    confirm_approval_selection, spec_clamp, ApprovalOption, ApprovalResult, spec_option_at, spec_result_for, ApprovalInputEvent, ApprovalInputOutcome,
    ApprovalSurfaceState, APPROVAL_OPTION_COUNT,
};
use crate::command::{
    confirm_command, confirm_picker_selection, spec_command_confirmed, spec_filtered, spec_follow_scroll,
    spec_picker_confirmed, spec_picker_options, CommandDispatch, CommandInputEvent, CommandInputOutcome,
    CommandRegistry, CommandSurfaceState, COMMAND_VISIBLE_ROWS,
};
use crate::text::{pop_char, push_char, spec_strip_prefix, strip_prefix};

verus! {

/// The key of a key press, as far as the surfaces tell keys apart.
#[derive(Clone, Copy, Debug, PartialEq, Eq, Structural)]
pub enum KeyCode {
    Char(char),
    Enter,
    Esc,
    Up,
    Down,
    Backspace,
    Tab,
    BackTab,
    Other,
}

/// A key press: the key and whether Control was held.
#[derive(Clone, Copy, Debug, PartialEq, Eq, Structural)]
pub struct KeyEvent {
    pub code: KeyCode,
    pub control: bool,
}

/// Enter, a newline or carriage-return character, or Control-J / Control-M.
pub open spec fn spec_is_enter(event: KeyEvent) -> bool {
    ||| event.code is Enter
    ||| event.code == KeyCode::Char('\n')
    ||| event.code == KeyCode::Char('\r')
    ||| (event.control && (event.code == KeyCode::Char('j') || event.code == KeyCode::Char('m')))
}

pub fn is_enter_event(event: &KeyEvent) -> (r: bool)
    ensures
        r == spec_is_enter(*event),
{
    match event.code {
        KeyCode::Enter => true,
        KeyCode::Char(c) => c == '\n' || c == '\r' || (event.control && (c == 'j' || c == 'm')),
        _ => false,
    }
}

/// The approval option a number key or Escape confirms directly:
/// `1` approves once, `2` and Escape deny, `3` opens the details.
pub open spec fn spec_direct_option(code: KeyCode) -> Option<usize> {
    match code {
        KeyCode::Char(c) => if c == '1' {
            Some(0usize)
        } else if c == '2' {
            Some(1usize)
        } else if c == '3' {
            Some(2usize)
        } else {
            None
        },
        KeyCode::Esc => Some(1usize),
        _ => None,
    }
}

/// The surface after confirming option `index` of an open surface, and what
/// the confirmation reports.
pub open spec fn spec_approval_confirmed(
    before: ApprovalSurfaceState,
    after: ApprovalSurfaceState,
    index: usize,
    r: ApprovalInputOutcome,
) -> bool {
    let option = spec_option_at(index as int);
    match spec_result_for(option) {
        Some(result) => {
            &&& after.is_closed()
            &&& r.events@ == seq![
                ApprovalInputEvent::OptionSelected { option },
                ApprovalInputEvent::ResultRecorded { result },
            ]
            &&& match before.request {
                Some(req) => r.workspace_line matches Some(line) && line@ == result.spec_workspace_line(req.action@),
                None => r.workspace_line is None,
            }
        },
        None => {
            &&& after.details_open
            &&& after.open == before.open
            &&& after.selected == index
            &&& after.request == before.request
            &&& r.events@ == seq![ApprovalInputEvent::OptionSelected { option }]
            &&& r.workspace_line is None
        },
    }
}

/// What a key does to the approval surface and what it reports.
pub open spec fn spec_approval_key(
    event: KeyEvent,
    before: ApprovalSurfaceState,
    after: ApprovalSurfaceState,
    r: ApprovalInputOutcome,
) -> bool {
    match spec_direct_option(event.code) {
        Some(index) => if before.open {
            spec_approval_confirmed(before, after, index, r)
        } else {
            r.is_none() && after.selected == index && after.open == before.open
                && after.request == before.request
        },
        None => if event.code is Up || event.code is Down {
            &&& r.is_none()
            &&& after.selected == spec_clamp(
                before.selected as int,
                if event.code is Up { -1 } else { 1 },
                2,
            )
            &&& after.open == before.open
            &&& after.request == before.request
        } else if spec_is_enter(event) && before.open {
            spec_approval_confirmed(before, after, before.selected, r)
        } else {
            r.is_none() && after == before
        },
    }
}

/// Handles a key on the approval surface. A number key or Escape confirms
/// its option; Up and Down move the highlight; Enter confirms the highlighted
/// option; other keys do nothing. A closed surface records nothing.
pub fn handle_approval_event(event: KeyEvent, approval: &mut ApprovalSurfaceState) -> (r: ApprovalInputOutcome)
    requires
        old(approval).open ==> old(approval).selected < APPROVAL_OPTION_COUNT,
    ensures
        spec_approval_key(event, *old(approval), *final(approval), r),
{
    match event.code {
        KeyCode::Char('1') => confirm_numbered_selection(approval, 0),
        KeyCode::Char('2') => confirm_numbered_selection(approval, 1),
        KeyCode::Char('3') => confirm_numbered_selection(approval, 2),
        KeyCode::Esc => confirm_numbered_selection(approval, 1),
        KeyCode::Up => {
            approval.move_selection(-1);
            ApprovalInputOutcome::none()
        },
        KeyCode::Down => {
            approval.move_selection(1);
            ApprovalInputOutcome::none()
        },
        _ => {
            if is_enter_event(&event) {
                confirm_approval_selection(approval)
            } else {
                ApprovalInputOutcome::none()
            }
        },
    }
}

fn confirm_numbered_selection(approval: &mut ApprovalSurfaceState, index: usize) -> (r: ApprovalInputOutcome)
    requires
        index < APPROVAL_OPTION_COUNT,
    ensures
        old(approval).open ==> spec_approval_confirmed(*old(approval), *final(approval), index, r),
        !old(approval).open ==> r.is_none() && final(approval).selected == index && final(approval).open
            == old(approval).open && final(approval).request == old(approval).request,
{
    approval.selected = index;
    confirm_approval_selection(approval)
}

/// The query a command input stands for: the input without its leading `/`.
pub open spec fn spec_query_of(input: Seq<char>) -> Seq<char> {
    match spec_strip_prefix(input, "/"@) {
        Some(q) => q,
        None => input,
    }
}

/// A key typed while the command surface is closed.
pub open spec fn spec_prompt_key(
    event: KeyEvent,
    input: Seq<char>,
    new_input: Seq<char>,
    surface: CommandSurfaceState,
    new_surface: CommandSurfaceState,
    r: CommandInputOutcome,
) -> bool {
    match event.code {
        KeyCode::Char(c) => if c == '/' && input.len() == 0 {
            &&& new_input == seq!['/']
            &&& new_surface.open
            &&& new_surface.query@.len() == 0
            &&& new_surface.selected == 0
            &&& new_surface.scroll == 0
            &&& new_surface.stepped_picker is None
            &&& r.events@ == seq![CommandInputEvent::SurfaceOpened]
            &&& r.dispatch == CommandDispatch::NoOp
        } else {
            new_input == input.push(c) && new_surface == surface && r.is_none()
        },
        KeyCode::Backspace => {
            &&& new_input == if input.len() == 0 { input } else { input.drop_last() }
            &&& new_surface == surface
            &&& r.is_none()
        },
        _ => new_input == input && new_surface == surface && r.is_none(),
    }
}

/// A key pressed while the command surface shows a stepped picker.
pub open spec fn spec_picker_key(
    event: KeyEvent,
    input: Seq<char>,
    new_input: Seq<char>,
    surface: CommandSurfaceState,
    new_surface: CommandSurfaceState,
    r: CommandInputOutcome,
) -> bool {
    let p = surface.stepped_picker->0;
    if spec_is_enter(event) {
        new_surface.is_closed() && spec_picker_confirmed(p, r) && new_input.len() == 0
    } else if event.code is Esc || event.code is Backspace {
        &&& new_surface.open == surface.open
        &&& new_surface.query@ == surface.query@
        &&& new_surface.stepped_picker is None
        &&& new_surface.selected == 0
        &&& new_surface.scroll == 0
        &&& new_input == input
        &&& r.is_none()
    } else if event.code is Up || event.code is Down {
        let n = spec_picker_options(p.spec_command()).len();
        let sel = if n == 0 {
            0
        } else {
            spec_clamp(p.spec_selected() as int, if event.code is Up { -1 } else { 1 }, n - 1)
        };
        &&& new_surface.stepped_picker matches Some(q) && q.spec_command() == p.spec_command()
            && q.spec_selected() == sel
        &&& new_input == input
        &&& r.events@ == seq![
            CommandInputEvent::SteppedPickerSelectionChanged { command: p.spec_command(), selected: sel as usize },
        ]
        &&& r.dispatch == CommandDispatch::NoOp
    } else {
        new_input == input && new_surface == surface && r.is_none()
    }
}

/// The surface after its query follows `input`, and the event reporting it.
pub open spec fn spec_query_updated(
    new_input: Seq<char>,
    surface: CommandSurfaceState,
    new_surface: CommandSurfaceState,
    r: CommandInputOutcome,
) -> bool {
    &&& new_surface.open == surface.open
    &&& new_surface.query@ == spec_query_of(new_input)
    &&& new_surface.selected == 0
    &&& new_surface.scroll == 0
    &&& new_surface.stepped_picker is None
    &&& r.events@.len() == 1
    &&& r.events@[0] matches CommandInputEvent::FilterChanged { query } && query@ == spec_query_of(new_input)
    &&& r.dispatch == CommandDispatch::NoOp
}

/// A key pressed while the command surface lists commands.
pub open spec fn spec_command_key(
    event: KeyEvent,
    input: Seq<char>,
    new_input: Seq<char>,
    surface: CommandSurfaceState,
    new_surface: CommandSurfaceState,
    registry: CommandRegistry,
    scene: Seq<char>,
    runtime_busy: bool,
    r: CommandInputOutcome,
) -> bool {
    if spec_is_enter(event) {
        &&& spec_command_confirmed(surface, new_surface, registry, scene, runtime_busy, r)
        &&& new_input == if r.events@.len() > 0 { Seq::<char>::empty() } else { input }
    } else {
        match event.code {
            KeyCode::Esc => new_surface.is_closed() && new_input.len() == 0 && r.is_none(),
            KeyCode::Up | KeyCode::Down => {
                let n = spec_filtered(registry.spec_commands(), surface.query@, scene).len();
                &&& new_surface.open == surface.open
                &&& new_surface.query@ == surface.query@
                &&& n == 0 ==> new_surface.selected == 0 && new_surface.scroll == 0
                &&& n > 0 ==> ({
                    let sel = spec_clamp(surface.selected as int, if event.code is Up { -1 } else { 1 }, n - 1);
                    new_surface.selected == sel && new_surface.scroll == spec_follow_scroll(
                        sel,
                        surface.scroll as int,
                        COMMAND_VISIBLE_ROWS as int,
                    )
                })
                &&& new_input == input
                &&& r.is_none()
            },
            KeyCode::Backspace => {
                let popped = if input.len() == 0 { input } else { input.drop_last() };
                &&& new_input == popped
                &&& if popped.len() == 0 {
                    new_surface.is_closed() && r.is_none()
                } else {
                    spec_query_updated(popped, surface, new_surface, r)
                }
            },
            KeyCode::Char(c) => new_input == input.push(c) && spec_query_updated(new_input, surface, new_surface, r),
            _ => new_input == input && new_surface == surface && r.is_none(),
        }
    }
}

/// What a key does to a prompt and its command surface: with the surface
/// closed it edits the prompt, with a picker open it drives the picker, and
/// otherwise it drives the command list.
pub open spec fn spec_prompt_effect(
    event: KeyEvent,
    input: Seq<char>,
    new_input: Seq<char>,
    surface: CommandSurfaceState,
    new_surface: CommandSurfaceState,
    registry: CommandRegistry,
    scene: Seq<char>,
    runtime_busy: bool,
    r: CommandInputOutcome,
) -> bool {
    if !surface.open {
        spec_prompt_key(event, input, new_input, surface, new_surface, r)
    } else if surface.stepped_picker is Some {
        spec_picker_key(event, input, new_input, surface, new_surface, r)
    } else {
        spec_command_key(event, input, new_input, surface, new_surface, registry, scene, runtime_busy, r)
    }
}

/// Handles a key in a prompt with its command surface: with the surface
/// closed, `/` on an empty prompt opens it and other keys edit the prompt;
/// with a stepped picker open, the key drives the picker; otherwise it edits
/// the command query, moves the highlight, closes the surface or confirms.
pub fn handle_prompt_event(
    event: KeyEvent,
    input: &mut String,
    surface: &mut CommandSurfaceState,
    registry: &CommandRegistry,
    scene: &str,
    runtime_busy: bool,
) -> (r: CommandInputOutcome)
    requires
        registry.well_formed(),
    ensures
        spec_prompt_effect(
            event,
            old(input)@,
            final(input)@,
            *old(surface),
            *final(surface),
            *registry,
            scene@,
            runtime_busy,
            r,
        ),
{
    if surface.open {
        return handle_command_event(event, input, surface, registry, scene, runtime_busy);
    }
    match event.code {
        KeyCode::Char(value) => {
            if value == '/' && input.as_str().unicode_len() == 0 {
                open_command_surface(input, surface)
            } else {
                push_char(input, value);
                CommandInputOutcome::none()
            }
        },
        KeyCode::Backspace => {
            pop_char(input);
            CommandInputOutcome::none()
        },
        _ => CommandInputOutcome::none(),
    }
}

fn open_command_surface(input: &mut String, surface: &mut CommandSurfaceState) -> (r: CommandInputOutcome)
    ensures
        final(input)@ == seq!['/'],
        final(surface).open,
        final(surface).query@.len() == 0,
        final(surface).selected == 0,
        final(surface).scroll == 0,
        final(surface).stepped_picker is None,
        r.events@ == seq![CommandInputEvent::SurfaceOpened],
        r.dispatch == CommandDispatch::NoOp,
{
    *input = String::new();
    push_char(input, '/');
    surface.open();
    CommandInputOutcome { events: vec![CommandInputEvent::SurfaceOpened], dispatch: CommandDispatch::NoOp }
}

fn handle_command_event(
    event: KeyEvent,
    input: &mut String,
    surface: &mut CommandSurfaceState,
    registry: &CommandRegistry,
    scene: &str,
    runtime_busy: bool,
) -> (r: CommandInputOutcome)
    requires
        registry.well_formed(),
    ensures
        old(surface).stepped_picker is Some ==> spec_picker_key(
            event,
            old(input)@,
            final(input)@,
            *old(surface),
            *final(surface),
            r,
        ),
        old(surface).stepped_picker is None ==> spec_command_key(
            event,
            old(input)@,
            final(input)@,
            *old(surface),
            *final(surface),
            *registry,
            scene@,
            runtime_busy,
            r,
        ),
{
    if surface.stepped_picker.is_some() {
        return handle_stepped_picker_event(event, input, surface);
    }
    if is_enter_event(&event) {
        let outcome = confirm_command(surface, registry, scene, runtime_busy);
        if outcome.events.len() > 0 {
            *input = String::new();
        }
        return outcome;
    }
    match event.code {
        KeyCode::Esc => {
            surface.close();
            *input = String::new();
            CommandInputOutcome::none()
        },
        KeyCode::Up => {
            let item_count = registry.filtered_for(surface.query.as_str(), scene).len();
            surface.move_selection(-1, item_count);
            CommandInputOutcome::none()
        },
        KeyCode::Down => {
            let item_count = registry.filtered_for(surface.query.as_str(), scene).len();
            surface.move_selection(1, item_count);
            CommandInputOutcome::none()
        },
        KeyCode::Backspace => {
            pop_char(input);
            if input.as_str().unicode_len() == 0 {
                surface.close();
                return CommandInputOutcome::none();
            }
            update_query(input.as_str(), surface)
        },
        KeyCode::Char(value) => {
            push_char(input, value);
            update_query(input.as_str(), surface)
        },
        _ => CommandInputOutcome::none(),
    }
}

fn handle_stepped_picker_event(event: KeyEvent, input: &mut String, surface: &mut CommandSurfaceState) -> (r:
    CommandInputOutcome)
    requires
        old(surface).stepped_picker is Some,
    ensures
        spec_picker_key(event, old(input)@, final(input)@, *old(surface), *final(surface), r),
{
    if is_enter_event(&event) {
        let outcome = confirm_picker_selection(surface);
        if outcome.events.len() > 0 {
            *input = String::new();
        }
        return outcome;
    }
    match event.code {
        KeyCode::Esc => {
            surface.back_picker_step();
            CommandInputOutcome::none()
        },
        KeyCode::Backspace => {
            surface.back_picker_step();
            CommandInputOutcome::none()
        },
        KeyCode::Up => picker_selection_changed(surface, -1),
        KeyCode::Down => picker_selection_changed(surface, 1),
        _ => CommandInputOutcome::none(),
    }
}

fn picker_selection_changed(surface: &mut CommandSurfaceState, delta: isize) -> (r: CommandInputOutcome)
    requires
        old(surface).stepped_picker is Some,
    ensures
        ({
            let p = old(surface).stepped_picker->0;
            let n = spec_picker_options(p.spec_command()).len();
            let sel = if n == 0 { 0 } else { spec_clamp(p.spec_selected() as int, delta as int, n - 1) };
            &&& final(surface).stepped_picker matches Some(q) && q.spec_command() == p.spec_command()
                && q.spec_selected() == sel
            &&& r.events@ == seq![
                CommandInputEvent::SteppedPickerSelectionChanged { command: p.spec_command(), selected: sel as usize },
            ]
            &&& r.dispatch == CommandDispatch::NoOp
        }),
{
    let selected = match surface.move_picker_selection(delta) {
        Some(s) => s,
        None => return CommandInputOutcome::none(),
    };
    let command = match &surface.stepped_picker {
        Some(picker) => picker.command(),
        None => return CommandInputOutcome::none(),
    };
    CommandInputOutcome {
        events: vec![CommandInputEvent::SteppedPickerSelectionChanged { command, selected }],
        dispatch: CommandDispatch::NoOp,
    }
}

fn update_query(input: &str, surface: &mut CommandSurfaceState) -> (r: CommandInputOutcome)
    ensures
        spec_query_updated(input@, *old(surface), *final(surface), r),
{
    let query = match strip_prefix(input, "/") {
        Some(q) => q,
        None => String::from_str(input),
    };
    surface.set_query(query.as_str());
    CommandInputOutcome { events: vec![CommandInputEvent::FilterChanged { query }], dispatch: CommandDispatch::NoOp }
}

/// On an open approval surface, `1` approves once, `2` and Escape deny (each
/// recording its result and closing the surface), and `3` opens the details
/// without recording anything.
pub proof fn lemma_approval_number_keys(
    event: KeyEvent,
    before: ApprovalSurfaceState,
    after: ApprovalSurfaceState,
    r: ApprovalInputOutcome,
)
    requires
        before.open,
        spec_approval_key(event, before, after, r),
    ensures
        event.code == KeyCode::Char('1') ==> {
            &&& r.events@ == seq![
                ApprovalInputEvent::OptionSelected { option: ApprovalOption::ApproveOnce },
                ApprovalInputEvent::ResultRecorded { result: ApprovalResult::ApprovedOnce },
            ]
            &&& !after.open
        },
        (event.code == KeyCode::Char('2') || event.code == KeyCode::Esc) ==> {
            &&& r.events@ == seq![
                ApprovalInputEvent::OptionSelected { option: ApprovalOption::Deny },
                ApprovalInputEvent::ResultRecorded { result: ApprovalResult::Denied },
            ]
            &&& !after.open
        },
        event.code == KeyCode::Char('3') ==> {
            &&& r.events@ == seq![ApprovalInputEvent::OptionSelected { option: ApprovalOption::ViewDetails }]
            &&& after.open && after.details_open
            &&& r.workspace_line is None
        },
{
}

} // verus!
