//! The whole TUI state: which scene is shown, the inputs, every surface, the
//! workspace log, the persona panel and the runtime status line.
use vstd::prelude::*;
use crate::approval::{open_approval_surface, ApprovalInputOutcome, ApprovalSurfaceState};
use crate::command::{CommandDispatch, CommandRuntimeLabels, CommandSurfaceState};
use crate::config::{
    ConfigLoadSource, RuntimeConfig, DEFAULT_MODEL, DEFAULT_PROVIDER, DEFAULT_PROVIDER_DISPLAY,
    DEFAULT_RUNTIME_STATE, DEFAULT_TOKEN_STATUS, GOODBYE_LABEL, SESSION_SAVED_LABEL,
};
use crate::expanded_form::{ExpandedFormEvents, ExpandedFormKind, ExpandedFormState, ExpandedFormSubmit};
use crate::persona::{
    PersonaBuffer, PersonaEvent, PersonaEvents, PersonaMessage, PersonaRendered, MIN_PERSONA_TERMINAL_WIDTH,
};
use crate::text::{decimal, spec_decimal, spec_trim, str_eq, trim};
use crate::working_process::{WorkingProcessEvents, WorkingProcessState};
use crate::workspace::{spec_outputs_added, WorkspaceBuffer, WorkspaceEvents, WorkspaceItem, WorkspaceRendered};

verus! {

#[derive(Clone, Copy, Debug, PartialEq, Eq, Structural)]
pub enum Scene {
    Intro,
    Main,
    Epilogue,
}

impl Scene {
    pub open spec fn spec_as_str(self) -> Seq<char> {
        match self {
            Scene::Intro => "intro"@,
            Scene::Main => "workspace"@,
            Scene::Epilogue => "epilogue"@,
        }
    }

    pub fn as_str(self) -> (r: &'static str)
        ensures
            r@ == self.spec_as_str(),
    {
        match self {
            Scene::Intro => "intro",
            Scene::Main => "workspace",
            Scene::Epilogue => "epilogue",
        }
    }
}

#[derive(Clone, Copy, Debug, PartialEq, Eq, Structural)]
pub enum PersonaPanelState {
    Off,
    Full,
}

impl PersonaPanelState {
    pub fn is_full(self) -> (r: bool)
        ensures
            r == (self is Full),
    {
        self == PersonaPanelState::Full
    }
}

/// What the status line and the status shell show.
pub struct RuntimeStatus {
    pub mode: String,
    pub provider: String,
    pub provider_display: String,
    pub model: String,
    pub base_url: String,
    pub workspace: String,
    pub context: String,
    pub context_tokens: u32,
    pub tokens: &'static str,
    pub web: &'static str,
    pub runtime_state: &'static str,
    pub config_source: String,
    pub config_warning: Option<String>,
}

/// The display name of a provider: the built-in one has a friendly name.
pub open spec fn spec_provider_display(provider: Seq<char>) -> Seq<char> {
    if provider == DEFAULT_PROVIDER@ { DEFAULT_PROVIDER_DISPLAY@ } else { provider }
}

fn provider_display_name(provider: &str) -> (r: String)
    ensures
        r@ == spec_provider_display(provider@),
{
    if str_eq(provider, DEFAULT_PROVIDER) {
        String::from_str(DEFAULT_PROVIDER_DISPLAY)
    } else {
        String::from_str(provider)
    }
}

impl RuntimeStatus {
    fn new(workspace: String, config: &RuntimeConfig, config_source: ConfigLoadSource, config_warning: Option<&str>) -> (r: Self)
        ensures
            r.mode@ == config.mode.default@,
            r.provider@ == config.provider.active@,
            r.provider_display@ == spec_provider_display(config.provider.active@),
            r.model@ == config.provider.model@,
            r.base_url@ == config.provider.base_url@,
            r.workspace == workspace,
            r.context@ == "ctx "@ + spec_decimal(config.provider.context_tokens as nat),
            r.context_tokens == config.provider.context_tokens,
            r.tokens@ == DEFAULT_TOKEN_STATUS@,
            r.web@ == if config.web.enabled { "web on"@ } else { "web off"@ },
            r.runtime_state@ == DEFAULT_RUNTIME_STATE@,
            r.config_source@ == config_source.spec_as_str(),
            match config_warning {
                Some(w) => r.config_warning matches Some(x) && x@ == w@,
                None => r.config_warning is None,
            },
    {
        RuntimeStatus {
            mode: config.mode.default.clone(),
            provider: config.provider.active.clone(),
            provider_display: provider_display_name(config.provider.active.as_str()),
            model: config.provider.model.clone(),
            base_url: config.provider.base_url.clone(),
            workspace,
            context: String::from_str("ctx ").concat(decimal(config.provider.context_tokens as u64).as_str()),
            context_tokens: config.provider.context_tokens,
            tokens: DEFAULT_TOKEN_STATUS,
            web: if config.web.enabled { "web on" } else { "web off" },
            runtime_state: DEFAULT_RUNTIME_STATE,
            config_source: String::from_str(config_source.as_str()),
            config_warning: match config_warning {
                Some(w) => Some(String::from_str(w)),
                None => None,
            },
        }
    }

    /// The labels the command surface shows for the current runtime.
    pub fn command_labels(&self) -> (r: CommandRuntimeLabels<'_>)
        ensures
            r.mode@ == self.mode@,
            r.provider_display@ == self.provider_display@,
            r.model@ == self.model@,
            r.base_url@ == self.base_url@,
    {
        CommandRuntimeLabels {
            mode: self.mode.as_str(),
            provider_display: self.provider_display.as_str(),
            model: self.model.as_str(),
            base_url: self.base_url.as_str(),
        }
    }
}

/// What the epilogue shows when the session ends.
pub struct EpilogueSummary {
    pub workspace: String,
    pub model: String,
    pub mode: String,
    pub session: &'static str,
    pub tools_executed: u16,
    pub tools_failed: u16,
    pub closing_message: &'static str,
}

impl EpilogueSummary {
    fn from_runtime(status: &RuntimeStatus) -> (r: Self)
        ensures
            r.workspace@ == status.workspace@,
            r.model@ == status.model@,
            r.mode@ == status.mode@,
            r.session@ == SESSION_SAVED_LABEL@,
            r.tools_executed == 0,
            r.tools_failed == 0,
            r.closing_message@ == GOODBYE_LABEL@,
    {
        EpilogueSummary {
            workspace: status.workspace.clone(),
            model: status.model.clone(),
            mode: status.mode.clone(),
            session: SESSION_SAVED_LABEL,
            tools_executed: 0,
            tools_failed: 0,
            closing_message: GOODBYE_LABEL,
        }
    }
}

pub struct PromptSubmitOutcome {
    pub working_process_events: WorkingProcessEvents,
    pub workspace_events: WorkspaceEvents,
}

impl PromptSubmitOutcome {
    pub open spec fn is_none(&self) -> bool {
        self.working_process_events.is_none() && self.workspace_events.events@.len() == 0
    }

    pub fn none() -> (r: Self)
        ensures
            r.is_none(),
    {
        PromptSubmitOutcome { working_process_events: WorkingProcessEvents::none(), workspace_events: WorkspaceEvents::none() }
    }
}

pub struct WorkingRuntimeOutcome {
    pub working_process_events: WorkingProcessEvents,
    pub workspace_events: WorkspaceEvents,
}

pub struct ExpandedFormOutcome {
    pub workspace_events: WorkspaceEvents,
    pub expanded_form_events: ExpandedFormEvents,
}

pub struct CommandDispatchOutcome {
    pub approval_outcome: ApprovalInputOutcome,
    pub workspace_events: WorkspaceEvents,
    pub persona_events: PersonaEvents,
    pub expanded_form_events: ExpandedFormEvents,
}

impl CommandDispatchOutcome {
    pub open spec fn is_none(&self) -> bool {
        &&& self.approval_outcome.is_none()
        &&& self.workspace_events.events@.len() == 0
        &&& self.persona_events.events@.len() == 0
        &&& self.expanded_form_events.events@.len() == 0
    }

    pub fn none() -> (r: Self)
        ensures
            r.is_none(),
    {
        CommandDispatchOutcome {
            approval_outcome: ApprovalInputOutcome::none(),
            workspace_events: WorkspaceEvents::none(),
            persona_events: PersonaEvents::none(),
            expanded_form_events: ExpandedFormEvents::none(),
        }
    }
}

/// The status shell lines: mode and config source, provider and model,
/// base URL and context size, and the configuration warning if any.
pub open spec fn spec_status_lines(s: RuntimeStatus) -> Seq<Seq<char>> {
    seq![
        "mode "@ + s.mode@ + " | config "@ + s.config_source@,
        "provider "@ + s.provider@ + " | model "@ + s.model@,
        "base_url "@ + s.base_url@ + " | context "@ + spec_decimal(s.context_tokens as nat),
    ] + match s.config_warning {
        Some(w) => seq!["config warning "@ + w@],
        None => Seq::empty(),
    }
}

/// `after` is `before` with one system notice per line appended.
pub open spec fn spec_notices_appended(before: Seq<WorkspaceItem>, after: Seq<WorkspaceItem>, lines: Seq<Seq<char>>) -> bool {
    &&& after.len() == before.len() + lines.len()
    &&& after.subrange(0, before.len() as int) == before
    &&& forall|i: int| 0 <= i < lines.len() ==> is_notice_with(#[trigger] after[before.len() + i], lines[i])
}

/// Only the workspace log changed between `before` and `after`: items were
/// appended at the end, the scroll offset stayed, and a redraw is pending
/// once anything was appended.
pub open spec fn spec_only_log_appended(before: TuiState, after: TuiState) -> bool {
    &&& after == (TuiState { workspace: after.workspace, ..before })
    &&& after.workspace.spec_scroll() == before.workspace.spec_scroll()
    &&& after.workspace.spec_render_pending() == (before.workspace.spec_render_pending()
        || after.workspace.spec_items().len() > before.workspace.spec_items().len())
}

/// `after` is `before` with one system notice holding `text` appended.
pub open spec fn spec_one_notice_pushed(before: Seq<WorkspaceItem>, after: Seq<WorkspaceItem>, text: Seq<char>) -> bool {
    &&& after.len() == before.len() + 1
    &&& after.subrange(0, before.len() as int) == before
    &&& is_notice_with(after.last(), text)
}

pub open spec fn is_notice_with(item: WorkspaceItem, text: Seq<char>) -> bool {
    match item {
        WorkspaceItem::SystemNotice { text: t } => t@ == text,
        _ => false,
    }
}

pub open spec fn is_result_with(item: WorkspaceItem, text: Seq<char>) -> bool {
    match item {
        WorkspaceItem::Result { text: t } => t@ == text,
        _ => false,
    }
}

pub struct TuiState {
    pub scene: Scene,
    pub intro_input: String,
    pub main_input: String,
    pub pending_prompt: Option<String>,
    pub command_surface: CommandSurfaceState,
    pub approval_surface: ApprovalSurfaceState,
    pub expanded_form: ExpandedFormState,
    pub working_process: WorkingProcessState,
    pub workspace: WorkspaceBuffer,
    pub persona_panel: PersonaPanelState,
    pub persona: PersonaBuffer,
    pub status_shell_open: bool,
    pub should_quit: bool,
    pub runtime_status: RuntimeStatus,
    pub epilogue_summary: Option<EpilogueSummary>,
}


pub open spec fn spec_width_notice() -> Seq<char> {
    "페르소나 메시지는 터미널 가로폭 "@ + spec_decimal(MIN_PERSONA_TERMINAL_WIDTH as nat) + " 이상에서만 동작합니다."@
}

pub open spec fn spec_lead_ack() -> Seq<char> {
    "요청을 확인했습니다. 작업 흐름은 왼쪽 기록과 분리해서 지켜보겠습니다."@
}

pub open spec fn spec_manager_ack() -> Seq<char> {
    "요청을 작업 흐름으로 정리했습니다."@
}

impl TuiState {
    /// The intro scene over a fresh runtime status.
    pub fn intro(workspace: String, config: &RuntimeConfig, config_source: ConfigLoadSource, config_warning: Option<&str>) -> (r: Self)
        ensures
            r.scene is Intro,
            r.intro_input@.len() == 0 && r.main_input@.len() == 0,
            r.pending_prompt is None,
            r.command_surface.is_closed(),
            r.approval_surface.is_closed(),
            r.expanded_form.is_closed(),
            !r.working_process.spec_active(),
            r.workspace.spec_items().len() == 0,
            r.persona_panel is Off,
            r.persona.spec_messages().len() == 0,
            !r.status_shell_open,
            !r.should_quit,
            r.runtime_status.workspace == workspace,
            r.runtime_status.mode@ == config.mode.default@,
            r.runtime_status.model@ == config.provider.model@,
            r.epilogue_summary is None,
    {
        TuiState {
            scene: Scene::Intro,
            intro_input: String::new(),
            main_input: String::new(),
            pending_prompt: None,
            command_surface: CommandSurfaceState::new(),
            approval_surface: ApprovalSurfaceState::new(),
            expanded_form: ExpandedFormState::new(),
            working_process: WorkingProcessState::new(),
            workspace: WorkspaceBuffer::new(),
            persona_panel: PersonaPanelState::Off,
            persona: PersonaBuffer::new(),
            status_shell_open: false,
            should_quit: false,
            runtime_status: RuntimeStatus::new(workspace, config, config_source, config_warning),
            epilogue_summary: None,
        }
    }

    /// The same state as `intro`, in the main scene.
    pub fn main(workspace: String, config: &RuntimeConfig, config_source: ConfigLoadSource, config_warning: Option<&str>) -> (r: Self)
        ensures
            r.scene is Main,
            r.workspace.spec_items().len() == 0,
            r.persona_panel is Off,
            !r.should_quit,
            r.runtime_status.workspace == workspace,
    {
        let mut state = Self::intro(workspace, config, config_source, config_warning);
        state.scene = Scene::Main;
        state
    }

    /// The same state as `intro`, already ended.
    pub fn epilogue(workspace: String, config: &RuntimeConfig, config_source: ConfigLoadSource, config_warning: Option<&str>) -> (r: Self)
        ensures
            r.scene is Epilogue,
            r.should_quit,
            r.epilogue_summary matches Some(e) && e.workspace@ == workspace@ && e.model@ == config.provider.model@,
    {
        let mut state = Self::intro(workspace, config, config_source, config_warning);
        state.request_exit();
        state
    }

    /// Ends the session: the epilogue summarizes the runtime status.
    pub fn request_exit(&mut self)
        ensures
            final(self).scene is Epilogue,
            final(self).should_quit,
            final(self).epilogue_summary matches Some(e) && e.workspace@ == old(self).runtime_status.workspace@
                && e.model@ == old(self).runtime_status.model@ && e.mode@ == old(self).runtime_status.mode@
                && e.tools_executed == 0 && e.tools_failed == 0,
            final(self).workspace.spec_items() == old(self).workspace.spec_items(),
            final(self).runtime_status == old(self).runtime_status,
            final(self).intro_input == old(self).intro_input,
            final(self).main_input == old(self).main_input,
            *final(self) == (TuiState {
                epilogue_summary: final(self).epilogue_summary,
                scene: Scene::Epilogue,
                should_quit: true,
                ..*old(self)
            }),
    {
        self.epilogue_summary = Some(EpilogueSummary::from_runtime(&self.runtime_status));
        self.scene = Scene::Epilogue;
        self.should_quit = true;
    }

    /// Submits the intro prompt: a blank prompt does nothing; otherwise the
    /// main scene opens with the prompt started as work.
    pub fn enter_main_with_prompt(&mut self) -> (r: PromptSubmitOutcome)
        ensures
            Self::spec_intro_submitted(*old(self), *final(self), r),
    {
        let prompt = trim(self.intro_input.as_str());
        if prompt.as_str().unicode_len() == 0 {
            return PromptSubmitOutcome::none();
        }
        self.pending_prompt = Some(prompt);
        self.intro_input = String::new();
        self.main_input = String::new();
        self.command_surface.close();
        self.scene = Scene::Main;
        self.start_working_process_for_prompt()
    }

    /// Submitting the intro prompt: a blank prompt does nothing; otherwise the
    /// main scene opens, both inputs are cleared and work starts on the
    /// trimmed prompt.
    pub open spec fn spec_intro_submitted(old_s: TuiState, new_s: TuiState, r: PromptSubmitOutcome) -> bool {
        let prompt = spec_trim(old_s.intro_input@);
        if prompt.len() == 0 {
            r.is_none() && new_s == old_s
        } else {
            &&& new_s.scene is Main
            &&& new_s.intro_input@.len() == 0
            &&& new_s.command_surface.is_closed()
            &&& Self::spec_work_started(old_s, new_s, prompt)
        }
    }

    /// Work started on `prompt`: the main input is cleared, the prompt is
    /// pending, the working process runs and the log shows the prompt and
    /// the manager's acknowledgement.
    pub open spec fn spec_work_started(old_s: TuiState, new_s: TuiState, prompt: Seq<char>) -> bool {
        &&& new_s.main_input@.len() == 0
        &&& new_s.pending_prompt matches Some(p) && p@ == prompt
        &&& new_s.working_process.spec_active()
        &&& Self::spec_started(old_s.workspace.spec_items(), new_s.workspace.spec_items(), prompt)
    }

    /// The workspace after starting work on `prompt`: the prompt block, then
    /// the manager's acknowledgement.
    pub open spec fn spec_started(before: Seq<WorkspaceItem>, after: Seq<WorkspaceItem>, prompt: Seq<char>) -> bool {
        &&& after.len() == before.len() + 2
        &&& after.subrange(0, before.len() as int) == before
        &&& after[before.len() as int] matches WorkspaceItem::UserPrompt { text } && text@ == prompt
        &&& after[(before.len() + 1) as int] matches WorkspaceItem::ManagerMessage { text } && text@ == spec_manager_ack()
    }

    /// Submits the main input the same way.
    pub fn start_working_process(&mut self) -> (r: PromptSubmitOutcome)
        ensures
            spec_trim(old(self).main_input@).len() == 0 ==> r.is_none() && *final(self) == *old(self),
            spec_trim(old(self).main_input@).len() > 0 ==> Self::spec_work_started(
                *old(self),
                *final(self),
                spec_trim(old(self).main_input@),
            ),
    {
        let prompt = trim(self.main_input.as_str());
        if prompt.as_str().unicode_len() == 0 {
            return PromptSubmitOutcome::none();
        }
        self.pending_prompt = Some(prompt);
        self.start_working_process_for_prompt()
    }

    fn start_working_process_for_prompt(&mut self) -> (r: PromptSubmitOutcome)
        requires
            old(self).pending_prompt is Some,
        ensures
            final(self).main_input@.len() == 0,
            final(self).pending_prompt == old(self).pending_prompt,
            final(self).scene == old(self).scene,
            final(self).intro_input == old(self).intro_input,
            final(self).working_process.spec_active(),
            final(self).command_surface.is_closed(),
            final(self).approval_surface.is_closed(),
            final(self).persona_panel == old(self).persona_panel,
            Self::spec_started(old(self).workspace.spec_items(), final(self).workspace.spec_items(), old(self).pending_prompt->0@),
            old(self).persona_panel is Full ==> final(self).persona.spec_messages().len() > 0
                && final(self).persona.spec_messages().last().speaker is Lead
                && final(self).persona.spec_messages().last().body@ == spec_lead_ack(),
            old(self).persona_panel is Off ==> final(self).persona.spec_messages() == old(self).persona.spec_messages(),
    {
        let prompt = match &self.pending_prompt {
            Some(p) => p.clone(),
            None => String::new(),
        };
        let ghost before = self.workspace.spec_items();
        let mut workspace_events = self.workspace.push_user_prompt(prompt);
        self.main_input = String::new();
        self.command_surface.close();
        self.approval_surface.close();
        self.expanded_form.cancel();
        let working_process_events = self.working_process.start();
        workspace_events.extend(self.workspace.push_manager_message(String::from_str("요청을 작업 흐름으로 정리했습니다.")));
        assert(self.workspace.spec_items().subrange(0, before.len() as int) =~= before);
        if self.persona_panel == PersonaPanelState::Full {
            let ghost msgs = self.persona.spec_messages();
            self.persona.push_message(PersonaMessage::team_lead(
                "요청을 확인했습니다. 작업 흐름은 왼쪽 기록과 분리해서 지켜보겠습니다.",
            ));
            proof {
                crate::persona::lemma_push_message_respects_retention(msgs, self.persona.spec_messages().last());
            }
        }
        PromptSubmitOutcome { working_process_events, workspace_events }
    }

    pub fn record_workspace_line(&mut self, text: String) -> (r: WorkspaceEvents)
        ensures
            final(self).workspace.spec_items() == old(self).workspace.spec_items().push(WorkspaceItem::Result { text }),
            *final(self) == (TuiState { workspace: final(self).workspace, ..*old(self) }),
            spec_only_log_appended(*old(self), *final(self)),
            spec_outputs_added(r.events@, 1, "result"@),
    {
        self.workspace.push_result(text)
    }

    pub fn record_system_notice(&mut self, text: String) -> (r: WorkspaceEvents)
        ensures
            final(self).workspace.spec_items() == old(self).workspace.spec_items().push(WorkspaceItem::SystemNotice { text }),
            spec_only_log_appended(*old(self), *final(self)),
            spec_outputs_added(r.events@, 1, "system_notice"@),
    {
        self.workspace.push_system_notice(text)
    }

    pub fn record_answer(&mut self, text: String) -> (r: WorkspaceEvents)
        ensures
            final(self).workspace.spec_items() == old(self).workspace.spec_items().push(WorkspaceItem::AssistantAnswer { text }),
            spec_only_log_appended(*old(self), *final(self)),
            spec_outputs_added(r.events@, 1, "assistant_answer"@),
    {
        self.workspace.push_answer(text)
    }

    fn record_working_workspace_items(&mut self, events: &WorkingProcessEvents) -> (r: WorkspaceEvents)
        ensures
            match events.workspace_line {
                Some(line) => final(self).workspace.spec_items() == old(self).workspace.spec_items().push(
                    WorkspaceItem::Result { text: line },
                ),
                None => *final(self) == *old(self) && r.events@.len() == 0,
            },
            *final(self) == (TuiState { workspace: final(self).workspace, ..*old(self) }),
    {
        let mut workspace_events = WorkspaceEvents::none();
        if let Some(line) = &events.workspace_line {
            workspace_events.extend(self.workspace.push_result(line.clone()));
        }
        workspace_events
    }

    /// Completes the running work.
    pub fn complete_working_process(&mut self) -> (r: WorkingRuntimeOutcome)
        ensures
            !final(self).working_process.spec_active(),
            final(self).working_process.spec_phase() == old(self).working_process.spec_phase(),
            !old(self).working_process.spec_active() ==> r.working_process_events.is_none(),
            old(self).working_process.spec_active() ==> r.working_process_events.events@ == seq![
                crate::working_process::WorkingProcessEvent::Finished {
                    reason: crate::working_process::WorkingFinishReason::Completed,
                },
            ],
            r.workspace_events.events@.len() == 0,
            *final(self) == (TuiState { working_process: final(self).working_process, ..*old(self) }),
    {
        let working_process_events = self.working_process.complete();
        let workspace_events = self.record_working_workspace_items(&working_process_events);
        WorkingRuntimeOutcome { working_process_events, workspace_events }
    }

    pub fn tick_working_process(&mut self) -> (r: WorkingRuntimeOutcome)
        ensures
            final(self).working_process.spec_active() == old(self).working_process.spec_active(),
            final(self).working_process.spec_phase() == old(self).working_process.spec_phase(),
            final(self).workspace.spec_items() == old(self).workspace.spec_items(),
            r.working_process_events.is_none(),
            r.workspace_events.events@.len() == 0,
            *final(self) == (TuiState { working_process: final(self).working_process, ..*old(self) }),
    {
        let working_process_events = self.working_process.tick();
        let workspace_events = self.record_working_workspace_items(&working_process_events);
        WorkingRuntimeOutcome { working_process_events, workspace_events }
    }

    /// Cancels the running work; a canceled run leaves its line in the log.
    pub fn cancel_working_process(&mut self) -> (r: WorkingRuntimeOutcome)
        ensures
            !final(self).working_process.spec_active(),
            !old(self).working_process.spec_active() ==> final(self).workspace.spec_items() == old(self).workspace.spec_items(),
            old(self).working_process.spec_active() ==> final(self).workspace.spec_items().len()
                == old(self).workspace.spec_items().len() + 1
                && final(self).workspace.spec_items().subrange(0, old(self).workspace.spec_items().len() as int)
                == old(self).workspace.spec_items()
                && is_result_with(final(self).workspace.spec_items().last(), "Working process canceled."@),
            *final(self) == (TuiState {
                working_process: final(self).working_process,
                workspace: final(self).workspace,
                ..*old(self)
            }),
    {
        let working_process_events = self.working_process.cancel();
        let workspace_events = self.record_working_workspace_items(&working_process_events);
        WorkingRuntimeOutcome { working_process_events, workspace_events }
    }

    /// Shows the main scene for runtime output and closes every surface.
    pub fn enter_main_for_runtime_output(&mut self)
        ensures
            old(self).scene is Intro ==> final(self).scene is Main && final(self).intro_input@.len() == 0
                && final(self).main_input@.len() == 0,
            !(old(self).scene is Intro) ==> final(self).scene == old(self).scene
                && final(self).intro_input == old(self).intro_input && final(self).main_input == old(self).main_input,
            final(self).command_surface.is_closed(),
            final(self).approval_surface.is_closed(),
            !final(self).expanded_form.open,
            final(self).workspace.spec_items() == old(self).workspace.spec_items(),
    {
        if self.scene == Scene::Intro {
            self.scene = Scene::Main;
            self.intro_input = String::new();
            self.main_input = String::new();
        }
        self.command_surface.close();
        self.approval_surface.close();
        self.expanded_form.cancel();
    }

    pub fn scroll_workspace(&mut self, delta: isize) -> (r: WorkspaceEvents)
        ensures
            final(self).workspace.spec_items() == old(self).workspace.spec_items(),
            ({
                let total = crate::workspace::spec_total_lines(old(self).workspace.spec_items());
                let max = if total == 0 { 0 } else { total - 1 };
                final(self).workspace.spec_scroll() == crate::approval::spec_clamp(
                    old(self).workspace.spec_scroll() as int,
                    delta as int,
                    max as int,
                )
            }),
            *final(self) == (TuiState { workspace: final(self).workspace, ..*old(self) }),
    {
        self.workspace.scroll(delta)
    }

    pub fn take_workspace_render_event(&mut self) -> (r: Option<WorkspaceRendered>)
        ensures
            final(self).workspace.spec_items() == old(self).workspace.spec_items(),
            final(self).workspace.spec_scroll() == old(self).workspace.spec_scroll(),
            *final(self) == (TuiState { workspace: final(self).workspace, ..*old(self) }),
            !final(self).workspace.spec_render_pending(),
            old(self).workspace.spec_render_pending() == (r is Some),
    {
        self.workspace.take_render_event()
    }

    pub fn cancel_expanded_form(&mut self) -> (r: ExpandedFormOutcome)
        ensures
            ExpandedFormState::spec_cancelled(old(self).expanded_form, final(self).expanded_form, r.expanded_form_events),
            !final(self).expanded_form.open,
            r.workspace_events.events@.len() == 0,
            *final(self) == (TuiState { expanded_form: final(self).expanded_form, ..*old(self) }),
    {
        ExpandedFormOutcome { workspace_events: WorkspaceEvents::none(), expanded_form_events: self.expanded_form.cancel() }
    }

    pub fn focus_next_expanded_form_field(&mut self)
        ensures
            ExpandedFormState::spec_focused_next(old(self).expanded_form, final(self).expanded_form),
            *final(self) == (TuiState { expanded_form: final(self).expanded_form, ..*old(self) }),
    {
        self.expanded_form.focus_next();
    }

    pub fn focus_previous_expanded_form_field(&mut self)
        ensures
            ExpandedFormState::spec_focused_previous(old(self).expanded_form, final(self).expanded_form),
            *final(self) == (TuiState { expanded_form: final(self).expanded_form, ..*old(self) }),
    {
        self.expanded_form.focus_previous();
    }

    pub fn update_expanded_form_char(&mut self, value: char) -> (r: ExpandedFormOutcome)
        ensures
            ExpandedFormState::spec_char_pushed(
                old(self).expanded_form,
                final(self).expanded_form,
                value,
                r.expanded_form_events,
            ),
            r.workspace_events.events@.len() == 0,
            *final(self) == (TuiState { expanded_form: final(self).expanded_form, ..*old(self) }),
    {
        ExpandedFormOutcome { workspace_events: WorkspaceEvents::none(), expanded_form_events: self.expanded_form.push_char(value) }
    }

    pub fn backspace_expanded_form(&mut self) -> (r: ExpandedFormOutcome)
        ensures
            ExpandedFormState::spec_backspaced(old(self).expanded_form, final(self).expanded_form, r.expanded_form_events),
            r.workspace_events.events@.len() == 0,
            *final(self) == (TuiState { expanded_form: final(self).expanded_form, ..*old(self) }),
    {
        ExpandedFormOutcome { workspace_events: WorkspaceEvents::none(), expanded_form_events: self.expanded_form.backspace() }
    }

    /// Submits the form; a valid submission leaves its notice in the log.
    pub fn submit_expanded_form(&mut self) -> (r: ExpandedFormOutcome)
        ensures
            Self::spec_form_submitted(*old(self), *final(self), r),
    {
        let ghost before = self.workspace.spec_items();
        let ExpandedFormSubmit { submitted, events, notice } = self.expanded_form.submit();
        let workspace_events = if submitted {
            match notice {
                Some(value) => {
                    let e = self.workspace.push_system_notice(value);
                    assert(self.workspace.spec_items().subrange(0, before.len() as int) =~= before);
                    e
                },
                None => WorkspaceEvents::none(),
            }
        } else {
            WorkspaceEvents::none()
        };
        ExpandedFormOutcome { workspace_events, expanded_form_events: events }
    }

    /// Applies a command picked on the command surface.
    pub fn apply_command_dispatch(&mut self, dispatch: CommandDispatch, terminal_width: u16) -> (r: CommandDispatchOutcome)
        ensures
            Self::spec_dispatch(*old(self), *final(self), dispatch, terminal_width, r),
    {
        match dispatch {
            CommandDispatch::NoOp => CommandDispatchOutcome::none(),
            CommandDispatch::HealthCheck => CommandDispatchOutcome::none(),
            CommandDispatch::ExitRequested => {
                self.request_exit();
                CommandDispatchOutcome::none()
            },
            CommandDispatch::StatusShell => {
                self.status_shell_open = true;
                let workspace_events = self.push_status_summary();
                CommandDispatchOutcome {
                    approval_outcome: ApprovalInputOutcome::none(),
                    workspace_events,
                    persona_events: PersonaEvents::none(),
                    expanded_form_events: ExpandedFormEvents::none(),
                }
            },
            CommandDispatch::ApprovalShell => {
                self.command_surface.close();
                let approval_outcome = open_approval_surface(&mut self.approval_surface);
                CommandDispatchOutcome {
                    approval_outcome,
                    workspace_events: WorkspaceEvents::none(),
                    persona_events: PersonaEvents::none(),
                    expanded_form_events: ExpandedFormEvents::none(),
                }
            },
            CommandDispatch::ModeGuide => self.set_mode("Guide"),
            CommandDispatch::ModeCrew => self.set_mode("Crew"),
            CommandDispatch::ModePilot => self.set_mode("Pilot"),
            CommandDispatch::ProviderLmStudio => self.set_provider(DEFAULT_PROVIDER),
            CommandDispatch::ModelGemma => self.set_model(DEFAULT_MODEL),
            CommandDispatch::OpenLocalProviderForm => self.open_expanded_form(ExpandedFormKind::LocalProvider),
            CommandDispatch::OpenLocalModelForm => self.open_expanded_form(ExpandedFormKind::LocalModel),
            CommandDispatch::OpenDocsInitForm => self.open_expanded_form(ExpandedFormKind::DocsInit),
            CommandDispatch::DocsInitPrepare => self.open_expanded_form(ExpandedFormKind::DocsInit),
            CommandDispatch::OpenInitForm => self.open_expanded_form(ExpandedFormKind::InitInstructions),
            CommandDispatch::InitPrepare => self.open_expanded_form(ExpandedFormKind::InitInstructions),
            CommandDispatch::PersonaFull => self.open_persona_full(terminal_width),
            CommandDispatch::PersonaOff => self.close_persona(),
            CommandDispatch::PersonaClose => self.close_persona(),
        }
    }

    /// The form a dispatch opens, if it opens one.
    pub open spec fn spec_dispatch_form(dispatch: CommandDispatch) -> Option<ExpandedFormKind> {
        match dispatch {
            CommandDispatch::OpenLocalProviderForm => Some(ExpandedFormKind::LocalProvider),
            CommandDispatch::OpenLocalModelForm => Some(ExpandedFormKind::LocalModel),
            CommandDispatch::OpenDocsInitForm => Some(ExpandedFormKind::DocsInit),
            CommandDispatch::DocsInitPrepare => Some(ExpandedFormKind::DocsInit),
            CommandDispatch::OpenInitForm => Some(ExpandedFormKind::InitInstructions),
            CommandDispatch::InitPrepare => Some(ExpandedFormKind::InitInstructions),
            _ => None,
        }
    }

    /// The mode a dispatch selects, if it selects one.
    pub open spec fn spec_dispatch_mode(dispatch: CommandDispatch) -> Option<Seq<char>> {
        match dispatch {
            CommandDispatch::ModeGuide => Some("Guide"@),
            CommandDispatch::ModeCrew => Some("Crew"@),
            CommandDispatch::ModePilot => Some("Pilot"@),
            _ => None,
        }
    }

    /// What a dispatch does to the state and what it reports.
    pub open spec fn spec_dispatch(old_s: TuiState, new_s: TuiState, dispatch: CommandDispatch, width: u16, r: CommandDispatchOutcome) -> bool {
        let before = old_s.workspace.spec_items();
        let after = new_s.workspace.spec_items();
        if dispatch is NoOp || dispatch is HealthCheck {
            r.is_none() && new_s == old_s
        } else if dispatch is ExitRequested {
            &&& r.is_none()
            &&& new_s.scene is Epilogue
            &&& new_s.should_quit
            &&& new_s.epilogue_summary matches Some(e) && e.workspace@ == old_s.runtime_status.workspace@
                && e.model@ == old_s.runtime_status.model@ && e.mode@ == old_s.runtime_status.mode@
            &&& after == before
        } else if dispatch is StatusShell {
            &&& new_s.status_shell_open
            &&& spec_notices_appended(before, after, spec_status_lines(old_s.runtime_status))
            &&& r.workspace_events.events@.len() == spec_status_lines(old_s.runtime_status).len()
            &&& r.approval_outcome.is_none()
            &&& r.persona_events.events@.len() == 0
            &&& r.expanded_form_events.events@.len() == 0
        } else if dispatch is ApprovalShell {
            &&& new_s.command_surface.is_closed()
            &&& new_s.approval_surface.open
            &&& r.approval_outcome.events@ == seq![crate::approval::ApprovalInputEvent::SurfaceOpened]
            &&& r.workspace_events.events@.len() == 0
            &&& after == before
        } else if Self::spec_dispatch_mode(dispatch) is Some || dispatch is ProviderLmStudio || dispatch is ModelGemma {
            &&& match Self::spec_dispatch_mode(dispatch) {
                Some(mode) => new_s.runtime_status.mode@ == mode
                    && spec_one_notice_pushed(before, after, "mode set to "@ + mode),
                None => if dispatch is ProviderLmStudio {
                    &&& new_s.runtime_status.provider@ == DEFAULT_PROVIDER@
                    &&& new_s.runtime_status.provider_display@ == DEFAULT_PROVIDER@
                    &&& spec_one_notice_pushed(before, after, "provider set to "@ + DEFAULT_PROVIDER@)
                } else {
                    &&& new_s.runtime_status.model@ == DEFAULT_MODEL@
                    &&& spec_one_notice_pushed(before, after, "model set to "@ + DEFAULT_MODEL@)
                },
            }
            &&& r.approval_outcome.is_none()
            &&& r.persona_events.events@.len() == 0
            &&& r.expanded_form_events.events@.len() == 0
        } else if Self::spec_dispatch_form(dispatch) is Some {
            &&& new_s.command_surface.is_closed()
            &&& new_s.expanded_form.open
            &&& new_s.expanded_form.kind == Self::spec_dispatch_form(dispatch)->0
            &&& r.expanded_form_events.events@ == seq![
                crate::expanded_form::ExpandedFormEvent::Opened { kind: Self::spec_dispatch_form(dispatch)->0 },
            ]
            &&& r.approval_outcome.is_none()
            &&& r.workspace_events.events@.len() == 0
            &&& r.persona_events.events@.len() == 0
            &&& after == before
        } else if dispatch is PersonaFull {
            if width < MIN_PERSONA_TERMINAL_WIDTH {
                &&& new_s.persona_panel == old_s.persona_panel
                &&& spec_one_notice_pushed(before, after, spec_width_notice())
                &&& r.persona_events.events@ == seq![PersonaEvent::WidthRejected { width, min_width: MIN_PERSONA_TERMINAL_WIDTH }]
                &&& r.approval_outcome.is_none()
            } else if old_s.persona_panel is Full {
                r.is_none() && new_s == old_s
            } else {
                &&& new_s.persona_panel is Full
                &&& r.persona_events.events@ == seq![PersonaEvent::PanelOpened]
                &&& r.workspace_events.events@.len() == 0
                &&& after == before
            }
        } else {
            if old_s.persona_panel is Off {
                r.is_none() && new_s == old_s
            } else {
                &&& new_s.persona_panel is Off
                &&& r.persona_events.events@ == seq![PersonaEvent::PanelClosed]
                &&& r.workspace_events.events@.len() == 0
                &&& after == before
            }
        }
    }

    fn open_expanded_form(&mut self, kind: ExpandedFormKind) -> (r: CommandDispatchOutcome)
        ensures
            final(self).command_surface.is_closed(),
            final(self).expanded_form.open,
            final(self).expanded_form.kind == kind,
            r.expanded_form_events.events@ == seq![crate::expanded_form::ExpandedFormEvent::Opened { kind }],
            r.approval_outcome.is_none(),
            r.workspace_events.events@.len() == 0,
            r.persona_events.events@.len() == 0,
            final(self).workspace == old(self).workspace,
    {
        self.command_surface.close();
        let expanded_form_events = self.expanded_form.open(kind);
        CommandDispatchOutcome {
            approval_outcome: ApprovalInputOutcome::none(),
            workspace_events: WorkspaceEvents::none(),
            persona_events: PersonaEvents::none(),
            expanded_form_events,
        }
    }

    fn open_persona_full(&mut self, terminal_width: u16) -> (r: CommandDispatchOutcome)
        ensures
            Self::spec_dispatch(*old(self), *final(self), CommandDispatch::PersonaFull, terminal_width, r),
    {
        if terminal_width < MIN_PERSONA_TERMINAL_WIDTH {
            let text = String::from_str("페르소나 메시지는 터미널 가로폭 ")
                .concat(decimal(MIN_PERSONA_TERMINAL_WIDTH as u64).as_str())
                .concat(" 이상에서만 동작합니다.");
            let ghost before = self.workspace.spec_items();
            let workspace_events = self.workspace.push_system_notice(text);
            assert(self.workspace.spec_items().subrange(0, before.len() as int) =~= before);
            return CommandDispatchOutcome {
                approval_outcome: ApprovalInputOutcome::none(),
                workspace_events,
                persona_events: PersonaEvents::single(
                    PersonaEvent::WidthRejected { width: terminal_width, min_width: MIN_PERSONA_TERMINAL_WIDTH },
                ),
                expanded_form_events: ExpandedFormEvents::none(),
            };
        }
        if self.persona_panel == PersonaPanelState::Full {
            return CommandDispatchOutcome::none();
        }
        self.persona_panel = PersonaPanelState::Full;
        CommandDispatchOutcome {
            approval_outcome: ApprovalInputOutcome::none(),
            workspace_events: WorkspaceEvents::none(),
            persona_events: PersonaEvents::single(PersonaEvent::PanelOpened),
            expanded_form_events: ExpandedFormEvents::none(),
        }
    }

    fn close_persona(&mut self) -> (r: CommandDispatchOutcome)
        ensures
            Self::spec_dispatch(*old(self), *final(self), CommandDispatch::PersonaOff, 0, r),
            Self::spec_dispatch(*old(self), *final(self), CommandDispatch::PersonaClose, 0, r),
    {
        if self.persona_panel == PersonaPanelState::Off {
            return CommandDispatchOutcome::none();
        }
        self.persona_panel = PersonaPanelState::Off;
        CommandDispatchOutcome {
            approval_outcome: ApprovalInputOutcome::none(),
            workspace_events: WorkspaceEvents::none(),
            persona_events: PersonaEvents::single(PersonaEvent::PanelClosed),
            expanded_form_events: ExpandedFormEvents::none(),
        }
    }

    fn push_setting_notice(&mut self, field: &str, value: &str) -> (r: CommandDispatchOutcome)
        ensures
            spec_one_notice_pushed(old(self).workspace.spec_items(), final(self).workspace.spec_items(), field@ + " set to "@ + value@),
            final(self).runtime_status == old(self).runtime_status,
            r.approval_outcome.is_none(),
            r.persona_events.events@.len() == 0,
            r.expanded_form_events.events@.len() == 0,
    {
        let text = String::from_str(field).concat(" set to ").concat(value);
        let ghost before = self.workspace.spec_items();
        let workspace_events = self.workspace.push_system_notice(text);
        assert(self.workspace.spec_items().subrange(0, before.len() as int) =~= before);
        CommandDispatchOutcome {
            approval_outcome: ApprovalInputOutcome::none(),
            workspace_events,
            persona_events: PersonaEvents::none(),
            expanded_form_events: ExpandedFormEvents::none(),
        }
    }

    fn set_mode(&mut self, mode: &'static str) -> (r: CommandDispatchOutcome)
        ensures
            final(self).runtime_status.mode@ == mode@,
            spec_one_notice_pushed(old(self).workspace.spec_items(), final(self).workspace.spec_items(), "mode set to "@ + mode@),
            r.approval_outcome.is_none(),
            r.persona_events.events@.len() == 0,
            r.expanded_form_events.events@.len() == 0,
    {
        self.runtime_status.mode = String::from_str(mode);
        let r = self.push_setting_notice("mode", mode);
        proof {
            reveal_strlit("mode");
            reveal_strlit(" set to ");
            reveal_strlit("mode set to ");
            assert("mode"@ + " set to "@ + mode@ =~= "mode set to "@ + mode@);
        }
        r
    }

    fn set_provider(&mut self, provider: &'static str) -> (r: CommandDispatchOutcome)
        ensures
            final(self).runtime_status.provider@ == provider@,
            final(self).runtime_status.provider_display@ == provider@,
            spec_one_notice_pushed(old(self).workspace.spec_items(), final(self).workspace.spec_items(), "provider set to "@ + provider@),
            r.approval_outcome.is_none(),
            r.persona_events.events@.len() == 0,
            r.expanded_form_events.events@.len() == 0,
    {
        self.runtime_status.provider = String::from_str(provider);
        self.runtime_status.provider_display = String::from_str(provider);
        let r = self.push_setting_notice("provider", provider);
        proof {
            reveal_strlit("provider");
            reveal_strlit(" set to ");
            reveal_strlit("provider set to ");
            assert("provider"@ + " set to "@ + provider@ =~= "provider set to "@ + provider@);
        }
        r
    }

    fn set_model(&mut self, model: &'static str) -> (r: CommandDispatchOutcome)
        ensures
            final(self).runtime_status.model@ == model@,
            spec_one_notice_pushed(old(self).workspace.spec_items(), final(self).workspace.spec_items(), "model set to "@ + model@),
            r.approval_outcome.is_none(),
            r.persona_events.events@.len() == 0,
            r.expanded_form_events.events@.len() == 0,
    {
        self.runtime_status.model = String::from_str(model);
        let r = self.push_setting_notice("model", model);
        proof {
            reveal_strlit("model");
            reveal_strlit(" set to ");
            reveal_strlit("model set to ");
            assert("model"@ + " set to "@ + model@ =~= "model set to "@ + model@);
        }
        r
    }

    fn push_status_summary(&mut self) -> (r: WorkspaceEvents)
        ensures
            spec_notices_appended(old(self).workspace.spec_items(), final(self).workspace.spec_items(), spec_status_lines(old(self).runtime_status)),
            r.events@.len() == spec_status_lines(old(self).runtime_status).len(),
            final(self).runtime_status == old(self).runtime_status,
            final(self).status_shell_open == old(self).status_shell_open,
    {
        let ghost before = self.workspace.spec_items();
        let ghost lines = spec_status_lines(self.runtime_status);
        let line0 = String::from_str("mode ").concat(self.runtime_status.mode.as_str()).concat(" | config ").concat(
            self.runtime_status.config_source.as_str(),
        );
        let line1 = String::from_str("provider ").concat(self.runtime_status.provider.as_str()).concat(" | model ").concat(
            self.runtime_status.model.as_str(),
        );
        let line2 = String::from_str("base_url ").concat(self.runtime_status.base_url.as_str()).concat(" | context ").concat(
            decimal(self.runtime_status.context_tokens as u64).as_str(),
        );
        assert(line0@ == lines[0]);
        assert(line1@ == lines[1]);
        assert(line2@ == lines[2]);
        let mut events = self.workspace.push_system_notice(line0);
        events.extend(self.workspace.push_system_notice(line1));
        events.extend(self.workspace.push_system_notice(line2));
        let warning = match &self.runtime_status.config_warning {
            Some(w) => Some(String::from_str("config warning ").concat(w.as_str())),
            None => None,
        };
        if let Some(line3) = warning {
            assert(line3@ == lines[3]);
            events.extend(self.workspace.push_system_notice(line3));
        }
        let ghost after = self.workspace.spec_items();
        assert(after.subrange(0, before.len() as int) =~= before);
        assert(forall|i: int| 0 <= i < lines.len() ==> is_notice_with(#[trigger] after[before.len() + i], lines[i]));
        events
    }

    /// Submitting the form: an invalid form keeps its fields and shows the
    /// validation message; a valid one closes and leaves a notice in the log.
    pub open spec fn spec_form_submitted(old_s: TuiState, new_s: TuiState, r: ExpandedFormOutcome) -> bool {
        let before = old_s.expanded_form;
        let after = new_s.expanded_form;
        &&& new_s == (TuiState { expanded_form: after, workspace: new_s.workspace, ..old_s })
        &&& match crate::expanded_form::spec_validate(before.fields@) {
            Some(message) => {
                &&& after.validation_message matches Some(m) && m@ == message
                &&& after.open == before.open
                &&& after.kind == before.kind
                &&& after.fields == before.fields
                &&& after.focused == before.focused
                &&& r.expanded_form_events.events@.len() == 0
                &&& r.workspace_events.events@.len() == 0
                &&& new_s.workspace == old_s.workspace
            },
            None => {
                &&& after.is_closed()
                &&& r.expanded_form_events.events@ == seq![
                    crate::expanded_form::ExpandedFormEvent::Submitted { kind: before.kind },
                ]
                &&& spec_one_notice_pushed(
                    old_s.workspace.spec_items(),
                    new_s.workspace.spec_items(),
                    "expanded form submitted: "@ + before.kind.spec_as_str(),
                )
            },
        }
    }

    pub fn take_persona_render_event(&mut self) -> (r: Option<PersonaRendered>)
        ensures
            final(self).persona.spec_messages() == old(self).persona.spec_messages(),
            *final(self) == (TuiState { persona: final(self).persona, ..*old(self) }),
            !final(self).persona.spec_render_pending(),
            old(self).persona.spec_render_pending() == (r is Some),
    {
        self.persona.take_render_event()
    }
}

/// Picking an option of the `/mode` picker sets the mode that option names
/// (its label, less a " (current)" mark) and announces it.
pub proof fn lemma_mode_pick_sets_its_label(
    i: int,
    old_s: TuiState,
    new_s: TuiState,
    width: u16,
    r: CommandDispatchOutcome,
)
    requires
        0 <= i < crate::command::spec_picker_options(crate::command::CommandId::Mode).len(),
        TuiState::spec_dispatch(
            old_s,
            new_s,
            crate::command::spec_picker_options(crate::command::CommandId::Mode)[i].2,
            width,
            r,
        ),
    ensures
        ({
            let label = crate::command::spec_picker_options(crate::command::CommandId::Mode)[i].0;
            let mode = new_s.runtime_status.mode@;
            &&& label == mode || label == mode + " (current)"@
            &&& spec_one_notice_pushed(
                old_s.workspace.spec_items(),
                new_s.workspace.spec_items(),
                "mode set to "@ + mode,
            )
        }),
{
    reveal_strlit("Guide");
    reveal_strlit("Crew");
    reveal_strlit("Pilot");
    reveal_strlit("Crew (current)");
    reveal_strlit(" (current)");
    assert("Crew (current)"@ =~= "Crew"@ + " (current)"@);
}

} // verus!
