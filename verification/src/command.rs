//! The slash-command surface: the command registry, query filtering, the
//! stepped pickers, and what confirming a selection dispatches.
use vstd::prelude::*;
use crate::approval::{clamp_offset, spec_clamp};
use crate::text::{spec_starts_with, spec_trim_start, starts_with, trim_start};

verus! {

#[derive(Clone, Copy, Debug, PartialEq, Eq, Structural)]
pub enum CommandId {
    Exit,
    Quit,
    Status,
    Approval,
    Mode,
    Provider,
    Model,
    Persona,
    DocsInit,
    Init,
    PersonaFull,
    PersonaOff,
    PersonaClose,
}

impl CommandId {
    pub open spec fn spec_as_str(self) -> Seq<char> {
        match self {
            CommandId::Exit => "/exit"@,
            CommandId::Quit => "/quit"@,
            CommandId::Status => "/status"@,
            CommandId::Approval => "/approval"@,
            CommandId::Mode => "/mode"@,
            CommandId::Provider => "/provider"@,
            CommandId::Model => "/model"@,
            CommandId::Persona => "/persona"@,
            CommandId::DocsInit => "/docs-init"@,
            CommandId::Init => "/init"@,
            CommandId::PersonaFull => "/persona full"@,
            CommandId::PersonaOff => "/persona off"@,
            CommandId::PersonaClose => "/persona close"@,
        }
    }

    pub fn as_str(self) -> (r: &'static str)
        ensures
            r@ == self.spec_as_str(),
    {
        match self {
            CommandId::Exit => "/exit",
            CommandId::Quit => "/quit",
            CommandId::Status => "/status",
            CommandId::Approval => "/approval",
            CommandId::Mode => "/mode",
            CommandId::Provider => "/provider",
            CommandId::Model => "/model",
            CommandId::Persona => "/persona",
            CommandId::DocsInit => "/docs-init",
            CommandId::Init => "/init",
            CommandId::PersonaFull => "/persona full",
            CommandId::PersonaOff => "/persona off",
            CommandId::PersonaClose => "/persona close",
        }
    }
}

#[derive(Clone, Copy, Debug, PartialEq, Eq, Structural)]
pub enum CommandPresentation {
    InlineAction,
    SteppedPicker,
}

impl CommandPresentation {
    pub open spec fn spec_as_str(self) -> Seq<char> {
        match self {
            CommandPresentation::InlineAction => "InlineAction"@,
            CommandPresentation::SteppedPicker => "SteppedPicker"@,
        }
    }

    pub fn as_str(self) -> (r: &'static str)
        ensures
            r@ == self.spec_as_str(),
    {
        match self {
            CommandPresentation::InlineAction => "InlineAction",
            CommandPresentation::SteppedPicker => "SteppedPicker",
        }
    }
}

#[derive(Clone, Copy, Debug, PartialEq, Eq, Structural)]
pub enum CommandRisk {
    Low,
}

impl CommandRisk {
    pub fn as_str(self) -> (r: &'static str)
        ensures
            r@ == "low"@,
    {
        match self {
            CommandRisk::Low => "low",
        }
    }
}

pub struct CommandMetadata {
    pub id: CommandId,
    pub name: &'static str,
    pub aliases: &'static [&'static str],
    pub description: &'static str,
    pub group: &'static str,
    pub availability: &'static [&'static str],
    pub presentation: CommandPresentation,
    pub risk: CommandRisk,
}

/// The registered commands, in menu order.
pub open spec fn spec_registry_ids() -> Seq<CommandId> {
    seq![
        CommandId::Exit,
        CommandId::Quit,
        CommandId::Status,
        CommandId::Approval,
        CommandId::Mode,
        CommandId::Provider,
        CommandId::Model,
        CommandId::Persona,
        CommandId::DocsInit,
        CommandId::Init,
        CommandId::PersonaFull,
        CommandId::PersonaOff,
        CommandId::PersonaClose,
    ]
}

pub open spec fn spec_description(id: CommandId) -> Seq<char> {
    match id {
        CommandId::Exit => "exit the app"@,
        CommandId::Quit => "exit the app"@,
        CommandId::Status => "show status shell"@,
        CommandId::Approval => "show approval shell"@,
        CommandId::Mode => "choose permission mode"@,
        CommandId::Provider => "choose local LLM provider"@,
        CommandId::Model => "choose model"@,
        CommandId::Persona => "choose persona visibility"@,
        CommandId::DocsInit => "prepare docs template setup"@,
        CommandId::Init => "prepare AGENTS.md setup"@,
        CommandId::PersonaFull => "open persona messenger"@,
        CommandId::PersonaOff => "turn persona off"@,
        CommandId::PersonaClose => "close persona messenger"@,
    }
}

pub open spec fn spec_group(id: CommandId) -> Seq<char> {
    match id {
        CommandId::Exit | CommandId::Quit | CommandId::Status => "Session"@,
        CommandId::Approval => "Permission"@,
        CommandId::Mode | CommandId::Provider | CommandId::Model => "Runtime"@,
        CommandId::DocsInit | CommandId::Init => "Project"@,
        _ => "Persona"@,
    }
}

/// Session commands are offered on the intro scene too; the rest only in the
/// workspace.
pub open spec fn spec_availability(id: CommandId) -> Seq<Seq<char>> {
    match id {
        CommandId::Exit | CommandId::Quit | CommandId::Status => seq!["intro"@, "workspace"@],
        _ => seq!["workspace"@],
    }
}

pub open spec fn spec_presentation(id: CommandId) -> CommandPresentation {
    match id {
        CommandId::Mode | CommandId::Provider | CommandId::Model | CommandId::Persona
        | CommandId::DocsInit | CommandId::Init => CommandPresentation::SteppedPicker,
        _ => CommandPresentation::InlineAction,
    }
}

pub open spec fn str_views(s: Seq<&str>) -> Seq<Seq<char>> {
    s.map_values(|x: &str| x@)
}

impl CommandMetadata {
    /// The entry the registry holds for `id`.
    pub open spec fn describes(&self, id: CommandId) -> bool {
        &&& self.id == id
        &&& self.name@ == id.spec_as_str()
        &&& self.aliases@.len() == 0
        &&& self.description@ == spec_description(id)
        &&& self.group@ == spec_group(id)
        &&& str_views(self.availability@) == spec_availability(id)
        &&& self.presentation == spec_presentation(id)
        &&& self.risk == CommandRisk::Low
    }

    /// The query, once normalized, is empty or a prefix of the name or an alias.
    pub open spec fn spec_matches(&self, query: Seq<char>) -> bool {
        let q = spec_normalize_query(query);
        ||| q.len() == 0
        ||| spec_starts_with(self.name@, q)
        ||| exists|i: int| 0 <= i < self.aliases@.len() && spec_starts_with(
            #[trigger] self.aliases@[i]@,
            q,
        )
    }

    pub open spec fn spec_available_in(&self, scene: Seq<char>) -> bool {
        exists|i: int| 0 <= i < self.availability@.len() && #[trigger] self.availability@[i]@ == scene
    }

    pub open spec fn spec_listed(&self, query: Seq<char>, scene: Seq<char>) -> bool {
        self.spec_matches(query) && self.spec_available_in(scene)
    }

    fn matches(&self, query: &str) -> (r: bool)
        ensures
            r == self.spec_matches(query@),
    {
        let normalized = normalize_query(query);
        if normalized.as_str().unicode_len() == 0 {
            return true;
        }
        if starts_with(self.name, normalized.as_str()) {
            return true;
        }
        let mut i: usize = 0;
        while i < self.aliases.len()
            invariant
                i <= self.aliases@.len(),
                normalized@ == spec_normalize_query(query@),
                forall|k: int| 0 <= k < i ==> !spec_starts_with(#[trigger] self.aliases@[k]@, normalized@),
            decreases self.aliases@.len() - i,
        {
            if starts_with(self.aliases[i], normalized.as_str()) {
                return true;
            }
            i = i + 1;
        }
        false
    }

    fn available_in(&self, scene: &str) -> (r: bool)
        ensures
            r == self.spec_available_in(scene@),
    {
        let mut i: usize = 0;
        while i < self.availability.len()
            invariant
                i <= self.availability@.len(),
                forall|k: int| 0 <= k < i ==> #[trigger] self.availability@[k]@ != scene@,
            decreases self.availability@.len() - i,
        {
            if crate::text::str_eq(self.availability[i], scene) {
                return true;
            }
            i = i + 1;
        }
        false
    }
}

/// `normalize_query`: the query without leading whitespace, starting with `/`.
pub open spec fn spec_normalize_query(query: Seq<char>) -> Seq<char> {
    let t = spec_trim_start(query);
    if t.len() == 0 {
        Seq::empty()
    } else if t[0] == '/' {
        t
    } else {
        seq!['/'] + t
    }
}

pub fn normalize_query(query: &str) -> (r: String)
    ensures
        r@ == spec_normalize_query(query@),
{
    let trimmed = trim_start(query);
    let n = trimmed.as_str().unicode_len();
    if n == 0 {
        String::new()
    } else if trimmed.as_str().get_char(0) == '/' {
        trimmed
    } else {
        let out = String::from_str("/");
        proof {
            reveal_strlit("/");
        }
        out.concat(trimmed.as_str())
    }
}

pub struct CommandRegistry {
    commands: Vec<CommandMetadata>,
}

impl CommandRegistry {
    pub closed spec fn spec_commands(&self) -> Seq<CommandMetadata> {
        self.commands@
    }

    pub open spec fn well_formed(&self) -> bool {
        &&& self.spec_commands().len() == spec_registry_ids().len()
        &&& forall|i: int|
            0 <= i < self.spec_commands().len() ==> #[trigger] self.spec_commands()[i].describes(
                spec_registry_ids()[i],
            )
    }

    /// The thirteen built-in commands, in menu order.
    pub fn new() -> (r: Self)
        ensures
            r.well_formed(),
    {
        let r = CommandRegistry {
            commands: vec![
                CommandMetadata {
                    id: CommandId::Exit,
                    name: "/exit",
                    aliases: &[],
                    description: "exit the app",
                    group: "Session",
                    availability: &["intro", "workspace"],
                    presentation: CommandPresentation::InlineAction,
                    risk: CommandRisk::Low,
                },
                CommandMetadata {
                    id: CommandId::Quit,
                    name: "/quit",
                    aliases: &[],
                    description: "exit the app",
                    group: "Session",
                    availability: &["intro", "workspace"],
                    presentation: CommandPresentation::InlineAction,
                    risk: CommandRisk::Low,
                },
                CommandMetadata {
                    id: CommandId::Status,
                    name: "/status",
                    aliases: &[],
                    description: "show status shell",
                    group: "Session",
                    availability: &["intro", "workspace"],
                    presentation: CommandPresentation::InlineAction,
                    risk: CommandRisk::Low,
                },
                CommandMetadata {
                    id: CommandId::Approval,
                    name: "/approval",
                    aliases: &[],
                    description: "show approval shell",
                    group: "Permission",
                    availability: &["workspace"],
                    presentation: CommandPresentation::InlineAction,
                    risk: CommandRisk::Low,
                },
                CommandMetadata {
                    id: CommandId::Mode,
                    name: "/mode",
                    aliases: &[],
                    description: "choose permission mode",
                    group: "Runtime",
                    availability: &["workspace"],
                    presentation: CommandPresentation::SteppedPicker,
                    risk: CommandRisk::Low,
                },
                CommandMetadata {
                    id: CommandId::Provider,
                    name: "/provider",
                    aliases: &[],
                    description: "choose local LLM provider",
                    group: "Runtime",
                    availability: &["workspace"],
                    presentation: CommandPresentation::SteppedPicker,
                    risk: CommandRisk::Low,
                },
                CommandMetadata {
                    id: CommandId::Model,
                    name: "/model",
                    aliases: &[],
                    description: "choose model",
                    group: "Runtime",
                    availability: &["workspace"],
                    presentation: CommandPresentation::SteppedPicker,
                    risk: CommandRisk::Low,
                },
                CommandMetadata {
                    id: CommandId::Persona,
                    name: "/persona",
                    aliases: &[],
                    description: "choose persona visibility",
                    group: "Persona",
                    availability: &["workspace"],
                    presentation: CommandPresentation::SteppedPicker,
                    risk: CommandRisk::Low,
                },
                CommandMetadata {
                    id: CommandId::DocsInit,
                    name: "/docs-init",
                    aliases: &[],
                    description: "prepare docs template setup",
                    group: "Project",
                    availability: &["workspace"],
                    presentation: CommandPresentation::SteppedPicker,
                    risk: CommandRisk::Low,
                },
                CommandMetadata {
                    id: CommandId::Init,
                    name: "/init",
                    aliases: &[],
                    description: "prepare AGENTS.md setup",
                    group: "Project",
                    availability: &["workspace"],
                    presentation: CommandPresentation::SteppedPicker,
                    risk: CommandRisk::Low,
                },
                CommandMetadata {
                    id: CommandId::PersonaFull,
                    name: "/persona full",
                    aliases: &[],
                    description: "open persona messenger",
                    group: "Persona",
                    availability: &["workspace"],
                    presentation: CommandPresentation::InlineAction,
                    risk: CommandRisk::Low,
                },
                CommandMetadata {
                    id: CommandId::PersonaOff,
                    name: "/persona off",
                    aliases: &[],
                    description: "turn persona off",
                    group: "Persona",
                    availability: &["workspace"],
                    presentation: CommandPresentation::InlineAction,
                    risk: CommandRisk::Low,
                },
                CommandMetadata {
                    id: CommandId::PersonaClose,
                    name: "/persona close",
                    aliases: &[],
                    description: "close persona messenger",
                    group: "Persona",
                    availability: &["workspace"],
                    presentation: CommandPresentation::InlineAction,
                    risk: CommandRisk::Low,
                },
            ],
        };
        assert(str_views(r.spec_commands()[0].availability@) =~= spec_availability(CommandId::Exit));
        assert(r.spec_commands()[0].describes(CommandId::Exit));
        assert(str_views(r.spec_commands()[1].availability@) =~= spec_availability(CommandId::Quit));
        assert(r.spec_commands()[1].describes(CommandId::Quit));
        assert(str_views(r.spec_commands()[2].availability@) =~= spec_availability(CommandId::Status));
        assert(r.spec_commands()[2].describes(CommandId::Status));
        assert(str_views(r.spec_commands()[3].availability@) =~= spec_availability(CommandId::Approval));
        assert(r.spec_commands()[3].describes(CommandId::Approval));
        assert(str_views(r.spec_commands()[4].availability@) =~= spec_availability(CommandId::Mode));
        assert(r.spec_commands()[4].describes(CommandId::Mode));
        assert(str_views(r.spec_commands()[5].availability@) =~= spec_availability(CommandId::Provider));
        assert(r.spec_commands()[5].describes(CommandId::Provider));
        assert(str_views(r.spec_commands()[6].availability@) =~= spec_availability(CommandId::Model));
        assert(r.spec_commands()[6].describes(CommandId::Model));
        assert(str_views(r.spec_commands()[7].availability@) =~= spec_availability(CommandId::Persona));
        assert(r.spec_commands()[7].describes(CommandId::Persona));
        assert(str_views(r.spec_commands()[8].availability@) =~= spec_availability(CommandId::DocsInit));
        assert(r.spec_commands()[8].describes(CommandId::DocsInit));
        assert(str_views(r.spec_commands()[9].availability@) =~= spec_availability(CommandId::Init));
        assert(r.spec_commands()[9].describes(CommandId::Init));
        assert(str_views(r.spec_commands()[10].availability@) =~= spec_availability(CommandId::PersonaFull));
        assert(r.spec_commands()[10].describes(CommandId::PersonaFull));
        assert(str_views(r.spec_commands()[11].availability@) =~= spec_availability(CommandId::PersonaOff));
        assert(r.spec_commands()[11].describes(CommandId::PersonaOff));
        assert(str_views(r.spec_commands()[12].availability@) =~= spec_availability(CommandId::PersonaClose));
        assert(r.spec_commands()[12].describes(CommandId::PersonaClose));
        assert forall|i: int| 0 <= i < r.spec_commands().len() implies #[trigger] r.spec_commands()[i].describes(spec_registry_ids()[i]) by {
            if i == 0 {} else if i == 1 {} else if i == 2 {} else if i == 3 {} else if i == 4 {} else if i == 5 {} else if i == 6 {} else if i == 7 {} else if i == 8 {} else if i == 9 {} else if i == 10 {} else if i == 11 {} else {}
        }
        r
    }
}

} // verus!

verus! {

/// The registry entries offered for `query` on `scene`, in menu order.
pub open spec fn spec_filtered(
    commands: Seq<CommandMetadata>,
    query: Seq<char>,
    scene: Seq<char>,
) -> Seq<CommandMetadata> {
    commands.filter(|c: CommandMetadata| c.spec_listed(query, scene))
}

pub proof fn lemma_filter_step<A>(s: Seq<A>, i: int, p: spec_fn(A) -> bool)
    requires
        0 <= i < s.len(),
    ensures
        s.subrange(0, i + 1).filter(p) == if p(s[i]) {
            s.subrange(0, i).filter(p).push(s[i])
        } else {
            s.subrange(0, i).filter(p)
        },
{
    reveal_with_fuel(Seq::filter, 1);
    assert(s.subrange(0, i + 1).drop_last() =~= s.subrange(0, i));
}

impl CommandRegistry {
    pub fn filtered_for(&self, query: &str, scene: &str) -> (r: Vec<&CommandMetadata>)
        ensures
            r@.map_values(|c: &CommandMetadata| *c) == spec_filtered(
                self.spec_commands(),
                query@,
                scene@,
            ),
    {
        let mut out: Vec<&CommandMetadata> = Vec::new();
        let mut i: usize = 0;
        let ghost p = |c: CommandMetadata| c.spec_listed(query@, scene@);
        while i < self.commands.len()
            invariant
                i <= self.commands@.len(),
                p == (|c: CommandMetadata| c.spec_listed(query@, scene@)),
                out@.map_values(|c: &CommandMetadata| *c) == self.commands@.subrange(
                    0,
                    i as int,
                ).filter(p),
            decreases self.commands@.len() - i,
        {
            proof {
                lemma_filter_step(self.commands@, i as int, p);
            }
            let command = &self.commands[i];
            assert(p(self.commands@[i as int]) == self.commands@[i as int].spec_listed(query@, scene@));
            let listed = command.matches(query) && command.available_in(scene);
            if listed {
                let ghost before = out@;
                out.push(command);
                assert(out@.map_values(|c: &CommandMetadata| *c) =~= before.map_values(
                    |c: &CommandMetadata| *c,
                ).push(*command));
            }
            i = i + 1;
        }
        assert(self.commands@.subrange(0, self.commands@.len() as int) =~= self.commands@);
        out
    }

    pub fn command(&self, id: CommandId) -> (r: Option<&CommandMetadata>)
        ensures
            match r {
                Some(c) => c.id == id && exists|i: int|
                    0 <= i < self.spec_commands().len() && self.spec_commands()[i] == *c && (
                    forall|k: int| 0 <= k < i ==> (#[trigger] self.spec_commands()[k]).id != id),
                None => forall|k: int|
                    0 <= k < self.spec_commands().len() ==> (
                    #[trigger] self.spec_commands()[k]).id != id,
            },
    {
        let mut i: usize = 0;
        while i < self.commands.len()
            invariant
                i <= self.commands@.len(),
                forall|k: int| 0 <= k < i ==> (#[trigger] self.commands@[k]).id != id,
            decreases self.commands@.len() - i,
        {
            if self.commands[i].id == id {
                return Some(&self.commands[i]);
            }
            i = i + 1;
        }
        None
    }
}

impl Default for CommandRegistry {
    fn default() -> (r: Self)
        ensures
            r.well_formed(),
    {
        Self::new()
    }
}

pub const COMMAND_VISIBLE_ROWS: usize = 5;

#[derive(Clone, Copy, Debug, PartialEq, Eq, Structural)]
pub enum CommandDispatch {
    NoOp,
    HealthCheck,
    ExitRequested,
    StatusShell,
    ApprovalShell,
    ModeGuide,
    ModeCrew,
    ModePilot,
    ProviderLmStudio,
    ModelGemma,
    DocsInitPrepare,
    InitPrepare,
    OpenLocalProviderForm,
    OpenLocalModelForm,
    OpenDocsInitForm,
    OpenInitForm,
    PersonaFull,
    PersonaOff,
    PersonaClose,
}

#[derive(Clone, Copy)]
pub struct SteppedPickerOption {
    pub label: &'static str,
    pub detail: &'static str,
    pub action: CommandDispatch,
}

impl SteppedPickerOption {
    pub open spec fn is(&self, label: Seq<char>, detail: Seq<char>, action: CommandDispatch) -> bool {
        self.label@ == label && self.detail@ == detail && self.action == action
    }
}

/// The options the picker of `command` offers: label, detail and action.
pub open spec fn spec_picker_options(command: CommandId) -> Seq<(Seq<char>, Seq<char>, CommandDispatch)> {
    match command {
        CommandId::Mode => seq![
            ("Guide"@, "ask before mutation"@, CommandDispatch::ModeGuide),
            ("Crew (current)"@, "balanced approval flow"@, CommandDispatch::ModeCrew),
            ("Pilot"@, "faster trusted flow"@, CommandDispatch::ModePilot),
        ],
        CommandId::Provider => seq![
            ("LM Studio (current)"@, "OpenAI-compatible local endpoint"@, CommandDispatch::ProviderLmStudio),
        ],
        CommandId::Model => seq![
            ("google/gemma-4-e4b (current)"@, "LM Studio local model"@, CommandDispatch::ModelGemma),
        ],
        CommandId::Persona => seq![
            ("full"@, "open right messenger"@, CommandDispatch::PersonaFull),
            ("off"@, "remove right messenger"@, CommandDispatch::PersonaOff),
            ("close"@, "same as off"@, CommandDispatch::PersonaClose),
        ],
        CommandId::DocsInit => seq![
            ("prepare"@, "expanded setup opens in tui-10"@, CommandDispatch::DocsInitPrepare),
            ("cancel"@, "return to prompt"@, CommandDispatch::NoOp),
        ],
        CommandId::Init => seq![
            ("prepare"@, "expanded setup opens in tui-10"@, CommandDispatch::InitPrepare),
            ("cancel"@, "return to prompt"@, CommandDispatch::NoOp),
        ],
        _ => seq![],
    }
}

pub open spec fn options_match(
    options: Seq<SteppedPickerOption>,
    expected: Seq<(Seq<char>, Seq<char>, CommandDispatch)>,
) -> bool {
    &&& options.len() == expected.len()
    &&& forall|i: int|
        0 <= i < options.len() ==> (#[trigger] options[i]).is(expected[i].0, expected[i].1, expected[i].2)
}

pub open spec fn spec_picker_title(command: CommandId) -> Seq<char> {
    match command {
        CommandId::Mode => "Select Mode"@,
        CommandId::Provider => "Select Provider"@,
        CommandId::Model => "Select Model"@,
        CommandId::Persona => "Select Persona"@,
        CommandId::DocsInit => "Docs Init"@,
        CommandId::Init => "Project Init"@,
        _ => "Select Option"@,
    }
}

pub struct SteppedPickerState {
    command: CommandId,
    selected: usize,
}

impl SteppedPickerState {
    pub closed spec fn spec_command(&self) -> CommandId {
        self.command
    }

    pub closed spec fn spec_selected(&self) -> nat {
        self.selected as nat
    }

    fn new(command: CommandId) -> (r: Self)
        ensures
            r.spec_command() == command,
            r.spec_selected() == 0,
    {
        SteppedPickerState { command, selected: 0 }
    }

    pub fn command(&self) -> (r: CommandId)
        ensures
            r == self.spec_command(),
    {
        self.command
    }

    pub fn selected(&self) -> (r: usize)
        ensures
            r == self.spec_selected(),
    {
        self.selected
    }

    pub fn title(&self) -> (r: &'static str)
        ensures
            r@ == spec_picker_title(self.spec_command()),
    {
        match self.command {
            CommandId::Mode => "Select Mode",
            CommandId::Provider => "Select Provider",
            CommandId::Model => "Select Model",
            CommandId::Persona => "Select Persona",
            CommandId::DocsInit => "Docs Init",
            CommandId::Init => "Project Init",
            _ => "Select Option",
        }
    }

    pub fn options(&self) -> (r: Vec<SteppedPickerOption>)
        ensures
            options_match(r@, spec_picker_options(self.spec_command())),
    {
        let r = match self.command {
            CommandId::Mode => vec![
                SteppedPickerOption { label: "Guide", detail: "ask before mutation", action: CommandDispatch::ModeGuide },
                SteppedPickerOption { label: "Crew (current)", detail: "balanced approval flow", action: CommandDispatch::ModeCrew },
                SteppedPickerOption { label: "Pilot", detail: "faster trusted flow", action: CommandDispatch::ModePilot },
            ],
            CommandId::Provider => vec![
                SteppedPickerOption { label: "LM Studio (current)", detail: "OpenAI-compatible local endpoint", action: CommandDispatch::ProviderLmStudio },
            ],
            CommandId::Model => vec![
                SteppedPickerOption { label: "google/gemma-4-e4b (current)", detail: "LM Studio local model", action: CommandDispatch::ModelGemma },
            ],
            CommandId::Persona => vec![
                SteppedPickerOption { label: "full", detail: "open right messenger", action: CommandDispatch::PersonaFull },
                SteppedPickerOption { label: "off", detail: "remove right messenger", action: CommandDispatch::PersonaOff },
                SteppedPickerOption { label: "close", detail: "same as off", action: CommandDispatch::PersonaClose },
            ],
            CommandId::DocsInit => vec![
                SteppedPickerOption { label: "prepare", detail: "expanded setup opens in tui-10", action: CommandDispatch::DocsInitPrepare },
                SteppedPickerOption { label: "cancel", detail: "return to prompt", action: CommandDispatch::NoOp },
            ],
            CommandId::Init => vec![
                SteppedPickerOption { label: "prepare", detail: "expanded setup opens in tui-10", action: CommandDispatch::InitPrepare },
                SteppedPickerOption { label: "cancel", detail: "return to prompt", action: CommandDispatch::NoOp },
            ],
            _ => Vec::new(),
        };
        assert(options_match(r@, spec_picker_options(self.spec_command())));
        r
    }

    fn move_selection(&mut self, delta: isize, item_count: usize)
        ensures
            final(self).spec_command() == old(self).spec_command(),
            item_count == 0 ==> final(self).spec_selected() == 0,
            item_count > 0 ==> final(self).spec_selected() == spec_clamp(
                old(self).spec_selected() as int,
                delta as int,
                item_count - 1,
            ),
    {
        if item_count == 0 {
            self.selected = 0;
            return;
        }
        self.selected = clamp_offset(self.selected, delta, item_count - 1);
    }
}

pub struct CommandSurfaceState {
    pub open: bool,
    pub query: String,
    pub selected: usize,
    pub scroll: usize,
    pub stepped_picker: Option<SteppedPickerState>,
}

/// The scroll offset that keeps `selected` inside a window of `rows` rows
/// starting at `scroll`.
pub open spec fn spec_follow_scroll(selected: int, scroll: int, rows: int) -> int {
    if selected < scroll {
        selected
    } else if selected >= scroll + rows {
        selected + 1 - rows
    } else {
        scroll
    }
}

impl CommandSurfaceState {
    pub open spec fn is_closed(&self) -> bool {
        &&& !self.open
        &&& self.query@.len() == 0
        &&& self.selected == 0
        &&& self.scroll == 0
        &&& self.stepped_picker is None
    }

    pub fn new() -> (r: Self)
        ensures
            r.is_closed(),
    {
        CommandSurfaceState {
            open: false,
            query: String::new(),
            selected: 0,
            scroll: 0,
            stepped_picker: None,
        }
    }

    pub fn open(&mut self)
        ensures
            final(self).open,
            final(self).query@.len() == 0,
            final(self).selected == 0,
            final(self).scroll == 0,
            final(self).stepped_picker is None,
    {
        self.open = true;
        self.query = String::new();
        self.selected = 0;
        self.scroll = 0;
        self.stepped_picker = None;
    }

    pub fn close(&mut self)
        ensures
            final(self).is_closed(),
    {
        self.open = false;
        self.query = String::new();
        self.selected = 0;
        self.scroll = 0;
        self.stepped_picker = None;
    }

    pub fn set_query(&mut self, query: &str)
        ensures
            final(self).open == old(self).open,
            final(self).query@ == query@,
            final(self).selected == 0,
            final(self).scroll == 0,
            final(self).stepped_picker is None,
    {
        self.query = String::from_str(query);
        self.selected = 0;
        self.scroll = 0;
        self.stepped_picker = None;
    }

    /// Moves the highlighted row and scrolls so it stays within the visible rows.
    pub fn move_selection(&mut self, delta: isize, item_count: usize)
        ensures
            final(self).open == old(self).open,
            final(self).query@ == old(self).query@,
            final(self).stepped_picker == old(self).stepped_picker,
            *final(self) == (CommandSurfaceState { selected: final(self).selected, scroll: final(self).scroll, ..*old(self) }),
            item_count == 0 ==> final(self).selected == 0 && final(self).scroll == 0,
            item_count > 0 ==> ({
                let sel = spec_clamp(old(self).selected as int, delta as int, item_count - 1);
                &&& final(self).selected == sel
                &&& final(self).scroll == spec_follow_scroll(
                    sel,
                    old(self).scroll as int,
                    COMMAND_VISIBLE_ROWS as int,
                )
            }),
    {
        if item_count == 0 {
            self.selected = 0;
            self.scroll = 0;
            return;
        }
        self.selected = clamp_offset(self.selected, delta, item_count - 1);
        if self.selected < self.scroll {
            self.scroll = self.selected;
        } else if self.selected - self.scroll >= COMMAND_VISIBLE_ROWS {
            self.scroll = self.selected + 1 - COMMAND_VISIBLE_ROWS;
        }
    }

    pub fn open_stepped_picker(&mut self, command: CommandId)
        ensures
            final(self).open,
            final(self).query@.len() == 0,
            final(self).selected == 0,
            final(self).scroll == 0,
            final(self).stepped_picker matches Some(p) && p.spec_command() == command
                && p.spec_selected() == 0,
    {
        self.open = true;
        self.query = String::new();
        self.selected = 0;
        self.scroll = 0;
        self.stepped_picker = Some(SteppedPickerState::new(command));
    }

    pub fn step_title(&self) -> (r: Option<&'static str>)
        ensures
            match self.stepped_picker {
                Some(p) => r matches Some(t) && t@ == spec_picker_title(p.spec_command()),
                None => r is None,
            },
    {
        match &self.stepped_picker {
            Some(p) => Some(p.title()),
            None => None,
        }
    }

    pub fn step_options(&self) -> (r: Vec<SteppedPickerOption>)
        ensures
            match self.stepped_picker {
                Some(p) => options_match(r@, spec_picker_options(p.spec_command())),
                None => r@.len() == 0,
            },
    {
        match &self.stepped_picker {
            Some(p) => p.options(),
            None => Vec::new(),
        }
    }

    pub fn move_picker_selection(&mut self, delta: isize) -> (r: Option<usize>)
        ensures
            final(self).open == old(self).open,
            final(self).selected == old(self).selected,
            final(self).scroll == old(self).scroll,
            match old(self).stepped_picker {
                None => r is None && final(self).stepped_picker is None,
                Some(p) => {
                    let n = spec_picker_options(p.spec_command()).len();
                    let sel = if n == 0 {
                        0
                    } else {
                        spec_clamp(p.spec_selected() as int, delta as int, n - 1)
                    };
                    &&& final(self).stepped_picker matches Some(q) && q.spec_command()
                        == p.spec_command() && q.spec_selected() == sel
                    &&& r == Some(sel as usize)
                },
            },
    {
        match &mut self.stepped_picker {
            None => None,
            Some(picker) => {
                let item_count = picker.options().len();
                picker.move_selection(delta, item_count);
                Some(picker.selected)
            },
        }
    }

    pub fn back_picker_step(&mut self) -> (r: bool)
        ensures
            r == (old(self).stepped_picker is Some),
            final(self).open == old(self).open,
            final(self).query@ == old(self).query@,
            final(self).stepped_picker is None,
            r ==> final(self).selected == 0 && final(self).scroll == 0,
            !r ==> final(self).selected == old(self).selected && final(self).scroll
                == old(self).scroll,
    {
        if self.stepped_picker.is_none() {
            return false;
        }
        self.stepped_picker = None;
        self.selected = 0;
        self.scroll = 0;
        true
    }
}

impl Default for CommandSurfaceState {
    fn default() -> (r: Self)
        ensures
            r.is_closed(),
    {
        Self::new()
    }
}

pub struct CommandRuntimeLabels<'a> {
    pub mode: &'a str,
    pub provider_display: &'a str,
    pub model: &'a str,
    pub base_url: &'a str,
}

} // verus!

verus! {

pub enum CommandInputEvent {
    SurfaceOpened,
    FilterChanged { query: String },
    CommandSelected { command: CommandId },
    ActionDispatched { command: CommandId },
    CommandAvailabilityChecked { command: CommandId, allowed: bool, reason: &'static str },
    SteppedPickerOpened { command: CommandId, step: &'static str },
    SteppedPickerSelectionChanged { command: CommandId, selected: usize },
    SteppedPickerConfirmed { command: CommandId, selected: usize },
}

pub struct CommandInputOutcome {
    pub events: Vec<CommandInputEvent>,
    pub dispatch: CommandDispatch,
}

impl CommandInputOutcome {
    pub open spec fn is_none(&self) -> bool {
        self.events@.len() == 0 && self.dispatch == CommandDispatch::NoOp
    }

    pub fn none() -> (r: Self)
        ensures
            r.is_none(),
    {
        CommandInputOutcome { events: Vec::new(), dispatch: CommandDispatch::NoOp }
    }
}

pub struct CommandAvailability {
    pub allowed: bool,
    pub reason: &'static str,
}

/// While the runtime is busy only exit and quit may run.
pub open spec fn spec_allowed(command: CommandId, runtime_busy: bool) -> bool {
    !runtime_busy || command == CommandId::Exit || command == CommandId::Quit
}

pub open spec fn spec_availability_reason(command: CommandId, runtime_busy: bool) -> Seq<char> {
    if !runtime_busy {
        "available"@
    } else if command == CommandId::Exit || command == CommandId::Quit {
        "always_allowed"@
    } else {
        "runtime_busy"@
    }
}

fn check_command_availability(command: CommandId, runtime_busy: bool) -> (r: CommandAvailability)
    ensures
        r.allowed == spec_allowed(command, runtime_busy),
        r.reason@ == spec_availability_reason(command, runtime_busy),
{
    if runtime_busy {
        match command {
            CommandId::Exit | CommandId::Quit => CommandAvailability {
                allowed: true,
                reason: "always_allowed",
            },
            _ => CommandAvailability { allowed: false, reason: "runtime_busy" },
        }
    } else {
        CommandAvailability { allowed: true, reason: "available" }
    }
}

pub open spec fn spec_dispatch_for(command: CommandId) -> CommandDispatch {
    match command {
        CommandId::Exit | CommandId::Quit => CommandDispatch::ExitRequested,
        CommandId::Status => CommandDispatch::StatusShell,
        CommandId::Approval => CommandDispatch::ApprovalShell,
        CommandId::PersonaFull => CommandDispatch::PersonaFull,
        CommandId::PersonaOff => CommandDispatch::PersonaOff,
        CommandId::PersonaClose => CommandDispatch::PersonaClose,
        _ => CommandDispatch::NoOp,
    }
}

fn dispatch_for(command: CommandId) -> (r: CommandDispatch)
    ensures
        r == spec_dispatch_for(command),
{
    match command {
        CommandId::Exit | CommandId::Quit => CommandDispatch::ExitRequested,
        CommandId::Status => CommandDispatch::StatusShell,
        CommandId::Approval => CommandDispatch::ApprovalShell,
        CommandId::Mode | CommandId::Provider | CommandId::Model | CommandId::Persona
        | CommandId::DocsInit | CommandId::Init => CommandDispatch::NoOp,
        CommandId::PersonaFull => CommandDispatch::PersonaFull,
        CommandId::PersonaOff => CommandDispatch::PersonaOff,
        CommandId::PersonaClose => CommandDispatch::PersonaClose,
    }
}

/// The availability event for `command`.
pub open spec fn is_availability_event(e: CommandInputEvent, command: CommandId, runtime_busy: bool) -> bool {
    e matches CommandInputEvent::CommandAvailabilityChecked { command: c, allowed, reason } && c
        == command && allowed == spec_allowed(command, runtime_busy) && reason@
        == spec_availability_reason(command, runtime_busy)
}

/// What confirming the open picker yields: its confirmation and dispatch events,
/// and the action of the highlighted option (none past the end of the list).
pub open spec fn spec_picker_confirmed(p: SteppedPickerState, r: CommandInputOutcome) -> bool {
    let options = spec_picker_options(p.spec_command());
    &&& r.events@ == seq![
        CommandInputEvent::SteppedPickerConfirmed {
            command: p.spec_command(),
            selected: p.spec_selected() as usize,
        },
        CommandInputEvent::ActionDispatched { command: p.spec_command() },
    ]
    &&& r.dispatch == if p.spec_selected() < options.len() {
        options[p.spec_selected() as int].2
    } else {
        CommandDispatch::NoOp
    }
}

/// Confirms the picker's highlighted option and closes the surface.
pub fn confirm_picker_selection(surface: &mut CommandSurfaceState) -> (r: CommandInputOutcome)
    ensures
        match old(surface).stepped_picker {
            None => r.is_none() && *final(surface) == *old(surface),
            Some(p) => final(surface).is_closed() && spec_picker_confirmed(p, r),
        },
{
    let (command, selected, dispatch) = match &surface.stepped_picker {
        None => {
            return CommandInputOutcome::none();
        },
        Some(picker) => {
            let command = picker.command();
            let selected = picker.selected();
            let options = picker.options();
            let dispatch = if selected < options.len() {
                options[selected].action
            } else {
                CommandDispatch::NoOp
            };
            (command, selected, dispatch)
        },
    };
    surface.close();
    CommandInputOutcome {
        events: vec![
            CommandInputEvent::SteppedPickerConfirmed { command, selected },
            CommandInputEvent::ActionDispatched { command },
        ],
        dispatch,
    }
}

/// What confirming the highlighted command does, `before` and `after` being
/// the surface around the call and `r` what it reports.
pub open spec fn spec_command_confirmed(
    before: CommandSurfaceState,
    after: CommandSurfaceState,
    registry: CommandRegistry,
    scene: Seq<char>,
    runtime_busy: bool,
    r: CommandInputOutcome,
) -> bool {
    &&& before.stepped_picker matches Some(p) ==> after.is_closed()
            && spec_picker_confirmed(p, r)
    &&& before.stepped_picker is None ==> ({
        let listed = spec_filtered(registry.spec_commands(), before.query@, scene);
        if before.selected >= listed.len() {
            r.is_none() && after == before
        } else {
            let id = listed[before.selected as int].id;
            if !spec_allowed(id, runtime_busy) {
                &&& after.is_closed()
                &&& r.dispatch == CommandDispatch::NoOp
                &&& r.events@.len() == 1
                &&& is_availability_event(r.events@[0], id, runtime_busy)
            } else if listed[before.selected as int].presentation
                == CommandPresentation::SteppedPicker {
                &&& after.open
                &&& after.query@.len() == 0
                &&& after.selected == 0
                &&& after.scroll == 0
                &&& after.stepped_picker matches Some(p) && p.spec_command() == id
                    && p.spec_selected() == 0
                &&& r.dispatch == CommandDispatch::NoOp
                &&& r.events@.len() == 2
                &&& is_availability_event(r.events@[0], id, runtime_busy)
                &&& r.events@[1] matches CommandInputEvent::SteppedPickerOpened { command, step }
                    && command == id && step@ == spec_picker_title(id)
            } else {
                &&& after.is_closed()
                &&& r.dispatch == spec_dispatch_for(id)
                &&& r.events@.len() == 3
                &&& is_availability_event(r.events@[0], id, runtime_busy)
                &&& r.events@[1] == CommandInputEvent::CommandSelected { command: id }
                &&& r.events@[2] == CommandInputEvent::ActionDispatched { command: id }
            }
        }
    })
}

/// Confirms the highlighted command: an open picker is confirmed; a command the
/// busy runtime refuses only reports its availability; a picker command opens
/// its picker; any other command closes the surface and dispatches.
pub fn confirm_command(
    surface: &mut CommandSurfaceState,
    registry: &CommandRegistry,
    scene: &str,
    runtime_busy: bool,
) -> (r: CommandInputOutcome)
    ensures
        spec_command_confirmed(*old(surface), *final(surface), *registry, scene@, runtime_busy, r),
{
    if surface.stepped_picker.is_some() {
        return confirm_picker_selection(surface);
    }
    let filtered = registry.filtered_for(surface.query.as_str(), scene);
    if surface.selected >= filtered.len() {
        return CommandInputOutcome::none();
    }
    let command = filtered[surface.selected];
    assert(*command == spec_filtered(registry.spec_commands(), surface.query@, scene@)[surface.selected as int]);
    let command_id = command.id;
    let availability = check_command_availability(command_id, runtime_busy);
    let availability_event = CommandInputEvent::CommandAvailabilityChecked {
        command: command_id,
        allowed: availability.allowed,
        reason: availability.reason,
    };
    if !availability.allowed {
        surface.close();
        return CommandInputOutcome { events: vec![availability_event], dispatch: CommandDispatch::NoOp };
    }
    if command.presentation == CommandPresentation::SteppedPicker {
        surface.open_stepped_picker(command_id);
        let step = match surface.step_title() {
            Some(t) => t,
            None => "Select Option",
        };
        return CommandInputOutcome {
            events: vec![
                availability_event,
                CommandInputEvent::SteppedPickerOpened { command: command_id, step },
            ],
            dispatch: CommandDispatch::NoOp,
        };
    }
    surface.close();
    CommandInputOutcome {
        events: vec![
            availability_event,
            CommandInputEvent::CommandSelected { command: command_id },
            CommandInputEvent::ActionDispatched { command: command_id },
        ],
        dispatch: dispatch_for(command_id),
    }
}

/// Typing any prefix of a command's name lists that command, on every scene
/// it is available in: `/mo` lists `/mode` and `/model`.
pub proof fn lemma_name_prefix_is_listed(commands: Seq<CommandMetadata>, query: Seq<char>, scene: Seq<char>, i: int)
    requires
        0 <= i < commands.len(),
        commands[i].spec_available_in(scene),
        spec_starts_with(commands[i].name@, spec_normalize_query(query)),
    ensures
        spec_filtered(commands, query, scene).contains(commands[i]),
{
    commands.lemma_filter_contains(|c: CommandMetadata| c.spec_listed(query, scene), i);
}

/// Whatever is listed for a query on a scene is available there, and the
/// normalized query is empty or a prefix of its name or of one of its aliases.
pub proof fn lemma_listed_commands_match(commands: Seq<CommandMetadata>, query: Seq<char>, scene: Seq<char>, k: int)
    requires
        0 <= k < spec_filtered(commands, query, scene).len(),
    ensures
        ({
            let c = spec_filtered(commands, query, scene)[k];
            let q = spec_normalize_query(query);
            &&& c.spec_available_in(scene)
            &&& q.len() == 0 || spec_starts_with(c.name@, q) || exists|j: int|
                0 <= j < c.aliases@.len() && spec_starts_with(#[trigger] c.aliases@[j]@, q)
        }),
{
    commands.lemma_filter_pred(|c: CommandMetadata| c.spec_listed(query, scene), k);
}

} // verus!
