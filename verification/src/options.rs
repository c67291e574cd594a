//! The parsed command-line surface: output format, providers, command kinds,
//! model choices and their aliases.

use vstd::prelude::*;
use crate::text::str_eq;
use crate::Output;

verus! {

/// A remote model provider.
#[derive(Clone, Copy, Debug, PartialEq, Eq, Structural)]
pub enum Provider {
    OpenAi,
    Anthropic,
}

/// The kind of request a subcommand asks for.
#[derive(Clone, Copy, Debug, PartialEq, Eq, Structural)]
pub enum CommandKind {
    Chat,
    Completion,
    Edit,
}

/// The Anthropic completion models the client can address.
#[derive(Clone, Copy, Debug, PartialEq, Eq, Structural)]
pub enum AnthropicModel {
    ClaudeV1,
    ClaudeV1_100k,
    ClaudeInstantV1,
    ClaudeInstantV1_100k,
}

/// The Anthropic model choice as it appears on the command line.
#[derive(Clone, Copy, Debug, PartialEq, Eq, Structural)]
pub enum ClaudeModelOption {
    ClaudeV1,
    ClaudeV1_100k,
    ClaudeInstantV1,
    ClaudeInstantV1_100k,
}

/// The command-line option and the wire-level model name one-to-one: the
/// conversion in each direction is the identity on the underlying choice.
pub open spec fn claude_option_to_model(o: ClaudeModelOption) -> AnthropicModel {
    match o {
        ClaudeModelOption::ClaudeV1 => AnthropicModel::ClaudeV1,
        ClaudeModelOption::ClaudeV1_100k => AnthropicModel::ClaudeV1_100k,
        ClaudeModelOption::ClaudeInstantV1 => AnthropicModel::ClaudeInstantV1,
        ClaudeModelOption::ClaudeInstantV1_100k => AnthropicModel::ClaudeInstantV1_100k,
    }
}

pub open spec fn claude_model_to_option(m: AnthropicModel) -> ClaudeModelOption {
    match m {
        AnthropicModel::ClaudeV1 => ClaudeModelOption::ClaudeV1,
        AnthropicModel::ClaudeV1_100k => ClaudeModelOption::ClaudeV1_100k,
        AnthropicModel::ClaudeInstantV1 => ClaudeModelOption::ClaudeInstantV1,
        AnthropicModel::ClaudeInstantV1_100k => ClaudeModelOption::ClaudeInstantV1_100k,
    }
}

impl From<ClaudeModelOption> for AnthropicModel {
    fn from(other: ClaudeModelOption) -> (r: AnthropicModel) {
        match other {
            ClaudeModelOption::ClaudeV1 => AnthropicModel::ClaudeV1,
            ClaudeModelOption::ClaudeV1_100k => AnthropicModel::ClaudeV1_100k,
            ClaudeModelOption::ClaudeInstantV1 => AnthropicModel::ClaudeInstantV1,
            ClaudeModelOption::ClaudeInstantV1_100k => AnthropicModel::ClaudeInstantV1_100k,
        }
    }
}

impl vstd::std_specs::convert::FromSpecImpl<ClaudeModelOption> for AnthropicModel {
    open spec fn obeys_from_spec() -> bool {
        true
    }

    open spec fn from_spec(other: ClaudeModelOption) -> AnthropicModel {
        claude_option_to_model(other)
    }
}

impl From<AnthropicModel> for ClaudeModelOption {
    fn from(other: AnthropicModel) -> (r: ClaudeModelOption) {
        match other {
            AnthropicModel::ClaudeV1 => ClaudeModelOption::ClaudeV1,
            AnthropicModel::ClaudeV1_100k => ClaudeModelOption::ClaudeV1_100k,
            AnthropicModel::ClaudeInstantV1 => ClaudeModelOption::ClaudeInstantV1,
            AnthropicModel::ClaudeInstantV1_100k => ClaudeModelOption::ClaudeInstantV1_100k,
        }
    }
}

impl vstd::std_specs::convert::FromSpecImpl<AnthropicModel> for ClaudeModelOption {
    open spec fn obeys_from_spec() -> bool {
        true
    }

    open spec fn from_spec(other: AnthropicModel) -> ClaudeModelOption {
        claude_model_to_option(other)
    }
}

/// The converting round trip brings every model choice back to itself.
pub proof fn lemma_claude_option_round_trip(o: ClaudeModelOption, m: AnthropicModel)
    ensures
        claude_model_to_option(claude_option_to_model(o)) == o,
        claude_option_to_model(claude_model_to_option(m)) == m,
{
}

/// The alias of each Anthropic model, as written on the command line;
/// it coincides with the provider's wire-level model identifier.
pub open spec fn claude_alias_of(o: ClaudeModelOption) -> Seq<char> {
    match o {
        ClaudeModelOption::ClaudeV1 => "claude_v1"@,
        ClaudeModelOption::ClaudeV1_100k => "claude_v1_100k"@,
        ClaudeModelOption::ClaudeInstantV1 => "claude_instant_v1"@,
        ClaudeModelOption::ClaudeInstantV1_100k => "claude_instant_v1_100k"@,
    }
}

/// The Anthropic model a command-line alias names, if any.
pub open spec fn claude_of_alias(s: Seq<char>) -> Option<ClaudeModelOption> {
    if s == claude_alias_of(ClaudeModelOption::ClaudeV1) {
        Some(ClaudeModelOption::ClaudeV1)
    } else if s == claude_alias_of(ClaudeModelOption::ClaudeV1_100k) {
        Some(ClaudeModelOption::ClaudeV1_100k)
    } else if s == claude_alias_of(ClaudeModelOption::ClaudeInstantV1) {
        Some(ClaudeModelOption::ClaudeInstantV1)
    } else if s == claude_alias_of(ClaudeModelOption::ClaudeInstantV1_100k) {
        Some(ClaudeModelOption::ClaudeInstantV1_100k)
    } else {
        None
    }
}

impl ClaudeModelOption {
    /// Resolves a command-line alias to an Anthropic model choice.
    pub fn from_alias(s: &str) -> (r: Option<ClaudeModelOption>)
        ensures
            r == claude_of_alias(s@),
    {
        if str_eq(s, "claude_v1") {
            Some(ClaudeModelOption::ClaudeV1)
        } else if str_eq(s, "claude_v1_100k") {
            Some(ClaudeModelOption::ClaudeV1_100k)
        } else if str_eq(s, "claude_instant_v1") {
            Some(ClaudeModelOption::ClaudeInstantV1)
        } else if str_eq(s, "claude_instant_v1_100k") {
            Some(ClaudeModelOption::ClaudeInstantV1_100k)
        } else {
            None
        }
    }

    /// The wire-level model identifier sent to the provider.
    pub fn id(&self) -> (r: &'static str)
        ensures
            r@ == claude_alias_of(*self),
    {
        match self {
            ClaudeModelOption::ClaudeV1 => "claude_v1",
            ClaudeModelOption::ClaudeV1_100k => "claude_v1_100k",
            ClaudeModelOption::ClaudeInstantV1 => "claude_instant_v1",
            ClaudeModelOption::ClaudeInstantV1_100k => "claude_instant_v1_100k",
        }
    }
}

/// The OpenAI models the client can address, by command kind.
#[derive(Clone, Copy, Debug, PartialEq, Eq, Structural)]
pub enum OpenAiModelOption {
    Gpt35Turbo,
    Gpt4,
    TextDavinci003,
    TextDavinciEdit001,
}

/// The alias of each OpenAI model as written on the command line; it
/// coincides with the provider's wire-level model identifier.
pub open spec fn openai_alias_of(o: OpenAiModelOption) -> Seq<char> {
    match o {
        OpenAiModelOption::Gpt35Turbo => "gpt-3.5-turbo"@,
        OpenAiModelOption::Gpt4 => "gpt-4"@,
        OpenAiModelOption::TextDavinci003 => "text-davinci-003"@,
        OpenAiModelOption::TextDavinciEdit001 => "text-davinci-edit-001"@,
    }
}

/// The OpenAI model a command-line alias names, if any.
pub open spec fn openai_of_alias(s: Seq<char>) -> Option<OpenAiModelOption> {
    if s == openai_alias_of(OpenAiModelOption::Gpt35Turbo) {
        Some(OpenAiModelOption::Gpt35Turbo)
    } else if s == openai_alias_of(OpenAiModelOption::Gpt4) {
        Some(OpenAiModelOption::Gpt4)
    } else if s == openai_alias_of(OpenAiModelOption::TextDavinci003) {
        Some(OpenAiModelOption::TextDavinci003)
    } else if s == openai_alias_of(OpenAiModelOption::TextDavinciEdit001) {
        Some(OpenAiModelOption::TextDavinciEdit001)
    } else {
        None
    }
}

/// Whether an OpenAI model serves a given command kind: the chat endpoint
/// takes the chat models, the completion endpoint its completion model, the
/// edit endpoint its edit model.
pub open spec fn openai_model_fits(o: OpenAiModelOption, kind: CommandKind) -> bool {
    match kind {
        CommandKind::Chat => o == OpenAiModelOption::Gpt35Turbo || o == OpenAiModelOption::Gpt4,
        CommandKind::Completion => o == OpenAiModelOption::TextDavinci003,
        CommandKind::Edit => o == OpenAiModelOption::TextDavinciEdit001,
    }
}

impl OpenAiModelOption {
    /// Resolves a command-line alias to an OpenAI model choice.
    pub fn from_alias(s: &str) -> (r: Option<OpenAiModelOption>)
        ensures
            r == openai_of_alias(s@),
    {
        if str_eq(s, "gpt-3.5-turbo") {
            Some(OpenAiModelOption::Gpt35Turbo)
        } else if str_eq(s, "gpt-4") {
            Some(OpenAiModelOption::Gpt4)
        } else if str_eq(s, "text-davinci-003") {
            Some(OpenAiModelOption::TextDavinci003)
        } else if str_eq(s, "text-davinci-edit-001") {
            Some(OpenAiModelOption::TextDavinciEdit001)
        } else {
            None
        }
    }

    /// The wire-level model identifier sent to the provider.
    pub fn id(&self) -> (r: &'static str)
        ensures
            r@ == openai_alias_of(*self),
    {
        match self {
            OpenAiModelOption::Gpt35Turbo => "gpt-3.5-turbo",
            OpenAiModelOption::Gpt4 => "gpt-4",
            OpenAiModelOption::TextDavinci003 => "text-davinci-003",
            OpenAiModelOption::TextDavinciEdit001 => "text-davinci-edit-001",
        }
    }

    /// Whether this model serves the given command kind.
    pub fn fits(&self, kind: &CommandKind) -> (r: bool)
        ensures
            r == openai_model_fits(*self, *kind),
    {
        match kind {
            CommandKind::Chat => matches!(
                self,
                OpenAiModelOption::Gpt35Turbo | OpenAiModelOption::Gpt4
            ),
            CommandKind::Completion => matches!(self, OpenAiModelOption::TextDavinci003),
            CommandKind::Edit => matches!(self, OpenAiModelOption::TextDavinciEdit001),
        }
    }
}

/// The validated options of one subcommand: what to ask the provider, and
/// how to render the answer.
#[derive(Debug, Clone)]
pub struct CommandOptions {
    /// The kind of request.
    pub kind: CommandKind,
    /// The model alias as given on the command line.
    pub model: String,
    /// The prompt text: the chat message, completion prompt or edit
    /// instruction.
    pub message: String,
    /// The text an edit instruction is applied to.
    pub input: Option<String>,
    /// The sampling cap, where the provider requires or accepts one.
    pub max_tokens: Option<u32>,
    /// The output format the result is rendered in.
    pub output: Output,
}

/// The mathematical image of `CommandOptions`.
pub struct CommandOptionsView {
    pub kind: CommandKind,
    pub model: Seq<char>,
    pub message: Seq<char>,
    pub input: Option<Seq<char>>,
    pub max_tokens: Option<u32>,
    pub output: Output,
}

impl View for CommandOptions {
    type V = CommandOptionsView;

    open spec fn view(&self) -> CommandOptionsView {
        CommandOptionsView {
            kind: self.kind,
            model: self.model@,
            message: self.message@,
            input: match self.input {
                Option::None => None,
                Option::Some(s) => Some(s@),
            },
            max_tokens: self.max_tokens,
            output: self.output,
        }
    }
}

/// One subcommand: which provider to address, with its options.
#[derive(Debug, Clone)]
pub enum Commands {
    /// Anthropic chat AI API
    Anthropic(CommandOptions),
    /// OpenAI chat AI API
    OpenAi(CommandOptions),
}

/// The whole parsed command line.
#[derive(Debug, Clone)]
pub struct Cli {
    pub command: Option<Commands>,
}

} // verus!
