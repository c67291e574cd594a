//! Turning validated command-line options into a provider request: model
//! resolution, payload construction, the JSON request body, and the endpoint
//! each payload is sent to.

use vstd::prelude::*;
use crate::options::{
    ClaudeModelOption, Cli, CommandKind, CommandOptions, CommandOptionsView, Commands,
    OpenAiModelOption, Provider, claude_alias_of, claude_of_alias, openai_alias_of,
    openai_of_alias, openai_model_fits,
};
use crate::text::{append_escaped, append_u32, dec_of, escape_seq};
use crate::Output;

verus! {

/// Why a request could not be built. Every variant is decided before any
/// network activity.
#[derive(Clone, Copy, Debug, PartialEq, Eq, Structural)]
pub enum BuildError {
    /// No subcommand was given.
    MissingCommand,
    /// The model alias does not name a known model for the requested
    /// provider and command kind.
    UnknownModel,
    /// The provider has no endpoint for the requested command kind.
    UnsupportedCommand,
}

/// The sampling cap sent to Anthropic when none was given on the command
/// line.
pub const DEFAULT_MAX_TOKENS: u32 = 256;

/// A complete provider request: every field the target endpoint requires is
/// filled in.
#[derive(Debug, Clone)]
pub struct Payload {
    /// The provider the request goes to.
    pub provider: Provider,
    /// The kind of request.
    pub kind: CommandKind,
    /// The resolved wire-level model identifier.
    pub model: String,
    /// The prompt: chat message content, completion prompt, or edit
    /// instruction, already framed where the provider expects framing.
    pub prompt: String,
    /// The text an edit is applied to; empty outside edit requests.
    pub input: String,
    /// The sampling cap; always present for Anthropic requests.
    pub max_tokens: Option<u32>,
}

/// The mathematical image of `Payload`.
pub struct PayloadView {
    pub provider: Provider,
    pub kind: CommandKind,
    pub model: Seq<char>,
    pub prompt: Seq<char>,
    pub input: Seq<char>,
    pub max_tokens: Option<u32>,
}

impl View for Payload {
    type V = PayloadView;

    open spec fn view(&self) -> PayloadView {
        PayloadView {
            provider: self.provider,
            kind: self.kind,
            model: self.model@,
            prompt: self.prompt@,
            input: self.input@,
            max_tokens: self.max_tokens,
        }
    }
}

impl PayloadView {
    /// Well-formedness: an Anthropic payload always carries a sampling cap
    /// and never asks for an edit.
    pub open spec fn wf(self) -> bool {
        self.provider == Provider::Anthropic ==> {
            &&& self.max_tokens is Some
            &&& self.kind != CommandKind::Edit
        }
    }
}

/// The wire-level model identifier an alias resolves to for a given provider
/// and command kind, if the alias names a known model that serves that kind.
pub open spec fn resolved_model(provider: Provider, kind: CommandKind, alias: Seq<char>) -> Option<
    Seq<char>,
> {
    match provider {
        Provider::OpenAi => match openai_of_alias(alias) {
            Option::None => None,
            Option::Some(m) => if openai_model_fits(m, kind) {
                Some(openai_alias_of(m))
            } else {
                None
            },
        },
        Provider::Anthropic => match claude_of_alias(alias) {
            Option::None => None,
            Option::Some(m) => Some(claude_alias_of(m)),
        },
    }
}

/// The conversational framing Anthropic's completion endpoint expects around
/// a chat message.
pub open spec fn claude_frame(msg: Seq<char>) -> Seq<char> {
    "\n\nHuman: "@ + msg + "\n\nAssistant:"@
}

/// What the builder produces from validated options, or the error it fails
/// with: the one place that fixes, per provider and command kind, the
/// resolved model, the prompt (framed for an Anthropic chat), the edit input
/// and the sampling cap.
pub open spec fn build_spec(provider: Provider, o: CommandOptionsView) -> Result<
    PayloadView,
    BuildError,
> {
    if provider == Provider::Anthropic && o.kind == CommandKind::Edit {
        Err(BuildError::UnsupportedCommand)
    } else {
        match resolved_model(provider, o.kind, o.model) {
            Option::None => Err(BuildError::UnknownModel),
            Option::Some(id) => Ok(
                PayloadView {
                    provider,
                    kind: o.kind,
                    model: id,
                    prompt: if provider == Provider::Anthropic && o.kind == CommandKind::Chat {
                        claude_frame(o.message)
                    } else {
                        o.message
                    },
                    input: if o.kind == CommandKind::Edit {
                        match o.input {
                            Option::None => Seq::empty(),
                            Option::Some(s) => s,
                        }
                    } else {
                        Seq::empty()
                    },
                    max_tokens: if provider == Provider::Anthropic {
                        match o.max_tokens {
                            Option::None => Some(DEFAULT_MAX_TOKENS),
                            Option::Some(n) => Some(n),
                        }
                    } else {
                        o.max_tokens
                    },
                },
            ),
        }
    }
}

/// Builds the request payload for one provider from validated options.
/// Returns exactly what `build_spec` prescribes; in particular an alias that
/// names no known model for the provider/command pair fails with
/// `UnknownModel` before any network activity.
pub fn build_payload(provider: Provider, opts: &CommandOptions) -> (r: Result<Payload, BuildError>)
    ensures
        match r {
            Ok(p) => build_spec(provider, opts@) == Result::<PayloadView, BuildError>::Ok(p@)
                && p@.wf(),
            Err(e) => build_spec(provider, opts@) == Result::<PayloadView, BuildError>::Err(e),
        },
{
    match provider {
        Provider::Anthropic => {
            if matches!(opts.kind, CommandKind::Edit) {
                return Err(BuildError::UnsupportedCommand);
            }
            let model = match ClaudeModelOption::from_alias(opts.model.as_str()) {
                Option::Some(m) => m,
                Option::None => {
                    return Err(BuildError::UnknownModel);
                },
            };
            let prompt = if matches!(opts.kind, CommandKind::Chat) {
                let mut framed = "\n\nHuman: ".to_owned();
                framed.append(opts.message.as_str());
                framed.append("\n\nAssistant:");
                framed
            } else {
                opts.message.clone()
            };
            let max_tokens = match opts.max_tokens {
                Option::Some(n) => n,
                Option::None => DEFAULT_MAX_TOKENS,
            };
            Ok(
                Payload {
                    provider: Provider::Anthropic,
                    kind: opts.kind,
                    model: model.id().to_owned(),
                    prompt,
                    input: String::new(),
                    max_tokens: Some(max_tokens),
                },
            )
        },
        Provider::OpenAi => {
            let model = match OpenAiModelOption::from_alias(opts.model.as_str()) {
                Option::Some(m) => m,
                Option::None => {
                    return Err(BuildError::UnknownModel);
                },
            };
            if !model.fits(&opts.kind) {
                return Err(BuildError::UnknownModel);
            }
            let input = if matches!(opts.kind, CommandKind::Edit) {
                match &opts.input {
                    Option::Some(s) => s.clone(),
                    Option::None => String::new(),
                }
            } else {
                String::new()
            };
            Ok(
                Payload {
                    provider: Provider::OpenAi,
                    kind: opts.kind,
                    model: model.id().to_owned(),
                    prompt: opts.message.clone(),
                    input,
                    max_tokens: opts.max_tokens,
                },
            )
        },
    }
}

/// On options whose model alias resolves for the provider/command pair, and
/// whose pair the provider serves, the builder succeeds, and the payload
/// carries every field the endpoint requires: the resolved model identifier,
/// the prompt derived from the message, the edit input, and — for Anthropic —
/// a sampling cap.
pub proof fn lemma_builder_required_fields(provider: Provider, o: CommandOptionsView)
    requires
        resolved_model(provider, o.kind, o.model) is Some,
        !(provider == Provider::Anthropic && o.kind == CommandKind::Edit),
    ensures
        build_spec(provider, o) is Ok,
        (build_spec(provider, o)->Ok_0).provider == provider,
        (build_spec(provider, o)->Ok_0).kind == o.kind,
        (build_spec(provider, o)->Ok_0).model == resolved_model(provider, o.kind, o.model)->Some_0,
        (build_spec(provider, o)->Ok_0).model.len() > 0,
        (build_spec(provider, o)->Ok_0).prompt == if provider == Provider::Anthropic && o.kind
            == CommandKind::Chat {
            claude_frame(o.message)
        } else {
            o.message
        },
        provider == Provider::Anthropic ==> (build_spec(provider, o)->Ok_0).max_tokens is Some,
        o.kind == CommandKind::Edit && o.input is Some ==> (build_spec(provider, o)->Ok_0).input
            == o.input->0,
{
    let id = resolved_model(provider, o.kind, o.model)->Some_0;
    reveal_strlit("claude_v1");
    reveal_strlit("claude_v1_100k");
    reveal_strlit("claude_instant_v1");
    reveal_strlit("claude_instant_v1_100k");
    reveal_strlit("gpt-3.5-turbo");
    reveal_strlit("gpt-4");
    reveal_strlit("text-davinci-003");
    reveal_strlit("text-davinci-edit-001");
    assert(id.len() > 0);
}

/// On options whose model alias does not resolve for the provider/command
/// pair the builder fails with `UnknownModel`: no payload exists, so no
/// network call can be attempted.
pub proof fn lemma_unknown_model_fails(provider: Provider, o: CommandOptionsView)
    requires
        resolved_model(provider, o.kind, o.model) is None,
        !(provider == Provider::Anthropic && o.kind == CommandKind::Edit),
    ensures
        build_spec(provider, o) == Result::<PayloadView, BuildError>::Err(BuildError::UnknownModel),
{
}

/// The optional `max_tokens` member of an OpenAI request body.
pub open spec fn max_tokens_field(mt: Option<u32>) -> Seq<char> {
    match mt {
        Option::None => Seq::empty(),
        Option::Some(n) => ",\"max_tokens\":"@ + dec_of(n as int),
    }
}

/// The JSON request body of a payload, member for member what the target
/// endpoint requires.
pub open spec fn body_of(p: PayloadView) -> Seq<char>
    recommends
        p.wf(),
{
    match p.provider {
        Provider::Anthropic => "{\"model\":\""@ + escape_seq(p.model) + "\",\"prompt\":\""@
            + escape_seq(p.prompt) + "\",\"max_tokens_to_sample\":"@ + dec_of(
            match p.max_tokens {
                Option::None => 0,
                Option::Some(n) => n as int,
            },
        ) + "}"@,
        Provider::OpenAi => match p.kind {
            CommandKind::Chat => "{\"model\":\""@ + escape_seq(p.model)
                + "\",\"messages\":[{\"role\":\"user\",\"content\":\""@ + escape_seq(p.prompt)
                + "\"}]"@ + max_tokens_field(p.max_tokens) + "}"@,
            CommandKind::Completion => "{\"model\":\""@ + escape_seq(p.model) + "\",\"prompt\":\""@
                + escape_seq(p.prompt) + "\""@ + max_tokens_field(p.max_tokens) + "}"@,
            CommandKind::Edit => "{\"model\":\""@ + escape_seq(p.model) + "\",\"instruction\":\""@
                + escape_seq(p.prompt) + "\",\"input\":\""@ + escape_seq(p.input) + "\"}"@,
        },
    }
}

impl Payload {
    /// Renders the JSON request body for this payload.
    pub fn body_json(&self) -> (r: String)
        ensures
            r@ == body_of(self@),
    {
        let mut out = "{\"model\":\"".to_owned();
        append_escaped(&mut out, self.model.as_str());
        match self.provider {
            Provider::Anthropic => {
                out.append("\",\"prompt\":\"");
                append_escaped(&mut out, self.prompt.as_str());
                out.append("\",\"max_tokens_to_sample\":");
                let n = match self.max_tokens {
                    Option::Some(n) => n,
                    Option::None => 0,
                };
                append_u32(&mut out, n);
                out.append("}");
            },
            Provider::OpenAi => {
                match self.kind {
                    CommandKind::Chat => {
                        out.append("\",\"messages\":[{\"role\":\"user\",\"content\":\"");
                        append_escaped(&mut out, self.prompt.as_str());
                        out.append("\"}]");
                        self.append_max_tokens(&mut out);
                        out.append("}");
                    },
                    CommandKind::Completion => {
                        out.append("\",\"prompt\":\"");
                        append_escaped(&mut out, self.prompt.as_str());
                        out.append("\"");
                        self.append_max_tokens(&mut out);
                        out.append("}");
                    },
                    CommandKind::Edit => {
                        out.append("\",\"instruction\":\"");
                        append_escaped(&mut out, self.prompt.as_str());
                        out.append("\",\"input\":\"");
                        append_escaped(&mut out, self.input.as_str());
                        out.append("\"}");
                    },
                }
            },
        }
        out
    }

    fn append_max_tokens(&self, out: &mut String)
        ensures
            final(out)@ == old(out)@ + max_tokens_field(self.max_tokens),
    {
        match self.max_tokens {
            Option::Some(n) => {
                out.append(",\"max_tokens\":");
                append_u32(out, n);
            },
            Option::None => {
                proof {
                    assert(old(out)@ + max_tokens_field(self.max_tokens) =~= old(out)@);
                }
            },
        }
    }

    /// The endpoint URL this payload is sent to.
    pub fn endpoint(&self) -> (r: &'static str)
        ensures
            r@ == endpoint_of(self.provider, self.kind),
    {
        match self.provider {
            Provider::Anthropic => "https://api.anthropic.com/v1/complete",
            Provider::OpenAi => match self.kind {
                CommandKind::Chat => "https://api.openai.com/v1/chat/completions",
                CommandKind::Completion => "https://api.openai.com/v1/completions",
                CommandKind::Edit => "https://api.openai.com/v1/edits",
            },
        }
    }
}

/// The endpoint URL of each provider/command pair. Anthropic serves every
/// supported kind through its completion endpoint.
pub open spec fn endpoint_of(provider: Provider, kind: CommandKind) -> Seq<char> {
    match provider {
        Provider::Anthropic => "https://api.anthropic.com/v1/complete"@,
        Provider::OpenAi => match kind {
            CommandKind::Chat => "https://api.openai.com/v1/chat/completions"@,
            CommandKind::Completion => "https://api.openai.com/v1/completions"@,
            CommandKind::Edit => "https://api.openai.com/v1/edits"@,
        },
    }
}

/// The provider a subcommand addresses.
pub open spec fn provider_of(c: Commands) -> Provider {
    match c {
        Commands::Anthropic(_) => Provider::Anthropic,
        Commands::OpenAi(_) => Provider::OpenAi,
    }
}

/// The options a subcommand carries.
pub open spec fn options_of(c: Commands) -> CommandOptionsView {
    match c {
        Commands::Anthropic(o) => o@,
        Commands::OpenAi(o) => o@,
    }
}

/// Everything one invocation needs after validation: the request to send and
/// the format to render the answer in.
#[derive(Debug, Clone)]
pub struct Plan {
    pub payload: Payload,
    pub output: Output,
}

/// Selects exactly one provider request for the parsed command line, or
/// fails before any network activity: no subcommand, an unknown model alias,
/// or a command the provider does not serve.
pub fn dispatch(cli: &Cli) -> (r: Result<Plan, BuildError>)
    ensures
        match cli.command {
            Option::None => r matches Err(e) && e == BuildError::MissingCommand,
            Option::Some(c) => match r {
                Ok(plan) => build_spec(provider_of(c), options_of(c)) == Result::<
                    PayloadView,
                    BuildError,
                >::Ok(plan.payload@) && plan.payload@.wf() && plan.output == options_of(c).output,
                Err(e) => build_spec(provider_of(c), options_of(c)) == Result::<
                    PayloadView,
                    BuildError,
                >::Err(e),
            },
        },
{
    let (provider, opts) = match &cli.command {
        Option::None => {
            return Err(BuildError::MissingCommand);
        },
        Option::Some(Commands::Anthropic(o)) => (Provider::Anthropic, o),
        Option::Some(Commands::OpenAi(o)) => (Provider::OpenAi, o),
    };
    let payload = match build_payload(provider, opts) {
        Ok(p) => p,
        Err(e) => {
            return Err(e);
        },
    };
    Ok(Plan { payload, output: opts.output })
}

/// A short human-readable description of each build error.
pub open spec fn message_of(e: BuildError) -> Seq<char> {
    match e {
        BuildError::MissingCommand => "no command given"@,
        BuildError::UnknownModel => "unknown model alias"@,
        BuildError::UnsupportedCommand => "the provider does not support this command"@,
    }
}

impl BuildError {
    /// The description printed when this error ends the invocation.
    pub fn message(&self) -> (r: &'static str)
        ensures
            r@ == message_of(*self),
    {
        match self {
            BuildError::MissingCommand => "no command given",
            BuildError::UnknownModel => "unknown model alias",
            BuildError::UnsupportedCommand => "the provider does not support this command",
        }
    }
}

} // verus!
