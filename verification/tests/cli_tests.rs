use chat_cli::options::{
    AnthropicModel, ClaudeModelOption, Cli, CommandKind, CommandOptions, Commands,
    OpenAiModelOption, Provider,
};
use chat_cli::output::{parse_json, parse_yaml, render_response, CommandResult};
use chat_cli::request::{build_payload, dispatch, BuildError, Payload};
use chat_cli::Output;

fn options(kind: CommandKind, model: &str, message: &str) -> CommandOptions {
    CommandOptions {
        kind,
        model: model.to_owned(),
        message: message.to_owned(),
        input: None,
        max_tokens: None,
        output: Output::Raw,
    }
}

fn build_ok(provider: Provider, kind: CommandKind, model: &str, message: &str) -> Payload {
    build_payload(provider, &options(kind, model, message)).expect("expected a payload")
}

#[test]
fn openai_chat_payload_has_required_fields() {
    let p = build_ok(Provider::OpenAi, CommandKind::Chat, "gpt-3.5-turbo", "hi");
    assert_eq!(p.model, "gpt-3.5-turbo");
    assert_eq!(p.prompt, "hi");
    let body: serde_json::Value = serde_json::from_str(&p.body_json()).unwrap();
    assert_eq!(body["model"], "gpt-3.5-turbo");
    assert_eq!(body["messages"][0]["role"], "user");
    assert_eq!(body["messages"][0]["content"], "hi");
}

#[test]
fn openai_completion_payload_has_required_fields() {
    let p = build_ok(
        Provider::OpenAi,
        CommandKind::Completion,
        "text-davinci-003",
        "once upon a time",
    );
    let body: serde_json::Value = serde_json::from_str(&p.body_json()).unwrap();
    assert_eq!(body["model"], "text-davinci-003");
    assert_eq!(body["prompt"], "once upon a time");
}

#[test]
fn openai_edit_payload_has_required_fields() {
    let mut opts = options(CommandKind::Edit, "text-davinci-edit-001", "fix spelling");
    opts.input = Some("helo wrld".to_owned());
    let p = build_payload(Provider::OpenAi, &opts).unwrap();
    let body: serde_json::Value = serde_json::from_str(&p.body_json()).unwrap();
    assert_eq!(body["model"], "text-davinci-edit-001");
    assert_eq!(body["instruction"], "fix spelling");
    assert_eq!(body["input"], "helo wrld");
}

#[test]
fn anthropic_chat_payload_has_required_fields() {
    let p = build_ok(Provider::Anthropic, CommandKind::Chat, "claude_v1", "hi");
    let body: serde_json::Value = serde_json::from_str(&p.body_json()).unwrap();
    assert_eq!(body["model"], "claude_v1");
    assert_eq!(body["prompt"], "\n\nHuman: hi\n\nAssistant:");
    assert_eq!(body["max_tokens_to_sample"], 256);
}

#[test]
fn anthropic_completion_keeps_prompt_verbatim() {
    let mut opts = options(CommandKind::Completion, "claude_instant_v1", "plain prompt");
    opts.max_tokens = Some(1024);
    let p = build_payload(Provider::Anthropic, &opts).unwrap();
    let body: serde_json::Value = serde_json::from_str(&p.body_json()).unwrap();
    assert_eq!(body["model"], "claude_instant_v1");
    assert_eq!(body["prompt"], "plain prompt");
    assert_eq!(body["max_tokens_to_sample"], 1024);
}

#[test]
fn openai_max_tokens_is_optional_but_kept() {
    let mut opts = options(CommandKind::Chat, "gpt-4", "hi");
    opts.max_tokens = Some(4294967295);
    let p = build_payload(Provider::OpenAi, &opts).unwrap();
    let body: serde_json::Value = serde_json::from_str(&p.body_json()).unwrap();
    assert_eq!(body["max_tokens"], 4294967295u64);

    let p = build_ok(Provider::OpenAi, CommandKind::Chat, "gpt-4", "hi");
    let body: serde_json::Value = serde_json::from_str(&p.body_json()).unwrap();
    assert!(body.get("max_tokens").is_none());
}

#[test]
fn unknown_model_alias_fails_before_any_call() {
    let r = build_payload(Provider::OpenAi, &options(CommandKind::Chat, "gpt-9", "hi"));
    assert_eq!(r.unwrap_err(), BuildError::UnknownModel);
    let r = build_payload(
        Provider::Anthropic,
        &options(CommandKind::Chat, "claude_v9", "hi"),
    );
    assert_eq!(r.unwrap_err(), BuildError::UnknownModel);
}

#[test]
fn model_of_wrong_kind_is_unknown_for_that_pair() {
    let r = build_payload(
        Provider::OpenAi,
        &options(CommandKind::Completion, "gpt-3.5-turbo", "hi"),
    );
    assert_eq!(r.unwrap_err(), BuildError::UnknownModel);
}

#[test]
fn anthropic_edit_is_unsupported() {
    let r = build_payload(
        Provider::Anthropic,
        &options(CommandKind::Edit, "claude_v1", "fix this"),
    );
    assert_eq!(r.unwrap_err(), BuildError::UnsupportedCommand);
}

#[test]
fn missing_command_fails_dispatch() {
    let r = dispatch(&Cli { command: None });
    assert_eq!(r.unwrap_err(), BuildError::MissingCommand);
}

#[test]
fn error_messages_name_the_failure() {
    assert_eq!(BuildError::MissingCommand.message(), "no command given");
    assert_eq!(BuildError::UnknownModel.message(), "unknown model alias");
    assert_eq!(
        BuildError::UnsupportedCommand.message(),
        "the provider does not support this command"
    );
}

#[test]
fn endpoints_match_provider_and_kind() {
    let p = build_ok(Provider::OpenAi, CommandKind::Chat, "gpt-3.5-turbo", "hi");
    assert_eq!(p.endpoint(), "https://api.openai.com/v1/chat/completions");
    let p = build_ok(
        Provider::OpenAi,
        CommandKind::Completion,
        "text-davinci-003",
        "hi",
    );
    assert_eq!(p.endpoint(), "https://api.openai.com/v1/completions");
    let p = build_ok(Provider::Anthropic, CommandKind::Chat, "claude_v1", "hi");
    assert_eq!(p.endpoint(), "https://api.anthropic.com/v1/complete");
}

#[test]
fn claude_aliases_resolve_and_unknown_does_not() {
    assert!(matches!(
        ClaudeModelOption::from_alias("claude_v1"),
        Some(ClaudeModelOption::ClaudeV1)
    ));
    assert!(matches!(
        ClaudeModelOption::from_alias("claude_v1_100k"),
        Some(ClaudeModelOption::ClaudeV1_100k)
    ));
    assert!(matches!(
        ClaudeModelOption::from_alias("claude_instant_v1"),
        Some(ClaudeModelOption::ClaudeInstantV1)
    ));
    assert!(matches!(
        ClaudeModelOption::from_alias("claude_instant_v1_100k"),
        Some(ClaudeModelOption::ClaudeInstantV1_100k)
    ));
    assert!(ClaudeModelOption::from_alias("claude_v2").is_none());
    assert!(ClaudeModelOption::from_alias("").is_none());
}

#[test]
fn openai_aliases_resolve_and_unknown_does_not() {
    assert!(matches!(
        OpenAiModelOption::from_alias("gpt-3.5-turbo"),
        Some(OpenAiModelOption::Gpt35Turbo)
    ));
    assert!(matches!(
        OpenAiModelOption::from_alias("gpt-4"),
        Some(OpenAiModelOption::Gpt4)
    ));
    assert!(OpenAiModelOption::from_alias("gpt-4-turbo").is_none());
}

#[test]
fn claude_option_converts_to_model_and_back() {
    let options = [
        ClaudeModelOption::ClaudeV1,
        ClaudeModelOption::ClaudeV1_100k,
        ClaudeModelOption::ClaudeInstantV1,
        ClaudeModelOption::ClaudeInstantV1_100k,
    ];
    for o in options {
        let m = AnthropicModel::from(o);
        let back = ClaudeModelOption::from(m);
        assert_eq!(back, o);
    }
    assert_eq!(
        AnthropicModel::from(ClaudeModelOption::ClaudeV1_100k),
        AnthropicModel::ClaudeV1_100k
    );
}

#[test]
fn output_defaults_to_raw() {
    assert_eq!(Output::default(), Output::Raw);
}

#[test]
fn raw_output_is_the_text_verbatim() {
    let r = CommandResult {
        text: "hello\nworld".to_owned(),
    };
    assert_eq!(r.format_raw(), "hello\nworld");
    assert_eq!(r.render(&Output::Raw), "hello\nworld");
}

#[test]
fn json_output_parses_as_json() {
    let r = CommandResult {
        text: "a \"quoted\" line\nand a \\ backslash\ttabbed".to_owned(),
    };
    let rendered = r.render(&Output::Json);
    let v: serde_json::Value = serde_json::from_str(&rendered).unwrap();
    assert_eq!(v["text"], "a \"quoted\" line\nand a \\ backslash\ttabbed");
}

#[test]
fn yaml_output_parses_as_yaml() {
    let r = CommandResult {
        text: "a \"quoted\" line\nwith\ttab".to_owned(),
    };
    let rendered = r.render(&Output::Yaml);
    let v: serde_yaml::Value = serde_yaml::from_str(&rendered).unwrap();
    assert_eq!(
        v["text"],
        serde_yaml::Value::String("a \"quoted\" line\nwith\ttab".to_owned())
    );
}

#[test]
fn json_round_trip_restores_the_fields() {
    let texts = [
        "",
        "hello",
        "line\r\nbreaks and \"quotes\" and \\slashes\\",
        "unicode: héllo wörld",
    ];
    for text in texts {
        let r = CommandResult {
            text: text.to_owned(),
        };
        let back = parse_json(&r.format_json()).expect("round trip must parse");
        assert_eq!(back.text, text);
    }
}

#[test]
fn yaml_round_trip_restores_the_fields() {
    let r = CommandResult {
        text: "two\nlines".to_owned(),
    };
    let back = parse_yaml(&r.format_yaml()).expect("round trip must parse");
    assert_eq!(back.text, "two\nlines");
}

#[test]
fn exact_json_rendering() {
    let r = CommandResult {
        text: "a\"b\\c\nd".to_owned(),
    };
    assert_eq!(r.format_json(), "{\"text\":\"a\\\"b\\\\c\\nd\"}");
    let r = CommandResult {
        text: "hello".to_owned(),
    };
    assert_eq!(r.format_json(), "{\"text\":\"hello\"}");
    assert_eq!(r.format_yaml(), "text: \"hello\"\n");
}

#[test]
fn malformed_responses_are_rejected() {
    assert!(parse_json("garbage").is_none());
    assert!(parse_json("{\"text\":\"unterminated}").is_none());
    assert!(parse_json("{\"text\":\"bad \\q escape\"}").is_none());
    assert!(parse_json("{\"text\":\"stray \" quote\"}").is_none());
    assert!(parse_json("{\"text\":\"dangling\\\"}").is_none());
    assert!(parse_json("").is_none());
    assert!(parse_yaml("text: unquoted\n").is_none());
}

#[test]
fn chat_scenario_prints_the_stubbed_response() {
    let cli = Cli {
        command: Some(Commands::OpenAi(CommandOptions {
            kind: CommandKind::Chat,
            model: "gpt-3.5-turbo".to_owned(),
            message: "hi".to_owned(),
            input: None,
            max_tokens: None,
            output: Output::Json,
        })),
    };
    let plan = dispatch(&cli).expect("the scenario's options are valid");
    assert_eq!(plan.payload.model, "gpt-3.5-turbo");
    assert_eq!(plan.output, Output::Json);
    let printed = render_response("{\"text\":\"hello\"}", &plan.output)
        .expect("the stubbed response is well formed");
    assert_eq!(printed, "{\"text\":\"hello\"}");
}

#[test]
fn unknown_model_scenario_fails_with_a_validation_error() {
    let cli = Cli {
        command: Some(Commands::OpenAi(CommandOptions {
            kind: CommandKind::Chat,
            model: "gpt-unknown".to_owned(),
            message: "hi".to_owned(),
            input: None,
            max_tokens: None,
            output: Output::Raw,
        })),
    };
    let err = dispatch(&cli).expect_err("an unknown model must not dispatch");
    assert_eq!(err, BuildError::UnknownModel);
    assert_eq!(err.message(), "unknown model alias");
}
