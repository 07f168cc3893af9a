use muldex::commands::{
    approval_policy_label, parse_approval_policy, parse_interactive_llm_config_command,
    parse_interactive_provider_command, parse_interactive_shell_input,
    parse_interactive_slash_command, InteractiveLlmConfigCommand, InteractiveProviderCommand,
    InteractiveShellInput, InteractiveSlashCommand,
};
use muldex::protocol::ApprovalPolicyDescriptor;

#[test]
fn shell_input_recognises_builtins_and_prompts() {
    assert_eq!(parse_interactive_shell_input("  \r\n"), InteractiveShellInput::Empty);
    assert_eq!(parse_interactive_shell_input("/quit\n"), InteractiveShellInput::Exit);
    assert_eq!(parse_interactive_shell_input(" /exit "), InteractiveShellInput::Exit);
    assert_eq!(parse_interactive_shell_input("/help"), InteractiveShellInput::Help);
    assert_eq!(parse_interactive_shell_input("/status\r\n"), InteractiveShellInput::Status);
    assert_eq!(
        parse_interactive_shell_input("/model\nsecond line"),
        InteractiveShellInput::Prompt("/model\nsecond line".to_string())
    );
    assert_eq!(
        parse_interactive_shell_input("  hello world \n"),
        InteractiveShellInput::Prompt("hello world".to_string())
    );
    assert_eq!(
        parse_interactive_shell_input("/model gpt-5"),
        InteractiveShellInput::SlashCommand(InteractiveSlashCommand::Model(Some(
            "gpt-5".to_string()
        )))
    );
}

#[test]
fn slash_commands_read_their_words() {
    assert_eq!(
        parse_interactive_slash_command("/approval"),
        InteractiveSlashCommand::Approval(None)
    );
    assert_eq!(parse_interactive_slash_command("/compact"), InteractiveSlashCommand::Compact);
    assert_eq!(parse_interactive_slash_command("/sessions x"), InteractiveSlashCommand::Sessions);
    assert_eq!(
        parse_interactive_slash_command("/resume  s-1  extra"),
        InteractiveSlashCommand::Resume(Some("s-1".to_string()))
    );
    assert_eq!(parse_interactive_slash_command("/new"), InteractiveSlashCommand::New);
    assert_eq!(
        parse_interactive_slash_command("/config"),
        InteractiveSlashCommand::ConfigLlm(InteractiveLlmConfigCommand::Show)
    );
    assert_eq!(
        parse_interactive_slash_command("/config llm port 8080"),
        InteractiveSlashCommand::ConfigLlm(InteractiveLlmConfigCommand::SetPort(8080))
    );
    assert_eq!(
        parse_interactive_slash_command("/config other"),
        InteractiveSlashCommand::Unknown("/config other".to_string())
    );
    assert_eq!(
        parse_interactive_slash_command("/provider use prod"),
        InteractiveSlashCommand::Provider(InteractiveProviderCommand::Use("prod".to_string()))
    );
    assert_eq!(
        parse_interactive_slash_command("/bogus arg"),
        InteractiveSlashCommand::Unknown("/bogus".to_string())
    );
    assert_eq!(
        parse_interactive_slash_command("   "),
        InteractiveSlashCommand::Unknown("   ".to_string())
    );
}

#[test]
fn llm_config_commands() {
    assert_eq!(parse_interactive_llm_config_command(vec![]), InteractiveLlmConfigCommand::Show);
    assert_eq!(parse_interactive_llm_config_command(vec!["test"]), InteractiveLlmConfigCommand::Test);
    assert_eq!(
        parse_interactive_llm_config_command(vec!["host", "10.0.0.1"]),
        InteractiveLlmConfigCommand::SetHost("10.0.0.1".to_string())
    );
    assert_eq!(
        parse_interactive_llm_config_command(vec!["port", "+65535"]),
        InteractiveLlmConfigCommand::SetPort(65535)
    );
    assert_eq!(
        parse_interactive_llm_config_command(vec!["port", "65536"]),
        InteractiveLlmConfigCommand::Invalid("invalid port".to_string())
    );
    assert_eq!(
        parse_interactive_llm_config_command(vec!["port", "-1"]),
        InteractiveLlmConfigCommand::Invalid("invalid port".to_string())
    );
    assert_eq!(
        parse_interactive_llm_config_command(vec!["api-key", "k"]),
        InteractiveLlmConfigCommand::SetApiKey("k".to_string())
    );
    assert_eq!(
        parse_interactive_llm_config_command(vec!["default-model", "m"]),
        InteractiveLlmConfigCommand::SetDefaultModel("m".to_string())
    );
    assert_eq!(
        parse_interactive_llm_config_command(vec!["host"]),
        InteractiveLlmConfigCommand::Invalid("unsupported llm config command".to_string())
    );
}

#[test]
fn provider_commands() {
    assert_eq!(parse_interactive_provider_command(vec!["show"]), InteractiveProviderCommand::Show);
    assert_eq!(parse_interactive_provider_command(vec!["list"]), InteractiveProviderCommand::List);
    assert_eq!(parse_interactive_provider_command(vec!["test"]), InteractiveProviderCommand::Test(None));
    assert_eq!(
        parse_interactive_provider_command(vec!["test", "p"]),
        InteractiveProviderCommand::Test(Some("p".to_string()))
    );
    assert_eq!(
        parse_interactive_provider_command(vec!["use"]),
        InteractiveProviderCommand::Invalid("unsupported provider command".to_string())
    );
}

#[test]
fn approval_policies_round_trip_through_their_labels() {
    assert_eq!(parse_approval_policy("manual"), Some(ApprovalPolicyDescriptor::Ask));
    assert_eq!(parse_approval_policy("auto"), Some(ApprovalPolicyDescriptor::Never));
    assert_eq!(parse_approval_policy("bogus"), None);
    for p in [
        ApprovalPolicyDescriptor::Ask,
        ApprovalPolicyDescriptor::OnRequest,
        ApprovalPolicyDescriptor::Never,
        ApprovalPolicyDescriptor::UnlessTrusted,
    ] {
        assert_eq!(parse_approval_policy(approval_policy_label(&p)), Some(p));
    }
    assert_eq!(approval_policy_label(&ApprovalPolicyDescriptor::Unknown), "unknown");
}
