use console_client::cli::auth_prompt::{auth_choice_for_input, confirmation_answer, AuthChoice};
use console_client::cli::{init, CommandPrompt, InteractiveCommand};

#[test]
fn test_auth_choice_equality() {
    assert_eq!(AuthChoice::WebLogin, AuthChoice::WebLogin);
    assert_ne!(AuthChoice::WebLogin, AuthChoice::Cancel);
}

#[test]
fn test_auth_choice_copy() {
    let choice = AuthChoice::EnterToken;
    let copy = choice;
    assert_eq!(choice, copy);
}

#[test]
fn test_auth_choice_debug() {
    let choice = AuthChoice::WebLogin;
    let debug = format!("{:?}", choice);
    assert!(debug.contains("WebLogin"));
}

#[test]
fn auth_choice_input_maps_numbers_and_default() {
    assert_eq!(auth_choice_for_input(""), Some(AuthChoice::WebLogin));
    assert_eq!(auth_choice_for_input(" 1 \n"), Some(AuthChoice::WebLogin));
    assert_eq!(auth_choice_for_input("2"), Some(AuthChoice::EnterToken));
    assert_eq!(auth_choice_for_input("x"), None);
}

#[test]
fn confirmation_answer_accepts_only_yes() {
    assert!(confirmation_answer("y\n"));
    assert!(confirmation_answer(" YES "));
    assert!(!confirmation_answer(""));
    assert!(!confirmation_answer("no"));
}

#[test]
fn test_parse_startcrypto() {
    assert_eq!(InteractiveCommand::parse("startcrypto"), InteractiveCommand::StartCrypto);
    assert_eq!(InteractiveCommand::parse("start"), InteractiveCommand::StartCrypto);
    assert_eq!(InteractiveCommand::parse("STARTCRYPTO"), InteractiveCommand::StartCrypto);
    assert_eq!(InteractiveCommand::parse("  start  "), InteractiveCommand::StartCrypto);
}

#[test]
fn test_parse_stopcrypto() {
    assert_eq!(InteractiveCommand::parse("stopcrypto"), InteractiveCommand::StopCrypto);
    assert_eq!(InteractiveCommand::parse("stop"), InteractiveCommand::StopCrypto);
    assert_eq!(InteractiveCommand::parse("STOP"), InteractiveCommand::StopCrypto);
}

#[test]
fn test_parse_finalize() {
    assert_eq!(InteractiveCommand::parse("finalize"), InteractiveCommand::Finalize);
    assert_eq!(InteractiveCommand::parse("fin"), InteractiveCommand::Finalize);
    assert_eq!(InteractiveCommand::parse("finish"), InteractiveCommand::Finalize);
}

#[test]
fn test_parse_status() {
    assert_eq!(InteractiveCommand::parse("status"), InteractiveCommand::Status);
    assert_eq!(InteractiveCommand::parse("s"), InteractiveCommand::Status);
    assert_eq!(InteractiveCommand::parse("stat"), InteractiveCommand::Status);
}

#[test]
fn test_parse_quit() {
    assert_eq!(InteractiveCommand::parse("quit"), InteractiveCommand::Quit);
    assert_eq!(InteractiveCommand::parse("q"), InteractiveCommand::Quit);
    assert_eq!(InteractiveCommand::parse("exit"), InteractiveCommand::Quit);
    assert_eq!(InteractiveCommand::parse("bye"), InteractiveCommand::Quit);
}

#[test]
fn test_parse_help() {
    assert_eq!(InteractiveCommand::parse("help"), InteractiveCommand::Help);
    assert_eq!(InteractiveCommand::parse("h"), InteractiveCommand::Help);
    assert_eq!(InteractiveCommand::parse("?"), InteractiveCommand::Help);
}

#[test]
fn commands_test_parse_unknown() {
    assert_eq!(
        InteractiveCommand::parse("foobar"),
        InteractiveCommand::Unknown("foobar".to_string())
    );
    assert_eq!(InteractiveCommand::parse(""), InteractiveCommand::Unknown(String::new()));
}

#[test]
fn parse_of_display_name_round_trips() {
    for cmd in [
        InteractiveCommand::StartCrypto,
        InteractiveCommand::StopCrypto,
        InteractiveCommand::Finalize,
        InteractiveCommand::Status,
        InteractiveCommand::Quit,
        InteractiveCommand::Help,
    ] {
        let name = cmd.to_string();
        assert_eq!(InteractiveCommand::parse(&format!("  {}  ", name.to_uppercase())), cmd);
    }
}

#[test]
fn test_is_exit_command() {
    assert!(InteractiveCommand::Quit.is_exit_command());
    assert!(InteractiveCommand::Finalize.is_exit_command());
    assert!(!InteractiveCommand::Status.is_exit_command());
    assert!(!InteractiveCommand::StartCrypto.is_exit_command());
}

#[test]
fn test_is_crypto_command() {
    assert!(InteractiveCommand::StartCrypto.is_crypto_command());
    assert!(InteractiveCommand::StopCrypto.is_crypto_command());
    assert!(!InteractiveCommand::Quit.is_crypto_command());
    assert!(!InteractiveCommand::Status.is_crypto_command());
}

#[test]
fn test_display() {
    assert_eq!(InteractiveCommand::StartCrypto.to_string(), "startcrypto");
    assert_eq!(InteractiveCommand::Quit.to_string(), "quit");
    assert_eq!(InteractiveCommand::Unknown("foo".to_string()).to_string(), "unknown(foo)");
}

#[test]
fn test_description() {
    assert!(!InteractiveCommand::StartCrypto.description().is_empty());
    assert!(!InteractiveCommand::Quit.description().is_empty());
    assert!(!InteractiveCommand::Unknown("x".to_string()).description().is_empty());
}

#[test]
fn test_write_help() {
    let mut output = String::new();
    InteractiveCommand::write_help(&mut output);

    assert!(output.contains("startcrypto"));
    assert!(output.contains("stopcrypto"));
    assert!(output.contains("finalize"));
    assert!(output.contains("status"));
    assert!(output.contains("quit"));
    assert!(output.contains("help"));
}

#[test]
fn test_command_prompt_new() {
    let prompt = CommandPrompt::new("test> ");
    assert_eq!(prompt.prompt(), "test> ");
}

#[test]
fn test_command_prompt_default() {
    let prompt = CommandPrompt::default();
    assert_eq!(prompt.prompt(), "pcloud> ");
}

#[test]
fn test_command_prompt_set_prompt() {
    let mut prompt = CommandPrompt::default();
    prompt.set_prompt("new> ");
    assert_eq!(prompt.prompt(), "new> ");
}

#[test]
fn test_clone_and_eq() {
    let cmd = InteractiveCommand::StartCrypto;
    let cloned = cmd.clone();
    assert_eq!(cmd, cloned);
}

#[test]
fn test_interactive_commands() {
    init();
    assert_eq!(InteractiveCommand::parse("start"), InteractiveCommand::StartCrypto);
    assert_eq!(InteractiveCommand::parse("stop"), InteractiveCommand::StopCrypto);
    assert_eq!(InteractiveCommand::parse("fin"), InteractiveCommand::Finalize);
    assert_eq!(InteractiveCommand::parse("s"), InteractiveCommand::Status);
    assert_eq!(InteractiveCommand::parse("q"), InteractiveCommand::Quit);
    assert_eq!(InteractiveCommand::parse("?"), InteractiveCommand::Help);

    assert!(InteractiveCommand::Quit.is_exit_command());
    assert!(InteractiveCommand::Finalize.is_exit_command());
    assert!(!InteractiveCommand::Status.is_exit_command());

    assert!(InteractiveCommand::StartCrypto.is_crypto_command());
    assert!(InteractiveCommand::StopCrypto.is_crypto_command());
    assert!(!InteractiveCommand::Quit.is_crypto_command());
}

#[test]
fn test_cli_types_accessible() {
    let cli = console_client::cli::Cli::default();
    assert!(cli.command.is_none());
    let cmd = InteractiveCommand::parse("startcrypto");
    assert_eq!(cmd, InteractiveCommand::StartCrypto);
    let prompt = CommandPrompt::default();
    assert_eq!(prompt.prompt(), "pcloud> ");
}

#[test]
fn test_modules_compile() {
    init();
    console_client::daemon::init();
    console_client::security::init();
}

use console_client::cli::args::{default_mountpoint, resolve_mountpoint};

#[test]
fn resolve_mountpoint_prefers_cli_path() {
    assert_eq!(
        resolve_mountpoint(Some("/custom/path"), Some("/from-env"), Some("/home/u")),
        "/custom/path"
    );
}

#[test]
fn resolve_mountpoint_falls_back_to_env_then_home() {
    assert_eq!(resolve_mountpoint(None, Some("/from-env"), Some("/home/u")), "/from-env");
    assert_eq!(resolve_mountpoint(None, None, Some("/home/u")), "/home/u/pCloud");
}

#[test]
fn default_mountpoint_ends_with_pcloud() {
    assert!(default_mountpoint(Some("/home/u")).ends_with("pCloud"));
    assert!(default_mountpoint(None).ends_with("pCloud"));
}

use console_client::cli::auth_prompt::{confirm_by_name_matches, raw_line_step, RawLineEvent};

#[test]
fn raw_line_bytes_edit_the_line() {
    let mut line: Vec<char> = Vec::new();
    assert_eq!(raw_line_step(&mut line, b'a'), RawLineEvent::Typed('a'));
    assert_eq!(raw_line_step(&mut line, b'b'), RawLineEvent::Typed('b'));
    assert_eq!(raw_line_step(&mut line, 0x7f), RawLineEvent::Erased);
    assert_eq!(line, vec!['a']);
    assert_eq!(raw_line_step(&mut line, 0x01), RawLineEvent::Ignored);
    assert_eq!(raw_line_step(&mut line, b'\r'), RawLineEvent::Submitted);
    assert_eq!(raw_line_step(&mut line, 0x1b), RawLineEvent::Cancelled);
    assert_eq!(raw_line_step(&mut line, 0x03), RawLineEvent::Cancelled);
    assert_eq!(line, vec!['a']);
    let mut empty: Vec<char> = Vec::new();
    assert_eq!(raw_line_step(&mut empty, 0x08), RawLineEvent::Ignored);
}

#[test]
fn confirm_by_name_needs_the_exact_name() {
    assert!(confirm_by_name_matches("Photos", "Photos"));
    assert!(!confirm_by_name_matches("photos", "Photos"));
    assert!(!confirm_by_name_matches("Photos ", "Photos"));
}

#[test]
fn exit_aliases_are_exactly_the_exit_words() {
    for w in ["finalize", "fin", "finish", "quit", "q", "exit", "bye", " QUIT ", "Bye"] {
        assert!(InteractiveCommand::parse(w).is_exit_command(), "{w}");
    }
    for w in ["stop", "start", "status", "s", "help", "quitt", "", "x"] {
        assert!(!InteractiveCommand::parse(w).is_exit_command(), "{w}");
    }
}

use console_client::cli::completion::{
    bash_completion_script, bash_function_name, completion_output, replace_all, CompletionItem,
    BASH_COMPLETION_TEMPLATE,
};

#[test]
fn replace_all_matches_str_replace() {
    for (s, p, w) in [("a{X}b{X}", "{X}", "yy"), ("aaaa", "aa", "b"), ("none", "{X}", "z"), ("", "x", "y")] {
        assert_eq!(replace_all(s, p, w), s.replace(p, w));
    }
}

#[test]
fn bash_script_registers_the_completion_function() {
    assert_eq!(bash_function_name("pcloud-cli"), "_pcloud_cli_complete");
    assert_eq!(bash_function_name("a.b-c"), "_a_b_c_complete");
    let script = bash_completion_script("pcloud-cli");
    assert!(script.starts_with("_pcloud_cli_complete() {\n"));
    assert!(script.ends_with("complete -F _pcloud_cli_complete pcloud-cli\n"));
    assert!(script.contains("__complete --index \"$cword\""));
    assert!(!script.contains("{FN}") && !script.contains("{BIN}"));
    assert_eq!(
        script,
        BASH_COMPLETION_TEMPLATE.replace("{FN}", "_pcloud_cli_complete").replace("{BIN}", "pcloud-cli")
    );
}

#[test]
fn completion_candidates_print_value_and_first_help_line() {
    let items = vec![
        CompletionItem { value: "mount".into(), help: Some("Mount pCloud\nmore".into()), hidden: false },
        CompletionItem { value: "__complete".into(), help: None, hidden: true },
        CompletionItem { value: "stop".into(), help: None, hidden: false },
        CompletionItem { value: "x".into(), help: Some(String::new()), hidden: false },
    ];
    assert_eq!(completion_output(&items), "mount\tMount pCloud\nstop\nx\t\n");
}

use console_client::cli::start::start_decision;

#[test]
fn start_prefers_the_command_line_token_and_saves_only_it() {
    let d = start_decision(Some("cli".into()), Some("env".into()), false, false);
    assert_eq!(d.token.as_deref(), Some("cli"));
    assert!(d.save_token);
    assert!(!d.pre_login);

    let d = start_decision(None, Some("env".into()), false, false);
    assert_eq!(d.token.as_deref(), Some("env"));
    assert!(!d.save_token);
    assert!(!d.pre_login);
}

#[test]
fn start_logs_in_first_only_in_the_background_without_a_token() {
    assert!(start_decision(None, None, false, false).pre_login);
    assert!(!start_decision(None, None, true, false).pre_login);
    assert!(!start_decision(None, None, false, true).pre_login);
    let d = start_decision(None, None, false, false);
    assert_eq!(d.token, None);
    assert!(!d.save_token);
}
