use socket_commander::command::parse;
use socket_commander::command::BossCommand;
use socket_commander::command::ConfigKey;
use socket_commander::command::GrammarError;
use socket_commander::command::HelpTopic;
use socket_commander::command::ParseError;
use socket_commander::command::ParsedCommand;

#[test]
fn configuration_set_joins_remaining_tokens() {
    let r = parse("configuration set myKey hello world");
    assert_eq!(
        r,
        Ok(ParsedCommand::Boss(BossCommand::Configure(
            "myKey".to_string(),
            "hello world".to_string(),
        )))
    );
}

#[test]
fn network_add_keeps_quoted_words_as_one_token() {
    let r = parse("network add \"Home Wifi\" \"s3cr3t!\"");
    assert_eq!(
        r,
        Ok(ParsedCommand::Boss(BossCommand::WifiAdd {
            ssid: "Home Wifi".to_string(),
            password: Some("s3cr3t!".to_string()),
        }))
    );
}

#[test]
fn network_add_password_is_optional() {
    let r = parse("network add attic");
    assert_eq!(
        r,
        Ok(ParsedCommand::Boss(BossCommand::WifiAdd {
            ssid: "attic".to_string(),
            password: None,
        }))
    );
}

#[test]
fn network_delete_and_scan() {
    assert_eq!(
        parse("network delete attic"),
        Ok(ParsedCommand::Boss(BossCommand::WifiDelete("attic".to_string())))
    );
    assert_eq!(
        parse("network scan"),
        Ok(ParsedCommand::Boss(BossCommand::WifiScan))
    );
}

#[test]
fn configuration_get_valid_key() {
    assert_eq!(
        parse("configuration get myKey"),
        Ok(ParsedCommand::Boss(BossCommand::GetConfig("myKey".to_string())))
    );
}

#[test]
fn exit_is_a_top_level_verb() {
    assert_eq!(parse("exit"), Ok(ParsedCommand::Exit));
    assert_eq!(parse("  exit  "), Ok(ParsedCommand::Exit));
}

#[test]
fn exit_takes_no_arguments() {
    match parse("exit now") {
        Err(ParseError::Grammar(GrammarError::WrongArity(usage))) => {
            assert_eq!(usage, "exit");
        }
        other => panic!("expected a wrong-arity error, got {:?}", other),
    }
}

#[test]
fn hyphenated_key_is_rejected_with_its_name() {
    match parse("configuration get my-key") {
        Err(e @ ParseError::Grammar(GrammarError::InvalidKey(_))) => {
            let msg = e.message();
            assert_eq!(msg, "config key \"my-key\" must be alphanumeric");
        }
        other => panic!("expected a key validation error, got {:?}", other),
    }
}

#[test]
fn unknown_subsystem_names_the_token() {
    match parse("bogus foo") {
        Err(e @ ParseError::Grammar(GrammarError::UnknownSubsystem(_))) => {
            let msg = e.message();
            assert!(msg.contains("bogus"));
            assert_eq!(
                msg,
                "unknown subsystem \"bogus\": expected network, configuration, or exit"
            );
        }
        other => panic!("expected an unknown-subsystem error, got {:?}", other),
    }
}

#[test]
fn unknown_verb_names_subsystem_and_token() {
    match parse("network frobnicate x") {
        Err(e @ ParseError::Grammar(GrammarError::UnknownVerb(_, _))) => {
            let msg = e.message();
            assert_eq!(msg, "unknown verb \"frobnicate\" for subsystem network");
        }
        other => panic!("expected an unknown-verb error, got {:?}", other),
    }
}

#[test]
fn wrong_arity_carries_the_usage_line() {
    match parse("network scan now") {
        Err(ParseError::Grammar(GrammarError::WrongArity(usage))) => {
            assert_eq!(usage, "network scan");
        }
        other => panic!("expected a wrong-arity error, got {:?}", other),
    }
    match parse("configuration set onlykey") {
        Err(ParseError::Grammar(GrammarError::WrongArity(usage))) => {
            assert_eq!(usage, "configuration set <key> <value>");
        }
        other => panic!("expected a wrong-arity error, got {:?}", other),
    }
    match parse("network add") {
        Err(ParseError::Grammar(GrammarError::WrongArity(usage))) => {
            assert_eq!(usage, "network add <name> [secret]");
        }
        other => panic!("expected a wrong-arity error, got {:?}", other),
    }
}

#[test]
fn trailing_help_flag_asks_for_subsystem_help() {
    assert_eq!(
        parse("network add --help"),
        Err(ParseError::Help(HelpTopic::Network))
    );
    assert_eq!(
        parse("network add attic --help"),
        Err(ParseError::Help(HelpTopic::Network))
    );
    assert_eq!(
        parse("configuration set myKey value --help"),
        Err(ParseError::Help(HelpTopic::Configuration))
    );
}

#[test]
fn bare_subsystem_asks_for_help() {
    assert_eq!(parse("network"), Err(ParseError::Help(HelpTopic::Network)));
    assert_eq!(
        parse("configuration"),
        Err(ParseError::Help(HelpTopic::Configuration))
    );
    assert_eq!(
        parse("network --help"),
        Err(ParseError::Help(HelpTopic::Network))
    );
    assert_eq!(parse("help"), Err(ParseError::Help(HelpTopic::General)));
    let msg = ParseError::Help(HelpTopic::Network).message();
    assert_eq!(msg, "network commands: add <name> [secret] | delete <name> | scan");
}

#[test]
fn unterminated_quote_is_a_tokenize_error() {
    match parse("network add \"oops") {
        Err(e @ ParseError::Tokenize(_)) => {
            assert_eq!(e.message(), "missing closing quote");
        }
        other => panic!("expected a tokenize error, got {:?}", other),
    }
}

#[test]
fn comment_only_line_asks_for_help() {
    assert_eq!(parse("# nothing here"), Err(ParseError::Help(HelpTopic::General)));
}

#[test]
fn parsing_is_deterministic() {
    let line = "configuration set myKey hello world";
    assert_eq!(parse(line), parse(line));
}

#[test]
fn reparsing_a_rendered_command_reproduces_it() {
    // the joined value, written back as one quoted token, parses to the
    // same command
    let first = parse("configuration set myKey hello world").unwrap();
    let second = parse("configuration set myKey \"hello world\"").unwrap();
    assert_eq!(first, second);
    // the quoting style of a rendering does not matter
    let w1 = parse("network add \"Home Wifi\"").unwrap();
    let w2 = parse("network add 'Home Wifi'").unwrap();
    assert_eq!(w1, w2);
}

#[test]
fn config_key_validator_accepts_alphanumeric_only() {
    assert!(ConfigKey::from_raw("abc123").is_ok());
    assert!(ConfigKey::from_raw("ABCxyz9").is_ok());
    assert!(ConfigKey::from_raw("").is_err());
    assert!(ConfigKey::from_raw("a b").is_err());
    assert!(ConfigKey::from_raw("my-key").is_err());
    assert!(ConfigKey::from_raw("punct!").is_err());
    assert!(ConfigKey::from_raw("caf\u{e9}").is_err());
}

#[test]
fn config_key_error_names_the_token() {
    let e = ConfigKey::from_raw("a b").unwrap_err();
    assert_eq!(e.message(), "config key \"a b\" must be alphanumeric");
}
