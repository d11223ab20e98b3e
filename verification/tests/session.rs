use socket_commander::command::BossCommand;
use socket_commander::executor::execute_command;
use socket_commander::session::session_step;
use socket_commander::session::LineOutcome;

#[test]
fn blank_lines_reprompt_silently() {
    assert_eq!(session_step(""), LineOutcome::Silent);
    assert_eq!(session_step("   "), LineOutcome::Silent);
    assert_eq!(session_step(" \t \r"), LineOutcome::Silent);
}

#[test]
fn sentinel_terminates_without_output() {
    assert_eq!(session_step("\\x04"), LineOutcome::Terminate);
    assert_eq!(session_step("  \\x04  "), LineOutcome::Terminate);
}

#[test]
fn exit_terminates_without_output() {
    assert_eq!(session_step("exit"), LineOutcome::Terminate);
    assert_eq!(session_step("  exit "), LineOutcome::Terminate);
}

#[test]
fn configuration_set_round_trip_to_executor() {
    match session_step("configuration set myKey hello world") {
        LineOutcome::Dispatch(cmd) => {
            assert_eq!(
                cmd,
                BossCommand::Configure("myKey".to_string(), "hello world".to_string())
            );
            let shown = execute_command(cmd);
            assert_eq!(shown, "ran command: Configure(\"myKey\", \"hello world\")");
        }
        other => panic!("expected a dispatch, got {:?}", other),
    }
}

#[test]
fn network_add_round_trip_to_executor() {
    match session_step("network add \"Home Wifi\" \"s3cr3t!\"") {
        LineOutcome::Dispatch(cmd) => {
            assert_eq!(
                cmd,
                BossCommand::WifiAdd {
                    ssid: "Home Wifi".to_string(),
                    password: Some("s3cr3t!".to_string()),
                }
            );
            let shown = execute_command(cmd);
            assert_eq!(
                shown,
                "ran command: WifiAdd { ssid: \"Home Wifi\", password: Some(\"s3cr3t!\") }"
            );
        }
        other => panic!("expected a dispatch, got {:?}", other),
    }
}

#[test]
fn invalid_key_replies_and_keeps_the_session() {
    match session_step("configuration get my-key") {
        LineOutcome::Reply(msg) => {
            assert!(msg.contains("my-key"));
            assert!(msg.contains("must be alphanumeric"));
        }
        other => panic!("expected a reply, got {:?}", other),
    }
}

#[test]
fn unknown_subsystem_replies_and_keeps_the_session() {
    match session_step("bogus foo") {
        LineOutcome::Reply(msg) => {
            assert!(msg.contains("bogus"));
        }
        other => panic!("expected a reply, got {:?}", other),
    }
}

#[test]
fn bare_subsystem_gets_help_and_keeps_the_session() {
    match session_step("network") {
        LineOutcome::Reply(msg) => {
            assert_eq!(msg, "network commands: add <name> [secret] | delete <name> | scan");
        }
        other => panic!("expected a reply, got {:?}", other),
    }
}

#[test]
fn tokenize_failure_replies_and_keeps_the_session() {
    assert_eq!(
        session_step("network add \"oops"),
        LineOutcome::Reply("missing closing quote".to_string())
    );
}

#[test]
fn executor_describes_each_command() {
    assert_eq!(execute_command(BossCommand::WifiScan), "ran command: WifiScan");
    assert_eq!(
        execute_command(BossCommand::WifiDelete("attic".to_string())),
        "ran command: WifiDelete(\"attic\")"
    );
    assert_eq!(
        execute_command(BossCommand::WifiAdd { ssid: "attic".to_string(), password: None }),
        "ran command: WifiAdd { ssid: \"attic\", password: None }"
    );
    assert_eq!(
        execute_command(BossCommand::GetConfig("myKey".to_string())),
        "ran command: GetConfig(\"myKey\")"
    );
}

#[test]
fn executor_matches_the_debug_rendering() {
    let commands = vec![
        BossCommand::WifiScan,
        BossCommand::WifiAdd { ssid: "plain".to_string(), password: None },
        BossCommand::WifiAdd {
            ssid: "with \"quotes\"".to_string(),
            password: Some("back\\slash".to_string()),
        },
        BossCommand::WifiDelete("line\nbreak\tand \r".to_string()),
        BossCommand::Configure("myKey".to_string(), "nul\0 ctl\x01\x1f del\x7f".to_string()),
        BossCommand::GetConfig("caf\u{e9}Key".to_string()),
    ];
    for cmd in commands {
        assert_eq!(execute_command(cmd.clone()), format!("ran command: {:?}", cmd));
    }
}

#[test]
fn unicode_whitespace_reprompts_silently() {
    assert_eq!(session_step("\u{c}\u{b}"), LineOutcome::Silent);
    assert_eq!(session_step("\u{a0}\u{2003}\u{3000}"), LineOutcome::Silent);
}
