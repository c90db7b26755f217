use phoenix_cmc::commands::{
    away_reply, blurb_command, blurb_reply, cancel_text, nuke_args, nuked_text, oops_command, oops_text_reply,
    rename_command, reply_sendlist_text, send_command, send_typed, sendlist_text, shutdown_request, shutdown_text, BlurbCommand,
    OopsCommand, SendCommand, ShutdownRequest,
};
use phoenix_cmc::sendable::Candidate;
use phoenix_cmc::session::AwayState;
use phoenix_cmc::constants::{SEPARATOR, UNQUOTED_UNDERSCORE};
use phoenix_cmc::login::{
    echo_warning, login_step, name_choice, reserved_names_text, transfer_confirmed, LoginStep,
};

#[test]
fn the_login_prompt() {
    assert_eq!(login_step(" /bye ", None, 0, 3), LoginStep::Bye);
    assert_eq!(login_step("   ", None, 0, 3), LoginStep::Prompt);
    assert_eq!(login_step("deven", Some(true), 0, 3), LoginStep::AskPassword);
    assert_eq!(login_step("guest", Some(false), 0, 3), LoginStep::AskName);
    assert_eq!(login_step("nobody", None, 0, 3), LoginStep::Invalid { attempts: 1, close: false });
    assert_eq!(login_step("nobody", None, 2, 3), LoginStep::Invalid { attempts: 3, close: true });
}

#[test]
fn password_echo_warnings() {
    assert_eq!(echo_warning(3), "");
    assert_eq!(echo_warning(0), "\u{7}\nSorry, password probably WILL echo.\n\n");
    assert_eq!(echo_warning(1), "\nWarning: password may echo.\n\n");
}

#[test]
fn names_entered_at_login() {
    let reserved = vec!["Deven".to_string(), "Dev".to_string()];
    assert_eq!(name_choice("  Bob ", &reserved), Some("Bob".to_string()));
    assert_eq!(name_choice("", &reserved), Some("Deven".to_string()));
    assert_eq!(name_choice("", &vec![]), None);
    assert!(transfer_confirmed(" Y"));
    assert!(transfer_confirmed("yes"));
    assert!(!transfer_confirmed("no"));
    assert!(!transfer_confirmed(""));
}

#[test]
fn reserved_names_are_listed() {
    assert_eq!(reserved_names_text(&vec![]), "\n");
    assert_eq!(
        reserved_names_text(&vec!["A".to_string()]),
        "\nYour default (reserved) name is \"A\".\n\n"
    );
    assert_eq!(
        reserved_names_text(&vec!["A".to_string(), "B".to_string()]),
        "\nYour default (reserved) name is \"A\".\n\nYou also have \"B\" reserved.\n\n"
    );
    assert_eq!(
        reserved_names_text(&vec!["A".to_string(), "B".to_string(), "C".to_string()]),
        "\nYour default (reserved) name is \"A\".\n\nYou also have \"B\", \"C\" and \"C\" reserved.\n\n"
    );
}

#[test]
fn send_lists_and_their_text() {
    assert!(matches!(send_command(""), SendCommand::Show));
    assert!(matches!(send_command("OFF"), SendCommand::Off));
    match send_command("bob_s,\"carol\\x\"") {
        SendCommand::Change(t) => assert_eq!(t, format!("bob{}s{}carolx", UNQUOTED_UNDERSCORE, SEPARATOR)),
        other => panic!("unexpected {other:?}"),
    }
    assert_eq!(send_typed("a,b"), format!("a{}b", SEPARATOR));
    let none: Vec<String> = vec![];
    let people = vec!["Bob".to_string(), "Carol [hi]".to_string()];
    assert_eq!(sendlist_text(&people, &none), "Bob, Carol [hi]");
    assert_eq!(sendlist_text(&people, &vec!["chat".to_string()]), "Bob, Carol [hi] and discussion chat");
    assert_eq!(sendlist_text(&none, &vec!["a".to_string(), "b".to_string()]), "a, b");
}

#[test]
fn blurbs() {
    assert!(matches!(blurb_command("  "), BlurbCommand::Show));
    assert!(matches!(blurb_command(" Off "), BlurbCommand::Off));
    match blurb_command("\"at lunch\"") {
        BlurbCommand::Change(b) => assert_eq!(b, "at lunch"),
        other => panic!("unexpected {other:?}"),
    }
    match blurb_command("[busy]") {
        BlurbCommand::Change(b) => assert_eq!(b, "busy"),
        other => panic!("unexpected {other:?}"),
    }
    match blurb_command("\"\"") {
        BlurbCommand::Change(b) => assert_eq!(b, "\"\""),
        other => panic!("unexpected {other:?}"),
    }
    assert_eq!(
        blurb_reply(&BlurbCommand::Show, Some("x")),
        (None, "Your blurb is currently set to [x].\n".to_string())
    );
    assert_eq!(
        blurb_reply(&BlurbCommand::Show, None),
        (None, "You do not currently have a blurb set.\n".to_string())
    );
    assert_eq!(
        blurb_reply(&BlurbCommand::Off, Some("x")),
        (Some(None), "Your blurb has been turned off.\n".to_string())
    );
    assert_eq!(
        blurb_reply(&BlurbCommand::Off, None),
        (None, "Your blurb was already turned off.\n".to_string())
    );
    assert_eq!(
        blurb_reply(&BlurbCommand::Change("y".to_string()), None),
        (Some(Some("y".to_string())), "Your blurb has been set to [y].\n".to_string())
    );
}

#[test]
fn renaming() {
    let sessions = vec![
        Candidate { key: 1, name: "Alice".to_string(), member: false },
        Candidate { key: 2, name: "Bob".to_string(), member: false },
    ];
    let discussions = vec![Candidate { key: 10, name: "chat".to_string(), member: false }];
    assert_eq!(rename_command("", None, Some(0), &sessions, &discussions), (false, "Usage: /rename <name>\n".to_string()));
    assert_eq!(
        rename_command("Me", None, Some(0), &sessions, &discussions),
        (false, "The keyword \"me\" is reserved.  (name unchanged)\n".to_string())
    );
    assert_eq!(
        rename_command("Al", Some(("Al", true)), Some(0), &sessions, &discussions),
        (false, "\"Al\" is a reserved name.  (name unchanged)\n".to_string())
    );
    assert_eq!(
        rename_command("bob", Some(("Bob", false)), Some(0), &sessions, &discussions),
        (
            true,
            "The name \"Bob\" is already in use.  (name unchanged)\nYou have changed your name to \"bob\".\n".to_string()
        )
    );
    assert_eq!(
        rename_command("ALICE", None, Some(0), &sessions, &discussions),
        (true, "You have changed your name to \"ALICE\".\n".to_string())
    );
    assert_eq!(
        rename_command("Chat", None, Some(0), &sessions, &discussions),
        (
            true,
            "There is already a discussion named \"chat\".  (name unchanged)\nYou have changed your name to \"Chat\".\n"
                .to_string()
        )
    );
    assert_eq!(nuke_args("!bob"), (false, "bob".to_string()));
    assert_eq!(nuke_args("bob"), (true, "bob".to_string()));
    assert_eq!(
        nuked_text("Bob", false, "Alice"),
        (
            "\"Bob\" has been nuked immediately.\n".to_string(),
            "\u{7}\u{7}\u{7}*** You have been nuked by Alice. ***\n".to_string()
        )
    );
}

#[test]
fn restart_and_shutdown_requests() {
    assert_eq!(shutdown_request("!"), ShutdownRequest::Immediate);
    assert_eq!(shutdown_request("cancel"), ShutdownRequest::Cancel);
    assert_eq!(shutdown_request("CANCEL now"), ShutdownRequest::Cancel);
    assert_eq!(shutdown_request("canc"), ShutdownRequest::Delayed(30));
    assert_eq!(shutdown_request("120"), ShutdownRequest::Delayed(120));
    assert_eq!(shutdown_request("+5"), ShutdownRequest::Delayed(5));
    assert_eq!(shutdown_request(""), ShutdownRequest::Delayed(30));
    assert_eq!(shutdown_request("!!"), ShutdownRequest::Delayed(30));
    assert_eq!(shutdown_request("18446744073709551616"), ShutdownRequest::Delayed(30));
    assert_eq!(shutdown_text("Deven", true), "*** Deven has restarted Phoenix! ***\n");
    assert_eq!(shutdown_text("Deven", false), "*** Deven has shut down Phoenix! ***\n");
    assert_eq!(
        cancel_text("Deven", Some(true)),
        (Some("*** Deven has cancelled the server restart. ***\n".to_string()), String::new())
    );
    assert_eq!(
        cancel_text("Deven", Some(false)),
        (Some("*** Deven has cancelled the server shutdown. ***\n".to_string()), String::new())
    );
    assert_eq!(
        cancel_text("Deven", None),
        (None, "The server was not about to shut down or restart.\n".to_string())
    );
}

#[test]
fn away_states_and_oops() {
    assert_eq!(away_reply(AwayState::Here), "You are now \"here\".\n");
    assert_eq!(away_reply(AwayState::Gone), "You are now \"gone\".\n");
    assert_eq!(oops_command(""), OopsCommand::Usage);
    assert_eq!(oops_command("text"), OopsCommand::ShowText);
    assert_eq!(oops_command("text   "), OopsCommand::ShowText);
    assert_eq!(oops_command("text  sorry, wrong window "), OopsCommand::ChangeText("sorry, wrong window".to_string()));
    assert_eq!(oops_command("te x"), OopsCommand::Resend);
    assert_eq!(oops_command("bob"), OopsCommand::Resend);
    assert_eq!(oops_text_reply("oops", false), "Your /oops text is currently \"oops\".\n");
    assert_eq!(oops_text_reply("sorry", true), "Your /oops text is now \"sorry\".\n");
}

#[test]
fn reply_sendlists_are_quoted_when_needed() {
    assert_eq!(reply_sendlist_text("Deven"), "Deven");
    assert_eq!(reply_sendlist_text("Deven Corzine"), "\"Deven Corzine\"");
    assert_eq!(reply_sendlist_text("a_b"), "\"a_b\"");
    assert_eq!(reply_sendlist_text("x;y"), "\"x;y\"");
    assert_eq!(reply_sendlist_text(""), "");
}
