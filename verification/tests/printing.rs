use phoenix_cmc::commands::{create_command, created_text, signal_command, CreateCheck};
use phoenix_cmc::dump::debug_format_bytes;
use phoenix_cmc::listing::{howmany_report, idle_report, what_report, DiscussionRow, ListedSession};
use phoenix_cmc::message::{
    is_private, message_header, no_message_text, no_sendlist_text, print_message, sendlist_choice, SendlistChoice,
};
use phoenix_cmc::output::{MessageType, OutputClass};
use phoenix_cmc::sendable::Candidate;
use phoenix_cmc::session::AwayState;
use phoenix_cmc::types::{message_output_type, output_class, OutputType};

fn cand(key: u64, name: &str) -> Candidate {
    Candidate { key, name: name.to_string(), member: false }
}

#[test]
fn signals_are_switched_and_reported() {
    assert_eq!(signal_command("on", false, false), (true, true, "All signals are now on.\n".to_string()));
    assert_eq!(signal_command("of", true, true), (false, false, "All signals are now off.\n".to_string()));
    assert_eq!(
        signal_command("public off", true, true),
        (false, true, "Signals for public messages are now off.\n".to_string())
    );
    assert_eq!(
        signal_command("pr", true, false),
        (true, false, "Signals are off for private messages.\n".to_string())
    );
    assert_eq!(
        signal_command("private maybe", true, false),
        (true, false, "Usage: /signal private [on|off]\n".to_string())
    );
    assert_eq!(
        signal_command("", true, true),
        (true, true, "Signals are on for both public and private messages.\n".to_string())
    );
    assert_eq!(
        signal_command("", true, false),
        (true, false, "Signals are on for public messages and off for private messages.\n".to_string())
    );
    assert_eq!(
        signal_command("loud", false, false),
        (false, false, "Usage: /signal [public|private] [on|off]\n".to_string())
    );
}

#[test]
fn creating_discussions() {
    let sessions = vec![cand(1, "Alice")];
    let discussions = vec![cand(10, "chat")];
    match create_command("private games Fun and games", None, &sessions, &discussions) {
        CreateCheck::Create { name, title, public } => {
            assert_eq!(name, "games");
            assert_eq!(title, "Fun and games");
            assert!(!public);
        }
        other => panic!("unexpected {other:?}"),
    }
    match create_command("-pub games Fun", None, &sessions, &discussions) {
        CreateCheck::Create { public, .. } => assert!(public),
        other => panic!("unexpected {other:?}"),
    }
    let refused = |args: &str, reserved: Option<(&str, bool)>| match create_command(args, reserved, &sessions, &discussions) {
        CreateCheck::Refused(m) => m,
        other => panic!("unexpected {other:?}"),
    };
    assert_eq!(refused("games", None), "Usage: /create [public|private] <name> <title>\n");
    assert_eq!(refused("ME now", None), "The keyword \"me\" is reserved.  (not created)\n");
    assert_eq!(refused("bobs x", Some(("Bob", true))), "\"Bob\" is your reserved name. (not created)\n");
    assert_eq!(refused("bobs x", Some(("Bob", false))), "\"Bob\" is a reserved name. (not created)\n");
    assert_eq!(refused("alice x", None), "There is already someone named \"Alice\". (not created)\n");
    assert_eq!(refused("Chat x", None), "There is already a discussion named \"chat\". (not created)\n");
    assert_eq!(created_text("games", "Fun"), "You have created discussion games, \"Fun\".\n");
}

#[test]
fn hex_dump_of_a_short_buffer() {
    assert_eq!(debug_format_bytes(&[], "X"), "");
    let dump = debug_format_bytes(&[255, 251, 1, b'h', b'i'], "OUT");
    let expected = format!(
        "=== DEBUG: OUT (5 bytes) ===\n0000: ff fb 01 68 69 {}{} |...hi|\n  -> TELNET: IAC WILL ECHO\n=== END OUT ===\n",
        "   ".repeat(3),
        format!(" {}", "   ".repeat(8))
    );
    assert_eq!(dump, expected);
}

#[test]
fn hex_dump_lines_and_commands() {
    let mut bytes: Vec<u8> = (0u8..18).collect();
    bytes.extend_from_slice(&[255, 250, 255, 240, 255, 246, 255]);
    let dump = debug_format_bytes(&bytes, "IN");
    let lines: Vec<&str> = dump.lines().collect();
    assert_eq!(lines[0], "=== DEBUG: IN (25 bytes) ===");
    assert_eq!(lines[1], "0000: 00 01 02 03 04 05 06 07  08 09 0a 0b 0c 0d 0e 0f  |................|");
    assert_eq!(
        lines[2],
        format!("0010: 10 11 ff fa ff f0 ff f6  ff {} |.........|", "   ".repeat(7))
    );
    assert_eq!(lines[3], "  -> TELNET: IAC SB (subnegotiation begin)");
    assert_eq!(lines[4], "  -> TELNET: IAC SE (subnegotiation end)");
    assert_eq!(lines[5], "  -> TELNET: IAC AYT (0xf6)");
    assert_eq!(lines[6], "=== END IN ===");
    assert_eq!(lines.len(), 7);
}

#[test]
fn message_headers() {
    let none: Vec<String> = vec![];
    assert_eq!(
        message_header(MessageType::Public, true, false, "Bob", false, false, &none, &none),
        "\u{7}\n -> From Bob to everyone:"
    );
    assert_eq!(
        message_header(MessageType::Private, false, true, "Bob", true, false, &vec!["Carol".to_string()], &none),
        "\u{7}\n >> Private message from Bob:"
    );
    let to = vec!["Carol".to_string(), "Dave".to_string()];
    assert_eq!(
        message_header(MessageType::Private, true, false, "Bob", false, true, &to, &vec!["chat".to_string()]),
        "\u{7}\n >> From Bob to Carol, Dave; discussion chat:"
    );
    assert_eq!(
        message_header(MessageType::Private, false, false, "Bob", false, false, &none, &vec!["a".to_string(), "b".to_string()]),
        "\n -> From Bob to discussions a, b:"
    );
    assert!(is_private(MessageType::Private, false, true));
    assert!(!is_private(MessageType::Public, true, true));
}

#[test]
fn messages_wrap_at_the_last_space() {
    assert_eq!(print_message("H", "12:00", "short", 80), "H [12:00]\n - short\n");
    assert_eq!(print_message("H", "t", "aaa bbb ccc", 10), "H [t]\n - aaa\n - bbb\n - ccc\n");
    assert_eq!(print_message("H", "t", "abcdefghij", 10), "H [t]\n - abcde\n - fghij\n");
    assert_eq!(print_message("H", "t", "abc    defgh", 10), "H [t]\n - abc  \n - defgh\n");
    assert_eq!(print_message("H", "t", "", 10), "H [t]\n - \n");
}

#[test]
fn idle_list_two_to_a_line() {
    let row = |attached: bool, idle_seconds: i64| ListedSession {
        attached,
        name_blurb: "X".to_string(),
        column: "X ".to_string(),
        login_elapsed: 0,
        login_date: String::new(),
        idle_seconds,
        away: AwayState::Here,
        username: None,
        priv_level: 0,
        user_priv: 0,
    };
    let head = " Name                              Idle";
    let line = " ----                              ----";
    let one = idle_report(&vec![row(true, 0)], "", "");
    assert_eq!(one, format!("\n{head}\n{line}\n X      \n\n"));
    let three = idle_report(&vec![row(true, 125 * 60), row(false, 60), row(true, 11 * 86400)], "m\n", "");
    assert_eq!(
        three,
        format!("\n{head} {head}\n{line} {line}\n X  2:05  ~X     1\n X 11d00  \nm\n")
    );
    let days = idle_report(&vec![row(true, 3 * 86400 + 7200), row(true, 0)], "", "");
    assert_eq!(days, format!("\n{head} {head}\n{line} {line}\n X 3d02h   X      \n"));
}

#[test]
fn what_list() {
    assert_eq!(what_report(false, false, &vec![], ""), "No discussions currently exist.\n");
    assert_eq!(what_report(true, true, &vec![], "No names matched \"x\".\n"), "No names matched \"x\".\n");
    let rows = vec![
        DiscussionRow {
            name: "chat".to_string(),
            title: "Chit chat".to_string(),
            member_count: 3,
            is_member: true,
            idle_seconds: 0,
            permitted: true,
        },
        DiscussionRow {
            name: "averyveryverylongname".to_string(),
            title: "Secret".to_string(),
            member_count: 12,
            is_member: false,
            idle_seconds: 3 * 3600 + 5 * 60,
            permitted: false,
        },
    ];
    let expected = format!(
        "\n Name            Users  Idle  Title\n ----            -----  ----  -----\n chat{}  3* {}Chit chat\n averyveryveryl+ 12 {}3:05  <Private>\n",
        " ".repeat(11),
        " ".repeat(9),
        " ".repeat(5)
    );
    assert_eq!(what_report(true, false, &rows, ""), expected);
}

#[test]
fn howmany_counts_and_percentages() {
    let states = vec![
        (AwayState::Here, true),
        (AwayState::Here, false),
        (AwayState::Busy, true),
    ];
    let expected = "\nActive Users:\n\n  \"Here\"     \"Away\"     \"Busy\"     \"Gone\"    Attached   Detached    Total\n   \
                    2  67%     0   0%     1  33%     0   0%     2  67%     1  33%     3 100%\n\nDiscussions in use: 4\n\n";
    assert_eq!(howmany_report(&states, 4), expected);
    let empty = howmany_report(&vec![], 0);
    assert!(empty.contains("   0   0%     0   0%"));
}

#[test]
fn output_kinds() {
    assert_eq!(output_class(OutputType::PublicMessage), OutputClass::MessageClass);
    assert_eq!(output_class(OutputType::TextOutput), OutputClass::TextClass);
    assert_eq!(output_class(OutputType::JoinOutput), OutputClass::NotificationClass);
    assert_eq!(output_class(OutputType::UnknownOutput), OutputClass::UnknownClass);
    assert_eq!(message_output_type(MessageType::Private), OutputType::PrivateMessage);
}

#[test]
fn choosing_the_sendlist_of_a_message() {
    assert_eq!(sendlist_choice("", true, false), SendlistChoice::Last);
    assert_eq!(sendlist_choice("", false, true), SendlistChoice::NoLast);
    assert_eq!(sendlist_choice("Default", true, true), SendlistChoice::Default);
    assert_eq!(sendlist_choice("DEFAULT", true, false), SendlistChoice::NoDefault);
    assert_eq!(sendlist_choice("bob", false, false), SendlistChoice::Typed);
    assert_eq!(
        no_sendlist_text(SendlistChoice::NoLast),
        "\u{7}\u{7}You have no previous sendlist. (message not sent)\n"
    );
    assert_eq!(
        no_sendlist_text(SendlistChoice::NoDefault),
        "\u{7}\u{7}You have no default sendlist. (message not sent)\n"
    );
    assert_eq!(no_sendlist_text(SendlistChoice::Typed), "");
    assert_eq!(
        no_message_text("default", "A", true),
        "\u{7}\u{7}There is no message after \"default\". (message not sent)\n"
    );
    assert_eq!(
        no_message_text("Default", "A", true),
        "\u{7}\u{7}There is no message after \"A:\". (message not sent)\n"
    );
    assert_eq!(
        no_message_text("bob", "bob", false),
        "\u{7}\u{7}There is no message after \"bob;\". (message not sent)\n"
    );
}

#[test]
fn wrapped_lines_fit_the_terminal() {
    let text = "the quick brown fox jumps over the lazy dog and then keeps running \
                far beyond the horizon without stopping anywhere supercalifragilisticexpialidocious";
    for width in [6usize, 10, 20, 33, 80] {
        let printed = print_message("H", "t", text, width);
        for line in printed.lines().skip(1) {
            assert!(line.chars().count() <= width - 2, "width {width}: {line:?}");
        }
    }
}
