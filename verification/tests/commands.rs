use phoenix_cmc::login::{check_name, NameCheck};
use phoenix_cmc::registry::{countdown_announcement, NameRegistry};
use phoenix_cmc::sendable::Candidate;
use phoenix_cmc::session::{idle_minutes, input_reply, parse_input, reset_idle, time_format_code, time_long, Command, Input};
use phoenix_cmc::variables::{
    parse_display, parse_set, parse_usize, sys_var, time_format_line, DisplayVar, SetCommand, SysVar,
    TimeFormatChoice,
};

fn cand(key: u64, name: &str, member: bool) -> Candidate {
    Candidate { key, name: name.to_string(), member }
}

#[test]
fn set_commands() {
    assert!(matches!(parse_set(""), SetCommand::Usage));
    assert!(matches!(parse_set("height"), SetCommand::Usage));
    assert!(matches!(parse_set("height=24"), SetCommand::Height(Some(24))));
    assert!(matches!(parse_set("height=0"), SetCommand::Height(None)));
    assert!(matches!(parse_set("height=abc"), SetCommand::Height(None)));
    assert!(matches!(parse_set("width=+80"), SetCommand::Width(Some(80))));
    assert!(matches!(parse_set("echo=on"), SetCommand::Echo(Some(true))));
    assert!(matches!(parse_set("echo=OFF"), SetCommand::Echo(Some(false))));
    assert!(matches!(parse_set("echo=of"), SetCommand::Echo(None)));
    assert!(matches!(parse_set("time_format=terse"), SetCommand::TimeFormat(Some(TimeFormatChoice::Terse))));
    assert!(matches!(parse_set("time_format=default"), SetCommand::TimeFormat(Some(TimeFormatChoice::Default))));
    assert!(matches!(parse_set("time_format=long"), SetCommand::TimeFormat(None)));
    assert!(matches!(parse_set("uptime=5"), SetCommand::Uptime));
    match parse_set("$foo=bar baz") {
        SetCommand::UserVar { name, value } => {
            assert_eq!(name, "$foo");
            assert_eq!(value, "bar baz");
        }
        other => panic!("unexpected {other:?}"),
    }
    match parse_set("idle=1:30") {
        SetCommand::Idle(v) => assert_eq!(v, "1:30"),
        other => panic!("unexpected {other:?}"),
    }
    match parse_set("version=2") {
        SetCommand::Unknown(v) => assert_eq!(v, "version"),
        other => panic!("unexpected {other:?}"),
    }
    match parse_set("time=2") {
        SetCommand::Unknown(v) => assert_eq!(v, "time"),
        other => panic!("unexpected {other:?}"),
    }
}

#[test]
fn system_variable_names() {
    assert_eq!(sys_var("ECHO", false), SysVar::Echo);
    assert_eq!(sys_var("version", false), SysVar::Unknown);
    assert_eq!(sys_var("version", true), SysVar::Version);
    assert_eq!(sys_var("widt", true), SysVar::Unknown);
}

#[test]
fn usize_parsing_follows_str_parse() {
    assert_eq!(parse_usize("007"), Some(7));
    assert_eq!(parse_usize("+12"), Some(12));
    assert_eq!(parse_usize("-1"), None);
    assert_eq!(parse_usize("+"), None);
    assert_eq!(parse_usize(""), None);
    assert_eq!(parse_usize("12a"), None);
    assert_eq!(parse_usize(&usize::MAX.to_string()), Some(usize::MAX));
    assert_eq!(parse_usize("99999999999999999999999"), None);
}

#[test]
fn display_lists() {
    assert!(parse_display("").is_none());
    let vars = parse_display("echo,width, $x ,bogus,version").unwrap();
    assert_eq!(vars.len(), 5);
    assert!(matches!(vars[0], DisplayVar::System(SysVar::Echo)));
    assert!(matches!(vars[1], DisplayVar::System(SysVar::Width)));
    assert!(matches!(&vars[2], DisplayVar::User(w) if w == "$x"));
    assert!(matches!(&vars[3], DisplayVar::Unknown(w) if w == "bogus"));
    assert!(matches!(vars[4], DisplayVar::System(SysVar::Version)));
}

#[test]
fn time_format_lines() {
    assert_eq!(time_format_line(Some("terse"), None), "Your time format is terse.\n");
    assert_eq!(time_format_line(Some("odd"), None), "Your time format is unknown.\n");
    assert_eq!(time_format_line(None, None), "Your time format is the default: verbose.\n");
    assert_eq!(
        time_format_line(None, Some("both")),
        "Your time format is the default: both verbose and terse.\n"
    );
    assert_eq!(time_format_code(Some("both")), 1);
    assert_eq!(time_format_code(Some("terse")), 2);
    assert_eq!(time_format_code(None), 0);
}

#[test]
fn name_checks_at_login() {
    let sessions = vec![cand(1, "Alice", false)];
    let discussions = vec![cand(10, "chat", false)];
    let no = vec![false];
    let yes = vec![true];
    match check_name("Me", false, false, None, &sessions, &discussions, &no, &yes) {
        NameCheck::Refused(m) => assert_eq!(m, "The keyword \"me\" is reserved.  Choose another name.\n"),
        other => panic!("unexpected {other:?}"),
    }
    match check_name("a", false, false, None, &sessions, &discussions, &no, &yes) {
        NameCheck::Refused(m) => {
            assert_eq!(m, "There is already a discussion named \"A\".  Choose another name.\n")
        }
        other => panic!("unexpected {other:?}"),
    }
    match check_name("Bobby", true, false, Some(("Bob", false)), &sessions, &discussions, &no, &yes) {
        NameCheck::Refused(m) => assert_eq!(m, "\"Bob\" is now a reserved name.  Choose another.\n"),
        other => panic!("unexpected {other:?}"),
    }
    assert!(matches!(
        check_name("Bobby", true, false, Some(("Bob", true)), &sessions, &discussions, &no, &yes),
        NameCheck::Available
    ));
    match check_name("alice", false, false, None, &sessions, &discussions, &no, &yes) {
        NameCheck::Refused(m) => assert_eq!(m, "The name \"Alice\" is already in use.  Choose another.\n"),
        other => panic!("unexpected {other:?}"),
    }
    match check_name("alice", true, false, None, &sessions, &discussions, &yes, &yes) {
        NameCheck::AttachedElsewhere(m) => assert_eq!(m, "You are now attached elsewhere under that name.\n"),
        other => panic!("unexpected {other:?}"),
    }
    assert!(matches!(
        check_name("alice", false, true, None, &sessions, &discussions, &yes, &yes),
        NameCheck::Transfer(0)
    ));
    assert!(matches!(
        check_name("alice", false, false, None, &sessions, &discussions, &yes, &no),
        NameCheck::Attach(0)
    ));
    match check_name("CHAT", false, false, None, &sessions, &discussions, &no, &yes) {
        NameCheck::Refused(m) => {
            assert_eq!(m, "There is already a discussion named \"chat\".  Choose another name.\n")
        }
        other => panic!("unexpected {other:?}"),
    }
    // Only exact names count.
    assert!(matches!(
        check_name("ali", false, false, None, &sessions, &discussions, &no, &yes),
        NameCheck::Available
    ));
}

#[test]
fn a_claimed_name_cannot_be_claimed_again_until_released() {
    let mut names = NameRegistry::new();
    assert!(names.claim("Alice"));
    assert!(!names.claim("Alice"));
    assert!(!names.claim("ALICE"));
    assert!(names.is_claimed("alice"));
    assert!(names.claim("Bob"));
    names.release("aLiCe");
    assert!(!names.is_claimed("Alice"));
    assert!(names.is_claimed("bob"));
    assert!(names.claim("alice"));
}

#[test]
fn shutdown_countdown() {
    assert_eq!(
        countdown_announcement(300, false),
        Some("*** Server shutting down in 5 minutes ***\n".to_string())
    );
    assert_eq!(countdown_announcement(60, true), Some("*** Server restarting in 1 minute ***\n".to_string()));
    assert_eq!(countdown_announcement(30, false), Some("*** Server shutting down in 30 seconds ***\n".to_string()));
    assert_eq!(countdown_announcement(4, true), Some("*** Server restarting in 4 seconds ***\n".to_string()));
    assert_eq!(countdown_announcement(1, true), Some("*** Server restarting in 1 second ***\n".to_string()));
    assert_eq!(countdown_announcement(0, false), Some("*** Server shutting down NOW ***\n".to_string()));
    assert_eq!(countdown_announcement(7, false), None);
    assert_eq!(countdown_announcement(6, false), None);
    assert_eq!(countdown_announcement(301, false), None);
}

#[test]
fn input_lines() {
    assert_eq!(parse_input("/who all", 0), Input::Run(Command::Who, "all".to_string()));
    assert_eq!(parse_input("  /w", 0), Input::Message);
    assert_eq!(parse_input("/w", 0), Input::Run(Command::Who, String::new()));
    assert_eq!(parse_input("!down", 0), Input::NotPrivileged);
    assert_eq!(parse_input("!down now ", 50), Input::Run(Command::Down, "now".to_string()));
    assert_eq!(parse_input("!bogus", 50), Input::UnknownPrivileged);
    assert_eq!(parse_input("/zzz", 0), Input::UnknownCommand);
    assert_eq!(parse_input(" ", 0), Input::Reset);
    assert_eq!(parse_input("", 0), Input::Blank);
    assert_eq!(parse_input("hello", 0), Input::Message);
    assert_eq!(parse_input("/set echo=on", 0), Input::Run(Command::SetVar, "echo=on".to_string()));
}

#[test]
fn long_times() {
    assert_eq!(time_long(0, 0), " under a minute");
    assert_eq!(time_long(60, 0), " exactly 1 hour");
    assert_eq!(time_long(61, 0), " 1 hour and 1 minute");
    assert_eq!(time_long(2, 0), " 2 minutes");
    assert_eq!(time_long(1500, 0), " exactly 1 day and 1 hour");
    assert_eq!(time_long(1501, 1), " 1 day, 1 hour and 1 minute (1d01:01)");
    assert_eq!(time_long(61, 2), " 1:01");
    assert_eq!(time_long(2 * 1440 + 5, 0), " 2 days and 5 minutes");
}

#[test]
fn idle_time() {
    assert_eq!(idle_minutes(1000, 880), 2);
    assert_eq!(idle_minutes(880, 1000), -2);
    let (idle, report) = reset_idle(7200, 0, 10, 0);
    assert_eq!(idle, 120);
    assert_eq!(report, "[You were idle for exactly 2 hours.]\n");
    let (idle, report) = reset_idle(300, 0, 10, 0);
    assert_eq!(idle, 5);
    assert_eq!(report, "");
}

#[test]
fn replies_to_inputs_that_run_nothing() {
    assert_eq!(input_reply(&parse_input("!restart", 0)), "Sorry, all !commands are privileged.\n");
    assert_eq!(input_reply(&parse_input("!frob", 50)), "Unknown !command.\n");
    assert_eq!(input_reply(&parse_input("/frob", 0)), "Unknown /command.  Type /help for help.\n");
    assert_eq!(input_reply(&parse_input("hello", 0)), "");
    assert_eq!(input_reply(&parse_input("!down 5", 50)), "");
}
