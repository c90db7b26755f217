use phoenix_cmc::who::who_set;
use phoenix_cmc::listing::{longer_than, skip_bytes, who_report, why_report, ListedSession};
use phoenix_cmc::output::MessageType;
use phoenix_cmc::report::{errors_tail, message_type, not_sent, sender_warning, sent_confirmation, Recipient};
use phoenix_cmc::sendable::Candidate;
use phoenix_cmc::session::{AwayState, SessionInfo};

fn recipient(name: &str, detached: bool, away: AwayState, idle_minutes: i64) -> Recipient {
    Recipient { name_blurb: name.to_string(), column: String::new(), detached, away, idle_minutes }
}

fn listed(attached: bool, idle_seconds: i64, login_elapsed: i64) -> ListedSession {
    ListedSession {
        attached,
        name_blurb: "Bob".to_string(),
        column: "Bob  ".to_string(),
        login_elapsed,
        login_date: "Mon Jan  1 12:34:56 2024".to_string(),
        idle_seconds,
        away: AwayState::Here,
        username: Some("bob".to_string()),
        priv_level: 50,
        user_priv: 50,
    }
}

#[test]
fn message_not_sent_shows_the_reports_first() {
    assert_eq!(not_sent(""), "(message not sent)\n");
    assert_eq!(not_sent("oops\n"), "\u{7}\u{7}oops\n(message not sent)\n");
    assert_eq!(errors_tail(""), "");
    assert_eq!(errors_tail("x\n"), "\u{7}\u{7}x\n");
}

#[test]
fn sender_warnings() {
    assert_eq!(sender_warning(AwayState::Gone, 0), "[Warning: you are listed as \"gone\".]\n");
    assert_eq!(sender_warning(AwayState::Busy, 599), "");
    assert_eq!(sender_warning(AwayState::Busy, 600), "\u{7}[Warning: you are still listed as \"busy\".]\n");
    assert_eq!(sender_warning(AwayState::Here, 10000), "");
    assert_eq!(sender_warning(AwayState::Away, 10000), "");
}

#[test]
fn public_and_private_messages() {
    assert_eq!(message_type(1, false), MessageType::Private);
    assert_eq!(message_type(2, false), MessageType::Public);
    assert_eq!(message_type(1, true), MessageType::Public);
}

#[test]
fn confirmation_for_one_recipient() {
    let rs = vec![recipient("Bob", false, AwayState::Here, 0)];
    assert_eq!(sent_confirmation(&rs, &vec![]), "(message sent to Bob.)\n");
    assert_eq!(
        sent_confirmation(&rs, &vec!["chat".to_string()]),
        "(message sent to Bob; discussion chat.) [1 person]\n"
    );
}

#[test]
fn confirmation_lists_state_and_idle_time() {
    let rs = vec![
        recipient("Bob", false, AwayState::Away, 90),
        recipient("Carol", true, AwayState::Here, 1),
        recipient("Dave", false, AwayState::Gone, 1500),
    ];
    let names = vec!["chat".to_string(), "games".to_string()];
    assert_eq!(
        sent_confirmation(&rs, &names),
        "(message sent to Bob (\"away\", idle: 1:30), Carol (detached, idle: 1 minute), \
         Dave (\"gone\", idle: 1d01:00); discussions chat, games.) [3 people]\n"
    );
}

const HEAD: &str = " Name                              On Since";
const LINE: &str = " ----                              --------";

fn who_header(extend: usize) -> String {
    let sp = " ".repeat(extend);
    format!("\n{HEAD}{sp}  Idle  Away\n{LINE}{sp}  ----  ----\n")
}

fn why_header(extend: usize) -> String {
    let sp = " ".repeat(extend);
    format!("\n{HEAD}{sp}  Idle  Away  User      FD  Priv\n{LINE}{sp}  ----  ----  ----      --  ----\n")
}

#[test]
fn who_list_for_one_recent_session() {
    let rows = vec![listed(true, 0, 100)];
    let expected = format!("{} Bob  12:34:56{}Here\nall done\n", who_header(0), " ".repeat(8));
    assert_eq!(who_report(&rows, "all done\n", ""), expected);
}

#[test]
fn who_list_widens_for_idle_days() {
    // Idle 2 days, 3 hours and 4 minutes; signed on a month ago.
    let rows = vec![listed(true, 2 * 86400 + 3 * 3600 + 4 * 60, 30 * 86400)];
    let expected = format!("{} Bob   Jan  1 2d03:04  Here\n", who_header(1));
    assert_eq!(who_report(&rows, "", ""), expected);
}

#[test]
fn who_list_of_nobody_shows_the_reports() {
    assert_eq!(who_report(&vec![], "Nobody is \"away\".\n", "no one\n"), "Nobody is \"away\".\n\u{7}\u{7}no one\n");
}

#[test]
fn detached_sessions_in_the_who_list() {
    // Detached: the login column says so, and the idle column widens.
    let rows = vec![listed(false, 86400, 400 * 86400)];
    let expected = format!("{}~Bob  detached 1d00:00  Here\nbye\n\u{7}\u{7}err\n", who_header(2));
    assert_eq!(who_report(&rows, "bye\n", "err\n"), expected);
}

#[test]
fn why_list_is_privileged() {
    assert_eq!(why_report(10, &vec![listed(true, 0, 100)], "", ""), "Why not?\n");
    let mut row = listed(true, 300, 2 * 365 * 86400);
    row.user_priv = 0;
    let expected = format!("{} Bob  Jan 2024     5  Here  bob       ?? *  50\n", why_header(0));
    assert_eq!(why_report(50, &vec![row], "", ""), expected);
    let mut guest = listed(false, 0, 100);
    guest.username = None;
    let expected = format!("{}~Bob  12:34:56{}Here  guest     --    50\n", why_header(0), " ".repeat(8));
    assert_eq!(why_report(50, &vec![guest], "", ""), expected);
}

#[test]
fn long_names_continue_on_a_second_line() {
    let long = "Somebody With A Very Long Name [and a blurb]";
    assert!(longer_than(long, 33));
    assert!(!longer_than("short", 33));
    assert_eq!(skip_bytes(long, 32), Some(long[32..].to_string()));
    assert_eq!(skip_bytes("ab\u{e9}cd", 3), None);
    assert_eq!(skip_bytes("ab\u{e9}cd", 4), Some("cd".to_string()));
    let mut row = listed(true, 0, 100);
    row.name_blurb = long.to_string();
    let text = who_report(&vec![row], "", "");
    assert!(text.ends_with(&format!(">{}\n", &long[32..])));
}

#[test]
fn who_lists_named_sessions_discussion_members_and_categories() {
    let sessions = vec![
        Candidate { key: 1, name: "Alice".to_string(), member: false },
        Candidate { key: 2, name: "Bob".to_string(), member: false },
        Candidate { key: 3, name: "Carol".to_string(), member: false },
    ];
    let discussions = vec![Candidate { key: 10, name: "chat".to_string(), member: false }];
    let members = vec![(10u64, vec![3u64, 2u64])];
    let info = |key: u64, away: AwayState| SessionInfo { key, attached: true, away, idle_minutes: 0, priv_level: 0 };
    let infos = vec![info(1, AwayState::Here), info(2, AwayState::Away), info(3, AwayState::Here)];

    let all = who_set(1, "", &sessions, &discussions, &members, &infos);
    assert_eq!(all.shown, vec![1, 2, 3]);
    assert_eq!(all.errors, "");
    assert_eq!(all.msg, "");

    let chat = who_set(1, "chat", &sessions, &discussions, &members, &infos);
    assert_eq!(chat.shown, vec![2, 3]);
    assert_eq!(chat.msg, "");

    let away = who_set(1, "away,carol", &sessions, &discussions, &members, &infos);
    assert_eq!(away.shown, vec![2, 3]);
    assert_eq!(away.msg, "(There is 1 other person signed on.)\n");

    let none = who_set(1, "busy,zz", &sessions, &discussions, &members, &infos);
    assert!(none.shown.is_empty());
    assert_eq!(none.msg, "Nobody is \"busy\".\n");
    assert_eq!(none.errors, "");

    let empty = who_set(1, "", &sessions, &discussions, &members, &vec![]);
    assert!(empty.shown.is_empty());
    assert_eq!(empty.msg, "Nobody is signed on.\n");
}
