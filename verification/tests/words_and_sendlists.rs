use phoenix_cmc::constants::{SEPARATOR, UNQUOTED_UNDERSCORE};
use phoenix_cmc::sendable::{find_sendable, Candidate};
use phoenix_cmc::sendlist::{message_start, split_sendlist, Sendlist};
use phoenix_cmc::words::{getword, match_keyword, match_name, split_list, strip_prefix, trim};

fn cand(key: u64, name: &str, member: bool) -> Candidate {
    Candidate { key, name: name.to_string(), member }
}

fn sessions() -> Vec<Candidate> {
    vec![cand(1, "Alice", false), cand(2, "Bob Smith", false), cand(3, "Bobby", false)]
}

fn discussions() -> Vec<Candidate> {
    vec![cand(10, "chat", true), cand(11, "bobcats", false)]
}

#[test]
fn getword_splits_off_the_first_word() {
    assert_eq!(getword("  hello world  ", None), ("hello", "world  "));
    assert_eq!(getword("a , b", Some(',')), ("a", "b"));
    assert_eq!(getword("", None), ("", ""));
}

#[test]
fn match_keyword_accepts_abbreviations_down_to_the_minimum() {
    assert_eq!(match_keyword("/who all", "/who", 2), Some("all"));
    assert_eq!(match_keyword("/W all", "/who", 2), Some("all"));
    assert_eq!(match_keyword("/ all", "/who", 2), None);
    assert_eq!(match_keyword("/whom", "/who", 2), None);
    assert_eq!(match_keyword("/x", "/who", 2), None);
}

#[test]
fn match_name_finds_the_first_position() {
    assert_eq!(match_name("John Smith", "smi"), Some(6));
    assert_eq!(match_name("John", "jo"), Some(1));
    let spaced = format!("n{}s", UNQUOTED_UNDERSCORE);
    assert_eq!(match_name("John Smith", &spaced), Some(4));
    assert_eq!(match_name("John", "xyz"), None);
}

#[test]
fn list_and_trim_helpers() {
    assert_eq!(split_list("a b  c", None), vec!["a".to_string(), "b".to_string(), "c".to_string()]);
    assert_eq!(trim("  x y  "), "x y");
    assert_eq!(trim("   "), "");
    assert_eq!(strip_prefix("hello", "he"), Some("llo"));
    assert_eq!(strip_prefix("hello", "lo"), None);
}

#[test]
fn message_start_finds_an_explicit_sendlist() {
    assert_eq!(
        message_start("john: hi there"),
        ("hi there", "john".to_string(), "john".to_string(), true)
    );
    assert_eq!(message_start(":-) smile"), (":-) smile", "default".to_string(), String::new(), false));
    assert_eq!(message_start("hello"), ("hello", "default".to_string(), String::new(), false));
    assert_eq!(message_start(" hi"), ("hi", "default".to_string(), String::new(), false));
    assert_eq!(message_start("hello world"), ("hello world", "default".to_string(), String::new(), false));
    assert_eq!(message_start("a,b c: d"), ("a,b c: d", "default".to_string(), String::new(), false));
}

#[test]
fn split_sendlist_trims_and_drops_empty_entries() {
    let typed = format!("bob{s} alice {s}{s}carol", s = SEPARATOR);
    assert_eq!(split_sendlist(&typed), vec!["bob".to_string(), "alice".to_string(), "carol".to_string()]);
    assert!(split_sendlist("").is_empty());
}

#[test]
fn find_sendable_me_and_exact_matches() {
    let me = find_sendable("ME", &sessions(), &discussions(), false, false, true, true);
    assert!(me.me);
    assert!(me.session_matches.is_empty());

    let alice = find_sendable("alice", &sessions(), &discussions(), false, false, true, true);
    assert!(!alice.me);
    assert_eq!(alice.session, Some(0));
    assert_eq!(alice.session_matches, vec![0]);

    let chat = find_sendable("chat", &sessions(), &discussions(), false, false, true, true);
    assert_eq!(chat.session, None);
    assert_eq!(chat.discussion, Some(0));
}

#[test]
fn find_sendable_ambiguous_and_single_matches() {
    let bob = find_sendable("bob", &sessions(), &discussions(), false, false, true, true);
    assert_eq!(bob.session, None);
    assert_eq!(bob.discussion, None);
    assert_eq!(bob.session_matches, vec![1, 2]);
    assert_eq!(bob.discussion_matches, vec![1]);

    // Only discussions the sender belongs to count for members.
    let bob_member = find_sendable("bob", &sessions(), &discussions(), true, false, true, true);
    assert!(bob_member.discussion_matches.is_empty());
    assert_eq!(bob_member.session, None);

    let smith = find_sendable("smith", &sessions(), &discussions(), false, false, true, true);
    assert_eq!(smith.session, Some(1));

    let by = find_sendable("by", &sessions(), &discussions(), false, false, true, true);
    assert_eq!(by.session, Some(2));

    let exact_only = find_sendable("smith", &sessions(), &discussions(), false, true, true, true);
    assert_eq!(exact_only.session, None);
    assert!(exact_only.session_matches.is_empty());
}

#[test]
fn sendlist_set_reports_ambiguous_entries() {
    let typed = format!("bob{}alice", SEPARATOR);
    let s = Sendlist::new(99, &typed, false, true, true, &sessions(), &discussions());
    assert_eq!(s.typed(), typed);
    assert_eq!(s.errors(), "\"bob\" matches 2 names: Bob Smith and Bobby.\n");
    assert_eq!(s.sessions(), vec![1]);
    assert!(s.discussions().is_empty());
}

#[test]
fn sendlist_set_reports_unmatched_entries_once() {
    let typed = format!("zed{s}qq{s}ZED", s = SEPARATOR);
    let s = Sendlist::new(99, &typed, false, true, true, &sessions(), &discussions());
    assert_eq!(s.errors(), "No names matched \"qq\" or \"ZED\".\n");
    assert!(s.sessions().is_empty());
    let typed = format!("zz{}qq", SEPARATOR);
    let s = Sendlist::new(99, &typed, false, true, true, &sessions(), &discussions());
    assert_eq!(s.errors(), "No names matched \"qq\" or \"zz\".\n");
    assert_eq!(s.typed(), typed);
    assert!(s.sessions().is_empty() && s.discussions().is_empty());
}

#[test]
fn sendlist_multi_takes_every_match_and_me() {
    let typed = format!("bob{}me", SEPARATOR);
    let s = Sendlist::new(99, &typed, true, true, true, &sessions(), &discussions());
    assert_eq!(s.errors(), "");
    assert_eq!(s.sessions(), vec![2, 3, 99]);
    assert_eq!(s.discussions(), vec![11]);
    let who = s.expand(&vec![(11, vec![5, 2, 99])], Some(99));
    assert_eq!(who, vec![2, 3, 99, 5]);
}

#[test]
fn sendlist_set_again_changes_nothing() {
    let mut s = Sendlist::new(99, "alice", false, true, true, &sessions(), &discussions());
    assert_eq!(s.sessions(), vec![1]);
    s.set(99, "alice", false, true, true, &vec![], &vec![]);
    assert_eq!(s.sessions(), vec![1]);
    s.set(99, "", false, true, true, &sessions(), &discussions());
    assert_eq!(s.typed(), "alice");
    s.set(99, "chat", false, true, true, &sessions(), &discussions());
    assert!(s.sessions().is_empty());
    assert_eq!(s.discussions(), vec![10]);
}

#[test]
fn sendlist_add_and_remove_recipients() {
    let mut s = Sendlist::new(1, "", false, true, true, &vec![], &vec![]);
    s.add_session(4);
    s.add_session(4);
    s.add_session(7);
    assert_eq!(s.sessions(), vec![4, 7]);
    s.remove_session(4);
    assert_eq!(s.sessions(), vec![7]);
    s.add_discussion(3);
    s.remove_discussion(9);
    assert_eq!(s.discussions(), vec![3]);
}

#[test]
fn removing_what_was_just_added_restores_the_sendlist() {
    let mut s = Sendlist::new(1, "", false, true, true, &vec![], &vec![]);
    s.add_session(4);
    s.add_discussion(2);
    let (sessions, discussions) = (s.sessions(), s.discussions());
    s.add_session(9);
    s.remove_session(9);
    s.add_discussion(5);
    s.remove_discussion(5);
    assert_eq!(s.sessions(), sessions);
    assert_eq!(s.discussions(), discussions);
}
