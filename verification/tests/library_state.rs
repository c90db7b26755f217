use phoenix_cmc::discussion::{is_others, private_member, Discussion, DepermitResult, PermitResult, AppointResult, Target};
use phoenix_cmc::help::help;
use phoenix_cmc::name::Name;
use phoenix_cmc::output::{OutputStream, SendMode};
use phoenix_cmc::telnet::{Telnet, TelnetEvent, TelnetState};
use phoenix_cmc::timestamp::{date_slice, stamp_form, stamp_text, StampForm, Timestamp};
use phoenix_cmc::user::{find_reserved, parse_i32, parse_passwd_line, reserved_names, hash_password, verify_password};

#[test]
fn help_texts() {
    assert!(help("").starts_with("Known commands:\n"));
    assert_eq!(help("  zzz "), "No help available for \"zzz\".\n");
    assert_eq!(help("also"), "The /also command is used to send a copy of the last message to another\nsendlist.\n");
    assert_eq!(help("/also"), help("also"));
}

#[test]
fn names_with_and_without_blurbs() {
    let plain = Name::new("Bob", None);
    assert_eq!(plain.name_blurb, "Bob");
    assert!(!plain.has_blurb());
    assert_eq!(plain.column_display, format!("Bob{} ", " ".repeat(30)));
    let with = Name::new("Bob", Some("here"));
    assert_eq!(with.name_blurb, "Bob [here]");
    assert_eq!(with.blurb.as_deref(), Some("here"));
    assert!(with.has_blurb());
    assert_eq!(with.column_display.chars().count(), 34);
    let long = Name::new("Somebody With A Very Long Name", Some("and a blurb"));
    assert_eq!(long.column_display, format!("{}+ ", &"Somebody With A Very Long Name [and a blurb]"[..32]));
    assert!(plain.same(&Name::new("BOB", Some("x"))));
    assert_eq!(plain.you(&Name::new("bob", None)), "you");
    assert_eq!(with.you(&Name::new("Carol", None)), "Bob [here]");
}

#[test]
fn private_discussions_admit_the_permitted_only() {
    let mut d = Discussion::new(1, Some(1), "chat", "Chat room", false, 0);
    assert!(d.is_creator(1));
    assert!(d.is_member(1));
    assert!(d.is_moderator(1));
    assert_eq!(d.join(2), Err(false));
    assert_eq!(d.permit(2, &vec![Target::User(3)]), None);
    assert_eq!(d.permit(1, &vec![Target::User(2), Target::User(2), Target::Unmatched]),
        Some(vec![PermitResult::Permitted, PermitResult::AlreadyPermitted, PermitResult::Unmatched]));
    assert_eq!(d.join(2), Ok(()));
    assert_eq!(d.join(2), Err(true));
    assert_eq!(d.depermit(1, &vec![Target::User(2)]), Some(vec![DepermitResult::DepermittedAndRemoved]));
    assert!(!d.is_member(2));
    assert!(!d.is_permitted(2));
    assert_eq!(d.depermit(1, &vec![Target::User(4)]), Some(vec![DepermitResult::ExplicitlyDepermitted]));
    assert!(d.is_denied(4));
    assert_eq!(d.permit(1, &vec![Target::User(4)]), Some(vec![PermitResult::Repermitted]));
    assert!(d.is_allowed(4) && !d.is_denied(4));
}

#[test]
fn public_discussions_and_others() {
    let mut d = Discussion::new(2, Some(1), "games", "Games", true, 0);
    assert!(d.is_permitted(5));
    assert_eq!(d.depermit(1, &vec![Target::User(5)]), Some(vec![DepermitResult::Depermitted]));
    assert!(!d.is_permitted(5));
    assert_eq!(d.join(5), Err(false));
    assert_eq!(d.permit(1, &vec![Target::Others]), Some(vec![PermitResult::AlreadyPublic]));
    assert_eq!(d.depermit(1, &vec![Target::Others]), Some(vec![DepermitResult::MadePrivate]));
    assert_eq!(d.permit(1, &vec![Target::Others]), Some(vec![PermitResult::MadePublic]));
    assert!(is_others("others"));
    assert!(!is_others("other"));
}

#[test]
fn depermitting_others_can_leave_a_member_both_allowed_and_denied() {
    // The creator, a member who was never explicitly allowed, depermits
    // itself; making the discussion public and then private again copies
    // the members onto the allowed list, denied or not.
    let mut d = Discussion::new(3, Some(1), "club", "Club", false, 0);
    assert_eq!(d.depermit(1, &vec![Target::User(1)]), Some(vec![DepermitResult::ExplicitlyDepermitted]));
    assert!(d.is_member(1));
    assert_eq!(d.permit(1, &vec![Target::Others]), Some(vec![PermitResult::MadePublic]));
    assert_eq!(d.depermit(1, &vec![Target::Others]), Some(vec![DepermitResult::MadePrivate]));
    assert!(d.is_allowed(1) && d.is_denied(1));
}

#[test]
fn moderators_are_appointed_and_unappointed() {
    let mut d = Discussion::new(4, Some(1), "mods", "Mods", false, 0);
    assert_eq!(d.appoint(2, 0, &vec![Target::User(3)]), None);
    assert_eq!(d.appoint(1, 0, &vec![Target::User(3), Target::User(3)]),
        Some(vec![AppointResult::Appointed, AppointResult::AlreadyModerator]));
    assert!(d.is_moderator(3));
    assert_eq!(d.unappoint(3, &vec![Target::User(1), Target::User(3), Target::User(9)]),
        Some(vec![AppointResult::IsCreator, AppointResult::Unappointed, AppointResult::NotModerator]));
    assert!(d.may_destroy(1));
    assert!(!d.may_destroy(3));
    assert!(d.quit(1));
    assert!(!d.quit(1));
}

#[test]
fn output_stream_acknowledgements() {
    let mut s = OutputStream::new();
    assert_eq!(s.enqueue(10, true, false), SendMode::One);
    assert_eq!(s.enqueue(11, true, false), SendMode::Nothing);
    assert_eq!(s.enqueue(12, false, false), SendMode::Nothing);
    assert_eq!(s.send_next(), Some(10));
    assert_eq!(s.send_next(), Some(11));
    s.acknowledge();
    s.dequeue();
    assert_eq!(s.queue, vec![11, 12]);
    assert_eq!((s.acknowledged, s.sent), (0, 1));
    s.unenqueue(12);
    assert_eq!(s.queue, vec![11]);
    s.attach();
    assert_eq!(s.sent, 0);
    assert_eq!(s.enqueue(13, true, true), SendMode::All);
}

#[test]
fn integers_and_password_lines() {
    assert_eq!(parse_i32("42"), Some(42));
    assert_eq!(parse_i32("-2147483648"), Some(i32::MIN));
    assert_eq!(parse_i32("2147483648"), None);
    assert_eq!(parse_i32("+7"), Some(7));
    assert_eq!(parse_i32("x"), None);
    let e = parse_passwd_line("bob:secret:Bob,Bobby:50").unwrap();
    assert_eq!(e.username, "bob");
    assert_eq!(e.password.as_deref(), Some("secret"));
    assert_eq!(e.names.as_deref(), Some("Bob,Bobby"));
    assert_eq!(e.priv_level, 50);
    let g = parse_passwd_line("guest:::x").unwrap();
    assert_eq!(g.password, None);
    assert_eq!(g.names, None);
    assert_eq!(g.priv_level, 0);
    assert!(parse_passwd_line("# comment").is_none());
    assert!(parse_passwd_line("   ").is_none());
    assert!(parse_passwd_line("a:b:c").is_none());
}

#[test]
fn passwords_are_checked_by_their_hash_scheme() {
    // A traditional DES crypt hash of "test".
    assert!(verify_password("test", "aZGJuE6EXrjEE"));
    assert!(!verify_password("wrong", "aZGJuE6EXrjEE"));
    assert!(!verify_password("test", "\u{1}ZGJuE6EXrjEE"));
    assert!(!verify_password("test", "a\tGJuE6EXrjEE"));
    assert!(!verify_password("test", "\u{80}\u{80}"));
    assert!(!verify_password("test", "$2y$05$\u{80}bvIG6Nmid91Mu9RcmmWZfO"));
    assert!(!verify_password("test", "a\u{7f}GJuE6EXrjEE"));
}

#[test]
fn a_telnet_line_is_edited_and_accepted() {
    let mut t = Telnet::new();
    assert_eq!(t.process_byte(b'h', "", ""), TelnetEvent::Nothing);
    assert_eq!(t.process_byte(b'i', "", ""), TelnetEvent::Nothing);
    assert_eq!(t.data, b"hi".to_vec());
    assert_eq!(t.point, 2);
    t.process_byte(1, "", "");
    assert_eq!(t.point, 0);
    t.process_byte(b'o', "", "");
    assert_eq!(t.data, b"ohi".to_vec());
    t.process_byte(11, "", "");
    assert_eq!(t.data, b"o".to_vec());
    t.process_byte(25, "", "");
    assert_eq!(t.data, b"ohi".to_vec());
    assert_eq!(t.process_byte(13, "", ""), TelnetEvent::Accept);
    let line = t.accept_input_begin();
    assert_eq!(line, "ohi");
    t.accept_input_end();
    assert!(t.data.is_empty());
    assert_eq!(t.process_byte(10, "", ""), TelnetEvent::Nothing);
    assert_eq!(t.state, TelnetState::Data);
}

#[test]
fn telnet_negotiation_answers_do_suppress_go_ahead() {
    let mut t = Telnet::new();
    t.process_byte(255, "", "");
    assert_eq!(t.state, TelnetState::IAC);
    t.process_byte(253, "", "");
    assert_eq!(t.state, TelnetState::Do);
    t.process_byte(3, "", "");
    assert_eq!(t.state, TelnetState::Data);
    assert!(t.command_buffer.starts_with(&[255, 251, 3, 255, 253, 3]));
}

#[test]
fn time_stamps() {
    let date = "Mon Jan  1 12:34:56 2024";
    assert_eq!(date_slice(date, 11, 5), "12:34");
    assert_eq!(date_slice(date, 20, 0), "2024");
    assert_eq!(date_slice(date, 30, 2), "");
    assert_eq!(stamp_text(StampForm::WithYear, date), "Jan  1  2024  12:34");
    assert_eq!(stamp_text(StampForm::WithDate, date), "Jan  1 12:34");
    assert_eq!(stamp_text(StampForm::WithDay, date), "Mon  12:34");
    assert_eq!(stamp_text(StampForm::TimeOnly, date), "12:34");
    assert_eq!(stamp_form(100, 50, "2024", "2024", "Jan  1", "Jan  1", "Dec 25"), StampForm::WithYear);
    assert_eq!(stamp_form(0, 100, "2023", "2024", "Dec 31", "Jan  1", "Dec 25"), StampForm::WithYear);
    assert_eq!(stamp_form(0, 700000, "2024", "2024", "Jan  1", "Jan  9", "Jan  2"), StampForm::WithDate);
    assert_eq!(stamp_form(0, 100000, "2024", "2024", "Jan  1", "Jan  2", "Dec 26"), StampForm::WithDay);
    assert_eq!(stamp_form(0, 100, "2024", "2024", "Jan  1", "Jan  1", "Dec 25"), StampForm::TimeOnly);
    let t = Timestamp::from_unix(1000);
    assert_eq!(t.plus(5).unix(), 1005);
    assert_eq!(t.minus(5).since(&t), -5);
    assert!(t.before(&t.plus(1)));
}

#[test]
fn reserved_name_lists() {
    assert_eq!(reserved_names("Deven, Dev ,,  D "), vec!["Deven".to_string(), "Dev".to_string(), "D".to_string()]);
    assert_eq!(reserved_names(""), Vec::<String>::new());
    assert_eq!(reserved_names(" , "), Vec::<String>::new());
    assert_eq!(reserved_names("solo"), vec!["solo".to_string()]);
    let list = reserved_names("Deven,Dev");
    assert_eq!(find_reserved(&list, "dev"), Some("Dev".to_string()));
    assert_eq!(find_reserved(&list, "devon"), None);
}

#[test]
fn quitting_undoes_joining() {
    let mut d = Discussion::new(3, Some(1), "pub", "Public", true, 0);
    let before = d.members();
    assert_eq!(d.join(6), Ok(()));
    assert_eq!(d.join(6), Err(true));
    assert!(d.quit(6));
    assert_eq!(d.members(), before);
    assert!(!d.quit(6));
    assert_eq!(d.members(), before);
}

#[test]
fn a_password_matches_its_own_hash() {
    let h = hash_password("hunter42").expect("hashing succeeds");
    assert!(h.starts_with("$argon2"));
    assert!(verify_password("hunter42", &h));
    assert!(!verify_password("hunter43", &h));
}

#[test]
fn local_dates_and_stamps_have_their_shapes() {
    let now = Timestamp::from_unix(1_700_000_000);
    let whole = now.date(0, 0);
    assert_eq!(whole.chars().count(), 24);
    assert_eq!(now.date(4, 3), whole.chars().skip(4).take(3).collect::<String>());
    assert_eq!(now.date(11, 5).chars().count(), 5);
    let later = Timestamp::from_unix(1_700_000_000 + 86_400 * 400);
    let stamp = later.stamp_at(&now);
    let d = later.date(0, 0);
    let expected = format!("{} {} {}", &d[4..11], &d[20..24], &d[10..16]);
    assert_eq!(stamp, expected);
    assert_eq!(now.stamp_at(&now), now.date(11, 5));
}

#[test]
fn private_discussion_membership_of_a_message() {
    let mut open = Discussion::new(1, Some(1), "open", "Open", true, 0);
    let closed = Discussion::new(2, Some(1), "closed", "Closed", false, 0);
    assert_eq!(open.join(5), Ok(()));
    let discussions = vec![open, closed];
    assert!(private_member(1, &discussions, &vec![2]));
    assert!(!private_member(1, &discussions, &vec![1]));
    assert!(!private_member(5, &discussions, &vec![1, 2]));
    assert!(!private_member(1, &discussions, &vec![]));
}
