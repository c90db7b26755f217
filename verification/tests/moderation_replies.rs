use phoenix_cmc::constants::UNQUOTED_UNDERSCORE;
use phoenix_cmc::discussion::{AppointResult, DepermitResult, PermitResult, Target};
use phoenix_cmc::moderation::{
    appoint_reply, depermit_reply, destroy_reply, join_reply, matches_text, not_moderator_text, permit_reply,
    quit_reply, resolve_targets,
};
use phoenix_cmc::sendable::Candidate;

fn cand(key: u64, name: &str) -> Candidate {
    Candidate { key, name: name.to_string(), member: false }
}

#[test]
fn replies_to_moderators() {
    assert_eq!(not_moderator_text("chat"), "You are not a moderator of discussion chat.\n");
    assert_eq!(permit_reply(PermitResult::MadePublic, "chat", "Bob"), "You have made discussion chat public.\n");
    assert_eq!(
        permit_reply(PermitResult::AlreadyExplicitlyPermitted, "chat", "Bob"),
        "Bob is already explicitly permitted to public discussion chat.\n"
    );
    assert_eq!(permit_reply(PermitResult::Permitted, "chat", "Bob"), "You have permitted Bob to discussion chat.\n");
    assert_eq!(permit_reply(PermitResult::Unmatched, "chat", "Bob"), "");
    assert_eq!(
        depermit_reply(DepermitResult::DepermittedAndRemoved, "chat", "Bob"),
        "You have depermitted and removed Bob from discussion chat.\n"
    );
    assert_eq!(
        depermit_reply(DepermitResult::AlreadyExplicitlyDepermitted, "chat", "Bob"),
        "Bob is already explicitly depermitted from private discussion chat.\n"
    );
    assert_eq!(depermit_reply(DepermitResult::AlreadyPrivate, "chat", "Bob"), "Discussion chat is already private.\n");
    assert_eq!(
        appoint_reply(AppointResult::IsCreator, "chat", "Bob"),
        "Bob is the creator of discussion chat and may not be unappointed.\n"
    );
    assert_eq!(
        appoint_reply(AppointResult::Appointed, "chat", "Bob"),
        "You have appointed Bob as a moderator of discussion chat.\n"
    );
}

#[test]
fn names_that_match_several_or_none() {
    let name = format!("bob{}s", UNQUOTED_UNDERSCORE);
    assert_eq!(matches_text(&name, &vec![], false), "No names matched \"bob_s\".\n");
    assert_eq!(matches_text("x", &vec![], true), "No discussions matched \"x\".\n");
    assert_eq!(matches_text("c", &vec!["chat".to_string()], true), "\"c\" matches one discussion: chat.\n");
    assert_eq!(matches_text("b", &vec!["Bob".to_string()], false), "\"b\" matches one name: Bob.\n");
    assert_eq!(
        matches_text("b", &vec!["Bob".to_string(), "Bobby".to_string(), "Barb".to_string()], false),
        "\"b\" matches 3 names: Bob, Bobby and Barb.\n"
    );
}

#[test]
fn moderation_lists_are_resolved() {
    let sessions = vec![cand(1, "Alice"), cand(2, "Bob Smith"), cand(3, "Bobby")];
    let r = resolve_targets("others, me alice,bob,zed", 9, &sessions, true);
    assert_eq!(r.len(), 5);
    assert_eq!(r[0].target, Target::Others);
    assert_eq!(r[1].target, Target::User(9));
    assert_eq!(r[2].target, Target::User(1));
    assert_eq!(r[3].target, Target::Unmatched);
    assert_eq!(r[3].word, "bob");
    assert_eq!(r[3].matches, vec![1, 2]);
    assert_eq!(r[4].target, Target::Unmatched);
    assert!(r[4].matches.is_empty());
    let no_others = resolve_targets("others", 9, &sessions, false);
    assert_eq!(no_others[0].target, Target::Unmatched);
}

#[test]
fn joining_and_leaving_discussions() {
    assert_eq!(join_reply(Ok(()), "chat"), "You are now a member of discussion chat.\n");
    assert_eq!(join_reply(Err(true), "chat"), "You are already a member of discussion chat.\n");
    assert_eq!(join_reply(Err(false), "chat"), "You are not permitted to join discussion chat.\n");
    assert_eq!(quit_reply(true, "chat"), "You are no longer a member of discussion chat.\n");
    assert_eq!(quit_reply(false, "chat"), "You are not a member of discussion chat.\n");
    assert_eq!(destroy_reply(true, "chat"), "You have destroyed discussion chat.\n");
    assert_eq!(destroy_reply(false, "chat"), "You are not a moderator of discussion chat.\n");
}
