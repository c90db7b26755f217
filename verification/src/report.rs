//! What the sender of a message is told: that it was not sent, warnings
//! about the sender's own away state, and the confirmation that lists the
//! recipients with their state and idle time.

use vstd::prelude::*;
use crate::chars::{push_str, push_chars, string_from_chars};
use vstd::string::StringExecFns;
use crate::output::MessageType;
use crate::sendlist::{join_list, join_upto, list_sep, plural_s};
use crate::session::{AwayState, digits, int_str, plural, zero_pad, push_digits, push_int, push_int_zero};

verus! {

/// The idle time shown next to a recipient, for `m > 0` minutes:
/// "1d02:03", "2:03" or "5 minutes".
pub open spec fn idle_short_spec(m: int) -> Seq<char> {
    let hours = m / 60;
    let minutes = m % 60;
    let days = hours / 24;
    let h = hours % 24;
    if days > 0 {
        int_str(days) + "d"@ + zero_pad(h, 2) + ":"@ + zero_pad(minutes, 2)
    } else if h > 0 {
        int_str(h) + ":"@ + zero_pad(minutes, 2)
    } else {
        int_str(minutes) + " minute"@ + plural(minutes)
    }
}

/// Appends the idle time shown next to a recipient.
fn push_idle_short(v: &mut Vec<char>, m: i64)
    requires
        m > 0,
    ensures
        final(v)@ == old(v)@ + idle_short_spec(m as int),
{
    let mu = m as u64;
    let hours = mu / 60;
    let minutes = mu % 60;
    let days = hours / 24;
    let h = hours % 24;
    assert(hours == m / 60 && minutes == m % 60 && days == (m / 60) / 24 && h == (m / 60) % 24);
    if days > 0 {
        push_int(v, days as i64);
        push_str(v, "d");
        push_int_zero(v, h as i64, 2);
        push_str(v, ":");
        push_int_zero(v, minutes as i64, 2);
    } else if h > 0 {
        push_int(v, h as i64);
        push_str(v, ":");
        push_int_zero(v, minutes as i64, 2);
    } else {
        push_int(v, minutes as i64);
        push_str(v, " minute");
        if minutes == 1 {
            push_str(v, "");
        } else {
            push_str(v, "s");
        }
    }
    assert(v@ =~= old(v)@ + idle_short_spec(m as int));
}

/// How an away state is shown next to a recipient.
pub open spec fn away_word(a: AwayState) -> Seq<char> {
    match a {
        AwayState::Here => ""@,
        AwayState::Away => "\"away\""@,
        AwayState::Busy => "\"busy\""@,
        AwayState::Gone => "\"gone\""@,
    }
}

/// What is said of a recipient: detached, not here, idle.
pub open spec fn status_items(detached: bool, away: AwayState, idle: int) -> Seq<Seq<char>> {
    (if detached {
        seq!["detached"@]
    } else {
        Seq::empty()
    }) + (if away != AwayState::Here {
        seq![away_word(away)]
    } else {
        Seq::empty()
    }) + (if idle > 0 {
        seq!["idle: "@ + idle_short_spec(idle)]
    } else {
        Seq::empty()
    })
}

/// The status of a recipient in brackets, or nothing.
pub open spec fn status_text(items: Seq<Seq<char>>) -> Seq<char> {
    if items.len() == 0 {
        Seq::empty()
    } else {
        " ("@ + join_list(items, ", "@, ", "@) + ")"@
    }
}

/// A recipient of a message as the confirmation shows it.
#[derive(Debug)]
pub struct Recipient {
    /// The name and blurb.
    pub name_blurb: String,
    /// The name and blurb as the user list shows them.
    pub column: String,
    /// The session has no connection.
    pub detached: bool,
    pub away: AwayState,
    /// Whole minutes since the session was last active.
    pub idle_minutes: i64,
}

/// A recipient in the confirmation.
pub open spec fn recipient_spec(r: Recipient) -> Seq<char> {
    r.name_blurb@ + r.column@ + status_text(status_items(r.detached, r.away, r.idle_minutes as int))
}

/// What is said of a recipient (see `status_items`).
fn status_items_exec(detached: bool, away: AwayState, idle: i64) -> (r: Vec<String>)
    ensures
        r@.map_values(|s: String| s@) == status_items(detached, away, idle as int),
{
    let mut items: Vec<String> = Vec::new();
    let ghost a: Seq<Seq<char>> = if detached {
        seq!["detached"@]
    } else {
        Seq::empty()
    };
    let ghost b: Seq<Seq<char>> = if away != AwayState::Here {
        seq![away_word(away)]
    } else {
        Seq::empty()
    };
    if detached {
        items.push(String::from_str("detached"));
    }
    assert(items@.map_values(|s: String| s@) =~= a);
    let ghost after_a = items@;
    if away != AwayState::Here {
        let w = match away {
            AwayState::Here => "",
            AwayState::Away => "\"away\"",
            AwayState::Busy => "\"busy\"",
            AwayState::Gone => "\"gone\"",
        };
        assert(w@ == away_word(away));
        items.push(String::from_str(w));
    }
    assert(items@.map_values(|s: String| s@) =~= a + b);
    if idle > 0 {
        let mut t: Vec<char> = Vec::new();
        push_str(&mut t, "idle: ");
        push_idle_short(&mut t, idle);
        let ghost tv = t@;
        items.push(string_from_chars(t));
        assert(tv == "idle: "@ + idle_short_spec(idle as int));
    }
    assert(items@.map_values(|s: String| s@) =~= status_items(detached, away, idle as int));
    items
}

/// Appends a recipient as the confirmation shows it.
fn push_recipient(v: &mut Vec<char>, r: &Recipient)
    ensures
        final(v)@ == old(v)@ + recipient_spec(*r),
{
    push_str(v, r.name_blurb.as_str());
    push_str(v, r.column.as_str());
    let ghost base = v@;
    let items = status_items_exec(r.detached, r.away, r.idle_minutes);
    if items.len() > 0 {
        push_str(v, " (");
        push_comma_list(v, &items);
        push_str(v, ")");
    }
    assert(v@ =~= base + status_text(status_items(r.detached, r.away, r.idle_minutes as int)));
    assert(v@ =~= old(v)@ + recipient_spec(*r));
}

/// The recipients in the confirmation, joined with ", ".
pub open spec fn recipients_spec(rs: Seq<Recipient>) -> Seq<char> {
    join_list(rs.map_values(|r: Recipient| recipient_spec(r)), ", "@, ", "@)
}

/// The discussions in the confirmation, after the recipients.
pub open spec fn discussions_part(n_recipients: nat, dnames: Seq<Seq<char>>) -> Seq<char> {
    if dnames.len() > 0 {
        (if n_recipients > 0 {
            "; "@
        } else {
            Seq::empty()
        }) + "discussion"@ + plural_s(dnames.len()) + " "@ + join_list(dnames, ", "@, ", "@)
    } else {
        Seq::empty()
    }
}

/// The end of the confirmation, with the number of people reached.
pub open spec fn count_suffix(count: nat, n_discussions: nat) -> Seq<char> {
    if count > 1 {
        ".) ["@ + digits(count) + " people]\n"@
    } else if count == 1 && n_discussions > 0 {
        ".) [1 person]\n"@
    } else {
        ".)\n"@
    }
}

/// The confirmation of a message sent to `rs` (everyone it reached) and to
/// the discussions `dnames`.
pub open spec fn sent_spec(rs: Seq<Recipient>, dnames: Seq<Seq<char>>) -> Seq<char> {
    "(message sent to "@ + recipients_spec(rs) + discussions_part(rs.len(), dnames) + count_suffix(
        rs.len(),
        dnames.len(),
    )
}

/// Appends the items joined with ", ".
fn push_comma_list(v: &mut Vec<char>, items: &Vec<String>)
    ensures
        final(v)@ == old(v)@ + join_list(items@.map_values(|s: String| s@), ", "@, ", "@),
{
    let ghost s = items@.map_values(|s: String| s@);
    let mut i: usize = 0;
    while i < items.len()
        invariant
            i <= items.len(),
            s == items@.map_values(|s: String| s@),
            v@ == old(v)@ + join_upto(s, i as int, ", "@, ", "@),
        decreases items.len() - i,
    {
        if i > 0 {
            push_str(v, ", ");
        }
        push_str(v, items[i].as_str());
        proof {
            assert(v@ =~= old(v)@ + join_upto(s, i + 1, ", "@, ", "@));
        }
        i += 1;
    }
}

fn push_recipients(v: &mut Vec<char>, rs: &Vec<Recipient>)
    ensures
        final(v)@ == old(v)@ + recipients_spec(rs@),
{
    let ghost texts = rs@.map_values(|r: Recipient| recipient_spec(r));
    let mut i: usize = 0;
    while i < rs.len()
        invariant
            i <= rs.len(),
            texts == rs@.map_values(|r: Recipient| recipient_spec(r)),
            v@ == old(v)@ + join_upto(texts, i as int, ", "@, ", "@),
        decreases rs.len() - i,
    {
        let ghost before = v@;
        if i > 0 {
            push_str(v, ", ");
        }
        push_recipient(v, &rs[i]);
        proof {
            assert(texts[i as int] == recipient_spec(rs@[i as int]));
            assert(v@ =~= before + list_sep(i as int, texts.len() as int, ", "@, ", "@) + texts[i as int]);
            assert(v@ =~= old(v)@ + join_upto(texts, i + 1, ", "@, ", "@));
        }
        i += 1;
    }
}

fn push_discussions_part(v: &mut Vec<char>, n_recipients: usize, dnames: &Vec<String>)
    ensures
        final(v)@ == old(v)@ + discussions_part(n_recipients as nat, dnames@.map_values(|s: String| s@)),
{
    if dnames.len() > 0 {
        if n_recipients > 0 {
            push_str(v, "; ");
        }
        push_str(v, "discussion");
        if dnames.len() == 1 {
            push_str(v, "");
        } else {
            push_str(v, "s");
        }
        push_str(v, " ");
        push_comma_list(v, dnames);
    }
    assert(v@ =~= old(v)@ + discussions_part(n_recipients as nat, dnames@.map_values(|s: String| s@)));
}

fn push_count_suffix(v: &mut Vec<char>, count: usize, n_discussions: usize)
    ensures
        final(v)@ == old(v)@ + count_suffix(count as nat, n_discussions as nat),
{
    if count > 1 {
        push_str(v, ".) [");
        push_digits(v, count as u64);
        push_str(v, " people]\n");
    } else if count == 1 && n_discussions > 0 {
        push_str(v, ".) [1 person]\n");
    } else {
        push_str(v, ".)\n");
    }
    assert(v@ =~= old(v)@ + count_suffix(count as nat, n_discussions as nat));
}

/// The confirmation of a sent message (see `sent_spec`).
pub fn sent_confirmation(rs: &Vec<Recipient>, dnames: &Vec<String>) -> (r: String)
    ensures
        r@ == sent_spec(rs@, dnames@.map_values(|s: String| s@)),
{
    let mut v: Vec<char> = Vec::new();
    push_str(&mut v, "(message sent to ");
    push_recipients(&mut v, rs);
    push_discussions_part(&mut v, rs.len(), dnames);
    push_count_suffix(&mut v, rs.len(), dnames.len());
    proof {
        assert(v@ =~= sent_spec(rs@, dnames@.map_values(|s: String| s@)));
    }
    string_from_chars(v)
}

/// What the sender is told when a message reached no one.
pub open spec fn not_sent_spec(errors: Seq<char>) -> Seq<char> {
    (if errors.len() > 0 {
        "\x07\x07"@ + errors
    } else {
        Seq::empty()
    }) + "(message not sent)\n"@
}

/// What the sender is told when a message reached no one: the sendlist's
/// reports, if any, with two bells, and that it was not sent.
pub fn not_sent(errors: &str) -> (r: String)
    ensures
        r@ == not_sent_spec(errors@),
{
    let mut v: Vec<char> = Vec::new();
    let e = crate::chars::str_chars(errors);
    if e.len() > 0 {
        push_str(&mut v, "\x07\x07");
        push_chars(&mut v, &e);
    }
    push_str(&mut v, "(message not sent)\n");
    proof {
        assert(v@ =~= not_sent_spec(errors@));
    }
    string_from_chars(v)
}

/// The sendlist's reports after a sent message, with two bells, if any.
pub open spec fn errors_tail_spec(errors: Seq<char>) -> Seq<char> {
    if errors.len() > 0 {
        "\x07\x07"@ + errors
    } else {
        Seq::empty()
    }
}

/// The sendlist's reports after a sent message, with two bells, if any.
pub fn errors_tail(errors: &str) -> (r: String)
    ensures
        r@ == errors_tail_spec(errors@),
{
    let mut v: Vec<char> = Vec::new();
    let e = crate::chars::str_chars(errors);
    if e.len() > 0 {
        push_str(&mut v, "\x07\x07");
        push_chars(&mut v, &e);
    }
    proof {
        assert(v@ =~= errors_tail_spec(errors@));
    }
    string_from_chars(v)
}

/// The warning for a sender who is gone, or busy and idle for ten minutes
/// or more (`idle_seconds`).
pub open spec fn sender_warning_spec(away: AwayState, idle_seconds: int) -> Seq<char> {
    match away {
        AwayState::Gone => "[Warning: you are listed as \"gone\".]\n"@,
        AwayState::Busy => if idle_seconds >= 600 {
            "\x07[Warning: you are still listed as \"busy\".]\n"@
        } else {
            ""@
        },
        _ => ""@,
    }
}

/// The warning for a sender who is gone or still busy, or nothing.
pub fn sender_warning(away: AwayState, idle_seconds: i64) -> (r: &'static str)
    ensures
        r@ == sender_warning_spec(away, idle_seconds as int),
{
    match away {
        AwayState::Gone => "[Warning: you are listed as \"gone\".]\n",
        AwayState::Busy => if idle_seconds >= 600 {
            "\x07[Warning: you are still listed as \"busy\".]\n"
        } else {
            ""
        },
        _ => "",
    }
}

/// A message to more than one person, or to a discussion, is public.
pub fn message_type(count: usize, has_discussions: bool) -> (r: MessageType)
    ensures
        r == (if count > 1 || has_discussions {
            MessageType::Public
        } else {
            MessageType::Private
        }),
{
    if count > 1 || has_discussions {
        MessageType::Public
    } else {
        MessageType::Private
    }
}

} // verus!
