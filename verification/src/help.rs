//! The help texts, chosen by what follows `/help`.

use vstd::prelude::*;
use vstd::string::StringExecFns;
use crate::words::{match_keyword, match_keyword_spec, strip_prefix, strip_prefix_spec, trim, trim_spec};

verus! {

/// The help text on a variable of `/set` (`set`) or `/display`: 0 for
/// uptime, 1 for idle, 2 for time_format, 3 for the overview.
pub open spec fn sub_text_spec(set: bool, k: u8) -> Seq<char> {
    if set {
        if k == 0 {
            "Server uptime is a readonly system variable and cannot be set.\n"@
        } else if k == 1 {
            "The \"/set idle\" command is used to set an arbitrary idle time.  Arguments\nare a time specification in the format used by /who. (<d>d<hh>:<mm>)  You\nmay not make yourself idle longer than you've been signed on.  Use of this\ncommand is actually discouraged.  In fact, it exists solely to discourage\npeople from using idle time as a reason not to be active on the system.\nIdle time has no inherent value, and to hoard it is silly.  Yet this has\nbeen done, if only because of the time needed to build up a high idle time.\nThis command is intended to take all the fun out of this game by eliminating\nthe challenge of accumulating a high idle time, to discourage such misuse.\n"@
        } else if k == 2 {
            "The \"/set time_format\" command will set the current format used to display\ntimes in a verbose context.\n\nValid options are: terse, verbose, both, default.\n"@
        } else {
            "The /set command is used to set both system variables and user variables.\nSystem variables are specified with predefined keywords, and user variables\nmust be prefixed with a dollar sign.  (e.g. \"idle\" is a system variable\nwith a predefined purpose, and \"$idle\" is a user variable with no such\npredefined purpose.)\n\nKnown system variables:\n\nuptime   idle     time_format\n"@
        }
    } else if k == 0 {
        "The \"/display uptime\" command will display how long the server has been\nrunning, and may also display how long the machine has been running.\n"@
    } else if k == 1 {
        "The \"/display idle\" command will display your idle time.\n"@
    } else if k == 2 {
        "The \"/display time_format\" command will display the current format used to\ndisplay times in a verbose context.\n\nValid options are: terse, verbose, both, default.\n"@
    } else {
        "The /display command is used to display both system variables and user\nvariables.  System variables are specified with predefined keywords, and\nuser variables must be prefixed with a dollar sign.  (e.g. \"idle\" is a\nsystem variable with a predefined purpose, and \"$idle\" is a user variable\nwith no such predefined purpose.)\n\nKnown system variables:\n\nuptime   idle     time_format\n"@
    }
}

/// The help text on a variable of `/set` or `/display`.
fn sub_text(set: bool, k: u8) -> (r: &'static str)
    ensures
        r@ == sub_text_spec(set, k),
{
    if set {
        if k == 0 {
            "Server uptime is a readonly system variable and cannot be set.\n"
        } else if k == 1 {
            "The \"/set idle\" command is used to set an arbitrary idle time.  Arguments\nare a time specification in the format used by /who. (<d>d<hh>:<mm>)  You\nmay not make yourself idle longer than you've been signed on.  Use of this\ncommand is actually discouraged.  In fact, it exists solely to discourage\npeople from using idle time as a reason not to be active on the system.\nIdle time has no inherent value, and to hoard it is silly.  Yet this has\nbeen done, if only because of the time needed to build up a high idle time.\nThis command is intended to take all the fun out of this game by eliminating\nthe challenge of accumulating a high idle time, to discourage such misuse.\n"
        } else if k == 2 {
            "The \"/set time_format\" command will set the current format used to display\ntimes in a verbose context.\n\nValid options are: terse, verbose, both, default.\n"
        } else {
            "The /set command is used to set both system variables and user variables.\nSystem variables are specified with predefined keywords, and user variables\nmust be prefixed with a dollar sign.  (e.g. \"idle\" is a system variable\nwith a predefined purpose, and \"$idle\" is a user variable with no such\npredefined purpose.)\n\nKnown system variables:\n\nuptime   idle     time_format\n"
        }
    } else if k == 0 {
        "The \"/display uptime\" command will display how long the server has been\nrunning, and may also display how long the machine has been running.\n"
    } else if k == 1 {
        "The \"/display idle\" command will display your idle time.\n"
    } else if k == 2 {
        "The \"/display time_format\" command will display the current format used to\ndisplay times in a verbose context.\n\nValid options are: terse, verbose, both, default.\n"
    } else {
        "The /display command is used to display both system variables and user\nvariables.  System variables are specified with predefined keywords, and\nuser variables must be prefixed with a dollar sign.  (e.g. \"idle\" is a\nsystem variable with a predefined purpose, and \"$idle\" is a user variable\nwith no such predefined purpose.)\n\nKnown system variables:\n\nuptime   idle     time_format\n"
    }
}

/// The answer when there is no help on a topic.
pub open spec fn no_help_spec(topic: Seq<char>) -> Seq<char> {
    "No help available for \""@ + topic + "\".\n"@
}

/// The answer when there is no help on a topic.
fn no_help(topic: &str) -> (r: String)
    ensures
        r@ == no_help_spec(topic@),
{
    let mut s = String::from_str("No help available for \"");
    s.append(topic);
    s.append("\".\n");
    s
}

/// Help on a variable of `/set` or `/display` (`args` is the trimmed
/// argument, starting with the command word `slashed` or `bare`, cut off
/// exactly as typed; `prefix` shows the command in the answer).
pub open spec fn sub_help_spec(args: Seq<char>, set: bool) -> Seq<char> {
    let slashed = if set { "/set"@ } else { "/display"@ };
    let bare = if set { "set"@ } else { "display"@ };
    let prefix = if set { "/set "@ } else { "/display "@ };
    let stripped = if args.len() > 0 && args[0] == '/' {
        strip_prefix_spec(args, slashed)
    } else {
        strip_prefix_spec(args, bare)
    };
    let sub = trim_spec(match stripped {
        Some(rest) => rest,
        None => Seq::empty(),
    });
    if match_keyword_spec(sub, "uptime"@, 6).is_some() {
        sub_text_spec(set, 0)
    } else if match_keyword_spec(sub, "idle"@, 4).is_some() {
        sub_text_spec(set, 1)
    } else if match_keyword_spec(sub, "time_format"@, 11).is_some() {
        sub_text_spec(set, 2)
    } else if sub.len() > 0 {
        no_help_spec(prefix + sub)
    } else {
        sub_text_spec(set, 3)
    }
}

/// Help on a variable of `/set` or `/display`.
fn sub_help(args: &str, set: bool) -> (r: String)
    ensures
        r@ == sub_help_spec(args@, set),
{
    let slashed = if set { "/set" } else { "/display" };
    let bare = if set { "set" } else { "display" };
    let prefix = if set { "/set " } else { "/display " };
    proof {
        reveal_strlit("uptime");
        reveal_strlit("idle");
        reveal_strlit("time_format");
    }
    let cs = crate::chars::str_chars(args);
    let stripped = if cs.len() > 0 && cs[0] == '/' {
        strip_prefix(args, slashed)
    } else {
        strip_prefix(args, bare)
    };
    let sub = trim(match stripped {
        Some(rest) => rest,
        None => "",
    });
    proof {
        reveal_strlit("");
    }
    if match_keyword(sub, "uptime", 6).is_some() {
        String::from_str(sub_text(set, 0))
    } else if match_keyword(sub, "idle", 4).is_some() {
        String::from_str(sub_text(set, 1))
    } else if match_keyword(sub, "time_format", 11).is_some() {
        String::from_str(sub_text(set, 2))
    } else if !sub.is_empty() {
        let mut s = String::from_str(prefix);
        s.append(sub);
        no_help(s.as_str())
    } else {
        String::from_str(sub_text(set, 3))
    }
}

/// The help text for what follows `/help` (`args` trimmed).
pub open spec fn help_text_spec(args: Seq<char>) -> Seq<char> {
    if match_keyword_spec(args, "/who"@, 2).is_some() || match_keyword_spec(args, "who"@, 3).is_some() || match_keyword_spec(args, "/idle"@, 2).is_some() || match_keyword_spec(args, "idle"@, 4).is_some() {
        "The /who and /idle commands are used to list users on Phoenix.  Both /who\nand /idle take identical arguments, but the output differs.  /who will give\nmore information, while /idle will give a more compact presentation.\n\nBoth /who and /idle will accept either categorical keywords or strings to\nmatch against names and discussions; all matches found are listed.  If any\ndiscussions are matched, all users in the discussions are listed.  The known\ncategorical keywords for /who and /idle are:\n\nhere   away   attached   active     idle     privileged   all\nbusy   gone   detached   inactive   unidle   guests       everyone\n\nThe categorical keywords match users in the given state.  The \"active\"\nstate is special, and defined as follows:\n\"here\", attached, idle < 1 hour; or\n\"here\", detached, idle < 10 minutes; or\n\"away\", attached, idle < 10 minutes.\nThe keyword \"all\" is treated as \"active,attached\", while \"everyone\"\nmatches all users.  \"unidle\" matches users with idle < 10 minutes.  The\ndefault if no arguments are given is to match \"everyone\" for now.  (When\nmore people are using the system, the default will change back to \"active\".)\nMatch strings and multiple categorical keywords can be piled together as\ndesired.  When only a single person is printed by /who, long blurbs are\nprinted in full.\n"@
    } else if match_keyword_spec(args, "/blurb"@, 3).is_some() || match_keyword_spec(args, "blurb"@, 5).is_some() {
        "The /blurb command allows you to set a descriptive \"blurb\".  It is usually\nprinted along with your name in most messages and notifications.  There is\nno set limit to blurb length, but out of courtesy, try to keep it short.\nUnder 30 characters is a good size.  Long blurbs are normally truncated in\n/who and /idle listings, so your entire blurb may not be seen at all times.\nWhen only one person is printed by /who, long blurbs are printed in full.\n\nSyntax: /blurb [blurb]\n/blurb \"blurb\"\n/blurb blurb\n\n\"/blurb off\" turns off your blurb.  \"/blurb\" alone reports your blurb.\n\nIn many cases, it is preferable to use one of the away-state commands (/here,\n/away, /busy, /gone) instead of /blurb.  All of the away-state commands will\ntake blurb arguments exactly like /blurb, but will set a meaningful status\nat the same time, so their use is encouraged.  Also, every away-state command\nmay be abbreviated to a single letter, while /bl is the minimum abbreviation\nfor the /blurb command, since /busy abbreviates to /b.\n\nSee also: /here, /away, /busy, /gone.\n"@
    } else if match_keyword_spec(args, "/here"@, 2).is_some() || match_keyword_spec(args, "here"@, 4).is_some() {
        "The /here command accepts /blurb arguments to set the blurb, and then sets\nyour away status to \"here\".  Even if you are already \"here\", others will\nstill be notified that you are now \"here\".\n\nBeing \"here\" implies that you are willing to engage in new conversations,\nand that you are reasonably likely to respond to messages quickly.\n\nIf you wish to actively talk to certain people but not anyone else in general,\nthen you should use /busy instead.\n\nSince people sometimes forget to set a new away status when they leave, the\ndefault /who target of \"active\" will only list \"here\" people if they are\nunder one hour idle if attached, or if they are under ten minutes idle if\ndetached.  (On the assumption they intend to return almost immediately.)\nOverly-idle \"here\" people aren't normally listed, so their away state is\nnot changed due to idle time.\n\nThe /here command may be abbreviated to /h.\n\nSee also: /blurb, /away, /busy, /gone.\n"@
    } else if match_keyword_spec(args, "/away"@, 2).is_some() || match_keyword_spec(args, "away"@, 4).is_some() {
        "The /away command accepts /blurb arguments to set the blurb, and then sets\nyour away status to \"away\".  Even if you are already \"away\", others will\nstill be notified you are now \"away\".\n\nBeing \"away\" implies you are either gone for a brief period (maybe around\n5-10 minutes), or you are around but likely to be inattentive.  It implies\nyou are not unwilling to engage in new conversations, but may well be slow\nto respond.  \"away\" is a good state to use if you're reading Usenet news\nin another window, watching TV across the room from the keyboard, or taking\na shower.  Your blurb should reflect your present activity, ideally.\n\nIf you wish to actively talk to certain people but not anyone else in general,\nthen you should use /busy instead.\n\nSince people sometimes forget to set a new away status when they leave, the\ndefault /who target of \"active\" will only list \"away\" people if they are\nattached and under ten minutes idle.  Overly-idle \"away\" people aren't\nnormally listed, so their away state is not changed due to idle time.\n\nThe /away command may be abbreviated to /a.\n\nSee also: /blurb, /here, /busy, /gone.\n"@
    } else if match_keyword_spec(args, "/busy"@, 2).is_some() || match_keyword_spec(args, "busy"@, 4).is_some() {
        "The /busy command accepts /blurb arguments to set the blurb, and then sets\nyour away status to \"busy\".  Even if you are already \"busy\", others will\nstill be notified you are now \"busy\".\n\nBeing \"busy\" implies you are either engaged in conversation with others\non the system, or around but busy doing something else.  In either case,\n\"busy\" implies you would not appreciate interruptions that aren't very\ninportant, especially if they would require a reply.  Those whose messages\nare welcome would already know so.  Don't bother a person who is \"busy\"\nwithout having a reason to do so.  \"busy\" is a good state if you're in a\ndeep conversation with someone, or if you're washing dishes, for example.\nYour blurb should reflect what you're busy with, ideally.\n\nThe default /who target of \"active\" will never list \"busy\" people on the\nassumption that they do not wish to be unduly disturbed.  Idle time will not\ncause the away state to change, but if you become unidle while \"busy\" and\nat least ten minutes idle, you will get a warning message that you are still\nlisted as \"busy\", in case it no longer applies and you forgot about it.\n\nThe /busy command may be abbreviated to /b.\n\nSee also: /blurb, /here, /away, /gone.\n"@
    } else if match_keyword_spec(args, "/gone"@, 2).is_some() || match_keyword_spec(args, "gone"@, 4).is_some() {
        "The /gone command accepts /blurb arguments to set the blurb, and then sets\nyour away status to \"gone\".  Even if you are already \"gone\", others will\nstill be notified you are now \"gone\".\n\nBeing \"gone\" implies you are gone and should not be expected to respond to\nmessages at all until you return, regardless of whether you are attached or\ndetached.  \"gone\" implies you are not having any conversations at all, and\nall messages received will be seen later, much like an answering machine.\n\"gone\" is a good state to use if you're asleep, off to work or class, etc.\nYour blurb should reflect where you went, ideally.  (e.g. \"/gone [-> work]\")\n\nIf you wish to actively talk to certain people but not anyone else in general,\nthen you should use /busy instead.\n\nThe default /who target of \"active\" will never list \"gone\" people on the\nassumption that they are truly gone.  Idle time will not cause the away state\nto change, but if you send a message while \"gone\", you will be warned,\nfor every message you send while \"gone\".\n\nThe /gone command may be abbreviated to /g.\n\nSee also: /blurb, /here, /away, /busy.\n"@
    } else if match_keyword_spec(args, "/help"@, 2).is_some() || match_keyword_spec(args, "help"@, 4).is_some() {
        "The /help command is used to request helpful information about commands or\nconcepts.  For example, for help on the /gone command, you can type either\n\"/help gone\" or \"/help /gone\".  If the slash form for command help is\nused, the command name may be abbreviated in the same way as the actual\ncommand.  Since the minimum abbreviation for /gone is /g, \"/help /g\" is\nsufficient, although \"/help g\" is not.\n"@
    } else if match_keyword_spec(args, "/send"@, 2).is_some() || match_keyword_spec(args, "send"@, 4).is_some() {
        "The /send command is used to redirect your \"default sendlist\".  Simply type\n\"/send <sendlist>\" and <sendlist> becomes the new destination for any\nmessage which does not contain an explicit sendlist, including recognized\nsmileys.  (See \"/help smileys\".)  \"/send off\" will turn off your default\nsendlist completely.  \"/send\" alone will display your current default\nsendlist without changing it.  /send may be abbreviated to /s.\n"@
    } else if match_keyword_spec(args, "/bye"@, 4).is_some() || match_keyword_spec(args, "bye"@, 3).is_some() {
        "The /bye command is used to leave Phoenix completely.  If you sign off, you\nwill be disconnected from the system and unable to receive messages at all.\nYou may wish to consider using the /detach command instead.\n"@
    } else if match_keyword_spec(args, "/what"@, 3).is_some() || match_keyword_spec(args, "what"@, 4).is_some() {
        "The /what command is used to list currently existing discussions.\n"@
    } else if match_keyword_spec(args, "/join"@, 2).is_some() || match_keyword_spec(args, "join"@, 4).is_some() {
        "The /join command is used to join one or more discussions.\n"@
    } else if match_keyword_spec(args, "/quit"@, 2).is_some() || match_keyword_spec(args, "quit"@, 4).is_some() {
        "The /quit command is used to quit one or more discussions.\n"@
    } else if match_keyword_spec(args, "/create"@, 3).is_some() || match_keyword_spec(args, "create"@, 6).is_some() {
        "The /create command is used to create a new discussion.\n"@
    } else if match_keyword_spec(args, "/destroy"@, 4).is_some() || match_keyword_spec(args, "destroy"@, 7).is_some() {
        "The /destroy command is used to destroy one or more discussions.\n"@
    } else if match_keyword_spec(args, "/permit"@, 4).is_some() || match_keyword_spec(args, "permit"@, 6).is_some() {
        "The /permit command is used to permit one or more members to a discussion.\n"@
    } else if match_keyword_spec(args, "/depermit"@, 4).is_some() || match_keyword_spec(args, "depermit"@, 8).is_some() {
        "The /depermit command is used to depermit one or more members from a\ndiscussion.\n"@
    } else if match_keyword_spec(args, "/appoint"@, 4).is_some() || match_keyword_spec(args, "appoint"@, 7).is_some() {
        "The /appoint command is used to appoint one or more moderators to a\ndiscussion.\n"@
    } else if match_keyword_spec(args, "/unappoint"@, 10).is_some() || match_keyword_spec(args, "unappoint"@, 9).is_some() {
        "The /unappoint command is used to unappoint one or more moderators from a\ndiscussion.\n"@
    } else if match_keyword_spec(args, "/rename"@, 7).is_some() || match_keyword_spec(args, "rename"@, 6).is_some() {
        "The /rename command is used to change your name in the system.  There are\ncurrently some bugs with this, so use of /rename is presently discouraged\nuntil those bugs are fixed.\n"@
    } else if match_keyword_spec(args, "/clear"@, 3).is_some() || match_keyword_spec(args, "clear"@, 5).is_some() {
        "The /clear command simply clears the terminal screen.\n\nAlternatively, type Escape then Control-L to clear the screen.\n"@
    } else if match_keyword_spec(args, "/unidle"@, 7).is_some() || match_keyword_spec(args, "unidle"@, 6).is_some() {
        "The /unidle command simply resets your idle time as if you sent a message.\n\nAlternatively, send a line consisting of a single space only.  There is a\nslight difference in that <space><return> is silent if idle under one minute,\nwhile /unidle will report that the idle time was reset.  For both, if the\nidle time was at least one minute, it is reported before being reset.\n\nIn general, when you become unidle, you will receive a report of the previous\nidle time if it exceeded the normal threshold of ten minutes.\n"@
    } else if match_keyword_spec(args, "/detach"@, 4).is_some() || match_keyword_spec(args, "detach"@, 6).is_some() {
        "The /detach command is used to disconnect from Phoenix without signing off.\nYou can still receive messages while detached, to be reviewed later.  When\nthe /detach command is used, others are notified that you intentionally\ndetached.  If any other event causes you to become detached (e.g. network\nfailure), then others are notified that you accidentally detached.\n\nTo reattach to a detached session, simply sign back on with the same account\nand name, and you will be automatically attached.  Currently, all pending\noutput will be output very quickly; local scrollback is highly recommended.\nIf you miss some of the detached output, do NOT press return, but disconnect\ninstead locally.  When you reattach, the same output will be reviewed again.\nOutput is only discarded when it has crossed the network (acknowledgements\nare used) and the user has entered an input line.\n"@
    } else if match_keyword_spec(args, "/howmany"@, 3).is_some() || match_keyword_spec(args, "howmany"@, 7).is_some() || match_keyword_spec(args, "how"@, 3).is_some() {
        "The /howmany command shows how many users are \"here\", \"away\", \"busy\"\nand \"gone\", how many users are attached and detached, total number of\nusers signed on, and how many discussions are active.\n"@
    } else if match_keyword_spec(args, "/why"@, 4).is_some() || match_keyword_spec(args, "why"@, 3).is_some() {
        "The /why command is pretty self-explanatory. (try it!)\n"@
    } else if match_keyword_spec(args, "/date"@, 3).is_some() || match_keyword_spec(args, "date"@, 4).is_some() {
        "The /date command prints the current date and time like the date(1) command.\n"@
    } else if match_keyword_spec(args, "/signal"@, 3).is_some() || match_keyword_spec(args, "signal"@, 6).is_some() {
        "The /signal command is used to control whether or not to ring the terminal\nbell when incoming messages arrive.  There are separate controls for public\nand private messages.  The default is on for both.\n\nSyntax: /signal [public|private] [on|off]\n"@
    } else if match_keyword_spec(args, "smileys"@, 6).is_some() {
        "The following are recognized smileys:\n\n:-)   :-(   :-P   ;-)   :_)   :_(   :)   :(   :P   ;)\n\nWhen a message begins with one of these recognized smileys, either alone or\nfollowed immediately by whitespace, the smiley as assumed to be part of the\nmessage and sent to the default sendlist, instead of attempting to interpret\nthe smiley as an explicit sendlist.  This does not attempt to special-case\nevery type of smiley, but it does attempt to catch the common ones likely\nto be typed reflexively.  Only smileys containing a semicolon or colon are\nan issue here, since a smiley like \"8-)\" will already go to the default.\n\nIn general, any message can be forced to be interpreted as either explicit\nor default sendlist sending by proper use of a space.  If a space leads the\ninput line, it guarantees sending to the default sendlist.  If a space is\nimmediately following a semicolon or colon in what would otherwise be one\nof the recognized smileys, it guarantees the explicit sendlist interpretation.\nIn all cases, a single leading space in the message text will be removed\nif it is present, to allow such control over sending without changing the\nbody of the message.\n\nSince this technique makes a single space alone on a line effectively the\nsame as a blank line, this special case was used instead to reset idle time\nwithout actually sending any message.  (See \"/help unidle\".)\n"@
    } else if match_keyword_spec(args, "/set"@, 4).is_some() || match_keyword_spec(args, "set"@, 3).is_some() {
        sub_help_spec(args, true)
    } else if match_keyword_spec(args, "/display"@, 2).is_some() || match_keyword_spec(args, "display"@, 7).is_some() {
        sub_help_spec(args, false)
    } else if match_keyword_spec(args, "/also"@, 3).is_some() || match_keyword_spec(args, "also"@, 4).is_some() {
        "The /also command is used to send a copy of the last message to another\nsendlist.\n"@
    } else if match_keyword_spec(args, "/oops"@, 3).is_some() || match_keyword_spec(args, "oops"@, 4).is_some() {
        "The /oops command is used to send an \"oops\" message to the (unintended)\nrecipient of the last message, and to resend the last message to another\nsendlist.  The \"/oops text <message>\" form can be used to change the\ntext of the \"oops\" message.\n"@
    } else if args.len() > 0 {
        no_help_spec(args)
    } else {
        "Known commands:\n\n/who     /blurb    /create    /permit     /clear     /howmany\n/what    /here     /destroy   /depermit   /unidle    /detach\n/why     /away     /join      /appoint    /date      /bye\n/idle    /busy     /quit      /unappoint  /set\n/help    /gone     /send      /rename     /signal\n\nType \"/help <command>\" for more information about a particular command.\n"@
    }
}

/// The help text for what follows `/help`.
pub fn help(args: &str) -> (r: String)
    ensures
        r@ == help_text_spec(trim_spec(args@)),
{
    proof {
        reveal_strlit("/also");
        reveal_strlit("/appoint");
        reveal_strlit("/away");
        reveal_strlit("/blurb");
        reveal_strlit("/busy");
        reveal_strlit("/bye");
        reveal_strlit("/clear");
        reveal_strlit("/create");
        reveal_strlit("/date");
        reveal_strlit("/depermit");
        reveal_strlit("/destroy");
        reveal_strlit("/detach");
        reveal_strlit("/display");
        reveal_strlit("/gone");
        reveal_strlit("/help");
        reveal_strlit("/here");
        reveal_strlit("/howmany");
        reveal_strlit("/idle");
        reveal_strlit("/join");
        reveal_strlit("/oops");
        reveal_strlit("/permit");
        reveal_strlit("/quit");
        reveal_strlit("/rename");
        reveal_strlit("/send");
        reveal_strlit("/set");
        reveal_strlit("/signal");
        reveal_strlit("/unappoint");
        reveal_strlit("/unidle");
        reveal_strlit("/what");
        reveal_strlit("/who");
        reveal_strlit("/why");
        reveal_strlit("also");
        reveal_strlit("appoint");
        reveal_strlit("away");
        reveal_strlit("blurb");
        reveal_strlit("busy");
        reveal_strlit("bye");
        reveal_strlit("clear");
        reveal_strlit("create");
        reveal_strlit("date");
        reveal_strlit("depermit");
        reveal_strlit("destroy");
        reveal_strlit("detach");
        reveal_strlit("display");
        reveal_strlit("gone");
        reveal_strlit("help");
        reveal_strlit("here");
        reveal_strlit("how");
        reveal_strlit("howmany");
        reveal_strlit("idle");
        reveal_strlit("join");
        reveal_strlit("oops");
        reveal_strlit("permit");
        reveal_strlit("quit");
        reveal_strlit("rename");
        reveal_strlit("send");
        reveal_strlit("set");
        reveal_strlit("signal");
        reveal_strlit("smileys");
        reveal_strlit("time_format");
        reveal_strlit("unappoint");
        reveal_strlit("unidle");
        reveal_strlit("uptime");
        reveal_strlit("what");
        reveal_strlit("who");
        reveal_strlit("why");
    }
    let args = trim(args);
    if match_keyword(args, "/who", 2).is_some() || match_keyword(args, "who", 3).is_some() || match_keyword(args, "/idle", 2).is_some() || match_keyword(args, "idle", 4).is_some() {
        String::from_str("The /who and /idle commands are used to list users on Phoenix.  Both /who\nand /idle take identical arguments, but the output differs.  /who will give\nmore information, while /idle will give a more compact presentation.\n\nBoth /who and /idle will accept either categorical keywords or strings to\nmatch against names and discussions; all matches found are listed.  If any\ndiscussions are matched, all users in the discussions are listed.  The known\ncategorical keywords for /who and /idle are:\n\nhere   away   attached   active     idle     privileged   all\nbusy   gone   detached   inactive   unidle   guests       everyone\n\nThe categorical keywords match users in the given state.  The \"active\"\nstate is special, and defined as follows:\n\"here\", attached, idle < 1 hour; or\n\"here\", detached, idle < 10 minutes; or\n\"away\", attached, idle < 10 minutes.\nThe keyword \"all\" is treated as \"active,attached\", while \"everyone\"\nmatches all users.  \"unidle\" matches users with idle < 10 minutes.  The\ndefault if no arguments are given is to match \"everyone\" for now.  (When\nmore people are using the system, the default will change back to \"active\".)\nMatch strings and multiple categorical keywords can be piled together as\ndesired.  When only a single person is printed by /who, long blurbs are\nprinted in full.\n")
    } else if match_keyword(args, "/blurb", 3).is_some() || match_keyword(args, "blurb", 5).is_some() {
        String::from_str("The /blurb command allows you to set a descriptive \"blurb\".  It is usually\nprinted along with your name in most messages and notifications.  There is\nno set limit to blurb length, but out of courtesy, try to keep it short.\nUnder 30 characters is a good size.  Long blurbs are normally truncated in\n/who and /idle listings, so your entire blurb may not be seen at all times.\nWhen only one person is printed by /who, long blurbs are printed in full.\n\nSyntax: /blurb [blurb]\n/blurb \"blurb\"\n/blurb blurb\n\n\"/blurb off\" turns off your blurb.  \"/blurb\" alone reports your blurb.\n\nIn many cases, it is preferable to use one of the away-state commands (/here,\n/away, /busy, /gone) instead of /blurb.  All of the away-state commands will\ntake blurb arguments exactly like /blurb, but will set a meaningful status\nat the same time, so their use is encouraged.  Also, every away-state command\nmay be abbreviated to a single letter, while /bl is the minimum abbreviation\nfor the /blurb command, since /busy abbreviates to /b.\n\nSee also: /here, /away, /busy, /gone.\n")
    } else if match_keyword(args, "/here", 2).is_some() || match_keyword(args, "here", 4).is_some() {
        String::from_str("The /here command accepts /blurb arguments to set the blurb, and then sets\nyour away status to \"here\".  Even if you are already \"here\", others will\nstill be notified that you are now \"here\".\n\nBeing \"here\" implies that you are willing to engage in new conversations,\nand that you are reasonably likely to respond to messages quickly.\n\nIf you wish to actively talk to certain people but not anyone else in general,\nthen you should use /busy instead.\n\nSince people sometimes forget to set a new away status when they leave, the\ndefault /who target of \"active\" will only list \"here\" people if they are\nunder one hour idle if attached, or if they are under ten minutes idle if\ndetached.  (On the assumption they intend to return almost immediately.)\nOverly-idle \"here\" people aren't normally listed, so their away state is\nnot changed due to idle time.\n\nThe /here command may be abbreviated to /h.\n\nSee also: /blurb, /away, /busy, /gone.\n")
    } else if match_keyword(args, "/away", 2).is_some() || match_keyword(args, "away", 4).is_some() {
        String::from_str("The /away command accepts /blurb arguments to set the blurb, and then sets\nyour away status to \"away\".  Even if you are already \"away\", others will\nstill be notified you are now \"away\".\n\nBeing \"away\" implies you are either gone for a brief period (maybe around\n5-10 minutes), or you are around but likely to be inattentive.  It implies\nyou are not unwilling to engage in new conversations, but may well be slow\nto respond.  \"away\" is a good state to use if you're reading Usenet news\nin another window, watching TV across the room from the keyboard, or taking\na shower.  Your blurb should reflect your present activity, ideally.\n\nIf you wish to actively talk to certain people but not anyone else in general,\nthen you should use /busy instead.\n\nSince people sometimes forget to set a new away status when they leave, the\ndefault /who target of \"active\" will only list \"away\" people if they are\nattached and under ten minutes idle.  Overly-idle \"away\" people aren't\nnormally listed, so their away state is not changed due to idle time.\n\nThe /away command may be abbreviated to /a.\n\nSee also: /blurb, /here, /busy, /gone.\n")
    } else if match_keyword(args, "/busy", 2).is_some() || match_keyword(args, "busy", 4).is_some() {
        String::from_str("The /busy command accepts /blurb arguments to set the blurb, and then sets\nyour away status to \"busy\".  Even if you are already \"busy\", others will\nstill be notified you are now \"busy\".\n\nBeing \"busy\" implies you are either engaged in conversation with others\non the system, or around but busy doing something else.  In either case,\n\"busy\" implies you would not appreciate interruptions that aren't very\ninportant, especially if they would require a reply.  Those whose messages\nare welcome would already know so.  Don't bother a person who is \"busy\"\nwithout having a reason to do so.  \"busy\" is a good state if you're in a\ndeep conversation with someone, or if you're washing dishes, for example.\nYour blurb should reflect what you're busy with, ideally.\n\nThe default /who target of \"active\" will never list \"busy\" people on the\nassumption that they do not wish to be unduly disturbed.  Idle time will not\ncause the away state to change, but if you become unidle while \"busy\" and\nat least ten minutes idle, you will get a warning message that you are still\nlisted as \"busy\", in case it no longer applies and you forgot about it.\n\nThe /busy command may be abbreviated to /b.\n\nSee also: /blurb, /here, /away, /gone.\n")
    } else if match_keyword(args, "/gone", 2).is_some() || match_keyword(args, "gone", 4).is_some() {
        String::from_str("The /gone command accepts /blurb arguments to set the blurb, and then sets\nyour away status to \"gone\".  Even if you are already \"gone\", others will\nstill be notified you are now \"gone\".\n\nBeing \"gone\" implies you are gone and should not be expected to respond to\nmessages at all until you return, regardless of whether you are attached or\ndetached.  \"gone\" implies you are not having any conversations at all, and\nall messages received will be seen later, much like an answering machine.\n\"gone\" is a good state to use if you're asleep, off to work or class, etc.\nYour blurb should reflect where you went, ideally.  (e.g. \"/gone [-> work]\")\n\nIf you wish to actively talk to certain people but not anyone else in general,\nthen you should use /busy instead.\n\nThe default /who target of \"active\" will never list \"gone\" people on the\nassumption that they are truly gone.  Idle time will not cause the away state\nto change, but if you send a message while \"gone\", you will be warned,\nfor every message you send while \"gone\".\n\nThe /gone command may be abbreviated to /g.\n\nSee also: /blurb, /here, /away, /busy.\n")
    } else if match_keyword(args, "/help", 2).is_some() || match_keyword(args, "help", 4).is_some() {
        String::from_str("The /help command is used to request helpful information about commands or\nconcepts.  For example, for help on the /gone command, you can type either\n\"/help gone\" or \"/help /gone\".  If the slash form for command help is\nused, the command name may be abbreviated in the same way as the actual\ncommand.  Since the minimum abbreviation for /gone is /g, \"/help /g\" is\nsufficient, although \"/help g\" is not.\n")
    } else if match_keyword(args, "/send", 2).is_some() || match_keyword(args, "send", 4).is_some() {
        String::from_str("The /send command is used to redirect your \"default sendlist\".  Simply type\n\"/send <sendlist>\" and <sendlist> becomes the new destination for any\nmessage which does not contain an explicit sendlist, including recognized\nsmileys.  (See \"/help smileys\".)  \"/send off\" will turn off your default\nsendlist completely.  \"/send\" alone will display your current default\nsendlist without changing it.  /send may be abbreviated to /s.\n")
    } else if match_keyword(args, "/bye", 4).is_some() || match_keyword(args, "bye", 3).is_some() {
        String::from_str("The /bye command is used to leave Phoenix completely.  If you sign off, you\nwill be disconnected from the system and unable to receive messages at all.\nYou may wish to consider using the /detach command instead.\n")
    } else if match_keyword(args, "/what", 3).is_some() || match_keyword(args, "what", 4).is_some() {
        String::from_str("The /what command is used to list currently existing discussions.\n")
    } else if match_keyword(args, "/join", 2).is_some() || match_keyword(args, "join", 4).is_some() {
        String::from_str("The /join command is used to join one or more discussions.\n")
    } else if match_keyword(args, "/quit", 2).is_some() || match_keyword(args, "quit", 4).is_some() {
        String::from_str("The /quit command is used to quit one or more discussions.\n")
    } else if match_keyword(args, "/create", 3).is_some() || match_keyword(args, "create", 6).is_some() {
        String::from_str("The /create command is used to create a new discussion.\n")
    } else if match_keyword(args, "/destroy", 4).is_some() || match_keyword(args, "destroy", 7).is_some() {
        String::from_str("The /destroy command is used to destroy one or more discussions.\n")
    } else if match_keyword(args, "/permit", 4).is_some() || match_keyword(args, "permit", 6).is_some() {
        String::from_str("The /permit command is used to permit one or more members to a discussion.\n")
    } else if match_keyword(args, "/depermit", 4).is_some() || match_keyword(args, "depermit", 8).is_some() {
        String::from_str("The /depermit command is used to depermit one or more members from a\ndiscussion.\n")
    } else if match_keyword(args, "/appoint", 4).is_some() || match_keyword(args, "appoint", 7).is_some() {
        String::from_str("The /appoint command is used to appoint one or more moderators to a\ndiscussion.\n")
    } else if match_keyword(args, "/unappoint", 10).is_some() || match_keyword(args, "unappoint", 9).is_some() {
        String::from_str("The /unappoint command is used to unappoint one or more moderators from a\ndiscussion.\n")
    } else if match_keyword(args, "/rename", 7).is_some() || match_keyword(args, "rename", 6).is_some() {
        String::from_str("The /rename command is used to change your name in the system.  There are\ncurrently some bugs with this, so use of /rename is presently discouraged\nuntil those bugs are fixed.\n")
    } else if match_keyword(args, "/clear", 3).is_some() || match_keyword(args, "clear", 5).is_some() {
        String::from_str("The /clear command simply clears the terminal screen.\n\nAlternatively, type Escape then Control-L to clear the screen.\n")
    } else if match_keyword(args, "/unidle", 7).is_some() || match_keyword(args, "unidle", 6).is_some() {
        String::from_str("The /unidle command simply resets your idle time as if you sent a message.\n\nAlternatively, send a line consisting of a single space only.  There is a\nslight difference in that <space><return> is silent if idle under one minute,\nwhile /unidle will report that the idle time was reset.  For both, if the\nidle time was at least one minute, it is reported before being reset.\n\nIn general, when you become unidle, you will receive a report of the previous\nidle time if it exceeded the normal threshold of ten minutes.\n")
    } else if match_keyword(args, "/detach", 4).is_some() || match_keyword(args, "detach", 6).is_some() {
        String::from_str("The /detach command is used to disconnect from Phoenix without signing off.\nYou can still receive messages while detached, to be reviewed later.  When\nthe /detach command is used, others are notified that you intentionally\ndetached.  If any other event causes you to become detached (e.g. network\nfailure), then others are notified that you accidentally detached.\n\nTo reattach to a detached session, simply sign back on with the same account\nand name, and you will be automatically attached.  Currently, all pending\noutput will be output very quickly; local scrollback is highly recommended.\nIf you miss some of the detached output, do NOT press return, but disconnect\ninstead locally.  When you reattach, the same output will be reviewed again.\nOutput is only discarded when it has crossed the network (acknowledgements\nare used) and the user has entered an input line.\n")
    } else if match_keyword(args, "/howmany", 3).is_some() || match_keyword(args, "howmany", 7).is_some() || match_keyword(args, "how", 3).is_some() {
        String::from_str("The /howmany command shows how many users are \"here\", \"away\", \"busy\"\nand \"gone\", how many users are attached and detached, total number of\nusers signed on, and how many discussions are active.\n")
    } else if match_keyword(args, "/why", 4).is_some() || match_keyword(args, "why", 3).is_some() {
        String::from_str("The /why command is pretty self-explanatory. (try it!)\n")
    } else if match_keyword(args, "/date", 3).is_some() || match_keyword(args, "date", 4).is_some() {
        String::from_str("The /date command prints the current date and time like the date(1) command.\n")
    } else if match_keyword(args, "/signal", 3).is_some() || match_keyword(args, "signal", 6).is_some() {
        String::from_str("The /signal command is used to control whether or not to ring the terminal\nbell when incoming messages arrive.  There are separate controls for public\nand private messages.  The default is on for both.\n\nSyntax: /signal [public|private] [on|off]\n")
    } else if match_keyword(args, "smileys", 6).is_some() {
        String::from_str("The following are recognized smileys:\n\n:-)   :-(   :-P   ;-)   :_)   :_(   :)   :(   :P   ;)\n\nWhen a message begins with one of these recognized smileys, either alone or\nfollowed immediately by whitespace, the smiley as assumed to be part of the\nmessage and sent to the default sendlist, instead of attempting to interpret\nthe smiley as an explicit sendlist.  This does not attempt to special-case\nevery type of smiley, but it does attempt to catch the common ones likely\nto be typed reflexively.  Only smileys containing a semicolon or colon are\nan issue here, since a smiley like \"8-)\" will already go to the default.\n\nIn general, any message can be forced to be interpreted as either explicit\nor default sendlist sending by proper use of a space.  If a space leads the\ninput line, it guarantees sending to the default sendlist.  If a space is\nimmediately following a semicolon or colon in what would otherwise be one\nof the recognized smileys, it guarantees the explicit sendlist interpretation.\nIn all cases, a single leading space in the message text will be removed\nif it is present, to allow such control over sending without changing the\nbody of the message.\n\nSince this technique makes a single space alone on a line effectively the\nsame as a blank line, this special case was used instead to reset idle time\nwithout actually sending any message.  (See \"/help unidle\".)\n")
    } else if match_keyword(args, "/set", 4).is_some() || match_keyword(args, "set", 3).is_some() {
        sub_help(args, true)
    } else if match_keyword(args, "/display", 2).is_some() || match_keyword(args, "display", 7).is_some() {
        sub_help(args, false)
    } else if match_keyword(args, "/also", 3).is_some() || match_keyword(args, "also", 4).is_some() {
        String::from_str("The /also command is used to send a copy of the last message to another\nsendlist.\n")
    } else if match_keyword(args, "/oops", 3).is_some() || match_keyword(args, "oops", 4).is_some() {
        String::from_str("The /oops command is used to send an \"oops\" message to the (unintended)\nrecipient of the last message, and to resend the last message to another\nsendlist.  The \"/oops text <message>\" form can be used to change the\ntext of the \"oops\" message.\n")
    } else if !args.is_empty() {
        no_help(args)
    } else {
        String::from_str("Known commands:\n\n/who     /blurb    /create    /permit     /clear     /howmany\n/what    /here     /destroy   /depermit   /unidle    /detach\n/why     /away     /join      /appoint    /date      /bye\n/idle    /busy     /quit      /unappoint  /set\n/help    /gone     /send      /rename     /signal\n\nType \"/help <command>\" for more information about a particular command.\n")
    }
}

} // verus!
