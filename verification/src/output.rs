//! What is shown to users: the classes of output, the notifications of
//! what others did, and the per-session queue of outputs awaiting
//! acknowledgement.

use vstd::prelude::*;
use vstd::string::StringExecFns;
use crate::name::{unicase_eq, Name};

verus! {

/// Whether a message went to everyone or to a list of recipients.
#[derive(Debug, Clone, Copy, PartialEq, Eq, Structural)]
pub enum MessageType {
    Public,
    Private,
}

/// The broad kinds of output.
#[derive(Debug, Clone, Copy, PartialEq, Eq, Structural)]
pub enum OutputClass {
    UnknownClass,
    TextClass,
    MessageClass,
    NotificationClass,
}

/// A notification of something another user did.
pub enum Notice {
    Entry(Name),
    Exit(Name),
    Transfer(Name),
    Attach(Name),
    Detach(Name, bool),
    Here(Name),
    Away(Name),
    Busy(Name),
    Gone(Name),
    Create { discussion: String, title: String, public: bool, creator: Name },
    Destroy { discussion: String, name: Name },
    Join { discussion: String, name: Name },
    Quit { discussion: String, name: Name },
    Public { discussion: String, name: Name },
    Private { discussion: String, name: Name },
    Permit { discussion: String, public: bool, name: Name, explicit: bool },
    Depermit { discussion: String, public: bool, name: Name, explicit: bool, removed: Option<Name> },
    Appoint { discussion: String, appointer: Name, appointee: Name },
    Unappoint { discussion: String, unappointer: Name, unappointee: Name },
    Rename { old: String, new: String },
}

/// How `who` is named to the user `me`: "you" for `me`, else the name
/// and blurb.
pub open spec fn you_spec(who: Name, me: Name) -> Seq<char> {
    if unicase_eq(who.name@, me.name@) {
        "you"@
    } else {
        who.name_blurb@
    }
}

/// What a notification says, for the user `me`, before its time stamp.
pub open spec fn notice_body(n: Notice, me: Name) -> Seq<char> {
    match n {
        Notice::Entry(w) => w.name_blurb@ + " has entered Phoenix!"@,
        Notice::Exit(w) => w.name_blurb@ + " has left Phoenix!"@,
        Notice::Transfer(w) => w.name_blurb@ + " has transferred to new connection."@,
        Notice::Attach(w) => w.name_blurb@ + " is now attached."@,
        Notice::Detach(w, intentional) => w.name_blurb@ + (if intentional {
            " has intentionally detached."@
        } else {
            " has accidentally detached."@
        }),
        Notice::Here(w) => w.name_blurb@ + " is now here."@,
        Notice::Away(w) => w.name_blurb@ + " is now away."@,
        Notice::Busy(w) => w.name_blurb@ + " is now busy."@,
        Notice::Gone(w) => w.name_blurb@ + " is now gone."@,
        Notice::Create { discussion, title, public, creator } => if public {
            creator.name_blurb@ + " has created discussion "@ + discussion@ + ", \""@ + title@ + "\"."@
        } else {
            creator.name_blurb@ + " has created private discussion "@ + discussion@ + "."@
        },
        Notice::Destroy { discussion, name } => name.name_blurb@ + " has destroyed discussion "@
            + discussion@ + "."@,
        Notice::Join { discussion, name } => name.name_blurb@ + " has joined discussion "@ + discussion@
            + "."@,
        Notice::Quit { discussion, name } => name.name_blurb@ + " has quit discussion "@ + discussion@
            + "."@,
        Notice::Public { discussion, name } => name.name_blurb@ + " has made discussion "@ + discussion@
            + " public."@,
        Notice::Private { discussion, name } => name.name_blurb@ + " has made discussion "@
            + discussion@ + " private."@,
        Notice::Permit { discussion, public, name, explicit } => name.name_blurb@ + (if public {
            if explicit {
                " has repermitted you to discussion "@
            } else {
                " has explicitly permitted you to public discussion "@
            }
        } else if explicit {
            " has repermitted you to private discussion "@
        } else {
            " has permitted you to private discussion "@
        }) + discussion@ + "."@,
        Notice::Depermit { discussion, public, name, explicit, removed } => {
            let private = if public {
                ""@
            } else {
                "private "@
            };
            if !public && explicit {
                name.name_blurb@ + " has explicitly depermitted you from private discussion "@
                    + discussion@ + "."@
            } else {
                match removed {
                    Some(r) => if unicase_eq(r.name@, me.name@) {
                        name.name_blurb@ + " has depermitted and removed you from "@ + private
                            + "discussion "@ + discussion@ + "."@
                    } else {
                        r.name_blurb@ + " has been removed from discussion "@ + discussion@ + "."@
                    },
                    None => name.name_blurb@ + " has depermitted you from "@ + private + "discussion "@
                        + discussion@ + "."@,
                }
            }
        },
        Notice::Appoint { discussion, appointer, appointee } => appointer.name_blurb@ + " has appointed "@
            + you_spec(appointee, me) + " as a moderator of discussion "@ + discussion@ + "."@,
        Notice::Unappoint { discussion, unappointer, unappointee } => unappointer.name_blurb@
            + " has unappointed "@ + you_spec(unappointee, me) + " as a moderator of discussion "@
            + discussion@ + "."@,
        Notice::Rename { old, new } => old@ + " has renamed to "@ + new@ + "."@,
    }
}

/// A notification as shown to `me`, with its time stamp.
pub open spec fn notice_text(n: Notice, me: Name, stamp: Seq<char>) -> Seq<char> {
    "*** "@ + notice_body(n, me) + " ["@ + stamp + "] ***\n"@
}

impl Notice {
    /// What the notification says, for the user `me`, before its time
    /// stamp.
    pub fn body(&self, me: &Name) -> (r: String)
        ensures
            r@ == notice_body(*self, *me),
    {
        match self {
            Notice::Entry(w) => {
                let mut s = String::from_str(w.name_blurb.as_str());
                s.append(" has entered Phoenix!");
                s
            },
            Notice::Exit(w) => {
                let mut s = String::from_str(w.name_blurb.as_str());
                s.append(" has left Phoenix!");
                s
            },
            Notice::Transfer(w) => {
                let mut s = String::from_str(w.name_blurb.as_str());
                s.append(" has transferred to new connection.");
                s
            },
            Notice::Attach(w) => {
                let mut s = String::from_str(w.name_blurb.as_str());
                s.append(" is now attached.");
                s
            },
            Notice::Detach(w, intentional) => {
                let mut s = String::from_str(w.name_blurb.as_str());
                if *intentional {
                    s.append(" has intentionally detached.");
                } else {
                    s.append(" has accidentally detached.");
                }
                s
            },
            Notice::Here(w) => {
                let mut s = String::from_str(w.name_blurb.as_str());
                s.append(" is now here.");
                s
            },
            Notice::Away(w) => {
                let mut s = String::from_str(w.name_blurb.as_str());
                s.append(" is now away.");
                s
            },
            Notice::Busy(w) => {
                let mut s = String::from_str(w.name_blurb.as_str());
                s.append(" is now busy.");
                s
            },
            Notice::Gone(w) => {
                let mut s = String::from_str(w.name_blurb.as_str());
                s.append(" is now gone.");
                s
            },
            Notice::Create { discussion, title, public, creator } => {
                let mut s = String::from_str(creator.name_blurb.as_str());
                if *public {
                    s.append(" has created discussion ");
                    s.append(discussion.as_str());
                    s.append(", \"");
                    s.append(title.as_str());
                    s.append("\".");
                } else {
                    s.append(" has created private discussion ");
                    s.append(discussion.as_str());
                    s.append(".");
                }
                s
            },
            Notice::Destroy { discussion, name } => {
                let mut s = String::from_str(name.name_blurb.as_str());
                s.append(" has destroyed discussion ");
                s.append(discussion.as_str());
                s.append(".");
                s
            },
            Notice::Join { discussion, name } => {
                let mut s = String::from_str(name.name_blurb.as_str());
                s.append(" has joined discussion ");
                s.append(discussion.as_str());
                s.append(".");
                s
            },
            Notice::Quit { discussion, name } => {
                let mut s = String::from_str(name.name_blurb.as_str());
                s.append(" has quit discussion ");
                s.append(discussion.as_str());
                s.append(".");
                s
            },
            Notice::Public { discussion, name } => {
                let mut s = String::from_str(name.name_blurb.as_str());
                s.append(" has made discussion ");
                s.append(discussion.as_str());
                s.append(" public.");
                s
            },
            Notice::Private { discussion, name } => {
                let mut s = String::from_str(name.name_blurb.as_str());
                s.append(" has made discussion ");
                s.append(discussion.as_str());
                s.append(" private.");
                s
            },
            Notice::Permit { discussion, public, name, explicit } => {
                let mut s = String::from_str(name.name_blurb.as_str());
                if *public {
                    if *explicit {
                        s.append(" has repermitted you to discussion ");
                    } else {
                        s.append(" has explicitly permitted you to public discussion ");
                    }
                } else if *explicit {
                    s.append(" has repermitted you to private discussion ");
                } else {
                    s.append(" has permitted you to private discussion ");
                }
                s.append(discussion.as_str());
                s.append(".");
                s
            },
            Notice::Depermit { discussion, public, name, explicit, removed } => {
                let private = if *public {
                    ""
                } else {
                    "private "
                };
                if !*public && *explicit {
                    let mut s = String::from_str(name.name_blurb.as_str());
                    s.append(" has explicitly depermitted you from private discussion ");
                    s.append(discussion.as_str());
                    s.append(".");
                    s
                } else {
                    match removed {
                        Some(r) => {
                            if r.same(me) {
                                let mut s = String::from_str(name.name_blurb.as_str());
                                s.append(" has depermitted and removed you from ");
                                s.append(private);
                                s.append("discussion ");
                                s.append(discussion.as_str());
                                s.append(".");
                                s
                            } else {
                                let mut s = String::from_str(r.name_blurb.as_str());
                                s.append(" has been removed from discussion ");
                                s.append(discussion.as_str());
                                s.append(".");
                                s
                            }
                        },
                        None => {
                            let mut s = String::from_str(name.name_blurb.as_str());
                            s.append(" has depermitted you from ");
                            s.append(private);
                            s.append("discussion ");
                            s.append(discussion.as_str());
                            s.append(".");
                            s
                        },
                    }
                }
            },
            Notice::Appoint { discussion, appointer, appointee } => {
                let mut s = String::from_str(appointer.name_blurb.as_str());
                s.append(" has appointed ");
                s.append(appointee.you(me));
                s.append(" as a moderator of discussion ");
                s.append(discussion.as_str());
                s.append(".");
                s
            },
            Notice::Unappoint { discussion, unappointer, unappointee } => {
                let mut s = String::from_str(unappointer.name_blurb.as_str());
                s.append(" has unappointed ");
                s.append(unappointee.you(me));
                s.append(" as a moderator of discussion ");
                s.append(discussion.as_str());
                s.append(".");
                s
            },
            Notice::Rename { old, new } => {
                let mut s = String::from_str(old.as_str());
                s.append(" has renamed to ");
                s.append(new.as_str());
                s.append(".");
                s
            },
        }
    }

    /// The notification as shown to the user `me`, stamped with `stamp`.
    pub fn text(&self, me: &Name, stamp: &str) -> (r: String)
        ensures
            r@ == notice_text(*self, *me, stamp@),
    {
        let mut s = String::from_str("*** ");
        let body = self.body(me);
        s.append(body.as_str());
        s.append(" [");
        s.append(stamp);
        s.append("] ***\n");
        s
    }
}

} // verus!

verus! {

/// An item of output as queued for a session: plain text, a message, or a
/// notification, with the time it was made (seconds since the epoch).
pub struct Output {
    pub time: i64,
    pub kind: OutputKind,
}

/// The kinds of output.
pub enum OutputKind {
    Text(String),
    Message(MessageType),
    Notice(Notice),
}

impl Output {
    /// The class of the output.
    pub fn class(&self) -> (r: OutputClass)
        ensures
            r == match self.kind {
                OutputKind::Text(_) => OutputClass::TextClass,
                OutputKind::Message(_) => OutputClass::MessageClass,
                OutputKind::Notice(_) => OutputClass::NotificationClass,
            },
    {
        match &self.kind {
            OutputKind::Text(_) => OutputClass::TextClass,
            OutputKind::Message(_) => OutputClass::MessageClass,
            OutputKind::Notice(_) => OutputClass::NotificationClass,
        }
    }
}

/// How many queued outputs to send after one was enqueued.
#[derive(Debug, Clone, Copy, PartialEq, Eq, Structural)]
pub enum SendMode {
    /// None: the session is detached, or earlier output is still
    /// unacknowledged.
    Nothing,
    /// The new output alone.
    One,
    /// Everything not yet sent.
    All,
}

/// A session's queue of outputs, each known by an identifier, with how
/// many have been sent and how many of those the client acknowledged.
pub struct OutputStream {
    pub queue: Vec<u64>,
    pub acknowledged: usize,
    pub sent: usize,
}

/// The mathematical state of an output stream.
pub ghost struct OutputStreamView {
    pub queue: Seq<u64>,
    pub acknowledged: nat,
    pub sent: nat,
}

impl View for OutputStream {
    type V = OutputStreamView;

    open spec fn view(&self) -> OutputStreamView {
        OutputStreamView {
            queue: self.queue@,
            acknowledged: self.acknowledged as nat,
            sent: self.sent as nat,
        }
    }
}

impl OutputStreamView {
    /// Acknowledged outputs were sent, and sent outputs are queued.
    pub open spec fn inv(self) -> bool {
        self.acknowledged <= self.sent <= self.queue.len()
    }
}

/// Acknowledging the oldest unacknowledged output.
pub open spec fn acknowledge_spec(s: OutputStreamView) -> OutputStreamView {
    if s.acknowledged < s.sent {
        OutputStreamView { acknowledged: s.acknowledged + 1, ..s }
    } else {
        s
    }
}

/// Dropping the acknowledged outputs from the front of the queue (the
/// sent count wraps like the atomic counter it models).
pub open spec fn dequeue_spec(s: OutputStreamView) -> OutputStreamView {
    if s.acknowledged > 0 {
        let n = if s.acknowledged <= s.queue.len() {
            s.acknowledged
        } else {
            s.queue.len()
        };
        OutputStreamView {
            queue: s.queue.skip(n as int),
            acknowledged: (s.acknowledged - n) as nat,
            sent: if s.sent >= n {
                (s.sent - n) as nat
            } else {
                (s.sent + usize::MAX + 1 - n) as nat
            },
        }
    } else {
        s
    }
}

/// The next output to send, if any is unsent.
pub open spec fn send_next_spec(s: OutputStreamView) -> (OutputStreamView, Option<u64>) {
    if s.sent < s.queue.len() {
        (OutputStreamView { sent: s.sent + 1, ..s }, Some(s.queue[s.sent as int]))
    } else {
        (s, None)
    }
}

/// What is sent after an output is enqueued: everything when output is
/// being acknowledged, else the new output if it is alone in the queue.
pub open spec fn send_mode_spec(attached: bool, acknowledge: bool, len: nat) -> SendMode {
    if !attached {
        SendMode::Nothing
    } else if acknowledge {
        SendMode::All
    } else if len == 1 {
        SendMode::One
    } else {
        SendMode::Nothing
    }
}

impl OutputStream {
    /// An empty stream.
    pub fn new() -> (r: OutputStream)
        ensures
            r@.queue == Seq::<u64>::empty(),
            r@.acknowledged == 0,
            r@.sent == 0,
    {
        OutputStream { queue: Vec::new(), acknowledged: 0, sent: 0 }
    }

    /// Counts one more sent output as acknowledged.
    pub fn acknowledge(&mut self)
        ensures
            final(self)@ == acknowledge_spec(old(self)@),
    {
        if self.acknowledged < self.sent {
            self.acknowledged = self.acknowledged + 1;
        }
    }

    /// Starts over on a new connection: nothing counts as sent (the
    /// caller then sends while output is acknowledged).
    pub fn attach(&mut self)
        ensures
            final(self)@ == (OutputStreamView { acknowledged: 0, sent: 0, ..old(self)@ }),
    {
        self.sent = 0;
        self.acknowledged = 0;
    }

    /// Queues an output; says what to send now.
    pub fn enqueue(&mut self, id: u64, attached: bool, acknowledge: bool) -> (r: SendMode)
        ensures
            final(self)@ == (OutputStreamView { queue: old(self)@.queue.push(id), ..old(self)@ }),
            r == send_mode_spec(attached, acknowledge, final(self)@.queue.len()),
    {
        self.queue.push(id);
        if !attached {
            SendMode::Nothing
        } else if acknowledge {
            SendMode::All
        } else if self.queue.len() == 1 {
            SendMode::One
        } else {
            SendMode::Nothing
        }
    }

    /// Removes every queue entry of an output.
    pub fn unenqueue(&mut self, id: u64)
        ensures
            final(self)@ == (OutputStreamView {
                queue: old(self)@.queue.filter(|x: u64| x != id),
                ..old(self)@
            }),
    {
        let mut kept: Vec<u64> = Vec::new();
        let mut i: usize = 0;
        while i < self.queue.len()
            invariant
                i <= self.queue.len(),
                self.queue@ == old(self).queue@,
                kept@ == self.queue@.take(i as int).filter(|x: u64| x != id),
            decreases self.queue.len() - i,
        {
            let x = self.queue[i];
            proof {
                let t = self.queue@.take(i + 1);
                assert(t.drop_last() =~= self.queue@.take(i as int));
                reveal(Seq::filter);
                assert(self.queue@.take(i as int).push(x) =~= t);
            }
            if x != id {
                kept.push(x);
            }
            i += 1;
        }
        proof {
            assert(self.queue@.take(self.queue.len() as int) =~= self.queue@);
        }
        self.queue = kept;
    }

    /// Drops the acknowledged outputs from the front of the queue.
    pub fn dequeue(&mut self)
        ensures
            final(self)@ == dequeue_spec(old(self)@),
    {
        if self.acknowledged > 0 {
            let n = if self.acknowledged <= self.queue.len() {
                self.acknowledged
            } else {
                self.queue.len()
            };
            let mut rest: Vec<u64> = Vec::new();
            let mut i: usize = n;
            while i < self.queue.len()
                invariant
                    n <= i <= self.queue.len(),
                    self.queue@ == old(self).queue@,
                    rest@ == self.queue@.subrange(n as int, i as int),
                decreases self.queue.len() - i,
            {
                rest.push(self.queue[i]);
                i += 1;
            }
            proof {
                assert(rest@ =~= old(self).queue@.skip(n as int));
            }
            self.queue = rest;
            self.acknowledged = self.acknowledged - n;
            self.sent = self.sent.wrapping_sub(n);
        }
    }

    /// Takes the next output to send, counting it as sent; `None` when
    /// everything was sent (the caller then redraws the input line).
    pub fn send_next(&mut self) -> (r: Option<u64>)
        ensures
            (final(self)@, r) == send_next_spec(old(self)@),
    {
        if self.sent < self.queue.len() {
            let id = self.queue[self.sent];
            self.sent = self.sent + 1;
            Some(id)
        } else {
            None
        }
    }
}

/// Every operation of an output stream but `unenqueue` keeps acknowledged
/// outputs among the sent ones and sent outputs in the queue.
pub proof fn lemma_output_stream_invariant(s: OutputStreamView, id: u64)
    requires
        s.inv(),
    ensures
        acknowledge_spec(s).inv(),
        dequeue_spec(s).inv(),
        send_next_spec(s).0.inv(),
        (OutputStreamView { queue: s.queue.push(id), ..s }).inv(),
        (OutputStreamView { acknowledged: 0, sent: 0, ..s }).inv(),
{
}

} // verus!
