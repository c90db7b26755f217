//! The kinds of scheduled events and of output.

use vstd::prelude::*;
use crate::output::{MessageType, OutputClass};

verus! {

/// The kinds of scheduled server events.
#[derive(Debug, Clone, Copy, PartialEq, Eq, Structural)]
pub enum EventType {
    UnknownEvent,
    ShutdownEvent,
    RestartEvent,
    LoginTimeoutEvent,
}

/// The kinds of output a session receives.
#[derive(Debug, Clone, Copy, PartialEq, Eq, Structural)]
pub enum OutputType {
    UnknownOutput,
    TextOutput,
    PublicMessage,
    PrivateMessage,
    EntryOutput,
    ExitOutput,
    TransferOutput,
    AttachOutput,
    DetachOutput,
    HereOutput,
    AwayOutput,
    BusyOutput,
    GoneOutput,
    CreateOutput,
    DestroyOutput,
    JoinOutput,
    QuitOutput,
    PublicOutput,
    PrivateOutput,
    PermitOutput,
    DepermitOutput,
    AppointOutput,
    UnappointOutput,
    RenameOutput,
}

/// The class of each kind of output: text, messages, and notifications of
/// what others did.
pub open spec fn output_class_spec(t: OutputType) -> OutputClass {
    match t {
        OutputType::UnknownOutput => OutputClass::UnknownClass,
        OutputType::TextOutput => OutputClass::TextClass,
        OutputType::PublicMessage | OutputType::PrivateMessage => OutputClass::MessageClass,
        _ => OutputClass::NotificationClass,
    }
}

/// The class of a kind of output (see `output_class_spec`).
pub fn output_class(t: OutputType) -> (r: OutputClass)
    ensures
        r == output_class_spec(t),
{
    match t {
        OutputType::UnknownOutput => OutputClass::UnknownClass,
        OutputType::TextOutput => OutputClass::TextClass,
        OutputType::PublicMessage | OutputType::PrivateMessage => OutputClass::MessageClass,
        _ => OutputClass::NotificationClass,
    }
}

/// The output type of a message of the given kind.
pub fn message_output_type(kind: MessageType) -> (r: OutputType)
    ensures
        r == (match kind {
            MessageType::Public => OutputType::PublicMessage,
            MessageType::Private => OutputType::PrivateMessage,
        }),
{
    match kind {
        MessageType::Public => OutputType::PublicMessage,
        MessageType::Private => OutputType::PrivateMessage,
    }
}

} // verus!
