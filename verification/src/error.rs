//! Failures of the machinery that runs a microVM, as opposed to failures of
//! its configuration.

use crate::text::{strip_quotes, without_quotes};
use vstd::prelude::*;
use vstd::string::*;

verus! {

/// A failure inside the virtual machine monitor. Each variant but the last
/// two names what failed and holds the cause as the host reported it.
#[derive(Clone, Debug, PartialEq, Eq)]
pub enum Error {
    /// The legacy devices could not be created.
    CreateLegacyDevice(String),
    /// No handler is registered for a device's events.
    DeviceEventHandlerNotFound,
    /// The secondary event manager could not be created.
    EventManager(String),
    /// The keyboard controller refused a request.
    I8042Error(String),
    /// The kernel image file could not be duplicated.
    KernelFile(String),
    /// The host's KVM interface could not be opened.
    KvmContext(String),
    /// The metrics timer could not be created.
    TimerFd(String),
    /// The virtual machine could not be created.
    Vm(String),
    /// Another failure, described in full by the host.
    Other(String),
}

impl Error {
    /// The text of `message`.
    pub open spec fn message_spec(self) -> Seq<char> {
        match self {
            Error::CreateLegacyDevice(cause) => "CreateLegacyDevice("@ + cause@ + ")"@,
            Error::DeviceEventHandlerNotFound => "DeviceEventHandlerNotFound"@,
            Error::EventManager(cause) => "EventManager("@ + cause@ + ")"@,
            Error::I8042Error(cause) => "I8042Error("@ + cause@ + ")"@,
            Error::KernelFile(cause) => "KernelFile("@ + cause@ + ")"@,
            Error::KvmContext(cause) => "KvmContext("@ + cause@ + ")"@,
            Error::TimerFd(cause) => "TimerFd("@ + cause@ + ")"@,
            Error::Vm(cause) => "Vm("@ + cause@ + ")"@,
            Error::Other(cause) => cause@,
        }
    }

    /// The failure in the form in which it is shown: the name of what failed
    /// and, in brackets, the cause.
    pub fn message(&self) -> (r: String)
        ensures
            r@ == self.message_spec(),
    {
        match self {
            Error::CreateLegacyDevice(cause) => wrapped("CreateLegacyDevice(", cause),
            Error::DeviceEventHandlerNotFound => String::from_str("DeviceEventHandlerNotFound"),
            Error::EventManager(cause) => wrapped("EventManager(", cause),
            Error::I8042Error(cause) => wrapped("I8042Error(", cause),
            Error::KernelFile(cause) => wrapped("KernelFile(", cause),
            Error::KvmContext(cause) => wrapped("KvmContext(", cause),
            Error::TimerFd(cause) => wrapped("TimerFd(", cause),
            Error::Vm(cause) => wrapped("Vm(", cause),
            Error::Other(cause) => cause.clone(),
        }
    }
}

/// `head`, then `cause`, then a closing bracket.
fn wrapped(head: &str, cause: &String) -> (r: String)
    ensures
        r@ == head@ + cause@ + ")"@,
{
    let mut text = String::from_str(head);
    text.append(cause.as_str());
    text.append(")");
    text
}

/// `head` followed by `tail`.
pub fn prefixed(head: &str, tail: &str) -> (r: String)
    ensures
        r@ == head@ + tail@,
{
    let mut text = String::from_str(head);
    text.append(tail);
    text
}

/// `head` followed by `tail` without its double quotes.
pub fn prefixed_unquoted(head: &str, tail: &str) -> (r: String)
    ensures
        r@ == head@ + without_quotes(tail@),
{
    let mut text = String::from_str(head);
    let clean = strip_quotes(tail);
    text.append(clean.as_str());
    text
}

} // verus!
