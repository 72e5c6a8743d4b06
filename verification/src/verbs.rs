//! The common commands that every instrument understands.
//!
//! Each is a fixed text that goes to the instrument as any command does,
//! and a word on what becomes of the reply. A function here sends nothing:
//! it says what to send, and leaves it to the caller by which way the
//! command reaches the registry.

use vstd::prelude::*;

use crate::registry::Device;

verus! {

/// A common command, addressed to one instrument.
#[derive(Clone, Copy, Debug)]
pub struct Verb {
    /// The handle of the instrument.
    pub dev: Device,
    /// The text of the command, without a terminator.
    pub text: &'static str,
    /// Whether the reply is read and then thrown away.
    pub discard: bool,
}

/// `Verb`, as contracts see it.
pub struct VerbView {
    pub dev: Device,
    pub text: Seq<char>,
    pub discard: bool,
}

impl View for Verb {
    type V = VerbView;

    open spec fn view(&self) -> VerbView {
        VerbView { dev: self.dev, text: self.text@, discard: self.discard }
    }
}

impl Verb {
    /// Says what becomes of the reply that came back for this command: it
    /// is handed on, or is thrown away where the command says so.
    pub fn reply(&self, text: String) -> (kept: Option<String>)
        ensures
            kept == (if self.discard {
                None
            } else {
                Some(text)
            }),
    {
        if self.discard {
            None
        } else {
            Some(text)
        }
    }
}

/// Clears the instrument's status registers: `*CLS`, to the instrument of `dev`.
/// The reply is read and thrown away.
pub fn clear_status(dev: Device) -> (verb: Verb)
    ensures
        verb@ == (VerbView { dev, text: "*CLS"@, discard: true }),
{
    Verb { dev, text: "*CLS", discard: true }
}

/// Addresses the standard event status enable register: `*ESE`, to the instrument of `dev`.
/// The reply is read and thrown away.
pub fn event_status_enable(dev: Device) -> (verb: Verb)
    ensures
        verb@ == (VerbView { dev, text: "*ESE"@, discard: true }),
{
    Verb { dev, text: "*ESE", discard: true }
}

/// Asks for the standard event status enable register: `*ESE?`, to the instrument of `dev`.
/// The reply is handed back.
pub fn event_status_enable_query(dev: Device) -> (verb: Verb)
    ensures
        verb@ == (VerbView { dev, text: "*ESE?"@, discard: false }),
{
    Verb { dev, text: "*ESE?", discard: false }
}

/// Addresses the standard event status register: `*ESR`, to the instrument of `dev`.
/// The reply is read and thrown away.
pub fn event_status_enable_register(dev: Device) -> (verb: Verb)
    ensures
        verb@ == (VerbView { dev, text: "*ESR"@, discard: true }),
{
    Verb { dev, text: "*ESR", discard: true }
}

/// Asks the instrument to identify itself: `*IDN?`, to the instrument of `dev`.
/// The reply is handed back.
pub fn identify(dev: Device) -> (verb: Verb)
    ensures
        verb@ == (VerbView { dev, text: "*IDN?"@, discard: false }),
{
    Verb { dev, text: "*IDN?", discard: false }
}

/// Asks the instrument to flag the end of its pending operations: `*OPC`, to the instrument of `dev`.
/// The reply is handed back.
pub fn operation_complete_command(dev: Device) -> (verb: Verb)
    ensures
        verb@ == (VerbView { dev, text: "*OPC"@, discard: false }),
{
    Verb { dev, text: "*OPC", discard: false }
}

/// Asks whether the pending operations are complete: `*OPC?`, to the instrument of `dev`.
/// The reply is handed back.
pub fn operation_complete_query(dev: Device) -> (verb: Verb)
    ensures
        verb@ == (VerbView { dev, text: "*OPC?"@, discard: false }),
{
    Verb { dev, text: "*OPC?", discard: false }
}

/// Asks for the options that the instrument is fitted with: `*OPT?`, to the instrument of `dev`.
/// The reply is handed back.
pub fn identify_options_query(dev: Device) -> (verb: Verb)
    ensures
        verb@ == (VerbView { dev, text: "*OPT?"@, discard: false }),
{
    Verb { dev, text: "*OPT?", discard: false }
}

/// Resets the instrument: `*RST`, to the instrument of `dev`.
/// The reply is handed back.
pub fn reset(dev: Device) -> (verb: Verb)
    ensures
        verb@ == (VerbView { dev, text: "*RST"@, discard: false }),
{
    Verb { dev, text: "*RST", discard: false }
}

/// Addresses the service request enable register: `*SRE`, to the instrument of `dev`.
/// The reply is handed back.
pub fn service_frequest_enable(dev: Device) -> (verb: Verb)
    ensures
        verb@ == (VerbView { dev, text: "*SRE"@, discard: false }),
{
    Verb { dev, text: "*SRE", discard: false }
}

/// Asks for the service request enable register: `*SRE?`, to the instrument of `dev`.
/// The reply is handed back.
pub fn service_frequest_enable_query(dev: Device) -> (verb: Verb)
    ensures
        verb@ == (VerbView { dev, text: "*SRE?"@, discard: false }),
{
    Verb { dev, text: "*SRE?", discard: false }
}

/// Asks for the status byte: `*STB?`, to the instrument of `dev`.
/// The reply is handed back.
pub fn status_byte_query(dev: Device) -> (verb: Verb)
    ensures
        verb@ == (VerbView { dev, text: "*STB?"@, discard: false }),
{
    Verb { dev, text: "*STB?", discard: false }
}

/// Asks the instrument to test itself: `*TST?`, to the instrument of `dev`.
/// The reply is handed back.
pub fn self_test(dev: Device) -> (verb: Verb)
    ensures
        verb@ == (VerbView { dev, text: "*TST?"@, discard: false }),
{
    Verb { dev, text: "*TST?", discard: false }
}

/// Asks the instrument to wait for its pending operations: `*WAI`, to the instrument of `dev`.
/// The reply is handed back.
pub fn wait(dev: Device) -> (verb: Verb)
    ensures
        verb@ == (VerbView { dev, text: "*WAI"@, discard: false }),
{
    Verb { dev, text: "*WAI", discard: false }
}

} // verus!
