//! The AT command surface the core asks its driver to send.
//!
//! The core never performs I/O. Whenever a task needs an exchange, it names
//! one of these commands; the driver sends the text over the single
//! in-flight channel and hands the raw response bytes back to the task.

use vstd::prelude::*;

verus! {

/// One AT command exchange the core can request.
#[derive(Clone, Copy, Debug, PartialEq, Eq, Structural)]
pub enum AtCommand {
    /// Turn on verbose registration notifications.
    EnableNotifications,
    /// Query the current registration status.
    QueryRegistration,
    /// Define the default PDP context, protocol type IP, SIM-default APN.
    DefineContext,
    /// Activate the default PDP context.
    ActivateContext,
    /// Deactivate the default PDP context.
    DeactivateContext,
    /// Query the address assigned to the default PDP context.
    QueryAddress,
}

impl AtCommand {
    /// The command text `text` returns.
    pub open spec fn spec_text(self) -> Seq<char> {
        match self {
            AtCommand::EnableNotifications => "AT+CEREG=2"@,
            AtCommand::QueryRegistration => "AT+CEREG?"@,
            AtCommand::DefineContext => "AT+CGDCONT=0,\"IP\""@,
            AtCommand::ActivateContext => "AT+CGACT=1,0"@,
            AtCommand::DeactivateContext => "AT+CGACT=0,0"@,
            AtCommand::QueryAddress => "AT+CGPADDR=0"@,
        }
    }

    /// The command text to send, without trailing CR/LF.
    pub fn text(self) -> (r: &'static str)
        ensures
            r@ == self.spec_text(),
    {
        match self {
            AtCommand::EnableNotifications => "AT+CEREG=2",
            AtCommand::QueryRegistration => "AT+CEREG?",
            AtCommand::DefineContext => "AT+CGDCONT=0,\"IP\"",
            AtCommand::ActivateContext => "AT+CGACT=1,0",
            AtCommand::DeactivateContext => "AT+CGACT=0,0",
            AtCommand::QueryAddress => "AT+CGPADDR=0",
        }
    }
}

} // verus!
