//! PDP (packet data) context activation: the CGPADDR response grammar, the
//! OK/ERROR token scans, and the activation procedure as a state machine.
//!
//! The activation procedure is a deterministic sequence: settle,
//! query the address and return it if the context is already active, else
//! define and activate the context with their settle delays, one non-looping
//! backoff on an explicit error, and a final address query. The machine asks
//! its driver for one action at a time — a timer wait or an AT exchange —
//! and digests the event the driver reports back.

use vstd::prelude::*;
use vstd::utf8::valid_utf8;
use crate::command::AtCommand;
use crate::error::Error;
use crate::scan::{
    contains_token, decimal_value, digit_run_end, find_byte, find_token, first_byte_from,
    first_match_from, has_token, lemma_find_is_first, lemma_first_byte_props, parse_u8_run,
    utf8_ok,
};

verus! {

/// An IPv4 address as four octets, most significant first.
#[derive(Clone, Copy, Debug, PartialEq, Eq, Structural)]
pub struct Ipv4Address(pub u8, pub u8, pub u8, pub u8);

impl Ipv4Address {
    /// The address `a.b.c.d`.
    pub fn new(a: u8, b: u8, c: u8, d: u8) -> (r: Self)
        ensures
            r == Ipv4Address(a, b, c, d),
    {
        Ipv4Address(a, b, c, d)
    }
}

/// PDP context status, as published for consumers awaiting connectivity.
#[derive(Clone, Copy, Debug, PartialEq, Eq, Structural)]
pub enum PdpStatus {
    /// Context is deactivated
    Deactivated,
    /// Context is activated with an IP address
    Activated { ip: Ipv4Address },
}

/// The meaning of dotted-decimal address text: exactly four dot-separated
/// decimal octets, each a nonempty digit run of value at most 255, with
/// nothing before the first or after the fourth.
pub open spec fn ipv4_of(s: Seq<u8>) -> Option<Ipv4Address> {
    let e1 = digit_run_end(s, 0);
    let p2 = e1 + 1;
    let e2 = digit_run_end(s, p2);
    let p3 = e2 + 1;
    let e3 = digit_run_end(s, p3);
    let p4 = e3 + 1;
    let e4 = digit_run_end(s, p4);
    if e1 == 0 || decimal_value(s, 0, e1) > 255 || e1 >= s.len() || s[e1] != 46 {
        None
    } else if e2 == p2 || decimal_value(s, p2, e2) > 255 || e2 >= s.len() || s[e2] != 46 {
        None
    } else if e3 == p3 || decimal_value(s, p3, e3) > 255 || e3 >= s.len() || s[e3] != 46 {
        None
    } else if e4 == p4 || decimal_value(s, p4, e4) > 255 || e4 != s.len() {
        None
    } else {
        Some(
            Ipv4Address(
                decimal_value(s, 0, e1) as u8,
                decimal_value(s, p2, e2) as u8,
                decimal_value(s, p3, e3) as u8,
                decimal_value(s, p4, e4) as u8,
            ),
        )
    }
}

/// Parse dotted-decimal IPv4 address text.
pub fn parse_ipv4(s: &[u8]) -> (r: Option<Ipv4Address>)
    ensures
        r == ipv4_of(s@),
{
    let n = s.len();
    let (v1, e1) = match parse_u8_run(s, 0) {
        None => {
            return None;
        },
        Some(p) => p,
    };
    if e1 >= n || s[e1] != 46 {
        return None;
    }
    let (v2, e2) = match parse_u8_run(s, e1 + 1) {
        None => {
            return None;
        },
        Some(p) => p,
    };
    if e2 >= n || s[e2] != 46 {
        return None;
    }
    let (v3, e3) = match parse_u8_run(s, e2 + 1) {
        None => {
            return None;
        },
        Some(p) => p,
    };
    if e3 >= n || s[e3] != 46 {
        return None;
    }
    let (v4, e4) = match parse_u8_run(s, e3 + 1) {
        None => {
            return None;
        },
        Some(p) => p,
    };
    if e4 != n {
        return None;
    }
    Some(Ipv4Address::new(v1, v2, v3, v4))
}

/// The marker bytes "+CGPADDR:" that introduce an address response.
pub open spec fn cgpaddr_marker() -> Seq<u8> {
    seq![43u8, 67u8, 71u8, 80u8, 65u8, 68u8, 68u8, 82u8, 58u8]
}

/// The marker bytes "+CGPADDR:".
fn cgpaddr_marker_bytes() -> (r: Vec<u8>)
    ensures
        r@ == cgpaddr_marker(),
{
    let mut m: Vec<u8> = Vec::new();
    m.push(43);
    m.push(67);
    m.push(71);
    m.push(80);
    m.push(65);
    m.push(68);
    m.push(68);
    m.push(82);
    m.push(58);
    proof {
        assert(m@ =~= cgpaddr_marker());
    }
    m
}

/// The meaning of an address-query response: after the first "+CGPADDR:"
/// marker, the first quoted substring read as a dotted-decimal address.
/// A missing marker, missing quotes, bytes that are not valid text, or
/// address text that is not exactly four octets parse to nothing.
pub open spec fn cgpaddr_ip_of(s: Seq<u8>) -> Option<Ipv4Address> {
    if !valid_utf8(s) {
        None
    } else {
        match first_match_from(s, cgpaddr_marker(), 0) {
            None => None,
            Some(m) => match first_byte_from(s, 34, m + cgpaddr_marker().len()) {
                None => None,
                Some(q1) => match first_byte_from(s, 34, q1 + 1) {
                    None => None,
                    Some(q2) => ipv4_of(s.subrange(q1 + 1, q2)),
                },
            },
        }
    }
}

/// Parse a +CGPADDR response to the address it reports.
pub fn parse_cgpaddr_response(response: &[u8]) -> (r: Option<Ipv4Address>)
    ensures
        r == cgpaddr_ip_of(response@),
{
    if !utf8_ok(response) {
        return None;
    }
    let marker = cgpaddr_marker_bytes();
    let m = match find_token(response, marker.as_slice()) {
        None => {
            return None;
        },
        Some(m) => m,
    };
    let n = response.len();
    proof {
        lemma_find_is_first(response@, cgpaddr_marker(), 0);
        assert(cgpaddr_marker().len() == 9);
        assert(m + 9 <= n);
    }
    let q1 = match find_byte(response, 34, m + 9) {
        None => {
            return None;
        },
        Some(q) => q,
    };
    proof {
        lemma_first_byte_props(response@, 34, m + 9);
    }
    let q2 = match find_byte(response, 34, q1 + 1) {
        None => {
            return None;
        },
        Some(q) => q,
    };
    proof {
        lemma_first_byte_props(response@, 34, q1 + 1);
    }
    let quoted = vstd::slice::slice_subrange(response, q1 + 1, q2);
    parse_ipv4(quoted)
}

/// The token bytes "OK".
pub open spec fn ok_token() -> Seq<u8> {
    seq![79u8, 75u8]
}

/// The token bytes "ERROR".
pub open spec fn error_token() -> Seq<u8> {
    seq![69u8, 82u8, 82u8, 79u8, 82u8]
}

/// The response is readable text containing the affirmative "OK" token.
pub open spec fn has_ok_token(s: Seq<u8>) -> bool {
    valid_utf8(s) && contains_token(s, ok_token())
}

/// The response is readable text containing the explicit "ERROR" token.
pub open spec fn has_error_token(s: Seq<u8>) -> bool {
    valid_utf8(s) && contains_token(s, error_token())
}

/// Whether a response carries the affirmative "OK" token.
pub fn response_has_ok(response: &[u8]) -> (r: bool)
    ensures
        r == has_ok_token(response@),
{
    if !utf8_ok(response) {
        return false;
    }
    let mut token: Vec<u8> = Vec::new();
    token.push(79);
    token.push(75);
    proof {
        assert(token@ =~= ok_token());
    }
    has_token(response, token.as_slice())
}

/// Whether a response carries the explicit "ERROR" token.
pub fn response_has_error(response: &[u8]) -> (r: bool)
    ensures
        r == has_error_token(response@),
{
    if !utf8_ok(response) {
        return false;
    }
    let mut token: Vec<u8> = Vec::new();
    token.push(69);
    token.push(82);
    token.push(82);
    token.push(79);
    token.push(82);
    proof {
        assert(token@ =~= error_token());
    }
    has_token(response, token.as_slice())
}

/// Judge the response to a command that must acknowledge: success exactly
/// when the response carries the "OK" token.
pub fn at_command_ok(response: &[u8]) -> (r: Result<(), Error>)
    ensures
        r == if has_ok_token(response@) {
            Result::<(), Error>::Ok(())
        } else {
            Result::<(), Error>::Err(Error::AtCommand)
        },
{
    if response_has_ok(response) {
        Ok(())
    } else {
        Err(Error::AtCommand)
    }
}

/// Judge the response to the context-deactivation command: success exactly
/// when the response carries the affirmative "OK" token.
pub fn deactivate_result(response: &[u8]) -> (r: Result<(), Error>)
    ensures
        r == if has_ok_token(response@) {
            Result::<(), Error>::Ok(())
        } else {
            Result::<(), Error>::Err(Error::PdpActivation)
        },
{
    if response_has_ok(response) {
        Ok(())
    } else {
        Err(Error::PdpActivation)
    }
}

/// The settle delays of the activation procedure, in milliseconds. They
/// absorb modem-side asynchrony and are load-bearing for the original
/// hardware pairing, so they are parameters rather than hard constants.
#[derive(Clone, Copy, Debug, PartialEq, Eq, Structural)]
pub struct ActivationDelays {
    /// Settle after invocation, before the first address query.
    pub initial_ms: u64,
    /// Settle after the context-definition command.
    pub define_ms: u64,
    /// Settle after the context-activation command.
    pub activate_ms: u64,
    /// One-shot backoff after an explicit activation error.
    pub backoff_ms: u64,
}

/// Default settle after invocation, in milliseconds.
pub const DEFAULT_INITIAL_SETTLE_MS: u64 = 1000;

/// Default settle after the context-definition command, in milliseconds.
pub const DEFAULT_DEFINE_SETTLE_MS: u64 = 100;

/// Default settle after the context-activation command, in milliseconds.
pub const DEFAULT_ACTIVATE_SETTLE_MS: u64 = 1000;

/// Default backoff after an explicit activation error, in milliseconds.
pub const DEFAULT_BACKOFF_MS: u64 = 2000;

/// The default settle delays.
pub open spec fn default_delays() -> ActivationDelays {
    ActivationDelays {
        initial_ms: DEFAULT_INITIAL_SETTLE_MS,
        define_ms: DEFAULT_DEFINE_SETTLE_MS,
        activate_ms: DEFAULT_ACTIVATE_SETTLE_MS,
        backoff_ms: DEFAULT_BACKOFF_MS,
    }
}

impl ActivationDelays {
    /// The default delays.
    pub fn defaults() -> (d: Self)
        ensures
            d == default_delays(),
    {
        ActivationDelays {
            initial_ms: DEFAULT_INITIAL_SETTLE_MS,
            define_ms: DEFAULT_DEFINE_SETTLE_MS,
            activate_ms: DEFAULT_ACTIVATE_SETTLE_MS,
            backoff_ms: DEFAULT_BACKOFF_MS,
        }
    }
}

/// Where the activation procedure stands; each phase names the one action
/// the driver must perform next.
#[derive(Clone, Copy, Debug)]
pub enum ActivationPhase {
    /// Waiting out the initial settle period.
    InitialSettle,
    /// The first address query goes out next; an address already present
    /// means the context is auto-activated and the procedure succeeds
    /// without sending any context command.
    InitialQuery,
    /// The context-definition command goes out next.
    Defining,
    /// Waiting out the settle period after the definition command.
    DefineSettle,
    /// The context-activation command goes out next.
    Activating,
    /// Waiting out the settle period after the activation command,
    /// remembering whether the response carried an explicit error.
    ActivateSettle {
        /// The activation response carried the "ERROR" token.
        error_seen: bool,
    },
    /// Waiting out the one-shot backoff after an explicit error.
    Backoff,
    /// The address query after the backoff goes out next.
    BackoffQuery,
    /// The final address query goes out next.
    FinalQuery,
    /// The procedure is complete with this outcome.
    Finished {
        /// The address on success, activation failure otherwise.
        outcome: Result<Ipv4Address, Error>,
    },
}

/// What the activation machine asks of its driver next.
#[derive(Clone, Copy, Debug, PartialEq, Eq, Structural)]
pub enum ActivationAction {
    /// Sleep for `ms` milliseconds, then report the timer elapsed.
    Wait { ms: u64 },
    /// Exchange the command, then hand back the response bytes.
    Send { command: AtCommand },
    /// The procedure succeeded with this address.
    Succeed { ip: Ipv4Address },
    /// The procedure exhausted all steps without an address.
    Fail,
}

/// Phase reached when the waited-for settle period elapses.
pub open spec fn phase_after_timer(p: ActivationPhase) -> ActivationPhase {
    match p {
        ActivationPhase::InitialSettle => ActivationPhase::InitialQuery,
        ActivationPhase::DefineSettle => ActivationPhase::Activating,
        ActivationPhase::ActivateSettle { error_seen } => if error_seen {
            ActivationPhase::Backoff
        } else {
            ActivationPhase::FinalQuery
        },
        ActivationPhase::Backoff => ActivationPhase::BackoffQuery,
        _ => p,
    }
}

/// Phase reached when the response to the sent command arrives. The
/// definition response is only awaited, not read; the activation response
/// is scanned for the explicit error token; an address query response is
/// parsed, and on the last queries decides the outcome.
pub open spec fn phase_after_response(p: ActivationPhase, response: Seq<u8>) -> ActivationPhase {
    match p {
        ActivationPhase::InitialQuery => match cgpaddr_ip_of(response) {
            Some(ip) => ActivationPhase::Finished { outcome: Ok(ip) },
            None => ActivationPhase::Defining,
        },
        ActivationPhase::Defining => ActivationPhase::DefineSettle,
        ActivationPhase::Activating => ActivationPhase::ActivateSettle {
            error_seen: has_error_token(response),
        },
        ActivationPhase::BackoffQuery => match cgpaddr_ip_of(response) {
            Some(ip) => ActivationPhase::Finished { outcome: Ok(ip) },
            None => ActivationPhase::Finished { outcome: Err(Error::PdpActivation) },
        },
        ActivationPhase::FinalQuery => match cgpaddr_ip_of(response) {
            Some(ip) => ActivationPhase::Finished { outcome: Ok(ip) },
            None => ActivationPhase::Finished { outcome: Err(Error::PdpActivation) },
        },
        _ => p,
    }
}

/// The PDP activation procedure, driven one action at a time.
pub struct PdpActivator {
    phase: ActivationPhase,
    delays: ActivationDelays,
}

impl PdpActivator {
    /// Where the procedure stands.
    pub closed spec fn phase(self) -> ActivationPhase {
        self.phase
    }

    /// The settle delays in force.
    pub closed spec fn delays(self) -> ActivationDelays {
        self.delays
    }

    /// The action the driver must perform next.
    pub open spec fn spec_next_action(self) -> ActivationAction {
        match self.phase() {
            ActivationPhase::InitialSettle => ActivationAction::Wait {
                ms: self.delays().initial_ms,
            },
            ActivationPhase::InitialQuery => ActivationAction::Send {
                command: AtCommand::QueryAddress,
            },
            ActivationPhase::Defining => ActivationAction::Send {
                command: AtCommand::DefineContext,
            },
            ActivationPhase::DefineSettle => ActivationAction::Wait {
                ms: self.delays().define_ms,
            },
            ActivationPhase::Activating => ActivationAction::Send {
                command: AtCommand::ActivateContext,
            },
            ActivationPhase::ActivateSettle { error_seen } => ActivationAction::Wait {
                ms: self.delays().activate_ms,
            },
            ActivationPhase::Backoff => ActivationAction::Wait { ms: self.delays().backoff_ms },
            ActivationPhase::BackoffQuery => ActivationAction::Send {
                command: AtCommand::QueryAddress,
            },
            ActivationPhase::FinalQuery => ActivationAction::Send {
                command: AtCommand::QueryAddress,
            },
            ActivationPhase::Finished { outcome } => match outcome {
                Ok(ip) => ActivationAction::Succeed { ip },
                Err(_) => ActivationAction::Fail,
            },
        }
    }

    /// A fresh procedure with the given delays, at the initial settle.
    pub fn new(delays: ActivationDelays) -> (a: Self)
        ensures
            a.phase() is InitialSettle,
            a.delays() == delays,
    {
        PdpActivator { phase: ActivationPhase::InitialSettle, delays }
    }

    /// The action the driver must perform next.
    pub fn next_action(&self) -> (a: ActivationAction)
        ensures
            a == self.spec_next_action(),
    {
        match self.phase {
            ActivationPhase::InitialSettle => ActivationAction::Wait {
                ms: self.delays.initial_ms,
            },
            ActivationPhase::InitialQuery => ActivationAction::Send {
                command: AtCommand::QueryAddress,
            },
            ActivationPhase::Defining => ActivationAction::Send {
                command: AtCommand::DefineContext,
            },
            ActivationPhase::DefineSettle => ActivationAction::Wait {
                ms: self.delays.define_ms,
            },
            ActivationPhase::Activating => ActivationAction::Send {
                command: AtCommand::ActivateContext,
            },
            ActivationPhase::ActivateSettle { error_seen: _ } => ActivationAction::Wait {
                ms: self.delays.activate_ms,
            },
            ActivationPhase::Backoff => ActivationAction::Wait { ms: self.delays.backoff_ms },
            ActivationPhase::BackoffQuery => ActivationAction::Send {
                command: AtCommand::QueryAddress,
            },
            ActivationPhase::FinalQuery => ActivationAction::Send {
                command: AtCommand::QueryAddress,
            },
            ActivationPhase::Finished { outcome } => match outcome {
                Ok(ip) => ActivationAction::Succeed { ip },
                Err(_) => ActivationAction::Fail,
            },
        }
    }

    /// The waited-for settle period has elapsed.
    pub fn on_timer(&mut self)
        requires
            old(self).spec_next_action() is Wait,
        ensures
            final(self).phase() == phase_after_timer(old(self).phase()),
            final(self).delays() == old(self).delays(),
    {
        match self.phase {
            ActivationPhase::InitialSettle => {
                self.phase = ActivationPhase::InitialQuery;
            },
            ActivationPhase::DefineSettle => {
                self.phase = ActivationPhase::Activating;
            },
            ActivationPhase::ActivateSettle { error_seen } => {
                if error_seen {
                    self.phase = ActivationPhase::Backoff;
                } else {
                    self.phase = ActivationPhase::FinalQuery;
                }
            },
            _ => {
                self.phase = ActivationPhase::BackoffQuery;
            },
        }
    }

    /// The response to the sent command has arrived.
    pub fn on_response(&mut self, response: &[u8])
        requires
            old(self).spec_next_action() is Send,
        ensures
            final(self).phase() == phase_after_response(old(self).phase(), response@),
            final(self).delays() == old(self).delays(),
    {
        match self.phase {
            ActivationPhase::InitialQuery => {
                match parse_cgpaddr_response(response) {
                    Some(ip) => {
                        self.phase = ActivationPhase::Finished { outcome: Ok(ip) };
                    },
                    None => {
                        self.phase = ActivationPhase::Defining;
                    },
                }
            },
            ActivationPhase::Defining => {
                self.phase = ActivationPhase::DefineSettle;
            },
            ActivationPhase::Activating => {
                self.phase = ActivationPhase::ActivateSettle {
                    error_seen: response_has_error(response),
                };
            },
            _ => {
                match parse_cgpaddr_response(response) {
                    Some(ip) => {
                        self.phase = ActivationPhase::Finished { outcome: Ok(ip) };
                    },
                    None => {
                        self.phase = ActivationPhase::Finished {
                            outcome: Err(Error::PdpActivation),
                        };
                    },
                }
            },
        }
    }
}

} // verus!
