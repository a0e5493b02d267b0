//! Network registration: the CEREG response grammar, the status model, and
//! the deduplicating registration monitor with its long-running task.

use vstd::prelude::*;
use vstd::utf8::valid_utf8;
use crate::command::AtCommand;
use crate::scan::{
    decimal_value, digit_run_end, find_byte, find_token, first_byte_from, first_match_from,
    lemma_find_is_first, lemma_first_byte_props, lemma_no_match_no_find, match_at, parse_u8_run,
    skip_whitespace, skip_ws_from, utf8_ok,
};
use crate::signal::Signal;

verus! {

/// Network registration status reported in +CEREG responses.
#[derive(Clone, Copy, Debug, PartialEq, Eq, Structural)]
pub enum RegistrationStatus {
    /// Not registered, and not currently searching for a network
    NotRegistered,
    /// Registered, home network
    RegisteredHome,
    /// Not registered, currently searching for a network
    Searching,
    /// Registration denied
    Denied,
    /// Unknown (e.g., out of range)
    Unknown,
    /// Registered, roaming
    RegisteredRoaming,
}

/// The status a 3GPP CEREG numeric code stands for: 0, 1, 2, 3 and 5 have
/// their names; any other code is Unknown.
pub open spec fn status_from_code(code: u8) -> RegistrationStatus {
    if code == 0 {
        RegistrationStatus::NotRegistered
    } else if code == 1 {
        RegistrationStatus::RegisteredHome
    } else if code == 2 {
        RegistrationStatus::Searching
    } else if code == 3 {
        RegistrationStatus::Denied
    } else if code == 5 {
        RegistrationStatus::RegisteredRoaming
    } else {
        RegistrationStatus::Unknown
    }
}

impl RegistrationStatus {
    /// Map a CEREG numeric code to its status.
    pub fn from_u8(val: u8) -> (r: Self)
        ensures
            r == status_from_code(val),
    {
        match val {
            0 => Self::NotRegistered,
            1 => Self::RegisteredHome,
            2 => Self::Searching,
            3 => Self::Denied,
            5 => Self::RegisteredRoaming,
            _ => Self::Unknown,
        }
    }

    /// Registered on the home network or roaming.
    pub open spec fn spec_is_registered(self) -> bool {
        self == RegistrationStatus::RegisteredHome || self == RegistrationStatus::RegisteredRoaming
    }

    /// Whether this status represents a successful network registration.
    pub fn is_registered(self) -> (r: bool)
        ensures
            r == self.spec_is_registered(),
    {
        match self {
            Self::RegisteredHome => true,
            Self::RegisteredRoaming => true,
            _ => false,
        }
    }

    /// The description `as_str` returns.
    pub open spec fn spec_as_str(self) -> Seq<char> {
        match self {
            RegistrationStatus::NotRegistered => "Not registered"@,
            RegistrationStatus::RegisteredHome => "Registered (home network)"@,
            RegistrationStatus::Searching => "Searching..."@,
            RegistrationStatus::Denied => "Registration denied"@,
            RegistrationStatus::Unknown => "Unknown"@,
            RegistrationStatus::RegisteredRoaming => "Registered (roaming)"@,
        }
    }

    /// A human-readable description of the status.
    pub fn as_str(self) -> (r: &'static str)
        ensures
            r@ == self.spec_as_str(),
    {
        match self {
            Self::NotRegistered => "Not registered",
            Self::RegisteredHome => "Registered (home network)",
            Self::Searching => "Searching...",
            Self::Denied => "Registration denied",
            Self::Unknown => "Unknown",
            Self::RegisteredRoaming => "Registered (roaming)",
        }
    }
}

/// The marker bytes "+CEREG:" that introduce a registration response.
pub open spec fn cereg_marker() -> Seq<u8> {
    seq![43u8, 67u8, 69u8, 82u8, 69u8, 71u8, 58u8]
}

/// The marker bytes "+CEREG:".
fn cereg_marker_bytes() -> (r: Vec<u8>)
    ensures
        r@ == cereg_marker(),
{
    let mut m: Vec<u8> = Vec::new();
    m.push(43);
    m.push(67);
    m.push(69);
    m.push(82);
    m.push(69);
    m.push(71);
    m.push(58);
    proof {
        assert(m@ =~= cereg_marker());
    }
    m
}

/// The meaning of a registration response. The text after the first
/// "+CEREG:" marker, leading whitespace skipped, is a comma-separated list:
/// with a comma present the status field is the second entry (query reply),
/// without one it is the first (unsolicited notification). The field,
/// leading whitespace skipped, is read up to the first non-digit and mapped
/// through the code table; a missing marker, an empty or oversized number,
/// or bytes that are not valid text parse to nothing. Trailing fields
/// (location info) are tolerated.
pub open spec fn cereg_status_of(s: Seq<u8>) -> Option<RegistrationStatus> {
    if !valid_utf8(s) {
        None
    } else {
        match first_match_from(s, cereg_marker(), 0) {
            None => None,
            Some(m) => {
                let after = skip_ws_from(s, m + cereg_marker().len());
                let field = match first_byte_from(s, 44, after) {
                    None => after,
                    Some(c) => c + 1,
                };
                let start = skip_ws_from(s, field);
                let stop = digit_run_end(s, start);
                if stop == start {
                    None
                } else if decimal_value(s, start, stop) > 255 {
                    None
                } else {
                    Some(status_from_code(decimal_value(s, start, stop) as u8))
                }
            },
        }
    }
}

/// Parse a +CEREG response, query reply or unsolicited notification, to the
/// registration status it reports.
pub fn parse_cereg_response(response: &[u8]) -> (r: Option<RegistrationStatus>)
    ensures
        r == cereg_status_of(response@),
{
    if !utf8_ok(response) {
        return None;
    }
    let marker = cereg_marker_bytes();
    let m = match find_token(response, marker.as_slice()) {
        None => {
            return None;
        },
        Some(m) => m,
    };
    let n = response.len();
    proof {
        lemma_find_is_first(response@, cereg_marker(), 0);
        assert(cereg_marker().len() == 7);
        assert(m + 7 <= n);
    }
    let after = skip_whitespace(response, m + 7);
    let field = match find_byte(response, 44, after) {
        None => after,
        Some(c) => {
            proof {
                lemma_first_byte_props(response@, 44, after as int);
            }
            c + 1
        },
    };
    let start = skip_whitespace(response, field);
    match parse_u8_run(response, start) {
        None => None,
        Some((val, _)) => Some(RegistrationStatus::from_u8(val)),
    }
}

/// Law: a byte sequence in which the "+CEREG:" marker occurs nowhere parses
/// to nothing.
pub proof fn lemma_cereg_needs_marker(s: Seq<u8>)
    requires
        forall|i: int| !match_at(s, cereg_marker(), i),
    ensures
        cereg_status_of(s) is None,
{
    lemma_no_match_no_find(s, cereg_marker(), 0);
}

/// Tracks the last observed registration status and republishes changes.
pub struct RegistrationMonitor {
    last_status: RegistrationStatus,
}

/// What one digested query response does: a successfully parsed status that
/// differs from the stored one is stored, written to the signal and
/// returned; an equal one, or a response that does not parse, changes
/// nothing and the stored status is returned. The result triple is the new
/// stored status, the new signal slot, and the returned status.
pub open spec fn query_transition(
    last: RegistrationStatus,
    slot: Option<RegistrationStatus>,
    response: Seq<u8>,
) -> (RegistrationStatus, Option<RegistrationStatus>, RegistrationStatus) {
    match cereg_status_of(response) {
        Some(status) => if status != last {
            (status, Some(status), status)
        } else {
            (last, slot, status)
        },
        None => (last, slot, last),
    }
}

impl RegistrationMonitor {
    /// The last observed status.
    pub closed spec fn last_status_spec(self) -> RegistrationStatus {
        self.last_status
    }

    /// A new monitor; nothing observed yet.
    pub fn new() -> (m: Self)
        ensures
            m.last_status_spec() == RegistrationStatus::Unknown,
    {
        RegistrationMonitor { last_status: RegistrationStatus::Unknown }
    }

    /// Digest the response to one status query. A new status is stored and
    /// published on the signal; a repeated status or an unreadable response
    /// publishes nothing, so no two consecutive signal writes carry the
    /// same value.
    pub fn query_status(
        &mut self,
        response: &[u8],
        signal: &mut Signal<RegistrationStatus>,
    ) -> (r: RegistrationStatus)
        ensures
            (final(self).last_status_spec(), final(signal).pending(), r) == query_transition(
                old(self).last_status_spec(),
                old(signal).pending(),
                response@,
            ),
    {
        match parse_cereg_response(response) {
            Some(status) => {
                if status != self.last_status {
                    self.last_status = status;
                    signal.signal(status);
                }
                status
            },
            None => self.last_status,
        }
    }

    /// The last known registration status.
    pub fn last_status(&self) -> (r: RegistrationStatus)
        ensures
            r == self.last_status_spec(),
    {
        self.last_status
    }
}

impl Default for RegistrationMonitor {
    fn default() -> (m: Self)
        ensures
            m.last_status_spec() == RegistrationStatus::Unknown,
    {
        RegistrationMonitor::new()
    }
}

/// Law: deduplication. Two consecutive query responses reporting the same
/// status produce exactly one signal write: the first stores and publishes
/// the status, the second changes neither the stored status nor the signal
/// slot, whatever a reader left in the slot in between.
pub proof fn lemma_query_status_deduplicates(
    last: RegistrationStatus,
    slot0: Option<RegistrationStatus>,
    mid_slot: Option<RegistrationStatus>,
    status: RegistrationStatus,
    first_response: Seq<u8>,
    second_response: Seq<u8>,
)
    requires
        cereg_status_of(first_response) == Some(status),
        cereg_status_of(second_response) == Some(status),
        status != last,
    ensures
        ({
            let (last1, slot1, ret1) = query_transition(last, slot0, first_response);
            let (last2, slot2, ret2) = query_transition(last1, mid_slot, second_response);
            &&& last1 == status
            &&& slot1 == Some(status)
            &&& ret1 == status
            &&& last2 == status
            &&& slot2 == mid_slot
            &&& ret2 == status
        }),
{
}

/// What the registration task asks of its driver next.
#[derive(Clone, Copy, Debug, PartialEq, Eq, Structural)]
pub enum RegistrationAction {
    /// Sleep for `ms` milliseconds, then report the timer elapsed.
    Wait { ms: u64 },
    /// Exchange the command, then hand back the response bytes.
    Send { command: AtCommand },
}

/// Where the long-running registration task stands.
#[derive(Clone, Copy, Debug, PartialEq, Eq, Structural)]
pub enum RegistrationTaskPhase {
    /// The enable-notifications command is to go out next.
    Enabling,
    /// Brief wait for the modem to apply the notification setting.
    EnableSettle,
    /// A status query is to go out next.
    Querying,
    /// Waiting out the heartbeat period until the next query.
    Idle,
}

/// Milliseconds the task waits after enabling notifications.
pub const DEFAULT_ENABLE_SETTLE_MS: u64 = 100;

/// Milliseconds between heartbeat re-queries of the registration status.
pub const DEFAULT_QUERY_PERIOD_MS: u64 = 30000;

/// The long-running registration task: enable notifications once, wait
/// briefly, query once to seed the state, then re-query periodically as a
/// fallback heartbeat that bounds the staleness of the observed status.
/// The driver performs each returned action and reports back the matching
/// event.
pub struct RegistrationTask {
    monitor: RegistrationMonitor,
    phase: RegistrationTaskPhase,
    enable_settle_ms: u64,
    period_ms: u64,
}

impl RegistrationTask {
    /// Where the task stands.
    pub closed spec fn phase(self) -> RegistrationTaskPhase {
        self.phase
    }

    /// The last status its monitor observed.
    pub closed spec fn last_status_spec(self) -> RegistrationStatus {
        self.monitor.last_status_spec()
    }

    /// The settle wait after enabling notifications, in milliseconds.
    pub closed spec fn enable_settle_ms(self) -> u64 {
        self.enable_settle_ms
    }

    /// The heartbeat period, in milliseconds.
    pub closed spec fn period_ms(self) -> u64 {
        self.period_ms
    }

    /// The action the driver must perform next.
    pub open spec fn spec_next_action(self) -> RegistrationAction {
        match self.phase() {
            RegistrationTaskPhase::Enabling => RegistrationAction::Send {
                command: AtCommand::EnableNotifications,
            },
            RegistrationTaskPhase::EnableSettle => RegistrationAction::Wait {
                ms: self.enable_settle_ms(),
            },
            RegistrationTaskPhase::Querying => RegistrationAction::Send {
                command: AtCommand::QueryRegistration,
            },
            RegistrationTaskPhase::Idle => RegistrationAction::Wait { ms: self.period_ms() },
        }
    }

    /// A new task with the default timing.
    pub fn new() -> (t: Self)
        ensures
            t.phase() == RegistrationTaskPhase::Enabling,
            t.last_status_spec() == RegistrationStatus::Unknown,
            t.enable_settle_ms() == DEFAULT_ENABLE_SETTLE_MS,
            t.period_ms() == DEFAULT_QUERY_PERIOD_MS,
    {
        RegistrationTask {
            monitor: RegistrationMonitor::new(),
            phase: RegistrationTaskPhase::Enabling,
            enable_settle_ms: DEFAULT_ENABLE_SETTLE_MS,
            period_ms: DEFAULT_QUERY_PERIOD_MS,
        }
    }

    /// A new task with the given settle wait and heartbeat period.
    pub fn with_timing(enable_settle_ms: u64, period_ms: u64) -> (t: Self)
        ensures
            t.phase() == RegistrationTaskPhase::Enabling,
            t.last_status_spec() == RegistrationStatus::Unknown,
            t.enable_settle_ms() == enable_settle_ms,
            t.period_ms() == period_ms,
    {
        RegistrationTask {
            monitor: RegistrationMonitor::new(),
            phase: RegistrationTaskPhase::Enabling,
            enable_settle_ms,
            period_ms,
        }
    }

    /// The action the driver must perform next.
    pub fn next_action(&self) -> (a: RegistrationAction)
        ensures
            a == self.spec_next_action(),
    {
        match self.phase {
            RegistrationTaskPhase::Enabling => RegistrationAction::Send {
                command: AtCommand::EnableNotifications,
            },
            RegistrationTaskPhase::EnableSettle => RegistrationAction::Wait {
                ms: self.enable_settle_ms,
            },
            RegistrationTaskPhase::Querying => RegistrationAction::Send {
                command: AtCommand::QueryRegistration,
            },
            RegistrationTaskPhase::Idle => RegistrationAction::Wait { ms: self.period_ms },
        }
    }

    /// The last known registration status.
    pub fn last_status(&self) -> (r: RegistrationStatus)
        ensures
            r == self.last_status_spec(),
    {
        self.monitor.last_status()
    }

    /// The waited-for time has elapsed.
    pub fn on_timer(&mut self)
        requires
            old(self).spec_next_action() is Wait,
        ensures
            final(self).phase() == RegistrationTaskPhase::Querying,
            final(self).last_status_spec() == old(self).last_status_spec(),
            final(self).enable_settle_ms() == old(self).enable_settle_ms(),
            final(self).period_ms() == old(self).period_ms(),
    {
        self.phase = RegistrationTaskPhase::Querying;
    }

    /// The response to the sent command has arrived. The response to the
    /// enable command is a configuration side effect only and is not parsed;
    /// the response to a query is digested by the monitor, which publishes a
    /// changed status on the signal.
    pub fn on_response(
        &mut self,
        response: &[u8],
        signal: &mut Signal<RegistrationStatus>,
    )
        requires
            old(self).spec_next_action() is Send,
        ensures
            final(self).enable_settle_ms() == old(self).enable_settle_ms(),
            final(self).period_ms() == old(self).period_ms(),
            old(self).phase() == RegistrationTaskPhase::Enabling ==> {
                &&& final(self).phase() == RegistrationTaskPhase::EnableSettle
                &&& final(self).last_status_spec() == old(self).last_status_spec()
                &&& final(signal).pending() == old(signal).pending()
            },
            old(self).phase() == RegistrationTaskPhase::Querying ==> {
                &&& final(self).phase() == RegistrationTaskPhase::Idle
                &&& (
                final(self).last_status_spec(),
                final(signal).pending(),
                final(self).last_status_spec(),
                ) == query_transition(
                    old(self).last_status_spec(),
                    old(signal).pending(),
                    response@,
                )
            },
    {
        match self.phase {
            RegistrationTaskPhase::Enabling => {
                self.phase = RegistrationTaskPhase::EnableSettle;
            },
            _ => {
                self.monitor.query_status(response, signal);
                self.phase = RegistrationTaskPhase::Idle;
            },
        }
    }
}

/// Take the pending registration status if it reports a registration.
/// A pending non-registered status is consumed and dropped, as a waiter for
/// registration ignores it; the caller polls again at its next suspension
/// point.
pub fn wait_for_registration(signal: &mut Signal<RegistrationStatus>) -> (r: Option<
    RegistrationStatus,
>)
    ensures
        final(signal).pending() is None,
        r == match old(signal).pending() {
            Some(status) => if status.spec_is_registered() {
                Some(status)
            } else {
                None::<RegistrationStatus>
            },
            None => None::<RegistrationStatus>,
        },
{
    match signal.try_take() {
        Some(status) => {
            if status.is_registered() {
                Some(status)
            } else {
                None
            }
        },
        None => None,
    }
}

/// Take the pending registration status, whatever it reports.
pub fn wait_for_status_change(signal: &mut Signal<RegistrationStatus>) -> (r: Option<
    RegistrationStatus,
>)
    ensures
        r == old(signal).pending(),
        final(signal).pending() is None,
{
    signal.try_take()
}

} // verus!
