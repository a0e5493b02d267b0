//! The PDP monitor: the long-running coordinator that reacts to
//! registration transitions, runs the activation procedure, and republishes
//! connectivity status on the PDP signal.
//!
//! Phase one blocks until the registration signal yields a registered
//! status, settles briefly, then runs the activation procedure; success
//! configures the network stack and publishes the activated address, failure
//! publishes a deactivation. In steady state every registration change
//! either re-queries the address directly (registered — a present address is
//! reconfigured and republished, an absent one publishes nothing) or
//! publishes a deactivation immediately (not registered).

use vstd::prelude::*;
use crate::command::AtCommand;
use crate::pdp::{
    cgpaddr_ip_of, default_delays, parse_cgpaddr_response, phase_after_response,
    phase_after_timer, ActivationAction, ActivationDelays, ActivationPhase, Ipv4Address,
    PdpActivator, PdpStatus,
};
use crate::registration::RegistrationStatus;
use crate::signal::Signal;

verus! {

/// Milliseconds the monitor settles after observing a registration before
/// touching the PDP context.
pub const DEFAULT_REGISTRATION_SETTLE_MS: u64 = 500;

/// Where the monitor stands; each phase names the one action the driver
/// must perform next.
#[derive(Clone, Copy, Debug)]
pub enum PdpMonitorPhase {
    /// Waiting for the registration signal to yield a registered status;
    /// non-registered values are ignored.
    AwaitRegistration,
    /// Waiting out the settle period after the first registration.
    InitialSettle,
    /// The activation procedure is running; its actions pass through.
    Activating,
    /// The network stack is to be configured with this address; the
    /// activated status is published once that is done.
    Configuring {
        /// The address to configure and publish.
        ip: Ipv4Address,
    },
    /// Waiting for the next registration status change.
    Steady,
    /// Waiting out the settle period after a re-registration.
    SteadySettle,
    /// A direct address re-query is out; full re-activation is not run in
    /// steady state.
    SteadyQuery,
}

/// What the monitor asks of its driver next.
#[derive(Clone, Copy, Debug, PartialEq, Eq, Structural)]
pub enum PdpMonitorAction {
    /// Take the next value from the registration signal and report it.
    AwaitStatus,
    /// Sleep for `ms` milliseconds, then report the timer elapsed.
    Wait { ms: u64 },
    /// Exchange the command, then hand back the response bytes.
    Send { command: AtCommand },
    /// Configure the network stack with this address, then report back.
    Configure { ip: Ipv4Address },
}

/// The PDP monitor coordinator, driven one action at a time.
pub struct PdpMonitor {
    phase: PdpMonitorPhase,
    activator: PdpActivator,
    delays: ActivationDelays,
    settle_ms: u64,
}

impl PdpMonitor {
    /// Where the monitor stands.
    pub closed spec fn phase(self) -> PdpMonitorPhase {
        self.phase
    }

    /// The embedded activation procedure; meaningful while activating.
    pub closed spec fn activator(self) -> PdpActivator {
        self.activator
    }

    /// The activation delays handed to each fresh activation run.
    pub closed spec fn delays(self) -> ActivationDelays {
        self.delays
    }

    /// The settle wait after a registration event, in milliseconds.
    pub closed spec fn settle_ms(self) -> u64 {
        self.settle_ms
    }

    /// While activating, the embedded procedure is never left finished:
    /// the monitor digests its outcome in the same step that produces it.
    pub open spec fn wf(self) -> bool {
        self.phase() is Activating ==> !(self.activator().phase() is Finished)
    }

    /// The action the driver must perform next.
    pub open spec fn spec_next_action(self) -> PdpMonitorAction {
        match self.phase() {
            PdpMonitorPhase::AwaitRegistration => PdpMonitorAction::AwaitStatus,
            PdpMonitorPhase::InitialSettle => PdpMonitorAction::Wait { ms: self.settle_ms() },
            PdpMonitorPhase::Activating => match self.activator().spec_next_action() {
                ActivationAction::Wait { ms } => PdpMonitorAction::Wait { ms },
                ActivationAction::Send { command } => PdpMonitorAction::Send { command },
                ActivationAction::Succeed { ip } => PdpMonitorAction::Configure { ip },
                ActivationAction::Fail => PdpMonitorAction::AwaitStatus,
            },
            PdpMonitorPhase::Configuring { ip } => PdpMonitorAction::Configure { ip },
            PdpMonitorPhase::Steady => PdpMonitorAction::AwaitStatus,
            PdpMonitorPhase::SteadySettle => PdpMonitorAction::Wait { ms: self.settle_ms() },
            PdpMonitorPhase::SteadyQuery => PdpMonitorAction::Send {
                command: AtCommand::QueryAddress,
            },
        }
    }

    /// A fresh monitor with the default timing.
    pub fn new() -> (m: Self)
        ensures
            m.phase() is AwaitRegistration,
            m.delays() == default_delays(),
            m.settle_ms() == DEFAULT_REGISTRATION_SETTLE_MS,
            m.wf(),
    {
        let delays = ActivationDelays::defaults();
        PdpMonitor {
            phase: PdpMonitorPhase::AwaitRegistration,
            activator: PdpActivator::new(delays),
            delays,
            settle_ms: DEFAULT_REGISTRATION_SETTLE_MS,
        }
    }

    /// A fresh monitor with the given activation delays and settle wait.
    pub fn with_timing(delays: ActivationDelays, settle_ms: u64) -> (m: Self)
        ensures
            m.phase() is AwaitRegistration,
            m.delays() == delays,
            m.settle_ms() == settle_ms,
            m.wf(),
    {
        PdpMonitor {
            phase: PdpMonitorPhase::AwaitRegistration,
            activator: PdpActivator::new(delays),
            delays,
            settle_ms,
        }
    }

    /// The action the driver must perform next.
    pub fn next_action(&self) -> (a: PdpMonitorAction)
        ensures
            a == self.spec_next_action(),
    {
        match self.phase {
            PdpMonitorPhase::AwaitRegistration => PdpMonitorAction::AwaitStatus,
            PdpMonitorPhase::InitialSettle => PdpMonitorAction::Wait { ms: self.settle_ms },
            PdpMonitorPhase::Activating => match self.activator.next_action() {
                ActivationAction::Wait { ms } => PdpMonitorAction::Wait { ms },
                ActivationAction::Send { command } => PdpMonitorAction::Send { command },
                ActivationAction::Succeed { ip } => PdpMonitorAction::Configure { ip },
                ActivationAction::Fail => PdpMonitorAction::AwaitStatus,
            },
            PdpMonitorPhase::Configuring { ip } => PdpMonitorAction::Configure { ip },
            PdpMonitorPhase::Steady => PdpMonitorAction::AwaitStatus,
            PdpMonitorPhase::SteadySettle => PdpMonitorAction::Wait { ms: self.settle_ms },
            PdpMonitorPhase::SteadyQuery => PdpMonitorAction::Send {
                command: AtCommand::QueryAddress,
            },
        }
    }

    /// A registration status was taken from the registration signal.
    /// Before the first registration, non-registered values are ignored and
    /// a registered one starts the settle toward activation. In steady
    /// state, a registered status starts the settle toward a direct address
    /// re-query, and a non-registered one publishes a deactivation on the
    /// PDP signal immediately, unconditionally.
    pub fn on_status(
        &mut self,
        status: RegistrationStatus,
        pdp_signal: &mut Signal<PdpStatus>,
    )
        requires
            old(self).wf(),
            old(self).spec_next_action() is AwaitStatus,
        ensures
            final(self).wf(),
            final(self).delays() == old(self).delays(),
            final(self).settle_ms() == old(self).settle_ms(),
            old(self).phase() is AwaitRegistration ==> {
                &&& final(self).phase() == if status.spec_is_registered() {
                    PdpMonitorPhase::InitialSettle
                } else {
                    PdpMonitorPhase::AwaitRegistration
                }
                &&& final(pdp_signal).pending() == old(pdp_signal).pending()
            },
            old(self).phase() is Steady ==> {
                &&& final(self).phase() == if status.spec_is_registered() {
                    PdpMonitorPhase::SteadySettle
                } else {
                    PdpMonitorPhase::Steady
                }
                &&& final(pdp_signal).pending() == if status.spec_is_registered() {
                    old(pdp_signal).pending()
                } else {
                    Some(PdpStatus::Deactivated)
                }
            },
    {
        match self.phase {
            PdpMonitorPhase::AwaitRegistration => {
                if status.is_registered() {
                    self.phase = PdpMonitorPhase::InitialSettle;
                }
            },
            _ => {
                if status.is_registered() {
                    self.phase = PdpMonitorPhase::SteadySettle;
                } else {
                    pdp_signal.signal(PdpStatus::Deactivated);
                }
            },
        }
    }

    /// The waited-for time has elapsed. After the initial settle a fresh
    /// activation procedure starts; after the steady-state settle the
    /// direct address re-query goes out; a settle inside the activation
    /// procedure advances the procedure itself.
    pub fn on_timer(&mut self)
        requires
            old(self).wf(),
            old(self).spec_next_action() is Wait,
        ensures
            final(self).wf(),
            final(self).delays() == old(self).delays(),
            final(self).settle_ms() == old(self).settle_ms(),
            old(self).phase() is InitialSettle ==> {
                &&& final(self).phase() is Activating
                &&& final(self).activator().phase() is InitialSettle
                &&& final(self).activator().delays() == old(self).delays()
            },
            old(self).phase() is SteadySettle ==> final(self).phase() is SteadyQuery,
            old(self).phase() is Activating ==> {
                &&& final(self).phase() is Activating
                &&& final(self).activator().phase() == phase_after_timer(
                    old(self).activator().phase(),
                )
                &&& final(self).activator().delays() == old(self).activator().delays()
            },
    {
        match self.phase {
            PdpMonitorPhase::InitialSettle => {
                self.activator = PdpActivator::new(self.delays);
                self.phase = PdpMonitorPhase::Activating;
            },
            PdpMonitorPhase::SteadySettle => {
                self.phase = PdpMonitorPhase::SteadyQuery;
            },
            _ => {
                self.activator.on_timer();
            },
        }
    }

    /// The response to the sent command has arrived. Inside the activation
    /// procedure the response advances the procedure; an outcome is
    /// digested at once — an address moves on to configuring the stack, a
    /// failure publishes a deactivation. The steady-state re-query moves on
    /// to configuring when an address is present and publishes nothing when
    /// it is absent.
    pub fn on_response(
        &mut self,
        response: &[u8],
        pdp_signal: &mut Signal<PdpStatus>,
    )
        requires
            old(self).wf(),
            old(self).spec_next_action() is Send,
        ensures
            final(self).wf(),
            final(self).delays() == old(self).delays(),
            final(self).settle_ms() == old(self).settle_ms(),
            old(self).phase() is SteadyQuery ==> {
                &&& final(self).phase() == match cgpaddr_ip_of(response@) {
                    Some(ip) => PdpMonitorPhase::Configuring { ip },
                    None => PdpMonitorPhase::Steady,
                }
                &&& final(pdp_signal).pending() == old(pdp_signal).pending()
            },
            old(self).phase() is Activating ==> {
                let advanced = phase_after_response(old(self).activator().phase(), response@);
                match advanced {
                    ActivationPhase::Finished { outcome } => match outcome {
                        Ok(ip) => {
                            &&& final(self).phase() == (PdpMonitorPhase::Configuring { ip })
                            &&& final(pdp_signal).pending() == old(pdp_signal).pending()
                        },
                        Err(_) => {
                            &&& final(self).phase() is Steady
                            &&& final(pdp_signal).pending() == Some(PdpStatus::Deactivated)
                        },
                    },
                    _ => {
                        &&& final(self).phase() is Activating
                        &&& final(self).activator().phase() == advanced
                        &&& final(self).activator().delays() == old(self).activator().delays()
                        &&& final(pdp_signal).pending() == old(pdp_signal).pending()
                    },
                }
            },
    {
        match self.phase {
            PdpMonitorPhase::Activating => {
                self.activator.on_response(response);
                match self.activator.next_action() {
                    ActivationAction::Succeed { ip } => {
                        self.phase = PdpMonitorPhase::Configuring { ip };
                    },
                    ActivationAction::Fail => {
                        pdp_signal.signal(PdpStatus::Deactivated);
                        self.phase = PdpMonitorPhase::Steady;
                    },
                    _ => {},
                }
            },
            _ => {
                match parse_cgpaddr_response(response) {
                    Some(ip) => {
                        self.phase = PdpMonitorPhase::Configuring { ip };
                    },
                    None => {
                        self.phase = PdpMonitorPhase::Steady;
                    },
                }
            },
        }
    }

    /// The network stack has been configured with the pending address; the
    /// activated status is published on the PDP signal.
    pub fn on_configured(&mut self, pdp_signal: &mut Signal<PdpStatus>)
        requires
            old(self).wf(),
            old(self).phase() is Configuring,
        ensures
            final(self).wf(),
            final(self).delays() == old(self).delays(),
            final(self).settle_ms() == old(self).settle_ms(),
            final(self).phase() is Steady,
            final(pdp_signal).pending() == Some(
                PdpStatus::Activated { ip: old(self).phase()->Configuring_ip },
            ),
    {
        match self.phase {
            PdpMonitorPhase::Configuring { ip } => {
                pdp_signal.signal(PdpStatus::Activated { ip });
            },
            _ => {},
        }
        self.phase = PdpMonitorPhase::Steady;
    }
}

/// Take the pending PDP status if it reports an activation. A pending
/// deactivated value is consumed and dropped, as a waiter for connectivity
/// ignores it; a caller that must observe deactivation consumes the PDP
/// signal directly instead.
pub fn wait_for_activation(signal: &mut Signal<PdpStatus>) -> (r: Option<PdpStatus>)
    ensures
        final(signal).pending() is None,
        r == match old(signal).pending() {
            Some(status) => if status is Activated {
                Some(status)
            } else {
                None::<PdpStatus>
            },
            None => None::<PdpStatus>,
        },
{
    match signal.try_take() {
        Some(status) => match status {
            PdpStatus::Activated { ip } => Some(PdpStatus::Activated { ip }),
            PdpStatus::Deactivated => None,
        },
        None => None,
    }
}

} // verus!
