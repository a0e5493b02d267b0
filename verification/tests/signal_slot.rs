use modem_core::monitor::wait_for_activation;
use modem_core::pdp::{Ipv4Address, PdpStatus};
use modem_core::registration::{
    wait_for_registration, wait_for_status_change, RegistrationStatus,
};
use modem_core::signal::Signal;

#[test]
fn fresh_signal_is_empty() {
    let mut s: Signal<u32> = Signal::new();
    assert!(!s.is_signaled());
    assert_eq!(s.try_take(), None);
}

#[test]
fn write_then_read_consumes() {
    let mut s: Signal<u32> = Signal::new();
    s.signal(7);
    assert!(s.is_signaled());
    assert_eq!(s.try_take(), Some(7));
    assert!(!s.is_signaled());
    assert_eq!(s.try_take(), None);
}

#[test]
fn second_write_overwrites_unread_first() {
    let mut s: Signal<u32> = Signal::new();
    s.signal(1);
    s.signal(2);
    assert_eq!(s.try_take(), Some(2));
    assert_eq!(s.try_take(), None);
}

#[test]
fn late_waiter_sees_only_most_recent_value_once() {
    let mut s: Signal<RegistrationStatus> = Signal::new();
    s.signal(RegistrationStatus::Searching);
    s.signal(RegistrationStatus::RegisteredHome);
    // A waiter that starts polling only now observes the second value once.
    assert_eq!(s.try_take(), Some(RegistrationStatus::RegisteredHome));
    assert_eq!(s.try_take(), None);
}

#[test]
fn wait_for_registration_ignores_unregistered() {
    let mut s: Signal<RegistrationStatus> = Signal::new();
    s.signal(RegistrationStatus::Searching);
    assert_eq!(wait_for_registration(&mut s), None);
    // The non-registered value was consumed.
    assert!(!s.is_signaled());
    s.signal(RegistrationStatus::RegisteredRoaming);
    assert_eq!(
        wait_for_registration(&mut s),
        Some(RegistrationStatus::RegisteredRoaming)
    );
}

#[test]
fn wait_for_status_change_returns_any_status() {
    let mut s: Signal<RegistrationStatus> = Signal::new();
    assert_eq!(wait_for_status_change(&mut s), None);
    s.signal(RegistrationStatus::Denied);
    assert_eq!(
        wait_for_status_change(&mut s),
        Some(RegistrationStatus::Denied)
    );
    assert_eq!(wait_for_status_change(&mut s), None);
}

#[test]
fn wait_for_activation_filters_deactivated() {
    let mut s: Signal<PdpStatus> = Signal::new();
    s.signal(PdpStatus::Deactivated);
    assert_eq!(wait_for_activation(&mut s), None);
    assert!(!s.is_signaled());
    let ip = Ipv4Address::new(10, 0, 0, 5);
    s.signal(PdpStatus::Activated { ip });
    assert_eq!(wait_for_activation(&mut s), Some(PdpStatus::Activated { ip }));
    assert_eq!(wait_for_activation(&mut s), None);
}
