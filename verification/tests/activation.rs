use modem_core::command::AtCommand;
use modem_core::pdp::{
    ActivationAction, ActivationDelays, Ipv4Address, PdpActivator,
};

fn default_activator() -> PdpActivator {
    PdpActivator::new(ActivationDelays::defaults())
}

#[test]
fn activator_settles_then_queries_first() {
    let mut a = default_activator();
    assert_eq!(a.next_action(), ActivationAction::Wait { ms: 1000 });
    a.on_timer();
    assert_eq!(
        a.next_action(),
        ActivationAction::Send { command: AtCommand::QueryAddress }
    );
}

#[test]
fn address_already_present_succeeds_without_context_commands() {
    let mut a = default_activator();
    a.on_timer();
    a.on_response(b"+CGPADDR: 0,\"10.160.3.4\"");
    // The very next action is success: no define or activate command was
    // ever requested.
    assert_eq!(
        a.next_action(),
        ActivationAction::Succeed { ip: Ipv4Address::new(10, 160, 3, 4) }
    );
}

#[test]
fn full_activation_sequence_returns_queried_address() {
    let mut a = default_activator();
    a.on_timer();
    assert_eq!(
        a.next_action(),
        ActivationAction::Send { command: AtCommand::QueryAddress }
    );
    // No address yet: the context must be defined and activated.
    a.on_response(b"+CGPADDR: 0");
    assert_eq!(
        a.next_action(),
        ActivationAction::Send { command: AtCommand::DefineContext }
    );
    a.on_response(b"OK");
    assert_eq!(a.next_action(), ActivationAction::Wait { ms: 100 });
    a.on_timer();
    assert_eq!(
        a.next_action(),
        ActivationAction::Send { command: AtCommand::ActivateContext }
    );
    a.on_response(b"OK");
    assert_eq!(a.next_action(), ActivationAction::Wait { ms: 1000 });
    a.on_timer();
    assert_eq!(
        a.next_action(),
        ActivationAction::Send { command: AtCommand::QueryAddress }
    );
    a.on_response(b"+CGPADDR: 0,\"10.0.0.5\"");
    assert_eq!(
        a.next_action(),
        ActivationAction::Succeed { ip: Ipv4Address::new(10, 0, 0, 5) }
    );
}

#[test]
fn activation_error_backs_off_once_then_fails_without_address() {
    let mut a = default_activator();
    a.on_timer();
    a.on_response(b"ERROR");  // no address present
    a.on_response(b"OK");  // context defined
    a.on_timer();  // define settle elapsed
    assert_eq!(
        a.next_action(),
        ActivationAction::Send { command: AtCommand::ActivateContext }
    );
    a.on_response(b"+CME ERROR: 50");
    // The activate settle runs first, then the one-shot backoff.
    assert_eq!(a.next_action(), ActivationAction::Wait { ms: 1000 });
    a.on_timer();
    assert_eq!(a.next_action(), ActivationAction::Wait { ms: 2000 });
    a.on_timer();
    assert_eq!(
        a.next_action(),
        ActivationAction::Send { command: AtCommand::QueryAddress }
    );
    a.on_response(b"+CGPADDR: 0");
    assert_eq!(a.next_action(), ActivationAction::Fail);
}

#[test]
fn activation_error_backoff_can_still_succeed() {
    let mut a = default_activator();
    a.on_timer();
    a.on_response(b"ERROR");
    a.on_response(b"OK");
    a.on_timer();
    a.on_response(b"ERROR");
    a.on_timer();  // activate settle
    a.on_timer();  // backoff
    a.on_response(b"+CGPADDR: 0,\"10.1.2.3\"");
    assert_eq!(
        a.next_action(),
        ActivationAction::Succeed { ip: Ipv4Address::new(10, 1, 2, 3) }
    );
}

#[test]
fn ambiguous_activate_response_is_not_an_error() {
    let mut a = default_activator();
    a.on_timer();
    a.on_response(b"");  // no address
    a.on_response(b"");  // define: presence only
    a.on_timer();
    a.on_response(b"");  // ambiguous/empty activate response: no error token
    a.on_timer();
    // No backoff: straight to the final address query.
    assert_eq!(
        a.next_action(),
        ActivationAction::Send { command: AtCommand::QueryAddress }
    );
    a.on_response(b"");
    assert_eq!(a.next_action(), ActivationAction::Fail);
}

#[test]
fn delays_are_configurable() {
    let delays = ActivationDelays {
        initial_ms: 10,
        define_ms: 2,
        activate_ms: 20,
        backoff_ms: 40,
    };
    let mut a = PdpActivator::new(delays);
    assert_eq!(a.next_action(), ActivationAction::Wait { ms: 10 });
    a.on_timer();
    a.on_response(b"");
    a.on_response(b"OK");
    assert_eq!(a.next_action(), ActivationAction::Wait { ms: 2 });
    a.on_timer();
    a.on_response(b"ERROR");
    assert_eq!(a.next_action(), ActivationAction::Wait { ms: 20 });
    a.on_timer();
    assert_eq!(a.next_action(), ActivationAction::Wait { ms: 40 });
}

#[test]
fn default_delay_values() {
    let d = ActivationDelays::defaults();
    assert_eq!(d.initial_ms, 1000);
    assert_eq!(d.define_ms, 100);
    assert_eq!(d.activate_ms, 1000);
    assert_eq!(d.backoff_ms, 2000);
}
