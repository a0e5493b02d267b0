use modem_core::error::Error;
use modem_core::pdp::{
    at_command_ok, deactivate_result, parse_cgpaddr_response, parse_ipv4, response_has_error,
    response_has_ok, Ipv4Address,
};
use modem_core::registration::{parse_cereg_response, RegistrationStatus};

#[test]
fn cereg_query_reply_home() {
    assert_eq!(
        parse_cereg_response(b"+CEREG: 2,1"),
        Some(RegistrationStatus::RegisteredHome)
    );
}

#[test]
fn cereg_query_reply_roaming() {
    assert_eq!(
        parse_cereg_response(b"+CEREG: 2,5"),
        Some(RegistrationStatus::RegisteredRoaming)
    );
}

#[test]
fn cereg_urc_not_registered() {
    assert_eq!(
        parse_cereg_response(b"+CEREG: 0"),
        Some(RegistrationStatus::NotRegistered)
    );
}

#[test]
fn cereg_urc_searching() {
    assert_eq!(
        parse_cereg_response(b"+CEREG: 2"),
        Some(RegistrationStatus::Searching)
    );
}

#[test]
fn cereg_query_reply_denied() {
    assert_eq!(
        parse_cereg_response(b"+CEREG: 2,3"),
        Some(RegistrationStatus::Denied)
    );
}

#[test]
fn cereg_unlisted_code_is_unknown() {
    assert_eq!(
        parse_cereg_response(b"+CEREG: 2,4"),
        Some(RegistrationStatus::Unknown)
    );
    assert_eq!(
        parse_cereg_response(b"+CEREG: 90"),
        Some(RegistrationStatus::Unknown)
    );
}

#[test]
fn cereg_tolerates_trailing_fields() {
    assert_eq!(
        parse_cereg_response(b"+CEREG: 2,1,\"76C1\",\"0102DA04\",7"),
        Some(RegistrationStatus::RegisteredHome)
    );
}

#[test]
fn cereg_tolerates_surrounding_noise() {
    assert_eq!(
        parse_cereg_response(b"\r\n+CEREG: 2,5\r\n\r\nOK\r\n"),
        Some(RegistrationStatus::RegisteredRoaming)
    );
}

#[test]
fn cereg_missing_marker_fails() {
    assert_eq!(parse_cereg_response(b""), None);
    assert_eq!(parse_cereg_response(b"OK"), None);
    assert_eq!(parse_cereg_response(b"+CGREG: 2,1"), None);
    assert_eq!(parse_cereg_response(b"CEREG: 2,1"), None);
}

#[test]
fn cereg_unparseable_status_fails() {
    assert_eq!(parse_cereg_response(b"+CEREG: 2,x"), None);
    assert_eq!(parse_cereg_response(b"+CEREG: "), None);
    assert_eq!(parse_cereg_response(b"+CEREG: 2,999"), None);
}

#[test]
fn cereg_invalid_text_fails() {
    assert_eq!(parse_cereg_response(b"+CEREG: 2,1\xff"), None);
    assert_eq!(parse_cereg_response(b"\x80+CEREG: 2,1"), None);
}

#[test]
fn cgpaddr_reports_address() {
    assert_eq!(
        parse_cgpaddr_response(b"+CGPADDR: 0,\"10.160.3.4\""),
        Some(Ipv4Address::new(10, 160, 3, 4))
    );
}

#[test]
fn cgpaddr_five_octets_fails() {
    assert_eq!(parse_cgpaddr_response(b"+CGPADDR: 0,\"10.160.3.4.5\""), None);
}

#[test]
fn cgpaddr_no_address_fails() {
    assert_eq!(parse_cgpaddr_response(b"+CGPADDR: 0"), None);
    assert_eq!(parse_cgpaddr_response(b"+CGPADDR: 0,\"\""), None);
    assert_eq!(parse_cgpaddr_response(b"OK"), None);
}

#[test]
fn cgpaddr_with_noise_around() {
    assert_eq!(
        parse_cgpaddr_response(b"\r\n+CGPADDR: 0,\"10.0.0.5\"\r\nOK\r\n"),
        Some(Ipv4Address::new(10, 0, 0, 5))
    );
}

#[test]
fn ipv4_round_values() {
    assert_eq!(parse_ipv4(b"0.0.0.0"), Some(Ipv4Address::new(0, 0, 0, 0)));
    assert_eq!(
        parse_ipv4(b"255.255.255.255"),
        Some(Ipv4Address::new(255, 255, 255, 255))
    );
    assert_eq!(parse_ipv4(b"010.1.1.1"), Some(Ipv4Address::new(10, 1, 1, 1)));
}

#[test]
fn ipv4_malformed_fails() {
    assert_eq!(parse_ipv4(b""), None);
    assert_eq!(parse_ipv4(b"10.160.3"), None);
    assert_eq!(parse_ipv4(b"10.160.3."), None);
    assert_eq!(parse_ipv4(b"10..3.4"), None);
    assert_eq!(parse_ipv4(b"256.1.1.1"), None);
    assert_eq!(parse_ipv4(b"1.2.3.4x"), None);
    assert_eq!(parse_ipv4(b"1.2.3.4 "), None);
    assert_eq!(parse_ipv4(b"a.b.c.d"), None);
}

#[test]
fn ok_and_error_tokens() {
    assert!(response_has_ok(b"\r\nOK\r\n"));
    assert!(!response_has_ok(b"\r\nERROR\r\n"));
    assert!(response_has_error(b"\r\n+CME ERROR: 50\r\n"));
    assert!(!response_has_error(b"\r\nOK\r\n"));
    assert!(!response_has_ok(b"OK\xff"));
    assert!(!response_has_ok(b""));
}

#[test]
fn at_command_ok_judges_response() {
    assert_eq!(at_command_ok(b"\r\nOK\r\n"), Ok(()));
    assert_eq!(at_command_ok(b"\r\nERROR\r\n"), Err(Error::AtCommand));
    assert_eq!(at_command_ok(b""), Err(Error::AtCommand));
}

#[test]
fn deactivate_result_judges_response() {
    assert_eq!(deactivate_result(b"\r\nOK\r\n"), Ok(()));
    assert_eq!(deactivate_result(b"\r\nERROR\r\n"), Err(Error::PdpActivation));
}

#[test]
fn status_code_table() {
    assert_eq!(RegistrationStatus::from_u8(0), RegistrationStatus::NotRegistered);
    assert_eq!(RegistrationStatus::from_u8(1), RegistrationStatus::RegisteredHome);
    assert_eq!(RegistrationStatus::from_u8(2), RegistrationStatus::Searching);
    assert_eq!(RegistrationStatus::from_u8(3), RegistrationStatus::Denied);
    assert_eq!(RegistrationStatus::from_u8(4), RegistrationStatus::Unknown);
    assert_eq!(RegistrationStatus::from_u8(5), RegistrationStatus::RegisteredRoaming);
    assert_eq!(RegistrationStatus::from_u8(77), RegistrationStatus::Unknown);
}

#[test]
fn is_registered_only_home_or_roaming() {
    assert!(RegistrationStatus::RegisteredHome.is_registered());
    assert!(RegistrationStatus::RegisteredRoaming.is_registered());
    assert!(!RegistrationStatus::NotRegistered.is_registered());
    assert!(!RegistrationStatus::Searching.is_registered());
    assert!(!RegistrationStatus::Denied.is_registered());
    assert!(!RegistrationStatus::Unknown.is_registered());
}

#[test]
fn status_descriptions() {
    assert_eq!(RegistrationStatus::NotRegistered.as_str(), "Not registered");
    assert_eq!(
        RegistrationStatus::RegisteredHome.as_str(),
        "Registered (home network)"
    );
    assert_eq!(RegistrationStatus::Searching.as_str(), "Searching...");
    assert_eq!(RegistrationStatus::Denied.as_str(), "Registration denied");
    assert_eq!(RegistrationStatus::Unknown.as_str(), "Unknown");
    assert_eq!(
        RegistrationStatus::RegisteredRoaming.as_str(),
        "Registered (roaming)"
    );
}

#[test]
fn error_descriptions() {
    assert_eq!(Error::ModemInit.as_str(), "Modem initialization failed");
    assert_eq!(Error::AtCommand.as_str(), "AT command failed");
    assert_eq!(Error::Registration.as_str(), "Network registration failed");
    assert_eq!(Error::PdpActivation.as_str(), "PDP context activation failed");
    assert_eq!(
        Error::NetworkInit.as_str(),
        "Network stack initialization failed"
    );
    assert_eq!(Error::Socket.as_str(), "Socket error");
    assert_eq!(Error::Timeout.as_str(), "Operation timed out");
    assert_eq!(Error::InvalidResponse.as_str(), "Invalid response from modem");
    assert_eq!(Error::TaskSpawn.as_str(), "Failed to spawn task");
    assert_eq!(Error::Config.as_str(), "Configuration error");
}
