//! Scenario tests for the microservice core, driving the verified library
//! with concrete values; the certificate wrappers run against the real
//! crypto library.

use microservice::addr::SocketAddrV4;
use microservice::cert;
use microservice::errors::{Error, ErrorKind};
use microservice::rpc::Rpc;
use microservice::session::{Role, Session, SessionAction, SessionEvent, SessionState};
use microservice::supervisor::Supervisor;
use microservice::trust;
use microservice::Microservice;

fn sample_serial() -> Vec<u8> {
    vec![0xff, 0x01, 0x02, 0x03, 0x04, 0x05, 0x06, 0x07, 0x08, 0x09, 0x0a, 0x0b, 0x0c, 0x0d, 0x0e, 0x0f]
}

#[test]
fn parse_literal_address() {
    let m = Microservice::new("127.0.0.1:30080").unwrap();
    assert_eq!(
        m.socket_addr,
        SocketAddrV4 { ip0: 127, ip1: 0, ip2: 0, ip3: 1, port: 30080 }
    );
}

#[test]
fn parse_accepts_leading_zeros_and_bounds() {
    let a = Microservice::new("001.2.3.4:00080").unwrap().socket_addr;
    assert_eq!(a, SocketAddrV4 { ip0: 1, ip1: 2, ip2: 3, ip3: 4, port: 80 });
    let b = Microservice::new("255.255.255.255:65535").unwrap().socket_addr;
    assert_eq!(b, SocketAddrV4 { ip0: 255, ip1: 255, ip2: 255, ip3: 255, port: 65535 });
}

#[test]
fn parse_rejections_are_config_errors() {
    for bad in [
        "",
        "localhost:8080",
        "1.2.3.4",
        "1.2.3:80",
        "1.2.3.4.5:80",
        "256.1.1.1:80",
        "1.2.3.4:65536",
        "1.2.3.4:80x",
        "1.2.3.4:",
        ":80",
        "1..3.4:80",
        "1.2.3.4:123456",
        "1000.2.3.4:80",
    ] {
        let e = Microservice::new(bad).unwrap_err();
        assert_eq!(e.kind, ErrorKind::Config, "input {:?}", bad);
    }
}

#[test]
fn subject_common_name_is_first_domain() {
    let domains = vec![
        "localhost".to_string(),
        "example.com".to_string(),
        "www.example.com".to_string(),
    ];
    let p = cert::plan(&domains, 10, 1_000_000, &sample_serial(), 4096).unwrap();
    assert_eq!(p.common_name, "localhost");
    assert_eq!(p.alt_names, vec!["example.com".to_string(), "www.example.com".to_string()]);
}

#[test]
fn single_domain_has_no_alt_name_extension() {
    let domains = vec!["localhost".to_string()];
    let p = cert::plan(&domains, 10, 1_000_000, &sample_serial(), 4096).unwrap();
    assert_eq!(p.common_name, "localhost");
    assert!(p.alt_names.is_empty());
}

#[test]
fn empty_domain_list_degrades_to_empty_common_name() {
    let domains: Vec<String> = vec![];
    let p = cert::plan(&domains, 10, 1_000_000, &sample_serial(), 4096).unwrap();
    assert_eq!(p.common_name, "");
    assert!(p.alt_names.is_empty());
}

#[test]
fn validity_window_matches_configuration() {
    let now = 1_700_000_000u64;
    let days = 3650u64;
    let domains = vec!["localhost".to_string()];
    let p = cert::plan(&domains, days, now, &sample_serial(), 4096).unwrap();
    assert_eq!(p.not_before, now);
    assert_eq!(p.not_after, now + days * 86400);
    assert_eq!(p.not_after - p.not_before, days * 86400);
    assert!(p.not_before <= now && now <= p.not_after);
}

#[test]
fn serial_top_bit_is_cleared() {
    let masked = cert::serial_from_bytes(&sample_serial());
    assert_eq!(masked.len(), 16);
    assert_eq!(masked[0], 0x7f);
    assert!(masked[0] < 128);
    assert_eq!(&masked[1..], &sample_serial()[1..]);
}

#[test]
fn small_key_size_is_a_config_error() {
    let domains = vec!["localhost".to_string()];
    let e = cert::plan(&domains, 10, 1_000_000, &sample_serial(), 1024).unwrap_err();
    assert_eq!(e.kind, ErrorKind::Config);
}

#[test]
fn issue_draws_a_well_formed_serial() {
    let domains = vec!["localhost".to_string()];
    let p = cert::issue(&domains, 3650, 1_700_000_000).unwrap();
    assert_eq!(p.serial.len(), 16);
    assert!(p.serial[0] < 128);
    assert_eq!(p.key_bits, 4096);
    assert_eq!(p.common_name, "localhost");
}

#[test]
fn issued_structure_is_version_three_with_full_key_usage() {
    let domains = vec!["localhost".to_string()];
    let p = cert::plan(&domains, 10, 1_000_000, &sample_serial(), 4096).unwrap();
    assert_eq!(p.version, 3);
    assert!(p.key_usage.digital_signature);
    assert!(p.key_usage.non_repudiation);
    assert!(p.key_usage.key_encipherment);
}

#[test]
fn unrepresentable_validity_window_is_a_config_error() {
    let domains = vec!["localhost".to_string()];
    let e = cert::issue(&domains, u64::MAX, 0).unwrap_err();
    assert_eq!(e.kind, ErrorKind::Config);
    let e2 = cert::issue(&domains, 1, u64::MAX - 86399).unwrap_err();
    assert_eq!(e2.kind, ErrorKind::Config);
}

fn sample_certificate() -> openssl::x509::X509 {
    let rsa = openssl::rsa::Rsa::generate(2048).unwrap();
    let key = openssl::pkey::PKey::from_rsa(rsa).unwrap();
    let mut name = openssl::x509::X509NameBuilder::new().unwrap();
    name.append_entry_by_text("CN", "localhost").unwrap();
    let name = name.build();
    let mut builder = openssl::x509::X509Builder::new().unwrap();
    builder.set_version(2).unwrap();
    builder.set_pubkey(&key).unwrap();
    builder.set_subject_name(&name).unwrap();
    builder.set_issuer_name(&name).unwrap();
    let nb = openssl::asn1::Asn1Time::days_from_now(0).unwrap();
    let na = openssl::asn1::Asn1Time::days_from_now(1).unwrap();
    builder.set_not_before(&nb).unwrap();
    builder.set_not_after(&na).unwrap();
    builder.sign(&key, openssl::hash::MessageDigest::sha256()).unwrap();
    builder.build()
}

#[test]
fn pinned_root_reencodes_pem_to_der() {
    let cert = sample_certificate();
    let pem = cert.to_pem().unwrap();
    let expected_der = cert.to_der().unwrap();
    let der = trust::pinned_root_from_pem(&pem).unwrap();
    assert_eq!(der, expected_der);
    assert_ne!(der, pem);
}

#[test]
fn malformed_pem_is_a_crypto_error() {
    let e = trust::pinned_root_from_pem(&b"not a certificate".to_vec()).unwrap_err();
    assert_eq!(e.kind, ErrorKind::Crypto);
}

#[test]
fn matching_certificate_is_trusted() {
    let der = sample_certificate().to_der().unwrap();
    assert!(trust::check_pinned(&der, &der).is_ok());
}

#[test]
fn mismatched_certificate_is_a_tls_error() {
    let pinned = sample_certificate().to_der().unwrap();
    let other = sample_certificate().to_der().unwrap();
    assert_ne!(pinned, other);
    let e = trust::check_pinned(&other, &pinned).unwrap_err();
    assert_eq!(e.kind, ErrorKind::Tls);
    let mut truncated = pinned.clone();
    truncated.pop();
    let e2 = trust::check_pinned(&truncated, &pinned).unwrap_err();
    assert_eq!(e2.kind, ErrorKind::Tls);
}

#[test]
fn hello_reverses_the_request() {
    let rpc = Rpc;
    assert_eq!(rpc.hello("Hello"), "olleH");
    assert_eq!(rpc.hello(""), "");
    assert_eq!(rpc.hello("a"), "a");
    assert_eq!(rpc.hello("añb"), "bña");
}

#[test]
fn session_lifecycle_server_side() {
    let mut s = Session::new(Role::Server);
    assert_eq!(s.state, SessionState::Connected);
    let (a, c) = s.step(SessionEvent::HandshakeStarted);
    assert_eq!(a, SessionAction::StartTls);
    assert!(c.is_empty());
    let (a, _) = s.step(SessionEvent::HandshakeSucceeded);
    assert_eq!(a, SessionAction::OfferBootstrap);
    assert_eq!(s.state, SessionState::Active);
    let (a, _) = s.step(SessionEvent::PeerClosed);
    assert_eq!(a, SessionAction::FailPendingCalls);
    assert_eq!(s.state, SessionState::Closed);
}

#[test]
fn session_handshake_failure_discards_session() {
    let mut s = Session::new(Role::Client);
    s.step(SessionEvent::HandshakeStarted);
    let (a, _) = s.step(SessionEvent::HandshakeFailed);
    assert_eq!(a, SessionAction::DiscardSession);
    assert_eq!(s.state, SessionState::Failed);
    assert_eq!(s.begin_call().unwrap_err().kind, ErrorKind::Protocol);
}

#[test]
fn client_resolves_bootstrap_on_handshake() {
    let mut s = Session::new(Role::Client);
    s.step(SessionEvent::HandshakeStarted);
    let (a, _) = s.step(SessionEvent::HandshakeSucceeded);
    assert_eq!(a, SessionAction::ResolveBootstrap);
}

fn active_session(role: Role) -> Session {
    let mut s = Session::new(role);
    s.step(SessionEvent::HandshakeStarted);
    s.step(SessionEvent::HandshakeSucceeded);
    s
}

#[test]
fn pipelined_calls_correlate_out_of_order() {
    let mut s = active_session(Role::Client);
    let first = s.begin_call().unwrap();
    let second = s.begin_call().unwrap();
    assert_ne!(first, second);
    // responses arrive in the reverse order of the calls
    s.complete_call(second).unwrap();
    assert_eq!(s.pending, vec![first]);
    s.complete_call(first).unwrap();
    assert!(s.pending.is_empty());
}

#[test]
fn uncorrelated_response_is_a_protocol_error() {
    let mut s = active_session(Role::Client);
    let id = s.begin_call().unwrap();
    let e = s.complete_call(id + 7).unwrap_err();
    assert_eq!(e.kind, ErrorKind::Protocol);
    assert_eq!(s.pending, vec![id]);
}

#[test]
fn terminal_session_fails_in_flight_calls() {
    let mut s = active_session(Role::Server);
    let a = s.begin_call().unwrap();
    let b = s.begin_call().unwrap();
    let (action, cancelled) = s.step(SessionEvent::TransportError);
    assert_eq!(action, SessionAction::FailPendingCalls);
    assert_eq!(cancelled, vec![a, b]);
    assert!(s.pending.is_empty());
    assert_eq!(s.state, SessionState::Failed);
}

#[test]
fn supervisor_isolates_a_failing_session() {
    let mut sup = Supervisor::new();
    let i = sup.on_accept();
    let j = sup.on_accept();
    for k in [i, j] {
        sup.on_session_event(k, SessionEvent::HandshakeStarted);
        sup.on_session_event(k, SessionEvent::HandshakeSucceeded);
    }
    let id_i = sup.sessions[i].begin_call().unwrap();
    let id_j = sup.sessions[j].begin_call().unwrap();
    // one connection is forcibly closed mid-call
    let (action, cancelled) = sup.on_session_event(i, SessionEvent::TransportError);
    assert_eq!(action, SessionAction::FailPendingCalls);
    assert_eq!(cancelled, vec![id_i]);
    // the unrelated session still completes its call, and the listener
    // still accepts
    assert!(sup.accepting);
    assert_eq!(sup.sessions[j].state, SessionState::Active);
    sup.deliver_response(j, id_j).unwrap();
    assert!(sup.sessions[j].pending.is_empty());
    let k = sup.on_accept();
    assert_eq!(k, 2);
}

#[test]
fn response_order_does_not_matter_across_sessions() {
    let build = || {
        let mut sup = Supervisor::new();
        let i = sup.on_accept();
        let j = sup.on_accept();
        for k in [i, j] {
            sup.on_session_event(k, SessionEvent::HandshakeStarted);
            sup.on_session_event(k, SessionEvent::HandshakeSucceeded);
        }
        let a = sup.sessions[i].begin_call().unwrap();
        let b = sup.sessions[j].begin_call().unwrap();
        (sup, i, j, a, b)
    };
    let (mut one, i1, j1, a1, b1) = build();
    one.deliver_response(i1, a1).unwrap();
    one.deliver_response(j1, b1).unwrap();
    let (mut two, i2, j2, a2, b2) = build();
    two.deliver_response(j2, b2).unwrap();
    two.deliver_response(i2, a2).unwrap();
    assert_eq!(one.sessions[i1].pending, two.sessions[i2].pending);
    assert_eq!(one.sessions[j1].pending, two.sessions[j2].pending);
}

#[test]
fn listener_error_stops_acceptance_only() {
    let mut sup = Supervisor::new();
    sup.on_accept();
    sup.on_listener_error();
    assert!(!sup.accepting);
    assert_eq!(sup.sessions.len(), 1);
    assert_eq!(sup.sessions[0].state, SessionState::Connected);
}

#[test]
fn error_constructors_carry_kind_and_message() {
    let cases = [
        (Error::crypto("c".to_string()), ErrorKind::Crypto),
        (Error::tls("t".to_string()), ErrorKind::Tls),
        (Error::network("n".to_string()), ErrorKind::Network),
        (Error::protocol("p".to_string()), ErrorKind::Protocol),
        (Error::config("g".to_string()), ErrorKind::Config),
    ];
    for (e, k) in cases {
        assert_eq!(e.kind, k);
        assert_eq!(e.message().len(), 1);
    }
}

#[test]
fn hello_success() {
    // the end-to-end scenario at the core's level: issue an identity for
    // "localhost", accept a pinned client, and answer the hello call
    let m = Microservice::new("127.0.0.1:30080").unwrap();
    assert_eq!(m.socket_addr.port, 30080);

    // server side: a fresh identity for the single domain
    let domains = vec!["localhost".to_string()];
    let params = cert::issue(&domains, 3650, 1_700_000_000).unwrap();
    assert_eq!(params.common_name, "localhost");
    assert!(params.alt_names.is_empty());

    // out-of-band distribution: the client pins the PEM-encoded certificate
    let cert = sample_certificate();
    let pinned = trust::pinned_root_from_pem(&cert.to_pem().unwrap()).unwrap();

    // handshake: the server presents exactly the pinned certificate
    let presented = cert.to_der().unwrap();
    trust::check_pinned(&presented, &pinned).unwrap();

    // a certificate that does not match must fail, and no session activates
    let mut bad = Session::new(Role::Client);
    bad.step(SessionEvent::HandshakeStarted);
    let other = sample_certificate().to_der().unwrap();
    let refusal = trust::check_pinned(&other, &pinned).unwrap_err();
    assert_eq!(refusal.kind, ErrorKind::Tls);
    bad.step(SessionEvent::HandshakeFailed);
    assert_eq!(bad.state, SessionState::Failed);

    // the trusted session becomes active and the call goes through
    let mut s = active_session(Role::Client);
    let id = s.begin_call().unwrap();
    let response = Rpc.hello("Hello");
    assert_eq!(response, "olleH");
    s.complete_call(id).unwrap();
    assert!(s.pending.is_empty());
}

#[test]
fn parse_boundary_addresses() {
    let a = Microservice::new("0.0.0.0:0").unwrap().socket_addr;
    assert_eq!(a, SocketAddrV4 { ip0: 0, ip1: 0, ip2: 0, ip3: 0, port: 0 });
}

#[test]
fn response_to_inactive_session_is_rejected() {
    let mut sup = Supervisor::new();
    let i = sup.on_accept();
    // still in the connected state: no response can correlate
    let e = sup.deliver_response(i, 0).unwrap_err();
    assert_eq!(e.kind, ErrorKind::Protocol);
    assert_eq!(sup.sessions[i].state, SessionState::Connected);
}

#[test]
fn ignored_events_leave_a_session_unchanged() {
    let mut s = Session::new(Role::Server);
    let (a, c) = s.step(SessionEvent::PeerClosed);
    assert_eq!(a, SessionAction::Ignore);
    assert!(c.is_empty());
    assert_eq!(s.state, SessionState::Connected);
}
