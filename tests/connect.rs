use async_std_resolver_net::addr::{AddressFamily, Endpoint, IpAddress};
use async_std_resolver_net::connect::{
    Action, ConnectError, ConnectPath, ConnectRequest, Connector, Event, FailureKind, Phase,
};

const LOOPBACK_V4: u32 = 0x7f00_0001;

fn loopback(port: u16) -> Endpoint {
    Endpoint::new(IpAddress::V4(LOOPBACK_V4), port)
}

#[test]
fn native_connect_disables_delay_then_delivers() {
    let request = ConnectRequest::new(loopback(53), None);
    assert_eq!(request.path(), ConnectPath::Native);
    let (mut c, first) = Connector::start(request);
    assert_eq!(first, Action::ConnectNative(loopback(53)));
    assert_eq!(c.phase(), Phase::Connecting);
    assert!(!first.needs_blocking_worker());
    assert_eq!(c.step(Event::Completed), Action::DisableDelay);
    assert!(!c.is_finished());
    assert_eq!(c.step(Event::Completed), Action::Deliver);
    assert!(c.is_finished());
    assert_eq!(c.phase(), Phase::Established);
    assert_eq!(c.request(), request);
}

#[test]
fn source_bound_loopback_binds_then_dials_listener() {
    let listener_port: u16 = 40053;
    let request = ConnectRequest::new(loopback(listener_port), Some(IpAddress::V4(LOOPBACK_V4)));
    assert_eq!(request.path(), ConnectPath::SourceBound);
    let (mut c, first) = Connector::start(request);
    assert_eq!(first, Action::CreateSocket(AddressFamily::Inet4));
    assert!(first.needs_blocking_worker());
    let bind = c.step(Event::Completed);
    assert_eq!(bind, Action::Bind(Endpoint::new(IpAddress::V4(LOOPBACK_V4), 0)));
    assert!(bind.needs_blocking_worker());
    let dial = c.step(Event::Completed);
    assert_eq!(dial, Action::Dial(loopback(listener_port)));
    assert!(dial.needs_blocking_worker());
    let adopt = c.step(Event::Completed);
    assert_eq!(adopt, Action::Adopt);
    assert!(!adopt.needs_blocking_worker());
    assert_eq!(c.step(Event::Completed), Action::DisableDelay);
    assert_eq!(c.step(Event::Completed), Action::Deliver);
    assert_eq!(c.phase(), Phase::Established);
}

#[test]
fn source_bound_ipv6_binds_ephemeral_port() {
    let target = Endpoint::new(IpAddress::V6(1), 853);
    let (mut c, first) = Connector::start(ConnectRequest::new(target, Some(IpAddress::V6(1))));
    assert_eq!(first, Action::CreateSocket(AddressFamily::Inet6));
    assert_eq!(c.step(Event::Completed), Action::Bind(Endpoint::new(IpAddress::V6(1), 0)));
    assert_eq!(c.step(Event::Completed), Action::Dial(target));
}

#[test]
fn native_refused_is_reported_as_refused() {
    let (mut c, _) = Connector::start(ConnectRequest::new(loopback(9), None));
    let a = c.step(Event::Failed(FailureKind::ConnectionRefused));
    assert_eq!(a, Action::Fail(ConnectError::Os(FailureKind::ConnectionRefused)));
    assert_ne!(a, Action::Fail(ConnectError::Os(FailureKind::TimedOut)));
    assert!(c.is_finished());
    assert_eq!(c.phase(), Phase::Failed(ConnectError::Os(FailureKind::ConnectionRefused)));
}

#[test]
fn family_mismatch_fails_before_any_socket() {
    let request = ConnectRequest::new(loopback(53), Some(IpAddress::V6(1)));
    let (c, first) = Connector::start(request);
    let e = ConnectError::FamilyMismatch {
        local: AddressFamily::Inet6,
        remote: AddressFamily::Inet4,
    };
    assert_eq!(first, Action::Fail(e));
    assert!(c.is_finished());
    assert_eq!(c.phase(), Phase::Failed(e));
}

#[test]
fn family_mismatch_v4_source_v6_target() {
    let target = Endpoint::new(IpAddress::V6(1), 53);
    let (_, first) = Connector::start(ConnectRequest::new(target, Some(IpAddress::V4(LOOPBACK_V4))));
    assert_eq!(
        first,
        Action::Fail(ConnectError::FamilyMismatch {
            local: AddressFamily::Inet4,
            remote: AddressFamily::Inet6,
        })
    );
}

#[test]
fn creation_failure_fails_without_closing() {
    let request = ConnectRequest::new(loopback(53), Some(IpAddress::V4(LOOPBACK_V4)));
    let (mut c, _) = Connector::start(request);
    let a = c.step(Event::Failed(FailureKind::PermissionDenied));
    assert_eq!(a, Action::Fail(ConnectError::Os(FailureKind::PermissionDenied)));
    assert!(c.is_finished());
}

#[test]
fn bind_failure_closes_handle_then_fails() {
    let request = ConnectRequest::new(loopback(53), Some(IpAddress::V4(LOOPBACK_V4)));
    let (mut c, _) = Connector::start(request);
    c.step(Event::Completed);
    assert_eq!(c.step(Event::Failed(FailureKind::AddrNotAvailable)), Action::CloseHandle);
    assert_eq!(c.phase(), Phase::Closing(ConnectError::Os(FailureKind::AddrNotAvailable)));
    assert!(!c.is_finished());
    assert_eq!(
        c.step(Event::Completed),
        Action::Fail(ConnectError::Os(FailureKind::AddrNotAvailable))
    );
    assert!(c.is_finished());
}

#[test]
fn dial_refused_closes_handle_then_reports_refused() {
    let request = ConnectRequest::new(loopback(9), Some(IpAddress::V4(LOOPBACK_V4)));
    let (mut c, _) = Connector::start(request);
    c.step(Event::Completed);
    c.step(Event::Completed);
    assert_eq!(c.step(Event::Failed(FailureKind::ConnectionRefused)), Action::CloseHandle);
    assert_eq!(
        c.step(Event::Completed),
        Action::Fail(ConnectError::Os(FailureKind::ConnectionRefused))
    );
}

#[test]
fn delay_failure_closes_stream() {
    let (mut c, _) = Connector::start(ConnectRequest::new(loopback(53), None));
    assert_eq!(c.step(Event::Completed), Action::DisableDelay);
    assert_eq!(c.step(Event::Failed(FailureKind::Other)), Action::CloseHandle);
    assert_eq!(c.step(Event::Completed), Action::Fail(ConnectError::Os(FailureKind::Other)));
    assert_eq!(c.phase(), Phase::Failed(ConnectError::Os(FailureKind::Other)));
}

#[test]
fn addresses_report_their_family() {
    assert_eq!(IpAddress::V4(LOOPBACK_V4).family(), AddressFamily::Inet4);
    assert_eq!(IpAddress::V6(1).family(), AddressFamily::Inet6);
    assert_eq!(loopback(53).family(), AddressFamily::Inet4);
    let e = Endpoint::ephemeral(IpAddress::V6(1));
    assert_eq!(e.ip, IpAddress::V6(1));
    assert_eq!(e.port, 0);
}
