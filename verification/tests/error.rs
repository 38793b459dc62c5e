use darkmode::error::{Error, ErrorKind};

#[test]
fn new_keeps_kind_and_cause() {
    let error = Error::new(ErrorKind::MethodCall, "no such method");
    assert_eq!(error.kind(), ErrorKind::MethodCall);
    assert_eq!(*error.cause(), "no such method");
    assert_eq!(error.kind, ErrorKind::MethodCall);
    assert_eq!(error.cause, "no such method");
}

#[test]
fn new_builds_each_kind() {
    for kind in [ErrorKind::Connection, ErrorKind::MethodCall, ErrorKind::SignalRegistration] {
        let error = Error::new(kind, 7u8);
        assert_eq!(error, Error { kind, cause: 7u8 });
    }
}

#[test]
fn into_cause_hands_the_cause_back() {
    let error = Error::new(ErrorKind::Connection, String::from("no session bus"));
    assert_eq!(error.into_cause(), "no session bus");
}

#[test]
fn errors_differ_by_kind_and_by_cause() {
    let error = Error::new(ErrorKind::Connection, 1u8);
    assert_ne!(error, Error::new(ErrorKind::MethodCall, 1u8));
    assert_ne!(error, Error::new(ErrorKind::Connection, 2u8));
}

#[test]
fn error_wraps_a_bus_error() {
    let cause = dbus::Error::new_failed("portal went away");
    let error = Error::new(ErrorKind::SignalRegistration, cause);
    assert_eq!(error.kind(), ErrorKind::SignalRegistration);
    assert_eq!(error.cause().message(), Some("portal went away"));
    assert_eq!(error.cause().name(), Some("org.freedesktop.DBus.Error.Failed"));
    assert_eq!(error.into_cause().to_string(), "portal went away");
}
