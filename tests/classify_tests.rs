use ssh_probe::classify::{classify, route, Classified, ConnectErrorKind, Route};

#[test]
fn classify_permission_denied_goes_pre_auth() {
    let c = classify::<u8, &str>(Err((ConnectErrorKind::PermissionDenied, "denied")));
    assert_eq!(c, Classified::AuthRejected);
    assert_eq!(route(c), Route::PreAuth { login_denied: true });
}

#[test]
fn classify_connection_refused_goes_pre_auth() {
    let c = classify::<u8, &str>(Err((ConnectErrorKind::ConnectionRefused, "refused")));
    assert_eq!(c, Classified::Unreachable);
    assert_eq!(route(c), Route::PreAuth { login_denied: false });
}

#[test]
fn classify_other_error_aborts() {
    let c = classify::<u8, &str>(Err((ConnectErrorKind::Other, "broken pipe")));
    assert_eq!(c, Classified::Fatal("broken pipe"));
    assert_eq!(route(c), Route::Abort("broken pipe"));
}

#[test]
fn classify_session_goes_to_echo() {
    let c = classify::<u8, &str>(Ok(7));
    assert_eq!(c, Classified::Authenticated(7));
    assert_eq!(route(c), Route::Echo(7));
}
