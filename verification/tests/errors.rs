use tms_provider::errors::{status_line, ProviderError, ServiceError, SourceError};

#[test]
fn provider_error_messages() {
    let e = ProviderError::ApplicationConfigFileError("no such file".to_string());
    assert_eq!(
        e.message(),
        "TMS Provider was unable to read application config file; details: no such file"
    );
    let e = ProviderError::ApplicationConfigError("bad port".to_string());
    assert_eq!(
        e.message(),
        "TMS Provider was unable to read configuration sources; details: bad port"
    );
}

#[test]
fn source_error_messages() {
    assert_eq!(SourceError::ProviderNotFound("p".into()).message(), "Provider not found: p");
    assert_eq!(SourceError::AccountNotFound("a".into()).message(), "Account not found: a");
    assert_eq!(SourceError::ResourceNotFound("r".into()).message(), "Resource not found: r");
    assert_eq!(SourceError::IOError("denied".into()).message(), "I/O Error: denied");
    assert_eq!(
        SourceError::GenericError(404, "gone".into()).message(),
        "Generic error: 404 Not Found"
    );
    assert_eq!(
        SourceError::GenericError(503, "later".into()).message(),
        "Generic error: 503 Service Unavailable"
    );
    assert_eq!(
        SourceError::GenericError(42, "odd".into()).message(),
        "Generic error: 42 <unknown status code>"
    );
}

#[test]
fn service_error_messages() {
    let e = ServiceError::FromSource(SourceError::AccountNotFound("a".into()));
    assert_eq!(e.message(), "Data source error: Account not found: a");
    let e = ServiceError::AuthenticationError { error: "expired".into() };
    assert_eq!(e.message(), "Authentication error: expired");
}

#[test]
fn not_found_errors_reply_404_with_their_message() {
    for (e, text) in [
        (SourceError::ProviderNotFound("p".into()), "Provider not found: p"),
        (SourceError::AccountNotFound("a".into()), "Account not found: a"),
        (SourceError::ResourceNotFound("r".into()), "Resource not found: r"),
    ] {
        let r = e.reply();
        assert_eq!(r.code, 404);
        assert_eq!(r.message, None);
        assert_eq!(r.error.as_deref(), Some(text));
    }
}

#[test]
fn io_error_replies_500_with_its_text() {
    let r = SourceError::IOError("disk on fire".into()).reply();
    assert_eq!(r.code, 500);
    assert_eq!(r.message, None);
    assert_eq!(r.error.as_deref(), Some("disk on fire"));
}

#[test]
fn generic_error_replies_with_its_code_and_message() {
    let r = SourceError::GenericError(418, "teapot".into()).reply();
    assert_eq!(r.code, 418);
    assert_eq!(r.message.as_deref(), Some("teapot"));
    assert_eq!(r.error, None);
}

#[test]
fn service_error_replies() {
    let r = ServiceError::AuthenticationError { error: "no token".into() }.reply();
    assert_eq!(r.code, 403);
    assert_eq!(r.message, None);
    assert_eq!(r.error.as_deref(), Some("no token"));
    let r = ServiceError::FromSource(SourceError::ResourceNotFound("r".into())).reply();
    assert_eq!(r.code, 404);
    assert_eq!(r.error.as_deref(), Some("Resource not found: r"));
}

#[test]
fn status_lines() {
    assert_eq!(status_line(404, Some("Not Found")), "404 Not Found");
    assert_eq!(status_line(7, None), "7 <unknown status code>");
}
