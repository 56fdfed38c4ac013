use websocket_core::result::{
    towse, HttpCodecError, HyperIntoWsError, WSUrlErrorKind, WebSocketError, WebSocketOtherError,
};

#[test]
fn missing_sec_ws_key_is_protocol_error() {
    let e = WebSocketOtherError::from(HyperIntoWsError::NoSecWsKeyHeader);
    assert!(matches!(e, WebSocketOtherError::ProtocolError(_)));
    assert_eq!(e.description(), "Missing Sec-WebSocket-Key header");
    assert_eq!(
        e.display_string(),
        "WebSocketError: Missing Sec-WebSocket-Key header"
    );
    assert!(!e.has_cause());
}

#[test]
fn upgrade_conversion_table() {
    let cases: Vec<(HyperIntoWsError, &str)> = vec![
        (HyperIntoWsError::MethodNotGet, "Request method must be GET"),
        (
            HyperIntoWsError::UnsupportedHttpVersion,
            "Unsupported request HTTP version",
        ),
        (
            HyperIntoWsError::UnsupportedWebsocketVersion,
            "Unsupported WebSocket version",
        ),
        (
            HyperIntoWsError::NoSecWsKeyHeader,
            "Missing Sec-WebSocket-Key header",
        ),
        (
            HyperIntoWsError::NoWsUpgradeHeader,
            "Invalid Upgrade WebSocket header",
        ),
        (
            HyperIntoWsError::NoUpgradeHeader,
            "Missing Upgrade WebSocket header",
        ),
        (
            HyperIntoWsError::NoWsConnectionHeader,
            "Invalid Connection WebSocket header",
        ),
        (
            HyperIntoWsError::NoConnectionHeader,
            "Missing Connection WebSocket header",
        ),
    ];
    for (src, msg) in cases {
        let e = WebSocketOtherError::from(src);
        assert!(matches!(e, WebSocketOtherError::ProtocolError(_)));
        assert_eq!(e.description(), msg);
        assert!(!e.has_cause());
    }
}

#[test]
fn upgrade_io_and_parsing_preserve_cause() {
    let io = std::io::Error::new(std::io::ErrorKind::InvalidData, "broken pipe mid-request");
    let e = WebSocketOtherError::from(HyperIntoWsError::Io(io));
    match &e {
        WebSocketOtherError::IoError(inner) => {
            assert_eq!(inner.kind(), std::io::ErrorKind::InvalidData);
        }
        other => panic!("expected IoError, got {:?}", other),
    }
    assert!(e.has_cause());

    let e = WebSocketOtherError::from(HyperIntoWsError::Parsing(hyper::Error::Method));
    match &e {
        WebSocketOtherError::HttpError(inner) => {
            assert!(matches!(inner, hyper::Error::Method));
        }
        other => panic!("expected HttpError, got {:?}", other),
    }
    assert_eq!(e.description(), "HTTP failure");
    assert!(e.has_cause());
}

#[test]
fn http_error_conversion_round_trip() {
    let e = WebSocketOtherError::from(hyper::Error::Header);
    assert!(matches!(
        e,
        WebSocketOtherError::HttpError(hyper::Error::Header)
    ));
    assert_eq!(e.description(), "HTTP failure");
    assert_eq!(e.display_string(), "WebSocketError: HTTP failure");
    assert!(e.has_cause());
}

#[test]
fn url_error_conversion_round_trip() {
    let parse_err = url::Url::parse("http://").unwrap_err();
    let e = WebSocketOtherError::from(parse_err);
    match &e {
        WebSocketOtherError::UrlError(inner) => assert_eq!(*inner, parse_err),
        other => panic!("expected UrlError, got {:?}", other),
    }
    assert_eq!(e.description(), "URL failure");
    assert!(e.has_cause());
}

#[test]
fn tls_error_conversion_round_trip() {
    let tls_err = match native_tls::Identity::from_pkcs12(&[0u8, 1, 2, 3], "pw") {
        Err(err) => err,
        Ok(_) => panic!("parsing garbage as PKCS#12 must fail"),
    };
    let e = WebSocketOtherError::from(tls_err);
    assert!(matches!(e, WebSocketOtherError::TlsError(_)));
    assert_eq!(e.description(), "TLS failure");
    assert!(e.has_cause());
}

#[test]
fn tls_would_block_is_interruption_without_cause() {
    let e = WebSocketOtherError::from_tls_handshake_outcome(true);
    assert!(matches!(e, WebSocketOtherError::TlsHandshakeInterruption));
    assert_eq!(e.description(), "TLS Handshake interrupted");
    assert!(!e.has_cause());
}

#[test]
fn tls_fatal_outcome_is_terminal_failure() {
    let e = WebSocketOtherError::from_tls_handshake_outcome(false);
    assert!(matches!(e, WebSocketOtherError::TlsHandshakeFailure));
    assert_eq!(e.description(), "TLS Handshake failure");
    assert!(!e.has_cause());
}

#[test]
fn codec_conversion_unwraps_inner_case() {
    let io = std::io::Error::new(std::io::ErrorKind::UnexpectedEof, "short read");
    let e = WebSocketOtherError::from(HttpCodecError::Io(io));
    match &e {
        WebSocketOtherError::IoError(inner) => {
            assert_eq!(inner.kind(), std::io::ErrorKind::UnexpectedEof);
        }
        other => panic!("expected IoError, got {:?}", other),
    }
    assert!(e.has_cause());

    let e = WebSocketOtherError::from(HttpCodecError::Http(hyper::Error::TooLarge));
    assert!(matches!(
        e,
        WebSocketOtherError::HttpError(hyper::Error::TooLarge)
    ));
    assert_eq!(e.description(), "HTTP failure");
}

#[test]
fn ws_url_kind_descriptions() {
    assert_eq!(
        WSUrlErrorKind::CannotSetFragment.description(),
        "WebSocket URL cannot set fragment"
    );
    assert_eq!(
        WSUrlErrorKind::InvalidScheme.description(),
        "WebSocket URL invalid scheme"
    );
    assert_eq!(
        WSUrlErrorKind::NoHostName.description(),
        "WebSocket URL no host name provided"
    );
    assert_eq!(
        WSUrlErrorKind::InvalidScheme.display_string(),
        "WebSocket Url Error: WebSocket URL invalid scheme"
    );
}

#[test]
fn ws_url_kind_conversion_round_trip() {
    let e = WebSocketOtherError::from(WSUrlErrorKind::NoHostName);
    assert!(matches!(
        e,
        WebSocketOtherError::WebSocketUrlError(WSUrlErrorKind::NoHostName)
    ));
    assert_eq!(e.description(), "WebSocket URL failure");
    assert_eq!(e.display_string(), "WebSocketError: WebSocket URL failure");
    assert!(e.has_cause());
}

#[test]
fn status_code_error_has_fixed_description() {
    let e = WebSocketOtherError::StatusCodeError(hyper::status::StatusCode::ImATeapot);
    assert_eq!(e.description(), "Received unexpected status code");
    assert!(!e.has_cause());
}

#[test]
fn io_error_description_is_delegated() {
    let io = std::io::Error::new(std::io::ErrorKind::Other, "socket vanished");
    let e = WebSocketOtherError::IoError(io);
    assert_eq!(e.description(), "socket vanished");
    assert_eq!(e.display_string(), "WebSocketError: socket vanished");
    assert!(e.has_cause());
}

#[test]
fn request_and_response_errors_have_fixed_descriptions() {
    let e = WebSocketOtherError::RequestError("bad request line");
    assert_eq!(e.description(), "WebSocket request error");
    assert!(!e.has_cause());
    let e = WebSocketOtherError::ResponseError("bad status line");
    assert_eq!(e.description(), "WebSocket response error");
    assert!(!e.has_cause());
}

#[test]
fn towse_funnels_through_the_taxonomy() {
    let w = towse(HyperIntoWsError::MethodNotGet);
    let WebSocketError::Other(inner) = w;
    assert!(matches!(inner, WebSocketOtherError::ProtocolError(_)));
    assert_eq!(inner.description(), "Request method must be GET");

    let w = towse(hyper::Error::Version);
    let WebSocketError::Other(inner) = w;
    assert!(matches!(
        inner,
        WebSocketOtherError::HttpError(hyper::Error::Version)
    ));
}
