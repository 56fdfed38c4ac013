//! The result type used within the WebSocket core, and the conversions
//! that collapse every subsystem failure into it.

use vstd::prelude::*;
use vstd::std_specs::convert::FromSpec;
use vstd::string::StringExecFns;

verus! {

#[verifier::external_type_specification]
#[verifier::external_body]
pub struct ExIoError(std::io::Error);

#[verifier::external_type_specification]
#[verifier::external_body]
pub struct ExHttpError(hyper::Error);

#[verifier::external_type_specification]
#[verifier::external_body]
pub struct ExStatusCode(hyper::status::StatusCode);

#[verifier::external_type_specification]
#[verifier::external_body]
pub struct ExUrlParseError(url::ParseError);

#[verifier::external_type_specification]
#[verifier::external_body]
pub struct ExTlsError(native_tls::Error);

#[verifier::external_type_specification]
#[verifier::external_body]
#[verifier::reject_recursive_types(S)]
pub struct ExTlsHandshakeError<S>(native_tls::HandshakeError<S>);

/// Relies on `std::io::Error`'s `Display`: a human-readable message for
/// the wrapped I/O failure.
#[verifier::external_body]
fn io_error_message(e: &std::io::Error) -> String {
    e.to_string()
}

/// Relies on `native_tls::HandshakeError`: `WouldBlock` and `Failure` are
/// its only variants; returns whether `e` is the `WouldBlock` one.
#[verifier::external_body]
fn tls_handshake_would_block<S>(e: &native_tls::HandshakeError<S>) -> bool {
    match e {
        native_tls::HandshakeError::WouldBlock(_) => true,
        native_tls::HandshakeError::Failure(_) => false,
    }
}

/// Represents a WebSocket URL error: one of the three ways a URL can be
/// syntactically valid yet unusable for a WebSocket connection.
#[derive(Debug)]
pub enum WSUrlErrorKind {
    /// Fragments are not valid in a WebSocket URL
    CannotSetFragment,
    /// The scheme provided is invalid for a WebSocket
    InvalidScheme,
    /// There is no hostname or IP address to connect to
    NoHostName,
}

impl WSUrlErrorKind {
    /// The fixed diagnostic message of each kind.
    pub open spec fn description_spec(&self) -> Seq<char> {
        match self {
            WSUrlErrorKind::CannotSetFragment => "WebSocket URL cannot set fragment"@,
            WSUrlErrorKind::InvalidScheme => "WebSocket URL invalid scheme"@,
            WSUrlErrorKind::NoHostName => "WebSocket URL no host name provided"@,
        }
    }

    /// A stable, human-readable description of the URL error.
    pub fn description(&self) -> (r: &'static str)
        ensures
            r@ == self.description_spec(),
    {
        match self {
            WSUrlErrorKind::CannotSetFragment => "WebSocket URL cannot set fragment",
            WSUrlErrorKind::InvalidScheme => "WebSocket URL invalid scheme",
            WSUrlErrorKind::NoHostName => "WebSocket URL no host name provided",
        }
    }

    /// The stable display form: `"WebSocket Url Error: "` followed by the
    /// description.
    pub fn display_string(&self) -> (r: String)
        ensures
            r@ == "WebSocket Url Error: "@ + self.description_spec(),
    {
        let mut s = String::from_str("WebSocket Url Error: ");
        s.append(self.description());
        s
    }
}

/// Represents a WebSocket error while connecting: the canonical failure
/// taxonomy into which every subsystem failure is converted exactly once.
#[derive(Debug)]
pub enum WebSocketOtherError {
    /// A WebSocket protocol error
    ProtocolError(&'static str),
    /// Invalid WebSocket request error
    RequestError(&'static str),
    /// Invalid WebSocket response error
    ResponseError(&'static str),
    /// Received unexpected status code
    StatusCodeError(hyper::status::StatusCode),
    /// An HTTP parsing error
    HttpError(hyper::Error),
    /// A URL parsing error
    UrlError(url::ParseError),
    /// An input/output error
    IoError(std::io::Error),
    /// A WebSocket URL error
    WebSocketUrlError(WSUrlErrorKind),
    /// A TLS error
    TlsError(native_tls::Error),
    /// A TLS handshake failure: terminal, the cause is discarded by design
    TlsHandshakeFailure,
    /// A TLS handshake interruption: the handshake should be retried
    TlsHandshakeInterruption,
}

impl WebSocketOtherError {
    /// The fixed diagnostic message of each variant; `None` for the I/O
    /// variant, whose message is delegated to the wrapped cause.
    pub open spec fn fixed_description(&self) -> Option<Seq<char>> {
        match self {
            WebSocketOtherError::ProtocolError(m) => Some(m@),
            WebSocketOtherError::RequestError(_) => Some("WebSocket request error"@),
            WebSocketOtherError::ResponseError(_) => Some("WebSocket response error"@),
            WebSocketOtherError::StatusCodeError(_) => Some("Received unexpected status code"@),
            WebSocketOtherError::HttpError(_) => Some("HTTP failure"@),
            WebSocketOtherError::UrlError(_) => Some("URL failure"@),
            WebSocketOtherError::IoError(_) => None,
            WebSocketOtherError::WebSocketUrlError(_) => Some("WebSocket URL failure"@),
            WebSocketOtherError::TlsError(_) => Some("TLS failure"@),
            WebSocketOtherError::TlsHandshakeFailure => Some("TLS Handshake failure"@),
            WebSocketOtherError::TlsHandshakeInterruption => Some("TLS Handshake interrupted"@),
        }
    }

    /// Whether `d` is an admissible description of this error: the fixed
    /// message where one exists, anything for the delegated I/O variant.
    pub open spec fn description_is(&self, d: Seq<char>) -> bool {
        match self.fixed_description() {
            Some(m) => d == m,
            None => true,
        }
    }

    /// Which variants carry an underlying cause that remains accessible.
    pub open spec fn has_cause_spec(&self) -> bool {
        match self {
            WebSocketOtherError::HttpError(_) => true,
            WebSocketOtherError::UrlError(_) => true,
            WebSocketOtherError::TlsError(_) => true,
            WebSocketOtherError::WebSocketUrlError(_) => true,
            WebSocketOtherError::IoError(_) => true,
            _ => false,
        }
    }

    /// A stable, human-readable description: fixed per variant, delegated
    /// to the wrapped cause for the I/O variant.
    pub fn description(&self) -> (r: String)
        ensures
            self.description_is(r@),
    {
        match self {
            WebSocketOtherError::ProtocolError(m) => String::from_str(m),
            WebSocketOtherError::RequestError(_) => String::from_str("WebSocket request error"),
            WebSocketOtherError::ResponseError(_) => String::from_str("WebSocket response error"),
            WebSocketOtherError::StatusCodeError(_) => {
                String::from_str("Received unexpected status code")
            }
            WebSocketOtherError::HttpError(_) => String::from_str("HTTP failure"),
            WebSocketOtherError::UrlError(_) => String::from_str("URL failure"),
            WebSocketOtherError::IoError(e) => io_error_message(e),
            WebSocketOtherError::WebSocketUrlError(_) => String::from_str("WebSocket URL failure"),
            WebSocketOtherError::TlsError(_) => String::from_str("TLS failure"),
            WebSocketOtherError::TlsHandshakeFailure => String::from_str("TLS Handshake failure"),
            WebSocketOtherError::TlsHandshakeInterruption => {
                String::from_str("TLS Handshake interrupted")
            }
        }
    }

    /// Whether an underlying cause is accessible: true exactly for the
    /// HTTP, URL, TLS, WebSocket-URL and I/O wrapping variants.
    pub fn has_cause(&self) -> (r: bool)
        ensures
            r == self.has_cause_spec(),
    {
        match self {
            WebSocketOtherError::HttpError(_) => true,
            WebSocketOtherError::UrlError(_) => true,
            WebSocketOtherError::TlsError(_) => true,
            WebSocketOtherError::WebSocketUrlError(_) => true,
            WebSocketOtherError::IoError(_) => true,
            _ => false,
        }
    }

    /// The stable display form: `"WebSocketError: "` followed by the
    /// description. The prefix is exactly the first 16 characters.
    pub fn display_string(&self) -> (r: String)
        ensures
            r@.len() >= 16,
            r@.subrange(0, 16) == "WebSocketError: "@,
            self.description_is(r@.skip(16)),
    {
        let d = self.description();
        let mut s = String::from_str("WebSocketError: ");
        s.append(d.as_str());
        proof {
            reveal_strlit("WebSocketError: ");
            assert(s@.subrange(0, 16) =~= "WebSocketError: "@);
            assert(s@.skip(16) =~= d@);
        }
        s
    }
}

/// An upgrade-negotiation failure raised by the handshake collaborator
/// while turning an incoming HTTP request into a WebSocket connection.
#[derive(Debug)]
pub enum HyperIntoWsError {
    /// An I/O failure while reading the request
    Io(std::io::Error),
    /// The request could not be parsed as HTTP
    Parsing(hyper::Error),
    /// The request method was not GET
    MethodNotGet,
    /// The request HTTP version is unsupported
    UnsupportedHttpVersion,
    /// The requested WebSocket version is unsupported
    UnsupportedWebsocketVersion,
    /// The `Sec-WebSocket-Key` header is missing
    NoSecWsKeyHeader,
    /// The `Upgrade` header does not name WebSocket
    NoWsUpgradeHeader,
    /// The `Upgrade` header is missing
    NoUpgradeHeader,
    /// The `Connection` header does not ask for an upgrade
    NoWsConnectionHeader,
    /// The `Connection` header is missing
    NoConnectionHeader,
}

/// A composite failure raised by the HTTP codec collaborator: either raw
/// I/O failed or the bytes did not parse as HTTP.
#[derive(Debug)]
pub enum HttpCodecError {
    /// An I/O failure
    Io(std::io::Error),
    /// The bytes did not parse as HTTP
    Http(hyper::Error),
}

impl From<hyper::Error> for WebSocketOtherError {
    fn from(err: hyper::Error) -> (r: WebSocketOtherError) {
        WebSocketOtherError::HttpError(err)
    }
}

impl vstd::std_specs::convert::FromSpecImpl<hyper::Error> for WebSocketOtherError {
    open spec fn obeys_from_spec() -> bool {
        true
    }

    open spec fn from_spec(v: hyper::Error) -> WebSocketOtherError {
        WebSocketOtherError::HttpError(v)
    }
}

impl From<url::ParseError> for WebSocketOtherError {
    fn from(err: url::ParseError) -> (r: WebSocketOtherError) {
        WebSocketOtherError::UrlError(err)
    }
}

impl vstd::std_specs::convert::FromSpecImpl<url::ParseError> for WebSocketOtherError {
    open spec fn obeys_from_spec() -> bool {
        true
    }

    open spec fn from_spec(v: url::ParseError) -> WebSocketOtherError {
        WebSocketOtherError::UrlError(v)
    }
}

impl From<native_tls::Error> for WebSocketOtherError {
    fn from(err: native_tls::Error) -> (r: WebSocketOtherError) {
        WebSocketOtherError::TlsError(err)
    }
}

impl vstd::std_specs::convert::FromSpecImpl<native_tls::Error> for WebSocketOtherError {
    open spec fn obeys_from_spec() -> bool {
        true
    }

    open spec fn from_spec(v: native_tls::Error) -> WebSocketOtherError {
        WebSocketOtherError::TlsError(v)
    }
}

impl From<WSUrlErrorKind> for WebSocketOtherError {
    fn from(err: WSUrlErrorKind) -> (r: WebSocketOtherError) {
        WebSocketOtherError::WebSocketUrlError(err)
    }
}

impl vstd::std_specs::convert::FromSpecImpl<WSUrlErrorKind> for WebSocketOtherError {
    open spec fn obeys_from_spec() -> bool {
        true
    }

    open spec fn from_spec(v: WSUrlErrorKind) -> WebSocketOtherError {
        WebSocketOtherError::WebSocketUrlError(v)
    }
}

impl From<HyperIntoWsError> for WebSocketOtherError {
    fn from(err: HyperIntoWsError) -> (r: WebSocketOtherError) {
        match err {
            HyperIntoWsError::Io(io) => WebSocketOtherError::IoError(io),
            HyperIntoWsError::Parsing(err) => WebSocketOtherError::HttpError(err),
            HyperIntoWsError::MethodNotGet => {
                WebSocketOtherError::ProtocolError("Request method must be GET")
            }
            HyperIntoWsError::UnsupportedHttpVersion => {
                WebSocketOtherError::ProtocolError("Unsupported request HTTP version")
            }
            HyperIntoWsError::UnsupportedWebsocketVersion => {
                WebSocketOtherError::ProtocolError("Unsupported WebSocket version")
            }
            HyperIntoWsError::NoSecWsKeyHeader => {
                WebSocketOtherError::ProtocolError("Missing Sec-WebSocket-Key header")
            }
            HyperIntoWsError::NoWsUpgradeHeader => {
                WebSocketOtherError::ProtocolError("Invalid Upgrade WebSocket header")
            }
            HyperIntoWsError::NoUpgradeHeader => {
                WebSocketOtherError::ProtocolError("Missing Upgrade WebSocket header")
            }
            HyperIntoWsError::NoWsConnectionHeader => {
                WebSocketOtherError::ProtocolError("Invalid Connection WebSocket header")
            }
            HyperIntoWsError::NoConnectionHeader => {
                WebSocketOtherError::ProtocolError("Missing Connection WebSocket header")
            }
        }
    }
}

impl vstd::std_specs::convert::FromSpecImpl<HyperIntoWsError> for WebSocketOtherError {
    open spec fn obeys_from_spec() -> bool {
        true
    }

    open spec fn from_spec(v: HyperIntoWsError) -> WebSocketOtherError {
        match v {
            HyperIntoWsError::Io(io) => WebSocketOtherError::IoError(io),
            HyperIntoWsError::Parsing(err) => WebSocketOtherError::HttpError(err),
            HyperIntoWsError::MethodNotGet => {
                WebSocketOtherError::ProtocolError("Request method must be GET")
            },
            HyperIntoWsError::UnsupportedHttpVersion => {
                WebSocketOtherError::ProtocolError("Unsupported request HTTP version")
            },
            HyperIntoWsError::UnsupportedWebsocketVersion => {
                WebSocketOtherError::ProtocolError("Unsupported WebSocket version")
            },
            HyperIntoWsError::NoSecWsKeyHeader => {
                WebSocketOtherError::ProtocolError("Missing Sec-WebSocket-Key header")
            },
            HyperIntoWsError::NoWsUpgradeHeader => {
                WebSocketOtherError::ProtocolError("Invalid Upgrade WebSocket header")
            },
            HyperIntoWsError::NoUpgradeHeader => {
                WebSocketOtherError::ProtocolError("Missing Upgrade WebSocket header")
            },
            HyperIntoWsError::NoWsConnectionHeader => {
                WebSocketOtherError::ProtocolError("Invalid Connection WebSocket header")
            },
            HyperIntoWsError::NoConnectionHeader => {
                WebSocketOtherError::ProtocolError("Missing Connection WebSocket header")
            },
        }
    }
}

impl From<HttpCodecError> for WebSocketOtherError {
    fn from(src: HttpCodecError) -> (r: WebSocketOtherError) {
        match src {
            HttpCodecError::Io(e) => WebSocketOtherError::IoError(e),
            HttpCodecError::Http(e) => WebSocketOtherError::HttpError(e),
        }
    }
}

impl vstd::std_specs::convert::FromSpecImpl<HttpCodecError> for WebSocketOtherError {
    open spec fn obeys_from_spec() -> bool {
        true
    }

    open spec fn from_spec(v: HttpCodecError) -> WebSocketOtherError {
        match v {
            HttpCodecError::Io(e) => WebSocketOtherError::IoError(e),
            HttpCodecError::Http(e) => WebSocketOtherError::HttpError(e),
        }
    }
}

impl WebSocketOtherError {
    /// The variant a TLS handshake outcome maps to: the interruption when
    /// the handshake merely would block, the terminal failure otherwise.
    /// Both discard the cause by design: only the category is actionable.
    pub open spec fn tls_handshake_outcome(would_block: bool) -> WebSocketOtherError {
        if would_block {
            WebSocketOtherError::TlsHandshakeInterruption
        } else {
            WebSocketOtherError::TlsHandshakeFailure
        }
    }

    /// Maps a TLS handshake outcome onto the taxonomy, given whether the
    /// handshake was interrupted by a would-block condition.
    pub fn from_tls_handshake_outcome(would_block: bool) -> (r: WebSocketOtherError)
        ensures
            r == Self::tls_handshake_outcome(would_block),
    {
        if would_block {
            WebSocketOtherError::TlsHandshakeInterruption
        } else {
            WebSocketOtherError::TlsHandshakeFailure
        }
    }
}

impl<S> From<native_tls::HandshakeError<S>> for WebSocketOtherError {
    fn from(err: native_tls::HandshakeError<S>) -> (r: WebSocketOtherError)
        ensures
            r is TlsHandshakeFailure || r is TlsHandshakeInterruption,
            !r.has_cause_spec(),
    {
        WebSocketOtherError::from_tls_handshake_outcome(tls_handshake_would_block(&err))
    }
}

impl<S> vstd::std_specs::convert::FromSpecImpl<native_tls::HandshakeError<S>>
    for WebSocketOtherError {
    open spec fn obeys_from_spec() -> bool {
        false
    }

    open spec fn from_spec(v: native_tls::HandshakeError<S>) -> WebSocketOtherError {
        WebSocketOtherError::TlsHandshakeFailure
    }
}

/// The error type carried by every result in the surrounding system. The
/// taxonomy is closed: outside callers wrap this core's error value as a
/// cause inside their own rather than adding leaf variants here.
#[derive(Debug)]
pub enum WebSocketError {
    /// A failure normalized through the canonical taxonomy
    Other(WebSocketOtherError),
}

/// The type used for WebSocket results.
pub type WebSocketResult<T> = Result<T, WebSocketError>;

impl From<WebSocketOtherError> for WebSocketError {
    fn from(e: WebSocketOtherError) -> (r: WebSocketError) {
        WebSocketError::Other(e)
    }
}

impl vstd::std_specs::convert::FromSpecImpl<WebSocketOtherError> for WebSocketError {
    open spec fn obeys_from_spec() -> bool {
        true
    }

    open spec fn from_spec(v: WebSocketOtherError) -> WebSocketError {
        WebSocketError::Other(v)
    }
}

/// The single funnel through which every subsystem failure enters the
/// taxonomy: any value convertible into the canonical error is converted
/// and then wrapped into the result error type.
pub fn towse<E: Into<WebSocketOtherError>>(e: E) -> (r: WebSocketError)
    ensures
        <E as vstd::std_specs::convert::IntoSpec<WebSocketOtherError>>::obeys_into_spec()
            ==> r == WebSocketError::Other(
                <E as vstd::std_specs::convert::IntoSpec<WebSocketOtherError>>::into_spec(e),
            ),
{
    let e: WebSocketOtherError = e.into();
    WebSocketError::Other(e)
}

/// Law: converting an HTTP-parsing, URL-parsing, TLS or WebSocket-URL
/// failure yields the documented wrapping variant, preserves the failure
/// itself as the accessible cause, and fixes the documented description.
pub proof fn lemma_wrapping_conversions_round_trip(
    h: hyper::Error,
    u: url::ParseError,
    t: native_tls::Error,
    k: WSUrlErrorKind,
)
    ensures
        ({
            let c = <WebSocketOtherError as FromSpec<hyper::Error>>::from_spec(h);
            c == WebSocketOtherError::HttpError(h) && c.has_cause_spec()
                && c.fixed_description() == Some("HTTP failure"@)
        }),
        ({
            let c = <WebSocketOtherError as FromSpec<url::ParseError>>::from_spec(u);
            c == WebSocketOtherError::UrlError(u) && c.has_cause_spec()
                && c.fixed_description() == Some("URL failure"@)
        }),
        ({
            let c = <WebSocketOtherError as FromSpec<native_tls::Error>>::from_spec(t);
            c == WebSocketOtherError::TlsError(t) && c.has_cause_spec()
                && c.fixed_description() == Some("TLS failure"@)
        }),
        ({
            let c = <WebSocketOtherError as FromSpec<WSUrlErrorKind>>::from_spec(k);
            c == WebSocketOtherError::WebSocketUrlError(k) && c.has_cause_spec()
                && c.fixed_description() == Some("WebSocket URL failure"@)
        }),
{
}

/// Law: the upgrade-negotiation conversion table. Each negotiation defect
/// maps to a protocol error with its documented static message and no
/// cause; the I/O and parsing cases map to the wrapping variants and
/// preserve their cause.
pub proof fn lemma_upgrade_conversion_round_trip(e: HyperIntoWsError)
    ensures
        ({
            let c = <WebSocketOtherError as FromSpec<HyperIntoWsError>>::from_spec(e);
            match e {
                HyperIntoWsError::Io(io) => c == WebSocketOtherError::IoError(io)
                    && c.has_cause_spec(),
                HyperIntoWsError::Parsing(h) => c == WebSocketOtherError::HttpError(h)
                    && c.has_cause_spec() && c.fixed_description() == Some("HTTP failure"@),
                HyperIntoWsError::MethodNotGet => !c.has_cause_spec()
                    && c.fixed_description() == Some("Request method must be GET"@),
                HyperIntoWsError::UnsupportedHttpVersion => !c.has_cause_spec()
                    && c.fixed_description() == Some("Unsupported request HTTP version"@),
                HyperIntoWsError::UnsupportedWebsocketVersion => !c.has_cause_spec()
                    && c.fixed_description() == Some("Unsupported WebSocket version"@),
                HyperIntoWsError::NoSecWsKeyHeader => !c.has_cause_spec()
                    && c.fixed_description() == Some("Missing Sec-WebSocket-Key header"@),
                HyperIntoWsError::NoWsUpgradeHeader => !c.has_cause_spec()
                    && c.fixed_description() == Some("Invalid Upgrade WebSocket header"@),
                HyperIntoWsError::NoUpgradeHeader => !c.has_cause_spec()
                    && c.fixed_description() == Some("Missing Upgrade WebSocket header"@),
                HyperIntoWsError::NoWsConnectionHeader => !c.has_cause_spec()
                    && c.fixed_description() == Some("Invalid Connection WebSocket header"@),
                HyperIntoWsError::NoConnectionHeader => !c.has_cause_spec()
                    && c.fixed_description() == Some("Missing Connection WebSocket header"@),
            }
        }),
        !(e is Io || e is Parsing) ==> (
            <WebSocketOtherError as FromSpec<HyperIntoWsError>>::from_spec(e) is ProtocolError
        ),
{
}

/// Law: the composite HTTP-codec failure is unwrapped to the I/O or the
/// HTTP wrapping variant according to which inner case fired, and the
/// inner failure stays accessible as the cause.
pub proof fn lemma_codec_conversion_round_trip(e: HttpCodecError)
    ensures
        ({
            let c = <WebSocketOtherError as FromSpec<HttpCodecError>>::from_spec(e);
            match e {
                HttpCodecError::Io(io) => c == WebSocketOtherError::IoError(io)
                    && c.has_cause_spec(),
                HttpCodecError::Http(h) => c == WebSocketOtherError::HttpError(h)
                    && c.has_cause_spec() && c.fixed_description() == Some("HTTP failure"@),
            }
        }),
{
}

/// Law: a TLS handshake outcome maps to one of the two terminal handshake
/// variants — the interruption exactly when the handshake would block —
/// and neither leaves a cause accessible.
pub proof fn lemma_tls_handshake_conversion(would_block: bool)
    ensures
        ({
            let c = WebSocketOtherError::tls_handshake_outcome(would_block);
            (c == if would_block {
                WebSocketOtherError::TlsHandshakeInterruption
            } else {
                WebSocketOtherError::TlsHandshakeFailure
            }) && !c.has_cause_spec() && c.fixed_description() == Some(
                if would_block {
                    "TLS Handshake interrupted"@
                } else {
                    "TLS Handshake failure"@
                },
            )
        }),
{
}

} // verus!
