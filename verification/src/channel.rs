//! Opening the channel to the backend.
//!
//! The channel is made by `tonic`: an endpoint is built from the address,
//! gets its time limits, is secured with TLS where that is asked for, and
//! is then dialled. This module builds the endpoint and decides what each
//! failure on the way amounts to. Reading the CA certificate and dialling
//! are left to the caller, who hands back what came of them.

use crate::triton_client::{TritonError, TritonErrorView};
use vstd::prelude::*;

verus! {

/// The longest that opening the channel may take, in seconds.
pub const CONNECT_TIMEOUT_SECS: u64 = 5;

/// The longest that one call on the channel may take, in seconds.
pub const REQUEST_TIMEOUT_SECS: u64 = 15;

/// A URI as `http` parses it, carried as it is.
#[verifier::external_type_specification]
#[verifier::external_body]
pub struct ExUri(http::Uri);

/// The error of `http`'s URI parser, carried as it is.
#[verifier::external_type_specification]
#[verifier::external_body]
pub struct ExInvalidUri(http::uri::InvalidUri);

/// `tonic`'s builder of a channel, carried as it is.
#[verifier::external_type_specification]
#[verifier::external_body]
pub struct ExEndpoint(tonic::transport::Endpoint);

/// `tonic`'s TLS configuration of a client, carried as it is.
#[verifier::external_type_specification]
#[verifier::external_body]
pub struct ExClientTlsConfig(tonic::transport::ClientTlsConfig);

/// The error of `tonic`'s transport, carried as it is.
#[verifier::external_type_specification]
#[verifier::external_body]
pub struct ExTransportError(tonic::transport::Error);

/// What a TLS configuration holds: the domain that the server is checked
/// against, if one was set, and the PEM texts of the CA certificates that
/// were added, in the order in which they were added.
pub type TlsSettings = (Option<Seq<char>>, Seq<Seq<u8>>);

/// What an endpoint holds: the time limit for connecting and the one for a
/// request, in seconds, each if it was set, and the TLS settings that the
/// endpoint was secured with, if it was.
pub type EndpointSettings = (Option<u64>, Option<u64>, Option<TlsSettings>);

/// What `http`'s parser makes of a text: the host of the URI, if it has
/// one, or the words of the parser's error where the text is no URI.
pub uninterp spec fn uri_host(text: Seq<char>) -> Result<Option<Seq<char>>, Seq<char>>;

/// The host of a parsed URI, if it has one.
pub uninterp spec fn host_of(uri: http::Uri) -> Option<Seq<char>>;

/// The words of an error of `http`'s parser, as its `Display` impl writes
/// them.
pub uninterp spec fn uri_error_words(error: http::uri::InvalidUri) -> Seq<char>;

/// The settings that an endpoint was built with.
pub uninterp spec fn endpoint_settings(endpoint: tonic::transport::Endpoint) -> EndpointSettings;

/// The settings that a TLS configuration was built with.
pub uninterp spec fn tls_settings(tls: tonic::transport::ClientTlsConfig) -> TlsSettings;

/// `tonic` can build a TLS connector for this domain with these CA
/// certificates as its only trust roots, and with no identity of the
/// client: the domain is a server name, and every certificate in the PEM
/// texts can be read.
pub uninterp spec fn tls_accepts(domain: Seq<char>, roots: Seq<Seq<u8>>) -> bool;

/// The words of an error of `tonic`'s transport, as its `Display` impl
/// writes them.
pub uninterp spec fn transport_error_words(error: tonic::transport::Error) -> Seq<char>;

/// `tonic` takes the text as the address of an endpoint: it does where the
/// text is a URI, for it parses the address with `http`'s parser.
pub open spec fn endpoint_accepts(address: Seq<char>) -> bool {
    uri_host(address) is Ok
}

/// Parses `text` as a URI with `http::Uri`'s `FromStr`. The contract only
/// names the outcome: `uri_host` of the text is the host of the URI that
/// comes back, or the words of the error that does.
#[verifier::external_body]
fn parse_uri(text: &str) -> (r: Result<http::Uri, http::uri::InvalidUri>)
    ensures
        match r {
            Ok(uri) => uri_host(text@) == Ok::<Option<Seq<char>>, Seq<char>>(host_of(uri)),
            Err(error) => uri_host(text@) == Err::<Option<Seq<char>>, Seq<char>>(
                uri_error_words(error),
            ),
        },
{
    text.parse::<http::Uri>()
}

/// The host of a URI, from `Uri::host`, as an owned text.
#[verifier::external_body]
fn uri_host_text(uri: &http::Uri) -> (host: Option<String>)
    ensures
        match host {
            Some(text) => host_of(*uri) == Some(text@),
            None => host_of(*uri) is None,
        },
{
    uri.host().map(|host| host.to_string())
}

/// The words of `http::uri::InvalidUri`, as its `Display` impl writes them.
#[verifier::external_body]
fn invalid_uri_text(error: &http::uri::InvalidUri) -> (text: String)
    ensures
        text@ == uri_error_words(*error),
{
    error.to_string()
}

/// Makes an endpoint with `Endpoint::from_shared`, which parses the address
/// with `http`'s parser, and so takes it exactly where it is a URI, and
/// sets no time limit and no TLS. Its error is of the kind whose words are
/// `invalid URI`.
#[verifier::external_body]
fn endpoint_from_shared(uri: String) -> (r: Result<
    tonic::transport::Endpoint,
    tonic::transport::Error,
>)
    ensures
        r is Ok <==> uri_host(uri@) is Ok,
        r matches Ok(endpoint) ==> endpoint_settings(endpoint) == (
            None::<u64>,
            None::<u64>,
            None::<TlsSettings>,
        ),
        r matches Err(error) ==> transport_error_words(error) == "invalid URI"@,
{
    tonic::transport::Endpoint::from_shared(uri)
}

/// Sets the time limit for connecting with `Endpoint::connect_timeout`,
/// which changes nothing else.
#[verifier::external_body]
fn endpoint_connect_timeout(endpoint: tonic::transport::Endpoint, secs: u64) -> (r:
    tonic::transport::Endpoint)
    ensures
        endpoint_settings(r) == (
            Some(secs),
            endpoint_settings(endpoint).1,
            endpoint_settings(endpoint).2,
        ),
{
    endpoint.connect_timeout(std::time::Duration::from_secs(secs))
}

/// Sets the time limit for each request with `Endpoint::timeout`, which
/// changes nothing else.
#[verifier::external_body]
fn endpoint_timeout(endpoint: tonic::transport::Endpoint, secs: u64) -> (r:
    tonic::transport::Endpoint)
    ensures
        endpoint_settings(r) == (
            endpoint_settings(endpoint).0,
            Some(secs),
            endpoint_settings(endpoint).2,
        ),
{
    endpoint.timeout(std::time::Duration::from_secs(secs))
}

/// An empty TLS configuration, from `ClientTlsConfig::new`.
#[verifier::external_body]
fn tls_config_new() -> (tls: tonic::transport::ClientTlsConfig)
    ensures
        tls_settings(tls) == (None::<Seq<char>>, Seq::<Seq<u8>>::empty()),
{
    tonic::transport::ClientTlsConfig::new()
}

/// Sets the domain that the server's certificate is checked against, with
/// `ClientTlsConfig::domain_name`, which changes nothing else.
#[verifier::external_body]
fn tls_domain_name(tls: tonic::transport::ClientTlsConfig, domain: String) -> (r:
    tonic::transport::ClientTlsConfig)
    ensures
        tls_settings(r) == (Some(domain@), tls_settings(tls).1),
{
    tls.domain_name(domain)
}

/// Adds a CA certificate with `ClientTlsConfig::ca_certificate`, which puts
/// it behind those that are there; the certificate is made of the PEM text
/// by `Certificate::from_pem`, which keeps the bytes as they are.
#[verifier::external_body]
fn tls_ca_certificate(tls: tonic::transport::ClientTlsConfig, pem: Vec<u8>) -> (r:
    tonic::transport::ClientTlsConfig)
    ensures
        tls_settings(r) == (tls_settings(tls).0, tls_settings(tls).1.push(pem@)),
{
    tls.ca_certificate(tonic::transport::Certificate::from_pem(pem))
}

/// Secures an endpoint with `Endpoint::tls_config`, which builds the TLS
/// connector from the configuration and keeps everything else. For a
/// configuration with a domain, made by the wrappers above, whether it
/// succeeds rests on the domain and the certificates alone: it is
/// `tls_accepts` of them. Its error is of the kind whose words are
/// `transport error`. The connector takes its cryptography from `ring`,
/// the one provider that `tonic` builds `rustls` with.
#[verifier::external_body]
fn endpoint_tls_config(
    endpoint: tonic::transport::Endpoint,
    tls: tonic::transport::ClientTlsConfig,
) -> (r: Result<tonic::transport::Endpoint, tonic::transport::Error>)
    ensures
        tls_settings(tls).0 matches Some(domain) ==> (r is Ok <==> tls_accepts(
            domain,
            tls_settings(tls).1,
        )),
        r matches Ok(secured) ==> endpoint_settings(secured) == (
            endpoint_settings(endpoint).0,
            endpoint_settings(endpoint).1,
            Some(tls_settings(tls)),
        ),
        r matches Err(error) ==> transport_error_words(error) == "transport error"@,
{
    endpoint.tls_config(tls)
}

/// The words of `tonic::transport::Error`, as its `Display` impl writes
/// them.
#[verifier::external_body]
fn transport_error_text(error: &tonic::transport::Error) -> (text: String)
    ensures
        text@ == transport_error_words(*error),
{
    error.to_string()
}

/// What the caller does next to open the channel.
#[derive(Debug)]
pub enum Handshake {
    /// Read the PEM file at `path`, then hand what came of it to
    /// `trust_certificate`, with the endpoint and the domain.
    ReadCertificate { path: String, endpoint: tonic::transport::Endpoint, domain: String },
    /// Dial the endpoint; if that fails, `dial_failed` says what to report.
    Dial(tonic::transport::Endpoint),
}

pub enum HandshakeView {
    ReadCertificate { path: Seq<char>, endpoint: EndpointSettings, domain: Seq<char> },
    Dial(EndpointSettings),
}

impl View for Handshake {
    type V = HandshakeView;

    open spec fn view(&self) -> HandshakeView {
        match *self {
            Handshake::ReadCertificate { path, endpoint, domain } => HandshakeView::ReadCertificate {
                path: path@,
                endpoint: endpoint_settings(endpoint),
                domain: domain@,
            },
            Handshake::Dial(endpoint) => HandshakeView::Dial(endpoint_settings(endpoint)),
        }
    }
}

/// The settings of an endpoint with both time limits and without TLS.
pub open spec fn plain_settings() -> EndpointSettings {
    (Some(CONNECT_TIMEOUT_SECS), Some(REQUEST_TIMEOUT_SECS), None)
}

/// The CA certificates of a channel: the one that was read, if any.
pub open spec fn roots_of(certificate: Option<Vec<u8>>) -> Seq<Seq<u8>> {
    match certificate {
        Some(pem) => seq![pem@],
        None => Seq::empty(),
    }
}

/// The view of what parsing the endpoint gave.
pub open spec fn parsed_view(parsed: Result<Option<String>, String>) -> Result<
    Option<Seq<char>>,
    Seq<char>,
> {
    match parsed {
        Ok(Some(host)) => Ok(Some(host@)),
        Ok(None) => Ok(None),
        Err(words) => Err(words@),
    }
}

/// The domain that the server is checked against, given what parsing the
/// endpoint as a URI gave: the host of the URI. An endpoint that is no URI,
/// or has no host, cannot be used with TLS.
pub open spec fn domain_of(parsed: Result<Option<Seq<char>>, Seq<char>>) -> Result<
    Seq<char>,
    TritonErrorView,
> {
    match parsed {
        Ok(Some(host)) => Ok(host),
        Ok(None) => Err(TritonErrorView::Configuration("TLS endpoint must include a host name"@)),
        Err(words) => Err(TritonErrorView::Configuration(words)),
    }
}

/// The view of a domain or the error in its place.
pub open spec fn domain_view(r: Result<String, TritonError>) -> Result<Seq<char>, TritonErrorView> {
    match r {
        Ok(domain) => Ok(domain@),
        Err(error) => Err(error@),
    }
}

/// The view of an endpoint or the error in its place.
pub open spec fn endpoint_view(r: Result<tonic::transport::Endpoint, TritonError>) -> Result<
    EndpointSettings,
    TritonErrorView,
> {
    match r {
        Ok(endpoint) => Ok(endpoint_settings(endpoint)),
        Err(error) => Err(error@),
    }
}

/// The view of a handshake or the error in its place.
pub open spec fn handshake_view(r: Result<Handshake, TritonError>) -> Result<
    HandshakeView,
    TritonErrorView,
> {
    match r {
        Ok(handshake) => Ok(handshake@),
        Err(error) => Err(error@),
    }
}

/// What securing an endpoint with the given settings gives: the endpoint
/// secured for `domain` with the CA certificates `roots`, its time limits
/// kept, where `tonic` accepts the domain and the certificates; else a
/// configuration error with the words of `tonic`'s.
pub open spec fn secured(settings: EndpointSettings, domain: Seq<char>, roots: Seq<Seq<u8>>) -> Result<
    EndpointSettings,
    TritonErrorView,
> {
    if tls_accepts(domain, roots) {
        Ok((settings.0, settings.1, Some((Some(domain), roots))))
    } else {
        Err(TritonErrorView::Configuration("transport error"@))
    }
}

/// What goes on after the CA certificate was read, or could not be.
pub open spec fn trusted(
    settings: EndpointSettings,
    domain: Seq<char>,
    read: Result<Seq<u8>, Seq<char>>,
) -> Result<EndpointSettings, TritonErrorView> {
    match read {
        Ok(pem) => secured(settings, domain, seq![pem]),
        Err(words) => Err(TritonErrorView::Configuration(words)),
    }
}

/// How opening the channel begins, for an endpoint address, the switch for
/// TLS and the path of the CA certificate.
///
/// Without TLS the address must be one that `tonic` takes; the endpoint
/// then carries both time limits and is ready to be dialled. With TLS the
/// address must be a URI with a host, which is the domain that the server
/// is checked against. With the path of a CA certificate, the certificate
/// is to be read first, and the endpoint waits with its time limits. With
/// no certificate the endpoint is secured at once. Every failure is a
/// configuration error that carries the words of what failed.
pub open spec fn begun(address: Seq<char>, use_tls: bool, ca_certificate_path: Option<Seq<char>>) -> Result<
    HandshakeView,
    TritonErrorView,
> {
    if use_tls {
        match domain_of(uri_host(address)) {
            Err(error) => Err(error),
            Ok(domain) => match ca_certificate_path {
                Some(path) => Ok(
                    HandshakeView::ReadCertificate { path, endpoint: plain_settings(), domain },
                ),
                None => match secured(plain_settings(), domain, Seq::empty()) {
                    Ok(settings) => Ok(HandshakeView::Dial(settings)),
                    Err(error) => Err(error),
                },
            },
        }
    } else if endpoint_accepts(address) {
        Ok(HandshakeView::Dial(plain_settings()))
    } else {
        Err(TritonErrorView::Configuration("invalid URI"@))
    }
}

/// The domain for TLS, given what parsing the endpoint as a URI gave: its
/// host, if it has one, or the parser's words.
pub fn tls_domain(parsed: Result<Option<String>, String>) -> (r: Result<String, TritonError>)
    ensures
        domain_view(r) == domain_of(parsed_view(parsed)),
{
    match parsed {
        Ok(Some(host)) => Ok(host),
        Ok(None) => Err(
            TritonError::Configuration("TLS endpoint must include a host name".to_owned()),
        ),
        Err(words) => Err(TritonError::Configuration(words)),
    }
}

/// Secures an endpoint for `domain`, trusting `certificate` if there is
/// one. The endpoint keeps its time limits. That `tonic` cannot use the
/// domain or the certificate is a configuration error.
pub fn secure(
    endpoint: tonic::transport::Endpoint,
    domain: String,
    certificate: Option<Vec<u8>>,
) -> (r: Result<tonic::transport::Endpoint, TritonError>)
    ensures
        endpoint_view(r) == secured(endpoint_settings(endpoint), domain@, roots_of(certificate)),
{
    let mut tls = tls_domain_name(tls_config_new(), domain);
    match certificate {
        Some(pem) => {
            tls = tls_ca_certificate(tls, pem);
        },
        None => {},
    }
    assert(tls_settings(tls).1 =~= roots_of(certificate));
    match endpoint_tls_config(endpoint, tls) {
        Ok(secured) => Ok(secured),
        Err(error) => Err(TritonError::Configuration(transport_error_text(&error))),
    }
}

/// The view of what reading the certificate gave.
pub open spec fn read_view(read: Result<Vec<u8>, String>) -> Result<Seq<u8>, Seq<char>> {
    match read {
        Ok(pem) => Ok(pem@),
        Err(words) => Err(words@),
    }
}

/// Goes on after the CA certificate was read: `read` holds its PEM text,
/// or the words of the failure to read it. A certificate that could not be
/// read is a configuration error that carries the words; otherwise the
/// endpoint is secured for `domain` with the certificate as its trust
/// root.
pub fn trust_certificate(
    endpoint: tonic::transport::Endpoint,
    domain: String,
    read: Result<Vec<u8>, String>,
) -> (r: Result<tonic::transport::Endpoint, TritonError>)
    ensures
        endpoint_view(r) == trusted(endpoint_settings(endpoint), domain@, read_view(read)),
{
    match read {
        Ok(pem) => secure(endpoint, domain, Some(pem)),
        Err(words) => Err(TritonError::Configuration(words)),
    }
}

/// The error to report when dialling has failed with `detail`: the fault
/// is the transport's.
pub fn dial_failed(detail: String) -> (error: TritonError)
    ensures
        error@ == TritonErrorView::Transport(detail@),
{
    TritonError::Transport(detail)
}

/// Begins to open the channel to `address`. With `use_tls` the channel is
/// secured, and the server is checked against the host of the address; the
/// certificate at `ca_certificate_path`, if there is one, is then the
/// trust root.
pub fn begin(address: &String, use_tls: bool, ca_certificate_path: &Option<String>) -> (r: Result<
    Handshake,
    TritonError,
>)
    ensures
        handshake_view(r) == begun(
            address@,
            use_tls,
            match *ca_certificate_path {
                Some(path) => Some(path@),
                None => None,
            },
        ),
{
    let domain = if use_tls {
        let parsed = match parse_uri(address.as_str()) {
            Ok(uri) => Ok(uri_host_text(&uri)),
            Err(error) => Err(invalid_uri_text(&error)),
        };
        match tls_domain(parsed) {
            Ok(domain) => Some(domain),
            Err(error) => {
                return Err(error);
            },
        }
    } else {
        None
    };
    let endpoint = match endpoint_from_shared(address.clone()) {
        Ok(endpoint) => endpoint,
        Err(error) => {
            return Err(TritonError::Configuration(transport_error_text(&error)));
        },
    };
    let endpoint = endpoint_timeout(
        endpoint_connect_timeout(endpoint, CONNECT_TIMEOUT_SECS),
        REQUEST_TIMEOUT_SECS,
    );
    match domain {
        None => Ok(Handshake::Dial(endpoint)),
        Some(domain) => match ca_certificate_path {
            Some(path) => Ok(Handshake::ReadCertificate { path: path.clone(), endpoint, domain }),
            None => match secure(endpoint, domain, None) {
                Ok(secured) => Ok(Handshake::Dial(secured)),
                Err(error) => Err(error),
            },
        },
    }
}

} // verus!
