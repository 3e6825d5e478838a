//! The gRPC library's part in reaching the block engine: what it makes of an address and of a
//! metadata value, and the status that it reports of a stream.
use std::time::Duration;

use vstd::prelude::*;

use tonic::metadata::MetadataValue;
use tonic::transport::{ClientTlsConfig, Endpoint};
use tonic::Status;

verus! {

#[verifier::external_type_specification]
#[verifier::external_body]
pub struct ExEndpoint(Endpoint);

#[verifier::external_type_specification]
#[verifier::external_body]
pub struct ExStatus(Status);

/// How an endpoint is set up.
#[verifier::ext_equal]
pub struct EndpointSettings {
    /// The URI that it connects to, in its written form.
    pub uri: Seq<char>,
    /// The period of TCP keep-alive probes, in seconds.
    pub tcp_keepalive: Option<u64>,
    /// Whether it speaks TLS.
    pub tls: bool,
}

/// How an endpoint is set up.
pub uninterp spec fn endpoint_settings(endpoint: Endpoint) -> EndpointSettings;

/// The URI that an address reads as, in its written form; `None` where it is no URI.
pub uninterp spec fn parsed_uri(url: Seq<char>) -> Option<Seq<char>>;

/// Whether a TLS client can be set up for the host of a URI.
pub uninterp spec fn is_tls_uri(uri: Seq<char>) -> bool;

/// Whether a character may stand in the value of an ASCII metadata entry: a tab, or any character
/// from the space up but for DEL. Characters beyond ASCII count byte by byte, and each of their
/// bytes is above DEL.
pub open spec fn is_metadata_char(c: char) -> bool {
    c == '\t' || (c >= ' ' && c != '\x7f')
}

/// Whether a text can be the value of an ASCII metadata entry.
pub open spec fn is_metadata_value(value: Seq<char>) -> bool {
    forall|i: int| 0 <= i < value.len() ==> is_metadata_char(#[trigger] value[i])
}

/// `MetadataValue::try_from`, on a `String`: succeeds if and only if each byte of the text may
/// stand in a header value.
#[verifier::external_body]
pub(crate) fn metadata_value_try_from(value: &String) -> (valid: bool)
    ensures
        valid == is_metadata_value(value@),
{
    MetadataValue::try_from(value).is_ok()
}

/// `Endpoint::from_shared`: an endpoint for the URI that the address reads as, with neither
/// keep-alive nor TLS. That URI, and whether there is one, is a function of the address.
#[verifier::external_body]
pub(crate) fn endpoint_from_shared(url: String) -> (endpoint: Option<Endpoint>)
    ensures
        match endpoint {
            Some(endpoint) => {
                &&& parsed_uri(url@) == Some(endpoint_settings(endpoint).uri)
                &&& endpoint_settings(endpoint).tcp_keepalive is None
                &&& !endpoint_settings(endpoint).tls
            },
            None => parsed_uri(url@) is None,
        },
{
    Endpoint::from_shared(url).ok()
}

/// `Endpoint::tcp_keepalive`: sets the period of the probes, and leaves the rest.
#[verifier::external_body]
pub(crate) fn with_tcp_keepalive(endpoint: Endpoint, seconds: u64) -> (changed: Endpoint)
    ensures
        endpoint_settings(changed) == (EndpointSettings {
            tcp_keepalive: Some(seconds),
            ..endpoint_settings(endpoint)
        }),
{
    endpoint.tcp_keepalive(Some(Duration::from_secs(seconds)))
}

/// `Endpoint::tls_config`, with a default `ClientTlsConfig`: turns TLS on, and leaves the rest;
/// whether that can be done is a function of the URI.
#[verifier::external_body]
pub(crate) fn with_tls(endpoint: Endpoint) -> (changed: Option<Endpoint>)
    ensures
        changed is Some <==> is_tls_uri(endpoint_settings(endpoint).uri),
        changed matches Some(changed) ==> endpoint_settings(changed) == (EndpointSettings {
            tls: true,
            ..endpoint_settings(endpoint)
        }),
{
    endpoint.tls_config(ClientTlsConfig::new()).ok()
}

/// `str::starts_with`: whether the pattern is a prefix of the text.
#[verifier::external_body]
pub(crate) fn starts_with(text: &str, prefix: &str) -> (starts: bool)
    ensures
        starts == prefix@.is_prefix_of(text@),
{
    text.starts_with(prefix)
}

} // verus!
