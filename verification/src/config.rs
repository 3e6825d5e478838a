//! The block engine that the operator has chosen.
use vstd::prelude::*;

use crate::error;
use crate::error::PbsError;
use crate::grpc;
use crate::grpc::{
    endpoint_from_shared, metadata_value_try_from, starts_with, with_tcp_keepalive, with_tls,
};
use tonic::transport::Endpoint;

verus! {

/// How often the connection is probed.
pub const TCP_KEEPALIVE_S: u64 = 60;

/// Where the block engine is, and under which id this validator is known there.
#[derive(Clone, Debug, Default, PartialEq, Eq)]
pub struct PbsConfig {
    pub pbs_url: String,
    pub uuid: String,
}

/// What a [`PbsConfig`] holds.
#[verifier::ext_equal]
pub struct PbsConfigView {
    pub pbs_url: Seq<char>,
    pub uuid: Seq<char>,
}

impl View for PbsConfig {
    type V = PbsConfigView;

    open spec fn view(&self) -> PbsConfigView {
        PbsConfigView { pbs_url: self.pbs_url@, uuid: self.uuid@ }
    }
}

/// What keeps a connection from being tried with a configuration.
#[derive(Clone, Copy, Debug, PartialEq, Eq, Structural)]
pub enum ConfigFault {
    /// There is no address.
    MissingUrl,
    /// There is no id.
    MissingUuid,
    /// The id cannot be sent as metadata.
    InvalidUuid,
}

impl PbsConfigView {
    /// What keeps a connection from being tried, if anything does.
    pub open spec fn fault(self) -> Option<ConfigFault> {
        if self.pbs_url.len() == 0 {
            Some(ConfigFault::MissingUrl)
        } else if self.uuid.len() == 0 {
            Some(ConfigFault::MissingUuid)
        } else if !grpc::is_metadata_value(self.uuid) {
            Some(ConfigFault::InvalidUuid)
        } else {
            None
        }
    }

    /// Whether a connection can be tried: there is an address, and there is an id that can be sent
    /// as metadata.
    pub open spec fn valid(self) -> bool {
        &&& self.pbs_url.len() > 0
        &&& self.uuid.len() > 0
        &&& grpc::is_metadata_value(self.uuid)
    }

    /// Whether the connection is to be encrypted.
    pub open spec fn wants_tls(self) -> bool {
        "https"@.is_prefix_of(self.pbs_url)
    }

    /// The settings of the endpoint to connect to, or what keeps it from being set up.
    pub open spec fn endpoint_settings(self) -> Result<grpc::EndpointSettings, EndpointFailure> {
        match grpc::parsed_uri(self.pbs_url) {
            None => Err(EndpointFailure::InvalidUrl),
            Some(uri) => if self.wants_tls() && !grpc::is_tls_uri(uri) {
                Err(EndpointFailure::Tls)
            } else {
                Ok(
                    grpc::EndpointSettings {
                        uri,
                        tcp_keepalive: Some(TCP_KEEPALIVE_S),
                        tls: self.wants_tls(),
                    },
                )
            },
        }
    }
}

/// What kept an endpoint from being set up.
#[derive(Clone, Copy, Debug, PartialEq, Eq, Structural)]
pub enum EndpointFailure {
    /// The address is no URI.
    InvalidUrl,
    /// TLS cannot be set up for the host of the address.
    Tls,
}

/// The error for a failure to set up an endpoint.
pub open spec fn endpoint_failure(failure: EndpointFailure, url: Seq<char>) -> error::PbsErrorView {
    error::PbsErrorView::PbsConnectionError(
        match failure {
            EndpointFailure::InvalidUrl => "invalid block engine url value: "@ + url,
            EndpointFailure::Tls => "failed to set tls_config for block engine service"@,
        },
    )
}

/// The error for a failure to set up an endpoint.
pub fn endpoint_error(failure: EndpointFailure, url: &String) -> (error: PbsError)
    ensures
        error@ == endpoint_failure(failure, url@),
{
    let message = match failure {
        EndpointFailure::InvalidUrl => "invalid block engine url value: ".to_string().concat(
            url.as_str(),
        ),
        EndpointFailure::Tls => "failed to set tls_config for block engine service".to_string(),
    };
    PbsError::PbsConnectionError(message)
}

impl PbsConfig {
    /// The endpoint to connect to: with keep-alive probes, and with TLS where the address says
    /// `https`.
    pub fn endpoint(&self) -> (endpoint: Result<Endpoint, PbsError>)
        ensures
            endpoint matches Ok(endpoint) ==> {
                &&& grpc::endpoint_settings(endpoint).tls <==> "https"@.is_prefix_of(self.pbs_url@)
                &&& grpc::parsed_uri(self.pbs_url@) == Some(grpc::endpoint_settings(endpoint).uri)
                &&& grpc::endpoint_settings(endpoint).tcp_keepalive == Some(60u64)
            },
            match endpoint {
                Ok(endpoint) => self@.endpoint_settings() == Ok::<_, EndpointFailure>(
                    grpc::endpoint_settings(endpoint),
                ),
                Err(error) => {
                    &&& self@.endpoint_settings() is Err
                    &&& error@ == endpoint_failure(self@.endpoint_settings()->Err_0, self@.pbs_url)
                },
            },
    {
        let endpoint = match endpoint_from_shared(self.pbs_url.clone()) {
            Some(endpoint) => with_tcp_keepalive(endpoint, TCP_KEEPALIVE_S),
            None => {
                return Err(endpoint_error(EndpointFailure::InvalidUrl, &self.pbs_url));
            },
        };
        if !starts_with(self.pbs_url.as_str(), "https") {
            return Ok(endpoint);
        }
        match with_tls(endpoint) {
            Some(endpoint) => Ok(endpoint),
            None => Err(endpoint_error(EndpointFailure::Tls, &self.pbs_url)),
        }
    }

    /// What keeps a connection from being tried, if anything does.
    pub fn fault(&self) -> (fault: Option<ConfigFault>)
        ensures
            fault == self@.fault(),
            fault is None <==> self@.valid(),
    {
        if self.pbs_url.as_str().is_empty() {
            return Some(ConfigFault::MissingUrl);
        }
        if self.uuid.as_str().is_empty() {
            return Some(ConfigFault::MissingUuid);
        }
        if !metadata_value_try_from(&self.uuid) {
            return Some(ConfigFault::InvalidUuid);
        }
        None
    }

    /// Whether two configurations name the same block engine and the same id.
    pub fn same_as(&self, other: &PbsConfig) -> (same: bool)
        ensures
            same == (self@ == other@),
            same <==> self.pbs_url@ == other.pbs_url@ && self.uuid@ == other.uuid@,
    {
        self.pbs_url == other.pbs_url && self.uuid == other.uuid
    }
}

/// An endpoint speaks TLS if and only if the address begins with `https`, connects to what the
/// address reads as, and probes the connection once a minute.
pub proof fn https_means_tls(config: PbsConfigView)
    ensures
        config.endpoint_settings() matches Ok(settings) ==> {
            &&& settings.tls <==> "https"@.is_prefix_of(config.pbs_url)
            &&& grpc::parsed_uri(config.pbs_url) == Some(settings.uri)
            &&& settings.tcp_keepalive == Some(60u64)
        },
{
}

/// There is an endpoint for every address that reads as a URI, but for one that begins with `https`
/// and whose host TLS cannot be set up for; which of the two keeps it from being set up is told.
pub proof fn endpoints_fail_for_two_reasons(config: PbsConfigView)
    ensures
        config.endpoint_settings() == Err::<grpc::EndpointSettings, _>(EndpointFailure::InvalidUrl)
            <==> grpc::parsed_uri(config.pbs_url) is None,
        config.endpoint_settings() == Err::<grpc::EndpointSettings, _>(EndpointFailure::Tls) <==> {
            &&& grpc::parsed_uri(config.pbs_url) matches Some(uri) && !grpc::is_tls_uri(uri)
            &&& "https"@.is_prefix_of(config.pbs_url)
        },
{
}

/// The error for an address that is no URI quotes the address, and the one for TLS does not.
pub proof fn failures_are_put_into_words(url: Seq<char>)
    ensures
        endpoint_failure(EndpointFailure::InvalidUrl, url)
            == error::PbsErrorView::PbsConnectionError("invalid block engine url value: "@ + url),
        endpoint_failure(EndpointFailure::Tls, url) == error::PbsErrorView::PbsConnectionError(
            "failed to set tls_config for block engine service"@,
        ),
{
}

/// A connection is tried if and only if there is an address and there is an id of which every
/// character is a tab or no control character. The first thing that is missing is told.
pub proof fn faults_are_found_in_order(config: PbsConfigView)
    ensures
        config.valid() <==> {
            &&& config.pbs_url.len() > 0
            &&& config.uuid.len() > 0
            &&& forall|i: int|
                0 <= i < config.uuid.len() ==> (#[trigger] config.uuid[i]) == '\t' || (
                config.uuid[i] >= ' ' && config.uuid[i] != '\x7f')
        },
        config.fault() is None <==> config.valid(),
        config.fault() == Some(ConfigFault::MissingUrl) <==> config.pbs_url.len() == 0,
        config.fault() == Some(ConfigFault::MissingUuid) <==> config.pbs_url.len() > 0
            && config.uuid.len() == 0,
{
    assert(grpc::is_metadata_value(config.uuid) <==> forall|i: int|
        0 <= i < config.uuid.len() ==> (#[trigger] config.uuid[i]) == '\t' || (config.uuid[i] >= ' '
            && config.uuid[i] != '\x7f'));
}

/// Two configurations are the same if and only if both their addresses and their ids are.
pub proof fn configs_are_compared_in_both_parts(first: PbsConfig, second: PbsConfig)
    ensures
        first@ == second@ <==> first.pbs_url@ == second.pbs_url@ && first.uuid@ == second.uuid@,
        first@.pbs_url == first.pbs_url@,
        first@.uuid == first.uuid@,
{
}

} // verus!
