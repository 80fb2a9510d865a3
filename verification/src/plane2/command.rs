//! The settings the second generation's `proxy` command takes from its options.
use crate::proxy::command::{port_config_for, ports_for};
use crate::proxy::ServerPortConfig;
use vstd::prelude::*;

verus! {

/// Why the options do not make a proxy's settings.
#[derive(Clone, Copy, Debug, PartialEq, Eq, Structural)]
pub enum ProxyCommandError {
    /// Must specify --acme-email when using --acme-endpoint.
    MissingAcmeEmail,
    /// Must specify --acme-endpoint when using --acme-email.
    MissingAcmeEndpoint,
}

impl ProxyCommandError {
    pub fn to_string(&self) -> (r: &'static str)
        ensures
            r@ == (match self {
                ProxyCommandError::MissingAcmeEmail => "Must specify --acme-email when using --acme-endpoint."@,
                ProxyCommandError::MissingAcmeEndpoint => "Must specify --acme-endpoint when using --acme-email."@,
            }),
    {
        match self {
            ProxyCommandError::MissingAcmeEmail => "Must specify --acme-email when using --acme-endpoint.",
            ProxyCommandError::MissingAcmeEndpoint => "Must specify --acme-endpoint when using --acme-email.",
        }
    }
}

/// The ports to serve, and the ACME endpoint and email when both are given;
/// one without the other is an error.
pub fn proxy_settings(
    https: bool,
    http_port: Option<u16>,
    https_port: Option<u16>,
    acme_endpoint: Option<String>,
    acme_email: Option<String>,
) -> (r: Result<(ServerPortConfig, Option<(String, String)>), ProxyCommandError>)
    ensures
        match (acme_endpoint, acme_email) {
            (Some(_), None) => r == Err::<(ServerPortConfig, Option<(String, String)>), _>(ProxyCommandError::MissingAcmeEmail),
            (None, Some(_)) => r == Err::<(ServerPortConfig, Option<(String, String)>), _>(ProxyCommandError::MissingAcmeEndpoint),
            (Some(endpoint), Some(email)) => r matches Ok((ports, Some((e, m)))) && ports == ports_for(https, http_port, https_port) && e == endpoint && m == email,
            (None, None) => r matches Ok((ports, None)) && ports == ports_for(https, http_port, https_port),
        },
{
    let ports = port_config_for(https, http_port, https_port);
    match (acme_endpoint, acme_email) {
        (Some(_), None) => Err(ProxyCommandError::MissingAcmeEmail),
        (None, Some(_)) => Err(ProxyCommandError::MissingAcmeEndpoint),
        (Some(endpoint), Some(email)) => Ok((ports, Some((endpoint, email)))),
        (None, None) => Ok((ports, None)),
    }
}

} // verus!
