//! The proxy's command-line options, and the configuration they give.
use crate::proxy::{
    base64url_nopad_decoding, AcmeConfig, AcmeEabConfiguration, ProxyConfig, ServerPortConfig,
};
use crate::types::ClusterName;
use vstd::prelude::*;
use vstd::utf8::encode_utf8;

verus! {

/// HTTP port when serving locally without HTTPS.
pub const LOCAL_HTTP_PORT: u16 = 9090;
/// HTTP port in production.
pub const PROD_HTTP_PORT: u16 = 80;
/// HTTPS port in production.
pub const PROD_HTTPS_PORT: u16 = 443;

/// The ports to serve, from the `--https`, `--http-port` and `--https-port` options.
pub open spec fn ports_for(https: bool, http_port: Option<u16>, https_port: Option<u16>) -> ServerPortConfig {
    match (https, http_port, https_port) {
        (false, None, None) => ServerPortConfig { http_port: LOCAL_HTTP_PORT, https_port: None },
        (true, None, None) => ServerPortConfig { http_port: PROD_HTTP_PORT, https_port: Some(PROD_HTTPS_PORT) },
        (true, Some(h), None) => ServerPortConfig { http_port: h, https_port: Some(PROD_HTTPS_PORT) },
        (_, None, Some(s)) => ServerPortConfig { http_port: PROD_HTTP_PORT, https_port: Some(s) },
        (_, Some(h), s) => ServerPortConfig { http_port: h, https_port: s },
    }
}

/// Chooses the ports to serve.
pub fn port_config_for(https: bool, http_port: Option<u16>, https_port: Option<u16>) -> (r: ServerPortConfig)
    ensures
        r == ports_for(https, http_port, https_port),
{
    match (https, http_port, https_port) {
        (false, None, None) => ServerPortConfig { http_port: LOCAL_HTTP_PORT, https_port: None },
        (true, None, None) => ServerPortConfig { http_port: PROD_HTTP_PORT, https_port: Some(PROD_HTTPS_PORT) },
        (true, Some(h), None) => ServerPortConfig { http_port: h, https_port: Some(PROD_HTTPS_PORT) },
        (_, None, Some(s)) => ServerPortConfig { http_port: PROD_HTTP_PORT, https_port: Some(s) },
        (_, Some(h), s) => ServerPortConfig { http_port: h, https_port: s },
    }
}

/// Ports given on the command line are always used; HTTPS is served exactly
/// when asked for, by flag or by port.
pub proof fn law_ports_follow_the_options(https: bool, http_port: Option<u16>, https_port: Option<u16>)
    ensures
        http_port matches Some(h) ==> ports_for(https, http_port, https_port).http_port == h,
        https_port matches Some(s) ==> ports_for(https, http_port, https_port).https_port == Some(s),
        (ports_for(https, http_port, https_port).https_port is Some) <==> (https_port is Some || (https
            && !(http_port is Some && https_port is None && !https))),
        !https && https_port is None ==> ports_for(https, http_port, https_port).https_port is None,
{
}

#[derive(Clone, Debug)]
pub struct ProxyOpts {
    pub name: Option<String>,
    pub controller_url: String,
    pub cluster: ClusterName,
    pub https: bool,
    pub http_port: Option<u16>,
    pub https_port: Option<u16>,
    pub cert_path: Option<String>,
    pub acme_endpoint: Option<String>,
    pub acme_email: Option<String>,
    /// Key identifier when using ACME External Account Binding.
    pub acme_eab_kid: Option<String>,
    /// HMAC key when using ACME External Account Binding.
    pub acme_eab_hmac_key: Option<String>,
    /// URL to redirect the root path to.
    pub root_redirect_url: Option<String>,
}

/// Why the options do not make a configuration.
#[derive(Clone, Copy, Debug, PartialEq, Eq, Structural)]
pub enum ProxyOptsError {
    /// The EAB HMAC key is not valid base64.
    InvalidEabKey,
    /// Only one of the EAB key and key identifier was given.
    EabKeyAndKidRequired,
    /// An ACME endpoint was given without an email.
    AcmeEmailRequired,
    /// An ACME email was given without an endpoint.
    AcmeEndpointRequired,
}

impl ProxyOptsError {
    pub fn to_string(&self) -> (r: &'static str)
        ensures
            r@ == (match self {
                ProxyOptsError::InvalidEabKey => "Invalid ACME EAB HMAC key."@,
                ProxyOptsError::EabKeyAndKidRequired => "Must specify both --acme-eab-hmac-key and --acme-eab-kid or neither."@,
                ProxyOptsError::AcmeEmailRequired => "Must specify --acme-email when using --acme-endpoint."@,
                ProxyOptsError::AcmeEndpointRequired => "Must specify --acme-endpoint when using --acme-email."@,
            }),
    {
        match self {
            ProxyOptsError::InvalidEabKey => "Invalid ACME EAB HMAC key.",
            ProxyOptsError::EabKeyAndKidRequired => "Must specify both --acme-eab-hmac-key and --acme-eab-kid or neither.",
            ProxyOptsError::AcmeEmailRequired => "Must specify --acme-email when using --acme-endpoint.",
            ProxyOptsError::AcmeEndpointRequired => "Must specify --acme-endpoint when using --acme-email.",
        }
    }
}

/// The error the options give, if any: the EAB options are checked first, then
/// the ACME endpoint and email.
pub open spec fn opts_error(o: ProxyOpts) -> Option<ProxyOptsError> {
    match (o.acme_eab_hmac_key, o.acme_eab_kid) {
        (Some(k), Some(_)) if base64url_nopad_decoding(encode_utf8(k@)) is None => Some(ProxyOptsError::InvalidEabKey),
        (None, Some(_)) | (Some(_), None) => Some(ProxyOptsError::EabKeyAndKidRequired),
        _ => match (o.acme_endpoint, o.acme_email) {
            (Some(_), None) => Some(ProxyOptsError::AcmeEmailRequired),
            (None, Some(_)) => Some(ProxyOptsError::AcmeEndpointRequired),
            _ => None,
        },
    }
}

impl ProxyOpts {
    /// The configuration the options describe.
    pub fn into_config(self) -> (r: Result<ProxyConfig, ProxyOptsError>)
        ensures
            match r {
                Err(e) => opts_error(self) == Some(e),
                Ok(c) => {
                    &&& opts_error(self) is None
                    &&& c.name == self.name
                    &&& c.controller_url == self.controller_url
                    &&& c.cluster == self.cluster
                    &&& c.cert_path == self.cert_path
                    &&& c.root_redirect_url == self.root_redirect_url
                    &&& c.port_config == ports_for(self.https, self.http_port, self.https_port)
                    &&& (c.acme_config is Some <==> self.acme_endpoint is Some)
                    &&& (c.acme_config matches Some(a) ==> {
                        &&& self.acme_endpoint == Some(a.endpoint)
                        &&& self.acme_email == Some(a.mailto_email)
                        &&& !a.accept_insecure_certs_for_testing
                        &&& (a.acme_eab_keypair is Some <==> self.acme_eab_kid is Some)
                        &&& (a.acme_eab_keypair matches Some(kp) ==> kp.key_id@ == self.acme_eab_kid->0@
                            && kp.key@ == self.acme_eab_hmac_key->0@)
                    })
                },
            },
    {
        let port_config = port_config_for(self.https, self.http_port, self.https_port);

        let acme_eab_keypair = match (self.acme_eab_hmac_key, self.acme_eab_kid) {
            (Some(hmac_key), Some(kid)) => match AcmeEabConfiguration::new(kid, hmac_key) {
                Ok(kp) => Some(kp),
                Err(_) => return Err(ProxyOptsError::InvalidEabKey),
            },
            (None, Some(_)) | (Some(_), None) => return Err(ProxyOptsError::EabKeyAndKidRequired),
            _ => None,
        };

        let acme_config = match (self.acme_endpoint, self.acme_email) {
            (Some(_), None) => return Err(ProxyOptsError::AcmeEmailRequired),
            (None, Some(_)) => return Err(ProxyOptsError::AcmeEndpointRequired),
            (Some(endpoint), Some(email)) => Some(
                AcmeConfig {
                    endpoint,
                    mailto_email: email,
                    acme_eab_keypair,
                    accept_insecure_certs_for_testing: false,
                },
            ),
            (None, None) => None,
        };

        Ok(ProxyConfig {
            name: self.name,
            controller_url: self.controller_url,
            cluster: self.cluster,
            cert_path: self.cert_path,
            port_config,
            acme_config,
            root_redirect_url: self.root_redirect_url,
        })
    }
}

} // verus!
