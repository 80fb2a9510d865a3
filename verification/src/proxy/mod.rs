//! The proxy: routes inbound requests to backends by their connection token.
use crate::types::ClusterName;
use vstd::prelude::*;
use vstd::string::*;
use vstd::utf8::encode_utf8;

pub mod cert_manager;
pub mod cert_pair;
pub mod command;
pub mod connection_monitor;
pub mod headers;
pub mod http_proxy;
pub mod proxy_server;
pub mod request;
pub mod rewriter;
pub mod route_map;
pub mod subdomain;

verus! {

#[derive(Clone, Copy, Debug, PartialEq, Eq, Structural)]
pub enum Protocol {
    Http,
    Https,
}

impl Protocol {
    pub fn as_str(&self) -> (r: &'static str)
        ensures
            r@ == (match self {
                Protocol::Http => "http"@,
                Protocol::Https => "https"@,
            }),
    {
        match self {
            Protocol::Http => "http",
            Protocol::Https => "https",
        }
    }
}

/// What the proxy tells the backend about the caller.
#[derive(Clone, Debug)]
pub struct ForwardableRequestInfo {
    /// The caller's IP address, in its textual form.
    pub ip: String,
    /// The protocol the caller used to reach the proxy.
    pub protocol: Protocol,
}

#[derive(Clone, Copy, Debug, PartialEq, Eq, Structural)]
pub struct ServerPortConfig {
    /// The port to listen on for HTTP requests.
    /// If https_port is provided, this port will only serve a redirect to HTTPS.
    pub http_port: u16,
    /// The port to listen on for HTTPS requests.
    pub https_port: Option<u16>,
}

/// The URL-safe, unpadded base64 decoding of `bytes`, as `data_encoding`
/// computes it, or `None` where `bytes` is not valid such base64.
pub uninterp spec fn base64url_nopad_decoding(bytes: Seq<u8>) -> Option<Seq<u8>>;

#[verifier::external_type_specification]
#[verifier::external_body]
pub struct ExDecodeError(data_encoding::DecodeError);

/// `data_encoding::BASE64URL_NOPAD.decode`: the contract claims that it succeeds
/// exactly where the named decoding is defined, and then returns it; what the
/// decoding is, is not stated.
#[verifier::external_body]
fn base64url_nopad_decode(bytes: &[u8]) -> (r: Result<Vec<u8>, data_encoding::DecodeError>)
    ensures
        r is Ok <==> base64url_nopad_decoding(bytes@) is Some,
        r matches Ok(v) ==> v@ == base64url_nopad_decoding(bytes@)->0,
{
    data_encoding::BASE64URL_NOPAD.decode(bytes)
}

/// The HMAC key of an ACME external account binding is not valid URL-safe,
/// unpadded base64.
#[derive(Clone, Copy, Debug, PartialEq, Eq, Structural)]
pub struct InvalidEabKey;

#[derive(Clone, Debug)]
pub struct AcmeEabConfiguration {
    /// The key identifier for the ACME EAB key.
    pub key_id: String,
    /// The HMAC key for the ACME EAB key, base64-encoded (URL, no-pad).
    pub key: String,
}

impl AcmeEabConfiguration {
    pub fn eab_key_b64(&self) -> (r: String)
        ensures
            r@ == self.key@,
    {
        self.key.clone()
    }

    /// Builds the configuration, given whether the key decodes as URL-safe,
    /// unpadded base64.
    pub fn with_decode_result(key_id: String, key_b64: String, decodes: bool) -> (r: Result<
        Self,
        InvalidEabKey,
    >)
        ensures
            r is Ok <==> decodes,
            r matches Ok(c) ==> c.key_id@ == key_id@ && c.key@ == key_b64@,
    {
        if !decodes {
            return Err(InvalidEabKey);
        }
        Ok(Self { key_id, key: key_b64 })
    }

    /// Builds the configuration; the key must be URL-safe, unpadded base64.
    pub fn new(key_id: String, key_b64: String) -> (r: Result<Self, InvalidEabKey>)
        ensures
            r is Ok <==> base64url_nopad_decoding(encode_utf8(key_b64@)) is Some,
            r matches Ok(c) ==> c.key_id@ == key_id@ && c.key@ == key_b64@,
    {
        let decodes = base64url_nopad_decode(key_b64.as_str().as_bytes()).is_ok();
        Self::with_decode_result(key_id, key_b64, decodes)
    }

    /// The HMAC key, decoded.
    pub fn key_bytes(&self) -> (r: Result<Vec<u8>, InvalidEabKey>)
        ensures
            match base64url_nopad_decoding(encode_utf8(self.key@)) {
                Some(b) => r matches Ok(v) && v@ == b,
                None => r is Err,
            },
    {
        match base64url_nopad_decode(self.key.as_str().as_bytes()) {
            Ok(v) => Ok(v),
            Err(_) => Err(InvalidEabKey),
        }
    }
}

#[derive(Clone, Debug)]
pub struct AcmeConfig {
    pub endpoint: String,
    pub mailto_email: String,
    pub acme_eab_keypair: Option<AcmeEabConfiguration>,
    /// Don't validate the ACME server's certificate chain. This is ONLY for testing,
    /// and should not be used otherwise.
    pub accept_insecure_certs_for_testing: bool,
}

pub fn is_false(value: &bool) -> (r: bool)
    ensures
        r == !*value,
{
    !*value
}

#[derive(Clone, Debug)]
pub struct ProxyConfig {
    /// The proxy's name; when absent, a random one is chosen at startup.
    pub name: Option<String>,
    pub controller_url: String,
    pub cluster: ClusterName,
    pub cert_path: Option<String>,
    pub port_config: ServerPortConfig,
    pub acme_config: Option<AcmeConfig>,
    pub root_redirect_url: Option<String>,
}

} // verus!
