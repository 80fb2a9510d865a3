//! A TLS certificate chain with its private key: what the proxy reads of the
//! first certificate (its common name and validity), and the PEM texts the pair
//! is kept as.
use crate::text::push_str;
use vstd::prelude::*;

verus! {

/// What `x509_parser::parse_x509_certificate` reads of the DER certificate
/// `der`: the first common name of its subject (its text, or the error reading
/// it as text), and the Unix timestamps (seconds) of the start and end of its
/// validity; the error's message when the DER is not a certificate.
pub uninterp spec fn x509_summary(der: Seq<u8>) -> Result<(Option<Result<Seq<char>, Seq<char>>>, i64, i64), Seq<char>>;

/// The text `pem::encode` gives for one PEM section with tag `tag` and contents `der`.
pub uninterp spec fn pem_encoding(tag: Seq<char>, der: Seq<u8>) -> Seq<char>;

/// The DER certificates `rustls_pemfile::certs` reads from `text`, in order;
/// `None` when reading fails.
pub uninterp spec fn pem_certificate_ders(text: Seq<char>) -> Option<Seq<Seq<u8>>>;

/// The DER bytes of the first private key `rustls_pemfile::private_key` finds in
/// `text`; `Ok(None)` when there is none, `Err` when reading fails.
pub uninterp spec fn pem_private_key_der(text: Seq<char>) -> Result<Option<Seq<u8>>, ()>;

/// The views of a vector of byte vectors.
pub open spec fn ders_view(v: Seq<Vec<u8>>) -> Seq<Seq<u8>> {
    v.map_values(|d: Vec<u8>| d@)
}

/// The PEM sections of `ders`, each with tag `tag`, joined by `\r\n`.
pub open spec fn pem_sections(tag: Seq<char>, ders: Seq<Seq<u8>>) -> Seq<char>
    decreases ders.len(),
{
    if ders.len() == 0 {
        Seq::empty()
    } else if ders.len() == 1 {
        pem_encoding(tag, ders[0])
    } else {
        pem_sections(tag, ders.drop_last()) + "\r\n"@ + pem_encoding(tag, ders.last())
    }
}

pub open spec fn summary_view(r: Result<(Option<Result<String, String>>, i64, i64), String>) -> Result<
    (Option<Result<Seq<char>, Seq<char>>>, i64, i64),
    Seq<char>,
> {
    match r {
        Ok((cn, start, end)) => Ok(
            (
                match cn {
                    Some(Ok(s)) => Some(Ok(s@)),
                    Some(Err(e)) => Some(Err(e@)),
                    None => None,
                },
                start,
                end,
            ),
        ),
        Err(e) => Err(e@),
    }
}

/// `x509_parser::parse_x509_certificate`, reduced to the common name and the
/// validity of the certificate. The contract claims that the answer is the named
/// summary of the DER bytes; what it is on given bytes is not stated.
#[verifier::external_body]
fn read_certificate(der: &[u8]) -> (r: Result<(Option<Result<String, String>>, i64, i64), String>)
    ensures
        summary_view(r) == x509_summary(der@),
{
    match x509_parser::parse_x509_certificate(der) {
        Ok((_, cert)) => {
            let cn = match cert.subject().iter_common_name().next() {
                Some(attr) => Some(match attr.as_str() {
                    Ok(s) => Ok(s.to_owned()),
                    Err(e) => Err(e.to_string()),
                }),
                None => None,
            };
            let validity = cert.validity();
            Ok((cn, validity.not_before.timestamp(), validity.not_after.timestamp()))
        },
        Err(e) => Err(e.to_string()),
    }
}

/// `pem::encode` of one section. The contract claims the named encoding of the
/// tag and contents.
#[verifier::external_body]
fn encode_pem(tag: &str, der: &[u8]) -> (r: String)
    ensures
        r@ == pem_encoding(tag@, der@),
{
    pem::encode(&pem::Pem::new(tag, der))
}

/// `pem::encode_many` of one section per DER item, all with tag `tag`. Its
/// source joins the `pem::encode` of each section with `\r\n`, which is what the
/// contract claims.
#[verifier::external_body]
fn encode_pems(tag: &str, ders: &Vec<Vec<u8>>) -> (r: String)
    ensures
        r@ == pem_sections(tag@, ders_view(ders@)),
{
    let pems: Vec<pem::Pem> = ders.iter().map(|d| pem::Pem::new(tag, d.as_slice())).collect();
    pem::encode_many(&pems)
}

pub open spec fn certs_view(r: Option<Vec<Vec<u8>>>) -> Option<Seq<Seq<u8>>> {
    match r {
        Some(v) => Some(ders_view(v@)),
        None => None,
    }
}

/// `rustls_pemfile::certs`, collected into a vector: every
/// certificate's DER bytes in order, or `None` at the first error. The contract
/// claims the named reading of the text.
#[verifier::external_body]
fn read_pem_certificates(text: &str) -> (r: Option<Vec<Vec<u8>>>)
    ensures
        certs_view(r) == pem_certificate_ders(text@),
{
    let mut bytes = text.as_bytes();
    let certs: Result<Vec<_>, _> = rustls_pemfile::certs(&mut bytes).collect();
    match certs {
        Ok(certs) => Some(certs.iter().map(|c| c.to_vec()).collect()),
        Err(_) => None,
    }
}

pub open spec fn key_view(r: Result<Option<Vec<u8>>, ()>) -> Result<Option<Seq<u8>>, ()> {
    match r {
        Ok(Some(k)) => Ok(Some(k@)),
        Ok(None) => Ok(None),
        Err(()) => Err(()),
    }
}

/// `rustls_pemfile::private_key`: the secret DER bytes of the first private key
/// in the text. The contract claims the named reading of the text.
#[verifier::external_body]
fn read_pem_private_key(text: &str) -> (r: Result<Option<Vec<u8>>, ()>)
    ensures
        key_view(r) == pem_private_key_der(text@),
{
    let mut bytes = text.as_bytes();
    match rustls_pemfile::private_key(&mut bytes) {
        Ok(Some(key)) => Ok(Some(key.secret_der().to_vec())),
        Ok(None) => Ok(None),
        Err(_) => Err(()),
    }
}

/// Why a certificate pair could not be made.
#[derive(Clone, Debug, PartialEq, Eq)]
pub enum CertPairError {
    /// The chain holds no certificate.
    NoCertificate,
    /// The first certificate could not be parsed (the parser's message).
    InvalidCertificate(String),
    /// The first certificate's subject has no common name.
    NoCommonName,
    /// The common name is not text (the parser's message).
    InvalidCommonName(String),
    /// The certificates' PEM text could not be read.
    InvalidCertificatePem,
    /// The private key's PEM text could not be read.
    InvalidKeyPem,
    /// The key's PEM text holds no private key.
    NoPrivateKey,
}

impl CertPairError {
    pub fn to_string(&self) -> (r: String)
        ensures
            match self {
                CertPairError::NoCertificate => r@ == "Error getting first cert."@,
                CertPairError::InvalidCertificate(m) => r@ == m@,
                CertPairError::NoCommonName => r@ == "No common name found"@,
                CertPairError::InvalidCommonName(m) => r@ == m@,
                CertPairError::InvalidCertificatePem => r@ == "Invalid certificate PEM."@,
                CertPairError::InvalidKeyPem => r@ == "Invalid private key PEM."@,
                CertPairError::NoPrivateKey => r@ == "No private key found."@,
            },
    {
        let mut s = String::new();
        match self {
            CertPairError::NoCertificate => push_str(&mut s, "Error getting first cert."),
            CertPairError::InvalidCertificate(m) => push_str(&mut s, m.as_str()),
            CertPairError::NoCommonName => push_str(&mut s, "No common name found"),
            CertPairError::InvalidCommonName(m) => push_str(&mut s, m.as_str()),
            CertPairError::InvalidCertificatePem => push_str(&mut s, "Invalid certificate PEM."),
            CertPairError::InvalidKeyPem => push_str(&mut s, "Invalid private key PEM."),
            CertPairError::NoPrivateKey => push_str(&mut s, "No private key found."),
        }
        s
    }
}

/// A certificate chain and its private key, with what the proxy reads of the
/// first certificate.
#[derive(Clone, Debug)]
pub struct CertificatePair {
    /// The chain, leaf first, as DER.
    pub cert_ders: Vec<Vec<u8>>,
    /// The private key, as DER.
    pub private_key_der: Vec<u8>,
    /// The first common name of the leaf certificate's subject.
    pub common_name: String,
    /// Start of the leaf certificate's validity, in seconds since the Unix epoch.
    pub validity_start: i64,
    /// End of the leaf certificate's validity, in seconds since the Unix epoch.
    pub validity_end: i64,
}

/// How a pair is made of a key and a chain: the error, or the common name and the
/// validity of the first certificate, read as `x509_summary` reads it.
pub open spec fn pair_outcome(certs: Seq<Seq<u8>>) -> Result<(Seq<char>, i64, i64), CertPairErrorKind> {
    if certs.len() == 0 {
        Err(CertPairErrorKind::NoCertificate)
    } else {
        match x509_summary(certs[0]) {
            Err(m) => Err(CertPairErrorKind::InvalidCertificate(m)),
            Ok((None, _, _)) => Err(CertPairErrorKind::NoCommonName),
            Ok((Some(Err(m)), _, _)) => Err(CertPairErrorKind::InvalidCommonName(m)),
            Ok((Some(Ok(cn)), start, end)) => Ok((cn, start, end)),
        }
    }
}

/// The errors of making a pair, with their messages as character sequences.
pub enum CertPairErrorKind {
    NoCertificate,
    InvalidCertificate(Seq<char>),
    NoCommonName,
    InvalidCommonName(Seq<char>),
}

/// `e` is the error that `k` describes.
pub open spec fn error_is(e: CertPairError, k: CertPairErrorKind) -> bool {
    match (e, k) {
        (CertPairError::NoCertificate, CertPairErrorKind::NoCertificate) => true,
        (CertPairError::InvalidCertificate(m), CertPairErrorKind::InvalidCertificate(n)) => m@ == n,
        (CertPairError::NoCommonName, CertPairErrorKind::NoCommonName) => true,
        (CertPairError::InvalidCommonName(m), CertPairErrorKind::InvalidCommonName(n)) => m@ == n,
        _ => false,
    }
}

/// `r` is what making a pair of `key` and `certs` gives.
pub open spec fn pair_made(r: Result<CertificatePair, CertPairError>, key: Seq<u8>, certs: Seq<Seq<u8>>) -> bool {
    match (r, pair_outcome(certs)) {
        (Ok(p), Ok((cn, start, end))) => {
            &&& ders_view(p.cert_ders@) == certs
            &&& p.private_key_der@ == key
            &&& p.common_name@ == cn
            &&& p.validity_start == start
            &&& p.validity_end == end
        },
        (Err(e), Err(k)) => error_is(e, k),
        _ => false,
    }
}

impl CertificatePair {
    /// Makes a pair of a private key and a certificate chain, reading the common
    /// name and the validity of the first certificate.
    pub fn new(private_key_der: Vec<u8>, cert_ders: Vec<Vec<u8>>) -> (r: Result<Self, CertPairError>)
        ensures
            pair_made(r, private_key_der@, ders_view(cert_ders@)),
    {
        if cert_ders.len() == 0 {
            return Err(CertPairError::NoCertificate);
        }
        let summary = read_certificate(cert_ders[0].as_slice());
        proof {
            assert(ders_view(cert_ders@)[0] == cert_ders@[0]@);
        }
        match summary {
            Err(m) => Err(CertPairError::InvalidCertificate(m)),
            Ok((None, _, _)) => Err(CertPairError::NoCommonName),
            Ok((Some(Err(m)), _, _)) => Err(CertPairError::InvalidCommonName(m)),
            Ok((Some(Ok(common_name)), validity_start, validity_end)) => Ok(
                CertificatePair { cert_ders, private_key_der, common_name, validity_start, validity_end },
            ),
        }
    }

    /// Makes a pair of a private key and a certificate chain given as DER bytes.
    pub fn from_raw_ders(pkey_der: &[u8], cert_ders: &[Vec<u8>]) -> (r: Result<Self, CertPairError>)
        ensures
            pair_made(r, pkey_der@, ders_view(cert_ders@)),
    {
        let mut certs: Vec<Vec<u8>> = Vec::new();
        let mut i: usize = 0;
        while i < cert_ders.len()
            invariant
                i <= cert_ders@.len(),
                certs@.len() == i,
                ders_view(certs@) == ders_view(cert_ders@.subrange(0, i as int)),
            decreases cert_ders@.len() - i,
        {
            let d = copy_bytes(cert_ders[i].as_slice());
            let ghost before = certs@;
            certs.push(d);
            proof {
                assert forall|j: int| 0 <= j < i + 1 implies #[trigger] ders_view(certs@)[j] == ders_view(
                    cert_ders@.subrange(0, i + 1),
                )[j] by {
                    if j < i {
                        assert(certs@[j] == before[j]);
                        assert(ders_view(before)[j] == ders_view(cert_ders@.subrange(0, i as int))[j]);
                    }
                }
                assert(ders_view(certs@) =~= ders_view(cert_ders@.subrange(0, i + 1)));
            }
            i = i + 1;
        }
        proof {
            assert(cert_ders@.subrange(0, cert_ders@.len() as int) =~= cert_ders@);
        }
        Self::new(copy_bytes(pkey_der), certs)
    }

    /// Makes a pair of the PEM texts of a certificate chain and of a private key.
    pub fn from_pems(cert_pem: &str, key_pem: &str) -> (r: Result<Self, CertPairError>)
        ensures
            match (pem_certificate_ders(cert_pem@), pem_private_key_der(key_pem@)) {
                (None, _) => r == Err::<Self, CertPairError>(CertPairError::InvalidCertificatePem),
                (Some(_), Err(())) => r == Err::<Self, CertPairError>(CertPairError::InvalidKeyPem),
                (Some(_), Ok(None)) => r == Err::<Self, CertPairError>(CertPairError::NoPrivateKey),
                (Some(certs), Ok(Some(key))) => pair_made(r, key, certs),
            },
    {
        let certs = match read_pem_certificates(cert_pem) {
            Some(certs) => certs,
            None => return Err(CertPairError::InvalidCertificatePem),
        };
        let key = match read_pem_private_key(key_pem) {
            Ok(Some(key)) => key,
            Ok(None) => return Err(CertPairError::NoPrivateKey),
            Err(()) => return Err(CertPairError::InvalidKeyPem),
        };
        Self::new(key, certs)
    }

    /// The PEM text of the certificate chain, one `CERTIFICATE` section per
    /// certificate, and that of the private key, a `PRIVATE KEY` section.
    pub fn to_pems(&self) -> (r: (String, String))
        ensures
            r.0@ == pem_sections("CERTIFICATE"@, ders_view(self.cert_ders@)),
            r.1@ == pem_encoding("PRIVATE KEY"@, self.private_key_der@),
    {
        let cert = encode_pems("CERTIFICATE", &self.cert_ders);
        let key = encode_pem("PRIVATE KEY", self.private_key_der.as_slice());
        (cert, key)
    }
}

/// A copy of `bytes`.
fn copy_bytes(bytes: &[u8]) -> (r: Vec<u8>)
    ensures
        r@ == bytes@,
{
    let mut r: Vec<u8> = Vec::new();
    let mut i: usize = 0;
    while i < bytes.len()
        invariant
            i <= bytes@.len(),
            r@ == bytes@.subrange(0, i as int),
        decreases bytes@.len() - i,
    {
        r.push(bytes[i]);
        i = i + 1;
    }
    r
}

} // verus!
