//! The client of the controller's API: the URLs of its endpoints and sockets.
use crate::names::BackendName;
use crate::plane2::types::ClusterName;
use crate::text::{push_str, str_eq};
use vstd::prelude::*;
use vstd::string::*;

verus! {

#[verifier::external_type_specification]
#[verifier::external_body]
pub struct ExUrl(url::Url);

/// A URL as `url::Url::parse` reads `text`: its serialization, scheme, user
/// name and host; `None` when the text is not a URL.
pub uninterp spec fn url_parse_parts(text: Seq<char>) -> Option<
    (Seq<char>, Seq<char>, Seq<char>, Option<Seq<char>>),
>;

/// The URL `url::Url::join` makes of `input` against the URL serialized as
/// `base`, in the same parts; `None` when it fails.
pub uninterp spec fn url_join_parts(base: Seq<char>, input: Seq<char>) -> Option<
    (Seq<char>, Seq<char>, Seq<char>, Option<Seq<char>>),
>;

/// The URL serialized as `url` after `url::Url::set_scheme(scheme)`, in the
/// same parts; `None` when the scheme is refused.
pub uninterp spec fn url_scheme_set_parts(url: Seq<char>, scheme: Seq<char>) -> Option<
    (Seq<char>, Seq<char>, Seq<char>, Option<Seq<char>>),
>;

/// The URL serialized as `url` after `url::Url::set_username("")`, in the same
/// parts; `None` when the URL cannot have a user name.
pub uninterp spec fn url_username_cleared_parts(url: Seq<char>) -> Option<
    (Seq<char>, Seq<char>, Seq<char>, Option<Seq<char>>),
>;

/// A parsed URL, with the parts the library reads of it.
pub struct ParsedUrl {
    url: url::Url,
    text: String,
    scheme: String,
    username: String,
    host: Option<String>,
}

pub open spec fn host_view(h: Option<String>) -> Option<Seq<char>> {
    match h {
        Some(s) => Some(s@),
        None => None,
    }
}

impl ParsedUrl {
    /// The URL's serialization, scheme, user name and host.
    pub closed spec fn parts(&self) -> (Seq<char>, Seq<char>, Seq<char>, Option<Seq<char>>) {
        (self.text@, self.scheme@, self.username@, host_view(self.host))
    }

    /// `url::Url::parse`: the URL `text` spells, with its parts read out.
    #[verifier::external_body]
    pub fn parse(text: &str) -> (r: Option<ParsedUrl>)
        ensures
            match r {
                Some(u) => url_parse_parts(text@) == Some(u.parts()),
                None => url_parse_parts(text@) is None,
            },
    {
        match url::Url::parse(text) {
            Ok(url) => {
                let text = url.as_str().to_owned();
                let scheme = url.scheme().to_owned();
                let username = url.username().to_owned();
                let host = url.host_str().map(str::to_owned);
                Some(ParsedUrl { url, text, scheme, username, host })
            },
            Err(_) => None,
        }
    }

    /// `url::Url::join`: `input` read against this URL.
    #[verifier::external_body]
    fn join(&self, input: &str) -> (r: Option<ParsedUrl>)
        ensures
            match r {
                Some(u) => url_join_parts(self.parts().0, input@) == Some(u.parts()),
                None => url_join_parts(self.parts().0, input@) is None,
            },
    {
        match self.url.join(input) {
            Ok(url) => {
                let text = url.as_str().to_owned();
                let scheme = url.scheme().to_owned();
                let username = url.username().to_owned();
                let host = url.host_str().map(str::to_owned);
                Some(ParsedUrl { url, text, scheme, username, host })
            },
            Err(_) => None,
        }
    }

    /// `url::Url::set_scheme`: the URL with another scheme, when the scheme is
    /// accepted. Going from `http` to `ws` or from `https` to `wss` is always
    /// accepted: both are special schemes, and a URL of either has a host.
    #[verifier::external_body]
    fn with_scheme(&self, scheme: &str) -> (r: Option<ParsedUrl>)
        ensures
            match r {
                Some(u) => url_scheme_set_parts(self.parts().0, scheme@) == Some(u.parts()),
                None => url_scheme_set_parts(self.parts().0, scheme@) is None,
            },
            (self.parts().1 == "http"@ && scheme@ == "ws"@) || (self.parts().1 == "https"@
                && scheme@ == "wss"@) ==> r is Some,
    {
        let mut url = self.url.clone();
        match url.set_scheme(scheme) {
            Ok(()) => {
                let text = url.as_str().to_owned();
                let scheme = url.scheme().to_owned();
                let username = url.username().to_owned();
                let host = url.host_str().map(str::to_owned);
                Some(ParsedUrl { url, text, scheme, username, host })
            },
            Err(()) => None,
        }
    }

    /// `url::Url::set_username("")`: the URL with its user name cleared, when it
    /// can have one. The source clears the user name and the `@` that followed it,
    /// so the user name of the result is empty.
    #[verifier::external_body]
    pub(crate) fn without_username(&self) -> (r: Option<ParsedUrl>)
        ensures
            match r {
                Some(u) => url_username_cleared_parts(self.parts().0) == Some(u.parts()) && u.parts().2.len() == 0,
                None => url_username_cleared_parts(self.parts().0) is None,
            },
    {
        let mut url = self.url.clone();
        match url.set_username("") {
            Ok(()) => {
                let text = url.as_str().to_owned();
                let scheme = url.scheme().to_owned();
                let username = url.username().to_owned();
                let host = url.host_str().map(str::to_owned);
                Some(ParsedUrl { url, text, scheme, username, host })
            },
            Err(()) => None,
        }
    }

    /// The URL's serialization.
    pub fn as_str(&self) -> (r: &str)
        ensures
            r@ == self.parts().0,
    {
        self.text.as_str()
    }

    pub fn scheme(&self) -> (r: &str)
        ensures
            r@ == self.parts().1,
    {
        self.scheme.as_str()
    }

    pub fn username(&self) -> (r: &str)
        ensures
            r@ == self.parts().2,
    {
        self.username.as_str()
    }

    pub fn host_str(&self) -> (r: Option<&str>)
        ensures
            match r {
                Some(h) => self.parts().3 == Some(h@),
                None => self.parts().3 is None,
            },
    {
        match &self.host {
            Some(h) => Some(h.as_str()),
            None => None,
        }
    }
}

/// The parts of a URL after it is made a WebSocket URL: `http` becomes `ws`
/// and `https` becomes `wss`; any other scheme stays.
pub open spec fn ws_parts(p: (Seq<char>, Seq<char>, Seq<char>, Option<Seq<char>>)) -> (
    Seq<char>,
    Seq<char>,
    Seq<char>,
    Option<Seq<char>>,
) {
    if p.1 == "http"@ {
        url_scheme_set_parts(p.0, "ws"@)->0
    } else if p.1 == "https"@ {
        url_scheme_set_parts(p.0, "wss"@)->0
    } else {
        p
    }
}

/// Makes an HTTP URL a WebSocket one, as `ws_parts` says.
pub fn http_to_ws_url(url: &mut ParsedUrl)
    ensures
        final(url).parts() == ws_parts(old(url).parts()),
{
    proof {
        reveal_strlit("http");
        reveal_strlit("https");
        reveal_strlit("ws");
        reveal_strlit("wss");
    }
    if str_eq(url.scheme(), "http") {
        if let Some(u) = url.with_scheme("ws") {
            *url = u;
        }
    } else if str_eq(url.scheme(), "https") {
        if let Some(u) = url.with_scheme("wss") {
            *url = u;
        }
    }
}

/// Why a call to the controller's API failed.
#[derive(Debug)]
pub enum PlaneClientError {
    /// The request failed (the cause, as text).
    Http(String),
    /// The endpoint's URL could not be made.
    Url,
    /// The response did not hold the JSON expected (the cause, as text).
    Json(String),
    /// The response had an unexpected status code.
    UnexpectedStatus(u16),
    /// The controller answered with an error: its text, and the status code.
    PlaneError(String, u16),
}

/// How a response from the controller is taken: a successful status is read
/// as the expected value; otherwise, the controller's error when the body holds
/// one, and the status alone when not.
pub enum ResponseReading {
    ReadBody,
    Failed(PlaneClientError),
}

/// How a response is taken, from its status and (for a failure) the
/// controller's error read from its body, if it held one.
pub fn read_response(status: u16, api_error: Option<String>) -> (r: ResponseReading)
    ensures
        200 <= status < 300 ==> r is ReadBody,
        !(200 <= status < 300) ==> match api_error {
            Some(e) => r matches ResponseReading::Failed(PlaneClientError::PlaneError(m, s)) && m@ == e@ && s == status,
            None => r matches ResponseReading::Failed(PlaneClientError::UnexpectedStatus(s)) && s == status,
        },
{
    if 200 <= status && status < 300 {
        ResponseReading::ReadBody
    } else {
        match api_error {
            Some(e) => ResponseReading::Failed(PlaneClientError::PlaneError(e, status)),
            None => ResponseReading::Failed(PlaneClientError::UnexpectedStatus(status)),
        }
    }
}

/// The paths of the controller's endpoints.
pub open spec fn cluster_path(cluster: Seq<char>, tail: Seq<char>) -> Seq<char> {
    "/ctrl/c/"@ + cluster + tail
}

fn path_in_cluster(prefix: &str, cluster: &ClusterName, tail: &str) -> (r: String)
    ensures
        r@ == prefix@ + cluster@ + tail@,
{
    let mut s = prefix.to_owned();
    push_str(&mut s, cluster.as_str());
    push_str(&mut s, tail);
    s
}

fn backend_path(prefix: &str, cluster: &ClusterName, middle: &str, backend: &BackendName, tail: &str) -> (r: String)
    ensures
        r@ == prefix@ + cluster@ + middle@ + backend@ + tail@,
{
    let mut s = prefix.to_owned();
    push_str(&mut s, cluster.as_str());
    push_str(&mut s, middle);
    push_str(&mut s, backend.as_str());
    push_str(&mut s, tail);
    s
}

/// A client of the controller's API at a base URL.
pub struct PlaneClient {
    base_url: ParsedUrl,
}

impl PlaneClient {
    pub closed spec fn base(&self) -> Seq<char> {
        self.base_url.parts().0
    }

    pub fn new(base_url: ParsedUrl) -> (r: Self)
        ensures
            r.base() == base_url.parts().0,
    {
        PlaneClient { base_url }
    }

    /// The URL of `path` on the controller; an error when it cannot be made.
    pub fn endpoint_url(&self, path: &str) -> (r: Result<ParsedUrl, PlaneClientError>)
        ensures
            match r {
                Ok(u) => url_join_parts(self.base(), path@) == Some(u.parts()),
                Err(e) => url_join_parts(self.base(), path@) is None && e is Url,
            },
    {
        match self.base_url.join(path) {
            Some(u) => Ok(u),
            None => Err(PlaneClientError::Url),
        }
    }

    /// The WebSocket URL of `path` on the controller; `None` when it cannot be made.
    pub fn socket_url(&self, path: &str) -> (r: Option<ParsedUrl>)
        ensures
            match r {
                Some(u) => url_join_parts(self.base(), path@) is Some && u.parts() == ws_parts(
                    url_join_parts(self.base(), path@)->0,
                ),
                None => url_join_parts(self.base(), path@) is None,
            },
    {
        match self.base_url.join(path) {
            Some(mut u) => {
                http_to_ws_url(&mut u);
                Some(u)
            },
            None => None,
        }
    }

    /// `/ctrl/status`
    pub fn status_path() -> (r: &'static str)
        ensures
            r@ == "/ctrl/status"@,
    {
        "/ctrl/status"
    }

    /// `/ctrl/c/{cluster}/drone-socket`
    pub fn drone_socket_path(cluster: &ClusterName) -> (r: String)
        ensures
            r@ == cluster_path(cluster@, "/drone-socket"@),
    {
        path_in_cluster("/ctrl/c/", cluster, "/drone-socket")
    }

    /// `/ctrl/c/{cluster}/proxy-socket`
    pub fn proxy_socket_path(cluster: &ClusterName) -> (r: String)
        ensures
            r@ == cluster_path(cluster@, "/proxy-socket"@),
    {
        path_in_cluster("/ctrl/c/", cluster, "/proxy-socket")
    }

    /// `/ctrl/dns-socket`
    pub fn dns_socket_path() -> (r: &'static str)
        ensures
            r@ == "/ctrl/dns-socket"@,
    {
        "/ctrl/dns-socket"
    }

    /// `/ctrl/c/{cluster}/connect`
    pub fn connect_path(cluster: &ClusterName) -> (r: String)
        ensures
            r@ == cluster_path(cluster@, "/connect"@),
    {
        path_in_cluster("/ctrl/c/", cluster, "/connect")
    }

    /// `/ctrl/c/{cluster}/d/{drone}/drain`
    pub fn drain_path(cluster: &ClusterName, drone: &str) -> (r: String)
        ensures
            r@ == cluster_path(cluster@, "/d/"@ + drone@ + "/drain"@),
    {
        let mut s = path_in_cluster("/ctrl/c/", cluster, "/d/");
        push_str(&mut s, drone);
        push_str(&mut s, "/drain");
        proof {
            assert(s@ =~= cluster_path(cluster@, "/d/"@ + drone@ + "/drain"@));
        }
        s
    }

    /// `/ctrl/c/{cluster}/b/{backend}/soft-terminate`
    pub fn soft_terminate_path(cluster: &ClusterName, backend: &BackendName) -> (r: String)
        ensures
            r@ == "/ctrl/c/"@ + cluster@ + "/b/"@ + backend@ + "/soft-terminate"@,
    {
        backend_path("/ctrl/c/", cluster, "/b/", backend, "/soft-terminate")
    }

    /// `/ctrl/c/{cluster}/b/{backend}/hard-terminate`
    pub fn hard_terminate_path(cluster: &ClusterName, backend: &BackendName) -> (r: String)
        ensures
            r@ == "/ctrl/c/"@ + cluster@ + "/b/"@ + backend@ + "/hard-terminate"@,
    {
        backend_path("/ctrl/c/", cluster, "/b/", backend, "/hard-terminate")
    }

    /// `/pub/c/{cluster}/b/{backend}/status`
    pub fn backend_status_path(cluster: &ClusterName, backend: &BackendName) -> (r: String)
        ensures
            r@ == "/pub/c/"@ + cluster@ + "/b/"@ + backend@ + "/status"@,
    {
        backend_path("/pub/c/", cluster, "/b/", backend, "/status")
    }

    /// `/pub/c/{cluster}/b/{backend}/status-stream`
    pub fn backend_status_stream_path(cluster: &ClusterName, backend: &BackendName) -> (r: String)
        ensures
            r@ == "/pub/c/"@ + cluster@ + "/b/"@ + backend@ + "/status-stream"@,
    {
        backend_path("/pub/c/", cluster, "/b/", backend, "/status-stream")
    }
}

} // verus!
