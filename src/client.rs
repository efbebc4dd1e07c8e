//! The transport client: the access token and base URL, and how an outbound
//! request is addressed.
use vstd::prelude::*;
use vstd::string::StrSliceExecFns;

use crate::query::pairs_view;

verus! {

/// Whether `s` begins with `p`.
pub open spec fn has_prefix(s: Seq<char>, p: Seq<char>) -> bool {
    p.len() <= s.len() && s.subrange(0, p.len() as int) == p
}

/// The URL a request to `target` goes to: a target that starts with `http` is a
/// complete URL, anything else a path under `base`.
pub open spec fn request_url(base: Seq<char>, target: Seq<char>) -> Seq<char> {
    if has_prefix(target, "http"@) {
        target
    } else {
        base + target
    }
}

/// The base URL a new builder starts with.
pub open spec fn default_api_url() -> Seq<char> {
    "https://kodikapi.com"@
}

/// An outbound POST request, ready to be sent.
#[derive(Clone, Debug, PartialEq)]
pub struct PostRequest {
    /// Where it goes.
    pub url: String,
    /// Its query-string pairs, in order.
    pub query: Vec<(String, String)>,
    /// Its form body, if it has one.
    pub body: Option<String>,
}

impl PostRequest {
    /// Appends `params` to the query string.
    pub fn query(self, params: Vec<(String, String)>) -> (r: PostRequest)
        ensures
            r.url == self.url,
            pairs_view(r.query@) == pairs_view(self.query@) + pairs_view(params@),
            r.body == self.body,
    {
        let mut query = self.query;
        let mut params = params;
        let ghost q0 = query@;
        let ghost p0 = params@;
        query.append(&mut params);
        proof {
            assert(query@ == q0 + p0);
            assert(pairs_view(query@) =~= pairs_view(q0) + pairs_view(p0));
        }
        PostRequest { url: self.url, query, body: self.body }
    }

    /// Sets the form body.
    pub fn body(self, body: String) -> (r: PostRequest)
        ensures
            r.url == self.url,
            r.query == self.query,
            r.body == Some(body),
    {
        PostRequest { url: self.url, query: self.query, body: Some(body) }
    }
}

/// Builds a [`Client`].
#[derive(Clone, Debug)]
pub struct ClientBuilder {
    api_key: Option<String>,
    api_url: String,
}

impl ClientBuilder {
    /// The access token set so far.
    pub closed spec fn spec_api_key(&self) -> Option<String> {
        self.api_key
    }

    /// The base URL set so far.
    pub closed spec fn spec_api_url(&self) -> Seq<char> {
        self.api_url@
    }

    /// A builder with no token and the default base URL.
    pub fn new() -> (r: ClientBuilder)
        ensures
            r.spec_api_key() is None,
            r.spec_api_url() == default_api_url(),
    {
        ClientBuilder { api_key: None, api_url: "https://kodikapi.com".to_owned() }
    }

    /// Sets the API key (token).
    pub fn api_key(self, api_key: &str) -> (r: ClientBuilder)
        ensures
            r.spec_api_key() is Some,
            r.spec_api_key()->Some_0@ == api_key@,
            r.spec_api_url() == self.spec_api_url(),
    {
        ClientBuilder { api_key: Some(api_key.to_owned()), api_url: self.api_url }
    }

    /// Sets the base URL.
    pub fn api_url(self, api_url: &str) -> (r: ClientBuilder)
        ensures
            r.spec_api_key() == self.spec_api_key(),
            r.spec_api_url() == api_url@,
    {
        ClientBuilder { api_key: self.api_key, api_url: api_url.to_owned() }
    }

    /// The client; a token must have been set.
    pub fn build(self) -> (r: Client)
        requires
            self.spec_api_key() is Some,
        ensures
            r.spec_api_key() == self.spec_api_key()->Some_0@,
            r.spec_api_url() == self.spec_api_url(),
    {
        match self.api_key {
            Some(api_key) => Client { api_key, api_url: self.api_url },
            None => Client { api_key: String::new(), api_url: self.api_url },
        }
    }
}

impl Default for ClientBuilder {
    fn default() -> (r: ClientBuilder)
        ensures
            r.spec_api_key() is None,
            r.spec_api_url() == default_api_url(),
    {
        ClientBuilder::new()
    }
}

/// The access token and base URL every request is made with. Both are fixed
/// once the client is built.
#[derive(Clone, Debug)]
pub struct Client {
    api_key: String,
    api_url: String,
}

fn starts_with_http(s: &str) -> (r: bool)
    ensures
        r == has_prefix(s@, "http"@),
{
    proof {
        reveal_strlit("http");
    }
    if s.unicode_len() < 4 {
        return false;
    }
    let r = s.get_char(0) == 'h' && s.get_char(1) == 't' && s.get_char(2) == 't' && s.get_char(3) == 'p';
    proof {
        if r {
            assert(s@.subrange(0, 4) =~= "http"@);
        } else {
            assert(s@.subrange(0, 4) != "http"@ ) by {
                if s@.subrange(0, 4) == "http"@ {
                    assert(s@.subrange(0, 4)[0] == s@[0]);
                    assert(s@.subrange(0, 4)[1] == s@[1]);
                    assert(s@.subrange(0, 4)[2] == s@[2]);
                    assert(s@.subrange(0, 4)[3] == s@[3]);
                }
            }
        }
    }
    r
}

impl Client {
    /// The access token.
    pub closed spec fn spec_api_key(&self) -> Seq<char> {
        self.api_key@
    }

    /// The base URL.
    pub closed spec fn spec_api_url(&self) -> Seq<char> {
        self.api_url@
    }

    /// A client with the given token and the default base URL.
    pub fn new(api_key: &str) -> (r: Client)
        ensures
            r.spec_api_key() == api_key@,
            r.spec_api_url() == default_api_url(),
    {
        ClientBuilder::new().api_key(api_key).build()
    }

    /// A POST request to `path_or_url`, carrying the token as the `token`
    /// query parameter whether the target is a path or a complete URL.
    pub fn init_post_request(&self, path_or_url: &str) -> (r: PostRequest)
        ensures
            r.url@ == request_url(self.spec_api_url(), path_or_url@),
            pairs_view(r.query@) == seq![("token"@, self.spec_api_key())],
            r.body is None,
    {
        let url = if starts_with_http(path_or_url) {
            path_or_url.to_owned()
        } else {
            self.api_url.clone().concat(path_or_url)
        };
        let mut query: Vec<(String, String)> = Vec::new();
        query.push(("token".to_owned(), self.api_key.clone()));
        proof {
            assert(pairs_view(query@) =~= seq![("token"@, self.spec_api_key())]);
        }
        PostRequest { url, query, body: None }
    }
}

} // verus!
