//! Rule-evaluation contexts: what the gateway knows about the request to
//! authenticate, and what the backend said about its session. Extraction of
//! a `RequestContext` from the raw sub-request headers lives here; the HTTP
//! layer hands those headers over as plain (name, value) pairs, with `None`
//! standing for a value that was not valid UTF-8.

use vstd::prelude::*;
use vstd::string::*;

use crate::errors::InvalidAuthRequest;
use crate::strutil::ascii_eq_ci;
use crate::strutil::str_eq_ci;

verus! {

/// Protocol used to request the protected resource.
#[derive(Debug, PartialEq, Eq)]
pub enum RequestProtocol {
    Http,
    Https,
    /// Any other scheme, preserved verbatim.
    Other(String),
}

/// The character sequence a protocol renders to in the audited resource URL.
pub open spec fn protocol_text(p: RequestProtocol) -> Seq<char> {
    match p {
        RequestProtocol::Http => "http"@,
        RequestProtocol::Https => "https"@,
        RequestProtocol::Other(s) => s@,
    }
}

impl Clone for RequestProtocol {
    /// An equal protocol value.
    fn clone(&self) -> (r: Self)
        ensures
            r == *self,
    {
        match self {
            RequestProtocol::Http => RequestProtocol::Http,
            RequestProtocol::Https => RequestProtocol::Https,
            RequestProtocol::Other(s) => RequestProtocol::Other(s.clone()),
        }
    }
}

impl RequestProtocol {
    /// The protocol as text, as it appears in the resource URL.
    pub fn to_text(&self) -> (r: String)
        ensures
            r@ == protocol_text(*self),
    {
        match self {
            RequestProtocol::Http => String::from_str("http"),
            RequestProtocol::Https => String::from_str("https"),
            RequestProtocol::Other(s) => s.clone(),
        }
    }

    /// Parse a protocol value: `http` and `https` are recognised up to ASCII
    /// case, anything else is preserved verbatim.
    pub fn parse(value: &str) -> (r: RequestProtocol)
        ensures
            ascii_eq_ci(value@, "http"@) ==> r == RequestProtocol::Http,
            !ascii_eq_ci(value@, "http"@) && ascii_eq_ci(value@, "https"@) ==> r
                == RequestProtocol::Https,
            !ascii_eq_ci(value@, "http"@) && !ascii_eq_ci(value@, "https"@) ==> (r matches
                RequestProtocol::Other(s) && s@ == value@),
    {
        if str_eq_ci(value, "http") {
            RequestProtocol::Http
        } else if str_eq_ci(value, "https") {
            RequestProtocol::Https
        } else {
            RequestProtocol::Other(String::from_str(value))
        }
    }
}

/// Rule-evaluation context obtained from the authenticator backend.
#[derive(Clone, Debug, PartialEq, Eq)]
pub struct AuthenticationContext {
    /// Result of the authentication process for the request.
    pub authenticated: bool,
    /// User ID provided by the backend, if any; its meaning depends on the
    /// backend (an email address, a subject).
    pub user: Option<String>,
    /// Session ID provided by the backend, if any; an opaque value.
    pub session: Option<String>,
}

impl AuthenticationContext {
    /// The unauthenticated context value: no user, no session.
    pub open spec fn spec_unauthenticated() -> AuthenticationContext {
        AuthenticationContext { authenticated: false, user: None, session: None }
    }

    /// An unauthenticated context: no user, no session.
    pub fn unauthenticated() -> (r: AuthenticationContext)
        ensures
            r == AuthenticationContext::spec_unauthenticated(),
    {
        AuthenticationContext { authenticated: false, user: None, session: None }
    }
}

/// Rule-evaluation context obtained from the request to authenticate.
///
/// Headers are an ordered list of (name, value) pairs: duplicates are
/// preserved, and names compare ASCII case-insensitively wherever the rules
/// look them up.
#[derive(Clone, Debug)]
pub struct RequestContext {
    /// All headers of the sub-request, in order.
    pub headers: Vec<(String, String)>,
    /// The host the request is for, from the `Host` header.
    pub host: String,
    /// Protocol of the request to authenticate, from `X-Forwarded-Proto`.
    pub protocol: RequestProtocol,
    /// URI of the request to authenticate, from `X-Original-URI`.
    pub uri: String,
}

/// The view of a raw header list: names, and values where they were valid
/// UTF-8.
pub open spec fn raw_view(s: Seq<(String, Option<String>)>) -> Seq<(Seq<char>, Option<Seq<char>>)> {
    s.map_values(
        |e: (String, Option<String>)|
            (
                e.0@,
                match e.1 {
                    Some(v) => Some(v@),
                    None => None,
                },
            ),
    )
}

/// The view of a header pair list.
pub open spec fn pairs_view(s: Seq<(String, String)>) -> Seq<(Seq<char>, Seq<char>)> {
    s.map_values(|e: (String, String)| (e.0@, e.1@))
}

/// The value slot of the first raw header named `name` (ASCII
/// case-insensitive): `None` if no such header, `Some(None)` if its value is
/// not UTF-8, `Some(Some(v))` otherwise.
pub open spec fn find_raw(
    s: Seq<(Seq<char>, Option<Seq<char>>)>,
    name: Seq<char>,
) -> Option<Option<Seq<char>>>
    decreases s.len(),
{
    if s.len() == 0 {
        None
    } else if ascii_eq_ci(s[0].0, name) {
        Some(s[0].1)
    } else {
        find_raw(s.drop_first(), name)
    }
}

/// Every raw header value was valid UTF-8.
pub open spec fn all_values_utf8(s: Seq<(Seq<char>, Option<Seq<char>>)>) -> bool {
    forall|i: int| 0 <= i < s.len() ==> s[i].1 is Some
}

/// The raw headers with their decoded values, defined when all values are
/// UTF-8.
pub open spec fn decoded_view(s: Seq<(Seq<char>, Option<Seq<char>>)>) -> Seq<
    (Seq<char>, Seq<char>),
> {
    s.map_values(|e: (Seq<char>, Option<Seq<char>>)| (e.0, e.1->Some_0))
}

/// The name of the first raw header whose value is not UTF-8, defined when
/// one exists.
pub open spec fn first_non_utf8_name(s: Seq<(Seq<char>, Option<Seq<char>>)>) -> Seq<char>
    decreases s.len(),
{
    if s.len() == 0 {
        Seq::empty()
    } else if s[0].1 is None {
        s[0].0
    } else {
        first_non_utf8_name(s.drop_first())
    }
}

impl RequestContext {
    /// Extract the rule-evaluation context from the raw sub-request headers.
    ///
    /// `Host`, `X-Forwarded-Proto` and `X-Original-URI` are required, in that
    /// order of checking; a missing one, or one with a non-UTF-8 value, is a
    /// malformed request. Any other header with a non-UTF-8 value is also
    /// rejected, naming the header.
    pub fn from_request(raw: &Vec<(String, Option<String>)>) -> (r: Result<
        RequestContext,
        InvalidAuthRequest,
    >)
        ensures
            ({
                let v = raw_view(raw@);
                match r {
                    Ok(ctx) => {
                        &&& find_raw(v, "host"@) matches Some(Some(h)) && ctx.host@ == h
                        &&& find_raw(v, "x-forwarded-proto"@) matches Some(Some(p)) && {
                            &&& ascii_eq_ci(p, "http"@) ==> ctx.protocol == RequestProtocol::Http
                            &&& !ascii_eq_ci(p, "http"@) && ascii_eq_ci(p, "https"@)
                                ==> ctx.protocol == RequestProtocol::Https
                            &&& !ascii_eq_ci(p, "http"@) && !ascii_eq_ci(p, "https"@) ==> (
                            ctx.protocol matches RequestProtocol::Other(s) && s@ == p)
                        }
                        &&& find_raw(v, "x-original-uri"@) matches Some(Some(u)) && ctx.uri@ == u
                        &&& all_values_utf8(v)
                        &&& pairs_view(ctx.headers@) == decoded_view(v)
                    },
                    Err(e) => match e {
                        InvalidAuthRequest::NoHost => find_raw(v, "host"@) is None,
                        InvalidAuthRequest::HostNotUtf8 => find_raw(v, "host"@) == Some(
                            None::<Seq<char>>,
                        ),
                        InvalidAuthRequest::NoProtocol => {
                            &&& find_raw(v, "host"@) matches Some(Some(_))
                            &&& find_raw(v, "x-forwarded-proto"@) is None
                        },
                        InvalidAuthRequest::ProtocolNotUtf8 => {
                            &&& find_raw(v, "host"@) matches Some(Some(_))
                            &&& find_raw(v, "x-forwarded-proto"@) == Some(None::<Seq<char>>)
                        },
                        InvalidAuthRequest::NoUri => {
                            &&& find_raw(v, "host"@) matches Some(Some(_))
                            &&& find_raw(v, "x-forwarded-proto"@) matches Some(Some(_))
                            &&& find_raw(v, "x-original-uri"@) is None
                        },
                        InvalidAuthRequest::UriNotUtf8 => {
                            &&& find_raw(v, "host"@) matches Some(Some(_))
                            &&& find_raw(v, "x-forwarded-proto"@) matches Some(Some(_))
                            &&& find_raw(v, "x-original-uri"@) == Some(None::<Seq<char>>)
                        },
                        InvalidAuthRequest::HeaderValueNotUtf8(name) => {
                            &&& find_raw(v, "host"@) matches Some(Some(_))
                            &&& find_raw(v, "x-forwarded-proto"@) matches Some(Some(_))
                            &&& find_raw(v, "x-original-uri"@) matches Some(Some(_))
                            &&& !all_values_utf8(v)
                            &&& name@ == first_non_utf8_name(v)
                        },
                    },
                }
            }),
    {
        let host = match Self::find_header(raw, "host") {
            None => {
                return Err(InvalidAuthRequest::NoHost);
            },
            Some(None) => {
                return Err(InvalidAuthRequest::HostNotUtf8);
            },
            Some(Some(value)) => value.clone(),
        };
        let protocol = match Self::find_header(raw, "x-forwarded-proto") {
            None => {
                return Err(InvalidAuthRequest::NoProtocol);
            },
            Some(None) => {
                return Err(InvalidAuthRequest::ProtocolNotUtf8);
            },
            Some(Some(value)) => RequestProtocol::parse(value.as_str()),
        };
        let uri = match Self::find_header(raw, "x-original-uri") {
            None => {
                return Err(InvalidAuthRequest::NoUri);
            },
            Some(None) => {
                return Err(InvalidAuthRequest::UriNotUtf8);
            },
            Some(Some(value)) => value.clone(),
        };
        let mut headers: Vec<(String, String)> = Vec::new();
        let n = raw.len();
        let mut i: usize = 0;
        while i < n
            invariant
                0 <= i <= n,
                n == raw@.len(),
                find_raw(raw_view(raw@), "host"@) matches Some(Some(h)) && host@ == h,
                find_raw(raw_view(raw@), "x-forwarded-proto"@) matches Some(Some(_)),
                find_raw(raw_view(raw@), "x-original-uri"@) matches Some(Some(u)) && uri@ == u,
                ({
                    let p = find_raw(raw_view(raw@), "x-forwarded-proto"@)->Some_0->Some_0;
                    &&& ascii_eq_ci(p, "http"@) ==> protocol == RequestProtocol::Http
                    &&& !ascii_eq_ci(p, "http"@) && ascii_eq_ci(p, "https"@) ==> protocol
                        == RequestProtocol::Https
                    &&& !ascii_eq_ci(p, "http"@) && !ascii_eq_ci(p, "https"@) ==> (
                    protocol matches RequestProtocol::Other(s) && s@ == p)
                }),
                forall|j: int| 0 <= j < i ==> raw_view(raw@)[j].1 is Some,
                pairs_view(headers@) =~= decoded_view(raw_view(raw@).subrange(0, i as int)),
            decreases n - i,
        {
            let ghost v = raw_view(raw@);
            proof {
                assert(decoded_view(v.subrange(0, i + 1 as int)) =~= decoded_view(
                    v.subrange(0, i as int),
                ).push((v[i as int].0, v[i as int].1->Some_0)));
            }
            match &raw[i].1 {
                Some(value) => {
                    headers.push((raw[i].0.clone(), value.clone()));
                },
                None => {
                    proof {
                        Self::lemma_first_non_utf8(v, i as int);
                    }
                    return Err(InvalidAuthRequest::HeaderValueNotUtf8(raw[i].0.clone()));
                },
            }
            i = i + 1;
        }
        proof {
            assert(raw_view(raw@).subrange(0, n as int) =~= raw_view(raw@));
        }
        Ok(RequestContext { headers, host, protocol, uri })
    }

    /// Find the first raw header with the given (lower-case) name, comparing
    /// names ASCII case-insensitively.
    fn find_header<'a>(raw: &'a Vec<(String, Option<String>)>, name: &str) -> (r: Option<
        &'a Option<String>,
    >)
        ensures
            match r {
                Some(slot) => find_raw(raw_view(raw@), name@) == Some(
                    match slot {
                        Some(v) => Some(v@),
                        None => None::<Seq<char>>,
                    },
                ),
                None => find_raw(raw_view(raw@), name@) is None,
            },
    {
        let n = raw.len();
        let ghost v = raw_view(raw@);
        proof {
            assert(v.subrange(0, n as int) =~= v);
        }
        let mut i: usize = 0;
        while i < n
            invariant
                0 <= i <= n,
                n == raw@.len(),
                v == raw_view(raw@),
                find_raw(v, name@) == find_raw(v.subrange(i as int, n as int), name@),
            decreases n - i,
        {
            let ghost tail = v.subrange(i as int, n as int);
            proof {
                assert(tail[0] == v[i as int]);
                assert(tail.drop_first() =~= v.subrange(i + 1 as int, n as int));
            }
            if str_eq_ci(raw[i].0.as_str(), name) {
                return Some(&raw[i].1);
            }
            i = i + 1;
        }
        proof {
            assert(v.subrange(n as int, n as int) =~= Seq::<
                (Seq<char>, Option<Seq<char>>),
            >::empty());
        }
        None
    }

    /// If every value before `i` is UTF-8 and the value at `i` is not, then
    /// `i` names the first non-UTF-8 header.
    proof fn lemma_first_non_utf8(v: Seq<(Seq<char>, Option<Seq<char>>)>, i: int)
        requires
            0 <= i < v.len(),
            v[i].1 is None,
            forall|j: int| 0 <= j < i ==> v[j].1 is Some,
        ensures
            !all_values_utf8(v),
            first_non_utf8_name(v) == v[i].0,
        decreases i,
    {
        if i == 0 {
        } else {
            Self::lemma_first_non_utf8(v.drop_first(), i - 1);
        }
    }
}

} // verus!
