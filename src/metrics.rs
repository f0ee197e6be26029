//! Facts about a request that its metrics are labelled with.
use vstd::prelude::*;

verus! {

/// The headers and URI part that tell which scheme a request came in by.
///
/// For each header, `None` means that the request does not carry it,
/// `Some(None)` that it carries it with a value that is not visible ASCII
/// text, and `Some(Some(t))` that it carries the text `t`.
#[derive(Clone, Debug)]
pub struct SchemeHeaders {
    /// The `X-Forwarded-Prot` header.
    pub forwarded_prot: Option<Option<String>>,
    /// The `X-Forwarded-Protocol` header.
    pub forwarded_protocol: Option<Option<String>>,
    /// The `X-Forwarded-Ssl` header.
    pub forwarded_ssl: Option<Option<String>>,
    /// The `X-Url-Scheme` header.
    pub url_scheme: Option<Option<String>>,
    /// The scheme of the request URI, if it has one.
    pub uri_scheme: Option<String>,
}

/// The text of a header value, or `default` where it is not text.
pub open spec fn text_or(v: Option<String>, default: Seq<char>) -> Seq<char> {
    match v {
        Some(t) => t@,
        None => default,
    }
}

/// The scheme that a request came in by: the first header that is present
/// decides, in the order `X-Forwarded-Prot`, `X-Forwarded-Protocol`,
/// `X-Forwarded-Ssl` (`on` meaning https), `X-Url-Scheme`; then the URI's
/// own scheme; `http` when nothing tells.
pub open spec fn scheme_of(h: SchemeHeaders) -> Seq<char> {
    match h.forwarded_prot {
        Some(v) => text_or(v, "http"@),
        None => match h.forwarded_protocol {
            Some(v) => text_or(v, "http"@),
            None => match h.forwarded_ssl {
                Some(v) => if text_or(v, "off"@) == "on"@ {
                    "https"@
                } else {
                    "http"@
                },
                None => match h.url_scheme {
                    Some(v) => text_or(v, "http"@),
                    None => match h.uri_scheme {
                        Some(s) => s@,
                        None => "http"@,
                    },
                },
            },
        },
    }
}

fn text_or_http(v: &Option<String>) -> (r: String)
    ensures
        r@ == text_or(*v, "http"@),
{
    match v {
        Some(t) => t.clone(),
        None => String::from_str("http"),
    }
}

/// The scheme that a request came in by, as [`scheme_of`] says.
pub fn scheme(headers: &SchemeHeaders) -> (r: String)
    ensures
        r@ == scheme_of(*headers),
{
    if let Some(v) = &headers.forwarded_prot {
        text_or_http(v)
    } else if let Some(v) = &headers.forwarded_protocol {
        text_or_http(v)
    } else if let Some(v) = &headers.forwarded_ssl {
        let on = String::from_str("on");
        proof {
            reveal_strlit("on");
            reveal_strlit("off");
        }
        assert("off"@.len() != "on"@.len());
        let is_on = match v {
            Some(t) => *t == on,
            None => false,
        };
        if is_on {
            String::from_str("https")
        } else {
            String::from_str("http")
        }
    } else if let Some(v) = &headers.url_scheme {
        text_or_http(v)
    } else if let Some(s) = &headers.uri_scheme {
        s.clone()
    } else {
        String::from_str("http")
    }
}

/// The full name of a metric: the service's prefix, an underscore, and the
/// metric's own name.
pub fn metric_name(prefix: &str, metric: &str) -> (r: String)
    ensures
        r@ == prefix@ + "_"@ + metric@,
{
    String::from_str(prefix).concat("_").concat(metric)
}

} // verus!
