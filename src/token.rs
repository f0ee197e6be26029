//! Finding the bearer token of a request.
//!
//! A token may travel in three places. They are tried in a fixed order,
//! from the most to the least tamper-resistant channel: the
//! `Authorization: Bearer` header, then a named cookie, then the `token`
//! query parameter. The first place that holds a token wins.
use vstd::prelude::*;

verus! {

/// A place of a request where a token may be found.
#[derive(Clone, Copy, Debug, PartialEq, Eq, Structural)]
pub enum TokenSource {
    /// The `Authorization: Bearer <token>` header.
    Header,
    /// The cookie whose name the caller gives.
    Cookie,
    /// The query parameter named `token`.
    Query,
}

/// Why no token could be had.
#[derive(Clone, Copy, Debug, PartialEq, Eq, Structural)]
pub enum TokenError {
    /// None of the three places held a token.
    NotFound,
}

/// What to do after one place was looked at.
#[derive(Debug)]
pub enum TokenStep {
    /// The token was found; the search is over.
    Found(String),
    /// Nothing there; look at this place next.
    Try(TokenSource),
    /// Every place was looked at in vain.
    Fail(TokenError),
}

/// The position of a place in the order of precedence.
pub open spec fn rank(s: TokenSource) -> nat {
    match s {
        TokenSource::Header => 0,
        TokenSource::Cookie => 1,
        TokenSource::Query => 2,
    }
}

/// The token that the order of precedence picks from what the three places hold.
pub open spec fn chosen_token(
    header: Option<Seq<char>>,
    cookie: Option<Seq<char>>,
    query: Option<Seq<char>>,
) -> Option<Seq<char>> {
    if header is Some {
        header
    } else if cookie is Some {
        cookie
    } else {
        query
    }
}

/// The view of an optional string.
pub open spec fn opt_view(o: Option<String>) -> Option<Seq<char>> {
    match o {
        Some(s) => Some(s@),
        None => None,
    }
}

impl TokenError {
    /// The HTTP status that reports this error: authentication is required.
    pub fn status_code(&self) -> (r: u16)
        ensures
            r == 401,
    {
        401
    }
}

/// The place that is looked at first.
pub fn first_source() -> (r: TokenSource)
    ensures
        rank(r) == 0,
{
    TokenSource::Header
}

/// The place that follows `s` in the order of precedence, if any.
pub fn next_source(s: TokenSource) -> (r: Option<TokenSource>)
    ensures
        r matches Some(n) ==> rank(n) == rank(s) + 1,
        r is None <==> rank(s) == 2,
{
    match s {
        TokenSource::Header => Some(TokenSource::Cookie),
        TokenSource::Cookie => Some(TokenSource::Query),
        TokenSource::Query => None,
    }
}

/// Decides the next step after looking at place `tried`, which held `found`.
pub fn resolve_step(tried: TokenSource, found: Option<String>) -> (r: TokenStep)
    ensures
        found matches Some(t) ==> r == TokenStep::Found(t),
        found is None && rank(tried) < 2 ==> (r matches TokenStep::Try(n) && rank(n) == rank(
            tried,
        ) + 1),
        found is None && rank(tried) == 2 ==> r == TokenStep::Fail(TokenError::NotFound),
{
    match found {
        Some(t) => TokenStep::Found(t),
        None => match next_source(tried) {
            Some(n) => TokenStep::Try(n),
            None => TokenStep::Fail(TokenError::NotFound),
        },
    }
}

/// Picks the token of a request from what its header, cookie and query
/// parameter hold, by running the steps of the search from the first place.
pub fn resolve_token(header: Option<String>, cookie: Option<String>, query: Option<String>) -> (r:
    Result<String, TokenError>)
    ensures
        match chosen_token(opt_view(header), opt_view(cookie), opt_view(query)) {
            Some(t) => r matches Ok(v) && v@ == t,
            None => r == Err::<String, TokenError>(TokenError::NotFound),
        },
{
    let mut source = first_source();
    loop
        invariant
            rank(source) <= 2,
            rank(source) >= 1 ==> header is None,
            rank(source) >= 2 ==> cookie is None,
        decreases 2 - rank(source),
    {
        let found = match source {
            TokenSource::Header => header.clone(),
            TokenSource::Cookie => cookie.clone(),
            TokenSource::Query => query.clone(),
        };
        match resolve_step(source, found) {
            TokenStep::Found(t) => {
                return Ok(t);
            },
            TokenStep::Try(n) => {
                source = n;
            },
            TokenStep::Fail(e) => {
                return Err(e);
            },
        }
    }
}

} // verus!
