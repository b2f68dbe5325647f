use crate::render::{push_text, text_of};
use vstd::prelude::*;

verus! {

#[verifier::external_type_specification]
#[verifier::external_body]
pub struct ExUrl(url::Url);

#[verifier::external_type_specification]
#[verifier::external_body]
pub struct ExParseError(url::ParseError);

/// Whether `url::Url::parse` reads `s` as an absolute URL.
pub uninterp spec fn url_parses(s: Seq<char>) -> bool;

/// Relies on `url::Url::parse`: whether it succeeds depends on the text alone.
pub assume_specification[ url::Url::parse ](input: &str) -> (r: Result<url::Url, url::ParseError>)
    ensures
        r is Ok <==> url_parses(input@),
;

/// Relies on `url::Url::set_username`, which fails on URLs that cannot hold
/// credentials; which those are is not stated here.
pub assume_specification[ url::Url::set_username ](url: &mut url::Url, username: &str) -> Result<
    (),
    (),
>;

/// Relies on `url::Url::set_password`, which fails on URLs that cannot hold
/// credentials; which those are is not stated here.
pub assume_specification[ url::Url::set_password ](
    url: &mut url::Url,
    password: Option<&str>,
) -> Result<(), ()>;

/// Relies on `url::Url::set_path`, which always returns.
pub assume_specification[ url::Url::set_path ](url: &mut url::Url, path: &str);

/// Why an endpoint URL could not be built.
#[derive(Debug, PartialEq, Eq)]
pub enum UrlError {
    /// The base URL is not an absolute URL.
    Invalid,
    /// The base URL cannot hold a username.
    Username,
    /// The base URL cannot hold a password.
    Password,
}

/// The path of the log query endpoint.
pub const LOG_QUERY_PATH: &'static str = "/loki/api/v1/query";

/// The query endpoint of the log service at `base`, with the given
/// credentials.
pub fn log_url(base: &str, username: &str, password: &str) -> (r: Result<url::Url, UrlError>)
    ensures
        r matches Err(UrlError::Invalid) <==> !url_parses(base@),
{
    let mut url = match url::Url::parse(base) {
        Ok(u) => u,
        Err(_) => return Err(UrlError::Invalid),
    };
    if url.set_username(username).is_err() {
        return Err(UrlError::Username);
    }
    if url.set_password(Some(password)).is_err() {
        return Err(UrlError::Password);
    }
    url.set_path(LOG_QUERY_PATH);
    Ok(url)
}

/// The path under which a subgraph deployment answers queries.
pub open spec fn subgraph_path_text(deployment: Seq<char>) -> Seq<char> {
    "/subgraphs/id/"@ + deployment
}

/// Builds [`subgraph_path_text`].
pub fn subgraph_path(deployment: &str) -> (r: String)
    ensures
        r@ == subgraph_path_text(deployment@),
{
    let mut text: Vec<char> = Vec::new();
    push_text(&mut text, "/subgraphs/id/");
    push_text(&mut text, deployment);
    text_of(text)
}

/// The query endpoint of `deployment` on the indexing node at `base`.
pub fn subgraph_url(base: &str, deployment: &str) -> (r: Result<url::Url, UrlError>)
    ensures
        r is Ok <==> url_parses(base@),
        r is Err ==> r == Err::<url::Url, UrlError>(UrlError::Invalid),
{
    let mut url = match url::Url::parse(base) {
        Ok(u) => u,
        Err(_) => return Err(UrlError::Invalid),
    };
    let path = subgraph_path(deployment);
    url.set_path(path.as_str());
    Ok(url)
}

} // verus!
