//! Building the request against the per-language endpoint: the endpoint URL
//! comes from substituting the language code into a fixed template, and the
//! query string carries the fixed protocol parameters plus the encoded
//! search phrase.
use crate::encode::form_encode;
use crate::encode::form_encoded;
use crate::LookupError;
use vstd::prelude::*;
use vstd::string::StringExecFns;
use vstd::string::StringSliceAdditionalSpecFns;

verus! {

/// The endpoint for a language code: the code substituted into the
/// fixed template.
pub open spec fn endpoint_of(lang: Seq<char>) -> Seq<char> {
    "https://"@ + lang + ".wikipedia.org/w/api.php"@
}

/// The query string for a search phrase: the fixed parameters of the
/// protocol, in order, then the phrase, form-encoded. The two boolean
/// parameters are spelled out, and the redirect flag is the string `1`.
pub open spec fn query_of(phrase_bytes: Seq<u8>) -> Seq<char> {
    "format=json&action=query&prop=extracts&exintro=true&explaintext=true&redirects=1&titles="@
        + form_encoded(phrase_bytes)
}

/// Whether a string is a well-formed URL.
pub uninterp spec fn url_ok(s: Seq<char>) -> bool;

/// Relies on url::Url::parse: whether a string parses as a well-formed
/// URL depends on the string alone.
#[verifier::external_body]
fn url_is_valid(s: &str) -> (r: bool)
    ensures
        r == url_ok(s@),
{
    url::Url::parse(s).is_ok()
}

/// A fully-formed request: the endpoint URL and the query string to
/// attach to it. Pure data; issuing the request is the caller's own,
/// separate step.
pub struct ApiRequest {
    pub endpoint: String,
    pub query: String,
}

impl ApiRequest {
    /// The complete target: the endpoint with the query string attached.
    pub fn url_with_query(&self) -> (r: String)
        ensures
            r@ == self.endpoint@ + "?"@ + self.query@,
    {
        let mut out = String::new();
        out.append(self.endpoint.as_str());
        out.append("?");
        out.append(self.query.as_str());
        out
    }
}

/// The endpoint URL for a language code.
pub fn endpoint_url(lang: &str) -> (r: String)
    ensures
        r@ == endpoint_of(lang@),
{
    let mut out = String::new();
    out.append("https://");
    out.append(lang);
    out.append(".wikipedia.org/w/api.php");
    out
}

/// The query string for a search phrase.
pub fn query_string(phrase: &str) -> (r: String)
    ensures
        r@ == query_of(phrase.spec_bytes()),
{
    let mut out = String::new();
    out.append(
        "format=json&action=query&prop=extracts&exintro=true&explaintext=true&redirects=1&titles=",
    );
    let encoded = form_encode(phrase);
    out.append(encoded.as_str());
    out
}

/// Builds the request for a language code and a search phrase. Fails with
/// `InvalidEndpoint` exactly when the endpoint built from the code is not
/// a well-formed URL; nothing else can fail, and no network activity
/// happens here.
pub fn build_request(lang: &str, phrase: &str) -> (r: Result<ApiRequest, LookupError>)
    ensures
        r is Ok <==> url_ok(endpoint_of(lang@)),
        r matches Ok(req) ==> req.endpoint@ == endpoint_of(lang@) && req.query@ == query_of(
            phrase.spec_bytes(),
        ),
        r matches Err(e) ==> e == LookupError::InvalidEndpoint,
{
    let endpoint = endpoint_url(lang);
    if url_is_valid(endpoint.as_str()) {
        let query = query_string(phrase);
        Ok(ApiRequest { endpoint, query })
    } else {
        Err(LookupError::InvalidEndpoint)
    }
}

} // verus!
