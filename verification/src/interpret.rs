//! Interpreting the outcome of the single request: three decision points,
//! each short-circuiting on failure. A transport failure is reported as a
//! missing language, since a nonexistent language subdomain shows up that
//! way; a body that does not decode as the expected schema, or decodes to
//! an empty pages mapping, is reported as not found; otherwise the first
//! page entry's extract is returned verbatim.
use crate::LookupError;
use vstd::prelude::*;

verus! {

/// One entry of the response's pages mapping: its opaque identifier and
/// its plain-text extract.
pub struct Page {
    pub id: String,
    pub extract: String,
}

/// The network call itself failed: a connection or name-resolution
/// failure, or a body that could not be received.
#[derive(Clone, Copy, Debug, PartialEq, Eq, Structural)]
pub struct TransportFailure;

/// A received body, decoded against the expected schema: either it did
/// not match at all, or it yielded the entries of the pages mapping, in
/// whatever order the decoder handed them out.
pub enum DecodedBody {
    Malformed,
    Pages(Vec<Page>),
}

/// What interpreting an outcome must produce, at the level of views: the
/// whole failure taxonomy in one place.
pub open spec fn interpretation(outcome: Result<DecodedBody, TransportFailure>) -> Result<
    Seq<char>,
    LookupError,
> {
    match outcome {
        Err(_) => Err(LookupError::LanguageNotFound),
        Ok(DecodedBody::Malformed) => Err(LookupError::NotFound),
        Ok(DecodedBody::Pages(pages)) => if pages@.len() == 0 {
            Err(LookupError::NotFound)
        } else {
            Ok(pages@[0].extract@)
        },
    }
}

/// Turns the outcome of the request into the extract to print or the
/// error to report. The extract of the first page entry is passed through
/// exactly as it stands, with no trimming or reformatting.
pub fn interpret(outcome: Result<DecodedBody, TransportFailure>) -> (r: Result<
    String,
    LookupError,
>)
    ensures
        r is Ok <==> interpretation(outcome) is Ok,
        r matches Ok(extract) ==> interpretation(outcome) == Ok::<Seq<char>, LookupError>(
            extract@,
        ),
        r matches Err(e) ==> interpretation(outcome) == Err::<Seq<char>, LookupError>(e),
{
    match outcome {
        Err(_) => Err(LookupError::LanguageNotFound),
        Ok(DecodedBody::Malformed) => Err(LookupError::NotFound),
        Ok(DecodedBody::Pages(mut pages)) => {
            if pages.len() == 0 {
                Err(LookupError::NotFound)
            } else {
                let first = pages.remove(0);
                Ok(first.extract)
            }
        },
    }
}

} // verus!
