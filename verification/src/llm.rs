//! Extraction of the LaTeX answer from a model response.
//!
//! The response is modelled as plain values: an ordered list of candidates,
//! each an ordered list of parts, each part optionally carrying text. The
//! network call that produces it sits with the caller; extracting exactly one
//! top-level text — the first part of the first candidate — is verified here.

use vstd::prelude::*;

verus! {

/// One content part of a response: its optional text payload.
pub struct ResponsePart {
    pub text: Option<String>,
}

/// One response candidate: its ordered content parts.
pub struct ResponseCandidate {
    pub parts: Vec<ResponsePart>,
}

/// Why no LaTeX text could be extracted, naming the first missing layer.
#[derive(Clone, Copy, PartialEq, Eq, Structural, Debug)]
pub enum ExtractError {
    NoCandidates,
    NoParts,
    NoText,
}

/// The descriptive message for each extraction failure.
pub open spec fn extract_error_chars(e: ExtractError) -> Seq<char> {
    match e {
        ExtractError::NoCandidates => ("No candidates in Gemini response")@,
        ExtractError::NoParts => ("No parts in Gemini response content")@,
        ExtractError::NoText => ("No text in Gemini response part")@,
    }
}

impl ExtractError {
    /// The descriptive message of this failure.
    pub fn message(&self) -> (r: &'static str)
        ensures
            r@ == extract_error_chars(*self),
    {
        match self {
            ExtractError::NoCandidates => "No candidates in Gemini response",
            ExtractError::NoParts => "No parts in Gemini response content",
            ExtractError::NoText => "No text in Gemini response part",
        }
    }
}

/// Extracts the answer text: exactly the text of the first part of the first
/// candidate. Succeeds if and only if a first candidate exists, it has a
/// first part, and that part carries text; otherwise the error names the
/// first missing layer.
pub fn first_candidate_text(candidates: &Vec<ResponseCandidate>) -> (r: Result<
    String,
    ExtractError,
>)
    ensures
        candidates@.len() == 0 ==> r == Err::<String, ExtractError>(ExtractError::NoCandidates),
        candidates@.len() > 0 && candidates@[0].parts@.len() == 0 ==> r == Err::<
            String,
            ExtractError,
        >(ExtractError::NoParts),
        candidates@.len() > 0 && candidates@[0].parts@.len() > 0 && candidates@[0].parts@[0].text
            is None ==> r == Err::<String, ExtractError>(ExtractError::NoText),
        candidates@.len() > 0 && candidates@[0].parts@.len() > 0 ==> (candidates@[0].parts@[0].text
            matches Some(t) ==> (r matches Ok(s) && s@ == t@)),
{
    if candidates.len() == 0 {
        Err(ExtractError::NoCandidates)
    } else {
        let first = &candidates[0];
        if first.parts.len() == 0 {
            Err(ExtractError::NoParts)
        } else {
            match &first.parts[0].text {
                Some(t) => Ok(t.clone()),
                None => Err(ExtractError::NoText),
            }
        }
    }
}

} // verus!
