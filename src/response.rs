use vstd::prelude::*;
use crate::error::PipelineError;

verus! {

/// One typed part of a model turn.
#[derive(Clone, Debug)]
pub enum ContentUnit {
    /// Free text.
    Text(String),
    /// An attached document, by name.
    Document(String),
    /// Any other kind of unit (images, tool calls, ...).
    Other,
}

/// What the model produced, inside the envelope.
#[derive(Clone, Debug)]
pub enum ModelOutput {
    /// A message made of content units.
    Message(Vec<ContentUnit>),
    /// Any output that is not a message.
    Other,
}

/// The response envelope returned by the inference service.
#[derive(Clone, Debug)]
pub struct ModelResponse {
    pub output: Option<ModelOutput>,
}

/// The error that validation reports for `resp`, checking in order: an
/// output is present, it is a message, the message has a content unit, and
/// the first unit is text. `None` when every check passes.
pub open spec fn response_error(resp: ModelResponse) -> Option<PipelineError> {
    match resp.output {
        None => Some(PipelineError::NoOutput),
        Some(ModelOutput::Other) => Some(PipelineError::UnsupportedOutputVariant),
        Some(ModelOutput::Message(units)) => {
            if units@.len() == 0 {
                Some(PipelineError::EmptyContent)
            } else {
                match units@[0] {
                    ContentUnit::Text(_) => None,
                    _ => Some(PipelineError::UnsupportedContentVariant),
                }
            }
        },
    }
}

/// A well-formed envelope: a message whose first content unit is text.
pub open spec fn well_formed(resp: ModelResponse) -> bool {
    &&& resp.output matches Some(ModelOutput::Message(units))
    &&& units@.len() > 0
    &&& units@[0] is Text
}

/// The text of the first content unit of a well-formed envelope.
pub open spec fn response_text(resp: ModelResponse) -> Seq<char>
    recommends
        well_formed(resp),
{
    match resp.output {
        Some(ModelOutput::Message(units)) => match units@[0] {
            ContentUnit::Text(t) => t@,
            _ => Seq::empty(),
        },
        _ => Seq::empty(),
    }
}

/// Extracts the text payload from a model response envelope, failing on
/// the first shape check that does not hold.
pub fn validate(response: &ModelResponse) -> (r: Result<String, PipelineError>)
    ensures
        r is Ok <==> response_error(*response) is None,
        r is Ok ==> r->Ok_0@ == response_text(*response),
        r is Err ==> response_error(*response) == Some(r->Err_0),
{
    match &response.output {
        None => Err(PipelineError::NoOutput),
        Some(ModelOutput::Other) => Err(PipelineError::UnsupportedOutputVariant),
        Some(ModelOutput::Message(units)) => {
            if units.len() == 0 {
                Err(PipelineError::EmptyContent)
            } else {
                match &units[0] {
                    ContentUnit::Text(t) => Ok(t.clone()),
                    _ => Err(PipelineError::UnsupportedContentVariant),
                }
            }
        },
    }
}

/// A message whose first content unit is text validates to exactly that
/// text.
pub proof fn lemma_well_formed_yields_text(resp: ModelResponse)
    requires
        well_formed(resp),
    ensures
        response_error(resp) is None,
        resp.output matches Some(ModelOutput::Message(units))
            && units@[0] matches ContentUnit::Text(t)
            && response_text(resp) == t@,
{
}

/// The four shape errors are exhaustive and mutually exclusive: each
/// malformed envelope gets exactly the error of the first check it fails,
/// and an envelope fails validation exactly when it is not well formed.
pub proof fn lemma_shape_errors(resp: ModelResponse)
    ensures
        response_error(resp) is None <==> well_formed(resp),
        resp.output is None ==> response_error(resp) == Some(PipelineError::NoOutput),
        resp.output matches Some(ModelOutput::Other)
            ==> response_error(resp) == Some(PipelineError::UnsupportedOutputVariant),
        resp.output matches Some(ModelOutput::Message(units)) && units@.len() == 0
            ==> response_error(resp) == Some(PipelineError::EmptyContent),
        resp.output matches Some(ModelOutput::Message(units)) && units@.len() > 0
            && !(units@[0] is Text)
            ==> response_error(resp) == Some(PipelineError::UnsupportedContentVariant),
        response_error(resp) matches Some(e) ==> (e == PipelineError::NoOutput
            || e == PipelineError::UnsupportedOutputVariant
            || e == PipelineError::EmptyContent
            || e == PipelineError::UnsupportedContentVariant),
{
}

} // verus!
