use vstd::prelude::*;

verus! {

/// Every way in which the processing of one ingest record can fail.
#[derive(Clone, Copy, Debug, PartialEq, Eq, Structural)]
pub enum PipelineError {
    /// The record names no bucket or no object key.
    LocationMissing,
    /// The object store could not deliver the document.
    FetchFailure,
    /// The inference call itself failed.
    InvocationFailure,
    /// The model's envelope carries no output.
    NoOutput,
    /// The output is not a message.
    UnsupportedOutputVariant,
    /// The message holds no content unit.
    EmptyContent,
    /// The first content unit is not text.
    UnsupportedContentVariant,
    /// The queue did not accept the extracted record.
    PublishFailure,
}

impl PipelineError {
    /// A short human-readable description of the error.
    pub fn message(&self) -> (r: &'static str) {
        match self {
            PipelineError::LocationMissing => "record names no storage location",
            PipelineError::FetchFailure => "document could not be fetched",
            PipelineError::InvocationFailure => "inference call failed",
            PipelineError::NoOutput => "no response from the model",
            PipelineError::UnsupportedOutputVariant => "unknown response from the model",
            PipelineError::EmptyContent => "no content from the model",
            PipelineError::UnsupportedContentVariant => "unknown content from the model",
            PipelineError::PublishFailure => "extracted record could not be published",
        }
    }
}

} // verus!
