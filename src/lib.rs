//! A document extraction pipeline: a stored document is handed to an
//! inference model under a fixed extraction instruction, the model's
//! response envelope is checked, and the extracted text is published.
//!
//! The external services are driven from outside: the library decides,
//! the caller performs the calls and reports their outcomes.
//!
//! The upstream side, which stores the PDF attachment of an inbound mail
//! message, is here too: the attachment is selected and the upload planned
//! by the library.

mod error;
mod ingest;
mod mail;
mod pipeline;
mod prompt;
mod response;
mod text;

pub use error::PipelineError;
pub use ingest::{locate, IngestRecord, StorageLocation};
pub use mail::{
    extract_pdf_attachment, has_pdf_header, plan_upload, select_pdf_attachment, AttachmentError,
    HeaderLine, MailPart, UploadRequest, WorkMailEvent, CONTENT_TYPE_HEADER, PDF_CONTENT_TYPE,
};
pub use pipeline::{
    Action, DocumentBlob, DocumentFormat, Event, ModelRequest, Orchestrator, PipelineConfig, Stage,
};
pub use prompt::{build_prompt, PROMPT_PREAMBLE, PROMPT_RULES};
pub use response::{validate, ContentUnit, ModelOutput, ModelResponse};
pub use text::{contains_text, text_equals};
