use vstd::prelude::*;
use vstd::string::*;
use crate::text::{contains_text, text_contains, text_equals};

verus! {

/// The notification that a new inbound message arrived; only `message_id`
/// is used, to fetch the raw message.
#[derive(Clone, Debug, Default)]
pub struct WorkMailEvent {
    pub summary_version: String,
    pub subject: String,
    pub message_id: String,
    pub invocation_id: String,
    pub flow_direction: String,
}

#[verifier::external_type_specification]
#[verifier::external_body]
pub struct ExMailParseError(mailparse::MailParseError);

/// One header of a message part: its name and its unfolded value.
#[derive(Debug)]
pub struct HeaderLine {
    pub key: String,
    pub value: String,
}

/// One direct subpart of a parsed message: its headers, and its body with
/// the transfer encoding undone (or the decoding error).
#[derive(Debug)]
pub struct MailPart {
    pub headers: Vec<HeaderLine>,
    pub body: Result<Vec<u8>, mailparse::MailParseError>,
}

/// What an attachment is stored as.
#[derive(Clone, Debug)]
pub struct UploadRequest {
    pub bucket: String,
    pub key: String,
    pub content_type: String,
    pub body: Vec<u8>,
}

/// Why no attachment could be taken out of a raw message.
#[derive(Clone, Copy, Debug, PartialEq, Eq, Structural)]
pub enum AttachmentError {
    /// The raw bytes are not a parsable message.
    Unparsable,
    /// No subpart declares the PDF content type.
    NoAttachmentFound,
    /// The PDF part's transfer encoding could not be undone.
    UndecodableBody,
}

pub const PDF_CONTENT_TYPE: &'static str = "application/pdf";

pub const CONTENT_TYPE_HEADER: &'static str = "Content-Type";

/// Headers as plain (name, value) pairs.
pub open spec fn headers_view(headers: Seq<HeaderLine>) -> Seq<(Seq<char>, Seq<char>)> {
    headers.map_values(|h: HeaderLine| (h.key@, h.value@))
}

/// A part as plain values: its (name, value) headers and its decoded body.
pub open spec fn part_view(p: MailPart) -> (Seq<(Seq<char>, Seq<char>)>, Option<Seq<u8>>) {
    (
        headers_view(p.headers@),
        match p.body {
            Ok(b) => Some(b@),
            Err(_) => None,
        },
    )
}

/// Parts as plain values.
pub open spec fn parts_view(parts: Seq<MailPart>) -> Seq<(Seq<(Seq<char>, Seq<char>)>, Option<Seq<u8>>)> {
    parts.map_values(|p: MailPart| part_view(p))
}

/// The direct subparts of the message that `raw` holds, as plain values;
/// `None` when `raw` does not parse.
pub uninterp spec fn parsed_parts(raw: Seq<u8>) -> Option<Seq<(Seq<(Seq<char>, Seq<char>)>, Option<Seq<u8>>)>>;

/// Relies on mailparse::parse_mail, and on MailHeader::get_key,
/// MailHeader::get_value and ParsedMail::get_body_raw for each direct
/// subpart: the outcome depends on the bytes alone.
#[verifier::external_body]
fn parse_mail_parts(raw: &[u8]) -> (r: Result<Vec<MailPart>, mailparse::MailParseError>)
    ensures
        r is Err <==> parsed_parts(raw@) is None,
        r matches Ok(parts) ==> parsed_parts(raw@) == Some(parts_view(parts@)),
{
    let parsed = mailparse::parse_mail(raw)?;
    Ok(parsed.subparts.iter().map(|p| MailPart {
        headers: p.headers.iter().map(|h| HeaderLine { key: h.get_key(), value: h.get_value() }).collect(),
        body: p.get_body_raw(),
    }).collect())
}

/// Relies on uuid::Uuid::now_v7 and its hyphenated text form: a fresh
/// identifier ordered by creation time, 36 characters long.
#[verifier::external_body]
fn fresh_object_key() -> (r: String)
    ensures
        r@.len() == 36,
{
    uuid::Uuid::now_v7().to_string()
}

/// A header that declares the PDF content type.
pub open spec fn declares_pdf_header(h: (Seq<char>, Seq<char>)) -> bool {
    h.0 == CONTENT_TYPE_HEADER@ && text_contains(h.1, PDF_CONTENT_TYPE@)
}

/// A part with at least one header that declares the PDF content type.
pub open spec fn declares_pdf(headers: Seq<(Seq<char>, Seq<char>)>) -> bool {
    exists|j: int| 0 <= j < headers.len() && declares_pdf_header(#[trigger] headers[j])
}

/// `i` is the first part that declares the PDF content type.
pub open spec fn first_pdf_part(
    parts: Seq<(Seq<(Seq<char>, Seq<char>)>, Option<Seq<u8>>)>,
    i: int,
) -> bool {
    &&& 0 <= i < parts.len()
    &&& declares_pdf(parts[i].0)
    &&& forall|j: int| 0 <= j < i ==> !declares_pdf(#[trigger] parts[j].0)
}

/// No part declares the PDF content type.
pub open spec fn no_pdf_part(parts: Seq<(Seq<(Seq<char>, Seq<char>)>, Option<Seq<u8>>)>) -> bool {
    forall|j: int| 0 <= j < parts.len() ==> !declares_pdf(#[trigger] parts[j].0)
}

/// The attachment taken from parsed parts: the decoded body of the first
/// part that declares the PDF content type.
pub open spec fn attachment_of(
    parts: Seq<(Seq<(Seq<char>, Seq<char>)>, Option<Seq<u8>>)>,
    r: Result<Vec<u8>, AttachmentError>,
) -> bool {
    &&& r == Err::<Vec<u8>, AttachmentError>(AttachmentError::NoAttachmentFound) <==> no_pdf_part(parts)
    &&& r matches Ok(b) ==> exists|i: int| first_pdf_part(parts, i) && parts[i].1 == Some(b@)
    &&& r == Err::<Vec<u8>, AttachmentError>(AttachmentError::UndecodableBody)
        <==> exists|i: int| first_pdf_part(parts, i) && parts[i].1 is None
    &&& r != Err::<Vec<u8>, AttachmentError>(AttachmentError::Unparsable)
}

fn is_pdf_header(h: &HeaderLine) -> (r: bool)
    ensures
        r == declares_pdf_header((h.key@, h.value@)),
{
    text_equals(h.key.as_str(), CONTENT_TYPE_HEADER) && contains_text(h.value.as_str(), PDF_CONTENT_TYPE)
}

/// Whether one of the headers declares the PDF content type.
pub fn has_pdf_header(headers: &Vec<HeaderLine>) -> (r: bool)
    ensures
        r == declares_pdf(headers_view(headers@)),
{
    let ghost hs = headers_view(headers@);
    let mut j: usize = 0;
    while j < headers.len()
        invariant
            hs == headers_view(headers@),
            j <= headers@.len(),
            forall|k: int| 0 <= k < j ==> !declares_pdf_header(#[trigger] hs[k]),
        decreases headers@.len() - j,
    {
        if is_pdf_header(&headers[j]) {
            assert(declares_pdf_header(hs[j as int]));
            return true;
        }
        j = j + 1;
    }
    false
}

/// Takes the decoded body of the first part that declares the PDF content
/// type out of the parts of a parsed message.
pub fn select_pdf_attachment(parts: Vec<MailPart>) -> (r: Result<Vec<u8>, AttachmentError>)
    ensures
        attachment_of(parts_view(parts@), r),
{
    let ghost ps = parts_view(parts@);
    let n = parts.len();
    let mut i: usize = 0;
    while i < n
        invariant
            n == parts@.len(),
            ps.len() == n,
            forall|k: int| 0 <= k < n ==> #[trigger] ps[k] == part_view(parts@[k]),
            i <= n,
            forall|k: int| 0 <= k < i ==> !declares_pdf(#[trigger] ps[k].0),
        decreases n - i,
    {
        if has_pdf_header(&parts[i].headers) {
            assert(first_pdf_part(ps, i as int));
            assert forall|k: int| first_pdf_part(ps, k) implies k == i by {
                if k > i {
                    assert(!declares_pdf(ps[i as int].0));
                }
            }
            assert(!no_pdf_part(ps));
            let r = match &parts[i].body {
                Ok(body) => {
                    assert(ps[i as int].1 == Some(body@));
                    Ok(body.clone())
                },
                Err(_) => {
                    assert(ps[i as int].1 is None);
                    Err(AttachmentError::UndecodableBody)
                },
            };
            assert(r matches Ok(b) ==> exists|k: int| first_pdf_part(ps, k) && ps[k].1 == Some(b@));
            assert(r == Err::<Vec<u8>, AttachmentError>(AttachmentError::UndecodableBody)
                <==> exists|k: int| first_pdf_part(ps, k) && ps[k].1 is None);
            assert(attachment_of(ps, r));
            assert(ps == parts_view(parts@));
            assert(attachment_of(parts_view(parts@), r));
            return r;
        }
        i = i + 1;
    }
    Err(AttachmentError::NoAttachmentFound)
}

/// Takes the PDF attachment out of a raw inbound message.
pub fn extract_pdf_attachment(raw: &[u8]) -> (r: Result<Vec<u8>, AttachmentError>)
    ensures
        r == Err::<Vec<u8>, AttachmentError>(AttachmentError::Unparsable) <==> parsed_parts(raw@) is None,
        parsed_parts(raw@) matches Some(ps) ==> attachment_of(ps, r),
{
    match parse_mail_parts(raw) {
        Ok(parts) => select_pdf_attachment(parts),
        Err(_) => Err(AttachmentError::Unparsable),
    }
}

/// Plans the storage of a raw message's PDF attachment in `bucket`, under a
/// fresh object key and with the PDF content type.
pub fn plan_upload(raw: &[u8], bucket: &str) -> (r: Result<UploadRequest, AttachmentError>)
    ensures
        r == Err::<UploadRequest, AttachmentError>(AttachmentError::Unparsable)
            <==> parsed_parts(raw@) is None,
        parsed_parts(raw@) matches Some(ps) ==> {
            &&& r == Err::<UploadRequest, AttachmentError>(AttachmentError::NoAttachmentFound)
                <==> no_pdf_part(ps)
            &&& r == Err::<UploadRequest, AttachmentError>(AttachmentError::UndecodableBody)
                <==> exists|i: int| first_pdf_part(ps, i) && ps[i].1 is None
            &&& r matches Ok(u) ==> exists|i: int| first_pdf_part(ps, i) && ps[i].1 == Some(u.body@)
        },
        r matches Ok(u) ==> {
            &&& u.bucket@ == bucket@
            &&& u.content_type@ == PDF_CONTENT_TYPE@
            &&& u.key@.len() == 36
        },
{
    match extract_pdf_attachment(raw) {
        Ok(body) => Ok(UploadRequest {
            bucket: String::from_str(bucket),
            key: fresh_object_key(),
            content_type: String::from_str(PDF_CONTENT_TYPE),
            body,
        }),
        Err(e) => Err(e),
    }
}

} // verus!
