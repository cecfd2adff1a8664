use vstd::prelude::*;
use crate::error::PipelineError;

verus! {

/// One notification that a document was stored: the bucket and object key
/// as the notification carries them, either of which may be absent.
#[derive(Clone, Debug)]
pub struct IngestRecord {
    pub bucket: Option<String>,
    pub key: Option<String>,
}

/// Where a stored document lives.
#[derive(Clone, Debug)]
pub struct StorageLocation {
    pub bucket: String,
    pub key: String,
}

/// A record names a location when it carries both a bucket and a key.
pub open spec fn has_location(record: IngestRecord) -> bool {
    record.bucket is Some && record.key is Some
}

/// Reads the storage location out of an ingest record.
pub fn locate(record: &IngestRecord) -> (r: Result<StorageLocation, PipelineError>)
    ensures
        r is Ok <==> has_location(*record),
        r is Err ==> r->Err_0 == PipelineError::LocationMissing,
        r is Ok ==> r->Ok_0.bucket@ == record.bucket->Some_0@
            && r->Ok_0.key@ == record.key->Some_0@,
{
    match (&record.bucket, &record.key) {
        (Some(bucket), Some(key)) => Ok(StorageLocation { bucket: bucket.clone(), key: key.clone() }),
        _ => Err(PipelineError::LocationMissing),
    }
}

} // verus!
