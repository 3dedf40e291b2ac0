//! Response shaping: the HTTP status code and the `{status, message, data}`
//! envelope for each outcome the service can report.

use vstd::prelude::*;
use crate::model::NoteModelResponse;
use crate::service::{spec_message, ServiceError};

verus! {

/// The HTTP status a service failure maps to: 400 for a client-supplied
/// malformed id, 500 for everything else (a missing note included).
pub open spec fn spec_status_code(e: ServiceError) -> u16 {
    match e {
        ServiceError::InvalidArgument => 400,
        ServiceError::NotFound => 500,
        ServiceError::Persistence(_) => 500,
    }
}

/// The status code of a failed request.
pub fn status_code_for(e: &ServiceError) -> (c: u16)
    ensures
        c == spec_status_code(*e),
{
    match e {
        ServiceError::InvalidArgument => 400,
        ServiceError::NotFound => 500,
        ServiceError::Persistence(_) => 500,
    }
}

/// The response to the health probe.
pub struct HealthEnvelope {
    pub code: u16,
    pub status: String,
    pub message: String,
}

/// The response to a list request.
pub struct ListEnvelope {
    pub code: u16,
    pub status: String,
    pub message: String,
    pub data: Option<Vec<NoteModelResponse>>,
}

/// The response to a create or update request.
pub struct NoteEnvelope {
    pub code: u16,
    pub status: String,
    pub message: String,
    pub data: Option<NoteModelResponse>,
}

/// The health probe's fixed answer.
pub fn health_envelope() -> (env: HealthEnvelope)
    ensures
        env.code == 200,
        env.status@ == "OK"@,
        env.message@ == "API is healthy"@,
{
    HealthEnvelope {
        code: 200,
        status: "OK".to_owned(),
        message: "API is healthy".to_owned(),
    }
}

/// Shapes a list outcome: 200 with the notes on success, 500 with the
/// error's description on any failure.
pub fn list_envelope(r: Result<Vec<NoteModelResponse>, ServiceError>) -> (env: ListEnvelope)
    ensures
        r matches Ok(notes) ==> {
            &&& env.code == 200
            &&& env.status@ == "OK"@
            &&& env.message@ == "Notes retrieved successfully"@
            &&& env.data matches Some(d) && d == notes
        },
        r matches Err(e) ==> {
            &&& env.code == 500
            &&& env.status@ == "error"@
            &&& env.message@ == spec_message(e)
            &&& env.data is None
        },
{
    match r {
        Ok(notes) => ListEnvelope {
            code: 200,
            status: "OK".to_owned(),
            message: "Notes retrieved successfully".to_owned(),
            data: Some(notes),
        },
        Err(e) => ListEnvelope {
            code: 500,
            status: "error".to_owned(),
            message: e.message(),
            data: None,
        },
    }
}

/// Shapes a create outcome: 200 with the created note on success, 500 with
/// the error's description on any failure.
pub fn create_envelope(r: Result<NoteModelResponse, ServiceError>) -> (env: NoteEnvelope)
    ensures
        r matches Ok(note) ==> {
            &&& env.code == 200
            &&& env.status@ == "OK"@
            &&& env.message@ == "Note created successfully"@
            &&& env.data matches Some(d) && d == note
        },
        r matches Err(e) ==> {
            &&& env.code == 500
            &&& env.status@ == "error"@
            &&& env.message@ == spec_message(e)
            &&& env.data is None
        },
{
    match r {
        Ok(note) => NoteEnvelope {
            code: 200,
            status: "OK".to_owned(),
            message: "Note created successfully".to_owned(),
            data: Some(note),
        },
        Err(e) => NoteEnvelope {
            code: 500,
            status: "error".to_owned(),
            message: e.message(),
            data: None,
        },
    }
}

/// Shapes an update outcome: 200 with the updated note on success; on
/// failure, 400 for a malformed id and 500 otherwise, with the error's
/// description.
pub fn update_envelope(r: Result<NoteModelResponse, ServiceError>) -> (env: NoteEnvelope)
    ensures
        r matches Ok(note) ==> {
            &&& env.code == 200
            &&& env.status@ == "OK"@
            &&& env.message@ == "Note updated successfully"@
            &&& env.data matches Some(d) && d == note
        },
        r matches Err(e) ==> {
            &&& env.code == spec_status_code(e)
            &&& env.status@ == "error"@
            &&& env.message@ == spec_message(e)
            &&& env.data is None
        },
{
    match r {
        Ok(note) => NoteEnvelope {
            code: 200,
            status: "OK".to_owned(),
            message: "Note updated successfully".to_owned(),
            data: Some(note),
        },
        Err(e) => {
            let code = status_code_for(&e);
            NoteEnvelope {
                code: code,
                status: "error".to_owned(),
                message: e.message(),
                data: None,
            }
        },
    }
}

} // verus!
