//! Routing and response assembly for the mobile bridge.
//!
//! The bridge hands the native side a serialized request naming a
//! resource and an operation; the native side scans files or reads
//! metadata and answers with a serialized payload. Serialization and the
//! scan itself happen outside the library; here stand the decisions: how
//! a resource id routes, which operation each handler serves, and how a
//! payload becomes the response for its interaction.

use vstd::prelude::*;

verus! {

/// The resource id a listing request arrives under.
pub const GET_MUSIC_FILES_ID: i32 = 1;

/// The resource id a metadata request arrives under.
pub const GET_METADATA_ID: i32 = 2;

/// The operation a bridge request asks of its resource.
#[derive(Clone, Copy, PartialEq, Eq, Debug)]
pub enum RustOperation {
    Create,
    Read,
    Update,
    Delete,
}

/// One request of the mobile front end: the resource it addresses, the
/// operation it asks for, and its serialized payloads.
#[derive(Clone, PartialEq, Eq, Debug)]
pub struct RustRequest {
    pub resource: i32,
    pub operation: RustOperation,
    pub message: Option<Vec<u8>>,
    pub blob: Option<Vec<u8>>,
}

/// One response of the native side: whether the request was served, and
/// the serialized payloads of the answer.
#[derive(Clone, PartialEq, Eq, Debug)]
pub struct RustResponse {
    pub successful: bool,
    pub message: Option<Vec<u8>>,
    pub blob: Option<Vec<u8>>,
}

impl Default for RustResponse {
    /// The answer to anything the native side does not serve.
    fn default() -> (r: Self)
        ensures
            r == (RustResponse { successful: false, message: None, blob: None }),
    {
        RustResponse { successful: false, message: None, blob: None }
    }
}

/// A request paired with the interaction id it arrived under.
#[derive(Clone, PartialEq, Eq, Debug)]
pub struct RustRequestUnique {
    pub id: i32,
    pub request: RustRequest,
}

/// A response paired with the interaction id it answers.
#[derive(Clone, PartialEq, Eq, Debug)]
pub struct RustResponseUnique {
    pub id: i32,
    pub response: RustResponse,
}

/// Where a resource id routes a request.
#[derive(Clone, Copy, PartialEq, Eq, Debug)]
pub enum BridgeRoute {
    MusicFiles,
    Metadata,
    Unknown,
}

/// Routes a request by its resource id: the listing id and the metadata
/// id each reach their handler, and every other id is unknown.
pub fn route_request(resource: i32) -> (r: BridgeRoute)
    ensures
        r == BridgeRoute::MusicFiles <==> resource == GET_MUSIC_FILES_ID,
        r == BridgeRoute::Metadata <==> resource == GET_METADATA_ID,
{
    if resource == GET_MUSIC_FILES_ID {
        BridgeRoute::MusicFiles
    } else if resource == GET_METADATA_ID {
        BridgeRoute::Metadata
    } else {
        BridgeRoute::Unknown
    }
}

/// The listing handler's answer: a Create request is served, carrying
/// the encoded listing as the response message; any other operation gets
/// the default response.
pub fn music_files_response(operation: &RustOperation, encoded: Vec<u8>) -> (r: RustResponse)
    ensures
        *operation == RustOperation::Create ==> r == (RustResponse {
            successful: true,
            message: Some(encoded),
            blob: None,
        }),
        *operation != RustOperation::Create ==> r == (RustResponse {
            successful: false,
            message: None,
            blob: None,
        }),
{
    match operation {
        RustOperation::Create => RustResponse {
            successful: true,
            message: Some(encoded),
            blob: None,
        },
        _ => RustResponse::default(),
    }
}

/// The metadata handler's answer: a Read request is served, carrying the
/// encoded record as the response blob; any other operation gets the
/// default response.
pub fn metadata_response(operation: &RustOperation, encoded: Vec<u8>) -> (r: RustResponse)
    ensures
        *operation == RustOperation::Read ==> r == (RustResponse {
            successful: true,
            message: None,
            blob: Some(encoded),
        }),
        *operation != RustOperation::Read ==> r == (RustResponse {
            successful: false,
            message: None,
            blob: None,
        }),
{
    match operation {
        RustOperation::Read => RustResponse {
            successful: true,
            message: None,
            blob: Some(encoded),
        },
        _ => RustResponse::default(),
    }
}

/// Pairs a handler's response with the interaction id of the request it
/// answers.
pub fn wrap_response(id: i32, response: RustResponse) -> (r: RustResponseUnique)
    ensures
        r.id == id,
        r.response == response,
{
    RustResponseUnique { id, response }
}

} // verus!
