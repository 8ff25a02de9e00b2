//! Issues random alphanumeric codes: a code is drawn over the alphabet
//! `A`-`Z`, `0`-`9`, stamped with its creation time, and written to a
//! key-value table on the condition that no record holds the code yet.
//!
//! The library decides and the caller talks to the table: the caller gets
//! the record together with the write to perform, performs it, and hands
//! the store's reply back for the response.

pub mod clock;
pub mod data_access;
pub mod random_code;

use crate::clock::{is_clock_reading, is_digit, is_rfc3339, is_utc_timestamp, ClockService};
use crate::data_access::{CreateUniqueCode, DataAccessGateway, PutItem, StoreReply};
use crate::random_code::{is_code, RandomCodeService};
use vstd::prelude::*;
use vstd::string::StringExecFns;

verus! {

/// What a caller asks for. Every field is optional.
#[derive(Debug, PartialEq, Eq)]
pub struct CreateUniqueCodeRequest {
    pub used_by: Option<String>,
    pub length: Option<usize>,
    pub reference: Option<String>,
    pub description: Option<String>,
}

/// The answer to a request that succeeded.
#[derive(Debug, PartialEq, Eq)]
pub struct UniqueCode {
    pub code: String,
}

/// The one failure that a request can end in. It carries no cause.
#[derive(Debug, Clone, Copy, PartialEq, Eq)]
pub struct CreateCodeError;

impl CreateCodeError {
    /// The text that the caller is told.
    pub fn message(&self) -> (message: String)
        ensures
            message@ == "Failed to create a unique code"@,
    {
        String::from_str("Failed to create a unique code")
    }
}

/// Length of a code where the request names none.
pub const DEFAULT_LENGTH: usize = 8;

/// The length of the code that a request asks for.
pub open spec fn requested_length(length: Option<usize>) -> nat {
    match length {
        Some(length) => length as nat,
        None => DEFAULT_LENGTH as nat,
    }
}

/// Draws a code of the requested length, stamps it with the current time
/// and hands back the record together with the write that stores it
/// through `data_access_gateway`. The caller performs the write and passes
/// the store's reply to [`unique_code_response`].
pub fn create_random_code(
    random_code_service: RandomCodeService,
    clock_service: ClockService,
    data_access_gateway: &DataAccessGateway,
    request: CreateUniqueCodeRequest,
) -> (pending: (CreateUniqueCode, PutItem))
    ensures
        is_code(pending.0@.code, requested_length(request.length)),
        is_clock_reading(pending.0@.created_on),
        is_utc_timestamp(pending.0@.created_on),
        pending.0@.created_on.len() > 0,
        is_digit(pending.0@.created_on[0]) ==> is_rfc3339(pending.0@.created_on),
        pending.0@.used_by == request.used_by.deep_view(),
        pending.0@.reference == request.reference.deep_view(),
        pending.0@.description == request.description.deep_view(),
        pending.1@ == data_access_gateway.put_item_of(pending.0@),
{
    let length: usize = match request.length {
        Some(length) => length,
        None => DEFAULT_LENGTH,
    };
    let code = random_code_service.random_string(length);
    let created_on = clock_service.created_on();
    let create = CreateUniqueCode::new(code, created_on, request);
    let put = data_access_gateway.put_item(&create);
    (create, put)
}

/// The answer to the request that `create` was made for, once the store
/// has answered the write with `reply`: the record's code where the item
/// was written, the failure in every other case.
pub fn unique_code_response(
    data_access_gateway: &DataAccessGateway,
    create: &CreateUniqueCode,
    reply: StoreReply,
) -> (response: Result<UniqueCode, CreateCodeError>)
    ensures
        match response {
            Ok(unique_code) => reply == StoreReply::Written && unique_code.code@ == create@.code,
            Err(_) => reply != StoreReply::Written,
        },
{
    match data_access_gateway.save(reply) {
        Ok(true) => Ok(UniqueCode { code: create.code().clone() }),
        _ => Err(CreateCodeError),
    }
}

} // verus!
