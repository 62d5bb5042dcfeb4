//! Request body size limits for the HTTP surface.
use vstd::prelude::*;

use crate::error::{ApiError, STATUS_BAD_REQUEST};
use crate::text::{append_str, nat_text, usize_string};

verus! {

/// `413 Payload Too Large`.
pub const STATUS_PAYLOAD_TOO_LARGE: u16 = 413;

/// `415 Unsupported Media Type`.
pub const STATUS_UNSUPPORTED_MEDIA_TYPE: u16 = 415;

/// Number of bytes in one mebibyte.
pub const BYTES_PER_MIB: usize = 1048576;

/// Maximum body size for ordinary API routes.
pub const API_BODY_LIMIT_BYTES: usize = 1048576;

/// Maximum body size for the four CSV import routes.
pub const IMPORT_BODY_LIMIT_BYTES: usize = 33554432;

/// A body size comfortably inside the import limit: a quarter of it.
pub fn under_import_limit_bytes() -> (n: usize)
    ensures
        n == IMPORT_BODY_LIMIT_BYTES / 4,
        n < IMPORT_BODY_LIMIT_BYTES,
{
    IMPORT_BODY_LIMIT_BYTES / 4
}

/// A body size that is over the import limit by one mebibyte.
pub fn over_import_limit_bytes() -> (n: usize)
    ensures
        n == IMPORT_BODY_LIMIT_BYTES + BYTES_PER_MIB,
        n > IMPORT_BODY_LIMIT_BYTES,
{
    IMPORT_BODY_LIMIT_BYTES + BYTES_PER_MIB
}

/// The limits are consistent: one mebibyte for API routes, thirty-two for imports.
pub proof fn lemma_limits_are_mebibyte_multiples()
    ensures
        API_BODY_LIMIT_BYTES == BYTES_PER_MIB,
        IMPORT_BODY_LIMIT_BYTES == 32 * BYTES_PER_MIB,
{
}


/// Why a request body was not accepted, as the body extractors report it.
#[derive(Clone, Copy, Debug, PartialEq, Eq, Structural)]
pub enum BodyRejection {
    /// The body is not JSON of the expected shape (syntax or data error, or
    /// any other JSON rejection).
    InvalidJson,
    /// A JSON body arrived without `Content-Type: application/json`.
    MissingJsonContentType,
    /// Reading the body stopped at the size limit.
    LengthLimit,
    /// The body could not be read for another reason.
    Unreadable,
}

/// The answer to a rejected body under a limit of `limit_bytes`.
pub fn body_rejection_error(rejection: BodyRejection, limit_bytes: usize) -> (e: ApiError)
    ensures
        e.details is None,
        match rejection {
            BodyRejection::InvalidJson => e.status == STATUS_BAD_REQUEST && e.code@ == "invalid_json"@
                && e.message@ == "Request body contains invalid JSON."@,
            BodyRejection::MissingJsonContentType => e.status == STATUS_UNSUPPORTED_MEDIA_TYPE
                && e.code@ == "unsupported_media_type"@ && e.message@
                == "Request body must use Content-Type: application/json."@,
            BodyRejection::LengthLimit => e.status == STATUS_PAYLOAD_TOO_LARGE && e.code@
                == "payload_too_large"@ && e.message@ == "Request body exceeds the "@ + nat_text(
                (limit_bytes / BYTES_PER_MIB) as nat,
            ) + " MB limit."@,
            BodyRejection::Unreadable => e.status == STATUS_BAD_REQUEST && e.code@ == "missing_body"@
                && e.message@ == "Request body could not be read."@,
        },
{
    match rejection {
        BodyRejection::InvalidJson => ApiError::bad_request(
            "invalid_json",
            "Request body contains invalid JSON.".to_owned(),
        ),
        BodyRejection::MissingJsonContentType => ApiError::new(
            STATUS_UNSUPPORTED_MEDIA_TYPE,
            "unsupported_media_type",
            "Request body must use Content-Type: application/json.".to_owned(),
        ),
        BodyRejection::LengthLimit => {
            let limit_mb = limit_bytes / BYTES_PER_MIB;
            let mut m = "Request body exceeds the ".to_owned();
            let digits = usize_string(limit_mb);
            append_str(&mut m, digits.as_str());
            append_str(&mut m, " MB limit.");
            ApiError::new(STATUS_PAYLOAD_TOO_LARGE, "payload_too_large", m)
        },
        BodyRejection::Unreadable => ApiError::bad_request(
            "missing_body",
            "Request body could not be read.".to_owned(),
        ),
    }
}
} // verus!
