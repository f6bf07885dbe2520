//! Preparation of the service's OpenAPI document for export.
//!
//! The document itself is rendered and written outside the library; the
//! library classifies the outcome: a failed JSON export and an unwritable
//! target are distinct errors.

use vstd::prelude::*;

verus! {

/// Marker for the service's OpenAPI description; the document is rendered
/// by the REST layer.
#[derive(Debug, Clone, Copy, PartialEq, Eq, Structural)]
pub struct ApiDoc {}

/// Why the OpenAPI document could not be exported.
#[derive(Debug, Clone, Copy, PartialEq, Eq, Structural)]
pub enum OpenApiError {
    /// The document could not be rendered as a JSON string.
    Json,
    /// The document could not be written to the target file.
    FileWrite,
}

impl OpenApiError {
    /// A plain description of the failure.
    pub fn message(&self) -> (m: String)
        ensures
            *self is Json ==> m@ == "Failed to export as JSON string"@,
            *self is FileWrite ==> m@ == "Failed to write to file"@,
    {
        match self {
            OpenApiError::Json => "Failed to export as JSON string".to_owned(),
            OpenApiError::FileWrite => "Failed to write to file".to_owned(),
        }
    }
}

/// Whether `target` can name a file at all: nonempty and not ending in a
/// path separator.
pub open spec fn target_writable(target: Seq<char>) -> bool {
    target.len() > 0 && target.last() != '/'
}

/// Accepts the rendered document for writing to `target`.
///
/// A failed render (`None`) is a `Json` error; a target that cannot name a
/// file is a `FileWrite` error, the same classification the caller gives a
/// write that the file system refuses; otherwise the contents to write are
/// handed back unchanged.
pub fn generate_openapi_spec(target: &str, rendered: Option<String>) -> (r: Result<
    String,
    OpenApiError,
>)
    ensures
        match r {
            Ok(out) => rendered matches Some(j) && out == j && target_writable(target@),
            Err(e) => match e {
                OpenApiError::Json => rendered is None,
                OpenApiError::FileWrite => rendered is Some && !target_writable(target@),
            },
        },
{
    let contents = match rendered {
        Some(j) => j,
        None => {
            return Err(OpenApiError::Json);
        },
    };
    let n = target.unicode_len();
    if n == 0 {
        return Err(OpenApiError::FileWrite);
    }
    if target.get_char(n - 1) == '/' {
        return Err(OpenApiError::FileWrite);
    }
    Ok(contents)
}

} // verus!
