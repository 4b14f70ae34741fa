//! Why a value could not be turned into an IPC response.

use crate::json::{describe_json_error, json_contents, json_error_says, JsonView};
use vstd::prelude::*;

verus! {

/// An error of the IPC layer.
#[derive(Debug)]
pub enum IpcError {
    /// A floating point number that JSON cannot hold.
    InvalidFloat,
    /// A map key that is neither a string nor a number, a bool or null.
    InvalidMapKey,
    /// A map value that no key was given for.
    ValueBeforeKey,
    /// An error of `serde_json`, or one that a value raised while it was
    /// serialized.
    Json(serde_json::Error),
}

/// Whether the result is a JSON value that holds the given tree.
pub open spec fn yields(result: Result<serde_json::Value, IpcError>, tree: JsonView) -> bool {
    result matches Ok(value) && json_contents(value) == tree
}

/// Whether the result is the given error.
pub open spec fn fails<T>(result: Result<T, IpcError>, error: IpcError) -> bool {
    result matches Err(e) && e == error
}

impl IpcError {
    /// Whether the text is the message of this error. That of
    /// [`IpcError::Json`] is what the error inside says of itself.
    pub open spec fn says(self, message: String) -> bool {
        match self {
            IpcError::InvalidFloat => message@ == "invalid floating point value"@,
            IpcError::InvalidMapKey => message@
                == "map key must be a string, number, bool, or null"@,
            IpcError::ValueBeforeKey => message@ == "serialize_value called before serialize_key"@,
            IpcError::Json(error) => json_error_says(error, message),
        }
    }

    /// What this error says.
    pub fn message(&self) -> (message: String)
        ensures
            self.says(message),
    {
        match self {
            IpcError::InvalidFloat => "invalid floating point value".to_string(),
            IpcError::InvalidMapKey => "map key must be a string, number, bool, or null".to_string(),
            IpcError::ValueBeforeKey => "serialize_value called before serialize_key".to_string(),
            IpcError::Json(error) => describe_json_error(error),
        }
    }
}

} // verus!
