//! Errors of the record operations.
use vstd::prelude::*;

verus! {

/// Why creating or updating a record failed.
#[derive(Debug, Clone, Copy, PartialEq, Eq, Structural)]
pub enum ModelError {
    /// The owner's record, needed for its root directory, could not be read
    /// while creating a directory.
    UserNotFound,
    /// The owner's record could not be read while creating a file.
    DbError,
    /// The record to update could not be read.
    InvalidId,
    /// The record to update is deleted.
    DeletedRecord,
    /// The uploaded data is longer than `u32::MAX` bytes.
    TooLarge,
    /// The directory whose children are asked for could not be read.
    DirectoryUnreadable,
}

impl ModelError {
    /// The message of the error.
    pub open spec fn message_spec(self) -> Seq<char> {
        match self {
            ModelError::UserNotFound => "User not found."@,
            ModelError::DbError => "DB error"@,
            ModelError::InvalidId => "Invalid id."@,
            ModelError::DeletedRecord => "Deleted Groups cannot be updated."@,
            ModelError::TooLarge => "out of range integral type conversion attempted"@,
            ModelError::DirectoryUnreadable => "Failed to read Directory."@,
        }
    }

    /// The message of the error.
    pub fn message(&self) -> (res: String)
        ensures
            res@ == self.message_spec(),
    {
        match self {
            ModelError::UserNotFound => String::from_str("User not found."),
            ModelError::DbError => String::from_str("DB error"),
            ModelError::InvalidId => String::from_str("Invalid id."),
            ModelError::DeletedRecord => String::from_str("Deleted Groups cannot be updated."),
            ModelError::TooLarge => String::from_str("out of range integral type conversion attempted"),
            ModelError::DirectoryUnreadable => String::from_str("Failed to read Directory."),
        }
    }
}

} // verus!
