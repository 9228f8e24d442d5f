//! The ways a request can be refused.
use vstd::prelude::*;
use vstd::string::*;

verus! {

/// One refused field of a request.
#[derive(Debug, PartialEq, Eq)]
pub enum ScriptError {
    /// The target file does not have the `js` extension.
    InvalidFileExtension,
    /// The target path names a parent directory that does not exist.
    ParentDirectoryMissing,
    /// The script category is not one of the known categories.
    InvalidScriptType,
    /// The API version is not one of the accepted versions.
    InvalidApiVersion,
    /// A module name, as the caller wrote it, that is not a known module.
    InvalidModuleName(String),
    /// The copyright file does not have the `txt` extension.
    InvalidCopyrightFileType,
    /// The copyright file could not be read.
    CopyrightReadFailure,
}

/// The text reported for an error.
pub open spec fn message_of(e: ScriptError) -> Seq<char> {
    match e {
        ScriptError::InvalidFileExtension => "Invalid file type: SuiteScript file must be a JavaScript file."@,
        ScriptError::ParentDirectoryMissing => "Parent directory does not exist"@,
        ScriptError::InvalidScriptType => "Invalid script type"@,
        ScriptError::InvalidApiVersion => "Invalid API version"@,
        ScriptError::InvalidModuleName(name) => "Invalid module name "@ + name@,
        ScriptError::InvalidCopyrightFileType => "Invalid file type: copyright file must be a text file."@,
        ScriptError::CopyrightReadFailure => "Failed to read file"@,
    }
}

impl ScriptError {
    /// The text reported for this error.
    pub fn message(&self) -> (r: String)
        ensures
            r@ == message_of(*self),
    {
        match self {
            ScriptError::InvalidFileExtension => String::from_str(
                "Invalid file type: SuiteScript file must be a JavaScript file.",
            ),
            ScriptError::ParentDirectoryMissing => String::from_str("Parent directory does not exist"),
            ScriptError::InvalidScriptType => String::from_str("Invalid script type"),
            ScriptError::InvalidApiVersion => String::from_str("Invalid API version"),
            ScriptError::InvalidModuleName(name) => String::from_str("Invalid module name ").concat(
                name.as_str(),
            ),
            ScriptError::InvalidCopyrightFileType => String::from_str(
                "Invalid file type: copyright file must be a text file.",
            ),
            ScriptError::CopyrightReadFailure => String::from_str("Failed to read file"),
        }
    }
}

} // verus!
