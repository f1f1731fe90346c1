//! The reasons for which an operation on the shell profile gives up.

use vstd::prelude::*;

verus! {

/// Why an operation failed. Every failure is final: nothing is retried, and
/// nothing is written once one of these has been reported.
#[derive(Clone, Copy, Debug, PartialEq, Eq, Structural)]
pub enum ProfileError {
    /// The platform knows no home directory for the user.
    HomeNotFound,
    /// The home directory's path is not plain text.
    InvalidPath,
    /// The home directory's path leads to nothing.
    ProfileDirNotFound,
    /// The home directory cannot be written to.
    PermissionDenied,
    /// The shell is absent, empty or not one of the recognized shells.
    UnsupportedShell,
    /// None of the shell's startup files could be opened.
    NoProfileFound,
    /// Writing or flushing the selected file failed.
    Io,
}

impl ProfileError {
    /// The text that accompanies each kind of failure.
    pub open spec fn message_text(self) -> Seq<char> {
        match self {
            ProfileError::HomeNotFound => "No home directory"@,
            ProfileError::InvalidPath => "Failed to coerce Home directory as a valid Path"@,
            ProfileError::ProfileDirNotFound => "Path to profile was invalid, or was not found"@,
            ProfileError::PermissionDenied => "Unable to write to home directory, cannot export env var"@,
            ProfileError::UnsupportedShell => "Unable to match shell_bin with a supported ShellType"@,
            ProfileError::NoProfileFound => "No shell profiles were found"@,
            ProfileError::Io => "Failed to write to the shell profile"@,
        }
    }

    /// A human-readable description of the failure.
    pub fn message(&self) -> (text: &'static str)
        ensures
            text@ == self.message_text(),
    {
        match self {
            ProfileError::HomeNotFound => "No home directory",
            ProfileError::InvalidPath => "Failed to coerce Home directory as a valid Path",
            ProfileError::ProfileDirNotFound => "Path to profile was invalid, or was not found",
            ProfileError::PermissionDenied => "Unable to write to home directory, cannot export env var",
            ProfileError::UnsupportedShell => "Unable to match shell_bin with a supported ShellType",
            ProfileError::NoProfileFound => "No shell profiles were found",
            ProfileError::Io => "Failed to write to the shell profile",
        }
    }
}

} // verus!
