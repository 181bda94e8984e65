//! Errors of the tool's commands.

use vstd::prelude::*;

verus! {

/// Why a command refuses to run.
#[derive(Debug, Clone)]
pub enum SystoolError {
    /// The command (first) cannot run on this kind of system (second, its name).
    NonNixOsSystem(String, String),
    /// The flake holds untracked files, one path per line.
    UntrackedFiles(String),
    /// The options given do not go together.
    InvalidOptions(String),
}

/// The message that describes an error.
pub open spec fn error_message(e: SystoolError) -> Seq<char> {
    match e {
        SystoolError::NonNixOsSystem(command, os) => "Cannot `"@ + command@ + "` on "@ + os@
            + " systems"@,
        SystoolError::UntrackedFiles(files) => "Untracked files in flake: \n"@ + files@,
        SystoolError::InvalidOptions(why) => "Invalid options: "@ + why@,
    }
}

impl SystoolError {
    /// The message that describes the error.
    pub fn message(&self) -> (r: String)
        ensures
            r@ == error_message(*self),
    {
        match self {
            SystoolError::NonNixOsSystem(command, os) => {
                let mut s = String::from_str("Cannot `");
                s.append(command.as_str());
                s.append("` on ");
                s.append(os.as_str());
                s.append(" systems");
                s
            },
            SystoolError::UntrackedFiles(files) => {
                let mut s = String::from_str("Untracked files in flake: \n");
                s.append(files.as_str());
                s
            },
            SystoolError::InvalidOptions(why) => {
                let mut s = String::from_str("Invalid options: ");
                s.append(why.as_str());
                s
            },
        }
    }
}

} // verus!
