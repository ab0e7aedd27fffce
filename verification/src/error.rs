//! The errors of locating the DLL: a failed Windows call, or no directory.
use vstd::prelude::*;

verus! {

/// What can go wrong while locating the DLL.
#[derive(Debug)]
pub enum HamlibPttError {
    /// A Windows API call failed; the text is its message.
    Windows(String),
    /// The directory of the DLL could not be found.
    DllPath,
}

impl HamlibPttError {
    /// The text of the error as it is shown to the user.
    pub open spec fn message_text(self) -> Seq<char> {
        match self {
            HamlibPttError::Windows(m) => "error in Windows API: "@ + m@,
            HamlibPttError::DllPath => "failed to get DLL directory"@,
        }
    }

    /// Renders the error for the user.
    pub fn message(&self) -> (s: String)
        ensures
            s@ == self.message_text(),
    {
        match self {
            HamlibPttError::Windows(m) => String::from_str("error in Windows API: ").concat(
                m.as_str(),
            ),
            HamlibPttError::DllPath => String::from_str("failed to get DLL directory"),
        }
    }
}

} // verus!
