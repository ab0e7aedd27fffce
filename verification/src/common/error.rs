//! The errors of the library.
use vstd::prelude::*;

use crate::hamlib::HamlibError;

verus! {

/// Everything that can go wrong in HamlibPTT. Errors of outside services
/// (the Windows API, file and serial-port I/O, the TOML reader) are carried
/// by their message.
#[derive(Debug)]
pub enum HamlibPttError {
    /// An event arrived that the current step does not expect.
    InvalidState,
    /// A Windows API call failed.
    Windows(String),
    /// The directory of the DLL could not be found.
    DllPath,
    /// File or process I/O failed.
    Io(String),
    /// The configuration file is not valid TOML for the configuration.
    ConfigSyntax(String),
    /// The configuration lacks a section that its settings require.
    ConfigDataInvalid,
    /// `rigctl` exited unsuccessfully: its exit status and what it wrote to
    /// its error output.
    RigCtl(String, String),
    /// A Hamlib commander failed.
    Hamlib(HamlibError),
    /// The serial port for FSK keying could not be opened.
    SerialPort(String),
}

impl HamlibPttError {
    /// The text of the error as it is shown to the user.
    pub open spec fn message_text(self) -> Seq<char> {
        match self {
            HamlibPttError::InvalidState => "invariant broken"@,
            HamlibPttError::Windows(m) => "error in Windows API: "@ + m@,
            HamlibPttError::DllPath => "failed to get DLL directory"@,
            HamlibPttError::Io(m) => "IO error: "@ + m@,
            HamlibPttError::ConfigSyntax(m) => "config error: "@ + m@,
            HamlibPttError::ConfigDataInvalid => "invalid config data"@,
            HamlibPttError::RigCtl(status, stderr) => "rigctl failed with status "@ + status@
                + ": "@ + stderr@,
            HamlibPttError::Hamlib(e) => e.message_text(),
            HamlibPttError::SerialPort(m) => "serial port error: "@ + m@,
        }
    }

    /// Renders the error for the user.
    pub fn message(&self) -> (s: String)
        ensures
            s@ == self.message_text(),
    {
        match self {
            HamlibPttError::InvalidState => String::from_str("invariant broken"),
            HamlibPttError::Windows(m) => String::from_str("error in Windows API: ").concat(
                m.as_str(),
            ),
            HamlibPttError::DllPath => String::from_str("failed to get DLL directory"),
            HamlibPttError::Io(m) => String::from_str("IO error: ").concat(m.as_str()),
            HamlibPttError::ConfigSyntax(m) => String::from_str("config error: ").concat(
                m.as_str(),
            ),
            HamlibPttError::ConfigDataInvalid => String::from_str("invalid config data"),
            HamlibPttError::RigCtl(status, stderr) => {
                let s = String::from_str("rigctl failed with status ").concat(status.as_str());
                let s = s.concat(": ");
                s.concat(stderr.as_str())
            },
            HamlibPttError::Hamlib(e) => e.message(),
            HamlibPttError::SerialPort(m) => String::from_str("serial port error: ").concat(
                m.as_str(),
            ),
        }
    }
}

} // verus!
