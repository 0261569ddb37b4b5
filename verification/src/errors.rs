//! The failure taxonomy shared by every operation of the library.

use vstd::prelude::*;
use vstd::string::StringExecFns;

verus! {

/// One terminal outcome per operation: success, or exactly one of these.
#[derive(Debug)]
pub enum CliError {
    /// No (or no longer valid) credentials on disk; the user must run login.
    NotAuthenticated,
    /// The interactive consent flow was not completed.
    AuthFlowError,
    /// Owner-only permissions could not be applied to a secret file.
    PermissionError,
    /// A generic filesystem failure.
    IoError,
    /// Transport failure or provider unreachable.
    NetworkError,
    /// The provider reported that the device does not exist.
    DeviceNotFound,
    /// Two setpoints are active at once; refusing to guess which to set.
    AmbiguousSetpoint,
    /// The given mode string is not one of the accepted modes.
    InvalidMode(String),
}

impl CliError {
    /// The user-facing text of this failure; the caller prefixes and prints it.
    pub fn message(&self) -> (r: String)
        ensures
            self is NotAuthenticated ==> r@ == "Not logged in. Run `nest-cli auth login` first."@,
            self is AuthFlowError ==> r@ == "Authorization flow failed. Run `nest-cli auth login` again."@,
            self is PermissionError ==> r@ == "Could not restrict permissions on credential files."@,
            self is IoError ==> r@ == "Filesystem error while accessing credential files."@,
            self is NetworkError ==> r@ == "Network error while contacting the device service."@,
            self is DeviceNotFound ==> r@ == "Device not found."@,
            self is AmbiguousSetpoint ==> r@
                == "In HEATCOOL mode, use separate heat/cool setpoints. Switch to HEAT or COOL mode first, or set range via the Google Home app."@,
            forall|m: String|
                *self == CliError::InvalidMode(m) ==> r@ == "Unknown mode: "@ + m@
                    + ". Use heat, cool, heatcool, or off."@,
    {
        match self {
            CliError::NotAuthenticated => String::from_str(
                "Not logged in. Run `nest-cli auth login` first.",
            ),
            CliError::AuthFlowError => String::from_str(
                "Authorization flow failed. Run `nest-cli auth login` again.",
            ),
            CliError::PermissionError => String::from_str(
                "Could not restrict permissions on credential files.",
            ),
            CliError::IoError => String::from_str(
                "Filesystem error while accessing credential files.",
            ),
            CliError::NetworkError => String::from_str(
                "Network error while contacting the device service.",
            ),
            CliError::DeviceNotFound => String::from_str("Device not found."),
            CliError::AmbiguousSetpoint => String::from_str(
                "In HEATCOOL mode, use separate heat/cool setpoints. Switch to HEAT or COOL mode first, or set range via the Google Home app.",
            ),
            CliError::InvalidMode(m) => String::from_str("Unknown mode: ").concat(
                m.as_str(),
            ).concat(". Use heat, cool, heatcool, or off."),
        }
    }
}

} // verus!
