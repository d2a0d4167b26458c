//! Start on login through the user's `Run` registry key: the checks of the
//! registry calls' status codes and the error messages.
use vstd::prelude::*;
use crate::text::{decimal, decimal_string};

verus! {

/// The registry key, under `HKEY_CURRENT_USER`, of programs started on login.
pub const RUN_KEY: &'static str = "Software\\Microsoft\\Windows\\CurrentVersion\\Run";

/// The name of Capsense's value under the `Run` key.
pub const APP_VALUE_NAME: &'static str = "Capsense";

/// `ERROR_FILE_NOT_FOUND`, which deleting a value that is not there returns.
pub const ERROR_FILE_NOT_FOUND: u32 = 2;

/// Why changing the start on login failed.
#[derive(Clone, Debug)]
pub enum StartupError {
    /// Opening the `Run` key failed with this status.
    OpenKey(u32),
    /// The executable's path could not be found; the system's message.
    ExePath(String),
    /// The executable's path is not valid Unicode.
    InvalidPath,
    /// Writing the value failed with this status.
    SetValue(u32),
    /// Deleting the value failed with this status.
    DeleteValue(u32),
}

/// The status of opening the `Run` key: success only for status 0.
pub fn check_open(status: u32) -> (r: Result<(), StartupError>)
    ensures
        r is Ok <==> status == 0,
        r matches Err(e) ==> e matches StartupError::OpenKey(code) && code == status,
{
    if status != 0 {
        Err(StartupError::OpenKey(status))
    } else {
        Ok(())
    }
}

/// The status of writing the value: success only for status 0.
pub fn check_set(status: u32) -> (r: Result<(), StartupError>)
    ensures
        r is Ok <==> status == 0,
        r matches Err(e) ==> e matches StartupError::SetValue(code) && code == status,
{
    if status != 0 {
        Err(StartupError::SetValue(status))
    } else {
        Ok(())
    }
}

/// The status of deleting the value: success for status 0, and also when the
/// value was not there, since disabling then has nothing to do.
pub fn check_delete(status: u32) -> (r: Result<(), StartupError>)
    ensures
        r is Ok <==> (status == 0 || status == ERROR_FILE_NOT_FOUND),
        r matches Err(e) ==> e matches StartupError::DeleteValue(code) && code == status,
{
    if status != 0 && status != ERROR_FILE_NOT_FOUND {
        Err(StartupError::DeleteValue(status))
    } else {
        Ok(())
    }
}

/// The size in bytes of a `REG_SZ` value of `units` UTF-16 units, the
/// terminating NUL included.
pub fn registry_value_bytes(units: usize) -> (n: u32)
    requires
        units * 2 <= usize::MAX,
    ensures
        n == (units * 2) as u32,
{
    (units * 2) as u32
}

/// The message of a startup error.
pub open spec fn error_text(e: StartupError) -> Seq<char> {
    match e {
        StartupError::OpenKey(code) => "Failed to open registry key: "@ + decimal(code as nat),
        StartupError::ExePath(msg) => msg@,
        StartupError::InvalidPath => "Invalid executable path"@,
        StartupError::SetValue(code) => "Failed to set registry value: "@ + decimal(code as nat),
        StartupError::DeleteValue(code) => "Failed to delete registry value: "@ + decimal(
            code as nat,
        ),
    }
}

impl StartupError {
    /// The message shown for this error.
    pub fn message(&self) -> (s: String)
        ensures
            s@ == error_text(*self),
    {
        match self {
            StartupError::OpenKey(code) => {
                let mut s = String::from_str("Failed to open registry key: ");
                s.append(decimal_string(*code).as_str());
                s
            },
            StartupError::ExePath(msg) => msg.clone(),
            StartupError::InvalidPath => String::from_str("Invalid executable path"),
            StartupError::SetValue(code) => {
                let mut s = String::from_str("Failed to set registry value: ");
                s.append(decimal_string(*code).as_str());
                s
            },
            StartupError::DeleteValue(code) => {
                let mut s = String::from_str("Failed to delete registry value: ");
                s.append(decimal_string(*code).as_str());
                s
            },
        }
    }
}

} // verus!
