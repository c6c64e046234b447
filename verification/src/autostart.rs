//! Launch at login: the desktop entry written to the autostart directory, and what
//! each failure is reported as.

use vstd::prelude::*;

verus! {

pub open spec fn desktop_entry_head() -> Seq<char> {
    "[Desktop Entry]\nType=Application\nName=AutoSSH\nExec="@
}

pub open spec fn desktop_entry_tail() -> Seq<char> {
    "\nComment=Automatic SSH connection manager\nTerminal=false\nStartupNotify=false\nX-GNOME-Autostart-enabled=true\n"@
}

/// The desktop entry that starts the executable at `exe_path` at login.
pub fn desktop_entry(exe_path: &str) -> (r: String)
    ensures
        r@ == desktop_entry_head() + exe_path@ + desktop_entry_tail(),
{
    String::from_str("[Desktop Entry]\nType=Application\nName=AutoSSH\nExec=").concat(exe_path).concat(
        "\nComment=Automatic SSH connection manager\nTerminal=false\nStartupNotify=false\nX-GNOME-Autostart-enabled=true\n",
    )
}

/// Why launch at login could not be switched on or off.
pub enum AutostartFailure {
    NoExecutable,
    NoAutostartDir,
    InvalidPath,
    CreateDir(String),
    Write(String),
    Remove(String),
}

pub open spec fn autostart_failure_text(f: AutostartFailure) -> Seq<char> {
    match f {
        AutostartFailure::NoExecutable => "Cannot determine executable path"@,
        AutostartFailure::NoAutostartDir => "Cannot determine autostart directory"@,
        AutostartFailure::InvalidPath => "Invalid autostart path"@,
        AutostartFailure::CreateDir(d) => "Failed to create autostart directory: "@ + d@,
        AutostartFailure::Write(d) => "Failed to write autostart file: "@ + d@,
        AutostartFailure::Remove(d) => "Failed to remove autostart file: "@ + d@,
    }
}

impl AutostartFailure {
    /// The text that `enable` or `disable` reports for this failure.
    pub fn message(&self) -> (r: String)
        ensures
            r@ == autostart_failure_text(*self),
    {
        match self {
            AutostartFailure::NoExecutable => String::from_str("Cannot determine executable path"),
            AutostartFailure::NoAutostartDir => String::from_str(
                "Cannot determine autostart directory",
            ),
            AutostartFailure::InvalidPath => String::from_str("Invalid autostart path"),
            AutostartFailure::CreateDir(d) => String::from_str(
                "Failed to create autostart directory: ",
            ).concat(d.as_str()),
            AutostartFailure::Write(d) => String::from_str("Failed to write autostart file: ").concat(
                d.as_str(),
            ),
            AutostartFailure::Remove(d) => String::from_str("Failed to remove autostart file: ").concat(
                d.as_str(),
            ),
        }
    }
}

} // verus!
