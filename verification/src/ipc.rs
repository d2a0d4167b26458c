//! Commands that other instances send to the running one, through the
//! messages of its hidden window.
use vstd::prelude::*;

verus! {

/// `WM_CLOSE`: stop the running instance.
pub const WM_CLOSE: u32 = 0x0010;

/// `WM_USER`: the first message number free for private use.
pub const WM_USER: u32 = 0x0400;

/// The private message that asks the running instance to reload its settings.
pub const WM_RELOAD_CONFIG: u32 = WM_USER + 1;

/// The window class of the hidden window, by which instances find it.
pub const WINDOW_CLASS_NAME: &'static str = "CapsCustomHookClass";

/// The name of the mutex that tells whether an instance runs already.
pub const MUTEX_NAME: &'static str = "CapsCustomHookMutex";

/// What the hidden window does with a message.
#[derive(Clone, Copy, Debug, PartialEq, Eq, Structural)]
pub enum IpcCommand {
    /// Shut the instance down.
    Shutdown,
    /// Reload the settings.
    ReloadConfig,
    /// Leave the message to the default window procedure.
    Default,
}

/// The command that a message to the hidden window carries.
pub fn message_window_command(msg: u32) -> (c: IpcCommand)
    ensures
        c == (if msg == WM_CLOSE {
            IpcCommand::Shutdown
        } else if msg == WM_RELOAD_CONFIG {
            IpcCommand::ReloadConfig
        } else {
            IpcCommand::Default
        }),
{
    if msg == WM_CLOSE {
        IpcCommand::Shutdown
    } else if msg == WM_RELOAD_CONFIG {
        IpcCommand::ReloadConfig
    } else {
        IpcCommand::Default
    }
}

} // verus!
