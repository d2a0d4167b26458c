//! The decisions of the instance manager window: which controls it shows,
//! how they look, and what its buttons do.
use vstd::prelude::*;
use crate::i18n::I18n;

verus! {

/// Button: stop the running instance.
pub const ID_STOP_BUTTON: usize = 1;

/// Button: reload the running instance's settings.
pub const ID_RELOAD_BUTTON: usize = 2;

/// Button: edit the settings file.
pub const ID_EDIT_BUTTON: usize = 3;

/// Button: start on login through the registry.
pub const ID_ENABLE_REG_BUTTON: usize = 4;

/// Button: start on login through the task scheduler.
pub const ID_ENABLE_TASK_BUTTON: usize = 5;

/// Button: no longer start on login.
pub const ID_DISABLE_ALL_BUTTON: usize = 6;

/// Label: the process identifier of an instance that is not elevated.
pub const ID_PID_LABEL: isize = 98;

/// Label: the process identifier of an elevated instance.
pub const ID_PID_LABEL_ELEVATED: isize = 99;

/// Label: the heading of the startup status.
pub const ID_STARTUP_STATUS_LABEL: isize = 100;

/// Label: the registry startup status.
pub const ID_REG_STATUS_LABEL: isize = 101;

/// Label: the task scheduler startup status.
pub const ID_TASK_STATUS_LABEL: isize = 102;

/// Label: permission denied.
pub const ID_PERMISSION_DENIED_LABEL: isize = 103;

/// Label: the tip at the bottom.
pub const ID_BOTTOM_TIP_LABEL: isize = 104;

/// Width of the window.
pub const WINDOW_WIDTH: i32 = 320;

/// Height of the window.
pub const WINDOW_HEIGHT: i32 = 470;

/// Red, as a `COLORREF`.
pub const COLOR_RED: u32 = 0x0000FF;

/// Green, as a `COLORREF`.
pub const COLOR_GREEN: u32 = 0x008000;

/// The colour of the tip, as a `COLORREF`.
pub const COLOR_TIP: u32 = 0x0050AA;

/// `WS_CHILD`.
pub const WS_CHILD: u32 = 0x4000_0000;

/// `WS_VISIBLE`.
pub const WS_VISIBLE: u32 = 0x1000_0000;

/// `WS_DISABLED`.
pub const WS_DISABLED: u32 = 0x0800_0000;

/// `BS_PUSHBUTTON`.
pub const BS_PUSHBUTTON: u32 = 0;

/// The style of a push button, greyed out when `disabled`.
pub open spec fn button_style_of(disabled: bool) -> u32 {
    if disabled {
        WS_CHILD | WS_VISIBLE | BS_PUSHBUTTON | WS_DISABLED
    } else {
        WS_CHILD | WS_VISIBLE | BS_PUSHBUTTON
    }
}

/// Builds the style of a push button, greyed out when `disabled`.
pub fn button_style(disabled: bool) -> (s: u32)
    ensures
        s == button_style_of(disabled),
{
    if disabled {
        WS_CHILD | WS_VISIBLE | BS_PUSHBUTTON | WS_DISABLED
    } else {
        WS_CHILD | WS_VISIBLE | BS_PUSHBUTTON
    }
}

/// The upper part of the manager window.
#[derive(Clone, Copy, Debug, PartialEq, Eq, Structural)]
pub struct ManagerView {
    /// The identifier of the process-identifier label, which sets its colour.
    pub pid_label_id: isize,
    /// The running instance is elevated and this one is not, so that it
    /// cannot be managed from here.
    pub permission_denied: bool,
    /// The style of the stop, reload and edit buttons.
    pub button_style: u32,
}

/// The upper part of the manager window, from whether this process and the
/// running instance are elevated.
pub fn manager_view(self_elevated: bool, instance_elevated: bool) -> (v: ManagerView)
    ensures
        v.pid_label_id == (if instance_elevated {
            ID_PID_LABEL_ELEVATED
        } else {
            ID_PID_LABEL
        }),
        v.permission_denied == (!self_elevated && instance_elevated),
        v.button_style == button_style_of(v.permission_denied),
{
    let permission_denied = !self_elevated && instance_elevated;
    ManagerView {
        pid_label_id: if instance_elevated {
            ID_PID_LABEL_ELEVATED
        } else {
            ID_PID_LABEL
        },
        permission_denied,
        button_style: button_style(permission_denied),
    }
}

/// The startup buttons shown.
#[derive(Clone, Copy, Debug, PartialEq, Eq, Structural)]
pub enum StartupButtons {
    /// Neither startup is enabled: the two enable buttons, with these styles.
    Enable { registry_style: u32, task_style: u32 },
    /// Some startup is enabled: the disable-all button, with this style.
    DisableAll { style: u32 },
}

/// The tip at the bottom of the window.
#[derive(Clone, Copy, Debug, PartialEq, Eq, Structural)]
pub enum StartupTip {
    /// Permission denied.
    PermissionDenied,
    /// Registry startup cannot control elevated programs.
    RegistryLimit,
}

/// The startup part of the manager window.
#[derive(Clone, Copy, Debug, PartialEq, Eq, Structural)]
pub struct StartupControls {
    pub buttons: StartupButtons,
    pub tip: StartupTip,
}

/// The startup part of the manager window, from whether this process is
/// elevated and which startups are enabled. Enabling the task needs elevation;
/// so does disabling when the task is enabled.
pub fn startup_controls(elevated: bool, reg_enabled: bool, task_enabled: bool) -> (c:
    StartupControls)
    ensures
        c.buttons == (if !reg_enabled && !task_enabled {
            StartupButtons::Enable {
                registry_style: button_style_of(false),
                task_style: button_style_of(!elevated),
            }
        } else {
            StartupButtons::DisableAll { style: button_style_of(task_enabled && !elevated) }
        }),
        c.tip == (if !elevated && task_enabled {
            StartupTip::PermissionDenied
        } else {
            StartupTip::RegistryLimit
        }),
{
    let buttons = if !reg_enabled && !task_enabled {
        StartupButtons::Enable {
            registry_style: button_style(false),
            task_style: button_style(!elevated),
        }
    } else {
        StartupButtons::DisableAll { style: button_style(!(!task_enabled || elevated)) }
    };
    let tip = if !elevated && task_enabled {
        StartupTip::PermissionDenied
    } else {
        StartupTip::RegistryLimit
    };
    StartupControls { buttons, tip }
}

/// The text of the tip at the bottom of the window.
pub fn startup_tip_text(i18n: &I18n, tip: StartupTip) -> (s: &'static str)
    ensures
        s == (match tip {
            StartupTip::PermissionDenied => i18n.permission_denied,
            StartupTip::RegistryLimit => i18n.registry_limit_tip,
        }),
{
    match tip {
        StartupTip::PermissionDenied => i18n.permission_denied,
        StartupTip::RegistryLimit => i18n.registry_limit_tip,
    }
}

/// A line of the startup status: `  - <label>: <state>`.
pub fn status_entry(label: &str, state: &str) -> (s: String)
    ensures
        s@ == "  - "@ + label@ + ": "@ + state@,
{
    let mut s = String::from_str("  - ");
    s.append(label);
    s.append(": ");
    s.append(state);
    s
}

/// The registry or task startup that a status label shows.
#[derive(Clone, Copy, Debug, PartialEq, Eq, Structural)]
pub enum StartupKind {
    Registry,
    TaskScheduler,
}

/// How a static label is coloured.
#[derive(Clone, Copy, Debug, PartialEq, Eq, Structural)]
pub enum LabelColoring {
    /// Always in this colour.
    Fixed(u32),
    /// Green when this startup is enabled, the default colour otherwise.
    GreenWhenEnabled(StartupKind),
    /// The default colour.
    Default,
}

/// How the static label with identifier `ctrl_id` is coloured.
pub fn label_coloring(ctrl_id: isize) -> (c: LabelColoring)
    ensures
        c == (if ctrl_id == ID_PID_LABEL_ELEVATED || ctrl_id == ID_PERMISSION_DENIED_LABEL {
            LabelColoring::Fixed(COLOR_RED)
        } else if ctrl_id == ID_REG_STATUS_LABEL {
            LabelColoring::GreenWhenEnabled(StartupKind::Registry)
        } else if ctrl_id == ID_TASK_STATUS_LABEL {
            LabelColoring::GreenWhenEnabled(StartupKind::TaskScheduler)
        } else if ctrl_id == ID_BOTTOM_TIP_LABEL {
            LabelColoring::Fixed(COLOR_TIP)
        } else {
            LabelColoring::Default
        }),
{
    if ctrl_id == ID_PID_LABEL_ELEVATED || ctrl_id == ID_PERMISSION_DENIED_LABEL {
        LabelColoring::Fixed(COLOR_RED)
    } else if ctrl_id == ID_REG_STATUS_LABEL {
        LabelColoring::GreenWhenEnabled(StartupKind::Registry)
    } else if ctrl_id == ID_TASK_STATUS_LABEL {
        LabelColoring::GreenWhenEnabled(StartupKind::TaskScheduler)
    } else if ctrl_id == ID_BOTTOM_TIP_LABEL {
        LabelColoring::Fixed(COLOR_TIP)
    } else {
        LabelColoring::Default
    }
}

/// The text colour of a label with the given colouring, where
/// `kind_enabled` tells whether the startup it shows is enabled; `None`
/// keeps the default colour.
pub fn label_color(coloring: LabelColoring, kind_enabled: bool) -> (c: Option<u32>)
    ensures
        c == (match coloring {
            LabelColoring::Fixed(color) => Some(color),
            LabelColoring::GreenWhenEnabled(_) => if kind_enabled {
                Some(COLOR_GREEN)
            } else {
                None
            },
            LabelColoring::Default => None,
        }),
{
    match coloring {
        LabelColoring::Fixed(color) => Some(color),
        LabelColoring::GreenWhenEnabled(_) => if kind_enabled {
            Some(COLOR_GREEN)
        } else {
            None
        },
        LabelColoring::Default => None,
    }
}

/// What a button of the manager window does.
#[derive(Clone, Copy, Debug, PartialEq, Eq, Structural)]
pub enum ManagerCommand {
    Stop,
    Reload,
    EditConfig,
    EnableRegistry,
    EnableTask,
    DisableAll,
}

/// The command of a `WM_COMMAND` message, whose low word is the control
/// identifier; `None` for other controls.
pub fn manager_command(wparam: usize) -> (c: Option<ManagerCommand>)
    ensures
        c == (if wparam & 0xFFFF == ID_STOP_BUTTON {
            Some(ManagerCommand::Stop)
        } else if wparam & 0xFFFF == ID_RELOAD_BUTTON {
            Some(ManagerCommand::Reload)
        } else if wparam & 0xFFFF == ID_EDIT_BUTTON {
            Some(ManagerCommand::EditConfig)
        } else if wparam & 0xFFFF == ID_ENABLE_REG_BUTTON {
            Some(ManagerCommand::EnableRegistry)
        } else if wparam & 0xFFFF == ID_ENABLE_TASK_BUTTON {
            Some(ManagerCommand::EnableTask)
        } else if wparam & 0xFFFF == ID_DISABLE_ALL_BUTTON {
            Some(ManagerCommand::DisableAll)
        } else {
            None
        }),
{
    let id = wparam & 0xFFFF;
    if id == ID_STOP_BUTTON {
        Some(ManagerCommand::Stop)
    } else if id == ID_RELOAD_BUTTON {
        Some(ManagerCommand::Reload)
    } else if id == ID_EDIT_BUTTON {
        Some(ManagerCommand::EditConfig)
    } else if id == ID_ENABLE_REG_BUTTON {
        Some(ManagerCommand::EnableRegistry)
    } else if id == ID_ENABLE_TASK_BUTTON {
        Some(ManagerCommand::EnableTask)
    } else if id == ID_DISABLE_ALL_BUTTON {
        Some(ManagerCommand::DisableAll)
    } else {
        None
    }
}

/// The identifiers of the startup controls, which a refresh removes before
/// drawing them anew.
pub fn startup_control_ids() -> (ids: Vec<isize>)
    ensures
        ids@ == seq![
            ID_STARTUP_STATUS_LABEL,
            ID_REG_STATUS_LABEL,
            ID_TASK_STATUS_LABEL,
            ID_ENABLE_REG_BUTTON as isize,
            ID_ENABLE_TASK_BUTTON as isize,
            ID_DISABLE_ALL_BUTTON as isize,
            ID_BOTTOM_TIP_LABEL,
        ],
{
    let ids = vec![
        ID_STARTUP_STATUS_LABEL,
        ID_REG_STATUS_LABEL,
        ID_TASK_STATUS_LABEL,
        ID_ENABLE_REG_BUTTON as isize,
        ID_ENABLE_TASK_BUTTON as isize,
        ID_DISABLE_ALL_BUTTON as isize,
        ID_BOTTOM_TIP_LABEL,
    ];
    assert(ids@ =~= seq![
        ID_STARTUP_STATUS_LABEL,
        ID_REG_STATUS_LABEL,
        ID_TASK_STATUS_LABEL,
        ID_ENABLE_REG_BUTTON as isize,
        ID_ENABLE_TASK_BUTTON as isize,
        ID_DISABLE_ALL_BUTTON as isize,
        ID_BOTTOM_TIP_LABEL,
    ]);
    ids
}

/// Lines joined by line breaks, as `lines.join("\n")`.
pub open spec fn joined_lines(lines: Seq<Seq<char>>) -> Seq<char>
    decreases lines.len(),
{
    if lines.len() == 0 {
        Seq::empty()
    } else if lines.len() == 1 {
        lines[0]
    } else {
        joined_lines(lines.drop_last()) + "\n"@ + lines.last()
    }
}

/// Joins the error messages into one text, one per line.
pub fn join_lines(lines: &Vec<String>) -> (s: String)
    ensures
        s@ == joined_lines(lines@.map_values(|l: String| l@)),
{
    let ghost views = lines@.map_values(|l: String| l@);
    let mut s = String::new();
    let mut i: usize = 0;
    while i < lines.len()
        invariant
            i <= lines@.len(),
            views == lines@.map_values(|l: String| l@),
            s@ == joined_lines(views.subrange(0, i as int)),
        decreases lines.len() - i,
    {
        if i != 0 {
            s.append("\n");
        }
        s.append(lines[i].as_str());
        assert(views.subrange(0, i + 1).drop_last() =~= views.subrange(0, i as int));
        i = i + 1;
    }
    assert(views.subrange(0, lines@.len() as int) =~= views);
    s
}

} // verus!
