use capsense::cli::{
    background_notice, daemon_child_args, display_gui, startup_command_is_headless, startup_plan,
    text_contains, StartupPlan, ToggleAction,
};
use capsense::i18n::{en_us, i18n_for, running_pid_text, select_locale, status_line, zh_cn, Locale};
use capsense::manager::{
    button_style, join_lines, label_color, label_coloring, manager_command, manager_view,
    startup_control_ids, startup_controls, startup_tip_text, status_entry, LabelColoring,
    ManagerCommand, StartupButtons, StartupKind, StartupTip, COLOR_GREEN, COLOR_RED, COLOR_TIP,
    ID_BOTTOM_TIP_LABEL, ID_PERMISSION_DENIED_LABEL, ID_PID_LABEL, ID_PID_LABEL_ELEVATED,
    ID_REG_STATUS_LABEL, ID_TASK_STATUS_LABEL, WS_CHILD, WS_DISABLED, WS_VISIBLE,
};
use capsense::startup::{check_delete, check_open, check_set, registry_value_bytes, StartupError};
use capsense::ui::{create_alert_window, instance_manager_lines, show_instance_manager_window};

#[test]
fn locale_selection() {
    assert_eq!(select_locale("zh_CN.UTF-8", 0x0409), Locale::Chinese);
    assert_eq!(select_locale("en_US.UTF-8", 0x0804), Locale::Chinese);
    assert_eq!(select_locale("en_US.UTF-8", 0x0409), Locale::English);
    assert_eq!(select_locale("", 0x0409), Locale::English);
    assert_eq!(select_locale("z", 0x0409), Locale::English);
    assert_eq!(select_locale("", 0x0404), Locale::Chinese);
}

#[test]
fn texts_of_each_locale() {
    assert_eq!(en_us().title, "Capsense");
    assert_eq!(en_us().config_loaded, "Config loaded or reloaded.");
    assert_eq!(
        en_us().no_english_tip,
        "Capsense is in no-English mode by default, which prevent your Chinese IME from entering English mode after layout or focus changes.\nYou can change this setting in the configuration file."
    );
    assert_eq!(zh_cn().config_loaded, "配置已加载");
    assert_eq!(i18n_for(Locale::Chinese).enabled, "已启用");
    assert_eq!(i18n_for(Locale::English).enabled, "Enabled");
}

#[test]
fn status_lines() {
    assert_eq!(running_pid_text(&en_us(), 4242), "Capsense is running with PID: 4242");
    assert_eq!(running_pid_text(&zh_cn(), 7), "Capsense 正以 PID 7 运行");
    assert_eq!(status_line(&en_us(), 12, false), "Capsense is running with PID: 12");
    assert_eq!(status_line(&en_us(), 12, true), "(Elevated) Capsense is running with PID: 12");
}

#[test]
fn registry_status_checks() {
    assert!(check_open(0).is_ok());
    assert!(matches!(check_open(5), Err(StartupError::OpenKey(5))));
    assert!(check_set(0).is_ok());
    assert!(matches!(check_set(87), Err(StartupError::SetValue(87))));
    assert!(check_delete(0).is_ok());
    assert!(check_delete(2).is_ok());
    assert!(matches!(check_delete(5), Err(StartupError::DeleteValue(5))));
    assert_eq!(registry_value_bytes(10), 20);
}

#[test]
fn registry_error_messages() {
    assert_eq!(StartupError::OpenKey(5).message(), "Failed to open registry key: 5");
    assert_eq!(StartupError::SetValue(87).message(), "Failed to set registry value: 87");
    assert_eq!(StartupError::DeleteValue(1).message(), "Failed to delete registry value: 1");
    assert_eq!(StartupError::InvalidPath.message(), "Invalid executable path");
    assert_eq!(StartupError::ExePath("gone".to_string()).message(), "gone");
}

#[test]
fn manager_window_top() {
    let v = manager_view(false, true);
    assert_eq!(v.pid_label_id, ID_PID_LABEL_ELEVATED);
    assert!(v.permission_denied);
    assert_eq!(v.button_style, WS_CHILD | WS_VISIBLE | WS_DISABLED);
    let w = manager_view(true, false);
    assert_eq!(w.pid_label_id, ID_PID_LABEL);
    assert!(!w.permission_denied);
    assert_eq!(w.button_style, button_style(false));
    assert!(!manager_view(true, true).permission_denied);
}

#[test]
fn manager_window_startup_part() {
    let c = startup_controls(false, false, false);
    assert_eq!(c.buttons, StartupButtons::Enable { registry_style: button_style(false), task_style: button_style(true) });
    assert_eq!(c.tip, StartupTip::RegistryLimit);
    let c = startup_controls(true, false, false);
    assert_eq!(c.buttons, StartupButtons::Enable { registry_style: button_style(false), task_style: button_style(false) });
    let c = startup_controls(false, false, true);
    assert_eq!(c.buttons, StartupButtons::DisableAll { style: button_style(true) });
    assert_eq!(c.tip, StartupTip::PermissionDenied);
    let c = startup_controls(false, true, false);
    assert_eq!(c.buttons, StartupButtons::DisableAll { style: button_style(false) });
    assert_eq!(startup_tip_text(&en_us(), StartupTip::PermissionDenied), en_us().permission_denied);
    assert_eq!(status_entry("Registry (User)", "Enabled"), "  - Registry (User): Enabled");
    assert_eq!(startup_control_ids(), vec![100, 101, 102, 4, 5, 6, 104]);
}

#[test]
fn manager_window_colours_and_commands() {
    assert_eq!(label_coloring(ID_PID_LABEL_ELEVATED), LabelColoring::Fixed(COLOR_RED));
    assert_eq!(label_coloring(ID_PERMISSION_DENIED_LABEL), LabelColoring::Fixed(COLOR_RED));
    assert_eq!(label_coloring(ID_BOTTOM_TIP_LABEL), LabelColoring::Fixed(COLOR_TIP));
    assert_eq!(
        label_coloring(ID_REG_STATUS_LABEL),
        LabelColoring::GreenWhenEnabled(StartupKind::Registry)
    );
    assert_eq!(
        label_coloring(ID_TASK_STATUS_LABEL),
        LabelColoring::GreenWhenEnabled(StartupKind::TaskScheduler)
    );
    assert_eq!(label_coloring(ID_PID_LABEL), LabelColoring::Default);
    assert_eq!(label_color(LabelColoring::GreenWhenEnabled(StartupKind::Registry), true), Some(COLOR_GREEN));
    assert_eq!(label_color(LabelColoring::GreenWhenEnabled(StartupKind::Registry), false), None);
    assert_eq!(label_color(LabelColoring::Fixed(COLOR_RED), false), Some(COLOR_RED));
    assert_eq!(label_color(LabelColoring::Default, true), None);
    assert_eq!(manager_command(1), Some(ManagerCommand::Stop));
    assert_eq!(manager_command(0x0001_0002), Some(ManagerCommand::Reload));
    assert_eq!(manager_command(3), Some(ManagerCommand::EditConfig));
    assert_eq!(manager_command(4), Some(ManagerCommand::EnableRegistry));
    assert_eq!(manager_command(5), Some(ManagerCommand::EnableTask));
    assert_eq!(manager_command(6), Some(ManagerCommand::DisableAll));
    assert_eq!(manager_command(7), None);
    assert_eq!(join_lines(&vec!["a".to_string(), "b".to_string()]), "a\nb");
    assert_eq!(join_lines(&vec![]), "");
}

#[test]
fn command_line_decisions() {
    assert!(startup_command_is_headless("\"C:\\capsense.exe\" --headless"));
    assert!(!startup_command_is_headless("C:\\capsense.exe"));
    assert!(text_contains("abc", ""));
    assert!(!text_contains("", "a"));
    let args: Vec<String> = ["capsense.exe", "-d", "--reload", "--daemon", "-s"]
        .iter()
        .map(|s| s.to_string())
        .collect();
    assert_eq!(daemon_child_args(&args), vec!["--reload".to_string(), "-s".to_string()]);
    assert!(daemon_child_args(&[]).is_empty());
    assert!(!display_gui(true, true, Some("explorer.exe")));
    assert!(display_gui(false, true, None));
    assert!(display_gui(false, false, Some("C:\\Windows\\EXPLORER.EXE")));
    assert!(!display_gui(false, false, Some("cmd.exe")));
    assert!(!display_gui(false, false, None));
}

#[test]
fn startup_plans() {
    assert_eq!(startup_plan(ToggleAction::Show, false, false, true, true), StartupPlan::ShowStatus);
    assert_eq!(startup_plan(ToggleAction::Enable, false, false, false, false), StartupPlan::PermissionDenied);
    assert_eq!(startup_plan(ToggleAction::Enable, true, false, true, false), StartupPlan::AlreadyEnabled);
    assert_eq!(startup_plan(ToggleAction::Enable, true, false, false, false), StartupPlan::Enable { task: false });
    assert_eq!(startup_plan(ToggleAction::Enable, false, true, false, false), StartupPlan::Enable { task: true });
    assert_eq!(startup_plan(ToggleAction::Disable, true, false, true, true), StartupPlan::Disable { task_too: false });
    assert_eq!(startup_plan(ToggleAction::Disable, false, true, true, true), StartupPlan::Disable { task_too: true });
}

#[test]
fn notices() {
    assert_eq!(background_notice(&en_us(), true), en_us().background_started);
    assert_eq!(
        background_notice(&en_us(), false),
        format!("{}\n{}", en_us().background_started, en_us().admin_privilege_warning)
    );
    let lines = instance_manager_lines(1234);
    assert_eq!(lines[0], "Another instance is already running with PID: 1234");
    assert_eq!(lines[1], "Use --status, --stop, or --reload to manage it.");
    create_alert_window("alert shown");
    show_instance_manager_window(1234);
}
