use imk::tray::tray::{
    build_menu, classify_tray_message, handle_command, menu_label, is_autostart_enabled,
    set_autostart, shortcut_script, toggle_autostart, write_tip, AutostartPlan, MenuEntry,
    TrayCommand, TrayMessageAction, ID_EXIT, ID_OPEN_CONFIG, ID_OPEN_CONFIG_DIR, ID_OPEN_SETTINGS,
    ID_TOGGLE_AUTOSTART, ID_TOGGLE_CAPS_INTERCEPTOR, TRAY_MESSAGE, WM_COMMAND, WM_DESTROY,
    WM_LBUTTONDBLCLK, WM_RBUTTONUP,
};

#[test]
fn menu_items_map_to_commands() {
    let menu = build_menu(true, false);
    assert_eq!(menu.len(), 8);
    assert_eq!(menu[3], MenuEntry::Separator);
    assert_eq!(menu[4], MenuEntry::Item { id: ID_TOGGLE_CAPS_INTERCEPTOR, checked: Some(true) });
    assert_eq!(menu[5], MenuEntry::Item { id: ID_TOGGLE_AUTOSTART, checked: Some(false) });
    for entry in &menu {
        if let MenuEntry::Item { id, .. } = entry {
            assert!(handle_command(*id).is_some());
        }
    }
    assert_eq!(handle_command(ID_OPEN_SETTINGS), Some(TrayCommand::OpenSettings));
    assert_eq!(handle_command(ID_OPEN_CONFIG), Some(TrayCommand::OpenConfig));
    assert_eq!(handle_command(ID_OPEN_CONFIG_DIR), Some(TrayCommand::OpenConfigDir));
    assert_eq!(handle_command(ID_EXIT), Some(TrayCommand::Exit));
    assert_eq!(handle_command(999), None);
}

#[test]
fn tray_messages_are_sorted() {
    assert_eq!(classify_tray_message(TRAY_MESSAGE, 0, WM_RBUTTONUP as isize, true), TrayMessageAction::ShowMenu);
    assert_eq!(classify_tray_message(TRAY_MESSAGE, 0, WM_LBUTTONDBLCLK as isize, true), TrayMessageAction::OpenSettings);
    assert_eq!(classify_tray_message(TRAY_MESSAGE, 0, 0x0200, true), TrayMessageAction::Ignore);
    assert_eq!(classify_tray_message(WM_COMMAND, 0x0001_03EE, 0, true), TrayMessageAction::Command(1006));
    assert_eq!(classify_tray_message(WM_DESTROY, 0, 0, true), TrayMessageAction::Quit);
    assert_eq!(classify_tray_message(WM_DESTROY, 0, 0, false), TrayMessageAction::Default);
    assert_eq!(classify_tray_message(0x000F, 0, 0, true), TrayMessageAction::Default);
}

#[test]
fn autostart_toggles() {
    assert!(!is_autostart_enabled(false, false));
    assert!(is_autostart_enabled(false, true));
    assert_eq!(toggle_autostart(false, false), AutostartPlan::CreateShortcut);
    assert_eq!(toggle_autostart(true, true), AutostartPlan::Remove { shortcut: true, bat: true });
    assert_eq!(toggle_autostart(false, true), AutostartPlan::Remove { shortcut: false, bat: true });
    assert_eq!(set_autostart(true, true, false), AutostartPlan::CreateShortcut);
}

#[test]
fn shortcut_script_matches_template() {
    let expected = format!(
        "$WshShell = New-Object -comObject WScript.Shell\n$Shortcut = $WshShell.CreateShortcut('{}')\n$Shortcut.TargetPath = '{}'\n$Shortcut.WorkingDirectory = '{}'\n$Shortcut.Description = 'IMK 输入法管理器'\n$Shortcut.Save()\n",
        "C:\\s\\IMK.lnk", "C:\\p\\imk.exe", "C:\\p"
    );
    assert_eq!(shortcut_script("C:\\s\\IMK.lnk", "C:\\p\\imk.exe", "C:\\p"), expected);
}

#[test]
fn tip_is_terminated_and_cut_to_capacity() {
    let text: Vec<u16> = "IMK 输入法管理器".encode_utf16().collect();
    let mut expected = text.clone();
    expected.push(0);
    assert_eq!(write_tip(&text, 128), expected);
    assert_eq!(write_tip(&text, 3), vec![text[0], text[1], text[2]]);
    assert_eq!(write_tip(&[], 4), vec![0]);
    assert_eq!(write_tip(&text, 0), Vec::<u16>::new());
}

#[test]
fn menu_labels() {
    assert_eq!(menu_label(ID_OPEN_SETTINGS), "打开设置");
    assert_eq!(menu_label(ID_OPEN_CONFIG), "打开配置文件");
    assert_eq!(menu_label(ID_OPEN_CONFIG_DIR), "打开配置文件夹");
    assert_eq!(menu_label(ID_TOGGLE_CAPS_INTERCEPTOR), "Caps 拦截");
    assert_eq!(menu_label(ID_TOGGLE_AUTOSTART), "开机自启");
    assert_eq!(menu_label(ID_EXIT), "退出");
    assert_eq!(menu_label(0), "");
}
