use vstd::prelude::*;

verus! {

/// First message number free for applications.
pub const WM_APP: u32 = 0x8000;

/// Message the tray icon sends to its window.
pub const TRAY_MESSAGE: u32 = WM_APP + 1;

/// Id of the one tray icon.
pub const TRAY_ID: u32 = 1;

/// Message number of a menu command.
pub const WM_COMMAND: u32 = 0x0111;

/// Message number telling a window it is being destroyed.
pub const WM_DESTROY: u32 = 0x0002;

/// Mouse event: right button released.
pub const WM_RBUTTONUP: u32 = 0x0205;

/// Mouse event: left button double click.
pub const WM_LBUTTONDBLCLK: u32 = 0x0203;

pub const ID_OPEN_SETTINGS: usize = 1001;
pub const ID_OPEN_CONFIG: usize = 1002;
pub const ID_OPEN_CONFIG_DIR: usize = 1003;
pub const ID_TOGGLE_CAPS_INTERCEPTOR: usize = 1004;
pub const ID_TOGGLE_AUTOSTART: usize = 1005;
pub const ID_EXIT: usize = 1006;

/// A command of the tray menu.
#[derive(Debug, Clone, Copy, PartialEq, Eq, Structural)]
pub enum TrayCommand {
    OpenSettings,
    OpenConfig,
    OpenConfigDir,
    ToggleCapsInterceptor,
    ToggleAutostart,
    Exit,
}

pub open spec fn spec_command_for_id(id: usize) -> Option<TrayCommand> {
    if id == ID_OPEN_SETTINGS {
        Some(TrayCommand::OpenSettings)
    } else if id == ID_OPEN_CONFIG {
        Some(TrayCommand::OpenConfig)
    } else if id == ID_OPEN_CONFIG_DIR {
        Some(TrayCommand::OpenConfigDir)
    } else if id == ID_TOGGLE_CAPS_INTERCEPTOR {
        Some(TrayCommand::ToggleCapsInterceptor)
    } else if id == ID_TOGGLE_AUTOSTART {
        Some(TrayCommand::ToggleAutostart)
    } else if id == ID_EXIT {
        Some(TrayCommand::Exit)
    } else {
        None
    }
}

pub open spec fn spec_command_id(cmd: TrayCommand) -> usize {
    match cmd {
        TrayCommand::OpenSettings => ID_OPEN_SETTINGS,
        TrayCommand::OpenConfig => ID_OPEN_CONFIG,
        TrayCommand::OpenConfigDir => ID_OPEN_CONFIG_DIR,
        TrayCommand::ToggleCapsInterceptor => ID_TOGGLE_CAPS_INTERCEPTOR,
        TrayCommand::ToggleAutostart => ID_TOGGLE_AUTOSTART,
        TrayCommand::Exit => ID_EXIT,
    }
}

/// The command of a menu item id; `None` for an id the menu does not have.
pub fn handle_command(id: usize) -> (cmd: Option<TrayCommand>)
    ensures
        cmd == spec_command_for_id(id),
{
    if id == ID_OPEN_SETTINGS {
        Some(TrayCommand::OpenSettings)
    } else if id == ID_OPEN_CONFIG {
        Some(TrayCommand::OpenConfig)
    } else if id == ID_OPEN_CONFIG_DIR {
        Some(TrayCommand::OpenConfigDir)
    } else if id == ID_TOGGLE_CAPS_INTERCEPTOR {
        Some(TrayCommand::ToggleCapsInterceptor)
    } else if id == ID_TOGGLE_AUTOSTART {
        Some(TrayCommand::ToggleAutostart)
    } else if id == ID_EXIT {
        Some(TrayCommand::Exit)
    } else {
        None
    }
}

/// Each command's id leads back to that command.
pub proof fn lemma_command_id_roundtrip(cmd: TrayCommand)
    ensures
        spec_command_for_id(spec_command_id(cmd)) == Some(cmd),
{
}

/// An entry of the tray menu. `checked` is `None` for a plain item and
/// `Some(state)` for an item with a check mark.
#[derive(Debug, Clone, Copy, PartialEq, Eq)]
pub enum MenuEntry {
    Item { id: usize, checked: Option<bool> },
    Separator,
}

pub open spec fn spec_menu_entries(caps_enabled: bool, autostart_enabled: bool) -> Seq<MenuEntry> {
    seq![
        MenuEntry::Item { id: ID_OPEN_SETTINGS, checked: None },
        MenuEntry::Item { id: ID_OPEN_CONFIG, checked: None },
        MenuEntry::Item { id: ID_OPEN_CONFIG_DIR, checked: None },
        MenuEntry::Separator,
        MenuEntry::Item { id: ID_TOGGLE_CAPS_INTERCEPTOR, checked: Some(caps_enabled) },
        MenuEntry::Item { id: ID_TOGGLE_AUTOSTART, checked: Some(autostart_enabled) },
        MenuEntry::Separator,
        MenuEntry::Item { id: ID_EXIT, checked: None },
    ]
}

/// The entries of the tray menu, in order, with the two toggles checked after
/// the current states.
pub fn build_menu(caps_enabled: bool, autostart_enabled: bool) -> (entries: Vec<MenuEntry>)
    ensures
        entries@ == spec_menu_entries(caps_enabled, autostart_enabled),
{
    let mut v: Vec<MenuEntry> = Vec::new();
    v.push(MenuEntry::Item { id: ID_OPEN_SETTINGS, checked: None });
    v.push(MenuEntry::Item { id: ID_OPEN_CONFIG, checked: None });
    v.push(MenuEntry::Item { id: ID_OPEN_CONFIG_DIR, checked: None });
    v.push(MenuEntry::Separator);
    v.push(MenuEntry::Item { id: ID_TOGGLE_CAPS_INTERCEPTOR, checked: Some(caps_enabled) });
    v.push(MenuEntry::Item { id: ID_TOGGLE_AUTOSTART, checked: Some(autostart_enabled) });
    v.push(MenuEntry::Separator);
    v.push(MenuEntry::Item { id: ID_EXIT, checked: None });
    assert(v@ =~= spec_menu_entries(caps_enabled, autostart_enabled));
    v
}

/// Whether the menu has an item with this id.
pub open spec fn menu_has_item(m: Seq<MenuEntry>, id: usize) -> bool {
    exists|i: int| 0 <= i < m.len() && #[trigger] m[i] == (MenuEntry::Item { id, checked: m[i]->checked })
}

/// The text shown for the menu item `id` (empty for any other id).
pub open spec fn spec_menu_label(id: usize) -> Seq<char> {
    if id == ID_OPEN_SETTINGS {
        "打开设置"@
    } else if id == ID_OPEN_CONFIG {
        "打开配置文件"@
    } else if id == ID_OPEN_CONFIG_DIR {
        "打开配置文件夹"@
    } else if id == ID_TOGGLE_CAPS_INTERCEPTOR {
        "Caps 拦截"@
    } else if id == ID_TOGGLE_AUTOSTART {
        "开机自启"@
    } else if id == ID_EXIT {
        "退出"@
    } else {
        ""@
    }
}

/// The text of the menu item `id`.
pub fn menu_label(id: usize) -> (label: &'static str)
    ensures
        label@ == spec_menu_label(id),
{
    if id == ID_OPEN_SETTINGS {
        "打开设置"
    } else if id == ID_OPEN_CONFIG {
        "打开配置文件"
    } else if id == ID_OPEN_CONFIG_DIR {
        "打开配置文件夹"
    } else if id == ID_TOGGLE_CAPS_INTERCEPTOR {
        "Caps 拦截"
    } else if id == ID_TOGGLE_AUTOSTART {
        "开机自启"
    } else if id == ID_EXIT {
        "退出"
    } else {
        ""
    }
}

/// Every item of the menu has a command, each command has an item in the menu,
/// and the two check marks show the states they were built from.
pub proof fn lemma_menu_matches_commands(caps_enabled: bool, autostart_enabled: bool)
    ensures
        forall|i: int| 0 <= i < spec_menu_entries(caps_enabled, autostart_enabled).len() ==>
            (#[trigger] spec_menu_entries(caps_enabled, autostart_enabled)[i] matches MenuEntry::Item { id, .. }
                ==> spec_command_for_id(id) is Some),
        forall|cmd: TrayCommand| menu_has_item(spec_menu_entries(caps_enabled, autostart_enabled), #[trigger] spec_command_id(cmd)),
        spec_menu_entries(caps_enabled, autostart_enabled)[4] == (MenuEntry::Item { id: ID_TOGGLE_CAPS_INTERCEPTOR, checked: Some(caps_enabled) }),
        spec_menu_entries(caps_enabled, autostart_enabled)[5] == (MenuEntry::Item { id: ID_TOGGLE_AUTOSTART, checked: Some(autostart_enabled) }),
{
    let m = spec_menu_entries(caps_enabled, autostart_enabled);
    assert forall|cmd: TrayCommand| menu_has_item(m, #[trigger] spec_command_id(cmd)) by {
        let k: int = match cmd {
            TrayCommand::OpenSettings => 0,
            TrayCommand::OpenConfig => 1,
            TrayCommand::OpenConfigDir => 2,
            TrayCommand::ToggleCapsInterceptor => 4,
            TrayCommand::ToggleAutostart => 5,
            TrayCommand::Exit => 7,
        };
        assert(m[k] == (MenuEntry::Item { id: spec_command_id(cmd), checked: m[k]->checked }));
    }
}

/// What the tray window does with a message.
#[derive(Debug, Clone, Copy, PartialEq, Eq)]
pub enum TrayMessageAction {
    /// Right click on the icon: show the menu.
    ShowMenu,
    /// Double click on the icon: open the settings.
    OpenSettings,
    /// Another icon event: nothing to do, the message is handled.
    Ignore,
    /// A menu command with this item id.
    Command(usize),
    /// The window is going away: end the message loop.
    Quit,
    /// Anything else goes to the default window procedure.
    Default,
}

pub open spec fn spec_tray_message_action(msg: u32, wparam: usize, lparam: isize, has_state: bool) -> TrayMessageAction {
    if !has_state {
        TrayMessageAction::Default
    } else if msg == TRAY_MESSAGE {
        let event = lparam as u32;
        if event == WM_RBUTTONUP {
            TrayMessageAction::ShowMenu
        } else if event == WM_LBUTTONDBLCLK {
            TrayMessageAction::OpenSettings
        } else {
            TrayMessageAction::Ignore
        }
    } else if msg == WM_COMMAND {
        TrayMessageAction::Command(wparam & 0xffff)
    } else if msg == WM_DESTROY {
        TrayMessageAction::Quit
    } else {
        TrayMessageAction::Default
    }
}

/// Sorts a message of the tray window; `has_state` says whether the window's
/// state is attached yet.
pub fn classify_tray_message(msg: u32, wparam: usize, lparam: isize, has_state: bool) -> (action: TrayMessageAction)
    ensures
        action == spec_tray_message_action(msg, wparam, lparam, has_state),
{
    if !has_state {
        return TrayMessageAction::Default;
    }
    if msg == TRAY_MESSAGE {
        let event = lparam as u32;
        if event == WM_RBUTTONUP {
            TrayMessageAction::ShowMenu
        } else if event == WM_LBUTTONDBLCLK {
            TrayMessageAction::OpenSettings
        } else {
            TrayMessageAction::Ignore
        }
    } else if msg == WM_COMMAND {
        TrayMessageAction::Command(wparam & 0xffff)
    } else if msg == WM_DESTROY {
        TrayMessageAction::Quit
    } else {
        TrayMessageAction::Default
    }
}

/// For a tray-icon message with the state attached, the menu is shown exactly on
/// a right-button release, the settings open exactly on a left double click,
/// and every other mouse event is only acknowledged.
pub proof fn lemma_tray_icon_events(wparam: usize, lparam: isize)
    ensures
        (spec_tray_message_action(TRAY_MESSAGE, wparam, lparam, true) == TrayMessageAction::ShowMenu)
            == (lparam as u32 == 0x0205u32),
        (spec_tray_message_action(TRAY_MESSAGE, wparam, lparam, true) == TrayMessageAction::OpenSettings)
            == (lparam as u32 == 0x0203u32),
        (spec_tray_message_action(TRAY_MESSAGE, wparam, lparam, true) == TrayMessageAction::Ignore)
            == (lparam as u32 != 0x0205u32 && lparam as u32 != 0x0203u32),
{
}

/// Autostart is on when either of the two startup files exists.
pub open spec fn spec_autostart_enabled(shortcut_exists: bool, bat_exists: bool) -> bool {
    shortcut_exists || bat_exists
}

/// Whether autostart is on, given which startup files exist.
pub fn is_autostart_enabled(shortcut_exists: bool, bat_exists: bool) -> (r: bool)
    ensures
        r == spec_autostart_enabled(shortcut_exists, bat_exists),
{
    shortcut_exists || bat_exists
}

/// The file work that turns autostart on or off.
#[derive(Debug, Clone, Copy, PartialEq, Eq)]
pub enum AutostartPlan {
    /// Create the startup shortcut.
    CreateShortcut,
    /// Remove the startup files marked `true`.
    Remove { shortcut: bool, bat: bool },
}

pub open spec fn spec_autostart_plan(enable: bool, shortcut_exists: bool, bat_exists: bool) -> AutostartPlan {
    if enable {
        AutostartPlan::CreateShortcut
    } else {
        AutostartPlan::Remove { shortcut: shortcut_exists, bat: bat_exists }
    }
}

/// Which startup files exist after a plan is carried out.
pub open spec fn files_after(plan: AutostartPlan, shortcut_exists: bool, bat_exists: bool) -> (bool, bool) {
    match plan {
        AutostartPlan::CreateShortcut => (true, bat_exists),
        AutostartPlan::Remove { shortcut, bat } => (shortcut_exists && !shortcut, bat_exists && !bat),
    }
}

/// The work that sets autostart to `enable`: create the shortcut, or remove
/// whichever startup files exist.
pub fn set_autostart(enable: bool, shortcut_exists: bool, bat_exists: bool) -> (plan: AutostartPlan)
    ensures
        plan == spec_autostart_plan(enable, shortcut_exists, bat_exists),
{
    if enable {
        AutostartPlan::CreateShortcut
    } else {
        AutostartPlan::Remove { shortcut: shortcut_exists, bat: bat_exists }
    }
}

/// The work that flips autostart.
pub fn toggle_autostart(shortcut_exists: bool, bat_exists: bool) -> (plan: AutostartPlan)
    ensures
        plan == spec_autostart_plan(!spec_autostart_enabled(shortcut_exists, bat_exists), shortcut_exists, bat_exists),
{
    let enable = !is_autostart_enabled(shortcut_exists, bat_exists);
    set_autostart(enable, shortcut_exists, bat_exists)
}

/// Carrying out `set_autostart(enable, ..)` leaves autostart in the state
/// `enable`; so toggling flips it.
pub proof fn lemma_autostart_plan_reaches_target(enable: bool, shortcut_exists: bool, bat_exists: bool)
    ensures
        ({
            let after = files_after(spec_autostart_plan(enable, shortcut_exists, bat_exists), shortcut_exists, bat_exists);
            spec_autostart_enabled(after.0, after.1) == enable
        }),
        ({
            let plan = spec_autostart_plan(!spec_autostart_enabled(shortcut_exists, bat_exists), shortcut_exists, bat_exists);
            let after = files_after(plan, shortcut_exists, bat_exists);
            spec_autostart_enabled(after.0, after.1) == !spec_autostart_enabled(shortcut_exists, bat_exists)
        }),
{
}

/// The tooltip text as stored in a fixed buffer of `capacity` UTF-16 units:
/// the text followed by a terminating zero, cut to the capacity.
pub open spec fn spec_tip_units(text: Seq<u16>, capacity: usize) -> Seq<u16> {
    let wide = text.push(0u16);
    if wide.len() <= capacity { wide } else { wide.take(capacity as int) }
}

/// The UTF-16 units to copy into the tooltip buffer of `capacity` units.
pub fn write_tip(text: &[u16], capacity: usize) -> (units: Vec<u16>)
    requires
        text@.len() < usize::MAX,
    ensures
        units@ == spec_tip_units(text@, capacity),
{
    let mut units: Vec<u16> = Vec::new();
    let total = text.len() + 1;
    let max = if capacity < total { capacity } else { total };
    let mut i: usize = 0;
    while i < max
        invariant
            max <= total,
            total == text@.len() + 1,
            0 <= i <= max,
            units@ =~= text@.push(0u16).take(i as int),
        decreases max - i,
    {
        if i < text.len() {
            units.push(text[i]);
        } else {
            units.push(0u16);
        }
        i = i + 1;
    }
    assert(text@.push(0u16).take(total as int) =~= text@.push(0u16));
    units
}

/// The PowerShell script that creates the startup shortcut at `shortcut`,
/// pointing at `exe` and starting in `workdir`.
pub fn shortcut_script(shortcut: &str, exe: &str, workdir: &str) -> (script: String)
    ensures
        script@ == "$WshShell = New-Object -comObject WScript.Shell\n$Shortcut = $WshShell.CreateShortcut('"@
            + shortcut@ + "')\n$Shortcut.TargetPath = '"@ + exe@ + "'\n$Shortcut.WorkingDirectory = '"@
            + workdir@ + "'\n$Shortcut.Description = 'IMK 输入法管理器'\n$Shortcut.Save()\n"@,
{
    let mut script = String::new();
    script.append("$WshShell = New-Object -comObject WScript.Shell\n$Shortcut = $WshShell.CreateShortcut('");
    script.append(shortcut);
    script.append("')\n$Shortcut.TargetPath = '");
    script.append(exe);
    script.append("'\n$Shortcut.WorkingDirectory = '");
    script.append(workdir);
    script.append("'\n$Shortcut.Description = 'IMK 输入法管理器'\n$Shortcut.Save()\n");
    script
}

} // verus!
