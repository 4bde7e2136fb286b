//! The tray: the picture shown there and what the entries of its menu do.

use vstd::prelude::*;

use crate::settings::Settings;

verus! {

/// The identifier of the menu entry that quits the agent.
pub const MENU_QUIT_ID: &'static str = "quit";

/// The identifier of the menu entry that switches the start at login.
pub const MENU_AUTO_START_ID: &'static str = "auto_start";

/// The identifier of the menu entry that switches the console.
pub const MENU_SHOW_CONSOLE_ID: &'static str = "show_console";

/// The identifier of the menu entry that opens the settings file.
pub const MENU_OPEN_CONFIG_ID: &'static str = "open_config";

/// The width and the height of the icon, in pixels.
pub const ICON_SIZE: usize = 64;

/// Whether the pixel in line `i` and column `j` lies in the disc: closer
/// than 28 pixels to the point (32, 32).
pub open spec fn in_disc(i: int, j: int) -> bool {
    (i - 32) * (i - 32) + (j - 32) * (j - 32) < 28 * 28
}

/// One byte of the icon: channel `channel` (red, green, blue, opacity) of
/// the pixel in line `i` and column `j`. The disc is red and opaque, the
/// rest is transparent.
pub open spec fn icon_byte(i: int, j: int, channel: int) -> u8 {
    if !in_disc(i, j) {
        0
    } else if channel == 0 {
        220
    } else if channel == 1 || channel == 2 {
        50
    } else {
        255
    }
}

/// The icon's bytes: its pixels line by line, four bytes each.
pub open spec fn icon_bytes(len: int) -> Seq<u8> {
    Seq::new(len as nat, |k: int| icon_byte(k / 256, k / 4 % 64, k % 4))
}

proof fn lemma_pixel_index(i: int, j: int, channel: int)
    requires
        0 <= i,
        0 <= j < 64,
        0 <= channel < 4,
    ensures
        (i * 256 + j * 4 + channel) / 256 == i,
        (i * 256 + j * 4 + channel) / 4 % 64 == j,
        (i * 256 + j * 4 + channel) % 4 == channel,
{
}

/// The bytes of the default icon: a red disc on a transparent square of 64
/// by 64 pixels, four bytes to the pixel.
pub fn create_default_icon() -> (rgba: Vec<u8>)
    ensures
        rgba@ == icon_bytes(16384),
{
    let mut rgba: Vec<u8> = Vec::with_capacity(ICON_SIZE * ICON_SIZE * 4);
    let mut i: usize = 0;
    while i < ICON_SIZE
        invariant
            i <= ICON_SIZE,
            rgba@ == icon_bytes(i * 256),
        decreases ICON_SIZE - i,
    {
        let mut j: usize = 0;
        while j < ICON_SIZE
            invariant
                i < ICON_SIZE,
                j <= ICON_SIZE,
                rgba@ == icon_bytes(i * 256 + j * 4),
            decreases ICON_SIZE - j,
        {
            let dx: i32 = i as i32 - 32;
            let dy: i32 = j as i32 - 32;
            assert(0 <= dx * dx <= 1024 && 0 <= dy * dy <= 1024) by (nonlinear_arith)
                requires
                    -32 <= dx < 32,
                    -32 <= dy < 32,
            ;
            if dx * dx + dy * dy < 28 * 28 {
                rgba.push(220);
                rgba.push(50);
                rgba.push(50);
                rgba.push(255);
            } else {
                rgba.push(0);
                rgba.push(0);
                rgba.push(0);
                rgba.push(0);
            }
            proof {
                lemma_pixel_index(i as int, j as int, 0);
                lemma_pixel_index(i as int, j as int, 1);
                lemma_pixel_index(i as int, j as int, 2);
                lemma_pixel_index(i as int, j as int, 3);
            }
            j += 1;
        }
        i += 1;
    }
    rgba
}

/// What the choice of a menu entry asks for.
#[derive(Debug, Clone, Copy, PartialEq, Eq, Structural)]
pub enum MenuAction {
    /// Leave the agent.
    Quit,
    /// Open the settings file.
    OpenConfig,
    /// The start at login was switched: it is now as given.
    AutoStart(bool),
    /// The console was switched: it is now as given.
    ShowConsole(bool),
    /// The entry is not one of the tray's.
    Ignore,
}

/// What choosing the entry `id` makes of `settings`: the two switches flip
/// their setting, every other entry leaves the settings alone.
pub open spec fn settings_after(settings: Settings, id: Seq<char>) -> Settings {
    if id == MENU_QUIT_ID@ || id == MENU_OPEN_CONFIG_ID@ {
        settings
    } else if id == MENU_AUTO_START_ID@ {
        Settings {
            auto_start: !settings.auto_start,
            show_console: settings.show_console,
            custom_status_template: settings.custom_status_template,
        }
    } else if id == MENU_SHOW_CONSOLE_ID@ {
        Settings {
            auto_start: settings.auto_start,
            show_console: !settings.show_console,
            custom_status_template: settings.custom_status_template,
        }
    } else {
        settings
    }
}

/// What choosing the entry `id` asks for, given the settings before.
pub open spec fn action_for(settings: Settings, id: Seq<char>) -> MenuAction {
    if id == MENU_QUIT_ID@ {
        MenuAction::Quit
    } else if id == MENU_OPEN_CONFIG_ID@ {
        MenuAction::OpenConfig
    } else if id == MENU_AUTO_START_ID@ {
        MenuAction::AutoStart(!settings.auto_start)
    } else if id == MENU_SHOW_CONSOLE_ID@ {
        MenuAction::ShowConsole(!settings.show_console)
    } else {
        MenuAction::Ignore
    }
}

fn same_text(a: &str, b: &str) -> (same: bool)
    ensures
        same == (a@ == b@),
{
    a.to_owned() == b.to_owned()
}

/// Reacts to the choice of the menu entry `id`: flips the setting that the
/// entry switches, and says what is to be done.
pub fn on_menu_event(settings: &mut Settings, id: &str) -> (action: MenuAction)
    ensures
        *final(settings) == settings_after(*old(settings), id@),
        action == action_for(*old(settings), id@),
{
    if same_text(id, MENU_QUIT_ID) {
        MenuAction::Quit
    } else if same_text(id, MENU_OPEN_CONFIG_ID) {
        MenuAction::OpenConfig
    } else if same_text(id, MENU_AUTO_START_ID) {
        settings.auto_start = !settings.auto_start;
        MenuAction::AutoStart(settings.auto_start)
    } else if same_text(id, MENU_SHOW_CONSOLE_ID) {
        settings.show_console = !settings.show_console;
        MenuAction::ShowConsole(settings.show_console)
    } else {
        MenuAction::Ignore
    }
}

} // verus!
