use vstd::prelude::*;

use crate::kernel::ControlEvent;

verus! {

/// Image width in pixels.
pub const WIDTH: u32 = 1024;

/// Image height in pixels.
pub const HEIGHT: u32 = 768;

/// Most window refreshes per second.
pub const FPS_LIMIT: u64 = 10;

pub const LOAD_SCENE_BTN: usize = 0;

pub const START_BTN: usize = 1;

pub const PAUSE_BTN: usize = 2;

pub const SAVE_BTN: usize = 3;

/// Window title while the window is being set up.
pub const INIT_TITLE: &'static str = "Pharosa (initializing...)";

/// Where a saved image goes.
pub const SAVE_PATH: &'static str = "result.png";

/// A key that, held with the platform's menu modifier, triggers a menu item.
#[derive(Debug, Clone, Copy, PartialEq, Eq, Structural)]
pub enum ShortcutKey {
    N,
    Enter,
    Period,
    S,
}

/// One line of a menu.
#[derive(Debug, Clone, Copy)]
pub enum MenuEntry {
    Item { label: &'static str, id: usize, shortcut: ShortcutKey },
    Separator,
}

/// A menu of the window's menu bar.
#[derive(Debug)]
pub struct MenuSetup {
    pub title: &'static str,
    pub entries: Vec<MenuEntry>,
}

/// Everything needed to open the render window.
#[derive(Debug)]
pub struct WindowSetup {
    pub title: &'static str,
    pub width: usize,
    pub height: usize,
    /// Least time between two refreshes, in microseconds.
    pub frame_interval_micros: u64,
    pub menus: Vec<MenuSetup>,
}

/// The entries of the "Control" menu.
pub open spec fn control_entries() -> Seq<MenuEntry> {
    seq![
        MenuEntry::Item { label: "Load Scene", id: LOAD_SCENE_BTN, shortcut: ShortcutKey::N },
        MenuEntry::Separator,
        MenuEntry::Item { label: "Start Rendering", id: START_BTN, shortcut: ShortcutKey::Enter },
        MenuEntry::Item { label: "Pause Rendering", id: PAUSE_BTN, shortcut: ShortcutKey::Period },
        MenuEntry::Separator,
        MenuEntry::Item { label: "Save", id: SAVE_BTN, shortcut: ShortcutKey::S },
    ]
}

/// The render window: `WIDTH` by `HEIGHT`, refreshed at most `FPS_LIMIT` times a second,
/// with a "Control" menu to load, start, pause and save, and an empty "Help" menu.
pub fn setup_window() -> (r: WindowSetup)
    ensures
        r.title == INIT_TITLE,
        r.width == WIDTH,
        r.height == HEIGHT,
        r.frame_interval_micros == 1_000_000u64 / FPS_LIMIT,
        r.menus@.len() == 2,
        r.menus@[0].title == "Control",
        r.menus@[0].entries@ == control_entries(),
        r.menus@[1].title == "Help",
        r.menus@[1].entries@.len() == 0,
{
    let mut control: Vec<MenuEntry> = Vec::new();
    control.push(MenuEntry::Item { label: "Load Scene", id: LOAD_SCENE_BTN, shortcut: ShortcutKey::N });
    control.push(MenuEntry::Separator);
    control.push(
        MenuEntry::Item { label: "Start Rendering", id: START_BTN, shortcut: ShortcutKey::Enter },
    );
    control.push(
        MenuEntry::Item { label: "Pause Rendering", id: PAUSE_BTN, shortcut: ShortcutKey::Period },
    );
    control.push(MenuEntry::Separator);
    control.push(MenuEntry::Item { label: "Save", id: SAVE_BTN, shortcut: ShortcutKey::S });
    assert(control@ =~= control_entries());
    let mut menus: Vec<MenuSetup> = Vec::new();
    menus.push(MenuSetup { title: "Control", entries: control });
    menus.push(MenuSetup { title: "Help", entries: Vec::new() });
    WindowSetup {
        title: INIT_TITLE,
        width: WIDTH as usize,
        height: HEIGHT as usize,
        frame_interval_micros: 1_000_000 / FPS_LIMIT,
        menus,
    }
}

/// What a menu item asks for.
#[derive(Debug, Clone, Copy, PartialEq, Eq, Structural)]
pub enum MenuAction {
    LoadScene,
    Control(ControlEvent),
    Save,
}

/// The action of the menu item with identifier `id`, if there is such an item.
pub open spec fn menu_action_of(id: usize) -> Option<MenuAction> {
    if id == LOAD_SCENE_BTN {
        Some(MenuAction::LoadScene)
    } else if id == START_BTN {
        Some(MenuAction::Control(ControlEvent::StartPressed))
    } else if id == PAUSE_BTN {
        Some(MenuAction::Control(ControlEvent::PausePressed))
    } else if id == SAVE_BTN {
        Some(MenuAction::Save)
    } else {
        None
    }
}

/// Decodes a menu item identifier.
pub fn menu_action(id: usize) -> (r: Option<MenuAction>)
    ensures
        r == menu_action_of(id),
{
    if id == LOAD_SCENE_BTN {
        Some(MenuAction::LoadScene)
    } else if id == START_BTN {
        Some(MenuAction::Control(ControlEvent::StartPressed))
    } else if id == PAUSE_BTN {
        Some(MenuAction::Control(ControlEvent::PausePressed))
    } else if id == SAVE_BTN {
        Some(MenuAction::Save)
    } else {
        None
    }
}

/// A key that moves the camera.
#[derive(Debug, Clone, Copy, PartialEq, Eq, Structural)]
pub enum MoveKey {
    W,
    S,
    A,
    D,
    Space,
    Shift,
    Left,
    Right,
    Up,
    Down,
    Q,
    E,
}

/// An axis of the camera's own frame: `X` points to the screen's right, `Y` up, and `Z`
/// towards the viewer.
#[derive(Debug, Clone, Copy, PartialEq, Eq, Structural)]
pub enum Axis {
    X,
    Y,
    Z,
}

/// One step of camera motion, along or about an axis of the camera's frame.
#[derive(Debug, Clone, Copy, PartialEq, Eq, Structural)]
pub enum CameraMove {
    Translate { axis: Axis, positive: bool },
    Rotate { axis: Axis, positive: bool },
}

/// The motion bound to `key`: W/S move forward and back, A/D left and right, Space and
/// Shift up and down; the arrows turn about the vertical and horizontal axes, Q/E roll.
pub open spec fn move_of(key: MoveKey) -> CameraMove {
    match key {
        MoveKey::W => CameraMove::Translate { axis: Axis::Z, positive: false },
        MoveKey::S => CameraMove::Translate { axis: Axis::Z, positive: true },
        MoveKey::A => CameraMove::Translate { axis: Axis::X, positive: false },
        MoveKey::D => CameraMove::Translate { axis: Axis::X, positive: true },
        MoveKey::Space => CameraMove::Translate { axis: Axis::Y, positive: true },
        MoveKey::Shift => CameraMove::Translate { axis: Axis::Y, positive: false },
        MoveKey::Left => CameraMove::Rotate { axis: Axis::Y, positive: true },
        MoveKey::Right => CameraMove::Rotate { axis: Axis::Y, positive: false },
        MoveKey::Up => CameraMove::Rotate { axis: Axis::X, positive: true },
        MoveKey::Down => CameraMove::Rotate { axis: Axis::X, positive: false },
        MoveKey::Q => CameraMove::Rotate { axis: Axis::Z, positive: true },
        MoveKey::E => CameraMove::Rotate { axis: Axis::Z, positive: false },
    }
}

/// The camera motion bound to `key`.
pub fn camera_move(key: MoveKey) -> (r: CameraMove)
    ensures
        r == move_of(key),
{
    match key {
        MoveKey::W => CameraMove::Translate { axis: Axis::Z, positive: false },
        MoveKey::S => CameraMove::Translate { axis: Axis::Z, positive: true },
        MoveKey::A => CameraMove::Translate { axis: Axis::X, positive: false },
        MoveKey::D => CameraMove::Translate { axis: Axis::X, positive: true },
        MoveKey::Space => CameraMove::Translate { axis: Axis::Y, positive: true },
        MoveKey::Shift => CameraMove::Translate { axis: Axis::Y, positive: false },
        MoveKey::Left => CameraMove::Rotate { axis: Axis::Y, positive: true },
        MoveKey::Right => CameraMove::Rotate { axis: Axis::Y, positive: false },
        MoveKey::Up => CameraMove::Rotate { axis: Axis::X, positive: true },
        MoveKey::Down => CameraMove::Rotate { axis: Axis::X, positive: false },
        MoveKey::Q => CameraMove::Rotate { axis: Axis::Z, positive: true },
        MoveKey::E => CameraMove::Rotate { axis: Axis::Z, positive: false },
    }
}

} // verus!
