//! Application states and the decisions of the main menu.
use vstd::prelude::*;

verus! {

/// Number of buttons of the main menu: play, then quit.
pub const MENU_BUTTONS: i32 = 2;

#[derive(Clone, Copy, Debug, PartialEq, Eq, Structural, Hash)]
pub enum AppState {
    Boot,
    Menu,
    InGame,
}

/// What a click on the main menu does.
#[derive(Clone, Copy, Debug, PartialEq, Eq, Structural)]
pub enum MenuChoice {
    StartGame,
    Exit,
}

/// What one frame of the main menu decided.
#[derive(Clone, Copy, Debug, PartialEq, Eq, Structural)]
pub struct MenuStep {
    /// The button selected after the frame.
    pub selected: i32,
    /// Whether the selection changed, which plays a click and animates the
    /// two buttons concerned.
    pub changed: bool,
    pub choice: Option<MenuChoice>,
}

/// The selection after the next and previous keys.
pub open spec fn menu_key_selection(selected: int, next: bool, prev: bool) -> int {
    let a = if next {
        if selected + 1 < MENU_BUTTONS - 1 {
            selected + 1
        } else {
            MENU_BUTTONS - 1
        }
    } else {
        selected
    };
    if prev {
        if a - 1 > 0 {
            a - 1
        } else {
            0
        }
    } else {
        a
    }
}

/// The state that follows `state` once the boot frame has run.
pub fn boot(state: AppState) -> (r: AppState)
    ensures
        r == if state == AppState::Boot {
            AppState::Menu
        } else {
            state
        },
{
    if state == AppState::Boot {
        AppState::Menu
    } else {
        state
    }
}

/// One frame of the main menu with `selected` the selected button: the next
/// and previous keys move the selection within the buttons, the cursor over a
/// button selects it, and a click starts the game on the first button or
/// quits on the second.
pub fn menu_run(selected: i32, next: bool, prev: bool, hovered: Option<i32>, click: bool) -> (r:
    MenuStep)
    requires
        0 <= selected < MENU_BUTTONS,
        hovered matches Some(h) ==> 0 <= h < MENU_BUTTONS,
    ensures
        r.selected == match hovered {
            Some(h) => h as int,
            None => menu_key_selection(selected as int, next, prev),
        },
        0 <= r.selected < MENU_BUTTONS,
        r.changed == (r.selected != selected),
        r.choice == if !click {
            None
        } else if r.selected == 0 {
            Some(MenuChoice::StartGame)
        } else {
            Some(MenuChoice::Exit)
        },
{
    let mut s = selected;
    if next {
        s = if s + 1 < MENU_BUTTONS - 1 {
            s + 1
        } else {
            MENU_BUTTONS - 1
        };
    }
    if prev {
        s = if s - 1 > 0 {
            s - 1
        } else {
            0
        };
    }
    if let Some(h) = hovered {
        s = h;
    }
    let choice = if !click {
        None
    } else if s == 0 {
        Some(MenuChoice::StartGame)
    } else {
        Some(MenuChoice::Exit)
    };
    MenuStep { selected: s, changed: s != selected, choice }
}

} // verus!
