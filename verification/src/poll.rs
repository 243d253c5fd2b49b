//! When the headset is polled, and which picture shows a battery level.

use crate::scaling::PERCENT_MAX;
use vstd::prelude::*;

verus! {

/// Seconds between two polls when nothing else happens.
pub const READ_INTERVAL_SEC: u64 = 2;

/// Number of pictures: one for each level from 0 to `PERCENT_MAX`.
pub const ICON_COUNT: usize = 101;

/// An entry of the tray menu.
#[derive(Clone, Copy, Debug, PartialEq, Eq, Structural)]
pub enum MenuChoice {
    Refresh,
    Quit,
}

/// What the program does when its event loop wakes up.
#[derive(Clone, Copy, Debug, PartialEq, Eq, Structural)]
pub enum PollAction {
    /// Nothing: wait for the next event.
    Wait,
    /// Poll the headset and show the result.
    Refresh,
    /// Leave the program.
    Quit,
}

/// The rule of `on_wake`: leaving comes first, then a poll is due when the
/// waiting time is over or the user asks for one.
pub open spec fn on_wake_spec(timer_elapsed: bool, menu: Option<MenuChoice>) -> PollAction {
    if menu == Some(MenuChoice::Quit) {
        PollAction::Quit
    } else if timer_elapsed || menu == Some(MenuChoice::Refresh) {
        PollAction::Refresh
    } else {
        PollAction::Wait
    }
}

/// Decides what to do when the event loop wakes up: `timer_elapsed` says
/// whether the waiting time is over, `menu` which menu entry was chosen, if
/// any.
pub fn on_wake(timer_elapsed: bool, menu: Option<MenuChoice>) -> (action: PollAction)
    ensures
        action == on_wake_spec(timer_elapsed, menu),
{
    match menu {
        Some(MenuChoice::Quit) => PollAction::Quit,
        Some(MenuChoice::Refresh) => PollAction::Refresh,
        None => if timer_elapsed {
            PollAction::Refresh
        } else {
            PollAction::Wait
        },
    }
}

/// The number of the picture that shows the level `percent`: the level
/// itself, and the last picture for anything above `PERCENT_MAX`.
pub fn icon_index(percent: u8) -> (index: usize)
    ensures
        index == if percent <= PERCENT_MAX {
            percent as int
        } else {
            PERCENT_MAX as int
        },
        index < ICON_COUNT,
{
    if percent > PERCENT_MAX {
        PERCENT_MAX as usize
    } else {
        percent as usize
    }
}

} // verus!
