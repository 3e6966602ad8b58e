use vstd::prelude::*;
use crate::text::{chars_of, spells};

verus! {

/// What a tray menu entry asks for.
#[derive(Debug, Clone, Copy, PartialEq, Eq, Structural)]
pub enum TrayAction {
    OpenSettings,
    Quit,
}

/// The tray action of a menu entry id.
pub open spec fn tray_action_for(id: Seq<char>) -> Option<TrayAction> {
    if id == "settings"@ {
        Some(TrayAction::OpenSettings)
    } else if id == "quit"@ {
        Some(TrayAction::Quit)
    } else {
        None
    }
}

/// The action of the tray menu entry with this id; other ids do nothing.
pub fn menu_action(id: &str) -> (action: Option<TrayAction>)
    ensures
        action == tray_action_for(id@),
{
    let c = chars_of(id);
    if spells(c.as_slice(), "settings") {
        Some(TrayAction::OpenSettings)
    } else if spells(c.as_slice(), "quit") {
        Some(TrayAction::Quit)
    } else {
        None
    }
}

/// When saving settings changes "launch at login", the new value to give the autostart
/// entry (`true` enables it); `None` when the setting did not change.
pub fn autostart_change(was_enabled: bool, enable: bool) -> (change: Option<bool>)
    ensures
        change == (if was_enabled == enable {
            None::<bool>
        } else {
            Some(enable)
        }),
{
    if was_enabled == enable {
        None
    } else {
        Some(enable)
    }
}

/// Whether a request to exit is refused: the app stays in the tray when its last window
/// closes (no exit code), and exits when asked to explicitly (with an exit code).
pub fn keeps_running(exit_code: Option<i32>) -> (keep: bool)
    ensures
        keep == (exit_code is None),
{
    exit_code.is_none()
}

/// Number of right-button events a replayed right-click sends (a press and a release).
pub const REPLAYED_EVENTS: u32 = 2;

/// How many times a replay checks whether its events came back before giving up.
pub const REPLAY_POLLS: u32 = 20;

/// The next move while waiting for replayed events to come back through the event callback.
#[derive(Debug, Clone, Copy, PartialEq, Eq, Structural)]
pub enum ReplayPoll {
    /// Every replayed event came back.
    Finished,
    /// Wait a little and check again.
    WaitAgain,
    /// Stop waiting and clear the count of expected events.
    GiveUp,
}

/// After `polls_done` checks, with `pending` replayed events not yet seen: finished when none
/// is pending, waiting while fewer than `REPLAY_POLLS` checks were made, giving up after that.
pub fn replay_poll(polls_done: u32, pending: u32) -> (next: ReplayPoll)
    ensures
        next == (if pending == 0 {
            ReplayPoll::Finished
        } else if polls_done < REPLAY_POLLS {
            ReplayPoll::WaitAgain
        } else {
            ReplayPoll::GiveUp
        }),
{
    if pending == 0 {
        ReplayPoll::Finished
    } else if polls_done < REPLAY_POLLS {
        ReplayPoll::WaitAgain
    } else {
        ReplayPoll::GiveUp
    }
}

/// Whether a replay waits for its events: only when both simulated events were sent;
/// otherwise the count of expected events is cleared at once.
pub fn replay_waits(press_sent: bool, release_sent: bool) -> (wait: bool)
    ensures
        wait == (press_sent && release_sent),
{
    press_sent && release_sent
}

/// The tray menu's entries: "settings" opens the settings window and "quit" quits.
pub proof fn lemma_tray_entries()
    ensures
        tray_action_for("settings"@) == Some(TrayAction::OpenSettings),
        tray_action_for("quit"@) == Some(TrayAction::Quit),
        tray_action_for("Quit"@) is None,
{
    reveal_strlit("settings");
    assert("settings"@.len() == 8);
    assert("settings"@[0] == 's');
    assert("settings"@[1] == 'e');
    assert("settings"@[2] == 't');
    assert("settings"@[3] == 't');
    assert("settings"@[4] == 'i');
    assert("settings"@[5] == 'n');
    assert("settings"@[6] == 'g');
    assert("settings"@[7] == 's');
    reveal_strlit("quit");
    assert("quit"@.len() == 4);
    assert("quit"@[0] == 'q');
    assert("quit"@[1] == 'u');
    assert("quit"@[2] == 'i');
    assert("quit"@[3] == 't');
    reveal_strlit("Quit");
    assert("Quit"@.len() == 4);
    assert("Quit"@[0] == 'Q');
    assert("Quit"@[1] == 'u');
    assert("Quit"@[2] == 'i');
    assert("Quit"@[3] == 't');
}

} // verus!
