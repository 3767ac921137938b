//! The dungeon screen's state machine.
use vstd::prelude::*;

use super::minimap::RoomType;
use super::navigation::compass_move;
use super::navigation::spec_compass_move;
use super::navigation::Exits;
use crate::command::CmdOutcome;
use crate::command::Command;
use crate::command::KeyInput;
use crate::layout::Rect;
use crate::selection::current_row;
use crate::selection::Selection;

verus! {

/// The views of the dungeon screen.
#[derive(Debug, Clone, Copy, PartialEq, Eq, Structural)]
pub enum DungeonState {
    /// The player just entered a room and must deal with it.
    RoomEntry,
    /// The room is cleared; the player picks an exit.
    Navigation,
    /// A rest room, where the player can heal.
    RestRoom,
    /// The boss room: no way out until the boss falls.
    BossRoom,
}

/// The compass buttons of the navigation view.
#[derive(Debug, Clone, Copy, PartialEq, Eq, Structural)]
pub enum CompassPosition {
    North,
    East,
    South,
    West,
    /// Leave the dungeon.
    Center,
}

/// A `width` by `height` rectangle centred in `area` (cut to the area's
/// size).
pub fn centered_rect(width: u16, height: u16, area: Rect) -> (r: Rect)
    requires
        area.x + area.width <= u16::MAX,
        area.y + area.height <= u16::MAX,
    ensures
        r.x == area.x + (if area.width >= width {
            area.width - width
        } else {
            0
        }) / 2,
        r.y == area.y + (if area.height >= height {
            area.height - height
        } else {
            0
        }) / 2,
        r.width == (if width <= area.width {
            width
        } else {
            area.width
        }),
        r.height == (if height <= area.height {
            height
        } else {
            area.height
        }),
{
    let x = area.x + (area.width.saturating_sub(width)) / 2;
    let y = area.y + (area.height.saturating_sub(height)) / 2;
    let w = if width <= area.width {
        width
    } else {
        area.width
    };
    let h = if height <= area.height {
        height
    } else {
        area.height
    };
    Rect { x, y, width: w, height: h }
}

/// Which handler a submit goes to, with what it needs.
#[derive(Debug, Clone, Copy, PartialEq, Eq, Structural)]
pub enum SubmitTarget {
    /// The room entry menu, with the highlighted option.
    RoomEntry(usize),
    /// The compass, with the highlighted button.
    Navigation(CompassPosition),
    /// The rest menu, with the highlighted option.
    RestRoom(usize),
    /// The boss attack.
    BossRoom,
}

/// The room entry menu's highlight after an arrow command: it has two
/// options when the room can be bypassed, one otherwise, and does not wrap.
pub open spec fn entry_after_move(sel: Selection, cmd: Command, can_bypass: bool) -> Selection {
    let cur = current_row(sel);
    let max_options: nat = if can_bypass {
        2
    } else {
        1
    };
    if cmd == Command::MoveUp && cur > 0 {
        Selection { selected: Some((cur - 1) as usize) }
    } else if cmd == Command::MoveDown && cur + 1 < max_options {
        Selection { selected: Some((cur + 1) as usize) }
    } else {
        sel
    }
}

/// The rest menu's highlight (0: rest, 1: leave) after an arrow command.
pub open spec fn rest_after_move(rest: usize, cmd: Command) -> usize {
    if cmd == Command::MoveUp && rest > 0 {
        (rest - 1) as usize
    } else if cmd == Command::MoveDown && rest < 1 {
        (rest + 1) as usize
    } else {
        rest
    }
}

/// Where a submit goes in the view of `s`.
pub open spec fn spec_submit_target(s: &DungeonScreen) -> SubmitTarget {
    match s.state {
        DungeonState::RoomEntry => SubmitTarget::RoomEntry(current_row(s.list_state) as usize),
        DungeonState::Navigation => SubmitTarget::Navigation(s.compass_selection),
        DungeonState::RestRoom => SubmitTarget::RestRoom(s.rest_selection),
        DungeonState::BossRoom => SubmitTarget::BossRoom,
    }
}

/// What a command on the dungeon screen leads to.
#[derive(Debug, Clone, Copy, PartialEq, Eq, Structural)]
pub enum DungeonStep {
    /// An arrow moved the highlight of the view.
    Moved,
    /// Hand the submit to this view's handler.
    Submitted(SubmitTarget),
    /// Leave the dungeon.
    LeaveDungeon,
    /// Cancelling in the boss room: the player stays trapped.
    StayInBossRoom,
    /// The command means nothing here.
    Ignored,
}

/// Whether `cmd` is an arrow.
pub open spec fn is_move(cmd: Command) -> bool {
    cmd == Command::MoveUp || cmd == Command::MoveDown || cmd == Command::MoveLeft || cmd
        == Command::MoveRight
}

/// The dungeon screen: its view and the highlight of each view.
pub struct DungeonScreen {
    pub state: DungeonState,
    pub list_state: Selection,
    pub compass_selection: CompassPosition,
    /// 0: rest, 1: leave.
    pub rest_selection: usize,
    /// Messages of the boss fight.
    pub boss_combat_log: Vec<String>,
}

/// All highlights back on their first entry.
pub open spec fn selection_reset(s: &DungeonScreen) -> bool {
    &&& s.list_state.selected == Some(0usize)
    &&& s.compass_selection == CompassPosition::Center
    &&& s.rest_selection == 0
}

impl DungeonScreen {
    /// A screen in the room entry view with every highlight reset.
    pub fn new() -> (s: Self)
        ensures
            s.state == DungeonState::RoomEntry,
            selection_reset(&s),
            s.boss_combat_log@ == Seq::<String>::empty(),
    {
        DungeonScreen {
            state: DungeonState::RoomEntry,
            list_state: Selection::first(),
            compass_selection: CompassPosition::Center,
            rest_selection: 0,
            boss_combat_log: Vec::new(),
        }
    }

    /// Puts every highlight back on its first entry.
    pub fn reset_selection(&mut self)
        ensures
            selection_reset(&*final(self)),
            final(self).state == old(self).state,
            final(self).boss_combat_log == old(self).boss_combat_log,
    {
        self.list_state.select(Some(0));
        self.compass_selection = CompassPosition::Center;
        self.rest_selection = 0;
    }

    /// Back from a fight: after a victory the room is cleared and the
    /// player navigates; after a defeat they stay to retry.  Highlights
    /// are reset either way.
    pub fn on_combat_return(&mut self, victory: bool)
        ensures
            final(self).state == (if victory {
                DungeonState::Navigation
            } else {
                old(self).state
            }),
            selection_reset(&*final(self)),
            final(self).boss_combat_log == old(self).boss_combat_log,
    {
        if victory {
            self.state = DungeonState::Navigation;
        }
        self.reset_selection();
    }

    /// Switches to view `new_state` with highlights reset; entering the boss
    /// view starts a fresh combat log.
    pub fn transition_to(&mut self, new_state: DungeonState)
        ensures
            final(self).state == new_state,
            selection_reset(&*final(self)),
            final(self).boss_combat_log@ == (if new_state == DungeonState::BossRoom {
                Seq::<String>::empty()
            } else {
                old(self).boss_combat_log@
            }),
    {
        self.state = new_state;
        if new_state == DungeonState::BossRoom {
            self.boss_combat_log.clear();
        }
        self.reset_selection();
    }

    /// Applies an arrow command to the highlight of the current view: the
    /// room entry menu has two options when the room can be bypassed and
    /// one otherwise, the compass moves between existing exits, the rest
    /// menu has two options, and the boss view has nothing to move.
    pub fn move_selection(&mut self, cmd: Command, can_bypass: bool, exits: Exits) -> (r: CmdOutcome)
        requires
            cmd == Command::MoveUp || cmd == Command::MoveDown || cmd == Command::MoveLeft || cmd
                == Command::MoveRight,
        ensures
            r == CmdOutcome::Changed,
            final(self).state == old(self).state,
            final(self).boss_combat_log == old(self).boss_combat_log,
            old(self).state == DungeonState::RestRoom && old(self).rest_selection <= 1 && cmd
                == Command::MoveUp ==> final(self).rest_selection == 0,
            old(self).state == DungeonState::RestRoom && cmd == Command::MoveDown
                ==> final(self).rest_selection >= 1,
            old(self).state == DungeonState::RestRoom && old(self).rest_selection <= 1 && cmd
                == Command::MoveDown ==> final(self).rest_selection == 1,
            old(self).state == DungeonState::RoomEntry ==> final(self).list_state == entry_after_move(
                old(self).list_state,
                cmd,
                can_bypass,
            ),
            old(self).state != DungeonState::RoomEntry ==> final(self).list_state == old(
                self,
            ).list_state,
            final(self).compass_selection == (if old(self).state == DungeonState::Navigation {
                spec_compass_move(old(self).compass_selection, cmd, exits)
            } else {
                old(self).compass_selection
            }),
            final(self).rest_selection == (if old(self).state == DungeonState::RestRoom {
                rest_after_move(old(self).rest_selection, cmd)
            } else {
                old(self).rest_selection
            }),
    {
        match self.state {
            DungeonState::RoomEntry => {
                let max_options: usize = if can_bypass {
                    2
                } else {
                    1
                };
                match cmd {
                    Command::MoveUp => {
                        let current = self.list_state.current();
                        if current > 0 {
                            self.list_state.select(Some(current - 1));
                        }
                    },
                    Command::MoveDown => {
                        let current = self.list_state.current();
                        if current < max_options - 1 {
                            self.list_state.select(Some(current + 1));
                        }
                    },
                    _ => {},
                }
            },
            DungeonState::Navigation => {
                self.compass_selection = compass_move(self.compass_selection, cmd, exits);
            },
            DungeonState::RestRoom => {
                match cmd {
                    Command::MoveUp => {
                        if self.rest_selection > 0 {
                            self.rest_selection = self.rest_selection - 1;
                        }
                    },
                    Command::MoveDown => {
                        if self.rest_selection < 1 {
                            self.rest_selection = self.rest_selection + 1;
                        }
                    },
                    _ => {},
                }
            },
            DungeonState::BossRoom => {},
        }
        CmdOutcome::Changed
    }

    /// Where a submit goes in the current view.
    pub fn submit_target(&self) -> (t: SubmitTarget)
        ensures
            t == spec_submit_target(self),
    {
        match self.state {
            DungeonState::RoomEntry => SubmitTarget::RoomEntry(self.list_state.current()),
            DungeonState::Navigation => SubmitTarget::Navigation(self.compass_selection),
            DungeonState::RestRoom => SubmitTarget::RestRoom(self.rest_selection),
            DungeonState::BossRoom => SubmitTarget::BossRoom,
        }
    }

    /// Handles a command: an arrow moves the highlight of the view (the
    /// outcome is a change); a submit is handed to the view's handler, which
    /// the caller runs; a cancel leaves the dungeon except from the boss
    /// room, where the player stays; both report a submit.  Other commands
    /// are ignored.  Only arrows change the screen; they keep the rest
    /// highlight on its two options and the room entry highlight on its
    /// options.
    pub fn perform(&mut self, cmd: Command, can_bypass: bool, exits: Exits) -> (r: (CmdOutcome, DungeonStep))
        ensures
            is_move(cmd) ==> r == (CmdOutcome::Changed, DungeonStep::Moved),
            is_move(cmd) ==> final(self).state == old(self).state && final(self).boss_combat_log
                == old(self).boss_combat_log && final(self).list_state == (if old(self).state
                == DungeonState::RoomEntry {
                entry_after_move(old(self).list_state, cmd, can_bypass)
            } else {
                old(self).list_state
            }) && final(self).compass_selection == (if old(self).state
                == DungeonState::Navigation {
                spec_compass_move(old(self).compass_selection, cmd, exits)
            } else {
                old(self).compass_selection
            }) && final(self).rest_selection == (if old(self).state == DungeonState::RestRoom {
                rest_after_move(old(self).rest_selection, cmd)
            } else {
                old(self).rest_selection
            }),
            cmd == Command::Submit ==> r == (
                CmdOutcome::Submit,
                DungeonStep::Submitted(spec_submit_target(&*old(self))),
            ),
            cmd == Command::Cancel ==> r == (CmdOutcome::Submit, if old(self).state
                != DungeonState::BossRoom {
                DungeonStep::LeaveDungeon
            } else {
                DungeonStep::StayInBossRoom
            }),
            !is_move(cmd) && cmd != Command::Submit && cmd != Command::Cancel ==> r == (
                CmdOutcome::Ignored,
                DungeonStep::Ignored,
            ),
            !is_move(cmd) ==> *final(self) == *old(self),
            old(self).rest_selection <= 1 ==> final(self).rest_selection <= 1,
            old(self).state == DungeonState::RoomEntry && current_row(old(self).list_state) < (
            if can_bypass {
                2nat
            } else {
                1nat
            }) ==> current_row(final(self).list_state) < (if can_bypass {
                2nat
            } else {
                1nat
            }),
    {
        match cmd {
            Command::MoveUp | Command::MoveDown | Command::MoveLeft | Command::MoveRight => {
                let outcome = self.move_selection(cmd, can_bypass, exits);
                (outcome, DungeonStep::Moved)
            },
            Command::Submit => (CmdOutcome::Submit, DungeonStep::Submitted(self.submit_target())),
            Command::Cancel => {
                if self.cancel_leaves() {
                    (CmdOutcome::Submit, DungeonStep::LeaveDungeon)
                } else {
                    (CmdOutcome::Submit, DungeonStep::StayInBossRoom)
                }
            },
            Command::Other => (CmdOutcome::Ignored, DungeonStep::Ignored),
        }
    }

    /// Whether cancelling leaves the dungeon: everywhere but in the boss
    /// room.
    pub fn cancel_leaves(&self) -> (b: bool)
        ensures
            b == (self.state != DungeonState::BossRoom),
    {
        self.state != DungeonState::BossRoom
    }

    /// Brings the view in line with the dungeon before drawing.  A fresh
    /// dungeon (one visited room, not cleared) resets a stale view to room
    /// entry; a cleared room seen from room entry leads on (rest rooms to
    /// the rest view).  `current_room` is the room the player stands in:
    /// whether it is cleared, and its type.
    pub fn sync_with_dungeon(&mut self, visited_count: usize, current_room: Option<(bool, RoomType)>)
        ensures
            ({
                let fresh = visited_count == 1 && (match current_room {
                    Some((cleared, _)) => !cleared,
                    None => false,
                }) && old(self).state != DungeonState::RoomEntry;
                let mid_state = if fresh {
                    DungeonState::RoomEntry
                } else {
                    old(self).state
                };
                let advance = mid_state == DungeonState::RoomEntry && (match current_room {
                    Some((cleared, _)) => cleared,
                    None => false,
                });
                &&& final(self).state == (if advance {
                    match current_room {
                        Some((_, t)) => if t == RoomType::Rest {
                            DungeonState::RestRoom
                        } else {
                            DungeonState::Navigation
                        },
                        None => mid_state,
                    }
                } else {
                    mid_state
                })
                &&& final(self).boss_combat_log@ == (if fresh {
                    Seq::<String>::empty()
                } else {
                    old(self).boss_combat_log@
                })
                &&& (fresh || advance) ==> selection_reset(&*final(self))
                &&& !(fresh || advance) ==> (final(self).list_state == old(self).list_state
                    && final(self).compass_selection == old(self).compass_selection
                    && final(self).rest_selection == old(self).rest_selection)
            }),
    {
        let current_room_not_cleared = match current_room {
            Some((cleared, _)) => !cleared,
            None => false,
        };
        if visited_count == 1 && current_room_not_cleared && self.state != DungeonState::RoomEntry {
            self.state = DungeonState::RoomEntry;
            self.boss_combat_log.clear();
            self.reset_selection();
        }
        if let Some((cleared, room_type)) = current_room {
            if cleared && self.state == DungeonState::RoomEntry {
                if room_type == RoomType::Rest {
                    self.state = DungeonState::RestRoom;
                } else {
                    self.state = DungeonState::Navigation;
                }
                self.reset_selection();
            }
        }
    }
}

/// The command a key gives on the dungeon screen.
pub fn dungeon_command(key: KeyInput) -> (c: Option<Command>)
    ensures
        c == (match key {
            KeyInput::Up => Some(Command::MoveUp),
            KeyInput::Down => Some(Command::MoveDown),
            KeyInput::Left => Some(Command::MoveLeft),
            KeyInput::Right => Some(Command::MoveRight),
            KeyInput::Enter => Some(Command::Submit),
            KeyInput::Backspace => Some(Command::Cancel),
            _ => None::<Command>,
        }),
{
    match key {
        KeyInput::Up => Some(Command::MoveUp),
        KeyInput::Down => Some(Command::MoveDown),
        KeyInput::Left => Some(Command::MoveLeft),
        KeyInput::Right => Some(Command::MoveRight),
        KeyInput::Enter => Some(Command::Submit),
        KeyInput::Backspace => Some(Command::Cancel),
        _ => None,
    }
}

/// Law of the rest menu's two rows (0: rest, 1: leave): Up highlights
/// "Rest" and Down highlights "Leave" from either row, the side arrows keep
/// the highlight; so Up undoes Down and Down undoes Up.
pub proof fn lemma_rest_menu_moves(rest: usize, cmd: Command)
    requires
        rest <= 1,
    ensures
        rest_after_move(rest, Command::MoveUp) == 0,
        rest_after_move(rest, Command::MoveDown) == 1,
        cmd != Command::MoveUp && cmd != Command::MoveDown ==> rest_after_move(rest, cmd) == rest,
        rest_after_move(rest_after_move(0, Command::MoveDown), Command::MoveUp) == 0,
        rest_after_move(rest_after_move(1, Command::MoveUp), Command::MoveDown) == 1,
        rest_after_move(rest, cmd) <= 1,
{
}

} // verus!
