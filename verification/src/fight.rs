//! The fight screen: attack or run during the player's turn, then fight
//! again or continue after the fight.
use vstd::prelude::*;

use crate::command::KeyInput;

verus! {

/// The highlighted action during the player's turn.
#[derive(Debug, Clone, Copy, PartialEq, Eq, Structural)]
pub enum FightSelection {
    Attack,
    Run,
}

/// The highlighted button after a fight.
#[derive(Debug, Clone, Copy, PartialEq, Eq, Structural)]
pub enum ResultSelection {
    FightAgain,
    Continue,
}

/// Where the fight stands.
#[derive(Debug, Clone, Copy, PartialEq, Eq, Structural)]
pub enum CombatPhase {
    PlayerTurn,
    Victory,
    Defeat,
    /// Any other phase (the enemy acting); keys do nothing.
    Other,
}

/// What a key on the fight screen asks the game to do.
#[derive(Debug, Clone, Copy, PartialEq, Eq, Structural)]
pub enum FightAction {
    Nothing,
    Attack,
    Run,
    /// Start another fight (only where the fight came from the field; the
    /// caller checks and otherwise returns from combat).
    FightAgain,
    ReturnFromCombat,
}

/// The fight screen's highlights and what it has seen of the fight's end.
pub struct FightScreen {
    pub selection: FightSelection,
    pub result_selection: ResultSelection,
    pub victory_processed: bool,
    pub defeat_processed: bool,
}

/// Everything as at the start of a fight.
pub open spec fn fresh(s: &FightScreen) -> bool {
    &&& s.selection == FightSelection::Attack
    &&& s.result_selection == ResultSelection::FightAgain
    &&& !s.victory_processed
    &&& !s.defeat_processed
}

impl FightScreen {
    /// A screen ready for a new fight.
    pub fn new() -> (s: Self)
        ensures
            fresh(&s),
    {
        FightScreen {
            selection: FightSelection::Attack,
            result_selection: ResultSelection::FightAgain,
            victory_processed: false,
            defeat_processed: false,
        }
    }

    /// Back to the start-of-fight state.
    pub fn reset_for_new_combat(&mut self)
        ensures
            fresh(&*final(self)),
    {
        self.selection = FightSelection::Attack;
        self.result_selection = ResultSelection::FightAgain;
        self.victory_processed = false;
        self.defeat_processed = false;
    }

    /// Notes the phase after the player's attack: a won or lost fight is
    /// remembered.
    pub fn after_attack(&mut self, phase: CombatPhase)
        ensures
            final(self).victory_processed == (old(self).victory_processed || phase
                == CombatPhase::Victory),
            final(self).defeat_processed == (old(self).defeat_processed || phase
                == CombatPhase::Defeat),
            final(self).selection == old(self).selection,
            final(self).result_selection == old(self).result_selection,
    {
        if phase == CombatPhase::Victory {
            self.victory_processed = true;
        } else if phase == CombatPhase::Defeat {
            self.defeat_processed = true;
        }
    }

    /// Handles a key in `phase`.  In the player's turn the arrows switch
    /// between attack and run, Enter does the highlighted one and Backspace
    /// runs.  After a victory the side arrows switch between fighting again
    /// and continuing; after a victory or a defeat Enter does the
    /// highlighted one (after a defeat, always continue).
    pub fn on(&mut self, phase: CombatPhase, key: KeyInput) -> (a: FightAction)
        ensures
            phase == CombatPhase::PlayerTurn ==> {
                &&& final(self).selection == (if key == KeyInput::Up || key == KeyInput::Down {
                    if old(self).selection == FightSelection::Attack {
                        FightSelection::Run
                    } else {
                        FightSelection::Attack
                    }
                } else {
                    old(self).selection
                })
                &&& final(self).result_selection == old(self).result_selection
                &&& a == (if key == KeyInput::Enter {
                    if old(self).selection == FightSelection::Attack {
                        FightAction::Attack
                    } else {
                        FightAction::Run
                    }
                } else if key == KeyInput::Backspace {
                    FightAction::Run
                } else {
                    FightAction::Nothing
                })
            },
            (phase == CombatPhase::Victory || phase == CombatPhase::Defeat) ==> {
                &&& final(self).selection == old(self).selection
                &&& final(self).result_selection == (if (key == KeyInput::Left || key
                    == KeyInput::Right) && phase == CombatPhase::Victory {
                    if old(self).result_selection == ResultSelection::FightAgain {
                        ResultSelection::Continue
                    } else {
                        ResultSelection::FightAgain
                    }
                } else {
                    old(self).result_selection
                })
                &&& a == (if key == KeyInput::Enter {
                    if old(self).result_selection == ResultSelection::FightAgain && phase
                        == CombatPhase::Victory {
                        FightAction::FightAgain
                    } else {
                        FightAction::ReturnFromCombat
                    }
                } else {
                    FightAction::Nothing
                })
            },
            phase == CombatPhase::Other ==> a == FightAction::Nothing && final(self).selection
                == old(self).selection && final(self).result_selection == old(
                self,
            ).result_selection,
            final(self).victory_processed == old(self).victory_processed,
            final(self).defeat_processed == old(self).defeat_processed,
    {
        match phase {
            CombatPhase::PlayerTurn => {
                match key {
                    KeyInput::Up | KeyInput::Down => {
                        self.selection = match self.selection {
                            FightSelection::Attack => FightSelection::Run,
                            FightSelection::Run => FightSelection::Attack,
                        };
                        FightAction::Nothing
                    },
                    KeyInput::Enter => match self.selection {
                        FightSelection::Attack => FightAction::Attack,
                        FightSelection::Run => FightAction::Run,
                    },
                    KeyInput::Backspace => FightAction::Run,
                    _ => FightAction::Nothing,
                }
            },
            CombatPhase::Victory | CombatPhase::Defeat => {
                match key {
                    KeyInput::Left | KeyInput::Right => {
                        if phase == CombatPhase::Victory {
                            self.result_selection = match self.result_selection {
                                ResultSelection::FightAgain => ResultSelection::Continue,
                                ResultSelection::Continue => ResultSelection::FightAgain,
                            };
                        }
                        FightAction::Nothing
                    },
                    KeyInput::Enter => {
                        if self.result_selection == ResultSelection::FightAgain && phase
                            == CombatPhase::Victory {
                            FightAction::FightAgain
                        } else {
                            FightAction::ReturnFromCombat
                        }
                    },
                    _ => FightAction::Nothing,
                }
            },
            CombatPhase::Other => FightAction::Nothing,
        }
    }
}

/// The colour band of a health bar at `pct` percent: healthy above 60,
/// wounded above 30, critical otherwise.
#[derive(Debug, Clone, Copy, PartialEq, Eq, Structural)]
pub enum HealthBand {
    Healthy,
    Wounded,
    Critical,
}

/// The colour band for `pct` percent of health.
pub fn hp_band(pct: u16) -> (b: HealthBand)
    ensures
        b == (if pct > 60 {
            HealthBand::Healthy
        } else if pct > 30 {
            HealthBand::Wounded
        } else {
            HealthBand::Critical
        }),
{
    if pct > 60 {
        HealthBand::Healthy
    } else if pct > 30 {
        HealthBand::Wounded
    } else {
        HealthBand::Critical
    }
}

} // verus!
