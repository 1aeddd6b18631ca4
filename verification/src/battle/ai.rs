//! Decision makers for players that are not controlled by a person.
use vstd::prelude::*;

use crate::battle::state::BattleState;
use crate::player::PlayerAction;

verus! {

/// Anything that can choose a battle action for a player.
pub trait Behavior {
    /// Whether `action` is a choice this decision maker may make for player `player_index`
    /// in the given battle. A decision maker that describes its choices gives this its own
    /// definition; by default every action is such a choice.
    open spec fn spec_decides(&self, player_index: usize, battle_state: BattleState, action: PlayerAction) -> bool {
        true
    }

    /// The action this decision maker takes for player `player_index` in the given battle.
    fn decide_action(&self, player_index: usize, battle_state: &BattleState) -> (r: PlayerAction)
        ensures
            self.spec_decides(player_index, *battle_state, r),
    ;
}

} // verus!
