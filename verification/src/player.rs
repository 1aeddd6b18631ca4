//! A battle participant: their team, the active Pokemon's stat stages and conditions,
//! team-wide conditions, and the actions a player can choose.
use vstd::prelude::*;

use crate::battle::conditions::{ConditionSet, PokemonCondition, PokemonConditionType};
use crate::moves::Move;
use crate::pokemon::PokemonInst;
use crate::schema::{PokemonType, StatType, TeamCondition};

verus! {

/// Whether a player is controlled by a person or by the AI.
#[derive(Debug, Clone, Copy, PartialEq, Eq, Structural)]
pub enum PlayerType {
    NPC,
    Human,
}

/// An action a player submits for a turn.
#[derive(Debug, Clone, Copy, PartialEq, Eq, Structural)]
pub enum PlayerAction {
    UseMove { move_index: usize },
    SwitchPokemon { team_index: usize },
    Forfeit,
}

/// Stat stages of the active Pokemon, each in `-6..=6`.
#[derive(Debug, Clone, Copy, PartialEq, Eq, Structural)]
pub struct StatStages {
    pub atk: i8,
    pub def: i8,
    pub sp_atk: i8,
    pub sp_def: i8,
    pub spe: i8,
    pub acc: i8,
    pub eva: i8,
    pub crit: i8,
}

/// The stage of `stat`.
pub open spec fn spec_stage(s: StatStages, stat: StatType) -> i8 {
    match stat {
        StatType::Atk => s.atk,
        StatType::Def => s.def,
        StatType::SpAtk => s.sp_atk,
        StatType::SpDef => s.sp_def,
        StatType::Spe => s.spe,
        StatType::Acc => s.acc,
        StatType::Eva => s.eva,
        StatType::Crit => s.crit,
    }
}

/// Every stage lies in `-6..=6`.
pub open spec fn spec_stages_in_range(s: StatStages) -> bool {
    forall|stat: StatType| -6 <= #[trigger] spec_stage(s, stat) <= 6
}

/// All stages at 0.
pub open spec fn spec_zero_stages() -> StatStages {
    StatStages { atk: 0, def: 0, sp_atk: 0, sp_def: 0, spe: 0, acc: 0, eva: 0, crit: 0 }
}

/// The stages with `stat` set to `v`.
pub open spec fn spec_with_stage(s: StatStages, stat: StatType, v: i8) -> StatStages {
    match stat {
        StatType::Atk => StatStages { atk: v, ..s },
        StatType::Def => StatStages { def: v, ..s },
        StatType::SpAtk => StatStages { sp_atk: v, ..s },
        StatType::SpDef => StatStages { sp_def: v, ..s },
        StatType::Spe => StatStages { spe: v, ..s },
        StatType::Acc => StatStages { acc: v, ..s },
        StatType::Eva => StatStages { eva: v, ..s },
        StatType::Crit => StatStages { crit: v, ..s },
    }
}

impl StatStages {
    /// All stages at 0.
    pub fn new() -> (r: StatStages)
        ensures
            r == spec_zero_stages(),
            forall|stat: StatType| spec_stage(r, stat) == 0,
    {
        StatStages { atk: 0, def: 0, sp_atk: 0, sp_def: 0, spe: 0, acc: 0, eva: 0, crit: 0 }
    }
}

/// Turns remaining for each team condition, when active.
#[derive(Debug, Clone, Copy, PartialEq, Eq, Structural)]
pub struct TeamConditions {
    pub reflect: Option<u8>,
    pub light_screen: Option<u8>,
    pub mist: Option<u8>,
}

/// The turns remaining of a team condition, if active.
pub open spec fn spec_team_turns(t: TeamConditions, c: TeamCondition) -> Option<u8> {
    match c {
        TeamCondition::Reflect => t.reflect,
        TeamCondition::LightScreen => t.light_screen,
        TeamCondition::Mist => t.mist,
    }
}

/// The team conditions with `c` set to `v`.
pub open spec fn spec_with_team_turns(t: TeamConditions, c: TeamCondition, v: Option<u8>) -> TeamConditions {
    match c {
        TeamCondition::Reflect => TeamConditions { reflect: v, ..t },
        TeamCondition::LightScreen => TeamConditions { light_screen: v, ..t },
        TeamCondition::Mist => TeamConditions { mist: v, ..t },
    }
}

impl TeamConditions {
    /// No team condition active.
    pub fn new() -> (r: TeamConditions)
        ensures
            r.reflect is None && r.light_screen is None && r.mist is None,
    {
        TeamConditions { reflect: None, light_screen: None, mist: None }
    }

    /// Turns remaining for `c`, if active.
    pub fn get(&self, c: TeamCondition) -> (r: Option<u8>)
        ensures
            r == spec_team_turns(*self, c),
    {
        match c {
            TeamCondition::Reflect => self.reflect,
            TeamCondition::LightScreen => self.light_screen,
            TeamCondition::Mist => self.mist,
        }
    }

    /// Sets the turns remaining for `c` (or deactivates it with `None`).
    pub fn set(&mut self, c: TeamCondition, v: Option<u8>)
        ensures
            *final(self) == spec_with_team_turns(*old(self), c, v),
    {
        match c {
            TeamCondition::Reflect => self.reflect = v,
            TeamCondition::LightScreen => self.light_screen = v,
            TeamCondition::Mist => self.mist = v,
        }
    }

    /// The active team conditions with their turns, in the order Reflect, Light Screen, Mist.
    pub fn active(&self) -> (r: Vec<(TeamCondition, u8)>)
        ensures
            r@ == spec_active_team_conditions(*self),
    {
        let mut r: Vec<(TeamCondition, u8)> = Vec::new();
        if let Some(t) = self.reflect {
            r.push((TeamCondition::Reflect, t));
        }
        if let Some(t) = self.light_screen {
            r.push((TeamCondition::LightScreen, t));
        }
        if let Some(t) = self.mist {
            r.push((TeamCondition::Mist, t));
        }
        assert(r@ =~= spec_active_team_conditions(*self));
        r
    }
}

/// The active team conditions with their turns, in the order Reflect, Light Screen, Mist.
pub open spec fn spec_active_team_conditions(t: TeamConditions) -> Seq<(TeamCondition, u8)> {
    let a = if let Some(n) = t.reflect {
        seq![(TeamCondition::Reflect, n)]
    } else {
        Seq::empty()
    };
    let b = if let Some(n) = t.light_screen {
        seq![(TeamCondition::LightScreen, n)]
    } else {
        Seq::empty()
    };
    let c = if let Some(n) = t.mist {
        seq![(TeamCondition::Mist, n)]
    } else {
        Seq::empty()
    };
    a + b + c
}

/// The number of team slots.
pub const TEAM_SIZE: usize = 6;

/// A player in a battle.
pub struct BattlePlayer {
    pub player_id: String,
    pub player_name: String,
    pub player_type: PlayerType,
    pub team: [Option<PokemonInst>; 6],
    pub active_pokemon_index: usize,
    pub stat_stages: StatStages,
    pub team_conditions: TeamConditions,
    pub active_pokemon_conditions: ConditionSet,
    pub last_move: Option<Move>,
    pub ante: u32,
}

/// The active Pokemon of a player, if its slot is filled.
pub open spec fn spec_active(p: BattlePlayer) -> Option<PokemonInst> {
    p.team[p.active_pokemon_index as int]
}

/// Whether the team slot holds a Pokemon that has not fainted.
pub open spec fn spec_slot_can_battle(slot: Option<PokemonInst>) -> bool {
    slot matches Some(p) && p.curr_hp > 0
}

/// Whether any team member can still battle.
pub open spec fn spec_can_still_battle(p: BattlePlayer) -> bool {
    exists|i: int| 0 <= i < 6 && spec_slot_can_battle(#[trigger] p.team[i])
}

/// A move action naming a slot of the active Pokemon whose move has PP left.
pub open spec fn spec_is_usable_move_action(p: BattlePlayer, a: PlayerAction) -> bool {
    match a {
        PlayerAction::UseMove { move_index } => move_index < 4 && match spec_active(p) {
            Some(pk) => match pk.moves[move_index as int] {
                Some(inst) => inst.pp > 0,
                None => false,
            },
            None => false,
        },
        _ => false,
    }
}

/// A switch action naming another team slot whose Pokemon has not fainted.
pub open spec fn spec_is_valid_switch_action(p: BattlePlayer, a: PlayerAction) -> bool {
    match a {
        PlayerAction::SwitchPokemon { team_index } => team_index < 6 && team_index
            != p.active_pokemon_index && spec_slot_can_battle(p.team[team_index as int]),
        _ => false,
    }
}

/// The move actions for the first `n` move slots of a Pokemon that hold a move with PP
/// left, in slot order.
pub open spec fn spec_usable_moves_upto(p: PokemonInst, n: int) -> Seq<PlayerAction>
    decreases n,
{
    if n <= 0 {
        seq![]
    } else {
        spec_usable_moves_upto(p, n - 1) + if p.moves[n - 1] matches Some(inst) && inst.pp > 0 {
            seq![PlayerAction::UseMove { move_index: (n - 1) as usize }]
        } else {
            seq![]
        }
    }
}

/// The move actions a player can choose: one per move of the active Pokemon with PP left, in
/// slot order; none without an active Pokemon.
pub open spec fn spec_valid_moves(p: BattlePlayer) -> Seq<PlayerAction> {
    match spec_active(p) {
        Some(pk) => spec_usable_moves_upto(pk, 4),
        None => seq![],
    }
}

/// The switch actions among the first `n` team slots: one per slot other than the active
/// one whose Pokemon has not fainted, in team order.
pub open spec fn spec_valid_switches(p: BattlePlayer, n: int) -> Seq<PlayerAction>
    decreases n,
{
    if n <= 0 {
        seq![]
    } else {
        spec_valid_switches(p, n - 1) + if n - 1 != p.active_pokemon_index && spec_slot_can_battle(
            p.team[n - 1],
        ) {
            seq![PlayerAction::SwitchPokemon { team_index: (n - 1) as usize }]
        } else {
            seq![]
        }
    }
}

/// The move a player is locked into by a charging, semi-invulnerable, rampaging or biding
/// condition: their last move, if any.
pub open spec fn spec_forced_move(p: BattlePlayer) -> Option<Move> {
    if p.active_pokemon_conditions.view().dom().contains(PokemonConditionType::Charging)
        || p.active_pokemon_conditions.view().dom().contains(PokemonConditionType::InAir)
        || p.active_pokemon_conditions.view().dom().contains(PokemonConditionType::Underground)
        || p.active_pokemon_conditions.view().dom().contains(PokemonConditionType::Rampaging)
        || p.active_pokemon_conditions.view().dom().contains(PokemonConditionType::Biding) {
        p.last_move
    } else {
        None
    }
}

impl BattlePlayer {
    /// The player's active slot index is within the team and every stat stage lies in
    /// `-6..=6`.
    pub open spec fn wf(&self) -> bool {
        &&& self.active_pokemon_index < TEAM_SIZE
        &&& spec_stages_in_range(self.stat_stages)
    }

    /// A human player with the given team (at most six Pokemon are kept), the first
    /// Pokemon active.
    pub fn new(player_id: String, player_name: String, team: Vec<PokemonInst>) -> (r: BattlePlayer)
        ensures
            r.wf(),
            r.player_type == PlayerType::Human,
            r.player_id == player_id,
            r.player_name == player_name,
            r.active_pokemon_index == 0,
            forall|i: int| 0 <= i < 6 ==> r.team[i] == (if i < team.len() {
                Some(team[i])
            } else {
                None
            }),
            forall|stat: StatType| spec_stage(r.stat_stages, stat) == 0,
            r.active_pokemon_conditions.view() == Map::<PokemonConditionType, PokemonCondition>::empty(),
            r.team_conditions == TeamConditions::new_spec(),
            r.last_move is None,
            r.ante == 0,
    {
        Self::new_with_player_type(player_id, player_name, team, PlayerType::Human)
    }

    /// A player of the given type with the given team (at most six Pokemon are kept), the
    /// first Pokemon active.
    pub fn new_with_player_type(
        player_id: String,
        player_name: String,
        team: Vec<PokemonInst>,
        player_type: PlayerType,
    ) -> (r: BattlePlayer)
        ensures
            r.wf(),
            r.player_type == player_type,
            r.player_id == player_id,
            r.player_name == player_name,
            r.active_pokemon_index == 0,
            forall|i: int| 0 <= i < 6 ==> r.team[i] == (if i < team.len() {
                Some(team[i])
            } else {
                None
            }),
            forall|stat: StatType| spec_stage(r.stat_stages, stat) == 0,
            r.active_pokemon_conditions.view() == Map::<PokemonConditionType, PokemonCondition>::empty(),
            r.team_conditions == TeamConditions::new_spec(),
            r.last_move is None,
            r.ante == 0,
    {
        let mut slots: [Option<PokemonInst>; 6] = [None, None, None, None, None, None];
        let mut i: usize = 0;
        while i < 6 && i < team.len()
            invariant
                0 <= i <= 6,
                forall|k: int| 0 <= k < 6 ==> slots[k] == (if k < i && k < team.len() {
                    Some(team[k])
                } else {
                    None
                }),
            decreases 6 - i,
        {
            slots.set(i, Some(team[i]));
            i = i + 1;
        }
        BattlePlayer {
            player_id,
            player_name,
            player_type,
            team: slots,
            active_pokemon_index: 0,
            stat_stages: StatStages::new(),
            team_conditions: TeamConditions::new(),
            active_pokemon_conditions: ConditionSet::new(),
            last_move: None,
            ante: 0,
        }
    }

    /// The active Pokemon, if its slot is filled.
    pub fn active_pokemon(&self) -> (r: Option<&PokemonInst>)
        requires
            self.wf(),
        ensures
            r matches Some(p) ==> spec_active(*self) == Some(*p),
            r is None <==> spec_active(*self) is None,
    {
        self.team[self.active_pokemon_index].as_ref()
    }

    /// The stage of `stat`.
    pub fn get_stat_stage(&self, stat: StatType) -> (r: i8)
        ensures
            r == spec_stage(self.stat_stages, stat),
    {
        match stat {
            StatType::Atk => self.stat_stages.atk,
            StatType::Def => self.stat_stages.def,
            StatType::SpAtk => self.stat_stages.sp_atk,
            StatType::SpDef => self.stat_stages.sp_def,
            StatType::Spe => self.stat_stages.spe,
            StatType::Acc => self.stat_stages.acc,
            StatType::Eva => self.stat_stages.eva,
            StatType::Crit => self.stat_stages.crit,
        }
    }

    /// Sets the stage of `stat`.
    pub fn set_stat_stage(&mut self, stat: StatType, value: i8)
        ensures
            final(self).stat_stages == spec_with_stage(old(self).stat_stages, stat, value),
            *final(self) == (BattlePlayer { stat_stages: final(self).stat_stages, ..*old(self) }),
    {
        match stat {
            StatType::Atk => self.stat_stages.atk = value,
            StatType::Def => self.stat_stages.def = value,
            StatType::SpAtk => self.stat_stages.sp_atk = value,
            StatType::SpDef => self.stat_stages.sp_def = value,
            StatType::Spe => self.stat_stages.spe = value,
            StatType::Acc => self.stat_stages.acc = value,
            StatType::Eva => self.stat_stages.eva = value,
            StatType::Crit => self.stat_stages.crit = value,
        }
    }

    /// Whether the active Pokemon has a condition of kind `t`.
    pub fn has_condition_type(&self, t: PokemonConditionType) -> (r: bool)
        ensures
            r == self.active_pokemon_conditions.view().dom().contains(t),
    {
        self.active_pokemon_conditions.contains(t)
    }

    /// Adds a condition to the active Pokemon, replacing one of the same kind.
    pub fn add_condition(&mut self, condition: PokemonCondition)
        ensures
            final(self).active_pokemon_conditions.view() == old(
                self,
            ).active_pokemon_conditions.view().insert(
                crate::battle::conditions::spec_condition_type(condition),
                condition,
            ),
            *final(self) == (BattlePlayer {
                active_pokemon_conditions: old(self).active_pokemon_conditions.spec_insert(condition),
                ..*old(self)
            }),
    {
        self.active_pokemon_conditions.insert(condition);
    }

    /// Whether team condition `c` is active.
    pub fn has_team_condition(&self, c: &TeamCondition) -> (r: bool)
        ensures
            r == spec_team_turns(self.team_conditions, *c) is Some,
    {
        self.team_conditions.get(*c).is_some()
    }

    /// Activates team condition `c` for `turns` turns.
    pub fn add_team_condition(&mut self, c: TeamCondition, turns: u8)
        ensures
            final(self).team_conditions == spec_with_team_turns(old(self).team_conditions, c, Some(turns)),
            *final(self) == (BattlePlayer { team_conditions: final(self).team_conditions, ..*old(self) }),
    {
        self.team_conditions.set(c, Some(turns));
    }

    /// Resets what belongs to the active Pokemon only: its stat stages and conditions.
    pub fn clear_active_pokemon_state(&mut self)
        ensures
            forall|stat: StatType| spec_stage(final(self).stat_stages, stat) == 0,
            final(self).active_pokemon_conditions.view() == Map::<
                PokemonConditionType,
                PokemonCondition,
            >::empty(),
            *final(self) == (BattlePlayer {
                stat_stages: spec_zero_stages(),
                active_pokemon_conditions: ConditionSet::spec_empty(),
                ..*old(self)
            }),
    {
        self.stat_stages = StatStages::new();
        self.active_pokemon_conditions.clear();
    }

    /// Whether any team member has not fainted.
    pub fn can_still_battle(&self) -> (r: bool)
        ensures
            r == spec_can_still_battle(*self),
    {
        let mut i: usize = 0;
        while i < 6
            invariant
                0 <= i <= 6,
                forall|k: int| 0 <= k < i ==> !spec_slot_can_battle(#[trigger] self.team[k]),
            decreases 6 - i,
        {
            if let Some(p) = &self.team[i] {
                if !p.is_fainted() {
                    assert(spec_slot_can_battle(self.team[i as int]));
                    return true;
                }
            }
            i = i + 1;
        }
        false
    }

    /// The move the active Pokemon is locked into, if any.
    pub fn forced_move(&self) -> (r: Option<Move>)
        ensures
            r == spec_forced_move(*self),
    {
        if self.has_condition_type(PokemonConditionType::Charging) || self.has_condition_type(
            PokemonConditionType::InAir,
        ) || self.has_condition_type(PokemonConditionType::Underground) || self.has_condition_type(
            PokemonConditionType::Rampaging,
        ) || self.has_condition_type(PokemonConditionType::Biding) {
            self.last_move
        } else {
            None
        }
    }

    /// Adds to the money at stake, saturating at the largest value.
    pub fn add_ante(&mut self, amount: u32)
        ensures
            final(self).ante == (if old(self).ante + amount > u32::MAX {
                u32::MAX as int
            } else {
                old(self).ante + amount
            }),
            *final(self) == (BattlePlayer { ante: final(self).ante, ..*old(self) }),
    {
        self.ante = self.ante.saturating_add(amount);
    }

    /// Move actions for every known move of the active Pokemon that has PP left, in slot
    /// order (see `spec_valid_moves`).
    pub fn get_valid_moves(&self) -> (r: Vec<PlayerAction>)
        requires
            self.wf(),
        ensures
            r@ == spec_valid_moves(*self),
            forall|k: int| 0 <= k < r.len() ==> spec_is_usable_move_action(*self, #[trigger] r[k]),
    {
        let mut r: Vec<PlayerAction> = Vec::new();
        if let Some(p) = self.active_pokemon() {
            let mut i: usize = 0;
            while i < 4
                invariant
                    0 <= i <= 4,
                    spec_active(*self) == Some(*p),
                    r@ == spec_usable_moves_upto(*p, i as int),
                    forall|k: int| 0 <= k < r.len() ==> spec_is_usable_move_action(*self, #[trigger] r[k]),
                decreases 4 - i,
            {
                if let Some(inst) = p.moves[i] {
                    if inst.pp > 0 {
                        r.push(PlayerAction::UseMove { move_index: i });
                    }
                }
                assert(r@ =~= spec_usable_moves_upto(*p, i + 1));
                i = i + 1;
            }
        }
        r
    }

    /// Switch actions for every other team member that has not fainted, in team order (see
    /// `spec_valid_switches`).
    pub fn get_valid_switches(&self) -> (r: Vec<PlayerAction>)
        ensures
            r@ == spec_valid_switches(*self, 6),
            forall|k: int| 0 <= k < r.len() ==> spec_is_valid_switch_action(*self, #[trigger] r[k]),
    {
        let mut r: Vec<PlayerAction> = Vec::new();
        let mut i: usize = 0;
        while i < 6
            invariant
                0 <= i <= 6,
                r@ == spec_valid_switches(*self, i as int),
                forall|k: int| 0 <= k < r.len() ==> spec_is_valid_switch_action(*self, #[trigger] r[k]),
            decreases 6 - i,
        {
            if i != self.active_pokemon_index {
                if let Some(p) = &self.team[i] {
                    if !p.is_fainted() {
                        r.push(PlayerAction::SwitchPokemon { team_index: i });
                    }
                }
            }
            assert(r@ =~= spec_valid_switches(*self, i + 1));
            i = i + 1;
        }
        r
    }
}

impl TeamConditions {
    /// No team condition active.
    pub open spec fn new_spec() -> TeamConditions {
        TeamConditions { reflect: None, light_screen: None, mist: None }
    }
}

/// The types a Pokemon currently has in battle: the converted type if its player's active
/// Pokemon is under Conversion, else the types of the Pokemon it transformed into, else its own.
pub open spec fn spec_current_types(p: PokemonInst, player: BattlePlayer) -> Seq<PokemonType> {
    let conds = player.active_pokemon_conditions.view();
    let converted = if conds.dom().contains(PokemonConditionType::Converted) {
        Some(conds[PokemonConditionType::Converted])
    } else {
        None
    };
    let transformed = if conds.dom().contains(PokemonConditionType::Transformed) {
        Some(conds[PokemonConditionType::Transformed])
    } else {
        None
    };
    match (converted, transformed) {
        (Some(PokemonCondition::Converted { pokemon_type }), _) => seq![pokemon_type],
        (_, Some(PokemonCondition::Transformed { target })) => spec_own_types(target),
        _ => spec_own_types(p),
    }
}

/// A Pokemon's own types.
pub open spec fn spec_own_types(p: PokemonInst) -> Seq<PokemonType> {
    match p.secondary_type {
        Some(t) => seq![p.primary_type, t],
        None => seq![p.primary_type],
    }
}

fn own_types(p: &PokemonInst) -> (r: Vec<PokemonType>)
    ensures
        r@ == spec_own_types(*p),
{
    match p.secondary_type {
        Some(t) => {
            let v = vec![p.primary_type, t];
            assert(v@ =~= spec_own_types(*p));
            v
        },
        None => {
            let v = vec![p.primary_type];
            assert(v@ =~= spec_own_types(*p));
            v
        },
    }
}

impl PokemonInst {
    /// The types this Pokemon currently has, given its player's battle conditions.
    pub fn get_current_types(&self, player: &BattlePlayer) -> (r: Vec<PokemonType>)
        ensures
            r@ == spec_current_types(*self, *player),
            1 <= r.len() <= 2,
    {
        if let Some(PokemonCondition::Converted { pokemon_type }) = player.active_pokemon_conditions.get(
            PokemonConditionType::Converted,
        ) {
            let v = vec![pokemon_type];
            assert(v@ =~= seq![pokemon_type]);
            return v;
        }
        if let Some(PokemonCondition::Transformed { target }) = player.active_pokemon_conditions.get(
            PokemonConditionType::Transformed,
        ) {
            return own_types(&target);
        }
        own_types(self)
    }
}

/// A stage or team condition reads back as it was last set, and setting one leaves every
/// other one as it was.
pub proof fn lemma_set_then_get(
    s: StatStages,
    stat: StatType,
    other: StatType,
    v: i8,
    t: TeamConditions,
    c: TeamCondition,
    d: TeamCondition,
    turns: Option<u8>,
)
    ensures
        spec_stage(spec_with_stage(s, stat, v), stat) == v,
        other != stat ==> spec_stage(spec_with_stage(s, stat, v), other) == spec_stage(s, other),
        spec_team_turns(spec_with_team_turns(t, c, turns), c) == turns,
        d != c ==> spec_team_turns(spec_with_team_turns(t, c, turns), d) == spec_team_turns(t, d),
{
}

} // verus!
