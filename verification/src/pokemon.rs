//! A Pokemon in a team: its stats, hit points, moves and major status.
use vstd::prelude::*;

use crate::moves::{spec_move_max_pp, Move, MoveData};
use crate::schema::{PokemonSpecies, PokemonType};
use crate::species::Species;

verus! {

/// A major status condition. `Sleep` counts the turns left asleep and `Poison`
/// holds the badly-poisoned severity (0 for regular poison).
#[derive(Debug, Clone, Copy, PartialEq, Eq, Structural)]
pub enum StatusCondition {
    Sleep(u8),
    Poison(u8),
    Burn,
    Freeze,
    Paralysis,
    Faint,
}

/// The highest badly-poisoned severity.
pub const MAX_POISON_SEVERITY: u8 = 15;

/// A known move and its remaining PP.
#[derive(Debug, Clone, Copy, PartialEq, Eq, Structural)]
pub struct MoveInstance {
    pub move_: Move,
    pub pp: u8,
}

impl MoveInstance {
    /// A move with full PP.
    pub fn new(move_: Move) -> (r: MoveInstance)
        ensures
            r.move_ == move_,
            r.pp == spec_move_max_pp(move_),
    {
        let data = MoveData::get_move_data(move_);
        MoveInstance { move_, pp: data.max_pp }
    }
}

/// The computed stats of a Pokemon; `hp` is its maximum HP.
#[derive(Debug, Clone, Copy, PartialEq, Eq, Structural)]
pub struct PokemonStats {
    pub hp: u16,
    pub attack: u16,
    pub defense: u16,
    pub sp_attack: u16,
    pub sp_defense: u16,
    pub speed: u16,
}

/// A Pokemon owned by a player.
#[derive(Debug, Clone, Copy)]
pub struct PokemonInst {
    pub species: Species,
    pub level: u8,
    pub curr_exp: u32,
    pub primary_type: PokemonType,
    pub secondary_type: Option<PokemonType>,
    pub ivs: [u8; 6],
    pub evs: [u8; 6],
    pub stats: PokemonStats,
    pub curr_hp: u16,
    pub moves: [Option<MoveInstance>; 4],
    pub status: Option<StatusCondition>,
}

/// End-of-turn damage of a status for a Pokemon with `max_hp`: 1/16 of max HP for
/// regular poison, severity/16 for badly poisoned (capped at the largest HP value), 1/8
/// for burn, at least 1; none otherwise.
pub open spec fn spec_status_damage(status: Option<StatusCondition>, max_hp: u16) -> nat {
    match status {
        Some(StatusCondition::Poison(0)) => if max_hp / 16 >= 1 { (max_hp / 16) as nat } else { 1 },
        Some(StatusCondition::Poison(n)) => {
            let d = (max_hp as nat * n as nat) / 16;
            if d > 65535 { 65535 } else if d >= 1 { d } else { 1 }
        },
        Some(StatusCondition::Burn) => if max_hp / 8 >= 1 { (max_hp / 8) as nat } else { 1 },
        _ => 0,
    }
}

/// How a status advances by one step: sleep counts down and wakes at 1 or 0, badly
/// poisoned severity rises up to its cap. Returns the new status, whether the status was
/// cured, and whether it changed.
pub open spec fn spec_status_progress(status: Option<StatusCondition>) -> (
    Option<StatusCondition>,
    bool,
    bool,
) {
    match status {
        Some(StatusCondition::Sleep(n)) => if n <= 1 {
            (None, true, true)
        } else {
            (Some(StatusCondition::Sleep((n - 1) as u8)), false, true)
        },
        Some(StatusCondition::Poison(n)) => if n == 0 || n >= MAX_POISON_SEVERITY {
            (status, false, false)
        } else {
            (Some(StatusCondition::Poison((n + 1) as u8)), false, true)
        },
        _ => (status, false, false),
    }
}

/// A stat computed from its base, IV, EV and the level.
pub open spec fn spec_calc_stat(base: u8, iv: u8, ev: u8, level: u8, is_hp: bool) -> nat {
    let core = ((2 * (base as nat + iv as nat) + ev as nat / 4) * level as nat) / 100;
    if is_hp {
        core + level as nat + 10
    } else {
        core + 5
    }
}

fn calc_stat(base: u8, iv: u8, ev: u8, level: u8, is_hp: bool) -> (r: u16)
    ensures
        r as nat == spec_calc_stat(base, iv, ev, level, is_hp),
{
    let sum: u32 = 2 * (base as u32 + iv as u32) + ev as u32 / 4;
    assert(sum * level as u32 <= 1083 * 255) by (nonlinear_arith)
        requires
            sum <= 1083,
            level <= 255,
    ;
    let core: u32 = (sum * level as u32) / 100;
    if is_hp {
        (core + level as u32 + 10) as u16
    } else {
        (core + 5) as u16
    }
}

/// The Pokemon after taking `amount` damage: HP drops (not below 0) and it faints at 0 HP.
pub open spec fn spec_after_damage(p: PokemonInst, amount: u16) -> PokemonInst {
    let hp: u16 = if amount >= p.curr_hp {
        0
    } else {
        (p.curr_hp - amount) as u16
    };
    PokemonInst {
        curr_hp: hp,
        status: if hp == 0 {
            Some(StatusCondition::Faint)
        } else {
            p.status
        },
        ..p
    }
}

/// The Pokemon after healing `amount`: capped at max HP, and nothing happens once fainted.
pub open spec fn spec_after_heal(p: PokemonInst, amount: u16) -> PokemonInst {
    let hp: u16 = if p.curr_hp == 0 {
        0
    } else if p.curr_hp + amount > p.stats.hp {
        p.stats.hp
    } else {
        (p.curr_hp + amount) as u16
    };
    PokemonInst { curr_hp: hp, ..p }
}

/// The Pokemon after its status advances one step.
pub open spec fn spec_after_progress(p: PokemonInst) -> PokemonInst {
    PokemonInst { status: spec_status_progress(p.status).0, ..p }
}

/// The first of the four move slots that holds `move_`.
pub open spec fn spec_first_move_slot(moves: [Option<MoveInstance>; 4], move_: Move) -> Option<int> {
    if spec_slot_has(moves[0], move_) {
        Some(0)
    } else if spec_slot_has(moves[1], move_) {
        Some(1)
    } else if spec_slot_has(moves[2], move_) {
        Some(2)
    } else if spec_slot_has(moves[3], move_) {
        Some(3)
    } else {
        None
    }
}

/// The Pokemon after spending one PP of `move_`, or `None` when it cannot: it does not know
/// the move or the PP is exhausted. Struggle needs no PP.
pub open spec fn spec_after_use_move(p: PokemonInst, move_: Move) -> Option<PokemonInst> {
    if move_ == Move::Struggle {
        Some(p)
    } else {
        match spec_first_move_slot(p.moves, move_) {
            Some(i) => if p.moves[i].unwrap().pp > 0 {
                Some(
                    PokemonInst {
                        moves: vstd::array::spec_array_update(
                            p.moves,
                            i,
                            Some(MoveInstance { move_, pp: (p.moves[i].unwrap().pp - 1) as u8 }),
                        ),
                        ..p
                    },
                )
            } else {
                None
            },
            None => None,
        }
    }
}

impl PokemonInst {
    /// A fresh Pokemon of `species` at `level`, with full HP, no status and no experience.
    /// IVs default to 15; the moveset defaults to empty.
    pub fn new(
        species: Species,
        species_data: &PokemonSpecies,
        level: u8,
        ivs: Option<[u8; 6]>,
        moves: Option<[Option<MoveInstance>; 4]>,
    ) -> (r: PokemonInst)
        ensures
            r.species == species,
            r.level == level,
            r.curr_exp == 0,
            r.curr_hp == r.stats.hp,
            r.status is None,
            r.evs@ == seq![0u8, 0u8, 0u8, 0u8, 0u8, 0u8],
            ivs matches Some(v) ==> r.ivs == v,
            ivs is None ==> r.ivs@ == seq![15u8, 15u8, 15u8, 15u8, 15u8, 15u8],
            r.stats.hp as nat == spec_calc_stat(species_data.base_stats.hp, r.ivs[0], 0, level, true),
            r.stats.attack as nat == spec_calc_stat(
                species_data.base_stats.attack,
                r.ivs[1],
                0,
                level,
                false,
            ),
            r.stats.defense as nat == spec_calc_stat(
                species_data.base_stats.defense,
                r.ivs[2],
                0,
                level,
                false,
            ),
            r.stats.sp_attack as nat == spec_calc_stat(
                species_data.base_stats.sp_attack,
                r.ivs[3],
                0,
                level,
                false,
            ),
            r.stats.sp_defense as nat == spec_calc_stat(
                species_data.base_stats.sp_defense,
                r.ivs[4],
                0,
                level,
                false,
            ),
            r.stats.speed as nat == spec_calc_stat(
                species_data.base_stats.speed,
                r.ivs[5],
                0,
                level,
                false,
            ),
            r.primary_type == (if species_data.types.len() >= 1 {
                species_data.types[0]
            } else {
                PokemonType::Typeless
            }),
            r.secondary_type == (if species_data.types.len() >= 2 {
                Some(species_data.types[1])
            } else {
                None
            }),
            moves matches Some(m) ==> r.moves == m,
            moves is None ==> r.moves@ == seq![None::<MoveInstance>, None, None, None],
    {
        let iv_arr: [u8; 6] = match ivs {
            Some(v) => v,
            None => [15u8, 15u8, 15u8, 15u8, 15u8, 15u8],
        };
        let base = species_data.base_stats;
        let stats = PokemonStats {
            hp: calc_stat(base.hp, iv_arr[0], 0, level, true),
            attack: calc_stat(base.attack, iv_arr[1], 0, level, false),
            defense: calc_stat(base.defense, iv_arr[2], 0, level, false),
            sp_attack: calc_stat(base.sp_attack, iv_arr[3], 0, level, false),
            sp_defense: calc_stat(base.sp_defense, iv_arr[4], 0, level, false),
            speed: calc_stat(base.speed, iv_arr[5], 0, level, false),
        };
        let primary_type = if species_data.types.len() >= 1 {
            species_data.types[0]
        } else {
            PokemonType::Typeless
        };
        let secondary_type = if species_data.types.len() >= 2 {
            Some(species_data.types[1])
        } else {
            None
        };
        let move_arr: [Option<MoveInstance>; 4] = match moves {
            Some(m) => m,
            None => [None, None, None, None],
        };
        let r = PokemonInst {
            species,
            level,
            curr_exp: 0,
            primary_type,
            secondary_type,
            ivs: iv_arr,
            evs: [0u8, 0u8, 0u8, 0u8, 0u8, 0u8],
            stats,
            curr_hp: stats.hp,
            moves: move_arr,
            status: None,
        };
        assert(r.evs@ =~= seq![0u8, 0u8, 0u8, 0u8, 0u8, 0u8]);
        assert(ivs is None ==> r.ivs@ =~= seq![15u8, 15u8, 15u8, 15u8, 15u8, 15u8]);
        assert(moves is None ==> r.moves@ =~= seq![None::<MoveInstance>, None, None, None]);
        r
    }

    /// A Pokemon built from explicit values, for setting up battles directly.
    pub fn new_for_test(
        species: Species,
        level: u8,
        curr_exp: u32,
        curr_hp: u16,
        ivs: [u8; 6],
        evs: [u8; 6],
        stats: [u16; 6],
        moves: [Option<MoveInstance>; 4],
        status: Option<StatusCondition>,
    ) -> (r: PokemonInst)
        ensures
            r.species == species,
            r.level == level,
            r.curr_exp == curr_exp,
            r.curr_hp == curr_hp,
            r.ivs == ivs,
            r.evs == evs,
            r.stats == (PokemonStats {
                hp: stats[0],
                attack: stats[1],
                defense: stats[2],
                sp_attack: stats[3],
                sp_defense: stats[4],
                speed: stats[5],
            }),
            r.moves == moves,
            r.status == status,
            r.primary_type == PokemonType::Normal,
            r.secondary_type is None,
    {
        PokemonInst {
            species,
            level,
            curr_exp,
            primary_type: PokemonType::Normal,
            secondary_type: None,
            ivs,
            evs,
            stats: PokemonStats {
                hp: stats[0],
                attack: stats[1],
                defense: stats[2],
                sp_attack: stats[3],
                sp_defense: stats[4],
                speed: stats[5],
            },
            curr_hp,
            moves,
            status,
        }
    }

    /// Current hit points.
    pub fn current_hp(&self) -> (r: u16)
        ensures
            r == self.curr_hp,
    {
        self.curr_hp
    }

    /// Maximum hit points.
    pub fn max_hp(&self) -> (r: u16)
        ensures
            r == self.stats.hp,
    {
        self.stats.hp
    }

    /// A Pokemon has fainted when its HP is 0.
    pub open spec fn spec_is_fainted(&self) -> bool {
        self.curr_hp == 0
    }

    /// Whether the Pokemon has fainted (HP 0).
    pub fn is_fainted(&self) -> (r: bool)
        ensures
            r == self.spec_is_fainted(),
    {
        self.curr_hp == 0
    }

    /// Lowers HP by `amount` (not below 0). On reaching 0 HP the status becomes `Faint`.
    /// Returns whether the Pokemon is fainted afterwards.
    pub fn take_damage(&mut self, amount: u16) -> (r: bool)
        ensures
            final(self).curr_hp == (if amount >= old(self).curr_hp {
                0
            } else {
                old(self).curr_hp - amount
            }),
            r == (final(self).curr_hp == 0),
            final(self).status == (if r {
                Some(StatusCondition::Faint)
            } else {
                old(self).status
            }),
            *final(self) == spec_after_damage(*old(self), amount),
    {
        self.curr_hp = if amount >= self.curr_hp {
            0
        } else {
            self.curr_hp - amount
        };
        if self.curr_hp == 0 {
            self.status = Some(StatusCondition::Faint);
            true
        } else {
            false
        }
    }

    /// Restores up to `amount` HP, never above max HP; a fainted Pokemon is not healed.
    pub fn heal(&mut self, amount: u16)
        ensures
            final(self).curr_hp == (if old(self).curr_hp == 0 {
                0
            } else if old(self).curr_hp + amount > old(self).stats.hp {
                old(self).stats.hp as int
            } else {
                old(self).curr_hp + amount
            }),
            *final(self) == spec_after_heal(*old(self), amount),
    {
        if self.curr_hp == 0 {
            return ;
        }
        let total: u32 = self.curr_hp as u32 + amount as u32;
        self.curr_hp = if total > self.stats.hp as u32 {
            self.stats.hp
        } else {
            total as u16
        };
    }

    /// Brings a Pokemon back with `hp` hit points (at most its max HP) and no status.
    pub fn revive(&mut self, hp: u16)
        ensures
            final(self).curr_hp == (if hp > old(self).stats.hp {
                old(self).stats.hp
            } else {
                hp
            }),
            final(self).status is None,
            *final(self) == (PokemonInst {
                curr_hp: final(self).curr_hp,
                status: None,
                ..*old(self)
            }),
    {
        self.curr_hp = if hp > self.stats.hp {
            self.stats.hp
        } else {
            hp
        };
        self.status = None;
    }

    /// The damage the current status deals at the end of a turn.
    pub fn calculate_status_damage(&self) -> (r: u16)
        ensures
            r as nat == spec_status_damage(self.status, self.stats.hp),
    {
        let max_hp = self.stats.hp;
        match self.status {
            Some(StatusCondition::Poison(n)) => {
                if n == 0 {
                    if max_hp / 16 >= 1 {
                        max_hp / 16
                    } else {
                        1
                    }
                } else {
                    assert(max_hp as u32 * n as u32 <= 65535 * 255) by (nonlinear_arith)
                        requires
                            max_hp <= 65535,
                            n <= 255,
                    ;
                    let d: u32 = (max_hp as u32 * n as u32) / 16;
                    if d > 65535 {
                        65535
                    } else if d >= 1 {
                        d as u16
                    } else {
                        1
                    }
                }
            },
            Some(StatusCondition::Burn) => {
                if max_hp / 8 >= 1 {
                    max_hp / 8
                } else {
                    1
                }
            },
            _ => 0,
        }
    }

    /// Advances the status by one step (sleep counts down, badly-poisoned severity rises).
    /// Returns whether the status was cured and whether it changed.
    pub fn update_status_progress(&mut self) -> (r: (bool, bool))
        ensures
            (final(self).status, r.0, r.1) == spec_status_progress(old(self).status),
            *final(self) == spec_after_progress(*old(self)),
    {
        match self.status {
            Some(StatusCondition::Sleep(n)) => {
                if n <= 1 {
                    self.status = None;
                    (true, true)
                } else {
                    self.status = Some(StatusCondition::Sleep(n - 1));
                    (false, true)
                }
            },
            Some(StatusCondition::Poison(n)) => {
                if n == 0 || n >= MAX_POISON_SEVERITY {
                    (false, false)
                } else {
                    self.status = Some(StatusCondition::Poison(n + 1));
                    (false, true)
                }
            },
            _ => (false, false),
        }
    }

    /// One full status tick: advance the status, then take its damage. Returns the damage,
    /// whether the status was cured, and whether it changed (fainting counts as a change and
    /// is not a cure).
    pub fn tick_status(&mut self) -> (r: (u16, bool, bool))
        ensures
            ({
                let (progressed, cured, changed) = spec_status_progress(old(self).status);
                let damage = spec_status_damage(progressed, old(self).stats.hp);
                let faints = damage > 0 && damage >= old(self).curr_hp;
                &&& r.0 as nat == damage
                &&& final(self).curr_hp == (if damage >= old(self).curr_hp {
                    0
                } else {
                    old(self).curr_hp - damage
                })
                &&& final(self).status == (if faints {
                    Some(StatusCondition::Faint)
                } else {
                    progressed
                })
                &&& r.1 == (if faints {
                    false
                } else {
                    cured
                })
                &&& r.2 == (if faints {
                    true
                } else {
                    changed
                })
            }),
            final(self).stats == old(self).stats,
            final(self).moves == old(self).moves,
            final(self).species == old(self).species,
    {
        let (should_cure, status_changed) = self.update_status_progress();
        let damage = self.calculate_status_damage();
        if damage > 0 {
            let fainted = self.take_damage(damage);
            if fainted {
                return (damage, false, true);
            }
        }
        (damage, should_cure, status_changed)
    }

    /// Spends one PP of `move_`. Struggle needs no PP. Fails, changing nothing, when the
    /// Pokemon does not know the move or its PP is exhausted.
    pub fn use_move(&mut self, move_: Move) -> (r: Result<(), ()>)
        ensures
            r is Ok <==> spec_after_use_move(*old(self), move_) is Some,
            r is Ok ==> *final(self) == spec_after_use_move(*old(self), move_).unwrap(),
            r is Err ==> *final(self) == *old(self),
    {
        if move_ == Move::Struggle {
            return Ok(());
        }
        let mut i: usize = 0;
        while i < 4
            invariant
                0 <= i <= 4,
                move_ != Move::Struggle,
                *self == *old(self),
                forall|k: int| 0 <= k < i ==> !spec_slot_has(old(self).moves[k], move_),
            decreases 4 - i,
        {
            if let Some(inst) = self.moves[i] {
                if inst.move_ == move_ {
                    assert(spec_first_move_slot(old(self).moves, move_) == Some(i as int));
                    if inst.pp > 0 {
                        let new_inst = MoveInstance { move_, pp: inst.pp - 1 };
                        self.moves.set(i, Some(new_inst));
                        assert(self.moves =~= spec_after_use_move(*old(self), move_).unwrap().moves);
                        return Ok(());
                    } else {
                        return Err(());
                    }
                }
            }
            i = i + 1;
        }
        assert(spec_first_move_slot(old(self).moves, move_) is None);
        Err(())
    }
}

/// Whether a move slot holds `move_`.
pub open spec fn spec_slot_has(slot: Option<MoveInstance>, move_: Move) -> bool {
    slot matches Some(inst) && inst.move_ == move_
}

/// Hit points only move the way damage and healing say: damage never raises them and a
/// Pokemon brought to 0 HP faints whatever its status was; healing a Pokemon at or below its
/// maximum never lowers its HP nor lifts it above the maximum, and a fainted Pokemon is not
/// brought back by healing.
pub proof fn lemma_hp_changes_are_bounded(p: PokemonInst, amount: u16)
    ensures
        spec_after_damage(p, amount).curr_hp <= p.curr_hp,
        spec_after_damage(p, amount).curr_hp == 0 ==> spec_after_damage(p, amount).status == Some(
            StatusCondition::Faint,
        ),
        spec_after_damage(p, amount).curr_hp > 0 ==> spec_after_damage(p, amount).status == p.status,
        p.curr_hp <= p.stats.hp ==> p.curr_hp <= spec_after_heal(p, amount).curr_hp <= p.stats.hp,
        p.curr_hp == 0 ==> spec_after_heal(p, amount).curr_hp == 0,
{
}

/// The status after `k` progress steps.
pub open spec fn spec_progress_times(status: Option<StatusCondition>, k: nat) -> Option<StatusCondition>
    decreases k,
{
    if k == 0 {
        status
    } else {
        spec_progress_times(spec_status_progress(status).0, (k - 1) as nat)
    }
}

/// Sleep counts down one turn per step: a Pokemon put to sleep for `n` turns is still asleep
/// with `n - k` turns left after `k < n` steps and wakes up at step `n`.
pub proof fn lemma_sleep_wakes_after_its_turns(n: u8, k: nat)
    requires
        1 <= n,
        k <= n,
    ensures
        k < n ==> spec_progress_times(Some(StatusCondition::Sleep(n)), k) == Some(
            StatusCondition::Sleep((n - k) as u8),
        ),
        k == n ==> spec_progress_times(Some(StatusCondition::Sleep(n)), k) is None,
    decreases k,
{
    if k > 0 {
        if n == 1 {
            assert(spec_progress_times(None, (k - 1) as nat) is None) by {
                if k - 1 > 0 {
                    assert(spec_progress_times(None, 0) is None);
                }
            }
        } else {
            lemma_sleep_wakes_after_its_turns((n - 1) as u8, (k - 1) as nat);
        }
    }
}

/// Poison never wears off by itself: regular poison stays regular, and badly poisoned
/// severity rises by one per step up to its cap and never falls.
pub proof fn lemma_poison_progress(n: u8)
    ensures
        n == 0 ==> spec_status_progress(Some(StatusCondition::Poison(n))).0 == Some(
            StatusCondition::Poison(0),
        ),
        1 <= n < MAX_POISON_SEVERITY ==> spec_status_progress(Some(StatusCondition::Poison(n))).0
            == Some(StatusCondition::Poison((n + 1) as u8)),
        n >= MAX_POISON_SEVERITY ==> spec_status_progress(Some(StatusCondition::Poison(n))).0
            == Some(StatusCondition::Poison(n)),
        !spec_status_progress(Some(StatusCondition::Poison(n))).1,
{
}

} // verus!
