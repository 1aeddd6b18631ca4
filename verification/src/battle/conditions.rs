//! Volatile conditions on the active Pokemon (confusion, substitutes, charging moves, ...)
//! and the set that holds at most one condition of each kind.
use vstd::prelude::*;

use crate::battle::commands::{spec_cmds_safe, BattleCommand, PlayerTarget};
use crate::moves::Move;
use crate::pokemon::PokemonInst;
use crate::schema::{MoveCategory, PokemonType, StatType};
use crate::species::Species;

verus! {

/// A volatile condition on the active Pokemon, with its payload.
#[derive(Debug, Clone, Copy)]
pub enum PokemonCondition {
    Flinched,
    Confused { turns_remaining: u8 },
    Seeded,
    Underground,
    InAir,
    Teleported,
    Enraged,
    Exhausted { turns_remaining: u8 },
    Trapped { turns_remaining: u8 },
    Charging,
    Rampaging { turns_remaining: u8 },
    Transformed { target: PokemonInst },
    Converted { pokemon_type: PokemonType },
    Disabled { pokemon_move: Move, turns_remaining: u8 },
    Substitute { hp: u8 },
    Biding { turns_remaining: u8, damage: u16 },
    Countering { damage: u16 },
}

/// The kind of a condition, without its payload.
#[derive(Debug, Clone, Copy, PartialEq, Eq, Hash, Structural)]
pub enum PokemonConditionType {
    Flinched,
    Confused,
    Seeded,
    Underground,
    InAir,
    Teleported,
    Enraged,
    Exhausted,
    Trapped,
    Charging,
    Rampaging,
    Transformed,
    Converted,
    Biding,
    Countering,
    Substitute,
    Disabled,
}

/// The kind of a condition.
pub open spec fn spec_condition_type(c: PokemonCondition) -> PokemonConditionType {
    match c {
        PokemonCondition::Flinched => PokemonConditionType::Flinched,
        PokemonCondition::Confused { .. } => PokemonConditionType::Confused,
        PokemonCondition::Seeded => PokemonConditionType::Seeded,
        PokemonCondition::Underground => PokemonConditionType::Underground,
        PokemonCondition::InAir => PokemonConditionType::InAir,
        PokemonCondition::Teleported => PokemonConditionType::Teleported,
        PokemonCondition::Enraged => PokemonConditionType::Enraged,
        PokemonCondition::Exhausted { .. } => PokemonConditionType::Exhausted,
        PokemonCondition::Trapped { .. } => PokemonConditionType::Trapped,
        PokemonCondition::Charging => PokemonConditionType::Charging,
        PokemonCondition::Rampaging { .. } => PokemonConditionType::Rampaging,
        PokemonCondition::Transformed { .. } => PokemonConditionType::Transformed,
        PokemonCondition::Converted { .. } => PokemonConditionType::Converted,
        PokemonCondition::Biding { .. } => PokemonConditionType::Biding,
        PokemonCondition::Countering { .. } => PokemonConditionType::Countering,
        PokemonCondition::Substitute { .. } => PokemonConditionType::Substitute,
        PokemonCondition::Disabled { .. } => PokemonConditionType::Disabled,
    }
}

/// The slot of each condition kind in a condition set.
pub open spec fn spec_type_slot(t: PokemonConditionType) -> int {
    match t {
        PokemonConditionType::Flinched => 0,
        PokemonConditionType::Confused => 1,
        PokemonConditionType::Seeded => 2,
        PokemonConditionType::Underground => 3,
        PokemonConditionType::InAir => 4,
        PokemonConditionType::Teleported => 5,
        PokemonConditionType::Enraged => 6,
        PokemonConditionType::Exhausted => 7,
        PokemonConditionType::Trapped => 8,
        PokemonConditionType::Charging => 9,
        PokemonConditionType::Rampaging => 10,
        PokemonConditionType::Transformed => 11,
        PokemonConditionType::Converted => 12,
        PokemonConditionType::Biding => 13,
        PokemonConditionType::Countering => 14,
        PokemonConditionType::Substitute => 15,
        PokemonConditionType::Disabled => 16,
    }
}

fn type_slot(t: PokemonConditionType) -> (r: usize)
    ensures
        r as int == spec_type_slot(t),
        r < 17,
{
    match t {
        PokemonConditionType::Flinched => 0,
        PokemonConditionType::Confused => 1,
        PokemonConditionType::Seeded => 2,
        PokemonConditionType::Underground => 3,
        PokemonConditionType::InAir => 4,
        PokemonConditionType::Teleported => 5,
        PokemonConditionType::Enraged => 6,
        PokemonConditionType::Exhausted => 7,
        PokemonConditionType::Trapped => 8,
        PokemonConditionType::Charging => 9,
        PokemonConditionType::Rampaging => 10,
        PokemonConditionType::Transformed => 11,
        PokemonConditionType::Converted => 12,
        PokemonConditionType::Biding => 13,
        PokemonConditionType::Countering => 14,
        PokemonConditionType::Substitute => 15,
        PokemonConditionType::Disabled => 16,
    }
}

/// Distinct kinds have distinct slots.
proof fn lemma_type_slot_injective(a: PokemonConditionType, b: PokemonConditionType)
    ensures
        spec_type_slot(a) == spec_type_slot(b) ==> a == b,
        0 <= spec_type_slot(a) < 17,
{
}

impl PokemonCondition {
    /// The kind of this condition.
    pub fn get_type(&self) -> (r: PokemonConditionType)
        ensures
            r == spec_condition_type(*self),
    {
        match self {
            PokemonCondition::Flinched => PokemonConditionType::Flinched,
            PokemonCondition::Confused { .. } => PokemonConditionType::Confused,
            PokemonCondition::Seeded => PokemonConditionType::Seeded,
            PokemonCondition::Underground => PokemonConditionType::Underground,
            PokemonCondition::InAir => PokemonConditionType::InAir,
            PokemonCondition::Teleported => PokemonConditionType::Teleported,
            PokemonCondition::Enraged => PokemonConditionType::Enraged,
            PokemonCondition::Exhausted { .. } => PokemonConditionType::Exhausted,
            PokemonCondition::Trapped { .. } => PokemonConditionType::Trapped,
            PokemonCondition::Charging => PokemonConditionType::Charging,
            PokemonCondition::Rampaging { .. } => PokemonConditionType::Rampaging,
            PokemonCondition::Transformed { .. } => PokemonConditionType::Transformed,
            PokemonCondition::Converted { .. } => PokemonConditionType::Converted,
            PokemonCondition::Biding { .. } => PokemonConditionType::Biding,
            PokemonCondition::Countering { .. } => PokemonConditionType::Countering,
            PokemonCondition::Substitute { .. } => PokemonConditionType::Substitute,
            PokemonCondition::Disabled { .. } => PokemonConditionType::Disabled,
        }
    }
}

/// How a condition of the defender reacts to `damage` taken from a move of `category`:
/// Counter strikes back at the attacker with twice a physical hit's damage (wrapping at
/// 16 bits) when the defender survives it; Bide replaces itself with one that has stored the
/// damage too (wrapping at 16 bits); Rage raises the defender's Attack by one stage unless
/// it is at +6; other conditions do not react.
pub open spec fn spec_on_damage_taken(
    c: PokemonCondition,
    damage: u16,
    attacker_target: PlayerTarget,
    defender_target: PlayerTarget,
    category: MoveCategory,
    defender_current_hp: u16,
    defender_stat_stage: i8,
) -> Seq<BattleCommand> {
    match c {
        PokemonCondition::Countering { .. } => if category == MoveCategory::Physical && damage
            < defender_current_hp {
            seq![
                BattleCommand::DealDamage {
                    target: attacker_target,
                    amount: ((damage as nat * 2) % 65536) as u16,
                },
            ]
        } else {
            seq![]
        },
        PokemonCondition::Biding { turns_remaining, damage: stored } => seq![
            BattleCommand::RemoveCondition {
                target: defender_target,
                condition_type: PokemonConditionType::Biding,
            },
            BattleCommand::AddCondition {
                target: defender_target,
                condition: PokemonCondition::Biding {
                    turns_remaining,
                    damage: ((stored as nat + damage as nat) % 65536) as u16,
                },
            },
        ],
        PokemonCondition::Enraged => if defender_stat_stage < 6 {
            seq![BattleCommand::ChangeStatStage { target: defender_target, stat: StatType::Atk, delta: 1 }]
        } else {
            seq![]
        },
        _ => seq![],
    }
}

impl PokemonCondition {
    /// The commands with which this condition of the defender reacts to damage taken (see
    /// `spec_on_damage_taken`).
    pub fn on_damage_taken(
        &self,
        damage: u16,
        attacker_target: PlayerTarget,
        defender_target: PlayerTarget,
        _defender_pokemon_species: Species,
        move_category: MoveCategory,
        defender_current_hp: u16,
        defender_stat_stage: i8,
    ) -> (r: Vec<BattleCommand>)
        requires
            -6 <= defender_stat_stage <= 6,
        ensures
            spec_cmds_safe(r@),
            r@ == spec_on_damage_taken(
                *self,
                damage,
                attacker_target,
                defender_target,
                move_category,
                defender_current_hp,
                defender_stat_stage,
            ),
    {
        let mut commands: Vec<BattleCommand> = Vec::new();
        match *self {
            PokemonCondition::Countering { .. } => {
                let defender_will_faint = damage >= defender_current_hp;
                if move_category == MoveCategory::Physical && !defender_will_faint {
                    let counter_damage = damage.wrapping_mul(2);
                    assert(counter_damage == ((damage as nat * 2) % 65536) as u16);
                    commands.push(BattleCommand::DealDamage { target: attacker_target, amount: counter_damage });
                }
            },
            PokemonCondition::Biding { turns_remaining, damage: stored_damage } => {
                commands.push(
                    BattleCommand::RemoveCondition {
                        target: defender_target,
                        condition_type: PokemonConditionType::Biding,
                    },
                );
                let total = stored_damage.wrapping_add(damage);
                assert(total == ((stored_damage as nat + damage as nat) % 65536) as u16);
                commands.push(
                    BattleCommand::AddCondition {
                        target: defender_target,
                        condition: PokemonCondition::Biding { turns_remaining, damage: total },
                    },
                );
            },
            PokemonCondition::Enraged => {
                let new_stage = if defender_stat_stage + 1 < 6 {
                    defender_stat_stage + 1
                } else {
                    6
                };
                if defender_stat_stage != new_stage {
                    commands.push(
                        BattleCommand::ChangeStatStage { target: defender_target, stat: StatType::Atk, delta: 1 },
                    );
                }
            },
            _ => {},
        }
        proof {
            let expected = spec_on_damage_taken(
                *self,
                damage,
                attacker_target,
                defender_target,
                move_category,
                defender_current_hp,
                defender_stat_stage,
            );
            assert(commands@ =~= expected);
        }
        commands
    }
}

/// At most one condition of each kind, keyed by kind.
#[derive(Debug, Clone, Copy)]
pub struct ConditionSet {
    slots: [Option<PokemonCondition>; 17],
}

impl ConditionSet {
    #[verifier::type_invariant]
    spec fn slots_match_kinds(self) -> bool {
        forall|i: int|
            0 <= i < 17 ==> (#[trigger] self.slots[i] matches Some(c) ==> spec_type_slot(spec_condition_type(c)) == i)
    }

    /// The conditions present, keyed by their kind.
    pub closed spec fn view(self) -> Map<PokemonConditionType, PokemonCondition> {
        Map::new(
            |t: PokemonConditionType| self.slots[spec_type_slot(t)] is Some,
            |t: PokemonConditionType| self.slots[spec_type_slot(t)].unwrap(),
        )
    }

    /// The condition of kind `t`, if present.
    pub open spec fn spec_get(self, t: PokemonConditionType) -> Option<PokemonCondition> {
        if self.view().dom().contains(t) {
            Some(self.view()[t])
        } else {
            None
        }
    }

    /// The conditions in slot order.
    pub closed spec fn spec_in_order(self) -> Seq<PokemonCondition> {
        self.slots@.filter(|o: Option<PokemonCondition>| o is Some).map_values(
            |o: Option<PokemonCondition>| o.unwrap(),
        )
    }

    /// The set with `c` stored under its kind.
    pub closed spec fn spec_insert(self, c: PokemonCondition) -> ConditionSet {
        ConditionSet {
            slots: vstd::array::spec_array_update(self.slots, spec_type_slot(spec_condition_type(c)), Some(c)),
        }
    }

    /// The set without a condition of kind `t`.
    pub closed spec fn spec_remove(self, t: PokemonConditionType) -> ConditionSet {
        ConditionSet { slots: vstd::array::spec_array_update(self.slots, spec_type_slot(t), None) }
    }

    /// The empty set.
    pub closed spec fn spec_empty() -> ConditionSet {
        ConditionSet {
            slots: [
                None,
                None,
                None,
                None,
                None,
                None,
                None,
                None,
                None,
                None,
                None,
                None,
                None,
                None,
                None,
                None,
                None,
            ],
        }
    }

    /// Inserting, removing and clearing act on the view as map insert, remove and empty.
    pub proof fn lemma_updates_view(self, c: PokemonCondition, t: PokemonConditionType)
        ensures
            self.spec_insert(c).view() == self.view().insert(spec_condition_type(c), c),
            self.spec_remove(t).view() == self.view().remove(t),
            Self::spec_empty().view() == Map::<PokemonConditionType, PokemonCondition>::empty(),
    {
        let j = spec_type_slot(spec_condition_type(c));
        assert forall|u: PokemonConditionType|
            #![auto]
            spec_type_slot(u) == j implies u == spec_condition_type(c) by {
            lemma_type_slot_injective(u, spec_condition_type(c));
        }
        assert(self.spec_insert(c).view() =~= self.view().insert(spec_condition_type(c), c));
        assert forall|u: PokemonConditionType|
            #![auto]
            spec_type_slot(u) == spec_type_slot(t) implies u == t by {
            lemma_type_slot_injective(u, t);
        }
        assert(self.spec_remove(t).view() =~= self.view().remove(t));
        assert(Self::spec_empty().view() =~= Map::<PokemonConditionType, PokemonCondition>::empty());
    }

    /// A condition reads back after it is stored, removing a kind leaves none of it, and
    /// either change leaves every other kind as it was.
    pub proof fn lemma_insert_then_get(self, c: PokemonCondition, t: PokemonConditionType)
        ensures
            self.spec_insert(c).spec_get(spec_condition_type(c)) == Some(c),
            t != spec_condition_type(c) ==> self.spec_insert(c).spec_get(t) == self.spec_get(t),
            self.spec_remove(t).spec_get(t) is None,
            forall|u: PokemonConditionType| u != t ==> #[trigger] self.spec_remove(t).spec_get(u) == self.spec_get(u),
    {
        self.lemma_updates_view(c, t);
    }

    /// An empty set.
    pub fn new() -> (r: ConditionSet)
        ensures
            r == Self::spec_empty(),
            r.view() == Map::<PokemonConditionType, PokemonCondition>::empty(),
    {
        let r = ConditionSet {
            slots: [
                None,
                None,
                None,
                None,
                None,
                None,
                None,
                None,
                None,
                None,
                None,
                None,
                None,
                None,
                None,
                None,
                None,
            ],
        };
        assert(r.view() =~= Map::<PokemonConditionType, PokemonCondition>::empty());
        assert(r.slots =~= Self::spec_empty().slots);
        r
    }

    /// Whether a condition of kind `t` is present.
    pub fn contains(&self, t: PokemonConditionType) -> (r: bool)
        ensures
            r == self.view().dom().contains(t),
    {
        let i = type_slot(t);
        self.slots[i].is_some()
    }

    /// The condition of kind `t`, if present.
    pub fn get(&self, t: PokemonConditionType) -> (r: Option<PokemonCondition>)
        ensures
            r == self.spec_get(t),
            r matches Some(c) ==> spec_condition_type(c) == t,
    {
        let i = type_slot(t);
        proof {
            use_type_invariant(self);
            if self.slots[i as int] is Some {
                lemma_type_slot_injective(spec_condition_type(self.slots[i as int].unwrap()), t);
            }
        }
        self.slots[i]
    }

    /// Adds `c`, replacing any condition of the same kind.
    pub fn insert(&mut self, c: PokemonCondition)
        ensures
            *final(self) == old(self).spec_insert(c),
            final(self).view() == old(self).view().insert(spec_condition_type(c), c),
    {
        let i = type_slot(c.get_type());
        proof {
            use_type_invariant(&*self);
        }
        let mut slots = self.slots;
        slots.set(i, Some(c));
        self.slots = slots;
        assert(self.slots =~= old(self).spec_insert(c).slots);
        proof {
            assert forall|t: PokemonConditionType|
                #![auto]
                spec_type_slot(t) != i implies self.slots[spec_type_slot(t)] == old(
                self,
            ).slots[spec_type_slot(t)] by {}
            assert forall|t: PokemonConditionType|
                #![auto]
                spec_type_slot(t) == i implies t == spec_condition_type(c) by {
                lemma_type_slot_injective(t, spec_condition_type(c));
            }
            assert(self.view() =~= old(self).view().insert(spec_condition_type(c), c));
        }
    }

    /// Removes the condition of kind `t`, if any.
    pub fn remove(&mut self, t: PokemonConditionType)
        ensures
            *final(self) == old(self).spec_remove(t),
            final(self).view() == old(self).view().remove(t),
    {
        let i = type_slot(t);
        proof {
            use_type_invariant(&*self);
        }
        let mut slots = self.slots;
        slots.set(i, None);
        self.slots = slots;
        assert(self.slots =~= old(self).spec_remove(t).slots);
        proof {
            assert forall|u: PokemonConditionType|
                #![auto]
                spec_type_slot(u) == i implies u == t by {
                lemma_type_slot_injective(u, t);
            }
            assert(self.view() =~= old(self).view().remove(t));
        }
    }

    /// Removes every condition.
    pub fn clear(&mut self)
        ensures
            *final(self) == Self::spec_empty(),
            final(self).view() == Map::<PokemonConditionType, PokemonCondition>::empty(),
    {
        *self = ConditionSet::new();
    }

    /// The number of conditions present.
    pub fn len(&self) -> (r: usize)
        ensures
            r == self.spec_in_order().len(),
    {
        let v = self.to_vec();
        v.len()
    }

    /// The conditions present, in slot order.
    pub fn to_vec(&self) -> (r: Vec<PokemonCondition>)
        ensures
            r@ == self.spec_in_order(),
            forall|k: int|
                0 <= k < r.len() ==> {
                    let c = #[trigger] r@[k];
                    self.view().dom().contains(spec_condition_type(c)) && self.view()[spec_condition_type(c)] == c
                },
            forall|t: PokemonConditionType| #[trigger]
                self.view().dom().contains(t) ==> r@.contains(self.view()[t]),
    {
        proof {
            use_type_invariant(self);
        }
        let mut r: Vec<PokemonCondition> = Vec::new();
        let mut i: usize = 0;
        while i < 17
            invariant
                0 <= i <= 17,
                r@ == self.slots@.take(i as int).filter(|o: Option<PokemonCondition>| o is Some).map_values(
                    |o: Option<PokemonCondition>| o.unwrap(),
                ),
            decreases 17 - i,
        {
            let ghost pred = |o: Option<PokemonCondition>| o is Some;
            let ghost f = |o: Option<PokemonCondition>| o.unwrap();
            proof {
                let s = self.slots@;
                assert(s.take(i + 1) =~= s.take(i as int).push(s[i as int]));
                s.take(i as int).lemma_filter_push(s[i as int], pred);
            }
            match self.slots[i] {
                Some(c) => {
                    r.push(c);
                    proof {
                        let s = self.slots@;
                        let prev = s.take(i as int).filter(pred);
                        assert(prev.push(s[i as int]).map_values(f) =~= prev.map_values(f).push(c));
                    }
                },
                None => {},
            }
            i = i + 1;
        }
        proof {
            assert(self.slots@.take(17) =~= self.slots@);
            let pred = |o: Option<PokemonCondition>| o is Some;
            let f = |o: Option<PokemonCondition>| o.unwrap();
            let filtered = self.slots@.filter(pred);
            assert forall|k: int| 0 <= k < r.len() implies {
                let c = #[trigger] r@[k];
                self.view().dom().contains(spec_condition_type(c)) && self.view()[spec_condition_type(c)] == c
            } by {
                assert(filtered.contains(filtered[k]));
                self.slots@.lemma_filter_contains_rev(pred, filtered[k]);
                self.slots@.lemma_filter_pred(pred, k);
                let j = choose|j: int| 0 <= j < 17 && self.slots@[j] == filtered[k];
                assert(self.slots[j] == filtered[k]);
                let c = r@[k];
                lemma_type_slot_injective(spec_condition_type(c), spec_condition_type(c));
            }
            assert forall|t: PokemonConditionType| #[trigger]
                self.view().dom().contains(t) implies r@.contains(self.view()[t]) by {
                let j = spec_type_slot(t);
                assert(self.slots@[j] is Some);
                self.slots@.lemma_filter_contains(pred, j);
                let k = choose|k: int| 0 <= k < filtered.len() && filtered[k] == self.slots@[j];
                assert(r@[k] == self.view()[t]);
            }
        }
        r
    }

}

/// The display name of a condition kind.
pub open spec fn spec_condition_type_name(v: PokemonConditionType) -> Seq<char> {
    match v {
        PokemonConditionType::Flinched => "Flinched"@,
        PokemonConditionType::Confused => "Confused"@,
        PokemonConditionType::Seeded => "Seeded"@,
        PokemonConditionType::Underground => "Underground"@,
        PokemonConditionType::InAir => "In the Air"@,
        PokemonConditionType::Teleported => "Teleported"@,
        PokemonConditionType::Enraged => "Enraged"@,
        PokemonConditionType::Exhausted => "Exhausted"@,
        PokemonConditionType::Trapped => "Trapped"@,
        PokemonConditionType::Charging => "Charging Attack"@,
        PokemonConditionType::Rampaging => "Rampaging"@,
        PokemonConditionType::Transformed => "Transformed"@,
        PokemonConditionType::Converted => "Converted"@,
        PokemonConditionType::Biding => "Biding"@,
        PokemonConditionType::Countering => "Countering"@,
        PokemonConditionType::Substitute => "Substitute"@,
        PokemonConditionType::Disabled => "Disabled"@,
    }
}

impl PokemonConditionType {
    /// The display name of the condition kind.
    pub fn display_name(&self) -> (r: &'static str)
        ensures
            r@ == spec_condition_type_name(*self),
    {
        match self {
            PokemonConditionType::Flinched => "Flinched",
            PokemonConditionType::Confused => "Confused",
            PokemonConditionType::Seeded => "Seeded",
            PokemonConditionType::Underground => "Underground",
            PokemonConditionType::InAir => "In the Air",
            PokemonConditionType::Teleported => "Teleported",
            PokemonConditionType::Enraged => "Enraged",
            PokemonConditionType::Exhausted => "Exhausted",
            PokemonConditionType::Trapped => "Trapped",
            PokemonConditionType::Charging => "Charging Attack",
            PokemonConditionType::Rampaging => "Rampaging",
            PokemonConditionType::Transformed => "Transformed",
            PokemonConditionType::Converted => "Converted",
            PokemonConditionType::Biding => "Biding",
            PokemonConditionType::Countering => "Countering",
            PokemonConditionType::Substitute => "Substitute",
            PokemonConditionType::Disabled => "Disabled",
        }
    }
}

} // verus!
