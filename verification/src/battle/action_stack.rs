//! The queue of atomic actions executed while a turn resolves.
use vstd::prelude::*;

use std::collections::VecDeque;

use crate::battle::state::BattleState;
use crate::battle::stats::{effective_speed, spec_effective_speed};
use crate::moves::{spec_move_effects, Move, MoveData, MoveEffect};
use crate::player::{spec_active, PlayerAction};

verus! {

/// An atomic action executed during turn resolution.
#[derive(Debug, Clone, Copy, PartialEq, Eq, Structural)]
pub enum BattleAction {
    /// The player forfeits the battle.
    Forfeit { player_index: usize },
    /// The player switches to another team member.
    Switch { player_index: usize, target_pokemon_index: usize },
    /// One hit of a move; multi-hit moves push further hits with rising `hit_number`.
    AttackHit { attacker_index: usize, defender_index: usize, move_used: Move, hit_number: u8 },
}

/// The actions still to execute this turn, front first.
pub struct ActionStack {
    actions: VecDeque<BattleAction>,
}

impl ActionStack {
    /// The pending actions, front first.
    pub closed spec fn view(&self) -> Seq<BattleAction> {
        self.actions@
    }

    /// An empty stack.
    pub fn new() -> (r: ActionStack)
        ensures
            r.view() == Seq::<BattleAction>::empty(),
    {
        ActionStack { actions: VecDeque::new() }
    }

    /// Adds an action to be executed after all pending ones.
    pub fn push_back(&mut self, action: BattleAction)
        ensures
            final(self).view() == old(self).view().push(action),
    {
        self.actions.push_back(action);
    }

    /// Adds an action to be executed next.
    pub fn push_front(&mut self, action: BattleAction)
        ensures
            final(self).view() == seq![action] + old(self).view(),
    {
        self.actions.push_front(action);
    }

    /// Removes and returns the next action, if any.
    pub fn pop_front(&mut self) -> (r: Option<BattleAction>)
        ensures
            old(self).view().len() == 0 ==> r is None && final(self).view() == old(self).view(),
            old(self).view().len() > 0 ==> r == Some(old(self).view()[0]) && final(self).view()
                == old(self).view().drop_first(),
    {
        let r = self.actions.pop_front();
        proof {
            if old(self).view().len() > 0 {
                assert(self.view() =~= old(self).view().drop_first());
            }
        }
        r
    }

    /// The number of pending actions.
    pub fn len(&self) -> (r: usize)
        ensures
            r == self.view().len(),
    {
        self.actions.len()
    }
}


/// The move priority of a move: its first priority effect, or 0.
pub open spec fn spec_move_priority(effects: Seq<MoveEffect>) -> i8
    decreases effects.len(),
{
    if effects.len() == 0 {
        0
    } else {
        match effects[0] {
            MoveEffect::Priority(p) => p,
            _ => spec_move_priority(effects.drop_first()),
        }
    }
}

/// Whether an action can be ordered and carried out: moves name a slot of the player's
/// active Pokemon, and, to be ordered, one that holds a move.
pub open spec fn spec_action_ready(state: BattleState, player_index: usize, action: PlayerAction) -> bool {
    player_index < 2 && match action {
        PlayerAction::UseMove { move_index } => move_index < 4 && match spec_active(state.players[player_index as int]) {
            Some(pk) => pk.moves[move_index as int] is Some,
            None => false,
        },
        _ => true,
    }
}

/// The order keys of an action: action priority (forfeit 10, switch 6, move 0), move
/// priority, and speed (for a switch, the player index).
pub open spec fn spec_action_priority(player_index: usize, action: PlayerAction, state: BattleState) -> (i8, i8, u16) {
    match action {
        PlayerAction::SwitchPokemon { .. } => (6, 0, player_index as u16),
        PlayerAction::Forfeit => (10, 0, 0),
        PlayerAction::UseMove { move_index } => {
            let player = state.players[player_index as int];
            let pk = spec_active(player).unwrap();
            (
                0,
                spec_move_priority(spec_move_effects(pk.moves[move_index as int].unwrap().move_)),
                spec_effective_speed(pk, player) as u16,
            )
        },
    }
}

/// Whether key `a` orders strictly before key `b`: higher action priority, then higher move
/// priority, then higher speed.
pub open spec fn spec_key_before(a: (i8, i8, u16), b: (i8, i8, u16)) -> bool {
    a.0 > b.0 || (a.0 == b.0 && (a.1 > b.1 || (a.1 == b.1 && a.2 > b.2)))
}

/// `x` inserted into an ordered list after every entry whose key is not behind its own.
pub open spec fn spec_insert_ordered(
    sorted: Seq<(usize, PlayerAction, (i8, i8, u16))>,
    x: (usize, PlayerAction, (i8, i8, u16)),
) -> Seq<(usize, PlayerAction, (i8, i8, u16))>
    decreases sorted.len(),
{
    if sorted.len() == 0 {
        seq![x]
    } else if spec_key_before(x.2, sorted[0].2) {
        seq![x] + sorted
    } else {
        seq![sorted[0]] + spec_insert_ordered(sorted.drop_first(), x)
    }
}

/// The entries ordered by key, entries with equal keys keeping their order (a stable sort).
pub open spec fn spec_stable_order(entries: Seq<(usize, PlayerAction, (i8, i8, u16))>) -> Seq<(usize, PlayerAction, (i8, i8, u16))>
    decreases entries.len(),
{
    if entries.len() == 0 {
        seq![]
    } else {
        spec_insert_ordered(spec_stable_order(entries.drop_last()), entries.last())
    }
}

/// Each action with its order keys.
pub open spec fn spec_keyed(actions: Seq<(usize, PlayerAction)>, state: BattleState) -> Seq<(usize, PlayerAction, (i8, i8, u16))> {
    actions.map_values(|a: (usize, PlayerAction)| (a.0, a.1, spec_action_priority(a.0, a.1, state)))
}

/// The actions in execution order: by their keys (see `spec_key_before`), ties in the
/// order given.
pub open spec fn spec_action_order(actions: Seq<(usize, PlayerAction)>, state: BattleState) -> Seq<(usize, PlayerAction)> {
    spec_stable_order(spec_keyed(actions, state)).map_values(
        |e: (usize, PlayerAction, (i8, i8, u16))| (e.0, e.1),
    )
}

/// The battle action a player action becomes: a forfeit or a switch as such, a move as the
/// first hit of the move in its slot against the other player, or Struggle when the slot is
/// empty or out of PP.
pub open spec fn spec_convert_action(action: PlayerAction, player_index: usize, state: BattleState) -> BattleAction {
    match action {
        PlayerAction::Forfeit => BattleAction::Forfeit { player_index },
        PlayerAction::SwitchPokemon { team_index } => BattleAction::Switch {
            player_index,
            target_pokemon_index: team_index,
        },
        PlayerAction::UseMove { move_index } => {
            let pk = spec_active(state.players[player_index as int]).unwrap();
            let m = match pk.moves[move_index as int] {
                Some(inst) => if inst.pp > 0 {
                    inst.move_
                } else {
                    Move::Struggle
                },
                None => Move::Struggle,
            };
            BattleAction::AttackHit {
                attacker_index: player_index,
                defender_index: (1 - player_index) as usize,
                move_used: m,
                hit_number: 0,
            }
        },
    }
}

/// The queued actions of a battle, with their players, the first player first.
pub open spec fn spec_queued(state: BattleState) -> Seq<(usize, PlayerAction)> {
    let a = match state.action_queue[0] {
        Some(x) => seq![(0usize, x)],
        None => seq![],
    };
    let b = match state.action_queue[1] {
        Some(x) => seq![(1usize, x)],
        None => seq![],
    };
    a + b
}

/// Every queued action can be ordered and carried out.
pub open spec fn spec_queue_ready(state: BattleState) -> bool {
    forall|k: int| 0 <= k < 2 ==> (#[trigger] state.action_queue[k] matches Some(a) ==> spec_action_ready(state, k as usize, a))
}

/// The initial stack of a turn: the queued actions in execution order, converted.
pub open spec fn spec_initial_stack(state: BattleState) -> Seq<BattleAction> {
    spec_action_order(spec_queued(state), state).map_values(
        |e: (usize, PlayerAction)| spec_convert_action(e.1, e.0, state),
    )
}

fn move_priority(effects: &Vec<MoveEffect>) -> (r: i8)
    ensures
        r == spec_move_priority(effects@),
{
    let mut i: usize = 0;
    assert(effects@.skip(0) =~= effects@);
    while i < effects.len()
        invariant
            0 <= i <= effects.len(),
            spec_move_priority(effects@) == spec_move_priority(effects@.skip(i as int)),
        decreases effects.len() - i,
    {
        assert(effects@.skip(i as int).drop_first() =~= effects@.skip(i + 1));
        if let MoveEffect::Priority(p) = effects[i] {
            return p;
        }
        i = i + 1;
    }
    0
}

fn insert_ordered(sorted: &mut Vec<(usize, PlayerAction, (i8, i8, u16))>, x: (usize, PlayerAction, (i8, i8, u16)))
    ensures
        final(sorted)@ == spec_insert_ordered(old(sorted)@, x),
        forall|k: int| 0 <= k < final(sorted)@.len() ==> #[trigger] final(sorted)@[k] == x || old(sorted)@.contains(final(sorted)@[k]),
{
    let ghost s0 = sorted@;
    assert(s0.take(0) + spec_insert_ordered(s0.skip(0), x) =~= spec_insert_ordered(s0, x)) by {
        assert(s0.skip(0) =~= s0);
        assert(s0.take(0) =~= Seq::<(usize, PlayerAction, (i8, i8, u16))>::empty());
    }
    let mut i: usize = 0;
    while i < sorted.len()
        invariant
            0 <= i <= sorted.len(),
            sorted@ == s0,
            s0 == old(sorted)@,
            spec_insert_ordered(s0, x) == s0.take(i as int) + spec_insert_ordered(s0.skip(i as int), x),
        decreases sorted.len() - i,
    {
        let k = sorted[i].2;
        if x.2.0 > k.0 || (x.2.0 == k.0 && (x.2.1 > k.1 || (x.2.1 == k.1 && x.2.2 > k.2))) {
            sorted.insert(i, x);
            assert(spec_insert_ordered(s0.skip(i as int), x) == seq![x] + s0.skip(i as int));
            assert(sorted@ =~= s0.take(i as int) + (seq![x] + s0.skip(i as int)));
            assert forall|k: int| 0 <= k < sorted@.len() implies #[trigger] sorted@[k] == x || s0.contains(sorted@[k]) by {
                if k < i {
                    assert(sorted@[k] == s0[k]);
                } else if k > i {
                    assert(sorted@[k] == s0[k - 1]);
                }
            }
            return;
        }
        proof {
            let rest = s0.skip(i as int);
            assert(rest.drop_first() =~= s0.skip(i + 1));
            assert(s0.take(i + 1) =~= s0.take(i as int) + seq![rest[0]]);
            assert(s0.take(i as int) + spec_insert_ordered(rest, x) =~= s0.take(i + 1)
                + spec_insert_ordered(s0.skip(i + 1), x));
        }
        i = i + 1;
    }
    sorted.push(x);
    assert(s0.skip(i as int) =~= Seq::<(usize, PlayerAction, (i8, i8, u16))>::empty());
    assert(s0.take(i as int) =~= s0);
    assert(sorted@ =~= s0 + seq![x]);
    assert forall|k: int| 0 <= k < sorted@.len() implies #[trigger] sorted@[k] == x || s0.contains(sorted@[k]) by {
        if k < s0.len() {
            assert(sorted@[k] == s0[k]);
        }
    }
}

impl ActionStack {
    /// The order keys of an action (see `spec_action_priority`).
    pub fn calculate_action_priority(player_index: usize, action: &PlayerAction, battle_state: &BattleState) -> (r: (
        i8,
        i8,
        u16,
    ))
        requires
            battle_state.wf(),
            spec_action_ready(*battle_state, player_index, *action),
        ensures
            r == spec_action_priority(player_index, *action, *battle_state),
    {
        match action {
            PlayerAction::SwitchPokemon { .. } => (6, 0, player_index as u16),
            PlayerAction::Forfeit => (10, 0, 0),
            PlayerAction::UseMove { move_index } => {
                let player = &battle_state.players[player_index];
                let active_pokemon = player.active_pokemon().unwrap();
                let move_instance = active_pokemon.moves[*move_index].unwrap();
                let move_data = MoveData::get_move_data(move_instance.move_);
                let speed = effective_speed(active_pokemon, player);
                let priority = move_priority(&move_data.effects);
                (0, priority, speed)
            },
        }
    }

    /// The actions in execution order (see `spec_action_order`).
    pub fn determine_action_order(battle_state: &BattleState, actions: &Vec<(usize, PlayerAction)>) -> (r: Vec<
        (usize, PlayerAction),
    >)
        requires
            battle_state.wf(),
            forall|k: int| 0 <= k < actions.len() ==> spec_action_ready(*battle_state, #[trigger] actions@[k].0, actions@[k].1),
        ensures
            r@ == spec_action_order(actions@, *battle_state),
            forall|k: int| 0 <= k < r.len() ==> spec_action_ready(*battle_state, #[trigger] r@[k].0, r@[k].1),
    {
        let mut sorted: Vec<(usize, PlayerAction, (i8, i8, u16))> = Vec::new();
        let ghost keyed = spec_keyed(actions@, *battle_state);
        let mut i: usize = 0;
        while i < actions.len()
            invariant
                0 <= i <= actions.len(),
                battle_state.wf(),
                forall|k: int| 0 <= k < actions.len() ==> spec_action_ready(*battle_state, #[trigger] actions@[k].0, actions@[k].1),
                keyed == spec_keyed(actions@, *battle_state),
                sorted@ == spec_stable_order(keyed.take(i as int)),
                forall|k: int| 0 <= k < sorted.len() ==> spec_action_ready(*battle_state, #[trigger] sorted@[k].0, sorted@[k].1),
            decreases actions.len() - i,
        {
            let (player_index, action) = actions[i];
            assert(spec_action_ready(*battle_state, actions@[i as int].0, actions@[i as int].1));
            let priority = Self::calculate_action_priority(player_index, &action, battle_state);
            assert(keyed.take(i + 1).drop_last() =~= keyed.take(i as int));
            let ghost before = sorted@;
            insert_ordered(&mut sorted, (player_index, action, priority));
            assert forall|k: int| 0 <= k < sorted.len() implies spec_action_ready(*battle_state, #[trigger] sorted@[k].0, sorted@[k].1) by {
                if sorted@[k] != (player_index, action, priority) {
                    let j = choose|j: int| 0 <= j < before.len() && before[j] == sorted@[k];
                    assert(spec_action_ready(*battle_state, before[j].0, before[j].1));
                }
            }
            i = i + 1;
        }
        assert(keyed.take(i as int) =~= keyed);
        let mut r: Vec<(usize, PlayerAction)> = Vec::new();
        let mut j: usize = 0;
        while j < sorted.len()
            invariant
                0 <= j <= sorted.len(),
                r@ == sorted@.take(j as int).map_values(|e: (usize, PlayerAction, (i8, i8, u16))| (e.0, e.1)),
                forall|k: int| 0 <= k < sorted.len() ==> spec_action_ready(*battle_state, #[trigger] sorted@[k].0, sorted@[k].1),
            decreases sorted.len() - j,
        {
            let (p, a, _) = sorted[j];
            r.push((p, a));
            j = j + 1;
            assert(r@ =~= sorted@.take(j as int).map_values(|e: (usize, PlayerAction, (i8, i8, u16))| (e.0, e.1)));
        }
        assert(sorted@.take(j as int) =~= sorted@);
        assert forall|k: int| 0 <= k < r.len() implies spec_action_ready(*battle_state, #[trigger] r@[k].0, r@[k].1) by {
            assert(r@[k] == (sorted@[k].0, sorted@[k].1));
        }
        r
    }

    /// The battle action a player action becomes (see `spec_convert_action`).
    pub fn convert_player_action_to_battle_action(player_action: &PlayerAction, player_index: usize, battle_state: &BattleState) -> (r:
        BattleAction)
        requires
            battle_state.wf(),
            player_index < 2,
            player_action matches PlayerAction::UseMove { move_index } ==> move_index < 4 && spec_active(
                battle_state.players[player_index as int],
            ) is Some,
        ensures
            r == spec_convert_action(*player_action, player_index, *battle_state),
    {
        match player_action {
            PlayerAction::Forfeit => BattleAction::Forfeit { player_index },
            PlayerAction::SwitchPokemon { team_index } => BattleAction::Switch {
                player_index,
                target_pokemon_index: *team_index,
            },
            PlayerAction::UseMove { move_index } => {
                let player = &battle_state.players[player_index];
                let active_pokemon = player.active_pokemon().unwrap();
                let final_move = match active_pokemon.moves[*move_index] {
                    Some(inst) => if inst.pp > 0 {
                        inst.move_
                    } else {
                        Move::Struggle
                    },
                    None => Move::Struggle,
                };
                BattleAction::AttackHit {
                    attacker_index: player_index,
                    defender_index: 1 - player_index,
                    move_used: final_move,
                    hit_number: 0,
                }
            },
        }
    }

    /// The stack a turn starts with: the queued actions in execution order, converted (see
    /// `spec_initial_stack`).
    pub fn build_initial(battle_state: &BattleState) -> (r: ActionStack)
        requires
            battle_state.wf(),
            spec_queue_ready(*battle_state),
        ensures
            r.view() == spec_initial_stack(*battle_state),
    {
        let mut actions: Vec<(usize, PlayerAction)> = Vec::new();
        if let Some(a) = battle_state.action_queue[0] {
            actions.push((0, a));
        }
        if let Some(a) = battle_state.action_queue[1] {
            actions.push((1, a));
        }
        assert(actions@ =~= spec_queued(*battle_state));
        assert forall|k: int| 0 <= k < actions.len() implies spec_action_ready(*battle_state, #[trigger] actions@[k].0, actions@[k].1) by {
            assert(battle_state.action_queue[actions@[k].0 as int] == Some(actions@[k].1));
        }
        let order = Self::determine_action_order(battle_state, &actions);
        let mut stack = ActionStack::new();
        let ghost converted = spec_initial_stack(*battle_state);
        let mut i: usize = 0;
        while i < order.len()
            invariant
                0 <= i <= order.len(),
                battle_state.wf(),
                order@ == spec_action_order(spec_queued(*battle_state), *battle_state),
                forall|k: int| 0 <= k < order.len() ==> spec_action_ready(*battle_state, #[trigger] order@[k].0, order@[k].1),
                stack.view() == order@.take(i as int).map_values(
                    |e: (usize, PlayerAction)| spec_convert_action(e.1, e.0, *battle_state),
                ),
            decreases order.len() - i,
        {
            let (player_index, player_action) = order[i];
            assert(spec_action_ready(*battle_state, order@[i as int].0, order@[i as int].1));
            let battle_action = Self::convert_player_action_to_battle_action(&player_action, player_index, battle_state);
            stack.push_back(battle_action);
            i = i + 1;
            assert(stack.view() =~= order@.take(i as int).map_values(
                |e: (usize, PlayerAction)| spec_convert_action(e.1, e.0, *battle_state),
            ));
        }
        assert(order@.take(i as int) =~= order@);
        stack
    }
}

/// No entry of the list has a key strictly before the key of an earlier entry.
pub open spec fn spec_keys_ordered(s: Seq<(usize, PlayerAction, (i8, i8, u16))>) -> bool {
    forall|i: int, j: int| 0 <= i < j < s.len() ==> !spec_key_before(#[trigger] s[j].2, #[trigger] s[i].2)
}

proof fn lemma_insert_ordered_keeps_order(
    sorted: Seq<(usize, PlayerAction, (i8, i8, u16))>,
    x: (usize, PlayerAction, (i8, i8, u16)),
)
    requires
        spec_keys_ordered(sorted),
    ensures
        spec_keys_ordered(spec_insert_ordered(sorted, x)),
        spec_insert_ordered(sorted, x).len() == sorted.len() + 1,
        forall|k: int| 0 <= k < spec_insert_ordered(sorted, x).len() ==> #[trigger] spec_insert_ordered(sorted, x)[k]
            == x || sorted.contains(spec_insert_ordered(sorted, x)[k]),
    decreases sorted.len(),
{
    let r = spec_insert_ordered(sorted, x);
    if sorted.len() == 0 {
    } else if spec_key_before(x.2, sorted[0].2) {
        assert forall|i: int, j: int| 0 <= i < j < r.len() implies !spec_key_before(#[trigger] r[j].2, #[trigger] r[i].2) by {
            if i == 0 {
                assert(r[j] == sorted[j - 1]);
                if j - 1 > 0 {
                    assert(!spec_key_before(sorted[j - 1].2, sorted[0].2));
                }
            } else {
                assert(r[i] == sorted[i - 1] && r[j] == sorted[j - 1]);
            }
        }
        assert forall|k: int| 0 <= k < r.len() implies #[trigger] r[k] == x || sorted.contains(r[k]) by {
            if k > 0 {
                assert(r[k] == sorted[k - 1]);
            }
        }
    } else {
        let rest = sorted.drop_first();
        assert(spec_keys_ordered(rest)) by {
            assert forall|i: int, j: int| 0 <= i < j < rest.len() implies !spec_key_before(#[trigger] rest[j].2, #[trigger] rest[i].2) by {
                assert(rest[i] == sorted[i + 1] && rest[j] == sorted[j + 1]);
            }
        }
        lemma_insert_ordered_keeps_order(rest, x);
        let tail = spec_insert_ordered(rest, x);
        assert(r == seq![sorted[0]] + tail);
        assert forall|k: int| 0 <= k < tail.len() implies !spec_key_before(#[trigger] tail[k].2, sorted[0].2) by {
            if tail[k] != x {
                let m = choose|m: int| 0 <= m < rest.len() && rest[m] == tail[k];
                assert(sorted[m + 1] == rest[m]);
            }
        }
        assert forall|i: int, j: int| 0 <= i < j < r.len() implies !spec_key_before(#[trigger] r[j].2, #[trigger] r[i].2) by {
            if i == 0 {
                assert(r[j] == tail[j - 1]);
            } else {
                assert(r[i] == tail[i - 1] && r[j] == tail[j - 1]);
            }
        }
        assert forall|k: int| 0 <= k < r.len() implies #[trigger] r[k] == x || sorted.contains(r[k]) by {
            if k == 0 {
                assert(sorted[0] == r[0]);
            } else {
                assert(r[k] == tail[k - 1]);
                if tail[k - 1] != x {
                    let m = choose|m: int| 0 <= m < rest.len() && rest[m] == tail[k - 1];
                    assert(sorted[m + 1] == rest[m]);
                }
            }
        }
    }
}

/// The stable ordering puts every entry in key order and loses none: it has as many
/// entries as it was given, each one of them, and no entry comes after one it orders
/// before.
pub proof fn lemma_stable_order_sorts(entries: Seq<(usize, PlayerAction, (i8, i8, u16))>)
    ensures
        spec_keys_ordered(spec_stable_order(entries)),
        spec_stable_order(entries).len() == entries.len(),
        forall|k: int| 0 <= k < entries.len() ==> entries.contains(#[trigger] spec_stable_order(entries)[k]),
    decreases entries.len(),
{
    if entries.len() > 0 {
        let init = entries.drop_last();
        lemma_stable_order_sorts(init);
        lemma_insert_ordered_keeps_order(spec_stable_order(init), entries.last());
        let r = spec_stable_order(entries);
        assert forall|k: int| 0 <= k < entries.len() implies entries.contains(#[trigger] r[k]) by {
            if r[k] == entries.last() {
                assert(entries[entries.len() - 1] == r[k]);
            } else {
                let m = choose|m: int| 0 <= m < spec_stable_order(init).len() && spec_stable_order(init)[m] == r[k];
                assert(init.contains(spec_stable_order(init)[m]));
                let n = choose|n: int| 0 <= n < init.len() && init[n] == r[k];
                assert(entries[n] == init[n]);
            }
        }
    }
}

/// Turn order follows priority: a forfeit goes before a switch, and a switch before any
/// move, whoever submitted them and whatever the move.
pub proof fn lemma_forfeit_then_switch_then_moves(
    state: BattleState,
    p1: usize,
    p2: usize,
    team_index: usize,
    move_index: usize,
)
    ensures
        spec_key_before(
            spec_action_priority(p1, PlayerAction::Forfeit, state),
            spec_action_priority(p2, PlayerAction::SwitchPokemon { team_index }, state),
        ),
        spec_key_before(
            spec_action_priority(p1, PlayerAction::SwitchPokemon { team_index }, state),
            spec_action_priority(p2, PlayerAction::UseMove { move_index }, state),
        ),
{
}

fn action_is_ready(battle_state: &BattleState, player_index: usize, action: PlayerAction) -> (r: bool)
    requires
        battle_state.wf(),
        player_index < 2,
    ensures
        r == spec_action_ready(*battle_state, player_index, action),
{
    match action {
        PlayerAction::UseMove { move_index } => {
            if move_index >= 4 {
                return false;
            }
            match battle_state.players[player_index].active_pokemon() {
                Some(pk) => pk.moves[move_index].is_some(),
                None => false,
            }
        },
        _ => true,
    }
}

/// Whether every queued action can be ordered and carried out (see `spec_queue_ready`): the
/// check to make before resolving a turn.
pub fn queue_is_ready(battle_state: &BattleState) -> (r: bool)
    requires
        battle_state.wf(),
    ensures
        r == spec_queue_ready(*battle_state),
{
    let first = match battle_state.action_queue[0] {
        Some(a) => action_is_ready(battle_state, 0, a),
        None => true,
    };
    let second = match battle_state.action_queue[1] {
        Some(a) => action_is_ready(battle_state, 1, a),
        None => true,
    };
    proof {
        if !first {
            assert(!(battle_state.action_queue[0] matches Some(a) ==> spec_action_ready(*battle_state, 0, a)));
        }
        if !second {
            assert(!(battle_state.action_queue[1] matches Some(a) ==> spec_action_ready(*battle_state, 1, a)));
        }
    }
    first && second
}

/// Effective speed fits the 16-bit speed key.
proof fn lemma_effective_speed_fits(pokemon: crate::pokemon::PokemonInst, player: crate::player::BattlePlayer)
    ensures
        spec_effective_speed(pokemon, player) <= 65535,
{
}

/// Two moves in one turn go in order of move priority, and at equal move priority the
/// Pokemon with the strictly higher effective speed moves first; on a speed tie the first
/// player moves first.
pub proof fn lemma_move_order(state: BattleState, move0: usize, move1: usize)
    requires
        state.action_queue[0] == Some(PlayerAction::UseMove { move_index: move0 }),
        state.action_queue[1] == Some(PlayerAction::UseMove { move_index: move1 }),
        spec_action_ready(state, 0, PlayerAction::UseMove { move_index: move0 }),
        spec_action_ready(state, 1, PlayerAction::UseMove { move_index: move1 }),
    ensures
        ({
            let pk0 = spec_active(state.players[0]).unwrap();
            let pk1 = spec_active(state.players[1]).unwrap();
            let pr0 = spec_move_priority(spec_move_effects(pk0.moves[move0 as int].unwrap().move_));
            let pr1 = spec_move_priority(spec_move_effects(pk1.moves[move1 as int].unwrap().move_));
            let sp0 = spec_effective_speed(pk0, state.players[0]);
            let sp1 = spec_effective_speed(pk1, state.players[1]);
            let order = spec_action_order(spec_queued(state), state);
            &&& order.len() == 2
            &&& pr0 > pr1 ==> order[0].0 == 0 && order[1].0 == 1
            &&& pr1 > pr0 ==> order[0].0 == 1 && order[1].0 == 0
            &&& pr0 == pr1 && sp0 > sp1 ==> order[0].0 == 0 && order[1].0 == 1
            &&& pr0 == pr1 && sp1 > sp0 ==> order[0].0 == 1 && order[1].0 == 0
            &&& pr0 == pr1 && sp0 == sp1 ==> order[0].0 == 0 && order[1].0 == 1
        }),
{
    reveal_with_fuel(spec_stable_order, 3);
    reveal_with_fuel(spec_insert_ordered, 3);
    let pk0 = spec_active(state.players[0]).unwrap();
    let pk1 = spec_active(state.players[1]).unwrap();
    lemma_effective_speed_fits(pk0, state.players[0]);
    lemma_effective_speed_fits(pk1, state.players[1]);
    let a0 = PlayerAction::UseMove { move_index: move0 };
    let a1 = PlayerAction::UseMove { move_index: move1 };
    let q = spec_queued(state);
    assert(q =~= seq![(0usize, a0), (1usize, a1)]);
    let keyed = spec_keyed(q, state);
    let e0 = (0usize, a0, spec_action_priority(0, a0, state));
    let e1 = (1usize, a1, spec_action_priority(1, a1, state));
    assert(keyed =~= seq![e0, e1]);
    assert(keyed.drop_last() =~= seq![e0]);
    assert(seq![e0].drop_last() =~= Seq::<(usize, PlayerAction, (i8, i8, u16))>::empty());
    assert(spec_stable_order(seq![e0]) =~= seq![e0]);
    let sorted = spec_insert_ordered(seq![e0], e1);
    assert(seq![e0].drop_first() =~= Seq::<(usize, PlayerAction, (i8, i8, u16))>::empty());
    if spec_key_before(e1.2, e0.2) {
        assert(sorted =~= seq![e1, e0]);
    } else {
        assert(sorted =~= seq![e0, e1]);
    }
    assert(spec_stable_order(keyed) == sorted);
}

} // verus!
