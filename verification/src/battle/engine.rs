//! Turn resolution: collecting actions, executing each battle action through commands, and
//! the bookkeeping at the end of a turn.
use vstd::prelude::*;

use crate::battle::action_stack::{spec_initial_stack, spec_queue_ready, ActionStack, BattleAction};
use crate::battle::ai::Behavior;
use crate::battle::calculators::{
    calculate_action_prevention, calculate_attack_outcome, calculate_end_turn_commands,
    calculate_forced_action_commands, calculate_forfeit_commands, calculate_switch_commands,
    spec_action_prevention, spec_attack_outcome, spec_end_turn, spec_forced_action_player,
    spec_forfeit_commands, spec_switch_commands,
};
use crate::battle::commands::{
    execute_command, execute_command_batch, lemma_safe_batch_allowed, spec_cmds_safe,
    spec_batch_allowed, spec_sets_no_game_state, spec_command_target, spec_emit_events, spec_execute_batch, spec_execute_command, spec_from_index,
    spec_target_index, BattleCommand, PlayerTarget,
};
use crate::battle::conditions::{PokemonCondition, PokemonConditionType};
use crate::battle::state::{
    spec_events_extend, spec_keeps_phase, spec_keeps_turn, ActionFailureReason, BattleEvent, BattleState, EventBus, GameState, TurnRng,
};
use crate::battle::stats::{get_type_effectiveness, spec_effectiveness_percent};
use crate::moves::{spec_move_category, spec_move_type, Move, MoveData};
use crate::player::{spec_active, spec_current_types, BattlePlayer, PlayerAction, PlayerType};
use crate::schema::MoveCategory;

verus! {

/// The players that act in a game state: both while waiting for actions or for both
/// replacements, the one that must replace its Pokemon, or none.
pub open spec fn spec_players_to_act(g: GameState) -> Seq<usize> {
    match g {
        GameState::WaitingForActions | GameState::WaitingForBothReplacements => seq![0usize, 1usize],
        GameState::WaitingForPlayer1Replacement => seq![0usize],
        GameState::WaitingForPlayer2Replacement => seq![1usize],
        _ => seq![],
    }
}

/// Whether player `i` is a computer-controlled player that has to act and has no action yet.
pub open spec fn spec_npc_needs_action(state: BattleState, i: usize) -> bool {
    spec_players_to_act(state.game_state).contains(i) && state.players[i as int].player_type == PlayerType::NPC
        && state.action_queue[i as int] is None
}

/// The computer-controlled players that need an action, the first player first.
pub open spec fn spec_npc_players(state: BattleState) -> Seq<usize> {
    (if spec_npc_needs_action(state, 0) {
        seq![0usize]
    } else {
        seq![]
    }) + (if spec_npc_needs_action(state, 1) {
        seq![1usize]
    } else {
        seq![]
    })
}

/// The actions `ai` chooses for every computer-controlled player that needs one, with the
/// player's index, the first player first; each action is one `ai` decided for that player
/// in this battle.
pub fn collect_npc_actions<B: Behavior>(battle_state: &BattleState, ai: &B) -> (r: Vec<(usize, PlayerAction)>)
    ensures
        r@.len() == spec_npc_players(*battle_state).len(),
        forall|k: int| 0 <= k < r@.len() ==> #[trigger] r@[k].0 == spec_npc_players(*battle_state)[k],
        forall|k: int| 0 <= k < r@.len() ==> ai.spec_decides(#[trigger] r@[k].0, *battle_state, r@[k].1),
{
    let mut npc_actions: Vec<(usize, PlayerAction)> = Vec::new();
    let players_to_act: Vec<usize> = match battle_state.game_state {
        GameState::WaitingForActions | GameState::WaitingForBothReplacements => vec![0, 1],
        GameState::WaitingForPlayer1Replacement => vec![0],
        GameState::WaitingForPlayer2Replacement => vec![1],
        _ => {
            assert(spec_npc_players(*battle_state) =~= Seq::<usize>::empty());
            return npc_actions;
        },
    };
    assert(players_to_act@ =~= spec_players_to_act(battle_state.game_state));
    let ghost expected = spec_npc_players(*battle_state);
    let mut i: usize = 0;
    while i < players_to_act.len()
        invariant
            0 <= i <= players_to_act.len(),
            players_to_act@ == spec_players_to_act(battle_state.game_state),
            expected == spec_npc_players(*battle_state),
            players_to_act@ == seq![0usize, 1usize] || players_to_act@ == seq![0usize] || players_to_act@
                == seq![1usize],
            npc_actions@.len() == spec_npc_players_prefix(*battle_state, players_to_act@.take(i as int)).len(),
            forall|k: int|
                0 <= k < npc_actions@.len() ==> #[trigger] npc_actions@[k].0 == spec_npc_players_prefix(
                    *battle_state,
                    players_to_act@.take(i as int),
                )[k],
            forall|k: int| 0 <= k < npc_actions@.len() ==> ai.spec_decides(
                #[trigger] npc_actions@[k].0,
                *battle_state,
                npc_actions@[k].1,
            ),
        decreases players_to_act.len() - i,
    {
        let player_index = players_to_act[i];
        let ghost before = npc_actions@;
        assert(players_to_act@.take(i + 1).drop_last() =~= players_to_act@.take(i as int));
        if battle_state.players[player_index].player_type == PlayerType::NPC && battle_state.action_queue[player_index].is_none() {
            let action = ai.decide_action(player_index, battle_state);
            npc_actions.push((player_index, action));
        }
        i = i + 1;
        proof {
            let pre = spec_npc_players_prefix(*battle_state, players_to_act@.take(i - 1));
            let post = spec_npc_players_prefix(*battle_state, players_to_act@.take(i as int));
            assert forall|k: int| 0 <= k < npc_actions@.len() implies #[trigger] npc_actions@[k].0 == post[k] by {
                if k < before.len() {
                    assert(npc_actions@[k] == before[k]);
                }
            }
        }
    }
    proof {
        assert(players_to_act@.take(i as int) =~= players_to_act@);
        lemma_npc_players_prefix(*battle_state);
    }
    npc_actions
}

/// The players among `candidates` that are computer-controlled and have no action yet, in order.
pub open spec fn spec_npc_players_prefix(state: BattleState, candidates: Seq<usize>) -> Seq<usize>
    decreases candidates.len(),
{
    if candidates.len() == 0 {
        seq![]
    } else {
        let i = candidates.last();
        spec_npc_players_prefix(state, candidates.drop_last()) + if state.players[i as int].player_type
            == PlayerType::NPC && state.action_queue[i as int] is None {
            seq![i]
        } else {
            seq![]
        }
    }
}

proof fn lemma_npc_players_prefix(state: BattleState)
    ensures
        spec_npc_players_prefix(state, spec_players_to_act(state.game_state)) =~= spec_npc_players(state),
{
    let c = spec_players_to_act(state.game_state);
    reveal_with_fuel(spec_npc_players_prefix, 3);
    if c.len() == 2 {
        assert(c.drop_last() =~= seq![0usize]);
        assert(c.drop_last().drop_last() =~= Seq::<usize>::empty());
        assert(c[0] == 0 && c[1] == 1);
        assert(c.contains(0usize) && c.contains(1usize));
    } else if c.len() == 1 {
        assert(c.drop_last() =~= Seq::<usize>::empty());
        if c[0] == 0 {
            assert(c.contains(0usize));
            assert(!c.contains(1usize));
        } else {
            assert(c.contains(1usize));
            assert(!c.contains(0usize));
        }
    } else {
        assert(!c.contains(0usize) && !c.contains(1usize));
    }
}

/// Whether the queued actions allow the turn to be resolved: both players' actions while
/// waiting for actions or for both replacements, the replacing player's action otherwise.
pub open spec fn spec_ready_for_turn_resolution(state: BattleState) -> bool {
    match state.game_state {
        GameState::WaitingForActions | GameState::WaitingForBothReplacements => state.action_queue[0] is Some
            && state.action_queue[1] is Some,
        GameState::WaitingForPlayer1Replacement => state.action_queue[0] is Some,
        GameState::WaitingForPlayer2Replacement => state.action_queue[1] is Some,
        _ => false,
    }
}

/// Whether the battle can resolve its turn (see `spec_ready_for_turn_resolution`).
pub fn ready_for_turn_resolution(battle_state: &BattleState) -> (r: bool)
    ensures
        r == spec_ready_for_turn_resolution(*battle_state),
{
    match battle_state.game_state {
        GameState::WaitingForActions => battle_state.action_queue[0].is_some()
            && battle_state.action_queue[1].is_some(),
        GameState::WaitingForPlayer1Replacement => battle_state.action_queue[0].is_some(),
        GameState::WaitingForPlayer2Replacement => battle_state.action_queue[1].is_some(),
        GameState::WaitingForBothReplacements => battle_state.action_queue[0].is_some()
            && battle_state.action_queue[1].is_some(),
        _ => false,
    }
}


/// The state, stack and events after a batch of commands.
pub open spec fn spec_batch(s: BattleState, stack: Seq<BattleAction>, bus: Seq<BattleEvent>, cmds: Seq<BattleCommand>) -> (BattleState, Seq<BattleAction>, Seq<BattleEvent>) {
    let (s2, st2, b2, _) = spec_execute_batch(s, stack, bus, cmds);
    (s2, st2, b2)
}

/// Whether an action names players and team slots that exist (an attack by a fainted
/// Pokemon never reads its defender, so its defender index is not checked).
pub open spec fn spec_action_in_range(action: BattleAction, s: BattleState) -> bool {
    match action {
        BattleAction::Forfeit { .. } => true,
        BattleAction::Switch { player_index, target_pokemon_index } => player_index < 2 && target_pokemon_index < 6,
        BattleAction::AttackHit { attacker_index, defender_index, .. } => attacker_index < 2 && (
        spec_attacker_fainted(s, attacker_index) || defender_index < 2),
    }
}

/// One hit of an attack: nothing happens when the defender is absent or fainted; otherwise
/// the attack's commands are executed.
pub open spec fn spec_attack_hit(
    attacker_index: usize,
    defender_index: usize,
    m: Move,
    hit_number: u8,
    s: BattleState,
    stack: Seq<BattleAction>,
    bus: Seq<BattleEvent>,
    rolls: Seq<u8>,
) -> (BattleState, Seq<BattleAction>, Seq<BattleEvent>, nat) {
    match spec_active(s.players[defender_index as int]) {
        Some(d) => if d.curr_hp == 0 {
            (s, stack, bus, 0)
        } else {
            let (cmds, used) = spec_attack_outcome(s, attacker_index, defender_index, m, hit_number, rolls);
            let (s2, st2, b2) = spec_batch(s, stack, bus, cmds);
            (s2, st2, b2, used)
        },
        None => (s, stack, bus, 0),
    }
}

/// Executes one hit of an attack (see `spec_attack_hit`).
pub fn execute_attack_hit(
    attacker_index: usize,
    defender_index: usize,
    move_used: Move,
    hit_number: u8,
    action_stack: &mut ActionStack,
    bus: &mut EventBus,
    rng: &mut TurnRng,
    battle_state: &mut BattleState,
)
    requires
        old(battle_state).wf(),
        attacker_index < 2,
        defender_index < 2,
        spec_attack_hit(
            attacker_index,
            defender_index,
            move_used,
            hit_number,
            *old(battle_state),
            old(action_stack).view(),
            old(bus).view(),
            old(rng).remaining(),
        ).3 <= old(rng).remaining().len(),
    ensures
        ({
            let (s2, st2, b2, used) = spec_attack_hit(
                attacker_index,
                defender_index,
                move_used,
                hit_number,
                *old(battle_state),
                old(action_stack).view(),
                old(bus).view(),
                old(rng).remaining(),
            );
            &&& *final(battle_state) == s2
            &&& final(action_stack).view() == st2
            &&& final(bus).view() == b2
            &&& final(rng).remaining() == old(rng).remaining().skip(used as int)
        }),
        final(battle_state).wf(),
        spec_keeps_turn(*old(battle_state), *final(battle_state), old(bus).view(), final(bus).view()),
        spec_keeps_phase(*old(battle_state), *final(battle_state)),
{
    assert(old(rng).remaining().skip(0) =~= old(rng).remaining());
    let defender_gone = match battle_state.players[defender_index].active_pokemon() {
        Some(p) => p.is_fainted(),
        None => true,
    };
    if defender_gone {
        return;
    }
    let commands = calculate_attack_outcome(battle_state, attacker_index, defender_index, move_used, hit_number, rng);
    proof {
        lemma_safe_batch_allowed(*battle_state, action_stack.view(), commands@);
    }
    let _ = execute_command_batch(commands, battle_state, bus, action_stack);
}

/// Whether the attacker's slot holds a fainted Pokemon.
pub open spec fn spec_attacker_fainted(s: BattleState, attacker_index: usize) -> bool {
    spec_active(s.players[attacker_index as int]) matches Some(p) && p.curr_hp == 0
}

/// The pre-hit checks on the defender: an attacking move against a fainted defender fails
/// (no enemy present), and one against an immune defender is reported as having no effect.
pub open spec fn spec_defender_block(s: BattleState, defender_index: usize, m: Move) -> Option<BattleEvent> {
    match spec_active(s.players[defender_index as int]) {
        Some(d) => if spec_move_category(m) == MoveCategory::Status {
            None
        } else if d.curr_hp == 0 {
            Some(BattleEvent::ActionFailed { reason: ActionFailureReason::NoEnemyPresent })
        } else if spec_effectiveness_percent(
            spec_move_type(m),
            spec_current_types(d, s.players[defender_index as int]),
        ) == 0 {
            Some(BattleEvent::AttackTypeEffectiveness { multiplier_percent: 0 })
        } else {
            None
        },
        None => None,
    }
}

/// The start of an attack: on the first hit the move's PP is spent (failing with no PP
/// left) and it becomes the last move used, and an enraged Pokemon whose move differs from
/// the move it used before calms down. Gives the state, stack and events after it and whether the attack goes on.
pub open spec fn spec_attack_start(
    attacker_index: usize,
    m: Move,
    hit_number: u8,
    s: BattleState,
    stack: Seq<BattleAction>,
    bus: Seq<BattleEvent>,
) -> (BattleState, Seq<BattleAction>, Seq<BattleEvent>, bool) {
    let t = spec_from_index(attacker_index as int);
    if hit_number == 0 {
        let (s2, st2, b2, r2) = spec_execute_command(s, stack, bus, BattleCommand::UsePP { target: t, move_used: m });
        if r2 is Err {
            (s2, st2, b2.push(BattleEvent::ActionFailed { reason: ActionFailureReason::NoPPRemaining { move_used: m } }), false)
        } else {
            let (s3, st3, b3, _) = spec_execute_command(s2, st2, b2, BattleCommand::SetLastMove { target: t, move_used: m });
            let p3 = s3.players[attacker_index as int];
            if p3.active_pokemon_conditions.view().dom().contains(PokemonConditionType::Enraged) && Some(m)
                != s.players[attacker_index as int].last_move {
                let (s3a, st3a, b3a) = match spec_active(p3) {
                    Some(pk) => {
                        let (x, y, z, _) = spec_execute_command(
                            s3,
                            st3,
                            b3,
                            BattleCommand::EmitEvent(
                                BattleEvent::StatusRemoved { target: pk.species, status: PokemonCondition::Enraged },
                            ),
                        );
                        (x, y, z)
                    },
                    None => (s3, st3, b3),
                };
                let (x, y, z, _) = spec_execute_command(
                    s3a,
                    st3a,
                    b3a,
                    BattleCommand::RemoveCondition { target: t, condition_type: PokemonConditionType::Enraged },
                );
                (x, y, z, true)
            } else {
                (s3, st3, b3, true)
            }
        }
    } else {
        (s, stack, bus, true)
    }
}

/// The attack after its prevention checks passed: on the first hit the move's PP is spent
/// (failing with no PP left) and it becomes the last move used, and an enraged Pokemon whose
/// move differs from the move it used before calms down; then the defender checks, then the
/// hit itself.
#[verifier::opaque]
pub open spec fn spec_attack_after_checks(
    attacker_index: usize,
    defender_index: usize,
    m: Move,
    hit_number: u8,
    s: BattleState,
    stack: Seq<BattleAction>,
    bus: Seq<BattleEvent>,
    rolls: Seq<u8>,
) -> (BattleState, Seq<BattleAction>, Seq<BattleEvent>, nat) {
    let (s4, st4, b4, ok) = spec_attack_start(attacker_index, m, hit_number, s, stack, bus);
    if !ok {
        (s4, st4, b4, 0)
    } else {
        match spec_defender_block(s4, defender_index, m) {
            Some(e) => (s4, st4, b4.push(e), 0),
            None => spec_attack_hit(attacker_index, defender_index, m, hit_number, s4, st4, b4, rolls),
        }
    }
}

/// The prevention step of an attack: on the first hit the prevention checks run and their
/// commands are executed; later hits are never prevented. Gives the reason the attack is
/// prevented, if any, the state, stack and events after it, and the rolls used.
#[verifier::opaque]
pub open spec fn spec_prevention_step(
    attacker_index: usize,
    m: Move,
    hit_number: u8,
    s: BattleState,
    stack: Seq<BattleAction>,
    bus: Seq<BattleEvent>,
    rolls: Seq<u8>,
) -> (Option<ActionFailureReason>, BattleState, Seq<BattleAction>, Seq<BattleEvent>, nat) {
    let (reason, pcmds, u1) = if hit_number == 0 {
        spec_action_prevention(attacker_index, s, rolls, m)
    } else {
        (None, seq![], 0)
    };
    let (s1, st1, b1) = spec_batch(s, stack, bus, pcmds);
    (reason, s1, st1, b1, u1)
}

/// An attack action: a fainted attacker fails; a prevented attack (see
/// `spec_prevention_step`) fails with the reason, a confused attacker then hitting itself;
/// otherwise the attack goes on (see `spec_attack_after_checks`). Also gives the rolls used.
pub open spec fn spec_attack_action(
    attacker_index: usize,
    defender_index: usize,
    m: Move,
    hit_number: u8,
    s: BattleState,
    stack: Seq<BattleAction>,
    bus: Seq<BattleEvent>,
    rolls: Seq<u8>,
) -> (BattleState, Seq<BattleAction>, Seq<BattleEvent>, nat) {
    if spec_attacker_fainted(s, attacker_index) {
        (s, stack, bus.push(BattleEvent::ActionFailed { reason: ActionFailureReason::PokemonFainted }), 0)
    } else {
        let (reason, s1, st1, b1, u1) = spec_prevention_step(attacker_index, m, hit_number, s, stack, bus, rolls);
        match reason {
            Some(r) => (
                s1,
                if r is IsConfused {
                    seq![
                        BattleAction::AttackHit {
                            attacker_index,
                            defender_index: attacker_index,
                            move_used: Move::HittingItself,
                            hit_number: 1,
                        },
                    ] + st1
                } else {
                    st1
                },
                b1.push(BattleEvent::ActionFailed { reason: r }),
                u1,
            ),
            None => {
                let (s2, st2, b2, u2) = spec_attack_after_checks(
                    attacker_index,
                    defender_index,
                    m,
                    hit_number,
                    s1,
                    st1,
                    b1,
                    rolls.skip(u1 as int),
                );
                (s2, st2, b2, u1 + u2)
            },
        }
    }
}

/// A switch action: a trapped active Pokemon that has not fainted cannot leave, a fainted
/// Pokemon cannot come in, and otherwise the switch's commands are executed.
pub open spec fn spec_switch_action(
    player_index: usize,
    target_pokemon_index: usize,
    s: BattleState,
    stack: Seq<BattleAction>,
    bus: Seq<BattleEvent>,
) -> (BattleState, Seq<BattleAction>, Seq<BattleEvent>) {
    let p = s.players[player_index as int];
    let trapped_active = p.active_pokemon_conditions.view().dom().contains(PokemonConditionType::Trapped)
        && (spec_active(p) matches Some(a) && a.curr_hp != 0);
    if trapped_active {
        (
            s,
            stack,
            bus.push(BattleEvent::ActionFailed { reason: ActionFailureReason::IsTrapped { pokemon: spec_active(p).unwrap().species } }),
        )
    } else if p.team[target_pokemon_index as int] matches Some(t) && t.curr_hp == 0 {
        (s, stack, bus.push(BattleEvent::ActionFailed { reason: ActionFailureReason::PokemonFainted }))
    } else {
        let (s2, _, b2) = spec_batch(s, seq![], bus, spec_switch_commands(player_index, target_pokemon_index, s));
        (s2, stack, b2)
    }
}

/// What executing a battle action does to the state, the stack (the action itself already
/// taken off) and the events, and the rolls it uses.
pub open spec fn spec_execute_battle_action(
    action: BattleAction,
    s: BattleState,
    stack: Seq<BattleAction>,
    bus: Seq<BattleEvent>,
    rolls: Seq<u8>,
) -> (BattleState, Seq<BattleAction>, Seq<BattleEvent>, nat) {
    match action {
        BattleAction::Forfeit { player_index } => {
            let (s2, st2, b2) = spec_batch(s, stack, bus, spec_forfeit_commands(player_index));
            (s2, st2, b2, 0)
        },
        BattleAction::Switch { player_index, target_pokemon_index } => {
            let (s2, st2, b2) = spec_switch_action(player_index, target_pokemon_index, s, stack, bus);
            (s2, st2, b2, 0)
        },
        BattleAction::AttackHit { attacker_index, defender_index, move_used, hit_number } => spec_attack_action(
            attacker_index,
            defender_index,
            move_used,
            hit_number,
            s,
            stack,
            bus,
            rolls,
        ),
    }
}

fn execute_switch_action(
    player_index: usize,
    target_pokemon_index: usize,
    battle_state: &mut BattleState,
    action_stack: &mut ActionStack,
    bus: &mut EventBus,
)
    requires
        old(battle_state).wf(),
        player_index < 2,
        target_pokemon_index < 6,
    ensures
        ({
            let (s2, st2, b2) = spec_switch_action(
                player_index,
                target_pokemon_index,
                *old(battle_state),
                old(action_stack).view(),
                old(bus).view(),
            );
            &&& *final(battle_state) == s2
            &&& final(action_stack).view() == st2
            &&& final(bus).view() == b2
        }),
        final(battle_state).wf(),
        spec_keeps_turn(*old(battle_state), *final(battle_state), old(bus).view(), final(bus).view()),
        spec_keeps_phase(*old(battle_state), *final(battle_state)),
{
    let player = &battle_state.players[player_index];
    if player.has_condition_type(PokemonConditionType::Trapped) {
        if let Some(active_pokemon) = player.active_pokemon() {
            if !active_pokemon.is_fainted() {
                bus.push(
                    BattleEvent::ActionFailed {
                        reason: ActionFailureReason::IsTrapped { pokemon: active_pokemon.species },
                    },
                );
                return;
            }
        }
    }
    if let Some(target_pokemon) = &battle_state.players[player_index].team[target_pokemon_index] {
        if target_pokemon.is_fainted() {
            bus.push(BattleEvent::ActionFailed { reason: ActionFailureReason::PokemonFainted });
            return;
        }
    }
    let commands = calculate_switch_commands(player_index, target_pokemon_index, battle_state);
    let mut fresh = ActionStack::new();
    proof {
        lemma_safe_batch_allowed(*battle_state, fresh.view(), commands@);
    }
    let _ = execute_command_batch(commands, battle_state, bus, &mut fresh);
}


/// Starts an attack (see `spec_attack_start`).
fn begin_attack(
    attacker_index: usize,
    move_used: Move,
    hit_number: u8,
    battle_state: &mut BattleState,
    action_stack: &mut ActionStack,
    bus: &mut EventBus,
) -> (ok: bool)
    requires
        old(battle_state).wf(),
        attacker_index < 2,
    ensures
        (*final(battle_state), final(action_stack).view(), final(bus).view(), ok) == spec_attack_start(
            attacker_index,
            move_used,
            hit_number,
            *old(battle_state),
            old(action_stack).view(),
            old(bus).view(),
        ),
        final(battle_state).wf(),
        spec_keeps_turn(*old(battle_state), *final(battle_state), old(bus).view(), final(bus).view()),
        spec_keeps_phase(*old(battle_state), *final(battle_state)),
{
    let target = PlayerTarget::from_index(attacker_index);
    if hit_number == 0 {
        let previous_move = battle_state.players[attacker_index].last_move;
        let used = execute_command(BattleCommand::UsePP { target, move_used }, battle_state, bus, action_stack);
        if used.is_err() {
            bus.push(BattleEvent::ActionFailed { reason: ActionFailureReason::NoPPRemaining { move_used } });
            return false;
        }
        let _ = execute_command(BattleCommand::SetLastMove { target, move_used }, battle_state, bus, action_stack);
        if battle_state.players[attacker_index].has_condition_type(PokemonConditionType::Enraged)
            && Some(move_used) != previous_move {
            if let Some(pokemon) = battle_state.players[attacker_index].active_pokemon() {
                let event = BattleEvent::StatusRemoved { target: pokemon.species, status: PokemonCondition::Enraged };
                let _ = execute_command(BattleCommand::EmitEvent(event), battle_state, bus, action_stack);
            }
            let _ = execute_command(
                BattleCommand::RemoveCondition { target, condition_type: PokemonConditionType::Enraged },
                battle_state,
                bus,
                action_stack,
            );
        }
    }
    true
}

#[verifier::rlimit(100)]
#[verifier::spinoff_prover]
fn execute_attack_after_checks(
    attacker_index: usize,
    defender_index: usize,
    move_used: Move,
    hit_number: u8,
    battle_state: &mut BattleState,
    action_stack: &mut ActionStack,
    bus: &mut EventBus,
    rng: &mut TurnRng,
)
    requires
        old(battle_state).wf(),
        attacker_index < 2,
        defender_index < 2,
        spec_attack_after_checks(
            attacker_index,
            defender_index,
            move_used,
            hit_number,
            *old(battle_state),
            old(action_stack).view(),
            old(bus).view(),
            old(rng).remaining(),
        ).3 <= old(rng).remaining().len(),
    ensures
        ({
            let (s2, st2, b2, used) = spec_attack_after_checks(
                attacker_index,
                defender_index,
                move_used,
                hit_number,
                *old(battle_state),
                old(action_stack).view(),
                old(bus).view(),
                old(rng).remaining(),
            );
            &&& *final(battle_state) == s2
            &&& final(action_stack).view() == st2
            &&& final(bus).view() == b2
            &&& final(rng).remaining() == old(rng).remaining().skip(used as int)
        }),
        final(battle_state).wf(),
        spec_keeps_turn(*old(battle_state), *final(battle_state), old(bus).view(), final(bus).view()),
        spec_keeps_phase(*old(battle_state), *final(battle_state)),
{
    reveal(spec_attack_after_checks);
    assert(old(rng).remaining().skip(0) =~= old(rng).remaining());
    let ok = begin_attack(attacker_index, move_used, hit_number, battle_state, action_stack, bus);
    if !ok {
        return;
    }
    assert(spec_keeps_turn(*old(battle_state), *battle_state, old(bus).view(), bus.view()));
    let defender_player = &battle_state.players[defender_index];
    if let Some(defender_pokemon) = defender_player.active_pokemon() {
        let move_data = MoveData::get_move_data(move_used);
        if move_data.category != MoveCategory::Status {
            if defender_pokemon.is_fainted() {
                bus.push(BattleEvent::ActionFailed { reason: ActionFailureReason::NoEnemyPresent });
                return;
            }
            let defender_types = defender_pokemon.get_current_types(defender_player);
            let percent = get_type_effectiveness(move_data.move_type, &defender_types);
            if percent == 0 {
                bus.push(BattleEvent::AttackTypeEffectiveness { multiplier_percent: 0 });
                return;
            }
        }
    }
    execute_attack_hit(attacker_index, defender_index, move_used, hit_number, action_stack, bus, rng, battle_state);
}

fn run_prevention(
    attacker_index: usize,
    move_used: Move,
    hit_number: u8,
    battle_state: &mut BattleState,
    action_stack: &mut ActionStack,
    bus: &mut EventBus,
    rng: &mut TurnRng,
) -> (r: Option<ActionFailureReason>)
    requires
        old(battle_state).wf(),
        attacker_index < 2,
        spec_prevention_step(
            attacker_index,
            move_used,
            hit_number,
            *old(battle_state),
            old(action_stack).view(),
            old(bus).view(),
            old(rng).remaining(),
        ).4 <= old(rng).remaining().len(),
    ensures
        ({
            let (reason, s1, st1, b1, u1) = spec_prevention_step(
                attacker_index,
                move_used,
                hit_number,
                *old(battle_state),
                old(action_stack).view(),
                old(bus).view(),
                old(rng).remaining(),
            );
            &&& r == reason
            &&& *final(battle_state) == s1
            &&& final(action_stack).view() == st1
            &&& final(bus).view() == b1
            &&& final(rng).remaining() == old(rng).remaining().skip(u1 as int)
        }),
        final(battle_state).wf(),
        spec_keeps_turn(*old(battle_state), *final(battle_state), old(bus).view(), final(bus).view()),
        spec_keeps_phase(*old(battle_state), *final(battle_state)),
{
    reveal(spec_prevention_step);
    assert(old(rng).remaining().skip(0) =~= old(rng).remaining());
    let (failure_reason, prevention_commands) = if hit_number == 0 {
        calculate_action_prevention(attacker_index, battle_state, rng, move_used)
    } else {
        (None, Vec::new())
    };
    proof {
        lemma_safe_batch_allowed(*battle_state, action_stack.view(), prevention_commands@);
    }
    let _ = execute_command_batch(prevention_commands, battle_state, bus, action_stack);
    failure_reason
}

fn execute_attack_action(
    attacker_index: usize,
    defender_index: usize,
    move_used: Move,
    hit_number: u8,
    battle_state: &mut BattleState,
    action_stack: &mut ActionStack,
    bus: &mut EventBus,
    rng: &mut TurnRng,
)
    requires
        old(battle_state).wf(),
        attacker_index < 2,
        spec_attacker_fainted(*old(battle_state), attacker_index) || defender_index < 2,
        spec_attack_action(
            attacker_index,
            defender_index,
            move_used,
            hit_number,
            *old(battle_state),
            old(action_stack).view(),
            old(bus).view(),
            old(rng).remaining(),
        ).3 <= old(rng).remaining().len(),
    ensures
        ({
            let (s2, st2, b2, used) = spec_attack_action(
                attacker_index,
                defender_index,
                move_used,
                hit_number,
                *old(battle_state),
                old(action_stack).view(),
                old(bus).view(),
                old(rng).remaining(),
            );
            &&& *final(battle_state) == s2
            &&& final(action_stack).view() == st2
            &&& final(bus).view() == b2
            &&& final(rng).remaining() == old(rng).remaining().skip(used as int)
        }),
        final(battle_state).wf(),
        spec_keeps_turn(*old(battle_state), *final(battle_state), old(bus).view(), final(bus).view()),
        spec_keeps_phase(*old(battle_state), *final(battle_state)),
{
    let ghost rolls = old(rng).remaining();
    let ghost s0 = *battle_state;
    let ghost st0 = action_stack.view();
    let ghost b0 = bus.view();
    assert(rolls.skip(0) =~= rolls);
    let attacker_player = &battle_state.players[attacker_index];
    if let Some(attacker_pokemon) = attacker_player.active_pokemon() {
        if attacker_pokemon.is_fainted() {
            bus.push(BattleEvent::ActionFailed { reason: ActionFailureReason::PokemonFainted });
            return;
        }
    }
    let ghost step = spec_prevention_step(attacker_index, move_used, hit_number, s0, st0, b0, rolls);
    let failure_reason = run_prevention(attacker_index, move_used, hit_number, battle_state, action_stack, bus, rng);
    if let Some(reason) = failure_reason {
        bus.push(BattleEvent::ActionFailed { reason });
        if let ActionFailureReason::IsConfused { .. } = reason {
            action_stack.push_front(
                BattleAction::AttackHit {
                    attacker_index,
                    defender_index: attacker_index,
                    move_used: Move::HittingItself,
                    hit_number: 1,
                },
            );
        }
        return;
    }
    proof {
        lemma_skip_len(rolls, step.4);
    }
    execute_attack_after_checks(attacker_index, defender_index, move_used, hit_number, battle_state, action_stack, bus, rng);
    proof {
        let (_, _, _, u2) = spec_attack_after_checks(
            attacker_index,
            defender_index,
            move_used,
            hit_number,
            step.1,
            step.2,
            step.3,
            rolls.skip(step.4 as int),
        );
        assert(rolls.skip(step.4 as int).skip(u2 as int) =~= rolls.skip((step.4 + u2) as int));
    }
}

proof fn lemma_skip_len(s: Seq<u8>, n: nat)
    requires
        n <= s.len(),
    ensures
        s.skip(n as int).len() == s.len() - n,
{
}

/// Executes one battle action (see `spec_execute_battle_action`); the action must already be
/// off the stack.
pub fn execute_battle_action(
    action: BattleAction,
    battle_state: &mut BattleState,
    action_stack: &mut ActionStack,
    bus: &mut EventBus,
    rng: &mut TurnRng,
)
    requires
        old(battle_state).wf(),
        spec_action_in_range(action, *old(battle_state)),
        spec_execute_battle_action(
            action,
            *old(battle_state),
            old(action_stack).view(),
            old(bus).view(),
            old(rng).remaining(),
        ).3 <= old(rng).remaining().len(),
    ensures
        ({
            let (s2, st2, b2, used) = spec_execute_battle_action(
                action,
                *old(battle_state),
                old(action_stack).view(),
                old(bus).view(),
                old(rng).remaining(),
            );
            &&& *final(battle_state) == s2
            &&& final(action_stack).view() == st2
            &&& final(bus).view() == b2
            &&& final(rng).remaining() == old(rng).remaining().skip(used as int)
        }),
        final(battle_state).wf(),
        spec_keeps_turn(*old(battle_state), *final(battle_state), old(bus).view(), final(bus).view()),
        spec_keeps_phase(*old(battle_state), *final(battle_state)),
{
    assert(old(rng).remaining().skip(0) =~= old(rng).remaining());
    match action {
        BattleAction::Forfeit { player_index } => {
            let commands = calculate_forfeit_commands(player_index);
            proof {
                lemma_safe_batch_allowed(*battle_state, action_stack.view(), commands@);
            }
            let _ = execute_command_batch(commands, battle_state, bus, action_stack);
        },
        BattleAction::Switch { player_index, target_pokemon_index } => {
            execute_switch_action(player_index, target_pokemon_index, battle_state, action_stack, bus);
        },
        BattleAction::AttackHit { attacker_index, defender_index, move_used, hit_number } => {
            execute_attack_action(attacker_index, defender_index, move_used, hit_number, battle_state, action_stack, bus, rng);
        },
    }
}


/// The state, stack and events after one command.
pub open spec fn spec_cmd(s: BattleState, stack: Seq<BattleAction>, bus: Seq<BattleEvent>, cmd: BattleCommand) -> (BattleState, Seq<BattleAction>, Seq<BattleEvent>) {
    let (s2, st2, b2, _) = spec_execute_command(s, stack, bus, cmd);
    (s2, st2, b2)
}

/// Whether the battle is over.
pub open spec fn spec_battle_over(g: GameState) -> bool {
    g == GameState::Player1Win || g == GameState::Player2Win || g == GameState::Draw
}

/// The end of the battle when a side has nothing left to battle with: a draw when neither
/// side can battle, else a win for the side that can; nothing changes while both can.
pub open spec fn spec_check_win(s: BattleState, bus: Seq<BattleEvent>) -> (BattleState, Seq<BattleEvent>) {
    let a = crate::player::spec_can_still_battle(s.players[0]);
    let b = crate::player::spec_can_still_battle(s.players[1]);
    if !a && !b {
        let (s2, _, b2) = spec_batch(s, seq![], bus, seq![BattleCommand::SetGameState(GameState::Draw)]);
        (s2, b2.push(BattleEvent::BattleEnded { winner: None }))
    } else if !a {
        let (s2, _, b2) = spec_batch(s, seq![], bus, seq![BattleCommand::SetGameState(GameState::Player2Win)]);
        (s2, b2.push(BattleEvent::PlayerDefeated { player_index: 0 }).push(BattleEvent::BattleEnded { winner: Some(1) }))
    } else if !b {
        let (s2, _, b2) = spec_batch(s, seq![], bus, seq![BattleCommand::SetGameState(GameState::Player1Win)]);
        (s2, b2.push(BattleEvent::PlayerDefeated { player_index: 1 }).push(BattleEvent::BattleEnded { winner: Some(0) }))
    } else {
        (s, bus)
    }
}

/// A batch of one game-state change only changes the game state.
proof fn lemma_set_game_state_batch(s: BattleState, stack: Seq<BattleAction>, bus: Seq<BattleEvent>, g: GameState)
    ensures
        spec_batch(s, stack, bus, seq![BattleCommand::SetGameState(g)]).0 == (BattleState { game_state: g, ..s }),
        spec_batch(s, stack, bus, seq![BattleCommand::SetGameState(g)]).2 == bus,
{
    let cmds = seq![BattleCommand::SetGameState(g)];
    assert(cmds.drop_first() =~= Seq::<BattleCommand>::empty());
    assert(cmds[0] == BattleCommand::SetGameState(g));
    let (s2, st2, b2, r) = spec_execute_command(s, stack, bus, cmds[0]);
    assert(s2 == (BattleState { game_state: g, ..s }));
    assert(b2 =~= bus);
    assert(spec_execute_batch(s2, st2, b2, Seq::<BattleCommand>::empty()) == (s2, st2, b2, Ok::<(), crate::battle::commands::ExecutionError>(())));
    assert(spec_execute_batch(s, stack, bus, cmds) == spec_execute_batch(s2, st2, b2, cmds.drop_first()));
}

/// Any state allows a batch of one game-state change.
proof fn lemma_set_game_state_allowed(s: BattleState, stack: Seq<BattleAction>, g: GameState)
    ensures
        spec_batch_allowed(s, stack, seq![BattleCommand::SetGameState(g)]),
{
    let cmds = seq![BattleCommand::SetGameState(g)];
    assert(cmds.drop_first() =~= Seq::<BattleCommand>::empty());
    reveal_with_fuel(spec_batch_allowed, 2);
}

fn set_game_state(battle_state: &mut BattleState, bus: &mut EventBus, g: GameState)
    requires
        old(battle_state).wf(),
    ensures
        ({
            let (s2, _, b2) = spec_batch(*old(battle_state), seq![], old(bus).view(), seq![BattleCommand::SetGameState(g)]);
            *final(battle_state) == s2 && final(bus).view() == b2
        }),
        *final(battle_state) == (BattleState { game_state: g, ..*old(battle_state) }),
        final(bus).view() == old(bus).view(),
        final(battle_state).wf(),
        spec_keeps_turn(*old(battle_state), *final(battle_state), old(bus).view(), final(bus).view()),
{
    proof {
        lemma_set_game_state_batch(*battle_state, seq![], bus.view(), g);
    }
    let commands = vec![BattleCommand::SetGameState(g)];
    let mut fresh = ActionStack::new();
    proof {
        assert(commands@ =~= seq![BattleCommand::SetGameState(g)]);
        lemma_set_game_state_allowed(*battle_state, fresh.view(), g);
    }
    let _ = execute_command_batch(commands, battle_state, bus, &mut fresh);
}

/// Ends the battle when a side can no longer battle (see `spec_check_win`).
fn check_win_conditions(battle_state: &mut BattleState, bus: &mut EventBus)
    requires
        old(battle_state).wf(),
    ensures
        (*final(battle_state), final(bus).view()) == spec_check_win(*old(battle_state), old(bus).view()),
        final(battle_state).wf(),
        spec_keeps_turn(*old(battle_state), *final(battle_state), old(bus).view(), final(bus).view()),
        spec_keeps_phase(*old(battle_state), *final(battle_state)),
{
    let player1_has_pokemon = battle_state.players[0].can_still_battle();
    let player2_has_pokemon = battle_state.players[1].can_still_battle();
    if !player1_has_pokemon && !player2_has_pokemon {
        set_game_state(battle_state, bus, GameState::Draw);
        bus.push(BattleEvent::BattleEnded { winner: None });
    } else if !player1_has_pokemon {
        set_game_state(battle_state, bus, GameState::Player2Win);
        bus.push(BattleEvent::PlayerDefeated { player_index: 0 });
        bus.push(BattleEvent::BattleEnded { winner: Some(1) });
    } else if !player2_has_pokemon {
        set_game_state(battle_state, bus, GameState::Player1Win);
        bus.push(BattleEvent::PlayerDefeated { player_index: 1 });
        bus.push(BattleEvent::BattleEnded { winner: Some(0) });
    }
}

/// Whether player `i`'s active Pokemon has fainted and a team member can replace it.
pub open spec fn spec_needs_replacement(s: BattleState, i: int) -> bool {
    (spec_active(s.players[i]) matches Some(p) && p.curr_hp == 0) && crate::player::spec_can_still_battle(s.players[i])
}

/// While the battle goes on, the wait for the replacements that fainted active Pokemon need.
pub open spec fn spec_pending_replacements(s: BattleState, bus: Seq<BattleEvent>) -> (BattleState, Seq<BattleEvent>) {
    if spec_battle_over(s.game_state) {
        (s, bus)
    } else {
        let p1 = spec_needs_replacement(s, 0);
        let p2 = spec_needs_replacement(s, 1);
        let g = if p1 && p2 {
            Some(GameState::WaitingForBothReplacements)
        } else if p1 {
            Some(GameState::WaitingForPlayer1Replacement)
        } else if p2 {
            Some(GameState::WaitingForPlayer2Replacement)
        } else {
            None
        };
        match g {
            Some(g) => {
                let (s2, _, b2) = spec_batch(s, seq![], bus, seq![BattleCommand::SetGameState(g)]);
                (s2, b2)
            },
            None => (s, bus),
        }
    }
}

fn fainted_with_replacement(battle_state: &BattleState, i: usize) -> (r: bool)
    requires
        battle_state.wf(),
        i < 2,
    ensures
        r == spec_needs_replacement(*battle_state, i as int),
{
    let fainted = match battle_state.players[i].active_pokemon() {
        Some(p) => p.is_fainted(),
        None => false,
    };
    fainted && battle_state.players[i].can_still_battle()
}

/// Waits for replacements of fainted active Pokemon (see `spec_pending_replacements`).
fn check_for_pending_replacements(battle_state: &mut BattleState, bus: &mut EventBus)
    requires
        old(battle_state).wf(),
    ensures
        (*final(battle_state), final(bus).view()) == spec_pending_replacements(*old(battle_state), old(bus).view()),
        final(battle_state).wf(),
        spec_keeps_turn(*old(battle_state), *final(battle_state), old(bus).view(), final(bus).view()),
        spec_battle_over(old(battle_state).game_state) ==> final(battle_state).game_state == old(
            battle_state,
        ).game_state,
        !spec_battle_over(old(battle_state).game_state) ==> !spec_battle_over(final(battle_state).game_state),
{
    if battle_state.game_state == GameState::Player1Win || battle_state.game_state == GameState::Player2Win
        || battle_state.game_state == GameState::Draw {
        return;
    }
    let p1 = fainted_with_replacement(battle_state, 0);
    let p2 = fainted_with_replacement(battle_state, 1);
    if p1 && p2 {
        set_game_state(battle_state, bus, GameState::WaitingForBothReplacements);
    } else if p1 {
        set_game_state(battle_state, bus, GameState::WaitingForPlayer1Replacement);
    } else if p2 {
        set_game_state(battle_state, bus, GameState::WaitingForPlayer2Replacement);
    }
}

/// The clearing of player `i`'s battle state when its active Pokemon has fainted.
pub open spec fn spec_clear_fainted(s: BattleState, stack: Seq<BattleAction>, bus: Seq<BattleEvent>, i: int) -> (BattleState, Seq<BattleAction>, Seq<BattleEvent>) {
    if spec_active(s.players[i]) matches Some(p) && p.curr_hp == 0 {
        spec_cmd(s, stack, bus, BattleCommand::ClearPlayerState { target: spec_from_index(i) })
    } else {
        (s, stack, bus)
    }
}

/// The end of a turn, or `None` when the turn counter cannot advance: fainted active
/// Pokemon lose their battle state; the battle may end; a battle in progress advances its
/// turn counter; the action queue is cleared; a battle that goes on waits for actions, or for
/// replacements; forced actions are queued; and the turn's end is announced.
#[verifier::opaque]
pub open spec fn spec_finalize_turn(s: BattleState, stack: Seq<BattleAction>, bus: Seq<BattleEvent>) -> Option<(BattleState, Seq<BattleAction>, Seq<BattleEvent>)> {
    let (s1, st1, b1) = spec_clear_fainted(s, stack, bus, 0);
    let (s2, st2, b2) = spec_clear_fainted(s1, st1, b1, 1);
    let (s3, b3) = spec_check_win(s2, b2);
    if s3.game_state == GameState::TurnInProgress && s3.turn_number == u32::MAX {
        None
    } else {
        let (s4, st4, b4) = if s3.game_state == GameState::TurnInProgress {
            spec_cmd(s3, st2, b3, BattleCommand::IncrementTurnNumber)
        } else {
            (s3, st2, b3)
        };
        let (s5, st5, b5) = spec_cmd(s4, st4, b4, BattleCommand::ClearActionQueue);
        let (s6, st6, b6) = if !spec_battle_over(s5.game_state) {
            spec_cmd(s5, st5, b5, BattleCommand::SetGameState(GameState::WaitingForActions))
        } else {
            (s5, st5, b5)
        };
        let (s7, b7) = spec_pending_replacements(s6, b6);
        let (s8, st8, b8) = spec_batch(
            s7,
            st6,
            b7,
            spec_forced_action_player(s7, 0) + spec_forced_action_player(s7, 1),
        );
        Some((s8, st8, b8.push(BattleEvent::TurnEnded)))
    }
}

fn clear_if_fainted(battle_state: &mut BattleState, action_stack: &mut ActionStack, bus: &mut EventBus, i: usize)
    requires
        old(battle_state).wf(),
        i < 2,
    ensures
        (*final(battle_state), final(action_stack).view(), final(bus).view()) == spec_clear_fainted(
            *old(battle_state),
            old(action_stack).view(),
            old(bus).view(),
            i as int,
        ),
        final(battle_state).wf(),
        spec_keeps_turn(*old(battle_state), *final(battle_state), old(bus).view(), final(bus).view()),
        spec_keeps_phase(*old(battle_state), *final(battle_state)),
{
    let fainted = match battle_state.players[i].active_pokemon() {
        Some(p) => p.is_fainted(),
        None => false,
    };
    if fainted {
        let _ = execute_command(
            BattleCommand::ClearPlayerState { target: PlayerTarget::from_index(i) },
            battle_state,
            bus,
            action_stack,
        );
    }
}

/// Queuing forced actions never sets the game state.
proof fn lemma_forced_sets_no_game_state(s: BattleState)
    ensures
        spec_sets_no_game_state(spec_forced_action_player(s, 0) + spec_forced_action_player(s, 1)),
{
    let a = spec_forced_action_player(s, 0);
    let b = spec_forced_action_player(s, 1);
    assert forall|k: int| 0 <= k < (a + b).len() implies !(#[trigger] (a + b)[k] is SetGameState) by {
        if k < a.len() {
            assert((a + b)[k] == a[k]);
        } else {
            assert((a + b)[k] == b[k - a.len()]);
        }
    }
}

/// Ends a turn (see `spec_finalize_turn`).
fn finalize_turn(battle_state: &mut BattleState, bus: &mut EventBus, action_stack: &mut ActionStack)
    requires
        old(battle_state).wf(),
        spec_finalize_turn(*old(battle_state), old(action_stack).view(), old(bus).view()) is Some,
    ensures
        (*final(battle_state), final(action_stack).view(), final(bus).view()) == spec_finalize_turn(
            *old(battle_state),
            old(action_stack).view(),
            old(bus).view(),
        ).unwrap(),
        final(battle_state).wf(),
        final(battle_state).battle_id == old(battle_state).battle_id,
        final(battle_state).battle_type == old(battle_state).battle_type,
        final(battle_state).turn_number == old(battle_state).turn_number || final(battle_state).turn_number
            == old(battle_state).turn_number + 1,
        spec_events_extend(old(bus).view(), final(bus).view()),
        final(bus).view().len() > old(bus).view().len(),
        final(bus).view().last() == BattleEvent::TurnEnded,
        old(battle_state).game_state == GameState::TurnInProgress || spec_battle_over(old(battle_state).game_state)
            ==> (final(battle_state).turn_number == old(battle_state).turn_number + 1 <==> !spec_battle_over(
            final(battle_state).game_state,
        )),
{
    reveal(spec_finalize_turn);
    clear_if_fainted(battle_state, action_stack, bus, 0);
    clear_if_fainted(battle_state, action_stack, bus, 1);
    check_win_conditions(battle_state, bus);
    if battle_state.game_state == GameState::TurnInProgress {
        let _ = execute_command(BattleCommand::IncrementTurnNumber, battle_state, bus, action_stack);
    }
    let _ = execute_command(BattleCommand::ClearActionQueue, battle_state, bus, action_stack);
    if !(battle_state.game_state == GameState::Player1Win || battle_state.game_state == GameState::Player2Win
        || battle_state.game_state == GameState::Draw) {
        let _ = execute_command(
            BattleCommand::SetGameState(GameState::WaitingForActions),
            battle_state,
            bus,
            action_stack,
        );
    }
    check_for_pending_replacements(battle_state, bus);
    let forced_action_commands = calculate_forced_action_commands(battle_state);
    proof {
        lemma_safe_batch_allowed(*battle_state, action_stack.view(), forced_action_commands@);
        lemma_forced_sets_no_game_state(*battle_state);
    }
    let _ = execute_command_batch(forced_action_commands, battle_state, bus, action_stack);
    bus.push(BattleEvent::TurnEnded);
}


/// The switches of a replacement phase, in stack order: only switch actions are executed,
/// until the battle is over; `None` when a switch names a slot that does not exist.
pub open spec fn spec_replacement_switches(
    actions: Seq<BattleAction>,
    s: BattleState,
    stack: Seq<BattleAction>,
    bus: Seq<BattleEvent>,
) -> Option<(BattleState, Seq<BattleAction>, Seq<BattleEvent>)>
    decreases actions.len(),
{
    if actions.len() == 0 {
        Some((s, stack, bus))
    } else {
        let a = actions[0];
        if a is Switch && !spec_action_in_range(a, s) {
            None
        } else {
            let (s1, st1, b1) = if a is Switch {
                let (x, y, z, _) = spec_execute_battle_action(a, s, stack, bus, seq![]);
                (x, y, z)
            } else {
                (s, stack, bus)
            };
            if spec_battle_over(s1.game_state) {
                Some((s1, st1, b1))
            } else {
                spec_replacement_switches(actions.drop_first(), s1, st1, b1)
            }
        }
    }
}

/// A replacement phase: the queued switches are made (see `spec_replacement_switches`), the
/// battle may end, a battle that goes on waits for actions, the queue is cleared, and forced
/// actions are queued.
#[verifier::opaque]
pub open spec fn spec_replacement_phase(s: BattleState, stack: Seq<BattleAction>, bus: Seq<BattleEvent>) -> Option<(BattleState, Seq<BattleAction>, Seq<BattleEvent>)> {
    match spec_replacement_switches(spec_initial_stack(s), s, stack, bus) {
        None => None,
        Some((s1, st1, b1)) => {
            let (s2, b2) = spec_check_win(s1, b1);
            let (s3, st3, b3) = if !spec_battle_over(s2.game_state) {
                spec_batch(s2, st1, b2, seq![BattleCommand::SetGameState(GameState::WaitingForActions)])
            } else {
                (s2, st1, b2)
            };
            let (s4, st4, b4) = spec_batch(s3, st3, b3, seq![BattleCommand::ClearActionQueue]);
            if !spec_battle_over(s4.game_state) {
                Some(spec_batch(s4, st4, b4, spec_forced_action_player(s4, 0) + spec_forced_action_player(s4, 1)))
            } else {
                Some((s4, st4, b4))
            }
        },
    }
}

fn batch_of_one(cmd: BattleCommand, battle_state: &mut BattleState, bus: &mut EventBus, action_stack: &mut ActionStack)
    requires
        old(battle_state).wf(),
        crate::battle::commands::spec_cmd_safe(cmd) || cmd is SetGameState,
    ensures
        (*final(battle_state), final(action_stack).view(), final(bus).view()) == spec_batch(
            *old(battle_state),
            old(action_stack).view(),
            old(bus).view(),
            seq![cmd],
        ),
        final(battle_state).wf(),
        spec_keeps_turn(*old(battle_state), *final(battle_state), old(bus).view(), final(bus).view()),
{
    let commands = vec![cmd];
    proof {
        assert(commands@ =~= seq![cmd]);
        if let BattleCommand::SetGameState(g) = cmd {
            lemma_set_game_state_allowed(*battle_state, action_stack.view(), g);
            lemma_set_game_state_batch(*battle_state, action_stack.view(), bus.view(), g);
        } else {
            lemma_safe_batch_allowed(*battle_state, action_stack.view(), commands@);
        }
    }
    let _ = execute_command_batch(commands, battle_state, bus, action_stack);
}

/// Makes the queued replacements (see `spec_replacement_phase`).
fn resolve_replacement_phase(battle_state: &mut BattleState, bus: &mut EventBus, action_stack: &mut ActionStack)
    requires
        old(battle_state).wf(),
        spec_queue_ready(*old(battle_state)),
        spec_replacement_phase(*old(battle_state), old(action_stack).view(), old(bus).view()) is Some,
    ensures
        (*final(battle_state), final(action_stack).view(), final(bus).view()) == spec_replacement_phase(
            *old(battle_state),
            old(action_stack).view(),
            old(bus).view(),
        ).unwrap(),
        final(battle_state).wf(),
        spec_keeps_turn(*old(battle_state), *final(battle_state), old(bus).view(), final(bus).view()),
{
    reveal(spec_replacement_phase);
    let mut turn_action_stack = ActionStack::build_initial(battle_state);
    let ghost switches = spec_replacement_switches(
        turn_action_stack.view(),
        *battle_state,
        action_stack.view(),
        bus.view(),
    );
    let mut running = true;
    while running
        invariant
            battle_state.wf(),
            switches is Some,
            running ==> spec_replacement_switches(
                turn_action_stack.view(),
                *battle_state,
                action_stack.view(),
                bus.view(),
            ) == switches,
            !running ==> switches == Some((*battle_state, action_stack.view(), bus.view())),
            spec_keeps_turn(*old(battle_state), *battle_state, old(bus).view(), bus.view()),
        decreases turn_action_stack.view().len() + if running { 1int } else { 0int },
    {
        let next = turn_action_stack.pop_front();
        match next {
            None => {
                running = false;
            },
            Some(action) => {
                if let BattleAction::Switch { .. } = action {
                    let mut no_rolls = TurnRng::new_for_test(Vec::new());
                    execute_battle_action(action, battle_state, action_stack, bus, &mut no_rolls);
                }
                if battle_state.game_state == GameState::Player1Win || battle_state.game_state == GameState::Player2Win
                    || battle_state.game_state == GameState::Draw {
                    running = false;
                }
            },
        }
    }
    check_win_conditions(battle_state, bus);
    if !(battle_state.game_state == GameState::Player1Win || battle_state.game_state == GameState::Player2Win
        || battle_state.game_state == GameState::Draw) {
        batch_of_one(BattleCommand::SetGameState(GameState::WaitingForActions), battle_state, bus, action_stack);
    }
    batch_of_one(BattleCommand::ClearActionQueue, battle_state, bus, action_stack);
    if !(battle_state.game_state == GameState::Player1Win || battle_state.game_state == GameState::Player2Win
        || battle_state.game_state == GameState::Draw) {
        let forced_action_commands = calculate_forced_action_commands(battle_state);
        proof {
            lemma_safe_batch_allowed(*battle_state, action_stack.view(), forced_action_commands@);
        }
        let _ = execute_command_batch(forced_action_commands, battle_state, bus, action_stack);
    }
}

/// The actions of a turn, in stack order, with at most `fuel` actions: each action is
/// executed until the stack is empty or the battle leaves the in-progress state. `None` when
/// an action names a player or slot that does not exist, when an action needs more rolls than
/// remain, or when the fuel runs out. Gives the state, the stack left, the events and the
/// rolls left.
pub open spec fn spec_turn_loop(
    s: BattleState,
    stack: Seq<BattleAction>,
    bus: Seq<BattleEvent>,
    rolls: Seq<u8>,
    fuel: nat,
) -> Option<(BattleState, Seq<BattleAction>, Seq<BattleEvent>, Seq<u8>)>
    decreases fuel,
{
    if stack.len() == 0 {
        Some((s, stack, bus, rolls))
    } else if fuel == 0 {
        None
    } else {
        let action = stack[0];
        let (s2, st2, b2, used) = spec_execute_battle_action(action, s, stack.drop_first(), bus, rolls);
        if !spec_action_in_range(action, s) || used > rolls.len() {
            None
        } else if s2.game_state != GameState::TurnInProgress {
            Some((s2, st2, b2, rolls.skip(used as int)))
        } else {
            spec_turn_loop(s2, st2, b2, rolls.skip(used as int), (fuel - 1) as nat)
        }
    }
}

/// The start of a turn: the battle is in progress and the turn's start is announced.
#[verifier::opaque]
pub open spec fn spec_initialize_turn(s: BattleState, bus: Seq<BattleEvent>) -> (BattleState, Seq<BattleEvent>) {
    let (s1, _, b1) = spec_batch(s, seq![], bus, seq![BattleCommand::SetGameState(GameState::TurnInProgress)]);
    (s1, b1.push(BattleEvent::TurnStarted { turn_number: s1.turn_number }))
}

/// Whether the battle waits for replacements.
pub open spec fn spec_is_replacement_phase(g: GameState) -> bool {
    g == GameState::WaitingForPlayer1Replacement || g == GameState::WaitingForPlayer2Replacement || g
        == GameState::WaitingForBothReplacements
}

/// A whole turn with at most `fuel` actions, from the battle state and the turn's rolls: the
/// replacement phase when the battle waits for replacements; otherwise the turn starts, the
/// queued actions run in execution order (see `spec_turn_loop`), the end-of-turn effects
/// apply while the battle is still in progress, and the turn ends (see `spec_finalize_turn`).
/// `None` when any part cannot be carried out.
pub open spec fn spec_resolve_turn(s: BattleState, rolls: Seq<u8>, fuel: nat) -> Option<(BattleState, Seq<BattleEvent>)> {
    if spec_is_replacement_phase(s.game_state) {
        match spec_replacement_phase(s, seq![], seq![]) {
            Some((s2, _, b2)) => Some((s2, b2)),
            None => None,
        }
    } else {
        let (s1, b1) = spec_initialize_turn(s, seq![]);
        match spec_turn_loop(s1, spec_initial_stack(s1), b1, rolls, fuel) {
            None => None,
            Some((s2, st2, b2, _)) => {
                let (s3, b3) = spec_end_of_turn_effects(s2, b2);
                match spec_finalize_turn(s3, st2, b3) {
                    Some((s4, _, b4)) => Some((s4, b4)),
                    None => None,
                }
            },
        }
    }
}

/// Whether the turn can be carried out with some number of actions.
pub open spec fn spec_turn_completes(s: BattleState, rolls: Seq<u8>) -> bool {
    exists|fuel: nat| #[trigger] spec_resolve_turn(s, rolls, fuel) is Some
}

/// The outcome of a turn that completes: the resulting state and its events.
pub open spec fn spec_turn_result(s: BattleState, rolls: Seq<u8>) -> (BattleState, Seq<BattleEvent>) {
    spec_resolve_turn(s, rolls, choose|fuel: nat| #[trigger] spec_resolve_turn(s, rolls, fuel) is Some).unwrap()
}

fn initialize_turn(battle_state: &mut BattleState, bus: &mut EventBus)
    requires
        old(battle_state).wf(),
    ensures
        (*final(battle_state), final(bus).view()) == spec_initialize_turn(*old(battle_state), old(bus).view()),
        final(battle_state).players == old(battle_state).players,
        final(battle_state).action_queue == old(battle_state).action_queue,
        final(battle_state).wf(),
        spec_keeps_turn(*old(battle_state), *final(battle_state), old(bus).view(), final(bus).view()),
        final(bus).view() == old(bus).view().push(BattleEvent::TurnStarted { turn_number: old(battle_state).turn_number }),
        final(battle_state).game_state == GameState::TurnInProgress,
{
    reveal(spec_initialize_turn);
    set_game_state(battle_state, bus, GameState::TurnInProgress);
    bus.push(BattleEvent::TurnStarted { turn_number: battle_state.turn_number });
}

fn run_turn_actions(
    battle_state: &mut BattleState,
    action_stack: &mut ActionStack,
    bus: &mut EventBus,
    rng: &mut TurnRng,
    fuel: Ghost<nat>,
)
    requires
        old(battle_state).wf(),
        spec_turn_loop(*old(battle_state), old(action_stack).view(), old(bus).view(), old(rng).remaining(), fuel@)
            is Some,
    ensures
        spec_turn_loop(*old(battle_state), old(action_stack).view(), old(bus).view(), old(rng).remaining(), fuel@)
            == Some((*final(battle_state), final(action_stack).view(), final(bus).view(), final(rng).remaining())),
        final(battle_state).wf(),
        spec_keeps_turn(*old(battle_state), *final(battle_state), old(bus).view(), final(bus).view()),
        spec_keeps_phase(*old(battle_state), *final(battle_state)),
{
    let ghost loop_result = spec_turn_loop(*battle_state, action_stack.view(), bus.view(), rng.remaining(), fuel@);
    let ghost mut left: nat = fuel@;
    let mut running = true;
    while running
        invariant
            battle_state.wf(),
            loop_result is Some,
            running ==> spec_turn_loop(*battle_state, action_stack.view(), bus.view(), rng.remaining(), left)
                == loop_result,
            !running ==> loop_result == Some((*battle_state, action_stack.view(), bus.view(), rng.remaining())),
            spec_keeps_turn(*old(battle_state), *battle_state, old(bus).view(), bus.view()),
            spec_keeps_phase(*old(battle_state), *battle_state),
        decreases left + if running { 1int } else { 0int },
    {
        let next = action_stack.pop_front();
        match next {
            None => {
                running = false;
            },
            Some(action) => {
                execute_battle_action(action, battle_state, action_stack, bus, rng);
                proof {
                    left = (left - 1) as nat;
                }
                if battle_state.game_state != GameState::TurnInProgress {
                    running = false;
                }
            },
        }
    }
}

/// The end-of-turn effects of a battle still in progress.
#[verifier::opaque]
pub open spec fn spec_end_of_turn_effects(s: BattleState, bus: Seq<BattleEvent>) -> (BattleState, Seq<BattleEvent>) {
    if s.game_state == GameState::TurnInProgress {
        let (x, _, z) = spec_batch(s, seq![], bus, spec_end_turn(s));
        (x, z)
    } else {
        (s, bus)
    }
}

fn apply_end_of_turn_effects(battle_state: &mut BattleState, bus: &mut EventBus, rng: &mut TurnRng)
    requires
        old(battle_state).wf(),
    ensures
        (*final(battle_state), final(bus).view()) == spec_end_of_turn_effects(*old(battle_state), old(bus).view()),
        final(rng).remaining() == old(rng).remaining(),
        final(battle_state).wf(),
        spec_keeps_turn(*old(battle_state), *final(battle_state), old(bus).view(), final(bus).view()),
        spec_keeps_phase(*old(battle_state), *final(battle_state)),
{
    reveal(spec_end_of_turn_effects);
    if battle_state.game_state == GameState::TurnInProgress {
        let end_turn_commands = calculate_end_turn_commands(battle_state, rng);
        let mut fresh = ActionStack::new();
        proof {
            lemma_safe_batch_allowed(*battle_state, fresh.view(), end_turn_commands@);
        }
        let _ = execute_command_batch(end_turn_commands, battle_state, bus, &mut fresh);
    }
}

/// Resolves one turn of the battle with the turn's random rolls and returns its events (see
/// `spec_resolve_turn`); the turn must complete. The battle keeps its identity and kind; a
/// replacement phase leaves the turn counter alone, and a regular turn advances it by one
/// exactly when the battle goes on. A regular turn's events open with the start of the turn
/// it was and close with its end.
pub fn resolve_turn(battle_state: &mut BattleState, rng: TurnRng) -> (r: EventBus)
    requires
        old(battle_state).wf(),
        spec_queue_ready(*old(battle_state)),
        spec_turn_completes(*old(battle_state), rng.remaining()),
    ensures
        (*final(battle_state), r.view()) == spec_turn_result(*old(battle_state), rng.remaining()),
        final(battle_state).wf(),
        final(battle_state).battle_id == old(battle_state).battle_id,
        final(battle_state).battle_type == old(battle_state).battle_type,
        final(battle_state).turn_number == old(battle_state).turn_number || final(battle_state).turn_number
            == old(battle_state).turn_number + 1,
        spec_is_replacement_phase(old(battle_state).game_state) ==> final(battle_state).turn_number == old(
            battle_state,
        ).turn_number,
        !spec_is_replacement_phase(old(battle_state).game_state) ==> (final(battle_state).turn_number == old(
            battle_state,
        ).turn_number + 1 <==> !spec_battle_over(final(battle_state).game_state)),
        !spec_is_replacement_phase(old(battle_state).game_state) ==> {
            &&& r.view().len() >= 2
            &&& r.view()[0] == BattleEvent::TurnStarted { turn_number: old(battle_state).turn_number }
            &&& r.view().last() == BattleEvent::TurnEnded
        },
{
    let ghost rolls = rng.remaining();
    let ghost fuel0 = choose|fuel: nat| #[trigger] spec_resolve_turn(*old(battle_state), rolls, fuel) is Some;
    let mut rng = rng;
    let mut bus = EventBus::new();
    let mut action_stack = ActionStack::new();
    let replacement = battle_state.game_state == GameState::WaitingForPlayer1Replacement
        || battle_state.game_state == GameState::WaitingForPlayer2Replacement
        || battle_state.game_state == GameState::WaitingForBothReplacements;
    if replacement {
        resolve_replacement_phase(battle_state, &mut bus, &mut action_stack);
        return bus;
    }
    initialize_turn(battle_state, &mut bus);
    assert(bus.view() =~= seq![BattleEvent::TurnStarted { turn_number: old(battle_state).turn_number }]);
    let mut action_stack = ActionStack::build_initial(battle_state);
    run_turn_actions(battle_state, &mut action_stack, &mut bus, &mut rng, Ghost(fuel0));
    apply_end_of_turn_effects(battle_state, &mut bus, &mut rng);
    finalize_turn(battle_state, &mut bus, &mut action_stack);
    bus
}

/// A Pokemon that has fainted does not act: its attack only reports that it failed,
/// changing nothing else and using no roll.
pub proof fn lemma_fainted_attacker_does_nothing(
    attacker_index: usize,
    defender_index: usize,
    m: Move,
    hit_number: u8,
    s: BattleState,
    stack: Seq<BattleAction>,
    bus: Seq<BattleEvent>,
    rolls: Seq<u8>,
)
    requires
        spec_attacker_fainted(s, attacker_index),
    ensures
        spec_execute_battle_action(
            BattleAction::AttackHit { attacker_index, defender_index, move_used: m, hit_number },
            s,
            stack,
            bus,
            rolls,
        ) == (s, stack, bus.push(BattleEvent::ActionFailed { reason: ActionFailureReason::PokemonFainted }), 0nat),
{
}

/// A forfeit ends the battle at once: the other player wins, and the forfeiting player's
/// defeat and the end of the battle are announced, in that order.
pub proof fn lemma_forfeit_ends_battle(
    player_index: usize,
    s: BattleState,
    stack: Seq<BattleAction>,
    bus: Seq<BattleEvent>,
    rolls: Seq<u8>,
)
    requires
        player_index < 2,
    ensures
        ({
            let (s2, st2, b2, used) = spec_execute_battle_action(
                BattleAction::Forfeit { player_index },
                s,
                stack,
                bus,
                rolls,
            );
            let winner: usize = (1 - player_index) as usize;
            &&& s2 == BattleState {
                game_state: if player_index == 0 {
                    GameState::Player2Win
                } else {
                    GameState::Player1Win
                },
                ..s
            }
            &&& st2 == stack
            &&& b2 == bus.push(BattleEvent::PlayerDefeated { player_index }).push(
                BattleEvent::BattleEnded { winner: Some(winner) },
            )
            &&& used == 0
        }),
{
    let cmds = spec_forfeit_commands(player_index);
    let g = if player_index == 0 {
        GameState::Player2Win
    } else {
        GameState::Player1Win
    };
    let winner: usize = (1 - player_index) as usize;
    let s1 = BattleState { game_state: g, ..s };
    let e1 = BattleEvent::PlayerDefeated { player_index };
    let e2 = BattleEvent::BattleEnded { winner: Some(winner) };
    assert(cmds[0] == BattleCommand::SetGameState(g));
    assert(cmds[1] == BattleCommand::EmitEvent(e1));
    assert(cmds[2] == BattleCommand::EmitEvent(e2));
    let r0 = spec_execute_command(s, stack, bus, cmds[0]);
    assert(r0.0 == s1 && r0.1 == stack && r0.3 is Ok);
    assert(spec_emit_events(cmds[0], s1) =~= Seq::<BattleEvent>::empty());
    assert(r0.2 =~= bus);
    let c1 = cmds.drop_first();
    let c2 = c1.drop_first();
    let c3 = c2.drop_first();
    assert(c1[0] == cmds[1] && c2[0] == cmds[2] && c3.len() == 0);
    assert(spec_execute_batch(s1, stack, bus.push(e1).push(e2), c3) == (s1, stack, bus.push(e1).push(e2), Ok::<(), crate::battle::commands::ExecutionError>(())));
    assert(spec_execute_batch(s1, stack, bus.push(e1), c2) == spec_execute_batch(s1, stack, bus.push(e1).push(e2), c3));
    assert(spec_execute_batch(s1, stack, bus, c1) == spec_execute_batch(s1, stack, bus.push(e1), c2));
    assert(spec_execute_batch(s, stack, bus, cmds) == spec_execute_batch(s1, stack, bus, c1));
}

/// A switch that goes ahead brings in the chosen Pokemon with a clean slate: the player's
/// active slot becomes the chosen one, every stat stage is back at 0 and no condition
/// remains, while the team and the other player are as before. It goes ahead unless the
/// active Pokemon is trapped (and still standing) or the chosen one has fainted.
pub proof fn lemma_switch_brings_in_target(
    player_index: usize,
    target_pokemon_index: usize,
    s: BattleState,
    stack: Seq<BattleAction>,
    bus: Seq<BattleEvent>,
)
    requires
        player_index < 2,
        target_pokemon_index < 6,
        s.players[player_index as int].team[target_pokemon_index as int] matches Some(t) && t.curr_hp > 0,
        !(s.players[player_index as int].active_pokemon_conditions.view().dom().contains(PokemonConditionType::Trapped)
            && (spec_active(s.players[player_index as int]) matches Some(a) && a.curr_hp != 0)),
    ensures
        ({
            let p2 = spec_switch_action(player_index, target_pokemon_index, s, stack, bus).0.players[player_index as int];
            &&& p2.active_pokemon_index == target_pokemon_index
            &&& p2.stat_stages == crate::player::spec_zero_stages()
            &&& p2.active_pokemon_conditions.view() == Map::<PokemonConditionType, PokemonCondition>::empty()
            &&& p2.team == s.players[player_index as int].team
            &&& spec_switch_action(player_index, target_pokemon_index, s, stack, bus).0.players[1 - player_index]
                == s.players[1 - player_index]
        }),
{
    let cmds = spec_switch_commands(player_index, target_pokemon_index, s);
    let t = spec_from_index(player_index as int);
    let i = player_index as int;
    let p = s.players[i];
    let empty = crate::battle::conditions::ConditionSet::spec_empty();
    p.active_pokemon_conditions.lemma_updates_view(PokemonCondition::Seeded, PokemonConditionType::Seeded);
    let p1 = BattlePlayer { stat_stages: crate::player::spec_zero_stages(), active_pokemon_conditions: empty, ..p };
    let s1 = crate::battle::commands::spec_set_player(s, i, p1);
    let r0 = spec_execute_command(s, seq![], bus, cmds[0]);
    assert(cmds[0] == BattleCommand::ClearPlayerState { target: t });
    assert(r0.0 == s1 && r0.3 is Ok);
    let p2 = BattlePlayer { active_pokemon_index: target_pokemon_index, ..p1 };
    let s2 = crate::battle::commands::spec_set_player(s1, i, p2);
    let sw = BattleCommand::SwitchPokemon { target: t, new_pokemon_index: target_pokemon_index };
    assert(s1.players[i] == p1);
    let r_sw = spec_execute_command(s1, seq![], r0.2, sw);
    assert(r_sw.0 == s2 && r_sw.3 is Ok);
    if cmds.len() == 3 {
        let ev = cmds[1];
        assert(ev is EmitEvent);
        let r1 = spec_execute_command(s1, seq![], r0.2, ev);
        assert(r1.0 == s1);
        assert(cmds[2] == sw);
        let r2 = spec_execute_command(s1, seq![], r1.2, sw);
        assert(r2.0 == s2 && r2.3 is Ok);
        let c1 = cmds.drop_first();
        let c2 = c1.drop_first();
        let c3 = c2.drop_first();
        assert(c1[0] == ev && c2[0] == sw && c3.len() == 0);
        assert(spec_execute_batch(s2, r2.1, r2.2, c3).0 == s2);
        assert(spec_execute_batch(s1, r1.1, r1.2, c2).0 == s2);
        assert(spec_execute_batch(s1, r0.1, r0.2, c1).0 == s2);
        assert(spec_execute_batch(s, seq![], bus, cmds).0 == s2);
    } else {
        assert(cmds.len() == 2);
        assert(cmds[1] == sw);
        let c1 = cmds.drop_first();
        let c2 = c1.drop_first();
        assert(c1[0] == sw && c2.len() == 0);
        assert(spec_execute_batch(s2, r_sw.1, r_sw.2, c2).0 == s2);
        assert(spec_execute_batch(s1, r0.1, r0.2, c1).0 == s2);
        assert(spec_execute_batch(s, seq![], bus, cmds).0 == s2);
    }
    assert(s2.players[i] == p2);
    assert(s2.players[1 - i] == s.players[1 - i]);
}

/// A command aimed at one player leaves the other player as they were.
proof fn lemma_command_spares_other_player(
    s: BattleState,
    stack: Seq<BattleAction>,
    bus: Seq<BattleEvent>,
    cmd: BattleCommand,
    other: int,
)
    requires
        other == 0 || other == 1,
        spec_command_target(cmd) matches Some(t) && spec_target_index(t) != other,
    ensures
        spec_execute_command(s, stack, bus, cmd).0.players[other] == s.players[other],
{
}

/// An attacking move against an immune defender has no effect on it: whatever happens to the
/// attacker's side, the defender's side is left exactly as it was, and the lack of effect is
/// the last event.
#[verifier::spinoff_prover]
#[verifier::rlimit(60)]
pub proof fn lemma_immune_defender_is_untouched(
    attacker_index: usize,
    defender_index: usize,
    m: Move,
    hit_number: u8,
    s: BattleState,
    stack: Seq<BattleAction>,
    bus: Seq<BattleEvent>,
    rolls: Seq<u8>,
)
    requires
        attacker_index < 2,
        defender_index < 2,
        attacker_index != defender_index,
        spec_move_category(m) != MoveCategory::Status,
        spec_active(s.players[defender_index as int]) matches Some(d) && d.curr_hp > 0
            && spec_effectiveness_percent(spec_move_type(m), spec_current_types(d, s.players[defender_index as int])) == 0,
    ensures
        ({
            let r = spec_attack_after_checks(attacker_index, defender_index, m, hit_number, s, stack, bus, rolls);
            &&& r.0.players[defender_index as int] == s.players[defender_index as int]
            &&& r.3 == 0
            &&& r.2.last() == BattleEvent::AttackTypeEffectiveness { multiplier_percent: 0 }
                || r.2.last() == BattleEvent::ActionFailed {
                reason: ActionFailureReason::NoPPRemaining { move_used: m },
            }
        }),
{
    reveal(spec_attack_after_checks);
    let t = spec_from_index(attacker_index as int);
    let di = defender_index as int;
    if hit_number == 0 {
        let c1 = BattleCommand::UsePP { target: t, move_used: m };
        lemma_command_spares_other_player(s, stack, bus, c1, di);
        let (s2, st2, b2, r2) = spec_execute_command(s, stack, bus, c1);
        if r2 is Ok {
            let c2 = BattleCommand::SetLastMove { target: t, move_used: m };
            lemma_command_spares_other_player(s2, st2, b2, c2, di);
            let (s3, st3, b3, _) = spec_execute_command(s2, st2, b2, c2);
            let c4 = BattleCommand::RemoveCondition { target: t, condition_type: PokemonConditionType::Enraged };
            let p3 = s3.players[attacker_index as int];
            if p3.active_pokemon_conditions.view().dom().contains(PokemonConditionType::Enraged) && Some(m)
                != s.players[attacker_index as int].last_move {
                match spec_active(p3) {
                    Some(pk) => {
                        let (x, y, z, _) = spec_execute_command(
                            s3,
                            st3,
                            b3,
                            BattleCommand::EmitEvent(
                                BattleEvent::StatusRemoved { target: pk.species, status: PokemonCondition::Enraged },
                            ),
                        );
                        lemma_command_spares_other_player(x, y, z, c4, di);
                    },
                    None => {
                        lemma_command_spares_other_player(s3, st3, b3, c4, di);
                    },
                }
            }
        }
    }
}

} // verus!
