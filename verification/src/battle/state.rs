//! The battle state, the events a turn produces, and the per-turn random source.
use vstd::prelude::*;

use rand::Rng;

use crate::battle::conditions::PokemonCondition;
use crate::moves::Move;
use crate::player::{BattlePlayer, PlayerAction};
use crate::pokemon::StatusCondition;
use crate::schema::{StatType, TeamCondition};
use crate::species::Species;

verus! {

/// Where the battle stands.
#[derive(Debug, Clone, Copy, PartialEq, Eq, Structural)]
pub enum GameState {
    WaitingForActions,
    TurnInProgress,
    WaitingForPlayer1Replacement,
    WaitingForPlayer2Replacement,
    WaitingForBothReplacements,
    Player1Win,
    Player2Win,
    Draw,
}

/// The name of a game state, as its variant is spelled.
pub open spec fn spec_game_state_name(g: GameState) -> Seq<char> {
    match g {
        GameState::WaitingForActions => "WaitingForActions"@,
        GameState::TurnInProgress => "TurnInProgress"@,
        GameState::WaitingForPlayer1Replacement => "WaitingForPlayer1Replacement"@,
        GameState::WaitingForPlayer2Replacement => "WaitingForPlayer2Replacement"@,
        GameState::WaitingForBothReplacements => "WaitingForBothReplacements"@,
        GameState::Player1Win => "Player1Win"@,
        GameState::Player2Win => "Player2Win"@,
        GameState::Draw => "Draw"@,
    }
}

impl GameState {
    /// The name of the state, as its variant is spelled.
    pub fn name(&self) -> (r: &'static str)
        ensures
            r@ == spec_game_state_name(*self),
    {
        match self {
            GameState::WaitingForActions => "WaitingForActions",
            GameState::TurnInProgress => "TurnInProgress",
            GameState::WaitingForPlayer1Replacement => "WaitingForPlayer1Replacement",
            GameState::WaitingForPlayer2Replacement => "WaitingForPlayer2Replacement",
            GameState::WaitingForBothReplacements => "WaitingForBothReplacements",
            GameState::Player1Win => "Player1Win",
            GameState::Player2Win => "Player2Win",
            GameState::Draw => "Draw",
        }
    }
}

/// The kind of battle, which decides whether catching is allowed and rewards are given.
#[derive(Debug, Clone, Copy, PartialEq, Eq, Structural)]
pub enum BattleType {
    Trainer,
    Wild,
    Safari,
    Tournament,
}

/// Why an action did not happen.
#[derive(Debug, Clone, Copy, PartialEq, Eq, Structural)]
pub enum ActionFailureReason {
    IsAsleep { pokemon: Species },
    IsFrozen { pokemon: Species },
    IsExhausted { pokemon: Species },
    IsParalyzed { pokemon: Species },
    IsFlinching { pokemon: Species },
    IsConfused { pokemon: Species },
    IsTrapped { pokemon: Species },
    NoEnemyPresent,
    NoPPRemaining { move_used: Move },
    PokemonFainted,
    MoveFailedToExecute { move_used: Move },
}

/// Why a stat change did not happen.
#[derive(Debug, Clone, Copy, PartialEq, Eq, Structural)]
pub enum StatChangeBlockReason {
    /// Mist protects the team from stat reductions by the opponent.
    MistPreventedReduction,
}

/// Something observable that happened in a battle. Type effectiveness is reported as a
/// percentage (0, 25, 50, 100, 200 or 400).
#[derive(Debug, Clone, Copy)]
pub enum BattleEvent {
    TurnStarted { turn_number: u32 },
    TurnEnded,
    PokemonSwitched { player_index: usize, old_pokemon: Species, new_pokemon: Species },
    MoveUsed { player_index: usize, pokemon: Species, move_used: Move },
    MoveMissed { attacker: Species, defender: Species, move_used: Move },
    MoveHit { attacker: Species, defender: Species, move_used: Move },
    CriticalHit { attacker: Species, defender: Species, move_used: Move },
    DamageDealt { target: Species, damage: u16, remaining_hp: u16 },
    PokemonHealed { target: Species, amount: u16, new_hp: u16 },
    PokemonFainted { player_index: usize, pokemon: Species },
    AttackTypeEffectiveness { multiplier_percent: u16 },
    SubstituteDamaged {
        target: Species,
        damage: u16,
        remaining_substitute_hp: u8,
        substitute_destroyed: bool,
    },
    StatusApplied { target: Species, status: PokemonCondition },
    StatusRemoved { target: Species, status: PokemonCondition },
    StatusDamage { target: Species, status: PokemonCondition, damage: u16 },
    PokemonStatusApplied { target: Species, status: StatusCondition },
    PokemonStatusRemoved { target: Species, status: StatusCondition },
    PokemonStatusDamage {
        target: Species,
        status: StatusCondition,
        damage: u16,
        remaining_hp: u16,
    },
    ConditionExpired { target: Species, condition: PokemonCondition },
    TeamConditionApplied { player_index: usize, condition: TeamCondition },
    TeamConditionExpired { player_index: usize, condition: TeamCondition },
    StatStageChanged { target: Species, stat: StatType, old_stage: i8, new_stage: i8 },
    StatChangeBlocked { target: Species, stat: StatType, reason: StatChangeBlockReason },
    ActionFailed { reason: ActionFailureReason },
    AnteIncreased { player_index: usize, amount: u32, new_total: u32 },
    PlayerDefeated { player_index: usize },
    BattleEnded { winner: Option<usize> },
}

/// The events of a battle, in the order they happened.
#[derive(Debug)]
pub struct EventBus {
    events: Vec<BattleEvent>,
}

impl EventBus {
    /// The events collected so far.
    pub closed spec fn view(&self) -> Seq<BattleEvent> {
        self.events@
    }

    /// An empty bus.
    pub fn new() -> (r: EventBus)
        ensures
            r.view() == Seq::<BattleEvent>::empty(),
    {
        EventBus { events: Vec::new() }
    }

    /// Appends an event.
    pub fn push(&mut self, event: BattleEvent)
        ensures
            final(self).view() == old(self).view().push(event),
    {
        self.events.push(event);
    }

    /// The events collected so far.
    pub fn events(&self) -> (r: &[BattleEvent])
        ensures
            r@ == self.view(),
    {
        self.events.as_slice()
    }

    /// Whether no event was collected.
    pub fn is_empty(&self) -> (r: bool)
        ensures
            r == (self.view().len() == 0),
    {
        self.events.len() == 0
    }

    /// The number of events collected.
    pub fn len(&self) -> (r: usize)
        ensures
            r == self.view().len(),
    {
        self.events.len()
    }
}

#[verifier::external_type_specification]
#[verifier::external_body]
pub struct ExThreadRng(rand::rngs::ThreadRng);

/// Calls `rand::rng()`, the lazily seeded generator of the current thread. Nothing is
/// claimed of its state.
#[verifier::external_body]
fn thread_rng() -> rand::rngs::ThreadRng {
    rand::rng()
}

/// Calls `Rng::random_range(low..=high)` on the generator: the value it returns lies in
/// `low..=high` (the range is not empty, so the call does not panic). Which value comes out
/// is left open.
#[verifier::external_body]
fn random_in_range(rng: &mut rand::rngs::ThreadRng, low: u8, high: u8) -> (r: u8)
    requires
        low <= high,
    ensures
        low <= r <= high,
{
    rng.random_range(low..=high)
}

/// How many outcomes a random turn generator holds.
pub const RANDOM_TURN_OUTCOMES: usize = 100;

/// The random outcomes a turn consumes, in order. Each outcome is a roll in `1..=100`
/// for generated sources; test sources may hold any bytes.
#[derive(Debug)]
pub struct TurnRng {
    outcomes: Vec<u8>,
    index: usize,
}

impl TurnRng {
    #[verifier::type_invariant]
    spec fn index_in_bounds(self) -> bool {
        self.index <= self.outcomes.len()
    }

    /// The outcomes not consumed yet, in the order they will be returned.
    pub closed spec fn remaining(self) -> Seq<u8> {
        self.outcomes@.subrange(self.index as int, self.outcomes.len() as int)
    }

    /// A source that returns exactly `outcomes`, in order.
    pub fn new_for_test(outcomes: Vec<u8>) -> (r: TurnRng)
        ensures
            r.remaining() == outcomes@,
    {
        let r = TurnRng { outcomes, index: 0 };
        assert(r.remaining() =~= r.outcomes@);
        r
    }

    /// A source of one hundred rolls, each in `1..=100`, drawn from the thread's generator.
    pub fn new_random() -> (r: TurnRng)
        ensures
            r.remaining().len() == RANDOM_TURN_OUTCOMES,
            forall|i: int| 0 <= i < r.remaining().len() ==> 1 <= #[trigger] r.remaining()[i] <= 100,
    {
        let mut rng = thread_rng();
        let mut outcomes: Vec<u8> = Vec::new();
        let mut i: usize = 0;
        while i < RANDOM_TURN_OUTCOMES
            invariant
                0 <= i <= RANDOM_TURN_OUTCOMES,
                outcomes.len() == i,
                forall|k: int| 0 <= k < i ==> 1 <= #[trigger] outcomes@[k] <= 100,
            decreases RANDOM_TURN_OUTCOMES - i,
        {
            let roll = random_in_range(&mut rng, 1, 100);
            outcomes.push(roll);
            i = i + 1;
        }
        let r = TurnRng { outcomes, index: 0 };
        assert(r.remaining() =~= r.outcomes@);
        r
    }

    /// How many outcomes are left.
    pub fn remaining_len(&self) -> (r: usize)
        ensures
            r == self.remaining().len(),
    {
        proof {
            use_type_invariant(self);
        }
        self.outcomes.len() - self.index
    }

    /// Consumes and returns the next outcome. `reason` names the check it is used for.
    pub fn next_outcome(&mut self, reason: &str) -> (r: u8)
        requires
            old(self).remaining().len() > 0,
        ensures
            r == old(self).remaining()[0],
            final(self).remaining() == old(self).remaining().drop_first(),
    {
        proof {
            use_type_invariant(&*self);
        }
        let outcome = self.outcomes[self.index];
        self.index = self.index + 1;
        assert(self.remaining() =~= old(self).remaining().drop_first());
        outcome
    }
}

/// The whole state of a battle between two players.
pub struct BattleState {
    pub battle_id: String,
    pub players: [BattlePlayer; 2],
    pub turn_number: u32,
    pub game_state: GameState,
    pub action_queue: [Option<PlayerAction>; 2],
    pub battle_type: BattleType,
}

/// The later event list starts with every event of the earlier one, in order.
pub open spec fn spec_events_extend(before: Seq<BattleEvent>, after: Seq<BattleEvent>) -> bool {
    &&& before.len() <= after.len()
    &&& forall|i: int| 0 <= i < before.len() ==> #[trigger] after[i] == before[i]
}

/// A step within a turn: the battle keeps its identity, its kind and its turn counter, and
/// events are only added.
pub open spec fn spec_keeps_turn(
    s: BattleState,
    s2: BattleState,
    bus: Seq<BattleEvent>,
    bus2: Seq<BattleEvent>,
) -> bool {
    &&& s2.battle_id == s.battle_id
    &&& s2.battle_type == s.battle_type
    &&& s2.turn_number == s.turn_number
    &&& spec_events_extend(bus, bus2)
}

/// A step that can only end the battle: the game state stays as it was, or becomes a win or
/// a draw.
pub open spec fn spec_keeps_phase(s: BattleState, s2: BattleState) -> bool {
    ||| s2.game_state == s.game_state
    ||| s2.game_state == GameState::Player1Win
    ||| s2.game_state == GameState::Player2Win
    ||| s2.game_state == GameState::Draw
}

impl BattleState {
    /// Both players' active slots lie within their teams.
    pub open spec fn wf(&self) -> bool {
        &&& self.players[0].wf()
        &&& self.players[1].wf()
    }

    /// A trainer battle at turn 1, waiting for both players' actions.
    pub fn new(id: String, player1: BattlePlayer, player2: BattlePlayer) -> (r: BattleState)
        ensures
            r.battle_id == id,
            r.players[0] == player1,
            r.players[1] == player2,
            r.turn_number == 1,
            r.game_state == GameState::WaitingForActions,
            r.action_queue[0] is None && r.action_queue[1] is None,
            r.battle_type == BattleType::Trainer,
    {
        BattleState {
            battle_id: id,
            players: [player1, player2],
            turn_number: 1,
            game_state: GameState::WaitingForActions,
            action_queue: [None, None],
            battle_type: BattleType::Trainer,
        }
    }
}

} // verus!
