//! Battle-session state and the experience formula: turn ordering by speed
//! and turn parity, randomized damage application, and the reward
//! computation.
//!
//! Experience amounts and luck multipliers are carried in tenths of a
//! point, so the fractional luck bonuses (1.1 / 1.3 / 1.5) stay exact
//! integers throughout.

use vstd::prelude::*;
use crate::chara::{CharaBase, CharaConfig};
use crate::errors::CoreError;

verus! {

#[verifier::external_type_specification]
#[verifier::external_body]
pub struct ExUuid(uuid::Uuid);

#[verifier::external_type_specification]
#[verifier::external_body]
pub struct ExNaiveDateTime(chrono::NaiveDateTime);

/// Relies on rand::random_range: draws a value uniformly inside the given
/// range; it panics only on an empty range, which the precondition rules
/// out. Two calls on the same bound may differ.
#[verifier::external_body]
fn choose_index(len: usize) -> (r: usize)
    requires
        len > 0,
    ensures
        r < len,
{
    rand::random_range(0..len)
}

/// Which rule variant an encounter plays under: Simple, Raid, or a story
/// chapter carrying its identifier.
#[derive(Debug, PartialEq, Eq, PartialOrd, Ord, Clone, Hash)]
pub enum PlayMode {
    Simple,
    Raid,
    Story { id: String },
}

impl PlayMode {
    /// Parses the literal mode tokens: exactly "Simple" or "Raid",
    /// case-sensitively. Story mode needs an identifier and is never
    /// produced here.
    pub fn try_from_value(value: &str) -> (r: Result<Self, CoreError>)
        ensures
            value@ == "Simple"@ ==> r == Ok::<Self, CoreError>(PlayMode::Simple),
            value@ == "Raid"@ ==> r == Ok::<Self, CoreError>(PlayMode::Raid),
            value@ != "Simple"@ && value@ != "Raid"@ ==> r == Err::<Self, CoreError>(
                CoreError::UnknownMode,
            ),
    {
        proof {
            reveal_strlit("Simple");
            reveal_strlit("Raid");
            assert("Simple"@.len() == 6);
            assert("Raid"@.len() == 4);
        }
        let v = value.to_owned();
        if v.eq(&"Simple".to_owned()) {
            Ok(Self::Simple)
        } else if v.eq(&"Raid".to_owned()) {
            Ok(Self::Raid)
        } else {
            Err(CoreError::UnknownMode)
        }
    }

    /// The story identifier, for Story mode alone.
    pub fn story_id(&self) -> (r: Option<&str>)
        ensures
            match self {
                PlayMode::Story { id } => r matches Some(s) && s@ == id@,
                _ => r is None,
            },
    {
        match self {
            Self::Simple => None,
            Self::Raid => None,
            Self::Story { id: a } => Some(a.as_str()),
        }
    }
}

/// A fixed experience-multiplier tier.
#[derive(Debug, Clone, Copy, PartialEq, Eq, Structural)]
pub enum LuckyLevel {
    LuckyOne,
    LuckyTwo,
    LuckyThree,
}

/// The multiplier of a luck tier, in tenths: 11, 13 and 15 stand for the
/// bonuses 1.1, 1.3 and 1.5.
pub open spec fn spec_lucky_tenths(l: LuckyLevel) -> int {
    match l {
        LuckyLevel::LuckyOne => 11,
        LuckyLevel::LuckyTwo => 13,
        LuckyLevel::LuckyThree => 15,
    }
}

impl LuckyLevel {
    /// The multiplier of this tier, in tenths of the original bonus
    /// factor.
    pub fn lucky_number(&self) -> (r: u32)
        ensures
            r == spec_lucky_tenths(*self),
    {
        match self {
            LuckyLevel::LuckyOne => 11,
            LuckyLevel::LuckyTwo => 13,
            LuckyLevel::LuckyThree => 15,
        }
    }
}

/// The base reward before any luck bonus, over unbounded integers:
/// 18 + (enemy level * 2 - player level) * the 1-based appearance ordinal
/// of the enemy. The subtraction is signed, so an enemy far below the
/// player yields a negative base rather than a wrapped one.
pub open spec fn spec_base_exp(enemy_level: u32, player_level: u32, enemy_appear: u8) -> int {
    18 + (2 * enemy_level - player_level) * enemy_appear
}

/// The reward in tenths of a point: ten times the base without a luck
/// tier, or the base times the tier's tenths multiplier with one.
pub open spec fn spec_exp_tenths(
    enemy_level: u32,
    player_level: u32,
    enemy_appear: u8,
    lucky_level: Option<LuckyLevel>,
) -> int {
    match lucky_level {
        None => 10 * spec_base_exp(enemy_level, player_level, enemy_appear),
        Some(l) => spec_lucky_tenths(l) * spec_base_exp(enemy_level, player_level, enemy_appear),
    }
}

/// Amount of experience earned in battle, in tenths of a point.
///
/// Exp = 18 + (enemy level * 2 - player level) * {enemy appear}th boss
/// (* lucky multiplier), all scaled by ten. The subtraction is carried out
/// in signed arithmetic: a reward may be negative, never wrapped.
pub fn math_exp(
    enemy_level: u32,
    player_level: u32,
    enemy_appear: u8,
    lucky_level: Option<LuckyLevel>,
) -> (r: i64)
    ensures
        r == spec_exp_tenths(enemy_level, player_level, enemy_appear, lucky_level),
{
    let diff: i64 = 2 * (enemy_level as i64) - (player_level as i64);
    proof {
        assert((diff as int) * (enemy_appear as int) <= 0x2_0000_0000 * 255 && (diff as int) * (
        enemy_appear as int) >= -0x1_0000_0000 * 255) by (nonlinear_arith)
            requires
                -0x1_0000_0000 <= diff as int <= 0x2_0000_0000,
                0 <= enemy_appear as int <= 255,
        ;
    }
    let base: i64 = 18 + diff * (enemy_appear as i64);
    let factor: i64 = match lucky_level {
        None => 10,
        Some(l) => l.lucky_number() as i64,
    };
    proof {
        assert((factor as int) * (base as int) <= 0x2_0000_0000 * 255 * 15 + 18 * 15 && (factor
            as int) * (base as int) >= -0x1_0000_0000 * 255 * 15) by (nonlinear_arith)
            requires
                -0x1_0000_0000 * 255 <= base as int <= 0x2_0000_0000 * 255 + 18,
                10 <= factor as int <= 15,
        ;
    }
    factor * base
}

/// The mutable state of one encounter: the two character records, the
/// encounter mode, the elapsed-turn counter and the running flag, plus the
/// opaque encounter id and creation timestamp that the core only carries.
pub struct BattleData {
    pub uuid: uuid::Uuid,
    pub player_data: CharaConfig,
    pub enemy_data: CharaConfig,
    pub play_mode: PlayMode,
    pub elapesd_turns: u32,
    pub start_time: chrono::NaiveDateTime,
    pub is_running: bool,
}

/// The two sessions agree everywhere except that the enemy's hit points
/// may differ.
pub open spec fn differs_only_in_enemy_hp(pre: BattleData, post: BattleData) -> bool {
    &&& post.uuid == pre.uuid
    &&& post.player_data == pre.player_data
    &&& post.enemy_data.charabase.name == pre.enemy_data.charabase.name
    &&& post.enemy_data.charabase.speed == pre.enemy_data.charabase.speed
    &&& post.enemy_data.attack == pre.enemy_data.attack
    &&& post.play_mode == pre.play_mode
    &&& post.elapesd_turns == pre.elapesd_turns
    &&& post.start_time == pre.start_time
    &&& post.is_running == pre.is_running
}

/// The two sessions agree everywhere except that the player's hit points
/// may differ.
pub open spec fn differs_only_in_player_hp(pre: BattleData, post: BattleData) -> bool {
    &&& post.uuid == pre.uuid
    &&& post.enemy_data == pre.enemy_data
    &&& post.player_data.charabase.name == pre.player_data.charabase.name
    &&& post.player_data.charabase.speed == pre.player_data.charabase.speed
    &&& post.player_data.attack == pre.player_data.attack
    &&& post.play_mode == pre.play_mode
    &&& post.elapesd_turns == pre.elapesd_turns
    &&& post.start_time == pre.start_time
    &&& post.is_running == pre.is_running
}

/// One of the player's attacks landed on the enemy: its damage was
/// subtracted from the enemy's hit points, with no floor, and nothing else
/// changed.
pub open spec fn player_strike(pre: BattleData, post: BattleData) -> bool {
    &&& differs_only_in_enemy_hp(pre, post)
    &&& exists|i: int|
        0 <= i < pre.player_data.attack@.len() && post.enemy_data.charabase.hp
            == pre.enemy_data.charabase.hp - pre.player_data.attack@[i].damage
}

/// One of the enemy's attacks landed on the player: its damage was
/// subtracted from the player's hit points, with no floor, and nothing
/// else changed.
pub open spec fn enemy_strike(pre: BattleData, post: BattleData) -> bool {
    &&& differs_only_in_player_hp(pre, post)
    &&& exists|i: int|
        0 <= i < pre.enemy_data.attack@.len() && post.player_data.charabase.hp
            == pre.player_data.charabase.hp - pre.enemy_data.attack@[i].damage
}

impl BattleData {
    /// Both character records are well formed.
    pub open spec fn wf(self) -> bool {
        self.player_data.wf() && self.enemy_data.wf()
    }

    /// The encounter's turn ordering starts with the player exactly when
    /// the player's speed is at least the enemy's: ties favor the player.
    pub open spec fn player_acts_first(self) -> bool {
        self.player_data.charabase.speed >= self.enemy_data.charabase.speed
    }

    /// Whether the player is the acting side when the elapsed-turn counter
    /// stands at `turns`: the ordering cycles with period two.
    pub open spec fn acting_side_is_player_at(self, turns: u32) -> bool {
        (turns % 2 == 0) == self.player_acts_first()
    }

    /// Whether the player is the acting side in the current round.
    pub open spec fn acting_side_is_player(self) -> bool {
        self.acting_side_is_player_at(self.elapesd_turns)
    }

    /// Every player attack can be subtracted from the enemy's hit points
    /// without falling off the machine integers.
    pub open spec fn player_damage_fits(self) -> bool {
        forall|i: int|
            0 <= i < self.player_data.attack@.len() ==> self.enemy_data.charabase.hp
                - self.player_data.attack@[i].damage >= i64::MIN
    }

    /// Every enemy attack can be subtracted from the player's hit points
    /// without falling off the machine integers.
    pub open spec fn enemy_damage_fits(self) -> bool {
        forall|i: int|
            0 <= i < self.enemy_data.attack@.len() ==> self.player_data.charabase.hp
                - self.enemy_data.attack@[i].damage >= i64::MIN
    }

    /// Creates an encounter that has not started: the elapsed-turn counter
    /// at zero and the running flag down.
    pub fn new(
        uuid: uuid::Uuid,
        player_data: CharaConfig,
        enemy_data: CharaConfig,
        play_mode: PlayMode,
        start_time: chrono::NaiveDateTime,
    ) -> (r: Self)
        requires
            player_data.wf(),
            enemy_data.wf(),
        ensures
            r.uuid == uuid,
            r.player_data == player_data,
            r.enemy_data == enemy_data,
            r.play_mode == play_mode,
            r.start_time == start_time,
            r.elapesd_turns == 0,
            r.is_running == false,
            r.wf(),
    {
        Self { uuid, player_data, enemy_data, play_mode, start_time, elapesd_turns: 0, is_running: false }
    }

    /// Advance the elapsed turn by one; nothing else moves.
    pub fn add_turn(&mut self)
        requires
            old(self).elapesd_turns < u32::MAX,
        ensures
            final(self).elapesd_turns == old(self).elapesd_turns + 1,
            final(self).uuid == old(self).uuid,
            final(self).player_data == old(self).player_data,
            final(self).enemy_data == old(self).enemy_data,
            final(self).play_mode == old(self).play_mode,
            final(self).start_time == old(self).start_time,
            final(self).is_running == old(self).is_running,
    {
        self.elapesd_turns = self.elapesd_turns + 1;
    }

    /// The fixed ordering of the encounter: the faster character first,
    /// the player first on a tie.
    fn _turn<'a>(player: &'a CharaConfig, enemy: &'a CharaConfig) -> (r: Vec<&'a CharaConfig>)
        ensures
            r@.len() == 2,
            player.charabase.speed >= enemy.charabase.speed ==> r@[0] == player && r@[1] == enemy,
            player.charabase.speed < enemy.charabase.speed ==> r@[0] == enemy && r@[1] == player,
    {
        let mut vec: Vec<&CharaConfig> = Vec::new();
        if player.charabase.speed >= enemy.charabase.speed {
            vec.push(player);
            vec.push(enemy);
        } else {
            vec.push(enemy);
            vec.push(player);
        }
        vec
    }

    /// The record of the acting side for the current round: the ordering
    /// indexed by the elapsed-turn counter modulo two. The counter itself
    /// is not advanced; the surrounding loop does that through
    /// [`Self::add_turn`], once per round.
    pub fn turn(&self) -> (r: &CharaConfig)
        ensures
            self.acting_side_is_player() ==> r == &self.player_data,
            !self.acting_side_is_player() ==> r == &self.enemy_data,
    {
        let turn_info = Self::_turn(&self.player_data, &self.enemy_data);
        let idx: usize = (self.elapesd_turns % 2) as usize;
        turn_info[idx]
    }

    /// get player data
    pub fn player(&self) -> (r: &CharaConfig)
        ensures
            r == &self.player_data,
    {
        &self.player_data
    }

    /// get enemy data
    pub fn enemy(&self) -> (r: &CharaConfig)
        ensures
            r == &self.enemy_data,
    {
        &self.enemy_data
    }

    /// get uuid
    pub fn uuid(&self) -> (r: uuid::Uuid)
        ensures
            r == self.uuid,
    {
        self.uuid
    }

    /// One randomly chosen player attack hits the enemy: its damage is
    /// subtracted from the enemy's hit points, which may go negative and
    /// stay there.
    pub fn calculate_player_damage(&mut self)
        requires
            old(self).player_data.wf(),
            old(self).player_damage_fits(),
        ensures
            player_strike(*old(self), *final(self)),
    {
        let idx = choose_index(self.player_data.attack.len());
        let damage = self.player_data.attack[idx].damage;
        self.enemy_data.charabase.hp = self.enemy_data.charabase.hp - damage as i64;
    }

    /// One randomly chosen enemy attack hits the player: its damage is
    /// subtracted from the player's hit points, which may go negative and
    /// stay there.
    pub fn calculate_enemy_damage(&mut self)
        requires
            old(self).enemy_data.wf(),
            old(self).enemy_damage_fits(),
        ensures
            enemy_strike(*old(self), *final(self)),
    {
        let idx = choose_index(self.enemy_data.attack.len());
        let damage = self.enemy_data.attack[idx].damage;
        self.player_data.charabase.hp = self.player_data.charabase.hp - damage as i64;
    }

    pub fn elapesd_turns(&self) -> (r: u32)
        ensures
            r == self.elapesd_turns,
    {
        self.elapesd_turns
    }

    pub fn is_running(&self) -> (r: bool)
        ensures
            r == self.is_running,
    {
        self.is_running
    }

    /// Raises the running flag; calling it again has no further effect.
    pub fn start_running(&mut self)
        ensures
            final(self).is_running == true,
            final(self).uuid == old(self).uuid,
            final(self).player_data == old(self).player_data,
            final(self).enemy_data == old(self).enemy_data,
            final(self).play_mode == old(self).play_mode,
            final(self).start_time == old(self).start_time,
            final(self).elapesd_turns == old(self).elapesd_turns,
    {
        self.is_running = true;
    }

    /// Resolves one round: the acting side, read from the current
    /// elapsed-turn counter, lands one of its attacks on the other side.
    /// The counter itself is left untouched; the caller advances it with
    /// [`Self::add_turn`] once per round.
    pub fn result_battle(&mut self)
        requires
            old(self).wf(),
            old(self).acting_side_is_player() ==> old(self).player_damage_fits(),
            !old(self).acting_side_is_player() ==> old(self).enemy_damage_fits(),
        ensures
            old(self).acting_side_is_player() ==> player_strike(*old(self), *final(self)),
            !old(self).acting_side_is_player() ==> enemy_strike(*old(self), *final(self)),
    {
        let player_first = self.player_data.charabase.speed >= self.enemy_data.charabase.speed;
        let player_acts = (self.elapesd_turns % 2 == 0) == player_first;
        if player_acts {
            self.calculate_player_damage();
        } else {
            self.calculate_enemy_damage();
        }
    }

    /// Classifies the session's outcome from the hit points: knockout
    /// detection lives here, outside round resolution, so the surrounding
    /// loop checks it after each round. A side is down at zero or fewer
    /// hit points; if both are down, the player's defeat takes precedence.
    pub fn battle_state(&self) -> (r: BattleState)
        ensures
            self.player_data.charabase.hp <= 0 ==> r == BattleState::PlayerDown,
            self.player_data.charabase.hp > 0 && self.enemy_data.charabase.hp <= 0 ==> r
                == BattleState::EnemyDown,
            self.player_data.charabase.hp > 0 && self.enemy_data.charabase.hp > 0 ==> r
                == BattleState::BattleContinue,
    {
        if self.player_data.charabase.hp <= 0 {
            BattleState::PlayerDown
        } else if self.enemy_data.charabase.hp <= 0 {
            BattleState::EnemyDown
        } else {
            BattleState::BattleContinue
        }
    }
}

/// Battle outcome, consumed by the surrounding game loop.
#[derive(Debug, Clone, Copy, PartialEq, Eq, Structural)]
pub enum BattleState {
    BattleContinue,
    PlayerDown,
    EnemyDown,
}

/// The acting side cycles with period two: at any session and any
/// elapsed-turn count, the side that acts two turns later is the side that
/// acts now.
pub proof fn lemma_acting_side_period_two(b: BattleData, n: u32)
    requires
        n + 2 <= u32::MAX,
    ensures
        b.acting_side_is_player_at((n + 2) as u32) == b.acting_side_is_player_at(n),
{
    let m = n as int;
    assert((m + 2) % 2 == m % 2) by (nonlinear_arith)
        requires
            m >= 0,
    ;
    assert(((n + 2) as u32) as int == m + 2);
}

} // verus!
