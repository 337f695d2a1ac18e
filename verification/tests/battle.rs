use thrpg::chara::{CharaAttack, CharaBase, CharaConfig};
use thrpg::errors::CoreError;
use thrpg::rpg_core::{BattleData, BattleState, PlayMode};

fn chara(name: &str, hp: i64, speed: u64, damages: &[u32]) -> CharaConfig {
    let attacks: Vec<CharaAttack> = damages.iter().map(|d| CharaAttack { damage: *d }).collect();
    CharaConfig::new(
        CharaBase { name: name.to_string(), hp, speed },
        attacks,
    )
    .unwrap()
}

fn session(player: CharaConfig, enemy: CharaConfig) -> BattleData {
    BattleData::new(
        uuid::Uuid::from_u128(7),
        player,
        enemy,
        PlayMode::Simple,
        chrono::NaiveDateTime::default(),
    )
}

#[test]
fn acting_side_cycles_with_period_two() {
    let mut b = session(chara("p", 100, 10, &[5]), chara("e", 100, 5, &[3]));
    assert_eq!(b.turn().charabase.name, "p");
    b.add_turn();
    assert_eq!(b.elapesd_turns(), 1);
    assert_eq!(b.turn().charabase.name, "e");
    b.add_turn();
    assert_eq!(b.elapesd_turns(), 2);
    assert_eq!(b.turn().charabase.name, "p");
}

#[test]
fn slower_player_acts_second() {
    let mut b = session(chara("p", 100, 3, &[5]), chara("e", 100, 9, &[3]));
    assert_eq!(b.turn().charabase.name, "e");
    b.add_turn();
    assert_eq!(b.turn().charabase.name, "p");
}

#[test]
fn speed_tie_favors_player() {
    let b = session(chara("p", 100, 7, &[5]), chara("e", 100, 7, &[3]));
    assert_eq!(b.turn().charabase.name, "p");
}

#[test]
fn advance_twice_restores_acting_side() {
    let mut b = session(chara("p", 100, 4, &[5]), chara("e", 100, 9, &[3]));
    let first = b.turn().charabase.name.clone();
    b.add_turn();
    b.add_turn();
    assert_eq!(b.elapesd_turns(), 2);
    assert_eq!(b.turn().charabase.name, first);
}

#[test]
fn player_damage_is_exact() {
    let mut b = session(chara("p", 100, 10, &[30]), chara("e", 100, 5, &[8]));
    b.calculate_player_damage();
    assert_eq!(b.enemy().charabase.hp, 70);
    assert_eq!(b.player().charabase.hp, 100);
}

#[test]
fn hit_points_go_negative_without_floor() {
    let mut b = session(chara("p", 100, 10, &[30]), chara("e", 10, 5, &[8]));
    b.calculate_player_damage();
    assert_eq!(b.enemy().charabase.hp, -20);
    b.calculate_player_damage();
    assert_eq!(b.enemy().charabase.hp, -50);
}

#[test]
fn enemy_damage_hits_player() {
    let mut b = session(chara("p", 50, 10, &[30]), chara("e", 100, 5, &[8]));
    b.calculate_enemy_damage();
    assert_eq!(b.player().charabase.hp, 42);
    assert_eq!(b.enemy().charabase.hp, 100);
}

#[test]
fn damage_comes_from_the_attack_list() {
    let mut b = session(chara("p", 100, 10, &[6, 6, 6]), chara("e", 40, 5, &[8]));
    b.calculate_player_damage();
    assert_eq!(b.enemy().charabase.hp, 34);
}

#[test]
fn result_battle_applies_acting_side() {
    // Player is faster, elapsed turns 0: the enemy takes the hit.
    let mut b = session(chara("p", 100, 10, &[30]), chara("e", 100, 5, &[8]));
    b.result_battle();
    assert_eq!(b.enemy().charabase.hp, 70);
    assert_eq!(b.player().charabase.hp, 100);
    assert_eq!(b.elapesd_turns(), 0);
    // One turn later the enemy acts and the player takes the hit.
    b.add_turn();
    b.result_battle();
    assert_eq!(b.player().charabase.hp, 92);
    assert_eq!(b.enemy().charabase.hp, 70);
}

#[test]
fn session_starts_stopped_and_at_turn_zero() {
    let b = session(chara("p", 100, 10, &[5]), chara("e", 100, 5, &[3]));
    assert!(!b.is_running());
    assert_eq!(b.elapesd_turns(), 0);
    assert_eq!(b.uuid(), uuid::Uuid::from_u128(7));
    assert_eq!(b.player().charabase.name, "p");
    assert_eq!(b.enemy().charabase.name, "e");
}

#[test]
fn start_running_raises_the_flag_idempotently() {
    let mut b = session(chara("p", 100, 10, &[5]), chara("e", 100, 5, &[3]));
    b.start_running();
    assert!(b.is_running());
    b.start_running();
    assert!(b.is_running());
}

#[test]
fn battle_state_classifies_hit_points() {
    let b = session(chara("p", 1, 10, &[5]), chara("e", 1, 5, &[3]));
    assert_eq!(b.battle_state(), BattleState::BattleContinue);
    let b = session(chara("p", 0, 10, &[5]), chara("e", 1, 5, &[3]));
    assert_eq!(b.battle_state(), BattleState::PlayerDown);
    let b = session(chara("p", 1, 10, &[5]), chara("e", -5, 5, &[3]));
    assert_eq!(b.battle_state(), BattleState::EnemyDown);
    let b = session(chara("p", 0, 10, &[5]), chara("e", 0, 5, &[3]));
    assert_eq!(b.battle_state(), BattleState::PlayerDown);
}

#[test]
fn mode_tokens_are_exact_and_case_sensitive() {
    assert_eq!(PlayMode::try_from_value("Simple"), Ok(PlayMode::Simple));
    assert_eq!(PlayMode::try_from_value("Raid"), Ok(PlayMode::Raid));
    assert_eq!(PlayMode::try_from_value("simple"), Err(CoreError::UnknownMode));
    assert_eq!(PlayMode::try_from_value("RAID"), Err(CoreError::UnknownMode));
    assert_eq!(PlayMode::try_from_value("Story"), Err(CoreError::UnknownMode));
    assert_eq!(PlayMode::try_from_value(""), Err(CoreError::UnknownMode));
}

#[test]
fn story_id_is_returned_for_story_mode_alone() {
    assert_eq!(PlayMode::Simple.story_id(), None);
    assert_eq!(PlayMode::Raid.story_id(), None);
    let story = PlayMode::Story { id: "chapter1".to_string() };
    assert_eq!(story.story_id(), Some("chapter1"));
}
