use thrpg::chara::{CharaAttack, CharaBase, CharaConfig};
use thrpg::errors::CoreError;
use thrpg::catalog::load_catalog;

const REIMU_FILE: &str = "
[charabase]
name = \"博麗霊夢\"
hp = 100
speed = 10

[[attack]]
damage = 30

[[attack]]
damage = 10
";

const SAKUYA_FILE: &str = "
[charabase]
name = \"十六夜咲夜\"
hp = 90
speed = 12

[[attack]]
damage = 25
";

#[test]
fn load_against_non_directory_fails() {
    assert_eq!(load_catalog(None).unwrap_err(), CoreError::NotADirectory);
}

#[test]
fn load_of_empty_directory_is_empty() {
    let r = load_catalog(Some(vec![])).unwrap();
    assert_eq!(r.len(), 0);
}

#[test]
fn load_parses_a_valid_file() {
    let r = load_catalog(Some(vec![REIMU_FILE.to_string()])).unwrap();
    assert_eq!(r.len(), 1);
    assert_eq!(r[0].charabase.name, "博麗霊夢");
    assert_eq!(r[0].charabase.hp, 100);
    assert_eq!(r[0].charabase.speed, 10);
    assert_eq!(r[0].attack.len(), 2);
    assert_eq!(r[0].attack[0].damage, 30);
    assert_eq!(r[0].attack[1].damage, 10);
}

#[test]
fn load_parses_several_files_in_order() {
    let r = load_catalog(Some(vec![REIMU_FILE.to_string(), SAKUYA_FILE.to_string()])).unwrap();
    assert_eq!(r.len(), 2);
    assert_eq!(r[0].charabase.name, "博麗霊夢");
    assert_eq!(r[1].charabase.name, "十六夜咲夜");
}

#[test]
fn one_malformed_file_aborts_the_whole_load() {
    let r = load_catalog(Some(vec![REIMU_FILE.to_string(), "not toml [[".to_string()]));
    assert_eq!(r.unwrap_err(), CoreError::ConfigParseError);
}

#[test]
fn missing_field_is_a_parse_error() {
    let no_speed = "
[charabase]
name = \"x\"
hp = 5

[[attack]]
damage = 1
";
    assert_eq!(load_catalog(Some(vec![no_speed.to_string()])).unwrap_err(), CoreError::ConfigParseError);
}

#[test]
fn wrong_field_type_is_a_parse_error() {
    let bad_hp = "
[charabase]
name = \"x\"
hp = \"full\"
speed = 1

[[attack]]
damage = 1
";
    assert_eq!(load_catalog(Some(vec![bad_hp.to_string()])).unwrap_err(), CoreError::ConfigParseError);
}

#[test]
fn negative_speed_is_a_parse_error() {
    let bad = "
[charabase]
name = \"x\"
hp = 5
speed = -1

[[attack]]
damage = 1
";
    assert_eq!(load_catalog(Some(vec![bad.to_string()])).unwrap_err(), CoreError::ConfigParseError);
}

#[test]
fn negative_damage_is_a_parse_error() {
    let bad = "
[charabase]
name = \"x\"
hp = 5
speed = 1

[[attack]]
damage = -3
";
    assert_eq!(load_catalog(Some(vec![bad.to_string()])).unwrap_err(), CoreError::ConfigParseError);
}

#[test]
fn oversized_damage_is_a_parse_error() {
    let bad = "
[charabase]
name = \"x\"
hp = 5
speed = 1

[[attack]]
damage = 4294967296
";
    assert_eq!(load_catalog(Some(vec![bad.to_string()])).unwrap_err(), CoreError::ConfigParseError);
}

#[test]
fn empty_attack_list_is_a_parse_error() {
    let bad = "
[charabase]
name = \"x\"
hp = 5
speed = 1
attack = []
";
    assert_eq!(load_catalog(Some(vec![bad.to_string()])).unwrap_err(), CoreError::ConfigParseError);
}

#[test]
fn empty_attack_list_is_rejected_at_construction() {
    let r = CharaConfig::new(
        CharaBase { name: "x".to_string(), hp: 1, speed: 1 },
        vec![],
    );
    assert!(matches!(r, Err(CoreError::EmptyAttackList)));
}

#[test]
fn construction_keeps_the_fields() {
    let c = CharaConfig::new(
        CharaBase { name: "x".to_string(), hp: 3, speed: 4 },
        vec![CharaAttack { damage: 9 }],
    )
    .unwrap();
    assert_eq!(c.charabase.name, "x");
    assert_eq!(c.charabase.hp, 3);
    assert_eq!(c.charabase.speed, 4);
    assert_eq!(c.attack, vec![CharaAttack { damage: 9 }]);
}
