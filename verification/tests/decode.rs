use live_client::live::client::decode_body;
use live_client::live::decode::{read_field, Decode, DecodeError};
use live_client::live::json::{find_member, Json, Number};
use live_client::live::models::{Ability, ActivePlayerAbilities, GameStats, Player, PlayerScore, Rune};

const PLAYER: &str = r#"{
    "championName": "Annie",
    "isBot": false,
    "isDead": true,
    "items": [
        {
            "canUse": true,
            "consumable": false,
            "count": 2,
            "displayName": "Stealth Ward",
            "itemID": 3340,
            "price": 0,
            "rawDescription": "GeneratedTip_Item_3340_Description",
            "rawDisplayName": "Item_3340_Name",
            "slot": 6
        }
    ],
    "level": 11,
    "position": "MIDDLE",
    "rawChampionName": "game_character_displayname_Annie",
    "respawnTimer": 12.25,
    "runes": {
        "keystone": {"displayName": "Electrocute", "id": 8112, "rawDescription": "d1", "rawDisplayName": "n1"},
        "primaryRuneTree": {"displayName": "Domination", "id": 8100, "rawDescription": "d2", "rawDisplayName": "n2"},
        "secondaryRuneTree": {"displayName": "Sorcery", "id": 8200, "rawDescription": "d3", "rawDisplayName": "n3"}
    },
    "scores": {"assists": 1, "creepScore": 102, "deaths": 3, "kills": 4, "wardScore": 5},
    "skinID": 4294967296,
    "summonerName": "Riot Tuxedo",
    "summonerSpells": {
        "summonerSpellOne": {"displayName": "Flash", "rawDescription": "f1", "rawDisplayName": "f2"},
        "summonerSpellTwo": {"displayName": "Ignite", "rawDescription": "i1", "rawDisplayName": "i2"}
    },
    "team": "ORDER"
}"#;

#[test]
fn player_list_of_one_matches_every_field() {
    let body = format!("[{}]", PLAYER);
    let players: Vec<Player> = decode_body(body.as_bytes()).unwrap();
    assert_eq!(players.len(), 1);
    let p = &players[0];
    assert_eq!(p.champion_name, "Annie");
    assert_eq!(p.is_bot, false);
    assert_eq!(p.is_dead, true);
    assert_eq!(p.items.len(), 1);
    assert_eq!(p.items[0].can_use, true);
    assert_eq!(p.items[0].consumable, false);
    assert_eq!(p.items[0].count, 2);
    assert_eq!(p.items[0].display_name, "Stealth Ward");
    assert_eq!(p.items[0].item_id, 3340);
    assert_eq!(p.items[0].price, 0);
    assert_eq!(p.items[0].raw_description, "GeneratedTip_Item_3340_Description");
    assert_eq!(p.items[0].raw_display_name, "Item_3340_Name");
    assert_eq!(p.items[0].slot, 6);
    assert_eq!(p.level, 11);
    assert_eq!(p.position, "MIDDLE");
    assert_eq!(p.raw_champion_name, "game_character_displayname_Annie");
    assert_eq!(p.respawn_timer.text.parse::<f64>().unwrap(), 12.25);
    assert_eq!(p.runes.keystone.display_name, "Electrocute");
    assert_eq!(p.runes.keystone.id, 8112);
    assert_eq!(p.runes.keystone.raw_description, "d1");
    assert_eq!(p.runes.keystone.raw_display_name, "n1");
    assert_eq!(p.runes.primary_rune_tree.display_name, "Domination");
    assert_eq!(p.runes.primary_rune_tree.id, 8100);
    assert_eq!(p.runes.secondary_rune_tree.display_name, "Sorcery");
    assert_eq!(p.runes.secondary_rune_tree.id, 8200);
    assert_eq!(p.scores.assists, 1);
    assert_eq!(p.scores.creep_score, 102);
    assert_eq!(p.scores.deaths, 3);
    assert_eq!(p.scores.kills, 4);
    assert_eq!(p.scores.ward_score, 5);
    assert_eq!(p.skin_id, 4294967296);
    assert_eq!(p.summoner_name, "Riot Tuxedo");
    assert_eq!(p.summoner_spells.summoner_spell_one.display_name, "Flash");
    assert_eq!(p.summoner_spells.summoner_spell_one.raw_description, "f1");
    assert_eq!(p.summoner_spells.summoner_spell_one.raw_display_name, "f2");
    assert_eq!(p.summoner_spells.summoner_spell_two.display_name, "Ignite");
    assert_eq!(p.team, "ORDER");
}

#[test]
fn body_that_is_no_document() {
    for body in ["", "{", "[1,]", "{\"a\": }", "nul", "{} {}", "\u{feff}{}"] {
        assert_eq!(decode_body::<PlayerScore>(body.as_bytes()).unwrap_err(), DecodeError::Syntax);
    }
    assert_eq!(decode_body::<String>(&[0x22, 0xff, 0x22]).unwrap_err(), DecodeError::Syntax);
}

#[test]
fn missing_member() {
    let body = r#"{"assists": 10, "creepScore": 100, "deaths": 0, "kills": 1}"#;
    assert_eq!(decode_body::<PlayerScore>(body.as_bytes()).unwrap_err(), DecodeError::MissingField);
    assert_eq!(decode_body::<PlayerScore>(b"{}").unwrap_err(), DecodeError::MissingField);
}

#[test]
fn wrong_type() {
    let body = r#"{"assists": "10", "creepScore": 100, "deaths": 0, "kills": 1, "wardScore": 0}"#;
    assert_eq!(decode_body::<PlayerScore>(body.as_bytes()).unwrap_err(), DecodeError::WrongType);
    let body = r#"{"assists": 1.5, "creepScore": 100, "deaths": 0, "kills": 1, "wardScore": 0}"#;
    assert_eq!(decode_body::<PlayerScore>(body.as_bytes()).unwrap_err(), DecodeError::WrongType);
    let body = r#"{"assists": null, "creepScore": 100, "deaths": 0, "kills": 1, "wardScore": 0}"#;
    assert_eq!(decode_body::<PlayerScore>(body.as_bytes()).unwrap_err(), DecodeError::WrongType);
    assert_eq!(decode_body::<PlayerScore>(b"[]").unwrap_err(), DecodeError::WrongType);
    assert_eq!(decode_body::<PlayerScore>(b"3").unwrap_err(), DecodeError::WrongType);
    assert_eq!(decode_body::<Vec<PlayerScore>>(b"{}").unwrap_err(), DecodeError::WrongType);
    assert_eq!(decode_body::<String>(b"true").unwrap_err(), DecodeError::WrongType);
    assert_eq!(decode_body::<bool>(b"\"true\"").unwrap_err(), DecodeError::WrongType);
}

#[test]
fn the_first_bad_member_in_field_order_decides() {
    let body = r#"{"creepScore": "x", "deaths": 0, "kills": 1, "wardScore": 0}"#;
    assert_eq!(decode_body::<PlayerScore>(body.as_bytes()).unwrap_err(), DecodeError::MissingField);
    let body = r#"{"assists": true, "deaths": 0, "kills": 1, "wardScore": 0}"#;
    assert_eq!(decode_body::<PlayerScore>(body.as_bytes()).unwrap_err(), DecodeError::WrongType);
}

#[test]
fn integers_must_fit() {
    assert_eq!(decode_body::<i32>(b"2147483647"), Ok(2147483647));
    assert_eq!(decode_body::<i32>(b"-2147483648"), Ok(-2147483648));
    assert_eq!(decode_body::<i32>(b"2147483648"), Err(DecodeError::WrongType));
    assert_eq!(decode_body::<i32>(b"-2147483649"), Err(DecodeError::WrongType));
    assert_eq!(decode_body::<i32>(b"1.0"), Err(DecodeError::WrongType));
    assert_eq!(decode_body::<i32>(b"1e2"), Err(DecodeError::WrongType));
    assert_eq!(decode_body::<i64>(b"9223372036854775807"), Ok(i64::MAX));
    assert_eq!(decode_body::<i64>(b"-9223372036854775808"), Ok(i64::MIN));
    assert_eq!(decode_body::<i64>(b"9223372036854775808"), Err(DecodeError::WrongType));
    assert_eq!(decode_body::<i64>(b"0.5"), Err(DecodeError::WrongType));
}

#[test]
fn numbers_keep_their_text() {
    let n: Number = decode_body(b"74.783203125").unwrap();
    assert_eq!(n.text, "74.783203125");
    assert_eq!(n.integer, None);
    let n: Number = decode_body(b" 11 ").unwrap();
    assert_eq!(n.text, "11");
    assert_eq!(n.integer, Some(11));
    let n: Number = decode_body(b"-3").unwrap();
    assert_eq!(n.text, "-3");
    assert_eq!(n.integer, Some(-3));
    let n: Number = decode_body(b"18446744073709551615").unwrap();
    assert_eq!(n.text, "18446744073709551615");
    assert_eq!(n.integer, None);
    assert_eq!(decode_body::<Number>(b"\"1\"").unwrap_err(), DecodeError::WrongType);
    let stats: GameStats = decode_body(
        br#"{"gameMode": "CLASSIC", "gameTime": 0, "mapName": "Map11", "mapNumber": 11, "mapTerrain": "Default"}"#,
    )
    .unwrap();
    assert_eq!(stats.game_time.text.parse::<f64>().unwrap(), 0.0);
}

#[test]
fn optional_members() {
    let with = r#"{"abilityLevel": 3, "displayName": "d", "id": "AnnieQ", "rawDescription": "r", "rawDisplayName": "n"}"#;
    let a: Ability = decode_body(with.as_bytes()).unwrap();
    assert_eq!(a.ability_level, Some(3));
    assert_eq!(a.id, "AnnieQ");
    let without = r#"{"displayName": "d", "id": "AnniePassive", "rawDescription": "r", "rawDisplayName": "n"}"#;
    let a: Ability = decode_body(without.as_bytes()).unwrap();
    assert_eq!(a.ability_level, None);
    let null = r#"{"abilityLevel": null, "displayName": "d", "id": "x", "rawDescription": "r", "rawDisplayName": "n"}"#;
    let a: Ability = decode_body(null.as_bytes()).unwrap();
    assert_eq!(a.ability_level, None);
    let bad = r#"{"abilityLevel": "3", "displayName": "d", "id": "x", "rawDescription": "r", "rawDisplayName": "n"}"#;
    assert_eq!(decode_body::<Ability>(bad.as_bytes()).unwrap_err(), DecodeError::WrongType);
}

#[test]
fn abilities_keep_their_slots() {
    let body = r#"{
        "Q": {"abilityLevel": 1, "displayName": "Disintegrate", "id": "AnnieQ", "rawDescription": "r", "rawDisplayName": "n"},
        "Passive": {"displayName": "Pyromania", "id": "AnniePassive", "rawDescription": "r", "rawDisplayName": "n"}
    }"#;
    let abilities: ActivePlayerAbilities = decode_body(body.as_bytes()).unwrap();
    assert_eq!(abilities.abilities.len(), 2);
    let q = abilities.abilities.iter().find(|(slot, _)| slot == "Q").unwrap();
    assert_eq!(q.1.display_name, "Disintegrate");
    assert_eq!(q.1.ability_level, Some(1));
    let passive = abilities.abilities.iter().find(|(slot, _)| slot == "Passive").unwrap();
    assert_eq!(passive.1.id, "AnniePassive");
    assert_eq!(passive.1.ability_level, None);
    let bad = r#"{"Q": 3}"#;
    assert_eq!(decode_body::<ActivePlayerAbilities>(bad.as_bytes()).unwrap_err(), DecodeError::WrongType);
    let empty: ActivePlayerAbilities = decode_body(b"{}").unwrap();
    assert!(empty.abilities.is_empty());
}

#[test]
fn unnamed_members_are_ignored() {
    let body = r#"{"id": 8112, "displayName": "Electrocute", "extra": [1, 2], "rawDescription": "d", "rawDisplayName": "n"}"#;
    let rune: Rune = decode_body(body.as_bytes()).unwrap();
    assert_eq!(rune.id, 8112);
    assert_eq!(rune.display_name, "Electrocute");
    assert_eq!(rune.raw_description, "d");
    assert_eq!(rune.raw_display_name, "n");
}

#[test]
fn members_are_found_by_name() {
    let members = vec![
        (
            "a".to_string(),
            Json::Array(vec![
                Json::Null,
                Json::Bool(true),
                Json::Number(Number { integer: Some(2), text: "2".to_string() }),
                Json::Text("x".to_string()),
            ]),
        ),
        ("b".to_string(), Json::Object(Vec::new())),
        ("t".to_string(), Json::Bool(true)),
    ];
    assert_eq!(find_member(&members, "b"), Some(&Json::Object(Vec::new())));
    assert_eq!(find_member(&members, "t"), Some(&Json::Bool(true)));
    assert_eq!(find_member(&members, "c"), None);
    assert_eq!(find_member(&members, ""), None);
    assert_eq!(read_field::<bool>(&members, "t"), Ok(true));
    assert_eq!(read_field::<bool>(&members, "c"), Err(DecodeError::MissingField));
    assert_eq!(read_field::<Option<bool>>(&members, "c"), Ok(None));
    assert_eq!(read_field::<Option<bool>>(&members, "t"), Ok(Some(true)));
    assert_eq!(read_field::<Vec<Option<bool>>>(&members, "a"), Err(DecodeError::WrongType));
    assert_eq!(read_field::<Vec<i32>>(&members, "b"), Err(DecodeError::WrongType));
}

#[test]
fn the_first_member_of_a_name_is_found() {
    let members = vec![
        ("k".to_string(), Json::Bool(true)),
        ("k".to_string(), Json::Bool(false)),
    ];
    assert_eq!(find_member(&members, "k"), Some(&Json::Bool(true)));
    assert_eq!(bool::decode(&Json::Object(members)), Err(DecodeError::WrongType));
}

#[test]
fn lists_decode_item_by_item() {
    assert_eq!(decode_body::<Vec<i32>>(b"[]"), Ok(vec![]));
    assert_eq!(decode_body::<Vec<i32>>(b"[3, 1, 2]"), Ok(vec![3, 1, 2]));
    assert_eq!(decode_body::<Vec<String>>(b"[\"a\", \"\"]"), Ok(vec!["a".to_string(), String::new()]));
    assert_eq!(decode_body::<Vec<i32>>(b"[3, \"1\", 2.5]"), Err(DecodeError::WrongType));
    assert_eq!(
        decode_body::<Vec<Option<i32>>>(b"[3, null, 2]"),
        Ok(vec![Some(3), None, Some(2)])
    );
}
