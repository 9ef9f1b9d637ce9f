use live_client::live::client::decode_body;
use live_client::live::decode::DecodeError;
use live_client::live::events::{bool_from_string, EventKind};
use live_client::live::models::{GameEvent, GameEventAll, GameEventType};

fn kill(name: &str, stolen: &str) -> String {
    format!(
        "{{\"EventID\": 7, \"EventName\": \"{}\", \"EventTime\": 901.5, \"DragonType\": \"Fire\", \
         \"Stolen\": {}, \"KillerName\": \"Riot Tuxedo\", \"Assisters\": [\"Player 1\", \"Player 2\"]}}",
        name, stolen
    )
}

#[test]
fn stolen_text() {
    assert_eq!(bool_from_string("True"), Ok(true));
    assert_eq!(bool_from_string("False"), Ok(false));
    for other in ["", "true", "false", "TRUE", "True ", " False", "1", "yes", "Truee", "Fals"] {
        assert_eq!(bool_from_string(other), Err(DecodeError::InvalidStolen));
    }
}

#[test]
fn event_names() {
    assert_eq!(EventKind::from_name("GameStart"), Some(EventKind::GameStart));
    assert_eq!(EventKind::from_name("MinionsSpawning"), Some(EventKind::MinionsSpawning));
    assert_eq!(EventKind::from_name("ChampionKill"), Some(EventKind::ChampionKill));
    assert_eq!(EventKind::from_name("FirstBrick"), Some(EventKind::FirstBrick));
    assert_eq!(EventKind::from_name("TurretKilled"), Some(EventKind::TurretKilled));
    assert_eq!(EventKind::from_name("InhibKilled"), Some(EventKind::InhibKilled));
    assert_eq!(EventKind::from_name("DragonKill"), Some(EventKind::DragonKill));
    assert_eq!(EventKind::from_name("HeraldKill"), Some(EventKind::HeraldKill));
    assert_eq!(EventKind::from_name("BaronKill"), Some(EventKind::BaronKill));
    assert_eq!(EventKind::from_name("Multikill"), Some(EventKind::Multikill));
    assert_eq!(EventKind::from_name("Ace"), Some(EventKind::Ace));
    for other in ["", "gamestart", "Gamestart", "MultiKill", "Ace ", "InhibRespawned", "DragonKills"] {
        assert_eq!(EventKind::from_name(other), None);
    }
}

#[test]
fn dragon_kill_in_the_feed_is_not_stolen() {
    let body = format!("{{\"Events\": [{}]}}", kill("DragonKill", "\"False\""));
    let feed: GameEventAll = decode_body(body.as_bytes()).unwrap();
    assert_eq!(feed.events.len(), 1);
    assert_eq!(feed.events[0].event_id, 7);
    assert_eq!(feed.events[0].event_time.text.parse::<f64>().unwrap(), 901.5);
    match &feed.events[0].event_type {
        GameEventType::DragonKill { killer_name, dragon_type, stolen, assisters } => {
            assert_eq!(*stolen, false);
            assert_eq!(killer_name, "Riot Tuxedo");
            assert_eq!(dragon_type, "Fire");
            assert_eq!(assisters, &vec!["Player 1".to_string(), "Player 2".to_string()]);
        }
        other => panic!("{:?}", other),
    }
}

#[test]
fn stolen_true_decodes_to_true() {
    for name in ["DragonKill", "HeraldKill", "BaronKill"] {
        let e: GameEvent = decode_body(kill(name, "\"True\"").as_bytes()).unwrap();
        let stolen = match e.event_type {
            GameEventType::DragonKill { stolen, .. } => stolen,
            GameEventType::HeraldKill { stolen, .. } => stolen,
            GameEventType::BaronKill { stolen, .. } => stolen,
            other => panic!("{:?}", other),
        };
        assert!(stolen);
        let e: GameEvent = decode_body(kill(name, "\"False\"").as_bytes()).unwrap();
        let stolen = match e.event_type {
            GameEventType::DragonKill { stolen, .. } => stolen,
            GameEventType::HeraldKill { stolen, .. } => stolen,
            GameEventType::BaronKill { stolen, .. } => stolen,
            other => panic!("{:?}", other),
        };
        assert!(!stolen);
    }
}

#[test]
fn any_other_stolen_is_an_error() {
    for name in ["DragonKill", "HeraldKill", "BaronKill"] {
        for text in ["\"true\"", "\"\"", "\"No\"", "\"FALSE\""] {
            assert_eq!(
                decode_body::<GameEvent>(kill(name, text).as_bytes()).unwrap_err(),
                DecodeError::InvalidStolen
            );
        }
        for value in ["true", "false", "0", "null", "[\"True\"]"] {
            assert_eq!(
                decode_body::<GameEvent>(kill(name, value).as_bytes()).unwrap_err(),
                DecodeError::WrongType
            );
        }
    }
    let missing = r#"{"EventID": 1, "EventName": "BaronKill", "EventTime": 2, "KillerName": "a", "Assisters": []}"#;
    assert_eq!(
        decode_body::<GameEvent>(missing.as_bytes()).unwrap_err(),
        DecodeError::MissingField
    );
}

#[test]
fn unknown_event_name_is_an_error() {
    let body = r#"{"EventID": 3, "EventName": "InhibRespawned", "EventTime": 12.5}"#;
    assert_eq!(
        decode_body::<GameEvent>(body.as_bytes()).unwrap_err(),
        DecodeError::UnknownEvent
    );
    let feed = r#"{"Events": [
        {"EventID": 0, "EventName": "GameStart", "EventTime": 0},
        {"EventID": 1, "EventName": "InhibRespawned", "EventTime": 12.5},
        {"EventID": 2, "EventName": "MinionsSpawning", "EventTime": 65}
    ]}"#;
    assert_eq!(
        decode_body::<GameEventAll>(feed.as_bytes()).unwrap_err(),
        DecodeError::UnknownEvent
    );
}

#[test]
fn event_name_must_be_there_and_be_a_string() {
    let none = r#"{"EventID": 3, "EventTime": 12.5}"#;
    assert_eq!(decode_body::<GameEvent>(none.as_bytes()).unwrap_err(), DecodeError::MissingField);
    let number = r#"{"EventID": 3, "EventName": 4, "EventTime": 12.5}"#;
    assert_eq!(decode_body::<GameEvent>(number.as_bytes()).unwrap_err(), DecodeError::WrongType);
}

#[test]
fn each_kind_keeps_its_own_members() {
    let body = r#"{"Events": [
        {"EventID": 1, "EventName": "TurretKilled", "EventTime": 1, "TurretKilled": "Turret_T2_L_03_A", "KillerName": "k", "Assisters": []},
        {"EventID": 2, "EventName": "InhibKilled", "EventTime": 2, "InhibKilled": "Barracks_T2_R1", "KillerName": "k", "Assisters": ["a"]},
        {"EventID": 3, "EventName": "Multikill", "EventTime": 3, "KillerName": "k", "KillStreak": 4},
        {"EventID": 4, "EventName": "Ace", "EventTime": 4, "Acer": "k", "AcingTeam": "ORDER"},
        {"EventID": 5, "EventName": "FirstBrick", "EventTime": 5, "KillerName": "k"},
        {"EventID": 6, "EventName": "ChampionKill", "EventTime": 6, "KillerName": "k", "VictimName": "v", "Assisters": []}
    ]}"#;
    let feed: GameEventAll = decode_body(body.as_bytes()).unwrap();
    assert_eq!(feed.events.len(), 6);
    assert!(matches!(&feed.events[0].event_type,
        GameEventType::TurretKilled { killer_name, turret_killed, assisters }
            if killer_name == "k" && turret_killed == "Turret_T2_L_03_A" && assisters.is_empty()));
    assert!(matches!(&feed.events[1].event_type,
        GameEventType::InhibKilled { killer_name, inhib_killed, assisters }
            if killer_name == "k" && inhib_killed == "Barracks_T2_R1" && assisters.len() == 1));
    assert!(matches!(&feed.events[2].event_type,
        GameEventType::Multikill { killer_name, killstreak } if killer_name == "k" && *killstreak == 4));
    assert!(matches!(&feed.events[3].event_type,
        GameEventType::Ace { acer, acing_team } if acer == "k" && acing_team == "ORDER"));
    assert!(matches!(&feed.events[4].event_type,
        GameEventType::FirstBrick { killer_name } if killer_name == "k"));
    assert!(matches!(&feed.events[5].event_type,
        GameEventType::ChampionKill { killer_name, victim_name, assisters }
            if killer_name == "k" && victim_name == "v" && assisters.is_empty()));
    assert_eq!(feed.events[5].event_id, 6);
}

#[test]
fn a_member_of_another_kind_is_missed() {
    let body = r#"{"EventID": 3, "EventName": "Multikill", "EventTime": 3, "KillerName": "k"}"#;
    assert_eq!(decode_body::<GameEvent>(body.as_bytes()).unwrap_err(), DecodeError::MissingField);
    let body = r#"{"EventID": 3, "EventName": "Multikill", "EventTime": 3, "KillerName": "k", "KillStreak": "2"}"#;
    assert_eq!(decode_body::<GameEvent>(body.as_bytes()).unwrap_err(), DecodeError::WrongType);
}
