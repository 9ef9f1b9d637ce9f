use live_client::live::client::decode_body;
use live_client::models::{GameStats, PlayerItem, PlayerScore};

#[test]
fn deserialize_item() {
    let item_str = r#"{
        "canUse": false,
        "consumable": false,
        "count": 1,
        "displayName": "Doran's Blade",
        "itemID": 1055,
        "price": 450,
        "rawDescription": "GeneratedTip_Item_1055_Description",
        "rawDisplayName": "Item_1055_Name",
        "slot": 0
    }"#;
    let p: PlayerItem = decode_body(item_str.as_bytes()).unwrap();
    assert_eq!(p.item_id, 1055);
    assert_eq!(p.display_name, "Doran's Blade");
    assert_eq!(p.can_use, false);
}

#[test]
fn deserialize_item_list() {
    let item_list_str = r#"[
        {
            "canUse": false,
            "consumable": false,
            "count": 1,
            "displayName": "Doran's Blade",
            "itemID": 1055,
            "price": 450,
            "rawDescription": "GeneratedTip_Item_1055_Description",
            "rawDisplayName": "Item_1055_Name",
            "slot": 0
        },
        {
            "canUse": false,
            "consumable": false,
            "count": 1,
            "displayName": "Berserker's Greaves",
            "itemID": 3006,
            "price": 500,
            "rawDescription": "GeneratedTip_Item_3006_Description",
            "rawDisplayName": "Item_3006_Name",
            "slot": 1
        },
        {
            "canUse": false,
            "consumable": false,
            "count": 1,
            "displayName": "Zeal",
            "itemID": 3086,
            "price": 150,
            "rawDescription": "GeneratedTip_Item_3086_Description",
            "rawDisplayName": "Item_3086_Name",
            "slot": 2
        },
        {
            "canUse": false,
            "consumable": false,
            "count": 1,
            "displayName": "Immortal Shieldbow",
            "itemID": 6673,
            "price": 600,
            "rawDescription": "GeneratedTip_Item_6673_Description",
            "rawDisplayName": "Item_6673_Name",
            "slot": 3
        },
        {
            "canUse": true,
            "consumable": false,
            "count": 1,
            "displayName": "Stealth Ward",
            "itemID": 3340,
            "price": 0,
            "rawDescription": "GeneratedTip_Item_3340_Description",
            "rawDisplayName": "Item_3340_Name",
            "slot": 6
        }
    ]"#;
    let p: Vec<PlayerItem> = decode_body(item_list_str.as_bytes()).unwrap();
    assert_eq!(p[0].item_id, 1055);
    assert_eq!(p[1].item_id, 3006);
    assert_eq!(p[2].item_id, 3086);
    assert_eq!(p[3].item_id, 6673);
    assert_eq!(p[4].item_id, 3340);
}

#[test]
fn deserialize_score() {
    let score_str = r#"{
        "assists": 10,
        "creepScore": 100,
        "deaths": 0,
        "kills": 1,
        "wardScore": 0
    }"#;
    let s: PlayerScore = decode_body(score_str.as_bytes()).unwrap();
    assert_eq!(s.assists, 10);
    assert_eq!(s.creep_score, 100);
    assert_eq!(s.deaths, 0);
    assert_eq!(s.kills, 1);
    assert_eq!(s.ward_score, 0);
}

#[test]
fn deserialize_gamestats() {
    let stats_str = r#"{
        "gameMode": "PRACTICETOOL",
        "gameTime": 74.783203125,
        "mapName": "Map11",
        "mapNumber": 11,
        "mapTerrain": "Default"
    }"#;
    let s: GameStats = decode_body(stats_str.as_bytes()).unwrap();
    assert_eq!(s.game_mode, "PRACTICETOOL");
    assert_eq!(s.game_time.text.parse::<f32>().unwrap(), 74.783203125);
    assert_eq!(s.map_name, "Map11");
    assert_eq!(s.map_number, 11);
    assert_eq!(s.map_terrain, "Default");
}
