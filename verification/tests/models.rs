use umamoe_ingest::models::{
    has_changed, has_changed_at, stored_row, VeteranCharacter, VeteranCharacterRow,
    VeteranListParams,
};
use umamoe_ingest::time::{parse_game_time, GameTime};

fn json(text: &str) -> serde_json::Value {
    serde_json::from_str(text).unwrap()
}

fn upload() -> VeteranCharacter {
    VeteranCharacter {
        trained_chara_id: 1,
        card_id: Some(1001),
        scenario_id: Some(2),
        route_id: Some(3),
        rarity: Some(5),
        succession_trained_chara_id_1: Some(10),
        succession_trained_chara_id_2: Some(11),
        succession_num: Some(2),
        speed: Some(1200),
        stamina: Some(900),
        power: Some(1100),
        wiz: Some(800),
        guts: Some(700),
        fans: Some(123456),
        rank_score: Some(456789),
        rank: Some(7),
        chara_grade: Some(4),
        talent_level: Some(5),
        running_style: Some(2),
        race_cloth_id: Some(3001),
        nickname_id: Some(4001),
        wins: Some(12),
        proper_ground_turf: Some(8),
        proper_ground_dirt: Some(1),
        proper_running_style_nige: Some(2),
        proper_running_style_senko: Some(8),
        proper_running_style_sashi: Some(5),
        proper_running_style_oikomi: Some(3),
        proper_distance_short: Some(4),
        proper_distance_mile: Some(8),
        proper_distance_middle: Some(7),
        proper_distance_long: Some(2),
        skill_array: Some(json(r#"[{"skill_id": 1}]"#)),
        support_card_list: Some(json(r#"[{"support_card_id": 2}]"#)),
        factor_info_array: Some(json(r#"[{"factor_id": 3}]"#)),
        win_saddle_id_array: Some(json(r#"[100, 200]"#)),
        succession_chara_array: Some(json(r#"[{"trained_chara_id": 4}]"#)),
        register_time: Some("2026-01-02 03:04:05".to_string()),
        create_time: Some("2026-01-01 02:03:04".to_string()),
    }
}

fn row() -> VeteranCharacterRow {
    VeteranCharacterRow {
        trained_chara_id: 1,
        card_id: Some(1001),
        scenario_id: Some(2),
        route_id: Some(3),
        rarity: Some(5),
        succession_trained_chara_id_1: Some(10),
        succession_trained_chara_id_2: Some(11),
        succession_num: Some(2),
        speed: Some(1200),
        stamina: Some(900),
        power: Some(1100),
        wiz: Some(800),
        guts: Some(700),
        fans: Some(123456),
        rank_score: Some(456789),
        rank: Some(7),
        chara_grade: Some(4),
        talent_level: Some(5),
        running_style: Some(2),
        race_cloth_id: Some(3001),
        nickname_id: Some(4001),
        wins: Some(12),
        proper_ground_turf: Some(8),
        proper_ground_dirt: Some(1),
        proper_running_style_nige: Some(2),
        proper_running_style_senko: Some(8),
        proper_running_style_sashi: Some(5),
        proper_running_style_oikomi: Some(3),
        proper_distance_short: Some(4),
        proper_distance_mile: Some(8),
        proper_distance_middle: Some(7),
        proper_distance_long: Some(2),
        skill_array: json(r#"[{"skill_id": 1}]"#),
        support_card_list: json(r#"[{"support_card_id": 2}]"#),
        factor_info_array: json(r#"[{"factor_id": 3}]"#),
        win_saddle_id_array: json(r#"[100, 200]"#),
        succession_chara_array: json(r#"[{"trained_chara_id": 4}]"#),
        register_time: parse_game_time("2026-01-02 03:04:05"),
        create_time: parse_game_time("2026-01-01 02:03:04"),
    }
}

#[test]
fn unchanged_snapshot_is_not_changed() {
    assert!(!has_changed(&upload(), &row()));
}

#[test]
fn detects_changed_card_identity() {
    let mut upload = upload();
    upload.card_id = Some(9999);

    assert!(has_changed(&upload, &row()));
}

#[test]
fn detects_changed_metadata_fields() {
    let mut upload = upload();
    upload.race_cloth_id = Some(9999);

    assert!(has_changed(&upload, &row()));
}

#[test]
fn detects_changed_game_timestamps() {
    let mut upload = upload();
    upload.create_time = Some("2026-02-01 02:03:04".to_string());

    assert!(has_changed(&upload, &row()));
}

#[test]
fn parses_a_game_time_as_utc() {
    assert_eq!(
        parse_game_time("1970-01-02 00:00:01"),
        Some(GameTime { seconds: 86401, nanos: 0 })
    );
    assert_eq!(
        parse_game_time("2026-01-02 03:04:05"),
        Some(GameTime { seconds: 1767323045, nanos: 0 })
    );
    assert_eq!(
        parse_game_time("1969-12-31 23:59:59"),
        Some(GameTime { seconds: -1, nanos: 0 })
    );
}

#[test]
fn parses_a_leap_second() {
    assert_eq!(
        parse_game_time("2016-12-31 23:59:60"),
        Some(GameTime { seconds: 1483228799, nanos: 1_000_000_000 })
    );
}

#[test]
fn does_not_parse_other_texts() {
    assert_eq!(parse_game_time(""), None);
    assert_eq!(parse_game_time("2026-01-02"), None);
    assert_eq!(parse_game_time("2026-02-30 00:00:00"), None);
    assert_eq!(parse_game_time("2026-01-02 24:00:00"), None);
    assert_eq!(parse_game_time("2026-01-02 03:04:05 "), None);
    assert_eq!(parse_game_time("2026-01-02T03:04:05"), None);
}

#[test]
fn a_time_that_does_not_parse_counts_as_none() {
    let mut upload = upload();
    upload.register_time = Some("yesterday".to_string());
    assert!(has_changed(&upload, &row()));

    let mut row = row();
    row.register_time = None;
    assert!(!has_changed(&upload, &row));
}

#[test]
fn a_missing_list_counts_as_empty() {
    let mut upload = upload();
    upload.skill_array = None;
    assert!(has_changed(&upload, &row()));

    let mut row = row();
    row.skill_array = json("[]");
    assert!(!has_changed(&upload, &row));
    row.skill_array = json("null");
    assert!(has_changed(&upload, &row));
}

#[test]
fn lists_are_compared_as_json_values() {
    let mut upload = upload();
    let mut row = row();
    upload.factor_info_array = Some(json(r#"[ {"a": 1, "b": [true, null]} ]"#));
    row.factor_info_array = json(r#"[{"b":[true,null],"a":1}]"#);
    assert!(!has_changed(&upload, &row));

    row.factor_info_array = json(r#"[{"b":[true,null],"a":1.0}]"#);
    assert!(has_changed(&upload, &row));

    upload.factor_info_array = Some(json("[0.0]"));
    row.factor_info_array = json("[-0.0]");
    assert!(!has_changed(&upload, &row));
}

#[test]
fn a_changed_list_is_detected_in_each_column() {
    let changes: Vec<fn(&mut VeteranCharacter)> = vec![
        |c| c.skill_array = Some(json("[1]")),
        |c| c.support_card_list = Some(json("[1]")),
        |c| c.factor_info_array = Some(json("[1]")),
        |c| c.win_saddle_id_array = Some(json("[1]")),
        |c| c.succession_chara_array = Some(json("[1]")),
    ];
    for change in changes {
        let mut changed = upload();
        change(&mut changed);
        assert!(has_changed(&changed, &row()));
    }
}

#[test]
fn a_change_to_none_is_a_change() {
    let mut upload = upload();
    upload.wins = None;
    assert!(has_changed(&upload, &row()));
}

#[test]
fn the_id_is_not_compared() {
    let mut upload = upload();
    upload.trained_chara_id = 2;
    assert!(!has_changed(&upload, &row()));
}

#[test]
fn given_times_are_compared_with_the_row() {
    let register_time = parse_game_time("2026-01-02 03:04:05");
    let create_time = parse_game_time("2026-01-01 02:03:04");
    assert!(!has_changed_at(&upload(), register_time, create_time, &row()));
    assert!(has_changed_at(&upload(), create_time, create_time, &row()));
    assert!(has_changed_at(&upload(), register_time, None, &row()));
}

#[test]
fn the_stored_row_holds_every_uploaded_column() {
    let stored = stored_row(&upload());
    assert_eq!(format!("{:?}", stored), format!("{:?}", row()));
    assert!(!has_changed(&upload(), &stored));
}

#[test]
fn the_stored_row_of_a_bare_upload_has_empty_lists_and_no_times() {
    let mut upload = upload();
    upload.support_card_list = None;
    upload.create_time = Some("never".to_string());
    let stored = stored_row(&upload);
    assert_eq!(stored.support_card_list, json("[]"));
    assert_eq!(stored.skill_array, json(r#"[{"skill_id": 1}]"#));
    assert_eq!(stored.create_time, None);
    assert_eq!(stored.register_time, parse_game_time("2026-01-02 03:04:05"));
    assert!(!has_changed(&upload, &stored));
}

#[test]
fn no_account_is_asked_for_by_default() {
    assert_eq!(VeteranListParams::default().account_id, None);
}
