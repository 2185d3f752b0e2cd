use umamoe_ingest::errors::AppError;
use umamoe_ingest::ingest::{resolve_account_id, VeteranUpload};
use umamoe_ingest::models::{stored_row, IngestResponse, VeteranCharacter, VeteranCharacterRow};
use umamoe_ingest::plan::plan_ingest;
use umamoe_ingest::text::{format_decimal, format_digits, join, strip_prefix, trim_trailing};

fn character(id: i64, speed: i32) -> VeteranCharacter {
    VeteranCharacter {
        trained_chara_id: id,
        speed: Some(speed),
        card_id: None,
        scenario_id: None,
        route_id: None,
        rarity: None,
        succession_trained_chara_id_1: None,
        succession_trained_chara_id_2: None,
        succession_num: None,
        stamina: None,
        power: None,
        wiz: None,
        guts: None,
        fans: None,
        rank_score: None,
        rank: None,
        chara_grade: None,
        talent_level: None,
        running_style: None,
        race_cloth_id: None,
        nickname_id: None,
        wins: None,
        proper_ground_turf: None,
        proper_ground_dirt: None,
        proper_running_style_nige: None,
        proper_running_style_senko: None,
        proper_running_style_sashi: None,
        proper_running_style_oikomi: None,
        proper_distance_short: None,
        proper_distance_mile: None,
        proper_distance_middle: None,
        proper_distance_long: None,
        skill_array: None,
        support_card_list: None,
        factor_info_array: None,
        win_saddle_id_array: None,
        succession_chara_array: None,
        register_time: None,
        create_time: None,
    }
}

fn accepted(list: Vec<(i64, i32)>) -> VeteranUpload {
    VeteranUpload::accept(list.into_iter().map(|(id, speed)| character(id, speed)).collect()).unwrap()
}

fn rows(list: Vec<(i64, i32)>) -> Vec<VeteranCharacterRow> {
    list.into_iter()
        .map(|(id, speed)| stored_row(&character(id, speed)))
        .collect()
}

fn bad_request(error: AppError) -> String {
    match error {
        AppError::BadRequest(message) => message,
        AppError::Forbidden(message) => panic!("forbidden: {}", message),
    }
}

fn forbidden(error: AppError) -> String {
    match error {
        AppError::Forbidden(message) => message,
        AppError::BadRequest(message) => panic!("bad request: {}", message),
    }
}

#[test]
fn an_empty_list_is_refused() {
    let error = VeteranUpload::accept(Vec::new()).unwrap_err();
    assert_eq!(bad_request(error), "Veteran list must not be empty");
}

#[test]
fn a_list_of_512_is_taken_and_one_more_is_refused() {
    let full: Vec<VeteranCharacter> = (0..512).map(|id| character(id, 1)).collect();
    let upload = VeteranUpload::accept(full).unwrap();
    assert_eq!(upload.characters().len(), 512);

    let more: Vec<VeteranCharacter> = (0..513).map(|id| character(id, 1)).collect();
    assert_eq!(
        bad_request(VeteranUpload::accept(more).unwrap_err()),
        "Upload contains 513 characters; maximum allowed is 512"
    );
}

#[test]
fn the_first_repeated_id_is_reported() {
    let list = vec![
        character(5, 1),
        character(-12, 1),
        character(7, 1),
        character(-12, 2),
        character(5, 1),
    ];
    assert_eq!(
        bad_request(VeteranUpload::accept(list).unwrap_err()),
        "Duplicate trained_chara_id -12 in upload"
    );
}

#[test]
fn the_length_is_checked_before_the_ids() {
    let list: Vec<VeteranCharacter> = (0..600).map(|_| character(1, 1)).collect();
    assert_eq!(
        bad_request(VeteranUpload::accept(list).unwrap_err()),
        "Upload contains 600 characters; maximum allowed is 512"
    );
}

fn names(list: &[&str]) -> Vec<String> {
    list.iter().map(|name| name.to_string()).collect()
}

#[test]
fn a_user_without_verified_account_is_refused() {
    let message = "No verified linked account. Link and verify your trainer account first.";
    assert_eq!(forbidden(resolve_account_id(names(&[]), None).unwrap_err()), message);
    assert_eq!(forbidden(resolve_account_id(names(&[]), Some("a")).unwrap_err()), message);
}

#[test]
fn the_requested_account_has_to_be_verified() {
    assert_eq!(resolve_account_id(names(&["a", "b"]), Some("b")).unwrap(), "b");
    assert_eq!(resolve_account_id(names(&["a"]), Some("a")).unwrap(), "a");
    assert_eq!(
        forbidden(resolve_account_id(names(&["a", "b"]), Some("c")).unwrap_err()),
        "Requested account_id is not verified for this user."
    );
    assert_eq!(
        forbidden(resolve_account_id(names(&["a"]), Some("")).unwrap_err()),
        "Requested account_id is not verified for this user."
    );
}

#[test]
fn the_only_verified_account_needs_no_request() {
    assert_eq!(resolve_account_id(names(&["a"]), None).unwrap(), "a");
}

#[test]
fn several_verified_accounts_need_a_request() {
    assert_eq!(
        bad_request(resolve_account_id(names(&["a", "b", "c"]), None).unwrap_err()),
        "Multiple verified accounts found. Specify ?account_id= with one of: a, b, c"
    );
}

#[test]
fn a_first_upload_inserts_everything() {
    let upload = accepted(vec![(3, 1), (1, 1), (2, 1)]);
    let plan = plan_ingest(&upload, &Vec::new());
    let ids: Vec<i64> = plan.to_insert.iter().map(|c| c.trained_chara_id).collect();
    assert_eq!(ids, vec![3, 1, 2]);
    assert!(plan.to_update.is_empty());
    assert!(plan.to_delete.is_empty());
    assert!(!plan.is_empty());
    assert_eq!(
        plan.response,
        IngestResponse { inserted: 3, updated: 0, deleted: 0, total: 3 }
    );
}

#[test]
fn an_upload_is_compared_with_the_store() {
    let upload = accepted(vec![(1, 10), (2, 21), (5, 50), (4, 40)]);
    let plan = plan_ingest(&upload, &rows(vec![(1, 10), (2, 20), (3, 30), (6, 60)]));
    let inserted: Vec<i64> = plan.to_insert.iter().map(|c| c.trained_chara_id).collect();
    let updated: Vec<i64> = plan.to_update.iter().map(|c| c.trained_chara_id).collect();
    let mut deleted = plan.to_delete.clone();
    deleted.sort();
    assert_eq!(inserted, vec![5, 4]);
    assert_eq!(updated, vec![2]);
    assert_eq!(deleted, vec![3, 6]);
    assert_eq!(
        plan.response,
        IngestResponse { inserted: 2, updated: 1, deleted: 2, total: 4 }
    );
}

#[test]
fn of_two_rows_with_one_id_the_later_counts() {
    let upload = accepted(vec![(1, 10)]);
    let plan = plan_ingest(&upload, &rows(vec![(1, 9), (2, 1), (1, 10), (2, 2)]));
    assert!(plan.to_insert.is_empty());
    assert!(plan.to_update.is_empty());
    assert_eq!(plan.to_delete, vec![2]);
    assert_eq!(
        plan.response,
        IngestResponse { inserted: 0, updated: 0, deleted: 1, total: 1 }
    );

    let plan = plan_ingest(&upload, &rows(vec![(1, 10), (1, 9)]));
    assert_eq!(plan.to_update.len(), 1);
}

#[test]
fn an_id_counts_as_a_whole() {
    let upload = accepted(vec![(i64::MIN, 1), (i64::MAX, 1), (0, 1)]);
    let plan = plan_ingest(&upload, &rows(vec![(i64::MAX, 1), (i64::MIN, 2)]));
    assert_eq!(plan.to_insert[0].trained_chara_id, 0);
    assert_eq!(plan.to_update[0].trained_chara_id, i64::MIN);
    assert_eq!(
        plan.response,
        IngestResponse { inserted: 1, updated: 1, deleted: 0, total: 3 }
    );
}

#[test]
fn a_second_ingest_changes_nothing() {
    let upload = accepted(vec![(1, 10), (2, 20)]);
    let after: Vec<VeteranCharacterRow> = upload.characters().iter().map(stored_row).collect();
    let plan = plan_ingest(&upload, &after);
    assert!(plan.is_empty());
    assert_eq!(
        plan.response,
        IngestResponse { inserted: 0, updated: 0, deleted: 0, total: 2 }
    );
}

#[test]
fn the_store_mirrors_the_upload() {
    let upload = accepted(vec![(1, 10), (2, 21), (4, 40)]);
    let before = rows(vec![(3, 30), (2, 20), (1, 10)]);
    let plan = plan_ingest(&upload, &before);
    let mut after: Vec<VeteranCharacterRow> = before
        .into_iter()
        .filter(|row| !plan.to_delete.contains(&row.trained_chara_id))
        .map(|row| {
            match plan.to_update.iter().find(|c| c.trained_chara_id == row.trained_chara_id) {
                Some(c) => stored_row(c),
                None => row,
            }
        })
        .collect();
    after.extend(plan.to_insert.iter().map(|c| stored_row(c)));
    after.sort_by_key(|row| row.trained_chara_id);
    assert_eq!(
        format!("{:?}", after),
        format!("{:?}", rows(vec![(1, 10), (2, 21), (4, 40)]))
    );
    assert_eq!(plan.response.total, 3);
}

#[test]
fn numbers_are_written_in_decimal() {
    assert_eq!(format_digits(0), "0");
    assert_eq!(format_digits(9), "9");
    assert_eq!(format_digits(1234567890), "1234567890");
    assert_eq!(format_digits(u64::MAX), "18446744073709551615");
    assert_eq!(format_decimal(-7), "-7");
    assert_eq!(format_decimal(i64::MIN), "-9223372036854775808");
    assert_eq!(format_decimal(i64::MAX), "9223372036854775807");
}

#[test]
fn texts_are_joined_and_trimmed() {
    assert_eq!(join(&names(&[]), ", "), "");
    assert_eq!(join(&names(&["a"]), ", "), "a");
    assert_eq!(join(&names(&["a", "", "b"]), ", "), "a, , b");
    assert_eq!(trim_trailing("/a//", '/'), "/a");
    assert_eq!(trim_trailing("", '/'), "");
    assert_eq!(strip_prefix("Bearer x", "Bearer "), Some("x"));
    assert_eq!(strip_prefix("Bearer", "Bearer "), None);
    assert_eq!(strip_prefix("\u{e9}a", "\u{e9}"), Some("a"));
}

#[test]
fn a_full_list_replaces_a_full_store() {
    let upload = accepted((0..512).map(|id| (id, 1)).collect());
    let plan = plan_ingest(&upload, &rows((512..1024).map(|id| (id, 1)).collect()));
    assert_eq!(
        plan.response,
        IngestResponse { inserted: 512, updated: 0, deleted: 512, total: 512 }
    );
}
