//! Veteran characters: as a client uploads them and as the store keeps them.

use vstd::prelude::*;

use crate::json::{json_clone, json_empty_array, json_eq};
use crate::time::{parse_game_time, GameTime};

verus! {

/// One entry in the veteran list JSON array as uploaded by the client.
/// All fields except `trained_chara_id` are optional to be resilient
/// against schema additions in game updates.
#[derive(Debug, Clone)]
pub struct VeteranCharacter {
    pub trained_chara_id: i64,

    // Card / scenario
    pub card_id: Option<i32>,
    pub scenario_id: Option<i32>,
    pub route_id: Option<i32>,
    pub rarity: Option<i32>,
    pub succession_trained_chara_id_1: Option<i64>,
    pub succession_trained_chara_id_2: Option<i64>,
    pub succession_num: Option<i32>,

    // Stats
    pub speed: Option<i32>,
    pub stamina: Option<i32>,
    pub power: Option<i32>,
    pub wiz: Option<i32>,
    pub guts: Option<i32>,
    pub fans: Option<i32>,
    pub rank_score: Option<i64>,
    pub rank: Option<i32>,

    // Grade / style
    pub chara_grade: Option<i32>,
    pub talent_level: Option<i32>,
    pub running_style: Option<i32>,
    pub race_cloth_id: Option<i32>,
    pub nickname_id: Option<i32>,
    pub wins: Option<i32>,

    // Aptitudes
    pub proper_ground_turf: Option<i32>,
    pub proper_ground_dirt: Option<i32>,
    pub proper_running_style_nige: Option<i32>,
    pub proper_running_style_senko: Option<i32>,
    pub proper_running_style_sashi: Option<i32>,
    pub proper_running_style_oikomi: Option<i32>,
    pub proper_distance_short: Option<i32>,
    pub proper_distance_mile: Option<i32>,
    pub proper_distance_middle: Option<i32>,
    pub proper_distance_long: Option<i32>,

    // JSONB arrays
    pub skill_array: Option<serde_json::Value>,
    pub support_card_list: Option<serde_json::Value>,
    pub factor_info_array: Option<serde_json::Value>,
    pub win_saddle_id_array: Option<serde_json::Value>,
    pub succession_chara_array: Option<serde_json::Value>,

    // Timestamps as plain strings from game export ("YYYY-MM-DD HH:MM:SS")
    pub register_time: Option<String>,
    pub create_time: Option<String>,
}

/// A character as the store keeps it, read for change detection.
/// It mirrors every uploaded field that is persisted, so that a fresh snapshot
/// cannot leave stale columns behind on an existing row.
#[derive(Debug)]
pub struct VeteranCharacterRow {
    pub trained_chara_id: i64,
    pub card_id: Option<i32>,
    pub scenario_id: Option<i32>,
    pub route_id: Option<i32>,
    pub rarity: Option<i32>,
    pub succession_trained_chara_id_1: Option<i64>,
    pub succession_trained_chara_id_2: Option<i64>,
    pub succession_num: Option<i32>,
    pub speed: Option<i32>,
    pub stamina: Option<i32>,
    pub power: Option<i32>,
    pub wiz: Option<i32>,
    pub guts: Option<i32>,
    pub fans: Option<i32>,
    pub rank_score: Option<i64>,
    pub rank: Option<i32>,
    pub chara_grade: Option<i32>,
    pub talent_level: Option<i32>,
    pub running_style: Option<i32>,
    pub race_cloth_id: Option<i32>,
    pub nickname_id: Option<i32>,
    pub wins: Option<i32>,
    pub proper_ground_turf: Option<i32>,
    pub proper_ground_dirt: Option<i32>,
    pub proper_running_style_nige: Option<i32>,
    pub proper_running_style_senko: Option<i32>,
    pub proper_running_style_sashi: Option<i32>,
    pub proper_running_style_oikomi: Option<i32>,
    pub proper_distance_short: Option<i32>,
    pub proper_distance_mile: Option<i32>,
    pub proper_distance_middle: Option<i32>,
    pub proper_distance_long: Option<i32>,
    pub skill_array: serde_json::Value,
    pub support_card_list: serde_json::Value,
    pub factor_info_array: serde_json::Value,
    pub win_saddle_id_array: serde_json::Value,
    pub succession_chara_array: serde_json::Value,
    pub register_time: Option<GameTime>,
    pub create_time: Option<GameTime>,
}

/// What the store keeps of a character besides its id, column by column. A column
/// of JSON is given by its canonical text.
pub struct Columns {
    pub card_id: Option<i32>,
    pub scenario_id: Option<i32>,
    pub route_id: Option<i32>,
    pub rarity: Option<i32>,
    pub succession_trained_chara_id_1: Option<i64>,
    pub succession_trained_chara_id_2: Option<i64>,
    pub succession_num: Option<i32>,
    pub speed: Option<i32>,
    pub stamina: Option<i32>,
    pub power: Option<i32>,
    pub wiz: Option<i32>,
    pub guts: Option<i32>,
    pub fans: Option<i32>,
    pub rank_score: Option<i64>,
    pub rank: Option<i32>,
    pub chara_grade: Option<i32>,
    pub talent_level: Option<i32>,
    pub running_style: Option<i32>,
    pub race_cloth_id: Option<i32>,
    pub nickname_id: Option<i32>,
    pub wins: Option<i32>,
    pub proper_ground_turf: Option<i32>,
    pub proper_ground_dirt: Option<i32>,
    pub proper_running_style_nige: Option<i32>,
    pub proper_running_style_senko: Option<i32>,
    pub proper_running_style_sashi: Option<i32>,
    pub proper_running_style_oikomi: Option<i32>,
    pub proper_distance_short: Option<i32>,
    pub proper_distance_mile: Option<i32>,
    pub proper_distance_middle: Option<i32>,
    pub proper_distance_long: Option<i32>,
    pub skill_array: Seq<char>,
    pub support_card_list: Seq<char>,
    pub factor_info_array: Seq<char>,
    pub win_saddle_id_array: Seq<char>,
    pub succession_chara_array: Seq<char>,
    pub register_time: Option<GameTime>,
    pub create_time: Option<GameTime>,
}

/// The canonical text of an uploaded list; a list that was not uploaded is empty.
pub open spec fn list_text(list: Option<serde_json::Value>) -> Seq<char> {
    match list {
        Some(value) => crate::json::json_text(value),
        None => "[]"@,
    }
}

/// The point in time that an uploaded text stands for; none where there is no text
/// or it does not read as one.
pub open spec fn uploaded_time(text: Option<String>) -> Option<GameTime> {
    match text {
        Some(s) => crate::time::game_time(s@),
        None => None,
    }
}

impl VeteranCharacter {
    /// The columns that the store is to hold for this character.
    pub open spec fn columns(self) -> Columns {
        self.columns_at(uploaded_time(self.register_time), uploaded_time(self.create_time))
    }

    /// The columns for this character with the given points in time.
    pub open spec fn columns_at(
        self,
        register_time: Option<GameTime>,
        create_time: Option<GameTime>,
    ) -> Columns {
        Columns {
            card_id: self.card_id,
            scenario_id: self.scenario_id,
            route_id: self.route_id,
            rarity: self.rarity,
            succession_trained_chara_id_1: self.succession_trained_chara_id_1,
            succession_trained_chara_id_2: self.succession_trained_chara_id_2,
            succession_num: self.succession_num,
            speed: self.speed,
            stamina: self.stamina,
            power: self.power,
            wiz: self.wiz,
            guts: self.guts,
            fans: self.fans,
            rank_score: self.rank_score,
            rank: self.rank,
            chara_grade: self.chara_grade,
            talent_level: self.talent_level,
            running_style: self.running_style,
            race_cloth_id: self.race_cloth_id,
            nickname_id: self.nickname_id,
            wins: self.wins,
            proper_ground_turf: self.proper_ground_turf,
            proper_ground_dirt: self.proper_ground_dirt,
            proper_running_style_nige: self.proper_running_style_nige,
            proper_running_style_senko: self.proper_running_style_senko,
            proper_running_style_sashi: self.proper_running_style_sashi,
            proper_running_style_oikomi: self.proper_running_style_oikomi,
            proper_distance_short: self.proper_distance_short,
            proper_distance_mile: self.proper_distance_mile,
            proper_distance_middle: self.proper_distance_middle,
            proper_distance_long: self.proper_distance_long,
            skill_array: list_text(self.skill_array),
            support_card_list: list_text(self.support_card_list),
            factor_info_array: list_text(self.factor_info_array),
            win_saddle_id_array: list_text(self.win_saddle_id_array),
            succession_chara_array: list_text(self.succession_chara_array),
            register_time,
            create_time,
        }
    }
}

impl VeteranCharacterRow {
    /// The columns that the store holds in this row.
    pub open spec fn columns(self) -> Columns {
        Columns {
            card_id: self.card_id,
            scenario_id: self.scenario_id,
            route_id: self.route_id,
            rarity: self.rarity,
            succession_trained_chara_id_1: self.succession_trained_chara_id_1,
            succession_trained_chara_id_2: self.succession_trained_chara_id_2,
            succession_num: self.succession_num,
            speed: self.speed,
            stamina: self.stamina,
            power: self.power,
            wiz: self.wiz,
            guts: self.guts,
            fans: self.fans,
            rank_score: self.rank_score,
            rank: self.rank,
            chara_grade: self.chara_grade,
            talent_level: self.talent_level,
            running_style: self.running_style,
            race_cloth_id: self.race_cloth_id,
            nickname_id: self.nickname_id,
            wins: self.wins,
            proper_ground_turf: self.proper_ground_turf,
            proper_ground_dirt: self.proper_ground_dirt,
            proper_running_style_nige: self.proper_running_style_nige,
            proper_running_style_senko: self.proper_running_style_senko,
            proper_running_style_sashi: self.proper_running_style_sashi,
            proper_running_style_oikomi: self.proper_running_style_oikomi,
            proper_distance_short: self.proper_distance_short,
            proper_distance_mile: self.proper_distance_mile,
            proper_distance_middle: self.proper_distance_middle,
            proper_distance_long: self.proper_distance_long,
            skill_array: crate::json::json_text(self.skill_array),
            support_card_list: crate::json::json_text(self.support_card_list),
            factor_info_array: crate::json::json_text(self.factor_info_array),
            win_saddle_id_array: crate::json::json_text(self.win_saddle_id_array),
            succession_chara_array: crate::json::json_text(self.succession_chara_array),
            register_time: self.register_time,
            create_time: self.create_time,
        }
    }
}

/// Reads an uploaded point in time.
fn read_time(text: &Option<String>) -> (r: Option<GameTime>)
    ensures
        r == uploaded_time(*text),
{
    match text {
        Some(s) => parse_game_time(s.as_str()),
        None => None,
    }
}

/// Whether an uploaded list is another than the stored one.
fn list_differs(list: &Option<serde_json::Value>, stored: &serde_json::Value) -> (r: bool)
    ensures
        r == (list_text(*list) != crate::json::json_text(*stored)),
{
    match list {
        Some(value) => !json_eq(value, stored),
        None => !json_eq(&json_empty_array(), stored),
    }
}

/// The list to store for an uploaded one.
fn list_or_empty(list: &Option<serde_json::Value>) -> (r: serde_json::Value)
    ensures
        crate::json::json_text(r) == list_text(*list),
{
    match list {
        Some(value) => json_clone(value),
        None => json_empty_array(),
    }
}

/// Returns true if the uploaded character differs from the stored row in any
/// persisted column.
pub fn has_changed(upload: &VeteranCharacter, existing: &VeteranCharacterRow) -> (r: bool)
    ensures
        r == (upload.columns() != existing.columns()),
{
    let register_time = read_time(&upload.register_time);
    let create_time = read_time(&upload.create_time);
    has_changed_at(upload, register_time, create_time, existing)
}

/// Returns true if the uploaded character, with the points in time that its texts
/// stand for, differs from the stored row in any persisted column.
pub fn has_changed_at(
    upload: &VeteranCharacter,
    register_time: Option<GameTime>,
    create_time: Option<GameTime>,
    existing: &VeteranCharacterRow,
) -> (r: bool)
    ensures
        r == (upload.columns_at(register_time, create_time) != existing.columns()),
{
    upload.card_id != existing.card_id
        || upload.scenario_id != existing.scenario_id
        || upload.route_id != existing.route_id
        || upload.rarity != existing.rarity
        || upload.succession_trained_chara_id_1 != existing.succession_trained_chara_id_1
        || upload.succession_trained_chara_id_2 != existing.succession_trained_chara_id_2
        || upload.succession_num != existing.succession_num
        || upload.speed != existing.speed
        || upload.stamina != existing.stamina
        || upload.power != existing.power
        || upload.wiz != existing.wiz
        || upload.guts != existing.guts
        || upload.fans != existing.fans
        || upload.rank_score != existing.rank_score
        || upload.rank != existing.rank
        || upload.chara_grade != existing.chara_grade
        || upload.talent_level != existing.talent_level
        || upload.running_style != existing.running_style
        || upload.race_cloth_id != existing.race_cloth_id
        || upload.nickname_id != existing.nickname_id
        || upload.wins != existing.wins
        || upload.proper_ground_turf != existing.proper_ground_turf
        || upload.proper_ground_dirt != existing.proper_ground_dirt
        || upload.proper_running_style_nige != existing.proper_running_style_nige
        || upload.proper_running_style_senko != existing.proper_running_style_senko
        || upload.proper_running_style_sashi != existing.proper_running_style_sashi
        || upload.proper_running_style_oikomi != existing.proper_running_style_oikomi
        || upload.proper_distance_short != existing.proper_distance_short
        || upload.proper_distance_mile != existing.proper_distance_mile
        || upload.proper_distance_middle != existing.proper_distance_middle
        || upload.proper_distance_long != existing.proper_distance_long
        || list_differs(&upload.skill_array, &existing.skill_array)
        || list_differs(&upload.support_card_list, &existing.support_card_list)
        || list_differs(&upload.factor_info_array, &existing.factor_info_array)
        || list_differs(&upload.win_saddle_id_array, &existing.win_saddle_id_array)
        || list_differs(&upload.succession_chara_array, &existing.succession_chara_array)
        || register_time != existing.register_time
        || create_time != existing.create_time
}

/// The row to write for an uploaded character, be it new to the store or changed:
/// every column comes from the upload.
pub fn stored_row(upload: &VeteranCharacter) -> (r: VeteranCharacterRow)
    ensures
        r.trained_chara_id == upload.trained_chara_id,
        r.columns() == upload.columns(),
{
    VeteranCharacterRow {
        trained_chara_id: upload.trained_chara_id,
        card_id: upload.card_id,
        scenario_id: upload.scenario_id,
        route_id: upload.route_id,
        rarity: upload.rarity,
        succession_trained_chara_id_1: upload.succession_trained_chara_id_1,
        succession_trained_chara_id_2: upload.succession_trained_chara_id_2,
        succession_num: upload.succession_num,
        speed: upload.speed,
        stamina: upload.stamina,
        power: upload.power,
        wiz: upload.wiz,
        guts: upload.guts,
        fans: upload.fans,
        rank_score: upload.rank_score,
        rank: upload.rank,
        chara_grade: upload.chara_grade,
        talent_level: upload.talent_level,
        running_style: upload.running_style,
        race_cloth_id: upload.race_cloth_id,
        nickname_id: upload.nickname_id,
        wins: upload.wins,
        proper_ground_turf: upload.proper_ground_turf,
        proper_ground_dirt: upload.proper_ground_dirt,
        proper_running_style_nige: upload.proper_running_style_nige,
        proper_running_style_senko: upload.proper_running_style_senko,
        proper_running_style_sashi: upload.proper_running_style_sashi,
        proper_running_style_oikomi: upload.proper_running_style_oikomi,
        proper_distance_short: upload.proper_distance_short,
        proper_distance_mile: upload.proper_distance_mile,
        proper_distance_middle: upload.proper_distance_middle,
        proper_distance_long: upload.proper_distance_long,
        skill_array: list_or_empty(&upload.skill_array),
        support_card_list: list_or_empty(&upload.support_card_list),
        factor_info_array: list_or_empty(&upload.factor_info_array),
        win_saddle_id_array: list_or_empty(&upload.win_saddle_id_array),
        succession_chara_array: list_or_empty(&upload.succession_chara_array),
        register_time: read_time(&upload.register_time),
        create_time: read_time(&upload.create_time),
    }
}

/// Response returned after a successful ingest.
#[derive(Debug, Clone, Copy, PartialEq, Eq, Structural)]
pub struct IngestResponse {
    pub inserted: i64,
    pub updated: i64,
    pub deleted: i64,
    pub total: i64,
}

/// Optional query parameters for the ingest endpoint.
#[derive(Debug)]
pub struct VeteranListParams {
    /// Required when the authenticated user has more than one verified linked account.
    pub account_id: Option<String>,
}

impl Default for VeteranListParams {
    fn default() -> (r: Self)
        ensures
            r.account_id is None,
    {
        VeteranListParams { account_id: None }
    }
}

} // verus!
