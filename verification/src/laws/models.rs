//! What is promised of characters and of the rows that they are stored in.

use vstd::prelude::*;

use crate::models::{VeteranCharacter, VeteranCharacterRow, VeteranListParams};
use crate::time::GameTime;

verus! {

/// A parsed point in time has the seconds and nanoseconds of the date and time that the
/// text reads as, and a text that does not read as one has none.
pub proof fn law_parsed_game_time(s: &str, r: Option<GameTime>)
    requires
        call_ensures(crate::time::parse_game_time, (s,), r),
    ensures
        r is Some <==> crate::time::naive_utc(s@, "%Y-%m-%d %H:%M:%S"@) is Some,
        r matches Some(time) ==> crate::time::naive_utc(s@, "%Y-%m-%d %H:%M:%S"@) == Some(
            (time.seconds, time.nanos),
        ),
{
}

/// Whether a stored point in time is the one that an uploaded text reads as.
pub open spec fn is_time_of(stored: Option<GameTime>, text: Option<String>) -> bool {
    match (stored, text) {
        (Some(time), Some(s)) => crate::time::naive_utc(s@, "%Y-%m-%d %H:%M:%S"@) == Some(
            (time.seconds, time.nanos),
        ),
        (None, Some(s)) => crate::time::naive_utc(s@, "%Y-%m-%d %H:%M:%S"@) is None,
        (None, None) => true,
        (Some(_), None) => false,
    }
}

/// A difference in any persisted field is a change, and without one there is none: the
/// numbers are compared as they are, the lists by their canonical text, a list that is
/// missing being empty, and the points in time with those that the texts read as.
pub proof fn law_any_differing_field_is_a_change(
    upload: VeteranCharacter,
    existing: VeteranCharacterRow,
    r: bool,
)
    requires
        call_ensures(crate::models::has_changed, (&upload, &existing), r),
    ensures
        !r <==> {
            &&& upload.card_id == existing.card_id
            &&& upload.scenario_id == existing.scenario_id
            &&& upload.route_id == existing.route_id
            &&& upload.rarity == existing.rarity
            &&& upload.succession_trained_chara_id_1 == existing.succession_trained_chara_id_1
            &&& upload.succession_trained_chara_id_2 == existing.succession_trained_chara_id_2
            &&& upload.succession_num == existing.succession_num
            &&& upload.speed == existing.speed
            &&& upload.stamina == existing.stamina
            &&& upload.power == existing.power
            &&& upload.wiz == existing.wiz
            &&& upload.guts == existing.guts
            &&& upload.fans == existing.fans
            &&& upload.rank_score == existing.rank_score
            &&& upload.rank == existing.rank
            &&& upload.chara_grade == existing.chara_grade
            &&& upload.talent_level == existing.talent_level
            &&& upload.running_style == existing.running_style
            &&& upload.race_cloth_id == existing.race_cloth_id
            &&& upload.nickname_id == existing.nickname_id
            &&& upload.wins == existing.wins
            &&& upload.proper_ground_turf == existing.proper_ground_turf
            &&& upload.proper_ground_dirt == existing.proper_ground_dirt
            &&& upload.proper_running_style_nige == existing.proper_running_style_nige
            &&& upload.proper_running_style_senko == existing.proper_running_style_senko
            &&& upload.proper_running_style_sashi == existing.proper_running_style_sashi
            &&& upload.proper_running_style_oikomi == existing.proper_running_style_oikomi
            &&& upload.proper_distance_short == existing.proper_distance_short
            &&& upload.proper_distance_mile == existing.proper_distance_mile
            &&& upload.proper_distance_middle == existing.proper_distance_middle
            &&& upload.proper_distance_long == existing.proper_distance_long
            &&& (upload.skill_array matches Some(list) ==> crate::json::json_text(list) == crate::json::json_text(
                existing.skill_array,
            ))
            &&& (upload.skill_array is None ==> crate::json::json_text(existing.skill_array) == "[]"@)
            &&& (upload.support_card_list matches Some(list) ==> crate::json::json_text(list) == crate::json::json_text(
                existing.support_card_list,
            ))
            &&& (upload.support_card_list is None ==> crate::json::json_text(existing.support_card_list) == "[]"@)
            &&& (upload.factor_info_array matches Some(list) ==> crate::json::json_text(list) == crate::json::json_text(
                existing.factor_info_array,
            ))
            &&& (upload.factor_info_array is None ==> crate::json::json_text(existing.factor_info_array) == "[]"@)
            &&& (upload.win_saddle_id_array matches Some(list) ==> crate::json::json_text(list) == crate::json::json_text(
                existing.win_saddle_id_array,
            ))
            &&& (upload.win_saddle_id_array is None ==> crate::json::json_text(existing.win_saddle_id_array) == "[]"@)
            &&& (upload.succession_chara_array matches Some(list) ==> crate::json::json_text(list) == crate::json::json_text(
                existing.succession_chara_array,
            ))
            &&& (upload.succession_chara_array is None ==> crate::json::json_text(existing.succession_chara_array) == "[]"@)
            &&& is_time_of(existing.register_time, upload.register_time)
            &&& is_time_of(existing.create_time, upload.create_time)
        },
{
}

/// The same for points in time that were read before: they are compared as they are.
pub proof fn law_any_differing_field_is_a_change_at(
    upload: VeteranCharacter,
    register_time: Option<GameTime>,
    create_time: Option<GameTime>,
    existing: VeteranCharacterRow,
    r: bool,
)
    requires
        call_ensures(
            crate::models::has_changed_at,
            (&upload, register_time, create_time, &existing),
            r,
        ),
    ensures
        !r <==> {
            &&& upload.card_id == existing.card_id
            &&& upload.scenario_id == existing.scenario_id
            &&& upload.route_id == existing.route_id
            &&& upload.rarity == existing.rarity
            &&& upload.succession_trained_chara_id_1 == existing.succession_trained_chara_id_1
            &&& upload.succession_trained_chara_id_2 == existing.succession_trained_chara_id_2
            &&& upload.succession_num == existing.succession_num
            &&& upload.speed == existing.speed
            &&& upload.stamina == existing.stamina
            &&& upload.power == existing.power
            &&& upload.wiz == existing.wiz
            &&& upload.guts == existing.guts
            &&& upload.fans == existing.fans
            &&& upload.rank_score == existing.rank_score
            &&& upload.rank == existing.rank
            &&& upload.chara_grade == existing.chara_grade
            &&& upload.talent_level == existing.talent_level
            &&& upload.running_style == existing.running_style
            &&& upload.race_cloth_id == existing.race_cloth_id
            &&& upload.nickname_id == existing.nickname_id
            &&& upload.wins == existing.wins
            &&& upload.proper_ground_turf == existing.proper_ground_turf
            &&& upload.proper_ground_dirt == existing.proper_ground_dirt
            &&& upload.proper_running_style_nige == existing.proper_running_style_nige
            &&& upload.proper_running_style_senko == existing.proper_running_style_senko
            &&& upload.proper_running_style_sashi == existing.proper_running_style_sashi
            &&& upload.proper_running_style_oikomi == existing.proper_running_style_oikomi
            &&& upload.proper_distance_short == existing.proper_distance_short
            &&& upload.proper_distance_mile == existing.proper_distance_mile
            &&& upload.proper_distance_middle == existing.proper_distance_middle
            &&& upload.proper_distance_long == existing.proper_distance_long
            &&& (upload.skill_array matches Some(list) ==> crate::json::json_text(list) == crate::json::json_text(
                existing.skill_array,
            ))
            &&& (upload.skill_array is None ==> crate::json::json_text(existing.skill_array) == "[]"@)
            &&& (upload.support_card_list matches Some(list) ==> crate::json::json_text(list) == crate::json::json_text(
                existing.support_card_list,
            ))
            &&& (upload.support_card_list is None ==> crate::json::json_text(existing.support_card_list) == "[]"@)
            &&& (upload.factor_info_array matches Some(list) ==> crate::json::json_text(list) == crate::json::json_text(
                existing.factor_info_array,
            ))
            &&& (upload.factor_info_array is None ==> crate::json::json_text(existing.factor_info_array) == "[]"@)
            &&& (upload.win_saddle_id_array matches Some(list) ==> crate::json::json_text(list) == crate::json::json_text(
                existing.win_saddle_id_array,
            ))
            &&& (upload.win_saddle_id_array is None ==> crate::json::json_text(existing.win_saddle_id_array) == "[]"@)
            &&& (upload.succession_chara_array matches Some(list) ==> crate::json::json_text(list) == crate::json::json_text(
                existing.succession_chara_array,
            ))
            &&& (upload.succession_chara_array is None ==> crate::json::json_text(existing.succession_chara_array) == "[]"@)
            &&& register_time == existing.register_time
            &&& create_time == existing.create_time
        },
{
}

/// The row that is written for a character holds every field of it: the numbers as they
/// are, the lists by their canonical text, a list that is missing being empty, and the
/// points in time that the texts read as.
pub proof fn law_stored_row_holds_the_upload(
    upload: VeteranCharacter,
    row: VeteranCharacterRow,
)
    requires
        call_ensures(crate::models::stored_row, (&upload,), row),
    ensures
        row.trained_chara_id == upload.trained_chara_id,
        upload.card_id == row.card_id,
        upload.scenario_id == row.scenario_id,
        upload.route_id == row.route_id,
        upload.rarity == row.rarity,
        upload.succession_trained_chara_id_1 == row.succession_trained_chara_id_1,
        upload.succession_trained_chara_id_2 == row.succession_trained_chara_id_2,
        upload.succession_num == row.succession_num,
        upload.speed == row.speed,
        upload.stamina == row.stamina,
        upload.power == row.power,
        upload.wiz == row.wiz,
        upload.guts == row.guts,
        upload.fans == row.fans,
        upload.rank_score == row.rank_score,
        upload.rank == row.rank,
        upload.chara_grade == row.chara_grade,
        upload.talent_level == row.talent_level,
        upload.running_style == row.running_style,
        upload.race_cloth_id == row.race_cloth_id,
        upload.nickname_id == row.nickname_id,
        upload.wins == row.wins,
        upload.proper_ground_turf == row.proper_ground_turf,
        upload.proper_ground_dirt == row.proper_ground_dirt,
        upload.proper_running_style_nige == row.proper_running_style_nige,
        upload.proper_running_style_senko == row.proper_running_style_senko,
        upload.proper_running_style_sashi == row.proper_running_style_sashi,
        upload.proper_running_style_oikomi == row.proper_running_style_oikomi,
        upload.proper_distance_short == row.proper_distance_short,
        upload.proper_distance_mile == row.proper_distance_mile,
        upload.proper_distance_middle == row.proper_distance_middle,
        upload.proper_distance_long == row.proper_distance_long,
        (upload.skill_array matches Some(list) ==> crate::json::json_text(list) == crate::json::json_text(
            row.skill_array,
        )),
        (upload.skill_array is None ==> crate::json::json_text(row.skill_array) == "[]"@),
        (upload.support_card_list matches Some(list) ==> crate::json::json_text(list) == crate::json::json_text(
            row.support_card_list,
        )),
        (upload.support_card_list is None ==> crate::json::json_text(row.support_card_list) == "[]"@),
        (upload.factor_info_array matches Some(list) ==> crate::json::json_text(list) == crate::json::json_text(
            row.factor_info_array,
        )),
        (upload.factor_info_array is None ==> crate::json::json_text(row.factor_info_array) == "[]"@),
        (upload.win_saddle_id_array matches Some(list) ==> crate::json::json_text(list) == crate::json::json_text(
            row.win_saddle_id_array,
        )),
        (upload.win_saddle_id_array is None ==> crate::json::json_text(row.win_saddle_id_array) == "[]"@),
        (upload.succession_chara_array matches Some(list) ==> crate::json::json_text(list) == crate::json::json_text(
            row.succession_chara_array,
        )),
        (upload.succession_chara_array is None ==> crate::json::json_text(row.succession_chara_array) == "[]"@),
        is_time_of(row.register_time, upload.register_time),
        is_time_of(row.create_time, upload.create_time),
{
}

/// A row that was just written for a character counts as unchanged.
pub proof fn law_written_row_is_unchanged(
    upload: VeteranCharacter,
    row: VeteranCharacterRow,
    changed: bool,
)
    requires
        call_ensures(crate::models::stored_row, (&upload,), row),
        call_ensures(crate::models::has_changed, (&upload, &row), changed),
    ensures
        !changed,
{
}

/// Two rows have the same columns exactly where each of their fields is the same, lists
/// by their canonical text.
pub proof fn law_columns_tell_rows_apart(a: VeteranCharacterRow, b: VeteranCharacterRow)
    ensures
        a.columns() == b.columns() <==> {
            &&& a.card_id == b.card_id
            &&& a.scenario_id == b.scenario_id
            &&& a.route_id == b.route_id
            &&& a.rarity == b.rarity
            &&& a.succession_trained_chara_id_1 == b.succession_trained_chara_id_1
            &&& a.succession_trained_chara_id_2 == b.succession_trained_chara_id_2
            &&& a.succession_num == b.succession_num
            &&& a.speed == b.speed
            &&& a.stamina == b.stamina
            &&& a.power == b.power
            &&& a.wiz == b.wiz
            &&& a.guts == b.guts
            &&& a.fans == b.fans
            &&& a.rank_score == b.rank_score
            &&& a.rank == b.rank
            &&& a.chara_grade == b.chara_grade
            &&& a.talent_level == b.talent_level
            &&& a.running_style == b.running_style
            &&& a.race_cloth_id == b.race_cloth_id
            &&& a.nickname_id == b.nickname_id
            &&& a.wins == b.wins
            &&& a.proper_ground_turf == b.proper_ground_turf
            &&& a.proper_ground_dirt == b.proper_ground_dirt
            &&& a.proper_running_style_nige == b.proper_running_style_nige
            &&& a.proper_running_style_senko == b.proper_running_style_senko
            &&& a.proper_running_style_sashi == b.proper_running_style_sashi
            &&& a.proper_running_style_oikomi == b.proper_running_style_oikomi
            &&& a.proper_distance_short == b.proper_distance_short
            &&& a.proper_distance_mile == b.proper_distance_mile
            &&& a.proper_distance_middle == b.proper_distance_middle
            &&& a.proper_distance_long == b.proper_distance_long
            &&& crate::json::json_text(a.skill_array) == crate::json::json_text(b.skill_array)
            &&& crate::json::json_text(a.support_card_list) == crate::json::json_text(b.support_card_list)
            &&& crate::json::json_text(a.factor_info_array) == crate::json::json_text(b.factor_info_array)
            &&& crate::json::json_text(a.win_saddle_id_array) == crate::json::json_text(b.win_saddle_id_array)
            &&& crate::json::json_text(a.succession_chara_array) == crate::json::json_text(b.succession_chara_array)
            &&& a.register_time == b.register_time
            &&& a.create_time == b.create_time
        },
{
}

/// By default no account is asked for.
pub proof fn law_default_params(r: VeteranListParams)
    requires
        call_ensures(VeteranListParams::default, (), r),
    ensures
        r.account_id is None,
{
}

} // verus!
