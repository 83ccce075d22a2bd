use cs2kz::permissions::{Permission, Permissions};
use cs2kz::records::{
    plan_personal_best, top_leaderboard, Leaderboard, PersonalBestPlan, PointsSource, SortBy,
    SortOrder,
};
use cs2kz::steam_id::{InvalidSteamId, SteamId};
use PointsSource::{Absent, Previous, Recalculate};
use cs2kz::users::{GetUsersParams, NewUser, UserId, UserInfo};

#[test]
fn user_ids_are_steam_ids() {
    let steam_id = SteamId::from_u64(76561198282622073).unwrap();
    let user = UserId::new(steam_id);
    assert_eq!(user.steam_id(), steam_id);
    assert_eq!(UserId::try_from(76561198282622073_u64), Ok(user));
    assert_eq!(UserId::try_from_u64(0x0600_0000_0000_0000), Err(InvalidSteamId::InvalidUniverse));
}

#[test]
fn user_records_hold_their_fields() {
    let id = UserId::new(SteamId::from_u64(76561198282622073).unwrap());
    let info = UserInfo { id, name: String::from("alpha") };
    assert_eq!(info.name, "alpha");
    let params = GetUsersParams { permissions: Permissions::of(Permission::Servers) };
    assert!(params.permissions.contains_permission(Permission::Servers));
    let new_user = NewUser { id, name: "beta" };
    assert_eq!(new_user.id, id);
}

#[test]
fn default_sort_orders() {
    assert_eq!(SortBy::default(), SortBy::SubmissionDate);
    assert_eq!(SortOrder::from_sort_by(SortBy::SubmissionDate), SortOrder::Descending);
    assert_eq!(SortOrder::from_sort_by(SortBy::Time), SortOrder::Ascending);
    assert_eq!(SortOrder::or_default_for(None, SortBy::Time), SortOrder::Ascending);
    assert_eq!(
        SortOrder::or_default_for(Some(SortOrder::Descending), SortBy::Time),
        SortOrder::Descending
    );
    assert_eq!(SortBy::Time.sql(), " r.time ");
    assert_eq!(SortBy::SubmissionDate.sql(), " r.submitted_at ");
    assert_eq!(SortOrder::Ascending.sql(), " ASC ");
    assert_eq!(SortOrder::Descending.sql(), " DESC ");
}

#[test]
fn top_records_read_the_pro_leaderboard_only_without_teleports() {
    assert_eq!(top_leaderboard(None), Leaderboard::Nub);
    assert_eq!(top_leaderboard(Some(true)), Leaderboard::Nub);
    assert_eq!(top_leaderboard(Some(false)), Leaderboard::Pro);
}

fn plan(nub: PointsSource, pro: PointsSource) -> Option<PersonalBestPlan> {
    Some(PersonalBestPlan { nub, pro })
}

#[test]
fn personal_best_plans() {
    assert_eq!(plan_personal_best(1, None, None, 0, 10), None);
    assert_eq!(plan_personal_best(0, None, None, 0, 10), plan(Recalculate, Recalculate));
    assert_eq!(plan_personal_best(0, None, None, 3, 10), plan(Recalculate, Absent));
    assert_eq!(plan_personal_best(0, Some(20), None, 0, 10), plan(Recalculate, Recalculate));
    assert_eq!(plan_personal_best(0, Some(5), None, 0, 10), plan(Absent, Recalculate));
    assert_eq!(plan_personal_best(0, Some(5), None, 2, 10), plan(Absent, Absent));
    assert_eq!(plan_personal_best(0, Some(20), Some(30), 0, 10), plan(Recalculate, Recalculate));
    assert_eq!(plan_personal_best(0, Some(20), Some(5), 0, 10), plan(Recalculate, Previous));
    assert_eq!(plan_personal_best(0, Some(5), Some(5), 0, 10), plan(Previous, Previous));
    assert_eq!(plan_personal_best(0, Some(20), Some(5), 1, 10), plan(Recalculate, Previous));
    assert_eq!(plan_personal_best(0, Some(5), None, 1, 10), plan(Absent, Absent));
    assert_eq!(plan_personal_best(0, None, Some(20), 0, 10), plan(Recalculate, Recalculate));
    assert_eq!(plan_personal_best(0, None, Some(5), 0, 10), plan(Absent, Previous));
    assert_eq!(plan_personal_best(0, None, Some(20), 4, 10), plan(Recalculate, Previous));
    assert_eq!(plan_personal_best(0, None, Some(5), 4, 10), plan(Absent, Previous));
}

#[test]
fn an_equal_time_is_no_new_personal_best() {
    assert_eq!(plan_personal_best(0, Some(10), Some(10), 0, 10), plan(Previous, Previous));
    assert_eq!(plan_personal_best(0, Some(11), Some(10), 0, 10), plan(Recalculate, Previous));
}

use cs2kz::records::{
    rank_by_time, split_leaderboards, style_lossy, teleports_comparison, ClientStyleInfo,
    LeaderboardEntry, StylesForNewRecord,
};
use cs2kz::styles::{Style as StyleBit, Styles};

fn entry(record_id: u32, teleports: u32, time: u128) -> LeaderboardEntry {
    LeaderboardEntry { record_id, player_id: 76561198282622073, teleports, time }
}

#[test]
fn leaderboards_split_by_teleports() {
    let entries = [entry(1, 0, 10), entry(2, 3, 11), entry(3, 0, 12), entry(4, 1, 20)];
    let (nub, pro) = split_leaderboards(&entries);
    assert_eq!(nub, entries.to_vec());
    assert_eq!(pro, vec![entry(1, 0, 10), entry(3, 0, 12)]);
    let (nub, pro) = split_leaderboards(&[]);
    assert!(nub.is_empty() && pro.is_empty());
}

#[test]
fn rank_by_time_counts_faster_entries() {
    let entries = [entry(1, 0, 10), entry(2, 0, 20), entry(3, 0, 20), entry(4, 0, 30)];
    assert_eq!(rank_by_time(&entries, 5), 0);
    assert_eq!(rank_by_time(&entries, 10), 0);
    assert_eq!(rank_by_time(&entries, 15), 1);
    assert_eq!(rank_by_time(&entries, 20), 1);
    assert_eq!(rank_by_time(&entries, 25), 3);
    assert_eq!(rank_by_time(&entries, 31), 4);
    assert_eq!(rank_by_time(&[], 31), 0);
}

#[test]
fn teleport_comparisons() {
    assert_eq!(teleports_comparison(true), ">");
    assert_eq!(teleports_comparison(false), "=");
}

#[test]
fn reported_styles_count_unknown_ones_too() {
    assert_eq!(style_lossy("auto-bhop"), Some(StyleBit::AutoBhop));
    assert_eq!(style_lossy("vanilla"), None);
    let known = ClientStyleInfo { style: StyleBit::AutoBhop, checksum: 7_u128 };
    let reported = [None, Some(known), None];
    let styles = StylesForNewRecord::from_reported(&reported);
    assert_eq!(styles.count, 3);
    assert_eq!(styles.known_styles.len(), 1);
    assert_eq!(styles.known_styles[0].checksum, 7);
    assert_eq!(styles.styles(), Styles::of(StyleBit::AutoBhop));
    let none = StylesForNewRecord::<u128>::from_reported(&[]);
    assert_eq!(none.count, 0);
    assert_eq!(none.styles(), Styles::none());
}

use cs2kz::records::{batch_ranges, max_rank_of_column, rank_of_column, RankOutOfRange, MAX_OBJECTS_PER_REQUEST};

#[test]
fn rank_columns() {
    assert_eq!(rank_of_column(None), Ok(None));
    assert_eq!(rank_of_column(Some(3)), Ok(Some(3)));
    assert_eq!(rank_of_column(Some(-1)), Err(RankOutOfRange));
    assert_eq!(rank_of_column(Some(1 << 32)), Err(RankOutOfRange));
    assert_eq!(max_rank_of_column(None), Ok(0));
    assert_eq!(max_rank_of_column(Some(4294967295)), Ok(u32::MAX));
    assert_eq!(max_rank_of_column(Some(-5)), Err(RankOutOfRange));
}

#[test]
fn batches_of_requests() {
    assert_eq!(batch_ranges(0, MAX_OBJECTS_PER_REQUEST), vec![]);
    assert_eq!(batch_ranges(2500, 1000), vec![(0, 1000), (1000, 2000), (2000, 2500)]);
    assert_eq!(batch_ranges(2000, 1000), vec![(0, 1000), (1000, 2000)]);
    assert_eq!(batch_ranges(3, 1), vec![(0, 1), (1, 2), (2, 3)]);
    let data: Vec<u32> = (0..2345).collect();
    let chunks: Vec<(usize, usize)> = data
        .chunks(1000)
        .scan(0, |start, c| {
            let r = (*start, *start + c.len());
            *start += c.len();
            Some(r)
        })
        .collect();
    assert_eq!(batch_ranges(data.len(), 1000), chunks);
}
