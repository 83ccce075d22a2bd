//! Decisions behind records: how a record query is sorted, which leaderboard a "top records"
//! query reads, and which personal bests a newly submitted record replaces.
//!
//! Times are compared as whole nanoseconds, which orders them as the durations they are.

use vstd::prelude::*;

use crate::styles::{bits_of_styles, Style, Styles};

verus! {

/// The value that records are sorted by.
#[derive(Debug, Clone, Copy, PartialEq, Eq, Structural)]
pub enum SortBy {
    /// The date at which a record was submitted (the default).
    SubmissionDate,
    /// The time of a record.
    Time,
}

/// The direction in which records are sorted.
#[derive(Debug, Clone, Copy, PartialEq, Eq, Structural)]
pub enum SortOrder {
    Ascending,
    Descending,
}

/// The leaderboard of a course filter: runs with teleports ("nub") or without ("pro").
#[derive(Debug, Clone, Copy, PartialEq, Eq, Structural)]
pub enum Leaderboard {
    Nub,
    Pro,
}

/// Where the points of a leaderboard come from after a record was submitted.
#[derive(Debug, Clone, Copy, PartialEq, Eq, Structural)]
pub enum PointsSource {
    /// The record is the new personal best there: it is stored and its points are computed.
    Recalculate,
    /// The personal best stays the one from before, with its points.
    Previous,
    /// The player has no points there.
    Absent,
}

/// What happens to the two leaderboards when a record is submitted.
#[derive(Debug, Clone, Copy, PartialEq, Eq, Structural)]
pub struct PersonalBestPlan {
    pub nub: PointsSource,
    pub pro: PointsSource,
}

/// The direction used when a query names none: newest first for submission dates, fastest
/// first for times.
pub open spec fn default_order(sort_by: SortBy) -> SortOrder {
    match sort_by {
        SortBy::SubmissionDate => SortOrder::Descending,
        SortBy::Time => SortOrder::Ascending,
    }
}

/// The leaderboard that a "top records" query reads: the pro leaderboard when runs with
/// teleports are excluded, else the nub leaderboard.
pub open spec fn top_leaderboard_model(has_teleports: Option<bool>) -> Leaderboard {
    match has_teleports {
        Some(false) => Leaderboard::Pro,
        _ => Leaderboard::Nub,
    }
}

/// Whether `time` beats the previous best `best`.
pub open spec fn beats(time: u128, best: u128) -> bool {
    time < best
}

/// The plan for a record of `time` with `teleports` teleports, given the player's previous
/// nub and pro times on the filter, or `None` when the record used styles.
pub open spec fn personal_best_model(
    style_count: usize,
    old_nub: Option<u128>,
    old_pro: Option<u128>,
    teleports: u32,
    time: u128,
) -> Option<PersonalBestPlan> {
    if style_count > 0 {
        None
    } else {
        Some(
            match (old_nub, old_pro) {
                (None, None) => if teleports == 0 {
                    PersonalBestPlan { nub: PointsSource::Recalculate, pro: PointsSource::Recalculate }
                } else {
                    PersonalBestPlan { nub: PointsSource::Recalculate, pro: PointsSource::Absent }
                },
                (Some(nub), None) => PersonalBestPlan {
                    nub: if beats(time, nub) {
                        PointsSource::Recalculate
                    } else {
                        PointsSource::Absent
                    },
                    pro: if teleports == 0 {
                        PointsSource::Recalculate
                    } else {
                        PointsSource::Absent
                    },
                },
                (Some(nub), Some(pro)) => if teleports == 0 {
                    PersonalBestPlan {
                        nub: if beats(time, nub) {
                            PointsSource::Recalculate
                        } else {
                            PointsSource::Previous
                        },
                        pro: if beats(time, pro) {
                            PointsSource::Recalculate
                        } else {
                            PointsSource::Previous
                        },
                    }
                } else {
                    PersonalBestPlan {
                        nub: if beats(time, nub) {
                            PointsSource::Recalculate
                        } else {
                            PointsSource::Absent
                        },
                        pro: PointsSource::Previous,
                    }
                },
                (None, Some(pro)) => if teleports == 0 {
                    if beats(time, pro) {
                        PersonalBestPlan { nub: PointsSource::Recalculate, pro: PointsSource::Recalculate }
                    } else {
                        PersonalBestPlan { nub: PointsSource::Absent, pro: PointsSource::Previous }
                    }
                } else {
                    PersonalBestPlan {
                        nub: if beats(time, pro) {
                            PointsSource::Recalculate
                        } else {
                            PointsSource::Absent
                        },
                        pro: PointsSource::Previous,
                    }
                },
            },
        )
    }
}

impl std::default::Default for SortBy {
    fn default() -> (r: SortBy)
        ensures
            r == SortBy::SubmissionDate,
    {
        SortBy::SubmissionDate
    }
}

impl SortBy {
    /// The column of the query that this value sorts by.
    pub fn sql(&self) -> (r: &'static str)
        ensures
            r@ == (match *self {
                SortBy::SubmissionDate => " r.submitted_at "@,
                SortBy::Time => " r.time "@,
            }),
    {
        match self {
            SortBy::SubmissionDate => " r.submitted_at ",
            SortBy::Time => " r.time ",
        }
    }
}

impl SortOrder {
    /// The direction used when a query names none.
    pub fn from_sort_by(sort_by: SortBy) -> (r: SortOrder)
        ensures
            r == default_order(sort_by),
    {
        match sort_by {
            SortBy::SubmissionDate => SortOrder::Descending,
            SortBy::Time => SortOrder::Ascending,
        }
    }

    /// The direction of a query: the one it names, or the default for its sort value.
    pub fn or_default_for(sort_order: Option<SortOrder>, sort_by: SortBy) -> (r: SortOrder)
        ensures
            r == (match sort_order {
                Some(o) => o,
                None => default_order(sort_by),
            }),
    {
        match sort_order {
            Some(o) => o,
            None => SortOrder::from_sort_by(sort_by),
        }
    }

    /// The keyword of the query for this direction.
    pub fn sql(&self) -> (r: &'static str)
        ensures
            r@ == (match *self {
                SortOrder::Ascending => " ASC "@,
                SortOrder::Descending => " DESC "@,
            }),
    {
        match self {
            SortOrder::Ascending => " ASC ",
            SortOrder::Descending => " DESC ",
        }
    }
}

/// The leaderboard that a "top records" query reads.
pub fn top_leaderboard(has_teleports: Option<bool>) -> (r: Leaderboard)
    ensures
        r == top_leaderboard_model(has_teleports),
{
    match has_teleports {
        Some(false) => Leaderboard::Pro,
        _ => Leaderboard::Nub,
    }
}

/// Decides what a newly submitted record does to the player's personal bests on its filter.
///
/// `style_count` is the number of styles the record used, `old_nub` and `old_pro` the
/// player's previous best times (in nanoseconds) on the two leaderboards, and `time` the
/// record's time. A record with styles changes no personal best and gets `None`.
pub fn plan_personal_best(
    style_count: usize,
    old_nub: Option<u128>,
    old_pro: Option<u128>,
    teleports: u32,
    time: u128,
) -> (r: Option<PersonalBestPlan>)
    ensures
        r == personal_best_model(style_count, old_nub, old_pro, teleports, time),
{
    if style_count > 0 {
        return None;
    }
    let plan = match (old_nub, old_pro) {
        (None, None) => {
            if teleports == 0 {
                PersonalBestPlan { nub: PointsSource::Recalculate, pro: PointsSource::Recalculate }
            } else {
                PersonalBestPlan { nub: PointsSource::Recalculate, pro: PointsSource::Absent }
            }
        },
        (Some(nub), None) => {
            let nub_source = if time < nub {
                PointsSource::Recalculate
            } else {
                PointsSource::Absent
            };
            let pro_source = if teleports == 0 {
                PointsSource::Recalculate
            } else {
                PointsSource::Absent
            };
            PersonalBestPlan { nub: nub_source, pro: pro_source }
        },
        (Some(nub), Some(pro)) => {
            if teleports == 0 {
                let nub_source = if time < nub {
                    PointsSource::Recalculate
                } else {
                    PointsSource::Previous
                };
                let pro_source = if time < pro {
                    PointsSource::Recalculate
                } else {
                    PointsSource::Previous
                };
                PersonalBestPlan { nub: nub_source, pro: pro_source }
            } else {
                let nub_source = if time < nub {
                    PointsSource::Recalculate
                } else {
                    PointsSource::Absent
                };
                PersonalBestPlan { nub: nub_source, pro: PointsSource::Previous }
            }
        },
        (None, Some(pro)) => {
            if teleports == 0 {
                if time < pro {
                    PersonalBestPlan { nub: PointsSource::Recalculate, pro: PointsSource::Recalculate }
                } else {
                    PersonalBestPlan { nub: PointsSource::Absent, pro: PointsSource::Previous }
                }
            } else {
                let nub_source = if time < pro {
                    PointsSource::Recalculate
                } else {
                    PointsSource::Absent
                };
                PersonalBestPlan { nub: nub_source, pro: PointsSource::Previous }
            }
        },
    };
    Some(plan)
}

/// Which leaderboards a record without styles enters, over all inputs:
/// - with a previous nub best `b`, the record becomes the nub best exactly when it is faster
///   than `b`, whatever its teleports;
/// - without a previous nub best, it becomes the nub best exactly when there is no pro best or
///   it is faster than the pro best;
/// - a run without teleports becomes the pro best exactly when there is no pro best or it is
///   faster than the pro best; a run with teleports never does;
/// - the previous nub best keeps its points exactly when the run is not faster, there is a pro
///   best too and the run has no teleports; the previous pro best keeps its points exactly when
///   there is one and the run has teleports or is not faster.
pub proof fn law_personal_best_sources(
    old_nub: Option<u128>,
    old_pro: Option<u128>,
    teleports: u32,
    time: u128,
)
    ensures
        ({
            let p = personal_best_model(0, old_nub, old_pro, teleports, time)->0;
            &&& personal_best_model(0, old_nub, old_pro, teleports, time) is Some
            &&& old_nub matches Some(b) ==> (p.nub == PointsSource::Recalculate <==> time < b)
            &&& old_nub is None ==> (p.nub == PointsSource::Recalculate <==> match old_pro {
                None => true,
                Some(b) => time < b,
            })
            &&& teleports == 0 ==> (p.pro == PointsSource::Recalculate <==> match old_pro {
                None => true,
                Some(b) => time < b,
            })
            &&& teleports > 0 ==> p.pro != PointsSource::Recalculate
            &&& (p.nub == PointsSource::Previous <==> (old_nub matches Some(b) && !(time < b)
                && old_pro is Some && teleports == 0))
            &&& (p.pro == PointsSource::Previous <==> (old_pro matches Some(b) && (teleports > 0
                || !(time < b))))
        }),
{
}

/// A submitted record replaces a personal best only where it is the player's first record on
/// that leaderboard or beats the previous best there; a run with teleports never enters the
/// pro leaderboard, a run without a previous best always enters the nub leaderboard, and a run
/// with styles changes nothing.
pub proof fn law_personal_best_replacement(
    style_count: usize,
    old_nub: Option<u128>,
    old_pro: Option<u128>,
    teleports: u32,
    time: u128,
)
    ensures
        ({
            let plan = personal_best_model(style_count, old_nub, old_pro, teleports, time);
            &&& style_count > 0 ==> plan is None
            &&& style_count == 0 ==> plan is Some
            &&& plan matches Some(p) ==> (p.pro == PointsSource::Recalculate ==> teleports == 0)
            &&& plan matches Some(p) ==> (p.pro == PointsSource::Recalculate ==> match old_pro {
                Some(best) => beats(time, best),
                None => true,
            })
            &&& plan matches Some(p) ==> (p.nub == PointsSource::Recalculate ==> match old_nub {
                Some(best) => beats(time, best),
                None => true,
            })
            &&& plan matches Some(p) ==> (old_nub is None && old_pro is None ==> p.nub
                == PointsSource::Recalculate)
            &&& plan matches Some(p) ==> (p.pro == PointsSource::Previous ==> old_pro is Some)
            &&& plan matches Some(p) ==> (p.nub == PointsSource::Previous ==> old_nub is Some)
        }),
{
}

/// A record on a leaderboard: its ID, its player's SteamID, its teleports and its time in
/// nanoseconds.
#[derive(Debug, Clone, Copy, PartialEq, Eq, Structural)]
pub struct LeaderboardEntry {
    pub record_id: u32,
    pub player_id: u64,
    pub teleports: u32,
    pub time: u128,
}

/// The entries of `entries` that have no teleports, in their order.
pub open spec fn pro_entries(entries: Seq<LeaderboardEntry>) -> Seq<LeaderboardEntry> {
    entries.filter(|e: LeaderboardEntry| e.teleports == 0)
}

/// Whether the entries are ordered by time, fastest first.
pub open spec fn sorted_by_time(entries: Seq<LeaderboardEntry>) -> bool {
    forall|i: int, j: int| 0 <= i <= j < entries.len() ==> entries[i].time <= entries[j].time
}

/// Splits the best records of a filter into its two leaderboards: every record is on the nub
/// leaderboard, and the records without teleports are also on the pro leaderboard; both keep
/// the order of `entries`.
pub fn split_leaderboards(entries: &[LeaderboardEntry]) -> (r: (
    Vec<LeaderboardEntry>,
    Vec<LeaderboardEntry>,
))
    ensures
        r.0@ == entries@,
        r.1@ == pro_entries(entries@),
{
    let mut nub: Vec<LeaderboardEntry> = Vec::new();
    let mut pro: Vec<LeaderboardEntry> = Vec::new();
    let mut i: usize = 0;
    while i < entries.len()
        invariant
            i <= entries@.len(),
            nub@ == entries@.take(i as int),
            pro@ == pro_entries(entries@.take(i as int)),
        decreases entries@.len() - i,
    {
        let entry = entries[i];
        proof {
            let before = entries@.take(i as int);
            let after = entries@.take(i + 1);
            assert(after.drop_last() =~= before);
            assert(after.last() == entry);
            reveal(Seq::filter);
            assert(pro_entries(after) == (if entry.teleports == 0 {
                pro_entries(before).push(entry)
            } else {
                pro_entries(before)
            }));
        }
        nub.push(entry);
        if entry.teleports == 0 {
            pro.push(entry);
        }
        i = i + 1;
    }
    assert(entries@.take(i as int) =~= entries@);
    (nub, pro)
}

/// The rank that a record of `time` has among `entries`, which are ordered by time: the
/// number of entries that are faster.
pub fn rank_by_time(entries: &[LeaderboardEntry], time: u128) -> (r: usize)
    requires
        sorted_by_time(entries@),
    ensures
        r <= entries@.len(),
        forall|k: int| 0 <= k < r ==> entries@[k].time < time,
        forall|k: int| r <= k < entries@.len() ==> entries@[k].time >= time,
{
    let mut lo: usize = 0;
    let mut hi: usize = entries.len();
    while lo < hi
        invariant
            lo <= hi <= entries@.len(),
            sorted_by_time(entries@),
            forall|k: int| 0 <= k < lo ==> entries@[k].time < time,
            forall|k: int| hi <= k < entries@.len() ==> entries@[k].time >= time,
        decreases hi - lo,
    {
        let mid = lo + (hi - lo) / 2;
        if entries[mid].time < time {
            lo = mid + 1;
        } else {
            hi = mid;
        }
    }
    lo
}

/// The comparison of a query that keeps runs with teleports (`> 0`) or without them (`= 0`).
pub fn teleports_comparison(has_teleports: bool) -> (r: &'static str)
    ensures
        r@ == (if has_teleports {
            ">"@
        } else {
            "="@
        }),
{
    if has_teleports {
        ">"
    } else {
        "="
    }
}

/// A style that a client reported for a record, with the checksum of its implementation.
#[derive(Debug, Clone, Copy)]
pub struct ClientStyleInfo<C> {
    pub style: Style,
    pub checksum: C,
}

/// The styles reported for a new record: how many were reported, and those that are known.
#[derive(Debug, Clone)]
pub struct StylesForNewRecord<C> {
    pub count: usize,
    pub known_styles: Vec<ClientStyleInfo<C>>,
}

/// The known styles among the reported ones, in their order.
pub open spec fn known_styles_of<C>(reported: Seq<Option<ClientStyleInfo<C>>>) -> Seq<
    ClientStyleInfo<C>,
>
    decreases reported.len(),
{
    if reported.len() == 0 {
        Seq::empty()
    } else {
        match reported.last() {
            Some(info) => known_styles_of(reported.drop_last()).push(info),
            None => known_styles_of(reported.drop_last()),
        }
    }
}

/// The styles of a list of reported styles.
pub open spec fn styles_of_infos<C>(infos: Seq<ClientStyleInfo<C>>) -> Seq<Style> {
    infos.map_values(|info: ClientStyleInfo<C>| info.style)
}

/// A reported style name: the style it names, or `None` for a name that is not known, which
/// is kept and counted but not stored.
pub fn style_lossy(name: &str) -> (r: Option<Style>)
    ensures
        r == crate::styles::style_of_name(name@),
{
    match Style::parse(name) {
        Ok(style) => Some(style),
        Err(_) => None,
    }
}

impl<C: Copy> StylesForNewRecord<C> {
    /// The styles reported for a record, one entry per reported style, `None` for a style that
    /// is not known: all of them are counted, the known ones are kept in order.
    pub fn from_reported(reported: &[Option<ClientStyleInfo<C>>]) -> (r: StylesForNewRecord<C>)
        ensures
            r.count == reported@.len(),
            r.known_styles@ == known_styles_of(reported@),
    {
        let mut known_styles: Vec<ClientStyleInfo<C>> = Vec::new();
        let mut i: usize = 0;
        while i < reported.len()
            invariant
                i <= reported@.len(),
                known_styles@ == known_styles_of(reported@.take(i as int)),
            decreases reported@.len() - i,
        {
            proof {
                assert(reported@.take(i + 1).drop_last() =~= reported@.take(i as int));
            }
            if let Some(info) = reported[i] {
                known_styles.push(info);
            }
            i = i + 1;
        }
        assert(reported@.take(i as int) =~= reported@);
        StylesForNewRecord { count: reported.len(), known_styles }
    }

    /// The set of the known styles, as stored with the record.
    pub fn styles(&self) -> (r: Styles)
        ensures
            r@ == bits_of_styles(styles_of_infos(self.known_styles@)),
    {
        let mut styles: Vec<Style> = Vec::new();
        let mut i: usize = 0;
        while i < self.known_styles.len()
            invariant
                i <= self.known_styles@.len(),
                styles@ == styles_of_infos(self.known_styles@).take(i as int),
            decreases self.known_styles@.len() - i,
        {
            styles.push(self.known_styles[i].style);
            proof {
                assert(styles@ =~= styles_of_infos(self.known_styles@).take(i + 1));
            }
            i = i + 1;
        }
        assert(styles@ =~= styles_of_infos(self.known_styles@));
        Styles::from_styles(styles.as_slice())
    }
}

/// A rank read from the database does not fit in a `u32`.
#[derive(Debug, Clone, Copy, PartialEq, Eq, Structural)]
pub struct RankOutOfRange;

/// A rank column as stored with a record: no rank stays no rank, a rank is kept when it fits in
/// a `u32`, and any other value is an error.
pub fn rank_of_column(value: Option<i64>) -> (r: Result<Option<u32>, RankOutOfRange>)
    ensures
        r == (match value {
            None => Ok(None),
            Some(v) => if 0 <= v <= u32::MAX {
                Ok(Some(v as u32))
            } else {
                Err(RankOutOfRange)
            },
        }),
{
    match value {
        None => Ok(None),
        Some(v) => if 0 <= v && v <= 0xFFFF_FFFF {
            Ok(Some(v as u32))
        } else {
            Err(RankOutOfRange)
        },
    }
}

/// The size of a leaderboard as stored with a record: no size is 0, a size is kept when it
/// fits in a `u32`, and any other value is an error.
pub fn max_rank_of_column(value: Option<i64>) -> (r: Result<u32, RankOutOfRange>)
    ensures
        r == (match value {
            None => Ok(0u32),
            Some(v) => if 0 <= v <= u32::MAX {
                Ok(v as u32)
            } else {
                Err(RankOutOfRange)
            },
        }),
{
    match value {
        None => Ok(0),
        Some(v) => if 0 <= v && v <= 0xFFFF_FFFF {
            Ok(v as u32)
        } else {
            Err(RankOutOfRange)
        },
    }
}

/// The most objects one storage request may delete.
pub const MAX_OBJECTS_PER_REQUEST: usize = 1000;

/// Splits `len` items into consecutive batches of at most `size` (`slice::chunks`): batch `k`
/// covers `k * size` up to `(k + 1) * size` or the end.
pub fn batch_ranges(len: usize, size: usize) -> (r: Vec<(usize, usize)>)
    requires
        size > 0,
    ensures
        r@.len() == (len + size - 1) / size as int,
        forall|k: int|
            0 <= k < r@.len() ==> #[trigger] r@[k] == ((k * size) as usize, (if (k + 1) * size
                <= len {
                (k + 1) * size
            } else {
                len as int
            }) as usize),
{
    let mut r: Vec<(usize, usize)> = Vec::new();
    let mut start: usize = 0;
    assert(r@.len() == 0);
    assert(0 * size == 0) by (nonlinear_arith);
    while start < len
        invariant
            size > 0,
            start <= len,
            r@.len() * size <= len ==> start == r@.len() * size,
            r@.len() * size > len ==> start == len && (r@.len() - 1) * size < len,
            forall|k: int|
                0 <= k < r@.len() ==> #[trigger] r@[k] == ((k * size) as usize, (if (k + 1) * size
                    <= len {
                    (k + 1) * size
                } else {
                    len as int
                }) as usize),
        decreases len - start,
    {
        let ghost m = r@.len();
        proof {
            assert((m + 1) * size == m * size + size) by (nonlinear_arith);
        }
        let end = if size <= len - start {
            start + size
        } else {
            len
        };
        r.push((start, end));
        start = end;
    }
    proof {
        let n = r@.len();
        assert((n + 1) * size == n * size + size) by (nonlinear_arith);
        if n * size <= len {
            assert(len == n * size);
            assert((len + size - 1) / size as int == n) by (nonlinear_arith)
                requires
                    size > 0,
                    len == n * size,
            ;
        } else {
            assert((len + size - 1) / size as int == n) by (nonlinear_arith)
                requires
                    size > 0,
                    (n - 1) * size < len,
                    len < n * size,
            ;
        }
    }
    r
}

} // verus!
