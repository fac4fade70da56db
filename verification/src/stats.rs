//! Usage statistics: per-day and total counters keyed by a local civil day
//! number, with a report that derives the activity streak and a fixed-window
//! daily word history. Reading and writing the backing file, and turning day
//! numbers into display dates, are the surrounding application's concern.

use vstd::prelude::*;
use vstd::pervasive::VecAdditionalExecFns;

verus! {

/// The counters kept for one day.
#[derive(Clone, Copy, PartialEq, Eq, Structural, Debug, Default)]
pub struct DailyStats {
    pub transcriptions: u64,
    pub words: u64,
    pub recording_millis: u64,
}

/// One day's counters, keyed by its day number (days since the calendar
/// epoch the application uses; only differences matter here).
#[derive(Clone, Copy, PartialEq, Eq, Structural, Debug)]
pub struct DayRecord {
    pub day: u64,
    pub stats: DailyStats,
}

/// The persistent counters.
#[derive(Debug)]
pub struct UsageStats {
    pub total_transcriptions: u64,
    pub total_words: u64,
    pub total_recording_millis: u64,
    pub daily: Vec<DayRecord>,
    pub last_updated: u64,
}

/// One point of the daily word history.
#[derive(Clone, Copy, PartialEq, Eq, Structural, Debug)]
pub struct DailyWordCount {
    pub date: u64,
    pub words: u64,
}

/// What `get_usage_stats` reports. Derived ratios (words per minute,
/// average transcription length) are quotients of the totals here and are
/// left to the presentation layer.
#[derive(Debug)]
pub struct UsageStatsReport {
    pub total_transcriptions: u64,
    pub total_words: u64,
    pub total_recording_millis: u64,
    pub streak_days: u64,
    pub today: DailyStats,
    pub daily_word_history: Vec<DailyWordCount>,
    pub last_updated: u64,
}

/// How many days the daily word history covers.
pub const DEFAULT_HISTORY_WINDOW_DAYS: usize = 30;

pub open spec fn zero_day() -> DailyStats {
    DailyStats { transcriptions: 0, words: 0, recording_millis: 0 }
}

pub open spec fn sat_add(a: u64, b: u64) -> u64 {
    if a + b <= u64::MAX {
        (a + b) as u64
    } else {
        u64::MAX
    }
}

/// The counters recorded for `day`, scanning from position `i`: the first
/// record with that day, or zeros when none exists.
pub open spec fn stats_on_from(daily: Seq<DayRecord>, i: int, day: u64) -> DailyStats
    decreases daily.len() - i,
{
    if i < 0 || i >= daily.len() {
        zero_day()
    } else if daily[i].day == day {
        daily[i].stats
    } else {
        stats_on_from(daily, i + 1, day)
    }
}

pub open spec fn stats_on(daily: Seq<DayRecord>, day: u64) -> DailyStats {
    stats_on_from(daily, 0, day)
}

/// A day's counters bumped by one transcription.
pub open spec fn day_bumped(s: DailyStats, words: u64, millis: u64) -> DailyStats {
    DailyStats {
        transcriptions: sat_add(s.transcriptions, 1),
        words: sat_add(s.words, words),
        recording_millis: sat_add(s.recording_millis, millis),
    }
}

/// What recording one transcription on `day` does to the stats: the totals
/// and that day's counters grow saturatingly, every other day is untouched,
/// and the day becomes the last-updated one.
pub open spec fn recorded_on(
    pre: &UsageStats,
    post: &UsageStats,
    words: u64,
    millis: u64,
    day: u64,
) -> bool {
    &&& post.total_transcriptions == sat_add(pre.total_transcriptions, 1)
    &&& post.total_words == sat_add(pre.total_words, words)
    &&& post.total_recording_millis == sat_add(pre.total_recording_millis, millis)
    &&& stats_on(post.daily@, day) == day_bumped(stats_on(pre.daily@, day), words, millis)
    &&& forall|d: u64| d != day ==> stats_on(post.daily@, d) == stats_on(pre.daily@, d)
    &&& post.last_updated == day
}

/// The streak of consecutive days with activity, counting down from `day`.
pub open spec fn streak_spec(daily: Seq<DayRecord>, day: u64) -> nat
    decreases day,
{
    if stats_on(daily, day).transcriptions > 0 {
        1 + if day == 0 {
            0nat
        } else {
            streak_spec(daily, (day - 1) as u64)
        }
    } else {
        0
    }
}

/// Which date the history point at offset `k` (of the fixed window) covers:
/// counting up to `today`, clamped at the epoch.
pub open spec fn history_date(today: u64, k: int) -> u64 {
    let back = 29 - k;
    if back <= today {
        (today - back) as u64
    } else {
        today
    }
}

/// What the report derives from the stats for a given day.
pub open spec fn report_rel(stats: &UsageStats, r: &UsageStatsReport, today: u64) -> bool {
    &&& r.total_transcriptions == stats.total_transcriptions
    &&& r.total_words == stats.total_words
    &&& r.total_recording_millis == stats.total_recording_millis
    &&& r.last_updated == stats.last_updated
    &&& r.today == stats_on(stats.daily@, today)
    &&& (streak_spec(stats.daily@, today) <= u64::MAX ==> r.streak_days == streak_spec(
        stats.daily@,
        today,
    ))
    &&& (streak_spec(stats.daily@, today) > u64::MAX ==> r.streak_days == u64::MAX)
    &&& r.daily_word_history@.len() == DEFAULT_HISTORY_WINDOW_DAYS
    &&& forall|k: int|
        0 <= k < DEFAULT_HISTORY_WINDOW_DAYS ==> r.daily_word_history@[k] == (DailyWordCount {
            date: history_date(today, k),
            words: stats_on(stats.daily@, history_date(today, k)).words,
        })
}

fn lookup_day(daily: &Vec<DayRecord>, day: u64) -> (r: DailyStats)
    ensures
        r == stats_on(daily@, day),
{
    let n = daily.len();
    let mut i: usize = 0;
    while i < n
        invariant
            n == daily@.len(),
            0 <= i <= n,
            stats_on(daily@, day) == stats_on_from(daily@, i as int, day),
        decreases n - i,
    {
        if daily[i].day == day {
            return daily[i].stats;
        }
        i += 1;
    }
    DailyStats { transcriptions: 0, words: 0, recording_millis: 0 }
}

proof fn lemma_stats_on_update(pre: Seq<DayRecord>, post: Seq<DayRecord>, i: int, d: u64, from: int)
    requires
        0 <= i < pre.len(),
        post.len() == pre.len(),
        post[i].day == pre[i].day,
        forall|j: int| 0 <= j < pre.len() && j != i ==> post[j] == pre[j],
        d != pre[i].day,
        0 <= from <= pre.len(),
    ensures
        stats_on_from(post, from, d) == stats_on_from(pre, from, d),
    decreases pre.len() - from,
{
    if from < pre.len() {
        lemma_stats_on_update(pre, post, i, d, from + 1);
    }
}

proof fn lemma_stats_on_first_match(daily: Seq<DayRecord>, i: int, day: u64, from: int)
    requires
        0 <= from <= i < daily.len(),
        daily[i].day == day,
        forall|j: int| 0 <= j < i ==> daily[j].day != day,
    ensures
        stats_on_from(daily, from, day) == daily[i].stats,
    decreases i - from,
{
    if from < i {
        lemma_stats_on_first_match(daily, i, day, from + 1);
    }
}

proof fn lemma_stats_on_push(daily: Seq<DayRecord>, rec: DayRecord, d: u64, from: int)
    requires
        0 <= from <= daily.len(),
        d != rec.day,
    ensures
        stats_on_from(daily.push(rec), from, d) == stats_on_from(daily, from, d),
    decreases daily.len() - from,
{
    if from < daily.len() {
        assert(daily.push(rec)[from] == daily[from]);
        lemma_stats_on_push(daily, rec, d, from + 1);
    } else {
        assert(daily.push(rec)[from] == rec);
        assert(stats_on_from(daily.push(rec), from + 1, d) == zero_day());
    }
}

proof fn lemma_stats_on_absent(daily: Seq<DayRecord>, day: u64, from: int)
    requires
        0 <= from <= daily.len(),
        forall|j: int| 0 <= j < daily.len() ==> daily[j].day != day,
    ensures
        stats_on_from(daily, from, day) == zero_day(),
    decreases daily.len() - from,
{
    if from < daily.len() {
        lemma_stats_on_absent(daily, day, from + 1);
    }
}

proof fn lemma_stats_on_push_absent(daily: Seq<DayRecord>, rec: DayRecord, from: int)
    requires
        0 <= from <= daily.len(),
        forall|j: int| 0 <= j < daily.len() ==> daily[j].day != rec.day,
    ensures
        stats_on_from(daily.push(rec), from, rec.day) == rec.stats,
    decreases daily.len() - from,
{
    if from < daily.len() {
        assert(daily.push(rec)[from] == daily[from]);
        lemma_stats_on_push_absent(daily, rec, from + 1);
    } else {
        assert(daily.push(rec)[from] == rec);
        assert(daily.push(rec)[from].day == rec.day);
    }
}

/// The in-memory usage statistics store.
pub struct StatsStore {
    stats: UsageStats,
}

impl StatsStore {
    pub closed spec fn stats_spec(&self) -> &UsageStats {
        &self.stats
    }

    /// A store with all counters at zero, last updated on the given day.
    pub fn new(today: u64) -> (r: StatsStore)
        ensures
            r.stats_spec().total_transcriptions == 0,
            r.stats_spec().total_words == 0,
            r.stats_spec().total_recording_millis == 0,
            r.stats_spec().daily@ == Seq::<DayRecord>::empty(),
            r.stats_spec().last_updated == today,
    {
        StatsStore {
            stats: UsageStats {
                total_transcriptions: 0,
                total_words: 0,
                total_recording_millis: 0,
                daily: Vec::new(),
                last_updated: today,
            },
        }
    }

    /// Records one finished transcription on the given day.
    pub fn record_transcription(
        &mut self,
        word_count: u64,
        recording_millis: u64,
        today: u64,
    ) -> (r: Result<(), String>)
        ensures
            r is Ok,
            recorded_on(
                old(self).stats_spec(),
                final(self).stats_spec(),
                word_count,
                recording_millis,
                today,
            ),
    {
        self.stats.total_transcriptions = self.stats.total_transcriptions.saturating_add(1);
        self.stats.total_words = self.stats.total_words.saturating_add(word_count);
        self.stats.total_recording_millis = self.stats.total_recording_millis.saturating_add(
            recording_millis,
        );
        self.stats.last_updated = today;
        let n = self.stats.daily.len();
        let mut i: usize = 0;
        while i < n
            invariant
                n == self.stats.daily@.len(),
                0 <= i <= n,
                forall|j: int| 0 <= j < i ==> self.stats.daily@[j].day != today,
                self.stats.daily@ == old(self).stats_spec().daily@,
                self.stats.total_transcriptions == sat_add(
                    old(self).stats_spec().total_transcriptions,
                    1,
                ),
                self.stats.total_words == sat_add(old(self).stats_spec().total_words, word_count),
                self.stats.total_recording_millis == sat_add(
                    old(self).stats_spec().total_recording_millis,
                    recording_millis,
                ),
                self.stats.last_updated == today,
            decreases n - i,
        {
            if self.stats.daily[i].day == today {
                let ghost pre = self.stats.daily@;
                let current = self.stats.daily[i].stats;
                let updated = DayRecord {
                    day: today,
                    stats: DailyStats {
                        transcriptions: current.transcriptions.saturating_add(1),
                        words: current.words.saturating_add(word_count),
                        recording_millis: current.recording_millis.saturating_add(
                            recording_millis,
                        ),
                    },
                };
                self.stats.daily.set(i, updated);
                proof {
                    let post = self.stats.daily@;
                    lemma_stats_on_first_match(pre, i as int, today, 0);
                    lemma_stats_on_first_match(post, i as int, today, 0);
                    assert forall|d: u64| d != today implies stats_on(post, d) == stats_on(
                        pre,
                        d,
                    ) by {
                        lemma_stats_on_update(pre, post, i as int, d, 0);
                    }
                }
                return Result::Ok(());
            }
            i += 1;
        }
        let ghost pre = self.stats.daily@;
        let rec = DayRecord {
            day: today,
            stats: DailyStats {
                transcriptions: 1,
                words: word_count,
                recording_millis: recording_millis,
            },
        };
        self.stats.daily.push(rec);
        proof {
            let post = self.stats.daily@;
            lemma_stats_on_push_absent(pre, rec, 0);
            assert forall|d: u64| d != today implies stats_on(post, d) == stats_on(pre, d) by {
                lemma_stats_on_push(pre, rec, d, 0);
            }
            lemma_stats_on_absent(pre, today, 0);
        }
        Result::Ok(())
    }

    /// Builds the usage report as of the given day.
    pub fn get_usage_stats(&self, today: u64) -> (r: Result<UsageStatsReport, String>)
        ensures
            r matches Result::Ok(report) && report_rel(self.stats_spec(), &report, today),
    {
        let today_stats = lookup_day(&self.stats.daily, today);
        let mut streak: u64 = 0;
        let mut cursor: u64 = today;
        loop
            invariant_except_break
                streak <= today - cursor,
                streak_spec(self.stats.daily@, today) == streak + streak_spec(
                    self.stats.daily@,
                    cursor,
                ),
            ensures
                (streak_spec(self.stats.daily@, today) <= u64::MAX ==> streak == streak_spec(
                    self.stats.daily@,
                    today,
                )),
                (streak_spec(self.stats.daily@, today) > u64::MAX ==> streak == u64::MAX),
            decreases cursor,
        {
            let here = lookup_day(&self.stats.daily, cursor);
            if here.transcriptions == 0 {
                break;
            }
            if cursor == 0 {
                streak = streak.saturating_add(1);
                break;
            }
            streak = streak + 1;
            cursor = cursor - 1;
        }
        let mut history: Vec<DailyWordCount> = Vec::new();
        let mut k: usize = 0;
        while k < DEFAULT_HISTORY_WINDOW_DAYS
            invariant
                0 <= k <= DEFAULT_HISTORY_WINDOW_DAYS,
                history@.len() == k,
                forall|j: int|
                    0 <= j < k ==> history@[j] == (DailyWordCount {
                        date: history_date(today, j),
                        words: stats_on(self.stats.daily@, history_date(today, j)).words,
                    }),
            decreases DEFAULT_HISTORY_WINDOW_DAYS - k,
        {
            let back = (29 - k) as u64;
            let date = if back <= today {
                today - back
            } else {
                today
            };
            let words = lookup_day(&self.stats.daily, date).words;
            history.push(DailyWordCount { date, words });
            k += 1;
        }
        Result::Ok(
            UsageStatsReport {
                total_transcriptions: self.stats.total_transcriptions,
                total_words: self.stats.total_words,
                total_recording_millis: self.stats.total_recording_millis,
                streak_days: streak,
                today: today_stats,
                daily_word_history: history,
                last_updated: self.stats.last_updated,
            },
        )
    }

    /// Clears every counter; the given day becomes the last-updated one.
    pub fn reset_usage_stats(&mut self, today: u64) -> (r: Result<(), String>)
        ensures
            r is Ok,
            final(self).stats_spec().total_transcriptions == 0,
            final(self).stats_spec().total_words == 0,
            final(self).stats_spec().total_recording_millis == 0,
            final(self).stats_spec().daily@ == Seq::<DayRecord>::empty(),
            final(self).stats_spec().last_updated == today,
    {
        self.stats = UsageStats {
            total_transcriptions: 0,
            total_words: 0,
            total_recording_millis: 0,
            daily: Vec::new(),
            last_updated: today,
        };
        Result::Ok(())
    }
}

/// Relies on chrono's Local::now, its date_naive view and
/// NaiveDate::num_days_from_ce: the current local civil date as a signed
/// day count. The value depends on the clock and time zone, so nothing is
/// assumed about it.
#[verifier::external_body]
fn local_day_count() -> i32 {
    chrono::Datelike::num_days_from_ce(&chrono::Local::now().date_naive())
}

/// Clamps a signed civil day count into the unsigned day number the store
/// uses: days at or before the calendar epoch count as day zero.
pub fn day_from_count(days: i32) -> (r: u64)
    ensures
        days <= 0 ==> r == 0,
        days > 0 ==> r == days as u64,
{
    if days <= 0 {
        0
    } else {
        days as u64
    }
}

/// The current local civil day as the day number the store uses.
pub fn today_local_day() -> u64 {
    day_from_count(local_day_count())
}

} // verus!
