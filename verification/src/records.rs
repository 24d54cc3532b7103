//! Rows that the server reads from its database, and lookups on a user's
//! rows.
use vstd::prelude::*;

use crate::github::UtcNanos;
use crate::seqs::{first_index, first_index_from};
use crate::text::{chars_equal, chars_of};
use crate::timeperiod::{TimePeriod, Timestamp};

verus! {

/// One row of a leaderboard.
#[derive(Debug, Clone)]
pub struct LeaderboardRecord {
    pub login: String,
    pub full_name: Option<String>,
    pub total_score: i32,
    pub total_rating: i32,
    pub period_type: String,
    pub executed_prs: i32,
    pub largest_score: i32,
    pub prs_opened: i32,
    pub prs_merged: i32,
    pub streak_best: i32,
    pub streak_amount: i32,
    pub streak_name: String,
    pub streak_type: String,
    pub streak_latest_time_string: String,
    pub place: i64,
}

/// A user's counters for one period.
#[derive(Debug, Clone)]
pub struct UserPeriodRecord {
    pub period_type: String,
    pub total_score: i32,
    pub executed_prs: i32,
    pub largest_score: i32,
    pub prs_opened: i32,
    pub prs_merged: i32,
    pub total_rating: i64,
}

impl Default for UserPeriodRecord {
    fn default() -> (res: Self)
        ensures
            res.period_type@ == Seq::<char>::empty(),
            res.total_score == 0 && res.executed_prs == 0 && res.largest_score == 0,
            res.prs_opened == 0 && res.prs_merged == 0 && res.total_rating == 0,
    {
        UserPeriodRecord {
            period_type: String::new(),
            total_score: 0,
            executed_prs: 0,
            largest_score: 0,
            prs_opened: 0,
            prs_merged: 0,
            total_rating: 0,
        }
    }
}

/// A user's progress on one streak.
#[derive(Debug, Clone)]
pub struct StreakRecord {
    pub streak_id: i32,
    pub name: String,
    pub streak_type: String,
    pub amount: i32,
    pub best: i32,
    pub latest_time_string: String,
}

impl Default for StreakRecord {
    fn default() -> (res: Self)
        ensures
            res.streak_id == 0 && res.amount == 0 && res.best == 0,
            res.name@ == Seq::<char>::empty(),
            res.streak_type@ == Seq::<char>::empty(),
            res.latest_time_string@ == Seq::<char>::empty(),
    {
        StreakRecord {
            streak_id: 0,
            name: String::new(),
            streak_type: String::new(),
            amount: 0,
            best: 0,
            latest_time_string: String::new(),
        }
    }
}

/// A user or organization and its full name, if known.
#[derive(Debug, Clone)]
pub struct User {
    pub login: String,
    pub full_name: Option<String>,
}

/// Everything the server shows about a user.
#[derive(Debug, Clone)]
pub struct UserRecord {
    pub id: i32,
    pub login: String,
    pub first_contribution: UtcNanos,
    pub name: Option<String>,
    pub lifetime_percent: i32,
    pub period_data: Vec<UserPeriodRecord>,
    pub streaks: Vec<StreakRecord>,
    pub leaderboard_places: Vec<(String, u32)>,
}

/// The row of a period.
pub open spec fn period_row(period: Seq<char>) -> spec_fn(UserPeriodRecord) -> bool {
    |r: UserPeriodRecord| r.period_type@ == period
}

/// The first row of a period, if any.
fn find_period<'a>(rows: &'a Vec<UserPeriodRecord>, period: &Vec<char>) -> (res: Option<
    &'a UserPeriodRecord,
>)
    ensures
        match first_index(rows@, period_row(period@)) {
            Some(i) => res == Some(&rows@[i]),
            None => res is None,
        },
{
    let mut i: usize = 0;
    while i < rows.len()
        invariant
            i <= rows@.len(),
            first_index(rows@, period_row(period@)) == first_index_from(
                rows@,
                period_row(period@),
                i as int,
            ),
        decreases rows@.len() - i,
    {
        if chars_equal(period, rows[i].period_type.as_str()) {
            return Some(&rows[i]);
        }
        i = i + 1;
    }
    None
}

/// A vector of the characters of a string.
fn chars_of_string(s: &String) -> (res: Vec<char>)
    ensures
        res@ == s@,
{
    chars_of(s.as_str())
}

impl UserRecord {
    /// The record of a user the database does not know yet: the largest
    /// identifier (which no stored user has), no name, no bonus, no
    /// counters, streaks or places, and a first contribution at `now`.
    pub fn newcommer(login: String, now: UtcNanos) -> (res: Self)
        ensures
            res.id == i32::MAX,
            res.login == login,
            res.first_contribution == now,
            res.name is None,
            res.lifetime_percent == 0,
            res.period_data@.len() == 0,
            res.streaks@.len() == 0,
            res.leaderboard_places@.len() == 0,
    {
        UserRecord {
            id: i32::MAX,
            login,
            first_contribution: now,
            name: None,
            lifetime_percent: 0,
            period_data: Vec::new(),
            streaks: Vec::new(),
            leaderboard_places: Vec::new(),
        }
    }

    /// The counters over all time, if the user has any.
    pub fn get_total_period(&self) -> (res: Option<&UserPeriodRecord>)
        ensures
            match first_index(self.period_data@, period_row("all-time"@)) {
                Some(i) => res == Some(&self.period_data@[i]),
                None => res is None,
            },
    {
        let all_time = chars_of("all-time");
        find_period(&self.period_data, &all_time)
    }

    /// The counters of the month containing `now`, if the user has any.
    pub fn get_current_month(&self, now: Timestamp) -> (res: Option<&UserPeriodRecord>)
        ensures
            match first_index(
                self.period_data@,
                period_row(TimePeriod::Month.spec_time_string(now)),
            ) {
                Some(i) => res == Some(&self.period_data@[i]),
                None => res is None,
            },
    {
        let period = TimePeriod::Month.time_string(now);
        let name = chars_of_string(&period);
        find_period(&self.period_data, &name)
    }
}

/// One row of the repository leaderboard.
#[derive(Debug, Clone)]
pub struct RepoLeaderboardRecord {
    pub organization: String,
    pub organization_full_name: Option<String>,
    pub name: String,
    pub total_prs: Option<i64>,
    pub total_score: Option<i64>,
    pub total_rating: Option<i64>,
    pub contributor_login: Option<String>,
    pub contributor_full_name: Option<String>,
    pub stars: Option<i32>,
    pub open_issues: Option<i32>,
    pub primary_language: Option<String>,
    pub forks: Option<i32>,
}

/// One of a user's pull requests.
#[derive(Debug, Clone)]
pub struct UserContributionRecord {
    pub organization_login: String,
    pub organization_full_name: Option<String>,
    pub repo: String,
    pub number: i32,
    pub score: Option<i32>,
    pub rating: i32,
    pub percentage_multiplier: i32,
    pub streak_bonus_rating: i32,
    pub executed: bool,
    pub created_at: UtcNanos,
    pub merged_at: Option<UtcNanos>,
}

/// A repository taking part.
#[derive(Debug, Clone)]
pub struct RepoRecord {
    pub organization: String,
    pub repo: String,
    pub organization_full_name: Option<String>,
    pub repo_id: i32,
}

/// A user's avatar, and when it was fetched.
#[derive(Debug, Clone)]
pub struct UserCachedMetadata {
    pub image_base64: String,
    pub load_time: UtcNanos,
}

impl UserContributionRecord {
    /// The contribution shown for a pull request the database does not
    /// know yet: just opened at `now`, with no score, rating or bonus, not
    /// merged and not executed.
    pub fn new_pull_request(organization_login: String, repo: String, number: i32, now: UtcNanos) -> (res: Self)
        ensures
            res == (UserContributionRecord {
                organization_login,
                organization_full_name: None,
                repo,
                number,
                score: None,
                rating: 0,
                percentage_multiplier: 0,
                streak_bonus_rating: 0,
                executed: false,
                created_at: now,
                merged_at: None,
            }),
    {
        UserContributionRecord {
            organization_login,
            organization_full_name: None,
            repo,
            number,
            score: None,
            rating: 0,
            percentage_multiplier: 0,
            streak_bonus_rating: 0,
            executed: false,
            created_at: now,
            merged_at: None,
        }
    }
}

} // verus!
