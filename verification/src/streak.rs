//! Streaks: goals that a contributor reaches in consecutive periods, what
//! reaching them takes, and the reward for a streak of a given length.
use vstd::prelude::*;

use crate::period_data::{UserPeriodDataV2, VersionedUserPeriodData};
use crate::timeperiod::TimePeriod;

verus! {

pub type StreakId = u32;

/// What a streak of a given length earns.
#[derive(Debug, Clone, Copy, PartialEq, Eq, Structural)]
pub enum StreakReward {
    FlatReward(u32),
    PermanentPercentageBonus(u32),
}

/// A threshold that the counters of one period must reach.
#[derive(Debug, Clone, Copy, PartialEq, Eq, Structural)]
pub enum StreakType {
    PRsOpened(u32),
    PRsMerged(u32),
    TotalScore(u32),
    LargestScore(u32),
    AverageScore(u32),
}

impl StreakType {
    /// Whether the counters reach this threshold (the average is the total
    /// score per executed pull request, rounded down).
    pub open spec fn achieved_by(self, d: UserPeriodDataV2) -> bool {
        match self {
            StreakType::PRsOpened(v) => d.prs_opened >= v,
            StreakType::PRsMerged(v) => d.prs_merged >= v,
            StreakType::TotalScore(v) => d.total_score >= v,
            StreakType::LargestScore(v) => d.largest_score >= v,
            StreakType::AverageScore(v) => d.total_score / d.executed_prs >= v,
        }
    }

    /// Whether evaluating this threshold on the counters divides by zero.
    pub open spec fn divides_by_zero(self, d: UserPeriodDataV2) -> bool {
        self is AverageScore && d.executed_prs == 0
    }

    pub fn from_prs_opened(value: u32) -> (res: Self)
        ensures
            res == StreakType::PRsOpened(value),
    {
        StreakType::PRsOpened(value)
    }

    pub fn from_prs_merged(value: u32) -> (res: Self)
        ensures
            res == StreakType::PRsMerged(value),
    {
        StreakType::PRsMerged(value)
    }

    /// Whether the counters reach this threshold.
    pub fn is_streak_achieved(&self, user_period_data: &UserPeriodDataV2) -> (res: bool)
        requires
            !self.divides_by_zero(*user_period_data),
        ensures
            res == self.achieved_by(*user_period_data),
    {
        match self {
            StreakType::PRsOpened(value) => user_period_data.prs_opened >= *value,
            StreakType::PRsMerged(value) => user_period_data.prs_merged >= *value,
            StreakType::TotalScore(score) => user_period_data.total_score >= *score,
            StreakType::LargestScore(score) => user_period_data.largest_score >= *score,
            StreakType::AverageScore(score) => {
                user_period_data.total_score / user_period_data.executed_prs >= *score
            },
        }
    }
}

/// A streak definition.
#[derive(Debug, Clone)]
pub struct Streak {
    pub id: StreakId,
    pub name: String,
    pub time_period: TimePeriod,
    pub streak_criterias: Vec<StreakType>,
    pub streak_rewards: Vec<StreakReward>,
    pub is_active: bool,
}

/// A stored streak definition, in any version.
#[derive(Debug, Clone)]
pub enum VersionedStreak {
    V1(Streak),
}

impl VersionedStreak {
    pub open spec fn latest(self) -> Streak {
        match self {
            VersionedStreak::V1(s) => s,
        }
    }

    pub fn is_active(&self) -> (res: bool)
        ensures
            res == self.latest().is_active,
    {
        match self {
            VersionedStreak::V1(streak) => streak.is_active,
        }
    }

    pub fn id(&self) -> (res: StreakId)
        ensures
            res == self.latest().id,
    {
        match self {
            VersionedStreak::V1(streak) => streak.id,
        }
    }
}

impl From<VersionedStreak> for Streak {
    fn from(message: VersionedStreak) -> (res: Self) {
        match message {
            VersionedStreak::V1(x) => x,
        }
    }
}

impl vstd::std_specs::convert::FromSpecImpl<VersionedStreak> for Streak {
    open spec fn obeys_from_spec() -> bool {
        true
    }

    open spec fn from_spec(v: VersionedStreak) -> Streak {
        v.latest()
    }
}

/// Whether every threshold before position `i` is reached.
pub open spec fn reached_before(crits: Seq<StreakType>, d: UserPeriodDataV2, i: int) -> bool {
    forall|j: int| 0 <= j < i ==> (#[trigger] crits[j]).achieved_by(d)
}

/// Checking the thresholds in order stops at the first one not reached; it
/// divides by zero only if it reaches an average threshold with no executed
/// pull request.
pub open spec fn check_divides_by_zero(crits: Seq<StreakType>, d: UserPeriodDataV2) -> bool {
    exists|i: int|
        0 <= i < crits.len() && reached_before(crits, d, i) && (#[trigger] crits[i]).divides_by_zero(
            d,
        )
}

/// The reward position for a streak of length `streak` among `len` rewards:
/// the last reward for streaks at least as long as the list; none for zero.
pub open spec fn reward_index(len: nat, streak: u32) -> Option<int> {
    if streak >= (len as u32) {
        Some((len as u32) - 1)
    } else if streak == 0 {
        None
    } else {
        Some(streak - 1)
    }
}

impl Streak {
    /// A new active streak.
    pub fn new(
        streak_id: u32,
        name: String,
        time_period: TimePeriod,
        streak_criterias: Vec<StreakType>,
        streak_rewards: Vec<StreakReward>,
    ) -> (res: Self)
        requires
            streak_criterias.len() > 0,
            time_period != TimePeriod::AllTime,
        ensures
            res.id == streak_id,
            res.name == name,
            res.time_period == time_period,
            res.streak_criterias == streak_criterias,
            res.streak_rewards == streak_rewards,
            res.is_active,
    {
        Streak {
            id: streak_id,
            name,
            time_period,
            streak_criterias,
            is_active: true,
            streak_rewards,
        }
    }

    /// Whether the counters reach every threshold of the streak.
    pub fn is_streak_achieved(&self, user_period_data: &VersionedUserPeriodData) -> (res: bool)
        requires
            !check_divides_by_zero(self.streak_criterias@, user_period_data.latest()),
        ensures
            res == reached_before(
                self.streak_criterias@,
                user_period_data.latest(),
                self.streak_criterias@.len() as int,
            ),
    {
        let data = user_period_data.to_latest();
        let mut i: usize = 0;
        while i < self.streak_criterias.len()
            invariant
                data == user_period_data.latest(),
                !check_divides_by_zero(self.streak_criterias@, data),
                i <= self.streak_criterias.len(),
                reached_before(self.streak_criterias@, data, i as int),
            decreases self.streak_criterias.len() - i,
        {
            let criteria = self.streak_criterias[i];
            if !criteria.is_streak_achieved(&data) {
                return false;
            }
            i = i + 1;
        }
        true
    }

    /// The reward for a streak of length `streak`.
    pub fn get_streak_reward(&self, streak: u32) -> (res: Option<StreakReward>)
        requires
            (self.streak_rewards@.len() as u32) > 0,
        ensures
            res == match reward_index(self.streak_rewards@.len(), streak) {
                Some(i) => Some(self.streak_rewards@[i]),
                None => None,
            },
    {
        let len = self.streak_rewards.len() as u32;
        let streak = if streak >= len {
            len - 1
        } else if streak == 0 {
            return None;
        } else {
            streak - 1
        };
        Some(self.streak_rewards[streak as usize])
    }
}

/// A contributor's progress on one streak.
#[derive(Debug, Clone)]
pub struct StreakUserData {
    pub amount: u32,
    pub best: u32,
    pub latest_time_string: String,
}

impl Default for StreakUserData {
    fn default() -> (res: Self)
        ensures
            res.amount == 0,
            res.best == 0,
            res.latest_time_string@ == Seq::<char>::empty(),
    {
        StreakUserData { amount: 0, best: 0, latest_time_string: String::new() }
    }
}

/// Stored streak progress, in any version.
#[derive(Debug, Clone)]
pub enum VersionedStreakUserData {
    V1(StreakUserData),
}

impl VersionedStreakUserData {
    pub open spec fn latest(self) -> StreakUserData {
        match self {
            VersionedStreakUserData::V1(x) => x,
        }
    }
}

impl From<VersionedStreakUserData> for StreakUserData {
    fn from(message: VersionedStreakUserData) -> (res: Self) {
        match message {
            VersionedStreakUserData::V1(x) => x,
        }
    }
}

impl vstd::std_specs::convert::FromSpecImpl<VersionedStreakUserData> for StreakUserData {
    open spec fn obeys_from_spec() -> bool {
        true
    }

    open spec fn from_spec(v: VersionedStreakUserData) -> StreakUserData {
        v.latest()
    }
}

// ---------------------------------------------------------------------------
// Laws.
// ---------------------------------------------------------------------------
/// A streak at least as long as the reward list earns the last reward; a
/// streak of zero earns nothing; otherwise the reward at its length.
pub proof fn law_reward_saturates(len: nat, streak: u32)
    requires
        0 < len <= u32::MAX,
    ensures
        streak as int >= len ==> reward_index(len, streak) == Some(len - 1),
        streak == 0 ==> reward_index(len, streak) is None,
        0 < streak < len ==> reward_index(len, streak) == Some(streak - 1),
        reward_index(len, streak) matches Some(i) ==> 0 <= i < len,
{
}

/// Reaching a streak only gets easier as the counters grow (for thresholds
/// other than the average, which falls when executed pull requests grow).
pub proof fn law_threshold_monotone(t: StreakType, d: UserPeriodDataV2, e: UserPeriodDataV2)
    requires
        !(t is AverageScore),
        d.prs_opened <= e.prs_opened,
        d.prs_merged <= e.prs_merged,
        d.total_score <= e.total_score,
        d.largest_score <= e.largest_score,
        t.achieved_by(d),
    ensures
        t.achieved_by(e),
{
}

/// Each threshold compares one counter with its value: the pull requests
/// opened, the pull requests merged, the total score or the largest single
/// score must reach it; the average reaches it when the total score is at
/// least the value times the executed pull requests.
pub proof fn law_threshold_counters(v: u32, d: UserPeriodDataV2)
    ensures
        StreakType::PRsOpened(v).achieved_by(d) <==> d.prs_opened >= v,
        StreakType::PRsMerged(v).achieved_by(d) <==> d.prs_merged >= v,
        StreakType::TotalScore(v).achieved_by(d) <==> d.total_score >= v,
        StreakType::LargestScore(v).achieved_by(d) <==> d.largest_score >= v,
        d.executed_prs > 0 ==> (StreakType::AverageScore(v).achieved_by(d) <==> d.total_score
            >= v * d.executed_prs),
{
    if d.executed_prs > 0 {
        let t = d.total_score as int;
        let n = d.executed_prs as int;
        let w = v as int;
        assert(t / n >= w <==> t >= w * n) by (nonlinear_arith)
            requires
                n > 0,
                t >= 0,
        ;
    }
}

/// A threshold reads nothing but its own counter: two periods that agree on
/// it (on the total score and the executed pull requests, for the average)
/// reach the threshold alike, whatever their other counters hold.
pub proof fn law_threshold_reads_its_counter(
    t: StreakType,
    d: UserPeriodDataV2,
    e: UserPeriodDataV2,
)
    requires
        t is PRsOpened ==> d.prs_opened == e.prs_opened,
        t is PRsMerged ==> d.prs_merged == e.prs_merged,
        t is TotalScore ==> d.total_score == e.total_score,
        t is LargestScore ==> d.largest_score == e.largest_score,
        t is AverageScore ==> d.total_score == e.total_score && d.executed_prs == e.executed_prs,
    ensures
        t.achieved_by(d) == t.achieved_by(e),
{
}

} // verus!
