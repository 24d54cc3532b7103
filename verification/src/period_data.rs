//! A contributor's counters for one period: opened, merged and executed pull
//! requests, score and rating totals and maxima. Stored values come in two
//! versions; every update upgrades the stored value to the latest one.
use vstd::prelude::*;

verus! {

/// The rating that one point of score is worth.
pub const RATING_PER_SCORE: u32 = 10;

/// The rating a maintainer earns for scoring a pull request.
pub const SCORING_REWARD: u32 = 25;

/// Counters of the first stored version.
#[derive(Debug, Clone, Copy, PartialEq, Eq, Structural)]
pub struct UserPeriodData {
    pub total_score: u32,
    pub executed_prs: u32,
    pub largest_score: u32,
    pub prs_opened: u32,
    pub prs_merged: u32,
    pub total_rating: u32,
    pub largest_rating_per_pr: u32,
}

/// Counters of the current version: also counts the pull requests scored.
#[derive(Debug, Clone, Copy, PartialEq, Eq, Structural)]
pub struct UserPeriodDataV2 {
    pub total_score: u32,
    pub executed_prs: u32,
    pub largest_score: u32,
    pub prs_opened: u32,
    pub prs_merged: u32,
    pub total_rating: u32,
    pub largest_rating_per_pr: u32,
    pub prs_scored: u32,
}

impl Default for UserPeriodData {
    fn default() -> (res: Self)
        ensures
            res == (UserPeriodData {
                total_score: 0,
                executed_prs: 0,
                largest_score: 0,
                prs_opened: 0,
                prs_merged: 0,
                total_rating: 0,
                largest_rating_per_pr: 0,
            }),
    {
        UserPeriodData {
            total_score: 0,
            executed_prs: 0,
            largest_score: 0,
            prs_opened: 0,
            prs_merged: 0,
            total_rating: 0,
            largest_rating_per_pr: 0,
        }
    }
}

impl Default for UserPeriodDataV2 {
    fn default() -> (res: Self)
        ensures
            res == UserPeriodDataV2::zero(),
    {
        UserPeriodDataV2 {
            total_score: 0,
            executed_prs: 0,
            largest_score: 0,
            prs_opened: 0,
            prs_merged: 0,
            total_rating: 0,
            largest_rating_per_pr: 0,
            prs_scored: 0,
        }
    }
}

/// Stored counters, in either version.
#[derive(Debug, Clone, Copy)]
pub enum VersionedUserPeriodData {
    V1(UserPeriodData),
    V2(UserPeriodDataV2),
}

/// Counters in the current version (a first-version value has scored none).
pub open spec fn upgrade(v1: UserPeriodData) -> UserPeriodDataV2 {
    UserPeriodDataV2 {
        total_score: v1.total_score,
        executed_prs: v1.executed_prs,
        largest_score: v1.largest_score,
        prs_opened: v1.prs_opened,
        prs_merged: v1.prs_merged,
        total_rating: v1.total_rating,
        largest_rating_per_pr: v1.largest_rating_per_pr,
        prs_scored: 0,
    }
}

impl UserPeriodDataV2 {
    /// All counters zero.
    pub open spec fn zero() -> UserPeriodDataV2 {
        UserPeriodDataV2 {
            total_score: 0,
            executed_prs: 0,
            largest_score: 0,
            prs_opened: 0,
            prs_merged: 0,
            total_rating: 0,
            largest_rating_per_pr: 0,
            prs_scored: 0,
        }
    }

    /// One more pull request opened.
    pub open spec fn after_pr_opened(self) -> UserPeriodDataV2 {
        UserPeriodDataV2 { prs_opened: (self.prs_opened + 1) as u32, ..self }
    }

    /// One more pull request scored by this user as a maintainer.
    pub open spec fn after_reward_for_scoring(self) -> UserPeriodDataV2 {
        UserPeriodDataV2 {
            prs_scored: (self.prs_scored + 1) as u32,
            total_rating: (self.total_rating + SCORING_REWARD) as u32,
            ..self
        }
    }

    /// One scoring reward withdrawn, if any was given.
    pub open spec fn after_remove_reward_for_scoring(self) -> UserPeriodDataV2 {
        if self.prs_scored > 0 {
            UserPeriodDataV2 {
                prs_scored: (self.prs_scored - 1) as u32,
                total_rating: (self.total_rating - SCORING_REWARD) as u32,
                ..self
            }
        } else {
            self
        }
    }

    /// One more pull request merged.
    pub open spec fn after_pr_merged(self) -> UserPeriodDataV2 {
        UserPeriodDataV2 { prs_merged: (self.prs_merged + 1) as u32, ..self }
    }

    /// A pull request's score changed from `old_score` to `new_score`.
    pub open spec fn after_pr_scored(self, old_score: u32, new_score: u32) -> UserPeriodDataV2 {
        let rating = new_score * RATING_PER_SCORE;
        UserPeriodDataV2 {
            total_score: (self.total_score + new_score - old_score) as u32,
            total_rating: (self.total_rating + rating - old_score * RATING_PER_SCORE) as u32,
            largest_score: if new_score > self.largest_score {
                new_score
            } else {
                self.largest_score
            },
            largest_rating_per_pr: if rating > self.largest_rating_per_pr {
                rating as u32
            } else {
                self.largest_rating_per_pr
            },
            ..self
        }
    }

    /// One more pull request executed.
    pub open spec fn after_pr_executed(self) -> UserPeriodDataV2 {
        UserPeriodDataV2 { executed_prs: (self.executed_prs + 1) as u32, ..self }
    }

    /// A pull request's rating changed from `old_rating` to `total_rating`.
    pub open spec fn after_pr_bonus_rating(self, total_rating: u32, old_rating: u32) -> UserPeriodDataV2 {
        UserPeriodDataV2 {
            total_rating: (self.total_rating + total_rating - old_rating) as u32,
            largest_rating_per_pr: if total_rating > self.largest_rating_per_pr {
                total_rating
            } else {
                self.largest_rating_per_pr
            },
            ..self
        }
    }

    /// A pull request with score `score` closed without merge.
    pub open spec fn after_pr_closed(self, score: u32) -> UserPeriodDataV2 {
        UserPeriodDataV2 {
            prs_opened: (self.prs_opened - 1) as u32,
            total_score: (self.total_score - score) as u32,
            total_rating: (self.total_rating - score * RATING_PER_SCORE) as u32,
            ..self
        }
    }

    /// `after_pr_scored` does not overflow or underflow.
    pub open spec fn can_score(self, old_score: u32, new_score: u32) -> bool {
        &&& self.total_score + new_score <= u32::MAX
        &&& self.total_score + new_score >= old_score
        &&& new_score * RATING_PER_SCORE <= u32::MAX
        &&& old_score * RATING_PER_SCORE <= u32::MAX
        &&& self.total_rating + new_score * RATING_PER_SCORE <= u32::MAX
        &&& self.total_rating + new_score * RATING_PER_SCORE >= old_score * RATING_PER_SCORE
    }

    /// `after_pr_bonus_rating` does not overflow or underflow.
    pub open spec fn can_rate(self, total_rating: u32, old_rating: u32) -> bool {
        &&& self.total_rating + total_rating <= u32::MAX
        &&& self.total_rating + total_rating >= old_rating
    }

    /// `after_pr_closed` does not underflow.
    pub open spec fn can_close(self, score: u32) -> bool {
        &&& self.prs_opened >= 1
        &&& self.total_score >= score
        &&& score * RATING_PER_SCORE <= u32::MAX
        &&& self.total_rating >= score * RATING_PER_SCORE
    }
}

impl VersionedUserPeriodData {
    /// The stored counters in the current version.
    pub open spec fn latest(self) -> UserPeriodDataV2 {
        match self {
            VersionedUserPeriodData::V1(x) => upgrade(x),
            VersionedUserPeriodData::V2(x) => x,
        }
    }

    /// The stored counters in the current version.
    pub fn to_latest(&self) -> (res: UserPeriodDataV2)
        ensures
            res == self.latest(),
    {
        match self {
            VersionedUserPeriodData::V1(x) => UserPeriodDataV2 {
                total_score: x.total_score,
                executed_prs: x.executed_prs,
                largest_score: x.largest_score,
                prs_opened: x.prs_opened,
                prs_merged: x.prs_merged,
                total_rating: x.total_rating,
                largest_rating_per_pr: x.largest_rating_per_pr,
                prs_scored: 0,
            },
            VersionedUserPeriodData::V2(x) => *x,
        }
    }

    /// Counts one more opened pull request.
    pub fn pr_opened(&mut self)
        requires
            old(self).latest().prs_opened < u32::MAX,
        ensures
            *final(self) == VersionedUserPeriodData::V2(old(self).latest().after_pr_opened()),
    {
        let mut data = self.to_latest();
        data.prs_opened = data.prs_opened + 1;
        *self = VersionedUserPeriodData::V2(data);
    }

    /// Rewards the user for scoring a pull request.
    pub fn reward_for_scoring(&mut self)
        requires
            old(self).latest().prs_scored < u32::MAX,
            old(self).latest().total_rating + SCORING_REWARD <= u32::MAX,
        ensures
            *final(self) == VersionedUserPeriodData::V2(
                old(self).latest().after_reward_for_scoring(),
            ),
    {
        let mut data = self.to_latest();
        data.prs_scored = data.prs_scored + 1;
        data.total_rating = data.total_rating + SCORING_REWARD;
        *self = VersionedUserPeriodData::V2(data);
    }

    /// Withdraws one scoring reward, if the user has any.
    pub fn remove_reward_for_scoring(&mut self)
        requires
            old(self).latest().prs_scored > 0 ==> old(self).latest().total_rating
                >= SCORING_REWARD,
        ensures
            *final(self) == VersionedUserPeriodData::V2(
                old(self).latest().after_remove_reward_for_scoring(),
            ),
    {
        let mut data = self.to_latest();
        if data.prs_scored > 0 {
            data.prs_scored = data.prs_scored - 1;
            data.total_rating = data.total_rating - SCORING_REWARD;
        }
        *self = VersionedUserPeriodData::V2(data);
    }

    /// Counts one more merged pull request.
    pub fn pr_merged(&mut self)
        requires
            old(self).latest().prs_merged < u32::MAX,
        ensures
            *final(self) == VersionedUserPeriodData::V2(old(self).latest().after_pr_merged()),
    {
        let mut data = self.to_latest();
        data.prs_merged = data.prs_merged + 1;
        *self = VersionedUserPeriodData::V2(data);
    }

    /// Replaces a pull request's score `old_score` by `new_score`.
    pub fn pr_scored(&mut self, old_score: u32, new_score: u32)
        requires
            old(self).latest().can_score(old_score, new_score),
        ensures
            *final(self) == VersionedUserPeriodData::V2(
                old(self).latest().after_pr_scored(old_score, new_score),
            ),
    {
        let mut data = self.to_latest();
        data.total_score = data.total_score + new_score;
        data.total_score = data.total_score - old_score;

        let rating = new_score * RATING_PER_SCORE;
        data.total_rating = data.total_rating + rating;
        data.total_rating = data.total_rating - old_score * RATING_PER_SCORE;

        if new_score > data.largest_score {
            data.largest_score = new_score;
        }
        if rating > data.largest_rating_per_pr {
            data.largest_rating_per_pr = rating;
        }
        *self = VersionedUserPeriodData::V2(data);
    }

    /// Counts one more executed pull request.
    pub fn pr_executed(&mut self)
        requires
            old(self).latest().executed_prs < u32::MAX,
        ensures
            *final(self) == VersionedUserPeriodData::V2(old(self).latest().after_pr_executed()),
    {
        let mut data = self.to_latest();
        data.executed_prs = data.executed_prs + 1;
        *self = VersionedUserPeriodData::V2(data);
    }

    /// Replaces a pull request's rating `old_rating` by `total_rating`.
    pub fn pr_bonus_rating(&mut self, total_rating: u32, old_rating: u32)
        requires
            old(self).latest().can_rate(total_rating, old_rating),
        ensures
            *final(self) == VersionedUserPeriodData::V2(
                old(self).latest().after_pr_bonus_rating(total_rating, old_rating),
            ),
    {
        let mut data = self.to_latest();
        data.total_rating = data.total_rating + total_rating;
        data.total_rating = data.total_rating - old_rating;
        if total_rating > data.largest_rating_per_pr {
            data.largest_rating_per_pr = total_rating;
        }
        *self = VersionedUserPeriodData::V2(data);
    }

    /// Withdraws an opened pull request with score `score`.
    pub fn pr_closed(&mut self, score: u32)
        requires
            old(self).latest().can_close(score),
        ensures
            *final(self) == VersionedUserPeriodData::V2(old(self).latest().after_pr_closed(score)),
    {
        let mut data = self.to_latest();
        data.prs_opened = data.prs_opened - 1;
        data.total_score = data.total_score - score;
        data.total_rating = data.total_rating - score * RATING_PER_SCORE;
        *self = VersionedUserPeriodData::V2(data);
    }
}

impl From<VersionedUserPeriodData> for UserPeriodDataV2 {
    fn from(message: VersionedUserPeriodData) -> (res: Self) {
        message.to_latest()
    }
}

impl vstd::std_specs::convert::FromSpecImpl<VersionedUserPeriodData> for UserPeriodDataV2 {
    open spec fn obeys_from_spec() -> bool {
        true
    }

    open spec fn from_spec(v: VersionedUserPeriodData) -> UserPeriodDataV2 {
        v.latest()
    }
}

// ---------------------------------------------------------------------------
// Laws.
// ---------------------------------------------------------------------------
/// Withdrawing a scoring reward right after giving one restores the counters.
pub proof fn law_remove_reward_undoes_reward(d: UserPeriodDataV2)
    requires
        d.prs_scored < u32::MAX,
        d.total_rating + SCORING_REWARD <= u32::MAX,
    ensures
        d.after_reward_for_scoring().after_remove_reward_for_scoring() == d,
{
}

/// Closing a just-opened pull request without score restores the counters.
pub proof fn law_close_undoes_open(d: UserPeriodDataV2)
    requires
        d.prs_opened < u32::MAX,
    ensures
        d.after_pr_opened().can_close(0),
        d.after_pr_opened().after_pr_closed(0) == d,
{
}

/// Scoring a pull request and scoring it back restores the score and rating
/// totals; the maxima never decrease.
pub proof fn law_rescore_restores_totals(d: UserPeriodDataV2, a: u32, b: u32)
    requires
        d.can_score(a, b),
    ensures
        d.after_pr_scored(a, b).can_score(b, a),
        d.after_pr_scored(a, b).after_pr_scored(b, a).total_score == d.total_score,
        d.after_pr_scored(a, b).after_pr_scored(b, a).total_rating == d.total_rating,
        d.after_pr_scored(a, b).largest_score >= d.largest_score,
        d.after_pr_scored(a, b).largest_rating_per_pr >= d.largest_rating_per_pr,
        d.after_pr_scored(a, b).largest_score >= b,
{
}

/// Every update leaves the data in the current version; the counts it does
/// not touch stay as they were.
pub proof fn law_opened_touches_only_opened(d: UserPeriodDataV2)
    requires
        d.prs_opened < u32::MAX,
    ensures
        d.after_pr_opened().prs_opened == d.prs_opened + 1,
        d.after_pr_opened().total_score == d.total_score,
        d.after_pr_opened().total_rating == d.total_rating,
        d.after_pr_opened().prs_merged == d.prs_merged,
        d.after_pr_opened().executed_prs == d.executed_prs,
        d.after_pr_opened().prs_scored == d.prs_scored,
{
}

} // verus!
