//! Pull requests taking part in the race: the maintainers' scores, merge
//! time, and when scoring closes.
use vstd::prelude::*;

use crate::account::GithubHandle;
use crate::seqs::{
    first_index, first_index_from, lemma_first_index, lemma_sum_of_bound,
    lemma_sum_of_prefix, lemma_sum_of_take_next, sum_of,
};
use crate::text::{decimal, push_decimal, push_str};
use crate::timeperiod::Timestamp;

verus! {

/// `<organization>/<repo>/<number>`.
pub type PRId = String;

/// Scoring stays open this long after the merge.
pub const SCORE_TIMEOUT_IN_SECONDS: u64 = 24 * 60 * 60;

pub const SCORE_TIMEOUT_IN_NANOSECONDS: u64 = SCORE_TIMEOUT_IN_SECONDS * 1_000_000_000;

/// A maintainer's score of a pull request.
#[derive(Debug, Clone)]
pub struct Score {
    pub user: GithubHandle,
    pub score: u32,
}

/// What the contract reports about a pull request.
#[derive(Debug, Clone)]
pub struct PRInfo {
    pub votes: Vec<Score>,
    pub allowed_repo: bool,
    pub paused: bool,
    pub exist: bool,
    pub merged: bool,
    pub executed: bool,
    pub excluded: bool,
}

impl Default for PRInfo {
    fn default() -> (res: Self)
        ensures
            res.votes@.len() == 0,
            !res.allowed_repo && !res.paused && !res.exist,
            !res.merged && !res.executed && !res.excluded,
    {
        PRInfo {
            votes: Vec::new(),
            allowed_repo: false,
            paused: false,
            exist: false,
            merged: false,
            executed: false,
            excluded: false,
        }
    }
}

/// A score's value.
pub open spec fn score_value() -> spec_fn(Score) -> nat {
    |s: Score| s.score as nat
}

/// The sum of the scores.
pub open spec fn score_sum(votes: Seq<Score>) -> nat {
    sum_of(votes, score_value())
}

/// The sum of the scores of a vector.
fn sum_scores(votes: &Vec<Score>) -> (res: u32)
    requires
        score_sum(votes@) <= u32::MAX,
    ensures
        res == score_sum(votes@),
{
    let ghost s = votes@;
    let mut total: u32 = 0;
    let mut i: usize = 0;
    assert(s.take(0) =~= Seq::<Score>::empty());
    while i < votes.len()
        invariant
            s == votes@,
            sum_of(s, score_value()) <= u32::MAX,
            i <= s.len(),
            total == sum_of(s.take(i as int), score_value()),
        decreases s.len() - i,
    {
        proof {
            lemma_sum_of_take_next(s, score_value(), i as int);
            lemma_sum_of_prefix(s, score_value(), i + 1, s.len() as int);
            assert(s.take(s.len() as int) =~= s);
        }
        total = total + votes[i].score;
        i = i + 1;
    }
    assert(s.take(s.len() as int) =~= s);
    total
}

impl PRInfo {
    /// The average score, rounded down; zero without votes.
    pub fn average_score(&self) -> (res: u32)
        requires
            score_sum(self.votes@) <= u32::MAX,
            self.votes@.len() == 0 || (self.votes@.len() as u32) > 0,
        ensures
            self.votes@.len() == 0 ==> res == 0,
            self.votes@.len() > 0 ==> res == score_sum(self.votes@) / (self.votes@.len() as u32)
                as nat,
    {
        if self.votes.len() == 0 {
            return 0;
        }
        let total_score = sum_scores(&self.votes);
        total_score / (self.votes.len() as u32)
    }
}

/// A pull request as kept by the contract.
#[derive(Debug, Clone)]
pub struct PRv2 {
    pub organization: String,
    pub repo: String,
    pub number: u64,
    pub author: GithubHandle,
    pub score: Vec<Score>,
    pub included_at: Timestamp,
    pub created_at: Option<Timestamp>,
    pub merged_at: Option<Timestamp>,
    pub streak_bonus_rating: u32,
    pub percentage_multiplier: u32,
}

/// A pull request of the first stored version.
#[derive(Debug, Clone)]
pub struct PRWithRating {
    pub organization: String,
    pub repo: String,
    pub number: u64,
    pub author: GithubHandle,
    pub score: Vec<Score>,
    pub created_at: Timestamp,
    pub merged_at: Option<Timestamp>,
    pub streak_bonus_rating: u32,
    pub percentage_multiplier: u32,
}

/// A stored pull request, in either version.
#[derive(Debug, Clone)]
pub enum VersionedPR {
    V1(PRWithRating),
    V2(PRv2),
}

/// A first-version pull request in the current version: it was included when
/// it was created, and its creation time on GitHub is unknown.
pub open spec fn upgrade_pr(x: PRWithRating) -> PRv2 {
    PRv2 {
        organization: x.organization,
        repo: x.repo,
        number: x.number,
        author: x.author,
        score: x.score,
        included_at: x.created_at,
        created_at: None,
        merged_at: x.merged_at,
        streak_bonus_rating: x.streak_bonus_rating,
        percentage_multiplier: x.percentage_multiplier,
    }
}

/// Whether scoring closed for a pull request merged at `merged_at` by
/// `timestamp`.
pub open spec fn ready_to_move(merged_at: Option<u64>, timestamp: u64) -> bool {
    match merged_at {
        Some(m) => timestamp - m > SCORE_TIMEOUT_IN_NANOSECONDS,
        None => false,
    }
}

impl VersionedPR {
    pub open spec fn latest(self) -> PRv2 {
        match self {
            VersionedPR::V1(x) => upgrade_pr(x),
            VersionedPR::V2(x) => x,
        }
    }

    /// Whether the pull request is merged.
    pub fn is_merged(&self) -> (res: bool)
        ensures
            res == self.latest().merged_at is Some,
    {
        match self {
            VersionedPR::V1(x) => x.merged_at.is_some(),
            VersionedPR::V2(x) => x.merged_at.is_some(),
        }
    }

    /// Whether scoring closed by `timestamp`.
    pub fn is_ready_to_move(&self, timestamp: Timestamp) -> (res: bool)
        requires
            self.latest().merged_at matches Some(m) ==> timestamp >= m,
        ensures
            res == ready_to_move(self.latest().merged_at, timestamp),
    {
        match self {
            VersionedPR::V1(x) => {
                x.merged_at.is_some() && (timestamp - x.merged_at.unwrap())
                    > SCORE_TIMEOUT_IN_NANOSECONDS
            },
            VersionedPR::V2(x) => x.is_ready_to_move(timestamp),
        }
    }
}

impl From<VersionedPR> for PRv2 {
    fn from(message: VersionedPR) -> (res: Self) {
        match message {
            VersionedPR::V1(x) => PRv2 {
                organization: x.organization,
                repo: x.repo,
                number: x.number,
                author: x.author,
                score: x.score,
                included_at: x.created_at,
                created_at: None,
                merged_at: x.merged_at,
                streak_bonus_rating: x.streak_bonus_rating,
                percentage_multiplier: x.percentage_multiplier,
            },
            VersionedPR::V2(x) => x,
        }
    }
}

impl vstd::std_specs::convert::FromSpecImpl<VersionedPR> for PRv2 {
    open spec fn obeys_from_spec() -> bool {
        true
    }

    open spec fn from_spec(v: VersionedPR) -> PRv2 {
        v.latest()
    }
}

/// The score given by a user.
pub open spec fn scored_by(user: Seq<char>) -> spec_fn(Score) -> bool {
    |s: Score| s.user@ == user
}

/// `<organization>/<repo>/<number>`.
pub open spec fn pr_id_of(organization: Seq<char>, repo: Seq<char>, number: u64) -> Seq<char> {
    organization + seq!['/'] + repo + seq!['/'] + decimal(number as nat)
}

/// The average of the scores, rounded down, if there is any.
pub open spec fn average_of(votes: Seq<Score>) -> Option<u32> {
    if (votes.len() as u32) == 0 {
        None
    } else {
        Some((score_sum(votes) / ((votes.len() as u32) as nat)) as u32)
    }
}

impl PRv2 {
    /// A pull request included at `included_at`, created at `created_at`,
    /// with no score, merge or bonus yet.
    pub fn new(
        organization: String,
        repo: String,
        number: u64,
        author: GithubHandle,
        included_at: Timestamp,
        created_at: Timestamp,
    ) -> (res: Self)
        ensures
            res.organization == organization,
            res.repo == repo,
            res.number == number,
            res.author == author,
            res.included_at == included_at,
            res.created_at == Some(created_at),
            res.score@.len() == 0,
            res.merged_at is None,
            res.streak_bonus_rating == 0,
            res.percentage_multiplier == 0,
    {
        PRv2 {
            organization,
            repo,
            number,
            author,
            included_at,
            created_at: Some(created_at),
            score: Vec::new(),
            merged_at: None,
            streak_bonus_rating: 0,
            percentage_multiplier: 0,
        }
    }

    /// Records `user`'s score, replacing an earlier one; returns the earlier
    /// score if there was one.
    pub fn add_score(&mut self, user: GithubHandle, score: u32) -> (res: Option<u32>)
        ensures
            final(self).organization == old(self).organization,
            final(self).repo == old(self).repo,
            final(self).number == old(self).number,
            final(self).author == old(self).author,
            final(self).included_at == old(self).included_at,
            final(self).created_at == old(self).created_at,
            final(self).merged_at == old(self).merged_at,
            final(self).streak_bonus_rating == old(self).streak_bonus_rating,
            final(self).percentage_multiplier == old(self).percentage_multiplier,
            match first_index(old(self).score@, scored_by(user@)) {
                Some(i) => {
                    &&& res == Some(old(self).score@[i].score)
                    &&& final(self).score@ == old(self).score@.update(
                        i,
                        Score { user: old(self).score@[i].user, score },
                    )
                },
                None => {
                    &&& res is None
                    &&& final(self).score@ == old(self).score@.push(Score { user, score })
                },
            },
    {
        let ghost s = self.score@;
        let mut i: usize = 0;
        while i < self.score.len()
            invariant
                self.score@ == s,
                s == old(self).score@,
                self.organization == old(self).organization,
                self.repo == old(self).repo,
                self.number == old(self).number,
                self.author == old(self).author,
                self.included_at == old(self).included_at,
                self.created_at == old(self).created_at,
                self.merged_at == old(self).merged_at,
                self.streak_bonus_rating == old(self).streak_bonus_rating,
                self.percentage_multiplier == old(self).percentage_multiplier,
                i <= s.len(),
                first_index(s, scored_by(user@)) == first_index_from(
                    s,
                    scored_by(user@),
                    i as int,
                ),
            decreases s.len() - i,
        {
            if self.score[i].user == user {
                let old_score = self.score[i].score;
                let name = self.score[i].user.clone();
                self.score.set(i, Score { user: name, score });
                return Some(old_score);
            }
            i = i + 1;
        }
        self.score.push(Score { user, score });
        None
    }

    /// Records the merge time.
    pub fn add_merge_info(&mut self, merged_at: Timestamp)
        ensures
            *final(self) == (PRv2 { merged_at: Some(merged_at), ..*old(self) }),
    {
        self.merged_at = Some(merged_at);
    }

    /// When scoring closes: a day after the merge.
    pub fn ready_to_move_timestamp(&self) -> (res: Option<Timestamp>)
        requires
            self.merged_at matches Some(m) ==> m + SCORE_TIMEOUT_IN_NANOSECONDS <= u64::MAX,
        ensures
            res == match self.merged_at {
                Some(m) => Some((m + SCORE_TIMEOUT_IN_NANOSECONDS) as u64),
                None => None,
            },
    {
        match self.merged_at {
            Some(t) => Some(t + SCORE_TIMEOUT_IN_NANOSECONDS),
            None => None,
        }
    }

    /// Whether scoring closed by `timestamp`.
    pub fn is_ready_to_move(&self, timestamp: Timestamp) -> (res: bool)
        requires
            self.merged_at matches Some(m) ==> timestamp >= m,
        ensures
            res == ready_to_move(self.merged_at, timestamp),
    {
        self.merged_at.is_some() && (timestamp - self.merged_at.unwrap())
            > SCORE_TIMEOUT_IN_NANOSECONDS
    }

    /// The average score, rounded down, if the pull request has any score.
    pub fn score(&self) -> (res: Option<u32>)
        requires
            score_sum(self.score@) <= u32::MAX,
        ensures
            res == average_of(self.score@),
    {
        let total = sum_scores(&self.score);
        let count = self.score.len() as u32;
        if count == 0 {
            None
        } else {
            Some(total / count)
        }
    }

    /// `<organization>/<repo>/<number>`.
    pub fn pr_id(&self) -> (res: PRId)
        ensures
            res@ == pr_id_of(self.organization@, self.repo@, self.number),
    {
        let mut s = String::new();
        push_str(&mut s, self.organization.as_str());
        push_str(&mut s, "/");
        push_str(&mut s, self.repo.as_str());
        push_str(&mut s, "/");
        push_decimal(&mut s, self.number);
        proof {
            reveal_strlit("/");
        }
        assert(s@ =~= pr_id_of(self.organization@, self.repo@, self.number));
        s
    }
}

// ---------------------------------------------------------------------------
// Laws.
// ---------------------------------------------------------------------------
/// Whether every user scored at most once.
pub open spec fn users_unique(s: Seq<Score>) -> bool {
    forall|i: int, j: int| 0 <= i < j < s.len() ==> s[i].user@ != s[j].user@
}

/// The scores after `add_score`, as its contract states them.
pub open spec fn with_score(s: Seq<Score>, user: GithubHandle, score: u32) -> Seq<Score> {
    match first_index(s, scored_by(user@)) {
        Some(i) => s.update(i, Score { user: s[i].user, score }),
        None => s.push(Score { user, score }),
    }
}

/// After a user scores, a read of that user's score gives what was written,
/// the list keeps one score per user, and scoring again reports the
/// previous score.
pub proof fn law_score_read_after_write(s: Seq<Score>, user: GithubHandle, score: u32)
    requires
        users_unique(s),
    ensures
        users_unique(with_score(s, user, score)),
        first_index(with_score(s, user, score), scored_by(user@)) matches Some(k) && with_score(
            s,
            user,
            score,
        )[k].score == score,
        with_score(s, user, score).len() == s.len() + (if first_index(s, scored_by(user@)) is Some {
            0int
        } else {
            1int
        }),
{
    let t = with_score(s, user, score);
    lemma_first_index(s, scored_by(user@));
    lemma_first_index(t, scored_by(user@));
    match first_index(s, scored_by(user@)) {
        Some(i) => {
            assert forall|a: int, b: int| 0 <= a < b < t.len() implies t[a].user@ != t[b].user@ by {
                if a == i {
                    assert(t[a].user == s[i].user);
                } else if b == i {
                    assert(t[b].user == s[i].user);
                }
            }
            match first_index(t, scored_by(user@)) {
                Some(k) => {
                    if k < i {
                        assert(t[k] == s[k]);
                    }
                    if k > i {
                        assert(t[i].user == s[i].user);
                    }
                },
                None => {
                    assert(t[i].user == s[i].user);
                },
            }
        },
        None => {
            assert forall|a: int, b: int| 0 <= a < b < t.len() implies t[a].user@ != t[b].user@ by {
                if b == s.len() {
                    assert(t[a] == s[a]);
                    assert(!scored_by(user@)(s[a]));
                }
            }
            match first_index(t, scored_by(user@)) {
                Some(k) => {
                    if k < s.len() {
                        assert(t[k] == s[k]);
                    }
                },
                None => {
                    assert(t[s.len() as int].user@ == user@);
                },
            }
        },
    }
}

/// The average of the scores is at most the largest score.
pub proof fn law_average_at_most_max(votes: Seq<Score>, max: u32)
    requires
        forall|i: int| 0 <= i < votes.len() ==> (#[trigger] votes[i]).score <= max,
        0 < votes.len() <= u32::MAX,
    ensures
        average_of(votes) matches Some(a) && a <= max,
{
    lemma_sum_of_bound(votes, score_value(), max as nat);
    let n = votes.len();
    assert((votes.len() as u32) as nat == n);
    let sum = score_sum(votes);
    assert(sum / n <= max) by (nonlinear_arith)
        requires
            sum <= n * max,
            n > 0,
    ;
}

} // verus!
