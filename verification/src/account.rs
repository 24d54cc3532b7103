//! A contributor's account: lifetime percentage bonuses and one-off flat
//! bonuses earned from streaks, and the per-period counters of a user.
use vstd::prelude::*;

use crate::period_data::UserPeriodDataV2;
use crate::seqs::{
    first_index, first_index_from, lemma_first_index, lemma_sum_of_prefix,
    lemma_sum_of_take_next, sum_of,
};
use crate::streak::{StreakId, StreakUserData};

verus! {

pub type UserId = u32;

/// A GitHub login.
pub type GithubHandle = String;

/// A flat bonus to be paid once a result of at least `streak_min` is reached.
#[derive(Debug, Clone, Copy, PartialEq, Eq, Structural)]
pub struct FlatBonusStorage {
    pub streak_id: StreakId,
    pub reward: u32,
    pub streak_min: u32,
}

/// A lifetime percentage bonus; `new` marks one not yet announced.
#[derive(Debug, Clone, Copy, PartialEq, Eq, Structural)]
pub struct LifetimeBonusStorage {
    pub streak_id: StreakId,
    pub percent: u32,
    pub new: bool,
}

/// A contributor's account and bonuses.
#[derive(Debug, Clone)]
pub struct AccountWithPermanentPercentageBonus {
    pub account_id: Option<String>,
    pub github_handle: GithubHandle,
    pub permanent_percentage_bonus: Vec<LifetimeBonusStorage>,
    pub flat_bonus: Vec<FlatBonusStorage>,
}

impl Default for AccountWithPermanentPercentageBonus {
    fn default() -> (res: Self)
        ensures
            res.account_id is None,
            res.github_handle@ == Seq::<char>::empty(),
            res.permanent_percentage_bonus@.len() == 0,
            res.flat_bonus@.len() == 0,
    {
        AccountWithPermanentPercentageBonus {
            account_id: None,
            github_handle: String::new(),
            permanent_percentage_bonus: Vec::new(),
            flat_bonus: Vec::new(),
        }
    }
}

/// A stored account, in any version.
#[derive(Debug, Clone)]
pub enum VersionedAccount {
    V1(AccountWithPermanentPercentageBonus),
}

impl VersionedAccount {
    pub open spec fn latest(self) -> AccountWithPermanentPercentageBonus {
        match self {
            VersionedAccount::V1(x) => x,
        }
    }
}

impl From<VersionedAccount> for AccountWithPermanentPercentageBonus {
    fn from(message: VersionedAccount) -> (res: Self) {
        match message {
            VersionedAccount::V1(x) => x,
        }
    }
}

impl vstd::std_specs::convert::FromSpecImpl<VersionedAccount> for AccountWithPermanentPercentageBonus {
    open spec fn obeys_from_spec() -> bool {
        true
    }

    open spec fn from_spec(v: VersionedAccount) -> AccountWithPermanentPercentageBonus {
        v.latest()
    }
}

/// The lifetime bonus of a streak.
pub open spec fn lifetime_of(streak_id: StreakId) -> spec_fn(LifetimeBonusStorage) -> bool {
    |b: LifetimeBonusStorage| b.streak_id == streak_id
}

/// The flat bonus of a streak with the given minimum.
pub open spec fn flat_of(streak_id: StreakId, streak_min: u32) -> spec_fn(FlatBonusStorage) -> bool {
    |b: FlatBonusStorage| b.streak_id == streak_id && b.streak_min == streak_min
}

/// A flat bonus of a streak that a result of `result` earns.
pub open spec fn flat_earned(streak_id: StreakId, result: u32) -> spec_fn(FlatBonusStorage) -> bool {
    |b: FlatBonusStorage| b.streak_id == streak_id && result >= b.streak_min
}

/// A lifetime bonus's percent.
pub open spec fn percent_of() -> spec_fn(LifetimeBonusStorage) -> nat {
    |b: LifetimeBonusStorage| b.percent as nat
}

/// A lifetime bonus's percent if not yet announced, else zero.
pub open spec fn new_percent_of() -> spec_fn(LifetimeBonusStorage) -> nat {
    |b: LifetimeBonusStorage|
        if b.new {
            b.percent as nat
        } else {
            0
        }
}

/// The bonus after raising its percent to at least `percent`; it stays or
/// becomes new if the percent grew.
pub open spec fn raised(b: LifetimeBonusStorage, percent: u32) -> LifetimeBonusStorage {
    LifetimeBonusStorage {
        streak_id: b.streak_id,
        percent: if percent > b.percent {
            percent
        } else {
            b.percent
        },
        new: b.new || percent > b.percent,
    }
}

/// The bonus with its `new` mark cleared.
pub open spec fn announced(b: LifetimeBonusStorage) -> LifetimeBonusStorage {
    LifetimeBonusStorage { new: false, ..b }
}

impl AccountWithPermanentPercentageBonus {
    /// A new account of a GitHub user, with no bonuses.
    pub fn new(github_handle: GithubHandle) -> (res: Self)
        ensures
            res.github_handle == github_handle,
            res.account_id is None,
            res.permanent_percentage_bonus@.len() == 0,
            res.flat_bonus@.len() == 0,
    {
        AccountWithPermanentPercentageBonus {
            github_handle,
            permanent_percentage_bonus: Vec::new(),
            flat_bonus: Vec::new(),
            account_id: None,
        }
    }

    /// Raises the streak's lifetime bonus to at least `streak_percent_bonus`,
    /// adding it if absent; returns whether the bonus is new (unannounced).
    pub fn add_streak_percent(&mut self, streak_id: StreakId, streak_percent_bonus: u32) -> (res:
        bool)
        ensures
            final(self).account_id == old(self).account_id,
            final(self).github_handle == old(self).github_handle,
            final(self).flat_bonus == old(self).flat_bonus,
            match first_index(old(self).permanent_percentage_bonus@, lifetime_of(streak_id)) {
                Some(i) => {
                    &&& final(self).permanent_percentage_bonus@
                        == old(self).permanent_percentage_bonus@.update(
                        i,
                        raised(old(self).permanent_percentage_bonus@[i], streak_percent_bonus),
                    )
                    &&& res == final(self).permanent_percentage_bonus@[i].new
                },
                None => {
                    &&& final(self).permanent_percentage_bonus@
                        == old(self).permanent_percentage_bonus@.push(
                        LifetimeBonusStorage {
                            streak_id,
                            percent: streak_percent_bonus,
                            new: true,
                        },
                    )
                    &&& res
                },
            },
    {
        let ghost s = self.permanent_percentage_bonus@;
        let mut i: usize = 0;
        while i < self.permanent_percentage_bonus.len()
            invariant
                self.permanent_percentage_bonus@ == s,
                self.account_id == old(self).account_id,
                self.github_handle == old(self).github_handle,
                self.flat_bonus == old(self).flat_bonus,
                s == old(self).permanent_percentage_bonus@,
                i <= s.len(),
                first_index(s, lifetime_of(streak_id)) == first_index_from(
                    s,
                    lifetime_of(streak_id),
                    i as int,
                ),
            decreases s.len() - i,
        {
            let bonus = self.permanent_percentage_bonus[i];
            if bonus.streak_id == streak_id {
                let old_percent = bonus.percent;
                let percent = if streak_percent_bonus > old_percent {
                    streak_percent_bonus
                } else {
                    old_percent
                };
                let new = bonus.new || percent > old_percent;
                self.permanent_percentage_bonus.set(
                    i,
                    LifetimeBonusStorage { streak_id: bonus.streak_id, percent, new },
                );
                return new;
            }
            i = i + 1;
        }
        self.permanent_percentage_bonus.push(
            LifetimeBonusStorage { streak_id, percent: streak_percent_bonus, new: true },
        );
        true
    }

    /// Adds a flat bonus unless the streak already has one with the same
    /// minimum; returns whether it was added.
    pub fn add_flat_bonus(&mut self, streak_id: StreakId, reward: u32, streak_min: u32) -> (res:
        bool)
        ensures
            final(self).account_id == old(self).account_id,
            final(self).github_handle == old(self).github_handle,
            final(self).permanent_percentage_bonus == old(self).permanent_percentage_bonus,
            res == (first_index(old(self).flat_bonus@, flat_of(streak_id, streak_min)) is None),
            res ==> final(self).flat_bonus@ == old(self).flat_bonus@.push(
                FlatBonusStorage { streak_id, reward, streak_min },
            ),
            !res ==> final(self).flat_bonus@ == old(self).flat_bonus@,
    {
        let ghost s = self.flat_bonus@;
        let mut i: usize = 0;
        while i < self.flat_bonus.len()
            invariant
                self.flat_bonus@ == s,
                s == old(self).flat_bonus@,
                i <= s.len(),
                first_index(s, flat_of(streak_id, streak_min)) == first_index_from(
                    s,
                    flat_of(streak_id, streak_min),
                    i as int,
                ),
            decreases s.len() - i,
        {
            let bonus = self.flat_bonus[i];
            if bonus.streak_id == streak_id && bonus.streak_min == streak_min {
                return false;
            }
            i = i + 1;
        }
        self.flat_bonus.push(FlatBonusStorage { streak_id, reward, streak_min });
        true
    }

    /// The sum of all lifetime percentage bonuses.
    pub fn lifetime_percentage_bonus(&self) -> (res: u32)
        requires
            sum_of(self.permanent_percentage_bonus@, percent_of()) <= u32::MAX,
        ensures
            res == sum_of(self.permanent_percentage_bonus@, percent_of()),
    {
        let ghost s = self.permanent_percentage_bonus@;
        let mut total: u32 = 0;
        let mut i: usize = 0;
        assert(s.take(0) =~= Seq::<LifetimeBonusStorage>::empty());
        while i < self.permanent_percentage_bonus.len()
            invariant
                s == self.permanent_percentage_bonus@,
                sum_of(s, percent_of()) <= u32::MAX,
                i <= s.len(),
                total == sum_of(s.take(i as int), percent_of()),
            decreases s.len() - i,
        {
            proof {
                lemma_sum_of_take_next(s, percent_of(), i as int);
                lemma_sum_of_prefix(s, percent_of(), i + 1, s.len() as int);
                assert(s.take(s.len() as int) =~= s);
            }
            total = total + self.permanent_percentage_bonus[i].percent;
            i = i + 1;
        }
        assert(s.take(s.len() as int) =~= s);
        total
    }

    /// Pays out and removes the first flat bonus of the streak that `result`
    /// earns (the last bonus takes its place); returns its reward, or zero.
    pub fn use_flat_bonus(&mut self, streak_id: StreakId, result: u32) -> (res: u32)
        ensures
            final(self).account_id == old(self).account_id,
            final(self).github_handle == old(self).github_handle,
            final(self).permanent_percentage_bonus == old(self).permanent_percentage_bonus,
            match first_index(old(self).flat_bonus@, flat_earned(streak_id, result)) {
                Some(i) => {
                    &&& res == old(self).flat_bonus@[i].reward
                    &&& final(self).flat_bonus@ == old(self).flat_bonus@.update(
                        i,
                        old(self).flat_bonus@.last(),
                    ).drop_last()
                },
                None => res == 0 && final(self).flat_bonus@ == old(self).flat_bonus@,
            },
    {
        let ghost s = self.flat_bonus@;
        let mut i: usize = 0;
        while i < self.flat_bonus.len()
            invariant
                self.flat_bonus@ == s,
                s == old(self).flat_bonus@,
                self.account_id == old(self).account_id,
                self.github_handle == old(self).github_handle,
                self.permanent_percentage_bonus == old(self).permanent_percentage_bonus,
                i <= s.len(),
                first_index(s, flat_earned(streak_id, result)) == first_index_from(
                    s,
                    flat_earned(streak_id, result),
                    i as int,
                ),
            decreases s.len() - i,
        {
            let bonus = self.flat_bonus[i];
            if bonus.streak_id == streak_id && result >= bonus.streak_min {
                let removed = self.flat_bonus.swap_remove(i);
                return removed.reward;
            }
            i = i + 1;
        }
        0
    }

    /// Clears every `new` mark; returns the sum of the percents that were new.
    pub fn clear_new_flags(&mut self) -> (res: u32)
        requires
            sum_of(old(self).permanent_percentage_bonus@, new_percent_of()) <= u32::MAX,
        ensures
            final(self).account_id == old(self).account_id,
            final(self).github_handle == old(self).github_handle,
            final(self).flat_bonus == old(self).flat_bonus,
            final(self).permanent_percentage_bonus@ == old(
                self,
            ).permanent_percentage_bonus@.map_values(|b: LifetimeBonusStorage| announced(b)),
            res == sum_of(old(self).permanent_percentage_bonus@, new_percent_of()),
    {
        let ghost s = self.permanent_percentage_bonus@;
        let mut new_bonus: u32 = 0;
        let mut i: usize = 0;
        while i < self.permanent_percentage_bonus.len()
            invariant
                s == old(self).permanent_percentage_bonus@,
                sum_of(s, new_percent_of()) <= u32::MAX,
                self.permanent_percentage_bonus@.len() == s.len(),
                self.account_id == old(self).account_id,
                self.github_handle == old(self).github_handle,
                self.flat_bonus == old(self).flat_bonus,
                i <= s.len(),
                forall|j: int|
                    0 <= j < i ==> #[trigger] self.permanent_percentage_bonus@[j] == announced(
                        s[j],
                    ),
                forall|j: int|
                    i <= j < s.len() ==> #[trigger] self.permanent_percentage_bonus@[j] == s[j],
                new_bonus == sum_of(s.take(i as int), new_percent_of()),
            decreases s.len() - i,
        {
            proof {
                lemma_sum_of_take_next(s, new_percent_of(), i as int);
                lemma_sum_of_prefix(s, new_percent_of(), i + 1, s.len() as int);
                assert(s.take(s.len() as int) =~= s);
            }
            let bonus = self.permanent_percentage_bonus[i];
            if bonus.new {
                new_bonus = new_bonus + bonus.percent;
            }
            self.permanent_percentage_bonus.set(
                i,
                LifetimeBonusStorage { streak_id: bonus.streak_id, percent: bonus.percent, new: false },
            );
            i = i + 1;
        }
        assert(s.take(s.len() as int) =~= s);
        assert(self.permanent_percentage_bonus@ =~= s.map_values(
            |b: LifetimeBonusStorage| announced(b),
        ));
        new_bonus
    }
}

/// Contributor data as kept for each period and streak.
#[derive(Debug, Clone)]
pub struct User {
    pub id: UserId,
    pub name: GithubHandle,
    pub percentage_bonus: u32,
    pub period_data: Vec<(String, UserPeriodDataV2)>,
    pub streaks: Vec<(StreakId, StreakUserData)>,
}

/// The entry of a period.
pub open spec fn period_named(period: Seq<char>) -> spec_fn((String, UserPeriodDataV2)) -> bool {
    |e: (String, UserPeriodDataV2)| e.0@ == period
}

impl User {
    /// The counters of the first entry for `period`, if any.
    pub fn get_period(&self, period: &String) -> (res: Option<&UserPeriodDataV2>)
        ensures
            match first_index(self.period_data@, period_named(period@)) {
                Some(i) => res == Some(&self.period_data@[i].1),
                None => res is None,
            },
    {
        let mut i: usize = 0;
        while i < self.period_data.len()
            invariant
                i <= self.period_data@.len(),
                first_index(self.period_data@, period_named(period@)) == first_index_from(
                    self.period_data@,
                    period_named(period@),
                    i as int,
                ),
            decreases self.period_data@.len() - i,
        {
            if self.period_data[i].0 == *period {
                return Some(&self.period_data[i].1);
            }
            i = i + 1;
        }
        None
    }
}

/// A repository and whether it is paused or blocked.
#[derive(Debug, Clone)]
pub struct Repo {
    pub login: String,
    pub paused: bool,
    pub blocked: bool,
}

/// The repositories of an organization.
#[derive(Debug, Clone)]
pub struct AllowedRepos {
    pub organization: String,
    pub repos: Vec<Repo>,
}

// ---------------------------------------------------------------------------
// Laws.
// ---------------------------------------------------------------------------
/// Raising a lifetime bonus never lowers it, reaches the requested percent,
/// and marks it new exactly if it grew or was new.
pub proof fn law_raise_monotone(b: LifetimeBonusStorage, percent: u32)
    ensures
        raised(b, percent).percent >= b.percent,
        raised(b, percent).percent >= percent,
        raised(b, percent).streak_id == b.streak_id,
        raised(b, percent).new == (b.new || percent > b.percent),
        raised(raised(b, percent), percent).percent == raised(b, percent).percent,
{
}

/// After the `new` marks are cleared, clearing again sums to nothing.
pub proof fn law_clear_twice_pays_nothing(s: Seq<LifetimeBonusStorage>)
    ensures
        sum_of(s.map_values(|b: LifetimeBonusStorage| announced(b)), new_percent_of()) == 0,
    decreases s.len(),
{
    let t = s.map_values(|b: LifetimeBonusStorage| announced(b));
    if s.len() > 0 {
        assert(t.drop_last() =~= s.drop_last().map_values(|b: LifetimeBonusStorage| announced(b)));
        law_clear_twice_pays_nothing(s.drop_last());
    }
}

/// Adding the same flat bonus twice adds it once: after it was added, it is
/// found, so a second attempt is refused.
pub proof fn law_flat_bonus_added_once(
    s: Seq<FlatBonusStorage>,
    streak_id: StreakId,
    reward: u32,
    streak_min: u32,
)
    requires
        first_index(s, flat_of(streak_id, streak_min)) is None,
    ensures
        first_index(
            s.push(FlatBonusStorage { streak_id, reward, streak_min }),
            flat_of(streak_id, streak_min),
        ) is Some,
{
    let x = FlatBonusStorage { streak_id, reward, streak_min };
    crate::seqs::lemma_first_index_push(s, flat_of(streak_id, streak_min), x);
}

/// A flat bonus just added is paid out by a result that reaches its minimum,
/// unless an earlier bonus of the streak is paid instead.
pub proof fn law_flat_bonus_paid_after_added(
    s: Seq<FlatBonusStorage>,
    streak_id: StreakId,
    reward: u32,
    streak_min: u32,
    result: u32,
)
    requires
        result >= streak_min,
    ensures
        first_index(
            s.push(FlatBonusStorage { streak_id, reward, streak_min }),
            flat_earned(streak_id, result),
        ) is Some,
{
    let x = FlatBonusStorage { streak_id, reward, streak_min };
    crate::seqs::lemma_first_index_push(s, flat_earned(streak_id, result), x);
}

} // verus!
