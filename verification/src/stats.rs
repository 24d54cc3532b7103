//! Weekly and monthly statistics of the pull requests opened on the
//! projects in the race: how many there were, and how many of them the bot
//! was asked to score.
use vstd::prelude::*;

use crate::seqs::{first_index, first_index_from, lemma_first_index};
use crate::text::{decimal, push_char, push_decimal, push_str};
use crate::timeperiod::{utc_date, utc_date_of};

verus! {

broadcast use vstd::seq_lib::group_to_multiset_ensures;

// ---------------------------------------------------------------------------
// Ordering rows by a key, largest first, ties in their first order.
// ---------------------------------------------------------------------------
/// The rows with a key smaller than `k`.
pub open spec fn key_below<T>(k: u64) -> spec_fn((T, u64)) -> bool {
    |e: (T, u64)| e.1 < k
}

/// Where a row with key `k` goes in rows ordered by key, largest first:
/// after every row whose key is at least `k`.
pub open spec fn insert_pos<T>(s: Seq<(T, u64)>, k: u64) -> int {
    match first_index(s, key_below::<T>(k)) {
        Some(i) => i,
        None => s.len() as int,
    }
}

/// `s` ordered by key, largest first; rows with equal keys keep their order
/// (each row is put after the earlier ones whose key is at least its own).
pub open spec fn sorted_by_key<T>(s: Seq<(T, u64)>) -> Seq<(T, u64)>
    decreases s.len(),
{
    if s.len() == 0 {
        s
    } else {
        let r = sorted_by_key(s.drop_last());
        r.insert(insert_pos(r, s.last().1), s.last())
    }
}

/// Whether the keys of `s` never grow.
pub open spec fn keys_descending<T>(s: Seq<(T, u64)>) -> bool {
    forall|i: int, j: int| 0 <= i < j < s.len() ==> #[trigger] s[i].1 >= #[trigger] s[j].1
}

/// Ordering by key gives rows whose keys never grow, and the same rows.
#[verifier::spinoff_prover]
pub proof fn law_sorted_by_key<T>(s: Seq<(T, u64)>)
    ensures
        keys_descending(sorted_by_key(s)),
        sorted_by_key(s).to_multiset() == s.to_multiset(),
        sorted_by_key(s).len() == s.len(),
    decreases s.len(),
{
    if s.len() > 0 {
        let r = sorted_by_key(s.drop_last());
        law_sorted_by_key(s.drop_last());
        let x = s.last();
        let p = insert_pos(r, x.1);
        lemma_first_index(r, key_below::<T>(x.1));
        let t = r.insert(p, x);
        assert(0 <= p <= r.len());
        assert forall|i: int, j: int| 0 <= i < j < t.len() implies #[trigger] t[i].1
            >= #[trigger] t[j].1 by {
            if i < p {
                assert(t[i] == r[i]);
                assert(!(key_below::<T>(x.1))(r[i]));
                if j < p {
                    assert(t[j] == r[j]);
                } else if j == p {
                } else {
                    assert(t[j] == r[j - 1]);
                }
            } else if i == p {
                assert(t[j] == r[j - 1]);
                if p < r.len() {
                    assert(key_below::<T>(x.1)(r[p]));
                    if j - 1 > p {
                        assert(r[p].1 >= r[j - 1].1);
                    }
                }
            } else {
                assert(t[i] == r[i - 1]);
                assert(t[j] == r[j - 1]);
            }
        }
        assert(s =~= s.drop_last().push(x));
        assert(t.to_multiset() =~= r.to_multiset().insert(x));
        assert(s.to_multiset() =~= s.drop_last().to_multiset().insert(x));
    }
}

/// Each row of the ordered rows is one of the rows.
pub proof fn lemma_sorted_by_key_rows<T>(s: Seq<(T, u64)>, i: int)
    requires
        0 <= i < s.len(),
    ensures
        exists|j: int| 0 <= j < s.len() && #[trigger] s[j] == sorted_by_key(s)[i],
{
    law_sorted_by_key(s);
    let r = sorted_by_key(s);
    assert(r.contains(r[i]));
    assert(r.to_multiset().count(r[i]) > 0);
    assert(s.to_multiset().count(r[i]) > 0);
    assert(s.contains(r[i]));
}

/// The rows ordered by key, largest first, ties in their first order.
pub fn sort_by_key<T>(items: Vec<(T, u64)>) -> (res: Vec<(T, u64)>)
    ensures
        res@ == sorted_by_key(items@),
{
    let ghost all = items@;
    assert(all.len() == items.len());
    let mut rest = items;
    let mut out: Vec<(T, u64)> = Vec::new();
    let mut i: usize = 0;
    assert(all.take(0) =~= Seq::<(T, u64)>::empty());
    while rest.len() > 0
        invariant
            i <= all.len() <= usize::MAX,
            rest@ == all.skip(i as int),
            out@ == sorted_by_key(all.take(i as int)),
        decreases rest.len(),
    {
        let x = rest.remove(0);
        let ghost prefix = all.take(i as int);
        assert(all.take(i + 1).drop_last() =~= prefix);
        assert(x == all[i as int]);
        let mut p: usize = 0;
        while p < out.len() && out[p].1 >= x.1
            invariant
                p <= out.len(),
                first_index(out@, key_below::<T>(x.1)) == first_index_from(
                    out@,
                    key_below::<T>(x.1),
                    p as int,
                ),
            decreases out.len() - p,
        {
            p = p + 1;
        }
        proof {
            if p == out.len() {
                assert(first_index_from(out@, key_below::<T>(x.1), p as int) is None);
            }
        }
        out.insert(p, x);
        i = i + 1;
        assert(rest@ =~= all.skip(i as int));
    }
    assert(all.take(i as int) =~= all);
    out
}

// ---------------------------------------------------------------------------
// Counting pull requests.
// ---------------------------------------------------------------------------
/// A pull request counted in the statistics: the login of its author (empty
/// when GitHub names none) and whether the bot was asked to score it.
#[derive(Debug, Clone)]
pub struct PrEntry {
    pub login: String,
    pub with_sloth: bool,
}

/// The pull requests of a project in the period.
#[derive(Debug, Clone)]
pub struct ProjectPrs {
    pub org: String,
    pub repo: String,
    pub prs: Vec<PrEntry>,
}

/// How many pull requests a project had, and how many with the bot.
#[derive(Debug, Clone)]
pub struct ProjectStats {
    pub org: String,
    pub repo: String,
    pub total: u64,
    pub with_sloth: u64,
}

/// How many pull requests a user opened, and how many with the bot.
#[derive(Debug, Clone)]
pub struct UserStats {
    pub login: String,
    pub total: u32,
    pub with_sloth: u32,
}

/// One for a pull request the bot was asked to score.
pub open spec fn sloth_one(e: PrEntry) -> nat {
    if e.with_sloth {
        1
    } else {
        0
    }
}

/// How many of the pull requests the bot was asked to score.
pub open spec fn count_with_sloth(prs: Seq<PrEntry>) -> nat
    decreases prs.len(),
{
    if prs.len() == 0 {
        0
    } else {
        count_with_sloth(prs.drop_last()) + sloth_one(prs.last())
    }
}

/// The statistics of one project.
pub open spec fn project_stats_of(p: ProjectPrs) -> ProjectStats {
    ProjectStats {
        org: p.org,
        repo: p.repo,
        total: p.prs@.len() as u64,
        with_sloth: count_with_sloth(p.prs@) as u64,
    }
}

/// At most all of the pull requests were with the bot.
pub proof fn lemma_count_with_sloth_bound(prs: Seq<PrEntry>)
    ensures
        count_with_sloth(prs) <= prs.len(),
    decreases prs.len(),
{
    if prs.len() > 0 {
        lemma_count_with_sloth_bound(prs.drop_last());
    }
}

/// The statistics of a project.
pub fn project_stats(p: &ProjectPrs) -> (res: ProjectStats)
    ensures
        res == project_stats_of(*p),
        res.with_sloth <= res.total,
{
    let mut with_sloth: u64 = 0;
    let mut i: usize = 0;
    while i < p.prs.len()
        invariant
            i <= p.prs@.len(),
            with_sloth == count_with_sloth(p.prs@.take(i as int)),
        decreases p.prs@.len() - i,
    {
        proof {
            assert(p.prs@.take(i + 1).drop_last() =~= p.prs@.take(i as int));
            lemma_count_with_sloth_bound(p.prs@.take(i as int));
        }
        if p.prs[i].with_sloth {
            with_sloth = with_sloth + 1;
        }
        i = i + 1;
    }
    proof {
        assert(p.prs@.take(i as int) =~= p.prs@);
        lemma_count_with_sloth_bound(p.prs@);
    }
    ProjectStats {
        org: p.org.clone(),
        repo: p.repo.clone(),
        total: p.prs.len() as u64,
        with_sloth,
    }
}

/// All the pull requests, project after project.
pub open spec fn all_prs(projects: Seq<ProjectPrs>) -> Seq<PrEntry>
    decreases projects.len(),
{
    if projects.len() == 0 {
        Seq::empty()
    } else {
        all_prs(projects.drop_last()) + projects.last().prs@
    }
}

/// The row of a user's login.
pub open spec fn login_row(login: Seq<char>) -> spec_fn((Seq<char>, nat, nat)) -> bool {
    |r: (Seq<char>, nat, nat)| r.0 == login
}

/// The tally of pull requests by author: one row per author, in the order
/// in which authors first appear, with the number of their pull requests
/// and of those with the bot.
pub open spec fn tally(prs: Seq<PrEntry>) -> Seq<(Seq<char>, nat, nat)>
    decreases prs.len(),
{
    if prs.len() == 0 {
        Seq::empty()
    } else {
        let t = tally(prs.drop_last());
        let e = prs.last();
        match first_index(t, login_row(e.login@)) {
            Some(i) => t.update(i, (t[i].0, t[i].1 + 1, t[i].2 + sloth_one(e))),
            None => t.push((e.login@, 1, sloth_one(e))),
        }
    }
}

/// How many of the pull requests the author with `login` opened, and how
/// many of those were with the bot.
pub open spec fn count_by(prs: Seq<PrEntry>, login: Seq<char>) -> (nat, nat)
    decreases prs.len(),
{
    if prs.len() == 0 {
        (0, 0)
    } else {
        let c = count_by(prs.drop_last(), login);
        if prs.last().login@ == login {
            (c.0 + 1, c.1 + sloth_one(prs.last()))
        } else {
            c
        }
    }
}

/// The tally has one row per author, with the author's counts, and no
/// other rows: each author of a pull request has a row, no login has two,
/// and a row counts what its author opened.
#[verifier::spinoff_prover]
pub proof fn law_tally_counts(prs: Seq<PrEntry>)
    ensures
        forall|i: int, j: int|
            0 <= i < j < tally(prs).len() ==> #[trigger] tally(prs)[i].0 != #[trigger] tally(
                prs,
            )[j].0,
        forall|i: int|
            0 <= i < tally(prs).len() ==> (#[trigger] tally(prs)[i]).1 == count_by(
                prs,
                tally(prs)[i].0,
            ).0 && tally(prs)[i].2 == count_by(prs, tally(prs)[i].0).1 && tally(prs)[i].1 > 0,
        forall|k: int|
            0 <= k < prs.len() ==> exists|i: int|
                0 <= i < tally(prs).len() && #[trigger] tally(prs)[i].0 == (#[trigger] prs[k]).login@,
    decreases prs.len(),
{
    if prs.len() > 0 {
        let q = prs.drop_last();
        let t = tally(q);
        let e = prs.last();
        law_tally_counts(q);
        lemma_first_index(t, login_row(e.login@));
        let r = tally(prs);
        match first_index(t, login_row(e.login@)) {
            Some(x) => {
                assert forall|i: int| 0 <= i < r.len() implies (#[trigger] r[i]).1 == count_by(
                    prs,
                    r[i].0,
                ).0 && r[i].2 == count_by(prs, r[i].0).1 && r[i].1 > 0 by {
                    if i != x {
                        assert(r[i] == t[i]);
                        assert(t[i].0 != t[x].0);
                    }
                }
                assert forall|i: int, j: int| 0 <= i < j < r.len() implies #[trigger] r[i].0
                    != #[trigger] r[j].0 by {
                    assert(r[i].0 == t[i].0);
                    assert(r[j].0 == t[j].0);
                }
                assert forall|k: int| 0 <= k < prs.len() implies exists|i: int|
                    0 <= i < r.len() && #[trigger] r[i].0 == (#[trigger] prs[k]).login@ by {
                    if k < q.len() {
                        assert(prs[k] == q[k]);
                        let i = choose|i: int| 0 <= i < t.len() && #[trigger] t[i].0 == q[k].login@;
                        assert(r[i].0 == t[i].0);
                    } else {
                        assert(r[x].0 == t[x].0);
                    }
                }
            },
            None => {
                assert forall|i: int| 0 <= i < r.len() implies (#[trigger] r[i]).1 == count_by(
                    prs,
                    r[i].0,
                ).0 && r[i].2 == count_by(prs, r[i].0).1 && r[i].1 > 0 by {
                    if i < t.len() {
                        assert(r[i] == t[i]);
                        assert(!(login_row(e.login@))(t[i]));
                    } else {
                        lemma_count_by_absent(q, e.login@);
                    }
                }
                assert forall|i: int, j: int| 0 <= i < j < r.len() implies #[trigger] r[i].0
                    != #[trigger] r[j].0 by {
                    if j == t.len() {
                        assert(!(login_row(e.login@))(t[i]));
                    }
                }
                assert forall|k: int| 0 <= k < prs.len() implies exists|i: int|
                    0 <= i < r.len() && #[trigger] r[i].0 == (#[trigger] prs[k]).login@ by {
                    if k < q.len() {
                        assert(prs[k] == q[k]);
                        let i = choose|i: int| 0 <= i < t.len() && #[trigger] t[i].0 == q[k].login@;
                        assert(r[i].0 == t[i].0);
                    } else {
                        assert(r[t.len() as int].0 == e.login@);
                    }
                }
            },
        }
    }
}

/// A login that no pull request has counts nothing.
proof fn lemma_count_by_absent(prs: Seq<PrEntry>, login: Seq<char>)
    requires
        forall|i: int| 0 <= i < tally(prs).len() ==> (#[trigger] tally(prs)[i]).0 != login,
        forall|k: int|
            0 <= k < prs.len() ==> exists|i: int|
                0 <= i < tally(prs).len() && #[trigger] tally(prs)[i].0 == (#[trigger] prs[k]).login@,
    ensures
        count_by(prs, login) == (0nat, 0nat),
    decreases prs.len(),
{
    if prs.len() > 0 {
        let q = prs.drop_last();
        law_tally_counts(q);
        let k = prs.len() - 1;
        let i = choose|i: int| 0 <= i < tally(prs).len() && #[trigger] tally(prs)[i].0 == prs[k].login@;
        assert(prs.last().login@ != login);
        let t = tally(q);
        lemma_first_index(t, login_row(prs.last().login@));
        assert forall|i: int| 0 <= i < t.len() implies (#[trigger] t[i]).0 != login by {
            let r = tally(prs);
            match first_index(t, login_row(prs.last().login@)) {
                Some(x) => {
                    assert(r[i].0 == t[i].0);
                },
                None => {
                    assert(r[i] == t[i]);
                },
            }
        }
        lemma_count_by_absent(q, login);
    }
}

/// The counts of a tally are bounded by the pull requests counted, and
/// those with the bot by all of the author's.
pub proof fn lemma_tally_bounds(prs: Seq<PrEntry>)
    ensures
        forall|i: int|
            0 <= i < tally(prs).len() ==> (#[trigger] tally(prs)[i]).2 <= tally(prs)[i].1
                <= prs.len(),
    decreases prs.len(),
{
    if prs.len() > 0 {
        let q = prs.drop_last();
        lemma_tally_bounds(q);
        let t = tally(q);
        lemma_first_index(t, login_row(prs.last().login@));
        let r = tally(prs);
        assert forall|i: int| 0 <= i < r.len() implies (#[trigger] r[i]).2 <= r[i].1 <= prs.len() by {
            match first_index(t, login_row(prs.last().login@)) {
                Some(x) => {
                    if i != x {
                        assert(r[i] == t[i]);
                    }
                },
                None => {
                    if i < t.len() {
                        assert(r[i] == t[i]);
                    }
                },
            }
        }
    }
}

/// The pull requests of the first projects are a prefix of all of them.
pub proof fn lemma_all_prs_prefix(projects: Seq<ProjectPrs>, k: int)
    requires
        0 <= k < projects.len(),
    ensures
        all_prs(projects.take(k + 1)) == all_prs(projects.take(k)) + projects[k].prs@,
        all_prs(projects.take(k)).len() + projects[k].prs@.len() <= all_prs(projects).len(),
    decreases projects.len() - k,
{
    assert(projects.take(k + 1).drop_last() =~= projects.take(k));
    if k + 1 < projects.len() {
        lemma_all_prs_prefix(projects, k + 1);
    } else {
        assert(projects.take(k + 1) =~= projects);
    }
}

/// The rows of user statistics, as counts.
pub open spec fn users_view(rows: Seq<UserStats>) -> Seq<(Seq<char>, nat, nat)> {
    rows.map_values(|u: UserStats| (u.login@, u.total as nat, u.with_sloth as nat))
}

/// The pull requests of all projects tallied by author, authors in the
/// order in which they first appear.
#[verifier::spinoff_prover]
pub fn user_stats(projects: &Vec<ProjectPrs>) -> (res: Vec<UserStats>)
    requires
        all_prs(projects@).len() <= u32::MAX,
    ensures
        users_view(res@) == tally(all_prs(projects@)),
{
    let mut rows: Vec<UserStats> = Vec::new();
    let mut k: usize = 0;
    assert(users_view(rows@) =~= tally(all_prs(projects@.take(0))));
    while k < projects.len()
        invariant
            k <= projects@.len(),
            all_prs(projects@).len() <= u32::MAX,
            users_view(rows@) == tally(all_prs(projects@.take(k as int))),
        decreases projects@.len() - k,
    {
        let ghost before = all_prs(projects@.take(k as int));
        proof {
            lemma_all_prs_prefix(projects@, k as int);
        }
        let prs = &projects[k].prs;
        let mut j: usize = 0;
        assert(before + prs@.take(0) =~= before);
        while j < prs.len()
            invariant
                j <= prs@.len(),
                prs@ == projects@[k as int].prs@,
                before.len() + prs@.len() <= u32::MAX,
                users_view(rows@) == tally(before + prs@.take(j as int)),
            decreases prs@.len() - j,
        {
            let ghost seen = before + prs@.take(j as int);
            let e = &prs[j];
            proof {
                assert((before + prs@.take(j + 1)).drop_last() =~= seen);
                assert((before + prs@.take(j + 1)).last() == *e);
                lemma_tally_bounds(seen);
                lemma_first_index(tally(seen), login_row(e.login@));
            }
            let mut i: usize = 0;
            while i < rows.len() && !(rows[i].login == e.login)
                invariant
                    i <= rows@.len(),
                    users_view(rows@) == tally(seen),
                    forall|x: int| 0 <= x < i ==> rows@[x].login@ != e.login@,
                decreases rows@.len() - i,
            {
                i = i + 1;
            }
            if i < rows.len() {
                assert(users_view(rows@)[i as int].0 == e.login@);
                assert(first_index(tally(seen), login_row(e.login@)) == Some(i as int)) by {
                    match first_index(tally(seen), login_row(e.login@)) {
                        Some(x) => {
                            if x < i {
                                assert(users_view(rows@)[x].0 == rows@[x].login@);
                            }
                        },
                        None => {
                            assert(login_row(e.login@)(tally(seen)[i as int]));
                        },
                    }
                }
                let old_row = &rows[i];
                let extra: u32 = if e.with_sloth {
                    1
                } else {
                    0
                };
                let row = UserStats {
                    login: old_row.login.clone(),
                    total: old_row.total + 1,
                    with_sloth: old_row.with_sloth + extra,
                };
                rows.set(i, row);
            } else {
                assert(first_index(tally(seen), login_row(e.login@)) is None) by {
                    match first_index(tally(seen), login_row(e.login@)) {
                        Some(x) => {
                            assert(users_view(rows@)[x].0 == rows@[x].login@);
                        },
                        None => {},
                    }
                }
                let row = UserStats {
                    login: e.login.clone(),
                    total: 1,
                    with_sloth: if e.with_sloth {
                        1
                    } else {
                        0
                    },
                };
                rows.push(row);
            }
            j = j + 1;
            assert(users_view(rows@) =~= tally(before + prs@.take(j as int)));
        }
        assert(prs@.take(j as int) =~= prs@);
        k = k + 1;
    }
    assert(projects@.take(k as int) =~= projects@);
    rows
}

// ---------------------------------------------------------------------------
// Ordering the statistics.
// ---------------------------------------------------------------------------
/// Ordering by key does not look at what else a row holds.
#[verifier::spinoff_prover]
pub proof fn lemma_sorted_by_key_map<T, U>(s: Seq<(T, u64)>, f: spec_fn(T) -> U)
    ensures
        sorted_by_key(s.map_values(|e: (T, u64)| (f(e.0), e.1))) == sorted_by_key(s).map_values(
            |e: (T, u64)| (f(e.0), e.1),
        ),
    decreases s.len(),
{
    let g = |e: (T, u64)| (f(e.0), e.1);
    let m = s.map_values(g);
    if s.len() == 0 {
        assert(m =~= Seq::<(U, u64)>::empty());
        assert(sorted_by_key(s).map_values(g) =~= Seq::<(U, u64)>::empty());
    } else {
        assert(m.drop_last() =~= s.drop_last().map_values(g));
        lemma_sorted_by_key_map(s.drop_last(), f);
        let r = sorted_by_key(s.drop_last());
        let rm = r.map_values(g);
        let k = s.last().1;
        lemma_first_index(r, key_below::<T>(k));
        lemma_first_index(rm, key_below::<U>(k));
        assert(insert_pos(rm, k) == insert_pos(r, k)) by {
            match (first_index(r, key_below::<T>(k)), first_index(rm, key_below::<U>(k))) {
                (Some(a), Some(b)) => {
                    assert(rm[a].1 == r[a].1);
                    assert(rm[b].1 == r[b].1);
                },
                (Some(a), None) => {
                    assert(rm[a].1 == r[a].1);
                },
                (None, Some(b)) => {
                    assert(rm[b].1 == r[b].1);
                },
                (None, None) => {},
            }
        }
        let p = insert_pos(r, k);
        assert(0 <= p <= r.len());
        assert(m.last() == g(s.last()));
        assert(rm.insert(p, g(s.last())) =~= r.insert(p, s.last()).map_values(g));
    }
}

/// The statistics of a project with its key: the pull requests without the
/// bot.
pub open spec fn keyed_projects(rows: Seq<ProjectStats>) -> Seq<(ProjectStats, u64)> {
    rows.map_values(|p: ProjectStats| (p, (p.total - p.with_sloth) as u64))
}

/// Projects ordered by how many of their pull requests were without the
/// bot, most first, ties in their first order.
pub open spec fn ordered_projects(rows: Seq<ProjectStats>) -> Seq<ProjectStats> {
    sorted_by_key(keyed_projects(rows)).map_values(|e: (ProjectStats, u64)| e.0)
}

/// A tally row with its key: the pull requests without the bot.
pub open spec fn keyed_tally(rows: Seq<(Seq<char>, nat, nat)>) -> Seq<((Seq<char>, nat, nat), u64)> {
    rows.map_values(|r: (Seq<char>, nat, nat)| (r, (r.1 - r.2) as u64))
}

/// Authors ordered by how many of their pull requests were without the
/// bot, most first, ties in their first order.
pub open spec fn ordered_tally(rows: Seq<(Seq<char>, nat, nat)>) -> Seq<(Seq<char>, nat, nat)> {
    sorted_by_key(keyed_tally(rows)).map_values(|e: ((Seq<char>, nat, nat), u64)| e.0)
}

/// Projects ordered by how many of their pull requests were without the
/// bot, most first, ties in their first order.
#[verifier::spinoff_prover]
pub fn order_projects(rows: Vec<ProjectStats>) -> (res: Vec<ProjectStats>)
    requires
        forall|i: int| 0 <= i < rows@.len() ==> (#[trigger] rows@[i]).with_sloth <= rows@[i].total,
    ensures
        res@ == ordered_projects(rows@),
        forall|i: int| 0 <= i < res@.len() ==> (#[trigger] res@[i]).with_sloth <= res@[i].total,
{
    let ghost all = rows@;
    assert(all.len() == rows.len());
    let mut rest = rows;
    let mut keyed: Vec<(ProjectStats, u64)> = Vec::new();
    let mut i: usize = 0;
    while rest.len() > 0
        invariant
            i <= all.len() <= usize::MAX,
            rest@ == all.skip(i as int),
            keyed@ == keyed_projects(all.take(i as int)),
            forall|x: int| 0 <= x < all.len() ==> (#[trigger] all[x]).with_sloth <= all[x].total,
        decreases rest.len(),
    {
        let p = rest.remove(0);
        assert(p == all[i as int]);
        let key = p.total - p.with_sloth;
        keyed.push((p, key));
        i = i + 1;
        assert(rest@ =~= all.skip(i as int));
        assert(keyed@ =~= keyed_projects(all.take(i as int)));
    }
    assert(all.take(i as int) =~= all);
    let sorted = sort_by_key(keyed);
    let ghost sv = sorted@;
    let mut rest = sorted;
    let mut out: Vec<ProjectStats> = Vec::new();
    let mut j: usize = 0;
    proof {
        law_sorted_by_key(keyed_projects(all));
    }
    assert(sv.len() == rest.len());
    while rest.len() > 0
        invariant
            j <= sv.len() <= usize::MAX,
            rest@ == sv.skip(j as int),
            out@ == sv.take(j as int).map_values(|e: (ProjectStats, u64)| e.0),
        decreases rest.len(),
    {
        let e = rest.remove(0);
        assert(e == sv[j as int]);
        out.push(e.0);
        j = j + 1;
        assert(rest@ =~= sv.skip(j as int));
        assert(out@ =~= sv.take(j as int).map_values(|e: (ProjectStats, u64)| e.0));
    }
    assert(sv.take(j as int) =~= sv);
    assert forall|x: int| 0 <= x < out@.len() implies (#[trigger] out@[x]).with_sloth
        <= out@[x].total by {
        lemma_sorted_by_key_rows(keyed_projects(all), x);
        let y = choose|y: int| 0 <= y < keyed_projects(all).len() && #[trigger] keyed_projects(all)[y]
            == sv[x];
        assert(keyed_projects(all)[y].0 == all[y]);
    }
    out
}

/// Authors ordered by how many of their pull requests were without the
/// bot, most first, ties in their first order.
#[verifier::spinoff_prover]
pub fn order_users(rows: Vec<UserStats>) -> (res: Vec<UserStats>)
    requires
        forall|i: int| 0 <= i < rows@.len() ==> (#[trigger] rows@[i]).with_sloth <= rows@[i].total,
    ensures
        users_view(res@) == ordered_tally(users_view(rows@)),
        forall|i: int| 0 <= i < res@.len() ==> (#[trigger] res@[i]).with_sloth <= res@[i].total,
{
    let ghost all = rows@;
    let ghost f = |u: UserStats| (u.login@, u.total as nat, u.with_sloth as nat);
    assert(all.len() == rows.len());
    let mut rest = rows;
    let mut keyed: Vec<(UserStats, u64)> = Vec::new();
    let mut i: usize = 0;
    while rest.len() > 0
        invariant
            i <= all.len() <= usize::MAX,
            rest@ == all.skip(i as int),
            keyed@ == all.take(i as int).map_values(
                |u: UserStats| (u, (u.total - u.with_sloth) as u64),
            ),
            forall|x: int| 0 <= x < all.len() ==> (#[trigger] all[x]).with_sloth <= all[x].total,
        decreases rest.len(),
    {
        let u = rest.remove(0);
        assert(u == all[i as int]);
        let key = (u.total - u.with_sloth) as u64;
        keyed.push((u, key));
        i = i + 1;
        assert(rest@ =~= all.skip(i as int));
        assert(keyed@ =~= all.take(i as int).map_values(
            |u: UserStats| (u, (u.total - u.with_sloth) as u64),
        ));
    }
    assert(all.take(i as int) =~= all);
    let ghost kv = keyed@;
    let sorted = sort_by_key(keyed);
    let ghost sv = sorted@;
    proof {
        law_sorted_by_key(kv);
        lemma_sorted_by_key_map(kv, f);
        assert(kv.map_values(|e: (UserStats, u64)| (f(e.0), e.1)) =~= keyed_tally(users_view(all)));
    }
    let mut rest = sorted;
    let mut out: Vec<UserStats> = Vec::new();
    let mut j: usize = 0;
    assert(sv.len() == rest.len());
    while rest.len() > 0
        invariant
            j <= sv.len() <= usize::MAX,
            rest@ == sv.skip(j as int),
            out@ == sv.take(j as int).map_values(|e: (UserStats, u64)| e.0),
        decreases rest.len(),
    {
        let e = rest.remove(0);
        assert(e == sv[j as int]);
        out.push(e.0);
        j = j + 1;
        assert(rest@ =~= sv.skip(j as int));
        assert(out@ =~= sv.take(j as int).map_values(|e: (UserStats, u64)| e.0));
    }
    assert(sv.take(j as int) =~= sv);
    assert(users_view(out@) =~= ordered_tally(users_view(all)));
    assert forall|x: int| 0 <= x < out@.len() implies (#[trigger] out@[x]).with_sloth
        <= out@[x].total by {
        lemma_sorted_by_key_rows(kv, x);
        let y = choose|y: int| 0 <= y < kv.len() && #[trigger] kv[y] == sv[x];
        assert(kv[y].0 == all[y]);
    }
    out
}

// ---------------------------------------------------------------------------
// The report.
// ---------------------------------------------------------------------------
/// Lines joined by line breaks.
pub open spec fn join_lines(parts: Seq<Seq<char>>) -> Seq<char>
    decreases parts.len(),
{
    if parts.len() == 0 {
        Seq::empty()
    } else if parts.len() == 1 {
        parts[0]
    } else {
        join_lines(parts.drop_last()) + seq!['\n'] + parts.last()
    }
}

/// The characters of some strings.
pub open spec fn strings_view(parts: Seq<String>) -> Seq<Seq<char>> {
    parts.map_values(|s: String| s@)
}

/// Lines joined by line breaks.
pub fn join_with_newlines(parts: &Vec<String>) -> (res: String)
    ensures
        res@ == join_lines(strings_view(parts@)),
{
    let ghost all = strings_view(parts@);
    let mut s = String::new();
    let mut i: usize = 0;
    assert(all.take(0) =~= Seq::<Seq<char>>::empty());
    while i < parts.len()
        invariant
            i <= parts@.len(),
            all == strings_view(parts@),
            s@ == join_lines(all.take(i as int)),
        decreases parts@.len() - i,
    {
        assert(all.take(i + 1).drop_last() =~= all.take(i as int));
        if i > 0 {
            push_char(&mut s, '\n');
        }
        push_str(&mut s, parts[i].as_str());
        i = i + 1;
        proof {
            if i == 1 {
                assert(s@ =~= all.take(1)[0]);
            } else {
                assert(s@ =~= join_lines(all.take(i as int)));
            }
        }
    }
    assert(all.take(i as int) =~= all);
    s
}

/// The line of a project in the report.
pub open spec fn project_line(p: ProjectStats) -> Seq<char> {
    "- ["@ + p.org@ + "/"@ + p.repo@ + "](https://github.com/"@ + p.org@ + "/"@ + p.repo@
        + ") - "@ + decimal(p.total as nat) + " PRs, "@ + decimal(p.with_sloth as nat)
        + " PRs with sloth, "@ + decimal((p.total - p.with_sloth) as nat) + " Difference\n"@
}

/// The report of a period: a title, then the ten projects with the most
/// pull requests without the bot.
pub open spec fn stats_message_of(period: Seq<char>, ordered: Seq<ProjectStats>) -> Seq<char> {
    let shown = if ordered.len() > 10 {
        ordered.take(10)
    } else {
        ordered
    };
    join_lines(seq![period + " PR stats:"@] + shown.map_values(|p: ProjectStats| project_line(p)))
}

/// The line of an author in the table of authors.
pub open spec fn user_line(r: (Seq<char>, nat, nat)) -> Seq<char> {
    r.0 + ";"@ + decimal(r.1) + ";"@ + decimal(r.2) + ";"@ + decimal((r.1 - r.2) as nat)
}

/// The table of authors, one line each after a header, fields separated by
/// semicolons.
pub open spec fn users_csv_of(ordered: Seq<(Seq<char>, nat, nat)>) -> Seq<char> {
    join_lines(
        seq!["User;Total PRs;Sloth PRs;Difference"@] + ordered.map_values(
            |r: (Seq<char>, nat, nat)| user_line(r),
        ),
    )
}

/// The report sent for a period, and the table of authors sent with it.
#[derive(Debug, Clone)]
pub struct StatsReport {
    pub message: String,
    pub csv: String,
}

/// The report of a period over the projects' pull requests: projects
/// ordered by pull requests without the bot, most first, the first ten
/// shown; and all authors, ordered the same way.
#[verifier::spinoff_prover]
pub fn pr_stats(period: &str, projects: &Vec<ProjectPrs>) -> (res: StatsReport)
    requires
        all_prs(projects@).len() <= u32::MAX,
    ensures
        res.message@ == stats_message_of(
            period@,
            ordered_projects(projects@.map_values(|p: ProjectPrs| project_stats_of(p))),
        ),
        res.csv@ == users_csv_of(ordered_tally(tally(all_prs(projects@)))),
{
    let ghost rows_spec = projects@.map_values(|p: ProjectPrs| project_stats_of(p));
    let mut rows: Vec<ProjectStats> = Vec::new();
    let mut k: usize = 0;
    while k < projects.len()
        invariant
            k <= projects@.len(),
            rows@ == projects@.take(k as int).map_values(|p: ProjectPrs| project_stats_of(p)),
            forall|x: int| 0 <= x < rows@.len() ==> (#[trigger] rows@[x]).with_sloth <= rows@[x].total,
        decreases projects@.len() - k,
    {
        let st = project_stats(&projects[k]);
        rows.push(st);
        k = k + 1;
        assert(rows@ =~= projects@.take(k as int).map_values(|p: ProjectPrs| project_stats_of(p)));
    }
    assert(projects@.take(k as int) =~= projects@);
    let ordered = order_projects(rows);
    let mut lines: Vec<String> = Vec::new();
    let mut title = String::new();
    push_str(&mut title, period);
    push_str(&mut title, " PR stats:");
    lines.push(title);
    let shown: usize = if ordered.len() > 10 {
        10
    } else {
        ordered.len()
    };
    let ghost shown_spec = if ordered@.len() > 10 {
        ordered@.take(10)
    } else {
        ordered@
    };
    assert(shown_spec =~= ordered@.take(shown as int));
    let mut i: usize = 0;
    while i < shown
        invariant
            shown <= ordered@.len(),
            i <= shown,
            forall|x: int| 0 <= x < ordered@.len() ==> (#[trigger] ordered@[x]).with_sloth <= ordered@[x].total,
            strings_view(lines@) == seq![period@ + " PR stats:"@] + ordered@.take(i as int).map_values(
                |p: ProjectStats| project_line(p),
            ),
        decreases shown - i,
    {
        let p = &ordered[i];
        let mut line = String::new();
        push_str(&mut line, "- [");
        push_str(&mut line, p.org.as_str());
        push_str(&mut line, "/");
        push_str(&mut line, p.repo.as_str());
        push_str(&mut line, "](https://github.com/");
        push_str(&mut line, p.org.as_str());
        push_str(&mut line, "/");
        push_str(&mut line, p.repo.as_str());
        push_str(&mut line, ") - ");
        push_decimal(&mut line, p.total);
        push_str(&mut line, " PRs, ");
        push_decimal(&mut line, p.with_sloth);
        push_str(&mut line, " PRs with sloth, ");
        let diff: u64 = if p.with_sloth <= p.total {
            p.total - p.with_sloth
        } else {
            0
        };
        push_decimal(&mut line, diff);
        push_str(&mut line, " Difference\n");
        assert(line@ =~= project_line(ordered@[i as int]));
        let ghost before = lines@;
        lines.push(line);
        assert(strings_view(lines@) =~= strings_view(before).push(project_line(ordered@[i as int])));
        assert(ordered@.take(i + 1).map_values(|p: ProjectStats| project_line(p)) =~= ordered@.take(
            i as int,
        ).map_values(|p: ProjectStats| project_line(p)).push(project_line(ordered@[i as int])));
        i = i + 1;
        assert(strings_view(lines@) =~= seq![period@ + " PR stats:"@] + ordered@.take(
            i as int,
        ).map_values(|p: ProjectStats| project_line(p)));
    }
    let message = join_with_newlines(&lines);
    let users = user_stats(projects);
    proof {
        lemma_tally_bounds(all_prs(projects@));
    }
    assert forall|x: int| 0 <= x < users@.len() implies (#[trigger] users@[x]).with_sloth
        <= users@[x].total by {
        assert(users_view(users@)[x] == tally(all_prs(projects@))[x]);
    }
    let ordered_users = order_users(users);
    let mut rows_csv: Vec<String> = Vec::new();
    let mut header = String::new();
    push_str(&mut header, "User;Total PRs;Sloth PRs;Difference");
    rows_csv.push(header);
    let ghost ou = users_view(ordered_users@);
    let mut j: usize = 0;
    while j < ordered_users.len()
        invariant
            j <= ordered_users@.len(),
            ou == users_view(ordered_users@),
            forall|x: int| 0 <= x < ordered_users@.len() ==> (#[trigger] ordered_users@[x]).with_sloth <= ordered_users@[x].total,
            strings_view(rows_csv@) == seq!["User;Total PRs;Sloth PRs;Difference"@] + ou.take(
                j as int,
            ).map_values(|r: (Seq<char>, nat, nat)| user_line(r)),
        decreases ordered_users@.len() - j,
    {
        let u = &ordered_users[j];
        let mut line = String::new();
        push_str(&mut line, u.login.as_str());
        push_str(&mut line, ";");
        push_decimal(&mut line, u.total as u64);
        push_str(&mut line, ";");
        push_decimal(&mut line, u.with_sloth as u64);
        push_str(&mut line, ";");
        let diff: u64 = if u.with_sloth <= u.total {
            (u.total - u.with_sloth) as u64
        } else {
            0
        };
        push_decimal(&mut line, diff);
        assert(ou[j as int] == (u.login@, u.total as nat, u.with_sloth as nat));
        assert(line@ =~= user_line(ou[j as int]));
        let ghost before = rows_csv@;
        rows_csv.push(line);
        assert(strings_view(rows_csv@) =~= strings_view(before).push(user_line(ou[j as int])));
        assert(ou.take(j + 1).map_values(|r: (Seq<char>, nat, nat)| user_line(r)) =~= ou.take(
            j as int,
        ).map_values(|r: (Seq<char>, nat, nat)| user_line(r)).push(user_line(ou[j as int])));
        j = j + 1;
        assert(strings_view(rows_csv@) =~= seq!["User;Total PRs;Sloth PRs;Difference"@] + ou.take(
            j as int,
        ).map_values(|r: (Seq<char>, nat, nat)| user_line(r)));
    }
    assert(ou.take(j as int) =~= ou);
    let csv = join_with_newlines(&rows_csv);
    StatsReport { message, csv }
}

// ---------------------------------------------------------------------------
// Which pull requests a period counts.
// ---------------------------------------------------------------------------
/// Whether date `a` is on or after date `b`, dates as `(year, month, day)`.
pub open spec fn on_or_after(a: (int, int, int), b: (int, int, int)) -> bool {
    a.0 > b.0 || (a.0 == b.0 && (a.1 > b.1 || (a.1 == b.1 && a.2 >= b.2)))
}

/// When a pull request was last active: its last update, else its
/// creation, else the epoch.
pub open spec fn activity_time(updated_at: Option<i64>, created_at: Option<i64>) -> i64 {
    match updated_at {
        Some(u) => u,
        None => match created_at {
            Some(c) => c,
            None => 0,
        },
    }
}

/// Whether a pull request counts in a period starting on `since`: it was
/// last active on that UTC date or later.
pub open spec fn in_period(updated_at: Option<i64>, created_at: Option<i64>, since: (int, int, int)) -> bool {
    on_or_after(utc_date_of(activity_time(updated_at, created_at) as u64), since)
}

/// Whether a pull request counts in a period starting on `since`
/// (`(year, month, day)`, UTC).
pub fn pr_in_period(updated_at: Option<i64>, created_at: Option<i64>, since: (i32, u32, u32)) -> (res: bool)
    ensures
        res == in_period(updated_at, created_at, (since.0 as int, since.1 as int, since.2 as int)),
{
    let t: i64 = match updated_at {
        Some(u) => u,
        None => match created_at {
            Some(c) => c,
            None => 0,
        },
    };
    let (y, m, d) = utc_date(t as u64);
    y > since.0 || (y == since.0 && (m > since.1 || (m == since.1 && d >= since.2)))
}

} // verus!
