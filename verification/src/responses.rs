//! What the server's API returns: pages of records, users, repositories,
//! streak status, contributions and badges, built from database rows.
use vstd::prelude::*;

use crate::github::UtcNanos;
use crate::records::{
    period_row, LeaderboardRecord, RepoLeaderboardRecord, StreakRecord, UserContributionRecord,
    UserRecord,
};
use crate::seqs::{first_index, first_index_from};
use crate::text::{
    chars_equal, decimal, lowercase_of, push_decimal, push_str, string_of,
};
use crate::timeperiod::{period_of_name, TimePeriod, Timestamp, UnixSeconds};

verus! {

// ---------------------------------------------------------------------------
// Pages.
// ---------------------------------------------------------------------------
/// One page of records.
#[derive(Debug, Clone)]
pub struct PaginatedResponse<T> {
    pub records: Vec<T>,
    pub page: u64,
    pub total_pages: u64,
    pub limit: u64,
    pub total_records: u64,
}

/// The number of pages of `limit` records that `total` records fill.
pub open spec fn pages_for(total: u64, limit: u64) -> int {
    total / limit + (if total % limit == 0 {
        0int
    } else {
        1int
    })
}

impl<T> PaginatedResponse<T> {
    /// A page of records; the number of pages rounds up.
    pub fn new(records: Vec<T>, page: u64, limit: u64, total_records: u64) -> (res: Self)
        requires
            limit > 0,
        ensures
            res.records == records,
            res.page == page,
            res.limit == limit,
            res.total_records == total_records,
            res.total_pages == pages_for(total_records, limit),
    {
        let extra_page = if total_records % limit == 0 {
            0
        } else {
            1
        };
        proof {
            let q = total_records / limit;
            let r = total_records % limit;
            assert(total_records == q * limit + r && r < limit) by (nonlinear_arith)
                requires
                    q == total_records / limit,
                    r == total_records % limit,
                    limit > 0,
            ;
            if r > 0 {
                assert(q < u64::MAX) by (nonlinear_arith)
                    requires
                        total_records == q * limit + r,
                        r > 0,
                        limit > 0,
                        total_records <= u64::MAX,
                        q >= 0,
                ;
            }
        }
        let total_pages = (total_records / limit) + extra_page;
        PaginatedResponse { records, page, total_pages, limit, total_records }
    }
}

/// The pages hold every record, and no page is left empty: the last page
/// starts before the last record.
pub proof fn law_pages_cover_records(total: u64, limit: u64)
    requires
        limit > 0,
    ensures
        pages_for(total, limit) * limit >= total,
        total > 0 ==> (pages_for(total, limit) - 1) * limit < total,
        total == 0 ==> pages_for(total, limit) == 0,
{
    let q = total / limit;
    let r = total % limit;
    assert(total == q * limit + r && 0 <= r < limit) by (nonlinear_arith)
        requires
            q == total / limit,
            r == total % limit,
            limit > 0,
    ;
    if r == 0 {
        assert(pages_for(total, limit) == q);
        assert((q - 1) * limit == q * limit - limit) by (nonlinear_arith);
    } else {
        assert(pages_for(total, limit) == q + 1);
        assert((q + 1) * limit == q * limit + limit) by (nonlinear_arith);
    }
    if total == 0 {
        assert(q == 0) by (nonlinear_arith)
            requires
                total == q * limit + r,
                0 <= r,
                limit > 0,
                total == 0,
                q >= 0,
        ;
    }
}

// ---------------------------------------------------------------------------
// Users and repositories.
// ---------------------------------------------------------------------------
/// A GitHub account with its avatar link.
#[derive(Debug, Clone)]
pub struct GithubMeta {
    pub login: String,
    pub name: Option<String>,
    pub image: String,
}

/// The avatar link of a login.
pub open spec fn avatar_of(login: Seq<char>) -> Seq<char> {
    "https://github.com/"@ + login + ".png"@
}

impl GithubMeta {
    pub fn new(login: String, name: Option<String>) -> (res: Self)
        ensures
            res.login == login,
            res.name == name,
            res.image@ == avatar_of(login@),
    {
        let mut image = String::new();
        push_str(&mut image, "https://github.com/");
        push_str(&mut image, login.as_str());
        push_str(&mut image, ".png");
        assert(image@ =~= avatar_of(login@));
        GithubMeta { login, name, image }
    }
}

/// A repository on the repository leaderboard.
#[derive(Debug, Clone)]
pub struct RepoResponse {
    pub name: String,
    pub organization: GithubMeta,
    pub repo_language: Option<String>,
    pub stars: u32,
    pub forks: u32,
    pub open_issues: u32,
    pub contributor_of_the_month: Option<GithubMeta>,
    pub contributions_with_sloth: u32,
    pub total_score: u32,
    pub total_rating: u32,
}

/// A missing count as zero.
pub open spec fn or_zero_i32(v: Option<i32>) -> i32 {
    match v {
        Some(x) => x,
        None => 0,
    }
}

/// A missing count as zero.
pub open spec fn or_zero_i64(v: Option<i64>) -> i64 {
    match v {
        Some(x) => x,
        None => 0,
    }
}

impl RepoResponse {
    /// The leaderboard entry of a repository row; missing counts are zero.
    pub fn from_record(record: RepoLeaderboardRecord) -> (res: Self)
        ensures
            res.name == record.name,
            res.organization.login == record.organization,
            res.organization.name == record.organization_full_name,
            res.organization.image@ == avatar_of(record.organization@),
            res.repo_language == record.primary_language,
            res.stars == or_zero_i32(record.stars) as u32,
            res.forks == or_zero_i32(record.forks) as u32,
            res.open_issues == or_zero_i32(record.open_issues) as u32,
            match record.contributor_login {
                Some(l) => res.contributor_of_the_month matches Some(m) && m.login == l && m.name
                    == record.contributor_full_name && m.image@ == avatar_of(l@),
                None => res.contributor_of_the_month is None,
            },
            res.contributions_with_sloth == or_zero_i64(record.total_prs) as u32,
            res.total_score == or_zero_i64(record.total_score) as u32,
            res.total_rating == or_zero_i64(record.total_rating) as u32,
    {
        let stars = match record.stars {
            Some(x) => x,
            None => 0,
        };
        let forks = match record.forks {
            Some(x) => x,
            None => 0,
        };
        let open_issues = match record.open_issues {
            Some(x) => x,
            None => 0,
        };
        let total_prs = match record.total_prs {
            Some(x) => x,
            None => 0,
        };
        let total_score = match record.total_score {
            Some(x) => x,
            None => 0,
        };
        let total_rating = match record.total_rating {
            Some(x) => x,
            None => 0,
        };
        let contributor_of_the_month = match record.contributor_login {
            Some(login) => Some(GithubMeta::new(login, record.contributor_full_name)),
            None => None,
        };
        RepoResponse {
            name: record.name,
            organization: GithubMeta::new(record.organization, record.organization_full_name),
            repo_language: record.primary_language,
            stars: stars as u32,
            forks: forks as u32,
            open_issues: open_issues as u32,
            contributor_of_the_month,
            contributions_with_sloth: total_prs as u32,
            total_score: total_score as u32,
            total_rating: total_rating as u32,
        }
    }
}

// ---------------------------------------------------------------------------
// Streak status.
// ---------------------------------------------------------------------------
/// How a user stands on a streak at a given time.
#[derive(Debug, Clone)]
pub struct Streak {
    pub name: String,
    pub streak_type: String,
    pub current: u32,
    pub longest: u32,
    pub achived: bool,
    pub start_time: UnixSeconds,
    pub end_time: UnixSeconds,
}

impl Default for Streak {
    fn default() -> (res: Self)
        ensures
            res.name@ == Seq::<char>::empty(),
            res.streak_type@ == Seq::<char>::empty(),
            res.current == 0 && res.longest == 0 && !res.achived,
            res.start_time == 0 && res.end_time == 0,
    {
        Streak {
            name: String::new(),
            streak_type: String::new(),
            current: 0,
            longest: 0,
            achived: false,
            start_time: 0,
            end_time: 0,
        }
    }
}

/// An optional boundary, the epoch if missing.
pub open spec fn or_epoch(v: Option<int>) -> int {
    match v {
        Some(x) => x,
        None => 0,
    }
}

/// The identifier of the period before the one containing `now`.
pub open spec fn previous_period_string(p: TimePeriod, now: u64) -> Seq<char> {
    p.spec_time_string(
        match p.spec_previous_period(now) {
            Some(t) => t,
            None => 0,
        },
    )
}

/// Whether `res` is how a user stands at `now` on a streak whose type names
/// the period kind, last reached in period `time_period_string`: reached if
/// that is the current period; its current length is kept only if the
/// period is the current or the previous one. A streak type that names no
/// period gives the default.
pub open spec fn streak_status(
    name: String,
    current: u32,
    longest: u32,
    time_period_string: Seq<char>,
    streak_type: String,
    now: u64,
    res: Streak,
) -> bool {
    match period_of_name(lowercase_of(streak_type@)) {
        None => {
            &&& res.name@ == Seq::<char>::empty()
            &&& res.streak_type@ == Seq::<char>::empty()
            &&& res.current == 0 && res.longest == 0 && !res.achived
            &&& res.start_time == 0 && res.end_time == 0
        },
        Some(p) => {
            let now_string = p.spec_time_string(now);
            let before = previous_period_string(p, now);
            &&& res.name == name
            &&& res.streak_type == streak_type
            &&& res.longest == longest
            &&& res.achived == (time_period_string == now_string)
            &&& res.start_time == or_epoch(p.spec_start_period(now))
            &&& res.end_time == or_epoch(p.spec_end_period(now))
            &&& res.current == if now_string != time_period_string && before
                != time_period_string {
                0
            } else {
                current
            }
        },
    }
}

impl Streak {
    /// How a user stands at `now` on a streak.
    pub fn new(
        name: String,
        current: u32,
        longest: u32,
        time_period_string: String,
        streak_type: String,
        now: Timestamp,
    ) -> (res: Self)
        ensures
            streak_status(name, current, longest, time_period_string@, streak_type, now, res),
    {
        let time_period = match TimePeriod::from_streak_type(streak_type.as_str()) {
            Some(p) => p,
            None => {
                return Streak::default();
            },
        };
        let previous_period = match time_period.previous_period(now) {
            Some(t) => t,
            None => 0,
        };
        let current_time_string = time_period.time_string(now);
        let previous_period_string = time_period.time_string(previous_period);
        let start_time = match time_period.start_period(now) {
            Some(t) => t,
            None => 0,
        };
        let end_time = match time_period.end_period(now) {
            Some(t) => t,
            None => 0,
        };
        let achived = time_period_string == current_time_string;
        let current = if !(current_time_string == time_period_string) && !(previous_period_string
            == time_period_string) {
            0
        } else {
            current
        };
        Streak { name, streak_type, current, longest, achived, start_time, end_time }
    }

    /// How a user stands at `now` on the streak of a database row.
    pub fn from_record(record: &StreakRecord, now: Timestamp) -> (res: Self)
        ensures
            streak_status(
                record.name,
                record.amount as u32,
                record.best as u32,
                record.latest_time_string@,
                record.streak_type,
                now,
                res,
            ),
    {
        Streak::new(
            record.name.clone(),
            record.amount as u32,
            record.best as u32,
            record.latest_time_string.clone(),
            record.streak_type.clone(),
            now,
        )
    }
}

/// A row of the user leaderboard.
#[derive(Debug, Clone)]
pub struct LeaderboardResponse {
    pub user: GithubMeta,
    pub rating: u32,
    pub contributions: u32,
    pub streak: Streak,
    pub merged_prs: u32,
    pub score: u32,
    pub place: u32,
}

impl LeaderboardResponse {
    /// The leaderboard entry of a database row at `now`.
    pub fn from_record(record: LeaderboardRecord, now: Timestamp) -> (res: Self)
        ensures
            res.user.login == record.login,
            res.user.name == record.full_name,
            res.user.image@ == avatar_of(record.login@),
            res.rating == record.total_rating as u32,
            res.contributions == record.prs_opened as u32,
            streak_status(
                record.streak_name,
                record.streak_amount as u32,
                record.streak_best as u32,
                record.streak_latest_time_string@,
                record.streak_type,
                now,
                res.streak,
            ),
            res.merged_prs == record.prs_merged as u32,
            res.score == record.total_score as u32,
            res.place == record.place as u32,
    {
        let ghost latest = record.streak_latest_time_string@;
        let streak = Streak::new(
            record.streak_name,
            record.streak_amount as u32,
            record.streak_best as u32,
            record.streak_latest_time_string,
            record.streak_type,
            now,
        );
        LeaderboardResponse {
            user: GithubMeta::new(record.login, record.full_name),
            rating: record.total_rating as u32,
            contributions: record.prs_opened as u32,
            streak,
            merged_prs: record.prs_merged as u32,
            score: record.total_score as u32,
            place: record.place as u32,
        }
    }
}

/// A user's profile.
#[derive(Debug, Clone)]
pub struct UserProfile {
    pub user_id: u32,
    pub user: GithubMeta,
    pub rating: u32,
    pub contributions: u32,
    pub lifetime_bonus: u32,
    pub leaderboard_places: Vec<(String, u32)>,
    pub streaks: Vec<Streak>,
    pub first_contribution: UtcNanos,
}

impl UserProfile {
    /// The profile of a user's database record at `now`: contributions and
    /// rating over all time (zero without such a row), and the status of
    /// every streak.
    pub fn from_record(record: UserRecord, now: Timestamp) -> (res: Self)
        ensures
            res.user_id == record.id as u32,
            res.user.login == record.login,
            res.user.name == record.name,
            res.user.image@ == avatar_of(record.login@),
            match first_index(record.period_data@, period_row("all-time"@)) {
                Some(i) => res.contributions == record.period_data@[i].prs_opened as u32
                    && res.rating == record.period_data@[i].total_rating as u32,
                None => res.contributions == 0 && res.rating == 0,
            },
            res.lifetime_bonus == record.lifetime_percent as u32,
            res.leaderboard_places == record.leaderboard_places,
            res.streaks@.len() == record.streaks@.len(),
            forall|i: int|
                0 <= i < record.streaks@.len() ==> streak_status(
                    record.streaks@[i].name,
                    record.streaks@[i].amount as u32,
                    record.streaks@[i].best as u32,
                    record.streaks@[i].latest_time_string@,
                    record.streaks@[i].streak_type,
                    now,
                    #[trigger] res.streaks@[i],
                ),
            res.first_contribution == record.first_contribution,
    {
        let (contributions, rating) = match record.get_total_period() {
            Some(x) => (x.prs_opened, x.total_rating),
            None => (0, 0),
        };
        let mut streaks: Vec<Streak> = Vec::new();
        let mut i: usize = 0;
        while i < record.streaks.len()
            invariant
                i <= record.streaks@.len(),
                streaks@.len() == i,
                forall|j: int|
                    0 <= j < i ==> streak_status(
                        record.streaks@[j].name,
                        record.streaks@[j].amount as u32,
                        record.streaks@[j].best as u32,
                        record.streaks@[j].latest_time_string@,
                        record.streaks@[j].streak_type,
                        now,
                        #[trigger] streaks@[j],
                    ),
            decreases record.streaks@.len() - i,
        {
            let s = Streak::from_record(&record.streaks[i], now);
            streaks.push(s);
            i = i + 1;
        }
        UserProfile {
            user_id: record.id as u32,
            user: GithubMeta::new(record.login, record.name),
            rating: rating as u32,
            contributions: contributions as u32,
            lifetime_bonus: record.lifetime_percent as u32,
            streaks,
            leaderboard_places: record.leaderboard_places,
            first_contribution: record.first_contribution,
        }
    }
}

// ---------------------------------------------------------------------------
// Contributions.
// ---------------------------------------------------------------------------
/// One of a user's pull requests, as shown.
#[derive(Debug, Clone)]
pub struct UserContributionResponse {
    pub pull_request_link: String,
    pub repository: String,
    pub organization: GithubMeta,
    pub status: String,
    pub score: Option<i32>,
    pub total_rating: i32,
    pub percentage_multiplier: i32,
    pub streak_bonus_rating: i32,
    pub created_at: UtcNanos,
    pub merged_at: Option<UtcNanos>,
}

/// Where a pull request stands: finished once executed, else waiting for
/// the score, then the merge, then the execution.
pub open spec fn contribution_status(r: UserContributionRecord) -> Seq<char> {
    if r.executed {
        "Finished"@
    } else if r.score is None {
        "Waiting for score"@
    } else if r.merged_at is None {
        "Waiting for merge"@
    } else {
        "Waiting for execution"@
    }
}

/// The decimal rendering of a signed number.
pub open spec fn signed_decimal(n: int) -> Seq<char> {
    if n < 0 {
        seq!['-'] + decimal((-n) as nat)
    } else {
        decimal(n as nat)
    }
}

/// The link to a pull request.
pub open spec fn pull_link(org: Seq<char>, repo: Seq<char>, number: int) -> Seq<char> {
    "https://github.com/"@ + org + "/"@ + repo + "/pull/"@ + signed_decimal(number)
}

/// Appends a signed number in decimal.
pub fn push_signed(s: &mut String, n: i64)
    ensures
        final(s)@ == old(s)@ + signed_decimal(n as int),
{
    if n < 0 {
        crate::text::push_char(s, '-');
        let magnitude: u64 = if n == i64::MIN {
            9223372036854775808u64
        } else {
            (-n) as u64
        };
        push_decimal(s, magnitude);
        assert(s@ =~= old(s)@ + signed_decimal(n as int));
    } else {
        push_decimal(s, n as u64);
    }
}

/// Where a pull request stands.
pub fn contribution_status_text(record: &UserContributionRecord) -> (res: String)
    ensures
        res@ == contribution_status(*record),
{
    let mut status = String::new();
    if record.executed {
        push_str(&mut status, "Finished");
    } else if record.score.is_none() {
        push_str(&mut status, "Waiting for score");
    } else if record.merged_at.is_none() {
        push_str(&mut status, "Waiting for merge");
    } else {
        push_str(&mut status, "Waiting for execution");
    }
    assert(status@ =~= contribution_status(*record));
    status
}

impl UserContributionResponse {
    /// How a user's pull request is shown.
    pub fn from_record(record: UserContributionRecord) -> (res: Self)
        ensures
            res.pull_request_link@ == pull_link(
                record.organization_login@,
                record.repo@,
                record.number as int,
            ),
            res.repository == record.repo,
            res.organization.login == record.organization_login,
            res.organization.name == record.organization_full_name,
            res.organization.image@ == avatar_of(record.organization_login@),
            res.status@ == contribution_status(record),
            res.score == record.score,
            res.total_rating == record.rating,
            res.percentage_multiplier == record.percentage_multiplier,
            res.streak_bonus_rating == record.streak_bonus_rating,
            res.created_at == record.created_at,
            res.merged_at == record.merged_at,
    {
        let mut link = String::new();
        push_str(&mut link, "https://github.com/");
        push_str(&mut link, record.organization_login.as_str());
        push_str(&mut link, "/");
        push_str(&mut link, record.repo.as_str());
        push_str(&mut link, "/pull/");
        push_signed(&mut link, record.number as i64);
        assert(link@ =~= pull_link(record.organization_login@, record.repo@, record.number as int));
        let status = contribution_status_text(&record);
        UserContributionResponse {
            pull_request_link: link,
            repository: record.repo,
            organization: GithubMeta::new(record.organization_login, record.organization_full_name),
            status,
            score: record.score,
            created_at: record.created_at,
            merged_at: record.merged_at,
            total_rating: record.rating,
            percentage_multiplier: record.percentage_multiplier,
            streak_bonus_rating: record.streak_bonus_rating,
        }
    }
}

// ---------------------------------------------------------------------------
// Badges.
// ---------------------------------------------------------------------------
/// The HTTP status of a successful response.
pub const STATUS_OK: u16 = 200;

/// The content type of an SVG badge.
pub open spec fn badge_content_svg() -> Seq<char> {
    "image/svg+xml"@
}

/// The content type of a PNG badge.
pub open spec fn badge_content_png() -> Seq<char> {
    "image/png"@
}

/// Headers that keep a badge from being cached.
pub fn no_cache_headers() -> (res: [(&'static str, &'static str); 2])
    ensures
        res[0].0@ == "Cache-Control"@ && res[0].1@ == "no-cache"@,
        res[1].0@ == "Pragma"@ && res[1].1@ == "no-cache"@,
{
    [("Cache-Control", "no-cache"), ("Pragma", "no-cache")]
}

/// A badge image, or the status to answer with when there is none.
#[derive(Debug, Clone)]
pub struct Badge {
    pub svg: Option<String>,
    pub png: Option<Vec<u8>>,
    pub status: u16,
}

impl Badge {
    /// An SVG badge.
    pub fn new(svg: String) -> (res: Self)
        ensures
            res.svg == Some(svg),
            res.png is None,
            res.status == STATUS_OK,
    {
        Badge::new_svg(svg)
    }

    /// An SVG badge.
    pub fn new_svg(svg: String) -> (res: Self)
        ensures
            res.svg == Some(svg),
            res.png is None,
            res.status == STATUS_OK,
    {
        Badge { svg: Some(svg), png: None, status: STATUS_OK }
    }

    /// A PNG badge.
    pub fn new_ong(png: Vec<u8>) -> (res: Self)
        ensures
            res.svg is None,
            res.png == Some(png),
            res.status == STATUS_OK,
    {
        Badge { svg: None, png: Some(png), status: STATUS_OK }
    }

    /// The content type a badge is served with: SVG when it has an SVG
    /// text, else PNG when it has a picture; none when it is answered with
    /// its status alone.
    pub fn content_type(&self) -> (res: Option<&'static str>)
        ensures
            match res {
                Some(t) => (self.svg is Some && t@ == badge_content_svg()) || (self.svg is None
                    && self.png is Some && t@ == badge_content_png()),
                None => self.svg is None && self.png is None,
            },
    {
        match (&self.svg, &self.png) {
            (Some(_), _) => Some("image/svg+xml"),
            (None, Some(_)) => Some("image/png"),
            (None, None) => None,
        }
    }

    /// The status a badge is answered with: success when it holds a badge,
    /// else its own status.
    pub fn response_status(&self) -> (res: u16)
        ensures
            res == (if self.svg is Some || self.png is Some {
                STATUS_OK
            } else {
                self.status
            }),
    {
        if self.svg.is_some() || self.png.is_some() {
            STATUS_OK
        } else {
            self.status
        }
    }

    /// No badge; the request is answered with `status`.
    pub fn with_status(status: u16) -> (res: Self)
        ensures
            res.svg is None,
            res.png is None,
            res.status == status,
    {
        Badge { status, svg: None, png: None }
    }
}

/// The colour theme of a badge.
#[derive(Debug, Clone, Copy, PartialEq, Eq, Structural)]
pub enum Mode {
    Dark,
    Light,
}

/// The file of a badge template for a theme: `<base>_dark.svg` or
/// `<base>_white.svg`.
pub open spec fn template_file(base: Seq<char>, mode: Mode) -> Seq<char> {
    base + "_"@ + (match mode {
        Mode::Dark => "dark"@,
        Mode::Light => "white"@,
    }) + ".svg"@
}

/// The file of a badge template for a theme.
pub fn template_path(base: &str, mode: Mode) -> (res: String)
    ensures
        res@ == template_file(base@, mode),
{
    let mut s = String::new();
    push_str(&mut s, base);
    push_str(&mut s, "_");
    match mode {
        Mode::Dark => push_str(&mut s, "dark"),
        Mode::Light => push_str(&mut s, "white"),
    }
    push_str(&mut s, ".svg");
    assert(s@ =~= template_file(base@, mode));
    s
}

/// The rank shown on a badge for a lifetime bonus: `Rust` from 25 percent,
/// `Platinum` from 20, `Gold` from 15, `Silver` from 10, `Bronze` from 5;
/// below that, the sloth's age in days. Gives the rank text, the name of the
/// rank's image file, and the title.
pub open spec fn rank_of(lifetime_percent: i32, age_days: i64) -> (Seq<char>, Seq<char>, Seq<char>) {
    if lifetime_percent >= 25 {
        ("Rust"@, "rust.svg"@, "Rank"@)
    } else if lifetime_percent >= 20 {
        ("Platinum"@, "platinum.svg"@, "Rank"@)
    } else if lifetime_percent >= 15 {
        ("Gold"@, "gold.svg"@, "Rank"@)
    } else if lifetime_percent >= 10 {
        ("Silver"@, "silver.svg"@, "Rank"@)
    } else if lifetime_percent >= 5 {
        ("Bronze"@, "bronze.svg"@, "Rank"@)
    } else {
        (
            signed_decimal(age_days as int) + " "@ + (if age_days > 1 {
                "days"@
            } else {
                "day"@
            }),
            "unranked.svg"@,
            "Sloth age"@,
        )
    }
}

fn literal(s: &str) -> (res: String)
    ensures
        res@ == s@,
{
    let mut r = String::new();
    push_str(&mut r, s);
    assert(r@ =~= s@);
    r
}

/// The rank of a user with the given lifetime bonus whose first contribution
/// was `age_days` days ago (counting the day itself).
pub fn rank_data(lifetime_percent: i32, age_days: i64) -> (res: (String, String, String))
    ensures
        (res.0@, res.1@, res.2@) == rank_of(lifetime_percent, age_days),
{
    if lifetime_percent >= 25 {
        (literal("Rust"), literal("rust.svg"), literal("Rank"))
    } else if lifetime_percent >= 20 {
        (literal("Platinum"), literal("platinum.svg"), literal("Rank"))
    } else if lifetime_percent >= 15 {
        (literal("Gold"), literal("gold.svg"), literal("Rank"))
    } else if lifetime_percent >= 10 {
        (literal("Silver"), literal("silver.svg"), literal("Rank"))
    } else if lifetime_percent >= 5 {
        (literal("Bronze"), literal("bronze.svg"), literal("Rank"))
    } else {
        let mut rank = String::new();
        push_signed(&mut rank, age_days);
        push_str(&mut rank, " ");
        if age_days > 1 {
            push_str(&mut rank, "days");
        } else {
            push_str(&mut rank, "day");
        }
        assert(rank@ =~= rank_of(lifetime_percent, age_days).0);
        (rank, literal("unranked.svg"), literal("Sloth age"))
    }
}

/// The standing of a rank: 0 for none (an unranked sloth), then `Bronze`,
/// `Silver`, `Gold`, `Platinum` and `Rust` from 1 to 5.
pub open spec fn rank_level(rank: (Seq<char>, Seq<char>, Seq<char>)) -> int {
    if rank.2 != "Rank"@ {
        0
    } else if rank.0 == "Bronze"@ {
        1
    } else if rank.0 == "Silver"@ {
        2
    } else if rank.0 == "Gold"@ {
        3
    } else if rank.0 == "Platinum"@ {
        4
    } else if rank.0 == "Rust"@ {
        5
    } else {
        0
    }
}

/// The rank shown for each band of lifetime bonus, each with its image:
/// 25 percent and more is `Rust`, 20 to 24 `Platinum`, 15 to 19 `Gold`,
/// 10 to 14 `Silver`, 5 to 9 `Bronze`, and below 5 no rank at all but the
/// sloth's age.
pub proof fn law_rank_bands(lifetime_percent: i32, age_days: i64)
    ensures
        lifetime_percent >= 25 ==> rank_of(lifetime_percent, age_days) == (
            "Rust"@,
            "rust.svg"@,
            "Rank"@,
        ),
        20 <= lifetime_percent < 25 ==> rank_of(lifetime_percent, age_days) == (
            "Platinum"@,
            "platinum.svg"@,
            "Rank"@,
        ),
        15 <= lifetime_percent < 20 ==> rank_of(lifetime_percent, age_days) == (
            "Gold"@,
            "gold.svg"@,
            "Rank"@,
        ),
        10 <= lifetime_percent < 15 ==> rank_of(lifetime_percent, age_days) == (
            "Silver"@,
            "silver.svg"@,
            "Rank"@,
        ),
        5 <= lifetime_percent < 10 ==> rank_of(lifetime_percent, age_days) == (
            "Bronze"@,
            "bronze.svg"@,
            "Rank"@,
        ),
        lifetime_percent < 5 ==> rank_of(lifetime_percent, age_days).1 == "unranked.svg"@
            && rank_of(lifetime_percent, age_days).2 == "Sloth age"@,
{
}

/// A larger lifetime bonus never gets a lower rank, along
/// none < `Bronze` < `Silver` < `Gold` < `Platinum` < `Rust`, whatever the
/// sloths' ages.
pub proof fn law_rank_monotone(p1: i32, p2: i32, age1: i64, age2: i64)
    requires
        p1 <= p2,
    ensures
        rank_level(rank_of(p1, age1)) <= rank_level(rank_of(p2, age2)),
{
    reveal_strlit("Rank");
    reveal_strlit("Sloth age");
    reveal_strlit("Bronze");
    reveal_strlit("Silver");
    reveal_strlit("Gold");
    reveal_strlit("Platinum");
    reveal_strlit("Rust");
    assert("Rank"@.len() == 4 && "Sloth age"@.len() == 9);
    assert("Bronze"@[0] == 'B' && "Silver"@[0] == 'S' && "Gold"@[0] == 'G');
    assert("Platinum"@[0] == 'P' && "Rust"@[0] == 'R');
    assert("Bronze"@.len() == 6 && "Silver"@.len() == 6 && "Gold"@.len() == 4);
    assert("Platinum"@.len() == 8 && "Rust"@.len() == 4);
}

// ---------------------------------------------------------------------------
// Server settings.
// ---------------------------------------------------------------------------
/// The server's settings, read from the environment.
#[derive(Debug, Clone)]
pub struct Env {
    pub contract: String,
    pub rpc_addr: Option<String>,
    pub secret_key: String,
    pub is_mainnet: bool,
    pub near_timeout_in_seconds: Option<u64>,
    pub github_timeout_in_minutes: Option<u32>,
    pub github_token: String,
    pub telegram_token: String,
    pub telegram_chat_id: String,
    pub font: String,
}

impl Env {
    /// Seconds between contract reads: 20 unless set.
    pub fn near_sleep_seconds(&self) -> (res: u64)
        ensures
            res == match self.near_timeout_in_seconds {
                Some(s) => s,
                None => 20,
            },
    {
        match self.near_timeout_in_seconds {
            Some(s) => s,
            None => 20,
        }
    }

    /// Seconds between GitHub reads: an hour unless set in minutes.
    pub fn github_sleep_seconds(&self) -> (res: u64)
        ensures
            res == match self.github_timeout_in_minutes {
                Some(m) => m * 60,
                None => 3600,
            },
    {
        let minutes: u32 = match self.github_timeout_in_minutes {
            Some(m) => m,
            None => 60,
        };
        minutes as u64 * 60
    }
}

/// Statistics alternate: every fourth run covers the last 30 days
/// ("Monthly"), the others the last 7 ("Weekly").
pub fn stats_period(count: u64) -> (res: (&'static str, i64))
    ensures
        count % 4 == 0 ==> res.0@ == "Monthly"@ && res.1 == 30,
        count % 4 != 0 ==> res.0@ == "Weekly"@ && res.1 == 7,
{
    if count % 4 == 0 {
        ("Monthly", 30)
    } else {
        ("Weekly", 7)
    }
}

} // verus!
