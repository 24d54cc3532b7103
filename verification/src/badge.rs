//! The text of a user's badge: a template whose `{placeholder}` marks are
//! replaced by what the user has achieved.
use vstd::prelude::*;

use crate::messages::determine_image_type;
use crate::records::{StreakRecord, UserCachedMetadata, UserContributionRecord, UserRecord, period_row};
use crate::responses::{Badge, STATUS_OK, contribution_status, contribution_status_text, rank_data, rank_of, signed_decimal, push_signed, template_path, template_file, Mode, Streak};
use crate::seqs::{first_index, first_index_from, lemma_first_index_from};
use crate::pr::pr_id_of;
use crate::text::digit_char;
use crate::commands::{all_digits, digits_value, is_digit};
use crate::text::{chars_of, decimal, lowercase_of, push_char, push_chars, push_decimal, push_padded, push_str, zero_padded};
use crate::timeperiod::{period_of_name, TimePeriod, Timestamp};

verus! {

// ---------------------------------------------------------------------------
// Replacing placeholders.
// ---------------------------------------------------------------------------
/// `s` with each occurrence of `pat` replaced by `with`, occurrences taken
/// from the left and not overlapping (what `str::replace` gives for a
/// non-empty pattern).
pub open spec fn replaced(s: Seq<char>, pat: Seq<char>, with: Seq<char>) -> Seq<char>
    decreases s.len(),
{
    if pat.len() == 0 || s.len() < pat.len() {
        s
    } else if s.take(pat.len() as int) == pat {
        with + replaced(s.skip(pat.len() as int), pat, with)
    } else {
        seq![s[0]] + replaced(s.skip(1), pat, with)
    }
}

/// `s` after the replacements of `pairs`, made one after the other, each on
/// the result of the ones before.
pub open spec fn replaced_each(s: Seq<char>, pairs: Seq<(Seq<char>, Seq<char>)>) -> Seq<char>
    decreases pairs.len(),
{
    if pairs.len() == 0 {
        s
    } else {
        replaced_each(replaced(s, pairs[0].0, pairs[0].1), pairs.skip(1))
    }
}

/// The characters of a list of replacements.
pub open spec fn pairs_view(pairs: Seq<(String, String)>) -> Seq<(Seq<char>, Seq<char>)> {
    pairs.map_values(|p: (String, String)| (p.0@, p.1@))
}

/// Whether `pat` stands in `hay` at `i`.
fn matches_at(hay: &Vec<char>, pat: &Vec<char>, i: usize) -> (res: bool)
    requires
        i <= hay.len(),
    ensures
        res == (i + pat.len() <= hay.len() && hay@.subrange(i as int, i + pat.len()) == pat@),
{
    if pat.len() > hay.len() - i {
        return false;
    }
    let mut k: usize = 0;
    while k < pat.len()
        invariant
            i + pat.len() <= hay.len(),
            k <= pat.len(),
            forall|j: int| 0 <= j < k ==> hay@[i + j] == pat@[j],
        decreases pat.len() - k,
    {
        if hay[i + k] != pat[k] {
            assert(hay@.subrange(i as int, i + pat.len())[k as int] != pat@[k as int]);
            return false;
        }
        k = k + 1;
    }
    assert(hay@.subrange(i as int, i + pat.len()) =~= pat@);
    true
}

/// `s` with each occurrence of `pat` replaced by `with`; an empty pattern
/// leaves `s` as it is.
#[verifier::spinoff_prover]
pub fn replace_all(s: &str, pat: &str, with: &str) -> (res: String)
    ensures
        res@ == replaced(s@, pat@, with@),
{
    let hay = chars_of(s);
    let p = chars_of(pat);
    let w = chars_of(with);
    let mut out = String::new();
    if p.len() == 0 {
        push_chars(&mut out, &hay);
        assert(out@ =~= s@);
        return out;
    }
    let mut i: usize = 0;
    assert(hay@.skip(0) =~= hay@);
    assert(out@ + replaced(hay@, p@, w@) =~= replaced(hay@, p@, w@));
    while i < hay.len()
        invariant
            hay@ == s@,
            p@ == pat@,
            w@ == with@,
            p@.len() > 0,
            i <= hay.len(),
            out@ + replaced(hay@.skip(i as int), p@, w@) == replaced(s@, pat@, with@),
        decreases hay.len() - i,
    {
        let ghost rest = hay@.skip(i as int);
        if matches_at(&hay, &p, i) {
            assert(rest.take(p@.len() as int) =~= hay@.subrange(i as int, i + p@.len()));
            assert(rest.skip(p@.len() as int) =~= hay@.skip(i + p@.len()));
            push_chars(&mut out, &w);
            i = i + p.len();
            assert(out@ + replaced(hay@.skip(i as int), p@, w@) =~= replaced(s@, pat@, with@));
        } else {
            assert(rest.skip(1) =~= hay@.skip(i + 1));
            proof {
                if rest.len() >= p@.len() {
                    assert(rest.take(p@.len() as int) =~= hay@.subrange(i as int, i + p@.len()));
                } else {
                    assert(seq![rest[0]] + rest.skip(1) =~= rest);
                }
            }
            push_char(&mut out, hay[i]);
            i = i + 1;
            assert(out@ + replaced(hay@.skip(i as int), p@, w@) =~= replaced(s@, pat@, with@));
        }
    }
    assert(hay@.skip(i as int) =~= Seq::<char>::empty());
    assert(out@ =~= replaced(s@, pat@, with@));
    out
}

/// `s` after the replacements of `pairs`, each on the result of the ones
/// before.
pub fn replace_each(s: &str, pairs: &Vec<(String, String)>) -> (res: String)
    ensures
        res@ == replaced_each(s@, pairs_view(pairs@)),
{
    let ghost all = pairs_view(pairs@);
    let mut cur = chars_of_str_string(s);
    let mut i: usize = 0;
    assert(all.skip(0) =~= all);
    while i < pairs.len()
        invariant
            all == pairs_view(pairs@),
            i <= pairs.len(),
            replaced_each(cur@, all.skip(i as int)) == replaced_each(s@, all),
        decreases pairs.len() - i,
    {
        let ghost before = cur@;
        assert(all.skip(i as int).skip(1) =~= all.skip(i + 1));
        assert(all.skip(i as int)[0] == (pairs@[i as int].0@, pairs@[i as int].1@));
        cur = replace_all(cur.as_str(), pairs[i].0.as_str(), pairs[i].1.as_str());
        i = i + 1;
    }
    assert(all.skip(i as int) =~= Seq::<(Seq<char>, Seq<char>)>::empty());
    cur
}

fn chars_of_str_string(s: &str) -> (res: String)
    ensures
        res@ == s@,
{
    let mut r = String::new();
    push_str(&mut r, s);
    assert(r@ =~= s@);
    r
}

// ---------------------------------------------------------------------------
// Numbers with thousands separators.
// ---------------------------------------------------------------------------
/// `n` in decimal with a comma between groups of three digits, counted from
/// the right (`1,234,567`).
pub open spec fn grouped(n: nat) -> Seq<char>
    decreases n,
{
    if n < 1000 {
        decimal(n)
    } else {
        grouped(n / 1000) + seq![','] + zero_padded(n % 1000, 3)
    }
}

/// A signed number with thousands separators (`-1,234`).
pub open spec fn grouped_signed(n: int) -> Seq<char> {
    if n < 0 {
        seq!['-'] + grouped((-n) as nat)
    } else {
        grouped(n as nat)
    }
}

fn push_grouped(s: &mut String, n: u64)
    ensures
        final(s)@ == old(s)@ + grouped(n as nat),
    decreases n,
{
    if n < 1000 {
        push_decimal(s, n);
    } else {
        push_grouped(s, n / 1000);
        push_char(s, ',');
        push_padded(s, n % 1000, 3);
        assert(s@ =~= old(s)@ + grouped(n as nat));
    }
}

/// `n` with thousands separators, as numbers are written in English.
pub fn grouped_string(n: i64) -> (res: String)
    ensures
        res@ == grouped_signed(n as int),
{
    let mut s = String::new();
    if n < 0 {
        push_char(&mut s, '-');
        let magnitude: u64 = if n == i64::MIN {
            9223372036854775808u64
        } else {
            (-n) as u64
        };
        push_grouped(&mut s, magnitude);
    } else {
        push_grouped(&mut s, n as u64);
    }
    assert(s@ =~= grouped_signed(n as int));
    s
}

// ---------------------------------------------------------------------------
// What a badge shows.
// ---------------------------------------------------------------------------
/// A number written with at least `width` characters, zeros put after the
/// sign (what `{:0width$}` prints).
pub open spec fn signed_padded(n: int, width: nat) -> Seq<char> {
    if n < 0 {
        seq!['-'] + zero_padded((-n) as nat, (width - 1) as nat)
    } else {
        zero_padded(n as nat, width)
    }
}

/// The name of a sloth on a badge: `Newcomer` for a user without a row of
/// their own (the largest identifier), else `Sloth#` and the number.
pub open spec fn sloth_id_text(id: i32) -> Seq<char> {
    if id == i32::MAX {
        "Newcomer"@
    } else {
        "Sloth#"@ + signed_padded(id as int, 4)
    }
}

/// The name of a sloth on a badge.
pub fn sloth_id(id: i32) -> (res: String)
    ensures
        res@ == sloth_id_text(id),
{
    let mut s = String::new();
    if id == i32::MAX {
        push_str(&mut s, "Newcomer");
    } else {
        push_str(&mut s, "Sloth#");
        if id < 0 {
            push_char(&mut s, '-');
            let magnitude: u64 = (-(id as i64)) as u64;
            push_padded(&mut s, magnitude, 3);
        } else {
            push_padded(&mut s, id as u64, 4);
        }
    }
    proof {
        reveal_strlit("Newcomer");
        reveal_strlit("Sloth#");
    }
    assert(s@ =~= sloth_id_text(id));
    s
}

/// Whether `i` is the first of the places with the smallest number.
pub open spec fn is_first_min(places: Seq<(String, u32)>, i: int) -> bool {
    &&& 0 <= i < places.len()
    &&& forall|j: int| 0 <= j < places.len() ==> places[i].1 <= (#[trigger] places[j]).1
    &&& forall|j: int| 0 <= j < i ==> places[i].1 < (#[trigger] places[j]).1
}

/// Only one place is the first with the smallest number.
pub proof fn lemma_first_min_unique(places: Seq<(String, u32)>, i: int)
    requires
        is_first_min(places, i),
    ensures
        forall|j: int| #[trigger] is_first_min(places, j) ==> j == i,
{
    assert forall|j: int| #[trigger] is_first_min(places, j) implies j == i by {
        if j < i {
            assert(places[i].1 < places[j].1);
            assert(places[j].1 <= places[i].1);
        } else if i < j {
            assert(places[j].1 < places[i].1);
            assert(places[i].1 <= places[j].1);
        }
    }
}

/// The best place of a user, on the first leaderboard where it is best:
/// the kind of that leaderboard and the place; `Global` and `N/A` when the
/// user is on none.
pub open spec fn place_of(places: Seq<(String, u32)>) -> (Seq<char>, Seq<char>) {
    if places.len() == 0 {
        ("Global"@, "N/A"@)
    } else {
        let i = choose|i: int| is_first_min(places, i);
        (place_kind(places[i].0@), decimal(places[i].1 as nat))
    }
}

/// The kind of leaderboard a place is on: `Global` for the all-time one,
/// else `Monthly`.
pub open spec fn place_kind(period: Seq<char>) -> Seq<char> {
    if period == "all-time"@ {
        "Global"@
    } else {
        "Monthly"@
    }
}

/// The best place of a user, on the first leaderboard where it is best:
/// the kind of that leaderboard and the place; `Global` and `N/A` when the
/// user is on none.
pub fn best_place(places: &Vec<(String, u32)>) -> (res: (String, String))
    ensures
        (res.0@, res.1@) == place_of(places@),
{
    if places.len() == 0 {
        let mut kind = String::new();
        push_str(&mut kind, "Global");
        let mut place = String::new();
        push_str(&mut place, "N/A");
        proof {
            reveal_strlit("Global");
            reveal_strlit("N/A");
        }
        assert(kind@ =~= "Global"@);
        assert(place@ =~= "N/A"@);
        return (kind, place);
    }
    let mut b: usize = 0;
    let mut i: usize = 1;
    while i < places.len()
        invariant
            0 <= b < i <= places.len(),
            forall|j: int| 0 <= j < i ==> places@[b as int].1 <= (#[trigger] places@[j]).1,
            forall|j: int| 0 <= j < b ==> places@[b as int].1 < (#[trigger] places@[j]).1,
        decreases places.len() - i,
    {
        if places[i].1 < places[b].1 {
            b = i;
        }
        i = i + 1;
    }
    assert(is_first_min(places@, b as int));
    proof {
        lemma_first_min_unique(places@, b as int);
    }
    let all_time = TimePeriod::AllTime.time_string(0);
    let mut kind = String::new();
    if places[b].0 == all_time {
        push_str(&mut kind, "Global");
    } else {
        push_str(&mut kind, "Monthly");
    }
    let mut place = String::new();
    push_decimal(&mut place, places[b].1 as u64);
    (kind, place)
}

/// Which template a badge is drawn on.
#[derive(Debug, Clone, Copy, PartialEq, Eq, Structural)]
pub enum BadgeTemplate {
    /// The bot's badge on a user without a pull request.
    Bot,
    /// The bot's badge on a pull request.
    BotWithPr,
    /// The badge a user shares.
    Share,
}

/// Why no badge can be drawn.
#[derive(Debug, Clone, Copy, PartialEq, Eq, Structural)]
pub enum BadgeError {
    /// A pull request was given without the user's avatar.
    PrInfoWithoutMetadata,
}

/// The template of a badge: with the user's avatar, the bot's badge, on a
/// pull request when one is given; without it, the shared badge; a pull
/// request without the avatar is refused.
pub open spec fn template_choice(has_contribution: bool, has_metadata: bool) -> Result<
    BadgeTemplate,
    BadgeError,
> {
    if has_metadata {
        if has_contribution {
            Ok(BadgeTemplate::BotWithPr)
        } else {
            Ok(BadgeTemplate::Bot)
        }
    } else if has_contribution {
        Err(BadgeError::PrInfoWithoutMetadata)
    } else {
        Ok(BadgeTemplate::Share)
    }
}

/// The template of a badge.
pub fn badge_template(has_contribution: bool, has_metadata: bool) -> (res: Result<
    BadgeTemplate,
    BadgeError,
>)
    ensures
        res == template_choice(has_contribution, has_metadata),
{
    match (has_contribution, has_metadata) {
        (false, true) => Ok(BadgeTemplate::Bot),
        (true, true) => Ok(BadgeTemplate::BotWithPr),
        (false, false) => Ok(BadgeTemplate::Share),
        (true, false) => Err(BadgeError::PrInfoWithoutMetadata),
    }
}

/// Where the files of a template start, before the theme's suffix.
pub open spec fn template_base_of(t: BadgeTemplate) -> Seq<char> {
    match t {
        BadgeTemplate::Bot => "./public/templates/badge_bot_template"@,
        BadgeTemplate::BotWithPr => "./public/templates/badge_bot_with_pr_info"@,
        BadgeTemplate::Share => "./public/templates/badge_share_template"@,
    }
}

/// Where the files of a template start, before the theme's suffix.
pub fn template_base(t: BadgeTemplate) -> (res: &'static str)
    ensures
        res@ == template_base_of(t),
{
    match t {
        BadgeTemplate::Bot => "./public/templates/badge_bot_template",
        BadgeTemplate::BotWithPr => "./public/templates/badge_bot_with_pr_info",
        BadgeTemplate::Share => "./public/templates/badge_share_template",
    }
}

/// What a badge says of the weekly and monthly streaks.
pub open spec fn challenge_subtitle_of(week: bool, month: bool) -> Seq<char> {
    if week && month {
        "Great job! Relax and take your time.. Or keep running!"@
    } else if week {
        "Weekly completed! Monthly is still missing, just do it!"@
    } else if month {
        "Monthly completed! Weekly is still missing, just do it"@
    } else {
        "Not completed yet\u{2026} You can do it!"@
    }
}

/// What a badge says of the weekly and monthly streaks.
pub fn challenge_subtitle(week: bool, month: bool) -> (res: &'static str)
    ensures
        res@ == challenge_subtitle_of(week, month),
{
    if week && month {
        "Great job! Relax and take your time.. Or keep running!"
    } else if week {
        "Weekly completed! Monthly is still missing, just do it!"
    } else if month {
        "Monthly completed! Weekly is still missing, just do it"
    } else {
        "Not completed yet\u{2026} You can do it!"
    }
}

/// The image of the streaks' state: done, half done (drawn per theme) or
/// not done.
pub open spec fn challenge_icon_of(week: bool, month: bool, mode: Mode) -> Seq<char> {
    if week && month {
        "public/streaks/streak_done.svg"@
    } else if week || month {
        template_file("public/streaks/streak_part_done"@, mode)
    } else {
        "public/streaks/streak_not_done.svg"@
    }
}

/// The file of the image of the streaks' state.
pub fn challenge_icon(week: bool, month: bool, mode: Mode) -> (res: String)
    ensures
        res@ == challenge_icon_of(week, month, mode),
{
    if week && month {
        let mut s = String::new();
        push_str(&mut s, "public/streaks/streak_done.svg");
        s
    } else if week || month {
        template_path("public/streaks/streak_part_done", mode)
    } else {
        let mut s = String::new();
        push_str(&mut s, "public/streaks/streak_not_done.svg");
        s
    }
}

/// The image of a pull request's state: finalized once executed.
pub open spec fn pr_state_icon_of(executed: bool) -> Seq<char> {
    if executed {
        "public/pr_state/finalized.svg"@
    } else {
        "public/pr_state/in-progress.svg"@
    }
}

/// The file of the image of a pull request's state.
pub fn pr_state_icon(executed: bool) -> (res: &'static str)
    ensures
        res@ == pr_state_icon_of(executed),
{
    if executed {
        "public/pr_state/finalized.svg"
    } else {
        "public/pr_state/in-progress.svg"
    }
}

/// What a badge says of a pull request with the given rating.
pub open spec fn contribution_text_of(rating: i32, executed: bool) -> Seq<char> {
    if executed {
        "This is the way, sloth! You've got "@ + signed_decimal(rating as int) + " points!"@
    } else if rating > 0 {
        "Keep it up, sloth! You've got "@ + signed_decimal(rating as int) + " points!"@
    } else {
        "Stay calm and keep pushing, sloth!"@
    }
}

/// What a badge says of a pull request with the given rating.
pub fn contribution_text(rating: i32, executed: bool) -> (res: String)
    ensures
        res@ == contribution_text_of(rating, executed),
{
    let mut s = String::new();
    if executed {
        push_str(&mut s, "This is the way, sloth! You've got ");
        push_signed(&mut s, rating as i64);
        push_str(&mut s, " points!");
    } else if rating > 0 {
        push_str(&mut s, "Keep it up, sloth! You've got ");
        push_signed(&mut s, rating as i64);
        push_str(&mut s, " points!");
    } else {
        push_str(&mut s, "Stay calm and keep pushing, sloth!");
    }
    assert(s@ =~= contribution_text_of(rating, executed));
    s
}

/// `a / d` rounded toward zero, for a positive `d`.
pub open spec fn trunc_div(a: int, d: int) -> int {
    if a >= 0 {
        a / d
    } else {
        -((-a) / d)
    }
}

/// Nanoseconds in a day.
pub const NANOS_PER_DAY: u64 = 86_400_000_000_000;

/// The age of a sloth in days at `now`, counting the day of the first
/// contribution: the whole days elapsed, plus one.
pub open spec fn age_days_of(now: Timestamp, first_contribution: i64) -> int {
    trunc_div(now - first_contribution, NANOS_PER_DAY as int) + 1
}

/// The age of a sloth in days at `now`.
pub fn age_days(now: Timestamp, first_contribution: i64) -> (res: i64)
    ensures
        res == age_days_of(now, first_contribution),
{
    let n: i128 = now as i128;
    let f: i128 = first_contribution as i128;
    if n >= f {
        let m: u128 = (n - f) as u128;
        let d: u128 = m / (NANOS_PER_DAY as u128);
        assert(d <= m / 86_400_000_000_000) by (nonlinear_arith)
            requires d == m / 86_400_000_000_000;
        assert(m < 0x2_0000_0000_0000_0000);
        assert(d < 1_000_000) by (nonlinear_arith)
            requires d == m / 86_400_000_000_000, m < 0x2_0000_0000_0000_0000;
        d as i64 + 1
    } else {
        let m: u128 = (f - n) as u128;
        let d: u128 = m / (NANOS_PER_DAY as u128);
        assert(m < 0x2_0000_0000_0000_0000);
        assert(d < 1_000_000) by (nonlinear_arith)
            requires d == m / 86_400_000_000_000, m < 0x2_0000_0000_0000_0000;
        1 - d as i64
    }
}

// ---------------------------------------------------------------------------
// The numbers of a user that a badge shows.
// ---------------------------------------------------------------------------
/// Whether a streak of the given type, last reached in period `latest`, is
/// reached at `now`.
pub open spec fn streak_reached(streak_type: Seq<char>, latest: Seq<char>, now: Timestamp) -> bool {
    match period_of_name(lowercase_of(streak_type)) {
        None => false,
        Some(p) => latest == p.spec_time_string(now),
    }
}

/// The rows of a streak type.
pub open spec fn streak_row(t: Seq<char>) -> spec_fn(StreakRecord) -> bool {
    |r: StreakRecord| r.streak_type@ == t
}

/// The current length, the best length and whether it is reached at `now`
/// of the first streak of type `t`, or of an empty streak when there is none.
pub open spec fn streak_numbers_of(streaks: Seq<StreakRecord>, t: Seq<char>, now: Timestamp) -> (
    int,
    int,
    bool,
) {
    match first_index(streaks, streak_row(t)) {
        Some(i) => (
            streaks[i].amount as int,
            streaks[i].best as int,
            streak_reached(streaks[i].streak_type@, streaks[i].latest_time_string@, now),
        ),
        None => (0, 0, streak_reached(Seq::empty(), Seq::empty(), now)),
    }
}

/// The current length, the best length and whether it is reached at `now`
/// of the first streak of type `t`.
pub fn streak_numbers(streaks: &Vec<StreakRecord>, t: &str, now: Timestamp) -> (res: (
    i32,
    i32,
    bool,
))
    ensures
        (res.0 as int, res.1 as int, res.2) == streak_numbers_of(streaks@, t@, now),
{
    let mut i: usize = 0;
    while i < streaks.len()
        invariant
            i <= streaks@.len(),
            first_index(streaks@, streak_row(t@)) == first_index_from(
                streaks@,
                streak_row(t@),
                i as int,
            ),
        decreases streaks@.len() - i,
    {
        if crate::text::chars_equal(&chars_of(streaks[i].streak_type.as_str()), t) {
            let r = &streaks[i];
            let streak = Streak::new(
                String::new(),
                0,
                0,
                r.latest_time_string.clone(),
                r.streak_type.clone(),
                now,
            );
            return (r.amount, r.best, streak.achived);
        }
        i = i + 1;
    }
    let streak = Streak::new(String::new(), 0, 0, String::new(), String::new(), now);
    (0, 0, streak.achived)
}

/// The contributions and the rating of a user over all time, zero when the
/// user has no all-time row.
pub open spec fn total_numbers_of(user: UserRecord) -> (int, int) {
    match first_index(user.period_data@, period_row("all-time"@)) {
        Some(i) => (
            user.period_data@[i].prs_opened as int,
            user.period_data@[i].total_rating as int,
        ),
        None => (0, 0),
    }
}

/// The contributions and the rating of a user over all time.
pub fn total_numbers(user: &UserRecord) -> (res: (i32, i64))
    ensures
        (res.0 as int, res.1 as int) == total_numbers_of(*user),
{
    match user.get_total_period() {
        Some(p) => (p.prs_opened, p.total_rating),
        None => (0, 0),
    }
}

/// The rank of a user at `now`: the rank text, the name of its image file
/// and its title.
pub open spec fn user_rank_of(user: UserRecord, now: Timestamp) -> (Seq<char>, Seq<char>, Seq<char>) {
    rank_of(user.lifetime_percent, age_days_of(now, user.first_contribution) as i64)
}

/// The rank of a user at `now`.
pub fn user_rank(user: &UserRecord, now: Timestamp) -> (res: (String, String, String))
    ensures
        (res.0@, res.1@, res.2@) == user_rank_of(*user, now),
{
    let age = age_days(now, user.first_contribution);
    rank_data(user.lifetime_percent, age)
}

/// The MIME type of an avatar, PNG when it is not recognised.
pub open spec fn image_type_of(image: Seq<char>) -> Seq<char> {
    if image.len() >= 11 && image.take(11) == "iVBORw0KGgo"@ {
        "image/png"@
    } else if image.len() >= 4 && image.take(4) == "/9j/"@ {
        "image/jpeg"@
    } else {
        "image/png"@
    }
}

/// The MIME type of an avatar, PNG when it is not recognised.
pub fn image_type(image: &str) -> (res: &'static str)
    ensures
        res@ == image_type_of(image@),
{
    match determine_image_type(image) {
        Some(t) => t,
        None => "image/png",
    }
}

// ---------------------------------------------------------------------------
// Badges.
// ---------------------------------------------------------------------------
/// The contents of the files a badge draws in: the state of the streaks and
/// of the pull request (for the bot's badge on a pull request) and the rank.
#[derive(Debug, Clone)]
pub struct BadgeAssets {
    pub challenge: String,
    pub pr_state: String,
    pub rank: String,
}

/// The files a badge is drawn from, as `svg_badge_files` chooses them.
#[derive(Debug, Clone)]
pub struct BadgeFiles {
    pub template: String,
    pub challenge: Option<String>,
    pub pr_state: Option<String>,
    pub rank: String,
}

/// The file of a rank's image.
pub open spec fn rank_file_of(name: Seq<char>) -> Seq<char> {
    "./public/ranks/"@ + name
}

/// The files a badge is drawn from: its template in the theme, the images
/// of the streaks and of the pull request when one is given, and the rank's
/// image. A pull request without the avatar is refused.
#[verifier::spinoff_prover]
pub fn svg_badge_files(
    user: &UserRecord,
    has_metadata: bool,
    contribution: Option<&UserContributionRecord>,
    mode: Mode,
    now: Timestamp,
) -> (res: Result<BadgeFiles, BadgeError>)
    ensures
        match template_choice(contribution is Some, has_metadata) {
            Err(e) => res == Err::<BadgeFiles, BadgeError>(e),
            Ok(t) => res is Ok && {
                let f = res->Ok_0;
                let week = streak_numbers_of(user.streaks@, "Weekly"@, now);
                let month = streak_numbers_of(user.streaks@, "Monthly"@, now);
                &&& f.template@ == template_file(template_base_of(t), mode)
                &&& f.rank@ == rank_file_of(user_rank_of(*user, now).1)
                &&& match contribution {
                    Some(c) => f.challenge is Some && f.challenge->0@ == challenge_icon_of(
                        week.2,
                        month.2,
                        mode,
                    ) && f.pr_state is Some && f.pr_state->0@ == pr_state_icon_of(c.executed),
                    None => f.challenge is None && f.pr_state is None,
                }
            },
        },
{
    let t = match badge_template(contribution.is_some(), has_metadata) {
        Ok(t) => t,
        Err(e) => {
            return Err(e);
        },
    };
    let template = template_path(template_base(t), mode);
    let rank = user_rank(user, now);
    let mut rank_file = String::new();
    push_str(&mut rank_file, "./public/ranks/");
    push_str(&mut rank_file, rank.1.as_str());
    assert(rank_file@ =~= rank_file_of(user_rank_of(*user, now).1));
    let (challenge, pr_state) = match contribution {
        Some(c) => {
            let week = streak_numbers(&user.streaks, "Weekly", now);
            let month = streak_numbers(&user.streaks, "Monthly", now);
            let mut pr = String::new();
            push_str(&mut pr, pr_state_icon(c.executed));
            (Some(challenge_icon(week.2, month.2, mode)), Some(pr))
        },
        None => (None, None),
    };
    Ok(BadgeFiles { template, challenge, pr_state, rank: rank_file })
}

/// Appends a replacement to a list.
fn push_pair(v: &mut Vec<(String, String)>, placeholder: &str, value: String)
    ensures
        pairs_view(final(v)@) == pairs_view(old(v)@).push((placeholder@, value@)),
{
    let mut p = String::new();
    push_str(&mut p, placeholder);
    v.push((p, value));
    assert(pairs_view(v@) =~= pairs_view(old(v)@).push((placeholder@, value@)));
}

/// What the bot's and the shared badge replace for the avatar, when it is
/// given: the image, its type, the login and the sloth's name.
pub open spec fn avatar_pairs(user: UserRecord, avatar: Option<&UserCachedMetadata>) -> Seq<
    (Seq<char>, Seq<char>),
> {
    match avatar {
        Some(m) => seq![
            ("{image}"@, m.image_base64@),
            ("{image-type}"@, image_type_of(m.image_base64@)),
            ("{login}"@, user.login@),
            ("{sloth-id}"@, sloth_id_text(user.id)),
        ],
        None => Seq::empty(),
    }
}

/// What the bot's badge replaces for a pull request, when one is given:
/// the state of the streaks, then that of the pull request.
pub open spec fn contribution_pairs(
    user: UserRecord,
    contribution: Option<&UserContributionRecord>,
    assets: BadgeAssets,
    now: Timestamp,
) -> Seq<(Seq<char>, Seq<char>)> {
    let week = streak_numbers_of(user.streaks@, "Weekly"@, now);
    let month = streak_numbers_of(user.streaks@, "Monthly"@, now);
    match contribution {
        Some(c) => seq![
            ("{challenge-title}"@, "Your streaks status:"@),
            ("{challenge-text}"@, challenge_subtitle_of(week.2, month.2)),
            ("{challenge-svg}"@, assets.challenge@),
            ("{pr-status-title}"@, "Your PR status: "@ + contribution_status(*c)),
            ("{pr-status-text}"@, contribution_text_of(c.rating, c.executed)),
            ("{pr-status-svg}"@, assets.pr_state@),
        ],
        None => Seq::empty(),
    }
}

/// What every badge of a user replaces last: the numbers of the user, the
/// best place and the rank.
pub open spec fn number_pairs(user: UserRecord, assets: BadgeAssets, now: Timestamp) -> Seq<
    (Seq<char>, Seq<char>),
> {
    let place = place_of(user.leaderboard_places@);
    let week = streak_numbers_of(user.streaks@, "Weekly"@, now);
    let month = streak_numbers_of(user.streaks@, "Monthly"@, now);
    let total = total_numbers_of(user);
    let rank = user_rank_of(user, now);
    seq![
        ("{total-contributions}"@, signed_decimal(total.0)),
        ("{week-streak}"@, signed_decimal(week.0)),
        ("{max-week-streak}"@, signed_decimal(week.1)),
        ("{month-streak}"@, signed_decimal(month.0)),
        ("{max-month-streak}"@, signed_decimal(month.1)),
        ("{place}"@, place.1),
        ("{place-type}"@, place.0),
        ("{total-rating}"@, grouped_signed(total.1)),
        ("{rank}"@, rank.0),
        ("{rank-svg}"@, assets.rank@),
        ("{rank-title}"@, rank.2),
    ]
}

/// What the bot's and the shared badge replace, in order: the avatar, the
/// login and the sloth's name when the avatar is given; the streaks and
/// the pull request when one is given; then the numbers of the user, the
/// best place, and the rank.
pub open spec fn svg_badge_pairs(
    user: UserRecord,
    avatar: Option<&UserCachedMetadata>,
    contribution: Option<&UserContributionRecord>,
    assets: BadgeAssets,
    now: Timestamp,
) -> Seq<(Seq<char>, Seq<char>)> {
    avatar_pairs(user, avatar) + contribution_pairs(user, contribution, assets, now)
        + number_pairs(user, assets, now)
}

fn avatar_replacements(user: &UserRecord, avatar: Option<&UserCachedMetadata>) -> (res: Vec<
    (String, String),
>)
    ensures
        pairs_view(res@) == avatar_pairs(*user, avatar),
{
    let mut pairs: Vec<(String, String)> = Vec::new();
    match avatar {
        Some(m) => {
            push_pair(&mut pairs, "{image}", m.image_base64.clone());
            let mut t = String::new();
            push_str(&mut t, image_type(m.image_base64.as_str()));
            push_pair(&mut pairs, "{image-type}", t);
            push_pair(&mut pairs, "{login}", user.login.clone());
            push_pair(&mut pairs, "{sloth-id}", sloth_id(user.id));
        },
        None => {},
    }
    assert(pairs_view(pairs@) =~= avatar_pairs(*user, avatar));
    pairs
}

fn contribution_replacements(
    user: &UserRecord,
    contribution: Option<&UserContributionRecord>,
    assets: &BadgeAssets,
    now: Timestamp,
) -> (res: Vec<(String, String)>)
    ensures
        pairs_view(res@) == contribution_pairs(*user, contribution, *assets, now),
{
    let mut pairs: Vec<(String, String)> = Vec::new();
    match contribution {
        Some(c) => {
            let week = streak_numbers(&user.streaks, "Weekly", now);
            let month = streak_numbers(&user.streaks, "Monthly", now);
            let mut title = String::new();
            push_str(&mut title, "Your streaks status:");
            push_pair(&mut pairs, "{challenge-title}", title);
            let mut text = String::new();
            push_str(&mut text, challenge_subtitle(week.2, month.2));
            push_pair(&mut pairs, "{challenge-text}", text);
            push_pair(&mut pairs, "{challenge-svg}", assets.challenge.clone());
            let mut status = String::new();
            push_str(&mut status, "Your PR status: ");
            push_str(&mut status, contribution_status_text(c).as_str());
            push_pair(&mut pairs, "{pr-status-title}", status);
            push_pair(&mut pairs, "{pr-status-text}", contribution_text(c.rating, c.executed));
            push_pair(&mut pairs, "{pr-status-svg}", assets.pr_state.clone());
        },
        None => {},
    }
    assert(pairs_view(pairs@) =~= contribution_pairs(*user, contribution, *assets, now));
    pairs
}

#[verifier::spinoff_prover]
fn number_replacements(user: &UserRecord, rank_svg: &String, now: Timestamp) -> (res: Vec<
    (String, String),
>)
    ensures
        forall|assets: BadgeAssets| assets.rank == *rank_svg ==> pairs_view(res@) == number_pairs(*user, assets, now),
{
    let week = streak_numbers(&user.streaks, "Weekly", now);
    let month = streak_numbers(&user.streaks, "Monthly", now);
    let total = total_numbers(user);
    let rank = user_rank(user, now);
    let place = best_place(&user.leaderboard_places);
    let mut pairs: Vec<(String, String)> = Vec::new();
    push_pair(&mut pairs, "{total-contributions}", signed_string(total.0 as i64));
    push_pair(&mut pairs, "{week-streak}", signed_string(week.0 as i64));
    push_pair(&mut pairs, "{max-week-streak}", signed_string(week.1 as i64));
    push_pair(&mut pairs, "{month-streak}", signed_string(month.0 as i64));
    push_pair(&mut pairs, "{max-month-streak}", signed_string(month.1 as i64));
    push_pair(&mut pairs, "{place}", place.1);
    push_pair(&mut pairs, "{place-type}", place.0);
    push_pair(&mut pairs, "{total-rating}", grouped_string(total.1));
    push_pair(&mut pairs, "{rank}", rank.0);
    push_pair(&mut pairs, "{rank-svg}", rank_svg.clone());
    push_pair(&mut pairs, "{rank-title}", rank.2);
    assert forall|assets: BadgeAssets| assets.rank == *rank_svg implies pairs_view(pairs@)
        == number_pairs(*user, assets, now) by {
        assert(pairs_view(pairs@) =~= number_pairs(*user, assets, now));
    }
    pairs
}

/// The text of the bot's or the shared badge at `now`: the template with
/// the replacements of `svg_badge_pairs` made in order.
pub fn svg_badge(
    template: &str,
    user: &UserRecord,
    avatar: Option<&UserCachedMetadata>,
    contribution: Option<&UserContributionRecord>,
    assets: &BadgeAssets,
    now: Timestamp,
) -> (res: String)
    ensures
        res@ == replaced_each(
            template@,
            svg_badge_pairs(*user, avatar, contribution, *assets, now),
        ),
{
    let mut pairs = avatar_replacements(user, avatar);
    let mut second = contribution_replacements(user, contribution, assets, now);
    let mut third = number_replacements(user, &assets.rank, now);
    let ghost a = pairs@;
    let ghost b = second@;
    let ghost c = third@;
    pairs.append(&mut second);
    pairs.append(&mut third);
    assert(pairs@ =~= a + b + c);
    assert(pairs_view(pairs@) =~= pairs_view(a) + pairs_view(b) + pairs_view(c));
    replace_each(template, &pairs)
}

/// A signed number in decimal.
fn signed_string(n: i64) -> (res: String)
    ensures
        res@ == signed_decimal(n as int),
{
    let mut s = String::new();
    push_signed(&mut s, n);
    assert(s@ =~= signed_decimal(n as int));
    s
}

/// What the picture shown when a profile is shared replaces first: the
/// avatar and the rank.
pub open spec fn meta_head_pairs(
    user: UserRecord,
    avatar: UserCachedMetadata,
    rank_svg: Seq<char>,
    now: Timestamp,
) -> Seq<(Seq<char>, Seq<char>)> {
    let rank = user_rank_of(user, now);
    seq![
        ("{image}"@, avatar.image_base64@),
        ("{image-type}"@, image_type_of(avatar.image_base64@)),
        ("{rank}"@, rank.0),
        ("{rank-svg}"@, rank_svg),
        ("{rank-title}"@, rank.2),
    ]
}

/// What the picture shown when a profile is shared replaces next: the
/// numbers of the user and the best place, the GitHub handle and the name
/// (the handle when the user has none).
pub open spec fn meta_tail_pairs(user: UserRecord, now: Timestamp) -> Seq<(Seq<char>, Seq<char>)> {
    let place = place_of(user.leaderboard_places@);
    let week = streak_numbers_of(user.streaks@, "Weekly"@, now);
    let month = streak_numbers_of(user.streaks@, "Monthly"@, now);
    let total = total_numbers_of(user);
    let handle = "@"@ + user.login@;
    seq![
        ("{total-rating}"@, grouped_signed(total.1)),
        ("{week-streak}"@, signed_decimal(week.0)),
        ("{max-week-streak}"@, signed_decimal(week.1)),
        ("{month-streak}"@, signed_decimal(month.0)),
        ("{max-month-streak}"@, signed_decimal(month.1)),
        ("{place}"@, place.1),
        ("{place-type}"@, place.0),
        ("{total-contributions}"@, grouped_signed(total.0)),
        ("{github-handle}"@, handle),
        ("{name}"@, match user.name {
            Some(n) => n@,
            None => handle,
        }),
    ]
}

/// What the picture shown when a profile is shared replaces, in order.
pub open spec fn meta_badge_pairs(
    user: UserRecord,
    avatar: UserCachedMetadata,
    rank_svg: Seq<char>,
    now: Timestamp,
) -> Seq<(Seq<char>, Seq<char>)> {
    meta_head_pairs(user, avatar, rank_svg, now) + meta_tail_pairs(user, now)
}

fn meta_head_replacements(
    user: &UserRecord,
    avatar: &UserCachedMetadata,
    rank_svg: &str,
    now: Timestamp,
) -> (res: Vec<(String, String)>)
    ensures
        pairs_view(res@) == meta_head_pairs(*user, *avatar, rank_svg@, now),
{
    let rank = user_rank(user, now);
    let mut pairs: Vec<(String, String)> = Vec::new();
    push_pair(&mut pairs, "{image}", avatar.image_base64.clone());
    let mut t = String::new();
    push_str(&mut t, image_type(avatar.image_base64.as_str()));
    push_pair(&mut pairs, "{image-type}", t);
    push_pair(&mut pairs, "{rank}", rank.0);
    let mut r = String::new();
    push_str(&mut r, rank_svg);
    push_pair(&mut pairs, "{rank-svg}", r);
    push_pair(&mut pairs, "{rank-title}", rank.2);
    assert(pairs_view(pairs@) =~= meta_head_pairs(*user, *avatar, rank_svg@, now));
    pairs
}

#[verifier::spinoff_prover]
fn meta_tail_replacements(user: &UserRecord, now: Timestamp) -> (res: Vec<(String, String)>)
    ensures
        pairs_view(res@) == meta_tail_pairs(*user, now),
{
    let week = streak_numbers(&user.streaks, "Weekly", now);
    let month = streak_numbers(&user.streaks, "Monthly", now);
    let total = total_numbers(user);
    let place = best_place(&user.leaderboard_places);
    let mut handle = String::new();
    push_char(&mut handle, '@');
    push_str(&mut handle, user.login.as_str());
    proof {
        reveal_strlit("@");
    }
    assert(handle@ =~= "@"@ + user.login@);
    let name = match &user.name {
        Some(n) => n.clone(),
        None => handle.clone(),
    };
    let mut pairs: Vec<(String, String)> = Vec::new();
    push_pair(&mut pairs, "{total-rating}", grouped_string(total.1));
    push_pair(&mut pairs, "{week-streak}", signed_string(week.0 as i64));
    push_pair(&mut pairs, "{max-week-streak}", signed_string(week.1 as i64));
    push_pair(&mut pairs, "{month-streak}", signed_string(month.0 as i64));
    push_pair(&mut pairs, "{max-month-streak}", signed_string(month.1 as i64));
    push_pair(&mut pairs, "{place}", place.1);
    push_pair(&mut pairs, "{place-type}", place.0);
    push_pair(&mut pairs, "{total-contributions}", grouped_string(total.0 as i64));
    push_pair(&mut pairs, "{github-handle}", handle);
    push_pair(&mut pairs, "{name}", name);
    assert(pairs_view(pairs@) =~= meta_tail_pairs(*user, now));
    pairs
}

/// The text of the picture shown when a profile is shared, before it is
/// drawn: the template with the replacements of `meta_badge_pairs` made in
/// order.
pub fn meta_badge(
    template: &str,
    user: &UserRecord,
    avatar: &UserCachedMetadata,
    rank_svg: &str,
    now: Timestamp,
) -> (res: String)
    ensures
        res@ == replaced_each(template@, meta_badge_pairs(*user, *avatar, rank_svg@, now)),
{
    let mut pairs = meta_head_replacements(user, avatar, rank_svg, now);
    let mut tail = meta_tail_replacements(user, now);
    let ghost a = pairs@;
    let ghost b = tail@;
    pairs.append(&mut tail);
    assert(pairs@ =~= a + b);
    assert(pairs_view(pairs@) =~= pairs_view(a) + pairs_view(b));
    replace_each(template, &pairs)
}

// ---------------------------------------------------------------------------
// Requests for a badge.
// ---------------------------------------------------------------------------
/// What `str::parse::<i32>` accepts: an optional sign, then at least one
/// ASCII digit, with a value that fits.
pub open spec fn parsed_i32(s: Seq<char>) -> Option<i32> {
    let neg = s.len() > 0 && s[0] == '-';
    let d = if s.len() > 0 && (s[0] == '+' || s[0] == '-') {
        s.drop_first()
    } else {
        s
    };
    if d.len() > 0 && all_digits(d) && digits_value(d) <= (if neg {
        0x8000_0000nat
    } else {
        0x7fff_ffffnat
    }) {
        Some(
            (if neg {
                -(digits_value(d) as int)
            } else {
                digits_value(d) as int
            }) as i32,
        )
    } else {
        None
    }
}

proof fn lemma_digits_prefix_bound(s: Seq<char>, i: int, j: int)
    requires
        0 <= i <= j <= s.len(),
        all_digits(s),
    ensures
        digits_value(s.take(i)) <= digits_value(s.take(j)),
    decreases j - i,
{
    if i < j {
        lemma_digits_prefix_bound(s, i, j - 1);
        assert(s.take(j).drop_last() =~= s.take(j - 1));
    }
}

/// Reads a number as `str::parse::<i32>` does.
#[verifier::spinoff_prover]
pub fn parse_i32(cs: &Vec<char>, from: usize, to: usize) -> (res: Option<i32>)
    requires
        from <= to <= cs.len(),
    ensures
        res == parsed_i32(cs@.subrange(from as int, to as int)),
{
    let ghost s = cs@.subrange(from as int, to as int);
    let neg = from < to && cs[from] == '-';
    let start: usize = if from < to && (cs[from] == '+' || cs[from] == '-') {
        from + 1
    } else {
        from
    };
    let ghost d = if s.len() > 0 && (s[0] == '+' || s[0] == '-') {
        s.drop_first()
    } else {
        s
    };
    assert(d =~= cs@.subrange(start as int, to as int));
    assert(neg == (s.len() > 0 && s[0] == '-'));
    if start >= to {
        assert(d.len() == 0);
        assert(parsed_i32(s) is None);
        return None;
    }
    let limit: u64 = if neg {
        0x8000_0000
    } else {
        0x7fff_ffff
    };
    let mut value: u64 = 0;
    let mut i: usize = start;
    while i < to
        invariant
            from <= start <= i <= to <= cs.len(),
            s == cs@.subrange(from as int, to as int),
            d == (if s.len() > 0 && (s[0] == '+' || s[0] == '-') {
                s.drop_first()
            } else {
                s
            }),
            neg == (s.len() > 0 && s[0] == '-'),
            limit == (if neg { 0x8000_0000u64 } else { 0x7fff_ffffu64 }),
            d == cs@.subrange(start as int, to as int),
            forall|k: int| 0 <= k < i - start ==> is_digit(#[trigger] d[k]),
            value == digits_value(d.take(i - start)),
            value <= limit,
            limit <= 0x8000_0000,
        decreases to - i,
    {
        let c = cs[i];
        let code = c as u32;
        let ghost k = i - start;
        assert(d[k] == c);
        if !(48 <= code && code <= 57) {
            assert(!is_digit(d[k]));
            assert(!all_digits(d));
            assert(parsed_i32(s) is None);
            return None;
        }
        let digit = (code - 48) as u64;
        proof {
            assert(d.take(k + 1).drop_last() =~= d.take(k));
            assert(d.take(k + 1).last() == c);
        }
        value = value * 10 + digit;
        i = i + 1;
        if value > limit {
            proof {
                if all_digits(d) {
                    lemma_digits_prefix_bound(d, k + 1, d.len() as int);
                    assert(d.take(d.len() as int) =~= d);
                }
            }
            return None;
        }
        assert forall|j: int| 0 <= j < i - start implies is_digit(#[trigger] d[j]) by {
            if j == k {
                assert(d[j] == c);
            }
        }
    }
    assert(d.take(d.len() as int) =~= d);
    if neg {
        Some((0 - (value as i64)) as i32)
    } else {
        Some(value as i32)
    }
}

/// Slashes.
pub open spec fn is_slash() -> spec_fn(char) -> bool {
    |c: char| c == '/'
}

/// The pull request a badge request names as `owner/repo/number`: the first
/// three parts between slashes, the third read as a number.
pub open spec fn pr_reference(s: Seq<char>) -> Option<(Seq<char>, Seq<char>, i32)> {
    match first_index_from(s, is_slash(), 0) {
        None => None,
        Some(a) => match first_index_from(s, is_slash(), a + 1) {
            None => None,
            Some(b) => {
                let e = match first_index_from(s, is_slash(), b + 1) {
                    Some(c) => c,
                    None => s.len() as int,
                };
                match parsed_i32(s.subrange(b + 1, e)) {
                    None => None,
                    Some(n) => Some((s.take(a), s.subrange(a + 1, b), n)),
                }
            },
        },
    }
}

fn next_slash(cs: &Vec<char>, from: usize) -> (res: Option<usize>)
    requires
        from <= cs.len(),
    ensures
        match first_index_from(cs@, is_slash(), from as int) {
            Some(i) => res == Some(i as usize),
            None => res is None,
        },
{
    let mut i: usize = from;
    while i < cs.len()
        invariant
            from <= i <= cs.len(),
            first_index_from(cs@, is_slash(), from as int) == first_index_from(
                cs@,
                is_slash(),
                i as int,
            ),
        decreases cs.len() - i,
    {
        if cs[i] == '/' {
            return Some(i);
        }
        i = i + 1;
    }
    None
}

fn string_of_range(cs: &Vec<char>, from: usize, to: usize) -> (res: String)
    requires
        from <= to <= cs.len(),
    ensures
        res@ == cs@.subrange(from as int, to as int),
{
    let mut s = String::new();
    let mut i: usize = from;
    while i < to
        invariant
            from <= i <= to <= cs.len(),
            s@ == cs@.subrange(from as int, i as int),
        decreases to - i,
    {
        push_char(&mut s, cs[i]);
        i = i + 1;
        assert(s@ =~= cs@.subrange(from as int, i as int));
    }
    s
}

/// The pull request a badge request names as `owner/repo/number`.
pub fn parse_pr_reference(s: &str) -> (res: Option<(String, String, i32)>)
    ensures
        match pr_reference(s@) {
            None => res is None,
            Some((owner, repo, number)) => res matches Some(r) && r.0@ == owner && r.1@ == repo
                && r.2 == number,
        },
{
    let cs = chars_of(s);
    let a = match next_slash(&cs, 0) {
        Some(a) => a,
        None => {
            return None;
        },
    };
    proof {
        lemma_first_index_from(cs@, is_slash(), 0);
    }
    let b = match next_slash(&cs, a + 1) {
        Some(b) => b,
        None => {
            return None;
        },
    };
    proof {
        lemma_first_index_from(cs@, is_slash(), a + 1);
    }
    let e = match next_slash(&cs, b + 1) {
        Some(c) => c,
        None => cs.len(),
    };
    proof {
        lemma_first_index_from(cs@, is_slash(), b + 1);
    }
    let number = match parse_i32(&cs, b + 1, e) {
        Some(n) => n,
        None => {
            return None;
        },
    };
    let owner = string_of_range(&cs, 0, a);
    let repo = string_of_range(&cs, a + 1, b);
    assert(owner@ =~= cs@.take(a as int));
    Some((owner, repo, number))
}

/// Which badge a request asks for.
#[derive(Debug, Clone)]
pub enum BadgeKind {
    /// The bot's badge on a pull request.
    BotWithPr { owner: String, repo: String, number: i32 },
    /// The bot's badge.
    Bot,
    /// The picture shown when a profile is shared.
    Meta,
    /// The badge a user shares.
    Share,
    /// A type of badge that does not exist.
    Unknown,
}

/// Which badge a request asks for: by its type (`share` when none is
/// given), the bot's on the named pull request when a `bot` badge names
/// one that can be read.
pub open spec fn is_badge_kind(badge_type: Option<Seq<char>>, pr: Option<Seq<char>>, res: BadgeKind) -> bool {
    let t = match badge_type {
        Some(t) => t,
        None => "share"@,
    };
    let named = match pr {
        Some(p) => pr_reference(p),
        None => None,
    };
    if t == "bot"@ {
        match named {
            Some((owner, repo, number)) => res matches BadgeKind::BotWithPr { owner: o, repo: r, number: n }
                && o@ == owner && r@ == repo && n == number,
            None => res is Bot,
        }
    } else if t == "meta"@ {
        res is Meta
    } else if t == "share"@ {
        res is Share
    } else {
        res is Unknown
    }
}

/// Which badge a request asks for.
pub fn badge_kind(badge_type: Option<&str>, pr: Option<&str>) -> (res: BadgeKind)
    ensures
        is_badge_kind(
            match badge_type {
                Some(t) => Some(t@),
                None => None,
            },
            match pr {
                Some(p) => Some(p@),
                None => None,
            },
            res,
        ),
{
    let t = match badge_type {
        Some(t) => chars_of(t),
        None => chars_of("share"),
    };
    if crate::text::chars_equal(&t, "bot") {
        let named = match pr {
            Some(p) => parse_pr_reference(p),
            None => None,
        };
        match named {
            Some((owner, repo, number)) => BadgeKind::BotWithPr { owner, repo, number },
            None => BadgeKind::Bot,
        }
    } else if crate::text::chars_equal(&t, "meta") {
        BadgeKind::Meta
    } else if crate::text::chars_equal(&t, "share") {
        BadgeKind::Share
    } else {
        BadgeKind::Unknown
    }
}

/// The status of an answer that found nothing.
pub const STATUS_NOT_FOUND: u16 = 404;

/// The status of an answer that failed on the server's side.
pub const STATUS_INTERNAL_ERROR: u16 = 500;

/// What looking up the user of a badge request gave.
#[derive(Debug, Clone, Copy, PartialEq, Eq, Structural)]
pub enum UserLookup {
    /// The user's record was found.
    Found,
    /// The database does not know the user.
    Missing,
    /// The database could not be read.
    Failed,
}

/// What to do about a badge request once its user was looked up.
#[derive(Debug, Clone)]
pub enum BadgeStep {
    /// Answer with this status and no badge, without reading GitHub or
    /// drawing anything.
    Answer(u16),
    /// Draw the badge of this kind, from a newcomer's record when the
    /// database does not know the user.
    Draw { kind: BadgeKind, newcomer: bool },
}

/// What to do about a badge request: a failed database read is answered
/// 500; a badge type that does not exist, 404; any other badge is drawn,
/// for an unknown user from a newcomer's record.
pub open spec fn badge_step_of(kind: BadgeKind, lookup: UserLookup) -> BadgeStep {
    if lookup == UserLookup::Failed {
        BadgeStep::Answer(STATUS_INTERNAL_ERROR)
    } else if kind is Unknown {
        BadgeStep::Answer(STATUS_NOT_FOUND)
    } else {
        BadgeStep::Draw { kind, newcomer: lookup == UserLookup::Missing }
    }
}

/// What to do about a badge request of the given kind.
pub fn badge_step(kind: BadgeKind, lookup: UserLookup) -> (res: BadgeStep)
    ensures
        res == badge_step_of(kind, lookup),
{
    if lookup == UserLookup::Failed {
        return BadgeStep::Answer(STATUS_INTERNAL_ERROR);
    }
    match kind {
        BadgeKind::Unknown => BadgeStep::Answer(STATUS_NOT_FOUND),
        _ => BadgeStep::Draw { kind, newcomer: lookup == UserLookup::Missing },
    }
}

/// The answer to a request for an SVG badge: the badge when it could be
/// drawn, else status 500.
pub fn svg_badge_response(svg: Option<String>) -> (res: Badge)
    ensures
        match svg {
            Some(s) => res.svg == Some(s) && res.png is None && res.status == STATUS_OK,
            None => res.svg is None && res.png is None && res.status == STATUS_INTERNAL_ERROR,
        },
{
    match svg {
        Some(s) => Badge::new_svg(s),
        None => Badge::with_status(STATUS_INTERNAL_ERROR),
    }
}

/// The answer to a request for the picture shown when a profile is shared:
/// the picture when it could be drawn, else status 500.
pub fn png_badge_response(png: Option<Vec<u8>>) -> (res: Badge)
    ensures
        match png {
            Some(p) => res.png == Some(p) && res.svg is None && res.status == STATUS_OK,
            None => res.svg is None && res.png is None && res.status == STATUS_INTERNAL_ERROR,
        },
{
    match png {
        Some(p) => Badge::new_ong(p),
        None => Badge::with_status(STATUS_INTERNAL_ERROR),
    }
}

/// Whether an avatar loaded at `load_time` is less than a day old at `now`
/// and can be used without loading it again.
pub open spec fn is_fresh(now: Timestamp, load_time: i64) -> bool {
    now - load_time < NANOS_PER_DAY
}

/// Whether an avatar loaded at `load_time` can be used at `now`.
pub fn metadata_is_fresh(now: Timestamp, load_time: i64) -> (res: bool)
    ensures
        res == is_fresh(now, load_time),
{
    (now as i128) - (load_time as i128) < (NANOS_PER_DAY as i128)
}

/// The cached avatar of a user, if there is one less than a day old at
/// `now`; none means it is to be loaded again.
pub fn cached_avatar(cached: Option<UserCachedMetadata>, now: Timestamp) -> (res: Option<
    UserCachedMetadata,
>)
    ensures
        match cached {
            Some(c) => if is_fresh(now, c.load_time) {
                res == Some(c)
            } else {
                res is None
            },
            None => res is None,
        },
{
    match cached {
        Some(c) => if metadata_is_fresh(now, c.load_time) {
            Some(c)
        } else {
            None
        },
        None => None,
    }
}

/// Whether a freshly loaded avatar is stored: for every user but a
/// newcomer, whose record holds the largest identifier and is not stored.
pub fn stores_avatar(user_id: i32) -> (res: bool)
    ensures
        res == (user_id != i32::MAX),
{
    user_id != i32::MAX
}

// ---------------------------------------------------------------------------
// Laws.
// ---------------------------------------------------------------------------
/// A placeholder that does not occur in a text leaves it as it is.
pub proof fn law_replace_absent(s: Seq<char>, pat: Seq<char>, with: Seq<char>)
    requires
        forall|i: int| 0 <= i && i + pat.len() <= s.len() ==> #[trigger] s.subrange(i, i + pat.len()) != pat,
    ensures
        replaced(s, pat, with) == s,
    decreases s.len(),
{
    if pat.len() == 0 || s.len() < pat.len() {
    } else {
        assert(s.take(pat.len() as int) =~= s.subrange(0, pat.len() as int));
        let z: int = 0;
        assert(s.subrange(z, z + pat.len()) != pat);
        let t = s.skip(1);
        assert forall|i: int| 0 <= i && i + pat.len() <= t.len() implies #[trigger] t.subrange(
            i,
            i + pat.len(),
        ) != pat by {
            assert(t.subrange(i, i + pat.len()) =~= s.subrange(i + 1, i + 1 + pat.len()));
        }
        law_replace_absent(t, pat, with);
        assert(seq![s[0]] + t =~= s);
    }
}

proof fn lemma_digit_char(d: nat)
    requires
        d < 10,
    ensures
        is_digit(digit_char(d)),
        (digit_char(d) as u32) - 48 == d,
{
}

proof fn lemma_decimal_digits(n: nat)
    ensures
        all_digits(decimal(n)),
        digits_value(decimal(n)) == n,
        decimal(n).len() > 0,
    decreases n,
{
    if n < 10 {
        lemma_digit_char(n);
        let d = decimal(n);
        assert(d.drop_last() =~= Seq::<char>::empty());
        assert(d.last() == digit_char(n));
        assert(digits_value(d) == digits_value(d.drop_last()) * 10 + ((d.last() as u32) - 48) as nat);
    } else {
        lemma_decimal_digits(n / 10);
        lemma_digit_char(n % 10);
        let d = decimal(n);
        assert(d.drop_last() =~= decimal(n / 10));
        assert(d.last() == digit_char(n % 10));
        assert(digits_value(d) == digits_value(d.drop_last()) * 10 + ((d.last() as u32) - 48) as nat);
        assert((n / 10) * 10 + n % 10 == n) by (nonlinear_arith);
        assert forall|i: int| 0 <= i < d.len() implies is_digit(#[trigger] d[i]) by {
            if i < d.len() - 1 {
                assert(d[i] == decimal(n / 10)[i]);
            }
        }
    }
}

/// The first slash at or after `from` is at `at` when there is one there
/// and none before.
proof fn lemma_slash_at(s: Seq<char>, from: int, at: int)
    requires
        0 <= from <= at < s.len(),
        s[at] == '/',
        forall|k: int| from <= k < at ==> s[k] != '/',
    ensures
        first_index_from(s, is_slash(), from) == Some(at),
{
    lemma_first_index_from(s, is_slash(), from);
    match first_index_from(s, is_slash(), from) {
        Some(i) => {
            if i < at {
                assert(s[i] != '/');
            } else if i > at {
                assert(!(is_slash())(s[at]));
            }
        },
        None => {
            assert(!(is_slash())(s[at]));
        },
    }
}

/// The identifier of a pull request, `<owner>/<repo>/<number>`, names it
/// back in a badge request, when neither the owner nor the repository holds
/// a slash and the number fits in an `i32`.
#[verifier::spinoff_prover]
pub proof fn law_pr_reference_roundtrip(owner: Seq<char>, repo: Seq<char>, number: u64)
    requires
        forall|k: int| 0 <= k < owner.len() ==> owner[k] != '/',
        forall|k: int| 0 <= k < repo.len() ==> repo[k] != '/',
        number <= i32::MAX,
    ensures
        pr_reference(pr_id_of(owner, repo, number)) == Some((owner, repo, number as i32)),
{
    let s = pr_id_of(owner, repo, number);
    let d = decimal(number as nat);
    let a = owner.len() as int;
    let b = a + 1 + repo.len();
    lemma_decimal_digits(number as nat);
    assert(s[a] == '/');
    assert forall|k: int| 0 <= k < a implies s[k] != '/' by {
        assert(s[k] == owner[k]);
    }
    lemma_slash_at(s, 0, a);
    assert(s[b] == '/');
    assert forall|k: int| a + 1 <= k < b implies s[k] != '/' by {
        assert(s[k] == repo[k - a - 1]);
    }
    lemma_slash_at(s, a + 1, b);
    lemma_first_index_from(s, is_slash(), b + 1);
    assert forall|k: int| b + 1 <= k < s.len() implies !(#[trigger] (is_slash())(s[k])) by {
        assert(s[k] == d[k - b - 1]);
        assert(is_digit(d[k - b - 1]));
    }
    assert(first_index_from(s, is_slash(), b + 1) is None);
    assert(s.subrange(b + 1, s.len() as int) =~= d);
    assert(is_digit(d[0]));
    assert(d[0] != '+' && d[0] != '-');
    assert(s.take(a) =~= owner);
    assert(s.subrange(a + 1, b) =~= repo);
}

} // verus!
