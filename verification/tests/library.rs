use race_of_sloths::account::{AccountWithPermanentPercentageBonus, User};
use race_of_sloths::bot::{Action, MsgCategory, PRInfo as ContractInfo};
use race_of_sloths::commands::{parse_u8, BotScored, Command, Comment};
use race_of_sloths::github::{AuthorAssociation, PrMetadata, RepoInfo, User as GithubUser};
use race_of_sloths::messages::{determine_image_type, telegram_message, Level};
use race_of_sloths::period_data::{UserPeriodData, UserPeriodDataV2, VersionedUserPeriodData};
use race_of_sloths::pr::{PRInfo, PRv2, Score, VersionedPR, PRWithRating};
use race_of_sloths::responses::{
    rank_data, template_path, Badge, GithubMeta, Mode, PaginatedResponse,
    UserContributionResponse,
};
use race_of_sloths::records::UserContributionRecord;
use race_of_sloths::streak::{Streak, StreakReward, StreakType};
use race_of_sloths::text::{chars_of, split_whitespace};
use race_of_sloths::timeperiod::TimePeriod;

fn v1() -> VersionedUserPeriodData {
    VersionedUserPeriodData::V1(UserPeriodData {
        total_score: 10,
        executed_prs: 2,
        largest_score: 8,
        prs_opened: 3,
        prs_merged: 2,
        total_rating: 100,
        largest_rating_per_pr: 80,
    })
}

fn latest(d: &VersionedUserPeriodData) -> UserPeriodDataV2 {
    d.to_latest()
}

#[test]
fn period_data_updates_upgrade_to_v2() {
    let mut d = v1();
    d.pr_opened();
    assert!(matches!(d, VersionedUserPeriodData::V2(_)));
    assert_eq!(latest(&d).prs_opened, 4);
    assert_eq!(latest(&d).prs_scored, 0);
    d.pr_merged();
    d.pr_executed();
    assert_eq!(latest(&d).prs_merged, 3);
    assert_eq!(latest(&d).executed_prs, 3);
}

#[test]
fn scoring_reward_is_undone_by_removal() {
    let mut d = v1();
    let before = latest(&d);
    d.reward_for_scoring();
    assert_eq!(latest(&d).total_rating, 125);
    assert_eq!(latest(&d).prs_scored, 1);
    d.remove_reward_for_scoring();
    assert_eq!(latest(&d), before);
    // Nothing to remove: unchanged.
    d.remove_reward_for_scoring();
    assert_eq!(latest(&d), before);
}

#[test]
fn rescoring_moves_totals_and_maxima() {
    let mut d = v1();
    d.pr_scored(0, 13);
    let l = latest(&d);
    assert_eq!(l.total_score, 23);
    assert_eq!(l.total_rating, 230);
    assert_eq!(l.largest_score, 13);
    assert_eq!(l.largest_rating_per_pr, 130);
    d.pr_scored(13, 5);
    let l = latest(&d);
    assert_eq!(l.total_score, 15);
    assert_eq!(l.total_rating, 150);
    assert_eq!(l.largest_score, 13);
    d.pr_bonus_rating(200, 50);
    assert_eq!(latest(&d).total_rating, 300);
    assert_eq!(latest(&d).largest_rating_per_pr, 200);
    d.pr_closed(5);
    let l = latest(&d);
    assert_eq!(l.prs_opened, 2);
    assert_eq!(l.total_score, 10);
    assert_eq!(l.total_rating, 250);
}

#[test]
fn lifetime_bonus_takes_the_maximum() {
    let mut a = AccountWithPermanentPercentageBonus::new("sloth".to_string());
    assert!(a.add_streak_percent(1, 5));
    assert_eq!(a.clear_new_flags(), 5);
    assert!(!a.add_streak_percent(1, 3));
    assert_eq!(a.permanent_percentage_bonus[0].percent, 5);
    assert!(a.add_streak_percent(1, 10));
    assert!(a.add_streak_percent(2, 7));
    assert_eq!(a.lifetime_percentage_bonus(), 17);
    assert_eq!(a.clear_new_flags(), 17);
    assert_eq!(a.clear_new_flags(), 0);
}

#[test]
fn flat_bonus_is_added_once_and_used_once() {
    let mut a = AccountWithPermanentPercentageBonus::new("sloth".to_string());
    assert!(a.add_flat_bonus(1, 100, 3));
    assert!(!a.add_flat_bonus(1, 200, 3));
    assert!(a.add_flat_bonus(1, 50, 5));
    assert!(a.add_flat_bonus(2, 70, 1));
    assert_eq!(a.use_flat_bonus(1, 2), 0);
    assert_eq!(a.use_flat_bonus(1, 4), 100);
    // The last bonus took the place of the used one.
    assert_eq!(a.flat_bonus.len(), 2);
    assert_eq!(a.flat_bonus[0].streak_id, 2);
    assert_eq!(a.use_flat_bonus(1, 4), 0);
    assert_eq!(a.use_flat_bonus(1, 5), 50);
}

#[test]
fn user_period_lookup_finds_first_entry() {
    let d = UserPeriodDataV2::default();
    let mut e = UserPeriodDataV2::default();
    e.prs_opened = 4;
    let user = User {
        id: 1,
        name: "sloth".to_string(),
        percentage_bonus: 0,
        period_data: vec![("062023".to_string(), e), ("all-time".to_string(), d)],
        streaks: vec![],
    };
    assert_eq!(user.get_period(&"062023".to_string()).unwrap().prs_opened, 4);
    assert!(user.get_period(&"072023".to_string()).is_none());
}

#[test]
fn streak_thresholds_and_rewards() {
    let mut data = UserPeriodDataV2::default();
    data.prs_opened = 2;
    data.total_score = 9;
    data.executed_prs = 2;
    assert!(StreakType::from_prs_opened(2).is_streak_achieved(&data));
    assert!(!StreakType::from_prs_merged(1).is_streak_achieved(&data));
    assert!(StreakType::AverageScore(4).is_streak_achieved(&data));
    assert!(!StreakType::AverageScore(5).is_streak_achieved(&data));

    let streak = Streak::new(
        7,
        "Weekly".to_string(),
        TimePeriod::Week,
        vec![StreakType::PRsOpened(1), StreakType::TotalScore(8)],
        vec![StreakReward::FlatReward(10), StreakReward::PermanentPercentageBonus(5)],
    );
    assert!(streak.is_active);
    assert!(streak.is_streak_achieved(&VersionedUserPeriodData::V2(data)));
    assert_eq!(streak.get_streak_reward(0), None);
    assert_eq!(streak.get_streak_reward(1), Some(StreakReward::FlatReward(10)));
    assert_eq!(
        streak.get_streak_reward(2),
        Some(StreakReward::PermanentPercentageBonus(5))
    );
    assert_eq!(
        streak.get_streak_reward(9),
        Some(StreakReward::PermanentPercentageBonus(5))
    );
}

fn score(user: &str, score: u32) -> Score {
    Score { user: user.to_string(), score }
}

#[test]
fn pull_request_scores() {
    let mut pr = PRv2::new("near".to_string(), "sdk".to_string(), 42, "alice".to_string(), 1, 2);
    assert_eq!(pr.score(), None);
    assert_eq!(pr.add_score("bob".to_string(), 5), None);
    assert_eq!(pr.add_score("carol".to_string(), 8), None);
    assert_eq!(pr.add_score("bob".to_string(), 3), Some(5));
    assert_eq!(pr.score.len(), 2);
    assert_eq!(pr.score(), Some(5));
    assert_eq!(pr.pr_id(), "near/sdk/42");
    assert!(!pr.is_ready_to_move(10));
    pr.add_merge_info(1_000);
    assert_eq!(pr.ready_to_move_timestamp(), Some(1_000 + 86_400_000_000_000));
    assert!(!pr.is_ready_to_move(1_000 + 86_400_000_000_000));
    assert!(pr.is_ready_to_move(1_001 + 86_400_000_000_000));
}

#[test]
fn versioned_pr_upgrade() {
    let old = PRWithRating {
        organization: "o".to_string(),
        repo: "r".to_string(),
        number: 1,
        author: "a".to_string(),
        score: vec![],
        created_at: 77,
        merged_at: Some(5),
        streak_bonus_rating: 3,
        percentage_multiplier: 4,
    };
    let v = VersionedPR::V1(old);
    assert!(v.is_merged());
    let pr: PRv2 = v.into();
    assert_eq!(pr.included_at, 77);
    assert_eq!(pr.created_at, None);
}

#[test]
fn average_score_rounds_down() {
    let mut info = PRInfo::default();
    assert_eq!(info.average_score(), 0);
    info.votes = vec![score("a", 3), score("b", 5), score("c", 5)];
    assert_eq!(info.average_score(), 4);
}

#[test]
fn status_message_lists_votes() {
    let mut info = PRInfo::default();
    info.votes = vec![score("bob", 5)];
    info.merged = true;
    let text = info.status_message();
    assert!(text.starts_with("### 🏆 Race of Sloths Status Update 🏆\n\n"));
    assert!(text.contains("- **Scoring:**\n  - bob: 5\n"));
    assert!(text.contains("successfully merged"));
    assert!(text.contains("hasn't been executed yet"));
    info.excluded = true;
    assert!(info.status_message().ends_with("reach out to the maintainers. 🙏\n\n"));
}

fn comment(body: &str, login: &str, association: AuthorAssociation) -> Comment {
    Comment {
        id: 9,
        user_login: login.to_string(),
        author_association: association,
        created_at: 123,
        body: Some(body.to_string()),
        body_html: None,
        body_text: None,
    }
}

fn metadata(author: &str) -> PrMetadata {
    PrMetadata {
        repo_info: RepoInfo::from_issue(7, Some("near".to_string()), "sdk".to_string()).unwrap(),
        author: GithubUser::new(author.to_string(), AuthorAssociation::FirstTimer),
        created: 1,
        merged: None,
        updated_at: 1,
        body: "Please take me in @Race-Of-Sloths".to_string(),
        closed: false,
    }
}

#[test]
fn extracts_command_after_mention() {
    let c = comment("Hello @Race-of-Sloths   Score  8   please \n now", "m", AuthorAssociation::Member);
    let got = race_of_sloths::commands::extract_command_with_args("race-of-sloths", &c);
    assert_eq!(got, Some(("score".to_string(), "8 please now".to_string())));
    let c = comment("@race-of-sloths ", "m", AuthorAssociation::Member);
    let got = race_of_sloths::commands::extract_command_with_args("race-of-sloths", &c);
    assert_eq!(got, Some((String::new(), String::new())));
    let c = comment("@race-of-sloths", "m", AuthorAssociation::Member);
    assert_eq!(race_of_sloths::commands::extract_command_with_args("race-of-sloths", &c), None);
}

#[test]
fn parses_commands_by_word() {
    let pr = metadata("alice");
    let c = comment("@race-of-sloths rate 5", "bob", AuthorAssociation::Member);
    match Command::parse_command("race-of-sloths", &pr, &c) {
        Some(Command::Score(s)) => {
            assert_eq!(s.score, "5");
            assert_eq!(s.comment_id, 9);
            assert_eq!(s.score(), (5, false));
        }
        _ => panic!("expected a score"),
    }
    let c = comment("@race-of-sloths join", "bob", AuthorAssociation::Member);
    assert!(matches!(Command::parse_command("race-of-sloths", &pr, &c), Some(Command::Include(_))));
    let c = comment("@race-of-sloths dance now", "bob", AuthorAssociation::Member);
    match Command::parse_command("race-of-sloths", &pr, &c) {
        Some(Command::Unknown(u)) => {
            assert_eq!(u.command, "dance");
            assert_eq!(u.args, "now");
        }
        _ => panic!("expected an unknown command"),
    }
    assert!(Command::parse_body("race-of-sloths", &pr).is_none());
    assert!(Command::parse_body("Race-Of-Sloths", &pr).is_some());
}

#[test]
fn scores_are_corrected_to_the_nearest_valid_one() {
    let pr = metadata("alice");
    let read = |input: &str| {
        let s = BotScored::new(
            GithubUser::new("bob".to_string(), AuthorAssociation::Member),
            pr.clone(),
            input.to_string(),
            0,
            1,
        );
        s.score()
    };
    assert_eq!(read("13"), (13, false));
    assert_eq!(read("0"), (0, false));
    assert_eq!(read("4"), (3, true));
    assert_eq!(read("6"), (5, true));
    assert_eq!(read("7"), (8, true));
    assert_eq!(read("11"), (13, true));
    assert_eq!(read("200"), (13, true));
    assert_eq!(read("+8"), (8, false));
    assert_eq!(read("256"), (0, true));
    assert_eq!(read("abc"), (0, true));
    assert_eq!(read(""), (0, true));
}

#[test]
fn parse_u8_follows_std() {
    for s in ["", "+", "-1", "0", "007", "255", "256", "+12", "1a", " 1", "99999999999"] {
        assert_eq!(parse_u8(s), s.parse::<u8>().ok(), "input {s:?}");
    }
}

#[test]
fn split_whitespace_follows_std() {
    for s in ["", "  a b  ", "a\tb\nc", "\u{3000}x\u{a0}y", "one"] {
        let got: Vec<String> = split_whitespace(&chars_of(s))
            .iter()
            .map(|w| w.iter().collect())
            .collect();
        let want: Vec<String> = s.split_whitespace().map(|w| w.to_string()).collect();
        assert_eq!(got, want);
    }
}

fn info(exist: bool) -> ContractInfo {
    ContractInfo {
        allowed_org: true,
        allowed_repo: true,
        exist,
        merged: false,
        scored: false,
        executed: false,
        excluded: false,
    }
}

#[test]
fn plans_for_commands() {
    let pr = metadata("alice");
    let c = comment("@race-of-sloths score 4", "bob", AuthorAssociation::Member);
    let cmd = Command::parse_command("race-of-sloths", &pr, &c).unwrap();
    let (actions, changed) = cmd.plan(&info(true));
    assert!(changed);
    assert!(matches!(actions[0], Action::SendScored { score: 3 }));
    match &actions[1] {
        Action::Reply { comment_id, category, args } => {
            assert_eq!(*comment_id, Some(9));
            assert_eq!(*category, MsgCategory::CorrectableScoringMessage);
            assert_eq!(args[0], ("corrected_score".to_string(), "3".to_string()));
            assert_eq!(args[1], ("score".to_string(), "4".to_string()));
        }
        _ => panic!("expected a reply"),
    }

    // Not a maintainer: only an error reply.
    let c = comment("@race-of-sloths score 4", "eve", AuthorAssociation::Contributor);
    let cmd = Command::parse_command("race-of-sloths", &pr, &c).unwrap();
    let (actions, changed) = cmd.plan(&info(true));
    assert!(!changed);
    assert_eq!(actions.len(), 1);

    // Self-score.
    let c = comment("@race-of-sloths score 4", "alice", AuthorAssociation::Member);
    let cmd = Command::parse_command("race-of-sloths", &pr, &c).unwrap();
    let (actions, _) = cmd.plan(&info(true));
    assert!(matches!(&actions[0], Action::Reply { category: MsgCategory::ErrorSelfScore, .. }));

    // An unknown command on a new pull request includes it.
    let c = comment("@race-of-sloths hello", "alice", AuthorAssociation::FirstTimer);
    let cmd = Command::parse_command("race-of-sloths", &pr, &c).unwrap();
    let (actions, _) = cmd.plan(&info(false));
    assert_eq!(actions.len(), 2);
    assert!(matches!(actions[1], Action::SendStart { is_maintainer: false }));

    // Organizations that are not allowed get one reply.
    let mut closed = info(true);
    closed.allowed_org = false;
    let (actions, changed) = cmd.plan(&closed);
    assert!(!changed);
    assert!(matches!(&actions[0], Action::ReplyText { .. }));
}

#[test]
fn telegram_messages_are_escaped() {
    assert_eq!(telegram_message("a-b.c", Level::Info), "a\\-b.c");
    assert_eq!(telegram_message("a-b.c!", Level::Error), "*ERROR*: `a\\-b\\.c\\!`");
}

#[test]
fn image_types() {
    assert_eq!(determine_image_type("iVBORw0KGgoAAA"), Some("image/png"));
    assert_eq!(determine_image_type("/9j/4AAQ"), Some("image/jpeg"));
    assert_eq!(determine_image_type("R0lGOD"), None);
}

#[test]
fn pages_round_up() {
    let p = PaginatedResponse::new(vec![1, 2], 1, 50, 101);
    assert_eq!(p.total_pages, 3);
    let p = PaginatedResponse::new(Vec::<u8>::new(), 1, 50, 100);
    assert_eq!(p.total_pages, 2);
    let p = PaginatedResponse::new(Vec::<u8>::new(), 1, 50, 0);
    assert_eq!(p.total_pages, 0);
}

#[test]
fn github_meta_links_avatar() {
    let m = GithubMeta::new("sloth".to_string(), None);
    assert_eq!(m.image, "https://github.com/sloth.png");
}

#[test]
fn contribution_status_and_link() {
    let record = UserContributionRecord {
        organization_login: "near".to_string(),
        organization_full_name: None,
        repo: "sdk".to_string(),
        number: 12,
        score: Some(3),
        rating: 30,
        percentage_multiplier: 0,
        streak_bonus_rating: 0,
        executed: false,
        created_at: 0,
        merged_at: None,
    };
    let r = UserContributionResponse::from_record(record);
    assert_eq!(r.pull_request_link, "https://github.com/near/sdk/pull/12");
    assert_eq!(r.status, "Waiting for merge");
}

#[test]
fn ranks_and_templates() {
    assert_eq!(
        rank_data(30, 3),
        ("Rust".to_string(), "rust.svg".to_string(), "Rank".to_string())
    );
    assert_eq!(rank_data(7, 3).0, "Bronze");
    assert_eq!(
        rank_data(0, 1),
        ("1 day".to_string(), "unranked.svg".to_string(), "Sloth age".to_string())
    );
    assert_eq!(rank_data(0, 12).0, "12 days");
    assert_eq!(template_path("t/badge", Mode::Light), "t/badge_white.svg");
    assert_eq!(Badge::with_status(404).status, 404);
}
