use race_of_sloths::badge::{
    badge_step, png_badge_response, svg_badge_response, BadgeStep, UserLookup,
    age_days, badge_kind, badge_template, best_place, challenge_icon, challenge_subtitle,
    contribution_text, grouped_string, meta_badge, metadata_is_fresh, parse_pr_reference,
    replace_all, replace_each, sloth_id, svg_badge, svg_badge_files, BadgeAssets, BadgeError,
    BadgeKind, BadgeTemplate,
};
use race_of_sloths::bot::{Action, MsgCategory, PRInfo as ContractInfo};
use race_of_sloths::commands::{Command, Comment};
use race_of_sloths::events::is_relevant_notification;
use race_of_sloths::github::{AuthorAssociation, PrMetadata, RepoInfo, User as GithubUser};
use race_of_sloths::health::HealthMonitor;
use race_of_sloths::lifecycle::{Event, PullRequestFinalize, PullRequestMerge, PullRequestStale};
use race_of_sloths::pr::{PRInfo, PRv2, Score};
use race_of_sloths::records::{
    UserCachedMetadata, UserContributionRecord, UserPeriodRecord, UserRecord,
};
use race_of_sloths::responses::Mode;
use race_of_sloths::timeperiod::TimePeriod;
use race_of_sloths::stats::{pr_in_period, pr_stats, sort_by_key, user_stats, PrEntry, ProjectPrs};

const DAY: i64 = 86_400_000_000_000;

fn user() -> UserRecord {
    UserRecord {
        id: 42,
        login: "alice".to_string(),
        first_contribution: 0,
        name: None,
        lifetime_percent: 30,
        period_data: vec![UserPeriodRecord {
            period_type: "all-time".to_string(),
            total_score: 9,
            executed_prs: 2,
            largest_score: 5,
            prs_opened: 3,
            prs_merged: 2,
            total_rating: 12345,
        }],
        streaks: vec![],
        leaderboard_places: vec![("all-time".to_string(), 5), ("2024-06".to_string(), 3)],
    }
}

fn avatar(image: &str) -> UserCachedMetadata {
    UserCachedMetadata { image_base64: image.to_string(), load_time: 0 }
}

#[test]
fn replace_all_replaces_every_occurrence_from_the_left() {
    assert_eq!(replace_all("{a}-{a}-{b}", "{a}", "x"), "x-x-{b}");
    assert_eq!(replace_all("aaa", "aa", "b"), "ba");
    assert_eq!(replace_all("abc", "", "z"), "abc");
    assert_eq!(replace_all("", "{a}", "x"), "");
    let pairs = vec![("{a}".to_string(), "{b}".to_string()), ("{b}".to_string(), "c".to_string())];
    assert_eq!(replace_each("{a}{b}", &pairs), "cc");
}

#[test]
fn numbers_are_grouped_by_thousands() {
    assert_eq!(grouped_string(0), "0");
    assert_eq!(grouped_string(999), "999");
    assert_eq!(grouped_string(1000), "1,000");
    assert_eq!(grouped_string(1234567), "1,234,567");
    assert_eq!(grouped_string(-1005), "-1,005");
    assert_eq!(grouped_string(i64::MIN), "-9,223,372,036,854,775,808");
}

#[test]
fn sloth_names_are_padded() {
    assert_eq!(sloth_id(42), "Sloth#0042");
    assert_eq!(sloth_id(12345), "Sloth#12345");
    assert_eq!(sloth_id(-5), "Sloth#-005");
    assert_eq!(sloth_id(i32::MAX), "Newcomer");
}

#[test]
fn best_place_is_the_first_smallest() {
    assert_eq!(best_place(&vec![]), ("Global".to_string(), "N/A".to_string()));
    let places = vec![("2024-06".to_string(), 3), ("all-time".to_string(), 3)];
    assert_eq!(best_place(&places), ("Monthly".to_string(), "3".to_string()));
    let places = vec![("2024-06".to_string(), 9), ("all-time".to_string(), 3)];
    assert_eq!(best_place(&places), ("Global".to_string(), "3".to_string()));
}

#[test]
fn badge_templates_and_texts() {
    assert_eq!(badge_template(false, true), Ok(BadgeTemplate::Bot));
    assert_eq!(badge_template(true, true), Ok(BadgeTemplate::BotWithPr));
    assert_eq!(badge_template(false, false), Ok(BadgeTemplate::Share));
    assert_eq!(badge_template(true, false), Err(BadgeError::PrInfoWithoutMetadata));
    assert_eq!(challenge_subtitle(true, true), "Great job! Relax and take your time.. Or keep running!");
    assert_eq!(challenge_subtitle(false, false), "Not completed yet… You can do it!");
    assert_eq!(challenge_icon(true, false, Mode::Light), "public/streaks/streak_part_done_white.svg");
    assert_eq!(challenge_icon(false, false, Mode::Dark), "public/streaks/streak_not_done.svg");
    assert_eq!(contribution_text(13, true), "This is the way, sloth! You've got 13 points!");
    assert_eq!(contribution_text(8, false), "Keep it up, sloth! You've got 8 points!");
    assert_eq!(contribution_text(0, false), "Stay calm and keep pushing, sloth!");
}

#[test]
fn sloth_age_counts_the_first_day() {
    assert_eq!(age_days(0, 0), 1);
    assert_eq!(age_days((DAY - 1) as u64, 0), 1);
    assert_eq!(age_days(DAY as u64, 0), 2);
    assert_eq!(age_days(0, DAY + 5), 0);
    assert!(metadata_is_fresh((DAY - 1) as u64, 0));
    assert!(!metadata_is_fresh(DAY as u64, 0));
}

#[test]
fn shared_badge_fills_the_template() {
    let template = "{login}|{sloth-id}|{total-contributions}|{week-streak}|{place}|{place-type}|{total-rating}|{rank}|{rank-svg}|{rank-title}|{image-type}";
    let assets = BadgeAssets { challenge: String::new(), pr_state: String::new(), rank: "<r/>".to_string() };
    let u = user();
    let a = avatar("/9j/abc");
    let text = svg_badge(template, &u, Some(&a), None, &assets, 0);
    assert_eq!(text, "alice|Sloth#0042|3|0|3|Monthly|12,345|Rust|<r/>|Rank|image/jpeg");
    // Without the avatar the avatar's marks stay.
    let text = svg_badge(template, &u, None, None, &assets, 0);
    assert_eq!(text, "{login}|{sloth-id}|3|0|3|Monthly|12,345|Rust|<r/>|Rank|{image-type}");
}

#[test]
fn bot_badge_on_a_pull_request() {
    let u = user();
    let a = avatar("iVBORw0KGgoxyz");
    let c = UserContributionRecord {
        organization_login: "near".to_string(),
        organization_full_name: None,
        repo: "sdk".to_string(),
        number: 7,
        score: Some(5),
        rating: 50,
        percentage_multiplier: 0,
        streak_bonus_rating: 0,
        created_at: 0,
        merged_at: None,
        executed: false,
    };
    let files = svg_badge_files(&u, true, Some(&c), Mode::Dark, 0).unwrap();
    assert_eq!(files.template, "./public/templates/badge_bot_with_pr_info_dark.svg");
    assert_eq!(files.pr_state, Some("public/pr_state/in-progress.svg".to_string()));
    assert_eq!(files.rank, "./public/ranks/rust.svg");
    assert!(svg_badge_files(&u, false, Some(&c), Mode::Dark, 0).is_err());
    let assets = BadgeAssets { challenge: "C".to_string(), pr_state: "P".to_string(), rank: "R".to_string() };
    let template = "{pr-status-title}/{pr-status-text}/{pr-status-svg}/{challenge-svg}/{image-type}";
    let text = svg_badge(template, &u, Some(&a), Some(&c), &assets, 0);
    assert_eq!(text, "Your PR status: Waiting for merge/Keep it up, sloth! You've got 50 points!/P/C/image/png");
}

#[test]
fn meta_badge_uses_the_handle_without_a_name() {
    let u = user();
    let a = avatar("zzz");
    let text = meta_badge("{name} {github-handle} {total-contributions} {image-type} {rank-svg}", &u, &a, "R", 0);
    assert_eq!(text, "@alice @alice 3 image/png R");
}

#[test]
fn badge_requests_are_read() {
    assert!(matches!(badge_kind(None, None), BadgeKind::Share));
    assert!(matches!(badge_kind(Some("meta"), Some("x")), BadgeKind::Meta));
    assert!(matches!(badge_kind(Some("bot"), Some("near/sdk")), BadgeKind::Bot));
    assert!(matches!(badge_kind(Some("other"), None), BadgeKind::Unknown));
    match badge_kind(Some("bot"), Some("near/sdk/12/extra")) {
        BadgeKind::BotWithPr { owner, repo, number } => {
            assert_eq!((owner.as_str(), repo.as_str(), number), ("near", "sdk", 12));
        }
        _ => panic!("expected a pull request"),
    }
    assert_eq!(parse_pr_reference("a/b/-3"), Some(("a".to_string(), "b".to_string(), -3)));
    assert_eq!(parse_pr_reference("a/b/+3"), Some(("a".to_string(), "b".to_string(), 3)));
    assert_eq!(parse_pr_reference("a/b/2147483648"), None);
    assert_eq!(parse_pr_reference("a/b/-2147483648"), Some(("a".to_string(), "b".to_string(), i32::MIN)));
    assert_eq!(parse_pr_reference("a/b/"), None);
    assert_eq!(parse_pr_reference("a/b"), None);
    assert_eq!(parse_pr_reference("//1"), Some((String::new(), String::new(), 1)));
}

fn prs(entries: &[(&str, bool)]) -> Vec<PrEntry> {
    entries.iter().map(|(l, s)| PrEntry { login: l.to_string(), with_sloth: *s }).collect()
}

#[test]
fn stats_report_orders_by_prs_without_the_bot() {
    let projects = vec![
        ProjectPrs { org: "near".into(), repo: "sdk".into(), prs: prs(&[("alice", true), ("bob", false), ("alice", false)]) },
        ProjectPrs { org: "a".into(), repo: "b".into(), prs: prs(&[("carol", false), ("carol", false), ("bob", false)]) },
    ];
    let report = pr_stats("Weekly", &projects);
    assert_eq!(
        report.message,
        "Weekly PR stats:\n- [a/b](https://github.com/a/b) - 3 PRs, 0 PRs with sloth, 3 Difference\n\n- [near/sdk](https://github.com/near/sdk) - 3 PRs, 1 PRs with sloth, 2 Difference\n"
    );
    assert_eq!(report.csv, "User;Total PRs;Sloth PRs;Difference\nbob;2;0;2\ncarol;2;0;2\nalice;2;1;1");
    let users = user_stats(&projects);
    let got: Vec<(String, u32, u32)> = users.into_iter().map(|u| (u.login, u.total, u.with_sloth)).collect();
    assert_eq!(got, vec![("alice".to_string(), 2, 1), ("bob".to_string(), 2, 0), ("carol".to_string(), 2, 0)]);
}

#[test]
fn stats_report_shows_ten_projects() {
    let projects: Vec<ProjectPrs> = (0..12)
        .map(|i| ProjectPrs { org: format!("o{i}"), repo: "r".into(), prs: prs(&[("x", false)]) })
        .collect();
    let report = pr_stats("Monthly", &projects);
    assert_eq!(report.message.matches("Difference").count(), 10);
    assert!(report.message.contains("[o9/r]"));
    assert!(!report.message.contains("[o10/r]"));
    let empty = pr_stats("Weekly", &vec![]);
    assert_eq!(empty.message, "Weekly PR stats:");
    assert_eq!(empty.csv, "User;Total PRs;Sloth PRs;Difference");
}

#[test]
fn sorting_by_key_is_stable() {
    let sorted = sort_by_key(vec![("a", 1), ("b", 3), ("c", 1), ("d", 3), ("e", 2)]);
    assert_eq!(sorted, vec![("b", 3), ("d", 3), ("e", 2), ("a", 1), ("c", 1)]);
}

fn comment(id: u64, body: &str, login: &str) -> Comment {
    Comment {
        id,
        user_login: login.to_string(),
        author_association: AuthorAssociation::Member,
        created_at: id as i64,
        body: Some(body.to_string()),
        body_html: None,
        body_text: None,
    }
}

fn metadata(body: &str) -> PrMetadata {
    PrMetadata {
        repo_info: RepoInfo::from_issue(7, Some("near".to_string()), "sdk".to_string()).unwrap(),
        author: GithubUser::new("dave".to_string(), AuthorAssociation::FirstTimer),
        created: 1,
        merged: None,
        updated_at: 1,
        body: body.to_string(),
        closed: false,
    }
}

#[test]
fn commands_are_read_since_the_bots_last_comment() {
    let bot = "race-of-sloths";
    let pr = metadata("@race-of-sloths please");
    let comments = vec![
        comment(1, "@race-of-sloths include", "alice"),
        comment(2, "thanks", bot),
        comment(3, "@race-of-sloths score 5", "bob"),
        comment(4, "@race-of-sloths pause", "carol"),
        comment(5, "nice", "erin"),
    ];
    let got = Command::from_comments(bot, &pr, &comments);
    assert_eq!(got.len(), 2);
    assert!(matches!(&got[0], Command::Pause(p) if p.comment_id == 4));
    assert!(matches!(&got[1], Command::Score(s) if s.comment_id == 3 && s.score == "5"));
    // Never addressed, no mention: the description's request.
    let quiet = vec![comment(1, "hello", "alice")];
    let got = Command::from_comments(bot, &pr, &quiet);
    assert_eq!(got.len(), 1);
    assert!(matches!(&got[0], Command::Include(i) if i.comment_id.is_none() && i.sender.login == "dave"));
    // The bot has spoken and nobody since: nothing.
    let answered = vec![comment(1, "@race-of-sloths include", "alice"), comment(2, "ok", bot)];
    assert!(Command::from_comments(bot, &pr, &answered).is_empty());
    assert!(Command::from_comments(bot, &metadata("no mention"), &vec![]).is_empty());
}

#[test]
fn only_pull_request_mentions_and_state_changes_are_read() {
    assert!(is_relevant_notification("PullRequest", "mention"));
    assert!(is_relevant_notification("PullRequest", "state_change"));
    assert!(!is_relevant_notification("PullRequest", "subscribed"));
    assert!(!is_relevant_notification("Issue", "mention"));
}

#[test]
fn quiet_tasks_are_reported() {
    let limit: u64 = 600_000_000_000;
    let mut m = HealthMonitor::new();
    assert_eq!(m.overdue(u64::MAX), None);
    m.im_alive("contract", 0);
    m.im_alive("github", 100);
    assert_eq!(m.overdue(limit), None);
    assert_eq!(m.overdue(limit + 1), Some("contract".to_string()));
    m.im_alive("contract", limit);
    assert_eq!(m.overdue(limit + 100), None);
    assert_eq!(m.overdue(limit + 101), Some("github".to_string()));
}

fn contract_info(merged: bool, executed: bool, allowed_repo: bool) -> ContractInfo {
    ContractInfo { allowed_org: true, allowed_repo, exist: true, merged, scored: false, executed, excluded: false }
}

#[test]
fn pull_request_lifecycle_plans() {
    let merged = PrMetadata { merged: Some(5), ..metadata("") };
    assert!(PullRequestMerge::new(metadata("")).is_none());
    let merge = PullRequestMerge::new(merged).unwrap();
    let votes = vec![
        Score { user: "m1".to_string(), score: 3 },
        Score { user: "m2".to_string(), score: 8 },
    ];
    let info = PRInfo { votes, allowed_repo: true, paused: false, exist: true, merged: true, executed: false, excluded: false };
    let (actions, handled) = merge.plan(&info);
    assert!(handled);
    assert!(matches!(actions[0], Action::SendMerge));
    match &actions[1] {
        Action::Reply { comment_id: None, category: MsgCategory::MergeWithScoreMessage, args } => {
            assert_eq!(args, &vec![("score".to_string(), "5".to_string())]);
        }
        _ => panic!("expected the score reply"),
    }
    let no_votes = PRInfo { votes: vec![], ..info };
    let (actions, _) = merge.plan(&no_votes);
    assert!(matches!(&actions[1], Action::Reply { category: MsgCategory::MergeWithoutScoreMessage, .. }));

    let pr = PRv2::new("near".to_string(), "sdk".to_string(), 7, "dave".to_string(), 1, 1);
    let finalize = PullRequestFinalize::new(pr);
    assert_eq!(finalize.pr_metadata.repo_info.full_id, "near/sdk/7");
    assert!(finalize.plan(&contract_info(true, true, true)).is_empty());
    let steps = finalize.plan(&contract_info(true, false, true));
    assert!(matches!(steps[0], Action::SendFinalize));
    assert!(matches!(&steps[1], Action::ReplyText { text } if text.starts_with("The PR has been finalized.")));

    let stale = PullRequestStale { pr_metadata: metadata("") };
    assert!(stale.plan(&contract_info(true, false, true)).is_empty());
    assert_eq!(stale.plan(&contract_info(false, false, false)).len(), 1);
    let steps = stale.plan(&contract_info(false, false, true));
    assert!(matches!(&steps[1], Action::ReplyText { text } if text.contains("inactive for two weeks")));
}

#[test]
fn pull_request_identifiers_name_the_pull_request_back() {
    let info = RepoInfo::from_issue(1234, Some("near".to_string()), "sdk-rs".to_string()).unwrap();
    assert_eq!(info.full_id, "near/sdk-rs/1234");
    assert_eq!(parse_pr_reference(&info.full_id), Some(("near".to_string(), "sdk-rs".to_string(), 1234)));
    assert_eq!(replace_all("no marks here", "{rank}", "Gold"), "no marks here");
}

fn fields() -> race_of_sloths::github::PullRequestFields {
    race_of_sloths::github::PullRequestFields {
        number: 5,
        base_repo: Some((Some("near".to_string()), "sdk".to_string())),
        user_login: Some("dave".to_string()),
        title: Some("Fix the docs".to_string()),
        author_association: Some(AuthorAssociation::Contributor),
        created_at: Some(10),
        updated_at: Some(20),
        merged_at: None,
        closed_at: Some(30),
        body: None,
        body_text: Some("text".to_string()),
        body_html: Some("<p>html</p>".to_string()),
    }
}

#[test]
fn pull_requests_from_github_are_read() {
    let m = PrMetadata::from_pull_request(fields()).unwrap();
    assert_eq!(m.repo_info.full_id, "near/sdk/5");
    assert_eq!(m.author.login, "dave");
    assert_eq!(m.body, "text");
    assert_eq!((m.created, m.updated_at, m.merged, m.closed), (10, 20, None, true));
    let missing_owner = race_of_sloths::github::PullRequestFields { base_repo: Some((None, "sdk".to_string())), ..fields() };
    assert_eq!(
        PrMetadata::from_pull_request(missing_owner).err(),
        Some(race_of_sloths::github::PullRequestError::MissingRequiredFields)
    );
    let no_update = race_of_sloths::github::PullRequestFields { updated_at: None, ..fields() };
    assert!(PrMetadata::from_pull_request(no_update).is_err());
    let no_body = race_of_sloths::github::PullRequestFields { body_text: None, body_html: None, ..fields() };
    assert_eq!(PrMetadata::from_pull_request(no_body).unwrap().body, "");
}

#[test]
fn events_pass_the_common_checks_first() {

    let scores = PRInfo { votes: vec![], allowed_repo: true, paused: false, exist: true, merged: true, executed: false, excluded: false };
    let stale = Event::Stale(PullRequestStale { pr_metadata: metadata("") });
    assert_eq!(stale.pr().repo_info.full_id, "near/sdk/7");
    let (steps, changed) = stale.plan(&contract_info(false, false, true), &scores);
    assert!(!changed);
    assert!(matches!(steps[0], Action::SendStale));
    let mut excluded = contract_info(false, false, true);
    excluded.excluded = true;
    assert!(stale.plan(&excluded, &scores).0.is_empty());
    let mut foreign = contract_info(false, false, true);
    foreign.allowed_org = false;
    let (steps, _) = stale.plan(&foreign, &scores);
    assert!(matches!(&steps[0], Action::ReplyText { text } if text == "The organization is not a part of the allowed organizations."));
    let merged = Event::Merged(PullRequestMerge::new(PrMetadata { merged: Some(5), ..metadata("") }).unwrap());
    let (steps, handled) = merged.plan(&contract_info(true, false, true), &scores);
    assert!(handled);
    assert!(matches!(steps[0], Action::SendMerge));
    assert!(matches!(&steps[1], Action::Reply { category: MsgCategory::MergeWithoutScoreMessage, .. }));
    let (steps, handled) = merged.plan(&contract_info(true, true, true), &scores);
    assert!(steps.is_empty() && !handled);
}

#[test]
fn pull_requests_count_from_the_first_day_of_the_period() {

    let june_10: i64 = 1_718_000_000_000_000_000; // 2024-06-10T06:13:20Z
    assert!(pr_in_period(Some(june_10), None, (2024, 6, 10)));
    assert!(pr_in_period(Some(june_10), None, (2024, 5, 31)));
    assert!(!pr_in_period(Some(june_10), None, (2024, 6, 11)));
    assert!(!pr_in_period(None, Some(june_10), (2025, 1, 1)));
    assert!(pr_in_period(None, Some(june_10), (2023, 12, 31)));
    assert!(pr_in_period(None, None, (1970, 1, 1)));
    assert!(!pr_in_period(None, None, (1970, 1, 2)));
}

#[test]
fn pull_request_heads_need_a_title_but_no_update_time() {
    let h = race_of_sloths::github::PullRequestHeader::from_pull_request(fields()).unwrap();
    assert_eq!((h.owner.as_str(), h.repo.as_str(), h.number, h.full_id.as_str()), ("near", "sdk", 5, "near/sdk/5"));
    assert_eq!((h.title.as_str(), h.started, h.merged, h.author.login.as_str()), ("Fix the docs", 10, None, "dave"));
    let no_update = race_of_sloths::github::PullRequestFields { updated_at: None, ..fields() };
    assert!(race_of_sloths::github::PullRequestHeader::from_pull_request(no_update).is_ok());
    let no_title = race_of_sloths::github::PullRequestFields { title: None, ..fields() };
    assert!(race_of_sloths::github::PullRequestHeader::from_pull_request(no_title.clone()).is_err());
    assert!(PrMetadata::from_pull_request(no_title).is_ok());
    assert!(GithubUser::new("c".to_string(), AuthorAssociation::Contributor).is_participant());
    assert!(!GithubUser::new("c".to_string(), AuthorAssociation::Owner).is_participant());
}

#[test]
fn badge_requests_are_answered() {
    assert!(matches!(badge_step(BadgeKind::Unknown, UserLookup::Found), BadgeStep::Answer(404)));
    assert!(matches!(badge_step(BadgeKind::Unknown, UserLookup::Failed), BadgeStep::Answer(500)));
    assert!(matches!(badge_step(BadgeKind::Share, UserLookup::Failed), BadgeStep::Answer(500)));
    assert!(matches!(badge_step(BadgeKind::Meta, UserLookup::Missing), BadgeStep::Draw { kind: BadgeKind::Meta, newcomer: true }));
    assert!(matches!(badge_step(BadgeKind::Bot, UserLookup::Found), BadgeStep::Draw { kind: BadgeKind::Bot, newcomer: false }));
    let ok = svg_badge_response(Some("<svg/>".to_string()));
    assert_eq!((ok.svg, ok.status), (Some("<svg/>".to_string()), 200));
    assert_eq!(svg_badge_response(None).status, 500);
    assert_eq!(png_badge_response(None).status, 500);
    let newcomer = UserRecord::newcommer("zoe".to_string(), 77);
    assert_eq!((newcomer.id, newcomer.first_contribution, newcomer.lifetime_percent), (i32::MAX, 77, 0));
    assert_eq!(sloth_id(newcomer.id), "Newcomer");
    let c = UserContributionRecord::new_pull_request("near".to_string(), "sdk".to_string(), 4, 9);
    assert!(c.score.is_none() && !c.executed && c.merged_at.is_none() && c.created_at == 9);
}

#[test]
fn a_day_ends_where_the_next_begins() {
    let t: u64 = 1_718_000_000_123_456_789;
    let start = TimePeriod::Day.start_period(t).unwrap();
    let end = TimePeriod::Day.end_period(t).unwrap();
    assert_eq!(start, 1_717_977_600);
    assert_eq!(end, start + 86_400);
    let end_nanos = end as u64 * 1_000_000_000;
    assert_eq!(TimePeriod::Day.start_period(end_nanos), Some(end));
    assert_eq!(TimePeriod::Day.start_period(end_nanos - 1), Some(start));
}
