use race_of_sloths::bot::{PRInfo as ContractInfo};
use race_of_sloths::commands::{BotScored, Command, Comment};
use race_of_sloths::github::{AuthorAssociation, PrMetadata, RepoInfo, User as GithubUser};
use race_of_sloths::messages::robots;
use race_of_sloths::records::{UserPeriodRecord, UserRecord};
use race_of_sloths::responses::{Badge, Env, PaginatedResponse};
use race_of_sloths::timeperiod::TimePeriod;

fn metadata(author: &str, association: AuthorAssociation) -> PrMetadata {
    PrMetadata {
        repo_info: RepoInfo::from_issue(3, Some("near".to_string()), "sdk".to_string()).unwrap(),
        author: GithubUser::new(author.to_string(), association),
        created: 1,
        merged: None,
        updated_at: 1,
        body: String::new(),
        closed: false,
    }
}

fn comment(body: &str, login: &str, association: AuthorAssociation) -> Comment {
    Comment {
        id: 4,
        user_login: login.to_string(),
        author_association: association,
        created_at: 5,
        body: Some(body.to_string()),
        body_html: None,
        body_text: None,
    }
}

fn info() -> ContractInfo {
    ContractInfo { allowed_org: true, allowed_repo: true, exist: true, merged: false, scored: false, executed: false, excluded: false }
}

#[test]
fn an_executed_pull_request_is_final() {
    let pr = metadata("alice", AuthorAssociation::FirstTimer);
    let mut done = info();
    done.executed = true;
    for body in ["@race-of-sloths score 5", "@race-of-sloths pause", "@race-of-sloths include", "@race-of-sloths what"] {
        let c = comment(body, "bob", AuthorAssociation::Owner);
        let cmd = Command::parse_command("race-of-sloths", &pr, &c).unwrap();
        let (actions, changed) = cmd.plan(&done);
        assert!(actions.is_empty() && !changed);
    }
}

#[test]
fn only_maintainers_change_state() {
    let pr = metadata("alice", AuthorAssociation::FirstTimer);
    for body in ["@race-of-sloths score 5", "@race-of-sloths pause", "@race-of-sloths exclude"] {
        let c = comment(body, "eve", AuthorAssociation::Contributor);
        let cmd = Command::parse_command("race-of-sloths", &pr, &c).unwrap();
        assert!(!cmd.plan(&info()).1);
    }
}

#[test]
fn accepted_scores() {
    let pr = metadata("alice", AuthorAssociation::FirstTimer);
    let score = |input: &str, sender: &str, association: AuthorAssociation| {
        BotScored::new(GithubUser::new(sender.to_string(), association), pr.clone(), input.to_string(), 0, 1)
            .is_accepted()
    };
    assert!(score("5", "bob", AuthorAssociation::Member));
    assert!(!score("8", "bob", AuthorAssociation::Member));
    assert!(!score("5", "eve", AuthorAssociation::Contributor));
    assert!(!score("5", "alice", AuthorAssociation::Member));
}

#[test]
fn pages_cover_every_record() {
    for (total, limit) in [(0u64, 1u64), (1, 1), (49, 50), (50, 50), (51, 50), (u64::MAX, 7)] {
        let pages = PaginatedResponse::new(Vec::<u8>::new(), 1, limit, total).total_pages as u128;
        assert!(pages * limit as u128 >= total as u128);
        if total > 0 {
            assert!((pages - 1) * (limit as u128) < total as u128);
        } else {
            assert_eq!(pages, 0);
        }
    }
}

#[test]
fn small_texts_and_settings() {
    assert_eq!(robots(), "User-agent: *\nDisallow:");
    let b = Badge::new_ong(vec![1, 2]);
    assert_eq!((b.svg, b.png, b.status), (None, Some(vec![1, 2]), 200));
    let env = Env {
        contract: "c".to_string(),
        rpc_addr: None,
        secret_key: "k".to_string(),
        is_mainnet: false,
        near_timeout_in_seconds: None,
        github_timeout_in_minutes: Some(2),
        github_token: "t".to_string(),
        telegram_token: "t".to_string(),
        telegram_chat_id: "c".to_string(),
        font: "f".to_string(),
    };
    assert_eq!(env.near_sleep_seconds(), 20);
    assert_eq!(env.github_sleep_seconds(), 120);
    let env = Env { near_timeout_in_seconds: Some(3), github_timeout_in_minutes: None, ..env };
    assert_eq!(env.near_sleep_seconds(), 3);
    assert_eq!(env.github_sleep_seconds(), 3600);
}

#[test]
fn current_month_of_a_user() {
    let now: u64 = 1_718_000_000_000_000_000; // 2024-06-10
    let month = TimePeriod::Month.time_string(now);
    let row = |period: &str, opened: i32| UserPeriodRecord {
        period_type: period.to_string(),
        total_score: 0,
        executed_prs: 0,
        largest_score: 0,
        prs_opened: opened,
        prs_merged: 0,
        total_rating: 0,
    };
    let user = UserRecord {
        id: 1,
        login: "sloth".to_string(),
        first_contribution: 0,
        name: None,
        lifetime_percent: 0,
        period_data: vec![row("all-time", 9), row(&month, 4)],
        streaks: vec![],
        leaderboard_places: vec![],
    };
    assert_eq!(user.get_current_month(now).unwrap().prs_opened, 4);
    assert_eq!(user.get_total_period().unwrap().prs_opened, 9);
    assert!(user.get_current_month(0).is_none());
}
