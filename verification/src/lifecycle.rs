//! What the bot does when a pull request it follows is merged, goes stale,
//! or is due to be finalized: the contract calls and the replies, given
//! what the contract reports. Running them is the caller's.
use vstd::prelude::*;

use crate::bot::{actions_view, is_plan, not_allowed_text, plain_reply, Action, ActionView, MsgCategory, PRInfo};
use crate::commands::Command;
use crate::github::{metadata_of_pr, PrMetadata};
use crate::pr::{self, score_sum, PRv2};
use crate::text::{decimal, decimal_string, push_str};

verus! {

/// A merged pull request to report to the contract.
#[derive(Debug, Clone)]
pub struct PullRequestMerge {
    pub pr_metadata: PrMetadata,
}

/// A pull request to finalize.
#[derive(Debug, Clone)]
pub struct PullRequestFinalize {
    pub pr_metadata: PrMetadata,
}

/// A pull request that went stale.
#[derive(Debug, Clone)]
pub struct PullRequestStale {
    pub pr_metadata: PrMetadata,
}

/// The reply when a pull request is finalized.
pub open spec fn finalized_text() -> Seq<char> {
    "The PR has been finalized. Thank you for your contribution! The scoring process is closed now."@
}

/// The reply when a pull request goes stale.
pub open spec fn stale_text() -> Seq<char> {
    "The PR has been inactive for two weeks. We are staling it now. If you want to continue, please restart the bot with `include` command"@
}

/// The average of the votes, rounded down; zero without votes.
pub open spec fn average_of(info: pr::PRInfo) -> nat {
    if info.votes@.len() == 0 {
        0
    } else {
        score_sum(info.votes@) / info.votes@.len()
    }
}

/// What a merge does: tell the contract, then reply with the average score
/// if the pull request has votes and its repository is allowed, else with
/// the message for a merge without score.
pub open spec fn merge_plan(info: pr::PRInfo) -> Seq<ActionView> {
    if info.votes@.len() > 0 && info.allowed_repo {
        seq![
            ActionView::SendMerge,
            ActionView::Reply {
                comment_id: None,
                category: MsgCategory::MergeWithScoreMessage,
                args: seq![("score"@, decimal(average_of(info)))],
            },
        ]
    } else {
        seq![ActionView::SendMerge, plain_reply(None, MsgCategory::MergeWithoutScoreMessage)]
    }
}

/// What finalizing does: nothing for a pull request already executed; else
/// tell the contract and reply.
pub open spec fn finalize_plan(info: PRInfo) -> Seq<ActionView> {
    if info.executed {
        Seq::empty()
    } else {
        seq![ActionView::SendFinalize, ActionView::ReplyText { text: finalized_text() }]
    }
}

/// What staling does: nothing for a merged pull request; else tell the
/// contract, and reply if the repository is allowed.
pub open spec fn stale_plan(info: PRInfo) -> Seq<ActionView> {
    if info.merged {
        Seq::empty()
    } else if info.allowed_repo {
        seq![ActionView::SendStale, ActionView::ReplyText { text: stale_text() }]
    } else {
        seq![ActionView::SendStale]
    }
}

fn text_action(s: &str) -> (res: Action)
    ensures
        res.view() == (ActionView::ReplyText { text: s@ }),
{
    let mut text = String::new();
    push_str(&mut text, s);
    assert(text@ =~= s@);
    Action::ReplyText { text }
}

impl PullRequestMerge {
    /// A merge to report, if the pull request is merged.
    pub fn new(pr_metadata: PrMetadata) -> (res: Option<Self>)
        ensures
            pr_metadata.merged is Some ==> res == Some(PullRequestMerge { pr_metadata }),
            pr_metadata.merged is None ==> res is None,
    {
        if pr_metadata.merged.is_some() {
            Some(PullRequestMerge { pr_metadata })
        } else {
            None
        }
    }

    /// What the merge does. The bot reports it handled the event.
    pub fn plan(&self, info: &pr::PRInfo) -> (res: (Vec<Action>, bool))
        requires
            score_sum(info.votes@) <= u32::MAX,
            info.votes@.len() <= u32::MAX,
        ensures
            actions_view(res.0@) == merge_plan(*info),
            res.1,
    {
        let mut actions: Vec<Action> = Vec::new();
        actions.push(Action::SendMerge);
        if info.votes.len() > 0 && info.allowed_repo {
            let average = info.average_score();
            let mut key = String::new();
            push_str(&mut key, "score");
            let mut args: Vec<(String, String)> = Vec::new();
            args.push((key, decimal_string(average as u64)));
            let reply = Action::Reply {
                comment_id: None,
                category: MsgCategory::MergeWithScoreMessage,
                args,
            };
            proof {
                assert(average == average_of(*info));
            }
            assert(reply.view() =~= merge_plan(*info)[1]);
            actions.push(reply);
        } else {
            let args: Vec<(String, String)> = Vec::new();
            let reply = Action::Reply {
                comment_id: None,
                category: MsgCategory::MergeWithoutScoreMessage,
                args,
            };
            assert(reply.view() =~= merge_plan(*info)[1]);
            actions.push(reply);
        }
        assert(actions_view(actions@) =~= merge_plan(*info));
        (actions, true)
    }
}

impl PullRequestFinalize {
    /// A pull request of the contract to finalize.
    pub fn new(pr: PRv2) -> (res: Self)
        ensures
            res.pr_metadata.repo_info.owner == pr.organization,
            res.pr_metadata.repo_info.repo == pr.repo,
            res.pr_metadata.repo_info.number == pr.number,
            res.pr_metadata.author.login == pr.author,
    {
        PullRequestFinalize { pr_metadata: metadata_of_pr(pr) }
    }

    /// What finalizing does.
    pub fn plan(&self, info: &PRInfo) -> (res: Vec<Action>)
        ensures
            actions_view(res@) == finalize_plan(*info),
    {
        let mut actions: Vec<Action> = Vec::new();
        if info.executed {
            assert(actions_view(actions@) =~= finalize_plan(*info));
            return actions;
        }
        actions.push(Action::SendFinalize);
        actions.push(
            text_action(
                "The PR has been finalized. Thank you for your contribution! The scoring process is closed now.",
            ),
        );
        assert(actions_view(actions@) =~= finalize_plan(*info));
        actions
    }
}

impl PullRequestStale {
    /// What staling does.
    pub fn plan(&self, info: &PRInfo) -> (res: Vec<Action>)
        ensures
            actions_view(res@) == stale_plan(*info),
    {
        let mut actions: Vec<Action> = Vec::new();
        if info.merged {
            assert(actions_view(actions@) =~= stale_plan(*info));
            return actions;
        }
        actions.push(Action::SendStale);
        if info.allowed_repo {
            actions.push(
                text_action(
                    "The PR has been inactive for two weeks. We are staling it now. If you want to continue, please restart the bot with `include` command",
                ),
            );
        }
        assert(actions_view(actions@) =~= stale_plan(*info));
        actions
    }
}

/// Something that happened to a pull request the bot follows.
#[derive(Debug, Clone)]
pub enum Event {
    Command(Command),
    Merged(PullRequestMerge),
    Stale(PullRequestStale),
    Finalize(PullRequestFinalize),
}

/// The checks every pull request event goes through first: a pull request
/// from an organization that is not allowed gets a reply; executed pull
/// requests, paused repositories and excluded pull requests are skipped.
pub open spec fn event_precheck(info: PRInfo) -> Option<Seq<ActionView>> {
    if !info.allowed_org {
        Some(seq![ActionView::ReplyText { text: not_allowed_text() }])
    } else if info.executed || !info.allowed_repo || info.excluded {
        Some(Seq::empty())
    } else {
        None
    }
}

/// Whether `res` is what the bot does about an event: a command as its own
/// plan says; a merge, stale pull request or finalization after the common
/// checks. The flag is the command's (whether it changed the pull
/// request's state), true for a merge that was handled, and false
/// otherwise.
pub open spec fn is_event_plan(e: Event, info: PRInfo, scores: pr::PRInfo, res: (Seq<ActionView>, bool)) -> bool {
    match e {
        Event::Command(c) => is_plan(c, info, res),
        _ => match event_precheck(info) {
            Some(p) => res == (p, false),
            None => match e {
                Event::Merged(_) => res == (merge_plan(scores), true),
                Event::Stale(_) => res == (stale_plan(info), false),
                _ => res == (finalize_plan(info), false),
            },
        },
    }
}

impl Event {
    /// The pull request the event is about.
    pub fn pr(&self) -> (res: &PrMetadata)
        ensures
            match self {
                Event::Command(c) => *res == c.spec_pr(),
                Event::Merged(m) => *res == m.pr_metadata,
                Event::Stale(s) => *res == s.pr_metadata,
                Event::Finalize(f) => *res == f.pr_metadata,
            },
    {
        match self {
            Event::Command(c) => c.pr(),
            Event::Merged(m) => &m.pr_metadata,
            Event::Stale(s) => &s.pr_metadata,
            Event::Finalize(f) => &f.pr_metadata,
        }
    }

    /// What the bot does about the event, given what the contract reports
    /// about the pull request (`info`) and the pull request's votes
    /// (`scores`, read for a merge): the actions in order, and whether a
    /// command changed the pull request's state or a merge was handled.
    pub fn plan(&self, info: &PRInfo, scores: &pr::PRInfo) -> (res: (Vec<Action>, bool))
        requires
            score_sum(scores.votes@) <= u32::MAX,
            scores.votes@.len() <= u32::MAX,
        ensures
            is_event_plan(*self, *info, *scores, (actions_view(res.0@), res.1)),
    {
        if let Event::Command(c) = self {
            return c.plan(info);
        }
        if !info.allowed_org {
            let mut actions: Vec<Action> = Vec::new();
            actions.push(
                text_action("The organization is not a part of the allowed organizations."),
            );
            assert(actions_view(actions@) =~= seq![ActionView::ReplyText { text: not_allowed_text() }]);
            return (actions, false);
        }
        if info.executed || !info.allowed_repo || info.excluded {
            let actions: Vec<Action> = Vec::new();
            assert(actions_view(actions@) =~= Seq::<ActionView>::empty());
            return (actions, false);
        }
        match self {
            Event::Merged(m) => m.plan(scores),
            Event::Stale(s) => (s.plan(info), false),
            Event::Finalize(f) => (f.plan(info), false),
            Event::Command(c) => c.plan(info),
        }
    }
}

/// The contract hears of every merge, stale pull request and finalization
/// it is told about first: a merge plan always starts with the merge call;
/// a finalization or staling plan that does anything starts with its call.
pub proof fn law_contract_call_first(merge_info: pr::PRInfo, info: PRInfo)
    ensures
        merge_plan(merge_info)[0] == ActionView::SendMerge,
        finalize_plan(info).len() > 0 ==> finalize_plan(info)[0] == ActionView::SendFinalize,
        stale_plan(info).len() > 0 ==> stale_plan(info)[0] == ActionView::SendStale,
        info.executed <==> finalize_plan(info).len() == 0,
        info.merged <==> stale_plan(info).len() == 0,
{
}

} // verus!
