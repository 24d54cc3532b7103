//! What the bot does about a command, given what the contract reports about
//! the pull request: the replies to post and the contract calls to make.
//! Running the plan (GitHub replies, contract transactions) is the caller's.
use vstd::prelude::*;

use crate::commands::{
    BotExcluded, BotIncluded, BotPaused, BotScored, BotUnpaused, Command, UnknownCommand,
    score_reading,
};
use crate::github::{maintainer_association, PrMetadata, User};
use crate::text::{decimal, decimal_string, push_str};

verus! {

/// What the contract reports about a pull request and its repository.
#[derive(Debug, Clone, Copy, PartialEq, Eq, Structural)]
pub struct PRInfo {
    pub allowed_org: bool,
    pub allowed_repo: bool,
    pub exist: bool,
    pub merged: bool,
    pub scored: bool,
    pub executed: bool,
    pub excluded: bool,
}

/// Coordinates of a pull request, as sent to the contract.
#[derive(Debug, Clone)]
pub struct PRData {
    pub organization: String,
    pub repo: String,
    pub number: u64,
}

/// The kinds of message the bot posts.
#[derive(Debug, Clone, Copy, PartialEq, Eq, Structural)]
pub enum MsgCategory {
    IncludeBasicMessage,
    CorrectableScoringMessage,
    CorrectZeroScoringMessage,
    CorrectNonzeroScoringMessage,
    PauseMessage,
    UnpauseMessage,
    ExcludeMessages,
    ErrorSelfScore,
    ErrorRightsViolationMessage,
    ErrorLateIncludeMessage,
    ErrorUnknownCommandMessage,
    ErrorUnpauseUnpausedMessage,
    MergeWithScoreMessage,
    MergeWithoutScoreMessage,
}

/// One step of what the bot does.
#[derive(Debug, Clone)]
pub enum Action {
    /// Like the comment (if any), then reply with a message of the category,
    /// its placeholders filled from `args`.
    Reply { comment_id: Option<u64>, category: MsgCategory, args: Vec<(String, String)> },
    /// Reply with a fixed text.
    ReplyText { text: String },
    /// Tell the contract the pull request takes part; the sender's role
    /// decides whether the maintainer started it.
    SendStart { is_maintainer: bool },
    /// Tell the contract the maintainer's score.
    SendScored { score: u8 },
    SendPause,
    SendUnpause,
    SendExclude,
    /// Tell the contract the pull request is merged.
    SendMerge,
    /// Tell the contract the pull request is final.
    SendFinalize,
    /// Tell the contract the pull request went stale.
    SendStale,
}

/// An action, with strings as character sequences.
#[verifier::ext_equal]
pub enum ActionView {
    Reply { comment_id: Option<u64>, category: MsgCategory, args: Seq<(Seq<char>, Seq<char>)> },
    ReplyText { text: Seq<char> },
    SendStart { is_maintainer: bool },
    SendScored { score: u8 },
    SendPause,
    SendUnpause,
    SendExclude,
    SendMerge,
    SendFinalize,
    SendStale,
}

impl Action {
    pub open spec fn view(self) -> ActionView {
        match self {
            Action::Reply { comment_id, category, args } => ActionView::Reply {
                comment_id,
                category,
                args: args@.map_values(|p: (String, String)| (p.0@, p.1@)),
            },
            Action::ReplyText { text } => ActionView::ReplyText { text: text@ },
            Action::SendStart { is_maintainer } => ActionView::SendStart { is_maintainer },
            Action::SendScored { score } => ActionView::SendScored { score },
            Action::SendPause => ActionView::SendPause,
            Action::SendUnpause => ActionView::SendUnpause,
            Action::SendExclude => ActionView::SendExclude,
            Action::SendMerge => ActionView::SendMerge,
            Action::SendFinalize => ActionView::SendFinalize,
            Action::SendStale => ActionView::SendStale,
        }
    }
}

/// The actions, with strings as character sequences.
pub open spec fn actions_view(actions: Seq<Action>) -> Seq<ActionView> {
    actions.map_values(|a: Action| a.view())
}

/// A reply without placeholders.
pub open spec fn plain_reply(comment_id: Option<u64>, category: MsgCategory) -> ActionView {
    ActionView::Reply { comment_id, category, args: Seq::empty() }
}

/// The reply to a pull request from an organization that is not allowed.
pub open spec fn not_allowed_text() -> Seq<char> {
    "The organization is not a part of the allowed organizations."@
}

/// What a request to take part does: nothing if the pull request already
/// takes part; an error if it is merged; else the welcome reply, then the
/// contract call.
pub open spec fn include_plan(
    sender: User,
    pr: PrMetadata,
    comment_id: Option<u64>,
    info: PRInfo,
) -> (Seq<ActionView>, bool) {
    if info.exist {
        (Seq::empty(), false)
    } else if pr.merged is Some {
        (seq![plain_reply(comment_id, MsgCategory::ErrorLateIncludeMessage)], false)
    } else {
        (
            seq![
                ActionView::Reply {
                    comment_id,
                    category: MsgCategory::IncludeBasicMessage,
                    args: seq![("pr-author-username"@, pr.author.login@)],
                },
                ActionView::SendStart {
                    is_maintainer: maintainer_association(sender.contributor_type),
                },
            ],
            false,
        )
    }
}

/// The reply to an accepted score.
pub open spec fn score_reply(e: BotScored, number: u8, edited: bool) -> ActionView {
    if edited {
        ActionView::Reply {
            comment_id: Some(e.comment_id),
            category: MsgCategory::CorrectableScoringMessage,
            args: seq![("corrected_score"@, decimal(number as nat)), ("score"@, e.score@)],
        }
    } else if number == 0 {
        plain_reply(Some(e.comment_id), MsgCategory::CorrectZeroScoringMessage)
    } else {
        plain_reply(Some(e.comment_id), MsgCategory::CorrectNonzeroScoringMessage)
    }
}

/// What a score does once the checks common to all commands passed, for the
/// score `number` (corrected if `edited`) read from the input.
pub open spec fn score_plan(e: BotScored, info: PRInfo, number: u8, edited: bool) -> (
    Seq<ActionView>,
    bool,
) {
    if !info.exist || info.executed {
        (Seq::empty(), false)
    } else if e.pr_metadata.author.login@ == e.sender.login@ {
        (seq![plain_reply(None, MsgCategory::ErrorSelfScore)], false)
    } else if !maintainer_association(e.sender.contributor_type) {
        (seq![plain_reply(None, MsgCategory::ErrorRightsViolationMessage)], false)
    } else {
        (seq![ActionView::SendScored { score: number }, score_reply(e, number, edited)], true)
    }
}

/// What a pause request does.
pub open spec fn pause_plan(e: BotPaused) -> (Seq<ActionView>, bool) {
    if !maintainer_association(e.sender.contributor_type) {
        (seq![plain_reply(None, MsgCategory::ErrorRightsViolationMessage)], false)
    } else {
        (
            seq![ActionView::SendPause, plain_reply(Some(e.comment_id), MsgCategory::PauseMessage)],
            true,
        )
    }
}

/// What a resume request does.
pub open spec fn unpause_plan(e: BotUnpaused, info: PRInfo) -> (Seq<ActionView>, bool) {
    if !maintainer_association(e.sender.contributor_type) {
        (Seq::empty(), false)
    } else if !info.allowed_repo {
        (
            seq![
                ActionView::SendUnpause,
                plain_reply(Some(e.comment_id), MsgCategory::UnpauseMessage),
            ],
            true,
        )
    } else {
        (seq![plain_reply(Some(e.comment_id), MsgCategory::ErrorUnpauseUnpausedMessage)], false)
    }
}

/// What an exclusion request does.
pub open spec fn exclude_plan(e: BotExcluded) -> (Seq<ActionView>, bool) {
    if !maintainer_association(e.author.contributor_type) {
        (seq![plain_reply(None, MsgCategory::ErrorRightsViolationMessage)], false)
    } else {
        (
            seq![
                ActionView::SendExclude,
                plain_reply(Some(e.comment_id), MsgCategory::ExcludeMessages),
            ],
            true,
        )
    }
}

/// What an unknown command does: the first call on a pull request includes
/// it; otherwise the bot says it does not know the command.
pub open spec fn unknown_plan(e: UnknownCommand, info: PRInfo) -> (Seq<ActionView>, bool) {
    if !info.exist {
        include_plan(e.user, e.pr_metadata, Some(e.comment_id), info)
    } else {
        (seq![plain_reply(None, MsgCategory::ErrorUnknownCommandMessage)], false)
    }
}

/// The checks every command goes through first: a pull request from an
/// organization that is not allowed gets a reply; executed pull requests,
/// paused repositories (except to resume them) and excluded pull requests
/// (except to include them again) are skipped.
pub open spec fn precheck(c: Command, info: PRInfo) -> Option<(Seq<ActionView>, bool)> {
    if !info.allowed_org {
        Some((seq![ActionView::ReplyText { text: not_allowed_text() }], false))
    } else if info.executed {
        Some((Seq::empty(), false))
    } else if !info.allowed_repo && !(c is Unpause) {
        Some((Seq::empty(), false))
    } else if info.excluded && !(c is Include) {
        Some((Seq::empty(), false))
    } else {
        None
    }
}

/// Whether `res` is what the bot does about command `c`, the score of a
/// score command being read from its input.
pub open spec fn is_plan(c: Command, info: PRInfo, res: (Seq<ActionView>, bool)) -> bool {
    match precheck(c, info) {
        Some(p) => res == p,
        None => match c {
            Command::Include(e) => res == include_plan(e.sender, e.pr_metadata, e.comment_id, info),
            Command::Score(e) => exists|number: u8, edited: bool|
                score_reading(e.score@, (number, edited)) && res == score_plan(
                    e,
                    info,
                    number,
                    edited,
                ),
            Command::Pause(e) => res == pause_plan(e),
            Command::Unpause(e) => res == unpause_plan(e, info),
            Command::Excluded(e) => res == exclude_plan(e),
            Command::Unknown(e) => res == unknown_plan(e, info),
        },
    }
}

fn reply(comment_id: Option<u64>, category: MsgCategory) -> (res: Action)
    ensures
        res.view() == plain_reply(comment_id, category),
{
    let args: Vec<(String, String)> = Vec::new();
    let res = Action::Reply { comment_id, category, args };
    assert(res.view() =~= plain_reply(comment_id, category));
    res
}

fn literal(s: &str) -> (res: String)
    ensures
        res@ == s@,
{
    let mut r = String::new();
    push_str(&mut r, s);
    assert(r@ =~= s@);
    r
}

fn copy_login(s: &String) -> (res: String)
    ensures
        res@ == s@,
{
    s.clone()
}

fn plan_include(sender: &User, pr: &PrMetadata, comment_id: Option<u64>, info: &PRInfo) -> (res: (
    Vec<Action>,
    bool,
))
    ensures
        (actions_view(res.0@), res.1) == include_plan(*sender, *pr, comment_id, *info),
{
    let mut actions: Vec<Action> = Vec::new();
    if info.exist {
        assert(actions_view(actions@) =~= Seq::<ActionView>::empty());
        return (actions, false);
    }
    if pr.merged.is_some() {
        actions.push(reply(comment_id, MsgCategory::ErrorLateIncludeMessage));
        assert(actions_view(actions@) =~= seq![
            plain_reply(comment_id, MsgCategory::ErrorLateIncludeMessage),
        ]);
        return (actions, false);
    }
    let mut args: Vec<(String, String)> = Vec::new();
    let key = literal("pr-author-username");
    let value = copy_login(&pr.author.login);
    args.push((key, value));
    let welcome = Action::Reply { comment_id, category: MsgCategory::IncludeBasicMessage, args };
    proof {
        reveal_strlit("pr-author-username");
    }
    assert(welcome.view() =~= (ActionView::Reply {
        comment_id,
        category: MsgCategory::IncludeBasicMessage,
        args: seq![("pr-author-username"@, pr.author.login@)],
    }));
    actions.push(welcome);
    actions.push(Action::SendStart { is_maintainer: sender.is_maintainer() });
    assert(actions_view(actions@) =~= include_plan(*sender, *pr, comment_id, *info).0);
    (actions, false)
}

fn plan_score(e: &BotScored, info: &PRInfo) -> (res: (Vec<Action>, bool))
    ensures
        exists|number: u8, edited: bool|
            score_reading(e.score@, (number, edited)) && (actions_view(res.0@), res.1)
                == score_plan(*e, *info, number, edited),
{
    let mut actions: Vec<Action> = Vec::new();
    let (number, edited) = e.score();
    if !info.exist || info.executed {
        assert(actions_view(actions@) =~= Seq::<ActionView>::empty());
        return (actions, false);
    }
    if e.pr_metadata.author.login == e.sender.login {
        actions.push(reply(None, MsgCategory::ErrorSelfScore));
        assert(actions_view(actions@) =~= score_plan(*e, *info, number, edited).0);
        return (actions, false);
    }
    if !e.sender.is_maintainer() {
        actions.push(reply(None, MsgCategory::ErrorRightsViolationMessage));
        assert(actions_view(actions@) =~= score_plan(*e, *info, number, edited).0);
        return (actions, false);
    }
    actions.push(Action::SendScored { score: number });
    if edited {
        let mut args: Vec<(String, String)> = Vec::new();
        args.push((literal("corrected_score"), decimal_string(number as u64)));
        args.push((literal("score"), copy_login(&e.score)));
        let r = Action::Reply {
            comment_id: Some(e.comment_id),
            category: MsgCategory::CorrectableScoringMessage,
            args,
        };
        proof {
            reveal_strlit("corrected_score");
            reveal_strlit("score");
        }
        assert(r.view() =~= score_reply(*e, number, edited));
        actions.push(r);
    } else if number == 0 {
        actions.push(reply(Some(e.comment_id), MsgCategory::CorrectZeroScoringMessage));
    } else {
        actions.push(reply(Some(e.comment_id), MsgCategory::CorrectNonzeroScoringMessage));
    }
    assert(actions_view(actions@) =~= score_plan(*e, *info, number, edited).0);
    (actions, true)
}

impl Command {
    /// What the bot does about this command given what the contract reports
    /// about the pull request: the actions in order, and whether the
    /// command changed the pull request's state.
    #[verifier::spinoff_prover]
    pub fn plan(&self, info: &PRInfo) -> (res: (Vec<Action>, bool))
        ensures
            is_plan(*self, *info, (actions_view(res.0@), res.1)),
    {
        let mut actions: Vec<Action> = Vec::new();
        if !info.allowed_org {
            actions.push(
                Action::ReplyText {
                    text: literal("The organization is not a part of the allowed organizations."),
                },
            );
            assert(actions_view(actions@) =~= seq![ActionView::ReplyText { text: not_allowed_text() }]);
            return (actions, false);
        }
        if info.executed {
            assert(actions_view(actions@) =~= Seq::<ActionView>::empty());
            return (actions, false);
        }
        let is_unpause = match self {
            Command::Unpause(_) => true,
            _ => false,
        };
        if !info.allowed_repo && !is_unpause {
            assert(actions_view(actions@) =~= Seq::<ActionView>::empty());
            return (actions, false);
        }
        let is_include = match self {
            Command::Include(_) => true,
            _ => false,
        };
        if info.excluded && !is_include {
            assert(actions_view(actions@) =~= Seq::<ActionView>::empty());
            return (actions, false);
        }
        match self {
            Command::Include(e) => plan_include(&e.sender, &e.pr_metadata, e.comment_id, info),
            Command::Score(e) => plan_score(e, info),
            Command::Pause(e) => {
                if !e.sender.is_maintainer() {
                    actions.push(reply(None, MsgCategory::ErrorRightsViolationMessage));
                    assert(actions_view(actions@) =~= pause_plan(*e).0);
                    (actions, false)
                } else {
                    actions.push(Action::SendPause);
                    actions.push(reply(Some(e.comment_id), MsgCategory::PauseMessage));
                    assert(actions_view(actions@) =~= pause_plan(*e).0);
                    (actions, true)
                }
            },
            Command::Unpause(e) => {
                if !e.sender.is_maintainer() {
                    assert(actions_view(actions@) =~= unpause_plan(*e, *info).0);
                    (actions, false)
                } else if !info.allowed_repo {
                    actions.push(Action::SendUnpause);
                    actions.push(reply(Some(e.comment_id), MsgCategory::UnpauseMessage));
                    assert(actions_view(actions@) =~= unpause_plan(*e, *info).0);
                    (actions, true)
                } else {
                    actions.push(reply(Some(e.comment_id), MsgCategory::ErrorUnpauseUnpausedMessage));
                    assert(actions_view(actions@) =~= unpause_plan(*e, *info).0);
                    (actions, false)
                }
            },
            Command::Excluded(e) => {
                if !e.author.is_maintainer() {
                    actions.push(reply(None, MsgCategory::ErrorRightsViolationMessage));
                    assert(actions_view(actions@) =~= exclude_plan(*e).0);
                    (actions, false)
                } else {
                    actions.push(Action::SendExclude);
                    actions.push(reply(Some(e.comment_id), MsgCategory::ExcludeMessages));
                    assert(actions_view(actions@) =~= exclude_plan(*e).0);
                    (actions, true)
                }
            },
            Command::Unknown(e) => {
                if !info.exist {
                    plan_include(&e.user, &e.pr_metadata, Some(e.comment_id), info)
                } else {
                    actions.push(reply(None, MsgCategory::ErrorUnknownCommandMessage));
                    assert(actions_view(actions@) =~= unknown_plan(*e, *info).0);
                    (actions, false)
                }
            },
        }
    }
}

// ---------------------------------------------------------------------------
// Laws.
// ---------------------------------------------------------------------------
/// Only a maintainer's command calls the contract to pause, resume, exclude
/// or score; for anyone else the bot at most replies.
pub proof fn law_only_maintainers_change_state(
    c: Command,
    info: PRInfo,
    res: (Seq<ActionView>, bool),
)
    requires
        is_plan(c, info, res),
        !maintainer_association(c.spec_sender().contributor_type),
        !(c is Include),
        !(c is Unknown),
    ensures
        !res.1,
        forall|i: int|
            0 <= i < res.0.len() ==> (#[trigger] res.0[i]) is Reply || res.0[i] is ReplyText,
{
    if precheck(c, info) is None {
        if let Command::Score(e) = c {
            let (number, edited) = choose|number: u8, edited: bool|
                score_reading(e.score@, (number, edited)) && res == score_plan(
                    e,
                    info,
                    number,
                    edited,
                );
        }
    }
}

/// A pull request of an organization that is not allowed is never changed:
/// the only action is the reply saying so.
pub proof fn law_disallowed_org_only_replies(c: Command, info: PRInfo, res: (Seq<ActionView>, bool))
    requires
        is_plan(c, info, res),
        !info.allowed_org,
    ensures
        res == (seq![ActionView::ReplyText { text: not_allowed_text() }], false),
{
}

/// Nothing happens on an executed pull request, whatever the command.
pub proof fn law_executed_is_final(c: Command, info: PRInfo, res: (Seq<ActionView>, bool))
    requires
        is_plan(c, info, res),
        info.allowed_org,
        info.executed,
    ensures
        res.0.len() == 0,
        !res.1,
{
}

/// A contract call always answers the command that asks for it: only a pause
/// command pauses the repository, only a resume command resumes it, only an
/// exclusion excludes the pull request, only a score scores it, and only an
/// inclusion (or the first unknown command on a pull request) includes it.
pub proof fn law_contract_calls_match_command(
    c: Command,
    info: PRInfo,
    res: (Seq<ActionView>, bool),
)
    requires
        is_plan(c, info, res),
    ensures
        forall|i: int|
            0 <= i < res.0.len() ==> {
                &&& (#[trigger] res.0[i]) is SendPause ==> c is Pause
                &&& res.0[i] is SendUnpause ==> c is Unpause
                &&& res.0[i] is SendExclude ==> c is Excluded
                &&& res.0[i] is SendScored ==> c is Score
                &&& res.0[i] is SendStart ==> c is Include || c is Unknown
                &&& !(res.0[i] is SendMerge || res.0[i] is SendFinalize || res.0[i] is SendStale)
            },
{
    if precheck(c, info) is None {
        if let Command::Score(e) = c {
            let (number, edited) = choose|number: u8, edited: bool|
                score_reading(e.score@, (number, edited)) && res == score_plan(
                    e,
                    info,
                    number,
                    edited,
                );
        }
    }
}

/// A maintainer's pause, resume or exclusion that passes the checks common
/// to all commands (an allowed organization, a pull request neither executed
/// nor excluded, a repository that is active, or paused for a resume)
/// changes the state: the first action is the matching contract call, the
/// second the reply to the comment that asked for it.
pub proof fn law_maintainer_requests_reach_contract(
    c: Command,
    info: PRInfo,
    res: (Seq<ActionView>, bool),
)
    requires
        is_plan(c, info, res),
        maintainer_association(c.spec_sender().contributor_type),
        info.allowed_org,
        !info.executed,
        !info.excluded,
        (c is Pause && info.allowed_repo) || (c is Excluded && info.allowed_repo) || (c is Unpause
            && !info.allowed_repo),
    ensures
        res.1,
        res.0.len() == 2,
        c is Pause ==> res.0[0] == ActionView::SendPause,
        c is Unpause ==> res.0[0] == ActionView::SendUnpause,
        c is Excluded ==> res.0[0] == ActionView::SendExclude,
        c matches Command::Pause(e) ==> res.0[1] == plain_reply(
            Some(e.comment_id),
            MsgCategory::PauseMessage,
        ),
        c matches Command::Unpause(e) ==> res.0[1] == plain_reply(
            Some(e.comment_id),
            MsgCategory::UnpauseMessage,
        ),
        c matches Command::Excluded(e) ==> res.0[1] == plain_reply(
            Some(e.comment_id),
            MsgCategory::ExcludeMessages,
        ),
{
}

} // verus!
